//! Layer batching: grouping, allocation sizing, upload order, passes.

use std::cell::RefCell;
use std::rc::Rc;

use vector_image_renderer::Context;
use vector_image_renderer::Device;
use vector_image_renderer::DrawCmd;
use vector_image_renderer::FillStyle;
use vector_image_renderer::GeometryBuilder;
use vector_image_renderer::GpuAddress;
use vector_image_renderer::GpuAddressRange;
use vector_image_renderer::GpuAddressType;
use vector_image_renderer::GpuColorF;
use vector_image_renderer::GpuMemory;
use vector_image_renderer::GpuTransform2D;
use vector_image_renderer::PathData;
use vector_image_renderer::Pattern;
use vector_image_renderer::RenderError;
use vector_image_renderer::RenderPassOptions;
use vector_image_renderer::Shape;
use vector_image_renderer::VectorImageBuilder;

/// What one device call looked like, as seen from outside the engine.
#[derive(Clone, Debug, PartialEq, Eq)]
struct Upload {
    start: u32,
    end: u32,
    words: Vec<u32>,
}

struct RecordingDevice {
    alloc: u32,
    allocs: Rc<RefCell<Vec<u32>>>,
    uploads: Rc<RefCell<Vec<Upload>>>,
}

impl Device for RecordingDevice {
    fn allocate_gpu_data(&mut self, size: u32) -> GpuAddressRange {
        self.allocs.borrow_mut().push(size);
        let start = self.alloc;
        self.alloc += size;
        let end = self.alloc;
        GpuAddressRange::new(GpuAddress::global(start), GpuAddress::global(end))
    }
    fn set_gpu_data(&mut self, range: GpuAddressRange, data: &GpuMemory) {
        assert!(self.alloc >= range.end().offset());
        self.uploads.borrow_mut().push(Upload {
            start: range.start().offset(),
            end: range.end().offset(),
            words: data.as_slice().to_vec(),
        });
    }
    fn submit_geometry(&mut self, _geom: GeometryBuilder) {}
    fn render_pass(&mut self, _cmds: &[DrawCmd], _options: &RenderPassOptions) {}
}

fn identity_transform() -> GpuTransform2D {
    GpuTransform2D::new([
        1.0f32.to_bits(),
        0.0f32.to_bits(),
        0.0f32.to_bits(),
        1.0f32.to_bits(),
        0.0f32.to_bits(),
        0.0f32.to_bits(),
    ])
}

fn square_path() -> PathData {
    let mut path = PathData::new();
    path.move_to(1.0f32.to_bits(), 1.0f32.to_bits());
    path.line_to(2.0f32.to_bits(), 1.0f32.to_bits());
    path.line_to(2.0f32.to_bits(), 2.0f32.to_bits());
    path.line_to(1.0f32.to_bits(), 2.0f32.to_bits());
    path.close();
    path
}

fn color_of(level: f32) -> GpuColorF {
    GpuColorF {
        r: level.to_bits(),
        g: 0.0f32.to_bits(),
        b: 0.0f32.to_bits(),
        a: 1.0f32.to_bits(),
    }
}

/// One square fill against a fresh builder; 16 words of instance memory.
fn filled_builder(builder: &mut VectorImageBuilder) {
    let transform = builder.add_transform(&identity_transform());
    let color = builder.add_color(&color_of(1.0));
    builder
        .fill(
            Shape::Path { path: square_path(), tolerance: 0.01f32.to_bits() },
            FillStyle { pattern: Pattern::Color(color) },
            [transform, transform],
        )
        .unwrap();
}

#[test]
fn layer_allocates_mem_per_instance_times_count() {
    let allocs = Rc::new(RefCell::new(Vec::new()));
    let uploads = Rc::new(RefCell::new(Vec::new()));
    let device = RecordingDevice {
        alloc: 0,
        allocs: Rc::clone(&allocs),
        uploads: Rc::clone(&uploads),
    };
    let mut ctx = Context::new(device);

    let mut builder = ctx.new_vector_image();
    let transform = builder.add_transform(&identity_transform());
    let color = builder.add_color(&color_of(1.0));
    builder
        .fill(
            Shape::Path { path: square_path(), tolerance: 0.01f32.to_bits() },
            FillStyle { pattern: Pattern::Color(color) },
            [transform, transform],
        )
        .unwrap();
    let geom = ctx.new_geometry();
    let (instance, _plan) = builder.build(&geom).unwrap();
    assert_eq!(instance.base().mem_per_instance(), 16);

    // Three instances with distinct color words, added in order.
    let first = Rc::new(instance);
    let mut second = first.clone_instance();
    second.set_color(color, &color_of(0.5));
    let second = Rc::new(second);
    let mut third = first.clone_instance();
    third.set_color(color, &color_of(0.25));
    let third = Rc::new(third);

    let mut layer = ctx.new_layer();
    layer.add(Rc::clone(&first));
    layer.add(Rc::clone(&second));
    layer.add(Rc::clone(&third));

    let layer = layer.build(&mut ctx).unwrap();

    assert_eq!(&*allocs.borrow(), &vec![48u32]);
    let uploads = uploads.borrow();
    assert_eq!(uploads.len(), 3);
    for (k, upload) in uploads.iter().enumerate() {
        assert_eq!(upload.start, 16 * k as u32);
        assert_eq!(upload.end, 16 * (k as u32 + 1));
        assert_eq!(upload.words.len(), 16);
    }
    // Depth order equals submission order here: the layer's depth counter
    // strictly increases with every added instance of this image.
    assert_eq!(uploads[0].words, first.gpu_data().as_slice().to_vec());
    assert_eq!(uploads[1].words, second.gpu_data().as_slice().to_vec());
    assert_eq!(uploads[2].words, third.gpu_data().as_slice().to_vec());

    let fill_pass = layer.fill_pass();
    assert_eq!(fill_pass.len(), 1);
    assert_eq!(fill_pass[0].num_instances, 3);
    assert_eq!(fill_pass[0].base_address.offset(), 0);
    assert_eq!(fill_pass[0].base_address.address_type(), GpuAddressType::Global);
}

#[test]
fn two_instances_one_cmd_and_empty_stroke_pass() {
    let allocs = Rc::new(RefCell::new(Vec::new()));
    let uploads = Rc::new(RefCell::new(Vec::new()));
    let device = RecordingDevice {
        alloc: 0,
        allocs: Rc::clone(&allocs),
        uploads: Rc::clone(&uploads),
    };
    let mut ctx = Context::new(device);

    let mut builder = ctx.new_vector_image();
    filled_builder(&mut builder);
    let geom = ctx.new_geometry();
    let (instance, _plan) = builder.build(&geom).unwrap();

    // A second image is built but never added to the layer.
    let mut other_builder = ctx.new_vector_image();
    filled_builder(&mut other_builder);
    let other_geom = ctx.new_geometry();
    let (other_instance, _other_plan) = other_builder.build(&other_geom).unwrap();

    let img0 = Rc::new(instance);
    let img1 = Rc::new(img0.clone_instance());

    let mut layer = ctx.new_layer();
    layer.add(Rc::clone(&img0));
    layer.add(Rc::clone(&img1));

    let layer = layer.build(&mut ctx).unwrap();

    let fill_pass = layer.fill_pass();
    assert_eq!(fill_pass.len(), 1);
    assert_eq!(fill_pass[0].num_instances, 2);
    assert_eq!(fill_pass[0].geometry, img0.base().geometry());
    assert!(layer.stroke_pass().is_empty());
    let _ = other_instance;
}

#[test]
fn oversized_layer_allocation_fails() {
    let allocs = Rc::new(RefCell::new(Vec::new()));
    let uploads = Rc::new(RefCell::new(Vec::new()));
    let device = RecordingDevice {
        alloc: 0,
        allocs: Rc::clone(&allocs),
        uploads: Rc::clone(&uploads),
    };
    let mut ctx = Context::new(device);

    let mut builder = ctx.new_vector_image();
    filled_builder(&mut builder);
    let geom = ctx.new_geometry();
    let (instance, _plan) = builder.build(&geom).unwrap();
    assert_eq!(instance.base().mem_per_instance(), 16);

    // 16 words each; 1048576 instances overrun the 16777215-word offset
    // field by one word.
    let shared = Rc::new(instance);
    let mut layer = ctx.new_layer();
    let mut k = 0u32;
    while k < 1_048_576 {
        layer.add(Rc::clone(&shared));
        k += 1;
    }
    let err = match layer.build(&mut ctx) {
        Ok(_) => panic!("an oversized layer must refuse the build"),
        Err(e) => e,
    };
    assert_eq!(err, RenderError::AllocationTooLarge);
}

#[test]
fn empty_layer_has_empty_passes() {
    let allocs = Rc::new(RefCell::new(Vec::new()));
    let uploads = Rc::new(RefCell::new(Vec::new()));
    let device = RecordingDevice {
        alloc: 0,
        allocs: Rc::clone(&allocs),
        uploads: Rc::clone(&uploads),
    };
    let mut ctx = Context::new(device);
    let layer = ctx.new_layer();
    let layer = layer.build(&mut ctx).unwrap();
    assert!(layer.fill_pass().is_empty());
    assert!(layer.stroke_pass().is_empty());
    assert!(allocs.borrow().is_empty());
    assert!(uploads.borrow().is_empty());
}

#[test]
fn image_without_operations_contributes_no_draw_cmds() {
    let allocs = Rc::new(RefCell::new(Vec::new()));
    let uploads = Rc::new(RefCell::new(Vec::new()));
    let device = RecordingDevice {
        alloc: 0,
        allocs: Rc::clone(&allocs),
        uploads: Rc::clone(&uploads),
    };
    let mut ctx = Context::new(device);

    // A transform but no fill or stroke: the image consumes no depth and
    // draws nothing, though its instance memory is still uploaded.
    let mut builder = ctx.new_vector_image();
    builder.add_transform(&identity_transform());
    let geom = ctx.new_geometry();
    let (instance, plan) = builder.build(&geom).unwrap();
    assert!(plan.fill_jobs.is_empty());
    assert!(plan.stroke_jobs.is_empty());
    assert_eq!(instance.base().z_range(), 0);
    assert_eq!(instance.base().mem_per_instance(), 8);

    let mut layer = ctx.new_layer();
    layer.add(Rc::new(instance));
    let layer = layer.build(&mut ctx).unwrap();
    assert!(layer.fill_pass().is_empty());
    assert!(layer.stroke_pass().is_empty());
    assert_eq!(&*allocs.borrow(), &vec![8u32]);
    assert_eq!(uploads.borrow().len(), 1);
}

#[test]
fn equal_depth_instances_upload_in_submission_order() {
    let allocs = Rc::new(RefCell::new(Vec::new()));
    let uploads = Rc::new(RefCell::new(Vec::new()));
    let device = RecordingDevice {
        alloc: 0,
        allocs: Rc::clone(&allocs),
        uploads: Rc::clone(&uploads),
    };
    let mut ctx = Context::new(device);

    // An image with no operations has a zero depth budget, so every added
    // instance ties at the same depth: submission order must be kept.
    let mut builder = ctx.new_vector_image();
    let transform = builder.add_transform(&identity_transform());
    let geom = ctx.new_geometry();
    let (instance, _plan) = builder.build(&geom).unwrap();

    let first = Rc::new(instance);
    let mut second = first.clone_instance();
    second.set_transform(
        transform,
        &GpuTransform2D::new([
            2.0f32.to_bits(),
            0.0f32.to_bits(),
            0.0f32.to_bits(),
            2.0f32.to_bits(),
            0.0f32.to_bits(),
            0.0f32.to_bits(),
        ]),
    );
    let second = Rc::new(second);

    let mut layer = ctx.new_layer();
    layer.add(Rc::clone(&first));
    layer.add(Rc::clone(&second));
    let _layer = layer.build(&mut ctx).unwrap();

    let uploads = uploads.borrow();
    assert_eq!(uploads.len(), 2);
    assert_eq!(uploads[0].words, first.gpu_data().as_slice().to_vec());
    assert_eq!(uploads[1].words, second.gpu_data().as_slice().to_vec());
    assert_ne!(uploads[0].words, uploads[1].words);
}
