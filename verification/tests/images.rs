//! Building vector images, instancing, and the end-to-end scenario.

use std::rc::Rc;

use vector_image_renderer::Context;
use vector_image_renderer::DataType;
use vector_image_renderer::GpuAddressType;
use vector_image_renderer::Device;
use vector_image_renderer::DrawCmd;
use vector_image_renderer::FillStyle;
use vector_image_renderer::GeometryBuilder;
use vector_image_renderer::GpuAddress;
use vector_image_renderer::GpuAddressRange;
use vector_image_renderer::GpuColorF;
use vector_image_renderer::GpuMemory;
use vector_image_renderer::GpuTransform2D;
use vector_image_renderer::Layer;
use vector_image_renderer::PathData;
use vector_image_renderer::Pattern;
use vector_image_renderer::Rect;
use vector_image_renderer::RenderError;
use vector_image_renderer::RenderPassOptions;
use vector_image_renderer::Shape;
use vector_image_renderer::StrokeOptions;
use vector_image_renderer::StrokeStyle;
use vector_image_renderer::TessellationPlan;
use vector_image_renderer::VertexCtor;
use vector_image_renderer::ImageId;

struct DummyDevice(u32);

impl Device for DummyDevice {
    fn allocate_gpu_data(&mut self, size: u32) -> GpuAddressRange {
        let start = self.0;
        self.0 += size;
        let end = self.0;
        GpuAddressRange::new(GpuAddress::global(start), GpuAddress::global(end))
    }
    fn set_gpu_data(&mut self, range: GpuAddressRange, _data: &GpuMemory) {
        assert!(self.0 >= range.end().offset());
    }
    fn submit_geometry(&mut self, _geom: GeometryBuilder) {}
    fn render_pass(&mut self, _cmds: &[DrawCmd], _options: &RenderPassOptions) {}
}

fn identity_transform() -> GpuTransform2D {
    GpuTransform2D::new([
        1.0f32.to_bits(),
        0.0f32.to_bits(),
        0.0f32.to_bits(),
        1.0f32.to_bits(),
        0.0f32.to_bits(),
        0.0f32.to_bits(),
    ])
}

fn red() -> GpuColorF {
    GpuColorF {
        r: 1.0f32.to_bits(),
        g: 0.0f32.to_bits(),
        b: 0.0f32.to_bits(),
        a: 1.0f32.to_bits(),
    }
}

fn square_path() -> PathData {
    let mut path = PathData::new();
    path.move_to(1.0f32.to_bits(), 1.0f32.to_bits());
    path.line_to(2.0f32.to_bits(), 1.0f32.to_bits());
    path.line_to(2.0f32.to_bits(), 2.0f32.to_bits());
    path.line_to(1.0f32.to_bits(), 2.0f32.to_bits());
    path.close();
    path
}

/// Plays the tessellation collaborator for a plan of path fills: emits one
/// fan of vertices per fill job, each vertex stamped with the job's
/// primitive address.
fn tessellate_fills(plan: &TessellationPlan, geom: &mut GeometryBuilder) {
    for job in plan.fill_jobs.iter() {
        let ctor = VertexCtor(job.prim_address);
        let corners = match &job.shape {
            Shape::Path { path, .. } => path.events().clone(),
            Shape::Circle { .. } => panic!("only paths can be tessellated"),
        };
        let zero = 0.0f32.to_bits();
        let base = geom.fill().vertices.len() as u32;
        let mut count = 0u32;
        for event in corners.iter() {
            match event {
                vector_image_renderer::PathEvent::MoveTo { x, y }
                | vector_image_renderer::PathEvent::LineTo { x, y } => {
                    let v = ctor.new_fill_vertex([*x, *y], [zero, zero]);
                    geom.push_fill_vertex(v);
                    count += 1;
                }
                vector_image_renderer::PathEvent::Close => {}
            }
        }
        let mut k = 2u32;
        while k < count {
            geom.push_fill_index(base);
            geom.push_fill_index(base + k - 1);
            geom.push_fill_index(base + k);
            k += 1;
        }
    }
}

#[test]
fn simple_vector_image() {
    let mut ctx = Context::new(DummyDevice(0));

    let mut builder = ctx.new_vector_image();
    let mut geom = ctx.new_geometry();

    let transform = builder.add_transform(&identity_transform());
    let color = builder.add_color(&red());

    builder
        .fill(
            Shape::Path { path: square_path(), tolerance: 0.01f32.to_bits() },
            FillStyle { pattern: Pattern::Color(color) },
            [transform, transform],
        )
        .unwrap();

    let (instance, plan) = builder.build(&geom).unwrap();
    tessellate_fills(&plan, &mut geom);

    let img0 = Rc::new(instance);
    let img1 = Rc::new(img0.clone_instance());

    let prim_id = GpuAddress::global(geom.fill().vertices[0].prim_id);

    let mut layer = ctx.new_layer();
    layer.add(Rc::clone(&img0));
    layer.add(Rc::clone(&img1));

    ctx.submit_geometry(geom);
    let layer = layer.build(&mut ctx).unwrap();

    Layer::render_all(std::slice::from_ref(&layer), &mut ctx);

    let prim_offset = prim_id.offset() as usize;
    let expected = [
        0u32,
        color.address().to_raw(),
        transform.address().to_raw(),
        transform.address().to_raw(),
    ];
    assert_eq!(&img0.gpu_data().as_slice()[prim_offset..prim_offset + 4], &expected);
    assert_eq!(&img1.gpu_data().as_slice()[prim_offset..prim_offset + 4], &expected);
}

#[test]
fn clone_then_mutate_leaves_original_untouched() {
    let mut ctx = Context::new(DummyDevice(0));
    let mut builder = ctx.new_vector_image();
    let transform = builder.add_transform(&identity_transform());
    let color = builder.add_color(&red());
    builder
        .fill(
            Shape::Path { path: square_path(), tolerance: 0.01f32.to_bits() },
            FillStyle { pattern: Pattern::Color(color) },
            [transform, transform],
        )
        .unwrap();
    let geom = ctx.new_geometry();
    let (original, _plan) = builder.build(&geom).unwrap();

    let mut duplicate = original.clone_instance();
    assert_eq!(original.gpu_data().as_slice(), duplicate.gpu_data().as_slice());

    let green = GpuColorF {
        r: 0.0f32.to_bits(),
        g: 1.0f32.to_bits(),
        b: 0.0f32.to_bits(),
        a: 1.0f32.to_bits(),
    };
    let before: Vec<u32> = original.gpu_data().as_slice().to_vec();
    duplicate.set_color(color, &green);

    assert_eq!(original.gpu_data().as_slice(), &before[..]);
    let at = color.address().offset() as usize;
    assert_eq!(
        &duplicate.gpu_data().as_slice()[at..at + 4],
        &[green.r, green.g, green.b, green.a],
    );
    assert_eq!(&duplicate.gpu_data().as_slice()[..at], &before[..at]);
    assert_eq!(&duplicate.gpu_data().as_slice()[at + 4..], &before[at + 4..]);
}

#[test]
fn image_pattern_fill_fails() {
    let mut ctx = Context::new(DummyDevice(0));
    let mut builder = ctx.new_vector_image();
    let rect = Rect {
        min_x: 0.0f32.to_bits(),
        min_y: 0.0f32.to_bits(),
        max_x: 1.0f32.to_bits(),
        max_y: 1.0f32.to_bits(),
    };
    let t0 = builder.add_transform(&identity_transform());
    let t1 = builder.add_transform(&identity_transform());
    let result = builder.fill(
        Shape::Path { path: square_path(), tolerance: 0.01f32.to_bits() },
        FillStyle { pattern: Pattern::Image(rect, ImageId::new(7)) },
        [t0, t1],
    );
    assert_eq!(result.unwrap_err(), RenderError::UnsupportedPattern);

    // The refused request must not have consumed a depth index or written a
    // record: the next fill takes depth zero.
    let transform = builder.add_transform(&identity_transform());
    let color = builder.add_color(&red());
    let fill_id = builder
        .fill(
            Shape::Path { path: square_path(), tolerance: 0.01f32.to_bits() },
            FillStyle { pattern: Pattern::Color(color) },
            [transform, transform],
        )
        .unwrap();
    let geom = ctx.new_geometry();
    let (instance, _plan) = builder.build(&geom).unwrap();
    let at = fill_id.address().offset() as usize;
    assert_eq!(instance.gpu_data().as_slice()[at], 0u32);
}

#[test]
fn image_pattern_stroke_fails() {
    let mut ctx = Context::new(DummyDevice(0));
    let mut builder = ctx.new_vector_image();
    let rect = Rect {
        min_x: 0.0f32.to_bits(),
        min_y: 0.0f32.to_bits(),
        max_x: 1.0f32.to_bits(),
        max_y: 1.0f32.to_bits(),
    };
    let options = StrokeOptions { line_width: 1.0f32.to_bits(), tolerance: 0.01f32.to_bits() };
    let t0 = builder.add_transform(&identity_transform());
    let t1 = builder.add_transform(&identity_transform());
    let result = builder.stroke(
        Shape::Path { path: square_path(), tolerance: 0.01f32.to_bits() },
        StrokeStyle { pattern: Pattern::Image(rect, ImageId::new(7)) },
        &options,
        [t0, t1],
    );
    assert_eq!(result.unwrap_err(), RenderError::UnsupportedPattern);
}

#[test]
fn circle_shapes_refuse_the_build() {
    let mut ctx = Context::new(DummyDevice(0));
    let mut builder = ctx.new_vector_image();
    let transform = builder.add_transform(&identity_transform());
    let color = builder.add_color(&red());
    builder
        .fill(
            Shape::Circle {
                center_x: 0.0f32.to_bits(),
                center_y: 0.0f32.to_bits(),
                radius: 1.0f32.to_bits(),
                tolerance: 0.01f32.to_bits(),
            },
            FillStyle { pattern: Pattern::Color(color) },
            [transform, transform],
        )
        .unwrap();
    let geom = ctx.new_geometry();
    let err = match builder.build(&geom) {
        Ok(_) => panic!("a circle fill must refuse the build"),
        Err(e) => e,
    };
    assert_eq!(err, RenderError::UnsupportedShape);
}

#[test]
fn stroke_records_an_eight_word_primitive() {
    let mut ctx = Context::new(DummyDevice(0));
    let mut builder = ctx.new_vector_image();
    let transform = builder.add_transform(&identity_transform());
    let color = builder.add_color(&red());
    let width = 2.5f32.to_bits();
    let options = StrokeOptions { line_width: width, tolerance: 0.01f32.to_bits() };
    let stroke_id = builder
        .stroke(
            Shape::Path { path: square_path(), tolerance: 0.01f32.to_bits() },
            StrokeStyle { pattern: Pattern::Color(color) },
            &options,
            [transform, transform],
        )
        .unwrap();
    let geom = ctx.new_geometry();
    let (instance, plan) = builder.build(&geom).unwrap();
    assert_eq!(plan.fill_jobs.len(), 0);
    assert_eq!(plan.stroke_jobs.len(), 1);
    assert_eq!(plan.stroke_jobs[0].options, options);
    let at = stroke_id.address().offset() as usize;
    let words = instance.gpu_data().as_slice();
    assert_eq!(
        &words[at..at + 8],
        &[
            0u32,
            color.address().to_raw(),
            transform.address().to_raw(),
            transform.address().to_raw(),
            width,
            0,
            0,
            0,
        ],
    );
    assert!(instance.base().contains_stroke_ops());
    assert!(!instance.base().contains_fill_ops());
    assert_eq!(instance.base().z_range(), 1);
    assert_eq!(instance.base().mem_per_instance(), 20);
}

#[test]
fn build_replays_commands_in_reverse_order() {
    let mut ctx = Context::new(DummyDevice(0));
    let mut builder = ctx.new_vector_image();
    let transform = builder.add_transform(&identity_transform());
    let color = builder.add_color(&red());
    let first = builder
        .fill(
            Shape::Path { path: square_path(), tolerance: 0.01f32.to_bits() },
            FillStyle { pattern: Pattern::Color(color) },
            [transform, transform],
        )
        .unwrap();
    let second = builder
        .fill(
            Shape::Path { path: square_path(), tolerance: 0.02f32.to_bits() },
            FillStyle { pattern: Pattern::Color(color) },
            [transform, transform],
        )
        .unwrap();
    let geom = ctx.new_geometry();
    let (instance, plan) = builder.build(&geom).unwrap();
    assert_eq!(plan.fill_jobs.len(), 2);
    assert_eq!(plan.fill_jobs[0].prim_address, second.address());
    assert_eq!(plan.fill_jobs[1].prim_address, first.address());
    assert_eq!(instance.base().z_range(), 2);
    // Depth indices were assigned in insertion order.
    let words = instance.gpu_data().as_slice();
    assert_eq!(words[first.address().offset() as usize], 0);
    assert_eq!(words[second.address().offset() as usize], 1);
}

#[test]
fn shared_layout_hands_out_shared_addresses() {
    let mut ctx = Context::new(DummyDevice(0));
    let mut builder = ctx.new_vector_image();
    let layout = builder.shared_data_mut();
    let a = layout.allocate(DataType::vec4());
    let b = layout.allocate(DataType::float());
    assert_eq!(a.address_type(), GpuAddressType::Shared);
    assert_eq!(b.address_type(), GpuAddressType::Shared);
    assert_eq!(a.offset(), 0);
    assert_eq!(b.offset(), 4);
}

#[test]
fn stroke_vertices_carry_the_primitive_address() {
    let mut ctx = Context::new(DummyDevice(0));
    let mut builder = ctx.new_vector_image();
    let transform = builder.add_transform(&identity_transform());
    let color = builder.add_color(&red());
    let width = 1.5f32.to_bits();
    let options = StrokeOptions { line_width: width, tolerance: 0.01f32.to_bits() };
    let stroke_id = builder
        .stroke(
            Shape::Path { path: square_path(), tolerance: 0.01f32.to_bits() },
            StrokeStyle { pattern: Pattern::Color(color) },
            &options,
            [transform, transform],
        )
        .unwrap();
    let mut geom = ctx.new_geometry();
    let (_instance, plan) = builder.build(&geom).unwrap();

    // Play the stroke tessellator for the one job: a short ribbon of
    // stamped vertices.
    let job = &plan.stroke_jobs[0];
    let ctor = VertexCtor(job.prim_address);
    let zero = 0.0f32.to_bits();
    let one = 1.0f32.to_bits();
    geom.push_stroke_vertex(ctor.new_stroke_vertex([zero, zero], [zero, one], zero));
    geom.push_stroke_vertex(ctor.new_stroke_vertex([one, zero], [zero, one], one));
    geom.push_stroke_index(0);
    geom.push_stroke_index(1);

    let vertices = &geom.stroke().vertices;
    assert_eq!(vertices.len(), 2);
    assert_eq!(vertices[0].prim_id, stroke_id.address().to_raw());
    assert_eq!(vertices[1].prim_id, stroke_id.address().to_raw());
    assert_eq!(vertices[1].advancement, one);
    assert_eq!(geom.stroke().indices, vec![0, 1]);
    assert!(geom.fill().vertices.is_empty());
}
