//! Vector images: recording, building, instancing.
//!
//! A [`VectorImageBuilder`] accumulates fill and stroke operations for one
//! vector image. Each operation takes the next depth index and writes a
//! primitive record into the image's own GPU memory; the shape and the
//! record's address are remembered for deferred tessellation. Building
//! consumes the builder: it replays the recorded commands in reverse
//! insertion order as a [`TessellationPlan`] for the tessellation
//! collaborator, and produces the immutable [`VectorImage`] descriptor
//! together with the first [`VectorImageInstance`], which owns the per
//! instance GPU words. Cloning an instance shares the immutable base but
//! deep-copies the words, so a clone's transforms and colors can be edited
//! without touching any sibling.

use vstd::prelude::*;

use crate::address::GPU_ADDR_OFFSET_MASK;
use crate::address::GpuAddress;
use crate::address::GpuAddressType;
use crate::blocks::FillPrimitive;
use crate::blocks::GpuColorF;
use crate::blocks::GpuTransform2D;
use crate::blocks::StrokePrimitive;
use crate::error::RenderError;
use crate::geometry::GeometryBuilder;
use crate::ids::ColorId;
use crate::ids::FillId;
use crate::ids::GeometryId;
use crate::ids::StrokeId;
use crate::ids::TransformId;
use crate::ids::VectorImageId;
use crate::layout::MemoryLayout;
use crate::memory::GpuMemory;
use crate::memory::overwritten;
use crate::shape::FillStyle;
use crate::shape::Pattern;
use crate::shape::Shape;
use crate::shape::StrokeOptions;
use crate::shape::StrokeStyle;
use std::rc::Rc;

verus! {

/// One recorded fill operation: the shape to tessellate and the address of
/// the primitive record every generated vertex will be stamped with.
pub struct OpaqueFillCmd {
    pub shape: Shape,
    pub prim_address: GpuAddress,
}

/// One recorded stroke operation: the shape, the primitive record's address,
/// and the stroke tessellation options captured by value.
pub struct OpaqueStrokeCmd {
    pub shape: Shape,
    pub prim_address: GpuAddress,
    pub options: StrokeOptions,
}

/// Records draw operations against one vector image and assigns each a
/// primitive record in the image's own GPU memory.
pub struct VectorImageBuilder {
    opaque_fill_cmds: Vec<OpaqueFillCmd>,
    opaque_stroke_cmds: Vec<OpaqueStrokeCmd>,
    gpu_data: GpuMemory,
    z_index: u32,
    id: VectorImageId,
    shared_data_layout: MemoryLayout,
    instance_data_layout: MemoryLayout,
}

impl VectorImageBuilder {
    /// The fill operations recorded so far, in insertion order.
    pub closed spec fn fill_cmds_spec(self) -> Seq<OpaqueFillCmd> {
        self.opaque_fill_cmds@
    }

    /// The stroke operations recorded so far, in insertion order.
    pub closed spec fn stroke_cmds_spec(self) -> Seq<OpaqueStrokeCmd> {
        self.opaque_stroke_cmds@
    }

    /// The words of the image's own GPU memory.
    pub closed spec fn gpu_data_spec(self) -> Seq<u32> {
        self.gpu_data@
    }

    /// The next depth index a draw operation will take; one per operation,
    /// never reused.
    pub closed spec fn z_index_spec(self) -> u32 {
        self.z_index
    }

    /// The image's id.
    pub closed spec fn id_spec(self) -> VectorImageId {
        self.id
    }

    /// The layout of the image's shared-uniform memory.
    pub closed spec fn shared_layout_spec(self) -> MemoryLayout {
        self.shared_data_layout
    }

    /// The layout of the image's per-instance memory.
    pub closed spec fn instance_layout_spec(self) -> MemoryLayout {
        self.instance_data_layout
    }

    pub(crate) fn new(id: VectorImageId) -> (r: Self)
        ensures
            r.fill_cmds_spec() =~= Seq::<OpaqueFillCmd>::empty(),
            r.stroke_cmds_spec() =~= Seq::<OpaqueStrokeCmd>::empty(),
            r.gpu_data_spec() =~= Seq::<u32>::empty(),
            r.z_index_spec() == 0,
            r.id_spec() == id,
            r.shared_layout_spec().wf(),
            r.shared_layout_spec().mem_type_spec() == GpuAddressType::Shared,
            r.shared_layout_spec().size_spec() == 0,
            r.shared_layout_spec().members_spec() =~= Seq::<crate::layout::Member>::empty(),
            r.shared_layout_spec().built_from(Seq::<crate::layout::DataType>::empty()),
            r.instance_layout_spec().wf(),
            r.instance_layout_spec().mem_type_spec() == GpuAddressType::Instance,
            r.instance_layout_spec().size_spec() == 0,
            r.instance_layout_spec().members_spec() =~= Seq::<crate::layout::Member>::empty(),
            r.instance_layout_spec().built_from(Seq::<crate::layout::DataType>::empty()),
    {
        VectorImageBuilder {
            gpu_data: GpuMemory::new(),
            opaque_fill_cmds: Vec::new(),
            opaque_stroke_cmds: Vec::new(),
            z_index: 0,
            id,
            shared_data_layout: MemoryLayout::new(GpuAddressType::Shared),
            instance_data_layout: MemoryLayout::new(GpuAddressType::Instance),
        }
    }

    /// Records a fill of `shape`: takes the next depth index, writes a fill
    /// primitive into the image's GPU memory, and remembers the shape with
    /// the record's address for deferred tessellation. Only color patterns
    /// are supported; an image pattern is refused outright, leaving the
    /// builder untouched.
    pub fn fill(&mut self, shape: Shape, style: FillStyle, transforms: [TransformId; 2]) -> (r:
        Result<FillId, RenderError>)
        requires
            old(self).z_index_spec() < u32::MAX,
            old(self).gpu_data_spec().len() <= GPU_ADDR_OFFSET_MASK,
        ensures
            final(self).id_spec() == old(self).id_spec(),
            final(self).shared_layout_spec() == old(self).shared_layout_spec(),
            final(self).instance_layout_spec() == old(self).instance_layout_spec(),
            final(self).stroke_cmds_spec() == old(self).stroke_cmds_spec(),
            match style.pattern {
                Pattern::Color(color) => {
                    &&& r matches Ok(fill_id)
                    &&& fill_id.addr_spec().wf()
                    &&& fill_id.addr_spec().address_type_spec() == GpuAddressType::Global
                    &&& fill_id.addr_spec().offset_spec() == old(self).gpu_data_spec().len()
                    &&& fill_id.addr_spec().raw_spec() == old(self).gpu_data_spec().len()
                    &&& final(self).gpu_data_spec() =~= old(self).gpu_data_spec() + (FillPrimitive {
                        z_index: old(self).z_index_spec(),
                        color,
                        transforms,
                    }).words_spec()
                    &&& final(self).z_index_spec() == old(self).z_index_spec() + 1
                    &&& final(self).fill_cmds_spec() =~= old(self).fill_cmds_spec().push(
                        OpaqueFillCmd { shape, prim_address: fill_id.addr_spec() },
                    )
                },
                Pattern::Image(_, _) => {
                    &&& r matches Err(e) && e == RenderError::UnsupportedPattern
                    &&& final(self).gpu_data_spec() == old(self).gpu_data_spec()
                    &&& final(self).z_index_spec() == old(self).z_index_spec()
                    &&& final(self).fill_cmds_spec() == old(self).fill_cmds_spec()
                },
            },
    {
        let color = match style.pattern {
            Pattern::Color(color) => color,
            Pattern::Image(_, _) => {
                return Err(RenderError::UnsupportedPattern);
            },
        };
        let z = self.z_index;
        self.z_index = self.z_index + 1;
        let prim = FillPrimitive::new(z, color, transforms);
        let words = prim.to_words();
        let address = self.gpu_data.push(words.as_slice());
        self.opaque_fill_cmds.push(OpaqueFillCmd { shape, prim_address: address });
        Ok(FillId::from_address(address))
    }

    /// Records a stroke of `shape`: takes the next depth index, writes a
    /// stroke primitive carrying the options' line width, and remembers the
    /// shape, the record's address and the options for deferred
    /// tessellation. Only color patterns are supported.
    pub fn stroke(
        &mut self,
        shape: Shape,
        style: StrokeStyle,
        options: &StrokeOptions,
        transforms: [TransformId; 2],
    ) -> (r: Result<StrokeId, RenderError>)
        requires
            old(self).z_index_spec() < u32::MAX,
            old(self).gpu_data_spec().len() <= GPU_ADDR_OFFSET_MASK,
        ensures
            final(self).id_spec() == old(self).id_spec(),
            final(self).shared_layout_spec() == old(self).shared_layout_spec(),
            final(self).instance_layout_spec() == old(self).instance_layout_spec(),
            final(self).fill_cmds_spec() == old(self).fill_cmds_spec(),
            match style.pattern {
                Pattern::Color(color) => {
                    &&& r matches Ok(stroke_id)
                    &&& stroke_id.addr_spec().wf()
                    &&& stroke_id.addr_spec().address_type_spec() == GpuAddressType::Global
                    &&& stroke_id.addr_spec().offset_spec() == old(self).gpu_data_spec().len()
                    &&& stroke_id.addr_spec().raw_spec() == old(self).gpu_data_spec().len()
                    &&& final(self).gpu_data_spec() =~= old(self).gpu_data_spec()
                        + (StrokePrimitive {
                        z_index: old(self).z_index_spec(),
                        width: options.line_width,
                        color,
                        transforms,
                    }).words_spec()
                    &&& final(self).z_index_spec() == old(self).z_index_spec() + 1
                    &&& final(self).stroke_cmds_spec() =~= old(self).stroke_cmds_spec().push(
                        OpaqueStrokeCmd {
                            shape,
                            prim_address: stroke_id.addr_spec(),
                            options: *options,
                        },
                    )
                },
                Pattern::Image(_, _) => {
                    &&& r matches Err(e) && e == RenderError::UnsupportedPattern
                    &&& final(self).gpu_data_spec() == old(self).gpu_data_spec()
                    &&& final(self).z_index_spec() == old(self).z_index_spec()
                    &&& final(self).stroke_cmds_spec() == old(self).stroke_cmds_spec()
                },
            },
    {
        let color = match style.pattern {
            Pattern::Color(color) => color,
            Pattern::Image(_, _) => {
                return Err(RenderError::UnsupportedPattern);
            },
        };
        let z = self.z_index;
        self.z_index = self.z_index + 1;
        let prim = StrokePrimitive::new(z, options.line_width, color, transforms);
        let words = prim.to_words();
        let address = self.gpu_data.push(words.as_slice());
        self.opaque_stroke_cmds.push(
            OpaqueStrokeCmd { shape, prim_address: address, options: *options },
        );
        Ok(StrokeId::from_address(address))
    }

    /// The layout of the image's shared-uniform memory, for allocating
    /// fields into it.
    pub fn shared_data_mut(&mut self) -> (r: &mut MemoryLayout)
        ensures
            *r == old(self).shared_layout_spec(),
            final(self).shared_layout_spec() == *final(r),
            final(self).fill_cmds_spec() == old(self).fill_cmds_spec(),
            final(self).stroke_cmds_spec() == old(self).stroke_cmds_spec(),
            final(self).gpu_data_spec() == old(self).gpu_data_spec(),
            final(self).z_index_spec() == old(self).z_index_spec(),
            final(self).id_spec() == old(self).id_spec(),
            final(self).instance_layout_spec() == old(self).instance_layout_spec(),
    {
        &mut self.shared_data_layout
    }

    /// Pushes a transform record and returns its stable address, usable from
    /// both fill and stroke primitives.
    pub fn add_transform(&mut self, transform: &GpuTransform2D) -> (r: TransformId)
        requires
            old(self).gpu_data_spec().len() <= GPU_ADDR_OFFSET_MASK,
        ensures
            r.addr_spec().wf(),
            r.addr_spec().address_type_spec() == GpuAddressType::Global,
            r.addr_spec().offset_spec() == old(self).gpu_data_spec().len(),
            r.addr_spec().raw_spec() == old(self).gpu_data_spec().len(),
            final(self).gpu_data_spec() =~= old(self).gpu_data_spec() + transform.words_spec(),
            final(self).fill_cmds_spec() == old(self).fill_cmds_spec(),
            final(self).stroke_cmds_spec() == old(self).stroke_cmds_spec(),
            final(self).z_index_spec() == old(self).z_index_spec(),
            final(self).id_spec() == old(self).id_spec(),
            final(self).shared_layout_spec() == old(self).shared_layout_spec(),
            final(self).instance_layout_spec() == old(self).instance_layout_spec(),
    {
        let words = transform.to_words();
        let address = self.gpu_data.push(words.as_slice());
        TransformId::from_address(address)
    }

    /// Overwrites a previously pushed transform record in place.
    pub fn set_transform(&mut self, id: TransformId, transform: &GpuTransform2D)
        requires
            id.addr_spec().wf(),
            id.addr_spec().address_type_spec() == GpuAddressType::Global,
            id.addr_spec().offset_spec() + 8 <= old(self).gpu_data_spec().len(),
        ensures
            final(self).gpu_data_spec() =~= overwritten(
                old(self).gpu_data_spec(),
                id.addr_spec().offset_spec() as int,
                transform.words_spec(),
            ),
            final(self).fill_cmds_spec() == old(self).fill_cmds_spec(),
            final(self).stroke_cmds_spec() == old(self).stroke_cmds_spec(),
            final(self).z_index_spec() == old(self).z_index_spec(),
            final(self).id_spec() == old(self).id_spec(),
            final(self).shared_layout_spec() == old(self).shared_layout_spec(),
            final(self).instance_layout_spec() == old(self).instance_layout_spec(),
    {
        let words = transform.to_words();
        self.gpu_data.set(id.address(), words.as_slice());
    }

    /// Pushes a color record and returns its stable address, usable from
    /// both fill and stroke primitives.
    pub fn add_color(&mut self, color: &GpuColorF) -> (r: ColorId)
        requires
            old(self).gpu_data_spec().len() <= GPU_ADDR_OFFSET_MASK,
        ensures
            r.addr_spec().wf(),
            r.addr_spec().address_type_spec() == GpuAddressType::Global,
            r.addr_spec().offset_spec() == old(self).gpu_data_spec().len(),
            r.addr_spec().raw_spec() == old(self).gpu_data_spec().len(),
            final(self).gpu_data_spec() =~= old(self).gpu_data_spec() + color.words_spec(),
            final(self).fill_cmds_spec() == old(self).fill_cmds_spec(),
            final(self).stroke_cmds_spec() == old(self).stroke_cmds_spec(),
            final(self).z_index_spec() == old(self).z_index_spec(),
            final(self).id_spec() == old(self).id_spec(),
            final(self).shared_layout_spec() == old(self).shared_layout_spec(),
            final(self).instance_layout_spec() == old(self).instance_layout_spec(),
    {
        let words = color.to_words();
        let address = self.gpu_data.push(words.as_slice());
        ColorId::from_address(address)
    }

    /// Overwrites a previously pushed color record in place.
    pub fn set_color(&mut self, id: ColorId, color: &GpuColorF)
        requires
            id.addr_spec().wf(),
            id.addr_spec().address_type_spec() == GpuAddressType::Global,
            id.addr_spec().offset_spec() + 4 <= old(self).gpu_data_spec().len(),
        ensures
            final(self).gpu_data_spec() =~= overwritten(
                old(self).gpu_data_spec(),
                id.addr_spec().offset_spec() as int,
                color.words_spec(),
            ),
            final(self).fill_cmds_spec() == old(self).fill_cmds_spec(),
            final(self).stroke_cmds_spec() == old(self).stroke_cmds_spec(),
            final(self).z_index_spec() == old(self).z_index_spec(),
            final(self).id_spec() == old(self).id_spec(),
            final(self).shared_layout_spec() == old(self).shared_layout_spec(),
            final(self).instance_layout_spec() == old(self).instance_layout_spec(),
    {
        let words = color.to_words();
        self.gpu_data.set(id.address(), words.as_slice());
    }

    /// Finalizes the image. The recorded draw operations are replayed in
    /// reverse insertion order into a [`TessellationPlan`] for the
    /// tessellation collaborator, which stamps each generated vertex with
    /// the job's primitive address. The builder is consumed; the result is
    /// the first instance of the image, owning the per-instance GPU words,
    /// with the immutable shared descriptor. Only path shapes can be
    /// tessellated: any other shape refuses the whole build.
    #[verifier::loop_isolation(false)]
    pub fn build(self, geom: &GeometryBuilder) -> (r: Result<
        (VectorImageInstance, TessellationPlan),
        RenderError,
    >)
        requires
            self.gpu_data_spec().len() <= u32::MAX,
        ensures
            (r matches Ok(_)) <==> ((forall|i: int|
                0 <= i < self.fill_cmds_spec().len()
                    ==> (#[trigger] self.fill_cmds_spec()[i]).shape.is_path()) && (forall|i: int|
                0 <= i < self.stroke_cmds_spec().len()
                    ==> (#[trigger] self.stroke_cmds_spec()[i]).shape.is_path())),
            r matches Err(e) ==> e == RenderError::UnsupportedShape,
            r matches Ok((inst, plan)) ==> {
                &&& inst.base_spec().geometry_spec() == geom.id_spec()
                &&& inst.base_spec().id_spec() == self.id_spec()
                &&& inst.base_spec().z_range_spec() == self.z_index_spec()
                &&& inst.base_spec().mem_per_instance_spec() == self.gpu_data_spec().len()
                &&& inst.base_spec().contains_fill_ops_spec() == (self.fill_cmds_spec().len() > 0)
                &&& inst.base_spec().contains_stroke_ops_spec() == (self.stroke_cmds_spec().len()
                    > 0)
                &&& inst.base_spec().shared_layout_spec() == self.shared_layout_spec()
                &&& inst.base_spec().instance_layout_spec() == self.instance_layout_spec()
                &&& inst.gpu_data_spec() == self.gpu_data_spec()
                &&& plan.fill_jobs@.len() == self.fill_cmds_spec().len()
                &&& (forall|i: int|
                    0 <= i < plan.fill_jobs@.len() ==> #[trigger] plan.fill_jobs@[i]
                        == self.fill_cmds_spec()[self.fill_cmds_spec().len() - 1 - i])
                &&& plan.stroke_jobs@.len() == self.stroke_cmds_spec().len()
                &&& (forall|i: int|
                    0 <= i < plan.stroke_jobs@.len() ==> #[trigger] plan.stroke_jobs@[i]
                        == self.stroke_cmds_spec()[self.stroke_cmds_spec().len() - 1 - i])
            },
    {
        let VectorImageBuilder {
            opaque_fill_cmds,
            opaque_stroke_cmds,
            gpu_data,
            z_index,
            id,
            shared_data_layout,
            instance_data_layout,
        } = self;
        let contains_fill_ops = opaque_fill_cmds.len() > 0;
        let contains_stroke_ops = opaque_stroke_cmds.len() > 0;

        let ghost fill0 = opaque_fill_cmds@;
        proof {
            assert(fill0 == self.fill_cmds_spec());
        }
        let mut remaining_fill = opaque_fill_cmds;
        let mut fill_jobs: Vec<OpaqueFillCmd> = Vec::new();
        while remaining_fill.len() > 0
            invariant
                remaining_fill@.len() + fill_jobs@.len() == fill0.len(),
                remaining_fill@ == fill0.subrange(0, remaining_fill@.len() as int),
                forall|k: int|
                    0 <= k < fill_jobs@.len() ==> #[trigger] fill_jobs@[k] == fill0[fill0.len() - 1
                        - k],
                forall|k: int|
                    0 <= k < fill_jobs@.len() ==> (#[trigger] fill_jobs@[k]).shape.is_path(),
            decreases remaining_fill@.len(),
        {
            let cmd = remaining_fill.pop().unwrap();
            proof {
                assert(remaining_fill@ =~= fill0.subrange(0, remaining_fill@.len() as int));
                assert(cmd == fill0[remaining_fill@.len() as int]);
            }
            match &cmd.shape {
                Shape::Path { .. } => {},
                Shape::Circle { .. } => {
                    proof {
                        let bad = remaining_fill@.len() as int;
                        assert(0 <= bad < self.fill_cmds_spec().len());
                        assert(self.fill_cmds_spec()[bad] == cmd);
                        assert(!self.fill_cmds_spec()[bad].shape.is_path());
                    }
                    return Err(RenderError::UnsupportedShape);
                },
            }
            fill_jobs.push(cmd);
        }
        proof {
            assert forall|i: int| 0 <= i < self.fill_cmds_spec().len() implies (
            #[trigger] self.fill_cmds_spec()[i]).shape.is_path() by {
                assert(fill_jobs@[fill0.len() - 1 - i] == fill0[i]);
            }
        }

        let ghost stroke0 = opaque_stroke_cmds@;
        proof {
            assert(stroke0 == self.stroke_cmds_spec());
        }
        let mut remaining_stroke = opaque_stroke_cmds;
        let mut stroke_jobs: Vec<OpaqueStrokeCmd> = Vec::new();
        while remaining_stroke.len() > 0
            invariant
                remaining_stroke@.len() + stroke_jobs@.len() == stroke0.len(),
                remaining_stroke@ == stroke0.subrange(0, remaining_stroke@.len() as int),
                forall|k: int|
                    0 <= k < stroke_jobs@.len() ==> #[trigger] stroke_jobs@[k] == stroke0[stroke0.len()
                        - 1 - k],
                forall|k: int|
                    0 <= k < stroke_jobs@.len() ==> (#[trigger] stroke_jobs@[k]).shape.is_path(),
            decreases remaining_stroke@.len(),
        {
            let cmd = remaining_stroke.pop().unwrap();
            proof {
                assert(remaining_stroke@ =~= stroke0.subrange(0, remaining_stroke@.len() as int));
                assert(cmd == stroke0[remaining_stroke@.len() as int]);
            }
            match &cmd.shape {
                Shape::Path { .. } => {},
                Shape::Circle { .. } => {
                    proof {
                        let bad = remaining_stroke@.len() as int;
                        assert(0 <= bad < self.stroke_cmds_spec().len());
                        assert(self.stroke_cmds_spec()[bad] == cmd);
                        assert(!self.stroke_cmds_spec()[bad].shape.is_path());
                    }
                    return Err(RenderError::UnsupportedShape);
                },
            }
            stroke_jobs.push(cmd);
        }
        proof {
            assert forall|i: int| 0 <= i < self.stroke_cmds_spec().len() implies (
            #[trigger] self.stroke_cmds_spec()[i]).shape.is_path() by {
                assert(stroke_jobs@[stroke0.len() - 1 - i] == stroke0[i]);
            }
        }

        let mem_per_instance = gpu_data.len() as u32;
        let image = VectorImage {
            descriptor: VectorImageDescriptor {
                geometry: geom.id(),
                id,
                z_range: z_index,
                mem_per_instance,
                contains_fill_ops,
                contains_stroke_ops,
                shared_data_layout,
                instance_data_layout,
            },
        };
        let instance = VectorImageInstance { base: Rc::new(image), gpu_data };
        Ok((instance, TessellationPlan { fill_jobs, stroke_jobs }))
    }
}

/// The tessellation work one image build defers to the collaborator: the
/// recorded draw operations, replayed in reverse insertion order.
pub struct TessellationPlan {
    pub fill_jobs: Vec<OpaqueFillCmd>,
    pub stroke_jobs: Vec<OpaqueStrokeCmd>,
}

/// The immutable shared descriptor of a finalized image.
struct VectorImageDescriptor {
    geometry: GeometryId,
    id: VectorImageId,
    z_range: u32,
    mem_per_instance: u32,
    contains_fill_ops: bool,
    contains_stroke_ops: bool,
    shared_data_layout: MemoryLayout,
    instance_data_layout: MemoryLayout,
}

/// An immutable finalized image: geometry reference, depth budget, memory
/// footprint per instance, and the layouts used to validate external writes.
/// Shared by all of its instances.
pub struct VectorImage {
    descriptor: VectorImageDescriptor,
}

impl VectorImage {
    /// The image's id.
    pub closed spec fn id_spec(self) -> VectorImageId {
        self.descriptor.id
    }

    /// The geometry holding the image's tessellated vertices.
    pub closed spec fn geometry_spec(self) -> GeometryId {
        self.descriptor.geometry
    }

    /// The depth budget the image consumed: one depth index per draw
    /// operation.
    pub closed spec fn z_range_spec(self) -> u32 {
        self.descriptor.z_range
    }

    /// The number of GPU words each instance of the image owns.
    pub closed spec fn mem_per_instance_spec(self) -> u32 {
        self.descriptor.mem_per_instance
    }

    /// Whether the image recorded any fill operation.
    pub closed spec fn contains_fill_ops_spec(self) -> bool {
        self.descriptor.contains_fill_ops
    }

    /// Whether the image recorded any stroke operation.
    pub closed spec fn contains_stroke_ops_spec(self) -> bool {
        self.descriptor.contains_stroke_ops
    }

    /// The layout of the image's shared-uniform memory.
    pub closed spec fn shared_layout_spec(self) -> MemoryLayout {
        self.descriptor.shared_data_layout
    }

    /// The layout of the image's per-instance memory.
    pub closed spec fn instance_layout_spec(self) -> MemoryLayout {
        self.descriptor.instance_data_layout
    }

    /// The image's id.
    pub fn id(&self) -> (r: VectorImageId)
        ensures
            r == self.id_spec(),
    {
        self.descriptor.id
    }

    /// The depth budget the image consumed.
    pub fn z_range(&self) -> (r: u32)
        ensures
            r == self.z_range_spec(),
    {
        self.descriptor.z_range
    }

    /// The geometry holding the image's tessellated vertices.
    pub fn geometry(&self) -> (r: GeometryId)
        ensures
            r == self.geometry_spec(),
    {
        self.descriptor.geometry
    }

    /// The number of GPU words each instance of the image owns.
    pub fn mem_per_instance(&self) -> (r: u32)
        ensures
            r == self.mem_per_instance_spec(),
    {
        self.descriptor.mem_per_instance
    }

    /// Whether the image recorded any fill operation.
    pub fn contains_fill_ops(&self) -> (r: bool)
        ensures
            r == self.contains_fill_ops_spec(),
    {
        self.descriptor.contains_fill_ops
    }

    /// Whether the image recorded any stroke operation.
    pub fn contains_stroke_ops(&self) -> (r: bool)
        ensures
            r == self.contains_stroke_ops_spec(),
    {
        self.descriptor.contains_stroke_ops
    }
}

/// One placement of a vector image: a shared reference to the immutable base
/// descriptor plus an owned block of per-instance GPU words.
pub struct VectorImageInstance {
    base: Rc<VectorImage>,
    gpu_data: GpuMemory,
}

impl VectorImageInstance {
    /// The shared immutable base image.
    pub closed spec fn base_spec(self) -> VectorImage {
        *self.base
    }

    /// The instance's own GPU words.
    pub closed spec fn gpu_data_spec(self) -> Seq<u32> {
        self.gpu_data@
    }

    /// A new placement of the same image: the immutable base is shared, the
    /// instance words are deep-copied, so the clone's transforms and colors
    /// can be edited without touching this instance.
    pub fn clone_instance(&self) -> (r: Self)
        ensures
            r.base_spec() == self.base_spec(),
            r.gpu_data_spec() == self.gpu_data_spec(),
    {
        VectorImageInstance { base: Rc::clone(&self.base), gpu_data: self.gpu_data.clone() }
    }

    /// The shared immutable base image.
    pub fn base(&self) -> (r: &VectorImage)
        ensures
            *r == self.base_spec(),
    {
        &*self.base
    }

    /// The instance's own GPU words.
    pub fn gpu_data(&self) -> (r: &GpuMemory)
        ensures
            r@ == self.gpu_data_spec(),
    {
        &self.gpu_data
    }

    /// Overwrites a transform record in this instance's own words; no other
    /// instance is affected.
    pub fn set_transform(&mut self, id: TransformId, transform: &GpuTransform2D)
        requires
            id.addr_spec().wf(),
            id.addr_spec().address_type_spec() == GpuAddressType::Global,
            id.addr_spec().offset_spec() + 8 <= old(self).gpu_data_spec().len(),
        ensures
            final(self).base_spec() == old(self).base_spec(),
            final(self).gpu_data_spec() =~= overwritten(
                old(self).gpu_data_spec(),
                id.addr_spec().offset_spec() as int,
                transform.words_spec(),
            ),
    {
        let words = transform.to_words();
        self.gpu_data.set(id.address(), words.as_slice());
    }

    /// Overwrites a color record in this instance's own words; no other
    /// instance is affected.
    pub fn set_color(&mut self, id: ColorId, color: &GpuColorF)
        requires
            id.addr_spec().wf(),
            id.addr_spec().address_type_spec() == GpuAddressType::Global,
            id.addr_spec().offset_spec() + 4 <= old(self).gpu_data_spec().len(),
        ensures
            final(self).base_spec() == old(self).base_spec(),
            final(self).gpu_data_spec() =~= overwritten(
                old(self).gpu_data_spec(),
                id.addr_spec().offset_spec() as int,
                color.words_spec(),
            ),
    {
        let words = color.to_words();
        self.gpu_data.set(id.address(), words.as_slice());
    }
}


/// Law: clone-and-mutate isolation. A clone agrees with its original in
/// base and words; overwriting a block inside the clone's own words leaves
/// a value that still shares the base, holds the new block exactly inside
/// the written window, and agrees with the original's words everywhere
/// outside it — the original, a value of its own, is untouched.
pub proof fn lemma_clone_mutate_isolation(
    original: VectorImageInstance,
    duplicate: VectorImageInstance,
    mutated: VectorImageInstance,
    base: int,
    block: Seq<u32>,
)
    requires
        duplicate.base_spec() == original.base_spec(),
        duplicate.gpu_data_spec() == original.gpu_data_spec(),
        mutated.base_spec() == duplicate.base_spec(),
        0 <= base,
        base + block.len() <= duplicate.gpu_data_spec().len(),
        mutated.gpu_data_spec() == overwritten(duplicate.gpu_data_spec(), base, block),
    ensures
        mutated.base_spec() == original.base_spec(),
        mutated.gpu_data_spec().len() == original.gpu_data_spec().len(),
        forall|j: int|
            0 <= j < block.len() ==> mutated.gpu_data_spec()[base + j] == block[j],
        forall|j: int|
            0 <= j < base ==> mutated.gpu_data_spec()[j] == original.gpu_data_spec()[j],
        forall|j: int|
            base + block.len() <= j < original.gpu_data_spec().len()
                ==> mutated.gpu_data_spec()[j] == original.gpu_data_spec()[j],
{
    crate::memory::lemma_overwrite_window(original.gpu_data_spec(), base, block);
}

} // verus!
