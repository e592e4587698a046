//! The rendering context.
//!
//! A [`Context`] owns the device capability exclusively and the id counters
//! for vector images and geometries. Ids are handed out by monotonically
//! increasing counters and never reused within the context's lifetime. The
//! context is the factory for every builder.

use vstd::prelude::*;

use crate::device::Device;
use crate::geometry::GeometryBuilder;
use crate::ids::GeometryId;
use crate::ids::VectorImageId;
use crate::image::VectorImageBuilder;
use crate::layer::BucketModel;
use crate::layer::LayerBuilder;

verus! {

/// Owns the device capability and the id counters; factory for builders.
pub struct Context<D: Device> {
    next_vector_image_id: u32,
    next_geometry_id: u32,
    device: D,
}

impl<D: Device> Context<D> {
    /// The id the next vector image will receive.
    pub closed spec fn next_vector_image_id_spec(self) -> u32 {
        self.next_vector_image_id
    }

    /// The id the next geometry will receive.
    pub closed spec fn next_geometry_id_spec(self) -> u32 {
        self.next_geometry_id
    }

    /// The owned device capability.
    pub closed spec fn device_spec(self) -> D {
        self.device
    }

    /// A fresh context owning `device`; both id counters start at zero.
    pub fn new(device: D) -> (r: Self)
        ensures
            r.next_vector_image_id_spec() == 0,
            r.next_geometry_id_spec() == 0,
            r.device_spec() == device,
    {
        Context { next_vector_image_id: 0, next_geometry_id: 0, device }
    }

    /// A builder for a new vector image, carrying the next image id; the
    /// counter advances and the id is never handed out again.
    pub fn new_vector_image(&mut self) -> (r: VectorImageBuilder)
        requires
            old(self).next_vector_image_id_spec() < u32::MAX,
        ensures
            final(self).next_vector_image_id_spec() == old(self).next_vector_image_id_spec() + 1,
            final(self).next_geometry_id_spec() == old(self).next_geometry_id_spec(),
            final(self).device_spec() == old(self).device_spec(),
            r.id_spec().raw_spec() == old(self).next_vector_image_id_spec(),
            r.fill_cmds_spec() =~= Seq::<crate::image::OpaqueFillCmd>::empty(),
            r.stroke_cmds_spec() =~= Seq::<crate::image::OpaqueStrokeCmd>::empty(),
            r.gpu_data_spec() =~= Seq::<u32>::empty(),
            r.z_index_spec() == 0,
            r.shared_layout_spec().wf(),
            r.shared_layout_spec().mem_type_spec() == crate::address::GpuAddressType::Shared,
            r.shared_layout_spec().size_spec() == 0,
            r.shared_layout_spec().members_spec() =~= Seq::<crate::layout::Member>::empty(),
            r.instance_layout_spec().wf(),
            r.instance_layout_spec().mem_type_spec() == crate::address::GpuAddressType::Instance,
            r.instance_layout_spec().size_spec() == 0,
            r.instance_layout_spec().members_spec() =~= Seq::<crate::layout::Member>::empty(),
    {
        let id = self.next_vector_image_id;
        self.next_vector_image_id = self.next_vector_image_id + 1;
        VectorImageBuilder::new(VectorImageId::new(id))
    }

    /// A builder for a new geometry, carrying the next geometry id; the
    /// counter advances and the id is never handed out again.
    pub fn new_geometry(&mut self) -> (r: GeometryBuilder)
        requires
            old(self).next_geometry_id_spec() < u32::MAX,
        ensures
            final(self).next_geometry_id_spec() == old(self).next_geometry_id_spec() + 1,
            final(self).next_vector_image_id_spec() == old(self).next_vector_image_id_spec(),
            final(self).device_spec() == old(self).device_spec(),
            r.id_spec().raw_spec() == old(self).next_geometry_id_spec(),
            r.wf(),
            r.fill_vertices_spec() =~= Seq::<crate::geometry::GpuFillVertex>::empty(),
            r.fill_indices_spec() =~= Seq::<u32>::empty(),
            r.stroke_vertices_spec() =~= Seq::<crate::geometry::GpuStrokeVertex>::empty(),
            r.stroke_indices_spec() =~= Seq::<u32>::empty(),
    {
        let id = self.next_geometry_id;
        self.next_geometry_id = self.next_geometry_id + 1;
        GeometryBuilder::new(GeometryId::new(id))
    }

    /// An empty layer builder; the context is left untouched.
    pub fn new_layer(&mut self) -> (r: LayerBuilder)
        ensures
            *final(self) == *old(self),
            r.wf(),
            r.buckets_spec() =~= Seq::<BucketModel>::empty(),
            r.z_index_spec() == 0,
    {
        LayerBuilder::new()
    }

    /// Hands a finalized geometry's buffers to the device. The caller must
    /// submit a geometry before building or rendering layers that reference
    /// it: the context never reorders device calls.
    pub fn submit_geometry(&mut self, geom: GeometryBuilder)
        ensures
            final(self).next_vector_image_id_spec() == old(self).next_vector_image_id_spec(),
            final(self).next_geometry_id_spec() == old(self).next_geometry_id_spec(),
    {
        self.device.submit_geometry(geom);
    }

    /// Consumes the context and hands the device capability back to the
    /// embedder.
    pub fn into_device(self) -> (r: D)
        ensures
            r == self.device_spec(),
    {
        self.device
    }

    /// The owned device capability, for driving uploads and render passes.
    pub(crate) fn device_mut(&mut self) -> (r: &mut D)
        ensures
            *r == old(self).device_spec(),
            final(self).device_spec() == *final(r),
            final(self).next_vector_image_id_spec() == old(self).next_vector_image_id_spec(),
            final(self).next_geometry_id_spec() == old(self).next_geometry_id_spec(),
    {
        &mut self.device
    }
}

} // verus!
