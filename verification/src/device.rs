//! The GPU backend capability.
//!
//! The engine never inspects GPU buffer contents; it only computes addresses
//! and ranges, and drives the backend through this narrow trait. Callers own
//! the ordering discipline: a geometry must be submitted before any render
//! pass that references it. Implementations live with the embedding
//! application (a real GPU backend, or an in-memory device for tests).

use vstd::prelude::*;

use crate::address::GPU_ADDR_OFFSET_MASK;
use crate::address::GpuAddressRange;
use crate::geometry::GeometryBuilder;
use crate::layer::DrawCmd;
use crate::layer::RenderPassOptions;
use crate::memory::GpuMemory;

verus! {

/// GPU memory allocation, data upload, geometry submission and render-pass
/// execution.
pub trait Device {
    /// Allocates a contiguous range of device memory holding exactly `size`
    /// words. The returned range lies in global address space and its size
    /// always exactly matches what was requested.
    fn allocate_gpu_data(&mut self, size: u32) -> (r: GpuAddressRange)
        requires
            size <= GPU_ADDR_OFFSET_MASK,
        ensures
            r.wf(),
            r.is_global(),
            r.len_spec() == size,
    ;

    /// Uploads a block of words into a previously allocated range, at its
    /// start.
    fn set_gpu_data(&mut self, range: GpuAddressRange, data: &GpuMemory);

    /// Takes ownership of a finalized geometry's vertex and index buffers.
    fn submit_geometry(&mut self, geom: GeometryBuilder);

    /// Executes one render pass over an ordered list of draw commands.
    fn render_pass(&mut self, cmds: &[DrawCmd], options: &RenderPassOptions);
}

} // verus!
