//! Core of a retained-mode 2D vector-graphics rendering engine: a bit-packed
//! GPU address space, a packed memory-layout allocator, a growable word buffer
//! backing per-instance data, a vector-image builder that records draw
//! primitives and plans tessellation, and a layer builder that batches image
//! instances into depth-ordered draw commands.
//!
//! GPU scalars are carried as 32-bit words (`u32` bit patterns); the engine
//! never interprets them numerically, it only addresses, copies and packs
//! them. The GPU backend is reached through the [`device::Device`] capability
//! and the tessellator through the job lists that
//! [`image::VectorImageBuilder::build`] emits.

pub mod address;
pub mod blocks;
pub mod context;
pub mod device;
pub mod error;
pub mod geometry;
pub mod ids;
pub mod image;
pub mod layer;
pub mod layout;
pub mod memory;
pub mod shape;

pub use address::GpuAddress;
pub use address::GpuAddressRange;
pub use address::GpuAddressType;
pub use blocks::FillPrimitive;
pub use blocks::GpuColorF;
pub use blocks::GpuTransform2D;
pub use blocks::StrokePrimitive;
pub use context::Context;
pub use device::Device;
pub use error::RenderError;
pub use geometry::GeometryBuilder;
pub use geometry::GpuFillVertex;
pub use geometry::GpuStrokeVertex;
pub use geometry::VertexBuffers;
pub use geometry::VertexCtor;
pub use ids::ColorId;
pub use ids::EffectId;
pub use ids::FillId;
pub use ids::GeometryId;
pub use ids::ImageId;
pub use ids::NumberId;
pub use ids::StrokeId;
pub use ids::TransformId;
pub use ids::VectorImageId;
pub use image::OpaqueFillCmd;
pub use image::OpaqueStrokeCmd;
pub use image::TessellationPlan;
pub use image::VectorImage;
pub use image::VectorImageBuilder;
pub use image::VectorImageInstance;
pub use layer::DrawCmd;
pub use layer::Layer;
pub use layer::LayerBuilder;
pub use layer::RenderPassOptions;
pub use layer::VertexType;
pub use layout::DataType;
pub use layout::Member;
pub use layout::MemoryLayout;
pub use layout::ScalarType;
pub use memory::GpuMemory;
pub use shape::FillStyle;
pub use shape::FillType;
pub use shape::PathData;
pub use shape::PathEvent;
pub use shape::Pattern;
pub use shape::Rect;
pub use shape::Shape;
pub use shape::StrokeOptions;
pub use shape::StrokeStyle;
