//! Opaque identifiers.
//!
//! Small integer ids are handed out by monotonically increasing counters on
//! the [`Context`](crate::context::Context); address-wrapping handles
//! (transforms, colors, primitives) are the stable GPU-memory addresses the
//! records were pushed at. No id is reused within a context's lifetime.

use vstd::prelude::*;

use crate::address::GpuAddress;

verus! {

/// Identifies one vector image within a context.
#[derive(Copy, Clone, Debug, PartialEq, Eq, Structural, Hash)]
pub struct VectorImageId(u32);

impl VectorImageId {
    /// The underlying counter value.
    pub closed spec fn raw_spec(self) -> u32 {
        self.0
    }

    pub(crate) fn new(raw: u32) -> (r: Self)
        ensures
            r.raw_spec() == raw,
    {
        VectorImageId(raw)
    }
}

/// Identifies one submitted geometry (a pair of vertex buffers).
#[derive(Copy, Clone, Debug, PartialEq, Eq, Structural, Hash)]
pub struct GeometryId(u32);

impl GeometryId {
    /// The underlying counter value.
    pub closed spec fn raw_spec(self) -> u32 {
        self.0
    }

    pub(crate) fn new(raw: u32) -> (r: Self)
        ensures
            r.raw_spec() == raw,
    {
        GeometryId(raw)
    }
}

/// Identifies an image resource referenced by an image pattern.
#[derive(Copy, Clone, Debug, PartialEq, Eq, Structural, Hash)]
pub struct ImageId(u32);

impl ImageId {
    /// The underlying value.
    pub closed spec fn raw_spec(self) -> u32 {
        self.0
    }

    /// Wraps a raw image id.
    pub fn new(raw: u32) -> (r: Self)
        ensures
            r.raw_spec() == raw,
    {
        ImageId(raw)
    }
}

/// Identifies a scalar parameter.
#[derive(Copy, Clone, Debug, PartialEq, Eq, Structural, Hash)]
pub struct NumberId(u32);

impl NumberId {
    /// The underlying value.
    pub closed spec fn raw_spec(self) -> u32 {
        self.0
    }

    /// Wraps a raw number id.
    pub fn new(raw: u32) -> (r: Self)
        ensures
            r.raw_spec() == raw,
    {
        NumberId(raw)
    }
}

/// Identifies a render effect.
#[derive(Copy, Clone, Debug, PartialEq, Eq, Structural, Hash)]
pub struct EffectId(u32);

impl EffectId {
    /// The underlying value.
    pub closed spec fn raw_spec(self) -> u32 {
        self.0
    }

    /// Wraps a raw effect id.
    pub fn new(raw: u32) -> (r: Self)
        ensures
            r.raw_spec() == raw,
    {
        EffectId(raw)
    }
}

/// The address of a color record in an image's own GPU memory.
#[derive(Copy, Clone, Debug, PartialEq, Eq, Structural, Hash)]
pub struct ColorId(GpuAddress);

impl ColorId {
    /// The address the color record was pushed at.
    pub closed spec fn addr_spec(self) -> GpuAddress {
        self.0
    }

    pub(crate) fn from_address(address: GpuAddress) -> (r: Self)
        ensures
            r.addr_spec() == address,
    {
        ColorId(address)
    }

    /// The address the color record was pushed at.
    pub fn address(&self) -> (r: GpuAddress)
        ensures
            r == self.addr_spec(),
    {
        self.0
    }
}

/// The address of a transform record in an image's own GPU memory.
#[derive(Copy, Clone, Debug, PartialEq, Eq, Structural, Hash)]
pub struct TransformId(GpuAddress);

impl TransformId {
    /// The address the transform record was pushed at.
    pub closed spec fn addr_spec(self) -> GpuAddress {
        self.0
    }

    pub(crate) fn from_address(address: GpuAddress) -> (r: Self)
        ensures
            r.addr_spec() == address,
    {
        TransformId(address)
    }

    /// The address the transform record was pushed at.
    pub fn address(&self) -> (r: GpuAddress)
        ensures
            r == self.addr_spec(),
    {
        self.0
    }
}

/// The address of a fill primitive record in an image's own GPU memory.
#[derive(Copy, Clone, Debug, PartialEq, Eq, Structural)]
pub struct FillId(GpuAddress);

impl FillId {
    /// The address the fill primitive was pushed at.
    pub closed spec fn addr_spec(self) -> GpuAddress {
        self.0
    }

    pub(crate) fn from_address(address: GpuAddress) -> (r: Self)
        ensures
            r.addr_spec() == address,
    {
        FillId(address)
    }

    /// The address the fill primitive was pushed at.
    pub fn address(&self) -> (r: GpuAddress)
        ensures
            r == self.addr_spec(),
    {
        self.0
    }
}

/// The address of a stroke primitive record in an image's own GPU memory.
#[derive(Copy, Clone, Debug, PartialEq, Eq, Structural)]
pub struct StrokeId(GpuAddress);

impl StrokeId {
    /// The address the stroke primitive was pushed at.
    pub closed spec fn addr_spec(self) -> GpuAddress {
        self.0
    }

    pub(crate) fn from_address(address: GpuAddress) -> (r: Self)
        ensures
            r.addr_spec() == address,
    {
        StrokeId(address)
    }

    /// The address the stroke primitive was pushed at.
    pub fn address(&self) -> (r: GpuAddress)
        ensures
            r == self.addr_spec(),
    {
        self.0
    }
}

} // verus!
