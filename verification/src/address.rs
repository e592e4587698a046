//! Bit-packed GPU addresses.
//!
//! A [`GpuAddress`] is a 32-bit value whose top byte is a header holding a
//! 2-bit memory-space tag (global, per-instance or shared-uniform) and whose
//! low 24 bits are an offset within that space. An offset must never reach
//! into the header: a corrupted address would silently alias the wrong memory
//! space, so every constructor demands a clean offset.

use vstd::prelude::*;

verus! {

/// Bits of a raw address reserved for the memory-space header.
pub const GPU_ADDR_HEADER_MASK: u32 = 0xFF00_0000;

/// Bits of a raw address holding the offset.
pub const GPU_ADDR_OFFSET_MASK: u32 = 0x00FF_FFFF;

/// Header of an address into global device memory.
pub const GPU_ADDR_GLOBAL: u32 = 0x0000_0000;

/// Header of an address into per-instance memory.
pub const GPU_ADDR_INSTANCE: u32 = 0x8000_0000;

/// Header of an address into shared-uniform memory.
pub const GPU_ADDR_SHARED: u32 = 0x4000_0000;

/// The memory space an address points into.
#[derive(Copy, Clone, Debug, PartialEq, Eq, Structural, Hash)]
pub enum GpuAddressType {
    Global,
    Instance,
    Shared,
}

/// A tagged address: a memory-space header packed with a 24-bit offset.
#[derive(Copy, Clone, Debug, PartialEq, Eq, Structural, Hash)]
pub struct GpuAddress(u32);

/// The header bits that encode a memory-space tag.
pub open spec fn header_of(ty: GpuAddressType) -> u32 {
    match ty {
        GpuAddressType::Global => GPU_ADDR_GLOBAL,
        GpuAddressType::Instance => GPU_ADDR_INSTANCE,
        GpuAddressType::Shared => GPU_ADDR_SHARED,
    }
}

impl GpuAddress {
    /// The packed value a tag and an offset encode to.
    pub closed spec fn pack_spec(ty: GpuAddressType, offset: u32) -> GpuAddress {
        GpuAddress(offset | header_of(ty))
    }

    /// The packed 32-bit value.
    pub closed spec fn raw_spec(self) -> u32 {
        self.0
    }

    /// The header bits of the packed value.
    pub open spec fn header_spec(self) -> u32 {
        self.raw_spec() & GPU_ADDR_HEADER_MASK
    }

    /// The offset within the address's memory space.
    pub open spec fn offset_spec(self) -> u32 {
        self.raw_spec() & GPU_ADDR_OFFSET_MASK
    }

    /// A well-formed address carries one of the three known space tags.
    pub open spec fn wf(self) -> bool {
        self.header_spec() == GPU_ADDR_GLOBAL || self.header_spec() == GPU_ADDR_INSTANCE
            || self.header_spec() == GPU_ADDR_SHARED
    }

    /// The memory space the header encodes; global for an unknown header.
    pub open spec fn address_type_spec(self) -> GpuAddressType {
        if self.header_spec() == GPU_ADDR_INSTANCE {
            GpuAddressType::Instance
        } else if self.header_spec() == GPU_ADDR_SHARED {
            GpuAddressType::Shared
        } else {
            GpuAddressType::Global
        }
    }

    /// Packs a memory-space tag with an offset.
    pub fn new(ty: GpuAddressType, offset: u32) -> (r: Self)
        requires
            offset & GPU_ADDR_HEADER_MASK == 0,
        ensures
            r == GpuAddress::pack_spec(ty, offset),
            r.wf(),
            r.address_type_spec() == ty,
            r.offset_spec() == offset,
            r.raw_spec() == offset | header_of(ty),
    {
        let header: u32 = match ty {
            GpuAddressType::Global => GPU_ADDR_GLOBAL,
            GpuAddressType::Instance => GPU_ADDR_INSTANCE,
            GpuAddressType::Shared => GPU_ADDR_SHARED,
        };
        proof {
            lemma_pack_roundtrip(ty, offset);
        }
        GpuAddress(offset | header)
    }

    /// An address into global device memory.
    pub fn global(offset: u32) -> (r: Self)
        requires
            offset & GPU_ADDR_HEADER_MASK == 0,
        ensures
            r.wf(),
            r.address_type_spec() == GpuAddressType::Global,
            r.offset_spec() == offset,
            r.raw_spec() == offset,
    {
        proof {
            assert(offset & 0xFF00_0000u32 == 0 ==> (offset & 0x00FF_FFFFu32) == offset)
                by (bit_vector);
        }
        GpuAddress(offset)
    }

    /// An address into per-instance memory.
    pub fn instance(offset: u32) -> (r: Self)
        requires
            offset & GPU_ADDR_HEADER_MASK == 0,
        ensures
            r.wf(),
            r.address_type_spec() == GpuAddressType::Instance,
            r.offset_spec() == offset,
    {
        Self::new(GpuAddressType::Instance, offset)
    }

    /// An address into shared-uniform memory.
    pub fn shared(offset: u32) -> (r: Self)
        requires
            offset & GPU_ADDR_HEADER_MASK == 0,
        ensures
            r.wf(),
            r.address_type_spec() == GpuAddressType::Shared,
            r.offset_spec() == offset,
    {
        Self::new(GpuAddressType::Shared, offset)
    }

    /// Recovers the memory-space tag. A header that encodes no known space is
    /// a corrupted address, which well-formedness rules out.
    pub fn address_type(&self) -> (r: GpuAddressType)
        requires
            self.wf(),
        ensures
            r == self.address_type_spec(),
    {
        let header = self.0 & GPU_ADDR_HEADER_MASK;
        if header == GPU_ADDR_INSTANCE {
            GpuAddressType::Instance
        } else if header == GPU_ADDR_SHARED {
            GpuAddressType::Shared
        } else {
            GpuAddressType::Global
        }
    }

    /// The offset within the address's memory space.
    pub fn offset(&self) -> (r: u32)
        ensures
            r == self.offset_spec(),
    {
        self.0 & GPU_ADDR_OFFSET_MASK
    }

    /// The packed 32-bit value, as written into primitive records and vertex
    /// data.
    pub fn to_raw(&self) -> (r: u32)
        ensures
            r == self.raw_spec(),
    {
        self.0
    }

    /// Advances the offset by `val` and re-masks the result to the offset
    /// field, for bump allocation along global memory.
    pub fn add_assign(&mut self, val: u32)
        requires
            old(self).wf(),
            val & GPU_ADDR_HEADER_MASK == 0,
            old(self).offset_spec() + val <= GPU_ADDR_OFFSET_MASK,
        ensures
            final(self).raw_spec() == (old(self).raw_spec() + val) as u32 & GPU_ADDR_OFFSET_MASK,
            final(self).wf(),
            final(self).address_type_spec() == GpuAddressType::Global,
            final(self).offset_spec() == old(self).offset_spec() + val,
    {
        let ghost r = self.0;
        proof {
            assert((r & 0xFF00_0000u32 == 0 || r & 0xFF00_0000u32 == 0x8000_0000u32 || r
                & 0xFF00_0000u32 == 0x4000_0000u32) && (r & 0x00FF_FFFFu32) + val
                <= 0x00FF_FFFFu32 ==> r + val <= 0xFFFF_FFFFu32 && (((r + val) as u32)
                & 0x00FF_FFFFu32) == (r & 0x00FF_FFFFu32) + val && ((((r + val) as u32)
                & 0x00FF_FFFFu32) & 0xFF00_0000u32) == 0 && ((((r + val) as u32)
                & 0x00FF_FFFFu32) & 0x00FF_FFFFu32) == (((r + val) as u32)
                & 0x00FF_FFFFu32)) by (bit_vector);
        }
        self.0 = self.0 + val;
        self.0 = self.0 & GPU_ADDR_OFFSET_MASK;
    }
}

/// Law: for every memory space and every offset clear of the header bits,
/// packing the pair and decoding it again returns the same space tag and
/// the same offset.
pub proof fn lemma_pack_roundtrip(ty: GpuAddressType, offset: u32)
    requires
        offset & GPU_ADDR_HEADER_MASK == 0,
    ensures
        GpuAddress::pack_spec(ty, offset).wf(),
        GpuAddress::pack_spec(ty, offset).address_type_spec() == ty,
        GpuAddress::pack_spec(ty, offset).offset_spec() == offset,
{
    assert(offset & 0xFF00_0000u32 == 0 ==> (offset | 0x0000_0000u32) == offset && (offset
        & 0x00FF_FFFFu32) == offset) by (bit_vector);
    assert(offset & 0xFF00_0000u32 == 0 ==> ((offset | 0x8000_0000u32) & 0xFF00_0000u32)
        == 0x8000_0000u32 && ((offset | 0x8000_0000u32) & 0x00FF_FFFFu32) == offset)
        by (bit_vector);
    assert(offset & 0xFF00_0000u32 == 0 ==> ((offset | 0x4000_0000u32) & 0xFF00_0000u32)
        == 0x4000_0000u32 && ((offset | 0x4000_0000u32) & 0x00FF_FFFFu32) == offset)
        by (bit_vector);
}

/// Law: two well-formed addresses of the same memory space and offset are one
/// address; the tag and the offset determine the packed value.
pub proof fn lemma_address_determined(a: GpuAddress, b: GpuAddress)
    requires
        a.wf(),
        b.wf(),
        a.address_type_spec() == b.address_type_spec(),
        a.offset_spec() == b.offset_spec(),
    ensures
        a == b,
{
    let x = a.raw_spec();
    let y = b.raw_spec();
    assert(x == (x & 0xFF00_0000u32) | (x & 0x00FF_FFFFu32)) by (bit_vector);
    assert(y == (y & 0xFF00_0000u32) | (y & 0x00FF_FFFFu32)) by (bit_vector);
    assert((x & 0xFF00_0000u32) == (y & 0xFF00_0000u32) && (x & 0x00FF_FFFFu32) == (y
        & 0x00FF_FFFFu32) ==> ((x & 0xFF00_0000u32) | (x & 0x00FF_FFFFu32)) == ((y
        & 0xFF00_0000u32) | (y & 0x00FF_FFFFu32))) by (bit_vector);
}

/// A half-open `[start, end)` region of one memory space, walked left to
/// right while writing successive instances.
#[derive(Copy, Clone, Debug, PartialEq, Eq, Structural, Hash)]
pub struct GpuAddressRange {
    start: GpuAddress,
    end: GpuAddress,
}

impl GpuAddressRange {
    /// The first address of the region.
    pub closed spec fn start_spec(self) -> GpuAddress {
        self.start
    }

    /// The first address past the region.
    pub closed spec fn end_spec(self) -> GpuAddress {
        self.end
    }

    /// Both ends are well formed, lie in one memory space, and do not cross.
    pub open spec fn wf(self) -> bool {
        self.start_spec().wf() && self.end_spec().wf() && self.start_spec().address_type_spec()
            == self.end_spec().address_type_spec() && self.start_spec().offset_spec()
            <= self.end_spec().offset_spec()
    }

    /// The region lies in global device memory.
    pub open spec fn is_global(self) -> bool {
        self.start_spec().address_type_spec() == GpuAddressType::Global
            && self.end_spec().address_type_spec() == GpuAddressType::Global
    }

    /// The number of words in the region.
    pub open spec fn len_spec(self) -> u32 {
        (self.end_spec().offset_spec() - self.start_spec().offset_spec()) as u32
    }

    /// A region from `start` up to but not including `end`.
    pub fn new(start: GpuAddress, end: GpuAddress) -> (r: Self)
        requires
            start.wf(),
            end.wf(),
            start.address_type_spec() == end.address_type_spec(),
            start.offset_spec() <= end.offset_spec(),
        ensures
            r.wf(),
            r.start_spec() == start,
            r.end_spec() == end,
    {
        GpuAddressRange { start, end }
    }

    /// The first address of the region.
    pub fn start(&self) -> (r: GpuAddress)
        ensures
            r == self.start_spec(),
    {
        self.start
    }

    /// The first address past the region.
    pub fn end(&self) -> (r: GpuAddress)
        ensures
            r == self.end_spec(),
    {
        self.end
    }

    /// Whether no words remain in the region.
    pub fn is_empty(&self) -> (r: bool)
        ensures
            r == (self.start_spec() == self.end_spec()),
    {
        self.start == self.end
    }

    /// Consumes `amount` words from the front of the region. The consumed
    /// prefix must not exceed what remains.
    pub fn shrink_left(&mut self, amount: u32)
        requires
            old(self).wf(),
            amount & GPU_ADDR_HEADER_MASK == 0,
            amount <= old(self).len_spec(),
        ensures
            final(self).end_spec() == old(self).end_spec(),
            final(self).start_spec().wf(),
            final(self).start_spec().address_type_spec() == GpuAddressType::Global,
            final(self).start_spec().offset_spec() == old(self).start_spec().offset_spec()
                + amount,
            old(self).is_global() ==> final(self).wf() && final(self).is_global()
                && final(self).len_spec() == old(self).len_spec() - amount,
    {
        let ghost e = self.end.raw_spec();
        proof {
            assert((e & 0x00FF_FFFFu32) <= 0x00FF_FFFFu32) by (bit_vector);
        }
        self.start.add_assign(amount);
    }
}

} // verus!
