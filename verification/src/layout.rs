//! Packed memory layouts.
//!
//! A [`DataType`] describes the shape of one scalar field as a word count;
//! its alignment is derived from the size by a deliberate packing policy
//! (1 word aligns to 1, 2 to 2, 3 to 4, anything larger to its word count
//! rounded down to a multiple of 4). A [`MemoryLayout`] accumulates such
//! fields into a packed, aligned record for one memory space, handing each
//! field a tagged address. Layouts are append-only and deterministic: the
//! same sequence of allocations always produces the same offsets.

use vstd::prelude::*;

use crate::address::GPU_ADDR_HEADER_MASK;
use crate::address::GPU_ADDR_OFFSET_MASK;
use crate::address::GpuAddress;
use crate::address::GpuAddressType;
use vstd::arithmetic::div_mod::lemma_fundamental_div_mod;
use vstd::arithmetic::div_mod::lemma_mod_multiples_basic;

verus! {

/// The scalar kind of a field, as the shader will read it.
#[derive(Copy, Clone, Debug, PartialEq, Eq, Structural)]
pub enum ScalarType {
    I32,
    F32,
    Address,
    Unknown,
}

/// The shape of one field: a scalar kind and a size in words.
#[derive(Copy, Clone, Debug, PartialEq, Eq, Structural)]
pub struct DataType {
    pub scalar: ScalarType,
    pub size: u32,
}

/// One allocated field of a layout: its shape and its tagged offset.
#[derive(Copy, Clone, Debug, PartialEq, Eq, Structural)]
pub struct Member {
    pub ty: DataType,
    pub offset: GpuAddress,
}

impl DataType {
    /// The size of the field in words.
    pub open spec fn size_spec(self) -> u32 {
        self.size
    }

    /// The alignment the packing policy derives from the size.
    pub open spec fn alignment_spec(self) -> u32 {
        if self.size == 1 {
            1u32
        } else if self.size == 2 {
            2u32
        } else if self.size == 3 {
            4u32
        } else {
            ((self.size / 4) * 4) as u32
        }
    }

    /// The size of the field in words.
    pub fn size(&self) -> (r: u32)
        ensures
            r == self.size_spec(),
    {
        self.size
    }

    /// The alignment the packing policy derives from the size: 1 word aligns
    /// to 1, 2 to 2, 3 to 4, and anything larger to its word count rounded
    /// down to a multiple of 4.
    pub fn alignment(&self) -> (r: u32)
        ensures
            r == self.alignment_spec(),
    {
        let s = self.size;
        if s == 1 {
            1
        } else if s == 2 {
            2
        } else if s == 3 {
            4
        } else {
            assert(s / 4 <= 0x3FFF_FFFFu32);
            (s / 4) * 4
        }
    }

    /// A single 32-bit float.
    pub fn float() -> (r: Self)
        ensures
            r == (DataType { scalar: ScalarType::F32, size: 1u32 }),
    {
        DataType { scalar: ScalarType::F32, size: 1 }
    }

    /// Two 32-bit floats.
    pub fn vec2() -> (r: Self)
        ensures
            r == (DataType { scalar: ScalarType::F32, size: 2u32 }),
    {
        DataType { scalar: ScalarType::F32, size: 2 }
    }

    /// Three 32-bit floats.
    pub fn vec3() -> (r: Self)
        ensures
            r == (DataType { scalar: ScalarType::F32, size: 3u32 }),
    {
        DataType { scalar: ScalarType::F32, size: 3 }
    }

    /// Four 32-bit floats.
    pub fn vec4() -> (r: Self)
        ensures
            r == (DataType { scalar: ScalarType::F32, size: 4u32 }),
    {
        DataType { scalar: ScalarType::F32, size: 4 }
    }

    /// A 2D transform: a 2x3 float matrix.
    pub fn transform_2d() -> (r: Self)
        ensures
            r == (DataType { scalar: ScalarType::F32, size: 6u32 }),
    {
        DataType { scalar: ScalarType::F32, size: 6 }
    }

    /// A 3D transform: a 4x4 float matrix.
    pub fn transform_3d() -> (r: Self)
        ensures
            r == (DataType { scalar: ScalarType::F32, size: 16u32 }),
    {
        DataType { scalar: ScalarType::F32, size: 16 }
    }

    /// A single 32-bit integer.
    pub fn int32() -> (r: Self)
        ensures
            r == (DataType { scalar: ScalarType::I32, size: 1u32 }),
    {
        DataType { scalar: ScalarType::I32, size: 1 }
    }

    /// Two 32-bit integers.
    pub fn ivec2() -> (r: Self)
        ensures
            r == (DataType { scalar: ScalarType::I32, size: 2u32 }),
    {
        DataType { scalar: ScalarType::I32, size: 2 }
    }

    /// Three 32-bit integers.
    pub fn ivec3() -> (r: Self)
        ensures
            r == (DataType { scalar: ScalarType::I32, size: 3u32 }),
    {
        DataType { scalar: ScalarType::I32, size: 3 }
    }

    /// Four 32-bit integers.
    pub fn ivec4() -> (r: Self)
        ensures
            r == (DataType { scalar: ScalarType::I32, size: 4u32 }),
    {
        DataType { scalar: ScalarType::I32, size: 4 }
    }
}

/// Words of padding that bring `size` up to a multiple of `alignment`.
pub open spec fn pad_for(size: int, alignment: int) -> int {
    if size % alignment == 0 {
        0
    } else {
        alignment - size % alignment
    }
}

/// The padding ends exactly on an alignment boundary.
pub proof fn lemma_pad_aligns(size: int, alignment: int)
    requires
        size >= 0,
        alignment >= 1,
    ensures
        0 <= pad_for(size, alignment) < alignment,
        (size + pad_for(size, alignment)) % alignment == 0,
{
    lemma_fundamental_div_mod(size, alignment);
    let q = size / alignment;
    let r = size % alignment;
    if r == 0 {
        lemma_mod_multiples_basic(q, alignment);
    } else {
        assert(size + pad_for(size, alignment) == (q + 1) * alignment) by (nonlinear_arith)
            requires
                size == alignment * q + r,
                pad_for(size, alignment) == alignment - r,
        ;
        lemma_mod_multiples_basic(q + 1, alignment);
    }
}

/// The running size of a fresh layout after allocating `tys`, in order.
pub open spec fn replayed_size(tys: Seq<DataType>) -> int
    decreases tys.len(),
{
    if tys.len() == 0 {
        0
    } else {
        let prev = replayed_size(tys.drop_last());
        prev + pad_for(prev, tys.last().alignment_spec() as int) + tys.last().size_spec()
    }
}

/// The offset the `i`-th allocation receives when a fresh layout allocates
/// `tys`, in order.
pub open spec fn replayed_offset(tys: Seq<DataType>, i: int) -> int {
    let prev = replayed_size(tys.take(i));
    prev + pad_for(prev, tys[i].alignment_spec() as int)
}

/// An ordered, packed record of typed fields within one memory space.
#[derive(Debug, PartialEq, Eq)]
pub struct MemoryLayout {
    members: Vec<Member>,
    size: u32,
    mem_type: GpuAddressType,
}

impl Clone for MemoryLayout {
    /// A deep copy holding the same members, size and memory space.
    fn clone(&self) -> (r: Self)
        ensures
            r.members_spec() == self.members_spec(),
            r.size_spec() == self.size_spec(),
            r.mem_type_spec() == self.mem_type_spec(),
    {
        let members = self.members.clone();
        proof {
            assert(members@ =~= self.members@);
        }
        MemoryLayout { members, size: self.size, mem_type: self.mem_type }
    }
}

impl MemoryLayout {
    /// The fields allocated so far, in allocation order.
    pub closed spec fn members_spec(self) -> Seq<Member> {
        self.members@
    }

    /// The total extent of the record in words, padding included.
    pub closed spec fn size_spec(self) -> u32 {
        self.size
    }

    /// The memory space every member address is tagged with.
    pub closed spec fn mem_type_spec(self) -> GpuAddressType {
        self.mem_type
    }

    /// The aligned offset the next allocation of `ty` would receive.
    pub open spec fn next_offset(self, ty: DataType) -> int {
        self.size_spec() + pad_for(self.size_spec() as int, ty.alignment_spec() as int)
    }

    /// Whether an allocation of `ty` stays within the address space's offset
    /// field and the running size stays within a word count.
    pub open spec fn can_alloc(self, ty: DataType) -> bool {
        ty.size_spec() >= 1 && self.next_offset(ty) <= GPU_ADDR_OFFSET_MASK && self.next_offset(ty)
            + ty.size_spec() <= u32::MAX
    }

    /// The layout is exactly what allocating `tys`, in order, on a fresh
    /// layout produces.
    pub open spec fn built_from(self, tys: Seq<DataType>) -> bool {
        self.members_spec().len() == tys.len() && self.size_spec() == replayed_size(tys) && forall|
            i: int,
        |
            0 <= i < tys.len() ==> #[trigger] self.members_spec()[i].ty == tys[i]
                && self.members_spec()[i].offset.offset_spec() == replayed_offset(tys, i)
    }

    /// Every member is tagged with the layout's memory space, aligned to its
    /// type, at least one word wide, and contained in the record; members
    /// stand in strictly increasing offset order.
    pub open spec fn wf(self) -> bool {
        forall|i: int|
            0 <= i < self.members_spec().len() ==> {
                let m = #[trigger] self.members_spec()[i];
                m.offset.wf() && m.offset.address_type_spec() == self.mem_type_spec()
                    && m.ty.size_spec() >= 1 && m.offset.offset_spec() as int
                    % m.ty.alignment_spec() as int == 0 && m.offset.offset_spec()
                    + m.ty.size_spec() <= self.size_spec() && (forall|j: int|
                    i < j < self.members_spec().len()
                        ==> m.offset.offset_spec() < #[trigger] self.members_spec()[j].offset.offset_spec())
            }
    }

    /// An empty record for the given memory space.
    pub fn new(mem_type: GpuAddressType) -> (r: Self)
        ensures
            r.wf(),
            r.members_spec() =~= Seq::<Member>::empty(),
            r.size_spec() == 0,
            r.mem_type_spec() == mem_type,
            r.built_from(Seq::<DataType>::empty()),
    {
        let r = MemoryLayout { members: Vec::new(), size: 0, mem_type };
        proof {
            assert(r.members_spec() =~= Seq::<Member>::empty());
        }
        r
    }

    /// Allocates the next field: pads the running size up to the type's
    /// alignment, records the member at that offset, and returns the offset
    /// as an address tagged with the layout's memory space.
    pub fn allocate(&mut self, ty: DataType) -> (r: GpuAddress)
        requires
            old(self).wf(),
            old(self).can_alloc(ty),
        ensures
            final(self).wf(),
            r.wf(),
            r.address_type_spec() == old(self).mem_type_spec(),
            r.offset_spec() == old(self).next_offset(ty),
            final(self).mem_type_spec() == old(self).mem_type_spec(),
            final(self).size_spec() == old(self).next_offset(ty) + ty.size_spec(),
            final(self).members_spec() =~= old(self).members_spec().push(
                Member { ty, offset: r },
            ),
            forall|tys: Seq<DataType>|
                old(self).built_from(tys) ==> #[trigger] final(self).built_from(tys.push(ty)),
    {
        let alignment = ty.alignment();
        proof {
            lemma_pad_aligns(self.size as int, alignment as int);
        }
        let rem = self.size % alignment;
        let adjust: u32 = if rem == 0 {
            0
        } else {
            alignment - rem
        };
        let offset: u32 = self.size + adjust;
        proof {
            assert(offset <= 0x00FF_FFFFu32 ==> offset & 0xFF00_0000u32 == 0) by (bit_vector);
        }
        let addr = GpuAddress::new(self.mem_type, offset);
        self.members.push(Member { ty, offset: addr });
        self.size = offset + ty.size();
        proof {
            let ms = self.members@;
            assert forall|i: int| 0 <= i < ms.len() implies {
                let m = #[trigger] ms[i];
                m.offset.wf() && m.offset.address_type_spec() == self.mem_type_spec()
                    && m.ty.size_spec() >= 1 && m.offset.offset_spec() as int
                    % m.ty.alignment_spec() as int == 0 && m.offset.offset_spec()
                    + m.ty.size_spec() <= self.size_spec() && (forall|j: int|
                    i < j < ms.len() ==> m.offset.offset_spec()
                        < #[trigger] ms[j].offset.offset_spec())
            } by {
                if i < ms.len() - 1 {
                    assert(old(self).members_spec()[i] == ms[i]);
                }
            }
            assert forall|tys: Seq<DataType>| old(self).built_from(tys) implies #[trigger] self.built_from(
                tys.push(ty),
            ) by {
                let grown = tys.push(ty);
                assert(grown.drop_last() =~= tys);
                assert(self.size_spec() == replayed_size(grown));
                assert forall|i: int|
                    0 <= i < grown.len() implies #[trigger] self.members_spec()[i].ty == grown[i]
                    && self.members_spec()[i].offset.offset_spec() == replayed_offset(grown, i) by {
                    if i < tys.len() {
                        assert(grown.take(i) =~= tys.take(i));
                        assert(old(self).members_spec()[i] == self.members_spec()[i]);
                    } else {
                        assert(grown.take(i) =~= tys);
                    }
                }
            }
        }
        addr
    }
}

/// Law: layouts are deterministic — two layouts of one memory space built by
/// the same sequence of allocations hold the same members at the same
/// offsets, and have the same size.
pub proof fn lemma_replay_deterministic(l1: MemoryLayout, l2: MemoryLayout, tys: Seq<DataType>)
    requires
        l1.wf(),
        l2.wf(),
        l1.mem_type_spec() == l2.mem_type_spec(),
        l1.built_from(tys),
        l2.built_from(tys),
    ensures
        l1.members_spec() =~= l2.members_spec(),
        l1.size_spec() == l2.size_spec(),
{
    assert forall|i: int| 0 <= i < tys.len() implies l1.members_spec()[i] == l2.members_spec()[i] by {
        crate::address::lemma_address_determined(
            l1.members_spec()[i].offset,
            l2.members_spec()[i].offset,
        );
    }
}

/// Law: a layout packs its record — member offsets strictly increase in
/// allocation order, and every member sits at a multiple of its type's
/// alignment.
pub proof fn lemma_layout_packed(l: MemoryLayout)
    requires
        l.wf(),
    ensures
        forall|i: int, j: int|
            0 <= i < j < l.members_spec().len() ==> #[trigger] l.members_spec()[i].offset.offset_spec()
                < #[trigger] l.members_spec()[j].offset.offset_spec(),
        forall|i: int|
            0 <= i < l.members_spec().len() ==> #[trigger] l.members_spec()[i].offset.offset_spec() as int
                % l.members_spec()[i].ty.alignment_spec() as int == 0,
{
}

} // verus!
