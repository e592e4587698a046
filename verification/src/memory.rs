//! The growable word buffer backing GPU data.
//!
//! A [`GpuMemory`] is an ordered buffer of 32-bit words: the concrete store a
//! [`GpuAddress`](crate::address::GpuAddress) points into. It grows
//! append-only through [`GpuMemory::push`], which returns the global address
//! the block was written at, and supports in-place overwrites through
//! [`GpuMemory::set`] for editing previously pushed records. Words are bit
//! patterns; the buffer never interprets them.

use vstd::prelude::*;

use crate::address::GPU_ADDR_OFFSET_MASK;
use crate::address::GpuAddress;
use crate::address::GpuAddressType;

verus! {

/// `buffer` with `block` written in place starting at `base`.
pub open spec fn overwritten(buffer: Seq<u32>, base: int, block: Seq<u32>) -> Seq<u32> {
    buffer.subrange(0, base) + block + buffer.subrange(base + block.len(), buffer.len() as int)
}

/// An append-only, randomly overwritable buffer of GPU words.
pub struct GpuMemory {
    buffer: Vec<u32>,
}

impl View for GpuMemory {
    type V = Seq<u32>;

    closed spec fn view(&self) -> Seq<u32> {
        self.buffer@
    }
}

impl Clone for GpuMemory {
    /// A deep copy: the new buffer holds the same words and shares nothing.
    fn clone(&self) -> (r: Self)
        ensures
            r@ == self@,
    {
        let buffer = self.buffer.clone();
        proof {
            assert(buffer@ =~= self.buffer@);
        }
        GpuMemory { buffer }
    }
}

impl GpuMemory {
    /// An empty buffer.
    pub fn new() -> (r: Self)
        ensures
            r@ =~= Seq::<u32>::empty(),
    {
        GpuMemory { buffer: Vec::with_capacity(128) }
    }

    /// The number of words written so far.
    pub fn len(&self) -> (r: usize)
        ensures
            r == self@.len(),
    {
        self.buffer.len()
    }

    /// All words written so far, in address order.
    pub fn as_slice(&self) -> (r: &[u32])
        ensures
            r@ == self@,
    {
        self.buffer.as_slice()
    }

    /// Appends a block of words and returns the global address of its first
    /// word. A block always occupies a word count aligned to 4, and the
    /// buffer must not grow past the address space's offset field.
    pub fn push(&mut self, block: &[u32]) -> (r: GpuAddress)
        requires
            block@.len() % 4 == 0,
            old(self)@.len() <= GPU_ADDR_OFFSET_MASK,
        ensures
            final(self)@ =~= old(self)@ + block@,
            r.wf(),
            r.address_type_spec() == GpuAddressType::Global,
            r.offset_spec() == old(self)@.len(),
            r.raw_spec() == old(self)@.len(),
    {
        let len = self.buffer.len() as u32;
        proof {
            assert(len <= 0x00FF_FFFFu32 ==> len & 0xFF00_0000u32 == 0) by (bit_vector);
        }
        let address = GpuAddress::global(len);
        self.buffer.extend_from_slice(block);
        proof {
            assert(self.buffer@ =~= old(self)@ + block@);
        }
        address
    }

    /// Overwrites words in place, starting at a previously returned global
    /// address. The write must stay within what has been pushed: overwriting
    /// past a record boundary would corrupt a neighbouring record.
    pub fn set(&mut self, address: GpuAddress, block: &[u32])
        requires
            address.wf(),
            address.address_type_spec() == GpuAddressType::Global,
            address.offset_spec() + block@.len() <= old(self)@.len(),
        ensures
            final(self)@ =~= overwritten(old(self)@, address.offset_spec() as int, block@),
            final(self)@.len() == old(self)@.len(),
    {
        let base = address.offset() as usize;
        let total = self.buffer.len();
        let mut i: usize = 0;
        while i < block.len()
            invariant
                0 <= i <= block@.len(),
                base == address.offset_spec(),
                base + block@.len() <= self@.len(),
                self@.len() == total,
                self@.len() == old(self)@.len(),
                forall|j: int| 0 <= j < base ==> self@[j] == old(self)@[j],
                forall|j: int| 0 <= j < i ==> self@[base + j] == block@[j],
                forall|j: int| base + i <= j < self@.len() ==> self@[j] == old(self)@[j],
            decreases block@.len() - i,
        {
            self.buffer[base + i] = block[i];
            i += 1;
        }
        proof {
            assert(self@ =~= overwritten(old(self)@, address.offset_spec() as int, block@));
        }
    }
}

/// Law: an overwrite touches nothing outside its window — the buffer keeps
/// its length, agrees with the old words everywhere outside the written
/// window, and holds exactly the block inside it.
pub proof fn lemma_overwrite_window(buffer: Seq<u32>, base: int, block: Seq<u32>)
    requires
        0 <= base,
        base + block.len() <= buffer.len(),
    ensures
        overwritten(buffer, base, block).len() == buffer.len(),
        forall|j: int| 0 <= j < base ==> #[trigger] overwritten(buffer, base, block)[j] == buffer[j],
        forall|j: int|
            base + block.len() <= j < buffer.len() ==> #[trigger] overwritten(buffer, base, block)[j]
                == buffer[j],
        forall|j: int|
            0 <= j < block.len() ==> #[trigger] overwritten(buffer, base, block)[base + j]
                == block[j],
{
}

/// Law: pushing a block and immediately overwriting the returned address with
/// an equal-sized block leaves the buffer ending in exactly that block's
/// words; overwriting with the block itself reproduces the pushed buffer
/// word for word.
pub proof fn lemma_push_set_roundtrip(buffer: Seq<u32>, block: Seq<u32>, replacement: Seq<u32>)
    requires
        block.len() == replacement.len(),
    ensures
        overwritten(buffer + block, buffer.len() as int, replacement) =~= buffer + replacement,
        overwritten(buffer + block, buffer.len() as int, block) =~= buffer + block,
{
    assert(overwritten(buffer + block, buffer.len() as int, replacement) =~= buffer + replacement);
}

} // verus!
