//! Fixed-width GPU data blocks.
//!
//! Every record written into a [`GpuMemory`](crate::memory::GpuMemory) — a
//! transform, a color, or a fill/stroke primitive — occupies a word count
//! aligned to 4, padding with zero words where the payload is narrower. Words
//! hold the 32-bit patterns the shader will read; the engine itself never
//! interprets them.

use vstd::prelude::*;

use crate::ids::ColorId;
use crate::ids::TransformId;

verus! {

/// A 2D transform: a 2x3 matrix of float words, padded to 8 words.
#[derive(Copy, Clone, Debug, PartialEq, Eq)]
pub struct GpuTransform2D {
    pub matrix: [u32; 6],
}

impl GpuTransform2D {
    /// The words of the record: the matrix rows, then two padding words.
    pub open spec fn words_spec(self) -> Seq<u32> {
        self.matrix@ + seq![0u32, 0u32]
    }

    /// A transform block from the six matrix words, row by row.
    pub fn new(matrix: [u32; 6]) -> (r: Self)
        ensures
            r.matrix@ == matrix@,
    {
        GpuTransform2D { matrix }
    }

    /// The words of the record, as pushed into GPU memory.
    pub fn to_words(&self) -> (r: Vec<u32>)
        ensures
            r@ =~= self.words_spec(),
            r@.len() == 8,
    {
        let mut words: Vec<u32> = Vec::new();
        words.push(self.matrix[0]);
        words.push(self.matrix[1]);
        words.push(self.matrix[2]);
        words.push(self.matrix[3]);
        words.push(self.matrix[4]);
        words.push(self.matrix[5]);
        words.push(0);
        words.push(0);
        words
    }
}

/// An RGBA color of four float words.
#[derive(Copy, Clone, Debug, PartialEq, Eq, Structural)]
pub struct GpuColorF {
    pub r: u32,
    pub g: u32,
    pub b: u32,
    pub a: u32,
}

impl GpuColorF {
    /// The words of the record: red, green, blue, alpha.
    pub open spec fn words_spec(self) -> Seq<u32> {
        seq![self.r, self.g, self.b, self.a]
    }

    /// The words of the record, as pushed into GPU memory.
    pub fn to_words(&self) -> (w: Vec<u32>)
        ensures
            w@ =~= self.words_spec(),
            w@.len() == 4,
    {
        let mut words: Vec<u32> = Vec::new();
        words.push(self.r);
        words.push(self.g);
        words.push(self.b);
        words.push(self.a);
        words
    }
}

/// One fill operation's record: depth, pattern reference and transform pair.
#[derive(Copy, Clone, Debug, PartialEq, Eq)]
pub struct FillPrimitive {
    pub z_index: u32,
    pub color: ColorId,
    pub transforms: [TransformId; 2],
}

impl FillPrimitive {
    /// The words of the record: depth, then the packed addresses of the
    /// color and the two transforms.
    pub open spec fn words_spec(self) -> Seq<u32> {
        seq![
            self.z_index,
            self.color.addr_spec().raw_spec(),
            self.transforms@[0].addr_spec().raw_spec(),
            self.transforms@[1].addr_spec().raw_spec(),
        ]
    }

    /// A fill primitive for one draw operation.
    pub fn new(z_index: u32, color: ColorId, transforms: [TransformId; 2]) -> (r: Self)
        ensures
            r == (FillPrimitive { z_index, color, transforms }),
    {
        FillPrimitive { z_index, color, transforms }
    }

    /// The words of the record, as pushed into GPU memory.
    pub fn to_words(&self) -> (w: Vec<u32>)
        ensures
            w@ =~= self.words_spec(),
            w@.len() == 4,
    {
        let mut words: Vec<u32> = Vec::new();
        words.push(self.z_index);
        words.push(self.color.address().to_raw());
        words.push(self.transforms[0].address().to_raw());
        words.push(self.transforms[1].address().to_raw());
        words
    }
}

/// One stroke operation's record: depth, pattern reference, transform pair
/// and line width, padded to 8 words.
#[derive(Copy, Clone, Debug, PartialEq, Eq)]
pub struct StrokePrimitive {
    pub z_index: u32,
    pub width: u32,
    pub color: ColorId,
    pub transforms: [TransformId; 2],
}

impl StrokePrimitive {
    /// The words of the record: depth, the packed addresses of the color and
    /// the two transforms, the line width, then three padding words.
    pub open spec fn words_spec(self) -> Seq<u32> {
        seq![
            self.z_index,
            self.color.addr_spec().raw_spec(),
            self.transforms@[0].addr_spec().raw_spec(),
            self.transforms@[1].addr_spec().raw_spec(),
            self.width,
            0u32,
            0u32,
            0u32,
        ]
    }

    /// A stroke primitive for one draw operation; `width` is the line width
    /// word the tessellation options carry.
    pub fn new(z_index: u32, width: u32, color: ColorId, transforms: [TransformId; 2]) -> (r: Self)
        ensures
            r == (StrokePrimitive { z_index, width, color, transforms }),
    {
        StrokePrimitive { z_index, width, color, transforms }
    }

    /// The words of the record, as pushed into GPU memory.
    pub fn to_words(&self) -> (w: Vec<u32>)
        ensures
            w@ =~= self.words_spec(),
            w@.len() == 8,
    {
        let mut words: Vec<u32> = Vec::new();
        words.push(self.z_index);
        words.push(self.color.address().to_raw());
        words.push(self.transforms[0].address().to_raw());
        words.push(self.transforms[1].address().to_raw());
        words.push(self.width);
        words.push(0);
        words.push(0);
        words.push(0);
        words
    }
}

} // verus!
