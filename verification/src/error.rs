//! Error categories.
//!
//! Invariant violations (corrupted addresses, range underflow, overwrites
//! past a record boundary) are programming defects and are ruled out by the
//! contracts of the functions involved, not reported. What is reported are
//! requests for features that are deliberately deferred, and resource limits.

use vstd::prelude::*;

verus! {

/// Why a request was refused.
#[derive(Copy, Clone, Debug, PartialEq, Eq, Structural)]
pub enum RenderError {
    /// Only color patterns are implemented; image patterns are an
    /// acknowledged extension point and never fall back to a color fill.
    UnsupportedPattern,
    /// Only path shapes can be tessellated; circles are an acknowledged
    /// extension point.
    UnsupportedShape,
    /// A layer's instance memory would overrun the global address space's
    /// offset field.
    AllocationTooLarge,
}

} // verus!
