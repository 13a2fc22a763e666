//! Stack-depth clamp: bounds a requested callstack-capture depth to the
//! maximum the capture mechanism can safely accept.

use vstd::prelude::*;

verus! {

/// The deepest callstack the capture backend accepts for one sample.
pub const MAX_STACK_DEPTH: u16 = 62;

/// A requested capture depth, bounded by [`MAX_STACK_DEPTH`].
pub open spec fn clamped_stack_depth(depth: u16) -> u16 {
    if depth < MAX_STACK_DEPTH {
        depth
    } else {
        MAX_STACK_DEPTH
    }
}

/// Clamp the stack depth to the maximum supported by the capture backend.
///
/// Requesting a depth of 0 disables callstack capture, and 0 is returned
/// unchanged.
pub fn adjust_stack_depth(depth: u16) -> (r: u16)
    ensures
        r == clamped_stack_depth(depth),
{
    if depth < MAX_STACK_DEPTH {
        depth
    } else {
        MAX_STACK_DEPTH
    }
}

/// Clamping is idempotent and never increases a requested depth.
pub proof fn lemma_clamp_idempotent(depth: u16)
    ensures
        clamped_stack_depth(clamped_stack_depth(depth)) == clamped_stack_depth(depth),
        clamped_stack_depth(depth) <= depth,
{
}

} // verus!
