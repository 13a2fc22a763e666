//! The profiler-backend capability and the allocation-profiling decorator.
//!
//! The backend's wire protocol, discovery and capture machinery are external
//! collaborators: this crate only fixes what is handed to them (clamped
//! depths, composed names, bounded message payloads).

use vstd::prelude::*;

use crate::depth::{adjust_stack_depth, clamped_stack_depth};

verus! {

/// A type representing an enabled profiler client.
///
/// A live value stands for "the profiler backend is active"; every operation
/// on the backend is fire-and-forget and safe to call concurrently from any
/// number of threads. Acquiring one belongs to the backend bindings, not to
/// this reconciliation layer.
pub struct Client(());

/// A profiling wrapper around another allocator.
///
/// It decorates an allocation interface, reporting each allocation and
/// deallocation to the profiler with a callstack of at most the configured
/// depth (0 disables callstack capture for these reports).
pub struct ProfiledAllocator<T>(T, u16);

impl<T> ProfiledAllocator<T> {
    /// The wrapped allocator.
    pub closed spec fn spec_inner(&self) -> T {
        self.0
    }

    /// The clamped callstack depth used when reporting.
    pub closed spec fn spec_callstack_depth(&self) -> u16 {
        self.1
    }

    /// Construct a new `ProfiledAllocator`. The requested callstack depth
    /// is clamped to what the capture backend accepts.
    pub fn new(inner_allocator: T, callstack_depth: u16) -> (r: Self)
        ensures
            r.spec_inner() == inner_allocator,
            r.spec_callstack_depth() == clamped_stack_depth(callstack_depth),
    {
        ProfiledAllocator(inner_allocator, adjust_stack_depth(callstack_depth))
    }

    /// The wrapped allocator.
    pub fn inner(&self) -> (r: &T)
        ensures
            *r == self.spec_inner(),
    {
        &self.0
    }

    /// The clamped callstack depth used when reporting.
    pub fn callstack_depth(&self) -> (r: u16)
        ensures
            r == self.spec_callstack_depth(),
    {
        self.1
    }
}

} // verus!
