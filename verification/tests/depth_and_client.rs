//! Stack-depth clamp and the allocation-profiling decorator.

use tracing_tracy::client::ProfiledAllocator;
use tracing_tracy::depth::{adjust_stack_depth, MAX_STACK_DEPTH};

#[test]
fn clamp_bounds_deep_requests() {
    assert_eq!(adjust_stack_depth(0), 0);
    assert_eq!(adjust_stack_depth(1), 1);
    assert_eq!(adjust_stack_depth(61), 61);
    assert_eq!(adjust_stack_depth(62), 62);
    assert_eq!(adjust_stack_depth(63), 62);
    assert_eq!(adjust_stack_depth(64), 62);
    assert_eq!(adjust_stack_depth(u16::MAX), MAX_STACK_DEPTH);
}

#[test]
fn clamp_is_idempotent_and_never_increases() {
    for depth in [0u16, 1, 31, 61, 62, 63, 100, 1000, u16::MAX] {
        let once = adjust_stack_depth(depth);
        assert_eq!(adjust_stack_depth(once), once);
        assert!(once <= depth);
    }
}

#[test]
fn profiled_allocator_clamps_its_depth() {
    let a = ProfiledAllocator::new((), 100);
    assert_eq!(a.callstack_depth(), 62);
    assert_eq!(*a.inner(), ());
    let b = ProfiledAllocator::new(7u8, 0);
    assert_eq!(b.callstack_depth(), 0, "0 disables callstack capture");
    assert_eq!(*b.inner(), 7);
}
