//! Per-thread shadow stack: the ordered list of profiler frame-recording
//! handles currently believed open on one thread, each paired with the
//! correlation identifier of the span that opened it.
//!
//! An instance is confined to one thread; the caller keeps one instance per
//! thread and never shares it.

use vstd::prelude::*;

verus! {

/// One open profiler frame: the frame-recording handle (exclusively owned;
/// releasing it signals "this frame ended" to the profiler backend) and the
/// correlation id of the span that opened it (a pure lookup key for the
/// nesting consistency check).
pub struct ShadowEntry<H> {
    /// The frame-recording handle owned by this entry.
    pub handle: H,
    /// Correlation id of the span this frame was opened for.
    pub correlation_id: u64,
}

/// A LIFO stack of [`ShadowEntry`], scoped to one execution thread.
///
/// Entries are pushed in the order spans are entered, so under correct
/// nesting the correlation ids read top-to-bottom mirror the span-enter
/// order of the instrumentation framework.
pub struct ShadowStack<H> {
    entries: Vec<ShadowEntry<H>>,
}

impl<H> View for ShadowStack<H> {
    type V = Seq<ShadowEntry<H>>;

    closed spec fn view(&self) -> Seq<ShadowEntry<H>> {
        self.entries@
    }
}

impl<H> ShadowStack<H> {
    /// Create an empty shadow stack.
    pub fn new() -> (r: Self)
        ensures
            r@ == Seq::<ShadowEntry<H>>::empty(),
    {
        ShadowStack { entries: Vec::new() }
    }

    /// Number of frames currently believed open on this thread.
    pub fn len(&self) -> (r: usize)
        ensures
            r == self@.len(),
    {
        self.entries.len()
    }

    /// Record a newly opened frame for the span with the given correlation id.
    pub fn push(&mut self, handle: H, correlation_id: u64)
        ensures
            final(self)@ == old(self)@.push(
                ShadowEntry { handle, correlation_id },
            ),
    {
        self.entries.push(ShadowEntry { handle, correlation_id });
    }

    /// Remove and return the most recently opened frame, if any.
    pub fn pop(&mut self) -> (r: Option<ShadowEntry<H>>)
        ensures
            old(self)@.len() == 0 ==> r is None && final(self)@ == old(self)@,
            old(self)@.len() > 0 ==> r == Some(old(self)@.last()) && final(self)@ == old(
                self,
            )@.drop_last(),
    {
        let r = self.entries.pop();
        proof {
            if old(self)@.len() > 0 {
                assert(old(self)@.subrange(0, old(self)@.len() - 1) =~= old(self)@.drop_last());
            }
        }
        r
    }
}

} // verus!
