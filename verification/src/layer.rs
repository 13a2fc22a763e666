//! Span lifecycle adapter: reacts to "span entered" and "span exited"
//! notifications, keeps the per-thread shadow stack consistent with the
//! profiler's strictly nested frame model, and flags nesting violations.
//!
//! Policy on a mismatched exit: always trust the structural LIFO order of the
//! physical stack over the logical identity of the exiting span. This keeps
//! the profiler's stack depth correct even though the reported span
//! boundaries may be mislabeled for that one pop; silently doing nothing
//! would leave a dangling open frame, corrupting every later measurement on
//! the thread.

use vstd::prelude::*;
use vstd::string::StringExecFns;

use crate::depth::{adjust_stack_depth, clamped_stack_depth};
use crate::stack::{ShadowEntry, ShadowStack};

verus! {

/// Capture depth requested for span frames when none is configured.
pub const DEFAULT_STACK_DEPTH: u16 = 64;

/// Color attached to every diagnostic message.
pub const DIAGNOSTIC_COLOR: u32 = 0xFF000000;

/// Adapter between the span-instrumentation model and the profiler's
/// stack-frame trace. Holds only configuration; the per-thread state lives
/// in a [`ShadowStack`] owned by the caller.
pub struct TracyLayer {
    stack_depth: u16,
}

impl TracyLayer {
    /// The configured maximum callstack depth, before clamping.
    pub closed spec fn spec_stack_depth(&self) -> u16 {
        self.stack_depth
    }

    /// Create a new adapter that collects stack traces up to the default
    /// depth.
    pub fn new() -> (r: Self)
        ensures
            r.spec_stack_depth() == DEFAULT_STACK_DEPTH,
    {
        TracyLayer { stack_depth: DEFAULT_STACK_DEPTH }
    }

    /// Specify the maximum number of stack frames that will be collected.
    ///
    /// Specifying 0 frames will disable stack trace collection.
    pub fn with_stackdepth(self, stack_depth: u16) -> (r: Self)
        ensures
            r.spec_stack_depth() == stack_depth,
    {
        TracyLayer { stack_depth }
    }

    /// The configured maximum callstack depth.
    pub fn stack_depth(&self) -> (r: u16)
        ensures
            r == self.spec_stack_depth(),
    {
        self.stack_depth
    }
}

impl Default for TracyLayer {
    fn default() -> (r: Self)
        ensures
            r.spec_stack_depth() == DEFAULT_STACK_DEPTH,
    {
        TracyLayer::new()
    }
}

/// Everything the profiler backend needs to begin one frame recording:
/// display name, source file, source line and the clamped capture depth.
/// The frame category is always empty and is not carried here.
pub struct FrameStart {
    /// Display name: the span name, with the pre-rendered fields appended
    /// when any are available.
    pub name: String,
    /// Source file, or a placeholder when the metadata lacks one.
    pub file: String,
    /// Source line, or 0 when the metadata lacks one.
    pub line: u32,
    /// Clamped callstack-capture depth.
    pub depth: u16,
}

/// Display name composed for a frame: `name` alone, or `name: fields` when a
/// pre-rendered field string is available.
pub open spec fn spec_display_name(name: Seq<char>, formatted_fields: Option<Seq<char>>) -> Seq<
    char,
> {
    match formatted_fields {
        Some(fields) => name + ": "@ + fields,
        None => name,
    }
}

/// Placeholder used when span metadata carries no source file.
pub open spec fn spec_missing_file_placeholder() -> Seq<char> {
    "<error: not available>"@
}

impl TracyLayer {
    /// Compose the begin-frame request for an entered span.
    ///
    /// Metadata absence is not a failure: a missing file degrades to a
    /// placeholder string and a missing line to 0.
    pub fn frame_start(
        &self,
        name: &str,
        formatted_fields: Option<&str>,
        file: Option<&str>,
        line: Option<u32>,
    ) -> (r: FrameStart)
        ensures
            formatted_fields matches Some(fields) ==> r.name@ == spec_display_name(
                name@,
                Some(fields@),
            ),
            formatted_fields is None ==> r.name@ == spec_display_name(name@, None),
            file matches Some(f) ==> r.file@ == f@,
            file is None ==> r.file@ == spec_missing_file_placeholder(),
            line matches Some(l) ==> r.line == l,
            line is None ==> r.line == 0,
            r.depth == clamped_stack_depth(self.spec_stack_depth()),
    {
        let display_name = match formatted_fields {
            Some(fields) => {
                let mut n = name.to_owned();
                n.append(": ");
                n.append(fields);
                n
            },
            None => name.to_owned(),
        };
        let file_name = match file {
            Some(f) => f.to_owned(),
            None => "<error: not available>".to_owned(),
        };
        let line_number = match line {
            Some(l) => l,
            None => 0,
        };
        FrameStart {
            name: display_name,
            file: file_name,
            line: line_number,
            depth: adjust_stack_depth(self.stack_depth),
        }
    }

    /// Record that the profiler opened a frame for the span with the given
    /// correlation id: push the frame handle onto the calling thread's
    /// shadow stack. There is no failure path.
    pub fn span_enter<H>(&self, stack: &mut ShadowStack<H>, handle: H, correlation_id: u64)
        ensures
            final(stack)@ == spec_enter_stack(old(stack)@, handle, correlation_id),
    {
        stack.push(handle, correlation_id);
    }

    /// React to a span exit: pop the top of the calling thread's shadow
    /// stack and say what the caller must do with the popped frame.
    ///
    /// The returned action carries the one frame handle to close, exactly
    /// when an entry was popped, and says which diagnostic (if any) to emit.
    pub fn span_exit<H>(&self, stack: &mut ShadowStack<H>, correlation_id: u64) -> (r: ExitAction<
        H,
    >)
        ensures
            final(stack)@ == spec_exit_stack(old(stack)@),
            r == spec_exit_action(old(stack)@, correlation_id),
    {
        match stack.pop() {
            Some(entry) => {
                let out_of_order = entry.correlation_id != correlation_id;
                ExitAction::Close { handle: entry.handle, out_of_order }
            },
            None => ExitAction::NothingOnStack,
        }
    }
}

/// What a span exit requires of the caller.
pub enum ExitAction<H> {
    /// The shadow stack was empty: the span must have been entered on a
    /// different thread. Emit the [`Diagnostic::NothingOnStack`] message;
    /// there is no frame to close.
    NothingOnStack,
    /// Close `handle` — exactly once, on every path. When `out_of_order` is
    /// set, the popped entry belonged to a different span: emit the
    /// [`Diagnostic::OutOfOrder`] message before closing.
    Close {
        /// The frame-recording handle popped from the shadow stack.
        handle: H,
        /// Whether the popped entry's correlation id differed from the id of
        /// the span being exited.
        out_of_order: bool,
    },
}

/// Shadow stack after a span enter: the new entry is pushed on top.
pub open spec fn spec_enter_stack<H>(
    stack: Seq<ShadowEntry<H>>,
    handle: H,
    correlation_id: u64,
) -> Seq<ShadowEntry<H>> {
    stack.push(ShadowEntry { handle, correlation_id })
}

/// Shadow stack after a span exit: the top entry is popped, if any.
pub open spec fn spec_exit_stack<H>(stack: Seq<ShadowEntry<H>>) -> Seq<ShadowEntry<H>> {
    if stack.len() == 0 {
        stack
    } else {
        stack.drop_last()
    }
}

/// Action a span exit demands, as a function of the stack and the exiting
/// span's correlation id.
pub open spec fn spec_exit_action<H>(stack: Seq<ShadowEntry<H>>, correlation_id: u64) -> ExitAction<
    H,
> {
    if stack.len() == 0 {
        ExitAction::NothingOnStack
    } else {
        ExitAction::Close {
            handle: stack.last().handle,
            out_of_order: stack.last().correlation_id != correlation_id,
        }
    }
}

/// Well-nested spans: after entering A then B, exiting B then A closes
/// exactly the two frames just opened, innermost first, emits no diagnostic,
/// and returns the shadow stack to its initial state.
pub proof fn lemma_well_nested_exit<H>(
    stack0: Seq<ShadowEntry<H>>,
    a: ShadowEntry<H>,
    b: ShadowEntry<H>,
)
    ensures
        spec_exit_action(
            spec_enter_stack(
                spec_enter_stack(stack0, a.handle, a.correlation_id),
                b.handle,
                b.correlation_id,
            ),
            b.correlation_id,
        ) == (ExitAction::Close { handle: b.handle, out_of_order: false }),
        spec_exit_stack(
            spec_enter_stack(
                spec_enter_stack(stack0, a.handle, a.correlation_id),
                b.handle,
                b.correlation_id,
            ),
        ) == spec_enter_stack(stack0, a.handle, a.correlation_id),
        spec_exit_action(
            spec_enter_stack(stack0, a.handle, a.correlation_id),
            a.correlation_id,
        ) == (ExitAction::Close { handle: a.handle, out_of_order: false }),
        spec_exit_stack(spec_enter_stack(stack0, a.handle, a.correlation_id)) == stack0,
{
    let s1 = spec_enter_stack(stack0, a.handle, a.correlation_id);
    let s2 = spec_enter_stack(s1, b.handle, b.correlation_id);
    assert(s2.drop_last() =~= s1);
    assert(s1.drop_last() =~= stack0);
}

/// Out-of-order exit: after entering A then B, exiting A pops B — the
/// physical top — so exactly one out-of-order diagnostic is emitted, the
/// frame opened for B is the one closed, and A's entry remains on the stack.
pub proof fn lemma_out_of_order_exit<H>(
    stack0: Seq<ShadowEntry<H>>,
    a: ShadowEntry<H>,
    b: ShadowEntry<H>,
)
    requires
        a.correlation_id != b.correlation_id,
    ensures
        spec_exit_action(
            spec_enter_stack(
                spec_enter_stack(stack0, a.handle, a.correlation_id),
                b.handle,
                b.correlation_id,
            ),
            a.correlation_id,
        ) == (ExitAction::Close { handle: b.handle, out_of_order: true }),
        spec_exit_stack(
            spec_enter_stack(
                spec_enter_stack(stack0, a.handle, a.correlation_id),
                b.handle,
                b.correlation_id,
            ),
        ) == spec_enter_stack(stack0, a.handle, a.correlation_id),
{
    let s1 = spec_enter_stack(stack0, a.handle, a.correlation_id);
    let s2 = spec_enter_stack(s1, b.handle, b.correlation_id);
    assert(s2.drop_last() =~= s1);
}

/// Exit on an empty shadow stack: exactly one "nothing on stack" diagnostic
/// is called for, no frame is closed, and the stack stays empty.
pub proof fn lemma_exit_on_empty_stack<H>(correlation_id: u64)
    ensures
        spec_exit_action(Seq::<ShadowEntry<H>>::empty(), correlation_id)
            == ExitAction::<H>::NothingOnStack,
        spec_exit_stack(Seq::<ShadowEntry<H>>::empty()) == Seq::<ShadowEntry<H>>::empty(),
{
}

/// The three anomalies this layer detects; each is mitigated locally and
/// surfaced to the trace as one colored message, never as a failure value.
pub enum Diagnostic {
    /// A span exited while the thread's shadow stack was empty.
    NothingOnStack,
    /// The popped entry's correlation id differed from the exiting span's.
    OutOfOrder,
    /// An event's rendered text exceeded the transport's maximum payload
    /// length and was truncated.
    MessageTruncated,
}

impl Diagnostic {
    /// The message text for this diagnostic.
    pub open spec fn spec_text(&self) -> Seq<char> {
        match self {
            Diagnostic::NothingOnStack => "Exiting a tracing span, but got nothing on the tracy span stack!"@,
            Diagnostic::OutOfOrder => "Tracing spans exited out of order! Trace may not be accurate for this span stack."@,
            Diagnostic::MessageTruncated => "Message for the previous event was too long, truncated"@,
        }
    }

    /// The message text for this diagnostic.
    pub fn text(&self) -> (r: &'static str)
        ensures
            r@ == self.spec_text(),
    {
        match self {
            Diagnostic::NothingOnStack => "Exiting a tracing span, but got nothing on the tracy span stack!",
            Diagnostic::OutOfOrder => "Tracing spans exited out of order! Trace may not be accurate for this span stack.",
            Diagnostic::MessageTruncated => "Message for the previous event was too long, truncated",
        }
    }

    /// The color every diagnostic message is sent with.
    pub fn color(&self) -> (r: u32)
        ensures
            r == DIAGNOSTIC_COLOR,
    {
        DIAGNOSTIC_COLOR
    }
}

} // verus!
