//! Event field collector: walks the structured fields of one instrumentation
//! event, renders them into a single `name = value` line, recognizes the
//! reserved boolean frame-marker field, and prepares the text for the
//! message transport, truncating safely on a character boundary when it
//! exceeds the transport's maximum payload length.

use vstd::prelude::*;
use vstd::string::StringExecFns;
use vstd::utf8::{
    encode_utf8, encode_utf8_valid_utf8, is_char_boundary, is_char_boundary_start_end_of_seq,
    valid_utf8,
};

use crate::depth::{adjust_stack_depth, clamped_stack_depth};
use crate::layer::TracyLayer;

verus! {

/// Maximum payload byte length the message transport accepts. The wire
/// format stores the length in a fixed-width field one unit narrower than
/// the natural string-length type, so any text at or beyond this bound must
/// be shortened before transmission.
pub const MAX_MESSAGE_LEN: usize = 65534;

/// The reserved field name whose boolean `true` value marks the end of one
/// continuous frame instead of contributing text.
pub open spec fn frame_mark_field_name() -> Seq<char> {
    "tracy.frame_mark"@
}

/// One field rendered as text: `name = value`, where `value` is already
/// debug-formatted.
pub open spec fn spec_rendered_field(name: Seq<char>, value: Seq<char>) -> Seq<char> {
    name + " = "@ + value
}

/// The collector's text after one more field is rendered: the new pair is
/// appended, prefixed with `", "` unless it is the first rendered field.
pub open spec fn spec_record_text(
    text: Seq<char>,
    rendered_any: bool,
    name: Seq<char>,
    value: Seq<char>,
) -> Seq<char> {
    if rendered_any {
        text + ", "@ + spec_rendered_field(name, value)
    } else {
        text + spec_rendered_field(name, value)
    }
}

/// Debug rendering of a boolean value.
pub open spec fn spec_bool_text(value: bool) -> Seq<char> {
    if value {
        "true"@
    } else {
        "false"@
    }
}

/// Collects the fields of one instrumentation event. Created empty for each
/// event and discarded after the event's output is taken.
pub struct EventVisitor {
    dest: String,
    first: bool,
    frame_mark: bool,
}

impl EventVisitor {
    /// The text rendered so far.
    pub closed spec fn spec_text(&self) -> Seq<char> {
        self.dest@
    }

    /// Whether at least one field was rendered as text.
    pub closed spec fn spec_rendered_any(&self) -> bool {
        !self.first
    }

    /// Whether the reserved frame-marker field was seen with value `true`.
    pub closed spec fn spec_frame_mark(&self) -> bool {
        self.frame_mark
    }

    /// Start collecting a new event: no text, no frame-boundary signal.
    pub fn new() -> (r: Self)
        ensures
            r.spec_text() == Seq::<char>::empty(),
            !r.spec_rendered_any(),
            !r.spec_frame_mark(),
    {
        EventVisitor { dest: String::new(), first: true, frame_mark: false }
    }

    /// Render one field whose value is already debug-formatted and append
    /// it to the event's text.
    pub fn record_debug(&mut self, name: &str, value: &str)
        ensures
            final(self).spec_text() == spec_record_text(
                old(self).spec_text(),
                old(self).spec_rendered_any(),
                name@,
                value@,
            ),
            final(self).spec_rendered_any(),
            final(self).spec_frame_mark() == old(self).spec_frame_mark(),
    {
        if self.first {
            self.dest.append(name);
            self.dest.append(" = ");
            self.dest.append(value);
            self.first = false;
        } else {
            self.dest.append(", ");
            self.dest.append(name);
            self.dest.append(" = ");
            self.dest.append(value);
        }
        proof {
            assert(self.dest@ =~= spec_record_text(
                old(self).spec_text(),
                old(self).spec_rendered_any(),
                name@,
                value@,
            ));
        }
    }

    /// Record a boolean field. A `true` value of the reserved frame-marker
    /// field sets the frame-boundary signal and is not rendered as text;
    /// every other boolean renders like any debug-formatted value.
    pub fn record_bool(&mut self, name: &str, value: bool)
        ensures
            value && name@ == frame_mark_field_name() ==> {
                &&& final(self).spec_text() == old(self).spec_text()
                &&& final(self).spec_rendered_any() == old(self).spec_rendered_any()
                &&& final(self).spec_frame_mark()
            },
            !(value && name@ == frame_mark_field_name()) ==> {
                &&& final(self).spec_text() == spec_record_text(
                    old(self).spec_text(),
                    old(self).spec_rendered_any(),
                    name@,
                    spec_bool_text(value),
                )
                &&& final(self).spec_rendered_any()
                &&& final(self).spec_frame_mark() == old(self).spec_frame_mark()
            },
    {
        let is_marker = value && name.to_owned() == "tracy.frame_mark".to_owned();
        if is_marker {
            self.frame_mark = true;
        } else {
            let rendered = if value {
                "true"
            } else {
                "false"
            };
            self.record_debug(name, rendered);
        }
    }
}

/// What one event asks of the profiler backend: at most one message (with
/// its emission depth), possibly a truncation diagnostic, and possibly a
/// frame-boundary notification.
pub struct EventOutput {
    /// The rendered text to send, already truncated if it was oversized.
    /// `None` when no field was rendered: such an event produces no message
    /// at all.
    pub message: Option<String>,
    /// Whether the text was truncated, in which case the caller must also
    /// emit the [`crate::layer::Diagnostic::MessageTruncated`] message.
    pub truncated: bool,
    /// Whether one continuous-frame interval must be marked as ended,
    /// independent of whether any text is sent.
    pub frame_mark: bool,
    /// Clamped callstack-capture depth for the message emission.
    pub depth: u16,
}

/// The byte length at which an oversized text is cut: the largest prefix
/// length at or below [`MAX_MESSAGE_LEN`] that falls on a character
/// boundary, found by stepping down from the bound.
pub open spec fn spec_truncation_point_from(bytes: Seq<u8>, i: int) -> int
    decreases i,
{
    if i <= 0 {
        0
    } else if is_char_boundary(bytes, i) {
        i
    } else {
        spec_truncation_point_from(bytes, i - 1)
    }
}

/// The byte length at which an oversized text is cut.
pub open spec fn spec_truncation_point(bytes: Seq<u8>) -> int {
    spec_truncation_point_from(bytes, MAX_MESSAGE_LEN as int)
}

proof fn lemma_truncation_point_from(bytes: Seq<u8>, i: int)
    requires
        valid_utf8(bytes),
        0 <= i,
    ensures
        0 <= spec_truncation_point_from(bytes, i) <= i,
        is_char_boundary(bytes, spec_truncation_point_from(bytes, i)),
        forall|j: int|
            spec_truncation_point_from(bytes, i) < j <= i ==> !#[trigger] is_char_boundary(
                bytes,
                j,
            ),
    decreases i,
{
    broadcast use is_char_boundary_start_end_of_seq;

    if i <= 0 {
    } else if is_char_boundary(bytes, i) {
    } else {
        lemma_truncation_point_from(bytes, i - 1);
    }
}

/// The cut point of an oversized text is at most [`MAX_MESSAGE_LEN`], falls
/// on a character boundary, and is the largest such prefix length: every
/// longer prefix up to the bound would split a character.
pub proof fn lemma_truncation_point(bytes: Seq<u8>)
    requires
        valid_utf8(bytes),
    ensures
        0 <= spec_truncation_point(bytes) <= MAX_MESSAGE_LEN,
        is_char_boundary(bytes, spec_truncation_point(bytes)),
        forall|j: int|
            spec_truncation_point(bytes) < j <= MAX_MESSAGE_LEN ==> !#[trigger] is_char_boundary(
                bytes,
                j,
            ),
{
    lemma_truncation_point_from(bytes, MAX_MESSAGE_LEN as int);
}

impl TracyLayer {
    /// Turn a filled collector into the event's output.
    ///
    /// An event with no rendered field produces no message (whether or not
    /// it set the frame-boundary signal). A rendered text whose byte length
    /// is at or above [`MAX_MESSAGE_LEN`] is cut to the largest prefix at or
    /// below that bound that ends on a character boundary, and the output
    /// asks for a truncation diagnostic besides.
    pub fn event_output(&self, visitor: EventVisitor) -> (r: EventOutput)
        ensures
            r.frame_mark == visitor.spec_frame_mark(),
            r.depth == clamped_stack_depth(self.spec_stack_depth()),
            !visitor.spec_rendered_any() ==> r.message is None && !r.truncated,
            visitor.spec_rendered_any() && encode_utf8(visitor.spec_text()).len()
                < MAX_MESSAGE_LEN ==> {
                &&& r.message matches Some(m) && m@ == visitor.spec_text()
                &&& !r.truncated
            },
            visitor.spec_rendered_any() && encode_utf8(visitor.spec_text()).len()
                >= MAX_MESSAGE_LEN ==> {
                &&& r.message matches Some(m) && encode_utf8(m@) == encode_utf8(
                    visitor.spec_text(),
                ).take(spec_truncation_point(encode_utf8(visitor.spec_text())))
                &&& r.message matches Some(m) && encode_utf8(m@).len() <= MAX_MESSAGE_LEN
                &&& r.message matches Some(m) && is_char_boundary(
                    encode_utf8(visitor.spec_text()),
                    encode_utf8(m@).len() as int,
                )
                &&& r.truncated
            },
    {
        let depth = adjust_stack_depth(self.stack_depth());
        if visitor.first {
            return EventOutput {
                message: None,
                truncated: false,
                frame_mark: visitor.frame_mark,
                depth,
            };
        }
        let text = visitor.dest;
        let ghost bytes = encode_utf8(text@);
        proof {
            broadcast use encode_utf8_valid_utf8;

        }
        if text.as_str().as_bytes().len() < MAX_MESSAGE_LEN {
            EventOutput {
                message: Some(text),
                truncated: false,
                frame_mark: visitor.frame_mark,
                depth,
            }
        } else {
            let mut cut: usize = MAX_MESSAGE_LEN;
            while !text.as_str().is_char_boundary(cut)
                invariant
                    valid_utf8(bytes),
                    bytes == encode_utf8(text@),
                    cut <= MAX_MESSAGE_LEN <= bytes.len(),
                    spec_truncation_point(bytes) == spec_truncation_point_from(bytes, cut as int),
                decreases cut,
            {
                proof {
                    broadcast use is_char_boundary_start_end_of_seq;

                    assert(is_char_boundary(bytes, 0));
                }
                cut = cut - 1;
            }
            proof {
                assert(spec_truncation_point(bytes) == cut);
            }
            let (kept, _) = text.as_str().split_at(cut);
            let sent = kept.to_owned();
            proof {
                assert(encode_utf8(sent@) =~= bytes.take(spec_truncation_point(bytes)));
            }
            EventOutput {
                message: Some(sent),
                truncated: true,
                frame_mark: visitor.frame_mark,
                depth,
            }
        }
    }
}

} // verus!
