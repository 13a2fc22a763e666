//! Event field collector: rendering, the reserved frame-marker field, and
//! payload truncation.

use tracing_tracy::event::{EventVisitor, MAX_MESSAGE_LEN};
use tracing_tracy::layer::{Diagnostic, TracyLayer};

#[test]
fn fields_render_in_iteration_order() {
    let layer = TracyLayer::new();
    let mut v = EventVisitor::new();
    v.record_debug("x", "1");
    v.record_debug("y", "\"s\"");
    let out = layer.event_output(v);
    assert_eq!(out.message.as_deref(), Some("x = 1, y = \"s\""));
    assert!(!out.truncated);
    assert!(!out.frame_mark, "no frame-boundary notification is issued");
}

#[test]
fn frame_marker_alone_sends_no_message() {
    let layer = TracyLayer::new();
    let mut v = EventVisitor::new();
    v.record_bool("tracy.frame_mark", true);
    let out = layer.event_output(v);
    assert_eq!(out.message, None);
    assert!(!out.truncated);
    assert!(out.frame_mark, "exactly one frame-boundary notification is issued");
}

#[test]
fn frame_marker_false_renders_as_text() {
    let layer = TracyLayer::new();
    let mut v = EventVisitor::new();
    v.record_bool("tracy.frame_mark", false);
    let out = layer.event_output(v);
    assert_eq!(out.message.as_deref(), Some("tracy.frame_mark = false"));
    assert!(!out.frame_mark);
}

#[test]
fn ordinary_boolean_renders_as_text() {
    let layer = TracyLayer::new();
    let mut v = EventVisitor::new();
    v.record_bool("enabled", true);
    v.record_bool("ready", false);
    let out = layer.event_output(v);
    assert_eq!(out.message.as_deref(), Some("enabled = true, ready = false"));
}

#[test]
fn frame_marker_beside_fields_sends_both() {
    let layer = TracyLayer::new();
    let mut v = EventVisitor::new();
    v.record_debug("x", "1");
    v.record_bool("tracy.frame_mark", true);
    let out = layer.event_output(v);
    assert_eq!(out.message.as_deref(), Some("x = 1"));
    assert!(out.frame_mark);
}

#[test]
fn event_without_fields_sends_nothing() {
    let layer = TracyLayer::new();
    let v = EventVisitor::new();
    let out = layer.event_output(v);
    assert_eq!(out.message, None);
    assert!(!out.truncated);
    assert!(!out.frame_mark);
}

#[test]
fn event_message_uses_clamped_depth() {
    let layer = TracyLayer::new().with_stackdepth(500);
    let mut v = EventVisitor::new();
    v.record_debug("x", "1");
    let out = layer.event_output(v);
    assert_eq!(out.depth, 62);
}

#[test]
fn oversized_message_is_cut_on_a_character_boundary() {
    let layer = TracyLayer::new();
    let mut v = EventVisitor::new();
    // "long = " followed by many two-byte characters: the rendered text has
    // 7 + 80000 bytes, and every boundary inside the repeated block is odd.
    let value = "\u{e9}".repeat(40000);
    v.record_debug("long", &value);
    let out = layer.event_output(v);
    let sent = out.message.expect("the truncated text is still sent");
    assert!(out.truncated, "a truncation diagnostic is also sent");
    assert!(sent.len() <= MAX_MESSAGE_LEN);
    // MAX_MESSAGE_LEN itself falls inside a two-byte character here, so the
    // cut backs up by one byte.
    assert_eq!(sent.len(), MAX_MESSAGE_LEN - 1);
    assert!(sent.is_char_boundary(sent.len()));
    assert!(!out.frame_mark);
}

#[test]
fn message_of_exactly_the_limit_counts_as_oversized() {
    let layer = TracyLayer::new();
    let mut v = EventVisitor::new();
    // Rendered text "a = " plus the value: exactly MAX_MESSAGE_LEN bytes.
    let value = "x".repeat(MAX_MESSAGE_LEN - 4);
    v.record_debug("a", &value);
    let out = layer.event_output(v);
    let sent = out.message.expect("the text is still sent");
    assert!(out.truncated);
    assert_eq!(sent.len(), MAX_MESSAGE_LEN, "all bytes fit: the cut is at the bound itself");
}

#[test]
fn message_just_under_the_limit_is_sent_whole() {
    let layer = TracyLayer::new();
    let mut v = EventVisitor::new();
    let value = "x".repeat(MAX_MESSAGE_LEN - 5);
    v.record_debug("a", &value);
    let out = layer.event_output(v);
    let sent = out.message.expect("the text is sent");
    assert!(!out.truncated);
    assert_eq!(sent.len(), MAX_MESSAGE_LEN - 1);
}

#[test]
fn diagnostic_texts() {
    assert_eq!(
        Diagnostic::NothingOnStack.text(),
        "Exiting a tracing span, but got nothing on the tracy span stack!"
    );
    assert_eq!(
        Diagnostic::OutOfOrder.text(),
        "Tracing spans exited out of order! Trace may not be accurate for this span stack."
    );
    assert_eq!(
        Diagnostic::MessageTruncated.text(),
        "Message for the previous event was too long, truncated"
    );
    assert_eq!(Diagnostic::OutOfOrder.color(), 0xFF00_0000);
}
