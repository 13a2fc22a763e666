//! Bridge between a tree-structured span-instrumentation model and a strictly
//! stack-based profiler trace format.
//!
//! Spans may be entered and exited out of order, or even on different threads,
//! while the profiler assumes perfectly nested enter/exit pairs per thread.
//! This crate maintains a per-thread shadow stack of the frames the profiler
//! believes are open, detects events that violate the nesting assumption, and
//! degrades gracefully: the trace stays structurally valid and a diagnostic
//! message records each mitigation.

pub mod client;
pub mod depth;
pub mod event;
pub mod layer;
pub mod stack;
