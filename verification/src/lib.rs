//! A thread-confined resource lifecycle and cross-thread dispatch library.
//!
//! A native GUI/webview engine confines each of its objects to one event
//! thread and exposes no reference counting of its own.  This crate provides
//! the bookkeeping that makes such objects safely shareable: reference-counted
//! handles that may be cloned and dropped on any thread, a deferred collector
//! that routes foreign-thread drops back onto the host thread, a FIFO post
//! queue for cross-thread dispatch, and an event registry for repeatable and
//! one-shot callbacks.  Every decision of that bookkeeping is verified; the
//! engine itself is represented by plain values (opaque pointers as numbers,
//! callbacks as tokens), and an embedding drives the real engine with the
//! decisions this library computes.

pub mod collector;
pub mod embed;
pub mod error;
pub mod events;
pub mod icon;
pub mod lifecycle;
pub mod navigation;
pub mod options;
pub mod pdf;
pub mod permission;
pub mod picker;
pub mod policy;
pub mod prefs;
pub mod queue;
pub mod registry;
pub mod runtime;
pub mod scheme;
pub mod screen;
pub mod script;
pub mod slot;
pub mod stash;
pub mod url;
