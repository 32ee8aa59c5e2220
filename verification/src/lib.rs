//! A small concurrency toolkit: a shared counter, a closing-aware blocking
//! queue, one-shot event notification, single-assignment futures with select
//! support, and broadcast/gate signals.
//!
//! Each primitive keeps its whole shared state behind one verified
//! reader-writer lock. The state transitions are plain functions with exact
//! contracts; the handles only acquire the lock, step the state, and release.

pub mod atomic;
pub mod channel;
pub mod event;
pub mod format;
pub mod latent;
pub mod signal;
pub mod workgroup;
