//! A progress-reporting decorator for byte streams.
//!
//! [`progress::Progress`] wraps a byte source or byte sink and counts the
//! bytes that flow through it. Whenever the bytes accumulated since the
//! last report exceed a configurable interval, it hands the running count
//! and the declared total to a caller-supplied [`stream::Printer`].
//!
//! The wrapper is transparent: every read, write and flush is delegated to
//! the inner stream unchanged, and its result is returned unchanged.

pub mod laws;
pub mod mem;
pub mod progress;
pub mod stream;
