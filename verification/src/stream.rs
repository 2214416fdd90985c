//! The capabilities a stream can offer: producing bytes, accepting bytes,
//! and receiving progress reports.
//!
//! Each stream type describes its own behaviour through the relations
//! `read_rel`, `write_rel` and `flush_rel`: a relation holds exactly for
//! the outcomes (state change, buffer contents, result) that one call of
//! the corresponding operation may have. A decorator that forwards an
//! operation can therefore promise, in its own relation, that the triple
//! it produced was a possible outcome of the bare inner stream.

use vstd::prelude::*;

verus! {

/// A stream that bytes can be read from.
pub trait ByteSource: Sized {
    /// The error type surfaced by failing reads.
    type Err;

    /// The internal well-formedness of this source.
    spec fn inv(&self) -> bool;

    /// Whether this source may be asked to fill a buffer of `n` bytes.
    /// A plain source accepts any request; a decorator with a byte
    /// counter uses this to keep the counter from overflowing.
    spec fn read_ready(&self, n: nat) -> bool;

    /// The outcomes one `read` call may have: `pre`/`post` are the source
    /// before and after the call, `pre_buf`/`post_buf` the buffer contents
    /// before and after, `r` the result.
    spec fn read_rel(
        pre: Self,
        pre_buf: Seq<u8>,
        post: Self,
        post_buf: Seq<u8>,
        r: Result<usize, Self::Err>,
    ) -> bool;

    /// Read up to `buf.len()` bytes into the front of `buf`.
    /// `Ok(0)` signals end of stream (or an empty buffer).
    fn read(&mut self, buf: &mut Vec<u8>) -> (r: Result<usize, Self::Err>)
        requires
            old(self).inv(),
            old(self).read_ready(old(buf)@.len()),
        ensures
            final(self).inv(),
            final(buf)@.len() == old(buf)@.len(),
            r matches Ok(amt) ==> amt <= old(buf)@.len(),
            Self::read_rel(*old(self), old(buf)@, *final(self), final(buf)@, r),
    ;
}

/// A stream that bytes can be written to.
pub trait ByteSink: Sized {
    /// The error type surfaced by failing writes and flushes.
    type Err;

    /// The internal well-formedness of this sink.
    spec fn inv(&self) -> bool;

    /// Whether this sink may be offered `n` bytes; see
    /// [`ByteSource::read_ready`].
    spec fn write_ready(&self, n: nat) -> bool;

    /// The outcomes one `write` call may have: `data` is the offered
    /// buffer, `r` the number of bytes accepted or an error.
    spec fn write_rel(pre: Self, data: Seq<u8>, post: Self, r: Result<usize, Self::Err>) -> bool;

    /// The outcomes one `flush` call may have.
    spec fn flush_rel(pre: Self, post: Self, r: Result<(), Self::Err>) -> bool;

    /// Write up to `data.len()` bytes from the front of `data`.
    fn write(&mut self, data: &[u8]) -> (r: Result<usize, Self::Err>)
        requires
            old(self).inv(),
            old(self).write_ready(data@.len()),
        ensures
            final(self).inv(),
            r matches Ok(amt) ==> amt <= data@.len(),
            Self::write_rel(*old(self), data@, *final(self), r),
    ;

    /// Push any buffered bytes down to the final destination.
    fn flush(&mut self) -> (r: Result<(), Self::Err>)
        requires
            old(self).inv(),
        ensures
            final(self).inv(),
            Self::flush_rel(*old(self), *final(self), r),
    ;
}

/// The receiver of progress reports: a caller-supplied callback with a
/// single method, invoked synchronously with the cumulative byte count
/// and the declared total.
///
/// The trait carries no contract, so ordinary unverified code can
/// implement it (print a bar, update a counter, ignore the report).
pub trait Printer {
    /// Receive one report: `current` bytes transferred so far of a
    /// declared `total`.
    fn print(&mut self, current: u64, total: u64);
}

} // verus!
