//! In-memory streams and printers.
//!
//! These give the capability traits concrete, fully verified
//! implementations: a source that serves bytes out of a vector, a sink
//! that collects bytes into one, a stream whose every operation fails
//! with a fixed error code, and a printer that records the reports it
//! receives. They are what the in-repository tests wrap.

use vstd::prelude::*;

use vstd::math::min;
use vstd::pervasive::VecAdditionalExecFns;

use crate::stream::ByteSink;
use crate::stream::ByteSource;
use crate::stream::Printer;

verus! {

/// A byte source that serves the bytes of `data` in order, starting at
/// `pos`. It never fails; once exhausted it serves zero-byte reads.
pub struct VecSource {
    /// The bytes this source serves.
    pub data: Vec<u8>,
    /// How many of them have been served already.
    pub pos: usize,
}

impl VecSource {
    /// A source that will serve all of `data`.
    pub fn new(data: Vec<u8>) -> (s: VecSource)
        ensures
            s.data == data,
            s.pos == 0,
            s.inv(),
    {
        VecSource { data, pos: 0 }
    }
}

impl ByteSource for VecSource {
    type Err = u64;

    open spec fn inv(&self) -> bool {
        self.pos <= self.data@.len()
    }

    open spec fn read_ready(&self, n: nat) -> bool {
        true
    }

    /// A read takes as many bytes as fit in the buffer and are left in
    /// `data`, copies them to the front of the buffer, and never fails.
    open spec fn read_rel(
        pre: Self,
        pre_buf: Seq<u8>,
        post: Self,
        post_buf: Seq<u8>,
        r: Result<usize, u64>,
    ) -> bool {
        match r {
            Ok(amt) => {
                &&& amt == min(pre_buf.len() as int, pre.data@.len() - pre.pos)
                &&& post.data@ == pre.data@
                &&& post.pos == pre.pos + amt
                &&& post_buf == pre.data@.subrange(pre.pos as int, pre.pos + amt) + pre_buf.skip(
                    amt as int,
                )
            },
            Err(_) => false,
        }
    }

    fn read(&mut self, buf: &mut Vec<u8>) -> (r: Result<usize, u64>) {
        let avail = self.data.len() - self.pos;
        let amt = if buf.len() < avail {
            buf.len()
        } else {
            avail
        };
        let mut i: usize = 0;
        while i < amt
            invariant
                i <= amt,
                amt <= old(buf)@.len(),
                self.pos + amt <= self.data@.len(),
                buf@.len() == old(buf)@.len(),
                self.data@ == old(self).data@,
                self.pos == old(self).pos,
                forall|k: int| 0 <= k < i ==> buf@[k] == self.data@[self.pos + k],
                forall|k: int| i <= k < buf@.len() ==> buf@[k] == old(buf)@[k],
            decreases amt - i,
        {
            proof {
                assert(self.pos + i < self.data@.len());
                assert(self.data@.len() == self.data.len());
            }
            let b = self.data[self.pos + i];
            buf.set(i, b);
            i = i + 1;
        }
        self.pos = self.pos + amt;
        proof {
            assert(buf@ =~= old(self).data@.subrange(
                old(self).pos as int,
                old(self).pos + amt,
            ) + old(buf)@.skip(amt as int));
        }
        Ok(amt)
    }
}

/// A byte sink that appends every offered byte to `data`. It accepts
/// each offer in full and never fails.
pub struct VecSink {
    /// Everything written so far, in order.
    pub data: Vec<u8>,
}

impl VecSink {
    /// An empty sink.
    pub fn new() -> (s: VecSink)
        ensures
            s.data@ == Seq::<u8>::empty(),
            s.inv(),
    {
        VecSink { data: Vec::new() }
    }
}

impl ByteSink for VecSink {
    type Err = u64;

    open spec fn inv(&self) -> bool {
        true
    }

    open spec fn write_ready(&self, n: nat) -> bool {
        true
    }

    /// A write appends the whole offer and confirms all of it.
    open spec fn write_rel(pre: Self, data: Seq<u8>, post: Self, r: Result<usize, u64>) -> bool {
        match r {
            Ok(amt) => amt == data.len() && post.data@ == pre.data@ + data,
            Err(_) => false,
        }
    }

    /// There is no intermediate buffer: a flush changes nothing and
    /// always succeeds.
    open spec fn flush_rel(pre: Self, post: Self, r: Result<(), u64>) -> bool {
        post == pre && r is Ok
    }

    fn write(&mut self, data: &[u8]) -> (r: Result<usize, u64>) {
        let mut i: usize = 0;
        while i < data.len()
            invariant
                i <= data@.len(),
                self.data@ == old(self).data@ + data@.subrange(0, i as int),
            decreases data@.len() - i,
        {
            let b = data[i];
            self.data.push(b);
            i = i + 1;
            proof {
                assert(self.data@ =~= old(self).data@ + data@.subrange(0, i as int));
            }
        }
        proof {
            assert(self.data@ =~= old(self).data@ + data@);
        }
        Ok(data.len())
    }

    fn flush(&mut self) -> (r: Result<(), u64>) {
        Ok(())
    }
}

/// A stream whose every operation fails with the error code it was
/// built with, leaving itself and any buffer untouched.
pub struct BrokenStream {
    /// The code every operation fails with.
    pub code: u64,
}

impl BrokenStream {
    /// A stream that always fails with `code`.
    pub fn new(code: u64) -> (s: BrokenStream)
        ensures
            s.code == code,
    {
        BrokenStream { code }
    }
}

impl ByteSource for BrokenStream {
    type Err = u64;

    open spec fn inv(&self) -> bool {
        true
    }

    open spec fn read_ready(&self, n: nat) -> bool {
        true
    }

    /// Every read fails with the stream's code and moves nothing.
    open spec fn read_rel(
        pre: Self,
        pre_buf: Seq<u8>,
        post: Self,
        post_buf: Seq<u8>,
        r: Result<usize, u64>,
    ) -> bool {
        &&& r matches Err(e) && e == pre.code
        &&& post == pre
        &&& post_buf == pre_buf
    }

    fn read(&mut self, buf: &mut Vec<u8>) -> (r: Result<usize, u64>) {
        Err(self.code)
    }
}

impl ByteSink for BrokenStream {
    type Err = u64;

    open spec fn inv(&self) -> bool {
        true
    }

    open spec fn write_ready(&self, n: nat) -> bool {
        true
    }

    /// Every write fails with the stream's code and accepts nothing.
    open spec fn write_rel(pre: Self, data: Seq<u8>, post: Self, r: Result<usize, u64>) -> bool {
        r matches Err(e) && e == pre.code && post == pre
    }

    /// Every flush fails with the stream's code.
    open spec fn flush_rel(pre: Self, post: Self, r: Result<(), u64>) -> bool {
        r matches Err(e) && e == pre.code && post == pre
    }

    fn write(&mut self, data: &[u8]) -> (r: Result<usize, u64>) {
        Err(self.code)
    }

    fn flush(&mut self) -> (r: Result<(), u64>) {
        Err(self.code)
    }
}

/// A printer that keeps every report it receives, oldest first.
pub struct Recorder {
    /// The `(current, total)` pairs received so far.
    pub reports: Vec<(u64, u64)>,
}

impl Recorder {
    /// A recorder with an empty report list.
    pub fn new() -> (r: Recorder)
        ensures
            r.reports@ == Seq::<(u64, u64)>::empty(),
    {
        Recorder { reports: Vec::new() }
    }
}

impl Printer for Recorder {
    fn print(&mut self, current: u64, total: u64)
        ensures
            final(self).reports@ == old(self).reports@.push((current, total)),
    {
        self.reports.push((current, total));
    }
}

} // verus!
