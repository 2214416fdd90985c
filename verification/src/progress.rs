//! The progress-reporting decorator itself.

use vstd::prelude::*;

use crate::stream::ByteSink;
use crate::stream::ByteSource;
use crate::stream::Printer;

verus! {

/// The abstract state of a [`Progress`] wrapper: its counters together
/// with the history of `current` values it has reported so far.
#[verifier::ext_equal]
pub struct ProgressState {
    /// The caller-declared expected total, passed through to every report.
    pub total: u64,
    /// Cumulative bytes confirmed transferred since construction.
    pub current: u64,
    /// The value of `current` at the most recent report.
    pub last_reported: u64,
    /// Minimum bytes that must accumulate past `last_reported` before the
    /// next report; reports fire only when strictly exceeded.
    pub interval: u64,
    /// Every `current` value handed to the printer, oldest first.
    pub reports: Seq<u64>,
}

impl ProgressState {
    /// The invariant the wrapper maintains between operations: the
    /// unreported delta never exceeds the interval, and the report
    /// history is non-decreasing and ends at `last_reported`.
    pub open spec fn wf(self) -> bool {
        &&& self.last_reported <= self.current
        &&& self.current - self.last_reported <= self.interval
        &&& (self.reports.len() == 0 ==> self.last_reported == 0)
        &&& (self.reports.len() > 0 ==> self.reports.last() == self.last_reported)
        &&& (forall|i: int, j: int|
            0 <= i <= j < self.reports.len() ==> self.reports[i] <= self.reports[j])
    }
}

/// How one successful transfer of `amt` bytes moves the abstract state:
/// `current` grows by `amt`, and if the bytes accumulated since the last
/// report now strictly exceed the interval, the new `current` is reported.
pub open spec fn advance(s: ProgressState, amt: u64) -> ProgressState
    recommends
        s.current + amt <= u64::MAX,
{
    let cur = (s.current + amt) as u64;
    if cur - s.last_reported > s.interval {
        ProgressState { current: cur, last_reported: cur, reports: s.reports.push(cur), ..s }
    } else {
        ProgressState { current: cur, ..s }
    }
}

/// A transfer preserves the wrapper invariant; the counter grows by
/// exactly the confirmed amount, and the declared total and the interval
/// never change.
pub proof fn lemma_advance_wf(s: ProgressState, amt: u64)
    requires
        s.wf(),
        s.current + amt <= u64::MAX,
    ensures
        advance(s, amt).wf(),
        advance(s, amt).current == s.current + amt,
        advance(s, amt).total == s.total,
        advance(s, amt).interval == s.interval,
        advance(s, amt).last_reported >= s.last_reported,
        s.reports.len() <= advance(s, amt).reports.len() <= s.reports.len() + 1,
        advance(s, amt).reports.len() > s.reports.len() ==> (advance(s, amt).reports
            == s.reports.push((s.current + amt) as u64)),
{
    let cur = (s.current + amt) as u64;
    if cur - s.last_reported > s.interval {
        let t = advance(s, amt);
        assert forall|i: int, j: int|
            0 <= i <= j < t.reports.len() implies t.reports[i] <= t.reports[j] by {
            if j < t.reports.len() - 1 {
                assert(t.reports[i] == s.reports[i] && t.reports[j] == s.reports[j]);
            } else if i < t.reports.len() - 1 {
                assert(s.reports[i] <= s.reports[s.reports.len() - 1]);
            }
        }
    }
}

/// The decorator: an inner stream `S`, a printer `C`, and the counters
/// that drive report throttling. Its abstract state is `self@`; the
/// `reports` field is the ghost history of reported values.
pub struct Progress<S, C> {
    /// The wrapped stream, exclusively owned.
    pub inner: S,
    /// The report receiver, exclusively owned.
    pub printer: C,
    /// Caller-declared expected total size in bytes; advisory only.
    pub total: u64,
    /// Cumulative bytes confirmed transferred.
    pub current: u64,
    /// Value of `current` at the most recent report.
    pub last_reported: u64,
    /// Threshold gating reports; `0` reports every operation that moves
    /// `current` at all.
    pub interval: u64,
    /// Ghost history of every `current` value handed to the printer.
    pub reports: Ghost<Seq<u64>>,
}

impl<S, C> View for Progress<S, C> {
    type V = ProgressState;

    open spec fn view(&self) -> ProgressState {
        ProgressState {
            total: self.total,
            current: self.current,
            last_reported: self.last_reported,
            interval: self.interval,
            reports: self.reports@,
        }
    }
}

impl<S, C> Progress<S, C> {
    /// Wrap `inner`, reporting progress against the declared `total` to
    /// `printer`. Counters start at zero, the interval at zero, and no
    /// report is made on construction.
    pub fn new(inner: S, total: u64, printer: C) -> (p: Progress<S, C>)
        ensures
            p.inner == inner,
            p.printer == printer,
            p@ == (ProgressState {
                total,
                current: 0,
                last_reported: 0,
                interval: 0,
                reports: Seq::<u64>::empty(),
            }),
            p@.wf(),
    {
        Progress {
            inner,
            printer,
            total,
            current: 0,
            last_reported: 0,
            interval: 0,
            reports: Ghost(Seq::empty()),
        }
    }

    /// Raise or lower the report threshold. The bytes already accumulated
    /// past the last report must not already exceed the new threshold,
    /// which always holds directly after construction.
    pub fn set_interval(&mut self, interval: u64)
        requires
            old(self)@.current - old(self)@.last_reported <= interval,
        ensures
            final(self)@ == (ProgressState { interval, ..old(self)@ }),
            final(self).inner == old(self).inner,
            final(self).printer == old(self).printer,
            old(self)@.wf() ==> final(self)@.wf(),
    {
        self.interval = interval;
    }
}

impl<S: ByteSource, C: Printer> ByteSource for Progress<S, C> {
    type Err = S::Err;

    /// The wrapper is well formed when its counters are and the inner
    /// source is.
    open spec fn inv(&self) -> bool {
        self@.wf() && self.inner.inv()
    }

    /// A read request is acceptable when the inner source accepts it and
    /// the byte counter has room for it.
    open spec fn read_ready(&self, n: nat) -> bool {
        self@.current + n <= u64::MAX && self.inner.read_ready(n)
    }

    /// A wrapped read is a bare inner read — same buffer, same result —
    /// whose confirmed amount, on success, moves the counters by
    /// [`advance`]. On failure, and whenever no report fires, counters
    /// and printer are left exactly as they were.
    open spec fn read_rel(
        pre: Self,
        pre_buf: Seq<u8>,
        post: Self,
        post_buf: Seq<u8>,
        r: Result<usize, S::Err>,
    ) -> bool {
        &&& S::read_rel(pre.inner, pre_buf, post.inner, post_buf, r)
        &&& match r {
            Ok(amt) => {
                &&& post@ == advance(pre@, amt as u64)
                &&& (post@.reports == pre@.reports ==> post.printer == pre.printer)
            },
            Err(_) => post@ == pre@ && post.printer == pre.printer,
        }
    }

    fn read(&mut self, buf: &mut Vec<u8>) -> (r: Result<usize, S::Err>) {
        let r = self.inner.read(buf);
        match r {
            Ok(amt) => {
                self.current = self.current + (amt as u64);
                if self.current - self.last_reported > self.interval {
                    self.printer.print(self.current, self.total);
                    self.last_reported = self.current;
                    self.reports = Ghost(self.reports@.push(self.current));
                }
                proof {
                    lemma_advance_wf(old(self)@, amt as u64);
                    assert(self@ =~= advance(old(self)@, amt as u64));
                }
                Ok(amt)
            },
            Err(e) => Err(e),
        }
    }
}

impl<S: ByteSink, C: Printer> ByteSink for Progress<S, C> {
    type Err = S::Err;

    /// The wrapper is well formed when its counters are and the inner
    /// sink is.
    open spec fn inv(&self) -> bool {
        self@.wf() && self.inner.inv()
    }

    /// A write offer is acceptable when the inner sink accepts it and the
    /// byte counter has room for it.
    open spec fn write_ready(&self, n: nat) -> bool {
        self@.current + n <= u64::MAX && self.inner.write_ready(n)
    }

    /// A wrapped write is a bare inner write — same data, same result —
    /// whose confirmed amount, on success, moves the counters by
    /// [`advance`]. On failure, and whenever no report fires, counters
    /// and printer are left exactly as they were.
    open spec fn write_rel(pre: Self, data: Seq<u8>, post: Self, r: Result<usize, S::Err>) -> bool {
        &&& S::write_rel(pre.inner, data, post.inner, r)
        &&& match r {
            Ok(amt) => {
                &&& post@ == advance(pre@, amt as u64)
                &&& (post@.reports == pre@.reports ==> post.printer == pre.printer)
            },
            Err(_) => post@ == pre@ && post.printer == pre.printer,
        }
    }

    /// A wrapped flush is a bare inner flush; it confirms no new bytes,
    /// so counters and printer are untouched whatever it returns.
    open spec fn flush_rel(pre: Self, post: Self, r: Result<(), S::Err>) -> bool {
        &&& S::flush_rel(pre.inner, post.inner, r)
        &&& post@ == pre@
        &&& post.printer == pre.printer
    }

    fn write(&mut self, data: &[u8]) -> (r: Result<usize, S::Err>) {
        let r = self.inner.write(data);
        match r {
            Ok(amt) => {
                self.current = self.current + (amt as u64);
                if self.current - self.last_reported > self.interval {
                    self.printer.print(self.current, self.total);
                    self.last_reported = self.current;
                    self.reports = Ghost(self.reports@.push(self.current));
                }
                proof {
                    lemma_advance_wf(old(self)@, amt as u64);
                    assert(self@ =~= advance(old(self)@, amt as u64));
                }
                Ok(amt)
            },
            Err(e) => Err(e),
        }
    }

    fn flush(&mut self) -> (r: Result<(), S::Err>) {
        self.inner.flush()
    }
}

} // verus!
