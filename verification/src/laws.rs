//! The guarantees the decorator gives, stated and proved once and for
//! all over its abstract state.

use vstd::prelude::*;

use crate::progress::advance;
use crate::progress::lemma_advance_wf;
use crate::progress::Progress;
use crate::progress::ProgressState;
use crate::stream::ByteSink;
use crate::stream::ByteSource;
use crate::stream::Printer;

verus! {

/// The total of a sequence of per-operation byte counts.
pub open spec fn byte_sum(amts: Seq<u64>) -> int
    decreases amts.len(),
{
    if amts.len() == 0 {
        0
    } else {
        byte_sum(amts.drop_last()) + amts.last()
    }
}

/// A sum of byte counts is never negative.
pub proof fn lemma_byte_sum_nonneg(amts: Seq<u64>)
    ensures
        byte_sum(amts) >= 0,
    decreases amts.len(),
{
    if amts.len() > 0 {
        lemma_byte_sum_nonneg(amts.drop_last());
    }
}

/// The abstract state after a whole sequence of successful transfers,
/// applied oldest first.
pub open spec fn run(s: ProgressState, amts: Seq<u64>) -> ProgressState
    decreases amts.len(),
{
    if amts.len() == 0 {
        s
    } else {
        advance(run(s, amts.drop_last()), amts.last())
    }
}

/// Counter accuracy: after any sequence of successful transfers moving
/// `byte_sum(amts)` bytes in all, `current` has grown by exactly that
/// total, the invariant still holds, and the declared total and the
/// interval are untouched.
pub proof fn lemma_counter_accuracy(s: ProgressState, amts: Seq<u64>)
    requires
        s.wf(),
        s.current + byte_sum(amts) <= u64::MAX,
    ensures
        run(s, amts).wf(),
        run(s, amts).current == s.current + byte_sum(amts),
        run(s, amts).total == s.total,
        run(s, amts).interval == s.interval,
    decreases amts.len(),
{
    if amts.len() > 0 {
        let prefix = amts.drop_last();
        lemma_byte_sum_nonneg(prefix);
        lemma_counter_accuracy(s, prefix);
        lemma_advance_wf(run(s, prefix), amts.last());
    }
}

/// No over-reporting: every value ever handed to the printer is at most
/// the bytes confirmed transferred by now.
pub proof fn lemma_no_over_reporting(s: ProgressState)
    requires
        s.wf(),
    ensures
        forall|i: int| 0 <= i < s.reports.len() ==> s.reports[i] <= s.current,
{
    assert forall|i: int| 0 <= i < s.reports.len() implies s.reports[i] <= s.current by {
        assert(s.reports[i] <= s.reports[s.reports.len() - 1]);
    }
}

/// Monotonicity: the values handed to the printer never decrease over
/// the wrapper's lifetime.
pub proof fn lemma_reports_monotonic(s: ProgressState)
    requires
        s.wf(),
    ensures
        forall|i: int, j: int|
            0 <= i <= j < s.reports.len() ==> s.reports[i] <= s.reports[j],
{
}

/// Throttling: one transfer produces a report exactly when the bytes
/// accumulated since the last report strictly exceed the interval, and
/// the report then carries the new cumulative count. In particular a
/// zero-byte transfer, which accumulates nothing new, never reports.
pub proof fn lemma_report_gate(s: ProgressState, amt: u64)
    requires
        s.wf(),
        s.current + amt <= u64::MAX,
    ensures
        (advance(s, amt).reports.len() > s.reports.len() <==> s.current + amt - s.last_reported
            > s.interval),
        advance(s, amt).reports.len() > s.reports.len() ==> (advance(s, amt).reports
            == s.reports.push((s.current + amt) as u64)),
{
}

/// A zero-byte transfer changes nothing at all: no count, no report.
pub proof fn lemma_zero_transfer(s: ProgressState)
    requires
        s.wf(),
    ensures
        advance(s, 0) == s,
{
    assert(advance(s, 0) =~= s);
}

/// Consecutive reports are more than `interval` bytes apart.
pub open spec fn gaps_exceed(reports: Seq<u64>, interval: u64) -> bool {
    forall|i: int| 0 <= i < reports.len() - 1 ==> reports[i + 1] - #[trigger] reports[i] > interval
}

/// Throttling across a lifetime: as long as the interval is left alone,
/// every pair of consecutive reported values stays more than the
/// interval apart.
pub proof fn lemma_report_spacing(s: ProgressState, amt: u64)
    requires
        s.wf(),
        gaps_exceed(s.reports, s.interval),
        s.current + amt <= u64::MAX,
    ensures
        gaps_exceed(advance(s, amt).reports, s.interval),
{
    let t = advance(s, amt);
    if t.reports.len() > s.reports.len() {
        assert forall|i: int| 0 <= i < t.reports.len() - 1 implies t.reports[i + 1]
            - #[trigger] t.reports[i] > s.interval by {
            if i < s.reports.len() - 1 {
                assert(t.reports[i + 1] == s.reports[i + 1]);
                assert(t.reports[i + 1] - s.reports[i] > s.interval);
            } else {
                assert(t.reports[i] == s.last_reported);
            }
        }
    }
}

/// The report history is append-only: a whole sequence of successful
/// transfers only ever adds to the end of it, so values once reported
/// are never revised.
pub proof fn lemma_reports_append_only(s: ProgressState, amts: Seq<u64>)
    requires
        s.wf(),
        s.current + byte_sum(amts) <= u64::MAX,
    ensures
        s.reports.is_prefix_of(run(s, amts).reports),
    decreases amts.len(),
{
    if amts.len() > 0 {
        let prefix = amts.drop_last();
        let mid = run(s, prefix);
        lemma_byte_sum_nonneg(prefix);
        lemma_counter_accuracy(s, prefix);
        lemma_reports_append_only(s, prefix);
        lemma_advance_wf(mid, amts.last());
        let t = advance(mid, amts.last());
        if t.reports.len() > mid.reports.len() {
            assert(mid.reports.is_prefix_of(t.reports)) by {
                assert(mid.reports =~= t.reports.subrange(0, mid.reports.len() as int));
            }
        }
        assert(s.reports =~= t.reports.subrange(0, s.reports.len() as int));
    }
}

/// Throttling across a whole lifetime: start from a state whose reports
/// already respect the interval (as a fresh wrapper's empty history
/// does), run any sequence of successful transfers, and every pair of
/// consecutive reported values still lies more than the interval apart.
pub proof fn lemma_run_spacing(s: ProgressState, amts: Seq<u64>)
    requires
        s.wf(),
        gaps_exceed(s.reports, s.interval),
        s.current + byte_sum(amts) <= u64::MAX,
    ensures
        run(s, amts).wf(),
        gaps_exceed(run(s, amts).reports, s.interval),
    decreases amts.len(),
{
    if amts.len() > 0 {
        let prefix = amts.drop_last();
        lemma_byte_sum_nonneg(prefix);
        lemma_counter_accuracy(s, prefix);
        lemma_run_spacing(s, prefix);
        lemma_advance_wf(run(s, prefix), amts.last());
        lemma_report_spacing(run(s, prefix), amts.last());
    }
}

/// Substitutability of reads: a wrapped read is an outcome the bare
/// inner source could have produced on the same buffer, with the same
/// result; the wrapper only moves its own counters, and touches neither
/// them nor the printer when the read fails.
pub proof fn lemma_read_transparent<S: ByteSource, C: Printer>(
    pre: Progress<S, C>,
    pre_buf: Seq<u8>,
    post: Progress<S, C>,
    post_buf: Seq<u8>,
    r: Result<usize, S::Err>,
)
    requires
        <Progress<S, C> as ByteSource>::read_rel(pre, pre_buf, post, post_buf, r),
    ensures
        S::read_rel(pre.inner, pre_buf, post.inner, post_buf, r),
        r matches Ok(amt) ==> post@ == advance(pre@, amt as u64),
        r is Err ==> post@ == pre@ && post.printer == pre.printer,
{
}

/// Substitutability of writes: the same, for the sink capability.
pub proof fn lemma_write_transparent<S: ByteSink, C: Printer>(
    pre: Progress<S, C>,
    data: Seq<u8>,
    post: Progress<S, C>,
    r: Result<usize, S::Err>,
)
    requires
        <Progress<S, C> as ByteSink>::write_rel(pre, data, post, r),
    ensures
        S::write_rel(pre.inner, data, post.inner, r),
        r matches Ok(amt) ==> post@ == advance(pre@, amt as u64),
        r is Err ==> post@ == pre@ && post.printer == pre.printer,
{
}

/// Substitutability of flushes: a wrapped flush is a bare inner flush
/// and has no progress side effects whatever it returns.
pub proof fn lemma_flush_transparent<S: ByteSink, C: Printer>(
    pre: Progress<S, C>,
    post: Progress<S, C>,
    r: Result<(), S::Err>,
)
    requires
        <Progress<S, C> as ByteSink>::flush_rel(pre, post, r),
    ensures
        S::flush_rel(pre.inner, post.inner, r),
        post@ == pre@,
        post.printer == pre.printer,
{
}

} // verus!
