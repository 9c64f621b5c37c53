//! What holds of the stopwatch over every state and every clock reading.

use crate::span::MAX_NANOS;
use crate::timer::TimerState;
use vstd::prelude::*;

verus! {

/// One of the two calls that begin and end a segment.
pub enum Call {
    /// Begin a segment.
    Start,
    /// End the running segment.
    Stop,
}

/// The stopwatch after `calls`, each made at the clock reading beside it, first to last.
pub open spec fn run(s: TimerState, calls: Seq<(Call, nat)>) -> TimerState
    decreases calls.len(),
{
    if calls.len() == 0 {
        s
    } else {
        let before = run(s, calls.drop_last());
        match calls.last().0 {
            Call::Start => before.start(calls.last().1),
            Call::Stop => before.stop(calls.last().1),
        }
    }
}

/// Starting and stopping keep the stopwatch's times within the longest span, never
/// lower the total, and leave the splits alone.
pub proof fn lemma_run_keeps_total(s: TimerState, calls: Seq<(Call, nat)>)
    requires
        s.wf(),
    ensures
        run(s, calls).wf(),
        run(s, calls).accumulated >= s.accumulated,
        run(s, calls).splits == s.splits,
    decreases calls.len(),
{
    if calls.len() > 0 {
        lemma_run_keeps_total(s, calls.drop_last());
    }
}

/// Making the calls of `first` and then those of `rest` is making the calls
/// of both in a row.
pub proof fn lemma_run_in_two_parts(s: TimerState, first: Seq<(Call, nat)>, rest: Seq<(Call, nat)>)
    ensures
        run(s, first + rest) == run(run(s, first), rest),
    decreases rest.len(),
{
    if rest.len() == 0 {
        assert(first + rest =~= first);
    } else {
        assert((first + rest).drop_last() =~= first + rest.drop_last());
        lemma_run_in_two_parts(s, first, rest.drop_last());
    }
}

/// Over any calls of start and stop, the elapsed time read while stopped never
/// goes down: where the stopwatch is stopped after the first `i` calls and
/// again after the first `j`, what is read at the later point is at least what
/// was read at the earlier one, whatever the clock showed at either reading.
pub proof fn lemma_stopped_elapsed_never_decreases(
    s: TimerState,
    calls: Seq<(Call, nat)>,
    i: int,
    j: int,
    before: nat,
    after: nat,
)
    requires
        s.wf(),
        0 <= i <= j <= calls.len(),
        !run(s, calls.take(i)).running,
        !run(s, calls.take(j)).running,
    ensures
        run(s, calls.take(j)).elapsed(after) >= run(s, calls.take(i)).elapsed(before),
{
    let first = calls.take(i);
    let rest = calls.subrange(i, j);
    assert(calls.take(j) =~= first + rest);
    lemma_run_in_two_parts(s, first, rest);
    lemma_run_keeps_total(s, first);
    lemma_run_keeps_total(run(s, first), rest);
}

/// Stops alone change nothing of a stopped stopwatch.
pub proof fn lemma_stops_change_nothing(s: TimerState, calls: Seq<(Call, nat)>)
    requires
        !s.running,
        forall|k: int| 0 <= k < calls.len() ==> (#[trigger] calls[k]).0 is Stop,
    ensures
        run(s, calls) == s,
    decreases calls.len(),
{
    if calls.len() > 0 {
        let shorter = calls.drop_last();
        assert forall|k: int| 0 <= k < shorter.len() implies (#[trigger] shorter[k]).0 is Stop by {
            assert(shorter[k] == calls[k]);
        }
        lemma_stops_change_nothing(s, shorter);
    }
}

/// Between two points of a row of calls with no start between them, the
/// elapsed time read while stopped does not change: where the stopwatch is
/// stopped after the first `i` calls and the calls from there to the `j`-th are
/// all stops, it is after `j` calls as it was after `i`, and the elapsed time
/// is the same at every clock reading.
pub proof fn lemma_elapsed_unchanged_without_start(
    s: TimerState,
    calls: Seq<(Call, nat)>,
    i: int,
    j: int,
    before: nat,
    after: nat,
)
    requires
        0 <= i <= j <= calls.len(),
        !run(s, calls.take(i)).running,
        forall|k: int| i <= k < j ==> (#[trigger] calls[k]).0 is Stop,
    ensures
        run(s, calls.take(j)) == run(s, calls.take(i)),
        run(s, calls.take(j)).elapsed(after) == run(s, calls.take(i)).elapsed(before),
{
    let first = calls.take(i);
    let rest = calls.subrange(i, j);
    assert(calls.take(j) =~= first + rest);
    lemma_run_in_two_parts(s, first, rest);
    assert forall|k: int| 0 <= k < rest.len() implies (#[trigger] rest[k]).0 is Stop by {
        assert(rest[k] == calls[i + k]);
    }
    lemma_stops_change_nothing(run(s, first), rest);
}

/// After a reset the elapsed time is zero at every clock reading and there is
/// no split, whether or not the stopwatch was running.
pub proof fn lemma_reset_zeroes(s: TimerState, now: nat)
    ensures
        s.reset().elapsed(now) == 0,
        s.reset().splits.len() == 0,
        !s.reset().running,
{
}

/// A split asked of a stopped stopwatch changes nothing: the count of splits stays.
pub proof fn lemma_split_while_stopped_is_noop(s: TimerState, now: nat)
    requires
        !s.running,
    ensures
        s.split(now) == s,
        s.split(now).splits.len() == s.splits.len(),
{
}

/// A split asked of a running stopwatch adds one split, the elapsed time at that
/// reading, behind those that were there.
pub proof fn lemma_split_while_running_appends(s: TimerState, now: nat)
    requires
        s.running,
    ensures
        s.split(now).splits.len() == s.splits.len() + 1,
        s.split(now).splits.last() == s.elapsed(now),
        s.split(now).splits.drop_last() == s.splits,
        s.split(now).elapsed(now) == s.elapsed(now),
{
    assert(s.split(now).splits.drop_last() =~= s.splits);
}

/// Once stopped, the elapsed time is the same at every clock reading: reading
/// it twice gives the same value.
pub proof fn lemma_elapsed_constant_after_stop(s: TimerState, at: nat, first: nat, second: nat)
    ensures
        s.stop(at).elapsed(first) == s.stop(at).elapsed(second),
        !s.stop(at).running,
{
}

/// While running, the elapsed time does not go down as the clock goes up.
pub proof fn lemma_elapsed_monotone(s: TimerState, earlier: nat, later: nat)
    requires
        earlier <= later,
    ensures
        s.elapsed(earlier) <= s.elapsed(later),
{
}

/// Two segments in a row add up: after start, stop, start, stop from zero the
/// total is the sum of both segments, as long as it fits the longest span.
pub proof fn lemma_two_segments_add_up(a: nat, b: nat, c: nat, d: nat)
    requires
        a <= b,
        c <= d,
        (b - a) + (d - c) <= MAX_NANOS as nat,
    ensures
        TimerState::initial().start(a).stop(b).start(c).stop(d).accumulated == (b - a) + (d - c),
        TimerState::initial().start(a).stop(b).start(c).stop(d).elapsed(d) == (b - a) + (d - c),
{
}

} // verus!
