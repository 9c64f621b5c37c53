//! The stopwatch: accumulated time, the running segment and the splits.

use crate::clock::instant_now;
use crate::clock::read_since;
use crate::span::capped;
use crate::span::clock_text;
use crate::span::split_text;
use crate::span::TimeSpan;
use crate::span::NANOS_PER_SEC;
use std::time::Instant;
use vstd::prelude::*;

verus! {

/// What a stopwatch holds, with every time in nanoseconds. Clock readings are
/// nanoseconds since the stopwatch was made.
pub struct TimerState {
    /// The total of all segments that have ended.
    pub accumulated: nat,
    /// The clock reading at which the running segment began.
    pub segment_start: nat,
    /// Whether a segment is running.
    pub running: bool,
    /// The elapsed time at each split, oldest first.
    pub splits: Seq<nat>,
}

impl TimerState {
    /// A stopwatch as it is made: stopped, at zero, without splits.
    pub open spec fn initial() -> TimerState {
        TimerState { accumulated: 0, segment_start: 0, running: false, splits: Seq::empty() }
    }

    /// Every time held fits the longest span.
    pub open spec fn wf(self) -> bool {
        &&& self.accumulated == capped(self.accumulated)
        &&& forall|i: int| 0 <= i < self.splits.len() ==> #[trigger] self.splits[i] == capped(self.splits[i])
    }

    /// The length of the running segment when the clock reads `now`; nothing while stopped,
    /// and nothing where the clock reads less than it did when the segment began.
    pub open spec fn segment(self, now: nat) -> nat {
        if self.running && now >= self.segment_start {
            (now - self.segment_start) as nat
        } else {
            0
        }
    }

    /// The elapsed time when the clock reads `now`.
    pub open spec fn elapsed(self, now: nat) -> nat {
        capped(self.accumulated + self.segment(now))
    }

    /// Starting when the clock reads `now`: a stopped stopwatch begins a segment,
    /// a running one goes on as it was.
    pub open spec fn start(self, now: nat) -> TimerState {
        if self.running {
            self
        } else {
            TimerState { segment_start: now, running: true, ..self }
        }
    }

    /// Stopping when the clock reads `now`: the running segment joins the total;
    /// a stopped stopwatch stays as it was.
    pub open spec fn stop(self, now: nat) -> TimerState {
        if self.running {
            TimerState { accumulated: self.elapsed(now), running: false, ..self }
        } else {
            self
        }
    }

    /// Splitting when the clock reads `now`: a running stopwatch records the elapsed time;
    /// a stopped one stays as it was.
    pub open spec fn split(self, now: nat) -> TimerState {
        if self.running {
            TimerState { splits: self.splits.push(self.elapsed(now)), ..self }
        } else {
            self
        }
    }

    /// Resetting: stopped, at zero, without splits.
    pub open spec fn reset(self) -> TimerState {
        TimerState { accumulated: 0, running: false, splits: Seq::empty(), ..self }
    }
}

/// Why a query of the stopwatch has no answer.
#[derive(Clone, Copy, Debug, PartialEq, Eq, Structural)]
pub enum TimerError {
    /// The latest split was asked for and there is none.
    EmptySequence,
}

/// A stopwatch.
pub struct Timer {
    origin: Instant,
    accumulated: TimeSpan,
    segment_start: TimeSpan,
    running: bool,
    splits: Vec<TimeSpan>,
}

impl View for Timer {
    type V = TimerState;

    closed spec fn view(&self) -> TimerState {
        TimerState {
            accumulated: self.accumulated@,
            segment_start: self.segment_start@,
            running: self.running,
            splits: Seq::new(self.splits@.len(), |i: int| self.splits@[i]@),
        }
    }
}

impl Timer {
    /// A stopped stopwatch at zero, without splits.
    pub fn new() -> (t: Timer)
        ensures
            t@ == TimerState::initial(),
    {
        let t = Timer {
            origin: instant_now(),
            accumulated: TimeSpan::zero(),
            segment_start: TimeSpan::zero(),
            running: false,
            splits: Vec::new(),
        };
        assert(t@.splits =~= Seq::empty());
        t
    }

    /// What a stopwatch holds always fits the longest span.
    pub proof fn lemma_view_wf(&self)
        ensures
            self@.wf(),
    {
        self.accumulated.lemma_bounded();
        assert forall|i: int| 0 <= i < self@.splits.len() implies #[trigger] self@.splits[i]
            == capped(self@.splits[i]) by {
            self.splits@[i].lemma_bounded();
        }
    }

    /// Reads the clock: the time since the stopwatch was made.
    pub(crate) fn read_clock(&self) -> TimeSpan {
        read_since(&self.origin)
    }

    /// Whether a segment is running.
    pub fn is_running(&self) -> (b: bool)
        ensures
            b == self@.running,
    {
        self.running
    }

    /// Starts a segment at the clock reading `now`, unless one is running.
    pub fn start_at(&mut self, now: TimeSpan)
        ensures
            final(self)@ == old(self)@.start(now@),
    {
        if !self.running {
            self.segment_start = now;
            self.running = true;
        }
    }

    /// Ends the running segment at the clock reading `now` and adds it to the total.
    pub fn stop_at(&mut self, now: TimeSpan)
        ensures
            final(self)@ == old(self)@.stop(now@),
    {
        if self.running {
            self.accumulated = self.elapsed_at(now);
            self.running = false;
        }
    }

    /// The elapsed time at the clock reading `now`.
    pub fn elapsed_at(&self, now: TimeSpan) -> (e: TimeSpan)
        ensures
            e@ == self@.elapsed(now@),
    {
        proof {
            self.accumulated.lemma_bounded();
        }
        if self.running {
            self.accumulated.saturating_add(now.saturating_sub(self.segment_start))
        } else {
            self.accumulated
        }
    }

    /// Records the elapsed time at the clock reading `now` as a split, if a segment is running.
    pub fn split_at(&mut self, now: TimeSpan)
        ensures
            final(self)@ == old(self)@.split(now@),
    {
        if self.running {
            let e = self.elapsed_at(now);
            self.splits.push(e);
            assert(self@.splits =~= old(self)@.splits.push(e@));
        }
    }

    /// Starts the stopwatch now. A running stopwatch goes on as it was.
    pub fn start(&mut self)
        ensures
            exists|now: nat| final(self)@ == old(self)@.start(now),
            final(self)@.running,
            final(self)@.accumulated == old(self)@.accumulated,
            final(self)@.splits == old(self)@.splits,
    {
        let now = self.read_clock();
        self.start_at(now);
    }

    /// Stops the stopwatch now: the running segment joins the total. A stopped
    /// stopwatch stays as it was.
    pub fn stop(&mut self)
        ensures
            exists|now: nat| final(self)@ == old(self)@.stop(now),
            !final(self)@.running,
            !old(self)@.running ==> final(self)@ == old(self)@,
            final(self)@.accumulated >= old(self)@.accumulated,
            final(self)@.splits == old(self)@.splits,
    {
        let now = self.read_clock();
        proof {
            self.accumulated.lemma_bounded();
        }
        self.stop_at(now);
    }

    /// Stops the stopwatch, sets it to zero and drops the splits.
    pub fn reset(&mut self)
        ensures
            final(self)@ == old(self)@.reset(),
    {
        self.running = false;
        self.accumulated = TimeSpan::zero();
        self.splits = Vec::new();
        assert(self@.splits =~= Seq::empty());
    }

    /// `HH:MM:SS` for a span.
    fn time_to_string(duration: TimeSpan) -> (s: String)
        ensures
            s@ == clock_text(duration@ / (NANOS_PER_SEC as nat)),
    {
        duration.clock_string()
    }

    /// `HH:MM:SS.mmm` for a span.
    fn time_to_millistring(duration: TimeSpan) -> (s: String)
        ensures
            s@ == split_text(duration@),
    {
        duration.split_string()
    }

    /// The elapsed time now: the total while stopped, the total and the running
    /// segment otherwise. The stopwatch stays as it was.
    pub fn get_time(&mut self) -> (e: TimeSpan)
        ensures
            final(self)@ == old(self)@,
            exists|now: nat| e@ == old(self)@.elapsed(now),
            !old(self)@.running ==> e@ == old(self)@.accumulated,
            e@ >= old(self)@.accumulated,
    {
        let now = self.read_clock();
        proof {
            self.accumulated.lemma_bounded();
        }
        self.elapsed_at(now)
    }

    /// The elapsed time now as `HH:MM:SS`.
    pub fn get_time_string(&mut self) -> (s: String)
        ensures
            final(self)@ == old(self)@,
            exists|now: nat| s@ == clock_text(old(self)@.elapsed(now) / (NANOS_PER_SEC as nat)),
            !old(self)@.running ==> s@ == clock_text(
                old(self)@.accumulated / (NANOS_PER_SEC as nat),
            ),
    {
        let e = self.get_time();
        Timer::time_to_string(e)
    }

    /// The newest split as `HH:MM:SS.mmm`, or `EmptySequence` where there is none.
    pub fn get_latest_split(&self) -> (r: Result<String, TimerError>)
        ensures
            self@.splits.len() == 0 <==> r == Err::<String, TimerError>(TimerError::EmptySequence),
            self@.splits.len() > 0 <==> r is Ok,
            r is Ok ==> r->Ok_0@ == split_text(self@.splits.last()),
    {
        let n: usize = self.splits.len();
        if n == 0 {
            Err(TimerError::EmptySequence)
        } else {
            let latest: TimeSpan = self.splits[n - 1];
            Ok(Timer::time_to_millistring(latest))
        }
    }

    /// The split of the given number, counted from zero, oldest first, if there is one.
    pub fn get_split(&self, index: usize) -> (r: Option<TimeSpan>)
        ensures
            index < self@.splits.len() <==> r is Some,
            r is Some ==> r->Some_0@ == self@.splits[index as int],
    {
        if index < self.splits.len() {
            Some(self.splits[index])
        } else {
            None
        }
    }

    /// The number of splits.
    pub fn split_count(&self) -> (n: usize)
        ensures
            n == self@.splits.len(),
    {
        self.splits.len()
    }

    /// The number of splits, for the row of the screen that the next one is drawn on.
    pub fn get_splits_count(&self) -> (n: u16)
        requires
            self@.splits.len() <= u16::MAX,
        ensures
            n == self@.splits.len(),
    {
        self.splits.len() as u16
    }

    /// Records the elapsed time now as a split, if a segment is running. A stopped
    /// stopwatch stays as it was.
    pub fn split(&mut self)
        ensures
            exists|now: nat| final(self)@ == old(self)@.split(now),
            !old(self)@.running ==> final(self)@ == old(self)@,
            old(self)@.running ==> final(self)@.splits.len() == old(self)@.splits.len() + 1,
            final(self)@.running == old(self)@.running,
            final(self)@.accumulated == old(self)@.accumulated,
    {
        let now = self.read_clock();
        self.split_at(now);
    }
}

} // verus!
