//! A stopwatch that keeps the length of its running segment as of its last update.

use crate::clock::instant_now;
use crate::clock::read_since;
use crate::span::capped;
use crate::span::clock_text;
use crate::span::split_text;
use crate::span::TimeSpan;
use crate::span::NANOS_PER_SEC;
use crate::timer::TimerError;
use std::time::Instant;
use vstd::prelude::*;

verus! {

/// What such a stopwatch holds, with every time in nanoseconds. Clock readings
/// are nanoseconds since the stopwatch was made.
pub struct SplitterState {
    /// The total of all segments that have ended.
    pub accumulated: nat,
    /// The clock reading at which the running segment began.
    pub segment_start: nat,
    /// The length of the running segment as of the last update; zero while stopped.
    pub segment: nat,
    /// Whether a segment is running.
    pub running: bool,
    /// The elapsed time at each split, oldest first.
    pub splits: Seq<nat>,
}

impl SplitterState {
    /// A stopwatch as it is made: stopped, at zero, without splits.
    pub open spec fn initial() -> SplitterState {
        SplitterState {
            accumulated: 0,
            segment_start: 0,
            segment: 0,
            running: false,
            splits: Seq::empty(),
        }
    }

    /// The elapsed time as of the last update.
    pub open spec fn elapsed(self) -> nat {
        capped(self.accumulated + self.segment)
    }

    /// Updating when the clock reads `now`: a running stopwatch takes the time since
    /// its segment began as the segment's length; a stopped one stays as it was.
    pub open spec fn update(self, now: nat) -> SplitterState {
        if self.running {
            SplitterState {
                segment: if now >= self.segment_start {
                    (now - self.segment_start) as nat
                } else {
                    0
                },
                ..self
            }
        } else {
            self
        }
    }

    /// Starting when the clock reads `now`: a stopped stopwatch begins an empty
    /// segment; a running one goes on as it was.
    pub open spec fn start(self, now: nat) -> SplitterState {
        if self.running {
            self
        } else {
            SplitterState { segment_start: now, segment: 0, running: true, ..self }
        }
    }

    /// Stopping: the segment, as long as it was at the last update, joins the
    /// total; a stopped stopwatch stays as it was.
    pub open spec fn stop(self) -> SplitterState {
        if self.running {
            SplitterState { accumulated: self.elapsed(), segment: 0, running: false, ..self }
        } else {
            self
        }
    }

    /// Splitting when the clock reads `now`: a running stopwatch updates and
    /// records the elapsed time; a stopped one stays as it was.
    pub open spec fn split(self, now: nat) -> SplitterState {
        if self.running {
            SplitterState {
                splits: self.splits.push(self.update(now).elapsed()),
                ..self.update(now)
            }
        } else {
            self
        }
    }

    /// Resetting: stopped, at zero, without splits.
    pub open spec fn reset(self) -> SplitterState {
        SplitterState {
            accumulated: 0,
            segment: 0,
            running: false,
            splits: Seq::empty(),
            ..self
        }
    }
}

/// A stopwatch whose running segment is measured when `update` is called.
pub struct SplitterTimer {
    origin: Instant,
    accumulated: TimeSpan,
    segment_start: TimeSpan,
    segment: TimeSpan,
    running: bool,
    splits: Vec<TimeSpan>,
}

impl View for SplitterTimer {
    type V = SplitterState;

    closed spec fn view(&self) -> SplitterState {
        SplitterState {
            accumulated: self.accumulated@,
            segment_start: self.segment_start@,
            segment: self.segment@,
            running: self.running,
            splits: Seq::new(self.splits@.len(), |i: int| self.splits@[i]@),
        }
    }
}

impl SplitterTimer {
    /// A stopped stopwatch at zero, without splits.
    pub fn new() -> (t: SplitterTimer)
        ensures
            t@ == SplitterState::initial(),
    {
        let t = SplitterTimer {
            origin: instant_now(),
            accumulated: TimeSpan::zero(),
            segment_start: TimeSpan::zero(),
            segment: TimeSpan::zero(),
            running: false,
            splits: Vec::new(),
        };
        assert(t@.splits =~= Seq::empty());
        t
    }

    /// Reads the clock: the time since the stopwatch was made.
    pub(crate) fn read_clock(&self) -> TimeSpan {
        read_since(&self.origin)
    }

    /// Whether a segment is running.
    pub fn is_running(&self) -> (b: bool)
        ensures
            b == self@.running,
    {
        self.running
    }

    /// Starts a segment at the clock reading `now`, unless one is running.
    pub fn start_at(&mut self, now: TimeSpan)
        ensures
            final(self)@ == old(self)@.start(now@),
    {
        if !self.running {
            self.segment_start = now;
            self.segment = TimeSpan::zero();
            self.running = true;
        }
    }

    /// Measures the running segment at the clock reading `now`.
    pub fn update_at(&mut self, now: TimeSpan)
        ensures
            final(self)@ == old(self)@.update(now@),
    {
        if self.running {
            self.segment = now.saturating_sub(self.segment_start);
        }
    }

    /// Measures the running segment at the clock reading `now` and records the
    /// elapsed time as a split, if a segment is running.
    pub fn split_at(&mut self, now: TimeSpan)
        ensures
            final(self)@ == old(self)@.split(now@),
    {
        if self.running {
            self.update_at(now);
            let e: TimeSpan = self.accumulated.saturating_add(self.segment);
            self.splits.push(e);
            assert(self@.splits =~= old(self)@.splits.push(e@));
        }
    }

    /// Starts the stopwatch now. A running stopwatch goes on as it was.
    pub fn start(&mut self)
        ensures
            exists|now: nat| final(self)@ == old(self)@.start(now),
            final(self)@.running,
            final(self)@.accumulated == old(self)@.accumulated,
            final(self)@.splits == old(self)@.splits,
    {
        let now = self.read_clock();
        self.start_at(now);
    }

    /// Stops the stopwatch: the segment, as long as it was at the last update,
    /// joins the total. A stopped stopwatch stays as it was.
    pub fn stop(&mut self)
        ensures
            final(self)@ == old(self)@.stop(),
    {
        if self.running {
            self.accumulated = self.accumulated.saturating_add(self.segment);
            self.segment = TimeSpan::zero();
            self.running = false;
        }
    }

    /// Stops the stopwatch, sets it to zero and drops the splits.
    pub fn reset(&mut self)
        ensures
            final(self)@ == old(self)@.reset(),
    {
        self.running = false;
        self.accumulated = TimeSpan::zero();
        self.segment = TimeSpan::zero();
        self.splits = Vec::new();
        assert(self@.splits =~= Seq::empty());
    }

    /// `HH:MM:SS` for a span; the hours are not wrapped at 24.
    pub fn time_to_string(duration: TimeSpan) -> (s: String)
        ensures
            s@ == clock_text(duration@ / (NANOS_PER_SEC as nat)),
    {
        duration.clock_string()
    }

    /// `HH:MM:SS.mmm` for a span.
    fn time_to_millistring(duration: TimeSpan) -> (s: String)
        ensures
            s@ == split_text(duration@),
    {
        duration.split_string()
    }

    /// The elapsed time as of the last update, as `HH:MM:SS`.
    pub fn get_time(&self) -> (s: String)
        ensures
            s@ == clock_text(self@.elapsed() / (NANOS_PER_SEC as nat)),
    {
        SplitterTimer::time_to_string(self.accumulated.saturating_add(self.segment))
    }

    /// The newest split as `HH:MM:SS.mmm`, or `EmptySequence` where there is none.
    pub fn get_latest_split(&self) -> (r: Result<String, TimerError>)
        ensures
            self@.splits.len() == 0 <==> r == Err::<String, TimerError>(TimerError::EmptySequence),
            self@.splits.len() > 0 <==> r is Ok,
            r is Ok ==> r->Ok_0@ == split_text(self@.splits.last()),
    {
        let n: usize = self.splits.len();
        if n == 0 {
            Err(TimerError::EmptySequence)
        } else {
            let latest: TimeSpan = self.splits[n - 1];
            Ok(SplitterTimer::time_to_millistring(latest))
        }
    }

    /// The number of splits.
    pub fn get_splits_count(&self) -> (n: u16)
        requires
            self@.splits.len() <= u16::MAX,
        ensures
            n == self@.splits.len(),
    {
        self.splits.len() as u16
    }

    /// Measures the running segment now. A stopped stopwatch stays as it was.
    pub fn update(&mut self)
        ensures
            exists|now: nat| final(self)@ == old(self)@.update(now),
            !old(self)@.running ==> final(self)@ == old(self)@,
            final(self)@.running == old(self)@.running,
            final(self)@.accumulated == old(self)@.accumulated,
            final(self)@.splits == old(self)@.splits,
    {
        let now = self.read_clock();
        self.update_at(now);
    }

    /// Measures the running segment now and records the elapsed time as a split.
    /// A stopped stopwatch stays as it was.
    pub fn split(&mut self)
        ensures
            exists|now: nat| final(self)@ == old(self)@.split(now),
            !old(self)@.running ==> final(self)@ == old(self)@,
            old(self)@.running ==> final(self)@.splits.len() == old(self)@.splits.len() + 1,
            final(self)@.running == old(self)@.running,
            final(self)@.accumulated == old(self)@.accumulated,
    {
        let now = self.read_clock();
        self.split_at(now);
    }
}

} // verus!
