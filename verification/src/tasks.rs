//! What the input task and the tick task decide: the table of key bindings,
//! the commands they stand for, and what is then to be drawn.

use crate::config::Config;
use crate::config::Key;
use crate::shutdown::signal_read;
use crate::span::clock_text;
use crate::span::split_text;
use crate::span::TimeSpan;
use crate::span::NANOS_PER_SEC;
use crate::timer::Timer;
use crate::timer::TimerState;
use tokio::sync::watch;
use vstd::prelude::*;

verus! {

/// A command that a key can be bound to.
#[derive(Clone, Copy, Debug, PartialEq, Eq, Structural)]
pub enum Action {
    /// Record a split.
    Split,
    /// Start the stopwatch if it is stopped, stop it if it runs.
    ToggleRunning,
    /// Reset the stopwatch.
    Reset,
    /// Ask for shutdown.
    Quit,
}

/// What the terminal hands to the input task.
#[derive(Clone, Copy, Debug, PartialEq, Eq, Structural)]
pub enum InputEvent {
    /// Nothing came within the time waited.
    Timeout,
    /// A key was pressed.
    Key(Key),
    /// The pointer moved or was pressed.
    Mouse,
    /// The window has a new size, in columns and rows.
    Resize(u16, u16),
    /// The terminal could not be read.
    Failed,
}

/// The command that an event stands for under a table of bindings: that of its
/// key where it is a key press, none otherwise.
pub open spec fn action_of(table: Map<Key, Action>, event: InputEvent) -> Option<Action> {
    match event {
        InputEvent::Key(key) => lookup(table, key),
        _ => None,
    }
}

/// What is to be done on the screen, or to the program, after a key press.
#[derive(Debug)]
pub enum Effect {
    /// Nothing.
    Nothing,
    /// Clear the screen and draw the elapsed time at the top.
    Clear { time: String },
    /// Draw one split on its row; the first split has row 1.
    SplitLine { row: usize, text: String },
    /// Ask for shutdown and read no more keys.
    Quit,
}

/// What a tick of the display does.
#[derive(Debug)]
pub enum Tick {
    /// Shutdown was asked for: leave the loop and do nothing more.
    Exit,
    /// Draw the elapsed time at the top.
    Draw { time: String },
    /// The stopwatch is stopped: draw nothing.
    Idle,
}

/// The table that a list of bindings stands for: each binding is put in, in
/// order, so that the last one made for a key is the one that holds.
pub open spec fn table_of(entries: Seq<(Key, Action)>) -> Map<Key, Action>
    decreases entries.len(),
{
    if entries.len() == 0 {
        Map::empty()
    } else {
        table_of(entries.drop_last()).insert(entries.last().0, entries.last().1)
    }
}

/// What a table holds for a key, if anything.
pub open spec fn lookup(table: Map<Key, Action>, key: Key) -> Option<Action> {
    if table.contains_key(key) {
        Some(table[key])
    } else {
        None
    }
}

/// The table made of settings: the keys to start and stop, to reset and to
/// split, and last the key to quit, which so wins over any of the others.
pub open spec fn table_of_config(cfg: Config) -> Map<Key, Action> {
    Map::<Key, Action>::empty().insert(cfg.keys().stopstart, Action::ToggleRunning).insert(
        cfg.keys().reset,
        Action::Reset,
    ).insert(cfg.keys().split, Action::Split).insert(cfg.keys().quit, Action::Quit)
}

/// The stopwatch after a command given at the clock reading `now`.
pub open spec fn after_action(s: TimerState, action: Option<Action>, now: nat) -> TimerState {
    match action {
        Some(Action::ToggleRunning) => if s.running {
            s.stop(now)
        } else {
            s.start(now)
        },
        Some(Action::Reset) => s.reset(),
        Some(Action::Split) => s.split(now),
        Some(Action::Quit) => s,
        None => s,
    }
}

/// Whether `effect` is what is to be drawn after a command given to the
/// stopwatch `s` at the clock reading `now`.
pub open spec fn is_effect_of(
    effect: Effect,
    s: TimerState,
    action: Option<Action>,
    now: nat,
) -> bool {
    match action {
        Some(Action::Reset) => effect matches Effect::Clear { time } && time@ == clock_text(0),
        Some(Action::Split) => if s.running {
            effect matches Effect::SplitLine { row, text } && row == s.splits.len() + 1 && text@
                == split_text(s.elapsed(now))
        } else {
            effect is Nothing
        },
        Some(Action::Quit) => effect is Quit,
        Some(Action::ToggleRunning) => effect is Nothing,
        None => effect is Nothing,
    }
}

/// Whether `tick` is what a tick does at the clock reading `now`.
pub open spec fn is_tick_of(tick: Tick, signaled: bool, s: TimerState, now: nat) -> bool {
    if signaled {
        tick is Exit
    } else if s.running {
        tick matches Tick::Draw { time } && time@ == clock_text(
            s.elapsed(now) / (NANOS_PER_SEC as nat),
        )
    } else {
        tick is Idle
    }
}

/// The table of key bindings.
pub struct Bindings {
    entries: Vec<(Key, Action)>,
}

impl View for Bindings {
    type V = Map<Key, Action>;

    closed spec fn view(&self) -> Map<Key, Action> {
        table_of(self.entries@)
    }
}

impl Bindings {
    /// A table without bindings.
    pub fn new() -> (b: Bindings)
        ensures
            b@ == Map::<Key, Action>::empty(),
    {
        Bindings { entries: Vec::new() }
    }

    /// Binds `key` to `action`; what the key was bound to before no longer holds.
    pub fn insert(&mut self, key: Key, action: Action)
        ensures
            final(self)@ == old(self)@.insert(key, action),
    {
        self.entries.push((key, action));
        assert(self.entries@.drop_last() =~= old(self).entries@);
    }

    /// The command that `key` is bound to, if any.
    pub fn get(&self, key: Key) -> (found: Option<Action>)
        ensures
            found == lookup(self@, key),
    {
        let mut found: Option<Action> = None;
        let mut i: usize = 0;
        while i < self.entries.len()
            invariant
                i <= self.entries@.len(),
                found == lookup(table_of(self.entries@.take(i as int)), key),
            decreases self.entries@.len() - i,
        {
            let entry: (Key, Action) = self.entries[i];
            assert(self.entries@.take(i + 1).drop_last() =~= self.entries@.take(i as int));
            if entry.0 == key {
                found = Some(entry.1);
            }
            i = i + 1;
        }
        assert(self.entries@.take(i as int) =~= self.entries@);
        found
    }
}

/// Puts the bindings that the settings give into the table: start and stop,
/// reset, split, and last quit.
pub fn add_input_bindings(bindings: &mut Bindings, cfg: Config)
    ensures
        final(bindings)@ == old(bindings)@.insert(cfg.keys().stopstart, Action::ToggleRunning).insert(
            cfg.keys().reset,
            Action::Reset,
        ).insert(cfg.keys().split, Action::Split).insert(cfg.keys().quit, Action::Quit),
        old(bindings)@ == Map::<Key, Action>::empty() ==> final(bindings)@ == table_of_config(cfg),
{
    bindings.insert(cfg.get_key_stopstart(), Action::ToggleRunning);
    bindings.insert(cfg.get_key_reset(), Action::Reset);
    bindings.insert(cfg.get_key_split(), Action::Split);
    bindings.insert(cfg.get_key_quit(), Action::Quit);
}

/// The quit key asks for shutdown whatever else it is bound to, and a key
/// that the settings do not name is bound to nothing.
pub proof fn lemma_quit_wins(cfg: Config, key: Key)
    ensures
        key == cfg.keys().quit ==> lookup(table_of_config(cfg), key) == Some(Action::Quit),
        (key != cfg.keys().quit && key != cfg.keys().split && key != cfg.keys().reset && key
            != cfg.keys().stopstart) ==> lookup(table_of_config(cfg), key) is None,
        (key != cfg.keys().quit && key == cfg.keys().split) ==> lookup(table_of_config(cfg), key)
            == Some(Action::Split),
{
}

/// Starts the stopwatch at the clock reading `now` if it is stopped, stops it if it runs.
pub fn stopstart_at(timer: &mut Timer, now: TimeSpan)
    ensures
        final(timer)@ == after_action(old(timer)@, Some(Action::ToggleRunning), now@),
{
    if timer.is_running() {
        timer.stop_at(now)
    } else {
        timer.start_at(now)
    }
}

/// Starts the stopwatch now if it is stopped, stops it now if it runs.
pub fn stopstart(timer: &mut Timer)
    ensures
        exists|now: nat|
            final(timer)@ == after_action(old(timer)@, Some(Action::ToggleRunning), now),
        final(timer)@.running == !old(timer)@.running,
        final(timer)@.splits == old(timer)@.splits,
{
    let now = timer.read_clock();
    stopstart_at(timer, now);
}

/// Resets the stopwatch; the screen is then to be cleared and the time drawn anew.
pub fn reset(timer: &mut Timer) -> (effect: Effect)
    ensures
        final(timer)@ == old(timer)@.reset(),
        is_effect_of(effect, old(timer)@, Some(Action::Reset), 0),
{
    timer.reset();
    Effect::Clear { time: timer.get_time_string() }
}

/// Records a split at the clock reading `now` if the stopwatch runs; the split
/// is then to be drawn on the row of its number.
pub fn split_at(timer: &mut Timer, now: TimeSpan) -> (effect: Effect)
    ensures
        final(timer)@ == old(timer)@.split(now@),
        is_effect_of(effect, old(timer)@, Some(Action::Split), now@),
{
    if timer.is_running() {
        timer.split_at(now);
        let row: usize = timer.split_count();
        match timer.get_latest_split() {
            Ok(text) => Effect::SplitLine { row, text },
            Err(_) => Effect::Nothing,
        }
    } else {
        Effect::Nothing
    }
}

/// Gives the command that `key` is bound to, if any, to the stopwatch at the
/// clock reading `now`, and says what is then to be drawn.
pub fn try_run_input_at(data: Key, bindings: &Bindings, timer: &mut Timer, now: TimeSpan) -> (effect:
    Effect)
    ensures
        final(timer)@ == after_action(old(timer)@, lookup(bindings@, data), now@),
        is_effect_of(effect, old(timer)@, lookup(bindings@, data), now@),
{
    match bindings.get(data) {
        Some(Action::ToggleRunning) => {
            stopstart_at(timer, now);
            Effect::Nothing
        },
        Some(Action::Reset) => reset(timer),
        Some(Action::Split) => split_at(timer, now),
        Some(Action::Quit) => Effect::Quit,
        None => Effect::Nothing,
    }
}

/// Gives the command that `key` is bound to, if any, to the stopwatch now, and
/// says what is then to be drawn.
pub fn try_run_input(data: Key, bindings: &Bindings, timer: &mut Timer) -> (effect: Effect)
    ensures
        exists|now: nat|
            final(timer)@ == after_action(old(timer)@, lookup(bindings@, data), now)
                && is_effect_of(effect, old(timer)@, lookup(bindings@, data), now),
        lookup(bindings@, data) == Some(Action::Quit) <==> effect is Quit,
        lookup(bindings@, data) is None ==> final(timer)@ == old(timer)@,
{
    let now = timer.read_clock();
    try_run_input_at(data, bindings, timer, now)
}

/// One turn of the input task at the clock reading `now`: a key press runs
/// the command that the key is bound to; every other event is passed over.
pub fn read_input_step_at(
    event: InputEvent,
    bindings: &Bindings,
    timer: &mut Timer,
    now: TimeSpan,
) -> (effect: Effect)
    ensures
        final(timer)@ == after_action(old(timer)@, action_of(bindings@, event), now@),
        is_effect_of(effect, old(timer)@, action_of(bindings@, event), now@),
{
    match event {
        InputEvent::Key(key) => try_run_input_at(key, bindings, timer, now),
        _ => Effect::Nothing,
    }
}

/// One turn of the input task now. The task ends where the effect is to quit.
pub fn read_input_step(event: InputEvent, bindings: &Bindings, timer: &mut Timer) -> (effect: Effect)
    ensures
        exists|now: nat|
            final(timer)@ == after_action(old(timer)@, action_of(bindings@, event), now)
                && is_effect_of(effect, old(timer)@, action_of(bindings@, event), now),
        action_of(bindings@, event) == Some(Action::Quit) <==> effect is Quit,
        action_of(bindings@, event) is None ==> final(timer)@ == old(timer)@ && effect is Nothing,
{
    let now = timer.read_clock();
    read_input_step_at(event, bindings, timer, now)
}

/// What a tick does at the clock reading `now`: leave the loop where shutdown
/// was asked for, draw the time where the stopwatch runs, nothing otherwise.
/// The splits are never drawn by a tick.
pub fn tick_at(signaled: bool, timer: &Timer, now: TimeSpan) -> (tick: Tick)
    ensures
        is_tick_of(tick, signaled, timer@, now@),
{
    if signaled {
        Tick::Exit
    } else if timer.is_running() {
        Tick::Draw { time: timer.elapsed_at(now).clock_string() }
    } else {
        Tick::Idle
    }
}

/// What a tick does now.
pub fn tick(signaled: bool, timer: &Timer) -> (tick: Tick)
    ensures
        exists|now: nat| is_tick_of(tick, signaled, timer@, now),
        signaled <==> tick is Exit,
        (!signaled && !timer@.running) <==> tick is Idle,
{
    let now = timer.read_clock();
    tick_at(signaled, timer, now)
}

/// One turn of the tick task: reads the signal and the clock, and says what the tick does.
pub fn tick_timer_step(shutdown_recv: &watch::Receiver<bool>, timer: &Timer) -> (tick: Tick)
    ensures
        exists|signaled: bool, now: nat| is_tick_of(tick, signaled, timer@, now),
        tick is Draw ==> timer@.running,
        tick is Idle ==> !timer@.running,
{
    let signaled: bool = signal_read(shutdown_recv);
    self::tick(signaled, timer)
}

} // verus!
