use live_speed_timer::config::Config;
use live_speed_timer::config::Key;
use live_speed_timer::config::Keys;
use live_speed_timer::tasks::add_input_bindings;
use live_speed_timer::tasks::reset;
use live_speed_timer::tasks::split_at;
use live_speed_timer::tasks::stopstart;
use live_speed_timer::tasks::stopstart_at;
use live_speed_timer::tasks::tick;
use live_speed_timer::tasks::tick_at;
use live_speed_timer::tasks::try_run_input;
use live_speed_timer::tasks::try_run_input_at;
use live_speed_timer::tasks::Action;
use live_speed_timer::tasks::Bindings;
use live_speed_timer::tasks::Effect;
use live_speed_timer::tasks::Tick;
use live_speed_timer::span::TimeSpan;
use live_speed_timer::timer::Timer;

fn default_bindings() -> Bindings {
    let mut bindings = Bindings::new();
    add_input_bindings(&mut bindings, Config::new());
    bindings
}

#[test]
fn default_bindings_map_the_four_keys() {
    let bindings = default_bindings();
    assert_eq!(bindings.get(Key::Char(' ')), Some(Action::Split));
    assert_eq!(bindings.get(Key::Char('s')), Some(Action::ToggleRunning));
    assert_eq!(bindings.get(Key::Char('r')), Some(Action::Reset));
    assert_eq!(bindings.get(Key::Esc), Some(Action::Quit));
    assert_eq!(bindings.get(Key::Char('x')), None);
    assert_eq!(bindings.get(Key::Enter), None);
    assert_eq!(Bindings::new().get(Key::Esc), None);
}

#[test]
fn a_later_binding_replaces_an_earlier_one() {
    let mut bindings = Bindings::new();
    bindings.insert(Key::F(1), Action::Reset);
    bindings.insert(Key::F(2), Action::Split);
    bindings.insert(Key::F(1), Action::ToggleRunning);
    assert_eq!(bindings.get(Key::F(1)), Some(Action::ToggleRunning));
    assert_eq!(bindings.get(Key::F(2)), Some(Action::Split));
    assert_eq!(bindings.get(Key::F(3)), None);
}

#[test]
fn quit_wins_over_another_binding_of_its_key() {
    let keys = Keys { split: Key::Char('q'), stopstart: Key::Char('s'), reset: Key::Char('r'), quit: Key::Char('q') };
    let mut bindings = Bindings::new();
    add_input_bindings(&mut bindings, Config::from_parts(30, true, keys));
    assert_eq!(bindings.get(Key::Char('q')), Some(Action::Quit));
    let mut timer = Timer::new();
    timer.start();
    assert!(matches!(try_run_input(Key::Char('q'), &bindings, &mut timer), Effect::Quit));
    assert_eq!(timer.get_splits_count(), 0);
    assert!(timer.is_running());
}

#[test]
fn toggle_starts_and_stops() {
    let mut timer = Timer::new();
    stopstart(&mut timer);
    assert!(timer.is_running());
    stopstart(&mut timer);
    assert!(!timer.is_running());
    stopstart_at(&mut timer, TimeSpan::from_millis(1000));
    assert!(timer.is_running());
    let before = timer.elapsed_at(TimeSpan::from_millis(1000));
    stopstart_at(&mut timer, TimeSpan::from_millis(1250));
    assert!(!timer.is_running());
    assert_eq!(timer.get_time(), before.saturating_add(TimeSpan::from_millis(250)));
}

#[test]
fn reset_clears_the_screen_and_shows_zero() {
    let mut timer = Timer::new();
    timer.start_at(TimeSpan::zero());
    timer.split_at(TimeSpan::new(5, 0));
    match reset(&mut timer) {
        Effect::Clear { time } => assert_eq!(time, "00:00:00"),
        other => panic!("unexpected effect: {:?}", other),
    }
    assert!(!timer.is_running());
    assert_eq!(timer.get_splits_count(), 0);
}

#[test]
fn split_is_drawn_on_the_row_of_its_number() {
    let mut timer = Timer::new();
    assert!(matches!(split_at(&mut timer, TimeSpan::new(1, 0)), Effect::Nothing));
    timer.start_at(TimeSpan::new(1, 0));
    match split_at(&mut timer, TimeSpan::new(3, 40_000_000)) {
        Effect::SplitLine { row, text } => {
            assert_eq!(row, 1);
            assert_eq!(text, "00:00:02.040");
        },
        other => panic!("unexpected effect: {:?}", other),
    }
    match split_at(&mut timer, TimeSpan::new(3601, 0)) {
        Effect::SplitLine { row, text } => {
            assert_eq!(row, 2);
            assert_eq!(text, "01:00:00.000");
        },
        other => panic!("unexpected effect: {:?}", other),
    }
}

#[test]
fn keys_run_their_commands() {
    let bindings = default_bindings();
    let mut timer = Timer::new();
    assert!(matches!(
        try_run_input_at(Key::Char('s'), &bindings, &mut timer, TimeSpan::new(2, 0)),
        Effect::Nothing
    ));
    assert!(timer.is_running());
    match try_run_input_at(Key::Char(' '), &bindings, &mut timer, TimeSpan::new(4, 0)) {
        Effect::SplitLine { row, text } => {
            assert_eq!(row, 1);
            assert_eq!(text, "00:00:02.000");
        },
        other => panic!("unexpected effect: {:?}", other),
    }
    assert!(matches!(
        try_run_input_at(Key::Char('s'), &bindings, &mut timer, TimeSpan::new(10, 0)),
        Effect::Nothing
    ));
    assert!(!timer.is_running());
    assert_eq!(timer.get_time(), TimeSpan::new(8, 0));
    assert!(matches!(
        try_run_input_at(Key::Char(' '), &bindings, &mut timer, TimeSpan::new(11, 0)),
        Effect::Nothing
    ));
    assert_eq!(timer.get_splits_count(), 1);
    assert!(matches!(
        try_run_input_at(Key::Char('r'), &bindings, &mut timer, TimeSpan::new(12, 0)),
        Effect::Clear { .. }
    ));
    assert_eq!(timer.get_time(), TimeSpan::zero());
    assert_eq!(timer.get_splits_count(), 0);
}

#[test]
fn unbound_keys_are_ignored() {
    let bindings = default_bindings();
    let mut timer = Timer::new();
    timer.start_at(TimeSpan::zero());
    assert!(matches!(try_run_input(Key::Char('z'), &bindings, &mut timer), Effect::Nothing));
    assert!(matches!(try_run_input(Key::F(12), &bindings, &mut timer), Effect::Nothing));
    assert!(matches!(try_run_input(Key::Null, &bindings, &mut timer), Effect::Nothing));
    assert!(timer.is_running());
    assert_eq!(timer.get_splits_count(), 0);
}

#[test]
fn tick_draws_only_while_running() {
    let mut timer = Timer::new();
    assert!(matches!(tick_at(false, &timer, TimeSpan::new(1, 0)), Tick::Idle));
    assert!(matches!(tick(false, &timer), Tick::Idle));
    timer.start_at(TimeSpan::new(1, 0));
    timer.split_at(TimeSpan::new(2, 0));
    match tick_at(false, &timer, TimeSpan::new(62, 0)) {
        Tick::Draw { time } => assert_eq!(time, "00:01:01"),
        other => panic!("unexpected tick: {:?}", other),
    }
    assert_eq!(timer.get_splits_count(), 1);
}

#[test]
fn tick_exits_on_the_signal() {
    let mut timer = Timer::new();
    assert!(matches!(tick(true, &timer), Tick::Exit));
    timer.start();
    assert!(matches!(tick_at(true, &timer, TimeSpan::new(1, 0)), Tick::Exit));
    assert!(matches!(tick(true, &timer), Tick::Exit));
}
