use live_speed_timer::span::TimeSpan;
use live_speed_timer::time::SplitterTimer;
use live_speed_timer::timer::TimerError;

#[test]
fn splitter_starts_at_zero() {
    let timer = SplitterTimer::new();
    assert!(!timer.is_running());
    assert_eq!(timer.get_time(), "00:00:00");
    assert_eq!(timer.get_splits_count(), 0);
    assert_eq!(timer.get_latest_split(), Err(TimerError::EmptySequence));
}

#[test]
fn splitter_shows_the_segment_as_of_the_last_update() {
    let mut timer = SplitterTimer::new();
    timer.start_at(TimeSpan::new(10, 0));
    assert_eq!(timer.get_time(), "00:00:00");
    timer.update_at(TimeSpan::new(75, 0));
    assert_eq!(timer.get_time(), "00:01:05");
    timer.stop();
    assert_eq!(timer.get_time(), "00:01:05");
    timer.update_at(TimeSpan::new(500, 0));
    assert_eq!(timer.get_time(), "00:01:05");
    timer.stop();
    assert_eq!(timer.get_time(), "00:01:05");
}

#[test]
fn splitter_adds_segments_up() {
    let mut timer = SplitterTimer::new();
    timer.start_at(TimeSpan::new(0, 0));
    timer.update_at(TimeSpan::new(30, 0));
    timer.stop();
    timer.start_at(TimeSpan::new(100, 0));
    timer.update_at(TimeSpan::new(3700, 0));
    timer.stop();
    assert_eq!(timer.get_time(), "01:00:30");
}

#[test]
fn splitter_splits_only_while_running() {
    let mut timer = SplitterTimer::new();
    timer.split_at(TimeSpan::new(5, 0));
    timer.split();
    assert_eq!(timer.get_splits_count(), 0);
    timer.start_at(TimeSpan::new(5, 0));
    timer.split_at(TimeSpan::new(6, 250_000_000));
    assert_eq!(timer.get_splits_count(), 1);
    assert_eq!(timer.get_latest_split(), Ok(String::from("00:00:01.250")));
    assert_eq!(timer.get_time(), "00:00:01");
    timer.split();
    assert_eq!(timer.get_splits_count(), 2);
}

#[test]
fn splitter_reset_clears_everything() {
    let mut timer = SplitterTimer::new();
    timer.start();
    timer.update();
    timer.split();
    timer.reset();
    assert!(!timer.is_running());
    assert_eq!(timer.get_time(), "00:00:00");
    assert_eq!(timer.get_splits_count(), 0);
    timer.update();
    assert_eq!(timer.get_time(), "00:00:00");
}

#[test]
fn splitter_formats_a_span() {
    assert_eq!(SplitterTimer::time_to_string(TimeSpan::new(86_399, 999_999_999)), "23:59:59");
    assert_eq!(SplitterTimer::time_to_string(TimeSpan::new(360_000, 0)), "100:00:00");
}
