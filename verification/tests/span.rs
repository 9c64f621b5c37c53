use live_speed_timer::span::push_padded;
use live_speed_timer::span::TimeSpan;

#[test]
fn span_of_seconds_and_nanoseconds() {
    assert_eq!(TimeSpan::new(2, 5).as_nanos(), 2_000_000_005);
    assert_eq!(TimeSpan::new(0, 1_500_000_000).as_nanos(), 1_500_000_000);
    assert_eq!(
        TimeSpan::new(u64::MAX, u32::MAX).as_nanos(),
        18_446_744_073_709_551_615_000_000_000 + 4_294_967_295
    );
    assert_eq!(TimeSpan::from_millis(1500), TimeSpan::new(1, 500_000_000));
    assert_eq!(TimeSpan::zero(), TimeSpan::from_nanos(0));
}

#[test]
fn span_in_seconds_and_milliseconds() {
    let span = TimeSpan::new(3, 999_999_999);
    assert_eq!(span.as_secs(), 3);
    assert_eq!(span.as_millis(), 3999);
}

#[test]
fn sums_stop_at_the_longest_span() {
    let a = TimeSpan::from_nanos(u128::MAX - 5);
    assert_eq!(a.saturating_add(TimeSpan::from_nanos(5)).as_nanos(), u128::MAX);
    assert_eq!(a.saturating_add(TimeSpan::from_nanos(6)).as_nanos(), u128::MAX);
    assert_eq!(a.saturating_add(TimeSpan::from_nanos(4)).as_nanos(), u128::MAX - 1);
    assert_eq!(TimeSpan::new(1, 0).saturating_add(TimeSpan::new(2, 3)), TimeSpan::new(3, 3));
}

#[test]
fn differences_stop_at_zero() {
    assert_eq!(TimeSpan::new(5, 0).saturating_sub(TimeSpan::new(2, 0)), TimeSpan::new(3, 0));
    assert_eq!(TimeSpan::new(2, 0).saturating_sub(TimeSpan::new(5, 0)), TimeSpan::zero());
    assert_eq!(TimeSpan::new(2, 0).saturating_sub(TimeSpan::new(2, 0)), TimeSpan::zero());
}

#[test]
fn clock_string_is_zero_padded() {
    assert_eq!(TimeSpan::zero().clock_string(), "00:00:00");
    assert_eq!(TimeSpan::new(59, 999_999_999).clock_string(), "00:00:59");
    assert_eq!(TimeSpan::new(60, 0).clock_string(), "00:01:00");
    assert_eq!(TimeSpan::new(3661, 0).clock_string(), "01:01:01");
    assert_eq!(TimeSpan::new(45_296, 0).clock_string(), "12:34:56");
}

#[test]
fn hours_are_not_wrapped() {
    assert_eq!(TimeSpan::new(24 * 3600, 0).clock_string(), "24:00:00");
    assert_eq!(TimeSpan::new(100 * 3600 + 59, 0).clock_string(), "100:00:59");
    assert_eq!(TimeSpan::new(u64::MAX, 0).clock_string(), "5124095576030431:00:15");
}

#[test]
fn split_string_has_three_digits_of_milliseconds() {
    assert_eq!(TimeSpan::zero().split_string(), "00:00:00.000");
    assert_eq!(TimeSpan::new(0, 5_000_000).split_string(), "00:00:00.005");
    assert_eq!(TimeSpan::new(0, 50_999_999).split_string(), "00:00:00.050");
    assert_eq!(TimeSpan::new(3661, 999_000_000).split_string(), "01:01:01.999");
    assert_eq!(TimeSpan::new(7322, 123_456_789).split_string(), "02:02:02.123");
}

#[test]
fn padding_fills_up_to_the_width() {
    let mut s = String::from("x");
    push_padded(&mut s, 7, 3);
    assert_eq!(s, "x007");
    push_padded(&mut s, 1234, 2);
    assert_eq!(s, "x0071234");
    push_padded(&mut s, 0, 0);
    assert_eq!(s, "x00712340");
    push_padded(&mut s, 10, 2);
    assert_eq!(s, "x0071234010");
}
