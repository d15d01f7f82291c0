use frame_pacing::clock::{Clock, Span, Timestamp};
use frame_pacing::counter::bump;

#[test]
fn clock_readings_do_not_run_backwards() {
    let clock = Clock::new();
    let a = clock.now();
    let b = clock.now();
    assert!(b >= a);
    assert_eq!(a.duration_since(b), Span::zero());
}

#[test]
fn spans_are_counted_in_nanoseconds() {
    assert_eq!(Span::from_millis(16).as_nanos(), 16_000_000);
    assert_eq!(Span::from_secs(60).as_nanos(), 60_000_000_000);
    assert_eq!(Span::from_secs(u64::MAX).as_nanos(), u64::MAX);
    assert_eq!(Span::from_millis(u64::MAX / 1_000_000 + 1).as_nanos(), u64::MAX);
    assert_eq!(Span::from_millis(u64::MAX / 1_000_000).as_nanos(), u64::MAX / 1_000_000 * 1_000_000);
    assert_eq!(Span::zero().as_nanos(), 0);
    assert_eq!(Span::from_nanos(5).saturating_add(Span::from_nanos(7)), Span::from_nanos(12));
    assert_eq!(Span::from_nanos(u64::MAX).saturating_add(Span::from_nanos(7)), Span::from_nanos(u64::MAX));
}

#[test]
fn timestamps_move_by_spans_and_stay_on_the_clock() {
    let t = Timestamp::from_nanos(100);
    assert_eq!(t.as_nanos(), 100);
    assert_eq!(t.saturating_add(Span::from_nanos(50)), Timestamp::from_nanos(150));
    assert_eq!(Timestamp::from_nanos(u64::MAX - 1).saturating_add(Span::from_nanos(2)), Timestamp::from_nanos(u64::MAX));
    assert_eq!(Timestamp::from_nanos(150).duration_since(t), Span::from_nanos(50));
    assert_eq!(t.duration_since(Timestamp::from_nanos(150)), Span::zero());
}

#[test]
fn counters_stay_at_their_largest_value() {
    assert_eq!(bump(0), 1);
    assert_eq!(bump(41), 42);
    assert_eq!(bump(usize::MAX - 1), usize::MAX);
    assert_eq!(bump(usize::MAX), usize::MAX);
}
