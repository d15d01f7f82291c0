use frame_pacing::clock::{Clock, Span, Timestamp};
use frame_pacing::presentation::{
    PresentationFeedback, PresentationFlags, PresentationManager, HW_CLOCK, VSYNC, ZERO_COPY,
};

fn at(micros: u64) -> Timestamp {
    Timestamp::from_nanos(micros * 1_000)
}

fn hz(manager: &PresentationManager) -> f64 {
    1_000_000_000.0 / manager.refresh_interval().as_nanos() as f64
}

fn feedback(present_micros: u64, flags: PresentationFlags) -> PresentationFeedback {
    PresentationFeedback {
        present_time: at(present_micros),
        refresh_interval: Span::from_millis(16),
        flags,
    }
}

#[test]
fn test_presentation_manager_creation() {
    let clock = Clock::new();
    let manager = PresentationManager::new(60, clock.now());
    assert_eq!(manager.total_feedbacks(), 0);
    assert!((hz(&manager) - 60.0).abs() < 0.1);
}

#[test]
fn test_vsync_prediction() {
    let clock = Clock::new();
    let mut manager = PresentationManager::new(60, clock.now());

    let feedback = PresentationFeedback {
        present_time: clock.now(),
        refresh_interval: Span::from_millis(16),
        flags: PresentationFlags::vsync(),
    };

    manager.record_feedback(feedback.clone(), clock.now());

    let next_vsync = manager.predict_next_vsync(clock.now());
    let elapsed = next_vsync.duration_since(feedback.present_time);

    // Should predict the next frame (within 1-2 intervals)
    assert!(elapsed > Span::from_millis(1));
    assert!(elapsed < Span::from_millis(50));
}

#[test]
fn presentation_predicts_the_next_multiple_of_the_interval() {
    let f = feedback(1_000, PresentationFlags::empty());
    // At the presentation itself the next vsync is one interval away.
    assert_eq!(f.predict_next_vsync(at(1_000)), at(17_000));
    assert_eq!(f.predict_next_vsync(at(16_999)), at(17_000));
    // A reading on a vsync gives the one after it.
    assert_eq!(f.predict_next_vsync(at(17_000)), at(33_000));
    assert_eq!(f.predict_next_vsync(at(100_000)), at(113_000));
    // A presentation that lies after the reading counts as just presented.
    assert_eq!(f.predict_next_vsync(at(0)), at(17_000));
    // At the end of the clock the prediction stays on the clock.
    let late = PresentationFeedback {
        present_time: Timestamp::from_nanos(u64::MAX - 5),
        refresh_interval: Span::from_nanos(10),
        flags: PresentationFlags::empty(),
    };
    assert_eq!(late.predict_next_vsync(Timestamp::from_nanos(u64::MAX - 1)), Timestamp::from_nanos(u64::MAX));
}

#[test]
fn presentation_starts_rendering_a_budget_before_the_vsync() {
    let f = feedback(0, PresentationFlags::empty());
    // Next vsync at 16 ms; with 4 ms of budget rendering starts at 12 ms.
    assert_eq!(f.optimal_render_start(Span::from_millis(4), at(1_000)), at(12_000));
    assert_eq!(f.optimal_render_start(Span::from_millis(4), at(12_000)), at(12_000));
    // That moment has passed: the vsync itself.
    assert_eq!(f.optimal_render_start(Span::from_millis(4), at(12_001)), at(16_000));
    // A budget longer than the time to the vsync.
    assert_eq!(f.optimal_render_start(Span::from_millis(40), at(1_000)), at(16_000));
    assert_eq!(f.optimal_render_start(Span::zero(), at(1_000)), at(16_000));
}

#[test]
fn presentation_without_feedback_renders_at_once() {
    let manager = PresentationManager::new(60, at(0));
    assert!(manager.should_render_now(Span::zero(), at(5)));
    assert!(manager.should_render_now(Span::from_millis(8), at(5)));
    assert_eq!(manager.optimal_render_start(Span::from_millis(8), at(5)), at(5));
    assert_eq!(manager.refresh_interval(), Span::from_nanos(16_666_666));
    assert!((hz(&manager) - 60.0).abs() < 0.1);
    // The fallback prediction is one estimated interval from now.
    assert_eq!(manager.predict_next_vsync(at(1_000)), Timestamp::from_nanos(1_000_000 + 16_666_666));
    assert!(manager.last_feedback().is_none());
}

#[test]
fn presentation_gates_rendering_on_the_budget() {
    let mut manager = PresentationManager::new(60, at(0));
    manager.record_feedback(feedback(0, PresentationFlags::vsync()), at(10));
    // Next vsync at 16 ms, budget 4 ms: render from 12 ms on.
    assert!(!manager.should_render_now(Span::from_millis(4), at(11_999)));
    assert!(manager.should_render_now(Span::from_millis(4), at(12_000)));
    // Past the start the aim is the vsync itself, which is still ahead.
    assert!(!manager.should_render_now(Span::from_millis(4), at(12_001)));
    assert_eq!(manager.optimal_render_start(Span::from_millis(4), at(5_000)), at(12_000));
    assert_eq!(manager.predict_next_vsync(at(5_000)), at(16_000));
}

#[test]
fn presentation_estimate_converges_on_the_measured_interval() {
    let mut manager = PresentationManager::new(60, at(0));
    manager.record_feedback(feedback(0, PresentationFlags::vsync()), at(0));
    // The first feedback has nothing to measure against.
    assert_eq!(manager.refresh_interval(), Span::from_nanos(16_666_666));
    manager.record_feedback(feedback(16_000, PresentationFlags::vsync()), at(16_000));
    // (9 * 16_666_666 + 16_000_000) / 10
    assert_eq!(manager.refresh_interval(), Span::from_nanos(16_599_999));
    let mut last = hz(&manager);
    assert!(last > 60.0 && last < 62.5);
    for i in 2..40u64 {
        manager.record_feedback(feedback(16_000 * i, PresentationFlags::vsync()), at(16_000 * i));
        let now = hz(&manager);
        assert!(now >= last && now <= 62.5);
        last = now;
    }
    assert!((last - 62.5).abs() < 0.1);
}

#[test]
fn presentation_counts_feedbacks_by_their_flags() {
    let mut manager = PresentationManager::new(60, at(0));
    manager.record_feedback(feedback(0, PresentationFlags::vsync()), at(0));
    manager.record_feedback(feedback(16_000, PresentationFlags::zero_copy().union(PresentationFlags::vsync())), at(16_000));
    manager.record_feedback(feedback(32_000, PresentationFlags::hw_clock()), at(32_000));
    manager.record_feedback(feedback(48_000, PresentationFlags::from_bits_truncate(ZERO_COPY | 0x100)), at(48_000));
    assert_eq!(manager.total_feedbacks(), 4);
    assert_eq!(manager.vsync_hits(), 2);
    assert_eq!(manager.zero_copy_frames(), 2);
    let stats = manager.log_stats();
    assert_eq!((stats.total_feedbacks, stats.vsync_hits, stats.zero_copy_frames), (4, 2, 2));
    assert_eq!(stats.refresh_interval, manager.refresh_interval());
    assert_eq!(manager.last_feedback().unwrap().present_time, at(48_000));
    assert_eq!(manager.last_stats_log(), at(0));
    manager.record_feedback(feedback(61_000_000, PresentationFlags::empty()), at(61_000_000));
    assert_eq!(manager.last_stats_log(), at(61_000_000));
}

#[test]
fn presentation_flags_are_sets_of_bits() {
    assert_eq!(PresentationFlags::vsync().bits(), VSYNC);
    assert_eq!(PresentationFlags::hw_clock().bits(), HW_CLOCK);
    assert_eq!(PresentationFlags::hw_completion().bits(), 0x4);
    assert_eq!(PresentationFlags::zero_copy().bits(), 0x8);
    assert_eq!(PresentationFlags::from_bits_truncate(0xFFFF_FFFF).bits(), 0xF);
    let both = PresentationFlags::vsync().union(PresentationFlags::zero_copy());
    assert!(both.contains(PresentationFlags::vsync()));
    assert!(both.contains(PresentationFlags::zero_copy()));
    assert!(both.contains(PresentationFlags::empty()));
    assert!(!both.contains(PresentationFlags::hw_clock()));
    assert!(!PresentationFlags::vsync().contains(both));
}

#[test]
fn presentation_takes_a_feedback_without_refresh_interval() {
    let still = PresentationFeedback {
        present_time: at(1_000),
        refresh_interval: Span::zero(),
        flags: PresentationFlags::vsync(),
    };
    // The feedback alone has no vsync to offer beyond the present moment.
    assert_eq!(still.predict_next_vsync(at(5_000)), at(5_000));
    assert_eq!(still.predict_next_vsync(at(500)), at(1_000));
    assert_eq!(still.optimal_render_start(Span::from_millis(4), at(5_000)), at(5_000));

    // The manager records it, and predicts from its estimate as before the
    // first feedback.
    let mut manager = PresentationManager::new(60, at(0));
    manager.record_feedback(still, at(1_000));
    assert_eq!(manager.total_feedbacks(), 1);
    assert_eq!(manager.vsync_hits(), 1);
    assert_eq!(manager.last_feedback().unwrap().refresh_interval, Span::zero());
    assert_eq!(manager.predict_next_vsync(at(5_000)), Timestamp::from_nanos(5_000_000 + 16_666_666));
    assert_eq!(manager.optimal_render_start(Span::from_millis(4), at(5_000)), at(5_000));
    assert!(manager.should_render_now(Span::from_millis(4), at(5_000)));

    // Its presentation time still enters the estimate with the next feedback.
    manager.record_feedback(feedback(17_000, PresentationFlags::empty()), at(17_000));
    assert_eq!(manager.refresh_interval(), Span::from_nanos((9 * 16_666_666 + 16_000_000) / 10));
    assert_eq!(manager.predict_next_vsync(at(18_000)), at(33_000));
}
