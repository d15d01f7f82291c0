use frame_pacing::clock::{Clock, Span, Timestamp};
use frame_pacing::gpufence::{
    FenceError, GpuFence, GpuFenceManager, WaitStatus, CONDITION_SATISFIED, NO_SYNC,
    TIMEOUT_EXPIRED,
};

fn at(millis: u64) -> Timestamp {
    Timestamp::from_nanos(millis * 1_000_000)
}

/// A stand-in for the graphics driver: it hands out sync handles and records
/// how often each one is destroyed.
struct FakeDriver {
    next: u64,
    destroyed: Vec<u64>,
}

impl FakeDriver {
    fn new() -> Self {
        FakeDriver { next: 1, destroyed: Vec::new() }
    }

    fn create_sync(&mut self) -> u64 {
        let handle = self.next;
        self.next += 1;
        handle
    }

    fn destroy(&mut self, fence: GpuFence) {
        self.destroyed.push(fence.sync());
    }
}

#[test]
fn test_fence_manager_creation() {
    let clock = Clock::new();
    let manager = GpuFenceManager::new(clock.now());
    assert_eq!(manager.total_fences_created(), 0);
    assert_eq!(manager.total_waits(), 0);
}

#[test]
fn fence_wait_without_a_pending_fence_is_no_error() {
    let mut manager = GpuFenceManager::new(at(0));
    assert!(manager.pending_fence().is_none());
    assert!(manager.wait_for_fence(WaitStatus::Signaled, at(1), at(2)).is_none());
    assert_eq!(manager.is_fence_signaled(WaitStatus::Signaled), None);
    assert_eq!(manager.total_waits(), 0);
    assert_eq!(manager.total_timeouts(), 0);
    assert!(manager.log_stats().is_none());
}

#[test]
fn fence_two_in_a_row_leave_one_pending_and_each_is_destroyed_once() {
    let mut driver = FakeDriver::new();
    let mut manager = GpuFenceManager::new(at(0));

    let first = driver.create_sync();
    let superseded = manager.create_fence(first, 7, 0, at(1)).unwrap();
    assert!(superseded.is_none());

    let second = driver.create_sync();
    let superseded = manager.create_fence(second, 7, 0, at(2)).unwrap();
    let old = superseded.unwrap();
    assert_eq!(old.sync(), first);
    assert_eq!(old.created_at(), at(1));
    driver.destroy(old);

    assert_eq!(manager.pending_fence().unwrap().sync(), second);
    assert_eq!(manager.total_fences_created(), 2);

    let last = manager.shutdown();
    driver.destroy(last.unwrap());
    assert_eq!(driver.destroyed, vec![first, second]);
}

#[test]
fn fence_creation_failure_is_an_error_and_changes_nothing() {
    let mut manager = GpuFenceManager::new(at(0));
    let pending = manager.create_fence(5, 1, 0, at(1)).unwrap();
    assert!(pending.is_none());
    let r = manager.create_fence(NO_SYNC, 1, 0x3003, at(2));
    assert_eq!(r.unwrap_err(), FenceError::CreationFailed { code: 0x3003 });
    assert_eq!(manager.total_fences_created(), 1);
    assert_eq!(manager.pending_fence().unwrap().sync(), 5);
    assert_eq!(GpuFence::create(NO_SYNC, 1, 12, at(0)).unwrap_err(), FenceError::CreationFailed { code: 12 });
    let fence = GpuFence::create(9, 4, 12, at(3)).unwrap();
    assert_eq!((fence.sync(), fence.display(), fence.created_at()), (9, 4, at(3)));
    assert_eq!(fence.age(at(10)), Span::from_millis(7));
    assert_eq!(fence.age(at(1)), Span::zero());
}

#[test]
fn fence_wait_consumes_the_fence_and_enters_the_statistics() {
    let mut manager = GpuFenceManager::new(at(0));
    manager.create_fence(11, 1, 0, at(1)).unwrap();
    assert_eq!(manager.is_fence_signaled(WaitStatus::TimedOut), Some(false));
    assert_eq!(manager.is_fence_signaled(WaitStatus::Signaled), Some(true));
    let (signaled, fence) = manager.wait_for_fence(WaitStatus::Signaled, at(10), at(14)).unwrap();
    assert!(signaled);
    assert_eq!(fence.sync(), 11);
    assert!(manager.pending_fence().is_none());
    assert!(manager.wait_for_fence(WaitStatus::Signaled, at(15), at(16)).is_none());

    manager.create_fence(12, 1, 0, at(20)).unwrap();
    let (signaled, fence) = manager.wait_for_fence(WaitStatus::TimedOut, at(20), at(30)).unwrap();
    assert!(!signaled);
    assert_eq!(fence.sync(), 12);

    let stats = manager.log_stats().unwrap();
    assert_eq!(stats.total_fences_created, 2);
    assert_eq!(stats.total_waits, 2);
    assert_eq!(stats.total_timeouts, 1);
    assert_eq!(stats.average_wait, Span::from_millis(7));
    assert_eq!(stats.max_wait_time, Span::from_millis(10));
}

#[test]
fn fence_timeouts_are_warned_of_at_most_every_five_seconds() {
    let mut manager = GpuFenceManager::new(at(0));
    manager.create_fence(1, 1, 0, at(0)).unwrap();
    manager.wait_for_fence(WaitStatus::TimedOut, at(4000), at(5000)).unwrap();
    assert_eq!(manager.last_timeout_log(), at(0));
    manager.create_fence(2, 1, 0, at(5000)).unwrap();
    manager.wait_for_fence(WaitStatus::TimedOut, at(5000), at(5001)).unwrap();
    assert_eq!(manager.last_timeout_log(), at(5001));
    manager.create_fence(3, 1, 0, at(5002)).unwrap();
    manager.wait_for_fence(WaitStatus::Unexpected(0x3000), at(5002), at(6000)).unwrap();
    assert_eq!(manager.last_timeout_log(), at(5001));
    assert_eq!(manager.total_timeouts(), 3);
    // A signaled wait moves nothing, however late.
    manager.create_fence(4, 1, 0, at(20_000)).unwrap();
    manager.wait_for_fence(WaitStatus::Signaled, at(20_000), at(20_001)).unwrap();
    assert_eq!(manager.last_timeout_log(), at(5001));
    assert_eq!(manager.last_stats_log(), at(0));
    manager.create_fence(5, 1, 0, at(60_000)).unwrap();
    manager.wait_for_fence(WaitStatus::Signaled, at(60_000), at(60_001)).unwrap();
    assert_eq!(manager.last_stats_log(), at(60_001));
}

#[test]
fn fence_status_words_are_read_as_the_driver_means_them() {
    assert_eq!(CONDITION_SATISFIED, 0x30F6);
    assert_eq!(TIMEOUT_EXPIRED, 0x30F5);
    assert_eq!(WaitStatus::from_raw(0x30F6), WaitStatus::Signaled);
    assert_eq!(WaitStatus::from_raw(0x30F5), WaitStatus::TimedOut);
    assert_eq!(WaitStatus::from_raw(0), WaitStatus::Unexpected(0));
    assert!(WaitStatus::Signaled.signaled());
    assert!(!WaitStatus::TimedOut.signaled());
    assert!(!WaitStatus::Unexpected(0x3008).signaled());
    let fence = GpuFence::create(1, 1, 0, at(0)).unwrap();
    assert!(fence.wait(WaitStatus::from_raw(CONDITION_SATISFIED)));
    assert!(!fence.wait(WaitStatus::from_raw(TIMEOUT_EXPIRED)));
    assert!(!fence.is_signaled(WaitStatus::from_raw(1)));
}
