//! The bookkeeping around GPU completion fences.
//!
//! A fence is a sync object of the graphics driver that is signaled once the
//! GPU has finished everything submitted before it. The driver is not called
//! from here: whoever drives the manager creates, waits for and destroys the
//! sync objects, and tells the manager what the driver answered. The manager
//! decides what those answers mean, keeps the one fence that is pending, and
//! hands back every fence it lets go of, so that each can be destroyed once.

use crate::clock::{Span, Timestamp, STATS_LOG_NANOS};
use crate::counter::{bump, bumped};
use vstd::prelude::*;

verus! {

/// The handle that the driver returns where it could not create a sync object.
pub const NO_SYNC: u64 = 0;

/// The kind of sync object to ask the driver for: a fence.
pub const SYNC_FENCE: u32 = 0x30F9;

/// The flag to wait with: flush the pending commands first.
pub const SYNC_FLUSH_COMMANDS_BIT: u32 = 0x0001;

/// The driver's status for a wait that ended because the fence was signaled.
pub const CONDITION_SATISFIED: u32 = 0x30F6;

/// The driver's status for a wait that ended because the time was up.
pub const TIMEOUT_EXPIRED: u32 = 0x30F5;

/// A timeout warning is due only when more than this many nanoseconds have
/// passed since the last one.
pub const TIMEOUT_WARNING_NANOS: u64 = 5_000_000_000;

/// Why no fence came about.
#[derive(Debug, Clone, Copy, PartialEq, Eq, Structural)]
pub enum FenceError {
    /// The driver returned no sync object; `code` is the error it reported.
    CreationFailed { code: u32 },
}

/// How a wait for a sync object ended.
#[derive(Debug, Clone, Copy, PartialEq, Eq, Structural)]
pub enum WaitStatus {
    /// The GPU has finished the work before the fence.
    Signaled,
    /// The time was up first.
    TimedOut,
    /// The driver answered with a status that is neither of the two.
    Unexpected(u32),
}

impl WaitStatus {
    /// The meaning of the driver's status word.
    pub open spec fn of_raw(status: u32) -> WaitStatus {
        if status == CONDITION_SATISFIED {
            WaitStatus::Signaled
        } else if status == TIMEOUT_EXPIRED {
            WaitStatus::TimedOut
        } else {
            WaitStatus::Unexpected(status)
        }
    }

    /// Reads the driver's status word.
    pub fn from_raw(status: u32) -> (s: WaitStatus)
        ensures
            s == WaitStatus::of_raw(status),
    {
        if status == CONDITION_SATISFIED {
            WaitStatus::Signaled
        } else if status == TIMEOUT_EXPIRED {
            WaitStatus::TimedOut
        } else {
            WaitStatus::Unexpected(status)
        }
    }

    /// Whether the wait found the fence signaled. A wait that ended in any
    /// other way counts as one whose time was up.
    pub fn signaled(&self) -> (b: bool)
        ensures
            b == (*self == WaitStatus::Signaled),
    {
        match self {
            WaitStatus::Signaled => true,
            _ => false,
        }
    }
}

/// A fence as a model value.
pub struct FenceModel {
    /// The driver's handle of the sync object.
    pub sync: u64,
    /// The driver's handle of the display that the sync object belongs to.
    pub display: u64,
    /// When the fence was created.
    pub created_at: Timestamp,
}

/// A GPU completion fence: the driver's sync object and when it was created.
///
/// A fence cannot be copied. Whoever holds it last destroys the sync object.
#[derive(Debug)]
pub struct GpuFence {
    sync: u64,
    display: u64,
    created_at: Timestamp,
}

impl View for GpuFence {
    type V = FenceModel;

    closed spec fn view(&self) -> FenceModel {
        FenceModel { sync: self.sync, display: self.display, created_at: self.created_at }
    }
}

impl GpuFence {
    /// Makes a fence of what the driver returned at `now` when asked for a
    /// sync object on `display`: of the handle `sync`, or, where that is
    /// `NO_SYNC`, of the error `error` that the driver reported.
    pub fn create(sync: u64, display: u64, error: u32, now: Timestamp) -> (r: Result<
        GpuFence,
        FenceError,
    >)
        ensures
            match r {
                Ok(fence) => sync != NO_SYNC && fence@ == (FenceModel {
                    sync,
                    display,
                    created_at: now,
                }),
                Err(e) => sync == NO_SYNC && e == (FenceError::CreationFailed { code: error }),
            },
    {
        if sync == NO_SYNC {
            Err(FenceError::CreationFailed { code: error })
        } else {
            Ok(GpuFence { sync, display, created_at: now })
        }
    }

    /// The driver's handle of the sync object.
    pub fn sync(&self) -> (h: u64)
        ensures
            h == self@.sync,
    {
        self.sync
    }

    /// The driver's handle of the display.
    pub fn display(&self) -> (h: u64)
        ensures
            h == self@.display,
    {
        self.display
    }

    /// When the fence was created.
    pub fn created_at(&self) -> (t: Timestamp)
        ensures
            t == self@.created_at,
    {
        self.created_at
    }

    /// Whether a wait for this fence that ended with `status` found it
    /// signaled.
    pub fn wait(&self, status: WaitStatus) -> (signaled: bool)
        ensures
            signaled == (status == WaitStatus::Signaled),
    {
        status.signaled()
    }

    /// Whether a poll of this fence, a wait with no time allowed, that
    /// ended with `status` found it signaled.
    pub fn is_signaled(&self, status: WaitStatus) -> (signaled: bool)
        ensures
            signaled == (status == WaitStatus::Signaled),
    {
        self.wait(status)
    }

    /// How old the fence is at `now`.
    pub fn age(&self, now: Timestamp) -> (s: Span)
        ensures
            s == now.since(self@.created_at),
    {
        now.duration_since(self.created_at)
    }
}

/// The figures of a statistics report on the fences.
#[derive(Debug, Clone, Copy, PartialEq, Eq, Structural)]
pub struct FenceStats {
    pub total_fences_created: usize,
    pub total_waits: usize,
    pub total_timeouts: usize,
    /// The total time waited, shared out evenly among the waits.
    pub average_wait: Span,
    pub max_wait_time: Span,
}

/// The state of the fence manager as a model value.
pub struct FenceManagerModel {
    /// The fence that is pending, if one is.
    pub pending_fence: Option<FenceModel>,
    pub total_fences_created: usize,
    pub total_waits: usize,
    pub total_timeouts: usize,
    pub total_wait_time: Span,
    pub max_wait_time: Span,
    pub last_timeout_log: Timestamp,
    pub last_stats_log: Timestamp,
}

/// The fences that an optional fence stands for: one or none.
pub open spec fn fences_of(fence: Option<FenceModel>) -> Seq<FenceModel> {
    match fence {
        Some(f) => seq![f],
        None => Seq::empty(),
    }
}

impl FenceManagerModel {
    /// The manager as it starts at `now`.
    pub open spec fn fresh(now: Timestamp) -> FenceManagerModel {
        FenceManagerModel {
            pending_fence: None,
            total_fences_created: 0,
            total_waits: 0,
            total_timeouts: 0,
            total_wait_time: Span { nanos: 0 },
            max_wait_time: Span { nanos: 0 },
            last_timeout_log: now,
            last_stats_log: now,
        }
    }

    /// The manager after the driver returned `sync` at `now`: a sync object
    /// becomes the pending fence and is counted; without one nothing changes.
    pub open spec fn after_create(self, sync: u64, display: u64, now: Timestamp) -> FenceManagerModel {
        if sync == NO_SYNC {
            self
        } else {
            FenceManagerModel {
                pending_fence: Some(FenceModel { sync, display, created_at: now }),
                total_fences_created: bumped(self.total_fences_created),
                ..self
            }
        }
    }

    /// The fence that a new sync object `sync` takes the place of.
    pub open spec fn superseded_by(self, sync: u64) -> Option<FenceModel> {
        if sync == NO_SYNC {
            None
        } else {
            self.pending_fence
        }
    }

    /// Whether a timeout at `now` calls for a warning.
    pub open spec fn timeout_warning_due(self, now: Timestamp) -> bool {
        now.since(self.last_timeout_log).nanos > TIMEOUT_WARNING_NANOS
    }

    /// Whether a statistics report is due at `now`.
    pub open spec fn stats_due(self, now: Timestamp) -> bool {
        now.since(self.last_stats_log).nanos > STATS_LOG_NANOS
    }

    /// The manager after a wait for the pending fence that began at
    /// `started` and ended at `now` with `status`. Without a pending fence
    /// nothing changes.
    pub open spec fn after_wait(self, status: WaitStatus, started: Timestamp, now: Timestamp) -> FenceManagerModel {
        if self.pending_fence is None {
            self
        } else {
            let timed_out = status != WaitStatus::Signaled;
            let wait_time = now.since(started);
            FenceManagerModel {
                pending_fence: None,
                total_fences_created: self.total_fences_created,
                total_waits: bumped(self.total_waits),
                total_timeouts: if timed_out {
                    bumped(self.total_timeouts)
                } else {
                    self.total_timeouts
                },
                total_wait_time: Span {
                    nanos: crate::clock::saturating_sum(
                        self.total_wait_time.nanos as int,
                        wait_time.nanos as int,
                    ),
                },
                max_wait_time: if wait_time.nanos > self.max_wait_time.nanos {
                    wait_time
                } else {
                    self.max_wait_time
                },
                last_timeout_log: if timed_out && self.timeout_warning_due(now) {
                    now
                } else {
                    self.last_timeout_log
                },
                last_stats_log: if self.stats_due(now) {
                    now
                } else {
                    self.last_stats_log
                },
            }
        }
    }

    /// The report on the fences; there is none before the first wait.
    pub open spec fn report(self) -> Option<FenceStats> {
        if self.total_waits == 0 {
            None
        } else {
            Some(
                FenceStats {
                    total_fences_created: self.total_fences_created,
                    total_waits: self.total_waits,
                    total_timeouts: self.total_timeouts,
                    average_wait: Span {
                        nanos: (self.total_wait_time.nanos as int / self.total_waits as int) as u64,
                    },
                    max_wait_time: self.max_wait_time,
                },
            )
        }
    }
}

/// The manager of the pending fence, with statistics on the waits.
pub struct GpuFenceManager {
    pending_fence: Option<GpuFence>,
    total_fences_created: usize,
    total_waits: usize,
    total_timeouts: usize,
    total_wait_time: Span,
    max_wait_time: Span,
    last_timeout_log: Timestamp,
    last_stats_log: Timestamp,
}

/// An optional fence as a model value.
pub open spec fn fence_view(fence: Option<GpuFence>) -> Option<FenceModel> {
    match fence {
        Some(f) => Some(f@),
        None => None,
    }
}

impl View for GpuFenceManager {
    type V = FenceManagerModel;

    closed spec fn view(&self) -> FenceManagerModel {
        FenceManagerModel {
            pending_fence: fence_view(self.pending_fence),
            total_fences_created: self.total_fences_created,
            total_waits: self.total_waits,
            total_timeouts: self.total_timeouts,
            total_wait_time: self.total_wait_time,
            max_wait_time: self.max_wait_time,
            last_timeout_log: self.last_timeout_log,
            last_stats_log: self.last_stats_log,
        }
    }
}

impl GpuFenceManager {
    /// A manager without a pending fence that has seen no wait yet.
    pub fn new(now: Timestamp) -> (m: Self)
        ensures
            m@ == FenceManagerModel::fresh(now),
    {
        GpuFenceManager {
            pending_fence: None,
            total_fences_created: 0,
            total_waits: 0,
            total_timeouts: 0,
            total_wait_time: Span::zero(),
            max_wait_time: Span::zero(),
            last_timeout_log: now,
            last_stats_log: now,
        }
    }

    /// Takes up what the driver returned at `now` when asked for a fence
    /// behind the commands submitted so far.
    ///
    /// A sync object becomes the pending fence and is counted; the fence
    /// that was pending until then is handed back, to be destroyed. Where
    /// the driver returned `NO_SYNC`, the result is the error with the code
    /// that the driver reported, and the manager stays as it was.
    pub fn create_fence(&mut self, sync: u64, display: u64, error: u32, now: Timestamp) -> (r:
        Result<Option<GpuFence>, FenceError>)
        ensures
            final(self)@ == old(self)@.after_create(sync, display, now),
            match r {
                Ok(superseded) => sync != NO_SYNC && fence_view(superseded)
                    == old(self)@.pending_fence,
                Err(e) => sync == NO_SYNC && e == (FenceError::CreationFailed { code: error }),
            },
    {
        match GpuFence::create(sync, display, error, now) {
            Ok(fence) => {
                let superseded = self.pending_fence.take();
                self.pending_fence = Some(fence);
                self.total_fences_created = bump(self.total_fences_created);
                Ok(superseded)
            },
            Err(e) => Err(e),
        }
    }

    /// The fence that is pending, for the driver to wait on.
    pub fn pending_fence(&self) -> (fence: Option<&GpuFence>)
        ensures
            match fence {
                Some(f) => self@.pending_fence == Some(f@),
                None => self@.pending_fence is None,
            },
    {
        self.pending_fence.as_ref()
    }

    /// Records a wait for the pending fence that began at `started` and
    /// ended at `now` with `status`.
    ///
    /// Without a pending fence the result is `None` and the manager stays as
    /// it was. Otherwise the fence is no longer pending and is handed back,
    /// to be destroyed, together with whether it was found signaled. The
    /// wait enters the statistics; one that did not find the fence signaled
    /// counts as a timeout, and the time of the last timeout warning moves
    /// to `now` where more than five seconds have passed since. The time of
    /// the last report moves to `now` where more than a minute has passed.
    pub fn wait_for_fence(&mut self, status: WaitStatus, started: Timestamp, now: Timestamp) -> (r:
        Option<(bool, GpuFence)>)
        ensures
            final(self)@ == old(self)@.after_wait(status, started, now),
            match r {
                Some((signaled, fence)) => {
                    &&& old(self)@.pending_fence == Some(fence@)
                    &&& signaled == (status == WaitStatus::Signaled)
                },
                None => old(self)@.pending_fence is None,
            },
    {
        let fence = match self.pending_fence.take() {
            Some(fence) => fence,
            None => {
                return None;
            },
        };
        let signaled = fence.wait(status);
        let wait_time = now.duration_since(started);
        self.total_waits = bump(self.total_waits);
        self.total_wait_time = self.total_wait_time.saturating_add(wait_time);
        if wait_time.nanos > self.max_wait_time.nanos {
            self.max_wait_time = wait_time;
        }
        if !signaled {
            self.total_timeouts = bump(self.total_timeouts);
            if now.duration_since(self.last_timeout_log).nanos > TIMEOUT_WARNING_NANOS {
                self.last_timeout_log = now;
            }
        }
        if now.duration_since(self.last_stats_log).nanos > STATS_LOG_NANOS {
            self.last_stats_log = now;
        }
        Some((signaled, fence))
    }

    /// Whether a poll of the pending fence that ended with `status` found it
    /// signaled; `None` without a pending fence.
    pub fn is_fence_signaled(&self, status: WaitStatus) -> (r: Option<bool>)
        ensures
            r == if self@.pending_fence is Some {
                Some(status == WaitStatus::Signaled)
            } else {
                None
            },
    {
        match &self.pending_fence {
            Some(fence) => Some(fence.is_signaled(status)),
            None => None,
        }
    }

    /// Ends the manager: the fence that is still pending is handed back, to
    /// be destroyed.
    pub fn shutdown(self) -> (fence: Option<GpuFence>)
        ensures
            fence_view(fence) == self@.pending_fence,
    {
        self.pending_fence
    }

    pub fn total_fences_created(&self) -> (n: usize)
        ensures
            n == self@.total_fences_created,
    {
        self.total_fences_created
    }

    pub fn total_waits(&self) -> (n: usize)
        ensures
            n == self@.total_waits,
    {
        self.total_waits
    }

    pub fn total_timeouts(&self) -> (n: usize)
        ensures
            n == self@.total_timeouts,
    {
        self.total_timeouts
    }

    /// When the last timeout warning fell due.
    pub fn last_timeout_log(&self) -> (t: Timestamp)
        ensures
            t == self@.last_timeout_log,
    {
        self.last_timeout_log
    }

    /// When the last statistics report fell due.
    pub fn last_stats_log(&self) -> (t: Timestamp)
        ensures
            t == self@.last_stats_log,
    {
        self.last_stats_log
    }

    /// The figures to report on the fences; none before the first wait.
    pub fn log_stats(&self) -> (stats: Option<FenceStats>)
        ensures
            stats == self@.report(),
    {
        if self.total_waits == 0 {
            return None;
        }
        Some(
            FenceStats {
                total_fences_created: self.total_fences_created,
                total_waits: self.total_waits,
                total_timeouts: self.total_timeouts,
                average_wait: Span { nanos: self.total_wait_time.nanos / (self.total_waits as u64) },
                max_wait_time: self.max_wait_time,
            },
        )
    }
}

/// No fence is lost or doubled when a new one is taken up: the fence that
/// was pending and the new one are, in this order, the fence handed back and
/// the fence that is pending afterwards.
pub proof fn lemma_create_conserves_fences(
    m: FenceManagerModel,
    sync: u64,
    display: u64,
    now: Timestamp,
)
    requires
        sync != NO_SYNC,
    ensures
        fences_of(m.pending_fence) + seq![FenceModel { sync, display, created_at: now }]
            =~= fences_of(m.superseded_by(sync)) + fences_of(
            m.after_create(sync, display, now).pending_fence,
        ),
{
}

/// A wait leaves no fence pending, and changes nothing when none was.
pub proof fn lemma_wait_consumes_the_pending_fence(
    m: FenceManagerModel,
    status: WaitStatus,
    started: Timestamp,
    now: Timestamp,
)
    ensures
        m.after_wait(status, started, now).pending_fence is None,
        m.pending_fence is None ==> m.after_wait(status, started, now) == m,
{
}

/// Two fences taken up in a row by a manager that had none pending: the
/// first is handed back when the second arrives, the second is the one
/// pending, and both have been counted. Together with the fence that the end
/// of the manager hands back, each of the two leaves the manager once.
pub proof fn lemma_two_fences_in_a_row(
    m: FenceManagerModel,
    first: u64,
    second: u64,
    display: u64,
    t1: Timestamp,
    t2: Timestamp,
)
    requires
        m.pending_fence is None,
        first != NO_SYNC,
        second != NO_SYNC,
    ensures
        ({
            let m1 = m.after_create(first, display, t1);
            let m2 = m1.after_create(second, display, t2);
            let one = FenceModel { sync: first, display, created_at: t1 };
            let two = FenceModel { sync: second, display, created_at: t2 };
            &&& m.superseded_by(first) is None
            &&& m1.superseded_by(second) == Some(one)
            &&& m2.pending_fence == Some(two)
            &&& fences_of(m.superseded_by(first)) + fences_of(m1.superseded_by(second))
                + fences_of(m2.pending_fence) =~= seq![one, two]
            &&& m.total_fences_created < usize::MAX - 1 ==> m2.total_fences_created
                == m.total_fences_created + 2
        }),
{
}

} // verus!
