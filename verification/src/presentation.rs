//! Presentation timing: the compositor's feedback on when frames were shown,
//! a running estimate of the refresh interval, and from the two the next
//! vsync and the moment at which to begin the next frame.

use crate::clock::{saturating_sum, Span, Timestamp, NANOS_PER_SEC, STATS_LOG_NANOS};
use crate::counter::{bump, bumped};
use vstd::prelude::*;

verus! {

/// The presentation was synchronized to the vertical retrace.
pub const VSYNC: u32 = 0x1;

/// The presentation time was measured by the display hardware's clock.
pub const HW_CLOCK: u32 = 0x2;

/// The display hardware signaled that it began to use the new image.
pub const HW_COMPLETION: u32 = 0x4;

/// The image was presented without a copy.
pub const ZERO_COPY: u32 = 0x8;

/// Every flag that is defined.
pub const ALL_FLAGS: u32 = 0xF;

/// The refresh rate assumed where none is given, in hertz.
pub const DEFAULT_REFRESH_HZ: u32 = 60;

/// The flags of one presentation feedback, as a set of bits.
#[derive(Debug, Clone, Copy, PartialEq, Eq, Hash, Structural)]
pub struct PresentationFlags {
    pub bits: u32,
}

impl PresentationFlags {
    /// The flag `VSYNC` alone.
    pub fn vsync() -> (f: PresentationFlags)
        ensures
            f.bits == VSYNC,
    {
        PresentationFlags { bits: VSYNC }
    }

    /// The flag `HW_CLOCK` alone.
    pub fn hw_clock() -> (f: PresentationFlags)
        ensures
            f.bits == HW_CLOCK,
    {
        PresentationFlags { bits: HW_CLOCK }
    }

    /// The flag `HW_COMPLETION` alone.
    pub fn hw_completion() -> (f: PresentationFlags)
        ensures
            f.bits == HW_COMPLETION,
    {
        PresentationFlags { bits: HW_COMPLETION }
    }

    /// The flag `ZERO_COPY` alone.
    pub fn zero_copy() -> (f: PresentationFlags)
        ensures
            f.bits == ZERO_COPY,
    {
        PresentationFlags { bits: ZERO_COPY }
    }

    /// No flag.
    pub fn empty() -> (f: PresentationFlags)
        ensures
            f.bits == 0,
    {
        PresentationFlags { bits: 0 }
    }

    /// The flags whose bits are set in `bits`; bits that are no flag are dropped.
    pub fn from_bits_truncate(bits: u32) -> (f: PresentationFlags)
        ensures
            f.bits == bits & ALL_FLAGS,
    {
        PresentationFlags { bits: bits & ALL_FLAGS }
    }

    pub fn bits(&self) -> (b: u32)
        ensures
            b == self.bits,
    {
        self.bits
    }

    /// Every flag of `other` is among these flags, as a model value.
    pub open spec fn has(self, other: PresentationFlags) -> bool {
        self.bits & other.bits == other.bits
    }

    /// Whether every flag of `other` is among these flags.
    pub fn contains(&self, other: PresentationFlags) -> (b: bool)
        ensures
            b == self.has(other),
    {
        self.bits & other.bits == other.bits
    }

    /// The flags of either.
    pub fn union(self, other: PresentationFlags) -> (f: PresentationFlags)
        ensures
            f.bits == self.bits | other.bits,
    {
        PresentationFlags { bits: self.bits | other.bits }
    }
}

/// The largest timestamp as a count of nanoseconds, or `n` where that is smaller.
pub open spec fn clamped(n: int) -> u64 {
    saturating_sum(n, 0)
}

/// One report of the compositor on a frame that was shown.
#[derive(Debug, Clone, Copy)]
pub struct PresentationFeedback {
    /// When the frame was presented.
    pub present_time: Timestamp,
    /// The refresh interval of the display at that time.
    pub refresh_interval: Span,
    pub flags: PresentationFlags,
}

impl PresentationFeedback {
    /// The feedback names a refresh interval, one that is not empty. A
    /// compositor may report none, as for a display that refreshes at no
    /// fixed rate.
    pub open spec fn has_interval(self) -> bool {
        self.refresh_interval.nanos > 0
    }

    /// The first moment after `now` that lies a whole number of refresh
    /// intervals, at least one, behind the presentation; the last moment the
    /// clock can show where that is beyond it. A feedback without a refresh
    /// interval has no such moments to offer: for it the result is `now`,
    /// or the presentation itself while that is still ahead.
    pub open spec fn next_vsync(self, now: Timestamp) -> Timestamp {
        let elapsed = now.since(self.present_time).nanos as int;
        let interval = self.refresh_interval.nanos as int;
        if interval > 0 {
            Timestamp {
                nanos: clamped(self.present_time.nanos + interval * (elapsed / interval + 1)),
            }
        } else if self.present_time.nanos > now.nanos {
            self.present_time
        } else {
            now
        }
    }

    /// When to begin the next frame so that `budget` is left until the next
    /// vsync; the vsync itself where that moment has passed at `now`.
    pub open spec fn render_start(self, budget: Span, now: Timestamp) -> Timestamp {
        let vsync = self.next_vsync(now);
        if vsync.nanos - budget.nanos < now.nanos {
            vsync
        } else {
            Timestamp { nanos: (vsync.nanos - budget.nanos) as u64 }
        }
    }

    /// Predicts the next vsync after `now` from this feedback.
    pub fn predict_next_vsync(&self, now: Timestamp) -> (t: Timestamp)
        ensures
            t == self.next_vsync(now),
    {
        let elapsed = now.duration_since(self.present_time).nanos;
        let interval = self.refresh_interval.nanos;
        if interval == 0 {
            return if self.present_time.nanos > now.nanos {
                self.present_time
            } else {
                now
            };
        }
        let intervals_passed = elapsed / interval;
        assert(interval * (intervals_passed + 1) <= elapsed + interval) by (nonlinear_arith)
            requires
                interval > 0,
                intervals_passed == elapsed / interval,
        ;
        let ahead: u128 = (interval as u128) * (intervals_passed as u128 + 1);
        let at: u128 = self.present_time.nanos as u128 + ahead;
        if at >= u64::MAX as u128 {
            Timestamp { nanos: u64::MAX }
        } else {
            Timestamp { nanos: at as u64 }
        }
    }

    /// The moment at which to begin the next frame, seen from `now`, when
    /// rendering takes `render_time_budget`.
    pub fn optimal_render_start(&self, render_time_budget: Span, now: Timestamp) -> (t: Timestamp)
        ensures
            t == self.render_start(render_time_budget, now),
    {
        let next_vsync = self.predict_next_vsync(now);
        if next_vsync.nanos < render_time_budget.nanos || next_vsync.nanos
            - render_time_budget.nanos < now.nanos {
            next_vsync
        } else {
            Timestamp { nanos: next_vsync.nanos - render_time_budget.nanos }
        }
    }
}

/// The running estimate of the refresh interval after an interval of
/// `measured` nanoseconds was observed: nine tenths of the estimate so far
/// and one tenth of the observation, rounded down to the nanosecond.
pub open spec fn smoothed(estimate: u64, measured: u64) -> u64 {
    ((9 * estimate + measured) / 10) as u64
}

/// The figures of a statistics report on the presentation.
#[derive(Debug, Clone, Copy, PartialEq, Eq, Structural)]
pub struct PresentationStats {
    pub total_feedbacks: usize,
    pub vsync_hits: usize,
    pub zero_copy_frames: usize,
    pub refresh_interval: Span,
}

/// The state of the presentation manager as a model value.
pub struct PresentationModel {
    /// The feedback that was recorded last.
    pub last_feedback: Option<PresentationFeedback>,
    pub estimated_refresh_interval: Span,
    pub total_feedbacks: usize,
    pub vsync_hits: usize,
    pub zero_copy_frames: usize,
    pub last_stats_log: Timestamp,
}

impl PresentationModel {
    /// The feedback to predict from: the one recorded last, where it
    /// names a refresh interval.
    pub open spec fn usable_feedback(self) -> Option<PresentationFeedback> {
        match self.last_feedback {
            Some(feedback) => if feedback.has_interval() {
                Some(feedback)
            } else {
                None
            },
            None => None,
        }
    }

    /// The manager as it starts at `now` for a display of `default_refresh_hz`.
    pub open spec fn fresh(default_refresh_hz: u32, now: Timestamp) -> PresentationModel {
        PresentationModel {
            last_feedback: None,
            estimated_refresh_interval: Span {
                nanos: (NANOS_PER_SEC as int / default_refresh_hz as int) as u64,
            },
            total_feedbacks: 0,
            vsync_hits: 0,
            zero_copy_frames: 0,
            last_stats_log: now,
        }
    }

    /// Whether a statistics report is due at `now`.
    pub open spec fn stats_due(self, now: Timestamp) -> bool {
        now.since(self.last_stats_log).nanos > STATS_LOG_NANOS
    }

    /// The manager after `feedback` was recorded at `now`.
    ///
    /// The feedback is counted, and counted again as a vsync hit and as a
    /// zero-copy frame where it carries those flags. From the second
    /// feedback on, the time between the last presentation and this one
    /// enters the estimate of the refresh interval. The feedback is kept in
    /// place of the last one.
    pub open spec fn after_feedback(self, feedback: PresentationFeedback, now: Timestamp) -> PresentationModel {
        PresentationModel {
            last_feedback: Some(feedback),
            estimated_refresh_interval: match self.last_feedback {
                Some(last) => Span {
                    nanos: smoothed(
                        self.estimated_refresh_interval.nanos,
                        feedback.present_time.since(last.present_time).nanos,
                    ),
                },
                None => self.estimated_refresh_interval,
            },
            total_feedbacks: bumped(self.total_feedbacks),
            vsync_hits: if feedback.flags.has(PresentationFlags { bits: VSYNC }) {
                bumped(self.vsync_hits)
            } else {
                self.vsync_hits
            },
            zero_copy_frames: if feedback.flags.has(PresentationFlags { bits: ZERO_COPY }) {
                bumped(self.zero_copy_frames)
            } else {
                self.zero_copy_frames
            },
            last_stats_log: if self.stats_due(now) {
                now
            } else {
                self.last_stats_log
            },
        }
    }

    /// The next vsync after `now`: predicted from the last feedback, or,
    /// where there is no feedback to predict from, one estimated refresh
    /// interval from `now`.
    pub open spec fn next_vsync(self, now: Timestamp) -> Timestamp {
        match self.usable_feedback() {
            Some(feedback) => feedback.next_vsync(now),
            None => now.after(self.estimated_refresh_interval),
        }
    }

    /// When to begin the next frame: as the last feedback has it, or,
    /// where there is no feedback to predict from, at once.
    pub open spec fn render_start(self, budget: Span, now: Timestamp) -> Timestamp {
        match self.usable_feedback() {
            Some(feedback) => feedback.render_start(budget, now),
            None => now,
        }
    }

    /// The report on the presentation.
    pub open spec fn report(self) -> PresentationStats {
        PresentationStats {
            total_feedbacks: self.total_feedbacks,
            vsync_hits: self.vsync_hits,
            zero_copy_frames: self.zero_copy_frames,
            refresh_interval: self.estimated_refresh_interval,
        }
    }
}

/// The manager of presentation timing.
pub struct PresentationManager {
    last_feedback: Option<PresentationFeedback>,
    estimated_refresh_interval: Span,
    total_feedbacks: usize,
    vsync_hits: usize,
    zero_copy_frames: usize,
    last_stats_log: Timestamp,
}

impl View for PresentationManager {
    type V = PresentationModel;

    closed spec fn view(&self) -> PresentationModel {
        PresentationModel {
            last_feedback: self.last_feedback,
            estimated_refresh_interval: self.estimated_refresh_interval,
            total_feedbacks: self.total_feedbacks,
            vsync_hits: self.vsync_hits,
            zero_copy_frames: self.zero_copy_frames,
            last_stats_log: self.last_stats_log,
        }
    }
}

impl PresentationManager {
    /// A manager that has seen no feedback yet. Until the first feedback the
    /// refresh interval is taken to be that of `default_refresh_hz`.
    pub fn new(default_refresh_hz: u32, now: Timestamp) -> (m: Self)
        requires
            default_refresh_hz > 0,
        ensures
            m@ == PresentationModel::fresh(default_refresh_hz, now),
    {
        PresentationManager {
            last_feedback: None,
            estimated_refresh_interval: Span { nanos: NANOS_PER_SEC / (default_refresh_hz as u64) },
            total_feedbacks: 0,
            vsync_hits: 0,
            zero_copy_frames: 0,
            last_stats_log: now,
        }
    }

    /// Records one feedback of the compositor at `now`, whatever it
    /// reports.
    pub fn record_feedback(&mut self, feedback: PresentationFeedback, now: Timestamp)
        ensures
            final(self)@ == old(self)@.after_feedback(feedback, now),
    {
        self.total_feedbacks = bump(self.total_feedbacks);
        if feedback.flags.contains(PresentationFlags::vsync()) {
            self.vsync_hits = bump(self.vsync_hits);
        }
        if feedback.flags.contains(PresentationFlags::zero_copy()) {
            self.zero_copy_frames = bump(self.zero_copy_frames);
        }
        match &self.last_feedback {
            Some(last) => {
                let measured = feedback.present_time.duration_since(last.present_time).nanos;
                let weighted: u128 = 9 * (self.estimated_refresh_interval.nanos as u128)
                    + measured as u128;
                self.estimated_refresh_interval = Span { nanos: (weighted / 10) as u64 };
            },
            None => {},
        }
        self.last_feedback = Some(feedback);
        if now.duration_since(self.last_stats_log).nanos > STATS_LOG_NANOS {
            self.last_stats_log = now;
        }
    }

    /// Predicts the next vsync after `now`.
    pub fn predict_next_vsync(&self, now: Timestamp) -> (t: Timestamp)
        ensures
            t == self@.next_vsync(now),
    {
        match self.usable() {
            Some(feedback) => feedback.predict_next_vsync(now),
            None => now.saturating_add(self.estimated_refresh_interval),
        }
    }

    /// The feedback to predict from: the one recorded last, where it
    /// names a refresh interval.
    fn usable(&self) -> (f: Option<PresentationFeedback>)
        ensures
            f == self@.usable_feedback(),
    {
        match self.last_feedback {
            Some(feedback) => if feedback.refresh_interval.nanos > 0 {
                Some(feedback)
            } else {
                None
            },
            None => None,
        }
    }

    /// The moment at which to begin the next frame, seen from `now`, when
    /// rendering takes `render_time_budget`.
    pub fn optimal_render_start(&self, render_time_budget: Span, now: Timestamp) -> (t: Timestamp)
        ensures
            t == self@.render_start(render_time_budget, now),
    {
        match self.usable() {
            Some(feedback) => feedback.optimal_render_start(render_time_budget, now),
            None => now,
        }
    }

    /// Whether the moment to begin the next frame has come at `now`.
    pub fn should_render_now(&self, render_time_budget: Span, now: Timestamp) -> (b: bool)
        ensures
            b == (now.nanos >= self@.render_start(render_time_budget, now).nanos),
    {
        now.nanos >= self.optimal_render_start(render_time_budget, now).nanos
    }

    /// The estimate of the refresh interval.
    pub fn refresh_interval(&self) -> (s: Span)
        ensures
            s == self@.estimated_refresh_interval,
    {
        self.estimated_refresh_interval
    }

    /// The feedback that was recorded last.
    pub fn last_feedback(&self) -> (f: Option<PresentationFeedback>)
        ensures
            f == self@.last_feedback,
    {
        self.last_feedback
    }

    pub fn total_feedbacks(&self) -> (n: usize)
        ensures
            n == self@.total_feedbacks,
    {
        self.total_feedbacks
    }

    pub fn vsync_hits(&self) -> (n: usize)
        ensures
            n == self@.vsync_hits,
    {
        self.vsync_hits
    }

    pub fn zero_copy_frames(&self) -> (n: usize)
        ensures
            n == self@.zero_copy_frames,
    {
        self.zero_copy_frames
    }

    /// When the last statistics report fell due.
    pub fn last_stats_log(&self) -> (t: Timestamp)
        ensures
            t == self@.last_stats_log,
    {
        self.last_stats_log
    }

    /// The figures to report on the presentation.
    pub fn log_stats(&self) -> (stats: PresentationStats)
        ensures
            stats == self@.report(),
    {
        PresentationStats {
            total_feedbacks: self.total_feedbacks,
            vsync_hits: self.vsync_hits,
            zero_copy_frames: self.zero_copy_frames,
            refresh_interval: self.estimated_refresh_interval,
        }
    }
}

/// The prediction from a feedback lies strictly after `now`, and not more
/// than one refresh interval after it once the presentation is past. Short
/// of the end of the clock it lies a whole number of refresh intervals, at
/// least one, behind the presentation.
pub proof fn lemma_next_vsync_follows_now(feedback: PresentationFeedback, now: Timestamp)
    requires
        feedback.has_interval(),
        now.nanos < u64::MAX,
    ensures
        feedback.next_vsync(now).nanos > now.nanos,
        feedback.present_time.nanos <= now.nanos ==> feedback.next_vsync(now).nanos - now.nanos
            <= feedback.refresh_interval.nanos,
        feedback.next_vsync(now).nanos < u64::MAX ==> {
            &&& feedback.next_vsync(now).nanos >= feedback.present_time.nanos
                + feedback.refresh_interval.nanos
            &&& (feedback.next_vsync(now).nanos - feedback.present_time.nanos)
                % (feedback.refresh_interval.nanos as int) == 0
        },
{
    let elapsed = now.since(feedback.present_time).nanos as int;
    let interval = feedback.refresh_interval.nanos as int;
    let k = elapsed / interval + 1;
    assert(elapsed < interval * k <= elapsed + interval) by (nonlinear_arith)
        requires
            interval > 0,
            elapsed >= 0,
            k == elapsed / interval + 1,
    ;
    assert(k >= 1) by (nonlinear_arith)
        requires
            interval > 0,
            elapsed >= 0,
            k == elapsed / interval + 1,
    ;
    assert((interval * k) % interval == 0 && interval * k >= interval) by (nonlinear_arith)
        requires
            interval > 0,
            k >= 1,
    ;
}

/// No prediction lies before `now`, whatever the feedback reports.
pub proof fn lemma_next_vsync_is_not_past(feedback: PresentationFeedback, now: Timestamp)
    ensures
        feedback.next_vsync(now).nanos >= now.nanos,
        !feedback.has_interval() && feedback.present_time.nanos <= now.nanos
            ==> feedback.next_vsync(now) == now,
{
    if feedback.has_interval() {
        if now.nanos < u64::MAX {
            lemma_next_vsync_follows_now(feedback, now);
        } else {
            let elapsed = now.since(feedback.present_time).nanos as int;
            let interval = feedback.refresh_interval.nanos as int;
            assert(interval * (elapsed / interval + 1) > elapsed) by (nonlinear_arith)
                requires
                    interval > 0,
                    elapsed >= 0,
            ;
        }
    }
}

/// The manager's prediction lies strictly after `now`, whether it comes from
/// a feedback that names a refresh interval or, without one, from an
/// estimate of the refresh interval that is not empty.
pub proof fn lemma_predicted_vsync_is_in_the_future(m: PresentationModel, now: Timestamp)
    requires
        now.nanos < u64::MAX,
        m.usable_feedback() is None ==> m.estimated_refresh_interval.nanos > 0,
    ensures
        m.next_vsync(now).nanos > now.nanos,
{
    if let Some(feedback) = m.usable_feedback() {
        lemma_next_vsync_follows_now(feedback, now);
    }
}

/// A feedback without a refresh interval is recorded like any other, and
/// the manager then predicts as before the first feedback: one estimated
/// interval from `now`, with rendering to begin at once.
pub proof fn lemma_feedback_without_interval(
    m: PresentationModel,
    feedback: PresentationFeedback,
    at: Timestamp,
    budget: Span,
    now: Timestamp,
)
    requires
        !feedback.has_interval(),
    ensures
        m.after_feedback(feedback, at).last_feedback == Some(feedback),
        m.after_feedback(feedback, at).next_vsync(now) == now.after(
            m.after_feedback(feedback, at).estimated_refresh_interval,
        ),
        m.after_feedback(feedback, at).render_start(budget, now) == now,
{
}

/// The moment to begin rendering is never after the vsync it aims at. It
/// leaves the whole budget before the vsync unless that moment has passed,
/// and then it is the vsync itself.
pub proof fn lemma_render_start_is_bounded(
    feedback: PresentationFeedback,
    budget: Span,
    now: Timestamp,
)
    ensures
        ({
            let vsync = feedback.next_vsync(now);
            let start = feedback.render_start(budget, now);
            &&& start.nanos <= vsync.nanos
            &&& start.nanos >= now.nanos || start == vsync
            &&& start.nanos + budget.nanos == vsync.nanos || start == vsync
        }),
{
}

/// Without a feedback to predict from, as before the first feedback, the
/// moment to begin rendering is always now, whatever the budget.
pub proof fn lemma_without_feedback_render_at_once(
    m: PresentationModel,
    budget: Span,
    now: Timestamp,
)
    requires
        m.usable_feedback() is None,
    ensures
        now.nanos >= m.render_start(budget, now).nanos,
{
}

/// The refresh interval that a manager starts with is the period of the
/// configured rate, rounded down to the nanosecond.
pub proof fn lemma_fresh_interval_is_the_configured_period(default_refresh_hz: u32, now: Timestamp)
    requires
        default_refresh_hz > 0,
    ensures
        ({
            let interval = PresentationModel::fresh(
                default_refresh_hz,
                now,
            ).estimated_refresh_interval.nanos;
            default_refresh_hz * interval <= NANOS_PER_SEC < default_refresh_hz * (interval + 1)
        }),
{
    let hz = default_refresh_hz as int;
    let interval = NANOS_PER_SEC as int / hz;
    assert(hz * interval <= NANOS_PER_SEC < hz * (interval + 1)) by (nonlinear_arith)
        requires
            hz > 0,
            interval == NANOS_PER_SEC as int / hz,
    ;
}

/// Each observation moves the estimate of the refresh interval towards what
/// was observed and never beyond it: of the distance between the two, nine
/// tenths are left, but for the rounding. An estimate that equals the
/// observation stays.
pub proof fn lemma_smoothing_converges(estimate: u64, measured: u64)
    ensures
        estimate >= measured ==> {
            &&& measured <= smoothed(estimate, measured) <= estimate
            &&& 10 * (smoothed(estimate, measured) - measured) <= 9 * (estimate - measured)
        },
        estimate <= measured ==> {
            &&& estimate <= smoothed(estimate, measured) <= measured
            &&& 10 * (measured - smoothed(estimate, measured)) <= 9 * (measured - estimate) + 9
        },
        estimate == measured ==> smoothed(estimate, measured) == measured,
{
}

} // verus!
