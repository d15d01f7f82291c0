//! The rotation of three presentation buffers.
//!
//! Each buffer goes round the cycle Available, Rendering, Queued, Displayed
//! and back to Available. With three of them the renderer, the GPU and the
//! compositor can each hold one, so that under normal load the renderer never
//! waits for the other two.

use crate::clock::{Span, Timestamp, STATS_LOG_NANOS};
use crate::counter::{bump, bumped};
use vstd::prelude::*;

verus! {

/// The number of presentation buffers.
pub const BUFFER_COUNT: usize = 3;

/// A starvation warning is due only when more than this many nanoseconds
/// have passed since the last one.
pub const STARVATION_WARNING_NANOS: u64 = 1_000_000_000;

/// Where a presentation buffer is in its cycle.
#[derive(Debug, Clone, Copy, PartialEq, Eq, Structural)]
pub enum BufferState {
    /// Free to be rendered into.
    Available,
    /// Being rendered into.
    Rendering,
    /// Handed to the compositor, not yet shown.
    Queued,
    /// Being shown by the compositor.
    Displayed,
}

/// What is recorded of one presentation buffer.
#[derive(Debug, Clone, Copy)]
pub struct BufferMetadata {
    /// The buffer's number: 0, 1 or 2.
    pub id: usize,
    /// Where the buffer is in its cycle.
    pub state: BufferState,
    /// When the buffer entered that state.
    pub state_changed: Timestamp,
    /// How many times the buffer has been taken for rendering.
    pub use_count: usize,
}

impl BufferMetadata {
    /// A buffer that has never been used, available since `now`.
    pub open spec fn fresh(id: usize, now: Timestamp) -> BufferMetadata {
        BufferMetadata { id, state: BufferState::Available, state_changed: now, use_count: 0 }
    }

    /// This buffer after it entered `state` at `now`: each entry into
    /// Rendering counts as one use.
    pub open spec fn moved_to(self, state: BufferState, now: Timestamp) -> BufferMetadata {
        BufferMetadata {
            id: self.id,
            state,
            state_changed: now,
            use_count: if state == BufferState::Rendering {
                bumped(self.use_count)
            } else {
                self.use_count
            },
        }
    }

    pub fn new(id: usize, now: Timestamp) -> (b: BufferMetadata)
        ensures
            b == BufferMetadata::fresh(id, now),
    {
        BufferMetadata { id, state: BufferState::Available, state_changed: now, use_count: 0 }
    }

    /// Enters `new_state` at `now`.
    pub fn transition_to(&mut self, new_state: BufferState, now: Timestamp)
        ensures
            *final(self) == old(self).moved_to(new_state, now),
    {
        self.state = new_state;
        self.state_changed = now;
        if new_state == BufferState::Rendering {
            self.use_count = bump(self.use_count);
        }
    }

    /// How long the buffer has been in its state at `now`.
    pub fn time_in_state(&self, now: Timestamp) -> (s: Span)
        ensures
            s == now.since(self.state_changed),
    {
        now.duration_since(self.state_changed)
    }
}

/// The state of the rotation as a model value.
pub struct RotationModel {
    pub buffers: Seq<BufferMetadata>,
    pub current_buffer: usize,
    pub total_frames: usize,
    pub buffer_starvation_count: usize,
    pub last_stats_log: Timestamp,
    pub last_starvation_warning: Timestamp,
}

impl RotationModel {
    /// There are three buffers, numbered by their place, and the current
    /// buffer is one of them.
    pub open spec fn wf(self) -> bool {
        &&& self.buffers.len() == BUFFER_COUNT
        &&& forall|i: int| 0 <= i < BUFFER_COUNT ==> (#[trigger] self.buffers[i]).id == i
        &&& self.current_buffer < BUFFER_COUNT
    }

    /// The rotation as it starts at `now`: every buffer available and unused.
    pub open spec fn fresh(now: Timestamp) -> RotationModel {
        RotationModel {
            buffers: Seq::new(
                BUFFER_COUNT as nat,
                |i: int| BufferMetadata::fresh(i as usize, now),
            ),
            current_buffer: 0,
            total_frames: 0,
            buffer_starvation_count: 0,
            last_stats_log: now,
            last_starvation_warning: now,
        }
    }

    /// Buffer `i` is available, and no buffer before it is.
    pub open spec fn is_first_available(self, i: int) -> bool {
        &&& 0 <= i < self.buffers.len()
        &&& self.buffers[i].state == BufferState::Available
        &&& forall|j: int| 0 <= j < i ==> self.buffers[j].state != BufferState::Available
    }

    /// The first buffer that is available.
    pub open spec fn first_available(self) -> Option<int> {
        if exists|i: int| self.is_first_available(i) {
            Some(choose|i: int| self.is_first_available(i))
        } else {
            None
        }
    }

    /// Buffer `i` is queued, no queued buffer has been so for longer at
    /// `now`, and every queued buffer behind it for a shorter time.
    pub open spec fn is_longest_queued(self, now: Timestamp, i: int) -> bool {
        &&& 0 <= i < self.buffers.len()
        &&& self.buffers[i].state == BufferState::Queued
        &&& forall|j: int|
            0 <= j < self.buffers.len() && self.buffers[j].state == BufferState::Queued
                ==> now.since(self.buffers[j].state_changed).nanos <= now.since(
                self.buffers[i].state_changed,
            ).nanos
        &&& forall|j: int|
            i < j < self.buffers.len() && self.buffers[j].state == BufferState::Queued
                ==> now.since(self.buffers[j].state_changed).nanos < now.since(
                self.buffers[i].state_changed,
            ).nanos
    }

    /// The queued buffer that has been queued for the longest time at `now`;
    /// of several that have been so equally long, the last.
    pub open spec fn longest_queued(self, now: Timestamp) -> Option<int> {
        if exists|i: int| self.is_longest_queued(now, i) {
            Some(choose|i: int| self.is_longest_queued(now, i))
        } else {
            None
        }
    }

    /// The rotation with buffer `i` moved into `state` at `now`.
    pub open spec fn with_buffer_in(self, i: int, state: BufferState, now: Timestamp) -> RotationModel {
        RotationModel { buffers: self.buffers.update(i, self.buffers[i].moved_to(state, now)), ..self }
    }

    /// The rotation after a request for a buffer at `now` that found none
    /// available: the starvation is counted, and the time of the last
    /// warning moves to `now` where more than a second has passed since.
    pub open spec fn starved(self, now: Timestamp) -> RotationModel {
        RotationModel {
            buffer_starvation_count: bumped(self.buffer_starvation_count),
            last_starvation_warning: if now.since(self.last_starvation_warning).nanos
                > STARVATION_WARNING_NANOS {
                now
            } else {
                self.last_starvation_warning
            },
            ..self
        }
    }

    /// The rotation after a request for a buffer at `now`.
    pub open spec fn after_acquire(self, now: Timestamp) -> RotationModel {
        match self.first_available() {
            Some(i) => RotationModel {
                current_buffer: i as usize,
                total_frames: bumped(self.total_frames),
                ..self.with_buffer_in(i, BufferState::Rendering, now)
            },
            None => match self.longest_queued(now) {
                Some(i) => RotationModel {
                    current_buffer: i as usize,
                    ..self.starved(now).with_buffer_in(i, BufferState::Rendering, now)
                },
                None => self.starved(now),
            },
        }
    }

    /// The buffer that a request at `now` is given: the first available one;
    /// where none is available, the one that has been queued longest; where
    /// none is queued either, none.
    pub open spec fn acquired(self, now: Timestamp) -> Option<usize> {
        match self.first_available() {
            Some(i) => Some(i as usize),
            None => match self.longest_queued(now) {
                Some(i) => Some(i as usize),
                None => None,
            },
        }
    }

    /// The rotation after the current buffer was queued at `now`.
    pub open spec fn after_queue(self, now: Timestamp) -> RotationModel {
        self.with_buffer_in(self.current_buffer as int, BufferState::Queued, now)
    }

    /// The rotation after the notice at `now` that buffer `id` is shown: a
    /// number that names no buffer changes nothing.
    pub open spec fn after_displayed(self, id: usize, now: Timestamp) -> RotationModel {
        if id < BUFFER_COUNT {
            self.with_buffer_in(id as int, BufferState::Displayed, now)
        } else {
            self
        }
    }

    /// The rotation after the notice at `now` that the compositor is done
    /// with buffer `id`: a number that names no buffer changes nothing.
    pub open spec fn after_release(self, id: usize, now: Timestamp) -> RotationModel {
        if id < BUFFER_COUNT {
            self.with_buffer_in(id as int, BufferState::Available, now)
        } else {
            self
        }
    }

    /// Whether a statistics report is due at `now`.
    pub open spec fn stats_due(self, now: Timestamp) -> bool {
        now.since(self.last_stats_log).nanos > STATS_LOG_NANOS
    }

    /// The report on this rotation; there is none before the first frame.
    pub open spec fn report(self) -> Option<RotationStats> {
        if self.total_frames == 0 {
            None
        } else {
            Some(
                RotationStats {
                    total_frames: self.total_frames,
                    buffer_starvation_count: self.buffer_starvation_count,
                    use_counts: (
                        self.buffers[0].use_count,
                        self.buffers[1].use_count,
                        self.buffers[2].use_count,
                    ),
                    states: (self.buffers[0].state, self.buffers[1].state, self.buffers[2].state),
                },
            )
        }
    }
}

/// The figures of a statistics report on the rotation.
#[derive(Debug, Clone, Copy)]
pub struct RotationStats {
    /// Frames for which an available buffer was found.
    pub total_frames: usize,
    /// Requests that found no buffer available.
    pub buffer_starvation_count: usize,
    /// How often each of the three buffers was taken for rendering.
    pub use_counts: (usize, usize, usize),
    /// The state of each of the three buffers.
    pub states: (BufferState, BufferState, BufferState),
}

/// The manager of the three presentation buffers.
pub struct TripleBufferManager {
    buffers: [BufferMetadata; 3],
    current_buffer: usize,
    total_frames: usize,
    buffer_starvation_count: usize,
    last_stats_log: Timestamp,
    last_starvation_warning: Timestamp,
}

impl View for TripleBufferManager {
    type V = RotationModel;

    closed spec fn view(&self) -> RotationModel {
        RotationModel {
            buffers: self.buffers@,
            current_buffer: self.current_buffer,
            total_frames: self.total_frames,
            buffer_starvation_count: self.buffer_starvation_count,
            last_stats_log: self.last_stats_log,
            last_starvation_warning: self.last_starvation_warning,
        }
    }
}

impl TripleBufferManager {
    /// A manager whose three buffers are available and unused since `now`.
    pub fn new(now: Timestamp) -> (m: Self)
        ensures
            m@ == RotationModel::fresh(now),
            m@.wf(),
    {
        let m = TripleBufferManager {
            buffers: [
                BufferMetadata::new(0, now),
                BufferMetadata::new(1, now),
                BufferMetadata::new(2, now),
            ],
            current_buffer: 0,
            total_frames: 0,
            buffer_starvation_count: 0,
            last_stats_log: now,
            last_starvation_warning: now,
        };
        assert(m@.buffers =~= RotationModel::fresh(now).buffers);
        m
    }

    /// Takes a buffer for rendering at `now`.
    ///
    /// The first available buffer enters Rendering, becomes the current
    /// buffer and counts as a frame. Where none is available the starvation
    /// is counted, and the buffer that has been queued longest is taken
    /// instead; where none is queued either, the result is `None` and the
    /// frame is to be skipped.
    pub fn acquire_buffer(&mut self, now: Timestamp) -> (r: Option<usize>)
        requires
            old(self)@.wf(),
        ensures
            final(self)@.wf(),
            final(self)@ == old(self)@.after_acquire(now),
            r == old(self)@.acquired(now),
            r matches Some(id) ==> id < BUFFER_COUNT && final(self)@.buffers[id as int].state
                == BufferState::Rendering && final(self)@.current_buffer == id,
    {
        let mut idx: usize = 0;
        while idx < BUFFER_COUNT
            invariant
                idx <= BUFFER_COUNT,
                *self == *old(self),
                self@.wf(),
                forall|j: int| 0 <= j < idx ==> self@.buffers[j].state != BufferState::Available,
            decreases BUFFER_COUNT - idx,
        {
            if self.buffers[idx].state == BufferState::Available {
                proof {
                    lemma_first_available(self@, idx as int);
                }
                self.buffers[idx].transition_to(BufferState::Rendering, now);
                self.current_buffer = idx;
                self.total_frames = bump(self.total_frames);
                assert(self@.buffers =~= old(self)@.after_acquire(now).buffers);
                return Some(idx);
            }
            idx += 1;
        }
        proof {
            lemma_none_available(self@);
        }
        self.buffer_starvation_count = bump(self.buffer_starvation_count);
        if now.duration_since(self.last_starvation_warning).nanos > STARVATION_WARNING_NANOS {
            self.last_starvation_warning = now;
        }
        let mut oldest: Option<usize> = None;
        let mut longest: u64 = 0;
        let mut k: usize = 0;
        while k < BUFFER_COUNT
            invariant
                k <= BUFFER_COUNT,
                self@ == old(self)@.starved(now),
                old(self)@.wf(),
                match oldest {
                    Some(i) => {
                        &&& i < k
                        &&& self@.buffers[i as int].state == BufferState::Queued
                        &&& longest == now.since(self@.buffers[i as int].state_changed).nanos
                        &&& forall|j: int|
                            0 <= j < k && self@.buffers[j].state == BufferState::Queued
                                ==> now.since(self@.buffers[j].state_changed).nanos <= longest
                        &&& forall|j: int|
                            i < j < k && self@.buffers[j].state == BufferState::Queued
                                ==> now.since(self@.buffers[j].state_changed).nanos < longest
                    },
                    None => forall|j: int| 0 <= j < k ==> self@.buffers[j].state != BufferState::Queued,
                },
            decreases BUFFER_COUNT - k,
        {
            if self.buffers[k].state == BufferState::Queued {
                let waited = self.buffers[k].time_in_state(now).nanos;
                if oldest.is_none() || waited >= longest {
                    oldest = Some(k);
                    longest = waited;
                }
            }
            k += 1;
        }
        match oldest {
            Some(i) => {
                proof {
                    assert(old(self)@.is_longest_queued(now, i as int));
                    lemma_longest_queued(old(self)@, now, i as int);
                }
                self.buffers[i].transition_to(BufferState::Rendering, now);
                self.current_buffer = i;
                assert(self@.buffers =~= old(self)@.after_acquire(now).buffers);
                Some(i)
            },
            None => {
                proof {
                    lemma_none_queued(old(self)@, now);
                }
                None
            },
        }
    }

    /// Hands the current buffer to the compositor at `now`: it enters
    /// Queued, whatever state it was in.
    pub fn queue_current_buffer(&mut self, now: Timestamp)
        requires
            old(self)@.wf(),
        ensures
            final(self)@.wf(),
            final(self)@ == old(self)@.after_queue(now),
    {
        let i = self.current_buffer;
        self.buffers[i].transition_to(BufferState::Queued, now);
        assert(self@.buffers =~= old(self)@.after_queue(now).buffers);
    }

    /// Records at `now` that the compositor shows buffer `buffer_id`. A
    /// number that names no buffer is ignored.
    pub fn mark_displayed(&mut self, buffer_id: usize, now: Timestamp)
        requires
            old(self)@.wf(),
        ensures
            final(self)@.wf(),
            final(self)@ == old(self)@.after_displayed(buffer_id, now),
    {
        if buffer_id >= BUFFER_COUNT {
            return ;
        }
        self.buffers[buffer_id].transition_to(BufferState::Displayed, now);
        assert(self@.buffers =~= old(self)@.after_displayed(buffer_id, now).buffers);
    }

    /// Records at `now` that the compositor is done with buffer
    /// `buffer_id`, which is available again. A number that names no buffer
    /// is ignored.
    pub fn release_buffer(&mut self, buffer_id: usize, now: Timestamp)
        requires
            old(self)@.wf(),
        ensures
            final(self)@.wf(),
            final(self)@ == old(self)@.after_release(buffer_id, now),
    {
        if buffer_id >= BUFFER_COUNT {
            return ;
        }
        self.buffers[buffer_id].transition_to(BufferState::Available, now);
        assert(self@.buffers =~= old(self)@.after_release(buffer_id, now).buffers);
    }

    /// The buffer that was last taken for rendering.
    pub fn current_buffer(&self) -> (id: usize)
        ensures
            id == self@.current_buffer,
    {
        self.current_buffer
    }

    /// What is recorded of buffer `buffer_id`, if there is such a buffer.
    pub fn buffer_info(&self, buffer_id: usize) -> (info: Option<&BufferMetadata>)
        requires
            self@.wf(),
        ensures
            match info {
                Some(b) => buffer_id < BUFFER_COUNT && *b == self@.buffers[buffer_id as int],
                None => buffer_id >= BUFFER_COUNT,
            },
    {
        if buffer_id < BUFFER_COUNT {
            Some(&self.buffers[buffer_id])
        } else {
            None
        }
    }

    /// Frames for which an available buffer was found.
    pub fn total_frames(&self) -> (n: usize)
        ensures
            n == self@.total_frames,
    {
        self.total_frames
    }

    /// Requests that found no buffer available.
    pub fn buffer_starvation_count(&self) -> (n: usize)
        ensures
            n == self@.buffer_starvation_count,
    {
        self.buffer_starvation_count
    }

    /// When the last starvation warning fell due.
    pub fn last_starvation_warning(&self) -> (t: Timestamp)
        ensures
            t == self@.last_starvation_warning,
    {
        self.last_starvation_warning
    }

    /// The figures to report on the rotation; none before the first frame.
    pub fn log_stats(&self) -> (stats: Option<RotationStats>)
        requires
            self@.wf(),
        ensures
            stats == self@.report(),
    {
        if self.total_frames == 0 {
            return None;
        }
        Some(
            RotationStats {
                total_frames: self.total_frames,
                buffer_starvation_count: self.buffer_starvation_count,
                use_counts: (
                    self.buffers[0].use_count,
                    self.buffers[1].use_count,
                    self.buffers[2].use_count,
                ),
                states: (self.buffers[0].state, self.buffers[1].state, self.buffers[2].state),
            },
        )
    }

    /// The periodic report: where more than a minute has passed at `now`
    /// since the last one, the time of the last report moves to `now` and
    /// the figures to report, if there are any, are returned.
    pub fn maybe_log_stats(&mut self, now: Timestamp) -> (stats: Option<RotationStats>)
        requires
            old(self)@.wf(),
        ensures
            final(self)@.wf(),
            final(self)@ == (RotationModel {
                last_stats_log: if old(self)@.stats_due(now) {
                    now
                } else {
                    old(self)@.last_stats_log
                },
                ..old(self)@
            }),
            stats == if old(self)@.stats_due(now) {
                old(self)@.report()
            } else {
                None
            },
    {
        if now.duration_since(self.last_stats_log).nanos > STATS_LOG_NANOS {
            let stats = self.log_stats();
            self.last_stats_log = now;
            stats
        } else {
            None
        }
    }
}

/// At most one buffer is the first available one.
pub proof fn lemma_first_available(m: RotationModel, i: int)
    requires
        m.is_first_available(i),
    ensures
        m.first_available() == Some(i),
{
    let c = choose|c: int| m.is_first_available(c);
    if c < i {
        assert(m.buffers[c].state != BufferState::Available);
    } else if i < c {
        assert(m.buffers[i].state != BufferState::Available);
    }
}

/// No buffer is the first available one when none is available.
pub proof fn lemma_none_available(m: RotationModel)
    requires
        forall|j: int| 0 <= j < m.buffers.len() ==> m.buffers[j].state != BufferState::Available,
    ensures
        m.first_available() is None,
{
}

/// At most one buffer is the longest queued one.
pub proof fn lemma_longest_queued(m: RotationModel, now: Timestamp, i: int)
    requires
        m.is_longest_queued(now, i),
    ensures
        m.longest_queued(now) == Some(i),
{
    let c = choose|c: int| m.is_longest_queued(now, c);
    assert(m.is_longest_queued(now, c));
    if c < i {
        assert(now.since(m.buffers[i].state_changed).nanos < now.since(
            m.buffers[c].state_changed,
        ).nanos);
        assert(now.since(m.buffers[c].state_changed).nanos <= now.since(
            m.buffers[i].state_changed,
        ).nanos);
    } else if i < c {
        assert(now.since(m.buffers[c].state_changed).nanos < now.since(
            m.buffers[i].state_changed,
        ).nanos);
        assert(now.since(m.buffers[i].state_changed).nanos <= now.since(
            m.buffers[c].state_changed,
        ).nanos);
    }
}

/// No buffer is the longest queued one when none is queued.
pub proof fn lemma_none_queued(m: RotationModel, now: Timestamp)
    requires
        forall|j: int| 0 <= j < m.buffers.len() ==> m.buffers[j].state != BufferState::Queued,
    ensures
        m.longest_queued(now) is None,
{
}

/// Every step of the rotation keeps it well formed.
pub proof fn lemma_steps_keep_wf(m: RotationModel, id: usize, now: Timestamp)
    requires
        m.wf(),
    ensures
        m.after_acquire(now).wf(),
        m.after_queue(now).wf(),
        m.after_displayed(id, now).wf(),
        m.after_release(id, now).wf(),
{
    if m.first_available() is Some {
        assert(m.is_first_available(m.first_available().unwrap()));
    } else if m.longest_queued(now) is Some {
        assert(m.is_longest_queued(now, m.longest_queued(now).unwrap()));
    }
}

/// The buffer that a request is given is in Rendering afterwards, since the
/// time of the request, and is the current buffer; every other buffer is as
/// it was.
pub proof fn lemma_acquired_buffer_is_rendering(m: RotationModel, now: Timestamp, id: usize)
    requires
        m.wf(),
        m.acquired(now) == Some(id),
    ensures
        id < BUFFER_COUNT,
        m.buffers[id as int].state == BufferState::Available || m.buffers[id as int].state
            == BufferState::Queued,
        m.after_acquire(now).buffers[id as int] == m.buffers[id as int].moved_to(
            BufferState::Rendering,
            now,
        ),
        m.after_acquire(now).current_buffer == id,
        forall|j: int|
            0 <= j < BUFFER_COUNT && j != id ==> m.after_acquire(now).buffers[j] == m.buffers[j],
{
    if m.first_available() is Some {
        assert(m.is_first_available(m.first_available().unwrap()));
    } else {
        assert(m.is_longest_queued(now, m.longest_queued(now).unwrap()));
    }
}

/// Two requests in a row are never given the same buffer.
pub proof fn lemma_consecutive_acquires_differ(
    m: RotationModel,
    first: Timestamp,
    second: Timestamp,
    a: usize,
    b: usize,
)
    requires
        m.wf(),
        m.acquired(first) == Some(a),
        m.after_acquire(first).acquired(second) == Some(b),
    ensures
        a != b,
{
    lemma_steps_keep_wf(m, 0, first);
    lemma_acquired_buffer_is_rendering(m, first, a);
    lemma_acquired_buffer_is_rendering(m.after_acquire(first), second, b);
}

/// A request counts as a starvation exactly when no buffer is available:
/// then the starvation counter goes up by one and the frame counter stays,
/// and the request is given the longest queued buffer, or none where no
/// buffer is queued. A request that finds a buffer available leaves the
/// starvation counter as it was and counts one frame.
pub proof fn lemma_starvation_is_counted_once(m: RotationModel, now: Timestamp)
    requires
        m.wf(),
    ensures
        m.first_available() is None <==> forall|j: int|
            0 <= j < BUFFER_COUNT ==> m.buffers[j].state != BufferState::Available,
        m.first_available() is None ==> {
            &&& m.after_acquire(now).buffer_starvation_count == bumped(m.buffer_starvation_count)
            &&& m.after_acquire(now).total_frames == m.total_frames
            &&& m.acquired(now) is Some <==> exists|j: int|
                0 <= j < BUFFER_COUNT && m.buffers[j].state == BufferState::Queued
        },
        m.first_available() is Some ==> {
            &&& m.after_acquire(now).buffer_starvation_count == m.buffer_starvation_count
            &&& m.after_acquire(now).total_frames == bumped(m.total_frames)
            &&& m.acquired(now) is Some
        },
{
    if m.first_available() is Some {
        assert(m.is_first_available(m.first_available().unwrap()));
    } else {
        assert forall|j: int| 0 <= j < BUFFER_COUNT implies m.buffers[j].state
            != BufferState::Available by {
            if m.buffers[j].state == BufferState::Available {
                lemma_some_available(m, j);
            }
        }
    }
    if m.longest_queued(now) is Some {
        assert(m.is_longest_queued(now, m.longest_queued(now).unwrap()));
    } else {
        assert forall|j: int| 0 <= j < BUFFER_COUNT implies m.buffers[j].state
            != BufferState::Queued by {
            if m.buffers[j].state == BufferState::Queued {
                lemma_some_queued(m, now, j);
            }
        }
    }
}

/// Where a buffer is available, there is a first available one.
pub proof fn lemma_some_available(m: RotationModel, j: int)
    requires
        0 <= j < m.buffers.len(),
        m.buffers[j].state == BufferState::Available,
    ensures
        m.first_available() is Some,
    decreases j,
{
    if exists|k: int| 0 <= k < j && m.buffers[k].state == BufferState::Available {
        let k = choose|k: int| 0 <= k < j && m.buffers[k].state == BufferState::Available;
        lemma_some_available(m, k);
    } else {
        assert(m.is_first_available(j));
    }
}

/// Where a buffer is queued, there is a longest queued one.
pub proof fn lemma_some_queued(m: RotationModel, now: Timestamp, j: int)
    requires
        m.wf(),
        0 <= j < BUFFER_COUNT,
        m.buffers[j].state == BufferState::Queued,
    ensures
        m.longest_queued(now) is Some,
{
    let w = |i: int|
        if m.buffers[i].state == BufferState::Queued {
            now.since(m.buffers[i].state_changed).nanos as int
        } else {
            -1
        };
    let best = if w(2) >= w(1) && w(2) >= w(0) {
        2int
    } else if w(1) >= w(0) {
        1int
    } else {
        0int
    };
    assert(w(j) >= 0);
    assert(m.is_longest_queued(now, best));
}

/// From its start the rotation hands out buffer 0, then 1, then 2. A fourth
/// request, with all three still in Rendering, is given none: it counts as
/// the one starvation so far, and three frames have been counted.
pub proof fn lemma_fresh_rotation(
    start: Timestamp,
    t1: Timestamp,
    t2: Timestamp,
    t3: Timestamp,
    t4: Timestamp,
)
    ensures
        ({
            let m0 = RotationModel::fresh(start);
            let m1 = m0.after_acquire(t1);
            let m2 = m1.after_acquire(t2);
            let m3 = m2.after_acquire(t3);
            let m4 = m3.after_acquire(t4);
            &&& m0.wf()
            &&& m0.acquired(t1) == Some(0usize)
            &&& m1.acquired(t2) == Some(1usize)
            &&& m2.acquired(t3) == Some(2usize)
            &&& m3.acquired(t4) == None::<usize>
            &&& m3.total_frames == 3
            &&& m3.buffer_starvation_count == 0
            &&& m4.total_frames == 3
            &&& m4.buffer_starvation_count == 1
            &&& m4.buffers == m3.buffers
        }),
{
    let m0 = RotationModel::fresh(start);
    let m1 = m0.after_acquire(t1);
    let m2 = m1.after_acquire(t2);
    let m3 = m2.after_acquire(t3);
    assert(m0.is_first_available(0));
    lemma_first_available(m0, 0);
    assert(m1.is_first_available(1));
    lemma_first_available(m1, 1);
    assert(m2.is_first_available(2));
    lemma_first_available(m2, 2);
    lemma_none_available(m3);
    lemma_none_queued(m3, t4);
}

/// The cycle of one buffer: taken at `t1`, queued at `t2`, shown at `t3` and
/// released at `t4`, it is in Rendering, Queued, Displayed and Available in
/// turn, each time since the moment of that step, and has been used once more.
pub proof fn lemma_buffer_cycle(
    m: RotationModel,
    id: usize,
    t1: Timestamp,
    t2: Timestamp,
    t3: Timestamp,
    t4: Timestamp,
)
    requires
        m.wf(),
        m.acquired(t1) == Some(id),
    ensures
        ({
            let m1 = m.after_acquire(t1);
            let m2 = m1.after_queue(t2);
            let m3 = m2.after_displayed(id, t3);
            let m4 = m3.after_release(id, t4);
            let i = id as int;
            &&& m1.buffers[i].state == BufferState::Rendering
            &&& m1.buffers[i].state_changed == t1
            &&& m2.buffers[i].state == BufferState::Queued
            &&& m2.buffers[i].state_changed == t2
            &&& m3.buffers[i].state == BufferState::Displayed
            &&& m3.buffers[i].state_changed == t3
            &&& m4.buffers[i].state == BufferState::Available
            &&& m4.buffers[i].state_changed == t4
            &&& m4.buffers[i].use_count == bumped(m.buffers[i].use_count)
            &&& m4.wf()
            &&& forall|j: int| 0 <= j < BUFFER_COUNT && j != i ==> m4.buffers[j] == m.buffers[j]
        }),
{
    lemma_acquired_buffer_is_rendering(m, t1, id);
    lemma_steps_keep_wf(m, id, t1);
}

/// The rotation under load: from its start, three buffers are taken and
/// each is queued before the next is taken. A fourth request, with nothing
/// released, is not refused: it counts as the one starvation so far and is
/// given a queued buffer, the one queued first where the clock has moved on
/// between the steps.
pub proof fn lemma_rotation_under_load(
    start: Timestamp,
    a1: Timestamp,
    q1: Timestamp,
    a2: Timestamp,
    q2: Timestamp,
    a3: Timestamp,
    q3: Timestamp,
    now: Timestamp,
)
    ensures
        ({
            let m1 = RotationModel::fresh(start).after_acquire(a1).after_queue(q1);
            let m2 = m1.after_acquire(a2).after_queue(q2);
            let m3 = m2.after_acquire(a3).after_queue(q3);
            let m4 = m3.after_acquire(now);
            &&& m3.wf()
            &&& m3.buffers[0].state == BufferState::Queued && m3.buffers[0].state_changed == q1
            &&& m3.buffers[1].state == BufferState::Queued && m3.buffers[1].state_changed == q2
            &&& m3.buffers[2].state == BufferState::Queued && m3.buffers[2].state_changed == q3
            &&& m3.buffer_starvation_count == 0
            &&& m3.acquired(now) is Some
            &&& m4.buffer_starvation_count == 1
            &&& m4.total_frames == 3
            &&& q1.nanos < q2.nanos <= now.nanos && q1.nanos < q3.nanos <= now.nanos
                ==> m3.acquired(now) == Some(0usize) && m4.buffers[0].state
                == BufferState::Rendering
        }),
{
    let m0 = RotationModel::fresh(start);
    assert(m0.is_first_available(0));
    lemma_first_available(m0, 0);
    let m1 = m0.after_acquire(a1).after_queue(q1);
    assert(m1.is_first_available(1));
    lemma_first_available(m1, 1);
    let m2 = m1.after_acquire(a2).after_queue(q2);
    assert(m2.is_first_available(2));
    lemma_first_available(m2, 2);
    let m3 = m2.after_acquire(a3).after_queue(q3);
    lemma_none_available(m3);
    lemma_some_queued(m3, now, 0);
    assert(m3.is_longest_queued(now, m3.longest_queued(now).unwrap()));
    if q1.nanos < q2.nanos <= now.nanos && q1.nanos < q3.nanos <= now.nanos {
        assert(m3.is_longest_queued(now, 0));
        lemma_longest_queued(m3, now, 0);
    }
}

} // verus!
