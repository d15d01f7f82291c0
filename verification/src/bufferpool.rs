//! A pool of reusable vertex buffers.
//!
//! Released buffers are kept, largest first, up to a fixed number of them; a
//! request is served from the pool when a kept buffer is large enough, and
//! by a fresh allocation of a rounded-up capacity otherwise.

use crate::counter::{bump, bumped};
use vstd::prelude::*;

verus! {

/// The largest number of buffers that the pool keeps.
pub const MAX_POOLED_BUFFERS: usize = 8;

/// The smallest capacity, in quads, that the pool ever allocates.
pub const MIN_BUFFER_CAPACITY: usize = 32;

/// `n` is 1, 2, 4, 8, ...
pub open spec fn is_power_of_two(n: nat) -> bool
    decreases n,
{
    n == 1 || (n > 1 && n % 2 == 0 && is_power_of_two(n / 2))
}

/// The least power of two that is at least `n`.
pub open spec fn next_power_of_two(n: nat) -> nat
    decreases n,
{
    if n <= 1 {
        1
    } else {
        2 * next_power_of_two((n + 1) / 2)
    }
}

/// The capacity allocated for a request of `min_quads` quads.
pub open spec fn rounded_capacity(min_quads: nat) -> nat {
    if next_power_of_two(min_quads) >= MIN_BUFFER_CAPACITY {
        next_power_of_two(min_quads)
    } else {
        MIN_BUFFER_CAPACITY as nat
    }
}

/// `next_power_of_two(n)` is a power of two, it is at least `n`, and no
/// power of two from `n` on is smaller.
pub proof fn lemma_next_power_of_two(n: nat)
    ensures
        is_power_of_two(next_power_of_two(n)),
        next_power_of_two(n) >= n,
        forall|q: nat| is_power_of_two(q) && q >= n ==> next_power_of_two(n) <= q,
    decreases n,
{
    if n <= 1 {
        assert forall|q: nat| is_power_of_two(q) && q >= n implies next_power_of_two(n) <= q by {
            if q == 0 {
                assert(!is_power_of_two(0));
            }
        }
    } else {
        let half = (n + 1) / 2;
        lemma_next_power_of_two(half);
        let p = next_power_of_two(n);
        assert(p == 2 * next_power_of_two(half));
        assert(p / 2 == next_power_of_two(half));
        assert forall|q: nat| is_power_of_two(q) && q >= n implies p <= q by {
            assert(q > 1);
            assert(is_power_of_two(q / 2));
            assert(q / 2 >= half);
        }
    }
}

/// A request that is already a power of two, and at least the smallest
/// capacity, is allocated as it stands.
pub proof fn lemma_rounding_keeps_powers_of_two(n: nat)
    requires
        is_power_of_two(n),
        n >= MIN_BUFFER_CAPACITY,
    ensures
        rounded_capacity(n) == n,
{
    lemma_next_power_of_two(n);
}

/// The capacities never grow from one entry to the next.
pub open spec fn sorted_descending<B>(entries: Seq<(usize, B)>) -> bool {
    forall|i: int, j: int| 0 <= i <= j < entries.len() ==> entries[i].0 >= entries[j].0
}

/// Entry `i` is large enough for `min_quads`, and no entry before it is.
pub open spec fn is_first_fit<B>(entries: Seq<(usize, B)>, min_quads: usize, i: int) -> bool {
    &&& 0 <= i < entries.len()
    &&& entries[i].0 >= min_quads
    &&& forall|j: int| 0 <= j < i ==> entries[j].0 < min_quads
}

/// The position of the first entry that is large enough for `min_quads`.
pub open spec fn first_fit<B>(entries: Seq<(usize, B)>, min_quads: usize) -> Option<int> {
    if exists|i: int| is_first_fit(entries, min_quads, i) {
        Some(choose|i: int| is_first_fit(entries, min_quads, i))
    } else {
        None
    }
}

/// Position `p` parts the entries into those of at least `capacity`, before
/// it, and the smaller ones, from it on.
pub open spec fn is_insertion_point<B>(entries: Seq<(usize, B)>, capacity: usize, p: int) -> bool {
    &&& 0 <= p <= entries.len()
    &&& forall|i: int| 0 <= i < p ==> entries[i].0 >= capacity
    &&& forall|i: int| p <= i < entries.len() ==> entries[i].0 < capacity
}

/// Where a buffer of `capacity` is inserted: behind every entry that is at
/// least as large.
pub open spec fn insertion_point<B>(entries: Seq<(usize, B)>, capacity: usize) -> int {
    choose|p: int| is_insertion_point(entries, capacity, p)
}

/// At most one position is the first fit.
pub proof fn lemma_first_fit_unique<B>(entries: Seq<(usize, B)>, min_quads: usize, i: int)
    requires
        is_first_fit(entries, min_quads, i),
    ensures
        first_fit(entries, min_quads) == Some(i),
{
    let c = choose|c: int| is_first_fit(entries, min_quads, c);
    if c < i {
        assert(entries[c].0 < min_quads);
    } else if i < c {
        assert(entries[i].0 < min_quads);
    }
}

/// There is no first fit exactly when every entry is too small.
pub proof fn lemma_no_fit<B>(entries: Seq<(usize, B)>, min_quads: usize)
    requires
        forall|j: int| 0 <= j < entries.len() ==> entries[j].0 < min_quads,
    ensures
        first_fit(entries, min_quads) is None,
{
}

/// In a pool that is sorted, largest first, the first fit is the head, and
/// there is none when the head is too small.
pub proof fn lemma_first_fit_of_sorted<B>(entries: Seq<(usize, B)>, min_quads: usize)
    requires
        sorted_descending(entries),
    ensures
        first_fit(entries, min_quads) == if entries.len() > 0 && entries[0].0 >= min_quads {
            Some(0int)
        } else {
            None
        },
{
    if entries.len() > 0 && entries[0].0 >= min_quads {
        assert(is_first_fit(entries, min_quads, 0));
        lemma_first_fit_unique(entries, min_quads, 0);
    } else {
        assert forall|j: int| 0 <= j < entries.len() implies entries[j].0 < min_quads by {
            assert(entries[0].0 >= entries[j].0);
        }
        lemma_no_fit(entries, min_quads);
    }
}

/// At most one position is the insertion point.
pub proof fn lemma_insertion_point_unique<B>(entries: Seq<(usize, B)>, capacity: usize, p: int)
    requires
        is_insertion_point(entries, capacity, p),
    ensures
        insertion_point(entries, capacity) == p,
{
    let c = insertion_point(entries, capacity);
    assert(is_insertion_point(entries, capacity, c));
    if c < p {
        assert(entries[c].0 >= capacity);
    } else if p < c {
        assert(entries[p].0 < capacity);
    }
}

/// Sorted entries have an insertion point for every capacity.
pub proof fn lemma_insertion_point_exists<B>(entries: Seq<(usize, B)>, capacity: usize)
    requires
        sorted_descending(entries),
    ensures
        is_insertion_point(entries, capacity, insertion_point(entries, capacity)),
{
    lemma_insertion_point_from(entries, capacity, 0);
}

proof fn lemma_insertion_point_from<B>(entries: Seq<(usize, B)>, capacity: usize, k: int)
    requires
        sorted_descending(entries),
        0 <= k <= entries.len(),
        forall|i: int| 0 <= i < k ==> entries[i].0 >= capacity,
    ensures
        exists|p: int| is_insertion_point(entries, capacity, p),
    decreases entries.len() - k,
{
    if k < entries.len() && entries[k].0 >= capacity {
        lemma_insertion_point_from(entries, capacity, k + 1);
    } else {
        assert forall|i: int| k <= i < entries.len() implies entries[i].0 < capacity by {
            assert(entries[k].0 >= entries[i].0);
        }
        assert(is_insertion_point(entries, capacity, k));
    }
}

/// Sorted entries stay sorted when an entry is inserted at its insertion point.
pub proof fn lemma_insert_keeps_sorted<B>(entries: Seq<(usize, B)>, capacity: usize, buffer: B)
    requires
        sorted_descending(entries),
    ensures
        sorted_descending(
            entries.insert(insertion_point(entries, capacity), (capacity, buffer)),
        ),
{
    lemma_insertion_point_exists(entries, capacity);
    let p = insertion_point(entries, capacity);
    let after = entries.insert(p, (capacity, buffer));
    assert forall|i: int, j: int| 0 <= i <= j < after.len() implies after[i].0 >= after[j].0 by {
        let a = if i < p { i } else { i - 1 };
        let b = if j < p { j } else { j - 1 };
        if i != p && j != p {
            assert(entries[a].0 >= entries[b].0);
        }
    }
}

/// A buffer that a pool with room has taken back serves every later request
/// that it is large enough for: such a request is met from the pool, with a
/// buffer of at least the released capacity, and nothing is allocated.
pub proof fn lemma_released_buffer_is_reused<B>(
    entries: Seq<(usize, B)>,
    capacity: usize,
    buffer: B,
    min_quads: usize,
)
    requires
        sorted_descending(entries),
        min_quads <= capacity,
    ensures
        ({
            let after = entries.insert(insertion_point(entries, capacity), (capacity, buffer));
            &&& first_fit(after, min_quads) == Some(0int)
            &&& after[0].0 >= capacity
            &&& entries.len() == 0 ==> after[0] == (capacity, buffer)
        }),
{
    lemma_insertion_point_exists(entries, capacity);
    lemma_insert_keeps_sorted(entries, capacity, buffer);
    let p = insertion_point(entries, capacity);
    let after = entries.insert(p, (capacity, buffer));
    assert(after[p] == (capacity, buffer));
    assert(after[0].0 >= after[p].0);
    lemma_first_fit_of_sorted(after, min_quads);
}

/// What the pool holds: the buffers it keeps, each with its capacity, in the
/// order in which they are scanned, and the two counters.
pub struct PoolModel<B> {
    pub entries: Seq<(usize, B)>,
    pub allocations: usize,
    pub reuses: usize,
}

/// A pool of vertex buffers of type `B`, each kept with its capacity in quads.
pub struct VertexBufferPool<B> {
    available: Vec<(usize, B)>,
    allocations: usize,
    reuses: usize,
}

impl<B> View for VertexBufferPool<B> {
    type V = PoolModel<B>;

    closed spec fn view(&self) -> PoolModel<B> {
        PoolModel { entries: self.available@, allocations: self.allocations, reuses: self.reuses }
    }
}

impl<B> VertexBufferPool<B> {
    /// The pool never keeps more than `MAX_POOLED_BUFFERS` buffers, and keeps
    /// them sorted, largest first.
    pub open spec fn wf(&self) -> bool {
        &&& self@.entries.len() <= MAX_POOLED_BUFFERS
        &&& sorted_descending(self@.entries)
    }

    /// An empty pool that has neither allocated nor reused anything.
    pub fn new() -> (pool: Self)
        ensures
            pool.wf(),
            pool@.entries.len() == 0,
            pool@.allocations == 0,
            pool@.reuses == 0,
    {
        VertexBufferPool { available: Vec::new(), allocations: 0, reuses: 0 }
    }

    /// Whether a request of `min_quads` can be rounded up to a capacity that
    /// fits the machine's word.
    pub fn can_serve(min_quads: usize) -> (ok: bool)
        ensures
            ok == (rounded_capacity(min_quads as nat) <= usize::MAX),
    {
        round_up(min_quads).is_some()
    }

    /// Hands out a buffer of at least `min_quads` quads.
    ///
    /// The first pooled buffer that is large enough leaves the pool and is
    /// returned with its capacity, and counts as a reuse. Where none is large
    /// enough, `allocate` is called once, with the rounded-up capacity: its
    /// buffer is returned with that capacity and counts as an allocation; its
    /// error is returned as it is, and nothing is counted.
    pub fn acquire<F, E>(&mut self, min_quads: usize, allocate: F) -> (r: Result<(usize, B), E>)
        where F: FnOnce(usize) -> Result<B, E>
        requires
            old(self).wf(),
            rounded_capacity(min_quads as nat) <= usize::MAX,
            first_fit(old(self)@.entries, min_quads) is None ==> allocate.requires(
                (rounded_capacity(min_quads as nat) as usize,),
            ),
        ensures
            final(self).wf(),
            r matches Ok(got) ==> got.0 >= min_quads,
            match first_fit(old(self)@.entries, min_quads) {
                Some(i) => {
                    &&& r == Ok::<(usize, B), E>(old(self)@.entries[i])
                    &&& final(self)@.entries == old(self)@.entries.remove(i)
                    &&& final(self)@.reuses == bumped(old(self)@.reuses)
                    &&& final(self)@.allocations == old(self)@.allocations
                },
                None => {
                    &&& final(self)@.entries == old(self)@.entries
                    &&& final(self)@.reuses == old(self)@.reuses
                    &&& match r {
                        Ok(got) => {
                            &&& got.0 == rounded_capacity(min_quads as nat)
                            &&& allocate.ensures((got.0,), Ok::<B, E>(got.1))
                            &&& final(self)@.allocations == bumped(old(self)@.allocations)
                        },
                        Err(e) => {
                            &&& allocate.ensures(
                                (rounded_capacity(min_quads as nat) as usize,),
                                Err::<B, E>(e),
                            )
                            &&& final(self)@.allocations == old(self)@.allocations
                        },
                    }
                },
            },
    {
        let mut pos: usize = 0;
        while pos < self.available.len() && self.available[pos].0 < min_quads
            invariant
                pos <= self.available.len(),
                forall|j: int| 0 <= j < pos ==> self.available@[j].0 < min_quads,
            decreases self.available.len() - pos,
        {
            pos += 1;
        }
        if pos < self.available.len() {
            proof {
                lemma_first_fit_unique(self.available@, min_quads, pos as int);
            }
            let got = self.available.remove(pos);
            self.reuses = bump(self.reuses);
            Ok(got)
        } else {
            proof {
                lemma_no_fit(self.available@, min_quads);
                lemma_next_power_of_two(min_quads as nat);
            }
            let capacity = round_up(min_quads).unwrap();
            match allocate(capacity) {
                Ok(buffer) => {
                    self.allocations = bump(self.allocations);
                    Ok((capacity, buffer))
                },
                Err(e) => Err(e),
            }
        }
    }

    /// Takes a buffer of `capacity` quads back.
    ///
    /// A pool that holds fewer than `MAX_POOLED_BUFFERS` buffers keeps it,
    /// behind every buffer that is at least as large. A full pool lets it go:
    /// the buffer is dropped, and the pool stays as it was.
    pub fn release(&mut self, capacity: usize, buffer: B)
        requires
            old(self).wf(),
        ensures
            final(self).wf(),
            final(self)@.allocations == old(self)@.allocations,
            final(self)@.reuses == old(self)@.reuses,
            final(self)@.entries == if old(self)@.entries.len() < MAX_POOLED_BUFFERS {
                old(self)@.entries.insert(
                    insertion_point(old(self)@.entries, capacity),
                    (capacity, buffer),
                )
            } else {
                old(self)@.entries
            },
            is_insertion_point(
                old(self)@.entries,
                capacity,
                insertion_point(old(self)@.entries, capacity),
            ),
    {
        proof {
            lemma_insertion_point_exists(self.available@, capacity);
        }
        if self.available.len() < MAX_POOLED_BUFFERS {
            let mut lo: usize = 0;
            let mut hi: usize = self.available.len();
            while lo < hi
                invariant
                    lo <= hi <= self.available.len(),
                    sorted_descending(self.available@),
                    forall|i: int| 0 <= i < lo ==> self.available@[i].0 >= capacity,
                    forall|i: int| hi <= i < self.available.len() ==> self.available@[i].0 < capacity,
                decreases hi - lo,
            {
                let mid = lo + (hi - lo) / 2;
                if self.available[mid].0 >= capacity {
                    lo = mid + 1;
                } else {
                    hi = mid;
                }
            }
            proof {
                lemma_insertion_point_unique(self.available@, capacity, lo as int);
            }
            self.available.insert(lo, (capacity, buffer));
        }
    }

    /// The numbers of allocations and of reuses so far, and of the buffers
    /// that the pool holds now.
    pub fn stats(&self) -> (s: (usize, usize, usize))
        ensures
            s.0 == self@.allocations,
            s.1 == self@.reuses,
            s.2 == self@.entries.len(),
    {
        (self.allocations, self.reuses, self.available.len())
    }

    /// Drops every buffer that the pool holds. The counters stay.
    pub fn clear(&mut self)
        ensures
            final(self).wf(),
            final(self)@.entries.len() == 0,
            final(self)@.allocations == old(self)@.allocations,
            final(self)@.reuses == old(self)@.reuses,
    {
        self.available.clear();
    }
}

/// The capacity for a request of `min_quads`, where the machine's word holds it.
fn round_up(min_quads: usize) -> (r: Option<usize>)
    ensures
        match r {
            Some(c) => c == rounded_capacity(min_quads as nat),
            None => rounded_capacity(min_quads as nat) > usize::MAX,
        },
{
    match power_of_two_from(min_quads) {
        Some(p) => if p < MIN_BUFFER_CAPACITY {
            Some(MIN_BUFFER_CAPACITY)
        } else {
            Some(p)
        },
        None => None,
    }
}

/// The least power of two that is at least `n`, where the machine's word holds it.
fn power_of_two_from(n: usize) -> (r: Option<usize>)
    ensures
        match r {
            Some(p) => p == next_power_of_two(n as nat),
            None => next_power_of_two(n as nat) > usize::MAX,
        },
    decreases n,
{
    if n <= 1 {
        Some(1)
    } else {
        let half = n / 2 + n % 2;
        assert(half == (n as nat + 1) / 2);
        match power_of_two_from(half) {
            Some(p) => if p > usize::MAX / 2 {
                None
            } else {
                Some(2 * p)
            },
            None => None,
        }
    }
}

} // verus!
