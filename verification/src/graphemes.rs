//! Text as the reader sees it: split into grapheme clusters, and measured in
//! the columns that it takes on the screen.

use finl_unicode::grapheme_clusters::Graphemes;
use vstd::prelude::*;
use vstd::string::StrSliceExecFns;

verus! {

/// The grapheme clusters of a text, in their order: what
/// `finl_unicode::grapheme_clusters::Graphemes` yields for it.
pub uninterp spec fn grapheme_clusters(text: Seq<char>) -> Seq<Seq<char>>;

/// The characters of each of `strings`.
pub open spec fn characters_of(strings: Seq<String>) -> Seq<Seq<char>> {
    Seq::new(strings.len(), |i: int| strings[i]@)
}

/// `finl_unicode::grapheme_clusters::Graphemes::new` and the iteration over
/// what it returns: the grapheme clusters of `text`, each as a string of its
/// own. The clusters depend on the characters of the text alone, and the
/// contract gives them their name. Each cluster is a slice of the text that
/// begins where the one before ended, the first at the start and the last
/// up to the end, and takes in at least the character it begins with: so no
/// cluster is empty, and the clusters, one after the other, are the text.
#[verifier::external_body]
fn split_clusters(text: &str) -> (clusters: Vec<String>)
    ensures
        characters_of(clusters@) == grapheme_clusters(text@),
        forall|i: int| 0 <= i < clusters@.len() ==> (#[trigger] clusters@[i])@.len() > 0,
        joined(characters_of(clusters@)) == text@,
{
    Graphemes::new(text).map(String::from).collect()
}

/// The grapheme clusters of `text`: none is empty, and one after the other
/// they are the text.
pub fn clusters_of(text: &str) -> (clusters: Vec<String>)
    ensures
        clusters@.len() == grapheme_clusters(text@).len(),
        forall|i: int| 0 <= i < clusters@.len() ==> clusters@[i]@ == grapheme_clusters(text@)[i],
        forall|i: int|
            0 <= i < grapheme_clusters(text@).len() ==> (#[trigger] grapheme_clusters(
                text@,
            )[i]).len() > 0,
        joined(grapheme_clusters(text@)) == text@,
{
    let clusters = split_clusters(text);
    assert forall|i: int| 0 <= i < clusters@.len() implies clusters@[i]@ == grapheme_clusters(
        text@,
    )[i] by {
        assert(characters_of(clusters@)[i] == clusters@[i]@);
    }
    assert forall|i: int| 0 <= i < grapheme_clusters(text@).len() implies (#[trigger] grapheme_clusters(
        text@,
    )[i]).len() > 0 by {
        assert(characters_of(clusters@)[i] == clusters@[i]@);
    }
    clusters
}

/// A way to measure text in columns. The width of a text depends on its
/// characters alone.
pub trait TextMeasure {
    /// The number of columns that `text` takes.
    spec fn columns(&self, text: Seq<char>) -> usize;

    /// Measures `text`.
    fn column_width(&self, text: &str) -> (w: usize)
        ensures
            w == self.columns(text@),
    ;
}

/// The measure by which every character takes one column.
#[derive(Clone, Copy, Debug)]
pub struct CharColumns;

impl TextMeasure for CharColumns {
    open spec fn columns(&self, text: Seq<char>) -> usize {
        text.len() as usize
    }

    fn column_width(&self, text: &str) -> (w: usize) {
        text.unicode_len()
    }
}

/// The clusters `parts`, one after the other, as one text.
pub open spec fn joined(parts: Seq<Seq<char>>) -> Seq<char>
    decreases parts.len(),
{
    if parts.len() == 0 {
        Seq::empty()
    } else {
        joined(parts.drop_last()) + parts.last()
    }
}

/// The first `k` of `parts`, one after the other, are the beginning of all
/// of them one after the other, and where no part is empty, what follows
/// has at least as many characters as there are parts left.
pub proof fn lemma_joined_prefix(parts: Seq<Seq<char>>, k: int)
    requires
        0 <= k <= parts.len(),
    ensures
        joined(parts.take(k)).len() <= joined(parts).len(),
        joined(parts.take(k)) == joined(parts).take(joined(parts.take(k)).len() as int),
        (forall|i: int| 0 <= i < parts.len() ==> (#[trigger] parts[i]).len() > 0) ==> joined(
            parts,
        ).len() - joined(parts.take(k)).len() >= parts.len() - k,
    decreases parts.len() - k,
{
    if k == parts.len() {
        assert(parts.take(k) =~= parts);
        assert(joined(parts).take(joined(parts).len() as int) =~= joined(parts));
    } else {
        lemma_joined_prefix(parts, k + 1);
        let longer = parts.take(k + 1);
        assert(longer.drop_last() =~= parts.take(k));
        assert(longer.last() == parts[k]);
        assert(joined(longer) == joined(parts.take(k)) + parts[k]);
        let n = joined(parts.take(k)).len() as int;
        assert(joined(parts.take(k)) =~= joined(longer).take(n));
        assert(joined(longer).take(n) =~= joined(parts).take(joined(longer).len() as int).take(n));
        assert(joined(parts).take(joined(longer).len() as int).take(n) =~= joined(parts).take(n));
    }
}

/// The columns that the first `n` of `clusters` take together.
pub open spec fn columns_of_first<M: TextMeasure>(measure: &M, clusters: Seq<Seq<char>>, n: int) -> int
    decreases n,
{
    if n <= 0 {
        0
    } else {
        columns_of_first(measure, clusters, n - 1) + measure.columns(clusters[n - 1])
    }
}

/// How many of `clusters` fit into `room` columns when they are taken in
/// their order, from cluster `from` on, until one does not fit any more.
pub open spec fn fitting_from<M: TextMeasure>(
    measure: &M,
    clusters: Seq<Seq<char>>,
    room: int,
    from: int,
) -> int
    decreases clusters.len() - from,
{
    if from < 0 || from >= clusters.len() || measure.columns(clusters[from]) > room {
        from
    } else {
        fitting_from(measure, clusters, room - measure.columns(clusters[from]), from + 1)
    }
}

/// The number of leading clusters that fit into `room` columns.
pub open spec fn fitting<M: TextMeasure>(measure: &M, clusters: Seq<Seq<char>>, room: usize) -> int {
    fitting_from(measure, clusters, room as int, 0)
}

/// The clusters that fit are as many as fit: together they take no more
/// than `room` columns, and with the next cluster they would take more.
pub proof fn lemma_fitting_is_the_longest_fit<M: TextMeasure>(
    measure: &M,
    clusters: Seq<Seq<char>>,
    room: usize,
)
    ensures
        0 <= fitting(measure, clusters, room) <= clusters.len(),
        columns_of_first(measure, clusters, fitting(measure, clusters, room)) <= room,
        fitting(measure, clusters, room) < clusters.len() ==> columns_of_first(
            measure,
            clusters,
            fitting(measure, clusters, room) + 1,
        ) > room,
{
    lemma_fitting_from(measure, clusters, room as int, 0, room as int);
}

proof fn lemma_fitting_from<M: TextMeasure>(
    measure: &M,
    clusters: Seq<Seq<char>>,
    room: int,
    from: int,
    total: int,
)
    requires
        0 <= from <= clusters.len(),
        0 <= room,
        columns_of_first(measure, clusters, from) + room == total,
    ensures
        from <= fitting_from(measure, clusters, room, from) <= clusters.len(),
        columns_of_first(measure, clusters, fitting_from(measure, clusters, room, from)) <= total,
        fitting_from(measure, clusters, room, from) < clusters.len() ==> columns_of_first(
            measure,
            clusters,
            fitting_from(measure, clusters, room, from) + 1,
        ) > total,
    decreases clusters.len() - from,
{
    if from < clusters.len() && measure.columns(clusters[from]) <= room {
        lemma_fitting_from(
            measure,
            clusters,
            room - measure.columns(clusters[from]),
            from + 1,
            total,
        );
    }
}

/// The measure that a function gives: the width of a text is what the
/// function returns for it.
pub struct MeasuredBy<F: Fn(&str) -> usize> {
    measure: F,
}

/// `measure` accepts every text, and what it returns for a text depends on
/// the characters of the text alone.
pub open spec fn is_measure<F: Fn(&str) -> usize>(measure: F) -> bool {
    &&& forall|text: &str| #[trigger] measure.requires((text,))
    &&& forall|a: &str, b: &str, x: usize, y: usize|
        a@ == b@ && #[trigger] measure.ensures((a,), x) && #[trigger] measure.ensures((b,), y)
            ==> x == y
}

/// `measure` may return `w` for a text with the characters `text`.
pub open spec fn measures<F: Fn(&str) -> usize>(measure: F, text: Seq<char>, w: usize) -> bool {
    exists|t: &str| t@ == text && #[trigger] measure.ensures((t,), w)
}

impl<F: Fn(&str) -> usize> MeasuredBy<F> {
    #[verifier::type_invariant]
    spec fn inv(self) -> bool {
        is_measure(self.measure)
    }

    /// The measure that `measure` gives: a text is as wide as `measure`
    /// says.
    pub fn new(measure: F) -> (m: Self)
        requires
            is_measure(measure),
        ensures
            forall|text: &str, w: usize| #[trigger]
                measure.ensures((text,), w) ==> m.columns(text@) == w,
    {
        let m = MeasuredBy { measure };
        assert forall|text: &str, w: usize| #[trigger] measure.ensures((text,), w) implies m.columns(
            text@,
        ) == w by {
            assert(measures(measure, text@, w));
            let c = m.columns(text@);
            assert(measures(measure, text@, c));
        }
        m
    }
}

impl<F: Fn(&str) -> usize> TextMeasure for MeasuredBy<F> {
    closed spec fn columns(&self, text: Seq<char>) -> usize {
        choose|w: usize| measures(self.measure, text, w)
    }

    fn column_width(&self, text: &str) -> (w: usize) {
        proof {
            use_type_invariant(self);
        }
        let w = (self.measure)(text);
        assert(measures(self.measure, text@, w));
        w
    }
}

} // verus!
