//! The cache of tab titles, and the title that a tab gets where no callback
//! gives one.

use crate::cachekey::{
    flag_encoding, hash_key, number_encoding, optional_flag_encoding, optional_text_encoding,
    put_flag, put_number, put_optional_flag, put_optional_text, put_text, slot_of, text_encoding,
    CacheKey,
};
use crate::callback_cache::next_generation;
use std::collections::HashMap;
use crate::graphemes::{
    clusters_of, fitting, grapheme_clusters, joined, lemma_joined_prefix, TextMeasure,
};
use crate::tabinfo::{Progress, TabInformation};
use crate::text::{decimal, push_decimal};
use crate::titletext::{AnsiColor, FormatColor, FormatItem, FormatItemModel, TitleModel, TitleText};
use vstd::prelude::*;
use vstd::string::StringExecFns;

verus! {

/// The progress of a pane as far as it shows in a tab title.
#[derive(Hash, Eq, PartialEq, Clone, Copy, Debug, Structural)]
pub enum ProgressState {
    NoProgress,
    Percentage(u8),
    Error(u8),
    Indeterminate,
}

impl ProgressState {
    /// The state that stands for `progress`.
    pub open spec fn of(progress: Progress) -> ProgressState {
        match progress {
            Progress::NoProgress => ProgressState::NoProgress,
            Progress::Percentage(p) => ProgressState::Percentage(p),
            Progress::Error(p) => ProgressState::Error(p),
            Progress::Indeterminate => ProgressState::Indeterminate,
        }
    }

    pub fn from(progress: &Progress) -> (state: ProgressState)
        ensures
            state == ProgressState::of(*progress),
    {
        match progress {
            Progress::NoProgress => ProgressState::NoProgress,
            Progress::Percentage(p) => ProgressState::Percentage(*p),
            Progress::Error(p) => ProgressState::Error(*p),
            Progress::Indeterminate => ProgressState::Indeterminate,
        }
    }
}

/// Everything that the title of a tab is computed from.
#[derive(Hash, Eq, PartialEq, Clone, Debug)]
pub struct TabCacheKey {
    pub tab_id: usize,
    pub title: String,
    pub is_active: bool,
    pub hover: bool,
    pub active_pane_title: Option<String>,
    pub active_pane_has_unseen_output: Option<bool>,
    pub active_pane_progress: Option<ProgressState>,
}

/// A key of the tab title cache as a model value.
pub struct TabKeyModel {
    pub tab_id: usize,
    pub title: Seq<char>,
    pub is_active: bool,
    pub hover: bool,
    pub active_pane_title: Option<Seq<char>>,
    pub active_pane_has_unseen_output: Option<bool>,
    pub active_pane_progress: Option<ProgressState>,
}

impl View for TabCacheKey {
    type V = TabKeyModel;

    open spec fn view(&self) -> TabKeyModel {
        TabKeyModel {
            tab_id: self.tab_id,
            title: self.title@,
            is_active: self.is_active,
            hover: self.hover,
            active_pane_title: match self.active_pane_title {
                Some(title) => Some(title@),
                None => None,
            },
            active_pane_has_unseen_output: self.active_pane_has_unseen_output,
            active_pane_progress: self.active_pane_progress,
        }
    }
}

/// The progress of a pane, which may be missing, as bytes: a byte that
/// says what it is, and the percentage where it has one.
pub open spec fn progress_encoding(progress: Option<ProgressState>) -> Seq<u8> {
    match progress {
        None => seq![0u8],
        Some(ProgressState::NoProgress) => seq![1u8],
        Some(ProgressState::Percentage(p)) => seq![2u8, p],
        Some(ProgressState::Error(p)) => seq![3u8, p],
        Some(ProgressState::Indeterminate) => seq![4u8],
    }
}

impl TabKeyModel {
    /// The bytes that stand for the key: its fields, one after the other.
    pub open spec fn encoding(self) -> Seq<u8> {
        number_encoding(self.tab_id) + text_encoding(self.title) + flag_encoding(self.is_active)
            + flag_encoding(self.hover) + optional_text_encoding(self.active_pane_title)
            + optional_flag_encoding(self.active_pane_has_unseen_output) + progress_encoding(
            self.active_pane_progress,
        )
    }

    /// The hash under which the title for the key is kept.
    pub open spec fn slot(self) -> u64 {
        slot_of(self.encoding())
    }
}

impl CacheKey for TabCacheKey {
    open spec fn encoding(&self) -> Seq<u8> {
        self@.encoding()
    }

    fn encode(&self) -> (bytes: Vec<u8>) {
        let mut out: Vec<u8> = Vec::new();
        put_number(&mut out, self.tab_id);
        put_text(&mut out, self.title.as_str());
        put_flag(&mut out, self.is_active);
        put_flag(&mut out, self.hover);
        put_optional_text(&mut out, &self.active_pane_title);
        put_optional_flag(&mut out, self.active_pane_has_unseen_output);
        let ghost before = out@;
        match self.active_pane_progress {
            None => {
                out.push(0u8);
            },
            Some(ProgressState::NoProgress) => {
                out.push(1u8);
            },
            Some(ProgressState::Percentage(p)) => {
                out.push(2u8);
                out.push(p);
            },
            Some(ProgressState::Error(p)) => {
                out.push(3u8);
                out.push(p);
            },
            Some(ProgressState::Indeterminate) => {
                out.push(4u8);
            },
        }
        assert(out@ =~= before + progress_encoding(self.active_pane_progress));
        assert(out@ =~= self@.encoding());
        out
    }
}

/// The key for the title of `tab`, hovered over or not.
pub open spec fn key_of(tab: &TabInformation, hover: bool) -> TabKeyModel {
    TabKeyModel {
        tab_id: tab.tab_id,
        title: tab.tab_title@,
        is_active: tab.is_active,
        hover,
        active_pane_title: match tab.active_pane {
            Some(pane) => Some(pane.title@),
            None => None,
        },
        active_pane_has_unseen_output: match tab.active_pane {
            Some(pane) => Some(pane.has_unseen_output),
            None => None,
        },
        active_pane_progress: match tab.active_pane {
            Some(pane) => Some(ProgressState::of(pane.progress)),
            None => None,
        },
    }
}

impl TabCacheKey {
    /// The key for the title of `tab`, hovered over or not.
    pub fn from_tab_info(tab: &TabInformation, hover: bool) -> (key: Self)
        ensures
            key@ == key_of(tab, hover),
    {
        let (active_pane_title, active_pane_has_unseen_output, active_pane_progress) = match &tab.active_pane {
            Some(pane) => (
                Some(pane.title.clone()),
                Some(pane.has_unseen_output),
                Some(ProgressState::from(&pane.progress)),
            ),
            None => (None, None, None),
        };
        Self {
            tab_id: tab.tab_id,
            title: tab.tab_title.clone(),
            is_active: tab.is_active,
            hover,
            active_pane_title,
            active_pane_has_unseen_output,
            active_pane_progress,
        }
    }

    /// Whether this key and `other` are the same.
    pub fn same_as(&self, other: &TabCacheKey) -> (same: bool)
        ensures
            same == (self@ == other@),
    {
        let pane_titles = match (&self.active_pane_title, &other.active_pane_title) {
            (Some(a), Some(b)) => {
                let eq = *a == *b;
                eq
            },
            (None, None) => true,
            _ => false,
        };
        let unseen = match (self.active_pane_has_unseen_output, other.active_pane_has_unseen_output) {
            (Some(a), Some(b)) => a == b,
            (None, None) => true,
            _ => false,
        };
        let progress = match (self.active_pane_progress, other.active_pane_progress) {
            (Some(a), Some(b)) => a == b,
            (None, None) => true,
            _ => false,
        };
        self.tab_id == other.tab_id && self.title == other.title && self.is_active
            == other.is_active && self.hover == other.hover && pane_titles && unseen && progress
    }
}

/// A cached title with the generation it was cached in.
pub struct CachedTitleEntry {
    pub title: TitleText,
    pub generation: usize,
}

/// What the cache holds: the titles by their keys, and the number of the
/// generation.
pub struct TabTitleCacheModel {
    pub titles: Map<TabKeyModel, TitleModel>,
    pub generation: usize,
}

/// The entries whose keys have one hash.
pub type Bucket = Vec<(TabCacheKey, CachedTitleEntry)>;

/// The cache of tab titles. The titles are kept by the hash of their keys;
/// keys of one hash share a bucket, in which each is found by comparing.
pub struct TabTitleCache {
    entries: HashMap<u64, Bucket>,
    generation: usize,
}

/// Entry `i` of `bucket` is the one for `key`.
pub open spec fn found_at(
    bucket: Seq<(TabCacheKey, CachedTitleEntry)>,
    key: TabKeyModel,
    i: int,
) -> bool {
    0 <= i < bucket.len() && bucket[i].0@ == key
}

/// No key occurs twice in `bucket`, every key in it has the hash `slot`,
/// and every entry is of the generation `generation`.
pub open spec fn bucket_wf(
    bucket: Seq<(TabCacheKey, CachedTitleEntry)>,
    slot: u64,
    generation: usize,
) -> bool {
    &&& forall|i: int, j: int| 0 <= i < j < bucket.len() ==> bucket[i].0@ != bucket[j].0@
    &&& forall|i: int|
        0 <= i < bucket.len() ==> (#[trigger] bucket[i]).0@.slot() == slot && bucket[i].1.generation
            == generation
}

impl TabTitleCache {
    /// The bucket in which `key` is looked for.
    closed spec fn bucket_of(&self, key: TabKeyModel) -> Seq<(TabCacheKey, CachedTitleEntry)> {
        if self.entries@.contains_key(key.slot()) {
            self.entries@[key.slot()]@
        } else {
            Seq::empty()
        }
    }

    /// Every bucket holds keys of its own hash alone, none of them twice,
    /// and every entry is of the current generation.
    pub closed spec fn wf(&self) -> bool {
        forall|slot: u64| #[trigger]
            self.entries@.contains_key(slot) ==> bucket_wf(
                self.entries@[slot]@,
                slot,
                self.generation,
            )
    }
}

impl View for TabTitleCache {
    type V = TabTitleCacheModel;

    closed spec fn view(&self) -> TabTitleCacheModel {
        TabTitleCacheModel {
            titles: Map::new(
                |key: TabKeyModel| exists|i: int| found_at(self.bucket_of(key), key, i),
                |key: TabKeyModel|
                    self.bucket_of(key)[choose|i: int| found_at(self.bucket_of(key), key, i)].1.title@,
            ),
            generation: self.generation,
        }
    }
}

/// Where the entry for `key` is in `bucket`, if there is one.
fn position_in(bucket: &Bucket, key: &TabCacheKey) -> (at: Option<usize>)
    ensures
        match at {
            Some(i) => found_at(bucket@, key@, i as int),
            None => forall|i: int| !found_at(bucket@, key@, i),
        },
{
    let mut i: usize = 0;
    while i < bucket.len()
        invariant
            i <= bucket.len(),
            forall|j: int| 0 <= j < i ==> bucket@[j].0@ != key@,
        decreases bucket.len() - i,
    {
        if bucket[i].0.same_as(key) {
            return Some(i);
        }
        i += 1;
    }
    None
}

/// In a bucket without a key twice, the entry for a key is found at one
/// place alone.
proof fn lemma_found_once(
    bucket: Seq<(TabCacheKey, CachedTitleEntry)>,
    key: TabKeyModel,
    i: int,
    j: int,
)
    requires
        forall|a: int, b: int| 0 <= a < b < bucket.len() ==> bucket[a].0@ != bucket[b].0@,
        found_at(bucket, key, i),
        found_at(bucket, key, j),
    ensures
        i == j,
{
    if i < j {
        assert(bucket[i].0@ != bucket[j].0@);
    } else if j < i {
        assert(bucket[j].0@ != bucket[i].0@);
    }
}

impl TabTitleCache {
    /// An empty cache in its first generation.
    pub fn new() -> (cache: Self)
        ensures
            cache.wf(),
            cache@.titles == Map::<TabKeyModel, TitleModel>::empty(),
            cache@.generation == 0,
    {
        let cache = Self { entries: HashMap::new(), generation: 0 };
        assert(cache@.titles =~= Map::<TabKeyModel, TitleModel>::empty());
        cache
    }

    /// A copy of the title cached for `key`, if there is one.
    pub fn get(&self, key: &TabCacheKey) -> (r: Option<TitleText>)
        requires
            self.wf(),
        ensures
            match r {
                Some(title) => self@.titles.contains_key(key@) && title@ == self@.titles[key@],
                None => !self@.titles.contains_key(key@),
            },
    {
        let slot = hash_key(key);
        match self.entries.get(&slot) {
            Some(bucket) => {
                assert(self.bucket_of(key@) == bucket@);
                match position_in(bucket, key) {
                    Some(i) => {
                        proof {
                            let c = choose|c: int| found_at(bucket@, key@, c);
                            lemma_found_once(bucket@, key@, i as int, c);
                        }
                        let entry = &bucket[i].1;
                        if entry.generation == self.generation {
                            Some(entry.title.duplicate())
                        } else {
                            None
                        }
                    },
                    None => None,
                }
            },
            None => None,
        }
    }

    /// Caches `title` as the title for `key`, in place of what was cached
    /// for it before.
    pub fn insert(&mut self, key: TabCacheKey, title: TitleText)
        requires
            old(self).wf(),
        ensures
            final(self).wf(),
            final(self)@.titles == old(self)@.titles.insert(key@, title@),
            final(self)@.generation == old(self)@.generation,
    {
        let slot = hash_key(&key);
        let entry = CachedTitleEntry { title, generation: self.generation };
        let mut bucket: Bucket = match self.entries.remove(&slot) {
            Some(bucket) => bucket,
            None => Vec::new(),
        };
        let ghost before = bucket@;
        assert(before == old(self).bucket_of(key@));
        assert(bucket_wf(before, slot, self.generation));
        let ghost at: int;
        match position_in(&bucket, &key) {
            Some(i) => {
                bucket[i] = (key, entry);
                proof {
                    at = i as int;
                }
            },
            None => {
                bucket.push((key, entry));
                proof {
                    at = before.len() as int;
                }
            },
        }
        proof {
            lemma_bucket_after_insert(before, bucket@, key@, title@, at, slot, self.generation);
        }
        self.entries.insert(slot, bucket);
        proof {
            assert forall|s: u64| #[trigger] self.entries@.contains_key(s) implies bucket_wf(
                self.entries@[s]@,
                s,
                self.generation,
            ) by {
                if s != slot {
                    assert(old(self).entries@.contains_key(s));
                }
            }
            let after = old(self)@.titles.insert(key@, title@);
            assert forall|k: TabKeyModel| self@.titles.contains_key(k) <==> after.contains_key(
                k,
            ) by {
                if k.slot() != slot {
                    assert(self.bucket_of(k) == old(self).bucket_of(k));
                } else {
                    assert(self.bucket_of(k) == bucket@);
                    assert(old(self).bucket_of(k) == before);
                }
            }
            assert forall|k: TabKeyModel| self@.titles.contains_key(k) implies self@.titles[k]
                == after[k] by {
                if k.slot() != slot {
                    assert(self.bucket_of(k) == old(self).bucket_of(k));
                } else {
                    assert(self.bucket_of(k) == bucket@);
                    assert(old(self).bucket_of(k) == before);
                    let i = choose|i: int| found_at(bucket@, k, i);
                    if k == key@ {
                        lemma_found_once(bucket@, k, i, at);
                    } else {
                        assert(found_at(before, k, i));
                        let b = choose|b: int| found_at(before, k, b);
                        lemma_found_once(before, k, i, b);
                    }
                }
            }
            assert(self@.titles =~= after);
        }
    }

    /// Begins a new generation. Every entry is of an older one by then, and
    /// goes.
    pub fn invalidate(&mut self)
        requires
            old(self).wf(),
        ensures
            final(self).wf(),
            final(self)@.titles == Map::<TabKeyModel, TitleModel>::empty(),
            final(self)@.generation == next_generation(old(self)@.generation),
    {
        self.generation = self.generation.wrapping_add(1);
        self.entries.clear();
        assert(self@.titles =~= Map::<TabKeyModel, TitleModel>::empty());
    }

    /// Drops every entry and begins a new generation.
    pub fn clear(&mut self)
        ensures
            final(self).wf(),
            final(self)@.titles == Map::<TabKeyModel, TitleModel>::empty(),
            final(self)@.generation == next_generation(old(self)@.generation),
    {
        self.entries.clear();
        self.generation = self.generation.wrapping_add(1);
        assert(self@.titles =~= Map::<TabKeyModel, TitleModel>::empty());
    }
}

/// A bucket that differs from `before` in entry `at` alone, which is now
/// the one for `key` and holds `title`: it is well formed as `before` was,
/// and holds for every other key what `before` held.
proof fn lemma_bucket_after_insert(
    before: Seq<(TabCacheKey, CachedTitleEntry)>,
    after: Seq<(TabCacheKey, CachedTitleEntry)>,
    key: TabKeyModel,
    title: TitleModel,
    at: int,
    slot: u64,
    generation: usize,
)
    requires
        bucket_wf(before, slot, generation),
        key.slot() == slot,
        0 <= at <= before.len(),
        at < before.len() ==> found_at(before, key, at) && after.len() == before.len(),
        at == before.len() ==> after.len() == at + 1 && forall|i: int| !found_at(before, key, i),
        after[at].0@ == key,
        after[at].1.title@ == title,
        after[at].1.generation == generation,
        forall|i: int| 0 <= i < before.len() && i != at ==> after[i] == before[i],
    ensures
        bucket_wf(after, slot, generation),
        found_at(after, key, at),
        forall|k: TabKeyModel, i: int| k != key ==> (found_at(after, k, i) <==> found_at(before, k, i)),
        forall|k: TabKeyModel, i: int|
            k != key && found_at(before, k, i) ==> after[i].1.title@ == before[i].1.title@,
{
    assert forall|i: int, j: int| 0 <= i < j < after.len() implies after[i].0@ != after[j].0@ by {
        if i == at {
            assert(!found_at(before, key, j) || j == at);
        } else if j == at {
            assert(!found_at(before, key, i) || i == at);
        }
    }
    assert forall|i: int| 0 <= i < after.len() implies (#[trigger] after[i]).0@.slot() == slot
        && after[i].1.generation == generation by {
        if i != at {
            assert(after[i] == before[i]);
        }
    }
    assert forall|k: TabKeyModel, i: int| k != key implies (found_at(after, k, i) <==> found_at(
        before,
        k,
        i,
    )) by {
        if 0 <= i < before.len() && i != at {
            assert(after[i] == before[i]);
        }
    }
}

/// The width to which a default title is cut where the caller names none.
pub const DEFAULT_TITLE_MAX_WIDTH: usize = 100;

/// The sign that stands at the end of a title that was cut.
pub open spec fn ellipsis() -> Seq<char> {
    seq!['\u{2026}']
}

/// The glyph that shows `pct` percent of progress: a circle that fills up
/// in eight steps.
pub open spec fn glyph_of(pct: u8) -> char {
    if pct <= 5 {
        '\u{f0130}'
    } else if pct <= 18 {
        '\u{f0a9e}'
    } else if pct <= 31 {
        '\u{f0a9f}'
    } else if pct <= 43 {
        '\u{f0aa0}'
    } else if pct <= 56 {
        '\u{f0aa1}'
    } else if pct <= 68 {
        '\u{f0aa2}'
    } else if pct <= 81 {
        '\u{f0aa3}'
    } else if pct <= 94 {
        '\u{f0aa4}'
    } else {
        '\u{f0aa5}'
    }
}

/// The glyph that shows `pct` percent of progress.
pub fn pct_to_glyph(pct: u8) -> (glyph: char)
    ensures
        glyph == glyph_of(pct),
{
    if pct <= 5 {
        '\u{f0130}'
    } else if pct <= 18 {
        '\u{f0a9e}'
    } else if pct <= 31 {
        '\u{f0a9f}'
    } else if pct <= 43 {
        '\u{f0aa0}'
    } else if pct <= 56 {
        '\u{f0aa1}'
    } else if pct <= 68 {
        '\u{f0aa2}'
    } else if pct <= 81 {
        '\u{f0aa3}'
    } else if pct <= 94 {
        '\u{f0aa4}'
    } else {
        '\u{f0aa5}'
    }
}

/// The glyph for `pct` percent with a blank behind it, as text.
fn glyph_text(pct: u8) -> (text: &'static str)
    ensures
        text@ == seq![glyph_of(pct), ' '],
{
    proof {
        reveal_strlit("\u{f0130} ");
        reveal_strlit("\u{f0a9e} ");
        reveal_strlit("\u{f0a9f} ");
        reveal_strlit("\u{f0aa0} ");
        reveal_strlit("\u{f0aa1} ");
        reveal_strlit("\u{f0aa2} ");
        reveal_strlit("\u{f0aa3} ");
        reveal_strlit("\u{f0aa4} ");
        reveal_strlit("\u{f0aa5} ");
    }
    let text = if pct <= 5 {
        "\u{f0130} "
    } else if pct <= 18 {
        "\u{f0a9e} "
    } else if pct <= 31 {
        "\u{f0a9f} "
    } else if pct <= 43 {
        "\u{f0aa0} "
    } else if pct <= 56 {
        "\u{f0aa1} "
    } else if pct <= 68 {
        "\u{f0aa2} "
    } else if pct <= 81 {
        "\u{f0aa3} "
    } else if pct <= 94 {
        "\u{f0aa4} "
    } else {
        "\u{f0aa5} "
    };
    assert(text@ =~= seq![glyph_of(pct), ' ']);
    text
}

/// The text of the default title of `tab`: the title of the tab; where
/// that is empty, the title of the active pane; and where there is no active
/// pane either, `Tab` and the number of the tab, counted from one.
pub open spec fn default_title_text(tab: &TabInformation) -> Seq<char> {
    if tab.tab_title@.len() > 0 {
        tab.tab_title@
    } else {
        match tab.active_pane {
            Some(pane) => pane.title@,
            None => seq!['T', 'a', 'b', ' '] + decimal((tab.tab_index + 1) as nat),
        }
    }
}

/// The progress of the active pane as it shows in front of the title: the
/// colour, green for progress and red for an error, and the glyph with a
/// blank behind it. A pane without progress, or with progress of unknown
/// extent, shows none.
pub open spec fn progress_graphic(tab: &TabInformation) -> Option<(FormatColor, Seq<char>)> {
    match tab.active_pane {
        Some(pane) => match pane.progress {
            Progress::Percentage(pct) => Some(
                (FormatColor::AnsiColor(AnsiColor::Green), seq![glyph_of(pct), ' ']),
            ),
            Progress::Error(pct) => Some(
                (FormatColor::AnsiColor(AnsiColor::Red), seq![glyph_of(pct), ' ']),
            ),
            _ => None,
        },
        None => None,
    }
}

/// The columns that are left for the text of a title of `max_width`
/// columns that ends in the ellipsis.
pub open spec fn room_before_ellipsis(max_width: usize) -> usize {
    if max_width > 0 {
        (max_width - 1) as usize
    } else {
        0
    }
}

/// The text as it is shown in `max_width` columns: as it is where it fits;
/// else its leading grapheme clusters, as many as fit with one column to
/// spare, and the ellipsis.
pub open spec fn shown_in<M: TextMeasure>(measure: &M, text: Seq<char>, max_width: usize) -> Seq<char> {
    if measure.columns(text) > max_width {
        let clusters = grapheme_clusters(text);
        joined(clusters.take(fitting(measure, clusters, room_before_ellipsis(max_width))))
            + ellipsis()
    } else {
        text
    }
}

/// The sum of two widths, held at `usize::MAX`.
pub open spec fn width_sum(a: usize, b: usize) -> usize {
    if a + b > usize::MAX {
        usize::MAX
    } else {
        (a + b) as usize
    }
}

/// The default title of `tab` in `max_width` columns: the progress of the
/// active pane in its colour, if it shows any, and the text of the title as
/// it is shown in that width. Its length is the width of the progress and of
/// the text together.
pub open spec fn default_title<M: TextMeasure>(
    tab: &TabInformation,
    max_width: usize,
    measure: &M,
) -> TitleModel {
    let shown = shown_in(measure, default_title_text(tab), max_width);
    match progress_graphic(tab) {
        Some((color, graphic)) => TitleModel {
            items: seq![
                FormatItemModel::Foreground(color),
                FormatItemModel::Text(graphic),
                FormatItemModel::Foreground(FormatColor::Default),
                FormatItemModel::Text(shown),
            ],
            len: width_sum(measure.columns(graphic), measure.columns(shown)),
        },
        None => TitleModel {
            items: seq![FormatItemModel::Text(shown)],
            len: measure.columns(shown),
        },
    }
}

/// The text of the default title of `tab`.
pub fn title_text_of(tab: &TabInformation) -> (text: String)
    ensures
        text@ == default_title_text(tab),
{
    if !tab.tab_title.as_str().is_empty() {
        return tab.tab_title.clone();
    }
    match &tab.active_pane {
        Some(pane) => pane.title.clone(),
        None => {
            proof {
                reveal_strlit("Tab ");
            }
            let mut text = String::from_str("Tab ");
            push_decimal(&mut text, tab.tab_index as u128 + 1);
            assert(text@ =~= default_title_text(tab));
            text
        },
    }
}

/// Cuts `text` to `max_width` columns. A text that is cut keeps its
/// beginning, up to the end of a grapheme cluster, and ends in the ellipsis;
/// where a cluster was left out, it is no longer than it was.
pub fn truncate_to_width<M: TextMeasure>(text: String, max_width: usize, measure: &M) -> (shown:
    String)
    ensures
        shown@ == shown_in(measure, text@, max_width),
        measure.columns(text@) > max_width ==> {
            &&& shown@.len() >= 1
            &&& shown@.last() == ellipsis()[0]
            &&& shown@.len() - 1 <= text@.len()
            &&& shown@.drop_last() == text@.take(shown@.len() - 1)
            &&& fitting(measure, grapheme_clusters(text@), room_before_ellipsis(max_width))
                < grapheme_clusters(text@).len() ==> shown@.len() <= text@.len()
        },
{
    if measure.column_width(text.as_str()) <= max_width {
        return text;
    }
    let clusters = clusters_of(text.as_str());
    let room: usize = if max_width > 0 {
        max_width - 1
    } else {
        0
    };
    let ghost parts = grapheme_clusters(text@);
    let mut shown = String::new();
    let mut current_width: usize = 0;
    let mut i: usize = 0;
    assert(parts.take(0) =~= Seq::<Seq<char>>::empty());
    while i < clusters.len()
        invariant
            i <= clusters.len(),
            clusters@.len() == parts.len(),
            forall|j: int| 0 <= j < clusters@.len() ==> clusters@[j]@ == parts[j],
            current_width <= room,
            shown@ == joined(parts.take(i as int)),
            fitting(measure, parts, room) == crate::graphemes::fitting_from(
                measure,
                parts,
                room - current_width,
                i as int,
            ),
        ensures
            i as int == fitting(measure, parts, room),
            shown@ == joined(parts.take(i as int)),
        decreases clusters.len() - i,
    {
        let width = measure.column_width(clusters[i].as_str());
        if width > room - current_width {
            break ;
        }
        shown.append(clusters[i].as_str());
        current_width = current_width + width;
        proof {
            assert(parts.take(i as int + 1).drop_last() =~= parts.take(i as int));
            assert(parts.take(i as int + 1).last() == parts[i as int]);
        }
        i += 1;
    }
    proof {
        reveal_strlit("\u{2026}");
        assert("\u{2026}"@ =~= ellipsis());
        lemma_joined_prefix(parts, i as int);
    }
    let ghost kept = shown@;
    shown.append("\u{2026}");
    assert(shown@.drop_last() =~= kept);
    shown
}

/// Makes the title of `tab` for where no callback gives one, in
/// `max_width` columns as `measure` counts them.
pub fn generate_default_title<M: TextMeasure>(
    tab: &TabInformation,
    max_width: usize,
    measure: &M,
) -> (title: TitleText)
    ensures
        title@ == default_title(tab, max_width, measure),
{
    let mut items: Vec<FormatItem> = Vec::new();
    let mut len: usize = 0;
    let title_text = title_text_of(tab);
    if let Some(pane) = &tab.active_pane {
        match pane.progress {
            Progress::Percentage(pct) => {
                let graphic = String::from_str(glyph_text(pct));
                len = measure.column_width(graphic.as_str());
                items.push(FormatItem::Foreground(FormatColor::AnsiColor(AnsiColor::Green)));
                items.push(FormatItem::Text(graphic));
                items.push(FormatItem::Foreground(FormatColor::Default));
            },
            Progress::Error(pct) => {
                let graphic = String::from_str(glyph_text(pct));
                len = measure.column_width(graphic.as_str());
                items.push(FormatItem::Foreground(FormatColor::AnsiColor(AnsiColor::Red)));
                items.push(FormatItem::Text(graphic));
                items.push(FormatItem::Foreground(FormatColor::Default));
            },
            _ => {},
        }
    }
    let display_title = truncate_to_width(title_text, max_width, measure);
    let width = measure.column_width(display_title.as_str());
    len = if width > usize::MAX - len {
        usize::MAX
    } else {
        len + width
    };
    items.push(FormatItem::Text(display_title));
    let title = TitleText { items, len };
    assert(title@.items =~= default_title(tab, max_width, measure).items);
    title
}

/// The title of `tab`: the cached one where there is one; else the one
/// that `compute_fn` gives, which is cached; else, where `compute_fn`
/// gives none, the default title in `DEFAULT_TITLE_MAX_WIDTH` columns, which
/// is not cached, so that the next call asks `compute_fn` again.
pub fn get_tab_title_cached<F, M: TextMeasure>(
    cache: &mut TabTitleCache,
    tab: &TabInformation,
    hover: bool,
    compute_fn: F,
    measure: &M,
) -> (title: TitleText) where F: FnOnce() -> Option<TitleText>
    requires
        old(cache).wf(),
        !old(cache)@.titles.contains_key(key_of(tab, hover)) ==> compute_fn.requires(()),
    ensures
        final(cache).wf(),
        final(cache)@.generation == old(cache)@.generation,
        old(cache)@.titles.contains_key(key_of(tab, hover)) ==> {
            &&& title@ == old(cache)@.titles[key_of(tab, hover)]
            &&& final(cache)@ == old(cache)@
        },
        !old(cache)@.titles.contains_key(key_of(tab, hover)) ==> {
            ||| {
                &&& compute_fn.ensures((), Some(title))
                &&& final(cache)@.titles == old(cache)@.titles.insert(key_of(tab, hover), title@)
            }
            ||| {
                &&& compute_fn.ensures((), None)
                &&& title@ == default_title(tab, DEFAULT_TITLE_MAX_WIDTH, measure)
                &&& final(cache)@ == old(cache)@
            }
        },
{
    let key = TabCacheKey::from_tab_info(tab, hover);
    if let Some(cached) = cache.get(&key) {
        return cached;
    }
    match compute_fn() {
        Some(title) => {
            let kept = title.duplicate();
            cache.insert(key, kept);
            title
        },
        None => generate_default_title(tab, DEFAULT_TITLE_MAX_WIDTH, measure),
    }
}

/// Begins a new generation of the tab title cache.
pub fn invalidate_tab_title_cache(cache: &mut TabTitleCache)
    requires
        old(cache).wf(),
    ensures
        final(cache).wf(),
        final(cache)@.titles == Map::<TabKeyModel, TitleModel>::empty(),
        final(cache)@.generation == next_generation(old(cache)@.generation),
{
    cache.invalidate();
}

/// Empties the tab title cache and begins a new generation.
pub fn clear_tab_title_cache(cache: &mut TabTitleCache)
    ensures
        final(cache).wf(),
        final(cache)@.titles == Map::<TabKeyModel, TitleModel>::empty(),
        final(cache)@.generation == next_generation(old(cache)@.generation),
{
    cache.clear();
}

} // verus!
