//! Caches for the results of scripted callbacks: the window title and the
//! status line.
//!
//! A cache keeps each result under the hash of the key it was computed for,
//! stamped with the cache's generation. Invalidating the cache begins a new
//! generation, and entries of an older one are never returned.

use crate::cachekey::{
    flag_encoding, hash_key, number_encoding, optional_number_encoding, put_flag, put_number,
    put_optional_number, put_text, slot_of, text_encoding, CacheKey,
};
use crate::tab_title_cache::{invalidate_tab_title_cache, TabKeyModel, TabTitleCache};
use crate::titletext::TitleModel;
use crate::text::{decimal, push_decimal};
use std::collections::HashMap;
use vstd::prelude::*;
use vstd::string::StringExecFns;

verus! {

/// Status updates are cached for this many milliseconds at most.
pub const STATUS_BUCKET_MILLIS: u64 = 200;

/// One item of the status line.
#[derive(Clone, Debug, PartialEq, Eq, Hash)]
pub struct StatusItem {
    pub text: String,
}

/// What the window title is computed from.
#[derive(Hash, Eq, PartialEq, Clone, Debug)]
pub struct WindowTitleKey {
    active_tab_id: Option<usize>,
    active_pane_id: Option<usize>,
    active_tab_title: String,
    active_pane_title: String,
    num_tabs: usize,
    is_zoomed: bool,
}

/// A window title key as a model value.
pub struct WindowTitleModel {
    pub active_tab_id: Option<usize>,
    pub active_pane_id: Option<usize>,
    pub active_tab_title: Seq<char>,
    pub active_pane_title: Seq<char>,
    pub num_tabs: usize,
    pub is_zoomed: bool,
}

impl View for WindowTitleKey {
    type V = WindowTitleModel;

    closed spec fn view(&self) -> WindowTitleModel {
        WindowTitleModel {
            active_tab_id: self.active_tab_id,
            active_pane_id: self.active_pane_id,
            active_tab_title: self.active_tab_title@,
            active_pane_title: self.active_pane_title@,
            num_tabs: self.num_tabs,
            is_zoomed: self.is_zoomed,
        }
    }
}

impl WindowTitleModel {
    /// The bytes that stand for the key: its fields, one after the other.
    pub open spec fn encoding(self) -> Seq<u8> {
        optional_number_encoding(self.active_tab_id) + optional_number_encoding(
            self.active_pane_id,
        ) + text_encoding(self.active_tab_title) + text_encoding(self.active_pane_title)
            + number_encoding(self.num_tabs) + flag_encoding(self.is_zoomed)
    }
}

impl WindowTitleKey {
    pub fn new(
        active_tab_id: Option<usize>,
        active_pane_id: Option<usize>,
        active_tab_title: String,
        active_pane_title: String,
        num_tabs: usize,
        is_zoomed: bool,
    ) -> (key: Self)
        ensures
            key@ == (WindowTitleModel {
                active_tab_id,
                active_pane_id,
                active_tab_title: active_tab_title@,
                active_pane_title: active_pane_title@,
                num_tabs,
                is_zoomed,
            }),
    {
        Self {
            active_tab_id,
            active_pane_id,
            active_tab_title,
            active_pane_title,
            num_tabs,
            is_zoomed,
        }
    }
}

impl CacheKey for WindowTitleKey {
    open spec fn encoding(&self) -> Seq<u8> {
        self@.encoding()
    }

    fn encode(&self) -> (bytes: Vec<u8>) {
        let mut out: Vec<u8> = Vec::new();
        put_optional_number(&mut out, self.active_tab_id);
        put_optional_number(&mut out, self.active_pane_id);
        put_text(&mut out, self.active_tab_title.as_str());
        put_text(&mut out, self.active_pane_title.as_str());
        put_number(&mut out, self.num_tabs);
        put_flag(&mut out, self.is_zoomed);
        assert(out@ =~= self@.encoding());
        out
    }
}

/// What the status line is computed from.
#[derive(Hash, Eq, PartialEq, Clone, Debug)]
pub struct StatusKey {
    active_pane_id: Option<usize>,
    active_pane_title: String,
    time_bucket: u64,
}

/// A status key as a model value.
pub struct StatusModel {
    pub active_pane_id: Option<usize>,
    pub active_pane_title: Seq<char>,
    /// The number of the stretch of `STATUS_BUCKET_MILLIS` milliseconds in
    /// which the key was made.
    pub time_bucket: u64,
}

impl View for StatusKey {
    type V = StatusModel;

    closed spec fn view(&self) -> StatusModel {
        StatusModel {
            active_pane_id: self.active_pane_id,
            active_pane_title: self.active_pane_title@,
            time_bucket: self.time_bucket,
        }
    }
}

impl StatusModel {
    /// The bytes that stand for the key: its fields, one after the other.
    pub open spec fn encoding(self) -> Seq<u8> {
        optional_number_encoding(self.active_pane_id) + text_encoding(self.active_pane_title)
            + vstd::bytes::spec_u64_to_le_bytes(self.time_bucket)
    }
}

impl StatusKey {
    /// The key for the status of a pane at `unix_millis` milliseconds of
    /// the calendar clock. Keys made within the same fifth of a second are
    /// the same, so that a cached status is computed afresh after that time
    /// at the latest.
    pub fn new(active_pane_id: Option<usize>, active_pane_title: String, unix_millis: u64) -> (key:
        Self)
        ensures
            key@ == (StatusModel {
                active_pane_id,
                active_pane_title: active_pane_title@,
                time_bucket: unix_millis / STATUS_BUCKET_MILLIS,
            }),
    {
        Self { active_pane_id, active_pane_title, time_bucket: unix_millis / STATUS_BUCKET_MILLIS }
    }
}

impl CacheKey for StatusKey {
    open spec fn encoding(&self) -> Seq<u8> {
        self@.encoding()
    }

    fn encode(&self) -> (bytes: Vec<u8>) {
        let mut out: Vec<u8> = Vec::new();
        put_optional_number(&mut out, self.active_pane_id);
        put_text(&mut out, self.active_pane_title.as_str());
        let mut bucket = vstd::bytes::u64_to_le_bytes(self.time_bucket);
        out.append(&mut bucket);
        assert(out@ =~= self@.encoding());
        out
    }
}

/// A cached result with the generation it was cached in.
pub struct CacheEntry<T> {
    pub value: T,
    pub generation: usize,
}

/// What a cache holds: the results by the hash of their keys, and the
/// number of the generation.
pub struct CacheModel<T> {
    pub slots: Map<u64, T>,
    pub generation: usize,
}

/// The generation that follows `generation`; after the last one the count
/// begins again.
pub open spec fn next_generation(generation: usize) -> usize {
    if generation == usize::MAX {
        0
    } else {
        (generation + 1) as usize
    }
}

/// A cache of callback results.
pub struct CallbackCache<T> {
    entries: HashMap<u64, CacheEntry<T>>,
    generation: usize,
}

impl<T> View for CallbackCache<T> {
    type V = CacheModel<T>;

    closed spec fn view(&self) -> CacheModel<T> {
        CacheModel {
            slots: Map::new(
                |h: u64| self.entries@.contains_key(h),
                |h: u64| self.entries@[h].value,
            ),
            generation: self.generation,
        }
    }
}

impl<T: Clone> CallbackCache<T> {
    /// Every entry is of the current generation.
    pub closed spec fn wf(&self) -> bool {
        forall|h: u64| #[trigger]
            self.entries@.contains_key(h) ==> self.entries@[h].generation == self.generation
    }

    /// An empty cache in its first generation.
    pub fn new() -> (cache: Self)
        ensures
            cache.wf(),
            cache@.slots == Map::<u64, T>::empty(),
            cache@.generation == 0,
    {
        let cache = Self { entries: HashMap::new(), generation: 0 };
        assert(cache@.slots =~= Map::<u64, T>::empty());
        cache
    }

    /// A copy of the result cached for `key`, if there is one.
    pub fn get<K: CacheKey>(&self, key: &K) -> (r: Option<T>)
        requires
            self.wf(),
        ensures
            match r {
                Some(value) => self@.slots.contains_key(slot_of(key.encoding())) && cloned(
                    self@.slots[slot_of(key.encoding())],
                    value,
                ),
                None => !self@.slots.contains_key(slot_of(key.encoding())),
            },
    {
        let hash = Self::hash_key(key);
        match self.entries.get(&hash) {
            Some(entry) => {
                if entry.generation == self.generation {
                    Some(entry.value.clone())
                } else {
                    None
                }
            },
            None => None,
        }
    }

    /// Caches `value` as the result for `key`, in place of what was cached
    /// for it before.
    pub fn insert<K: CacheKey>(&mut self, key: K, value: T)
        requires
            old(self).wf(),
        ensures
            final(self).wf(),
            final(self)@.slots == old(self)@.slots.insert(slot_of(key.encoding()), value),
            final(self)@.generation == old(self)@.generation,
    {
        let hash = Self::hash_key(&key);
        self.entries.insert(hash, CacheEntry { value, generation: self.generation });
        assert(self@.slots =~= old(self)@.slots.insert(slot_of(key.encoding()), value));
    }

    /// Begins a new generation. Every entry is of an older one by then, and
    /// goes.
    pub fn invalidate(&mut self)
        requires
            old(self).wf(),
        ensures
            final(self).wf(),
            final(self)@.slots == Map::<u64, T>::empty(),
            final(self)@.generation == next_generation(old(self)@.generation),
    {
        self.generation = self.generation.wrapping_add(1);
        self.entries.clear();
        assert(self@.slots =~= Map::<u64, T>::empty());
    }

    /// Drops every entry. The generation stays.
    pub fn clear(&mut self)
        ensures
            final(self).wf(),
            final(self)@.slots == Map::<u64, T>::empty(),
            final(self)@.generation == old(self)@.generation,
    {
        self.entries.clear();
        assert(self@.slots =~= Map::<u64, T>::empty());
    }

    /// The number of results that the cache holds.
    pub fn len(&self) -> (n: usize)
        ensures
            n == self@.slots.len(),
            self@.slots.dom().finite(),
    {
        assert(self@.slots.dom() =~= self.entries@.dom());
        self.entries.len()
    }

    /// The hash under which the result for `key` is kept.
    pub fn hash_key<K: CacheKey>(key: &K) -> (h: u64)
        ensures
            h == slot_of(key.encoding()),
    {
        hash_key(key)
    }
}

/// The title of a window for which no callback gives one: the title of the
/// active pane, behind the number of the active tab among all tabs where
/// there are several, and behind `[Z] ` where the pane is zoomed.
pub open spec fn default_window_title(key: WindowTitleModel) -> Seq<char> {
    let zoomed = if key.is_zoomed {
        seq!['[', 'Z', ']', ' ']
    } else {
        Seq::<char>::empty()
    };
    if key.num_tabs == 1 {
        zoomed + key.active_pane_title
    } else {
        let tab = match key.active_tab_id {
            Some(id) => (id + 1) as nat,
            None => 1nat,
        };
        zoomed + seq!['['] + decimal(tab) + seq!['/'] + decimal(key.num_tabs as nat) + seq![
            ']',
            ' ',
        ] + key.active_pane_title
    }
}

/// Makes the title of a window for which no callback gives one.
pub fn generate_default_window_title(key: &WindowTitleKey) -> (title: String)
    ensures
        title@ == default_window_title(key@),
{
    proof {
        reveal_strlit("[Z] ");
        reveal_strlit("[");
        reveal_strlit("/");
        reveal_strlit("] ");
    }
    let mut title = String::new();
    if key.is_zoomed {
        title.append("[Z] ");
    }
    if key.num_tabs != 1 {
        let tab: u128 = match key.active_tab_id {
            Some(id) => id as u128 + 1,
            None => 1,
        };
        title.append("[");
        push_decimal(&mut title, tab);
        title.append("/");
        push_decimal(&mut title, key.num_tabs as u128);
        title.append("] ");
    }
    title.append(key.active_pane_title.as_str());
    assert(title@ =~= default_window_title(key@));
    title
}

/// The window title for `key`: the cached one where there is one; else
/// the one that `compute_fn` gives, which is cached; else, where
/// `compute_fn` gives none, the default title, which is not cached.
pub fn get_window_title_cached<F>(
    cache: &mut CallbackCache<String>,
    key: WindowTitleKey,
    compute_fn: F,
) -> (title: String) where F: FnOnce() -> Option<String>
    requires
        old(cache).wf(),
        !old(cache)@.slots.contains_key(slot_of(key.encoding())) ==> compute_fn.requires(()),
    ensures
        final(cache).wf(),
        final(cache)@.generation == old(cache)@.generation,
        old(cache)@.slots.contains_key(slot_of(key.encoding())) ==> {
            &&& title == old(cache)@.slots[slot_of(key.encoding())]
            &&& final(cache)@ == old(cache)@
        },
        !old(cache)@.slots.contains_key(slot_of(key.encoding())) ==> {
            ||| {
                &&& compute_fn.ensures((), Some(title))
                &&& final(cache)@.slots == old(cache)@.slots.insert(
                    slot_of(key.encoding()),
                    title,
                )
            }
            ||| {
                &&& compute_fn.ensures((), None)
                &&& title@ == default_window_title(key@)
                &&& final(cache)@ == old(cache)@
            }
        },
{
    if let Some(cached) = cache.get(&key) {
        return cached;
    }
    match compute_fn() {
        Some(title) => {
            let kept = title.clone();
            cache.insert(key, kept);
            title
        },
        None => generate_default_window_title(&key),
    }
}

/// The status for `key`: the cached one where there is one; else the one
/// that `compute_fn` gives, which is cached; else, where `compute_fn`
/// gives none, no items, which is not cached.
pub fn get_status_cached<F>(
    cache: &mut CallbackCache<Vec<StatusItem>>,
    key: StatusKey,
    compute_fn: F,
) -> (status: Vec<StatusItem>) where F: FnOnce() -> Option<Vec<StatusItem>>
    requires
        old(cache).wf(),
        !old(cache)@.slots.contains_key(slot_of(key.encoding())) ==> compute_fn.requires(()),
    ensures
        final(cache).wf(),
        final(cache)@.generation == old(cache)@.generation,
        old(cache)@.slots.contains_key(slot_of(key.encoding())) ==> {
            &&& cloned(old(cache)@.slots[slot_of(key.encoding())], status)
            &&& final(cache)@ == old(cache)@
        },
        !old(cache)@.slots.contains_key(slot_of(key.encoding())) ==> {
            ||| {
                &&& compute_fn.ensures((), Some(status))
                &&& final(cache)@.slots.dom() == old(cache)@.slots.dom().insert(
                    slot_of(key.encoding()),
                )
                &&& cloned(status, final(cache)@.slots[slot_of(key.encoding())])
                &&& forall|h: u64|
                    old(cache)@.slots.contains_key(h) && h != slot_of(key.encoding())
                        ==> final(cache)@.slots[h] == old(cache)@.slots[h]
            }
            ||| {
                &&& compute_fn.ensures((), None)
                &&& status@.len() == 0
                &&& final(cache)@ == old(cache)@
            }
        },
{
    if let Some(cached) = cache.get(&key) {
        return cached;
    }
    match compute_fn() {
        Some(status) => {
            let kept = status.clone();
            cache.insert(key, kept);
            status
        },
        None => Vec::new(),
    }
}

/// Begins a new generation of the window title cache.
pub fn invalidate_window_title_cache(cache: &mut CallbackCache<String>)
    requires
        old(cache).wf(),
    ensures
        final(cache).wf(),
        final(cache)@.slots == Map::<u64, String>::empty(),
        final(cache)@.generation == next_generation(old(cache)@.generation),
{
    cache.invalidate();
}

/// Begins a new generation of the status cache.
pub fn invalidate_status_cache(cache: &mut CallbackCache<Vec<StatusItem>>)
    requires
        old(cache).wf(),
    ensures
        final(cache).wf(),
        final(cache)@.slots == Map::<u64, Vec<StatusItem>>::empty(),
        final(cache)@.generation == next_generation(old(cache)@.generation),
{
    cache.invalidate();
}

/// Begins a new generation of all three caches: of window titles, of the
/// status and of tab titles.
pub fn invalidate_all_caches(
    window_titles: &mut CallbackCache<String>,
    status: &mut CallbackCache<Vec<StatusItem>>,
    tab_titles: &mut TabTitleCache,
)
    requires
        old(window_titles).wf(),
        old(status).wf(),
        old(tab_titles).wf(),
    ensures
        final(window_titles).wf(),
        final(status).wf(),
        final(tab_titles).wf(),
        final(window_titles)@.slots == Map::<u64, String>::empty(),
        final(status)@.slots == Map::<u64, Vec<StatusItem>>::empty(),
        final(tab_titles)@.titles == Map::<TabKeyModel, TitleModel>::empty(),
        final(window_titles)@.generation == next_generation(old(window_titles)@.generation),
        final(status)@.generation == next_generation(old(status)@.generation),
        final(tab_titles)@.generation == next_generation(old(tab_titles)@.generation),
{
    invalidate_window_title_cache(window_titles);
    invalidate_status_cache(status);
    invalidate_tab_title_cache(tab_titles);
}

} // verus!
