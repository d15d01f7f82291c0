//! A cache of Lua tables made from values of the program.
//!
//! Making a Lua table of a tab or of a pane is costly, so each table is
//! made once and kept in the registry of the Lua state. The cache keeps
//! the registry keys by the number of the tab or pane, stamped with the
//! cache's generation. A table of an older generation is made afresh.

use crate::tabinfo::{PaneInformation, TabInformation};
use mlua::{Error, Lua, RegistryKey, Table};
use std::collections::HashMap;
use std::hash::Hash;
use std::marker::PhantomData;
use vstd::prelude::*;
use vstd::std_specs::hash::obeys_key_model;

verus! {

#[verifier::external_type_specification]
#[verifier::external_body]
pub struct ExLua(Lua);

#[verifier::external_type_specification]
#[verifier::external_body]
pub struct ExTable<'lua>(Table<'lua>);

#[verifier::external_type_specification]
#[verifier::external_body]
pub struct ExRegistryKey(RegistryKey);

#[verifier::external_type_specification]
#[verifier::external_body]
pub struct ExError(Error);

/// `mlua::Lua::registry_value`, for a table: the table that the registry of
/// `lua` holds under `key`, or the error that Lua reports. The outcome
/// depends on the Lua state, and nothing is claimed of it.
#[verifier::external_body]
fn registry_table<'lua>(lua: &'lua Lua, key: &RegistryKey) -> Result<Table<'lua>, Error> {
    lua.registry_value(key)
}

/// `mlua::Lua::create_table` and, for the table it made,
/// `mlua::Lua::create_registry_value`: a new, empty table of `lua` that is
/// placed in the registry of `lua`, with the key under which it is kept
/// there, or the error that Lua reports. The table is made on the state
/// whose registry takes it, so that the two calls cannot be at odds. The
/// outcome depends on the Lua state, and nothing is claimed of it.
#[verifier::external_body]
fn new_registered_table<'lua>(lua: &'lua Lua) -> Result<(Table<'lua>, RegistryKey), Error> {
    let table = lua.create_table()?;
    let registry_key = lua.create_registry_value(table.clone())?;
    Ok((table, registry_key))
}

/// `std::collections::HashMap::retain`: of the entries of `entries`, those
/// of the generation `generation` stay as they are, and the others go.
#[verifier::external_body]
fn retain_generation<K: Eq + Hash>(entries: &mut HashMap<K, CacheEntry>, generation: usize)
    ensures
        obeys_key_model::<K>() ==> final(entries)@ == old(entries)@.restrict(
            Set::new(
                |k: K| old(entries)@.contains_key(k) && old(entries)@[k].generation == generation,
            ),
        ),
{
    entries.retain(|_, entry| entry.is_of(generation));
}

/// A cached table: the key under which the registry holds it, and the
/// generation it was cached in.
pub struct CacheEntry {
    pub registry_key: RegistryKey,
    pub generation: usize,
}

impl CacheEntry {
    /// Whether the entry is of the generation `generation`.
    pub fn is_of(&self, generation: usize) -> (b: bool)
        ensures
            b == (self.generation == generation),
    {
        self.generation == generation
    }
}

/// What the cache holds: the entries by their keys, and the number of the
/// generation.
#[verifier::reject_recursive_types(K)]
pub struct LuaCacheModel<K> {
    pub entries: Map<K, CacheEntry>,
    pub generation: usize,
}

impl<K> LuaCacheModel<K> {
    /// The entry for `id` is there and of the current generation.
    pub open spec fn is_current(self, id: K) -> bool {
        self.entries.contains_key(id) && self.entries[id].generation == self.generation
    }

    /// The entries of the current generation.
    pub open spec fn current_entries(self) -> Map<K, CacheEntry> {
        self.entries.restrict(Set::new(|k: K| self.is_current(k)))
    }
}

/// A cache of the Lua tables made from values of type `T`, by keys of type `K`.
#[verifier::reject_recursive_types(K)]
pub struct LuaTableCache<K, T> where K: Hash + Eq + Clone, T: Clone {
    entries: HashMap<K, CacheEntry>,
    generation: usize,
    name: &'static str,
    _phantom: PhantomData<T>,
}

impl<K, T> View for LuaTableCache<K, T> where K: Hash + Eq + Clone, T: Clone {
    type V = LuaCacheModel<K>;

    closed spec fn view(&self) -> LuaCacheModel<K> {
        LuaCacheModel { entries: self.entries@, generation: self.generation }
    }
}

impl<K, T> LuaTableCache<K, T> where K: Hash + Eq + Clone, T: Clone {
    /// An empty cache in its first generation. The name tells the caches
    /// apart in what is logged of them.
    pub fn new(name: &'static str) -> (cache: Self)
        ensures
            cache@.entries == Map::<K, CacheEntry>::empty(),
            cache@.generation == 0,
            cache.name_of() == name,
    {
        Self { entries: HashMap::new(), generation: 0, name, _phantom: PhantomData }
    }

    /// The name of the cache, as a model value.
    pub closed spec fn name_of(&self) -> &'static str {
        self.name
    }

    /// The name of the cache.
    pub fn name(&self) -> (name: &'static str)
        ensures
            name == self.name_of(),
    {
        self.name
    }

    /// The number of the current generation.
    pub fn generation(&self) -> (g: usize)
        ensures
            g == self@.generation,
    {
        self.generation
    }

    /// The registry key of the table cached for `id`, where there is one of
    /// the current generation.
    pub fn lookup(&self, id: &K) -> (key: Option<&RegistryKey>)
        requires
            obeys_key_model::<K>(),
        ensures
            match key {
                Some(k) => self@.is_current(*id) && *k == self@.entries[*id].registry_key,
                None => !self@.is_current(*id),
            },
    {
        match self.entries.get(id) {
            Some(entry) => {
                if entry.generation == self.generation {
                    Some(&entry.registry_key)
                } else {
                    None
                }
            },
            None => None,
        }
    }

    /// Keeps `registry_key` as the key of the table for `id`, in the current
    /// generation and in place of what was kept for `id` before.
    pub fn store(&mut self, id: K, registry_key: RegistryKey)
        requires
            obeys_key_model::<K>(),
        ensures
            final(self)@.generation == old(self)@.generation,
            final(self)@.entries == old(self)@.entries.insert(
                id,
                CacheEntry { registry_key, generation: old(self)@.generation },
            ),
            final(self).name_of() == old(self).name_of(),
    {
        self.entries.insert(id, CacheEntry { registry_key, generation: self.generation });
    }

    /// Takes up how the filling of `table` ended, which was made for `id`
    /// and is kept in the registry under `registry_key`: where it was
    /// filled, it is cached for `id` under that key, in the current
    /// generation, and returned; where the filling failed, the error is
    /// returned and the cache stays as it was.
    pub fn keep_table<'lua>(
        &mut self,
        id: K,
        table: Table<'lua>,
        registry_key: RegistryKey,
        filled: Result<(), Error>,
    ) -> (r: Result<Table<'lua>, Error>)
        requires
            obeys_key_model::<K>(),
        ensures
            final(self)@.generation == old(self)@.generation,
            final(self).name_of() == old(self).name_of(),
            match filled {
                Ok(_) => {
                    &&& r == Ok::<Table<'lua>, Error>(table)
                    &&& final(self)@.entries == old(self)@.entries.insert(
                        id,
                        CacheEntry { registry_key, generation: old(self)@.generation },
                    )
                },
                Err(e) => r == Err::<Table<'lua>, Error>(e) && final(self)@ == old(self)@,
            },
    {
        match filled {
            Ok(_) => {
                self.store(id, registry_key);
                Ok(table)
            },
            Err(e) => Err(e),
        }
    }

    /// The Lua table for `data`, which goes by `id`.
    ///
    /// Where the cache holds a table for `id` in the current generation, the
    /// registry is asked for it, the answer is returned and the cache stays
    /// as it was. Otherwise a new table is made on `lua` and placed in its
    /// registry, and `fill_fn` fills it from `data`: once it is filled, it
    /// is cached for `id` and returned. An error of Lua or of `fill_fn` is
    /// returned as it is, and the cache stays as it was.
    pub fn get_or_create<'lua, F>(&mut self, lua: &'lua Lua, id: K, data: &T, fill_fn: F) -> (r:
        Result<Table<'lua>, Error>) where
        F: FnOnce(&'lua Lua, &Table<'lua>, &T) -> Result<(), Error>,

        requires
            obeys_key_model::<K>(),
            !old(self)@.is_current(id) ==> forall|table: &Table<'lua>| #[trigger]
                fill_fn.requires((lua, table, data)),
        ensures
            final(self)@.generation == old(self)@.generation,
            final(self).name_of() == old(self).name_of(),
            old(self)@.is_current(id) ==> final(self)@ == old(self)@,
            !old(self)@.is_current(id) ==> match r {
                Ok(table) => {
                    &&& fill_fn.ensures((lua, &table, data), Ok(()))
                    &&& final(self)@.is_current(id)
                    &&& final(self)@.entries == old(self)@.entries.insert(
                        id,
                        final(self)@.entries[id],
                    )
                },
                Err(_) => final(self)@ == old(self)@,
            },
    {
        if let Some(registry_key) = self.lookup(&id) {
            return registry_table(lua, registry_key);
        }
        match new_registered_table(lua) {
            Ok((table, registry_key)) => {
                let filled = fill_fn(lua, &table, data);
                assert(filled is Ok ==> filled == Ok::<(), Error>(filled->Ok_0));
                self.keep_table(id, table, registry_key, filled)
            },
            Err(e) => Err(e),
        }
    }

    /// Begins a new generation: the tables cached so far are made afresh
    /// when they are asked for. The entries stay until they are cleaned up.
    pub fn invalidate(&mut self)
        ensures
            final(self)@.entries == old(self)@.entries,
            final(self)@.generation == crate::callback_cache::next_generation(
                old(self)@.generation,
            ),
            final(self).name_of() == old(self).name_of(),
    {
        self.generation = self.generation.wrapping_add(1);
    }

    /// Drops every entry. The generation stays.
    pub fn clear(&mut self)
        ensures
            final(self)@.entries == Map::<K, CacheEntry>::empty(),
            final(self)@.generation == old(self)@.generation,
            final(self).name_of() == old(self).name_of(),
    {
        self.entries.clear();
    }

    /// Drops the entries of older generations; those of the current one stay.
    /// The result is the number of entries dropped.
    pub fn cleanup_old_generations(&mut self) -> (removed: usize)
        requires
            obeys_key_model::<K>(),
        ensures
            final(self)@.entries == old(self)@.current_entries(),
            final(self)@.generation == old(self)@.generation,
            final(self).name_of() == old(self).name_of(),
            removed == old(self)@.entries.len() - final(self)@.entries.len(),
    {
        let before_count = self.entries.len();
        retain_generation(&mut self.entries, self.generation);
        proof {
            assert(self@.entries =~= old(self)@.current_entries());
            assert(self@.entries.dom().subset_of(old(self)@.entries.dom()));
            vstd::set_lib::lemma_len_subset(self@.entries.dom(), old(self)@.entries.dom());
        }
        before_count - self.entries.len()
    }

    /// The number of entries, of whatever generation.
    pub fn len(&self) -> (n: usize)
        requires
            obeys_key_model::<K>(),
        ensures
            n == self@.entries.len(),
    {
        self.entries.len()
    }
}

/// The Lua tables for `items`, which go by `ids`, in their order.
///
/// Each table comes from the cache or, where the cache has none of the
/// current generation, is made on `lua`, filled by `fill_fn` and cached. The
/// first error ends the work and is returned. The cache keeps its
/// generation and every entry it had, but for those that were made afresh;
/// where all went well, there is one table for each item, and the cache
/// holds a table of the current generation for every one of `ids`.
fn tables_from_cache<'lua, T: Clone, F>(
    cache: &mut LuaTableCache<usize, T>,
    lua: &'lua Lua,
    ids: &Vec<usize>,
    items: &[T],
    fill_fn: F,
) -> (r: Result<Vec<Table<'lua>>, Error>) where
    F: Fn(&'lua Lua, &Table<'lua>, &T) -> Result<(), Error>,

    requires
        ids@.len() == items@.len(),
        forall|i: int, table: &Table<'lua>|
            0 <= i < items@.len() ==> #[trigger] fill_fn.requires((lua, table, &items@[i])),
    ensures
        final(cache)@.generation == old(cache)@.generation,
        final(cache).name_of() == old(cache).name_of(),
        forall|k: usize| old(cache)@.entries.contains_key(k) ==> final(cache)@.entries.contains_key(k),
        forall|k: usize| old(cache)@.is_current(k) ==> final(cache)@.is_current(k),
        r matches Ok(tables) ==> tables@.len() == items@.len() && forall|i: int|
            0 <= i < ids@.len() ==> final(cache)@.is_current(ids@[i]),
{
    let mut tables: Vec<Table<'lua>> = Vec::new();
    let mut i: usize = 0;
    while i < items.len()
        invariant
            i <= items@.len(),
            ids@.len() == items@.len(),
            tables@.len() == i,
            forall|j: int, table: &Table<'lua>|
                0 <= j < items@.len() ==> #[trigger] fill_fn.requires((lua, table, &items@[j])),
            cache@.generation == old(cache)@.generation,
            cache.name_of() == old(cache).name_of(),
            forall|k: usize| old(cache)@.entries.contains_key(k) ==> cache@.entries.contains_key(k),
            forall|k: usize| old(cache)@.is_current(k) ==> cache@.is_current(k),
            forall|j: int| 0 <= j < i ==> cache@.is_current(ids@[j]),
        decreases items@.len() - i,
    {
        let ghost before = cache@;
        let id = ids[i];
        let table = match cache.lookup(&id) {
            Some(registry_key) => registry_table(lua, registry_key),
            None => match new_registered_table(lua) {
                Ok((table, registry_key)) => {
                    let filled = fill_fn(lua, &table, &items[i]);
                    cache.keep_table(id, table, registry_key, filled)
                },
                Err(e) => Err(e),
            },
        };
        match table {
            Ok(table) => {
                tables.push(table);
            },
            Err(e) => {
                return Err(e);
            },
        }
        assert(cache@.is_current(id));
        assert(forall|k: usize| before.is_current(k) ==> cache@.is_current(k));
        i += 1;
    }
    Ok(tables)
}

/// The Lua tables of `tabs`, in their order: the items of the Lua sequence
/// that stands for the tabs.
///
/// Each table comes from the cache or, where the cache has none of the
/// current generation for the tab, is made on `lua`, filled by `fill_fn`
/// and cached. The first error ends the work and is returned. Where all
/// went well, there is one table for each tab, and the cache holds a table
/// of the current generation for every tab.
pub fn get_tabs_as_lua_sequence<'lua, F>(
    cache: &mut LuaTableCache<usize, TabInformation>,
    lua: &'lua Lua,
    tabs: &[TabInformation],
    fill_fn: F,
) -> (r: Result<Vec<Table<'lua>>, Error>) where
    F: Fn(&'lua Lua, &Table<'lua>, &TabInformation) -> Result<(), Error>,

    requires
        forall|i: int, table: &Table<'lua>|
            0 <= i < tabs@.len() ==> #[trigger] fill_fn.requires((lua, table, &tabs@[i])),
    ensures
        final(cache)@.generation == old(cache)@.generation,
        forall|k: usize| old(cache)@.entries.contains_key(k) ==> final(cache)@.entries.contains_key(k),
        forall|k: usize| old(cache)@.is_current(k) ==> final(cache)@.is_current(k),
        r matches Ok(tables) ==> tables@.len() == tabs@.len() && forall|i: int|
            0 <= i < tabs@.len() ==> final(cache)@.is_current((#[trigger] tabs@[i]).tab_id),
{
    let mut ids: Vec<usize> = Vec::new();
    let mut i: usize = 0;
    while i < tabs.len()
        invariant
            i <= tabs@.len(),
            ids@.len() == i,
            forall|j: int| 0 <= j < i ==> ids@[j] == tabs@[j].tab_id,
        decreases tabs@.len() - i,
    {
        ids.push(tabs[i].tab_id);
        i += 1;
    }
    let r = tables_from_cache(cache, lua, &ids, tabs, fill_fn);
    assert forall|i: int| 0 <= i < tabs@.len() && r is Ok implies cache@.is_current(
        (#[trigger] tabs@[i]).tab_id,
    ) by {
        assert(cache@.is_current(ids@[i]));
    }
    r
}

/// The Lua tables of `panes`, in their order: the items of the Lua
/// sequence that stands for the panes.
///
/// Each table comes from the cache or, where the cache has none of the
/// current generation for the pane, is made on `lua`, filled by `fill_fn`
/// and cached. The first error ends the work and is returned. Where all
/// went well, there is one table for each pane, and the cache holds a table
/// of the current generation for every pane.
pub fn get_panes_as_lua_sequence<'lua, F>(
    cache: &mut LuaTableCache<usize, PaneInformation>,
    lua: &'lua Lua,
    panes: &[PaneInformation],
    fill_fn: F,
) -> (r: Result<Vec<Table<'lua>>, Error>) where
    F: Fn(&'lua Lua, &Table<'lua>, &PaneInformation) -> Result<(), Error>,

    requires
        forall|i: int, table: &Table<'lua>|
            0 <= i < panes@.len() ==> #[trigger] fill_fn.requires((lua, table, &panes@[i])),
    ensures
        final(cache)@.generation == old(cache)@.generation,
        forall|k: usize| old(cache)@.entries.contains_key(k) ==> final(cache)@.entries.contains_key(k),
        forall|k: usize| old(cache)@.is_current(k) ==> final(cache)@.is_current(k),
        r matches Ok(tables) ==> tables@.len() == panes@.len() && forall|i: int|
            0 <= i < panes@.len() ==> final(cache)@.is_current((#[trigger] panes@[i]).pane_id),
{
    let mut ids: Vec<usize> = Vec::new();
    let mut i: usize = 0;
    while i < panes.len()
        invariant
            i <= panes@.len(),
            ids@.len() == i,
            forall|j: int| 0 <= j < i ==> ids@[j] == panes@[j].pane_id,
        decreases panes@.len() - i,
    {
        ids.push(panes[i].pane_id);
        i += 1;
    }
    let r = tables_from_cache(cache, lua, &ids, panes, fill_fn);
    assert forall|i: int| 0 <= i < panes@.len() && r is Ok implies cache@.is_current(
        (#[trigger] panes@[i]).pane_id,
    ) by {
        assert(cache@.is_current(ids@[i]));
    }
    r
}

/// Begins a new generation of the cache of tab tables.
pub fn invalidate_tab_cache(cache: &mut LuaTableCache<usize, TabInformation>)
    ensures
        final(cache)@.entries == old(cache)@.entries,
        final(cache)@.generation == crate::callback_cache::next_generation(
            old(cache)@.generation,
        ),
{
    cache.invalidate();
}

/// Begins a new generation of the cache of pane tables.
pub fn invalidate_pane_cache(cache: &mut LuaTableCache<usize, PaneInformation>)
    ensures
        final(cache)@.entries == old(cache)@.entries,
        final(cache)@.generation == crate::callback_cache::next_generation(
            old(cache)@.generation,
        ),
{
    cache.invalidate();
}

/// Begins a new generation of both caches.
pub fn invalidate_all_lua_caches(
    tabs: &mut LuaTableCache<usize, TabInformation>,
    panes: &mut LuaTableCache<usize, PaneInformation>,
)
    ensures
        final(tabs)@.entries == old(tabs)@.entries,
        final(panes)@.entries == old(panes)@.entries,
        final(tabs)@.generation == crate::callback_cache::next_generation(old(tabs)@.generation),
        final(panes)@.generation == crate::callback_cache::next_generation(
            old(panes)@.generation,
        ),
{
    invalidate_tab_cache(tabs);
    invalidate_pane_cache(panes);
}

/// Drops from both caches the entries of older generations.
pub fn cleanup_lua_caches(
    tabs: &mut LuaTableCache<usize, TabInformation>,
    panes: &mut LuaTableCache<usize, PaneInformation>,
)
    ensures
        final(tabs)@.entries == old(tabs)@.current_entries(),
        final(panes)@.entries == old(panes)@.current_entries(),
        final(tabs)@.generation == old(tabs)@.generation,
        final(panes)@.generation == old(panes)@.generation,
{
    tabs.cleanup_old_generations();
    panes.cleanup_old_generations();
}

/// The numbers of entries in the cache of tab tables and in that of pane
/// tables.
pub fn get_cache_stats(
    tabs: &LuaTableCache<usize, TabInformation>,
    panes: &LuaTableCache<usize, PaneInformation>,
) -> (counts: (usize, usize))
    ensures
        counts.0 == tabs@.entries.len(),
        counts.1 == panes@.entries.len(),
{
    (tabs.len(), panes.len())
}

} // verus!
