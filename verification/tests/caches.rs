use frame_pacing::callback_cache::{
    generate_default_window_title, get_status_cached, get_window_title_cached,
    invalidate_all_caches, invalidate_status_cache, invalidate_window_title_cache, CallbackCache,
    StatusItem, StatusKey, WindowTitleKey,
};
use frame_pacing::cachekey::{hash_key, CacheKey};
use frame_pacing::clock::unix_millis;
use frame_pacing::tab_title_cache::{TabCacheKey, TabTitleCache};
use frame_pacing::titletext::TitleText;

fn title_key(tab: usize, pane_title: &str, tabs: usize, zoomed: bool) -> WindowTitleKey {
    WindowTitleKey::new(Some(tab), Some(0), format!("Tab {}", tab + 1), pane_title.to_string(), tabs, zoomed)
}

#[test]
fn test_window_title_cache() {
    let mut cache = CallbackCache::<String>::new();

    let key = WindowTitleKey::new(
        Some(0),
        Some(0),
        "Tab 1".to_string(),
        "Pane Title".to_string(),
        1,
        false,
    );

    // Cache miss
    assert!(cache.get(&key).is_none());

    // Insert
    cache.insert(key.clone(), "Test Title".to_string());

    // Cache hit
    assert_eq!(cache.get(&key), Some("Test Title".to_string()));

    // Invalidate
    cache.invalidate();

    // Cache miss after invalidation
    assert!(cache.get(&key).is_none());
}

#[test]
fn test_status_cache() {
    let mut cache = CallbackCache::<Vec<StatusItem>>::new();

    let key = StatusKey::new(Some(0), "Pane Title".to_string(), unix_millis());

    let status = vec![StatusItem {
        text: "Test Status".to_string(),
    }];

    // Cache miss
    assert!(cache.get(&key).is_none());

    // Insert
    cache.insert(key.clone(), status.clone());

    // Cache hit
    assert_eq!(cache.get(&key), Some(status));
}

#[test]
fn test_generation_based_invalidation() {
    let mut cache = CallbackCache::<String>::new();

    let key1 = WindowTitleKey::new(
        Some(0),
        Some(0),
        "Tab 1".to_string(),
        "Pane 1".to_string(),
        1,
        false,
    );
    let key2 = WindowTitleKey::new(
        Some(1),
        Some(1),
        "Tab 2".to_string(),
        "Pane 2".to_string(),
        2,
        false,
    );

    cache.insert(key1.clone(), "Title 1".to_string());
    cache.insert(key2.clone(), "Title 2".to_string());

    assert_eq!(cache.len(), 2);

    // Invalidate should clean up old entries
    cache.invalidate();

    // All old entries should be gone
    assert_eq!(cache.len(), 0);

    // Add new entry after invalidation
    cache.insert(key1.clone(), "New Title 1".to_string());
    assert_eq!(cache.get(&key1), Some("New Title 1".to_string()));
}

#[test]
fn test_default_window_title_generation() {
    let key = WindowTitleKey::new(
        Some(0),
        Some(0),
        "Tab 1".to_string(),
        "bash".to_string(),
        1,
        false,
    );

    let title = generate_default_window_title(&key);
    assert_eq!(title, "bash");

    let key_multi = WindowTitleKey::new(
        Some(1),
        Some(0),
        "Tab 2".to_string(),
        "vim".to_string(),
        3,
        true,
    );

    let title_multi = generate_default_window_title(&key_multi);
    assert_eq!(title_multi, "[Z] [2/3] vim");
}

#[test]
fn default_window_title_covers_every_shape() {
    assert_eq!(generate_default_window_title(&title_key(0, "zsh", 1, true)), "[Z] zsh");
    assert_eq!(generate_default_window_title(&title_key(0, "zsh", 0, false)), "[1/0] zsh");
    assert_eq!(generate_default_window_title(&title_key(9, "top", 12, false)), "[10/12] top");
    assert_eq!(generate_default_window_title(&title_key(122, "", 1000, true)), "[Z] [123/1000] ");
    let no_tab = WindowTitleKey::new(None, None, String::new(), "sh".to_string(), 2, false);
    assert_eq!(generate_default_window_title(&no_tab), "[1/2] sh");
    let last = WindowTitleKey::new(Some(usize::MAX), None, String::new(), "sh".to_string(), usize::MAX, false);
    let expected = format!("[{}/{}] sh", usize::MAX as u128 + 1, usize::MAX);
    assert_eq!(generate_default_window_title(&last), expected);
}

#[test]
fn window_title_is_computed_once_and_then_cached() {
    let mut cache = CallbackCache::<String>::new();
    let first = get_window_title_cached(&mut cache, title_key(0, "vim", 2, false), || Some("from lua".to_string()));
    assert_eq!(first, "from lua");
    assert_eq!(cache.len(), 1);
    // The callback is not asked again.
    let second = get_window_title_cached(&mut cache, title_key(0, "vim", 2, false), || Some("changed".to_string()));
    assert_eq!(second, "from lua");
    // Another key is another title.
    let other = get_window_title_cached(&mut cache, title_key(1, "vim", 2, false), || Some("other".to_string()));
    assert_eq!(other, "other");
    assert_eq!(cache.len(), 2);
    invalidate_window_title_cache(&mut cache);
    assert_eq!(cache.len(), 0);
    let third = get_window_title_cached(&mut cache, title_key(0, "vim", 2, false), || Some("changed".to_string()));
    assert_eq!(third, "changed");
}

#[test]
fn window_title_default_is_not_cached() {
    let mut cache = CallbackCache::<String>::new();
    let title = get_window_title_cached(&mut cache, title_key(1, "vim", 3, true), || None);
    assert_eq!(title, "[Z] [2/3] vim");
    assert_eq!(cache.len(), 0);
    let title = get_window_title_cached(&mut cache, title_key(1, "vim", 3, true), || Some("late".to_string()));
    assert_eq!(title, "late");
}

#[test]
fn status_is_computed_once_and_then_cached() {
    let mut cache = CallbackCache::<Vec<StatusItem>>::new();
    let item = |t: &str| StatusItem { text: t.to_string() };
    let key = || StatusKey::new(Some(3), "pane".to_string(), 1_000);
    let first = get_status_cached(&mut cache, key(), || Some(vec![item("a"), item("b")]));
    assert_eq!(first, vec![item("a"), item("b")]);
    let second = get_status_cached(&mut cache, key(), || Some(vec![item("c")]));
    assert_eq!(second, vec![item("a"), item("b")]);
    // No status from the callback: no items, and nothing cached.
    let other = StatusKey::new(Some(4), "pane".to_string(), 1_000);
    assert!(get_status_cached(&mut cache, other, || None).is_empty());
    assert_eq!(cache.len(), 1);
    invalidate_status_cache(&mut cache);
    assert_eq!(cache.len(), 0);
}

#[test]
fn status_keys_change_every_fifth_of_a_second() {
    let at = |millis: u64| StatusKey::new(Some(1), "p".to_string(), millis);
    assert_eq!(at(0), at(199));
    assert_ne!(at(199), at(200));
    assert_eq!(at(200), at(399));
    assert_eq!(at(1_000_000), at(1_000_199));
    assert_eq!(hash_key(&at(0)), hash_key(&at(199)));
    assert_ne!(at(0).encode(), at(200).encode());
    let mut cache = CallbackCache::<String>::new();
    cache.insert(at(0), "early".to_string());
    assert_eq!(cache.get(&at(150)), Some("early".to_string()));
    assert_eq!(cache.get(&at(250)), None);
}

#[test]
fn keys_are_written_out_field_by_field() {
    let key = WindowTitleKey::new(Some(1), None, "a".to_string(), "bc".to_string(), 2, true);
    let mut expected: Vec<u8> = Vec::new();
    expected.push(1);
    expected.extend_from_slice(&1u64.to_le_bytes());
    expected.push(0);
    expected.extend_from_slice(&1u64.to_le_bytes());
    expected.extend_from_slice(b"a");
    expected.extend_from_slice(&2u64.to_le_bytes());
    expected.extend_from_slice(b"bc");
    expected.extend_from_slice(&2u64.to_le_bytes());
    expected.push(1);
    assert_eq!(key.encode(), expected);
    // Texts that run into each other differently are different keys.
    let ab_c = WindowTitleKey::new(None, None, "ab".to_string(), "c".to_string(), 1, false);
    let a_bc = WindowTitleKey::new(None, None, "a".to_string(), "bc".to_string(), 1, false);
    assert_ne!(ab_c.encode(), a_bc.encode());
    assert_eq!(hash_key(&key), hash_key(&key.clone()));
    assert_eq!(hash_key(&key), CallbackCache::<String>::hash_key(&key));
}

#[test]
fn cache_clear_keeps_the_generation_going() {
    let mut cache = CallbackCache::<String>::new();
    cache.insert(title_key(0, "a", 1, false), "x".to_string());
    cache.insert(title_key(0, "a", 1, false), "y".to_string());
    assert_eq!(cache.len(), 1);
    assert_eq!(cache.get(&title_key(0, "a", 1, false)), Some("y".to_string()));
    cache.clear();
    assert_eq!(cache.len(), 0);
    cache.insert(title_key(0, "a", 1, false), "z".to_string());
    assert_eq!(cache.get(&title_key(0, "a", 1, false)), Some("z".to_string()));
}

#[test]
fn all_caches_are_invalidated_together() {
    let mut titles = CallbackCache::<String>::new();
    let mut status = CallbackCache::<Vec<StatusItem>>::new();
    let mut tabs = TabTitleCache::new();
    let tab_key = TabCacheKey {
        tab_id: 1,
        title: "t".to_string(),
        is_active: false,
        hover: false,
        active_pane_title: None,
        active_pane_has_unseen_output: None,
        active_pane_progress: None,
    };
    titles.insert(title_key(0, "a", 1, false), "x".to_string());
    status.insert(StatusKey::new(None, "p".to_string(), 5), vec![]);
    tabs.insert(tab_key.clone(), TitleText { items: vec![], len: 0 });
    assert!(tabs.get(&tab_key).is_some());
    invalidate_all_caches(&mut titles, &mut status, &mut tabs);
    assert_eq!((titles.len(), status.len()), (0, 0));
    assert!(tabs.get(&tab_key).is_none());
    assert!(titles.get(&title_key(0, "a", 1, false)).is_none());
}

#[test]
fn the_calendar_clock_is_past_the_year_2020() {
    assert!(unix_millis() > 1_577_836_800_000);
}
