use frame_pacing::cachekey::{hash_key, CacheKey};
use frame_pacing::graphemes::{clusters_of, CharColumns, MeasuredBy, TextMeasure};
use frame_pacing::tab_title_cache::{
    clear_tab_title_cache, generate_default_title, get_tab_title_cached,
    invalidate_tab_title_cache, pct_to_glyph, title_text_of, truncate_to_width, ProgressState,
    TabCacheKey, TabTitleCache,
};
use frame_pacing::tabinfo::{PaneInformation, Progress, TabInformation};
use frame_pacing::titletext::{AnsiColor, FormatColor, FormatItem, TitleText};

/// A width by which a wide character takes two columns and a combining
/// mark none.
fn wide(text: &str) -> usize {
    text.chars()
        .map(|c| match c {
            '\u{300}'..='\u{36f}' => 0,
            '\u{4e00}'..='\u{9fff}' => 2,
            _ => 1,
        })
        .sum()
}

fn pane(title: &str, progress: Progress) -> PaneInformation {
    PaneInformation {
        pane_id: 1,
        pane_index: 0,
        is_active: true,
        is_zoomed: false,
        has_unseen_output: false,
        left: 0,
        top: 0,
        width: 80,
        height: 24,
        pixel_width: 640,
        pixel_height: 384,
        title: title.to_string(),
        progress,
    }
}

fn tab(title: &str, active_pane: Option<PaneInformation>) -> TabInformation {
    TabInformation {
        tab_id: 1,
        tab_index: 0,
        is_active: true,
        is_last_active: false,
        active_pane,
        window_id: 0,
        tab_title: title.to_string(),
    }
}

fn text_of(title: &TitleText) -> Vec<FormatItem> {
    title.items.clone()
}

#[test]
fn test_cache_hit() {
    let mut cache = TabTitleCache::new();
    let key = TabCacheKey {
        tab_id: 1,
        title: "test".to_string(),
        is_active: true,
        hover: false,
        active_pane_title: None,
        active_pane_has_unseen_output: None,
        active_pane_progress: None,
    };
    let title = TitleText {
        items: vec![FormatItem::Text("test".to_string())],
        len: 4,
    };

    cache.insert(key.clone(), title.clone());
    let retrieved = cache.get(&key);
    assert!(retrieved.is_some());
    assert_eq!(retrieved.unwrap().len, 4);
}

#[test]
fn test_cache_invalidation() {
    let mut cache = TabTitleCache::new();
    let key = TabCacheKey {
        tab_id: 1,
        title: "test".to_string(),
        is_active: true,
        hover: false,
        active_pane_title: None,
        active_pane_has_unseen_output: None,
        active_pane_progress: None,
    };
    let title = TitleText {
        items: vec![FormatItem::Text("test".to_string())],
        len: 4,
    };

    cache.insert(key.clone(), title);
    cache.invalidate();

    // After invalidation, the old entry should not be returned
    assert!(cache.get(&key).is_none());
}

#[test]
fn test_cache_fallback() {
    // Test that when Lua returns None, we get a default title
    // This simulates what happens when there's no Lua callback configured
    let tab = TabInformation {
        tab_id: 1,
        tab_index: 0,
        is_active: true,
        is_last_active: false,
        active_pane: None,
        window_id: 0,
        tab_title: "Test Tab".to_string(),
    };

    let mut cache = TabTitleCache::new();
    let result = get_tab_title_cached(&mut cache, &tab, false, || None, &CharColumns);

    // Should get a default title
    assert!(result.len > 0);
    assert_eq!(result.items.len(), 1);
    assert_eq!(result.items, vec![FormatItem::Text("Test Tab".to_string())]);
    assert_eq!(result.len, 8);
    // The default is not cached.
    assert!(cache.get(&TabCacheKey::from_tab_info(&tab, false)).is_none());
}

#[test]
fn tab_title_cache_tells_keys_apart_by_every_field() {
    let base = TabCacheKey {
        tab_id: 1,
        title: "t".to_string(),
        is_active: true,
        hover: false,
        active_pane_title: Some("p".to_string()),
        active_pane_has_unseen_output: Some(false),
        active_pane_progress: Some(ProgressState::Percentage(10)),
    };
    let mut variants = vec![base.clone(); 7];
    variants[0].tab_id = 2;
    variants[1].title = "u".to_string();
    variants[2].is_active = false;
    variants[3].hover = true;
    variants[4].active_pane_title = None;
    variants[5].active_pane_has_unseen_output = Some(true);
    variants[6].active_pane_progress = Some(ProgressState::Error(10));
    assert!(base.same_as(&base.clone()));
    let mut cache = TabTitleCache::new();
    cache.insert(base.clone(), TitleText { items: vec![], len: 0 });
    for (i, v) in variants.iter().enumerate() {
        assert!(!base.same_as(v), "variant {}", i);
        assert!(cache.get(v).is_none(), "variant {}", i);
        cache.insert(v.clone(), TitleText { items: vec![], len: i + 1 });
    }
    assert_eq!(cache.get(&base).unwrap().len, 0);
    for (i, v) in variants.iter().enumerate() {
        assert_eq!(cache.get(v).unwrap().len, i + 1);
    }
    // A second title for a key takes the place of the first.
    cache.insert(base.clone(), TitleText { items: vec![FormatItem::Text("x".to_string())], len: 1 });
    assert_eq!(cache.get(&base).unwrap().items, vec![FormatItem::Text("x".to_string())]);
    for (i, v) in variants.iter().enumerate() {
        assert_eq!(cache.get(v).unwrap().len, i + 1);
    }
    clear_tab_title_cache(&mut cache);
    assert!(cache.get(&base).is_none());
    for v in variants.iter() {
        assert!(cache.get(v).is_none());
    }
}

#[test]
fn tab_key_is_made_of_the_tab_and_its_active_pane() {
    let mut p = pane("htop", Progress::Error(40));
    p.has_unseen_output = true;
    let t = tab("work", Some(p));
    let key = TabCacheKey::from_tab_info(&t, true);
    assert_eq!(
        key,
        TabCacheKey {
            tab_id: 1,
            title: "work".to_string(),
            is_active: true,
            hover: true,
            active_pane_title: Some("htop".to_string()),
            active_pane_has_unseen_output: Some(true),
            active_pane_progress: Some(ProgressState::Error(40)),
        }
    );
    let bare = TabCacheKey::from_tab_info(&tab("work", None), false);
    assert_eq!((bare.active_pane_title, bare.active_pane_has_unseen_output, bare.active_pane_progress), (None, None, None));
    assert_eq!(ProgressState::from(&Progress::NoProgress), ProgressState::NoProgress);
    assert_eq!(ProgressState::from(&Progress::Percentage(7)), ProgressState::Percentage(7));
    assert_eq!(ProgressState::from(&Progress::Indeterminate), ProgressState::Indeterminate);
}

#[test]
fn tab_title_is_computed_once_and_then_cached() {
    let mut cache = TabTitleCache::new();
    let t = tab("work", None);
    let lua = TitleText { items: vec![FormatItem::Text("from lua".to_string())], len: 8 };
    let lua2 = lua.clone();
    let first = get_tab_title_cached(&mut cache, &t, false, move || Some(lua2), &CharColumns);
    assert_eq!(first, lua);
    let second = get_tab_title_cached(&mut cache, &t, false, || None, &CharColumns);
    assert_eq!(second, lua);
    // Hovering is another key.
    let hovered = get_tab_title_cached(&mut cache, &t, true, || None, &CharColumns);
    assert_eq!(hovered.items, vec![FormatItem::Text("work".to_string())]);
    invalidate_tab_title_cache(&mut cache);
    let third = get_tab_title_cached(&mut cache, &t, false, || None, &CharColumns);
    assert_eq!(third.items, vec![FormatItem::Text("work".to_string())]);
}

#[test]
fn default_title_text_falls_back_on_the_pane_and_on_the_number() {
    assert_eq!(title_text_of(&tab("mine", Some(pane("vim", Progress::NoProgress)))), "mine");
    assert_eq!(title_text_of(&tab("", Some(pane("vim", Progress::NoProgress)))), "vim");
    assert_eq!(title_text_of(&tab("", None)), "Tab 1");
    let mut t = tab("", None);
    t.tab_index = 41;
    assert_eq!(title_text_of(&t), "Tab 42");
    t.tab_index = usize::MAX;
    assert_eq!(title_text_of(&t), format!("Tab {}", usize::MAX as u128 + 1));
}

#[test]
fn default_title_shows_progress_in_colour() {
    let t = tab("build", Some(pane("make", Progress::Percentage(50))));
    let title = generate_default_title(&t, 100, &CharColumns);
    assert_eq!(
        text_of(&title),
        vec![
            FormatItem::Foreground(FormatColor::AnsiColor(AnsiColor::Green)),
            FormatItem::Text("\u{f0aa1} ".to_string()),
            FormatItem::Foreground(FormatColor::Default),
            FormatItem::Text("build".to_string()),
        ]
    );
    assert_eq!(title.len, 2 + 5);
    let t = tab("", Some(pane("make", Progress::Error(100))));
    let title = generate_default_title(&t, 100, &CharColumns);
    assert_eq!(
        text_of(&title),
        vec![
            FormatItem::Foreground(FormatColor::AnsiColor(AnsiColor::Red)),
            FormatItem::Text("\u{f0aa5} ".to_string()),
            FormatItem::Foreground(FormatColor::Default),
            FormatItem::Text("make".to_string()),
        ]
    );
    assert_eq!(title.len, 6);
    for progress in [Progress::NoProgress, Progress::Indeterminate] {
        let title = generate_default_title(&tab("x", Some(pane("make", progress))), 100, &CharColumns);
        assert_eq!(text_of(&title), vec![FormatItem::Text("x".to_string())]);
        assert_eq!(title.len, 1);
    }
}

#[test]
fn default_title_is_cut_to_the_width_with_an_ellipsis() {
    let t = tab("0123456789", None);
    let title = generate_default_title(&t, 10, &CharColumns);
    assert_eq!(text_of(&title), vec![FormatItem::Text("0123456789".to_string())]);
    assert_eq!(title.len, 10);
    let title = generate_default_title(&t, 9, &CharColumns);
    assert_eq!(text_of(&title), vec![FormatItem::Text("01234567\u{2026}".to_string())]);
    assert_eq!(title.len, 9);
    let title = generate_default_title(&t, 1, &CharColumns);
    assert_eq!(text_of(&title), vec![FormatItem::Text("\u{2026}".to_string())]);
    assert_eq!(title.len, 1);
    let title = generate_default_title(&t, 0, &CharColumns);
    assert_eq!(text_of(&title), vec![FormatItem::Text("\u{2026}".to_string())]);
    assert_eq!(title.len, 1);
}

#[test]
fn truncation_never_splits_a_grapheme_cluster() {
    // "e" with a combining acute accent is one cluster of two characters.
    let text = "ae\u{301}b";
    assert_eq!(clusters_of(text), vec!["a".to_string(), "e\u{301}".to_string(), "b".to_string()]);
    // By characters the text is four columns wide: cut to three columns,
    // two are left before the ellipsis, and the accented letter does not fit.
    assert_eq!(truncate_to_width(text.to_string(), 3, &CharColumns), "a\u{2026}");
    assert_eq!(truncate_to_width(text.to_string(), 4, &CharColumns), text);
    // Measured with the accent taking no column, it is three columns wide.
    let by_width = MeasuredBy::new(wide);
    assert_eq!(by_width.column_width(text), 3);
    assert_eq!(truncate_to_width(text.to_string(), 3, &by_width), text);
    assert_eq!(truncate_to_width(text.to_string(), 2, &by_width), "a\u{2026}");
    // A wide character that does not fit ends the text, although a
    // narrow one after it would fit.
    assert_eq!(truncate_to_width("a\u{4e2d}b\u{4e2d}".to_string(), 3, &by_width), "a\u{2026}");
    assert_eq!(truncate_to_width("a\u{4e2d}b\u{4e2d}".to_string(), 5, &by_width), "a\u{4e2d}b\u{2026}");
    let title = generate_default_title(&tab("\u{4e2d}\u{6587}", Some(pane("x", Progress::Percentage(1)))), 10, &by_width);
    assert_eq!(title.len, 2 + 4);
    // A cluster that does not fit ends the text, although a shorter one
    // after it would fit: a flag is one cluster of two characters.
    let flags = "a\u{1f1e6}\u{1f1f9}b\u{1f1e6}\u{1f1f9}";
    assert_eq!(clusters_of(flags).len(), 4);
    assert_eq!(truncate_to_width(flags.to_string(), 3, &CharColumns), "a\u{2026}");
    assert_eq!(truncate_to_width(flags.to_string(), 4, &CharColumns), "a\u{1f1e6}\u{1f1f9}\u{2026}");
    assert_eq!(truncate_to_width(flags.to_string(), 5, &CharColumns), "a\u{1f1e6}\u{1f1f9}b\u{2026}");
    assert_eq!(truncate_to_width(flags.to_string(), 6, &CharColumns), flags);
    assert_eq!(clusters_of("\r\n!"), vec!["\r\n".to_string(), "!".to_string()]);
    assert!(clusters_of("").is_empty());
}

#[test]
fn progress_glyphs_fill_up_in_steps() {
    let expected = [
        (0, '\u{f0130}'),
        (5, '\u{f0130}'),
        (6, '\u{f0a9e}'),
        (18, '\u{f0a9e}'),
        (19, '\u{f0a9f}'),
        (31, '\u{f0a9f}'),
        (32, '\u{f0aa0}'),
        (43, '\u{f0aa0}'),
        (44, '\u{f0aa1}'),
        (56, '\u{f0aa1}'),
        (57, '\u{f0aa2}'),
        (68, '\u{f0aa2}'),
        (69, '\u{f0aa3}'),
        (81, '\u{f0aa3}'),
        (82, '\u{f0aa4}'),
        (94, '\u{f0aa4}'),
        (95, '\u{f0aa5}'),
        (100, '\u{f0aa5}'),
        (101, '\u{f0aa5}'),
        (255, '\u{f0aa5}'),
    ];
    for (pct, glyph) in expected {
        assert_eq!(pct_to_glyph(pct), glyph, "{} percent", pct);
    }
}

#[test]
fn titles_are_copied_piece_by_piece() {
    let title = TitleText {
        items: vec![
            FormatItem::Foreground(FormatColor::AnsiColor(AnsiColor::Navy)),
            FormatItem::Text("abc".to_string()),
        ],
        len: 3,
    };
    assert_eq!(title.duplicate(), title);
    assert_eq!(title.items[1].duplicate(), FormatItem::Text("abc".to_string()));
    assert_eq!(CharColumns.column_width("a\u{4e2d}"), 2);
}

#[test]
fn tab_keys_are_written_out_field_by_field() {
    let key = TabCacheKey {
        tab_id: 3,
        title: "ab".to_string(),
        is_active: true,
        hover: false,
        active_pane_title: Some("c".to_string()),
        active_pane_has_unseen_output: None,
        active_pane_progress: Some(ProgressState::Error(7)),
    };
    let mut expected: Vec<u8> = Vec::new();
    expected.extend_from_slice(&3u64.to_le_bytes());
    expected.extend_from_slice(&2u64.to_le_bytes());
    expected.extend_from_slice(b"ab");
    expected.push(1);
    expected.push(0);
    expected.push(1);
    expected.extend_from_slice(&1u64.to_le_bytes());
    expected.extend_from_slice(b"c");
    expected.push(0);
    expected.extend_from_slice(&[3, 7]);
    assert_eq!(key.encode(), expected);
    assert_eq!(hash_key(&key), hash_key(&key.clone()));
    let mut seen = TabCacheKey { active_pane_has_unseen_output: Some(false), ..key.clone() };
    assert_ne!(seen.encode(), key.encode());
    seen.active_pane_progress = None;
    assert_eq!(*seen.encode().last().unwrap(), 0);
}

#[test]
fn grapheme_clusters_are_the_text_in_pieces() {
    for text in ["", "a", "ae\u{301}b", "\r\n\n\r", "\u{1f1e6}\u{1f1f9}\u{1f1e6}", "\u{301}\u{301}x", "\u{d55c}\u{ae00} \u{0915}\u{094d}\u{0937}"] {
        let clusters = clusters_of(text);
        assert!(clusters.iter().all(|c| !c.is_empty()), "{:?}", text);
        assert_eq!(clusters.concat(), text);
    }
}
