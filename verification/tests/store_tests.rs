use wallchemybar::catalog::{Tag, Thumbs, Wallpaper};
use wallchemybar::history::{
    add_to_history, clear_history, delete_history_entry, entries_or_empty, get_history,
    record_entry, undo_plan, undo_wallpaper, HistoryEntry,
};
use wallchemybar::queue::{
    add_to_queue, clear_queue, get_queue, queue_or_empty, remove_from_queue, reorder_queue,
};
use wallchemybar::settings::{
    default_categories, default_collection_cycle_interval, default_purity, settings_or_default,
    Settings,
};

fn thumbs() -> Thumbs {
    Thumbs {
        large: String::from("https://th.example/l.jpg"),
        original: String::from("https://th.example/o.jpg"),
        small: String::from("https://th.example/s.jpg"),
    }
}

fn wallpaper(id: &str, path: &str) -> Wallpaper {
    Wallpaper {
        id: String::from(id),
        url: String::from("https://wallhaven.cc/w/") + id,
        path: String::from(path),
        thumbs: thumbs(),
        resolution: String::from("1920x1080"),
        tags: vec![Tag { id: 7, name: String::from("skyline") }],
    }
}

fn entry(id: &str, path: &str, applied_at: &str) -> HistoryEntry {
    HistoryEntry {
        id: String::from(id),
        url: String::from("https://wallhaven.cc/w/") + id,
        path: String::from(path),
        thumbs: thumbs(),
        resolution: String::from("1920x1080"),
        applied_at: String::from(applied_at),
    }
}

#[test]
fn recording_same_id_twice_keeps_one_entry_with_second_stamp() {
    let w = wallpaper("ab12cd", "https://img.example/full/ab12cd.jpg");
    let once = record_entry(Vec::new(), &w, String::from("2024-01-01T00:00:00+00:00"));
    let twice = record_entry(once, &w, String::from("2024-01-02T00:00:00+00:00"));
    assert_eq!(twice.len(), 1);
    assert_eq!(twice[0].id, "ab12cd");
    assert_eq!(twice[0].applied_at, "2024-01-02T00:00:00+00:00");
}

#[test]
fn recording_inserts_at_front_and_drops_old_entry_of_same_id() {
    let a = wallpaper("aaa", "https://img.example/a.jpg");
    let b = wallpaper("bbb", "https://img.example/b.jpg");
    let h = record_entry(Vec::new(), &a, String::from("t1"));
    let h = record_entry(h, &b, String::from("t2"));
    let h = record_entry(h, &a, String::from("t3"));
    let ids: Vec<&str> = h.iter().map(|e| e.id.as_str()).collect();
    assert_eq!(ids, vec!["aaa", "bbb"]);
    assert_eq!(h[0].applied_at, "t3");
    assert_eq!(h[1].applied_at, "t2");
}

#[test]
fn listing_deduplicates_preseeded_duplicates_keeping_first() {
    let seeded = vec![
        entry("x", "https://img.example/x1.jpg", "t9"),
        entry("y", "https://img.example/y.jpg", "t8"),
        entry("x", "https://img.example/x2.jpg", "t7"),
        entry("z", "https://img.example/z.jpg", "t6"),
        entry("y", "https://img.example/y2.jpg", "t5"),
    ];
    let listed = get_history(seeded);
    let ids: Vec<&str> = listed.iter().map(|e| e.id.as_str()).collect();
    assert_eq!(ids, vec!["x", "y", "z"]);
    assert_eq!(listed[0].applied_at, "t9");
    assert_eq!(listed[1].applied_at, "t8");
}

#[test]
fn undo_on_empty_history_fails_without_writing() {
    let plan = undo_plan(&Vec::new());
    assert_eq!(plan.unwrap_err(), "No previous wallpaper to revert to");
}

#[test]
fn undo_on_single_entry_history_fails_without_writing() {
    let h = vec![entry("only", "https://img.example/only.jpg", "t1")];
    let plan = undo_plan(&h);
    assert_eq!(plan.unwrap_err(), "No previous wallpaper to revert to");
}

#[test]
fn undo_promotes_previous_entry_and_targets_its_cached_file() {
    let h = vec![
        entry("a", "https://img.example/full/a.jpg", "2"),
        entry("b", "https://img.example/full/b.jpg", "1"),
        entry("c", "https://img.example/full/c.jpg", "0"),
    ];
    let plan = undo_plan(&h).unwrap();
    assert_eq!(plan, "b.jpg");
    let after = undo_wallpaper(h, String::from("9"));
    let ids: Vec<&str> = after.iter().map(|e| e.id.as_str()).collect();
    assert_eq!(ids, vec!["b", "a", "c"]);
    assert_eq!(after[0].applied_at, "9");
    assert_eq!(after[1].applied_at, "2");
    assert_eq!(after[2].applied_at, "0");
}

#[test]
fn delete_removes_every_entry_with_the_id() {
    let h = vec![
        entry("x", "https://img.example/x1.jpg", "t3"),
        entry("y", "https://img.example/y.jpg", "t2"),
        entry("x", "https://img.example/x2.jpg", "t1"),
    ];
    let after = delete_history_entry(h, "x");
    assert_eq!(after.len(), 1);
    assert_eq!(after[0].id, "y");
}

#[test]
fn clear_history_saves_nothing() {
    assert!(clear_history().is_empty());
}

#[test]
fn loading_missing_history_yields_empty_not_error() {
    assert!(entries_or_empty(None).is_empty());
    let kept = entries_or_empty(Some(vec![entry("k", "https://img.example/k.jpg", "t")]));
    assert_eq!(kept.len(), 1);
}

#[test]
fn add_to_history_stamps_with_the_clock() {
    let w = wallpaper("stamped", "https://img.example/stamped.png");
    let h = add_to_history(Vec::new(), &w);
    assert_eq!(h.len(), 1);
    assert_eq!(h[0].id, "stamped");
    // An RFC 3339 stamp of the current clock: long enough to hold a date.
    assert!(h[0].applied_at.len() >= 19);
}

#[test]
fn enqueue_of_queued_id_changes_neither_length_nor_order() {
    let q = vec![
        wallpaper("one", "https://img.example/1.jpg"),
        wallpaper("two", "https://img.example/2.jpg"),
    ];
    let q = add_to_queue(q, wallpaper("one", "https://img.example/other.jpg"));
    let ids: Vec<&str> = q.iter().map(|w| w.id.as_str()).collect();
    assert_eq!(ids, vec!["one", "two"]);
}

#[test]
fn enqueue_of_new_id_appends_at_the_end() {
    let q = vec![wallpaper("one", "https://img.example/1.jpg")];
    let q = add_to_queue(q, wallpaper("two", "https://img.example/2.jpg"));
    let ids: Vec<&str> = q.iter().map(|w| w.id.as_str()).collect();
    assert_eq!(ids, vec!["one", "two"]);
}

#[test]
fn reorder_persists_the_submitted_permutation_verbatim() {
    let submitted = vec![
        wallpaper("three", "https://img.example/3.jpg"),
        wallpaper("one", "https://img.example/1.jpg"),
        wallpaper("two", "https://img.example/2.jpg"),
    ];
    let listed = get_queue(reorder_queue(submitted));
    let ids: Vec<&str> = listed.iter().map(|w| w.id.as_str()).collect();
    assert_eq!(ids, vec!["three", "one", "two"]);
}

#[test]
fn remove_from_queue_removes_all_matches() {
    let q = vec![
        wallpaper("one", "https://img.example/1.jpg"),
        wallpaper("two", "https://img.example/2.jpg"),
        wallpaper("one", "https://img.example/1b.jpg"),
    ];
    let q = remove_from_queue(q, "one");
    assert_eq!(q.len(), 1);
    assert_eq!(q[0].id, "two");
}

#[test]
fn clear_queue_saves_nothing() {
    assert!(clear_queue().is_empty());
}

#[test]
fn loading_missing_queue_yields_empty_not_error() {
    assert!(queue_or_empty(None).is_empty());
}

#[test]
fn missing_settings_fall_back_to_defaults() {
    let s = settings_or_default(None);
    assert_eq!(s.username, "");
    assert_eq!(s.api_key, "");
    assert_eq!(s.purity, "100");
    assert_eq!(s.categories, "111");
    assert_eq!(s.atleast, "");
    assert_eq!(s.ratios, "");
    assert_eq!(s.collection_cycle_collection_id, 0);
    assert_eq!(s.collection_cycle_interval_minutes, 30);
}

#[test]
fn loaded_settings_are_kept_as_they_stand() {
    let loaded = Settings {
        username: String::from("ada"),
        api_key: String::from("SECRET-REDACTED"),
        purity: String::from("110"),
        categories: String::from("101"),
        atleast: String::from("2560x1440"),
        ratios: String::from("16x9"),
        collection_cycle_collection_id: 42,
        collection_cycle_interval_minutes: 5,
    };
    let s = settings_or_default(Some(loaded));
    assert_eq!(s.username, "ada");
    assert_eq!(s.collection_cycle_collection_id, 42);
}

#[test]
fn default_helpers_match_the_default_record() {
    assert_eq!(default_purity(), "100");
    assert_eq!(default_categories(), "111");
    assert_eq!(default_collection_cycle_interval(), 30);
}
