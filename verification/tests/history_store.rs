use vocoflow::history::{
    append_entry, audio_file_name_for, cleanup_invalid_entries, delete_entry, enforce_retention,
    enforce_retention_from_settings, history_id, list_page, new_history_entry,
    resolve_audio_path_for_id, HistoryEntry, HistoryStore,
};
use vocoflow::text::append_decimal;
use vocoflow::settings::{AppSettings, HistorySettings};
use vocoflow::text::is_valid_transcript;

fn entry(id: &str, raw: &str) -> HistoryEntry {
    HistoryEntry {
        id: id.to_string(),
        created_at_unix_ms: 1_700_000_000_000,
        audio_file_name: format!("{id}.wav"),
        raw_transcript: raw.to_string(),
        processed_transcript: None,
    }
}

fn store_of(n: usize) -> HistoryStore {
    let mut s = HistoryStore::new();
    for i in 0..n {
        s.entries.push(entry(&format!("h_{i}"), "hello world"));
    }
    s
}

fn ids(s: &HistoryStore) -> Vec<String> {
    s.entries.iter().map(|e| e.id.clone()).collect()
}

fn settings_with_retention(n: u32) -> AppSettings {
    let mut s = AppSettings::default();
    s.history = HistorySettings { retention_max_sessions: n };
    s
}

#[test]
fn transcript_validity() {
    assert!(!is_valid_transcript(""));
    assert!(!is_valid_transcript("   \n\t "));
    assert!(!is_valid_transcript("a"));
    assert!(!is_valid_transcript("  a  "));
    assert!(!is_valid_transcript("?!."));
    assert!(!is_valid_transcript("a !"));
    assert!(is_valid_transcript("ab"));
    assert!(is_valid_transcript(" a b "));
    assert!(is_valid_transcript("\u{3000}é1\u{3000}"));
    assert!(is_valid_transcript("42"));
    assert!(is_valid_transcript("Hello, world."));
}

#[test]
fn retention_keeps_newest() {
    let mut s = store_of(5);
    let removed = enforce_retention(&mut s, 3);
    assert_eq!(ids(&s), vec!["h_0", "h_1", "h_2"]);
    assert_eq!(removed, vec!["h_3.wav", "h_4.wav"]);
    let removed = enforce_retention(&mut s, 3);
    assert!(removed.is_empty());
    assert_eq!(s.entries.len(), 3);
    let removed = enforce_retention(&mut s, 10);
    assert!(removed.is_empty());
    assert_eq!(s.entries.len(), 3);
}

#[test]
fn retention_zero_keeps_nothing() {
    let mut s = store_of(2);
    let removed = enforce_retention_from_settings(&mut s, &settings_with_retention(0));
    assert!(s.entries.is_empty());
    assert_eq!(removed, vec!["h_0.wav", "h_1.wav"]);
}

#[test]
fn cleanup_drops_invalid_or_missing_audio() {
    let mut s = HistoryStore::new();
    s.entries.push(entry("a", "keep me"));
    s.entries.push(entry("b", "x"));
    s.entries.push(entry("c", "audio gone"));
    s.entries.push(entry("d", "also kept"));
    let removed = cleanup_invalid_entries(&mut s, &vec![true, true, false, true]);
    assert_eq!(ids(&s), vec!["a", "d"]);
    assert_eq!(removed, vec!["b.wav", "c.wav"]);
    let removed = cleanup_invalid_entries(&mut s, &vec![true, true]);
    assert!(removed.is_empty());
    assert_eq!(ids(&s), vec!["a", "d"]);
}

#[test]
fn delete_removes_matching_id() {
    let mut s = store_of(3);
    let (deleted, removed) = delete_entry(&mut s, "h_1");
    assert!(deleted);
    assert_eq!(removed, vec!["h_1.wav"]);
    assert_eq!(ids(&s), vec!["h_0", "h_2"]);
    let (deleted, removed) = delete_entry(&mut s, "h_1");
    assert!(!deleted);
    assert!(removed.is_empty());
    assert_eq!(ids(&s), vec!["h_0", "h_2"]);
}

#[test]
fn delete_removes_every_duplicate() {
    let mut s = HistoryStore::new();
    s.entries.push(entry("x", "first one"));
    s.entries.push(entry("y", "second one"));
    s.entries.push(entry("x", "third one"));
    let (deleted, removed) = delete_entry(&mut s, "x");
    assert!(deleted);
    assert_eq!(removed.len(), 2);
    assert_eq!(ids(&s), vec!["y"]);
}

#[test]
fn resolve_finds_first_match() {
    let mut s = store_of(2);
    s.entries[1].audio_file_name = "other.wav".to_string();
    assert_eq!(resolve_audio_path_for_id(&s, "h_1"), Some("other.wav".to_string()));
    assert_eq!(resolve_audio_path_for_id(&s, "h_0"), Some("h_0.wav".to_string()));
    assert_eq!(resolve_audio_path_for_id(&s, "missing"), None);
}

#[test]
fn append_puts_new_entry_first_and_applies_retention() {
    let mut s = store_of(2);
    let removed = append_entry(&mut s, entry("new", "fresh words"), &settings_with_retention(2));
    assert_eq!(removed, Some(vec!["h_1.wav".to_string()]));
    assert_eq!(ids(&s), vec!["new", "h_0"]);
}

#[test]
fn append_skips_invalid_transcript() {
    let mut s = store_of(1);
    let removed = append_entry(&mut s, entry("new", " . "), &AppSettings::default());
    assert_eq!(removed, None);
    assert_eq!(ids(&s), vec!["h_0"]);
}

#[test]
fn append_with_zero_retention_keeps_nothing() {
    let mut s = store_of(1);
    let removed = append_entry(&mut s, entry("new", "fresh words"), &settings_with_retention(0));
    assert_eq!(removed, Some(vec!["new.wav".to_string(), "h_0.wav".to_string()]));
    assert!(s.entries.is_empty());
}

#[test]
fn list_page_slices_history() {
    let s = store_of(45);
    let p = list_page(&s, 2, 20);
    assert_eq!(p.page, 2);
    assert_eq!(p.page_size, 20);
    assert_eq!(p.total_items, 45);
    assert_eq!(p.total_pages, 3);
    assert_eq!(p.items.len(), 20);
    assert_eq!(p.items[0].id, "h_20");
    let last = list_page(&s, 3, 20);
    assert_eq!(last.items.len(), 5);
    assert_eq!(last.items[4].id, "h_44");
    let beyond = list_page(&s, 9, 20);
    assert!(beyond.items.is_empty());
    assert_eq!(beyond.total_pages, 3);
}

#[test]
fn list_page_normalizes_request() {
    let s = store_of(3);
    let p = list_page(&s, 0, 0);
    assert_eq!(p.page, 1);
    assert_eq!(p.page_size, 1);
    assert_eq!(p.total_pages, 3);
    assert_eq!(p.items[0].id, "h_0");
    let p = list_page(&s, 1, 1000);
    assert_eq!(p.page_size, 100);
    assert_eq!(p.total_pages, 1);
    assert_eq!(p.items.len(), 3);
    let empty = list_page(&HistoryStore::new(), 1, 20);
    assert_eq!(empty.total_items, 0);
    assert_eq!(empty.total_pages, 1);
    assert!(empty.items.is_empty());
}

#[test]
fn every_entry_is_on_its_page() {
    let s = store_of(23);
    let size = 5u32;
    for k in 0..23usize {
        let page = (k as u32) / size + 1;
        let p = list_page(&s, page, size);
        assert!(page <= p.total_pages);
        assert_eq!(p.items[k % 5].id, format!("h_{k}"));
    }
}

#[test]
fn delete_undoes_append() {
    let mut s = store_of(2);
    append_entry(&mut s, entry("new", "fresh words"), &settings_with_retention(5)).unwrap();
    assert_eq!(ids(&s), vec!["new", "h_0", "h_1"]);
    let (deleted, removed) = delete_entry(&mut s, "new");
    assert!(deleted);
    assert_eq!(removed, vec!["new.wav"]);
    assert_eq!(ids(&s), vec!["h_0", "h_1"]);
}

#[test]
fn audio_file_named_after_id() {
    assert_eq!(audio_file_name_for("h_123"), "h_123.wav");
    assert_eq!(audio_file_name_for(""), ".wav");
}

#[test]
fn pages_partition_history() {
    for len in [0usize, 1, 19, 20, 21, 45] {
        let s = store_of(len);
        for size in [1u32, 7, 20, 100] {
            let first = list_page(&s, 1, size);
            let t = first.total_pages;
            let mut all = Vec::new();
            for p in 1..=t {
                let page = list_page(&s, p, size);
                if p < t {
                    assert_eq!(page.items.len(), size as usize);
                }
                all.extend(page.items.into_iter().map(|e| e.id));
            }
            assert_eq!(all, ids(&s));
            assert!(list_page(&s, t + 1, size).items.is_empty());
        }
    }
}

#[test]
fn history_ids_are_h_and_the_nanoseconds() {
    assert_eq!(history_id(1234), "h_1234");
    for n in [0u128, 9, 10, 99, 100, 1_700_000_000_123_456_789, u128::MAX] {
        assert_eq!(history_id(n), format!("h_{}", n));
    }
}

#[test]
fn append_decimal_appends_digits() {
    let mut s = String::from("x");
    append_decimal(&mut s, 0);
    assert_eq!(s, "x0");
    append_decimal(&mut s, 4096);
    assert_eq!(s, "x04096");
}

#[test]
fn new_entry_is_named_after_its_id() {
    let e = new_history_entry(42, 7, "hello world", Some("Hello world.".to_string()));
    assert_eq!(e.id, "h_42");
    assert_eq!(e.audio_file_name, "h_42.wav");
    assert_eq!(e.created_at_unix_ms, 7);
    assert_eq!(e.raw_transcript, "hello world");
    assert_eq!(e.processed_transcript.as_deref(), Some("Hello world."));
}
