use dictation_history::entry::{HistoryEntry, Timestamp};
use dictation_history::ordering::sort_newest_first;
use dictation_history::reconcile::{merge_entries, HistoryImportStrategy};
use dictation_history::store::HistoryStorage;
use dictation_history::MAX_HISTORY_ENTRIES;

fn entry(id: &str, secs: i64) -> HistoryEntry {
    HistoryEntry {
        id: id.to_string(),
        timestamp: Timestamp { secs, nanos: 0 },
        text: format!("text {}", id),
        raw_text: String::new(),
    }
}

fn ids(entries: &[HistoryEntry]) -> Vec<String> {
    entries.iter().map(|e| e.id.clone()).collect()
}

fn secs(entries: &[HistoryEntry]) -> Vec<i64> {
    entries.iter().map(|e| e.timestamp.secs).collect()
}

#[test]
fn new_entry_has_fresh_id_and_given_texts() {
    let a = HistoryEntry::new("hello".to_string(), "helo".to_string());
    let b = HistoryEntry::new("hello".to_string(), "helo".to_string());
    assert_eq!(a.text, "hello");
    assert_eq!(a.raw_text, "helo");
    assert_eq!(a.id.chars().count(), 36);
    for (i, c) in a.id.chars().enumerate() {
        if [8, 13, 18, 23].contains(&i) {
            assert_eq!(c, '-');
        } else {
            assert!(c.is_ascii_hexdigit() && !c.is_ascii_uppercase());
        }
    }
    assert_eq!(a.id.chars().nth(14), Some('4'));
    assert!(matches!(a.id.chars().nth(19), Some('8' | '9' | 'a' | 'b')));
    assert_ne!(a.id, b.id);
    assert!(a.timestamp.secs > 1_600_000_000);
    assert!(a.timestamp.nanos < 2_000_000_000);
}

#[test]
fn adds_are_listed_latest_first() {
    let mut store = HistoryStorage::new(None);
    let first = store.add_entry("one".to_string(), String::new());
    let second = store.add_entry("two".to_string(), String::new());
    let third = store.add_entry("three".to_string(), "3".to_string());
    let listed = store.get_all(None);
    assert_eq!(ids(&listed), vec![third.id.clone(), second.id.clone(), first.id.clone()]);
    assert_eq!(listed[0].raw_text, "3");
}

#[test]
fn get_all_respects_limit() {
    let mut store = HistoryStorage::new(Some(vec![entry("a", 3), entry("b", 2), entry("c", 1)]));
    assert_eq!(ids(&store.get_all(Some(2))), vec!["a", "b"]);
    assert_eq!(ids(&store.get_all(Some(0))), Vec::<String>::new());
    assert_eq!(ids(&store.get_all(Some(10))), vec!["a", "b", "c"]);
    store.clear();
    assert!(store.get_all(None).is_empty());
}

#[test]
fn adding_to_full_log_drops_oldest() {
    let mut loaded = Vec::new();
    for i in 0..MAX_HISTORY_ENTRIES {
        loaded.push(entry(&format!("e{}", i), (1000 - i) as i64));
    }
    let mut store = HistoryStorage::new(Some(loaded));
    assert_eq!(store.get_all(None).len(), 500);
    let added = store.add_entry("new".to_string(), String::new());
    let listed = store.get_all(None);
    assert_eq!(listed.len(), 500);
    assert_eq!(listed[0].id, added.id);
    assert_eq!(listed[1].id, "e0");
    assert_eq!(listed[499].id, "e498");
}

#[test]
fn loading_keeps_the_loaded_list_as_it_is() {
    let mut loaded = Vec::new();
    for i in 0..(MAX_HISTORY_ENTRIES + 3) {
        loaded.push(entry(&format!("e{}", i), i as i64));
    }
    let mut store = HistoryStorage::new(Some(loaded));
    let listed = store.get_all(None);
    assert_eq!(listed.len(), 503);
    assert_eq!(listed[0].id, "e0");
    assert_eq!(listed[502].id, "e502");
    assert!(store.delete("e7"));
    assert_eq!(store.get_all(None).len(), 502);
    let added = store.add_entry("new".to_string(), String::new());
    let listed = store.get_all(None);
    assert_eq!(listed.len(), 500);
    assert_eq!(listed[0].id, added.id);
    assert_eq!(listed[499].id, "e499");
}

#[test]
fn delete_missing_id_changes_nothing() {
    let mut store = HistoryStorage::new(Some(vec![entry("a", 2), entry("b", 1)]));
    assert!(!store.delete("zzz"));
    assert_eq!(ids(&store.get_all(None)), vec!["a", "b"]);
}

#[test]
fn delete_removes_every_entry_with_id() {
    let mut store = HistoryStorage::new(Some(vec![entry("a", 3), entry("b", 2), entry("a", 1)]));
    assert!(store.delete("a"));
    assert_eq!(ids(&store.get_all(None)), vec!["b"]);
    assert!(!store.delete("a"));
}

#[test]
fn import_nothing_with_replace_empties() {
    let mut store = HistoryStorage::new(Some(vec![entry("a", 2), entry("b", 1)]));
    let r = store.import_entries(Vec::new(), HistoryImportStrategy::Replace);
    assert!(r.success);
    assert_eq!(r.entries_imported, Some(0));
    assert_eq!(r.entries_skipped, Some(0));
    assert!(store.get_all(None).is_empty());
}

#[test]
fn import_replace_sorts_newest_first() {
    let mut store = HistoryStorage::new(Some(vec![entry("old", 100)]));
    let incoming = vec![entry("x", 5), entry("y", 30), entry("z", 10)];
    let r = store.import_entries(incoming, HistoryImportStrategy::Replace);
    assert_eq!(r.entries_imported, Some(3));
    assert_eq!(r.entries_skipped, Some(0));
    let listed = store.get_all(None);
    assert_eq!(ids(&listed), vec!["y", "z", "x"]);
    assert_eq!(secs(&listed), vec![30, 10, 5]);
}

#[test]
fn import_merge_append_keeps_duplicates() {
    let mut store = HistoryStorage::new(Some(vec![entry("A", 10)]));
    let r = store.import_entries(vec![entry("A", 20)], HistoryImportStrategy::MergeAppend);
    assert!(r.success);
    assert_eq!(r.entries_imported, Some(1));
    assert_eq!(r.entries_skipped, Some(0));
    let listed = store.get_all(None);
    assert_eq!(ids(&listed), vec!["A", "A"]);
    assert_eq!(secs(&listed), vec![20, 10]);
}

#[test]
fn import_merge_append_puts_imported_ahead_of_newer_stored() {
    let mut store = HistoryStorage::new(Some(vec![entry("s1", 100), entry("s2", 50)]));
    store.import_entries(vec![entry("i1", 1), entry("i2", 7)], HistoryImportStrategy::MergeAppend);
    assert_eq!(ids(&store.get_all(None)), vec!["i2", "i1", "s1", "s2"]);
}

#[test]
fn import_merge_deduplicate_skips_known_ids() {
    let mut store = HistoryStorage::new(Some(vec![entry("a", 30), entry("b", 10)]));
    let incoming = vec![entry("b", 99), entry("c", 20), entry("a", 1), entry("d", 40)];
    let r = store.import_entries(incoming, HistoryImportStrategy::MergeDeduplicate);
    assert!(r.success);
    assert_eq!(r.entries_imported, Some(2));
    // Each entry whose id is already stored counts as skipped.
    assert_eq!(r.entries_skipped, Some(2));
    let listed = store.get_all(None);
    assert_eq!(ids(&listed), vec!["d", "a", "c", "b"]);
    assert_eq!(secs(&listed), vec![40, 30, 20, 10]);
}

#[test]
fn import_is_capped() {
    let mut incoming = Vec::new();
    for i in 0..(MAX_HISTORY_ENTRIES + 20) {
        incoming.push(entry(&format!("e{}", i), i as i64));
    }
    let mut store = HistoryStorage::new(Some(vec![entry("s", 5000)]));
    let r = store.import_entries(incoming, HistoryImportStrategy::MergeAppend);
    assert_eq!(r.entries_imported, Some(520));
    let listed = store.get_all(None);
    assert_eq!(listed.len(), 500);
    assert_eq!(listed[0].id, "e519");
    assert_eq!(listed[499].id, "e20");
}

#[test]
fn sort_is_stable_for_equal_times() {
    let mut a = entry("a", 5);
    a.timestamp.nanos = 7;
    let v = vec![entry("p", 5), entry("q", 9), entry("r", 5), a];
    let sorted = sort_newest_first(v);
    assert_eq!(ids(&sorted), vec!["q", "a", "p", "r"]);
}

#[test]
fn merge_entries_reports_counts() {
    let current = vec![entry("a", 1)];
    let (merged, imported, skipped) =
        merge_entries(current, vec![entry("a", 2), entry("b", 3)], HistoryImportStrategy::MergeDeduplicate);
    assert_eq!(ids(&merged), vec!["b", "a"]);
    assert_eq!(secs(&merged), vec![3, 1]);
    assert_eq!((imported, skipped), (1, 1));
}

#[test]
fn timestamp_order_uses_subsecond_part() {
    let a = Timestamp { secs: 10, nanos: 5 };
    let b = Timestamp { secs: 10, nanos: 4 };
    let c = Timestamp { secs: 9, nanos: 999 };
    assert!(a.is_later_than(&b));
    assert!(!b.is_later_than(&a));
    assert!(b.is_later_than(&c));
    assert!(!a.is_later_than(&a));
}

#[test]
fn import_replace_ignores_input_order() {
    let mut first = HistoryStorage::new(Some(vec![entry("s", 1)]));
    let mut second = HistoryStorage::new(None);
    first.import_entries(vec![entry("a", 3), entry("b", 9), entry("c", 6)], HistoryImportStrategy::Replace);
    second.import_entries(vec![entry("c", 6), entry("a", 3), entry("b", 9)], HistoryImportStrategy::Replace);
    assert_eq!(ids(&first.get_all(None)), vec!["b", "c", "a"]);
    assert_eq!(ids(&first.get_all(None)), ids(&second.get_all(None)));
}
