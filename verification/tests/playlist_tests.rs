use playlist_sync::FetchAccumulator;
use playlist_sync::PlaylistEntry;
use playlist_sync::TrackReference;
use playlist_sync::find;

fn entry(id: Option<&str>, position: usize) -> PlaylistEntry {
    PlaylistEntry { id: id.map(|s| s.to_string()), position }
}

fn reference(id: &str) -> TrackReference {
    TrackReference { id: id.to_string() }
}

#[test]
fn find_match_at_top() {
    let entries = vec![entry(Some("abc123"), 0), entry(Some("def456"), 1)];
    assert_eq!(find(&entries, &reference("abc123")), Some(0));
}

#[test]
fn find_match_below_top() {
    let entries = vec![entry(Some("def456"), 0), entry(Some("abc123"), 1)];
    assert_eq!(find(&entries, &reference("abc123")), Some(1));
}

#[test]
fn find_absent() {
    let entries = vec![entry(Some("def456"), 0), entry(Some("ghi789"), 1)];
    assert_eq!(find(&entries, &reference("abc123")), None);
}

#[test]
fn find_on_empty_snapshot() {
    let entries: Vec<PlaylistEntry> = Vec::new();
    assert_eq!(find(&entries, &reference("abc123")), None);
}

#[test]
fn entries_without_identifier_never_match() {
    let entries = vec![entry(None, 0), entry(Some("abc123"), 1)];
    assert_eq!(find(&entries, &reference("abc123")), Some(1));
    let only_local = vec![entry(None, 0)];
    assert_eq!(find(&only_local, &reference("abc123")), None);
}

#[test]
fn find_returns_first_of_several_matches() {
    let entries = vec![
        entry(Some("def456"), 0),
        entry(Some("abc123"), 1),
        entry(Some("abc123"), 2),
    ];
    assert_eq!(find(&entries, &reference("abc123")), Some(1));
}

#[test]
fn comparison_is_exact_on_identifiers() {
    let entries = vec![entry(Some("ABC123"), 0)];
    assert_eq!(find(&entries, &reference("abc123")), None);
}

#[test]
fn accumulator_single_page_fetch() {
    let mut acc = FetchAccumulator::new();
    assert_eq!(acc.offset, 0);
    assert!(!acc.done);
    let items = vec![Some("a".to_string()), None, Some("c".to_string())];
    acc.absorb_page(&items, 3);
    assert!(acc.done);
    assert_eq!(acc.offset, 0);
    assert_eq!(acc.entries.len(), 3);
    assert_eq!(acc.entries[0].id.as_deref(), Some("a"));
    assert_eq!(acc.entries[1].id, None);
    assert_eq!(acc.entries[2].id.as_deref(), Some("c"));
    for (k, e) in acc.entries.iter().enumerate() {
        assert_eq!(e.position, k);
    }
}

#[test]
fn accumulator_pages_until_total_covered() {
    let mut acc = FetchAccumulator::new();
    let first = vec![Some("a".to_string()), Some("b".to_string())];
    acc.absorb_page(&first, 250);
    assert!(!acc.done);
    assert_eq!(acc.offset, 100);
    let second = vec![Some("c".to_string())];
    acc.absorb_page(&second, 250);
    assert!(!acc.done);
    assert_eq!(acc.offset, 200);
    let third = vec![Some("d".to_string())];
    acc.absorb_page(&third, 250);
    assert!(acc.done);
    assert_eq!(acc.offset, 200);
    assert_eq!(acc.entries.len(), 4);
    assert_eq!(acc.entries[3].id.as_deref(), Some("d"));
    assert_eq!(acc.entries[3].position, 3);
}

#[test]
fn accumulator_boundary_total_equal_to_page() {
    let mut acc = FetchAccumulator::new();
    let items: Vec<Option<String>> = (0..100).map(|k| Some(format!("t{}", k))).collect();
    acc.absorb_page(&items, 100);
    assert!(acc.done);
    assert_eq!(acc.entries.len(), 100);
}

#[test]
fn accumulator_failure_keeps_partial_snapshot() {
    let mut acc = FetchAccumulator::new();
    let first = vec![Some("a".to_string())];
    acc.absorb_page(&first, 300);
    assert!(!acc.done);
    acc.absorb_failure();
    assert!(acc.done);
    assert_eq!(acc.entries.len(), 1);
    assert_eq!(acc.entries[0].id.as_deref(), Some("a"));
    assert_eq!(acc.offset, 100);
}
