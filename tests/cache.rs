use spin_models::cache::locate;

#[test]
fn entry_is_one_flat_file_under_the_shared_root() {
    assert_eq!(locate("/home/u/.cache", "abc123"), "/home/u/.cache/spin/ai-models/abc123");
}

#[test]
fn distinct_identifiers_get_distinct_entries() {
    assert_ne!(locate("/c", "a"), locate("/c", "b"));
    assert_eq!(locate("/c", "a"), locate("/c", "a"));
}
