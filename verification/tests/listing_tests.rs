use lsp_daemon::universal_cache::listing::{
    key_info, key_info_for_entry, key_listable, key_order, list_workspace_keys,
    order_and_page_keys, page_of, sort_cache_keys, CacheKeyInfo, KeyOrder,
};
use lsp_daemon::universal_cache::store::CacheEntry;

fn info(path: &str, size: usize, count: u64, accessed: &str, created: &str) -> CacheKeyInfo {
    CacheKeyInfo {
        key: format!("ws:textDocument_hover:{}:0123456789", path),
        file_path: path.to_string(),
        operation: "textDocument/hover".to_string(),
        position: "content:01234567".to_string(),
        symbol_name: None,
        size_bytes: size,
        access_count: count,
        last_accessed: accessed.to_string(),
        created_at: created.to_string(),
        content_hash: "0123456789".to_string(),
        workspace_id: "ws".to_string(),
        is_expired: false,
    }
}

fn paths(keys: &[CacheKeyInfo]) -> Vec<String> {
    keys.iter().map(|k| k.file_path.clone()).collect()
}

#[test]
fn test_key_order_names() {
    assert_eq!(key_order(Some("created_at")), KeyOrder::CreatedAt);
    assert_eq!(key_order(Some("last_accessed")), KeyOrder::LastAccessed);
    assert_eq!(key_order(Some("access_count")), KeyOrder::AccessCount);
    assert_eq!(key_order(Some("size_bytes")), KeyOrder::SizeBytes);
    assert_eq!(key_order(Some("file_path")), KeyOrder::FilePath);
    assert_eq!(key_order(Some("operation")), KeyOrder::Operation);
    assert_eq!(key_order(Some("bogus")), KeyOrder::LastAccessed);
    assert_eq!(key_order(None), KeyOrder::LastAccessed);
}

#[test]
fn test_sort_by_size_is_largest_first_and_stable() {
    let mut keys = vec![
        info("a.rs", 10, 1, "1", "1"),
        info("b.rs", 30, 1, "1", "1"),
        info("c.rs", 10, 1, "1", "1"),
        info("d.rs", 20, 1, "1", "1"),
    ];
    sort_cache_keys(&mut keys, Some("size_bytes"));
    assert_eq!(paths(&keys), vec!["b.rs", "d.rs", "a.rs", "c.rs"]);
}

#[test]
fn test_sort_by_file_path_is_alphabetical() {
    let mut keys = vec![
        info("src/z.rs", 1, 1, "1", "1"),
        info("src/a.rs", 1, 1, "1", "1"),
        info("lib/m.rs", 1, 1, "1", "1"),
    ];
    sort_cache_keys(&mut keys, Some("file_path"));
    assert_eq!(paths(&keys), vec!["lib/m.rs", "src/a.rs", "src/z.rs"]);
}

#[test]
fn test_sort_by_access_count_is_most_accessed_first() {
    let mut keys = vec![
        info("a.rs", 1, 2, "1", "1"),
        info("b.rs", 1, 7, "1", "1"),
        info("c.rs", 1, 2, "1", "1"),
    ];
    sort_cache_keys(&mut keys, Some("access_count"));
    assert_eq!(paths(&keys), vec!["b.rs", "a.rs", "c.rs"]);
}

#[test]
fn test_default_sort_is_most_recently_accessed_first() {
    let mut keys = vec![
        info("a.rs", 1, 1, "1700000001", "1"),
        info("b.rs", 1, 1, "1700000009", "1"),
        info("c.rs", 1, 1, "1700000005", "1"),
    ];
    sort_cache_keys(&mut keys, None);
    assert_eq!(paths(&keys), vec!["b.rs", "c.rs", "a.rs"]);
}

#[test]
fn test_times_compare_as_text() {
    // Times are kept as decimal text and compared as text, so "9" sorts after "10".
    let mut keys = vec![info("a.rs", 1, 1, "1", "10"), info("b.rs", 1, 1, "1", "9")];
    sort_cache_keys(&mut keys, Some("created_at"));
    assert_eq!(paths(&keys), vec!["b.rs", "a.rs"]);
}

#[test]
fn test_page_of_keys() {
    let items = vec![1, 2, 3, 4, 5];
    assert_eq!(page_of(items.clone(), 1, 2), vec![2, 3]);
    assert_eq!(page_of(items.clone(), 3, 10), vec![4, 5]);
    assert_eq!(page_of(items.clone(), 7, 2), Vec::<i32>::new());
    assert_eq!(page_of(items.clone(), 0, 0), Vec::<i32>::new());
    // Consecutive pages join up.
    let mut joined = page_of(items.clone(), 1, 2);
    joined.extend(page_of(items.clone(), 3, 1));
    assert_eq!(joined, page_of(items, 1, 3));
}

#[test]
fn test_order_and_page_keys() {
    let keys = vec![
        info("a.rs", 10, 1, "1", "1"),
        info("b.rs", 30, 1, "1", "1"),
        info("c.rs", 20, 1, "1", "1"),
    ];
    let (page, total) = order_and_page_keys(keys, Some("size_bytes"), 2, 1);
    assert_eq!(total, 3);
    assert_eq!(paths(&page), vec!["c.rs", "a.rs"]);
}

#[test]
fn test_key_info_shows_parsed_key() {
    let key = "ws:textDocument_hover:src/a.rs:0123456789:foo";
    assert!(key_listable(key, "ws", None, None));
    let data = vec![1u8, 2, 3];
    let shown = key_info(key, &data, 4, 100, 200, "ws", None, None).unwrap();
    assert_eq!(shown.key, key);
    assert_eq!(shown.file_path, "src/a.rs");
    assert_eq!(shown.operation, "textDocument/hover");
    assert_eq!(shown.position, "content:01234567");
    assert_eq!(shown.symbol_name, Some("foo".to_string()));
    assert_eq!(shown.size_bytes, 3);
    assert_eq!(shown.access_count, 4);
    assert_eq!(shown.created_at, "100");
    assert_eq!(shown.last_accessed, "200");
    assert_eq!(shown.content_hash, "0123456789");
    assert_eq!(shown.workspace_id, "ws");
    assert!(!shown.is_expired);
}

#[test]
fn test_key_info_filters() {
    let key = "ws:textDocument_hover:src/a.rs:0123456789";
    let data: Vec<u8> = Vec::new();
    assert!(key_info(key, &data, 1, 1, 1, "other", None, None).is_none());
    assert!(key_info(key, &data, 1, 1, 1, "ws", Some("definition"), None).is_none());
    assert!(key_info(key, &data, 1, 1, 1, "ws", Some("hover"), None).is_some());
    assert!(key_info(key, &data, 1, 1, 1, "ws", None, Some("lib/")).is_none());
    assert!(key_info(key, &data, 1, 1, 1, "ws", Some("hover"), Some("src/")).is_some());
    assert!(key_info("not a key", &data, 1, 1, 1, "ws", None, None).is_none());
    assert!(key_info("ws:textDocument_bogus:src/a.rs:0123456789", &data, 1, 1, 1, "ws", None, None)
        .is_none());
}

#[test]
fn test_call_hierarchy_symbol_from_cached_value() {
    let key = "ws:textDocument_prepareCallHierarchy:src/a.rs:abcdef0123";
    let data = br#"[{"name":"main","kind":12},{"name":"other"}]"#.to_vec();
    let shown = key_info(key, &data, 1, 1, 1, "ws", None, None).unwrap();
    assert_eq!(shown.symbol_name, Some("main".to_string()));
    assert_eq!(shown.position, "content:abcdef01");
    let not_json = b"nope".to_vec();
    let shown = key_info(key, &not_json, 1, 1, 1, "ws", None, None).unwrap();
    assert_eq!(shown.symbol_name, None);
    let hover_key = "ws:textDocument_hover:src/a.rs:abcdef0123";
    let shown = key_info(hover_key, &data, 1, 1, 1, "ws", None, None).unwrap();
    assert_eq!(shown.symbol_name, None);
}

#[test]
fn test_short_content_hash_is_not_listable() {
    assert!(!key_listable("ws:textDocument_hover:src/a.rs:abc", "ws", None, None));
    // Filtered out, the key is never shown, so nothing fails.
    assert!(key_listable("ws:textDocument_hover:src/a.rs:abc", "other", None, None));
    assert!(key_listable("garbage", "ws", None, None));
}

#[test]
fn test_key_info_for_entry_and_workspace_listing() {
    let entry = CacheEntry::new(vec![7u8; 5]);
    let shown = key_info_for_entry("ws:textDocument_hover:src/a.rs:0123456789", &entry, "ws", None, None)
        .unwrap();
    assert_eq!(shown.size_bytes, 5);
    assert_eq!(shown.access_count, 1);
    assert!(shown.created_at.parse::<u64>().unwrap() > 0);
    assert!(shown.last_accessed.parse::<u64>().unwrap() > 0);

    let entries = vec![
        ("ws:textDocument_hover:src/a.rs:0123456789".to_string(), CacheEntry::new(vec![1u8])),
        ("other:textDocument_hover:src/b.rs:0123456789".to_string(), CacheEntry::new(vec![2u8])),
        ("ws:textDocument_definition:src/c.rs:0123456789".to_string(), CacheEntry::new(vec![3u8])),
    ];
    let listed = list_workspace_keys(&entries, "ws", None, None);
    assert_eq!(paths(&listed), vec!["src/a.rs", "src/c.rs"]);
    let listed = list_workspace_keys(&entries, "ws", Some("definition"), None);
    assert_eq!(paths(&listed), vec!["src/c.rs"]);
}
