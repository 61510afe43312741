use lsp_daemon::universal_cache::store::{
    is_likely_legacy_workspace_id, ActiveWorkspace, CacheEntry, CacheStoreConfig, PersistedStats,
    StatsTable,
};
use lsp_daemon::universal_cache::{LspMethod, MethodStats};

#[test]
fn test_cache_entry_metadata() {
    let mut entry = CacheEntry::new(vec![1, 2, 3, 4]);
    assert_eq!(entry.data, vec![1, 2, 3, 4]);
    assert_eq!(entry.metadata.access_count(), 1);
    assert_eq!(entry.metadata.size_bytes(), 4);
    let created = entry.metadata.created_at();
    entry.touch();
    entry.touch();
    assert_eq!(entry.metadata.access_count(), 3);
    assert_eq!(entry.metadata.size_bytes(), 4);
    assert_eq!(entry.metadata.created_at(), created);
    assert!(entry.metadata.last_accessed() >= created);
}

#[test]
fn test_large_entry_limit() {
    let config = CacheStoreConfig::default();
    assert_eq!(config.compress_threshold, 1024);
    assert_eq!(config.max_entry_size, 10 * 1024 * 1024);
    assert!(config.admits_entry(10 * 1024 * 1024));
    assert!(!config.admits_entry(11 * 1024 * 1024));
    assert!(config.admits_entry(0));
}

#[test]
fn test_record_hits_misses_and_sets() {
    let mut table = StatsTable::new();
    assert!(table.is_empty());
    assert!(table.get("ws1").is_none());

    table.record_set("ws1", LspMethod::Definition, 100);
    table.record_hit("ws1", LspMethod::Definition);
    table.record_hit("ws1", LspMethod::Definition);
    table.record_miss("ws1", LspMethod::Hover);
    table.record_miss("ws2", LspMethod::References);

    assert!(!table.is_empty());
    let ws1 = table.get("ws1").unwrap();
    assert_eq!(ws1.entries, 1);
    assert_eq!(ws1.size_bytes, 100);
    assert_eq!(ws1.hits, 2);
    assert_eq!(ws1.misses, 1);
    let def = ws1.method_stats[LspMethod::Definition.index()].unwrap();
    assert_eq!(
        def,
        MethodStats { entries: 1, size_bytes: 100, hits: 2, misses: 0 }
    );
    let hover = ws1.method_stats[LspMethod::Hover.index()].unwrap();
    assert_eq!(hover.misses, 1);
    assert!(ws1.method_stats[LspMethod::References.index()].is_none());

    let ws2 = table.get("ws2").unwrap();
    assert_eq!(ws2.hits, 0);
    assert_eq!(ws2.misses, 1);
    assert_eq!(ws2.entries, 0);
}

#[test]
fn test_workspace_isolation_of_statistics() {
    let mut table = StatsTable::new();
    table.record_hit("a", LspMethod::Hover);
    table.record_set("b", LspMethod::Hover, 10);
    assert_eq!(table.get("a").unwrap().entries, 0);
    assert_eq!(table.get("b").unwrap().hits, 0);
}

#[test]
fn test_totals_over_active_workspaces() {
    let mut table = StatsTable::new();
    table.record_set("ws1", LspMethod::Definition, 100);
    table.record_hit("ws1", LspMethod::Definition);
    table.record_miss("ws1", LspMethod::Definition);
    table.record_hit("other", LspMethod::Hover);

    let active = vec![
        ActiveWorkspace {
            workspace_id: "ws1".to_string(),
            cache_stats: Some(PersistedStats {
                total_nodes: 5,
                total_size_bytes: 500,
                hit_count: 3,
                miss_count: 4,
            }),
        },
        ActiveWorkspace { workspace_id: "ws3".to_string(), cache_stats: None },
    ];
    let totals = table.cache_totals(&active);
    assert_eq!(totals.active_workspaces, 2);
    assert_eq!(totals.total_entries, 6);
    assert_eq!(totals.total_size_bytes, 600);
    assert_eq!(totals.total_hits, 4);
    assert_eq!(totals.total_misses, 5);
    let def = totals.method_stats[LspMethod::Definition.index()].unwrap();
    assert_eq!(def, MethodStats { entries: 0, size_bytes: 0, hits: 1, misses: 1 });
    // "other" is not active and the active workspaces show hits, so it is not counted
    assert!(totals.method_stats[LspMethod::Hover.index()].is_none());
}

#[test]
fn test_totals_fall_back_to_memory_statistics() {
    let mut table = StatsTable::new();
    table.record_hit("ws_a", LspMethod::Hover);
    table.record_miss("ws_b", LspMethod::Hover);
    table.record_set("ws_b", LspMethod::Hover, 7);

    // The active workspace is known to the router under another id
    let active = vec![ActiveWorkspace {
        workspace_id: "ws_c".to_string(),
        cache_stats: Some(PersistedStats {
            total_nodes: 2,
            total_size_bytes: 20,
            hit_count: 0,
            miss_count: 0,
        }),
    }];
    let totals = table.cache_totals(&active);
    assert_eq!(totals.active_workspaces, 1);
    assert_eq!(totals.total_entries, 2);
    assert_eq!(totals.total_size_bytes, 20);
    assert_eq!(totals.total_hits, 1);
    assert_eq!(totals.total_misses, 1);
    let hover = totals.method_stats[LspMethod::Hover.index()].unwrap();
    assert_eq!(hover.hits, 1);
    assert_eq!(hover.misses, 1);
}

#[test]
fn test_totals_of_nothing() {
    let table = StatsTable::new();
    let totals = table.cache_totals(&Vec::new());
    assert_eq!(totals.total_entries, 0);
    assert_eq!(totals.total_hits, 0);
    assert_eq!(totals.active_workspaces, 0);
    assert!(totals.method_stats.iter().all(|m| m.is_none()));
}

#[test]
fn test_legacy_workspace_ids() {
    assert!(is_likely_legacy_workspace_id("0123456789abcdef_project"));
    assert!(is_likely_legacy_workspace_id("0123456789ABCDEF_"));
    assert!(!is_likely_legacy_workspace_id("01234567_project"));
    assert!(!is_likely_legacy_workspace_id("0123456789abcdeg_project"));
    assert!(!is_likely_legacy_workspace_id("0123456789abcdef"));
    assert!(!is_likely_legacy_workspace_id("_0123456789abcdef_x"));
    assert!(!is_likely_legacy_workspace_id(""));
}
