use lsp_daemon::universal_cache::layer::{
    cacheable_method, current_revision, file_uri, warm_cache_plan, warming_params_for,
    CacheLayerConfig,
};
use lsp_daemon::universal_cache::monitoring::{convert_method_stats, method_totals};
use lsp_daemon::universal_cache::policy::PolicyRegistry;
use lsp_daemon::universal_cache::{LspMethod, MethodStats};
use std::time::Duration;

#[test]
fn test_cache_layer_config_default() {
    let config = CacheLayerConfig::default();
    assert!(!config.cache_warming_enabled);
    assert_eq!(config.cache_warming_concurrency, 4);
    assert_eq!(config.singleflight_timeout, Duration::from_secs(30));
    assert!(config.detailed_metrics);
    assert_eq!(config.workspace_revision_ttl, Duration::from_secs(60));
}

#[test]
fn test_cacheable_method() {
    let mut registry = PolicyRegistry::new();
    assert_eq!(cacheable_method(&registry, Some(LspMethod::Definition)), Some(LspMethod::Definition));
    assert_eq!(cacheable_method(&registry, Some(LspMethod::Completion)), None);
    assert_eq!(cacheable_method(&registry, None), None);
    registry.set_enabled(LspMethod::Definition, false);
    assert_eq!(cacheable_method(&registry, Some(LspMethod::Definition)), None);
}

#[test]
fn test_convert_method_stats() {
    let mut method_stats: Vec<Option<MethodStats>> = vec![None; 16];
    method_stats[LspMethod::Definition.index()] = Some(MethodStats {
        entries: 100,
        size_bytes: 1024,
        hits: 80,
        misses: 20,
    });

    let protocol_stats = convert_method_stats(&method_stats);

    assert_eq!(protocol_stats.len(), 1);
    let (name, def_stats) = &protocol_stats[0];
    assert_eq!(name, "textDocument/definition");
    assert_eq!(def_stats.method, "textDocument/definition");
    assert_eq!(def_stats.entries, 100);
    let hit_rate = def_stats.hits as f64 / (def_stats.hits + def_stats.misses) as f64;
    assert_eq!(hit_rate, 0.8); // 80/100
    assert!(def_stats.enabled);
    assert_eq!(def_stats.ttl_seconds, Some(3600));
}

#[test]
fn test_method_totals() {
    let mut method_stats: Vec<Option<MethodStats>> = vec![None; 16];
    method_stats[0] = Some(MethodStats { entries: 1, size_bytes: 2, hits: 3, misses: 4 });
    method_stats[5] = Some(MethodStats { entries: 0, size_bytes: 0, hits: 10, misses: 1 });
    assert_eq!(method_totals(&method_stats), (13, 5));
    let converted = convert_method_stats(&method_stats);
    assert_eq!(converted.len(), 2);
    assert_eq!(converted[0].0, "textDocument/definition");
    assert_eq!(converted[1].0, "textDocument/typeDefinition");
}

#[test]
fn test_cache_warming_plan() {
    let files = vec!["/w/a.rs".to_string(), "/w/b.rs".to_string()];
    let disabled = CacheLayerConfig::default();
    assert!(warm_cache_plan(&disabled, &files).is_empty());
    let enabled = CacheLayerConfig { cache_warming_enabled: true, ..CacheLayerConfig::default() };
    let plan = warm_cache_plan(&enabled, &files);
    assert_eq!(plan.len(), 8);
    assert_eq!(plan[0].file, "/w/a.rs");
    assert_eq!(plan[0].method, LspMethod::Hover);
    assert_eq!(plan[2].method, LspMethod::DocumentSymbols);
    assert_eq!(plan[2].params, "{}");
    assert_eq!(plan[3].method, LspMethod::References);
    assert!(plan[3].params.contains("includeDeclaration"));
    assert_eq!(plan[4].file, "/w/b.rs");
    assert_eq!(plan[5].method, LspMethod::Definition);
    assert_eq!(warming_params_for(LspMethod::Rename), "{}");
}

#[test]
fn test_workspace_revision() {
    assert_eq!(current_revision(Some("abc123\n".to_string()), Some(5)), "abc123");
    assert_eq!(current_revision(None, Some(1700000000)), "1700000000");
    assert_eq!(current_revision(None, None), "unknown");
    assert_eq!(file_uri("/w/a.rs"), "file:///w/a.rs");
}
