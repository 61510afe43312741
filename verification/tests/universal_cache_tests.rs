use lsp_daemon::universal_cache::key::CacheKey;
use lsp_daemon::universal_cache::policy::{CachePolicy, CacheScope, PolicyRegistry};
use lsp_daemon::universal_cache::{LspMethod, MethodStats};

#[test]
fn test_default_policy_registry() {
    let registry = PolicyRegistry::new();

    let call_hierarchy_policy = registry.get_policy(LspMethod::CallHierarchy);
    assert_eq!(call_hierarchy_policy.priority, 10);
    assert!(call_hierarchy_policy.enabled);

    let completion_policy = registry.get_policy(LspMethod::Completion);
    assert!(!completion_policy.enabled);

    let hover_policy = registry.get_policy(LspMethod::Hover);
    assert_eq!(hover_policy.priority, 9);
    assert!(hover_policy.enabled);
}

#[test]
fn test_policy_modification() {
    let mut registry = PolicyRegistry::new();

    registry.set_enabled(LspMethod::Completion, true);
    assert!(registry.get_policy(LspMethod::Completion).enabled);

    let custom_policy = CachePolicy {
        enabled: true,
        scope: CacheScope::Session,
        max_entries_per_workspace: Some(10),
        compress: false,
        priority: 1,
    };

    registry.set_policy(LspMethod::CodeAction, custom_policy.clone());
    let retrieved_policy = registry.get_policy(LspMethod::CodeAction);
    assert_eq!(retrieved_policy.scope, CacheScope::Session);
}

#[test]
fn test_methods_by_scope() {
    let registry = PolicyRegistry::new();

    let file_content_methods = registry.methods_by_scope(CacheScope::FileContent);
    assert!(file_content_methods.contains(&LspMethod::Definition));
    assert!(file_content_methods.contains(&LspMethod::Hover));

    let workspace_methods = registry.methods_by_scope(CacheScope::Workspace);
    assert!(workspace_methods.contains(&LspMethod::References));
    assert!(workspace_methods.contains(&LspMethod::CallHierarchy));
}

#[test]
fn test_enabled_methods() {
    let registry = PolicyRegistry::new();

    let enabled = registry.enabled_methods();

    assert!(enabled.contains(&LspMethod::Definition));
    assert!(enabled.contains(&LspMethod::References));
    assert!(enabled.contains(&LspMethod::Hover));

    assert!(!enabled.contains(&LspMethod::Completion));
    assert!(!enabled.contains(&LspMethod::Rename));
}

#[test]
fn test_cache_scope_ordering() {
    let scopes = [
        CacheScope::FileContent,
        CacheScope::FileStructure,
        CacheScope::Workspace,
        CacheScope::Project,
        CacheScope::Session,
    ];

    assert_eq!(scopes[0], CacheScope::FileContent);
    assert_eq!(scopes[4], CacheScope::Session);
}

#[test]
fn disabling_removes_a_method_from_the_enabled_list() {
    let mut registry = PolicyRegistry::new();
    registry.set_enabled(LspMethod::Hover, false);
    assert!(!registry.enabled_methods().contains(&LspMethod::Hover));
    let hover = registry.get_policy(LspMethod::Hover);
    assert_eq!(hover.priority, 9);
    assert!(!registry.methods_by_scope(CacheScope::FileContent).contains(&LspMethod::Hover));
    // Every other method keeps its policy
    assert!(registry.get_policy(LspMethod::Definition).enabled);
}

#[test]
fn default_policy_values() {
    let p = CachePolicy::default();
    assert!(p.enabled);
    assert_eq!(p.scope, CacheScope::FileContent);
    assert_eq!(p.max_entries_per_workspace, Some(1000));
    assert!(p.compress);
    assert_eq!(p.priority, 5);
    let registry = PolicyRegistry::default();
    assert_eq!(registry.enabled_methods().len(), 13);
}

#[test]
fn method_names_are_protocol_names() {
    assert_eq!(LspMethod::Definition.as_str(), "textDocument/definition");
    assert_eq!(LspMethod::WorkspaceSymbols.as_str(), "workspace/symbol");
    assert_eq!(
        LspMethod::SemanticTokens.as_str(),
        "textDocument/semanticTokens/full"
    );
    let stats = MethodStats { entries: 1, size_bytes: 2, hits: 3, misses: 4 };
    assert_eq!(stats.hits + stats.misses, 7);
}

fn sample_key(symbol: Option<&str>) -> CacheKey {
    CacheKey {
        workspace_relative_path: "src/main.rs".to_string(),
        method: LspMethod::Definition,
        content_hash: "abc123".to_string(),
        workspace_id: "ws_1".to_string(),
        file_mtime: 42,
        symbol_name: symbol.map(|s| s.to_string()),
        position: Some("1:2".to_string()),
    }
}

#[test]
fn storage_key_round_trip() {
    let key = sample_key(Some("main"));
    let storage = key.to_storage_key();
    assert_eq!(storage, "ws_1:textDocument_definition:src/main.rs:abc123:main");
    let back = CacheKey::from_storage_key(&storage).unwrap();
    assert_eq!(back.workspace_id, key.workspace_id);
    assert_eq!(back.method, key.method);
    assert_eq!(back.workspace_relative_path, key.workspace_relative_path);
    assert_eq!(back.content_hash, key.content_hash);
    assert_eq!(back.symbol_name, key.symbol_name);
    assert_eq!(back.file_mtime, 0);
    assert_eq!(back.position, None);

    let plain = sample_key(None);
    assert_eq!(plain.to_storage_key(), "ws_1:textDocument_definition:src/main.rs:abc123");
    let back = CacheKey::from_storage_key(&plain.to_storage_key()).unwrap();
    assert_eq!(back.symbol_name, None);
}

#[test]
fn storage_keys_that_do_not_parse() {
    assert!(CacheKey::from_storage_key("a:b:c").is_none());
    assert!(CacheKey::from_storage_key("ws:textDocument_unknown:p:h").is_none());
    let key = CacheKey::from_storage_key("ws:workspace_symbol:p:h:s:t").unwrap();
    assert_eq!(key.method, LspMethod::WorkspaceSymbols);
    assert_eq!(key.symbol_name, Some("s:t".to_string()));
}
