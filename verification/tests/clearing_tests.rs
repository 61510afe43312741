use lsp_daemon::universal_cache::clearing::{
    clear_params_for, positions_to_check, symbol_key_prefix, target_methods,
    workspace_key_prefix, ClearSymbolError, SymbolClearing,
};
use lsp_daemon::universal_cache::key::{CacheKey, KeyBuilder};
use lsp_daemon::universal_cache::store::StatsTable;
use lsp_daemon::universal_cache::LspMethod;

#[test]
fn test_positions_for_clearing() {
    assert_eq!(positions_to_check(Some(10), Some(5), false), Ok(vec![(10, 5)]));
    assert_eq!(
        positions_to_check(Some(10), Some(5), true),
        Ok(vec![(10, 5), (10, 6), (10, 4), (10, 0), (11, 0), (9, 0), (10, 7), (10, 3)])
    );
    assert_eq!(
        positions_to_check(Some(0), Some(1), true),
        Ok(vec![(0, 1), (0, 2), (0, 0), (0, 0), (1, 0), (0, 0), (0, 3), (0, 0)])
    );
    let err = positions_to_check(Some(3), None, true).unwrap_err();
    assert_eq!(err, ClearSymbolError::PositionRequired);
    assert!(err.message().contains("Symbol position is required"));
    assert!(positions_to_check(None, None, false).is_err());
}

#[test]
fn test_methods_for_clearing() {
    let all = target_methods(None);
    assert_eq!(
        all,
        vec![
            LspMethod::CallHierarchy,
            LspMethod::References,
            LspMethod::Hover,
            LspMethod::Definition,
            LspMethod::DocumentSymbols,
            LspMethod::WorkspaceSymbols,
            LspMethod::Implementation,
            LspMethod::TypeDefinition,
        ]
    );
    let names = vec![
        "Hover".to_string(),
        "Unknown".to_string(),
        "Implementations".to_string(),
        "Completion".to_string(),
    ];
    assert_eq!(
        target_methods(Some(&names)),
        vec![LspMethod::Hover, LspMethod::Implementation]
    );
    assert_eq!(target_methods(Some(&Vec::new())), Vec::<LspMethod>::new());
}

#[test]
fn test_clearing_params() {
    assert_eq!(
        clear_params_for(LspMethod::Definition, 12, 4),
        r#"{"position":{"character":4,"line":12}}"#
    );
    assert_eq!(
        clear_params_for(LspMethod::References, 1, 2),
        r#"{"context":{"includeDeclaration":false},"position":{"character":2,"line":1}}"#
    );
    assert_eq!(clear_params_for(LspMethod::DocumentSymbols, 1, 2), "{}");
    assert_eq!(
        clear_params_for(LspMethod::Implementation, 0, 0),
        r#"{"position":{"character":0,"line":0}}"#
    );
}

#[test]
fn test_clearing_prefixes() {
    let key = CacheKey {
        workspace_relative_path: "src/lib.rs".to_string(),
        method: LspMethod::CallHierarchy,
        content_hash: "abc".to_string(),
        workspace_id: "12345678_proj".to_string(),
        file_mtime: 0,
        symbol_name: Some("main".to_string()),
        position: None,
    };
    let prefix = symbol_key_prefix(&key);
    assert_eq!(prefix, "12345678_proj:textDocument_prepareCallHierarchy:src/lib.rs:");
    assert!(key.to_storage_key().starts_with(&prefix));
    let ws = workspace_key_prefix("12345678_proj");
    assert_eq!(ws, "12345678_proj:");
    assert!(key.to_storage_key().starts_with(&ws));

    let built = KeyBuilder::new().build_key(LspMethod::Hover, "/w/a.rs", "/w", "{}", 1, None);
    assert!(built.to_storage_key().starts_with(&symbol_key_prefix(&built)));
}

#[test]
fn test_symbol_clearing_tally() {
    let mut tally = SymbolClearing::new();
    tally.record(0, (1, 1), LspMethod::Hover);
    assert_eq!(tally.entries, 0);
    assert!(tally.positions.is_empty());
    tally.record(2, (1, 1), LspMethod::Hover);
    tally.record(3, (1, 2), LspMethod::Hover);
    tally.record(1, (1, 1), LspMethod::References);
    let done = tally.finish();
    assert_eq!(done.entries_cleared, 6);
    assert_eq!(done.positions_cleared, vec![(1, 1), (1, 2)]);
    assert_eq!(done.methods_cleared, vec!["Hover".to_string(), "References".to_string()]);
    assert_eq!(done.size_freed, 6 * 1024);
}

#[test]
fn test_clear_workspace_statistics() {
    let mut table = StatsTable::new();
    table.record_hit("ws1", LspMethod::Hover);
    table.record_hit("ws2", LspMethod::Hover);
    table.remove("ws1");
    assert!(table.get("ws1").is_none());
    assert_eq!(table.get("ws2").unwrap().hits, 1);
    table.remove("absent");
    table.remove("ws2");
    assert!(table.is_empty());
}
