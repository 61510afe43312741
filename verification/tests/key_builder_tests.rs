use lsp_daemon::universal_cache::key::{
    extract_position_from_params, format_position, KeyBuilder, RootSearch,
};
use lsp_daemon::universal_cache::LspMethod;

fn is_hex64(s: &str) -> bool {
    s.len() == 64 && s.chars().all(|c| c.is_ascii_digit() || ('a'..='f').contains(&c))
}

#[test]
fn test_singleflight_key_shape() {
    let kb = KeyBuilder::new();
    let key = kb.build_singleflight_key(LspMethod::Definition, "/ws/src/main.rs", "{\"a\":1}");
    assert!(key.starts_with("sf_textDocument_definition:/ws/src/main.rs:"));
    let digest = key.rsplit(':').next().unwrap();
    assert!(is_hex64(digest));

    // Identical requests share a key; other parameters or methods do not
    let same = kb.build_singleflight_key(LspMethod::Definition, "/ws/src/main.rs", "{\"a\":1}");
    assert_eq!(key, same);
    let other_params =
        kb.build_singleflight_key(LspMethod::Definition, "/ws/src/main.rs", "{\"a\":2}");
    assert_ne!(key, other_params);
    let other_method = kb.build_singleflight_key(LspMethod::Hover, "/ws/src/main.rs", "{\"a\":1}");
    assert!(other_method.starts_with("sf_textDocument_hover:"));
    assert_ne!(key, other_method);
}

#[test]
fn test_workspace_id_shape() {
    let kb = KeyBuilder::default();
    let id = kb.generate_workspace_id("/home/user/my-project");
    assert_eq!(id.len(), 8 + 1 + "my-project".len());
    assert!(id.ends_with("_my-project"));
    assert!(id[..8].chars().all(|c| c.is_ascii_hexdigit()));
    assert_eq!(id, kb.generate_workspace_id("/home/user/my-project"));
    let other = kb.generate_workspace_id("/home/other/my-project");
    assert!(other.ends_with("_my-project"));
    assert_ne!(id, other);
    let root = kb.generate_workspace_id("/");
    assert!(root.ends_with("_unknown"));
}

#[test]
fn test_server_fingerprint() {
    let kb = KeyBuilder::new();
    let fp1 = kb.generate_server_fingerprint("rust", "1.0.0", "/ws", None);
    let fp2 = kb.generate_server_fingerprint("rust", "1.0.0", "/ws", None);
    assert_eq!(fp1, fp2);
    assert!(is_hex64(&fp1));
    let fp3 = kb.generate_server_fingerprint("rust", "1.0.1", "/ws", None);
    assert_ne!(fp1, fp3);
    let fp4 = kb.generate_server_fingerprint("python", "1.0.0", "/ws", None);
    assert_ne!(fp1, fp4);
    let with_head = kb.generate_server_fingerprint("rust", "1.0.0", "/ws", Some("abc123"));
    assert_ne!(fp1, with_head);
}

#[test]
fn test_fast_content_hash() {
    let kb = KeyBuilder::new();
    let h1 = kb.generate_fast_content_hash(LspMethod::Hover, "src/lib.rs", "{}", 100, Some(42));
    assert!(is_hex64(&h1));
    assert_eq!(
        h1,
        kb.generate_fast_content_hash(LspMethod::Hover, "src/lib.rs", "{}", 100, Some(42))
    );
    assert_ne!(
        h1,
        kb.generate_fast_content_hash(LspMethod::Hover, "src/lib.rs", "{}", 101, Some(42))
    );
    assert_ne!(
        h1,
        kb.generate_fast_content_hash(LspMethod::Hover, "src/lib.rs", "{}", 100, None)
    );
}

#[test]
fn test_workspace_relative_path() {
    let kb = KeyBuilder::new();
    assert_eq!(kb.get_workspace_relative_path("/ws/src/main.rs", "/ws"), "src/main.rs");
    assert_eq!(kb.get_workspace_relative_path("/elsewhere/a.rs", "/ws"), "/elsewhere/a.rs");
}

#[test]
fn test_build_key() {
    let kb = KeyBuilder::new();
    let params = r#"{"position":{"line":4,"character":2}}"#;
    let key = kb.build_key(LspMethod::Definition, "/ws/proj/src/main.rs", "/ws/proj", params, 77, Some(10));
    assert_eq!(key.workspace_relative_path, "src/main.rs");
    assert_eq!(key.method, LspMethod::Definition);
    assert_eq!(key.file_mtime, 77);
    assert_eq!(key.symbol_name, None);
    assert_eq!(key.position, Some("5:3".to_string()));
    assert!(key.workspace_id.ends_with("_proj"));
    assert_eq!(key.workspace_id, kb.generate_workspace_id("/ws/proj"));
    assert_eq!(
        key.content_hash,
        kb.generate_fast_content_hash(LspMethod::Definition, "src/main.rs", params, 77, Some(10))
    );

    // Key stability: the same inputs give the same key
    let again = kb.build_key(LspMethod::Definition, "/ws/proj/src/main.rs", "/ws/proj", params, 77, Some(10));
    assert_eq!(key, again);
    // A newer modification time gives another key
    let newer = kb.build_key(LspMethod::Definition, "/ws/proj/src/main.rs", "/ws/proj", params, 78, Some(10));
    assert_ne!(key.content_hash, newer.content_hash);
}

#[test]
fn test_key_validation() {
    let kb = KeyBuilder::new();
    let key = kb.build_key(LspMethod::Hover, "/ws/a.rs", "/ws", "{}", 5, None);
    assert_eq!(kb.is_key_valid(&key, true, Some(5)), Some(true));
    assert_eq!(kb.is_key_valid(&key, true, Some(6)), Some(false));
    assert_eq!(kb.is_key_valid(&key, false, Some(5)), Some(false));
    assert_eq!(kb.is_key_valid(&key, true, None), None);
}

#[test]
fn test_position_extraction() {
    assert_eq!(
        extract_position_from_params(r#"{"position":{"line":0,"character":0}}"#),
        Some("1:1".to_string())
    );
    assert_eq!(
        extract_position_from_params(r#"{"textDocument":{},"position":{"line":9}}"#),
        Some("10:1".to_string())
    );
    assert_eq!(extract_position_from_params(r#"{"query":"x"}"#), None);
    assert_eq!(extract_position_from_params("not json"), None);
    assert_eq!(
        extract_position_from_params(r#"{"position":{"line":18446744073709551615,"character":1}}"#),
        None
    );
    assert_eq!(format_position(41, 6), "42:7");
}

fn find_root(path: &str, is_file: bool, existing: &[&str]) -> Option<String> {
    let mut search = RootSearch::start(path, is_file);
    let mut probes = 0;
    while let Some(p) = search.probe() {
        probes += 1;
        assert!(probes < 1000);
        if let Some(root) = search.advance(existing.contains(&p.as_str())) {
            return Some(root);
        }
    }
    None
}

#[test]
fn test_workspace_root_search() {
    assert_eq!(
        find_root("/w/proj/src/main.rs", true, &["/w/proj/Cargo.toml"]),
        Some("/w/proj".to_string())
    );
    assert_eq!(
        find_root("/w/proj/src", false, &["/w/proj/src/go.mod", "/w/proj/Cargo.toml"]),
        Some("/w/proj/src".to_string())
    );
    assert_eq!(find_root("/w/proj/src/main.rs", true, &["/w/.git"]), Some("/w".to_string()));
    assert_eq!(find_root("/w/proj/src/main.rs", true, &[]), None);
    let mut search = RootSearch::start("/a/b.rs", true);
    assert_eq!(search.dir, Some("/a".to_string()));
    assert_eq!(search.probe(), Some("/a/Cargo.toml".to_string()));
    assert_eq!(search.advance(false), None);
    assert_eq!(search.probe(), Some("/a/package.json".to_string()));
}

#[test]
fn test_content_hash() {
    let kb = KeyBuilder::new();
    let h1 = kb.generate_content_hash(LspMethod::Hover, "src/lib.rs", "fn a() {}", "{}", 7);
    assert!(is_hex64(&h1));
    assert_eq!(h1, kb.generate_content_hash(LspMethod::Hover, "src/lib.rs", "fn a() {}", "{}", 7));
    assert_ne!(h1, kb.generate_content_hash(LspMethod::Hover, "src/lib.rs", "fn b() {}", "{}", 7));
    assert_ne!(h1, kb.generate_fast_content_hash(LspMethod::Hover, "src/lib.rs", "{}", 7, None));
}
