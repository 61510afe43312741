use lsp_daemon::symbol::dependency_path::GoDep;
use lsp_daemon::symbol::uid_normalization::{
    is_absolute_like, normalize_uid_with_paths, uid_path_to_normalize,
};
use lsp_daemon::symbol::version_aware_uid::{
    blake3_hash_file_content, generate_version_aware_uid, get_workspace_relative_path,
    parse_version_aware_uid, validate_version_aware_uid, PathResolution,
};

/// Paths that do not exist canonicalize to themselves; no Go locations are set.
fn unresolved(file: &str, workspace: &str) -> PathResolution {
    PathResolution::new(file.to_string(), workspace.to_string(), GoDep::new(None, None, None))
}

fn generate(
    workspace_root: &str,
    file_path: &str,
    file_content: &str,
    symbol_name: &str,
    line_number: u32,
) -> Result<String, String> {
    generate_version_aware_uid(
        workspace_root,
        file_path,
        file_content,
        symbol_name,
        line_number,
        &unresolved(file_path, workspace_root),
    )
}

fn relative(file_path: &str, workspace_root: &str) -> Result<String, String> {
    get_workspace_relative_path(file_path, workspace_root, &unresolved(file_path, workspace_root))
}

#[test]
fn test_generate_version_aware_uid() {
    let workspace_root = "/home/user/project";
    let file_path = "/home/user/project/src/main.rs";
    let file_content = "fn main() { println!(\"Hello, world!\"); }";
    let symbol_name = "main";
    let line_number = 1;

    let uid = generate(workspace_root, file_path, file_content, symbol_name, line_number).unwrap();

    assert!(uid.starts_with("src/main.rs:"));
    assert!(uid.contains(":main:1"));
    assert_eq!(uid.split(':').count(), 4);
}

#[test]
fn test_get_workspace_relative_path() {
    let workspace_root = "/home/user/project";

    let file_path = "/home/user/project/src/lib.rs";
    let relative_path = relative(file_path, workspace_root).unwrap();
    assert_eq!(relative_path, "src/lib.rs");

    let external_file = "/tmp/external.rs";
    let external_relative = relative(external_file, workspace_root).unwrap();
    assert!(external_relative.starts_with("EXTERNAL:"));
}

#[test]
fn test_blake3_hash_file_content() {
    let content = "fn main() {}";
    let hash = blake3_hash_file_content(content).unwrap();

    assert_eq!(hash.len(), 8);
    assert!(hash.chars().all(|c| c.is_ascii_hexdigit()));

    let empty_hash = blake3_hash_file_content("").unwrap();
    assert_eq!(empty_hash, "00000000");

    let hash2 = blake3_hash_file_content(content).unwrap();
    assert_eq!(hash, hash2);

    let different_content = "fn other() {}";
    let different_hash = blake3_hash_file_content(different_content).unwrap();
    assert_ne!(hash, different_hash);
}

#[test]
fn test_validate_version_aware_uid() {
    assert!(validate_version_aware_uid("src/main.rs:a1b2c3d4:main:1"));
    assert!(validate_version_aware_uid("lib/utils.rs:12345678:helper:42"));
    assert!(validate_version_aware_uid("EXTERNAL:/tmp/file.rs:abcdef12:func:100"));

    assert!(!validate_version_aware_uid(""));
    assert!(!validate_version_aware_uid("invalid"));
    assert!(!validate_version_aware_uid("a:b:c")); // too few parts
    assert!(!validate_version_aware_uid("a:b:c:d:e")); // too many parts
    assert!(!validate_version_aware_uid(":hash:symbol:1")); // empty path
    assert!(!validate_version_aware_uid("path::symbol:1")); // empty hash
    assert!(!validate_version_aware_uid("path:hash::1")); // empty symbol
    assert!(!validate_version_aware_uid("path:hash:symbol:0")); // invalid line number
    assert!(!validate_version_aware_uid("path:hash:symbol:abc")); // non-numeric line
    assert!(!validate_version_aware_uid("path:1234567:symbol:1")); // hash too short
    assert!(!validate_version_aware_uid("path:123456789:symbol:1")); // hash too long
    assert!(!validate_version_aware_uid("path:1234567g:symbol:1")); // non-hex in hash
}

#[test]
fn test_parse_version_aware_uid() {
    let uid = "src/main.rs:a1b2c3d4:main:42";
    let (path, hash, symbol, line) = parse_version_aware_uid(uid).unwrap();

    assert_eq!(path, "src/main.rs");
    assert_eq!(hash, "a1b2c3d4");
    assert_eq!(symbol, "main");
    assert_eq!(line, 42);

    assert!(parse_version_aware_uid("invalid:uid").is_err());
}

#[test]
fn test_edge_cases() {
    let workspace_root = "/project";
    let file_content = "fn test() {}";

    let result = generate(workspace_root, "/project/main.rs", file_content, "", 1);
    assert!(result.is_err());

    let result = generate(workspace_root, "/project/main.rs", file_content, "test", 0);
    assert!(result.is_err());

    let uid = generate(workspace_root, "/project/main.rs", file_content, "operator+", 10).unwrap();
    assert!(uid.contains("operator+"));
}

#[test]
fn test_content_hash_consistency() {
    let workspace_root = "/project";
    let file_path = "/project/src/test.rs";
    let symbol_name = "test_func";
    let line_number = 10;

    let content1 = "fn test_func() { return 42; }";
    let uid1 = generate(workspace_root, file_path, content1, symbol_name, line_number).unwrap();
    let uid2 = generate(workspace_root, file_path, content1, symbol_name, line_number).unwrap();
    assert_eq!(uid1, uid2);

    let content2 = "fn test_func() { return 43; }";
    let uid3 = generate(workspace_root, file_path, content2, symbol_name, line_number).unwrap();
    assert_ne!(uid1, uid3);

    let parts1: Vec<&str> = uid1.split(':').collect();
    let parts3: Vec<&str> = uid3.split(':').collect();

    assert_eq!(parts1[0], parts3[0]);
    assert_ne!(parts1[1], parts3[1]);
    assert_eq!(parts1[2], parts3[2]);
    assert_eq!(parts1[3], parts3[3]);
}

#[test]
fn uid_is_path_hash_symbol_line() {
    let uid = generate("/p", "/p/src/a.rs", "", "f", 7).unwrap();
    assert_eq!(uid, "src/a.rs:00000000:f:7");
    let content_hash = blake3::hash(b"x").to_hex().to_string();
    let uid = generate("/p", "/p/a.rs", "x", "f", 12).unwrap();
    assert_eq!(uid, format!("a.rs:{}:f:12", &content_hash[..8]));
}

#[test]
fn generation_errors_have_messages() {
    assert_eq!(
        generate("/p", "/p/a.rs", "x", "", 1),
        Err("Symbol name cannot be empty".to_string())
    );
    assert_eq!(
        generate("/p", "/p/a.rs", "x", "f", 0),
        Err("Line number must be greater than 0".to_string())
    );
    assert_eq!(
        parse_version_aware_uid("bad"),
        Err("Invalid UID format: bad".to_string())
    );
}

#[test]
fn external_uid_round_trips() {
    let uid = generate("/home/user/project", "/tmp/file.rs", "", "func", 100).unwrap();
    assert_eq!(uid, "EXTERNAL:/tmp/file.rs:00000000:func:100");
    assert!(validate_version_aware_uid(&uid));
    let (path, hash, symbol, line) = parse_version_aware_uid(&uid).unwrap();
    assert_eq!(path, "EXTERNAL:/tmp/file.rs");
    assert_eq!(hash, "00000000");
    assert_eq!(symbol, "func");
    assert_eq!(line, 100);
}

#[test]
fn dependency_files_get_dep_paths() {
    let file = "/repo2/node_modules/lodash/index.js";
    assert_eq!(relative(file, "/work").unwrap(), "/dep/js/lodash/index.js");
    // A workspace path that leads the file path only textually does not count
    assert_eq!(relative(file, "/repo").unwrap(), "/dep/js/lodash/index.js");
    let go = GoDep::new(Some("/usr/local/go".to_string()), None, None);
    let res = PathResolution::new(
        "/usr/local/go/src/fmt/print.go".to_string(),
        "/repo".to_string(),
        go,
    );
    assert_eq!(
        get_workspace_relative_path("/usr/local/go/src/fmt/print.go", "/repo", &res).unwrap(),
        "/dep/go/system/fmt/print.go"
    );
}

#[test]
fn canonical_paths_decide_first() {
    let res = PathResolution::new(
        "/real/project/src/x.rs".to_string(),
        "/real/project".to_string(),
        GoDep::new(None, None, None),
    );
    assert_eq!(
        get_workspace_relative_path("/link/src/x.rs", "/other", &res).unwrap(),
        "src/x.rs"
    );
}

#[test]
fn absolute_like_paths() {
    assert!(is_absolute_like("/usr/lib"));
    assert!(is_absolute_like("\\server"));
    assert!(is_absolute_like("C:\\work"));
    assert!(!is_absolute_like("src/main.rs"));
    assert!(!is_absolute_like(""));
    assert!(!is_absolute_like("1:x"));
}

#[test]
fn uid_paths_become_workspace_relative() {
    let uid = "/home/u/proj/src/main.rs:abcdef12:main:3";
    assert_eq!(
        uid_path_to_normalize(uid),
        Some("/home/u/proj/src/main.rs".to_string())
    );
    assert_eq!(
        normalize_uid_with_paths(uid, "/home/u/proj/src/main.rs", "/home/u/proj"),
        "src/main.rs:abcdef12:main:3"
    );
    // Outside the root, or the root itself: unchanged
    assert_eq!(normalize_uid_with_paths(uid, "/home/u/proj/src/main.rs", "/other"), uid);
    assert_eq!(
        normalize_uid_with_paths(uid, "/home/u/proj/src/main.rs", "/home/u/proj/src/main.rs"),
        uid
    );
    // Already relative or external UIDs are not touched
    assert_eq!(uid_path_to_normalize("src/main.rs:abcdef12:main:3"), None);
    assert_eq!(uid_path_to_normalize("EXTERNAL:/x:abcdef12:main:3"), None);
    assert_eq!(uid_path_to_normalize("/a/b:abcdef12"), None);
}

#[test]
fn test_colon_in_plain_path_is_rejected() {
    assert!(!validate_version_aware_uid("p:q:abcdef12:f:1"));
    assert!(!validate_version_aware_uid("EXTERNAL:a:b:abcdef12:f:1"));
    let (path, hash, symbol, line) =
        parse_version_aware_uid("EXTERNAL:/tmp/file.rs:abcdef12:func:100").unwrap();
    assert_eq!(path, "EXTERNAL:/tmp/file.rs");
    assert_eq!(hash, "abcdef12");
    assert_eq!(symbol, "func");
    assert_eq!(line, 100);
}

#[test]
fn test_sibling_directory_is_external() {
    assert_eq!(
        relative("/home/user/project2/x.rs", "/home/user/project").unwrap(),
        "EXTERNAL:/home/user/project2/x.rs"
    );
    assert_eq!(relative("/home/user/project/src/x.rs", "/home/user/project").unwrap(), "src/x.rs");
}

#[test]
fn plain_path_named_external_parses() {
    assert!(validate_version_aware_uid("EXTERNAL:abcdef12:sym:5"));
    let (path, hash, symbol, line) = parse_version_aware_uid("EXTERNAL:abcdef12:sym:5").unwrap();
    assert_eq!(path, "EXTERNAL");
    assert_eq!(hash, "abcdef12");
    assert_eq!(symbol, "sym");
    assert_eq!(line, 5);
    assert!(validate_version_aware_uid("EXTERNAL:/tmp/file.rs:abcdef12:func:100"));
}
