use lsp_daemon::workspace::branch::{validate_branch_name, BranchError};
use lsp_daemon::workspace::config::{
    glob_match, CacheConfig, EvictionStrategy, WorkspaceConfig, WorkspaceValidationError,
};
use lsp_daemon::workspace::project::{
    check_project_deletable, detect_project_languages, project_language_for_extension,
    project_stats, validate_project_config, validate_project_path, Project, ProjectConfig,
    ProjectError, ProjectManager, ScannedEntry,
};
use lsp_daemon::workspace::{FileChange, FileChangeType};
use std::sync::Arc;

#[test]
fn test_default_config_validation() {
    let config = WorkspaceConfig::default();
    assert!(config.validate().is_ok());
}

#[test]
fn test_config_builder() {
    let config = WorkspaceConfig::builder()
        .max_file_size_mb(20)
        .git_integration(false)
        .incremental_indexing(true)
        .build()
        .unwrap();

    assert_eq!(config.max_file_size_mb, 20);
    assert!(!config.git_integration);
    assert!(config.incremental_indexing);
}

#[test]
fn branch_cache_without_git_still_conflicts() {
    let result = WorkspaceConfig::builder()
        .git_integration(false)
        .branch_management(lsp_daemon::workspace::config::BranchConfig {
            branch_specific_cache: true,
            ..Default::default()
        })
        .build();
    assert!(matches!(result, Err(WorkspaceValidationError::ConflictingConfig { .. })));
}

#[test]
fn builder_adds_ignore_patterns() {
    let config = WorkspaceConfig::builder()
        .ignore_patterns(vec!["*.bak".to_string()])
        .build()
        .unwrap();
    let mut expected = WorkspaceConfig::default().ignore_patterns;
    expected.push("*.bak".to_string());
    assert_eq!(config.ignore_patterns, expected);
}

#[test]
fn test_invalid_file_size() {
    let result = WorkspaceConfig::builder().max_file_size_mb(2000).build();

    assert!(result.is_err());
    match result.unwrap_err() {
        WorkspaceValidationError::FileSizeTooLarge { limit_mb } => {
            assert_eq!(limit_mb, 2000);
        }
        _ => panic!("Expected FileSizeTooLarge error"),
    }
}

#[test]
fn test_conflicting_config() {
    let cache_config = CacheConfig {
        enabled: false,
        persistent_storage: true,
        ..Default::default()
    };

    let result = WorkspaceConfig::builder().cache_settings(cache_config).build();

    assert!(result.is_err());
}

#[test]
fn test_ignore_patterns() {
    let config = WorkspaceConfig::default();

    assert!(config.should_ignore_file("test.tmp"));
    assert!(config.should_ignore_file("debug.log"));
    assert!(!config.should_ignore_file("main.rs"));
}

#[test]
fn test_language_support() {
    let config = WorkspaceConfig::default();

    assert!(config.is_language_supported("rust"));
    assert!(config.is_language_supported("RUST"));
    assert!(config.is_language_supported("python"));
    assert!(!config.is_language_supported("cobol"));
}

#[test]
fn test_glob_matching() {
    assert!(glob_match("*.tmp", "test.tmp"));
    assert!(glob_match("*.tmp", "file.tmp"));
    assert!(!glob_match("*.tmp", "file.txt"));

    assert!(glob_match(".git/**", ".git/config"));
    assert!(glob_match("node_modules/**", "node_modules/package/index.js"));
    assert!(!glob_match("target/**", "src/main.rs"));
}

#[test]
fn manager_test_workspace_config_validation() {
    let config = WorkspaceConfig::default();
    assert!(config.validate().is_ok());

    let mut invalid_config = config.clone();
    invalid_config.max_file_size_mb = 2000;
    assert!(invalid_config.validate().is_err());
}

#[test]
fn tests_test_workspace_config_validation() {
    let valid_config = WorkspaceConfig::builder()
        .max_file_size_mb(10)
        .git_integration(true)
        .incremental_indexing(true)
        .build();
    assert!(valid_config.is_ok());

    let invalid_config = WorkspaceConfig::builder().max_file_size_mb(2000).build();
    assert!(invalid_config.is_err());

    let cache_config = CacheConfig {
        enabled: false,
        persistent_storage: true,
        ..Default::default()
    };
    let conflicting_config = WorkspaceConfig::builder().cache_settings(cache_config).build();
    assert!(conflicting_config.is_err());
}

#[test]
fn test_file_change_types() {
    let create_change = FileChange {
        path: "/test/file.rs".to_string(),
        change_type: FileChangeType::Create,
        content_digest: Some("abc123".to_string()),
        size_bytes: Some(1024),
        modified_time: Some(1234567890),
    };

    match create_change.change_type {
        FileChangeType::Create => assert!(true),
        _ => assert!(false, "Expected Create change type"),
    }
}

#[test]
fn test_language_detection_mapping() {
    let test_cases = vec![
        ("main.rs", Some("rust")),
        ("script.py", Some("python")),
        ("index.js", Some("javascript")),
        ("app.ts", Some("typescript")),
        ("main.go", Some("go")),
        ("App.java", Some("java")),
        ("main.c", Some("c")),
        ("main.cpp", Some("cpp")),
        ("unknown.xyz", None),
    ];

    for (filename, expected) in test_cases {
        let ext = filename.rsplit('.').next().unwrap();
        let detected = project_language_for_extension(ext);
        assert_eq!(detected.as_deref(), expected, "Failed for {}", filename);
    }
}

#[test]
fn test_branch_name_validation() {
    assert!(validate_branch_name("main").is_ok());
    assert!(validate_branch_name("feature/new-feature").is_ok());
    assert!(validate_branch_name("hotfix-123").is_ok());
    assert!(validate_branch_name("release/v1.0.0").is_ok());
    assert!(validate_branch_name("bugfix/issue-42").is_ok());

    assert!(validate_branch_name("").is_err());
    assert!(validate_branch_name("branch..name").is_err());
    assert!(validate_branch_name("/invalid").is_err());
    assert!(validate_branch_name("invalid/").is_err());

    let long_name = "a".repeat(101);
    assert!(validate_branch_name(&long_name).is_err());

    assert!(validate_branch_name("a").is_ok());
    assert!(validate_branch_name("feature/sub/branch").is_ok());
    assert!(validate_branch_name("123-numeric-start").is_ok());
}

#[test]
fn test_branch_error_display() {
    let errors = vec![
        BranchError::BranchNotFound {
            branch_name: "missing".to_string(),
        },
        BranchError::InvalidBranchName {
            branch_name: "bad..name".to_string(),
            reason: "contains double dots".to_string(),
        },
        BranchError::BranchSwitchFailed {
            from: "main".to_string(),
            to: "feature".to_string(),
            reason: "merge conflicts".to_string(),
        },
        BranchError::UncommittedChanges,
        BranchError::BranchConflicts {
            conflicts: vec!["file1.txt".to_string(), "file2.txt".to_string()],
        },
    ];

    for error in errors {
        let error_str = error.message();
        assert!(!error_str.is_empty());
        println!("Error: {}", error_str);
    }
}

// ---------------------------------------------------------------------------
// Exact values
// ---------------------------------------------------------------------------

#[test]
fn branch_error_messages() {
    assert_eq!(
        BranchError::BranchSwitchFailed {
            from: "main".to_string(),
            to: "feature".to_string(),
            reason: "merge conflicts".to_string(),
        }
        .message(),
        "Branch switch failed: main -> feature - merge conflicts"
    );
    assert_eq!(
        BranchError::BranchConflicts {
            conflicts: vec!["file1.txt".to_string(), "file2.txt".to_string()],
        }
        .message(),
        "Branch conflicts detected: [\"file1.txt\", \"file2.txt\"]"
    );
    match validate_branch_name("a//b/") {
        Err(BranchError::InvalidBranchName { reason, .. }) => {
            assert_eq!(reason, "Invalid branch name format")
        }
        _ => panic!("expected an invalid name"),
    }
    // 100 bytes of a two-byte character are 50 characters: still too long in bytes.
    assert!(validate_branch_name(&"é".repeat(51)).is_err());
    assert!(validate_branch_name(&"é".repeat(50)).is_ok());
}

#[test]
fn validation_errors_in_order_with_messages() {
    let mut config = WorkspaceConfig::default();
    config.cache_settings.max_size_mb = 0;
    let err = config.validate().unwrap_err();
    assert_eq!(
        err.message(),
        "Invalid cache size: 0MB must be between 1MB and 10000MB"
    );
    let mut config = WorkspaceConfig::default();
    config.performance.max_concurrent_operations = 101;
    assert_eq!(
        config.validate().unwrap_err().message(),
        "Invalid concurrent operations: 101 must be between 1 and 100"
    );
    let mut config = WorkspaceConfig::default();
    config.performance.operation_timeout_seconds = 0;
    assert_eq!(
        config.validate().unwrap_err().message(),
        "Invalid timeout: 0 seconds must be between 1 and 3600"
    );
    let mut config = WorkspaceConfig::default();
    config.cache_settings.cache_directory = Some("relative/cache".to_string());
    match config.validate().unwrap_err() {
        WorkspaceValidationError::InvalidDirectoryPath { path } => assert_eq!(path, "relative/cache"),
        other => panic!("unexpected {:?}", other),
    }
    let mut config = WorkspaceConfig::default();
    config.git_integration = false;
    assert_eq!(
        config.validate().unwrap_err().message(),
        "Conflicting configuration: Cannot enable branch-specific cache when git integration is disabled"
    );
}

#[test]
fn config_values_and_maps() {
    let config = WorkspaceConfig::default();
    assert_eq!(config.operation_timeout(), std::time::Duration::from_secs(300));
    assert_eq!(config.debounce_delay(), std::time::Duration::from_millis(500));
    assert_eq!(config.cache_settings.eviction_strategy, EvictionStrategy::LRU);
    let map = config.cache_settings_map();
    assert_eq!(
        map,
        vec![
            ("enabled".to_string(), "true".to_string()),
            ("max_size_mb".to_string(), "100".to_string()),
            ("ttl_minutes".to_string(), "60".to_string()),
            ("compression".to_string(), "true".to_string()),
            ("persistent_storage".to_string(), "true".to_string()),
        ]
    );
    let mut with_dir = WorkspaceConfig::default();
    with_dir.cache_settings.cache_directory = Some("/var/cache".to_string());
    assert_eq!(
        with_dir.cache_settings_map().last().unwrap(),
        &("cache_directory".to_string(), "/var/cache".to_string())
    );
}

#[test]
fn merge_takes_non_default_values() {
    let base = WorkspaceConfig::builder().max_file_size_mb(50).build().unwrap();
    let merged = base.clone().merge(&WorkspaceConfig::default());
    assert_eq!(merged.max_file_size_mb, 50);
    let other = WorkspaceConfig::builder()
        .max_file_size_mb(5)
        .supported_languages(vec!["rust".to_string()])
        .build()
        .unwrap();
    let merged = base.merge(&other);
    assert_eq!(merged.max_file_size_mb, 5);
    assert_eq!(merged.supported_languages, vec!["rust".to_string()]);
    assert_eq!(merged.ignore_patterns.len(), 6);
}

#[test]
fn merge_carries_every_non_default_value() {
    let other = WorkspaceConfig::builder()
        .max_file_size_mb(20)
        .git_integration(false)
        .build()
        .unwrap();
    let merged = WorkspaceConfig::default().merge(&other);
    assert_eq!(merged.max_file_size_mb, 20);
    assert!(!merged.git_integration);
    assert!(!merged.branch_management.branch_specific_cache);
    assert!(merged.incremental_indexing);
    assert!(merged.validate().is_ok());
}

#[test]
fn glob_matching_edge_cases() {
    assert!(glob_match("main.rs", "main.rs"));
    assert!(!glob_match("main.rs", "src/main.rs"));
    assert!(glob_match("a*b*c", "a*b*c"));
    assert!(glob_match(".probe/**", ".probe/cache/x"));
}

fn entry(name: &str, is_file: bool) -> ScannedEntry {
    ScannedEntry { name: name.to_string(), is_file, is_dir: !is_file }
}

#[test]
fn project_languages_are_sorted_and_distinct() {
    let entries = vec![
        entry("main.rs", true),
        entry("lib.RS", true),
        entry(".hidden.py", true),
        entry("app.ts", true),
        entry("node_modules", false),
        entry("util.h", true),
        entry("README", true),
    ];
    assert_eq!(detect_project_languages(&entries), vec!["c", "rust", "typescript"]);
}

#[test]
fn project_scanning_stops_after_three_directories() {
    let entries = vec![
        entry("a", false),
        entry("b", false),
        entry("x.go", true),
        entry("c", false),
        entry("y.java", true),
    ];
    assert_eq!(detect_project_languages(&entries), vec!["go"]);
}

fn sample_project(workspace_count: u32) -> Project {
    Project {
        project_id: 7,
        name: "p".to_string(),
        root_path: "/p".to_string(),
        vcs_type: None,
        created_at: "100".to_string(),
        metadata: None,
        description: None,
        last_updated: Some("200".to_string()),
        is_active: true,
        workspace_count,
        total_files: 12,
        supported_languages: vec!["Rust".to_string()],
    }
}

#[test]
fn project_checks() {
    let manager = ProjectManager::new(Arc::new(()), true);
    assert!(manager.project_supports_language(&sample_project(0), "rust"));
    assert!(!manager.project_supports_language(&sample_project(0), "go"));

    assert!(check_project_deletable(&sample_project(0), false).is_ok());
    assert!(check_project_deletable(&sample_project(2), true).is_ok());
    match check_project_deletable(&sample_project(2), false) {
        Err(ProjectError::HasActiveWorkspaces { workspace_count }) => assert_eq!(workspace_count, 2),
        other => panic!("unexpected {:?}", other),
    }

    let stats = project_stats(&sample_project(3), 4096);
    assert_eq!(stats.total_workspaces, 3);
    assert_eq!(stats.active_workspaces, 3);
    assert_eq!(stats.disk_usage_bytes, 4096);
    assert_eq!(stats.last_activity, Some("200".to_string()));
    assert_eq!(stats.creation_date, "100");
}

#[test]
fn project_validation() {
    let config = ProjectConfig { name: "test_project".to_string(), ..Default::default() };
    assert!(validate_project_config(&config, Ok(())).is_ok());
    let empty = ProjectConfig::default();
    match validate_project_config(&empty, Ok(())) {
        Err(ProjectError::ValidationFailed { field, .. }) => assert_eq!(field, "name"),
        other => panic!("unexpected {:?}", other),
    }
    let too_many = ProjectConfig { name: "p".to_string(), max_workspaces: 1001, ..Default::default() };
    match validate_project_config(&too_many, Ok(())) {
        Err(ProjectError::ValidationFailed { field, .. }) => assert_eq!(field, "max_workspaces"),
        other => panic!("unexpected {:?}", other),
    }
    let bad_path = validate_project_path("/nope", false, false, None);
    match validate_project_config(&config, bad_path) {
        Err(ProjectError::InvalidProjectPath { reason, .. }) => {
            assert_eq!(reason, "Path does not exist")
        }
        other => panic!("unexpected {:?}", other),
    }
    match validate_project_path("/f", true, false, None) {
        Err(ProjectError::InvalidProjectPath { reason, .. }) => {
            assert_eq!(reason, "Path is not a directory")
        }
        other => panic!("unexpected {:?}", other),
    }
    match validate_project_path("/d", true, true, Some("denied".to_string())) {
        Err(ProjectError::InvalidProjectPath { reason, .. }) => {
            assert_eq!(reason, "Cannot access path: denied")
        }
        other => panic!("unexpected {:?}", other),
    }
    assert!(validate_project_path("/d", true, true, None).is_ok());
}
