use lsp_daemon::workspace::branch::switch_result;
use lsp_daemon::workspace::manager::{
    admit_discovered_file, comprehensive_switch_result, discovered_file, indexes_after_switch,
    indexing_git_info, indexing_result, metrics_after_indexing, new_workspace_branch_hint,
    no_changes_result, uses_git_changes, workspace_indexing_result, ProcessingSummary,
};
use lsp_daemon::workspace::project::{
    detects_vcs, new_project, project_metadata_additions, select_projects,
};
use lsp_daemon::workspace::{
    FileChangeType, NoOpEventHandler, Project, ProjectConfig, WorkspaceConfig, WorkspaceEvent,
};
use std::time::Duration;

fn project(id: i64, created_at: &str, active: bool) -> Project {
    Project {
        project_id: id,
        name: format!("p{}", id),
        root_path: format!("/p{}", id),
        vcs_type: None,
        created_at: created_at.to_string(),
        metadata: None,
        description: None,
        last_updated: None,
        is_active: active,
        workspace_count: 0,
        total_files: 0,
        supported_languages: Vec::new(),
    }
}

#[test]
fn test_indexing_result_assembly() {
    let summary = ProcessingSummary {
        processed_sizes: vec![10, 20, 30],
        new_versions_count: 2,
        deduplicated_count: 1,
        failed_files: vec![("src/bad.rs".to_string(), "unreadable".to_string())],
    };
    let r = indexing_result(
        4,
        &summary,
        Duration::from_millis(12),
        true,
        Some("main".to_string()),
        Some("abc".to_string()),
    );
    assert_eq!(r.workspace_id, 4);
    assert_eq!(r.files_processed, 3);
    assert_eq!(r.files_added, 2);
    assert_eq!(r.files_updated, 1);
    assert_eq!(r.files_deleted, 0);
    assert_eq!(r.bytes_processed, 60);
    assert_eq!(r.deduplication_savings, 1);
    assert!(r.git_integration_active);
    assert_eq!(r.errors, vec!["src/bad.rs: unreadable".to_string()]);
    assert!(r.warnings.is_empty());

    let event = workspace_indexing_result(&r);
    assert_eq!(event.files_processed, 3);
    assert_eq!(event.bytes_processed, 60);
    assert_eq!(event.branch_name, Some("main".to_string()));
    assert_eq!(event.commit_hash, Some("abc".to_string()));
}

#[test]
fn test_no_changes_result() {
    let r = no_changes_result(9, Some("dev".to_string()), Duration::from_secs(0));
    assert_eq!(r.files_processed, 0);
    assert_eq!(r.bytes_processed, 0);
    assert!(r.git_integration_active);
    assert_eq!(r.branch_name, Some("dev".to_string()));
    assert_eq!(r.commit_hash, None);
}

#[test]
fn test_git_decisions_of_the_manager() {
    assert_eq!(
        indexing_git_info(true, true, Some("c".to_string())),
        (Some("main".to_string()), Some("c".to_string()))
    );
    assert_eq!(indexing_git_info(true, false, None), (None, None));
    assert_eq!(indexing_git_info(false, true, Some("c".to_string())), (None, None));
    assert_eq!(new_workspace_branch_hint(true, true), Some("main".to_string()));
    assert_eq!(new_workspace_branch_hint(true, false), None);
    assert_eq!(new_workspace_branch_hint(false, true), None);
    assert!(uses_git_changes(true, true));
    assert!(!uses_git_changes(false, true));
    assert!(!uses_git_changes(true, false));
    assert!(indexes_after_switch(true, true));
    assert!(!indexes_after_switch(false, true));
}

#[test]
fn test_discovered_files() {
    let config = WorkspaceConfig::default();
    assert!(admit_discovered_file(&config, "src/main.rs", 1024));
    assert!(!admit_discovered_file(&config, "src/main.rs", 11 * 1024 * 1024));
    assert!(!admit_discovered_file(&config, "target/debug/app", 10));
    assert!(!admit_discovered_file(&config, "build.log", 10));
    assert!(admit_discovered_file(&config, "project/target/debug/app", 10));
    let change = discovered_file("a.rs".to_string(), "ff".to_string(), 3, 42);
    assert_eq!(change.change_type, FileChangeType::Create);
    assert_eq!(change.size_bytes, Some(3));
    assert_eq!(change.modified_time, Some(42));
    assert_eq!(change.content_digest, Some("ff".to_string()));
}

#[test]
fn test_metrics_after_indexing() {
    assert_eq!(metrics_after_indexing(10, 5, 100, 3, 2, 50), (13, 7, 75));
}

#[test]
fn test_comprehensive_switch_result() {
    let br = switch_result(1, Some("dev".to_string()), "main", 2, 3, Duration::from_secs(1));
    let r = comprehensive_switch_result(br, None);
    assert_eq!(r.workspace_id, 1);
    assert_eq!(r.previous_branch, Some("dev".to_string()));
    assert_eq!(r.new_branch, "main");
    assert!(r.indexing_required);
    assert_eq!(r.cache_invalidations, 3);
    assert!(r.git_sync_result.is_none());
}

#[test]
fn test_list_projects_order() {
    let projects = vec![
        project(1, "100", true),
        project(2, "300", false),
        project(3, "200", true),
        project(4, "300", true),
    ];
    let all = select_projects(projects.clone(), false);
    let ids: Vec<i64> = all.iter().map(|p| p.project_id).collect();
    assert_eq!(ids, vec![2, 4, 3, 1]);
    let active = select_projects(projects, true);
    let ids: Vec<i64> = active.iter().map(|p| p.project_id).collect();
    assert_eq!(ids, vec![4, 3, 1]);
    assert!(select_projects(Vec::new(), true).is_empty());
}

#[test]
fn test_project_creation_helpers() {
    let mut config = ProjectConfig::default();
    config.name = "demo".to_string();
    config.root_path = "/src/demo".to_string();
    config.description = Some("a demo".to_string());
    assert!(detects_vcs(&config, true));
    assert!(!detects_vcs(&config, false));
    config.vcs_type = Some("svn".to_string());
    assert!(!detects_vcs(&config, true));

    let additions =
        project_metadata_additions(&Some("git".to_string()), &vec!["rust".to_string(), "go".to_string()]);
    assert_eq!(
        additions,
        vec![
            ("created_by".to_string(), "workspace_manager".to_string()),
            ("version".to_string(), "2.3".to_string()),
            ("vcs_type".to_string(), "git".to_string()),
            ("lang_rust".to_string(), "detected".to_string()),
            ("lang_go".to_string(), "detected".to_string()),
        ]
    );
    assert_eq!(project_metadata_additions(&None, &Vec::new()).len(), 2);

    let p = new_project(42, &config, Some("git".to_string()), vec!["rust".to_string()], 1234, "{}".to_string());
    assert_eq!(p.project_id, 42);
    assert_eq!(p.name, "demo");
    assert_eq!(p.root_path, "/src/demo");
    assert_eq!(p.created_at, "1234");
    assert_eq!(p.last_updated, Some("1234".to_string()));
    assert_eq!(p.metadata, Some("{}".to_string()));
    assert_eq!(p.description, Some("a demo".to_string()));
    assert!(p.is_active);
    assert_eq!(p.workspace_count, 0);
    assert_eq!(p.supported_languages, vec!["rust".to_string()]);
}

#[test]
fn test_noop_event_handler() {
    let handler = NoOpEventHandler;
    assert!(handler
        .handle(WorkspaceEvent::Created { workspace_id: 1, name: "w".to_string() })
        .is_ok());
    assert!(handler.handle(WorkspaceEvent::IndexingStarted { workspace_id: 1 }).is_ok());
}
