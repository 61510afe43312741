use lsp_daemon::workspace::branch::{
    already_on_branch, branch_cache_invalidations, branch_infos_from_git,
    categorize_file_changes, check_branch_operation, check_not_current_branch, git_sync_result,
    require_branch_exists, require_clean, require_git, switch_result, sync_reference, BranchError,
    BranchInfo,
};
use lsp_daemon::workspace::branch_cache::{new_branch_info, BranchCache};
use std::time::Duration;

fn info(ws: i64, name: &str, current: bool) -> BranchInfo {
    new_branch_info(ws, name, Some("abc".to_string()), 1_700_000_000, current)
}

#[test]
fn test_branch_info_recorded_now() {
    let b = info(3, "main", true);
    assert_eq!(b.branch_name, "main");
    assert_eq!(b.commit_hash, Some("abc".to_string()));
    assert_eq!(b.last_updated, "1700000000");
    assert_eq!(b.workspace_id, 3);
    assert!(b.is_current);
    assert_eq!((b.file_count, b.indexed_files, b.cache_entries), (0, 0, 0));
    let c = b.copy();
    assert_eq!(c.branch_name, b.branch_name);
    assert_eq!(c.last_updated, b.last_updated);
}

#[test]
fn test_branch_cache_operations() {
    let mut cache = BranchCache::new();
    assert_eq!(cache.len(), 0);
    cache.update_branch_cache(1, "main", Some("c1".to_string()), 10);
    cache.update_branch_cache_for_creation(1, "feature", None, 11);
    cache.update_branch_cache(2, "dev", None, 12);

    let ws1 = cache.list_workspace_branches(1);
    assert_eq!(ws1.len(), 2);
    assert!(ws1.iter().any(|b| b.branch_name == "main" && b.is_current));
    assert!(ws1.iter().any(|b| b.branch_name == "feature" && !b.is_current));
    // created branches are keyed by workspace id * 1000 + name length
    assert_eq!(cache.get(1007).unwrap().branch_name, "feature");
    assert_eq!(cache.get(1).unwrap().branch_name, "main");

    // switching records the new branch as the only current one
    cache.update_branch_cache_for_creation(1, "hotfix", None, 13);
    cache.update_branch_cache(1, "hotfix", Some("c2".to_string()), 14);
    let current: Vec<_> = cache
        .list_workspace_branches(1)
        .into_iter()
        .filter(|b| b.is_current)
        .collect();
    assert_eq!(current.len(), 1);
    assert_eq!(current[0].branch_name, "hotfix");
    assert_eq!(current[0].last_updated, "14");

    cache.remove_branch_from_cache(1, "feature");
    assert!(cache.get(1007).is_none());
    assert!(cache.list_workspace_branches(1).iter().all(|b| b.branch_name != "feature"));

    let removed = cache.invalidate_workspace(1);
    assert_eq!(removed, 2);
    assert!(cache.list_workspace_branches(1).is_empty());
    assert_eq!(cache.list_workspace_branches(2).len(), 1);

    cache.clear_branch_cache(2);
    assert_eq!(cache.len(), 0);
}

#[test]
fn test_branch_cache_commit_updates() {
    let mut cache = BranchCache::new();
    cache.update_branch_cache_with_commit(5, &None, "c0", 1);
    assert_eq!(cache.len(), 0);
    cache.update_branch_cache_with_commit(5, &Some("main".to_string()), "c1", 2);
    let b = cache.get(5).unwrap();
    assert_eq!(b.branch_name, "main");
    assert_eq!(b.commit_hash, Some("c1".to_string()));
    assert!(b.is_current);
    cache.update_branch_cache_with_commit(5, &Some("other".to_string()), "c2", 3);
    let b = cache.get(5).unwrap();
    assert_eq!(b.branch_name, "main");
    assert_eq!(b.commit_hash, Some("c2".to_string()));
    assert_eq!(b.last_updated, "3");
}

#[test]
fn test_branch_cache_bulk_update() {
    let mut cache = BranchCache::new();
    cache.update_branch_cache(4, "old", None, 1);
    cache.update_branch_cache(9, "keep", None, 1);
    let listing = branch_infos_from_git(
        4,
        &Some("b".to_string()),
        &vec![("a".to_string(), Some("1".to_string())), ("b".to_string(), None)],
        50,
    );
    assert_eq!(listing.len(), 2);
    assert!(!listing[0].is_current);
    assert!(listing[1].is_current);
    assert_eq!(listing[0].commit_hash, Some("1".to_string()));
    assert_eq!(listing[1].last_updated, "50");
    cache.update_branch_cache_bulk(4, &listing);
    assert!(cache.get(4).is_none());
    assert_eq!(cache.get(4000).unwrap().branch_name, "a");
    assert_eq!(cache.get(4001).unwrap().branch_name, "b");
    assert_eq!(cache.get(9).unwrap().branch_name, "keep");
    assert_eq!(cache.list_workspace_branches(4).len(), 2);
}

#[test]
fn test_branch_operation_checks() {
    match require_git(false) {
        Err(BranchError::GitSyncFailed { reason }) => {
            assert_eq!(reason, "Git integration is disabled")
        }
        other => panic!("unexpected {:?}", other),
    }
    assert!(require_git(true).is_ok());
    assert!(check_branch_operation(true, "feature/x").is_ok());
    assert!(matches!(
        check_branch_operation(false, "feature/x"),
        Err(BranchError::GitSyncFailed { .. })
    ));
    assert!(matches!(
        check_branch_operation(true, "a..b"),
        Err(BranchError::InvalidBranchName { .. })
    ));
    assert!(matches!(require_clean(3), Err(BranchError::UncommittedChanges)));
    assert!(require_clean(0).is_ok());
    match require_branch_exists(false, "ghost") {
        Err(BranchError::BranchNotFound { branch_name }) => assert_eq!(branch_name, "ghost"),
        other => panic!("unexpected {:?}", other),
    }
    assert!(require_branch_exists(true, "ghost").is_ok());
    match check_not_current_branch(&Some("main".to_string()), "main") {
        Err(BranchError::BranchSwitchFailed { from, to, reason }) => {
            assert_eq!(from, "main");
            assert_eq!(to, "N/A");
            assert_eq!(reason, "Cannot delete current branch");
        }
        other => panic!("unexpected {:?}", other),
    }
    assert!(check_not_current_branch(&Some("main".to_string()), "dev").is_ok());
    assert!(check_not_current_branch(&None, "dev").is_ok());
}

#[test]
fn test_branch_switch_results() {
    let t = Duration::from_millis(5);
    let same = already_on_branch(7, &Some("main".to_string()), "main", t).unwrap();
    assert_eq!(same.previous_branch, Some("main".to_string()));
    assert_eq!(same.new_branch, "main");
    assert_eq!(same.files_changed, 0);
    assert!(!same.indexing_required);
    assert!(already_on_branch(7, &Some("dev".to_string()), "main", t).is_none());
    assert!(already_on_branch(7, &None, "main", t).is_none());

    let changed = switch_result(7, Some("dev".to_string()), "main", 4, 5, t);
    assert!(changed.indexing_required);
    assert_eq!(changed.files_changed, 4);
    assert_eq!(changed.reused_versions, 0);
    assert_eq!(changed.cache_invalidations, 5);
    let unchanged = switch_result(7, None, "main", 0, 0, t);
    assert!(!unchanged.indexing_required);
    assert_eq!(unchanged.reused_versions, 0);
    assert_eq!(branch_cache_invalidations(4, 1), 5);
}

#[test]
fn test_git_sync_helpers() {
    assert_eq!(sync_reference(Some("v1"), &Some("main".to_string())), "v1");
    assert_eq!(sync_reference(None, &Some("main".to_string())), "main");
    assert_eq!(sync_reference(None, &None), "HEAD");

    let files = vec!["a.rs".to_string(), "b.rs".to_string(), "c.rs".to_string()];
    let (added, modified, deleted) = categorize_file_changes(&files, &vec![true, false, true]);
    assert!(added.is_empty());
    assert_eq!(modified, vec!["a.rs".to_string(), "c.rs".to_string()]);
    assert_eq!(deleted, vec!["b.rs".to_string()]);

    let result = git_sync_result(
        2,
        Some("old".to_string()),
        None,
        (added, modified, deleted),
        Duration::from_secs(1),
    );
    assert_eq!(result.new_commit, "unknown");
    assert_eq!(result.previous_commit, Some("old".to_string()));
    assert_eq!(result.files_modified.len(), 2);
    assert_eq!(result.files_deleted.len(), 1);
    assert!(result.conflicts_detected.is_empty());
}

#[test]
fn branch_switch_checks_in_order() {
    let t = Duration::from_millis(1);
    let main = Some("main".to_string());
    assert!(matches!(
        lsp_daemon::workspace::branch::prepare_branch_switch(1, false, "main", &main, 3, false, t),
        Err(BranchError::GitSyncFailed { .. })
    ));
    assert!(matches!(
        lsp_daemon::workspace::branch::prepare_branch_switch(1, true, "bad..name", &main, 3, false, t),
        Err(BranchError::InvalidBranchName { .. })
    ));
    let done = lsp_daemon::workspace::branch::prepare_branch_switch(1, true, "main", &main, 3, false, t).unwrap().unwrap();
    assert!(!done.indexing_required);
    assert_eq!(done.new_branch, "main");
    assert!(matches!(
        lsp_daemon::workspace::branch::prepare_branch_switch(1, true, "feature", &main, 3, false, t),
        Err(BranchError::UncommittedChanges)
    ));
    assert!(matches!(
        lsp_daemon::workspace::branch::prepare_branch_switch(1, true, "feature", &main, 0, false, t),
        Err(BranchError::BranchNotFound { .. })
    ));
    assert!(lsp_daemon::workspace::branch::prepare_branch_switch(1, true, "feature", &main, 0, true, t).unwrap().is_none());
}
