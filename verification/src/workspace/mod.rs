//! Workspace management: configuration, projects and branches of workspaces, and the
//! results and events of workspace operations.
use vstd::prelude::*;
use core::time::Duration;

pub mod branch;
pub mod branch_cache;
pub mod config;
pub mod manager;
pub mod project;

pub use branch::{BranchError, BranchSwitchResult, GitSyncResult};
pub use config::{CacheConfig, WorkspaceConfig, WorkspaceConfigBuilder, WorkspaceValidationError};
pub use manager::{IndexingResult, WorkspaceError};
pub use project::{Project, ProjectConfig, ProjectError, ProjectManager};

verus! {

/// Comprehensive result type for workspace indexing operations
#[derive(Debug, Clone)]
pub struct WorkspaceIndexingResult {
    pub workspace_id: i64,
    pub files_processed: u64,
    pub files_added: u64,
    pub files_updated: u64,
    pub files_deleted: u64,
    pub bytes_processed: u64,
    pub processing_time: Duration,
    pub deduplication_savings: u64,
    pub git_integration_active: bool,
    pub branch_name: Option<String>,
    pub commit_hash: Option<String>,
}

/// Result of branch switching operations with comprehensive metrics
#[derive(Debug, Clone)]
pub struct ComprehensiveBranchSwitchResult {
    pub workspace_id: i64,
    pub previous_branch: Option<String>,
    pub new_branch: String,
    pub files_changed: u64,
    pub reused_versions: u64,
    pub switch_time: Duration,
    pub git_sync_result: Option<GitSyncResult>,
    pub indexing_required: bool,
    pub cache_invalidations: u64,
}

/// Workspace file change information for incremental updates
#[derive(Debug, Clone)]
pub struct FileChange {
    pub path: String,
    pub change_type: FileChangeType,
    pub content_digest: Option<String>,
    pub size_bytes: Option<u64>,
    pub modified_time: Option<i64>,
}

/// Types of file changes detected during workspace operations
#[derive(Debug, Clone, PartialEq)]
pub enum FileChangeType {
    Create,
    Update,
    Delete,
    Move { from: String, to: String },
}

/// Workspace lifecycle events for monitoring and hooks
#[derive(Debug, Clone)]
pub enum WorkspaceEvent {
    Created { workspace_id: i64, name: String },
    Deleted { workspace_id: i64, name: String },
    IndexingStarted { workspace_id: i64 },
    IndexingCompleted { workspace_id: i64, result: WorkspaceIndexingResult },
    BranchSwitched { workspace_id: i64, from: Option<String>, to: String },
    FilesUpdated { workspace_id: i64, file_count: u64 },
    Error { workspace_id: Option<i64>, error: String },
}

/// Workspace management error types
///
/// Failures of the git service, the database and file versioning, which wrap those
/// components' own errors, are reported by those components.
#[derive(Debug)]
pub enum WorkspaceManagementError {
    OperationFailed { operation: String, context: String },
    Configuration { message: String },
    ProjectManagement { source: ProjectError },
}

/// Default no-op event handler: every event is accepted and nothing is done with it
#[derive(Debug, Clone, Copy)]
pub struct NoOpEventHandler;

impl NoOpEventHandler {
    /// Handle an event: nothing to do, and no failure
    pub fn handle(&self, event: WorkspaceEvent) -> (r: Result<(), WorkspaceManagementError>)
        ensures
            r is Ok,
    {
        Ok(())
    }
}

} // verus!
