//! Results and errors of workspace manager operations.
use vstd::prelude::*;
use core::time::Duration;
use super::branch::BranchError;
use super::config::WorkspaceValidationError;
use super::project::ProjectError;
use super::branch::{BranchSwitchResult, GitSyncResult};
use super::config::{ignored_by, WorkspaceConfig};
use super::{ComprehensiveBranchSwitchResult, FileChange, FileChangeType, WorkspaceIndexingResult};
use crate::symbol::strings_view;
use crate::text::{append, chars_of, string_of};

verus! {

/// Comprehensive indexing result with detailed metrics
#[derive(Debug, Clone)]
pub struct IndexingResult {
    pub workspace_id: i64,
    pub files_processed: u64,
    pub files_added: u64,
    pub files_updated: u64,
    pub files_deleted: u64,
    pub bytes_processed: u64,
    pub processing_time: Duration,
    pub deduplication_savings: u64,
    pub git_integration_active: bool,
    pub branch_name: Option<String>,
    pub commit_hash: Option<String>,
    pub errors: Vec<String>,
    pub warnings: Vec<String>,
}

/// Workspace management errors
///
/// Failures of the git service, the database and file versioning, which wrap those
/// components' own errors, are reported by those components; an I/O failure is carried
/// by its message.
#[derive(Debug)]
pub enum WorkspaceError {
    WorkspaceNotFound { workspace_id: i64 },
    WorkspaceNameExists { name: String },
    InvalidWorkspacePath { path: String, reason: String },
    ValidationFailed { message: String },
    Configuration { source: WorkspaceValidationError },
    ProjectManagement { source: ProjectError },
    BranchManagement { source: BranchError },
    Io { message: String },
}

broadcast use vstd::string::group_string_axioms;

/// What the file version manager reports of processing a batch of file changes
#[derive(Debug, Clone)]
pub struct ProcessingSummary {
    /// The size in bytes of each file version processed
    pub processed_sizes: Vec<u64>,
    /// Versions that were new
    pub new_versions_count: usize,
    /// Versions found already stored
    pub deduplicated_count: usize,
    /// Files that failed, each with its error's message
    pub failed_files: Vec<(String, String)>,
}

/// The total of a sequence of sizes.
pub open spec fn total_size(sizes: Seq<u64>) -> int
    decreases sizes.len(),
{
    if sizes.len() == 0 {
        0
    } else {
        total_size(sizes.drop_last()) + sizes.last()
    }
}

proof fn lemma_total_size_prefix(sizes: Seq<u64>, i: int)
    requires
        0 <= i <= sizes.len(),
    ensures
        total_size(sizes.take(i)) <= total_size(sizes),
    decreases sizes.len() - i,
{
    if i < sizes.len() {
        lemma_total_size_prefix(sizes, i + 1);
        assert(sizes.take(i + 1).drop_last() =~= sizes.take(i));
    } else {
        assert(sizes.take(i) =~= sizes);
    }
}

/// The message of a failed file: its path, `: `, and the error.
pub open spec fn failure_message(f: (String, String)) -> Seq<char> {
    f.0@ + ": "@ + f.1@
}

/// The indexing result matches what the file version manager reported.
pub open spec fn indexing_result_of(
    r: IndexingResult,
    workspace_id: i64,
    summary: ProcessingSummary,
    processing_time: Duration,
    git_integration_active: bool,
    branch_name: Option<Seq<char>>,
    commit_hash: Option<Seq<char>>,
) -> bool {
    &&& r.workspace_id == workspace_id
    &&& r.files_processed == summary.processed_sizes@.len()
    &&& r.files_added == summary.new_versions_count
    &&& r.files_updated == summary.deduplicated_count
    &&& r.files_deleted == 0
    &&& r.bytes_processed == total_size(summary.processed_sizes@)
    &&& r.processing_time == processing_time
    &&& r.deduplication_savings == summary.deduplicated_count
    &&& r.git_integration_active == git_integration_active
    &&& super::branch::opt_text(r.branch_name) == branch_name
    &&& super::branch::opt_text(r.commit_hash) == commit_hash
    &&& strings_view(r.errors@) == summary.failed_files@.map_values(
        |f: (String, String)| failure_message(f),
    )
    &&& r.warnings@.len() == 0
}

/// The indexing result of a processed batch of file changes
pub fn indexing_result(
    workspace_id: i64,
    summary: &ProcessingSummary,
    processing_time: Duration,
    git_integration_active: bool,
    branch_name: Option<String>,
    commit_hash: Option<String>,
) -> (r: IndexingResult)
    requires
        total_size(summary.processed_sizes@) <= u64::MAX,
    ensures
        indexing_result_of(
            r,
            workspace_id,
            *summary,
            processing_time,
            git_integration_active,
            super::branch::opt_text(branch_name),
            super::branch::opt_text(commit_hash),
        ),
{
    let sizes = &summary.processed_sizes;
    let mut bytes: u64 = 0;
    let mut i: usize = 0;
    while i < sizes.len()
        invariant
            i <= sizes@.len(),
            total_size(sizes@) <= u64::MAX,
            bytes == total_size(sizes@.take(i as int)),
        decreases sizes.len() - i,
    {
        proof {
            assert(sizes@.take(i + 1).drop_last() =~= sizes@.take(i as int));
            lemma_total_size_prefix(sizes@, i + 1);
        }
        bytes = bytes + sizes[i];
        i += 1;
    }
    proof {
        assert(sizes@.take(sizes@.len() as int) =~= sizes@);
    }
    let failed = &summary.failed_files;
    let ghost target = failed@.map_values(|f: (String, String)| failure_message(f));
    let mut errors: Vec<String> = Vec::new();
    let mut j: usize = 0;
    while j < failed.len()
        invariant
            j <= failed@.len(),
            target == failed@.map_values(|f: (String, String)| failure_message(f)),
            strings_view(errors@) == target.take(j as int),
        decreases failed.len() - j,
    {
        let mut m = chars_of(failed[j].0.as_str());
        append(&mut m, &chars_of(": "));
        append(&mut m, &chars_of(failed[j].1.as_str()));
        let ghost before = errors@;
        errors.push(string_of(&m));
        proof {
            assert(strings_view(errors@) =~= strings_view(before).push(m@));
            assert(target.take(j + 1) =~= target.take(j as int).push(target[j as int]));
        }
        j += 1;
    }
    proof {
        assert(target.take(failed@.len() as int) =~= target);
    }
    IndexingResult {
        workspace_id,
        files_processed: sizes.len() as u64,
        files_added: summary.new_versions_count as u64,
        files_updated: summary.deduplicated_count as u64,
        files_deleted: 0,
        bytes_processed: bytes,
        processing_time,
        deduplication_savings: summary.deduplicated_count as u64,
        git_integration_active,
        branch_name,
        commit_hash,
        errors,
        warnings: Vec::new(),
    }
}

/// The result of an incremental update that found no change
pub fn no_changes_result(
    workspace_id: i64,
    branch_hint: Option<String>,
    processing_time: Duration,
) -> (r: IndexingResult)
    ensures
        r.workspace_id == workspace_id,
        r.files_processed == 0 && r.files_added == 0 && r.files_updated == 0 && r.files_deleted
            == 0 && r.bytes_processed == 0 && r.deduplication_savings == 0,
        r.processing_time == processing_time,
        r.git_integration_active,
        super::branch::opt_text(r.branch_name) == super::branch::opt_text(branch_hint),
        r.commit_hash is None,
        r.errors@.len() == 0 && r.warnings@.len() == 0,
{
    IndexingResult {
        workspace_id,
        files_processed: 0,
        files_added: 0,
        files_updated: 0,
        files_deleted: 0,
        bytes_processed: 0,
        processing_time,
        deduplication_savings: 0,
        git_integration_active: true,
        branch_name: branch_hint,
        commit_hash: None,
        errors: Vec::new(),
        warnings: Vec::new(),
    }
}

fn copy_opt(o: &Option<String>) -> (r: Option<String>)
    ensures
        super::branch::opt_text(r) == super::branch::opt_text(*o),
{
    match o {
        Some(s) => Some(string_of(&chars_of(s.as_str()))),
        None => None,
    }
}

/// The indexing result an `IndexingCompleted` event carries
pub fn workspace_indexing_result(result: &IndexingResult) -> (r: WorkspaceIndexingResult)
    ensures
        r.workspace_id == result.workspace_id,
        r.files_processed == result.files_processed,
        r.files_added == result.files_added,
        r.files_updated == result.files_updated,
        r.files_deleted == result.files_deleted,
        r.bytes_processed == result.bytes_processed,
        r.processing_time == result.processing_time,
        r.deduplication_savings == result.deduplication_savings,
        r.git_integration_active == result.git_integration_active,
        super::branch::opt_text(r.branch_name) == super::branch::opt_text(result.branch_name),
        super::branch::opt_text(r.commit_hash) == super::branch::opt_text(result.commit_hash),
{
    WorkspaceIndexingResult {
        workspace_id: result.workspace_id,
        files_processed: result.files_processed,
        files_added: result.files_added,
        files_updated: result.files_updated,
        files_deleted: result.files_deleted,
        bytes_processed: result.bytes_processed,
        processing_time: result.processing_time,
        deduplication_savings: result.deduplication_savings,
        git_integration_active: result.git_integration_active,
        branch_name: copy_opt(&result.branch_name),
        commit_hash: copy_opt(&result.commit_hash),
    }
}

/// The branch and commit a full indexing records: with git integration and a
/// repository found, the branch `main` and the head commit; otherwise neither
pub fn indexing_git_info(
    git_integration: bool,
    repository_found: bool,
    head_commit: Option<String>,
) -> (r: (Option<String>, Option<String>))
    ensures
        git_integration && repository_found ==> super::branch::opt_text(r.0) == Some("main"@)
            && super::branch::opt_text(r.1) == super::branch::opt_text(head_commit),
        !(git_integration && repository_found) ==> r.0 is None && r.1 is None,
{
    if git_integration && repository_found {
        (Some(string_of(&chars_of("main"))), head_commit)
    } else {
        (None, None)
    }
}

/// The branch a new workspace records: `main` where git integration is enabled and the
/// project's repository has a head commit
pub fn new_workspace_branch_hint(git_integration: bool, has_head_commit: bool) -> (r: Option<
    String,
>)
    ensures
        super::branch::opt_text(r) == if git_integration && has_head_commit {
            Some("main"@)
        } else {
            None
        },
{
    if git_integration && has_head_commit {
        Some(string_of(&chars_of("main")))
    } else {
        None
    }
}

/// Whether an update goes through git's change detection rather than a full indexing
pub fn uses_git_changes(incremental: bool, git_integration: bool) -> (r: bool)
    ensures
        r == (incremental && git_integration),
{
    incremental && git_integration
}

/// Whether a discovered file is indexed: it is not ignored and not larger than the
/// configured limit
pub open spec fn admitted(config: WorkspaceConfig, path: Seq<char>, size_bytes: u64) -> bool {
    !ignored_by(strings_view(config.ignore_patterns@), path) && size_bytes
        <= config.max_file_size_mb * 1024 * 1024
}

/// Whether a discovered file is indexed
pub fn admit_discovered_file(config: &WorkspaceConfig, path: &str, size_bytes: u64) -> (r: bool)
    requires
        config.max_file_size_mb * 1024 * 1024 <= u64::MAX,
    ensures
        r == admitted(*config, path@, size_bytes),
{
    if config.should_ignore_file(path) {
        return false;
    }
    size_bytes <= config.max_file_size_mb * 1024 * 1024
}

/// A file found by a full scan, taken as created
pub fn discovered_file(path: String, content_digest: String, size_bytes: u64, modified_time: i64) -> (r:
    FileChange)
    ensures
        r.path@ == path@,
        r.change_type == FileChangeType::Create,
        super::branch::opt_text(r.content_digest) == Some(content_digest@),
        r.size_bytes == Some(size_bytes),
        r.modified_time == Some(modified_time),
{
    FileChange {
        path,
        change_type: FileChangeType::Create,
        content_digest: Some(content_digest),
        size_bytes: Some(size_bytes),
        modified_time: Some(modified_time),
    }
}

/// The indexing counters after an indexing: files indexed and transactions grow by the
/// result's files processed and added; the average time moves halfway to this one
pub fn metrics_after_indexing(
    total_files_indexed: u64,
    database_transactions: u64,
    average_indexing_time_ms: u64,
    files_processed: u64,
    files_added: u64,
    processing_time_ms: u64,
) -> (r: (u64, u64, u64))
    requires
        total_files_indexed + files_processed <= u64::MAX,
        database_transactions + files_added <= u64::MAX,
        average_indexing_time_ms + processing_time_ms <= u64::MAX,
    ensures
        r.0 == total_files_indexed + files_processed,
        r.1 == database_transactions + files_added,
        r.2 == (average_indexing_time_ms + processing_time_ms) / 2,
{
    (
        total_files_indexed + files_processed,
        database_transactions + files_added,
        (average_indexing_time_ms + processing_time_ms) / 2,
    )
}

/// Whether a branch switch is followed by an incremental indexing
pub fn indexes_after_switch(indexing_required: bool, incremental_indexing: bool) -> (r: bool)
    ensures
        r == (indexing_required && incremental_indexing),
{
    indexing_required && incremental_indexing
}

/// The workspace manager's result of a branch switch
pub fn comprehensive_switch_result(
    branch_result: BranchSwitchResult,
    git_sync_result: Option<GitSyncResult>,
) -> (r: ComprehensiveBranchSwitchResult)
    ensures
        r.workspace_id == branch_result.workspace_id,
        r.previous_branch == branch_result.previous_branch,
        r.new_branch == branch_result.new_branch,
        r.files_changed == branch_result.files_changed,
        r.reused_versions == branch_result.reused_versions,
        r.switch_time == branch_result.switch_time,
        r.git_sync_result == git_sync_result,
        r.indexing_required == branch_result.indexing_required,
        r.cache_invalidations == branch_result.cache_invalidations,
{
    ComprehensiveBranchSwitchResult {
        workspace_id: branch_result.workspace_id,
        previous_branch: branch_result.previous_branch,
        new_branch: branch_result.new_branch,
        files_changed: branch_result.files_changed,
        reused_versions: branch_result.reused_versions,
        switch_time: branch_result.switch_time,
        git_sync_result,
        indexing_required: branch_result.indexing_required,
        cache_invalidations: branch_result.cache_invalidations,
    }
}

} // verus!
