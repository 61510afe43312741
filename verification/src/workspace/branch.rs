//! Branches of workspaces: their information, the results of switching and
//! synchronizing them, and the rules for branch names.
use vstd::prelude::*;
use core::time::Duration;
use vstd::utf8::encode_utf8;
use crate::text::{append, chars_of, contains, contains_exec, ends_with, has_prefix, has_suffix, starts_with, string_of};
use crate::external::{strings_debug, strings_debug_text};
use crate::symbol::strings_view;

verus! {

broadcast use vstd::string::group_string_axioms;

/// Result of branch switching operations
#[derive(Debug, Clone)]
pub struct BranchSwitchResult {
    pub workspace_id: i64,
    pub previous_branch: Option<String>,
    pub new_branch: String,
    pub files_changed: u64,
    pub reused_versions: u64,
    pub switch_time: Duration,
    pub cache_invalidations: u64,
    pub indexing_required: bool,
}

/// Result of git synchronization operations
#[derive(Debug, Clone)]
pub struct GitSyncResult {
    pub workspace_id: i64,
    pub previous_commit: Option<String>,
    pub new_commit: String,
    pub files_modified: Vec<String>,
    pub files_added: Vec<String>,
    pub files_deleted: Vec<String>,
    pub sync_time: Duration,
    pub conflicts_detected: Vec<String>,
}

/// Branch information with workspace association
#[derive(Debug, Clone)]
pub struct BranchInfo {
    pub branch_name: String,
    pub commit_hash: Option<String>,
    pub last_updated: String,
    pub workspace_id: i64,
    pub is_current: bool,
    pub file_count: u64,
    pub indexed_files: u64,
    pub cache_entries: u64,
}

/// Branch management errors
///
/// Failures of the git service, the database and file versioning, which wrap those
/// components' own errors, are reported by those components.
#[derive(Debug)]
pub enum BranchError {
    BranchNotFound { branch_name: String },
    InvalidBranchName { branch_name: String, reason: String },
    BranchSwitchFailed { from: String, to: String, reason: String },
    GitSyncFailed { reason: String },
    UncommittedChanges,
    BranchConflicts { conflicts: Vec<String> },
}

/// The model of a branch error: its texts as character sequences.
pub enum BranchErrorView {
    BranchNotFound { branch_name: Seq<char> },
    InvalidBranchName { branch_name: Seq<char>, reason: Seq<char> },
    BranchSwitchFailed { from: Seq<char>, to: Seq<char>, reason: Seq<char> },
    GitSyncFailed { reason: Seq<char> },
    UncommittedChanges,
    BranchConflicts { conflicts: Seq<Seq<char>> },
}

impl View for BranchError {
    type V = BranchErrorView;

    open spec fn view(&self) -> BranchErrorView {
        match self {
            BranchError::BranchNotFound { branch_name } => BranchErrorView::BranchNotFound {
                branch_name: branch_name@,
            },
            BranchError::InvalidBranchName { branch_name, reason } => BranchErrorView::InvalidBranchName {
                branch_name: branch_name@,
                reason: reason@,
            },
            BranchError::BranchSwitchFailed { from, to, reason } => BranchErrorView::BranchSwitchFailed {
                from: from@,
                to: to@,
                reason: reason@,
            },
            BranchError::GitSyncFailed { reason } => BranchErrorView::GitSyncFailed {
                reason: reason@,
            },
            BranchError::UncommittedChanges => BranchErrorView::UncommittedChanges,
            BranchError::BranchConflicts { conflicts } => BranchErrorView::BranchConflicts {
                conflicts: strings_view(conflicts@),
            },
        }
    }
}

/// The message of a branch error, as its `Display` prints it.
pub open spec fn branch_error_message(e: BranchErrorView) -> Seq<char> {
    match e {
        BranchErrorView::BranchNotFound { branch_name } => "Branch not found: "@ + branch_name,
        BranchErrorView::InvalidBranchName { branch_name, reason } => "Invalid branch name: "@
            + branch_name + " - "@ + reason,
        BranchErrorView::BranchSwitchFailed { from, to, reason } => "Branch switch failed: "@
            + from + " -> "@ + to + " - "@ + reason,
        BranchErrorView::GitSyncFailed { reason } => "Git synchronization failed: "@ + reason,
        BranchErrorView::UncommittedChanges => "Working directory has uncommitted changes"@,
        BranchErrorView::BranchConflicts { conflicts } => "Branch conflicts detected: "@
            + strings_debug_text(conflicts),
    }
}

impl BranchError {
    /// The error's message.
    pub fn message(&self) -> (r: String)
        ensures
            r@ == branch_error_message(self@),
    {
        let mut out: Vec<char>;
        match self {
            BranchError::BranchNotFound { branch_name } => {
                out = chars_of("Branch not found: ");
                append(&mut out, &chars_of(branch_name.as_str()));
            },
            BranchError::InvalidBranchName { branch_name, reason } => {
                out = chars_of("Invalid branch name: ");
                append(&mut out, &chars_of(branch_name.as_str()));
                append(&mut out, &chars_of(" - "));
                append(&mut out, &chars_of(reason.as_str()));
            },
            BranchError::BranchSwitchFailed { from, to, reason } => {
                out = chars_of("Branch switch failed: ");
                append(&mut out, &chars_of(from.as_str()));
                append(&mut out, &chars_of(" -> "));
                append(&mut out, &chars_of(to.as_str()));
                append(&mut out, &chars_of(" - "));
                append(&mut out, &chars_of(reason.as_str()));
            },
            BranchError::GitSyncFailed { reason } => {
                out = chars_of("Git synchronization failed: ");
                append(&mut out, &chars_of(reason.as_str()));
            },
            BranchError::UncommittedChanges => {
                out = chars_of("Working directory has uncommitted changes");
            },
            BranchError::BranchConflicts { conflicts } => {
                out = chars_of("Branch conflicts detected: ");
                append(&mut out, &chars_of(strings_debug(conflicts).as_str()));
            },
        }
        string_of(&out)
    }
}

/// Why a branch name is refused, if it is: it is empty, longer than 100 bytes, contains
/// `..`, or begins or ends with `/`.
pub open spec fn branch_name_problem(name: Seq<char>) -> Option<Seq<char>> {
    if name.len() == 0 {
        Some("Branch name cannot be empty"@)
    } else if encode_utf8(name).len() > 100 {
        Some("Branch name too long (max 100 characters)"@)
    } else if contains(name, ".."@) || starts_with(name, "/"@) || ends_with(name, "/"@) {
        Some("Invalid branch name format"@)
    } else {
        None
    }
}

/// Validate a branch name.
pub fn validate_branch_name(branch_name: &str) -> (r: Result<(), BranchError>)
    ensures
        match r {
            Ok(()) => branch_name_problem(branch_name@) is None,
            Err(e) => branch_name_problem(branch_name@) matches Some(reason) && e@
                == (BranchErrorView::InvalidBranchName { branch_name: branch_name@, reason }),
        },
{
    let name = chars_of(branch_name);
    if name.len() == 0 {
        return Err(
            BranchError::InvalidBranchName {
                branch_name: branch_name.to_string(),
                reason: "Branch name cannot be empty".to_string(),
            },
        );
    }
    if branch_name.as_bytes().len() > 100 {
        return Err(
            BranchError::InvalidBranchName {
                branch_name: branch_name.to_string(),
                reason: "Branch name too long (max 100 characters)".to_string(),
            },
        );
    }
    // Check for invalid characters
    let slash = chars_of("/");
    if contains_exec(&name, &chars_of("..")) || has_prefix(&name, &slash) || has_suffix(
        &name,
        &slash,
    ) {
        return Err(
            BranchError::InvalidBranchName {
                branch_name: branch_name.to_string(),
                reason: "Invalid branch name format".to_string(),
            },
        );
    }
    Ok(())
}

// ---------------------------------------------------------------------------
// The decisions of branch operations
// ---------------------------------------------------------------------------

/// The error of an operation that needs git while git integration is disabled.
pub open spec fn git_disabled_error() -> BranchErrorView {
    BranchErrorView::GitSyncFailed { reason: "Git integration is disabled"@ }
}

/// Refuse an operation that needs git when git integration is disabled
pub fn require_git(git_integration_enabled: bool) -> (r: Result<(), BranchError>)
    ensures
        r is Ok <==> git_integration_enabled,
        r matches Err(e) ==> e@ == git_disabled_error(),
{
    if !git_integration_enabled {
        return Err(
            BranchError::GitSyncFailed { reason: string_of(&chars_of("Git integration is disabled")) },
        );
    }
    Ok(())
}

/// The check before a branch is switched to, created or deleted: git integration must
/// be enabled, and the branch name valid
pub fn check_branch_operation(git_integration_enabled: bool, branch_name: &str) -> (r: Result<
    (),
    BranchError,
>)
    ensures
        !git_integration_enabled ==> (r matches Err(e) && e@ == git_disabled_error()),
        git_integration_enabled ==> match r {
            Ok(()) => branch_name_problem(branch_name@) is None,
            Err(e) => branch_name_problem(branch_name@) matches Some(reason) && e@
                == (BranchErrorView::InvalidBranchName { branch_name: branch_name@, reason }),
        },
{
    require_git(git_integration_enabled)?;
    validate_branch_name(branch_name)
}

/// The model of a switch result's texts.
pub open spec fn opt_text(o: Option<String>) -> Option<Seq<char>> {
    match o {
        Some(s) => Some(s@),
        None => None,
    }
}

/// The result of switching to the branch the workspace is on already: nothing changes
pub fn already_on_branch(
    workspace_id: i64,
    current_branch: &Option<String>,
    target_branch: &str,
    switch_time: Duration,
) -> (r: Option<BranchSwitchResult>)
    ensures
        match r {
            Some(res) => opt_text(*current_branch) == Some(target_branch@) && res.workspace_id
                == workspace_id && opt_text(res.previous_branch) == Some(target_branch@)
                && res.new_branch@ == target_branch@ && res.files_changed == 0
                && res.reused_versions == 0 && res.switch_time == switch_time
                && res.cache_invalidations == 0 && !res.indexing_required,
            None => opt_text(*current_branch) != Some(target_branch@),
        },
{
    match current_branch {
        Some(current) => {
            if crate::text::chars_eq(&chars_of(current.as_str()), &chars_of(target_branch)) {
                Some(BranchSwitchResult {
                    workspace_id,
                    previous_branch: Some(string_of(&chars_of(current.as_str()))),
                    new_branch: string_of(&chars_of(target_branch)),
                    files_changed: 0,
                    reused_versions: 0,
                    switch_time,
                    cache_invalidations: 0,
                    indexing_required: false,
                })
            } else {
                None
            }
        },
        None => None,
    }
}

/// Refuse to switch with uncommitted changes in the working directory
pub fn require_clean(uncommitted_files: usize) -> (r: Result<(), BranchError>)
    ensures
        r is Ok <==> uncommitted_files == 0,
        r matches Err(e) ==> e@ == BranchErrorView::UncommittedChanges,
{
    if uncommitted_files > 0 {
        return Err(BranchError::UncommittedChanges);
    }
    Ok(())
}

/// Refuse to switch to a branch that does not exist
pub fn require_branch_exists(exists: bool, branch_name: &str) -> (r: Result<(), BranchError>)
    ensures
        r is Ok <==> exists,
        r matches Err(e) ==> e@ == (BranchErrorView::BranchNotFound { branch_name: branch_name@ }),
{
    if !exists {
        return Err(BranchError::BranchNotFound { branch_name: string_of(&chars_of(branch_name)) });
    }
    Ok(())
}

/// The result of a completed switch: indexing is required where files changed, and
/// versions are reused only where none did
pub fn switch_result(
    workspace_id: i64,
    previous_branch: Option<String>,
    target_branch: &str,
    files_changed: u64,
    cache_invalidations: u64,
    switch_time: Duration,
) -> (r: BranchSwitchResult)
    ensures
        r.workspace_id == workspace_id,
        opt_text(r.previous_branch) == opt_text(previous_branch),
        r.new_branch@ == target_branch@,
        r.files_changed == files_changed,
        r.indexing_required == (files_changed > 0),
        r.reused_versions == (if files_changed > 0 {
            0
        } else {
            files_changed
        }),
        r.cache_invalidations == cache_invalidations,
        r.switch_time == switch_time,
{
    let indexing_required = files_changed > 0;
    BranchSwitchResult {
        workspace_id,
        previous_branch,
        new_branch: string_of(&chars_of(target_branch)),
        files_changed,
        reused_versions: if indexing_required {
            0
        } else {
            files_changed
        },
        switch_time,
        cache_invalidations,
        indexing_required,
    }
}

/// The checks before a branch switch, in order: git integration must be enabled, the
/// branch name valid; a workspace already on the branch is done (`Ok(true)`); else the
/// working directory must be clean and the branch must exist, and the switch goes on
/// (`Ok(false)`).
pub open spec fn switch_check(
    git_integration_enabled: bool,
    target: Seq<char>,
    current: Option<Seq<char>>,
    uncommitted_files: nat,
    target_exists: bool,
) -> Result<bool, BranchErrorView> {
    if !git_integration_enabled {
        Err(git_disabled_error())
    } else if branch_name_problem(target) is Some {
        Err(
            BranchErrorView::InvalidBranchName {
                branch_name: target,
                reason: branch_name_problem(target)->0,
            },
        )
    } else if current == Some(target) {
        Ok(true)
    } else if uncommitted_files > 0 {
        Err(BranchErrorView::UncommittedChanges)
    } else if !target_exists {
        Err(BranchErrorView::BranchNotFound { branch_name: target })
    } else {
        Ok(false)
    }
}

/// Decide a branch switch before the checkout, from what git says of the workspace: the
/// current branch, how many files have uncommitted changes, and whether the target branch
/// exists. Gives the result where the workspace is already on the branch, `None` where
/// the checkout is to go ahead, or the error that stops the switch
pub fn prepare_branch_switch(
    workspace_id: i64,
    git_integration_enabled: bool,
    target_branch: &str,
    current_branch: &Option<String>,
    uncommitted_files: usize,
    target_exists: bool,
    switch_time: Duration,
) -> (r: Result<Option<BranchSwitchResult>, BranchError>)
    ensures
        match r {
            Err(e) => switch_check(
                git_integration_enabled,
                target_branch@,
                opt_text(*current_branch),
                uncommitted_files as nat,
                target_exists,
            ) == Err::<bool, BranchErrorView>(e@),
            Ok(None) => switch_check(
                git_integration_enabled,
                target_branch@,
                opt_text(*current_branch),
                uncommitted_files as nat,
                target_exists,
            ) == Ok::<bool, BranchErrorView>(false),
            Ok(Some(res)) => switch_check(
                git_integration_enabled,
                target_branch@,
                opt_text(*current_branch),
                uncommitted_files as nat,
                target_exists,
            ) == Ok::<bool, BranchErrorView>(true) && res.workspace_id == workspace_id
                && opt_text(res.previous_branch) == Some(target_branch@) && res.new_branch@
                == target_branch@ && res.files_changed == 0 && res.reused_versions == 0
                && res.switch_time == switch_time && res.cache_invalidations == 0
                && !res.indexing_required,
        },
{
    check_branch_operation(git_integration_enabled, target_branch)?;
    match already_on_branch(workspace_id, current_branch, target_branch, switch_time) {
        Some(res) => return Ok(Some(res)),
        None => {},
    }
    require_clean(uncommitted_files)?;
    require_branch_exists(target_exists, target_branch)?;
    Ok(None)
}

/// The cache invalidations of a branch switch: one file-cache clear per changed file,
/// and the workspace's cached branches dropped
pub fn branch_cache_invalidations(changed_files: usize, removed_branches: usize) -> (r: u64)
    requires
        changed_files + removed_branches <= u64::MAX,
    ensures
        r == changed_files + removed_branches,
{
    changed_files as u64 + removed_branches as u64
}

/// Refuse to delete the branch the repository is on
pub fn check_not_current_branch(current_branch: &Option<String>, branch_name: &str) -> (r: Result<
    (),
    BranchError,
>)
    ensures
        r is Ok <==> opt_text(*current_branch) != Some(branch_name@),
        r matches Err(e) ==> e@ == (BranchErrorView::BranchSwitchFailed {
            from: branch_name@,
            to: "N/A"@,
            reason: "Cannot delete current branch"@,
        }),
{
    match current_branch {
        Some(current) => {
            if crate::text::chars_eq(&chars_of(current.as_str()), &chars_of(branch_name)) {
                return Err(
                    BranchError::BranchSwitchFailed {
                        from: string_of(&chars_of(current.as_str())),
                        to: string_of(&chars_of("N/A")),
                        reason: string_of(&chars_of("Cannot delete current branch")),
                    },
                );
            }
            Ok(())
        },
        None => Ok(()),
    }
}

/// The reference a synchronization compares with: the one given, else the workspace's
/// branch, else `HEAD`.
pub open spec fn sync_ref(git_ref: Option<Seq<char>>, current_branch: Option<Seq<char>>) -> Seq<char> {
    match git_ref {
        Some(r) => r,
        None => match current_branch {
            Some(b) => b,
            None => "HEAD"@,
        },
    }
}

/// The reference a synchronization compares with
pub fn sync_reference(git_ref: Option<&str>, current_branch: &Option<String>) -> (r: String)
    ensures
        r@ == sync_ref(
            match git_ref {
                Some(g) => Some(g@),
                None => None,
            },
            opt_text(*current_branch),
        ),
{
    match git_ref {
        Some(g) => string_of(&chars_of(g)),
        None => match current_branch {
            Some(b) => string_of(&chars_of(b.as_str())),
            None => string_of(&chars_of("HEAD")),
        },
    }
}

/// The files of a list whose existence flag is `present`, in order.
pub open spec fn files_where(files: Seq<Seq<char>>, exists: Seq<bool>, present: bool) -> Seq<Seq<char>>
    decreases files.len(),
{
    if files.len() == 0 || exists.len() < files.len() {
        seq![]
    } else {
        let n = files.len() - 1;
        files_where(files.drop_last(), exists.take(n), present) + if exists[n] == present {
            seq![files[n]]
        } else {
            seq![]
        }
    }
}

/// Categorize file changes into added, modified, and deleted, given whether each file
/// exists in the workspace: existing files count as modified, missing ones as deleted,
/// and none as added
pub fn categorize_file_changes(changed_files: &Vec<String>, exists: &Vec<bool>) -> (r: (
    Vec<String>,
    Vec<String>,
    Vec<String>,
))
    requires
        exists@.len() == changed_files@.len(),
    ensures
        r.0@.len() == 0,
        strings_view(r.1@) == files_where(strings_view(changed_files@), exists@, true),
        strings_view(r.2@) == files_where(strings_view(changed_files@), exists@, false),
{
    let ghost files = strings_view(changed_files@);
    let added: Vec<String> = Vec::new();
    let mut modified: Vec<String> = Vec::new();
    let mut deleted: Vec<String> = Vec::new();
    let mut i: usize = 0;
    while i < changed_files.len()
        invariant
            i <= changed_files@.len(),
            exists@.len() == changed_files@.len(),
            files == strings_view(changed_files@),
            strings_view(modified@) == files_where(files.take(i as int), exists@.take(i as int), true),
            strings_view(deleted@) == files_where(files.take(i as int), exists@.take(i as int), false),
        decreases changed_files.len() - i,
    {
        proof {
            let f = files.take(i + 1);
            assert(f.drop_last() =~= files.take(i as int));
            assert(exists@.take(i + 1).take(i as int) =~= exists@.take(i as int));
            assert(f[i as int] == changed_files@[i as int]@);
        }
        let name = string_of(&chars_of(changed_files[i].as_str()));
        if exists[i] {
            let ghost before = modified@;
            modified.push(name);
            proof {
                assert(strings_view(modified@) =~= strings_view(before).push(name@));
            }
        } else {
            let ghost before = deleted@;
            deleted.push(name);
            proof {
                assert(strings_view(deleted@) =~= strings_view(before).push(name@));
            }
        }
        i += 1;
    }
    proof {
        assert(files.take(changed_files@.len() as int) =~= files);
        assert(exists@.take(changed_files@.len() as int) =~= exists@);
    }
    (added, modified, deleted)
}

/// The result of a synchronization: the new head commit, `unknown` where there is none,
/// and no conflicts detected
pub fn git_sync_result(
    workspace_id: i64,
    previous_commit: Option<String>,
    head_commit: Option<String>,
    changes: (Vec<String>, Vec<String>, Vec<String>),
    sync_time: Duration,
) -> (r: GitSyncResult)
    ensures
        r.workspace_id == workspace_id,
        opt_text(r.previous_commit) == opt_text(previous_commit),
        r.new_commit@ == match head_commit {
            Some(h) => h@,
            None => "unknown"@,
        },
        r.files_added@ == changes.0@,
        r.files_modified@ == changes.1@,
        r.files_deleted@ == changes.2@,
        r.sync_time == sync_time,
        r.conflicts_detected@.len() == 0,
{
    let new_commit = match head_commit {
        Some(h) => h,
        None => string_of(&chars_of("unknown")),
    };
    let (files_added, files_modified, files_deleted) = changes;
    GitSyncResult {
        workspace_id,
        previous_commit,
        new_commit,
        files_modified,
        files_added,
        files_deleted,
        sync_time,
        conflicts_detected: Vec::new(),
    }
}

/// The information listed for the branches of a repository, each marked current where
/// it is the branch the repository is on, recorded at the same time
pub fn branch_infos_from_git(
    workspace_id: i64,
    current_branch: &Option<String>,
    git_branches: &Vec<(String, Option<String>)>,
    now_secs: u64,
) -> (r: Vec<BranchInfo>)
    ensures
        r@.len() == git_branches@.len(),
        forall|i: int|
            0 <= i < r@.len() ==> (#[trigger] r@[i])@ == crate::workspace::branch_cache::fresh_info(
                workspace_id,
                git_branches@[i].0@,
                opt_text(git_branches@[i].1),
                now_secs,
                opt_text(*current_branch) == Some(git_branches@[i].0@),
            ),
{
    let mut out: Vec<BranchInfo> = Vec::new();
    let mut i: usize = 0;
    while i < git_branches.len()
        invariant
            i <= git_branches@.len(),
            out@.len() == i,
            forall|j: int|
                0 <= j < i ==> (#[trigger] out@[j])@ == crate::workspace::branch_cache::fresh_info(
                    workspace_id,
                    git_branches@[j].0@,
                    opt_text(git_branches@[j].1),
                    now_secs,
                    opt_text(*current_branch) == Some(git_branches@[j].0@),
                ),
        decreases git_branches.len() - i,
    {
        let (name, commit) = &git_branches[i];
        let is_current = match current_branch {
            Some(c) => crate::text::chars_eq(&chars_of(c.as_str()), &chars_of(name.as_str())),
            None => false,
        };
        let commit_copy = match commit {
            Some(c) => Some(string_of(&chars_of(c.as_str()))),
            None => None,
        };
        let info = crate::workspace::branch_cache::new_branch_info(
            workspace_id,
            name.as_str(),
            commit_copy,
            now_secs,
            is_current,
        );
        out.push(info);
        i += 1;
    }
    out
}

} // verus!
