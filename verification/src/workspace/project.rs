//! Project Management
//!
//! Projects, their configuration and validation, and the detection of the languages a
//! project uses.
use vstd::prelude::*;
use crate::text::text_lower;
use std::collections::HashMap;
use std::sync::Arc;
use crate::text::{
    append, chars_eq_ignore_ascii_case, chars_of, decimal, decimal_exec, eq_ignore_ascii_case,
    eq_lit, rfind_char, rfind_char_exec, lemma_rfind_char_below, slice, string_of, text_lt,
    text_lt_exec, lemma_text_lt_irrefl, lemma_text_lt_trans,
};
use crate::external::to_lowercase;
use crate::symbol::strings_view;

use vstd::utf8::encode_utf8;

verus! {

broadcast use vstd::string::group_string_axioms;

/// Project information with comprehensive metadata
#[derive(Debug, Clone)]
pub struct Project {
    pub project_id: i64,
    pub name: String,
    pub root_path: String,
    pub vcs_type: Option<String>,
    pub created_at: String,
    pub metadata: Option<String>,
    pub description: Option<String>,
    pub last_updated: Option<String>,
    pub is_active: bool,
    pub workspace_count: u32,
    pub total_files: u64,
    pub supported_languages: Vec<String>,
}

/// Project configuration for creation and management
#[derive(Debug, Clone)]
pub struct ProjectConfig {
    /// Project name (must be unique within the system)
    pub name: String,
    /// Project root directory
    pub root_path: String,
    /// Optional description
    pub description: Option<String>,
    /// Version control system type ("git", "svn", etc.)
    pub vcs_type: Option<String>,
    /// Enable automatic language detection
    pub auto_detect_languages: bool,
    /// Explicitly supported languages
    pub explicit_languages: Vec<String>,
    /// Project-specific metadata
    pub metadata: HashMap<String, String>,
    /// Enable project-level caching
    pub enable_caching: bool,
    /// Maximum number of workspaces per project
    pub max_workspaces: u32,
}

impl Default for ProjectConfig {
    fn default() -> (r: Self)
        ensures
            r.name@.len() == 0,
            r.root_path@.len() == 0,
            r.description is None,
            r.vcs_type is None,
            r.auto_detect_languages,
            r.explicit_languages@.len() == 0,
            r.metadata@ == Map::<String, String>::empty(),
            r.enable_caching,
            r.max_workspaces == 100,
    {
        Self {
            name: String::new(),
            root_path: String::new(),
            description: None,
            vcs_type: None,
            auto_detect_languages: true,
            explicit_languages: Vec::new(),
            metadata: HashMap::new(),
            enable_caching: true,
            max_workspaces: 100,
        }
    }
}

/// Project management errors
///
/// Failures of the git service and of the database, which wrap those components' own
/// errors, are reported by those components; an I/O failure is carried by its message.
#[derive(Debug)]
pub enum ProjectError {
    ProjectNotFound { project_id: i64 },
    ProjectNameExists { name: String },
    InvalidProjectPath { path: String, reason: String },
    ValidationFailed { field: String, message: String },
    HasActiveWorkspaces { workspace_count: u32 },
    WorkspaceLimitExceeded { limit: u32 },
    IoError { message: String },
}

/// The model of a project error: its texts as character sequences.
pub enum ProjectErrorView {
    ProjectNotFound { project_id: i64 },
    ProjectNameExists { name: Seq<char> },
    InvalidProjectPath { path: Seq<char>, reason: Seq<char> },
    ValidationFailed { field: Seq<char>, message: Seq<char> },
    HasActiveWorkspaces { workspace_count: u32 },
    WorkspaceLimitExceeded { limit: u32 },
    IoError { message: Seq<char> },
}

impl View for ProjectError {
    type V = ProjectErrorView;

    open spec fn view(&self) -> ProjectErrorView {
        match self {
            ProjectError::ProjectNotFound { project_id } => ProjectErrorView::ProjectNotFound {
                project_id: *project_id,
            },
            ProjectError::ProjectNameExists { name } => ProjectErrorView::ProjectNameExists {
                name: name@,
            },
            ProjectError::InvalidProjectPath { path, reason } => ProjectErrorView::InvalidProjectPath {
                path: path@,
                reason: reason@,
            },
            ProjectError::ValidationFailed { field, message } => ProjectErrorView::ValidationFailed {
                field: field@,
                message: message@,
            },
            ProjectError::HasActiveWorkspaces { workspace_count } => ProjectErrorView::HasActiveWorkspaces {
                workspace_count: *workspace_count,
            },
            ProjectError::WorkspaceLimitExceeded { limit } => ProjectErrorView::WorkspaceLimitExceeded {
                limit: *limit,
            },
            ProjectError::IoError { message } => ProjectErrorView::IoError { message: message@ },
        }
    }
}

pub open spec fn project_unit_result(r: Result<(), ProjectError>) -> Result<(), ProjectErrorView> {
    match r {
        Ok(()) => Ok(()),
        Err(e) => Err(e@),
    }
}

/// Project statistics for monitoring and reporting
#[derive(Debug, Clone)]
pub struct ProjectStats {
    pub project_id: i64,
    pub total_workspaces: u32,
    pub active_workspaces: u32,
    pub total_files: u64,
    pub indexed_files: u64,
    pub total_symbols: u64,
    pub supported_languages: Vec<String>,
    pub disk_usage_bytes: u64,
    pub last_activity: Option<String>,
    pub creation_date: String,
}

/// Project manager for handling project lifecycle operations
pub struct ProjectManager<T> {
    database: Arc<T>,
    git_integration_enabled: bool,
}

impl<T> ProjectManager<T> {
    /// Whether the manager detects version control for new projects.
    pub closed spec fn git_enabled(self) -> bool {
        self.git_integration_enabled
    }

    /// Create a new project manager
    pub fn new(database: Arc<T>, git_integration_enabled: bool) -> (r: Self)
        ensures
            r.git_enabled() == git_integration_enabled,
    {
        Self { database, git_integration_enabled }
    }

    /// Check if project supports a specific language (ignoring ASCII case)
    pub fn project_supports_language(&self, project: &Project, language: &str) -> (r: bool)
        ensures
            r == (exists|i: int|
                0 <= i < project.supported_languages@.len() && eq_ignore_ascii_case(
                    #[trigger] project.supported_languages@[i]@,
                    language@,
                )),
    {
        let lang = chars_of(language);
        let mut i: usize = 0;
        while i < project.supported_languages.len()
            invariant
                i <= project.supported_languages@.len(),
                lang@ == language@,
                forall|j: int|
                    0 <= j < i ==> !eq_ignore_ascii_case(
                        #[trigger] project.supported_languages@[j]@,
                        language@,
                    ),
            decreases project.supported_languages.len() - i,
        {
            if chars_eq_ignore_ascii_case(&chars_of(project.supported_languages[i].as_str()), &lang) {
                return true;
            }
            i += 1;
        }
        false
    }
}

// ---------------------------------------------------------------------------
// Language detection
// ---------------------------------------------------------------------------

/// The languages that scanning a project can find, in alphabetical order.
pub open spec fn project_languages() -> Seq<Seq<char>> {
    seq![
        "c"@,
        "cpp"@,
        "csharp"@,
        "go"@,
        "java"@,
        "javascript"@,
        "kotlin"@,
        "php"@,
        "python"@,
        "ruby"@,
        "rust"@,
        "scala"@,
        "swift"@,
        "typescript"@,
    ]
}

/// The position in `project_languages` of the language of a file extension (any case).
pub open spec fn extension_language_index(ext: Seq<char>) -> Option<int> {
    let e = text_lower(ext);
    if e == "rs"@ {
        Some(10)
    } else if e == "py"@ {
        Some(8)
    } else if e == "js"@ {
        Some(5)
    } else if e == "ts"@ {
        Some(13)
    } else if e == "go"@ {
        Some(3)
    } else if e == "java"@ {
        Some(4)
    } else if e == "c"@ {
        Some(0)
    } else if e == "cpp"@ || e == "cc"@ || e == "cxx"@ {
        Some(1)
    } else if e == "h"@ || e == "hpp"@ {
        Some(0)  // Header files
    } else if e == "php"@ {
        Some(7)
    } else if e == "rb"@ {
        Some(9)
    } else if e == "swift"@ {
        Some(12)
    } else if e == "kt"@ {
        Some(6)
    } else if e == "cs"@ {
        Some(2)
    } else if e == "scala"@ {
        Some(11)
    } else {
        None
    }
}

/// An entry of a project directory, as listing the directory reports it.
#[derive(Debug, Clone)]
pub struct ScannedEntry {
    /// The entry's file name
    pub name: String,
    pub is_file: bool,
    pub is_dir: bool,
}

/// The extension of a file name: what follows its last `.`, unless that `.` begins the
/// name.
pub open spec fn file_extension(name: Seq<char>) -> Option<Seq<char>> {
    match rfind_char(name, '.') {
        Some(i) => if i > 0 {
            Some(name.skip(i + 1))
        } else {
            None
        },
        None => None,
    }
}

/// Hidden entries and common build and cache directories are not scanned.
pub open spec fn is_skipped_entry(name: Seq<char>) -> bool {
    (name.len() > 0 && name[0] == '.') || name == "node_modules"@ || name == "target"@ || name
        == "build"@ || name == "__pycache__"@
}

/// The language of a scanned file, by its extension.
pub open spec fn entry_language(e: ScannedEntry) -> Option<int> {
    match file_extension(e.name@) {
        Some(ext) => extension_language_index(ext),
        None => None,
    }
}

/// The positions of the languages found from entry `i` on, after `depth` directories:
/// scanning stops once three directories have been met.
pub open spec fn scan_languages(entries: Seq<ScannedEntry>, i: int, depth: nat) -> Set<int>
    decreases entries.len() - i,
{
    if i < 0 || i >= entries.len() || depth >= 3 {
        Set::empty()
    } else {
        let e = entries[i];
        if is_skipped_entry(e.name@) {
            scan_languages(entries, i + 1, depth)
        } else if e.is_file {
            match entry_language(e) {
                Some(k) => scan_languages(entries, i + 1, depth).insert(k),
                None => scan_languages(entries, i + 1, depth),
            }
        } else if e.is_dir {
            scan_languages(entries, i + 1, depth + 1)
        } else {
            scan_languages(entries, i + 1, depth)
        }
    }
}

/// The names of the languages at the given positions, from position `k` on, in order.
pub open spec fn language_names_from(found: Set<int>, k: int) -> Seq<Seq<char>>
    decreases 14 - k,
{
    if k < 0 || k >= 14 {
        Seq::empty()
    } else if found.contains(k) {
        seq![project_languages()[k]] + language_names_from(found, k + 1)
    } else {
        language_names_from(found, k + 1)
    }
}

/// The languages detected in a project directory: those of its files, sorted, each once.
pub open spec fn detected_languages(entries: Seq<ScannedEntry>) -> Seq<Seq<char>> {
    language_names_from(scan_languages(entries, 0, 0), 0)
}

/// The position in the table of languages of a file extension's language.
fn extension_language_index_exec(ext: &str) -> (r: Option<usize>)
    ensures
        match r {
            Some(k) => extension_language_index(ext@) == Some(k as int),
            None => extension_language_index(ext@) is None,
        },
{
    let e = chars_of(to_lowercase(ext).as_str());
    if eq_lit(&e, "rs") {
        Some(10)
    } else if eq_lit(&e, "py") {
        Some(8)
    } else if eq_lit(&e, "js") {
        Some(5)
    } else if eq_lit(&e, "ts") {
        Some(13)
    } else if eq_lit(&e, "go") {
        Some(3)
    } else if eq_lit(&e, "java") {
        Some(4)
    } else if eq_lit(&e, "c") {
        Some(0)
    } else if eq_lit(&e, "cpp") || eq_lit(&e, "cc") || eq_lit(&e, "cxx") {
        Some(1)
    } else if eq_lit(&e, "h") || eq_lit(&e, "hpp") {
        Some(0)
    } else if eq_lit(&e, "php") {
        Some(7)
    } else if eq_lit(&e, "rb") {
        Some(9)
    } else if eq_lit(&e, "swift") {
        Some(12)
    } else if eq_lit(&e, "kt") {
        Some(6)
    } else if eq_lit(&e, "cs") {
        Some(2)
    } else if eq_lit(&e, "scala") {
        Some(11)
    } else {
        None
    }
}

fn language_name(k: usize) -> (r: String)
    requires
        k < 14,
    ensures
        r@ == project_languages()[k as int],
{
    let names = [
        "c",
        "cpp",
        "csharp",
        "go",
        "java",
        "javascript",
        "kotlin",
        "php",
        "python",
        "ruby",
        "rust",
        "scala",
        "swift",
        "typescript",
    ];
    assert(names@.map_values(|s: &str| s@) =~= project_languages());
    let r = names[k].to_string();
    assert(names@.map_values(|s: &str| s@)[k as int] == names@[k as int]@);
    r
}

/// The language of a file by its extension, as project scanning sees it.
pub fn project_language_for_extension(ext: &str) -> (r: Option<String>)
    ensures
        match r {
            Some(l) => extension_language_index(ext@) matches Some(k) && l@
                == project_languages()[k],
            None => extension_language_index(ext@) is None,
        },
{
    match extension_language_index_exec(ext) {
        Some(k) => Some(language_name(k)),
        None => None,
    }
}

fn file_extension_exec(name: &Vec<char>) -> (r: Option<Vec<char>>)
    ensures
        match r {
            Some(e) => file_extension(name@) == Some(e@),
            None => file_extension(name@) is None,
        },
{
    match rfind_char_exec(name, '.') {
        Some(i) => {
            proof {
                lemma_rfind_char_below(name@, '.', name@.len() as int);
            }
            assert(i < name.len());
            if i > 0 {
                Some(slice(name, i + 1, name.len()))
            } else {
                None
            }
        },
        None => None,
    }
}

fn is_skipped_entry_exec(name: &Vec<char>) -> (r: bool)
    ensures
        r == is_skipped_entry(name@),
{
    (name.len() > 0 && name[0] == '.') || eq_lit(name, "node_modules") || eq_lit(name, "target")
        || eq_lit(name, "build") || eq_lit(name, "__pycache__")
}

/// Detect the programming languages of a project from the entries of its directory, in
/// the order the listing gives them: the languages of the files by their extensions,
/// skipping hidden entries and build and cache directories, and stopping once three
/// directories have been met. The result is sorted, each language once.
pub fn detect_project_languages(entries: &Vec<ScannedEntry>) -> (r: Vec<String>)
    ensures
        strings_view(r@) == detected_languages(entries@),
{
    let ghost all = scan_languages(entries@, 0, 0);
    let mut found: Vec<bool> = Vec::new();
    let mut k: usize = 0;
    while k < 14
        invariant
            k <= 14,
            found@.len() == k,
            forall|j: int| 0 <= j < k ==> !found@[j],
        decreases 14 - k,
    {
        found.push(false);
        k += 1;
    }
    let mut scan_depth: usize = 0;
    let max_scan_depth: usize = 3;
    let mut i: usize = 0;
    let ghost mut found_set: Set<int> = Set::empty();
    assert(found_set.union(scan_languages(entries@, 0, 0)) =~= all);
    while i < entries.len()
        invariant
            i <= entries@.len(),
            found@.len() == 14,
            scan_depth <= 3,
            max_scan_depth == 3,
            all == scan_languages(entries@, 0, 0),
            forall|j: int| 0 <= j < 14 ==> #[trigger] found@[j] == found_set.contains(j),
            found_set.union(scan_languages(entries@, i as int, scan_depth as nat)) == all,
        ensures
            i >= entries@.len() || scan_depth >= 3,
            found@.len() == 14,
            forall|j: int| 0 <= j < 14 ==> #[trigger] found@[j] == found_set.contains(j),
            found_set.union(scan_languages(entries@, i as int, scan_depth as nat)) == all,
        decreases entries.len() - i,
    {
        if scan_depth >= max_scan_depth {
            break;
        }
        let entry = &entries[i];
        let ghost here = scan_languages(entries@, i as int, scan_depth as nat);
        let name = chars_of(entry.name.as_str());
        if is_skipped_entry_exec(&name) {
            assert(here == scan_languages(entries@, i + 1, scan_depth as nat));
        } else if entry.is_file {
            let mut lang: Option<usize> = None;
            match file_extension_exec(&name) {
                Some(ext) => {
                    lang = extension_language_index_exec(string_of(&ext).as_str());
                },
                None => {},
            }
            assert(match lang {
                Some(k) => entry_language(entries@[i as int]) == Some(k as int),
                None => entry_language(entries@[i as int]) is None,
            });
            match lang {
                Some(k) => {
                    found.set(k, true);
                    let ghost rest = scan_languages(entries@, i + 1, scan_depth as nat);
                    assert(here == rest.insert(k as int));
                    assert(found_set.insert(k as int).union(rest) =~= found_set.union(here));
                    proof {
                        found_set = found_set.insert(k as int);
                    }
                },
                None => {
                    assert(here == scan_languages(entries@, i + 1, scan_depth as nat));
                },
            }
        } else if entry.is_dir {
            assert(here == scan_languages(entries@, i + 1, (scan_depth + 1) as nat));
            scan_depth += 1;
        } else {
            assert(here == scan_languages(entries@, i + 1, scan_depth as nat));
        }
        i += 1;
    }
    assert(scan_languages(entries@, i as int, scan_depth as nat) =~= Set::<int>::empty());
    assert(found_set =~= all);
    let mut result: Vec<String> = Vec::new();
    let mut k: usize = 0;
    while k < 14
        invariant
            k <= 14,
            found@.len() == 14,
            forall|j: int| 0 <= j < 14 ==> #[trigger] found@[j] == all.contains(j),
            strings_view(result@) + language_names_from(all, k as int) == language_names_from(
                all,
                0,
            ),
        decreases 14 - k,
    {
        if found[k] {
            let ghost before = strings_view(result@);
            let name = language_name(k);
            result.push(name);
            assert(strings_view(result@) =~= before.push(name@));
            assert(before + language_names_from(all, k as int) =~= strings_view(result@)
                + language_names_from(all, k + 1));
        }
        k += 1;
    }
    assert(strings_view(result@) + language_names_from(all, 14) =~= strings_view(result@));
    result
}

// ---------------------------------------------------------------------------
// Validation
// ---------------------------------------------------------------------------

pub open spec fn invalid_path(path: Seq<char>, reason: Seq<char>) -> ProjectErrorView {
    ProjectErrorView::InvalidProjectPath { path, reason }
}

pub open spec fn validation_failed(field: Seq<char>, message: Seq<char>) -> ProjectErrorView {
    ProjectErrorView::ValidationFailed { field, message }
}

/// What checking a project's root path gives, from what the file system says of it.
pub open spec fn project_path_check(
    path: Seq<char>,
    exists: bool,
    is_dir: bool,
    access_error: Option<Seq<char>>,
) -> Result<(), ProjectErrorView> {
    if !exists {
        Err(invalid_path(path, "Path does not exist"@))
    } else if !is_dir {
        Err(invalid_path(path, "Path is not a directory"@))
    } else {
        match access_error {
            Some(e) => Err(invalid_path(path, "Cannot access path: "@ + e)),
            None => Ok(()),
        }
    }
}

pub open spec fn opt_text(o: Option<String>) -> Option<Seq<char>> {
    match o {
        Some(s) => Some(s@),
        None => None,
    }
}

/// Validate a project root path from what the file system says of it: whether it
/// exists, whether it is a directory, and the error met reading its metadata, if any.
pub fn validate_project_path(
    path: &str,
    exists: bool,
    is_dir: bool,
    access_error: Option<String>,
) -> (r: Result<(), ProjectError>)
    ensures
        project_unit_result(r) == project_path_check(path@, exists, is_dir, opt_text(access_error)),
{
    if !exists {
        return Err(
            ProjectError::InvalidProjectPath {
                path: path.to_string(),
                reason: "Path does not exist".to_string(),
            },
        );
    }
    if !is_dir {
        return Err(
            ProjectError::InvalidProjectPath {
                path: path.to_string(),
                reason: "Path is not a directory".to_string(),
            },
        );
    }
    match access_error {
        Some(e) => {
            let mut reason = chars_of("Cannot access path: ");
            append(&mut reason, &chars_of(e.as_str()));
            Err(ProjectError::InvalidProjectPath { path: path.to_string(), reason: string_of(&reason) })
        },
        None => Ok(()),
    }
}

/// What validating a project configuration gives, where checking its root path gave
/// `path_check`.
pub open spec fn project_config_check(
    config: ProjectConfig,
    path_check: Result<(), ProjectErrorView>,
) -> Result<(), ProjectErrorView> {
    if config.name@.len() == 0 {
        Err(validation_failed("name"@, "Project name cannot be empty"@))
    } else if encode_utf8(config.name@).len() > 100 {
        Err(validation_failed("name"@, "Project name cannot exceed 100 characters"@))
    } else if path_check is Err {
        path_check
    } else if config.max_workspaces > 1000 {
        Err(validation_failed("max_workspaces"@, "Maximum workspaces cannot exceed 1000"@))
    } else {
        Ok(())
    }
}

/// Validate a project configuration: a non-empty name of at most 100 bytes, a valid root
/// path (whose check gave `path_check`), and at most 1000 workspaces.
pub fn validate_project_config(config: &ProjectConfig, path_check: Result<(), ProjectError>) -> (r:
    Result<(), ProjectError>)
    ensures
        project_unit_result(r) == project_config_check(*config, project_unit_result(path_check)),
{
    if chars_of(config.name.as_str()).len() == 0 {
        return Err(
            ProjectError::ValidationFailed {
                field: "name".to_string(),
                message: "Project name cannot be empty".to_string(),
            },
        );
    }
    if config.name.as_str().as_bytes().len() > 100 {
        return Err(
            ProjectError::ValidationFailed {
                field: "name".to_string(),
                message: "Project name cannot exceed 100 characters".to_string(),
            },
        );
    }
    match path_check {
        Err(e) => return Err(e),
        Ok(()) => {},
    }
    if config.max_workspaces > 1000 {
        return Err(
            ProjectError::ValidationFailed {
                field: "max_workspaces".to_string(),
                message: "Maximum workspaces cannot exceed 1000".to_string(),
            },
        );
    }
    Ok(())
}

/// A project can be deleted when forced, or when it has no active workspaces.
pub fn check_project_deletable(project: &Project, force: bool) -> (r: Result<(), ProjectError>)
    ensures
        project_unit_result(r) == if !force && project.workspace_count > 0 {
            Err(ProjectErrorView::HasActiveWorkspaces { workspace_count: project.workspace_count })
        } else {
            Ok::<(), ProjectErrorView>(())
        },
{
    if !force && project.workspace_count > 0 {
        return Err(ProjectError::HasActiveWorkspaces { workspace_count: project.workspace_count });
    }
    Ok(())
}

/// The statistics of a project, given its disk usage: its workspaces all count as
/// active, and indexed files and symbols are not counted yet.
pub fn project_stats(project: &Project, disk_usage_bytes: u64) -> (r: ProjectStats)
    ensures
        r.project_id == project.project_id,
        r.total_workspaces == project.workspace_count,
        r.active_workspaces == project.workspace_count,
        r.total_files == project.total_files,
        r.indexed_files == 0,
        r.total_symbols == 0,
        strings_view(r.supported_languages@) == strings_view(project.supported_languages@),
        r.disk_usage_bytes == disk_usage_bytes,
        opt_text(r.last_activity) == opt_text(project.last_updated),
        r.creation_date@ == project.created_at@,
{
    ProjectStats {
        project_id: project.project_id,
        total_workspaces: project.workspace_count,
        active_workspaces: project.workspace_count,
        total_files: project.total_files,
        indexed_files: 0,
        total_symbols: 0,
        supported_languages: copy_strings(&project.supported_languages),
        disk_usage_bytes,
        last_activity: match &project.last_updated {
            Some(t) => Some(string_of(&chars_of(t.as_str()))),
            None => None,
        },
        creation_date: string_of(&chars_of(project.created_at.as_str())),
    }
}

fn copy_strings(v: &Vec<String>) -> (r: Vec<String>)
    ensures
        strings_view(r@) == strings_view(v@),
{
    let mut out: Vec<String> = Vec::new();
    let mut i: usize = 0;
    while i < v.len()
        invariant
            i <= v@.len(),
            strings_view(out@) == strings_view(v@).take(i as int),
        decreases v.len() - i,
    {
        let s = string_of(&chars_of(v[i].as_str()));
        let ghost before = out@;
        out.push(s);
        assert(strings_view(out@) =~= strings_view(before).push(s@));
        assert(strings_view(v@).take(i + 1) =~= strings_view(v@).take(i as int).push(v@[i as int]@));
        i += 1;
    }
    assert(strings_view(v@).take(v@.len() as int) =~= strings_view(v@));
    out
}

// ---------------------------------------------------------------------------
// Listing projects
// ---------------------------------------------------------------------------

/// Projects in order of creation, most recent first: no project is created before a
/// later one in the sequence.
pub open spec fn newest_first(ps: Seq<Project>) -> bool {
    forall|i: int, j: int|
        0 <= i < j < ps.len() ==> !text_lt((#[trigger] ps[i]).created_at@, (#[trigger] ps[j]).created_at@)
}

/// The projects a listing keeps: all, or the active ones only.
pub open spec fn listed(ps: Seq<Project>, active_only: bool) -> Seq<Project> {
    ps.filter(|p: Project| !active_only || p.is_active)
}

/// Whether a project was created at a given time.
pub open spec fn at_time(t: Seq<char>) -> spec_fn(Project) -> bool {
    |q: Project| q.created_at@ == t
}

/// The projects created at a given time, in their order.
pub open spec fn created_at(ps: Seq<Project>, t: Seq<char>) -> Seq<Project> {
    ps.filter(at_time(t))
}

proof fn lemma_created_at_none(s: Seq<Project>, t: Seq<char>)
    requires
        forall|i: int| 0 <= i < s.len() ==> (#[trigger] s[i]).created_at@ != t,
    ensures
        created_at(s, t) == Seq::<Project>::empty(),
    decreases s.len(),
{
    if s.len() == 0 {
        assert(created_at(s, t) =~= Seq::<Project>::empty());
    } else {
        let d = s.drop_last();
        assert(forall|i: int| 0 <= i < d.len() ==> d[i] == s[i]);
        lemma_created_at_none(d, t);
        assert(s =~= d.push(s.last()));
        d.lemma_filter_push(s.last(), at_time(t));
    }
}

/// Inserting a project before all projects created no later than it, and after all
/// those created later, leaves each creation time's projects in order, with the new one
/// last among its own time's.
proof fn lemma_created_at_insert(s: Seq<Project>, j: int, p: Project, t: Seq<char>)
    requires
        0 <= j <= s.len(),
        forall|i: int| j <= i < s.len() ==> (#[trigger] s[i]).created_at@ != p.created_at@,
    ensures
        created_at(s.insert(j, p), t) == if p.created_at@ == t {
            created_at(s, t).push(p)
        } else {
            created_at(s, t)
        },
{
    let pred = at_time(t);
    let a = s.subrange(0, j);
    let b = s.subrange(j, s.len() as int);
    assert(s =~= a + b);
    assert(s.insert(j, p) =~= a.push(p) + b);
    Seq::filter_distributes_over_add(a.push(p), b, pred);
    Seq::filter_distributes_over_add(a, b, pred);
    a.lemma_filter_push(p, pred);
    if p.created_at@ == t {
        lemma_created_at_none(b, t);
        assert(created_at(b, t) == Seq::<Project>::empty());
        assert(created_at(s, t) =~= created_at(a, t));
        assert(created_at(s.insert(j, p), t) =~= created_at(a, t).push(p));
    } else {
        assert(created_at(s.insert(j, p), t) =~= created_at(a, t) + created_at(b, t));
    }
}

/// Select the projects to list (all, or the active ones only) and order them by
/// creation date, most recent first; projects created at the same time keep their order
pub fn select_projects(projects: Vec<Project>, active_only: bool) -> (r: Vec<Project>)
    ensures
        r@.to_multiset() == listed(projects@, active_only).to_multiset(),
        newest_first(r@),
        forall|t: Seq<char>|
            #[trigger] created_at(r@, t) == created_at(listed(projects@, active_only), t),
{
    broadcast use vstd::seq_lib::group_to_multiset_ensures;

    let ghost orig = projects@;
    let ghost keep = |p: Project| !active_only || p.is_active;
    let mut rest = projects;
    let n = rest.len();
    assert(orig.len() == n);
    let mut out: Vec<Project> = Vec::new();
    let mut consumed: usize = 0;
    while rest.len() > 0
        invariant
            consumed <= orig.len(),
            consumed + rest@.len() == orig.len(),
            orig.len() <= usize::MAX,
            rest@ == orig.skip(consumed as int),
            keep == (|p: Project| !active_only || p.is_active),
            out@.to_multiset() == orig.take(consumed as int).filter(keep).to_multiset(),
            newest_first(out@),
            forall|t: Seq<char>|
                #[trigger] created_at(out@, t) == created_at(
                    orig.take(consumed as int).filter(keep),
                    t,
                ),
        decreases rest.len(),
    {
        let p = rest.remove(0);
        proof {
            assert(p == orig[consumed as int]);
            assert(orig.take(consumed + 1) =~= orig.take(consumed as int).push(p));
            orig.take(consumed as int).lemma_filter_push(p, keep);
            assert(rest@ =~= orig.skip(consumed + 1));
        }
        let ghost gp = p;
        if !active_only || p.is_active {
            let key = chars_of(p.created_at.as_str());
            let mut j: usize = 0;
            while j < out.len()
                invariant
                    j <= out@.len(),
                    key@ == gp.created_at@,
                    newest_first(out@),
                    forall|k: int| 0 <= k < j ==> !text_lt((#[trigger] out@[k]).created_at@, key@),
                ensures
                    j <= out@.len(),
                    forall|k: int| 0 <= k < j ==> !text_lt((#[trigger] out@[k]).created_at@, key@),
                    j < out@.len() ==> text_lt(out@[j as int].created_at@, key@),
                decreases out.len() - j,
            {
                if text_lt_exec(&chars_of(out[j].created_at.as_str()), &key) {
                    break;
                }
                j += 1;
            }
            let ghost before = out@;
            out.insert(j, p);
            proof {
                assert(out@ == before.insert(j as int, gp));
                vstd::seq_lib::to_multiset_insert(before, j as int, gp);
                let f = orig.take(consumed as int).filter(keep);
                assert(orig.take(consumed + 1).filter(keep) == f.push(gp));
                vstd::seq_lib::to_multiset_build(f, gp);
                assert forall|i: int| j <= i < before.len() implies (#[trigger] before[i]).created_at@
                    != gp.created_at@ by {
                    lemma_text_lt_irrefl(gp.created_at@);
                    if i > j && before[i].created_at@ == gp.created_at@ {
                        assert(!text_lt(before[j as int].created_at@, before[i].created_at@));
                    }
                }
                assert forall|t: Seq<char>| #[trigger] created_at(out@, t) == created_at(
                    orig.take(consumed + 1).filter(keep),
                    t,
                ) by {
                    lemma_created_at_insert(before, j as int, gp, t);
                    f.lemma_filter_push(gp, at_time(t));
                }
                assert(out@[j as int] == gp);
                assert(forall|k: int| 0 <= k < j ==> out@[k] == before[k]);
                assert(forall|k: int| j < k < out@.len() ==> out@[k] == before[k - 1]);
                assert forall|a: int, b: int| 0 <= a < b < out@.len() implies !text_lt(
                    (#[trigger] out@[a]).created_at@,
                    (#[trigger] out@[b]).created_at@,
                ) by {
                    if b < j {
                        assert(out@[a] == before[a] && out@[b] == before[b]);
                    } else if b == j {
                        assert(out@[a] == before[a]);
                    } else if a == j {
                        let y = before[b - 1];
                        assert(out@[b] == y);
                        assert(text_lt(before[j as int].created_at@, gp.created_at@));
                        if text_lt(gp.created_at@, y.created_at@) {
                            lemma_text_lt_trans(
                                before[j as int].created_at@,
                                gp.created_at@,
                                y.created_at@,
                            );
                            if b - 1 > j {
                                assert(!text_lt(before[j as int].created_at@, y.created_at@));
                            } else {
                                lemma_text_lt_irrefl(y.created_at@);
                            }
                        }
                    } else if a < j {
                        assert(out@[a] == before[a] && out@[b] == before[b - 1]);
                    } else {
                        assert(out@[a] == before[a - 1] && out@[b] == before[b - 1]);
                    }
                }
            }
        } else {
            proof {
                assert(orig.take(consumed + 1).filter(keep) == orig.take(consumed as int).filter(keep));
            }
        }
        consumed += 1;
    }
    proof {
        assert(orig.take(consumed as int) =~= orig);
    }
    out
}

// ---------------------------------------------------------------------------
// Creating projects
// ---------------------------------------------------------------------------

/// Whether the version control system of a new project is to be detected: none was
/// configured and git integration is enabled
pub fn detects_vcs(config: &ProjectConfig, git_integration_enabled: bool) -> (r: bool)
    ensures
        r == (config.vcs_type is None && git_integration_enabled),
{
    config.vcs_type.is_none() && git_integration_enabled
}

/// The metadata entries a new project adds to its configured metadata, in order:
/// who created it and the format version, its version control system where known, and
/// each of its languages as detected.
pub open spec fn metadata_additions(vcs_type: Option<Seq<char>>, languages: Seq<Seq<char>>) -> Seq<
    (Seq<char>, Seq<char>),
> {
    let base = seq![("created_by"@, "workspace_manager"@), ("version"@, "2.3"@)];
    let with_vcs = match vcs_type {
        Some(v) => base.push(("vcs_type"@, v)),
        None => base,
    };
    with_vcs + languages.map_values(|l: Seq<char>| ("lang_"@ + l, "detected"@))
}

pub open spec fn pairs_view(v: Seq<(String, String)>) -> Seq<(Seq<char>, Seq<char>)> {
    v.map_values(|p: (String, String)| (p.0@, p.1@))
}

/// The metadata entries a new project adds to its configured ones
pub fn project_metadata_additions(vcs_type: &Option<String>, languages: &Vec<String>) -> (r: Vec<
    (String, String),
>)
    ensures
        pairs_view(r@) == metadata_additions(opt_text(*vcs_type), strings_view(languages@)),
{
    let mut out: Vec<(String, String)> = Vec::new();
    out.push((string_of(&chars_of("created_by")), string_of(&chars_of("workspace_manager"))));
    out.push((string_of(&chars_of("version")), string_of(&chars_of("2.3"))));
    match vcs_type {
        Some(v) => out.push((string_of(&chars_of("vcs_type")), string_of(&chars_of(v.as_str())))),
        None => {},
    }
    let ghost head = pairs_view(out@);
    let ghost langs = strings_view(languages@);
    proof {
        assert(head =~= match opt_text(*vcs_type) {
            Some(v) => seq![("created_by"@, "workspace_manager"@), ("version"@, "2.3"@)].push(
                ("vcs_type"@, v),
            ),
            None => seq![("created_by"@, "workspace_manager"@), ("version"@, "2.3"@)],
        });
    }
    let mut i: usize = 0;
    while i < languages.len()
        invariant
            i <= languages@.len(),
            langs == strings_view(languages@),
            pairs_view(out@) == head + langs.take(i as int).map_values(
                |l: Seq<char>| ("lang_"@ + l, "detected"@),
            ),
        decreases languages.len() - i,
    {
        let mut key = chars_of("lang_");
        append(&mut key, &chars_of(languages[i].as_str()));
        let ghost before = pairs_view(out@);
        out.push((string_of(&key), string_of(&chars_of("detected"))));
        proof {
            assert(pairs_view(out@) =~= before.push((key@, "detected"@)));
            assert(langs.take(i + 1) =~= langs.take(i as int).push(langs[i as int]));
            assert(langs.take(i + 1).map_values(|l: Seq<char>| ("lang_"@ + l, "detected"@))
                =~= langs.take(i as int).map_values(|l: Seq<char>| ("lang_"@ + l, "detected"@)).push(
                ("lang_"@ + langs[i as int], "detected"@),
            ));
        }
        i += 1;
    }
    proof {
        assert(langs.take(languages@.len() as int) =~= langs);
    }
    out
}

/// The record of a new project, created now (seconds since the Unix epoch): active,
/// with no workspaces or files yet, and its metadata as serialized
pub fn new_project(
    project_id: i64,
    config: &ProjectConfig,
    vcs_type: Option<String>,
    supported_languages: Vec<String>,
    now_secs: u64,
    metadata_json: String,
) -> (r: Project)
    ensures
        r.project_id == project_id,
        r.name@ == config.name@,
        r.root_path@ == config.root_path@,
        opt_text(r.vcs_type) == opt_text(vcs_type),
        r.created_at@ == decimal(now_secs as nat),
        opt_text(r.metadata) == Some(metadata_json@),
        opt_text(r.description) == opt_text(config.description),
        opt_text(r.last_updated) == Some(decimal(now_secs as nat)),
        r.is_active,
        r.workspace_count == 0,
        r.total_files == 0,
        r.supported_languages@ == supported_languages@,
{
    let now = decimal_exec(now_secs);
    Project {
        project_id,
        name: string_of(&chars_of(config.name.as_str())),
        root_path: string_of(&chars_of(config.root_path.as_str())),
        vcs_type,
        created_at: string_of(&now),
        metadata: Some(metadata_json),
        description: match &config.description {
            Some(d) => Some(string_of(&chars_of(d.as_str()))),
            None => None,
        },
        last_updated: Some(string_of(&now)),
        is_active: true,
        workspace_count: 0,
        total_files: 0,
        supported_languages,
    }
}

} // verus!
