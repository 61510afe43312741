//! Workspace Configuration Management
//!
//! Configuration structures and validation for workspace management operations.
use vstd::prelude::*;
use core::time::Duration;
use crate::text::{
    append, chars_eq, chars_eq_ignore_ascii_case, chars_of, contains, contains_exec, decimal,
    decimal_exec, ends_with, eq_ignore_ascii_case, has_char, has_char_exec, has_prefix,
    has_suffix, split, split_exec, starts_with, string_of, };
use crate::symbol::strings_view;
use crate::text::eq_lit;
use crate::workspace::project::opt_text;
use crate::symbol::language_support::pairs_view;

verus! {

broadcast use vstd::string::group_string_axioms;

/// Comprehensive workspace configuration
#[derive(Debug, Clone)]
pub struct WorkspaceConfig {
    /// Maximum file size to process (in MB)
    pub max_file_size_mb: u64,
    /// File patterns to ignore during indexing
    pub ignore_patterns: Vec<String>,
    /// Programming languages to support
    pub supported_languages: Vec<String>,
    /// Enable git integration
    pub git_integration: bool,
    /// Enable incremental indexing
    pub incremental_indexing: bool,
    /// Cache configuration
    pub cache_settings: CacheConfig,
    /// Performance settings
    pub performance: PerformanceConfig,
    /// Branch management settings
    pub branch_management: BranchConfig,
    /// File watching configuration
    pub file_watching: FileWatchingConfig,
    /// Validation rules
    pub validation: ValidationConfig,
}

/// Cache configuration for workspace operations
#[derive(Debug, Clone)]
pub struct CacheConfig {
    /// Enable caching
    pub enabled: bool,
    /// Maximum cache size per workspace (in MB)
    pub max_size_mb: u64,
    /// Cache entry time-to-live (in minutes)
    pub ttl_minutes: u64,
    /// Enable cache compression
    pub compression: bool,
    /// Cache eviction strategy
    pub eviction_strategy: EvictionStrategy,
    /// Enable persistent cache storage
    pub persistent_storage: bool,
    /// Cache directory override (None uses default)
    pub cache_directory: Option<String>,
}

/// Performance configuration for workspace operations
#[derive(Debug, Clone)]
pub struct PerformanceConfig {
    /// Maximum concurrent operations
    pub max_concurrent_operations: usize,
    /// Batch size for file processing
    pub batch_size: usize,
    /// Operation timeout (in seconds)
    pub operation_timeout_seconds: u64,
    /// Enable parallel processing
    pub parallel_processing: bool,
    /// Memory usage limits
    pub memory_limits: MemoryLimits,
    /// Database connection settings
    pub database_settings: DatabaseSettings,
}

/// Branch management configuration
#[derive(Debug, Clone)]
pub struct BranchConfig {
    /// Enable automatic branch detection
    pub auto_detect_branch: bool,
    /// Default branch name
    pub default_branch: String,
    /// Enable branch-specific caching
    pub branch_specific_cache: bool,
    /// Automatic git synchronization interval (in minutes, 0 to disable)
    pub auto_sync_interval_minutes: u64,
    /// Maximum number of branches to track per workspace
    pub max_tracked_branches: usize,
    /// Enable branch switching optimizations
    pub optimize_branch_switching: bool,
}

/// File watching configuration
#[derive(Debug, Clone)]
pub struct FileWatchingConfig {
    /// Enable file system watching
    pub enabled: bool,
    /// Debounce delay for file changes (in milliseconds)
    pub debounce_delay_ms: u64,
    /// Maximum events per second to process
    pub max_events_per_second: u64,
    /// Enable recursive directory watching
    pub recursive_watching: bool,
    /// File extensions to watch (empty means all)
    pub watched_extensions: Vec<String>,
}

/// Validation configuration
#[derive(Debug, Clone, Copy)]
pub struct ValidationConfig {
    /// Validate file paths before processing
    pub validate_file_paths: bool,
    /// Check file permissions before accessing
    pub check_file_permissions: bool,
    /// Validate git repository state
    pub validate_git_state: bool,
    /// Maximum directory depth for scanning
    pub max_directory_depth: usize,
    /// Enable content validation
    pub content_validation: bool,
}

/// Memory usage limits
#[derive(Debug, Clone, Copy)]
pub struct MemoryLimits {
    /// Maximum memory per workspace (in MB)
    pub max_workspace_memory_mb: u64,
    /// Maximum cache memory (in MB)
    pub max_cache_memory_mb: u64,
    /// Enable memory monitoring
    pub enable_monitoring: bool,
    /// Memory cleanup threshold (percentage)
    pub cleanup_threshold_percent: u8,
}

/// Database connection settings
#[derive(Debug, Clone, Copy)]
pub struct DatabaseSettings {
    /// Connection pool size
    pub connection_pool_size: usize,
    /// Connection timeout (in seconds)
    pub connection_timeout_seconds: u64,
    /// Query timeout (in seconds)
    pub query_timeout_seconds: u64,
    /// Enable connection retry
    pub enable_retry: bool,
    /// Maximum retry attempts
    pub max_retry_attempts: u32,
}

/// Cache eviction strategies
#[derive(Debug, Clone, Copy, PartialEq, Eq, Structural)]
pub enum EvictionStrategy {
    /// Least Recently Used
    LRU,
    /// Least Frequently Used
    LFU,
    /// Time-based eviction
    TTL,
    /// Size-based eviction
    Size,
}

/// Workspace configuration validation errors
#[derive(Debug)]
pub enum WorkspaceValidationError {
    FileSizeTooLarge { limit_mb: u64 },
    InvalidCacheSize { size_mb: u64 },
    InvalidConcurrency { count: usize },
    InvalidTimeout { seconds: u64 },
    InvalidDirectoryPath { path: String },
    ConflictingConfig { message: String },
    MissingRequiredField { field: String },
}

/// The model of a validation error: its texts as character sequences.
pub enum ValidationErrorView {
    FileSizeTooLarge { limit_mb: u64 },
    InvalidCacheSize { size_mb: u64 },
    InvalidConcurrency { count: usize },
    InvalidTimeout { seconds: u64 },
    InvalidDirectoryPath { path: Seq<char> },
    ConflictingConfig { message: Seq<char> },
    MissingRequiredField { field: Seq<char> },
}

impl View for WorkspaceValidationError {
    type V = ValidationErrorView;

    open spec fn view(&self) -> ValidationErrorView {
        match self {
            WorkspaceValidationError::FileSizeTooLarge { limit_mb } => ValidationErrorView::FileSizeTooLarge {
                limit_mb: *limit_mb,
            },
            WorkspaceValidationError::InvalidCacheSize { size_mb } => ValidationErrorView::InvalidCacheSize {
                size_mb: *size_mb,
            },
            WorkspaceValidationError::InvalidConcurrency { count } => ValidationErrorView::InvalidConcurrency {
                count: *count,
            },
            WorkspaceValidationError::InvalidTimeout { seconds } => ValidationErrorView::InvalidTimeout {
                seconds: *seconds,
            },
            WorkspaceValidationError::InvalidDirectoryPath { path } => ValidationErrorView::InvalidDirectoryPath {
                path: path@,
            },
            WorkspaceValidationError::ConflictingConfig { message } => ValidationErrorView::ConflictingConfig {
                message: message@,
            },
            WorkspaceValidationError::MissingRequiredField { field } => ValidationErrorView::MissingRequiredField {
                field: field@,
            },
        }
    }
}

/// The message of a validation error, as its `Display` prints it.
pub open spec fn validation_error_message(e: ValidationErrorView) -> Seq<char> {
    match e {
        ValidationErrorView::FileSizeTooLarge { limit_mb } => "Invalid file size limit: "@
            + decimal(limit_mb as nat) + "MB exceeds maximum of 1000MB"@,
        ValidationErrorView::InvalidCacheSize { size_mb } => "Invalid cache size: "@ + decimal(
            size_mb as nat,
        ) + "MB must be between 1MB and 10000MB"@,
        ValidationErrorView::InvalidConcurrency { count } => "Invalid concurrent operations: "@
            + decimal(count as nat) + " must be between 1 and 100"@,
        ValidationErrorView::InvalidTimeout { seconds } => "Invalid timeout: "@ + decimal(
            seconds as nat,
        ) + " seconds must be between 1 and 3600"@,
        ValidationErrorView::InvalidDirectoryPath { path } => "Invalid directory path: "@ + path,
        ValidationErrorView::ConflictingConfig { message } => "Conflicting configuration: "@
            + message,
        ValidationErrorView::MissingRequiredField { field } => "Missing required configuration: "@
            + field,
    }
}

impl WorkspaceValidationError {
    /// The error's message.
    pub fn message(&self) -> (r: String)
        ensures
            r@ == validation_error_message(self@),
    {
        let mut out: Vec<char>;
        match self {
            WorkspaceValidationError::FileSizeTooLarge { limit_mb } => {
                out = chars_of("Invalid file size limit: ");
                append(&mut out, &decimal_exec(*limit_mb));
                append(&mut out, &chars_of("MB exceeds maximum of 1000MB"));
            },
            WorkspaceValidationError::InvalidCacheSize { size_mb } => {
                out = chars_of("Invalid cache size: ");
                append(&mut out, &decimal_exec(*size_mb));
                append(&mut out, &chars_of("MB must be between 1MB and 10000MB"));
            },
            WorkspaceValidationError::InvalidConcurrency { count } => {
                out = chars_of("Invalid concurrent operations: ");
                append(&mut out, &decimal_exec(*count as u64));
                append(&mut out, &chars_of(" must be between 1 and 100"));
            },
            WorkspaceValidationError::InvalidTimeout { seconds } => {
                out = chars_of("Invalid timeout: ");
                append(&mut out, &decimal_exec(*seconds));
                append(&mut out, &chars_of(" seconds must be between 1 and 3600"));
            },
            WorkspaceValidationError::InvalidDirectoryPath { path } => {
                out = chars_of("Invalid directory path: ");
                append(&mut out, &chars_of(path.as_str()));
            },
            WorkspaceValidationError::ConflictingConfig { message } => {
                out = chars_of("Conflicting configuration: ");
                append(&mut out, &chars_of(message.as_str()));
            },
            WorkspaceValidationError::MissingRequiredField { field } => {
                out = chars_of("Missing required configuration: ");
                append(&mut out, &chars_of(field.as_str()));
            },
        }
        string_of(&out)
    }
}

// ---------------------------------------------------------------------------
// Defaults
// ---------------------------------------------------------------------------

pub open spec fn default_ignore_patterns() -> Seq<Seq<char>> {
    seq!["*.tmp"@, "*.log"@, ".git/**"@, "node_modules/**"@, "target/**"@, ".probe/**"@]
}

pub open spec fn default_supported_languages() -> Seq<Seq<char>> {
    seq!["rust"@, "python"@, "typescript"@, "javascript"@, "go"@, "java"@, "c"@, "cpp"@]
}

pub open spec fn default_validation_config() -> ValidationConfig {
    ValidationConfig {
        validate_file_paths: true,
        check_file_permissions: true,
        validate_git_state: true,
        max_directory_depth: 20,
        content_validation: false,
    }
}

pub open spec fn default_memory_limits() -> MemoryLimits {
    MemoryLimits {
        max_workspace_memory_mb: 512,
        max_cache_memory_mb: 256,
        enable_monitoring: true,
        cleanup_threshold_percent: 80,
    }
}

pub open spec fn default_database_settings() -> DatabaseSettings {
    DatabaseSettings {
        connection_pool_size: 10,
        connection_timeout_seconds: 30,
        query_timeout_seconds: 60,
        enable_retry: true,
        max_retry_attempts: 3,
    }
}

pub open spec fn is_default_cache_config(c: CacheConfig) -> bool {
    &&& c.enabled
    &&& c.max_size_mb == 100
    &&& c.ttl_minutes == 60
    &&& c.compression
    &&& c.eviction_strategy == EvictionStrategy::LRU
    &&& c.persistent_storage
    &&& c.cache_directory is None
}

pub open spec fn is_default_performance_config(c: PerformanceConfig) -> bool {
    &&& c.max_concurrent_operations == 8
    &&& c.batch_size == 50
    &&& c.operation_timeout_seconds == 300
    &&& c.parallel_processing
    &&& c.memory_limits == default_memory_limits()
    &&& c.database_settings == default_database_settings()
}

pub open spec fn is_default_branch_config(c: BranchConfig) -> bool {
    &&& c.auto_detect_branch
    &&& c.default_branch@ == "main"@
    &&& c.branch_specific_cache
    &&& c.auto_sync_interval_minutes == 0
    &&& c.max_tracked_branches == 10
    &&& c.optimize_branch_switching
}

pub open spec fn is_default_file_watching_config(c: FileWatchingConfig) -> bool {
    &&& c.enabled
    &&& c.debounce_delay_ms == 500
    &&& c.max_events_per_second == 100
    &&& c.recursive_watching
    &&& c.watched_extensions@.len() == 0
}

pub open spec fn is_default_workspace_config(c: WorkspaceConfig) -> bool {
    &&& c.max_file_size_mb == 10
    &&& strings_view(c.ignore_patterns@) == default_ignore_patterns()
    &&& strings_view(c.supported_languages@) == default_supported_languages()
    &&& c.git_integration
    &&& c.incremental_indexing
    &&& is_default_cache_config(c.cache_settings)
    &&& is_default_performance_config(c.performance)
    &&& is_default_branch_config(c.branch_management)
    &&& is_default_file_watching_config(c.file_watching)
    &&& c.validation == default_validation_config()
}

/// Owned strings for a list of literals.
fn owned_strings(lits: &[&str]) -> (r: Vec<String>)
    ensures
        strings_view(r@) == lits@.map_values(|s: &str| s@),
{
    let mut out: Vec<String> = Vec::new();
    let mut i: usize = 0;
    while i < lits.len()
        invariant
            i <= lits@.len(),
            strings_view(out@) == lits@.map_values(|s: &str| s@).take(i as int),
        decreases lits.len() - i,
    {
        let s = lits[i].to_string();
        let ghost before = out@;
        out.push(s);
        assert(strings_view(out@) =~= strings_view(before).push(s@));
        assert(lits@.map_values(|s: &str| s@).take(i + 1) =~= lits@.map_values(|s: &str| s@).take(
            i as int,
        ).push(lits@[i as int]@));
        i += 1;
    }
    assert(lits@.map_values(|s: &str| s@).take(lits@.len() as int) =~= lits@.map_values(
        |s: &str| s@,
    ));
    out
}

impl Default for WorkspaceConfig {
    fn default() -> (r: Self)
        ensures
            is_default_workspace_config(r),
    {
        let ignore_patterns = owned_strings(
            &["*.tmp", "*.log", ".git/**", "node_modules/**", "target/**", ".probe/**"],
        );
        let supported_languages = owned_strings(
            &["rust", "python", "typescript", "javascript", "go", "java", "c", "cpp"],
        );
        assert(strings_view(ignore_patterns@) =~= default_ignore_patterns());
        assert(strings_view(supported_languages@) =~= default_supported_languages());
        Self {
            max_file_size_mb: 10,
            ignore_patterns,
            supported_languages,
            git_integration: true,
            incremental_indexing: true,
            cache_settings: CacheConfig::default(),
            performance: PerformanceConfig::default(),
            branch_management: BranchConfig::default(),
            file_watching: FileWatchingConfig::default(),
            validation: ValidationConfig::default(),
        }
    }
}

impl Default for CacheConfig {
    fn default() -> (r: Self)
        ensures
            is_default_cache_config(r),
    {
        Self {
            enabled: true,
            max_size_mb: 100,
            ttl_minutes: 60,
            compression: true,
            eviction_strategy: EvictionStrategy::LRU,
            persistent_storage: true,
            cache_directory: None,
        }
    }
}

impl Default for PerformanceConfig {
    fn default() -> (r: Self)
        ensures
            is_default_performance_config(r),
    {
        Self {
            max_concurrent_operations: 8,
            batch_size: 50,
            operation_timeout_seconds: 300,
            parallel_processing: true,
            memory_limits: MemoryLimits::default(),
            database_settings: DatabaseSettings::default(),
        }
    }
}

impl Default for BranchConfig {
    fn default() -> (r: Self)
        ensures
            is_default_branch_config(r),
    {
        Self {
            auto_detect_branch: true,
            default_branch: "main".to_string(),
            branch_specific_cache: true,
            auto_sync_interval_minutes: 0,  // Disabled by default
            max_tracked_branches: 10,
            optimize_branch_switching: true,
        }
    }
}

impl Default for FileWatchingConfig {
    fn default() -> (r: Self)
        ensures
            is_default_file_watching_config(r),
    {
        Self {
            enabled: true,
            debounce_delay_ms: 500,
            max_events_per_second: 100,
            recursive_watching: true,
            watched_extensions: Vec::new(),  // Watch all extensions by default
        }
    }
}

impl Default for ValidationConfig {
    fn default() -> (r: Self)
        ensures
            r == default_validation_config(),
    {
        Self {
            validate_file_paths: true,
            check_file_permissions: true,
            validate_git_state: true,
            max_directory_depth: 20,
            content_validation: false,  // Expensive, disabled by default
        }
    }
}

impl Default for MemoryLimits {
    fn default() -> (r: Self)
        ensures
            r == default_memory_limits(),
    {
        Self {
            max_workspace_memory_mb: 512,
            max_cache_memory_mb: 256,
            enable_monitoring: true,
            cleanup_threshold_percent: 80,
        }
    }
}

impl Default for DatabaseSettings {
    fn default() -> (r: Self)
        ensures
            r == default_database_settings(),
    {
        Self {
            connection_pool_size: 10,
            connection_timeout_seconds: 30,
            query_timeout_seconds: 60,
            enable_retry: true,
            max_retry_attempts: 3,
        }
    }
}

// ---------------------------------------------------------------------------
// Model of validation, matching and merging
// ---------------------------------------------------------------------------

/// An absolute path (on Unix: one that starts at the root).
pub open spec fn is_absolute_path(p: Seq<char>) -> bool {
    p.len() > 0 && p[0] == '/'
}

/// The first rule that a configuration breaks, if any.
pub open spec fn config_error(c: WorkspaceConfig) -> Option<ValidationErrorView> {
    let cache_size = c.cache_settings.max_size_mb;
    let concurrency = c.performance.max_concurrent_operations;
    let timeout = c.performance.operation_timeout_seconds;
    if c.max_file_size_mb > 1000 {
        Some(ValidationErrorView::FileSizeTooLarge { limit_mb: c.max_file_size_mb })
    } else if cache_size < 1 || cache_size > 10000 {
        Some(ValidationErrorView::InvalidCacheSize { size_mb: cache_size })
    } else if concurrency < 1 || concurrency > 100 {
        Some(ValidationErrorView::InvalidConcurrency { count: concurrency })
    } else if timeout < 1 || timeout > 3600 {
        Some(ValidationErrorView::InvalidTimeout { seconds: timeout })
    } else if c.cache_settings.cache_directory is Some && !is_absolute_path(
        c.cache_settings.cache_directory->0@,
    ) {
        Some(
            ValidationErrorView::InvalidDirectoryPath {
                path: c.cache_settings.cache_directory->0@,
            },
        )
    } else if !c.cache_settings.enabled && c.cache_settings.persistent_storage {
        Some(
            ValidationErrorView::ConflictingConfig {
                message: "Cannot enable persistent storage when cache is disabled"@,
            },
        )
    } else if !c.git_integration && c.branch_management.branch_specific_cache {
        Some(
            ValidationErrorView::ConflictingConfig {
                message: "Cannot enable branch-specific cache when git integration is disabled"@,
            },
        )
    } else {
        None
    }
}

/// The simple glob matching of ignore patterns: a pattern with one `**`, or else with
/// one `*`, matches the texts that start with what precedes it and end with what
/// follows it; any other pattern matches itself only.
pub open spec fn glob_matches(pattern: Seq<char>, text: Seq<char>) -> bool {
    let double = split(pattern, "**"@);
    let single = split(pattern, "*"@);
    if contains(pattern, "**"@) && double.len() == 2 {
        starts_with(text, double[0]) && ends_with(text, double[1])
    } else if has_char(pattern, '*') && single.len() == 2 {
        starts_with(text, single[0]) && ends_with(text, single[1])
    } else {
        pattern == text
    }
}

/// Whether some pattern matches a path.
pub open spec fn ignored_by(patterns: Seq<Seq<char>>, path: Seq<char>) -> bool {
    exists|i: int| 0 <= i < patterns.len() && glob_matches(#[trigger] patterns[i], path)
}

/// Whether some language equals the given one, ignoring ASCII case.
pub open spec fn language_listed(languages: Seq<Seq<char>>, language: Seq<char>) -> bool {
    exists|i: int| 0 <= i < languages.len() && eq_ignore_ascii_case(#[trigger] languages[i], language)
}

/// How `to_string` prints a `bool`.
pub open spec fn bool_text(b: bool) -> Seq<char> {
    if b {
        "true"@
    } else {
        "false"@
    }
}

/// The cache settings as key/value pairs for database configuration.
pub open spec fn cache_settings_pairs(c: CacheConfig) -> Seq<(Seq<char>, Seq<char>)> {
    let base = seq![
        ("enabled"@, bool_text(c.enabled)),
        ("max_size_mb"@, decimal(c.max_size_mb as nat)),
        ("ttl_minutes"@, decimal(c.ttl_minutes as nat)),
        ("compression"@, bool_text(c.compression)),
        ("persistent_storage"@, bool_text(c.persistent_storage)),
    ];
    match c.cache_directory {
        Some(d) => base.push(("cache_directory"@, d@)),
        None => base,
    }
}

// ---------------------------------------------------------------------------
// Implementation
// ---------------------------------------------------------------------------

/// Simple glob pattern matching
pub fn glob_match(pattern: &str, text: &str) -> (r: bool)
    ensures
        r == glob_matches(pattern@, text@),
{
    let p = chars_of(pattern);
    let t = chars_of(text);
    proof {
        reveal_strlit("**");
        reveal_strlit("*");
    }
    let double = chars_of("**");
    if contains_exec(&p, &double) {
        // A double wildcard matches any path
        let parts = split_exec(&p, &double);
        if parts.len() == 2 {
            return has_prefix(&t, &parts[0]) && has_suffix(&t, &parts[1]);
        }
    }
    if has_char_exec(&p, '*') {
        let parts = split_exec(&p, &chars_of("*"));
        if parts.len() == 2 {
            return has_prefix(&t, &parts[0]) && has_suffix(&t, &parts[1]);
        }
    }
    // Exact match
    chars_eq(&p, &t)
}

fn strings_eq(a: &Vec<String>, b: &Vec<String>) -> (r: bool)
    ensures
        r == (strings_view(a@) == strings_view(b@)),
{
    if a.len() != b.len() {
        assert(strings_view(a@).len() != strings_view(b@).len());
        return false;
    }
    let mut i: usize = 0;
    while i < a.len()
        invariant
            a@.len() == b@.len(),
            i <= a@.len(),
            forall|j: int| 0 <= j < i ==> a@[j]@ == b@[j]@,
        decreases a.len() - i,
    {
        if !chars_eq(&chars_of(a[i].as_str()), &chars_of(b[i].as_str())) {
            assert(strings_view(a@)[i as int] != strings_view(b@)[i as int]);
            return false;
        }
        i += 1;
    }
    assert(strings_view(a@) =~= strings_view(b@));
    true
}

fn bool_string(b: bool) -> (r: String)
    ensures
        r@ == bool_text(b),
{
    if b {
        "true".to_string()
    } else {
        "false".to_string()
    }
}

/// Builder for workspace configuration with validation
pub struct WorkspaceConfigBuilder {
    config: WorkspaceConfig,
}

impl WorkspaceConfigBuilder {
    /// The configuration being built.
    pub closed spec fn current(self) -> WorkspaceConfig {
        self.config
    }

    /// Create a new config builder
    pub fn new() -> (r: Self)
        ensures
            is_default_workspace_config(r.current()),
    {
        Self { config: WorkspaceConfig::default() }
    }

    /// Set maximum file size
    pub fn max_file_size_mb(self, size_mb: u64) -> (r: Self)
        ensures
            r.current() == (WorkspaceConfig { max_file_size_mb: size_mb, ..self.current() }),
    {
        let mut b = self;
        b.config.max_file_size_mb = size_mb;
        b
    }

    /// Add ignore patterns, after those already there
    pub fn ignore_patterns(self, patterns: Vec<String>) -> (r: Self)
        ensures
            strings_view(r.current().ignore_patterns@) == strings_view(
                self.current().ignore_patterns@,
            ) + strings_view(patterns@),
            r.current() == (WorkspaceConfig {
                ignore_patterns: r.current().ignore_patterns,
                ..self.current()
            }),
    {
        let mut b = self;
        let mut added = patterns;
        let ghost before = strings_view(b.config.ignore_patterns@);
        let ghost more = strings_view(added@);
        b.config.ignore_patterns.append(&mut added);
        proof {
            assert(strings_view(b.config.ignore_patterns@) =~= before + more);
        }
        b
    }

    /// Set supported languages
    pub fn supported_languages(self, languages: Vec<String>) -> (r: Self)
        ensures
            r.current() == (WorkspaceConfig { supported_languages: languages, ..self.current() }),
    {
        let mut b = self;
        b.config.supported_languages = languages;
        b
    }

    /// Enable or disable git integration. Branch-specific caching needs git, so
    /// disabling git integration turns it off too.
    pub fn git_integration(self, enabled: bool) -> (r: Self)
        ensures
            r.current() == (WorkspaceConfig {
                git_integration: enabled,
                branch_management: BranchConfig {
                    branch_specific_cache: self.current().branch_management.branch_specific_cache
                        && enabled,
                    ..self.current().branch_management
                },
                ..self.current()
            }),
    {
        let mut b = self;
        b.config.git_integration = enabled;
        if !enabled {
            b.config.branch_management.branch_specific_cache = false;
        }
        b
    }

    /// Enable or disable incremental indexing
    pub fn incremental_indexing(self, enabled: bool) -> (r: Self)
        ensures
            r.current() == (WorkspaceConfig { incremental_indexing: enabled, ..self.current() }),
    {
        let mut b = self;
        b.config.incremental_indexing = enabled;
        b
    }

    /// Set cache configuration
    pub fn cache_settings(self, cache_config: CacheConfig) -> (r: Self)
        ensures
            r.current() == (WorkspaceConfig { cache_settings: cache_config, ..self.current() }),
    {
        let mut b = self;
        b.config.cache_settings = cache_config;
        b
    }

    /// Set performance configuration
    pub fn performance(self, perf_config: PerformanceConfig) -> (r: Self)
        ensures
            r.current() == (WorkspaceConfig { performance: perf_config, ..self.current() }),
    {
        let mut b = self;
        b.config.performance = perf_config;
        b
    }

    /// Set branch management configuration
    pub fn branch_management(self, branch_config: BranchConfig) -> (r: Self)
        ensures
            r.current() == (WorkspaceConfig { branch_management: branch_config, ..self.current() }),
    {
        let mut b = self;
        b.config.branch_management = branch_config;
        b
    }

    /// Set file watching configuration
    pub fn file_watching(self, watch_config: FileWatchingConfig) -> (r: Self)
        ensures
            r.current() == (WorkspaceConfig { file_watching: watch_config, ..self.current() }),
    {
        let mut b = self;
        b.config.file_watching = watch_config;
        b
    }

    /// Set validation configuration
    pub fn validation(self, validation_config: ValidationConfig) -> (r: Self)
        ensures
            r.current() == (WorkspaceConfig { validation: validation_config, ..self.current() }),
    {
        let mut b = self;
        b.config.validation = validation_config;
        b
    }

    /// Build and validate the configuration
    pub fn build(self) -> (r: Result<WorkspaceConfig, WorkspaceValidationError>)
        ensures
            match r {
                Ok(c) => config_error(self.current()) is None && c == self.current(),
                Err(e) => config_error(self.current()) == Some(e@),
            },
    {
        match self.validate_config() {
            Ok(()) => Ok(self.config),
            Err(e) => Err(e),
        }
    }

    /// Validate the configuration
    fn validate_config(&self) -> (r: Result<(), WorkspaceValidationError>)
        ensures
            match r {
                Ok(()) => config_error(self.config) is None,
                Err(e) => config_error(self.config) == Some(e@),
            },
    {
        check_config(&self.config)
    }
}

impl Default for WorkspaceConfigBuilder {
    fn default() -> (r: Self)
        ensures
            is_default_workspace_config(r.current()),
    {
        Self::new()
    }
}

/// Two cache configurations that agree field by field (texts by their characters).
pub open spec fn same_cache_config(a: CacheConfig, b: CacheConfig) -> bool {
    &&& a.enabled == b.enabled
    &&& a.max_size_mb == b.max_size_mb
    &&& a.ttl_minutes == b.ttl_minutes
    &&& a.compression == b.compression
    &&& a.eviction_strategy == b.eviction_strategy
    &&& a.persistent_storage == b.persistent_storage
    &&& opt_text(a.cache_directory) == opt_text(b.cache_directory)
}

/// Two branch configurations that agree field by field (texts by their characters).
pub open spec fn same_branch_config(a: BranchConfig, b: BranchConfig) -> bool {
    &&& a.auto_detect_branch == b.auto_detect_branch
    &&& a.default_branch@ == b.default_branch@
    &&& a.branch_specific_cache == b.branch_specific_cache
    &&& a.auto_sync_interval_minutes == b.auto_sync_interval_minutes
    &&& a.max_tracked_branches == b.max_tracked_branches
    &&& a.optimize_branch_switching == b.optimize_branch_switching
}

/// Two file watching configurations that agree field by field (texts by their
/// characters).
pub open spec fn same_file_watching_config(a: FileWatchingConfig, b: FileWatchingConfig) -> bool {
    &&& a.enabled == b.enabled
    &&& a.debounce_delay_ms == b.debounce_delay_ms
    &&& a.max_events_per_second == b.max_events_per_second
    &&& a.recursive_watching == b.recursive_watching
    &&& strings_view(a.watched_extensions@) == strings_view(b.watched_extensions@)
}

/// What `merge` gives: every value of `other` that is not the default, and `c`'s value
/// where `other` has the default. Scalars and lists are taken one by one (a list only
/// where it is not empty); each section (cache, performance, branches, file watching,
/// validation) is taken whole where it differs from the default section.
pub open spec fn is_merged_config(r: WorkspaceConfig, c: WorkspaceConfig, other: WorkspaceConfig) -> bool {
    let other_patterns = strings_view(other.ignore_patterns@);
    let other_languages = strings_view(other.supported_languages@);
    &&& r.max_file_size_mb == if other.max_file_size_mb != 10 {
        other.max_file_size_mb
    } else {
        c.max_file_size_mb
    }
    &&& strings_view(r.ignore_patterns@) == if other_patterns.len() > 0 && other_patterns
        != default_ignore_patterns() {
        other_patterns
    } else {
        strings_view(c.ignore_patterns@)
    }
    &&& strings_view(r.supported_languages@) == if other_languages.len() > 0 && other_languages
        != default_supported_languages() {
        other_languages
    } else {
        strings_view(c.supported_languages@)
    }
    &&& r.git_integration == if !other.git_integration {
        false
    } else {
        c.git_integration
    }
    &&& r.incremental_indexing == if !other.incremental_indexing {
        false
    } else {
        c.incremental_indexing
    }
    &&& if is_default_cache_config(other.cache_settings) {
        r.cache_settings == c.cache_settings
    } else {
        same_cache_config(r.cache_settings, other.cache_settings)
    }
    &&& r.performance == if is_default_performance_config(other.performance) {
        c.performance
    } else {
        other.performance
    }
    &&& if is_default_branch_config(other.branch_management) {
        r.branch_management == c.branch_management
    } else {
        same_branch_config(r.branch_management, other.branch_management)
    }
    &&& if is_default_file_watching_config(other.file_watching) {
        r.file_watching == c.file_watching
    } else {
        same_file_watching_config(r.file_watching, other.file_watching)
    }
    &&& r.validation == if other.validation == default_validation_config() {
        c.validation
    } else {
        other.validation
    }
}

fn copy_cache_config(c: &CacheConfig) -> (r: CacheConfig)
    ensures
        same_cache_config(r, *c),
{
    CacheConfig {
        enabled: c.enabled,
        max_size_mb: c.max_size_mb,
        ttl_minutes: c.ttl_minutes,
        compression: c.compression,
        eviction_strategy: c.eviction_strategy,
        persistent_storage: c.persistent_storage,
        cache_directory: match &c.cache_directory {
            Some(d) => Some(string_of(&chars_of(d.as_str()))),
            None => None,
        },
    }
}

fn copy_branch_config(c: &BranchConfig) -> (r: BranchConfig)
    ensures
        same_branch_config(r, *c),
{
    BranchConfig {
        auto_detect_branch: c.auto_detect_branch,
        default_branch: string_of(&chars_of(c.default_branch.as_str())),
        branch_specific_cache: c.branch_specific_cache,
        auto_sync_interval_minutes: c.auto_sync_interval_minutes,
        max_tracked_branches: c.max_tracked_branches,
        optimize_branch_switching: c.optimize_branch_switching,
    }
}

fn copy_file_watching_config(c: &FileWatchingConfig) -> (r: FileWatchingConfig)
    ensures
        same_file_watching_config(r, *c),
{
    FileWatchingConfig {
        enabled: c.enabled,
        debounce_delay_ms: c.debounce_delay_ms,
        max_events_per_second: c.max_events_per_second,
        recursive_watching: c.recursive_watching,
        watched_extensions: clone_strings(&c.watched_extensions),
    }
}

fn copy_performance_config(c: &PerformanceConfig) -> (r: PerformanceConfig)
    ensures
        r == *c,
{
    PerformanceConfig {
        max_concurrent_operations: c.max_concurrent_operations,
        batch_size: c.batch_size,
        operation_timeout_seconds: c.operation_timeout_seconds,
        parallel_processing: c.parallel_processing,
        memory_limits: c.memory_limits,
        database_settings: c.database_settings,
    }
}

fn cache_config_is_default(c: &CacheConfig) -> (r: bool)
    ensures
        r == is_default_cache_config(*c),
{
    c.enabled && c.max_size_mb == 100 && c.ttl_minutes == 60 && c.compression
        && c.eviction_strategy == EvictionStrategy::LRU && c.persistent_storage
        && c.cache_directory.is_none()
}

fn performance_config_is_default(c: &PerformanceConfig) -> (r: bool)
    ensures
        r == is_default_performance_config(*c),
{
    let m = c.memory_limits;
    let d = c.database_settings;
    c.max_concurrent_operations == 8 && c.batch_size == 50 && c.operation_timeout_seconds == 300
        && c.parallel_processing && m.max_workspace_memory_mb == 512 && m.max_cache_memory_mb
        == 256 && m.enable_monitoring && m.cleanup_threshold_percent == 80
        && d.connection_pool_size == 10 && d.connection_timeout_seconds == 30
        && d.query_timeout_seconds == 60 && d.enable_retry && d.max_retry_attempts == 3
}

fn branch_config_is_default(c: &BranchConfig) -> (r: bool)
    ensures
        r == is_default_branch_config(*c),
{
    c.auto_detect_branch && eq_lit(&chars_of(c.default_branch.as_str()), "main")
        && c.branch_specific_cache && c.auto_sync_interval_minutes == 0
        && c.max_tracked_branches == 10 && c.optimize_branch_switching
}

fn file_watching_config_is_default(c: &FileWatchingConfig) -> (r: bool)
    ensures
        r == is_default_file_watching_config(*c),
{
    c.enabled && c.debounce_delay_ms == 500 && c.max_events_per_second == 100
        && c.recursive_watching && c.watched_extensions.len() == 0
}

fn validation_config_is_default(c: &ValidationConfig) -> (r: bool)
    ensures
        r == (*c == default_validation_config()),
{
    c.validate_file_paths && c.check_file_permissions && c.validate_git_state
        && c.max_directory_depth == 20 && !c.content_validation
}

/// The owned copy of a list of strings.
fn clone_strings(v: &Vec<String>) -> (r: Vec<String>)
    ensures
        strings_view(r@) == strings_view(v@),
{
    let mut out: Vec<String> = Vec::new();
    let mut i: usize = 0;
    while i < v.len()
        invariant
            i <= v@.len(),
            strings_view(out@) == strings_view(v@).take(i as int),
        decreases v.len() - i,
    {
        let s = string_of(&chars_of(v[i].as_str()));
        let ghost before = out@;
        out.push(s);
        assert(strings_view(out@) =~= strings_view(before).push(s@));
        assert(strings_view(v@).take(i + 1) =~= strings_view(v@).take(i as int).push(v@[i as int]@));
        i += 1;
    }
    assert(strings_view(v@).take(v@.len() as int) =~= strings_view(v@));
    out
}

/// Checks a configuration against the validation rules.
fn check_config(c: &WorkspaceConfig) -> (r: Result<(), WorkspaceValidationError>)
    ensures
        match r {
            Ok(()) => config_error(*c) is None,
            Err(e) => config_error(*c) == Some(e@),
        },
{
    // Validate file size limits
    if c.max_file_size_mb > 1000 {
        return Err(WorkspaceValidationError::FileSizeTooLarge { limit_mb: c.max_file_size_mb });
    }
    // Validate cache size
    let cache_size = c.cache_settings.max_size_mb;
    if cache_size < 1 || cache_size > 10000 {
        return Err(WorkspaceValidationError::InvalidCacheSize { size_mb: cache_size });
    }
    // Validate concurrency
    let concurrency = c.performance.max_concurrent_operations;
    if concurrency < 1 || concurrency > 100 {
        return Err(WorkspaceValidationError::InvalidConcurrency { count: concurrency });
    }
    // Validate timeout
    let timeout = c.performance.operation_timeout_seconds;
    if timeout < 1 || timeout > 3600 {
        return Err(WorkspaceValidationError::InvalidTimeout { seconds: timeout });
    }
    // Validate cache directory if specified
    match &c.cache_settings.cache_directory {
        Some(cache_dir) => {
            let d = chars_of(cache_dir.as_str());
            if !(d.len() > 0 && d[0] == '/') {
                return Err(
                    WorkspaceValidationError::InvalidDirectoryPath {
                        path: string_of(&d),
                    },
                );
            }
        },
        None => {},
    }
    // Check for conflicting configurations
    if !c.cache_settings.enabled && c.cache_settings.persistent_storage {
        return Err(
            WorkspaceValidationError::ConflictingConfig {
                message: "Cannot enable persistent storage when cache is disabled".to_string(),
            },
        );
    }
    if !c.git_integration && c.branch_management.branch_specific_cache {
        return Err(
            WorkspaceValidationError::ConflictingConfig {
                message: "Cannot enable branch-specific cache when git integration is disabled".to_string(),
            },
        );
    }
    Ok(())
}

impl WorkspaceConfig {
    /// Create a new config builder
    pub fn builder() -> (r: WorkspaceConfigBuilder)
        ensures
            is_default_workspace_config(r.current()),
    {
        WorkspaceConfigBuilder::new()
    }

    /// Validate this configuration
    pub fn validate(&self) -> (r: Result<(), WorkspaceValidationError>)
        ensures
            match r {
                Ok(()) => config_error(*self) is None,
                Err(e) => config_error(*self) == Some(e@),
            },
    {
        check_config(self)
    }

    /// Get the operation timeout as Duration
    pub fn operation_timeout(&self) -> (r: Duration)
        ensures
            r == crate::external::duration_from_secs(self.performance.operation_timeout_seconds),
    {
        Duration::from_secs(self.performance.operation_timeout_seconds)
    }

    /// Get the debounce delay as Duration
    pub fn debounce_delay(&self) -> (r: Duration)
        ensures
            r == crate::external::duration_from_millis(self.file_watching.debounce_delay_ms),
    {
        Duration::from_millis(self.file_watching.debounce_delay_ms)
    }

    /// Check if a file should be ignored based on patterns
    pub fn should_ignore_file(&self, file_path: &str) -> (r: bool)
        ensures
            r == ignored_by(strings_view(self.ignore_patterns@), file_path@),
    {
        let mut i: usize = 0;
        while i < self.ignore_patterns.len()
            invariant
                i <= self.ignore_patterns@.len(),
                forall|j: int|
                    0 <= j < i ==> !glob_matches(
                        #[trigger] strings_view(self.ignore_patterns@)[j],
                        file_path@,
                    ),
            decreases self.ignore_patterns.len() - i,
        {
            if glob_match(self.ignore_patterns[i].as_str(), file_path) {
                assert(strings_view(self.ignore_patterns@)[i as int] == self.ignore_patterns@[i as int]@);
                return true;
            }
            i += 1;
        }
        false
    }

    /// Check if a language is supported (ignoring ASCII case)
    pub fn is_language_supported(&self, language: &str) -> (r: bool)
        ensures
            r == language_listed(strings_view(self.supported_languages@), language@),
    {
        let lang = chars_of(language);
        let mut i: usize = 0;
        while i < self.supported_languages.len()
            invariant
                i <= self.supported_languages@.len(),
                lang@ == language@,
                forall|j: int|
                    0 <= j < i ==> !eq_ignore_ascii_case(
                        #[trigger] strings_view(self.supported_languages@)[j],
                        language@,
                    ),
            decreases self.supported_languages.len() - i,
        {
            if chars_eq_ignore_ascii_case(&chars_of(self.supported_languages[i].as_str()), &lang) {
                assert(strings_view(self.supported_languages@)[i as int]
                    == self.supported_languages@[i as int]@);
                return true;
            }
            i += 1;
        }
        false
    }

    /// Get cache settings as key/value pairs for database configuration
    pub fn cache_settings_map(&self) -> (r: Vec<(String, String)>)
        ensures
            pairs_view(r@) == cache_settings_pairs(self.cache_settings),
    {
        let c = &self.cache_settings;
        let mut map: Vec<(String, String)> = Vec::new();
        map.push(("enabled".to_string(), bool_string(c.enabled)));
        map.push(("max_size_mb".to_string(), string_of(&decimal_exec(c.max_size_mb))));
        map.push(("ttl_minutes".to_string(), string_of(&decimal_exec(c.ttl_minutes))));
        map.push(("compression".to_string(), bool_string(c.compression)));
        map.push(("persistent_storage".to_string(), bool_string(c.persistent_storage)));
        match &c.cache_directory {
            Some(cache_dir) => {
                map.push(("cache_directory".to_string(), string_of(&chars_of(cache_dir.as_str()))));
            },
            None => {},
        }
        assert(pairs_view(map@) =~= cache_settings_pairs(self.cache_settings));
        map
    }

    /// Merge with another configuration, taking non-default values from other
    pub fn merge(self, other: &WorkspaceConfig) -> (r: Self)
        ensures
            is_merged_config(r, self, *other),
    {
        let defaults = WorkspaceConfig::default();
        let mut c = self;
        if other.max_file_size_mb != defaults.max_file_size_mb {
            c.max_file_size_mb = other.max_file_size_mb;
        }
        if other.ignore_patterns.len() > 0 && !strings_eq(
            &other.ignore_patterns,
            &defaults.ignore_patterns,
        ) {
            c.ignore_patterns = clone_strings(&other.ignore_patterns);
        }
        if other.supported_languages.len() > 0 && !strings_eq(
            &other.supported_languages,
            &defaults.supported_languages,
        ) {
            c.supported_languages = clone_strings(&other.supported_languages);
        }
        if !other.git_integration {
            c.git_integration = false;
        }
        if !other.incremental_indexing {
            c.incremental_indexing = false;
        }
        if !cache_config_is_default(&other.cache_settings) {
            c.cache_settings = copy_cache_config(&other.cache_settings);
        }
        if !performance_config_is_default(&other.performance) {
            c.performance = copy_performance_config(&other.performance);
        }
        if !branch_config_is_default(&other.branch_management) {
            c.branch_management = copy_branch_config(&other.branch_management);
        }
        if !file_watching_config_is_default(&other.file_watching) {
            c.file_watching = copy_file_watching_config(&other.file_watching);
        }
        if !validation_config_is_default(&other.validation) {
            c.validation = other.validation;
        }
        c
    }
}

// ---------------------------------------------------------------------------
// Laws
// ---------------------------------------------------------------------------

/// The default configuration passes validation.
pub proof fn law_default_config_is_valid(c: WorkspaceConfig)
    requires
        is_default_workspace_config(c),
    ensures
        config_error(c) is None,
{
}

/// Merging in a default configuration changes nothing.
pub proof fn law_merge_with_default_keeps_config(
    r: WorkspaceConfig,
    c: WorkspaceConfig,
    other: WorkspaceConfig,
)
    requires
        is_default_workspace_config(other),
        is_merged_config(r, c, other),
    ensures
        r.max_file_size_mb == c.max_file_size_mb,
        strings_view(r.ignore_patterns@) == strings_view(c.ignore_patterns@),
        strings_view(r.supported_languages@) == strings_view(c.supported_languages@),
        config_error(r) == config_error(c),
{
}

/// A configuration that passes validation keeps its limits in range.
pub proof fn law_valid_config_limits(c: WorkspaceConfig)
    requires
        config_error(c) is None,
    ensures
        c.max_file_size_mb <= 1000,
        1 <= c.cache_settings.max_size_mb <= 10000,
        1 <= c.performance.max_concurrent_operations <= 100,
        1 <= c.performance.operation_timeout_seconds <= 3600,
        c.cache_settings.persistent_storage ==> c.cache_settings.enabled,
        c.branch_management.branch_specific_cache ==> c.git_integration,
{
}

} // verus!
