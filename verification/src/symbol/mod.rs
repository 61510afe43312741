//! Symbol UID Generation System
//!
//! Stable, unique identifiers (UIDs) for symbols across programming languages: the
//! same symbol gets the same UID in every analysis run.
//!
//! 1. **USR** (Unified Symbol Resolution) - if available (e.g. from Clang), used as is
//! 2. **Anonymous symbols** - position-based UID with scope context
//! 3. **Local variables/parameters** - scope + position
//! 4. **Methods/constructors** - class context and signature
//! 5. **Global symbols** - fully qualified name with normalization
use vstd::prelude::*;
use crate::text::text_lower;
use std::collections::HashMap;
use crate::text::{
    chars_of, eq_lit, has_char, has_char_exec, has_prefix, join, join_exec, seqs_view,
    starts_with, string_of, decimal, decimal_exec, append,
};
use crate::external::to_lowercase;

pub mod dependency_path;
pub mod language_support;
pub mod normalization;
pub mod uid_generator;
pub mod uid_normalization;
pub mod version_aware_uid;

verus! {

/// Core error types for the symbol UID system
#[derive(Debug)]
pub enum UIDError {
    /// Invalid symbol information
    InvalidSymbol(String),
    /// Unsupported language
    UnsupportedLanguage { language: String },
    /// Hash generation failed
    HashError(String),
    /// Normalization failed for a component
    NormalizationError { component: String, error: String },
    /// Missing required context
    MissingContext { context: String },
    /// Invalid scope format
    InvalidScope { scope: String },
    /// Signature parsing failed
    SignatureParsingError { signature: String },
}

/// The model of an error: its texts as character sequences.
pub enum UIDErrorView {
    InvalidSymbol(Seq<char>),
    UnsupportedLanguage { language: Seq<char> },
    HashError(Seq<char>),
    NormalizationError { component: Seq<char>, error: Seq<char> },
    MissingContext { context: Seq<char> },
    InvalidScope { scope: Seq<char> },
    SignatureParsingError { signature: Seq<char> },
}

impl View for UIDError {
    type V = UIDErrorView;

    open spec fn view(&self) -> UIDErrorView {
        match self {
            UIDError::InvalidSymbol(m) => UIDErrorView::InvalidSymbol(m@),
            UIDError::UnsupportedLanguage { language } => UIDErrorView::UnsupportedLanguage {
                language: language@,
            },
            UIDError::HashError(m) => UIDErrorView::HashError(m@),
            UIDError::NormalizationError { component, error } => UIDErrorView::NormalizationError {
                component: component@,
                error: error@,
            },
            UIDError::MissingContext { context } => UIDErrorView::MissingContext {
                context: context@,
            },
            UIDError::InvalidScope { scope } => UIDErrorView::InvalidScope { scope: scope@ },
            UIDError::SignatureParsingError { signature } => UIDErrorView::SignatureParsingError {
                signature: signature@,
            },
        }
    }
}

/// Result type for UID operations
pub type UIDResult<T> = Result<T, UIDError>;

/// The model of a textual result.
pub open spec fn text_result(r: UIDResult<String>) -> Result<Seq<char>, UIDErrorView> {
    match r {
        Ok(s) => Ok(s@),
        Err(e) => Err(e@),
    }
}

/// The model of a result holding a list of texts.
pub open spec fn texts_result(r: UIDResult<Vec<String>>) -> Result<Seq<Seq<char>>, UIDErrorView> {
    match r {
        Ok(v) => Ok(strings_view(v@)),
        Err(e) => Err(e@),
    }
}

pub open spec fn strings_view(v: Seq<String>) -> Seq<Seq<char>> {
    v.map_values(|s: String| s@)
}

impl UIDError {
    /// A human-readable message, as the error's `Display` would print it.
    pub fn message(&self) -> (r: String)
        ensures
            r@ == error_message(self@),
    {
        let mut out: Vec<char> = Vec::new();
        match self {
            UIDError::InvalidSymbol(m) => {
                out = chars_of("Invalid symbol information: ");
                append(&mut out, &chars_of(m.as_str()));
            },
            UIDError::UnsupportedLanguage { language } => {
                out = chars_of("Unsupported language: ");
                append(&mut out, &chars_of(language.as_str()));
            },
            UIDError::HashError(m) => {
                out = chars_of("Hash generation failed: ");
                append(&mut out, &chars_of(m.as_str()));
            },
            UIDError::NormalizationError { component, error } => {
                out = chars_of("Normalization failed for ");
                append(&mut out, &chars_of(component.as_str()));
                append(&mut out, &chars_of(": "));
                append(&mut out, &chars_of(error.as_str()));
            },
            UIDError::MissingContext { context } => {
                out = chars_of("Missing required context: ");
                append(&mut out, &chars_of(context.as_str()));
            },
            UIDError::InvalidScope { scope } => {
                out = chars_of("Invalid scope format: ");
                append(&mut out, &chars_of(scope.as_str()));
            },
            UIDError::SignatureParsingError { signature } => {
                out = chars_of("Signature parsing failed: ");
                append(&mut out, &chars_of(signature.as_str()));
            },
        }
        string_of(&out)
    }
}

pub open spec fn error_message(e: UIDErrorView) -> Seq<char> {
    match e {
        UIDErrorView::InvalidSymbol(m) => "Invalid symbol information: "@ + m,
        UIDErrorView::UnsupportedLanguage { language } => "Unsupported language: "@ + language,
        UIDErrorView::HashError(m) => "Hash generation failed: "@ + m,
        UIDErrorView::NormalizationError { component, error } => "Normalization failed for "@
            + component + ": "@ + error,
        UIDErrorView::MissingContext { context } => "Missing required context: "@ + context,
        UIDErrorView::InvalidScope { scope } => "Invalid scope format: "@ + scope,
        UIDErrorView::SignatureParsingError { signature } => "Signature parsing failed: "@
            + signature,
    }
}

/// Symbol kinds supported by the UID generation system
#[derive(Debug, Clone, Copy, PartialEq, Eq, Hash, Structural)]
pub enum SymbolKind {
    // Callable symbols
    Function,
    Method,
    Constructor,
    Destructor,
    // Type definitions
    Class,
    Struct,
    Interface,
    Trait,
    Enum,
    Union,
    // Data symbols
    Variable,
    Parameter,
    Field,
    Constant,
    // Organizational symbols
    Namespace,
    Module,
    Package,
    // Other symbols
    Macro,
    Type,
    Alias,
    Anonymous,
    // Test-specific
    Test,
    // Import/Export
    Import,
    Export,
}

impl SymbolKind {
    /// Returns true if this symbol kind represents a callable (function, method, etc.)
    pub fn is_callable(&self) -> (r: bool)
        ensures
            r == self.spec_is_callable(),
    {
        matches!(
            self,
            SymbolKind::Function | SymbolKind::Method | SymbolKind::Constructor
                | SymbolKind::Destructor
        )
    }

    pub open spec fn spec_is_callable(&self) -> bool {
        ||| *self == SymbolKind::Function
        ||| *self == SymbolKind::Method
        ||| *self == SymbolKind::Constructor
        ||| *self == SymbolKind::Destructor
    }

    /// Returns true if this symbol kind represents a type definition
    pub fn is_type_definition(&self) -> (r: bool)
        ensures
            r == (*self == SymbolKind::Class || *self == SymbolKind::Struct || *self
                == SymbolKind::Interface || *self == SymbolKind::Trait || *self == SymbolKind::Enum
                || *self == SymbolKind::Union),
    {
        matches!(
            self,
            SymbolKind::Class | SymbolKind::Struct | SymbolKind::Interface | SymbolKind::Trait
                | SymbolKind::Enum | SymbolKind::Union
        )
    }

    /// Returns true if this symbol kind represents a data symbol (variable, field, etc.)
    pub fn is_data_symbol(&self) -> (r: bool)
        ensures
            r == (*self == SymbolKind::Variable || *self == SymbolKind::Parameter || *self
                == SymbolKind::Field || *self == SymbolKind::Constant),
    {
        matches!(
            self,
            SymbolKind::Variable | SymbolKind::Parameter | SymbolKind::Field | SymbolKind::Constant
        )
    }

    /// Returns true if this symbol kind is likely to be scoped (local variable, parameter)
    pub fn is_scoped(&self) -> (r: bool)
        ensures
            r == self.spec_is_scoped(),
    {
        matches!(self, SymbolKind::Variable | SymbolKind::Parameter)
    }

    pub open spec fn spec_is_scoped(&self) -> bool {
        *self == SymbolKind::Variable || *self == SymbolKind::Parameter
    }

    /// The lowercase name of the kind, as its `Display` prints it.
    pub fn to_string(&self) -> (r: String)
        ensures
            r@ == kind_name(*self),
    {
        let s = match self {
            SymbolKind::Function => "function",
            SymbolKind::Method => "method",
            SymbolKind::Constructor => "constructor",
            SymbolKind::Destructor => "destructor",
            SymbolKind::Class => "class",
            SymbolKind::Struct => "struct",
            SymbolKind::Interface => "interface",
            SymbolKind::Trait => "trait",
            SymbolKind::Enum => "enum",
            SymbolKind::Union => "union",
            SymbolKind::Variable => "variable",
            SymbolKind::Parameter => "parameter",
            SymbolKind::Field => "field",
            SymbolKind::Constant => "constant",
            SymbolKind::Namespace => "namespace",
            SymbolKind::Module => "module",
            SymbolKind::Package => "package",
            SymbolKind::Macro => "macro",
            SymbolKind::Type => "type",
            SymbolKind::Alias => "alias",
            SymbolKind::Anonymous => "anonymous",
            SymbolKind::Test => "test",
            SymbolKind::Import => "import",
            SymbolKind::Export => "export",
        };
        string_of(&chars_of(s))
    }
}

pub open spec fn kind_name(k: SymbolKind) -> Seq<char> {
    match k {
        SymbolKind::Function => "function"@,
        SymbolKind::Method => "method"@,
        SymbolKind::Constructor => "constructor"@,
        SymbolKind::Destructor => "destructor"@,
        SymbolKind::Class => "class"@,
        SymbolKind::Struct => "struct"@,
        SymbolKind::Interface => "interface"@,
        SymbolKind::Trait => "trait"@,
        SymbolKind::Enum => "enum"@,
        SymbolKind::Union => "union"@,
        SymbolKind::Variable => "variable"@,
        SymbolKind::Parameter => "parameter"@,
        SymbolKind::Field => "field"@,
        SymbolKind::Constant => "constant"@,
        SymbolKind::Namespace => "namespace"@,
        SymbolKind::Module => "module"@,
        SymbolKind::Package => "package"@,
        SymbolKind::Macro => "macro"@,
        SymbolKind::Type => "type"@,
        SymbolKind::Alias => "alias"@,
        SymbolKind::Anonymous => "anonymous"@,
        SymbolKind::Test => "test"@,
        SymbolKind::Import => "import"@,
        SymbolKind::Export => "export"@,
    }
}

/// The kind a lowercased name denotes; names not listed mean `Anonymous`.
pub open spec fn kind_from_lower(s: Seq<char>) -> SymbolKind {
    if s == "function"@ || s == "func"@ || s == "fn"@ {
        SymbolKind::Function
    } else if s == "method"@ || s == "meth"@ {
        SymbolKind::Method
    } else if s == "constructor"@ || s == "ctor"@ || s == "init"@ {
        SymbolKind::Constructor
    } else if s == "destructor"@ || s == "dtor"@ || s == "finalize"@ {
        SymbolKind::Destructor
    } else if s == "class"@ || s == "cls"@ {
        SymbolKind::Class
    } else if s == "struct"@ || s == "structure"@ {
        SymbolKind::Struct
    } else if s == "interface"@ || s == "iface"@ {
        SymbolKind::Interface
    } else if s == "trait"@ {
        SymbolKind::Trait
    } else if s == "enum"@ || s == "enumeration"@ {
        SymbolKind::Enum
    } else if s == "union"@ {
        SymbolKind::Union
    } else if s == "variable"@ || s == "var"@ || s == "let"@ {
        SymbolKind::Variable
    } else if s == "parameter"@ || s == "param"@ || s == "arg"@ {
        SymbolKind::Parameter
    } else if s == "field"@ || s == "member"@ {
        SymbolKind::Field
    } else if s == "constant"@ || s == "const"@ {
        SymbolKind::Constant
    } else if s == "namespace"@ || s == "ns"@ {
        SymbolKind::Namespace
    } else if s == "module"@ || s == "mod"@ {
        SymbolKind::Module
    } else if s == "package"@ || s == "pkg"@ {
        SymbolKind::Package
    } else if s == "macro"@ {
        SymbolKind::Macro
    } else if s == "type"@ || s == "typedef"@ {
        SymbolKind::Type
    } else if s == "alias"@ {
        SymbolKind::Alias
    } else if s == "anonymous"@ || s == "anon"@ {
        SymbolKind::Anonymous
    } else if s == "test"@ {
        SymbolKind::Test
    } else if s == "import"@ {
        SymbolKind::Import
    } else if s == "export"@ {
        SymbolKind::Export
    } else {
        SymbolKind::Anonymous
    }
}

fn kind_from_lower_exec(s: &Vec<char>) -> (r: SymbolKind)
    ensures
        r == kind_from_lower(s@),
{
    if eq_lit(s, "function") || eq_lit(s, "func") || eq_lit(s, "fn") {
        SymbolKind::Function
    } else if eq_lit(s, "method") || eq_lit(s, "meth") {
        SymbolKind::Method
    } else if eq_lit(s, "constructor") || eq_lit(s, "ctor") || eq_lit(s, "init") {
        SymbolKind::Constructor
    } else if eq_lit(s, "destructor") || eq_lit(s, "dtor") || eq_lit(s, "finalize") {
        SymbolKind::Destructor
    } else if eq_lit(s, "class") || eq_lit(s, "cls") {
        SymbolKind::Class
    } else if eq_lit(s, "struct") || eq_lit(s, "structure") {
        SymbolKind::Struct
    } else if eq_lit(s, "interface") || eq_lit(s, "iface") {
        SymbolKind::Interface
    } else if eq_lit(s, "trait") {
        SymbolKind::Trait
    } else if eq_lit(s, "enum") || eq_lit(s, "enumeration") {
        SymbolKind::Enum
    } else if eq_lit(s, "union") {
        SymbolKind::Union
    } else if eq_lit(s, "variable") || eq_lit(s, "var") || eq_lit(s, "let") {
        SymbolKind::Variable
    } else if eq_lit(s, "parameter") || eq_lit(s, "param") || eq_lit(s, "arg") {
        SymbolKind::Parameter
    } else if eq_lit(s, "field") || eq_lit(s, "member") {
        SymbolKind::Field
    } else if eq_lit(s, "constant") || eq_lit(s, "const") {
        SymbolKind::Constant
    } else if eq_lit(s, "namespace") || eq_lit(s, "ns") {
        SymbolKind::Namespace
    } else if eq_lit(s, "module") || eq_lit(s, "mod") {
        SymbolKind::Module
    } else if eq_lit(s, "package") || eq_lit(s, "pkg") {
        SymbolKind::Package
    } else if eq_lit(s, "macro") {
        SymbolKind::Macro
    } else if eq_lit(s, "type") || eq_lit(s, "typedef") {
        SymbolKind::Type
    } else if eq_lit(s, "alias") {
        SymbolKind::Alias
    } else if eq_lit(s, "anonymous") || eq_lit(s, "anon") {
        SymbolKind::Anonymous
    } else if eq_lit(s, "test") {
        SymbolKind::Test
    } else if eq_lit(s, "import") {
        SymbolKind::Import
    } else if eq_lit(s, "export") {
        SymbolKind::Export
    } else {
        SymbolKind::Anonymous
    }
}

impl SymbolKind {
    /// Convert a kind name to a `SymbolKind` (case-insensitive; unknown names are `Anonymous`).
    pub fn from_name(s: &str) -> (r: SymbolKind)
        ensures
            r == kind_from_lower(text_lower(s@)),
    {
        let lower = to_lowercase(s);
        kind_from_lower_exec(&chars_of(lower.as_str()))
    }
}

/// Symbol visibility levels
#[derive(Debug, Clone, Copy, PartialEq, Eq, Hash, Structural)]
pub enum Visibility {
    Public,
    Private,
    Protected,
    Internal,
    Package,
    /// For JavaScript/TypeScript
    Export,
}

pub open spec fn visibility_name(v: Visibility) -> Seq<char> {
    match v {
        Visibility::Public => "public"@,
        Visibility::Private => "private"@,
        Visibility::Protected => "protected"@,
        Visibility::Internal => "internal"@,
        Visibility::Package => "package"@,
        Visibility::Export => "export"@,
    }
}

/// The visibility a lowercased name denotes; unknown names mean the most restrictive.
pub open spec fn visibility_from_lower(s: Seq<char>) -> Visibility {
    if s == "public"@ || s == "pub"@ {
        Visibility::Public
    } else if s == "private"@ || s == "priv"@ {
        Visibility::Private
    } else if s == "protected"@ || s == "prot"@ {
        Visibility::Protected
    } else if s == "internal"@ || s == "int"@ {
        Visibility::Internal
    } else if s == "package"@ || s == "pkg"@ {
        Visibility::Package
    } else if s == "export"@ || s == "exp"@ {
        Visibility::Export
    } else {
        Visibility::Private
    }
}

impl Visibility {
    /// The lowercase name of the visibility, as its `Display` prints it.
    pub fn to_string(&self) -> (r: String)
        ensures
            r@ == visibility_name(*self),
    {
        let s = match self {
            Visibility::Public => "public",
            Visibility::Private => "private",
            Visibility::Protected => "protected",
            Visibility::Internal => "internal",
            Visibility::Package => "package",
            Visibility::Export => "export",
        };
        string_of(&chars_of(s))
    }

    /// Convert a visibility name to a `Visibility` (case-insensitive; unknown names are `Private`).
    pub fn from_name(s: &str) -> (r: Visibility)
        ensures
            r == visibility_from_lower(text_lower(s@)),
    {
        let lower = chars_of(to_lowercase(s).as_str());
        if eq_lit(&lower, "public") || eq_lit(&lower, "pub") {
            Visibility::Public
        } else if eq_lit(&lower, "private") || eq_lit(&lower, "priv") {
            Visibility::Private
        } else if eq_lit(&lower, "protected") || eq_lit(&lower, "prot") {
            Visibility::Protected
        } else if eq_lit(&lower, "internal") || eq_lit(&lower, "int") {
            Visibility::Internal
        } else if eq_lit(&lower, "package") || eq_lit(&lower, "pkg") {
            Visibility::Package
        } else if eq_lit(&lower, "export") || eq_lit(&lower, "exp") {
            Visibility::Export
        } else {
            Visibility::Private
        }
    }
}

/// Location information for a symbol in source code
#[derive(Debug, Clone)]
pub struct SymbolLocation {
    pub file_path: String,
    pub start_line: u32,
    pub start_char: u32,
    pub end_line: u32,
    pub end_char: u32,
}

impl SymbolLocation {
    /// Create a new symbol location
    pub fn new(file_path: String, start_line: u32, start_char: u32, end_line: u32, end_char: u32) -> (r: Self)
        ensures
            r.file_path == file_path,
            r.start_line == start_line,
            r.start_char == start_char,
            r.end_line == end_line,
            r.end_char == end_char,
    {
        Self { file_path, start_line, start_char, end_line, end_char }
    }

    /// Create a single-point location (start == end)
    pub fn point(file_path: String, line: u32, char: u32) -> (r: Self)
        ensures
            r.file_path == file_path,
            r.start_line == line,
            r.start_char == char,
            r.end_line == line,
            r.end_char == char,
    {
        Self { file_path, start_line: line, start_char: char, end_line: line, end_char: char }
    }

    /// Check if this location spans multiple lines
    pub fn is_multiline(&self) -> (r: bool)
        ensures
            r == (self.start_line != self.end_line),
    {
        self.start_line != self.end_line
    }

    /// Get the location as a compact string representation
    pub fn to_position_string(&self) -> (r: String)
        ensures
            r@ == position_string(*self),
    {
        let colon = chars_of(":");
        let mut out = decimal_exec(self.start_line as u64);
        append(&mut out, &colon);
        append(&mut out, &decimal_exec(self.start_char as u64));
        if self.is_multiline() {
            append(&mut out, &chars_of("-"));
            append(&mut out, &decimal_exec(self.end_line as u64));
            append(&mut out, &colon);
            append(&mut out, &decimal_exec(self.end_char as u64));
        }
        string_of(&out)
    }
}

/// `start_line:start_char`, followed by `-end_line:end_char` for a multi-line location.
pub open spec fn position_string(l: SymbolLocation) -> Seq<char> {
    let start = decimal(l.start_line as nat) + ":"@ + decimal(l.start_char as nat);
    if l.start_line != l.end_line {
        start + "-"@ + decimal(l.end_line as nat) + ":"@ + decimal(l.end_char as nat)
    } else {
        start
    }
}

/// Extended symbol information required for UID generation
#[derive(Debug, Clone)]
pub struct SymbolInfo {
    /// Symbol name (required)
    pub name: String,
    /// Symbol kind (required)
    pub kind: SymbolKind,
    /// Programming language (required)
    pub language: String,
    /// Fully qualified name (optional, preferred for global symbols)
    pub qualified_name: Option<String>,
    /// Function/method signature (optional, important for overloading)
    pub signature: Option<String>,
    /// Symbol visibility (optional)
    pub visibility: Option<Visibility>,
    /// Source location (required)
    pub location: SymbolLocation,
    /// Parent scope context (optional, for nested symbols)
    pub parent_scope: Option<String>,
    /// USR from language servers like Clang (optional, highest priority)
    pub usr: Option<String>,
    /// Whether this symbol is a definition vs. reference
    pub is_definition: bool,
    /// Additional metadata for language-specific features
    pub metadata: HashMap<String, String>,
}

impl SymbolInfo {
    /// Create a new SymbolInfo with minimal required fields
    pub fn new(name: String, kind: SymbolKind, language: String, location: SymbolLocation) -> (r: Self)
        ensures
            r.name == name,
            r.kind == kind,
            r.language == language,
            r.location == location,
            r.qualified_name is None,
            r.signature is None,
            r.visibility is None,
            r.parent_scope is None,
            r.usr is None,
            r.is_definition,
            r.metadata@ == Map::<String, String>::empty(),
    {
        Self {
            name,
            kind,
            language,
            qualified_name: None,
            signature: None,
            visibility: None,
            location,
            parent_scope: None,
            usr: None,
            is_definition: true,
            metadata: HashMap::new(),
        }
    }

    /// Builder pattern for setting optional fields
    pub fn with_qualified_name(self, fqn: String) -> (r: Self)
        ensures
            r == (SymbolInfo { qualified_name: Some(fqn), ..self }),
    {
        let mut s = self;
        s.qualified_name = Some(fqn);
        s
    }

    pub fn with_signature(self, signature: String) -> (r: Self)
        ensures
            r == (SymbolInfo { signature: Some(signature), ..self }),
    {
        let mut s = self;
        s.signature = Some(signature);
        s
    }

    pub fn with_visibility(self, visibility: Visibility) -> (r: Self)
        ensures
            r == (SymbolInfo { visibility: Some(visibility), ..self }),
    {
        let mut s = self;
        s.visibility = Some(visibility);
        s
    }

    pub fn with_usr(self, usr: String) -> (r: Self)
        ensures
            r == (SymbolInfo { usr: Some(usr), ..self }),
    {
        let mut s = self;
        s.usr = Some(usr);
        s
    }

    pub fn with_parent_scope(self, scope: String) -> (r: Self)
        ensures
            r == (SymbolInfo { parent_scope: Some(scope), ..self }),
    {
        let mut s = self;
        s.parent_scope = Some(scope);
        s
    }

    /// Check if this is an anonymous symbol (lambda, closure, etc.)
    pub fn is_anonymous(&self) -> (r: bool)
        ensures
            r == symbol_is_anonymous(self.kind, self.name@),
    {
        let name = chars_of(self.name.as_str());
        self.kind == SymbolKind::Anonymous || has_prefix(&name, &chars_of("lambda")) || has_prefix(
            &name,
            &chars_of("anon"),
        ) || has_prefix(&name, &chars_of("$")) || has_char_exec(&name, '@')
    }

    /// Check if this symbol likely needs position-based UID (local variables, anonymous symbols)
    pub fn needs_position_based_uid(&self) -> (r: bool)
        ensures
            r == (symbol_is_anonymous(self.kind, self.name@) || self.kind.spec_is_scoped()),
    {
        self.is_anonymous() || self.kind.is_scoped()
    }
}

/// A symbol is anonymous when its kind says so, or its name starts with `lambda`, `anon`
/// or `$`, or contains `@`.
pub open spec fn symbol_is_anonymous(kind: SymbolKind, name: Seq<char>) -> bool {
    ||| kind == SymbolKind::Anonymous
    ||| starts_with(name, "lambda"@)
    ||| starts_with(name, "anon"@)
    ||| starts_with(name, "$"@)
    ||| has_char(name, '@')
}

/// Context information required for UID generation
#[derive(Debug, Clone)]
pub struct SymbolContext {
    /// Workspace identifier
    pub workspace_id: i64,
    /// File version identifier
    pub file_version_id: i64,
    /// Programming language for this analysis
    pub language: String,
    /// Scope stack (from outermost to innermost)
    pub scope_stack: Vec<String>,
}

impl SymbolContext {
    /// Create new context with an empty scope stack
    pub fn new(workspace_id: i64, language: String) -> (r: Self)
        ensures
            r.workspace_id == workspace_id,
            r.file_version_id == 0,
            r.language == language,
            r.scope_stack@.len() == 0,
    {
        Self { workspace_id, file_version_id: 0, language, scope_stack: Vec::new() }
    }

    /// Add scope to the stack
    pub fn push_scope(self, scope: String) -> (r: Self)
        ensures
            r.workspace_id == self.workspace_id,
            r.file_version_id == self.file_version_id,
            r.language == self.language,
            r.scope_stack@ == self.scope_stack@.push(scope),
    {
        let mut s = self;
        s.scope_stack.push(scope);
        s
    }

    /// Get the current scope as a joined string
    pub fn current_scope(&self, separator: &str) -> (r: String)
        ensures
            r@ == join(strings_view(self.scope_stack@), separator@),
    {
        let parts = strings_to_chars(&self.scope_stack);
        string_of(&join_exec(&parts, &chars_of(separator)))
    }

    /// Get the immediate parent scope
    pub fn parent_scope(&self) -> (r: Option<&String>)
        ensures
            self.scope_stack@.len() == 0 ==> r is None,
            self.scope_stack@.len() > 0 ==> r == Some(&self.scope_stack@.last()),
    {
        if self.scope_stack.len() == 0 {
            None
        } else {
            Some(&self.scope_stack[self.scope_stack.len() - 1])
        }
    }
}

/// The characters of each string.
pub fn strings_to_chars(v: &Vec<String>) -> (r: Vec<Vec<char>>)
    ensures
        seqs_view(r@) == strings_view(v@),
{
    let mut out: Vec<Vec<char>> = Vec::new();
    let mut i: usize = 0;
    while i < v.len()
        invariant
            i <= v.len(),
            seqs_view(out@) == strings_view(v@).take(i as int),
        decreases v.len() - i,
    {
        let c = chars_of(v[i].as_str());
        let ghost before = out@;
        out.push(c);
        assert(seqs_view(out@) =~= seqs_view(before).push(c@));
        assert(strings_view(v@).take(i + 1) =~= strings_view(v@).take(i as int).push(v@[i as int]@));
        i += 1;
    }
    assert(strings_view(v@).take(v.len() as int) =~= strings_view(v@));
    out
}

/// Strings made from character vectors.
pub fn chars_to_strings(v: &Vec<Vec<char>>) -> (r: Vec<String>)
    ensures
        strings_view(r@) == seqs_view(v@),
{
    let mut out: Vec<String> = Vec::new();
    let mut i: usize = 0;
    while i < v.len()
        invariant
            i <= v.len(),
            strings_view(out@) == seqs_view(v@).take(i as int),
        decreases v.len() - i,
    {
        let c = string_of(&v[i]);
        let ghost before = out@;
        out.push(c);
        assert(strings_view(out@) =~= strings_view(before).push(c@));
        assert(seqs_view(v@).take(i + 1) =~= seqs_view(v@).take(i as int).push(v@[i as int]@));
        i += 1;
    }
    assert(seqs_view(v@).take(v.len() as int) =~= seqs_view(v@));
    out
}

} // verus!
