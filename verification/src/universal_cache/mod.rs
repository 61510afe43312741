//! Per-workspace caching of language-server answers: the LSP methods that can be
//! cached, the policy for each, and the storage keys of cache entries.
use vstd::prelude::*;

pub mod clearing;
pub mod document_provider;
pub mod key;
pub mod layer;
pub mod listing;
pub mod monitoring;
pub mod policy;
pub mod store;

verus! {

/// LSP method types supported by the universal cache
#[derive(Debug, Clone, Copy, PartialEq, Eq, Hash, Structural)]
pub enum LspMethod {
    /// Go to definition
    Definition,
    /// Find references
    References,
    /// Hover information
    Hover,
    /// Document symbols
    DocumentSymbols,
    /// Workspace symbols
    WorkspaceSymbols,
    /// Type definition
    TypeDefinition,
    /// Implementation
    Implementation,
    /// Call hierarchy (incoming/outgoing calls)
    CallHierarchy,
    /// Signature help
    SignatureHelp,
    /// Code completion
    Completion,
    /// Code actions
    CodeAction,
    /// Rename
    Rename,
    /// Folding ranges
    FoldingRange,
    /// Selection ranges
    SelectionRange,
    /// Semantic tokens
    SemanticTokens,
    /// Inlay hints
    InlayHint,
}

/// The protocol name of each method.
pub open spec fn method_name(m: LspMethod) -> Seq<char> {
    match m {
        LspMethod::Definition => "textDocument/definition"@,
        LspMethod::References => "textDocument/references"@,
        LspMethod::Hover => "textDocument/hover"@,
        LspMethod::DocumentSymbols => "textDocument/documentSymbol"@,
        LspMethod::WorkspaceSymbols => "workspace/symbol"@,
        LspMethod::TypeDefinition => "textDocument/typeDefinition"@,
        LspMethod::Implementation => "textDocument/implementation"@,
        LspMethod::CallHierarchy => "textDocument/prepareCallHierarchy"@,
        LspMethod::SignatureHelp => "textDocument/signatureHelp"@,
        LspMethod::Completion => "textDocument/completion"@,
        LspMethod::CodeAction => "textDocument/codeAction"@,
        LspMethod::Rename => "textDocument/rename"@,
        LspMethod::FoldingRange => "textDocument/foldingRange"@,
        LspMethod::SelectionRange => "textDocument/selectionRange"@,
        LspMethod::SemanticTokens => "textDocument/semanticTokens/full"@,
        LspMethod::InlayHint => "textDocument/inlayHint"@,
    }
}

/// Every method, in declaration order.
pub open spec fn all_methods() -> Seq<LspMethod> {
    seq![
        LspMethod::Definition,
        LspMethod::References,
        LspMethod::Hover,
        LspMethod::DocumentSymbols,
        LspMethod::WorkspaceSymbols,
        LspMethod::TypeDefinition,
        LspMethod::Implementation,
        LspMethod::CallHierarchy,
        LspMethod::SignatureHelp,
        LspMethod::Completion,
        LspMethod::CodeAction,
        LspMethod::Rename,
        LspMethod::FoldingRange,
        LspMethod::SelectionRange,
        LspMethod::SemanticTokens,
        LspMethod::InlayHint,
    ]
}

/// Position of a method in `all_methods`.
pub open spec fn method_index(m: LspMethod) -> int {
    match m {
        LspMethod::Definition => 0,
        LspMethod::References => 1,
        LspMethod::Hover => 2,
        LspMethod::DocumentSymbols => 3,
        LspMethod::WorkspaceSymbols => 4,
        LspMethod::TypeDefinition => 5,
        LspMethod::Implementation => 6,
        LspMethod::CallHierarchy => 7,
        LspMethod::SignatureHelp => 8,
        LspMethod::Completion => 9,
        LspMethod::CodeAction => 10,
        LspMethod::Rename => 11,
        LspMethod::FoldingRange => 12,
        LspMethod::SelectionRange => 13,
        LspMethod::SemanticTokens => 14,
        LspMethod::InlayHint => 15,
    }
}

pub proof fn lemma_method_index(m: LspMethod)
    ensures
        0 <= method_index(m) < 16,
        all_methods()[method_index(m)] == m,
        all_methods().len() == 16,
{
}

impl LspMethod {
    /// Get the string representation for the LSP method
    pub fn as_str(&self) -> (r: &'static str)
        ensures
            r@ == method_name(*self),
    {
        match self {
            LspMethod::Definition => "textDocument/definition",
            LspMethod::References => "textDocument/references",
            LspMethod::Hover => "textDocument/hover",
            LspMethod::DocumentSymbols => "textDocument/documentSymbol",
            LspMethod::WorkspaceSymbols => "workspace/symbol",
            LspMethod::TypeDefinition => "textDocument/typeDefinition",
            LspMethod::Implementation => "textDocument/implementation",
            LspMethod::CallHierarchy => "textDocument/prepareCallHierarchy",
            LspMethod::SignatureHelp => "textDocument/signatureHelp",
            LspMethod::Completion => "textDocument/completion",
            LspMethod::CodeAction => "textDocument/codeAction",
            LspMethod::Rename => "textDocument/rename",
            LspMethod::FoldingRange => "textDocument/foldingRange",
            LspMethod::SelectionRange => "textDocument/selectionRange",
            LspMethod::SemanticTokens => "textDocument/semanticTokens/full",
            LspMethod::InlayHint => "textDocument/inlayHint",
        }
    }

    /// The method at a position of `all_methods`.
    pub fn from_index(i: usize) -> (m: LspMethod)
        requires
            i < 16,
        ensures
            m == all_methods()[i as int],
            method_index(m) == i,
    {
        if i == 0 { LspMethod::Definition }
        else if i == 1 { LspMethod::References }
        else if i == 2 { LspMethod::Hover }
        else if i == 3 { LspMethod::DocumentSymbols }
        else if i == 4 { LspMethod::WorkspaceSymbols }
        else if i == 5 { LspMethod::TypeDefinition }
        else if i == 6 { LspMethod::Implementation }
        else if i == 7 { LspMethod::CallHierarchy }
        else if i == 8 { LspMethod::SignatureHelp }
        else if i == 9 { LspMethod::Completion }
        else if i == 10 { LspMethod::CodeAction }
        else if i == 11 { LspMethod::Rename }
        else if i == 12 { LspMethod::FoldingRange }
        else if i == 13 { LspMethod::SelectionRange }
        else if i == 14 { LspMethod::SemanticTokens }
        else { LspMethod::InlayHint }
    }

    /// Position of this method in `all_methods`.
    pub fn index(&self) -> (i: usize)
        ensures
            i == method_index(*self),
            i < 16,
    {
        match self {
            LspMethod::Definition => 0,
            LspMethod::References => 1,
            LspMethod::Hover => 2,
            LspMethod::DocumentSymbols => 3,
            LspMethod::WorkspaceSymbols => 4,
            LspMethod::TypeDefinition => 5,
            LspMethod::Implementation => 6,
            LspMethod::CallHierarchy => 7,
            LspMethod::SignatureHelp => 8,
            LspMethod::Completion => 9,
            LspMethod::CodeAction => 10,
            LspMethod::Rename => 11,
            LspMethod::FoldingRange => 12,
            LspMethod::SelectionRange => 13,
            LspMethod::SemanticTokens => 14,
            LspMethod::InlayHint => 15,
        }
    }
}

/// Statistics for a specific LSP method
#[derive(Debug, Clone, Copy, PartialEq, Eq)]
pub struct MethodStats {
    /// Number of entries for this method
    pub entries: u64,
    /// Size in bytes for this method
    pub size_bytes: u64,
    /// Hit count
    pub hits: u64,
    /// Miss count
    pub misses: u64,
}

} // verus!
