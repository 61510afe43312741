//! Cache Policy Management
//!
//! Caching policies for the LSP methods, including scope rules and invalidation
//! strategies.
use vstd::prelude::*;
use crate::universal_cache::{LspMethod, all_methods, method_index, lemma_method_index};

verus! {

/// Cache scope defining when cache entries should be invalidated
#[derive(Debug, Clone, Copy, PartialEq, Eq, Structural)]
pub enum CacheScope {
    /// Valid only for the current file content; invalidated when the file changes
    FileContent,
    /// Valid for the current file structure; invalidated when the file or its dependencies change
    FileStructure,
    /// Valid across the workspace; invalidated when its structure changes significantly
    Workspace,
    /// Valid across projects; rarely invalidated
    Project,
    /// Valid until the language server restarts
    Session,
}

/// Caching policy for an LSP method
#[derive(Debug, Clone, Copy, PartialEq, Eq, Structural)]
pub struct CachePolicy {
    /// Whether caching is enabled for this method
    pub enabled: bool,
    /// Cache scope determining invalidation rules
    pub scope: CacheScope,
    /// Maximum number of entries to cache for this method per workspace
    pub max_entries_per_workspace: Option<usize>,
    /// Whether to compress cached values
    pub compress: bool,
    /// Priority for LRU eviction (higher = keep longer)
    pub priority: u8,
}

pub open spec fn policy(
    enabled: bool,
    scope: CacheScope,
    max_entries_per_workspace: Option<usize>,
    compress: bool,
    priority: u8,
) -> CachePolicy {
    CachePolicy { enabled, scope, max_entries_per_workspace, compress, priority }
}

/// The policy that applies where none was registered.
pub open spec fn fallback_policy() -> CachePolicy {
    policy(true, CacheScope::FileContent, Some(1000), true, 5)
}

impl Default for CachePolicy {
    fn default() -> (r: Self)
        ensures
            r == fallback_policy(),
    {
        CachePolicy {
            enabled: true,
            scope: CacheScope::FileContent,
            max_entries_per_workspace: Some(1000),
            compress: true,
            priority: 5,
        }
    }
}

/// The policy a fresh registry holds for each method.
pub open spec fn default_policy(m: LspMethod) -> CachePolicy {
    match m {
        LspMethod::Definition => policy(true, CacheScope::FileContent, Some(2000), true, 7),
        LspMethod::References => policy(true, CacheScope::Workspace, Some(1500), true, 8),
        LspMethod::Hover => policy(true, CacheScope::FileContent, Some(5000), false, 9),
        LspMethod::DocumentSymbols => policy(true, CacheScope::FileContent, Some(1000), true, 6),
        LspMethod::WorkspaceSymbols => policy(true, CacheScope::Workspace, Some(500), true, 5),
        LspMethod::TypeDefinition => policy(true, CacheScope::FileContent, Some(1000), true, 6),
        LspMethod::Implementation => policy(true, CacheScope::Workspace, Some(1000), true, 7),
        LspMethod::CallHierarchy => policy(true, CacheScope::Workspace, Some(800), true, 10),
        LspMethod::SignatureHelp => policy(true, CacheScope::FileContent, Some(2000), false, 4),
        LspMethod::Completion => policy(false, CacheScope::FileContent, Some(100), false, 2),
        LspMethod::CodeAction => policy(false, CacheScope::FileContent, Some(500), true, 3),
        LspMethod::Rename => policy(false, CacheScope::Workspace, None, true, 1),
        LspMethod::FoldingRange => policy(true, CacheScope::FileStructure, Some(1000), true, 4),
        LspMethod::SelectionRange => policy(true, CacheScope::FileStructure, Some(1000), true, 4),
        LspMethod::SemanticTokens => policy(true, CacheScope::FileContent, Some(800), true, 6),
        LspMethod::InlayHint => policy(true, CacheScope::FileContent, Some(1500), false, 5),
    }
}

/// Registry of caching policies for different LSP methods
pub struct PolicyRegistry {
    /// The policy of each method, at the method's index.
    policies: Vec<CachePolicy>,
}

impl View for PolicyRegistry {
    type V = Map<LspMethod, CachePolicy>;

    closed spec fn view(&self) -> Map<LspMethod, CachePolicy> {
        Map::new(|m: LspMethod| true, |m: LspMethod| self.policies@[method_index(m)])
    }
}

/// The methods of `all_methods` whose policy satisfies `keep`, in that order.
pub open spec fn methods_where(
    policies: Map<LspMethod, CachePolicy>,
    keep: spec_fn(CachePolicy) -> bool,
) -> Seq<LspMethod> {
    all_methods().filter(|m: LspMethod| keep(policies[m]))
}

impl PolicyRegistry {
    #[verifier::type_invariant]
    spec fn inv(self) -> bool {
        self.policies@.len() == 16
    }

    /// Every method has a policy.
    pub proof fn lemma_total(&self)
        ensures
            forall|m: LspMethod| self@.dom().contains(m),
    {
    }

    /// Create a new policy registry with default policies
    pub fn new() -> (r: Self)
        ensures
            forall|m: LspMethod| #[trigger] r@[m] == default_policy(m),
    {
        let mut policies: Vec<CachePolicy> = Vec::new();
        // Definition: File-scoped, medium TTL
        policies.push(CachePolicy {
            enabled: true,
            scope: CacheScope::FileContent,
            max_entries_per_workspace: Some(2000),
            compress: true,
            priority: 7,
        });
        // References: Workspace-scoped, longer TTL
        policies.push(CachePolicy {
            enabled: true,
            scope: CacheScope::Workspace,
            max_entries_per_workspace: Some(1500),
            compress: true,
            priority: 8,
        });
        // Hover: File-scoped, short TTL (frequently accessed, small values)
        policies.push(CachePolicy {
            enabled: true,
            scope: CacheScope::FileContent,
            max_entries_per_workspace: Some(5000),
            compress: false,
            priority: 9,
        });
        // Document symbols: File-scoped, medium TTL
        policies.push(CachePolicy {
            enabled: true,
            scope: CacheScope::FileContent,
            max_entries_per_workspace: Some(1000),
            compress: true,
            priority: 6,
        });
        // Workspace symbols: Workspace-scoped, long TTL
        policies.push(CachePolicy {
            enabled: true,
            scope: CacheScope::Workspace,
            max_entries_per_workspace: Some(500),
            compress: true,
            priority: 5,
        });
        // Type definition: File-scoped, medium TTL
        policies.push(CachePolicy {
            enabled: true,
            scope: CacheScope::FileContent,
            max_entries_per_workspace: Some(1000),
            compress: true,
            priority: 6,
        });
        // Implementation: Workspace-scoped, longer TTL
        policies.push(CachePolicy {
            enabled: true,
            scope: CacheScope::Workspace,
            max_entries_per_workspace: Some(1000),
            compress: true,
            priority: 7,
        });
        // Call hierarchy: Workspace-scoped, long TTL (expensive to compute)
        policies.push(CachePolicy {
            enabled: true,
            scope: CacheScope::Workspace,
            max_entries_per_workspace: Some(800),
            compress: true,
            priority: 10,
        });
        // Signature help: File-scoped, short TTL
        policies.push(CachePolicy {
            enabled: true,
            scope: CacheScope::FileContent,
            max_entries_per_workspace: Some(2000),
            compress: false,
            priority: 4,
        });
        // Completion: Disabled by default (too dynamic)
        policies.push(CachePolicy {
            enabled: false,
            scope: CacheScope::FileContent,
            max_entries_per_workspace: Some(100),
            compress: false,
            priority: 2,
        });
        // Code actions: Disabled by default (context-dependent)
        policies.push(CachePolicy {
            enabled: false,
            scope: CacheScope::FileContent,
            max_entries_per_workspace: Some(500),
            compress: true,
            priority: 3,
        });
        // Rename: Disabled (one-time operations)
        policies.push(CachePolicy {
            enabled: false,
            scope: CacheScope::Workspace,
            max_entries_per_workspace: None,
            compress: true,
            priority: 1,
        });
        // Folding ranges: File-structure scoped (structural)
        policies.push(CachePolicy {
            enabled: true,
            scope: CacheScope::FileStructure,
            max_entries_per_workspace: Some(1000),
            compress: true,
            priority: 4,
        });
        // Selection ranges: File-structure scoped (structural)
        policies.push(CachePolicy {
            enabled: true,
            scope: CacheScope::FileStructure,
            max_entries_per_workspace: Some(1000),
            compress: true,
            priority: 4,
        });
        // Semantic tokens: File-scoped, medium TTL
        policies.push(CachePolicy {
            enabled: true,
            scope: CacheScope::FileContent,
            max_entries_per_workspace: Some(800),
            compress: true,
            priority: 6,
        });
        // Inlay hints: File-scoped, short TTL
        policies.push(CachePolicy {
            enabled: true,
            scope: CacheScope::FileContent,
            max_entries_per_workspace: Some(1500),
            compress: false,
            priority: 5,
        });
        let r = PolicyRegistry { policies };
        assert forall|m: LspMethod| #[trigger] r@[m] == default_policy(m) by {
            lemma_method_index(m);
        }
        r
    }

    /// Get the caching policy for a specific LSP method
    pub fn get_policy(&self, method: LspMethod) -> (r: CachePolicy)
        ensures
            r == self@[method],
    {
        proof {
            use_type_invariant(self);
        }
        self.policies[method.index()]
    }

    /// Update the policy for a specific method
    pub fn set_policy(&mut self, method: LspMethod, policy: CachePolicy)
        ensures
            final(self)@ == old(self)@.insert(method, policy),
    {
        proof {
            use_type_invariant(&*self);
        }
        let i = method.index();
        let mut policies = self.policies.clone();
        policies.set(i, policy);
        self.policies = policies;
        proof {
            assert(self@ =~= old(self)@.insert(method, policy)) by {
                assert forall|m: LspMethod| #[trigger] self@[m] == old(self)@.insert(method, policy)[m] by {
                    lemma_method_index(m);
                    lemma_method_index(method);
                }
            }
        }
    }

    /// Enable or disable caching for a specific method
    pub fn set_enabled(&mut self, method: LspMethod, enabled: bool)
        ensures
            final(self)@ == old(self)@.insert(
                method,
                CachePolicy { enabled, ..old(self)@[method] },
            ),
    {
        proof {
            use_type_invariant(&*self);
        }
        let i = method.index();
        let mut p = self.policies[i];
        p.enabled = enabled;
        let mut policies = self.policies.clone();
        policies.set(i, p);
        self.policies = policies;
        proof {
            assert(self@ =~= old(self)@.insert(method, p)) by {
                assert forall|m: LspMethod| #[trigger] self@[m] == old(self)@.insert(method, p)[m] by {
                    lemma_method_index(m);
                    lemma_method_index(method);
                }
            }
        }
    }

    /// The methods of `all_methods` whose policy satisfies `keep`.
    fn collect_methods(&self, scope: Option<CacheScope>) -> (r: Vec<LspMethod>)
        ensures
            r@ == methods_where(
                self@,
                |p: CachePolicy| p.enabled && (scope is None || p.scope == scope->0),
            ),
    {
        proof {
            use_type_invariant(self);
        }
        let ghost keep = |p: CachePolicy| p.enabled && (scope is None || p.scope == scope->0);
        let ghost pred = |m: LspMethod| keep(self@[m]);
        let mut out: Vec<LspMethod> = Vec::new();
        let mut i: usize = 0;
        while i < 16
            invariant
                i <= 16,
                self.policies@.len() == 16,
                keep == (|p: CachePolicy| p.enabled && (scope is None || p.scope == scope->0)),
                pred == (|m: LspMethod| keep(self@[m])),
                out@ == all_methods().take(i as int).filter(pred),
            decreases 16 - i,
        {
            let m = LspMethod::from_index(i);
            let p = self.policies[i];
            let wanted = p.enabled && match scope {
                None => true,
                Some(s) => p.scope == s,
            };
            proof {
                reveal_with_fuel(Seq::<_>::filter, 1);
                assert(all_methods().take(i + 1).drop_last() =~= all_methods().take(i as int));
                assert(self@[m] == p);
                assert(wanted == pred(m));
            }
            if wanted {
                out.push(m);
            }
            i += 1;
        }
        assert(all_methods().take(16) =~= all_methods());
        out
    }

    /// Get all methods that are enabled for caching
    pub fn enabled_methods(&self) -> (r: Vec<LspMethod>)
        ensures
            r@ == methods_where(self@, |p: CachePolicy| p.enabled),
    {
        let r = self.collect_methods(None);
        assert(r@ == methods_where(self@, |p: CachePolicy| p.enabled)) by {
            let k1 = |p: CachePolicy| p.enabled && (None::<CacheScope> is None || p.scope == None::<CacheScope>->0);
            let k2 = |p: CachePolicy| p.enabled;
            assert(k1 =~= k2);
        }
        r
    }

    /// Get methods by cache scope
    pub fn methods_by_scope(&self, scope: CacheScope) -> (r: Vec<LspMethod>)
        ensures
            r@ == methods_where(self@, |p: CachePolicy| p.enabled && p.scope == scope),
    {
        let r = self.collect_methods(Some(scope));
        assert(r@ == methods_where(self@, |p: CachePolicy| p.enabled && p.scope == scope)) by {
            let k1 = |p: CachePolicy| p.enabled && (Some(scope) is None || p.scope == Some(scope)->0);
            let k2 = |p: CachePolicy| p.enabled && p.scope == scope;
            assert(k1 =~= k2);
        }
        r
    }
}

impl Default for PolicyRegistry {
    fn default() -> (r: Self)
        ensures
            forall|m: LspMethod| #[trigger] r@[m] == default_policy(m),
    {
        Self::new()
    }
}

// ---------------------------------------------------------------------------
// Laws
// ---------------------------------------------------------------------------

/// Reading a method's policy after setting it gives the policy that was set; every other
/// method keeps its policy.
pub proof fn law_policy_read_after_write(
    before: Map<LspMethod, CachePolicy>,
    method: LspMethod,
    policy: CachePolicy,
    other: LspMethod,
)
    ensures
        before.insert(method, policy)[method] == policy,
        other != method ==> before.insert(method, policy)[other] == before[other],
{
}

/// A method is listed among those of a scope exactly when its policy is enabled and has
/// that scope; it is listed among the enabled methods exactly when its policy is enabled.
pub proof fn law_method_listing(
    policies: Map<LspMethod, CachePolicy>,
    m: LspMethod,
    scope: CacheScope,
)
    ensures
        methods_where(policies, |p: CachePolicy| p.enabled).contains(m) <==> policies[m].enabled,
        methods_where(policies, |p: CachePolicy| p.enabled && p.scope == scope).contains(m) <==> (
        policies[m].enabled && policies[m].scope == scope),
{
    lemma_method_index(m);
    let keep_enabled = |p: CachePolicy| p.enabled;
    let keep_scope = |p: CachePolicy| p.enabled && p.scope == scope;
    let pe = |x: LspMethod| keep_enabled(policies[x]);
    let ps = |x: LspMethod| keep_scope(policies[x]);
    let i = method_index(m);
    if policies[m].enabled {
        all_methods().lemma_filter_contains(pe, i);
    }
    if policies[m].enabled && policies[m].scope == scope {
        all_methods().lemma_filter_contains(ps, i);
    }
    if all_methods().filter(pe).contains(m) {
        let j = choose|j: int| 0 <= j < all_methods().filter(pe).len() && all_methods().filter(pe)[j] == m;
        all_methods().lemma_filter_pred(pe, j);
    }
    if all_methods().filter(ps).contains(m) {
        let j = choose|j: int| 0 <= j < all_methods().filter(ps).len() && all_methods().filter(ps)[j] == m;
        all_methods().lemma_filter_pred(ps, j);
    }
}

/// Enabling or disabling a method's caching puts it in or takes it out of the enabled
/// methods, and changes nothing else of its policy or of the others'.
pub proof fn law_set_enabled_effect(
    before: Map<LspMethod, CachePolicy>,
    method: LspMethod,
    enabled: bool,
    other: LspMethod,
)
    ensures
        ({
            let after = before.insert(method, CachePolicy { enabled, ..before[method] });
            &&& methods_where(after, |p: CachePolicy| p.enabled).contains(method) == enabled
            &&& after[method].scope == before[method].scope
            &&& after[method].priority == before[method].priority
            &&& (other != method ==> after[other] == before[other])
        }),
{
    let after = before.insert(method, CachePolicy { enabled, ..before[method] });
    law_method_listing(after, method, CacheScope::FileContent);
}

} // verus!
