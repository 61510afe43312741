//! The cache layer's configuration and its decision whether a request goes through
//! the cache at all.
use vstd::prelude::*;
use core::time::Duration;
use crate::external::duration_from_secs;
use super::policy::PolicyRegistry;
use super::LspMethod;
use crate::text::{append, chars_of, decimal, decimal_exec, string_of, trim, trim_exec};

verus! {

/// Cache layer middleware configuration
#[derive(Debug, Clone, Copy)]
pub struct CacheLayerConfig {
    /// Whether cache warming is enabled
    pub cache_warming_enabled: bool,
    /// Maximum number of concurrent cache warming operations
    pub cache_warming_concurrency: usize,
    /// Timeout for singleflight operations
    pub singleflight_timeout: Duration,
    /// Whether to track detailed timing metrics
    pub detailed_metrics: bool,
    /// Maximum age of workspace revision cache
    pub workspace_revision_ttl: Duration,
}

impl Default for CacheLayerConfig {
    fn default() -> (r: Self)
        ensures
            !r.cache_warming_enabled,
            r.cache_warming_concurrency == 4,
            r.singleflight_timeout == duration_from_secs(30),
            r.detailed_metrics,
            r.workspace_revision_ttl == duration_from_secs(60),
    {
        Self {
            cache_warming_enabled: false,
            cache_warming_concurrency: 4,
            singleflight_timeout: Duration::from_secs(30),
            detailed_metrics: true,
            workspace_revision_ttl: Duration::from_secs(60),
        }
    }
}

/// The method a request goes through the cache with: its method, where it has one that
/// can be cached and whose policy enables caching; otherwise the request passes
/// straight through to the language server.
pub open spec fn cached_method(
    policies: Map<LspMethod, super::policy::CachePolicy>,
    method: Option<LspMethod>,
) -> Option<LspMethod> {
    match method {
        Some(m) => if policies[m].enabled {
            Some(m)
        } else {
            None
        },
        None => None,
    }
}

/// Decide whether a request with this method (`None` for a request that no method
/// can cache) goes through the cache
pub fn cacheable_method(policies: &PolicyRegistry, method: Option<LspMethod>) -> (r: Option<
    LspMethod,
>)
    ensures
        r == cached_method(policies@, method),
{
    match method {
        Some(m) => if policies.get_policy(m).enabled {
            Some(m)
        } else {
            None
        },
        None => None,
    }
}

/// The methods whose entries cache warming looks for, most often used first.
pub open spec fn warm_methods() -> Seq<LspMethod> {
    seq![LspMethod::Hover, LspMethod::Definition, LspMethod::DocumentSymbols, LspMethod::References]
}

/// The parameters cache warming looks up a method's entry with.
pub open spec fn warming_params(m: LspMethod) -> Seq<char> {
    match m {
        LspMethod::Hover => "{\"position\": {\"line\": 0, \"character\": 0}}"@,
        LspMethod::Definition => "{\"position\": {\"line\": 0, \"character\": 0}}"@,
        LspMethod::References => "{\"position\": {\"line\": 0, \"character\": 0}, \"context\": {\"includeDeclaration\": true}}"@,
        _ => "{}"@,
    }
}

/// The parameters cache warming uses for a method
pub fn warming_params_for(method: LspMethod) -> (r: &'static str)
    ensures
        r@ == warming_params(method),
{
    match method {
        LspMethod::Hover => "{\"position\": {\"line\": 0, \"character\": 0}}",
        LspMethod::Definition => "{\"position\": {\"line\": 0, \"character\": 0}}",
        LspMethod::References => "{\"position\": {\"line\": 0, \"character\": 0}, \"context\": {\"includeDeclaration\": true}}",
        _ => "{}",
    }
}

/// One lookup of cache warming: a file, a method and its parameters.
pub struct WarmLookup {
    pub file: String,
    pub method: LspMethod,
    pub params: String,
}

/// The lookups cache warming makes: for each file in order, each warmed method in order;
/// none while warming is disabled.
pub open spec fn warm_lookup_is(l: WarmLookup, files: Seq<String>, i: int) -> bool {
    &&& l.file@ == files[i / 4]@
    &&& l.method == warm_methods()[i % 4]
    &&& l.params@ == warming_params(warm_methods()[i % 4])
}

/// Plan cache warming for files
pub fn warm_cache_plan(config: &CacheLayerConfig, files: &Vec<String>) -> (r: Vec<WarmLookup>)
    requires
        files@.len() * 4 <= usize::MAX,
    ensures
        !config.cache_warming_enabled ==> r@.len() == 0,
        config.cache_warming_enabled ==> r@.len() == files@.len() * 4 && forall|i: int|
            0 <= i < r@.len() ==> warm_lookup_is(#[trigger] r@[i], files@, i),
{
    let mut out: Vec<WarmLookup> = Vec::new();
    if !config.cache_warming_enabled {
        return out;
    }
    let methods = vec![
        LspMethod::Hover,
        LspMethod::Definition,
        LspMethod::DocumentSymbols,
        LspMethod::References,
    ];
    assert(methods@ =~= warm_methods());
    let mut f: usize = 0;
    while f < files.len()
        invariant
            f <= files@.len(),
            files@.len() * 4 <= usize::MAX,
            methods@ == warm_methods(),
            out@.len() == f * 4,
            forall|i: int| 0 <= i < out@.len() ==> warm_lookup_is(#[trigger] out@[i], files@, i),
        decreases files.len() - f,
    {
        let mut k: usize = 0;
        while k < 4
            invariant
                k <= 4,
                f < files@.len(),
                files@.len() * 4 <= usize::MAX,
                methods@ == warm_methods(),
                out@.len() == f * 4 + k,
                forall|i: int| 0 <= i < out@.len() ==> warm_lookup_is(#[trigger] out@[i], files@, i),
            decreases 4 - k,
        {
            let m = methods[k];
            let lookup = WarmLookup {
                file: string_of(&chars_of(files[f].as_str())),
                method: m,
                params: string_of(&chars_of(warming_params_for(m))),
            };
            let ghost idx = (f * 4 + k) as int;
            assert(idx / 4 == f as int && idx % 4 == k as int) by (nonlinear_arith)
                requires
                    idx == f * 4 + k,
                    0 <= k < 4,
                    0 <= f,
            ;
            out.push(lookup);
            k += 1;
        }
        f += 1;
    }
    out
}

/// The revision of a workspace: the git head's hash, trimmed, where `git rev-parse HEAD`
/// succeeded; else the workspace directory's modification time in seconds; else
/// `unknown`.
pub open spec fn workspace_revision(git_head: Option<Seq<char>>, mtime_secs: Option<u64>) -> Seq<char> {
    match git_head {
        Some(out) => trim(out),
        None => match mtime_secs {
            Some(t) => decimal(t as nat),
            None => "unknown"@,
        },
    }
}

/// Get current revision identifier for a workspace, from the output of
/// `git rev-parse HEAD` where it succeeded, or else the directory's modification time
pub fn current_revision(git_head: Option<String>, mtime_secs: Option<u64>) -> (r: String)
    ensures
        r@ == workspace_revision(
            match git_head {
                Some(g) => Some(g@),
                None => None,
            },
            mtime_secs,
        ),
{
    match git_head {
        Some(out) => string_of(&trim_exec(&chars_of(out.as_str()))),
        None => match mtime_secs {
            Some(t) => string_of(&decimal_exec(t)),
            None => string_of(&chars_of("unknown")),
        },
    }
}

/// The URI of a file, for asking the document provider about it
pub fn file_uri(file_path: &str) -> (r: String)
    ensures
        r@ == "file://"@ + file_path@,
{
    let mut out = chars_of("file://");
    append(&mut out, &chars_of(file_path));
    string_of(&out)
}

// ---------------------------------------------------------------------------
// Handling one request: memory and disk cache, then the language server
// ---------------------------------------------------------------------------

/// Where the handling of one request stands.
#[derive(Debug, Clone, Copy, PartialEq, Eq, Structural)]
pub enum LayerState {
    /// No request yet
    Idle,
    /// Asked whether the request's file has unsaved changes
    CheckingUnsaved { method: LspMethod },
    /// Asked for the request's content-addressed cache key
    BuildingKey { method: LspMethod },
    /// Asked the cache for the entry under the key
    LookingUp { method: LspMethod },
    /// Called the language server; its answer is stored under the method where `store_as`
    /// names one
    AwaitingUpstream { store_as: Option<LspMethod> },
    /// Asked the cache to store the language server's answer
    Storing,
    /// The request is answered
    Done,
}

/// What the outside world reports to the layer.
#[derive(Debug, Clone, Copy, PartialEq, Eq, Structural)]
pub enum LayerEvent {
    /// A request arrives: its LSP method where it has one that can be cached, and whether
    /// its file path and parameters could be read from it
    Request { method: Option<LspMethod>, params_ok: bool },
    /// Whether the file has unsaved changes (a failed check counts as none)
    UnsavedChecked { unsaved: bool },
    /// Whether the cache key could be built
    KeyBuilt { ok: bool },
    /// Whether the cache gave an entry that reads back as a response (a miss, a lookup
    /// error and an entry that does not read back all count as no hit)
    CacheLooked { usable_hit: bool },
    /// The language server answered; whether the answer may be cached (it is no error
    /// and serializes)
    UpstreamAnswered { cacheable: bool },
    /// The cache has stored the answer (or failed to; either way the answer goes out)
    Stored,
}

/// What the layer asks the outside world to do next.
#[derive(Debug, Clone, Copy, PartialEq, Eq, Structural)]
pub enum LayerAction {
    /// Send the request to the language server
    CallUpstream,
    /// Check the request's file for unsaved changes
    CheckUnsaved,
    /// Build the request's cache key for the method
    BuildKey { method: LspMethod },
    /// Look the request up in the cache
    LookUp { method: LspMethod },
    /// Answer with the cached response
    ReturnCached,
    /// Store the language server's answer in the cache under the method
    Store { method: LspMethod },
    /// Answer with the language server's response
    ReturnUpstream,
    /// The event does not fit where the handling stands; nothing to do
    Ignore,
}

/// The next state and action of the layer after an event.
///
/// A request that cannot be cached, whose method's caching is disabled, whose
/// parameters cannot be read, whose file has unsaved changes or whose key cannot be built
/// goes straight to the language server, and its answer is not stored. Otherwise the
/// cache is asked: a usable hit is the answer; anything else goes to the language server,
/// whose answer is stored where it may be cached and then returned.
pub open spec fn layer_next(
    p: Map<LspMethod, super::policy::CachePolicy>,
    s: LayerState,
    e: LayerEvent,
) -> (LayerState, LayerAction) {
    match (s, e) {
        (LayerState::Idle, LayerEvent::Request { method, params_ok }) => match cached_method(
            p,
            method,
        ) {
            Some(m) => if params_ok {
                (LayerState::CheckingUnsaved { method: m }, LayerAction::CheckUnsaved)
            } else {
                (LayerState::AwaitingUpstream { store_as: None }, LayerAction::CallUpstream)
            },
            None => (LayerState::AwaitingUpstream { store_as: None }, LayerAction::CallUpstream),
        },
        (LayerState::CheckingUnsaved { method }, LayerEvent::UnsavedChecked { unsaved }) => if unsaved {
            (LayerState::AwaitingUpstream { store_as: None }, LayerAction::CallUpstream)
        } else {
            (LayerState::BuildingKey { method }, LayerAction::BuildKey { method })
        },
        (LayerState::BuildingKey { method }, LayerEvent::KeyBuilt { ok }) => if ok {
            (LayerState::LookingUp { method }, LayerAction::LookUp { method })
        } else {
            (LayerState::AwaitingUpstream { store_as: None }, LayerAction::CallUpstream)
        },
        (LayerState::LookingUp { method }, LayerEvent::CacheLooked { usable_hit }) => if usable_hit {
            (LayerState::Done, LayerAction::ReturnCached)
        } else {
            (LayerState::AwaitingUpstream { store_as: Some(method) }, LayerAction::CallUpstream)
        },
        (LayerState::AwaitingUpstream { store_as }, LayerEvent::UpstreamAnswered { cacheable }) => {
            match store_as {
                Some(m) => if cacheable {
                    (LayerState::Storing, LayerAction::Store { method: m })
                } else {
                    (LayerState::Done, LayerAction::ReturnUpstream)
                },
                None => (LayerState::Done, LayerAction::ReturnUpstream),
            }
        },
        (LayerState::Storing, LayerEvent::Stored) => (LayerState::Done, LayerAction::ReturnUpstream),
        _ => (s, LayerAction::Ignore),
    }
}

/// The layer's next state and action after an event, under the given method policies
pub fn layer_step(policies: &PolicyRegistry, s: LayerState, e: LayerEvent) -> (r: (
    LayerState,
    LayerAction,
))
    ensures
        r == layer_next(policies@, s, e),
{
    match (s, e) {
        (LayerState::Idle, LayerEvent::Request { method, params_ok }) => match cacheable_method(
            policies,
            method,
        ) {
            Some(m) => if params_ok {
                (LayerState::CheckingUnsaved { method: m }, LayerAction::CheckUnsaved)
            } else {
                (LayerState::AwaitingUpstream { store_as: None }, LayerAction::CallUpstream)
            },
            None => (LayerState::AwaitingUpstream { store_as: None }, LayerAction::CallUpstream),
        },
        (LayerState::CheckingUnsaved { method }, LayerEvent::UnsavedChecked { unsaved }) => if unsaved {
            (LayerState::AwaitingUpstream { store_as: None }, LayerAction::CallUpstream)
        } else {
            (LayerState::BuildingKey { method }, LayerAction::BuildKey { method })
        },
        (LayerState::BuildingKey { method }, LayerEvent::KeyBuilt { ok }) => if ok {
            (LayerState::LookingUp { method }, LayerAction::LookUp { method })
        } else {
            (LayerState::AwaitingUpstream { store_as: None }, LayerAction::CallUpstream)
        },
        (LayerState::LookingUp { method }, LayerEvent::CacheLooked { usable_hit }) => if usable_hit {
            (LayerState::Done, LayerAction::ReturnCached)
        } else {
            (LayerState::AwaitingUpstream { store_as: Some(method) }, LayerAction::CallUpstream)
        },
        (LayerState::AwaitingUpstream { store_as }, LayerEvent::UpstreamAnswered { cacheable }) => {
            match store_as {
                Some(m) => if cacheable {
                    (LayerState::Storing, LayerAction::Store { method: m })
                } else {
                    (LayerState::Done, LayerAction::ReturnUpstream)
                },
                None => (LayerState::Done, LayerAction::ReturnUpstream),
            }
        },
        (LayerState::Storing, LayerEvent::Stored) => (LayerState::Done, LayerAction::ReturnUpstream),
        _ => (s, LayerAction::Ignore),
    }
}

/// The states and actions of a run of the layer: the state after all the events, and
/// the actions in order.
pub open spec fn layer_run(
    p: Map<LspMethod, super::policy::CachePolicy>,
    s: LayerState,
    events: Seq<LayerEvent>,
) -> (LayerState, Seq<LayerAction>)
    decreases events.len(),
{
    if events.len() == 0 {
        (s, Seq::empty())
    } else {
        let (s1, a) = layer_next(p, s, events[0]);
        let (s2, rest) = layer_run(p, s1, events.drop_first());
        (s2, seq![a] + rest)
    }
}

/// How many of the actions answer the request from the language server or the cache:
/// calls of the language server and answers from the cache.
pub open spec fn answer_sources(actions: Seq<LayerAction>) -> nat
    decreases actions.len(),
{
    if actions.len() == 0 {
        0
    } else {
        let here: nat = if actions[0] is CallUpstream || actions[0] is ReturnCached {
            1
        } else {
            0
        };
        here + answer_sources(actions.drop_first())
    }
}

/// Whether a request can still be sent to the language server or answered from the
/// cache from this state.
pub open spec fn source_left(s: LayerState) -> nat {
    match s {
        LayerState::Idle => 1,
        LayerState::CheckingUnsaved { .. } => 1,
        LayerState::BuildingKey { .. } => 1,
        LayerState::LookingUp { .. } => 1,
        _ => 0,
    }
}

proof fn lemma_answer_sources_bounded(
    p: Map<LspMethod, super::policy::CachePolicy>,
    s: LayerState,
    events: Seq<LayerEvent>,
)
    ensures
        answer_sources(layer_run(p, s, events).1) <= source_left(s),
    decreases events.len(),
{
    if events.len() > 0 {
        let (s1, a) = layer_next(p, s, events[0]);
        lemma_answer_sources_bounded(p, s1, events.drop_first());
        let acts = layer_run(p, s, events).1;
        assert(acts =~= seq![a] + layer_run(p, s1, events.drop_first()).1);
        assert(acts.drop_first() =~= layer_run(p, s1, events.drop_first()).1);
    }
}

/// Each request is answered from one source at most: over any run from the start, the
/// language server is called at most once, and never for a request answered from the
/// cache.
pub proof fn law_one_answer_source(
    p: Map<LspMethod, super::policy::CachePolicy>,
    events: Seq<LayerEvent>,
)
    ensures
        answer_sources(layer_run(p, LayerState::Idle, events).1) <= 1,
{
    lemma_answer_sources_bounded(p, LayerState::Idle, events);
}

/// A cache hit is never sent to the language server: after the cache answers, the
/// request is done and no event leads to a call.
pub proof fn law_hit_not_sent_upstream(
    p: Map<LspMethod, super::policy::CachePolicy>,
    s: LayerState,
    e: LayerEvent,
    events: Seq<LayerEvent>,
)
    requires
        layer_next(p, s, e).1 == LayerAction::ReturnCached,
    ensures
        layer_next(p, s, e).0 == LayerState::Done,
        answer_sources(layer_run(p, LayerState::Done, events).1) == 0,
{
    lemma_answer_sources_bounded(p, LayerState::Done, events);
}

/// A store only follows a miss with a cacheable answer: the layer stores under a method
/// only when the language server's answer may be cached and it is waiting on a call
/// after which it may store; and it makes such a call only when the cache had no usable
/// entry for that method.
pub proof fn law_store_only_after_miss(
    p: Map<LspMethod, super::policy::CachePolicy>,
    s: LayerState,
    e: LayerEvent,
    m: LspMethod,
    s0: LayerState,
    e0: LayerEvent,
)
    ensures
        layer_next(p, s, e).1 == (LayerAction::Store { method: m }) ==> s == (
        LayerState::AwaitingUpstream { store_as: Some(m) }) && e == (LayerEvent::UpstreamAnswered {
            cacheable: true,
        }),
        layer_next(p, s0, e0) == (LayerState::AwaitingUpstream { store_as: Some(m) }, LayerAction::CallUpstream) ==> s0 == (
        LayerState::LookingUp { method: m }) && e0 == (LayerEvent::CacheLooked {
            usable_hit: false,
        }),
{
}

/// A request goes through the cache only where its method can be cached, its policy
/// enables caching and its parameters can be read; otherwise it is sent straight to the
/// language server and its answer is never stored.
pub proof fn law_uncacheable_passes_through(
    p: Map<LspMethod, super::policy::CachePolicy>,
    method: Option<LspMethod>,
    params_ok: bool,
)
    ensures
        (cached_method(p, method) is None || !params_ok) ==> layer_next(
            p,
            LayerState::Idle,
            LayerEvent::Request { method, params_ok },
        ) == (LayerState::AwaitingUpstream { store_as: None }, LayerAction::CallUpstream),
{
}

} // verus!
