//! What clearing a symbol from the cache looks at: the positions around the symbol,
//! the methods to clear, the request parameters whose keys are cleared, the key prefix
//! that matches every entry of a file and method, and the tally of what was cleared.
use vstd::prelude::*;
use crate::text::{append, chars_of, decimal, decimal_exec, eq_lit, starts_with, string_of};
use super::key::{method_key_name, storage_key, CacheKey, CacheKeyView};
use super::LspMethod;

verus! {

broadcast use vstd::string::group_string_axioms;

/// Why a symbol could not be cleared
#[derive(Debug, Clone, Copy, PartialEq, Eq, Structural)]
pub enum ClearSymbolError {
    /// No line and column were given
    PositionRequired,
}

impl ClearSymbolError {
    /// The error's message
    pub fn message(&self) -> (r: String)
        ensures
            r@ == "Symbol position is required for cache clearing. Use tree-sitter to find exact position on client side."@,
    {
        string_of(
            &chars_of(
                "Symbol position is required for cache clearing. Use tree-sitter to find exact position on client side.",
            ),
        )
    }
}

pub open spec fn sat_sub(a: u32, b: u32) -> u32 {
    if a >= b {
        (a - b) as u32
    } else {
        0
    }
}

/// The positions around a symbol: itself, one and two characters either side, the
/// start of its line and of the lines before and after it.
pub open spec fn nearby_positions(l: u32, c: u32) -> Seq<(u32, u32)> {
    seq![
        (l, c),
        (l, (c + 1) as u32),
        (l, sat_sub(c, 1)),
        (l, 0u32),
        ((l + 1) as u32, 0u32),
        (sat_sub(l, 1), 0u32),
        (l, (c + 2) as u32),
        (l, sat_sub(c, 2)),
    ]
}

/// The positions whose cache entries are cleared: the symbol's own position, or all
/// the positions around it; none without a line and a column.
pub open spec fn clear_positions(line: Option<u32>, column: Option<u32>, all_positions: bool) -> Option<
    Seq<(u32, u32)>,
> {
    match (line, column) {
        (Some(l), Some(c)) => Some(
            if all_positions {
                nearby_positions(l, c)
            } else {
                seq![(l, c)]
            },
        ),
        _ => None,
    }
}

/// The positions around the symbol are all representable.
pub open spec fn positions_fit(line: Option<u32>, column: Option<u32>, all_positions: bool) -> bool {
    all_positions ==> match (line, column) {
        (Some(l), Some(c)) => l < u32::MAX && c + 2 <= u32::MAX,
        _ => true,
    }
}

/// Build list of positions to check
pub fn positions_to_check(line: Option<u32>, column: Option<u32>, all_positions: bool) -> (r: Result<
    Vec<(u32, u32)>,
    ClearSymbolError,
>)
    requires
        positions_fit(line, column, all_positions),
    ensures
        match r {
            Ok(v) => clear_positions(line, column, all_positions) == Some(v@),
            Err(e) => clear_positions(line, column, all_positions) is None && e
                == ClearSymbolError::PositionRequired,
        },
{
    match (line, column) {
        (Some(l), Some(c)) => {
            if all_positions {
                let v = vec![
                    (l, c),
                    (l, c + 1),
                    (l, c.saturating_sub(1)),
                    (l, 0),
                    (l + 1, 0),
                    (l.saturating_sub(1), 0),
                    (l, c + 2),
                    (l, c.saturating_sub(2)),
                ];
                assert(v@ =~= nearby_positions(l, c));
                Ok(v)
            } else {
                let v = vec![(l, c)];
                assert(v@ =~= seq![(l, c)]);
                Ok(v)
            }
        },
        _ => Err(ClearSymbolError::PositionRequired),
    }
}

/// The method a name given for clearing stands for.
pub open spec fn clear_method_named(s: Seq<char>) -> Option<LspMethod> {
    if s == "CallHierarchy"@ {
        Some(LspMethod::CallHierarchy)
    } else if s == "References"@ {
        Some(LspMethod::References)
    } else if s == "Hover"@ {
        Some(LspMethod::Hover)
    } else if s == "Definition"@ {
        Some(LspMethod::Definition)
    } else if s == "DocumentSymbols"@ {
        Some(LspMethod::DocumentSymbols)
    } else if s == "WorkspaceSymbols"@ {
        Some(LspMethod::WorkspaceSymbols)
    } else if s == "Implementations"@ {
        Some(LspMethod::Implementation)
    } else if s == "TypeDefinition"@ {
        Some(LspMethod::TypeDefinition)
    } else {
        None
    }
}

/// The methods cleared when none are named.
pub open spec fn default_clear_methods() -> Seq<LspMethod> {
    seq![
        LspMethod::CallHierarchy,
        LspMethod::References,
        LspMethod::Hover,
        LspMethod::Definition,
        LspMethod::DocumentSymbols,
        LspMethod::WorkspaceSymbols,
        LspMethod::Implementation,
        LspMethod::TypeDefinition,
    ]
}

/// The methods that the given names stand for, in their order; unknown names are left out.
pub open spec fn named_methods(names: Seq<Seq<char>>) -> Seq<LspMethod>
    decreases names.len(),
{
    if names.len() == 0 {
        seq![]
    } else {
        named_methods(names.drop_last()) + match clear_method_named(names.last()) {
            Some(m) => seq![m],
            None => seq![],
        }
    }
}

fn clear_method_named_exec(s: &Vec<char>) -> (r: Option<LspMethod>)
    ensures
        r == clear_method_named(s@),
{
    if eq_lit(s, "CallHierarchy") {
        Some(LspMethod::CallHierarchy)
    } else if eq_lit(s, "References") {
        Some(LspMethod::References)
    } else if eq_lit(s, "Hover") {
        Some(LspMethod::Hover)
    } else if eq_lit(s, "Definition") {
        Some(LspMethod::Definition)
    } else if eq_lit(s, "DocumentSymbols") {
        Some(LspMethod::DocumentSymbols)
    } else if eq_lit(s, "WorkspaceSymbols") {
        Some(LspMethod::WorkspaceSymbols)
    } else if eq_lit(s, "Implementations") {
        Some(LspMethod::Implementation)
    } else if eq_lit(s, "TypeDefinition") {
        Some(LspMethod::TypeDefinition)
    } else {
        None
    }
}

/// Filter methods if specified: the methods named (unknown names left out), or the
/// default set of methods where none are named
pub fn target_methods(methods: Option<&Vec<String>>) -> (r: Vec<LspMethod>)
    ensures
        r@ == match methods {
            Some(names) => named_methods(names@.map_values(|s: String| s@)),
            None => default_clear_methods(),
        },
{
    match methods {
        Some(names) => {
            let ghost view = names@.map_values(|s: String| s@);
            let mut out: Vec<LspMethod> = Vec::new();
            let mut i: usize = 0;
            while i < names.len()
                invariant
                    i <= names@.len(),
                    view == names@.map_values(|s: String| s@),
                    out@ == named_methods(view.take(i as int)),
                decreases names.len() - i,
            {
                assert(view.take(i + 1).drop_last() =~= view.take(i as int));
                assert(view.take(i + 1).last() == names@[i as int]@);
                match clear_method_named_exec(&chars_of(names[i].as_str())) {
                    Some(m) => {
                        out.push(m);
                        assert(out@ =~= named_methods(view.take(i + 1)));
                    },
                    None => {
                        assert(out@ =~= named_methods(view.take(i + 1)));
                    },
                }
                i += 1;
            }
            assert(view.take(names@.len() as int) =~= view);
            out
        },
        None => {
            let v = vec![
                LspMethod::CallHierarchy,
                LspMethod::References,
                LspMethod::Hover,
                LspMethod::Definition,
                LspMethod::DocumentSymbols,
                LspMethod::WorkspaceSymbols,
                LspMethod::Implementation,
                LspMethod::TypeDefinition,
            ];
            assert(v@ =~= default_clear_methods());
            v
        },
    }
}

/// The request parameters whose cache key is cleared for a method at a position: no
/// position for document symbols, the declaration left out of references.
pub open spec fn clear_params(m: LspMethod, line: u32, column: u32) -> Seq<char> {
    let position = "\"position\":{\"character\":"@ + decimal(column as nat) + ",\"line\":"@
        + decimal(line as nat) + "}"@;
    match m {
        LspMethod::DocumentSymbols => "{}"@,
        LspMethod::References => "{\"context\":{\"includeDeclaration\":false},"@ + position
            + "}"@,
        _ => "{"@ + position + "}"@,
    }
}

/// The parameters for clearing a method's entry at a position
pub fn clear_params_for(method: LspMethod, line: u32, column: u32) -> (r: String)
    ensures
        r@ == clear_params(method, line, column),
{
    match method {
        LspMethod::DocumentSymbols => string_of(&chars_of("{}")),
        _ => {
            let mut out = match method {
                LspMethod::References => chars_of("{\"context\":{\"includeDeclaration\":false},"),
                _ => chars_of("{"),
            };
            append(&mut out, &chars_of("\"position\":{\"character\":"));
            append(&mut out, &decimal_exec(column as u64));
            append(&mut out, &chars_of(",\"line\":"));
            append(&mut out, &decimal_exec(line as u64));
            append(&mut out, &chars_of("}"));
            append(&mut out, &chars_of("}"));
            string_of(&out)
        },
    }
}

/// The prefix of the storage keys of every entry of a key's workspace, method and
/// file, whatever their content hash: `workspace_id:method:path:`.
pub open spec fn key_prefix(k: CacheKeyView) -> Seq<char> {
    k.workspace_id + ":"@ + method_key_name(k.method) + ":"@ + k.workspace_relative_path + ":"@
}

/// Build prefix without content hash: `workspace_id:method:file:`
pub fn symbol_key_prefix(key: &CacheKey) -> (r: String)
    ensures
        r@ == key_prefix(key@),
{
    let colon = chars_of(":");
    let mut out = chars_of(key.workspace_id.as_str());
    append(&mut out, &colon);
    append(
        &mut out,
        &crate::text::replace_exec(&chars_of(key.method.as_str()), &chars_of("/"), &chars_of("_")),
    );
    append(&mut out, &colon);
    append(&mut out, &chars_of(key.workspace_relative_path.as_str()));
    append(&mut out, &colon);
    string_of(&out)
}

/// The prefix of every storage key of a workspace: its id and `:`.
pub open spec fn workspace_prefix(workspace_id: Seq<char>) -> Seq<char> {
    workspace_id + ":"@
}

/// The prefix that matches every entry of a workspace
pub fn workspace_key_prefix(workspace_id: &str) -> (r: String)
    ensures
        r@ == workspace_prefix(workspace_id@),
{
    let mut out = chars_of(workspace_id);
    append(&mut out, &chars_of(":"));
    string_of(&out)
}

/// Clearing by a key's prefix reaches the entry stored under the key, whatever its
/// content hash and symbol; clearing by its workspace's prefix reaches it too.
pub proof fn law_prefix_matches_entry(k: CacheKeyView)
    ensures
        starts_with(storage_key(k), key_prefix(k)),
        starts_with(storage_key(k), workspace_prefix(k.workspace_id)),
{
    let p = key_prefix(k);
    let base = p + k.content_hash;
    assert(storage_key(k) =~= match k.symbol_name {
        Some(s) => base + ":"@ + s,
        None => base,
    });
    assert(storage_key(k).subrange(0, p.len() as int) =~= p);
    let w = workspace_prefix(k.workspace_id);
    assert(storage_key(k).subrange(0, w.len() as int) =~= w);
}

// ---------------------------------------------------------------------------
// The tally of a clearing
// ---------------------------------------------------------------------------

/// A method's name as `Debug` prints it.
pub open spec fn method_debug_name(m: LspMethod) -> Seq<char> {
    match m {
        LspMethod::Definition => "Definition"@,
        LspMethod::References => "References"@,
        LspMethod::Hover => "Hover"@,
        LspMethod::DocumentSymbols => "DocumentSymbols"@,
        LspMethod::WorkspaceSymbols => "WorkspaceSymbols"@,
        LspMethod::TypeDefinition => "TypeDefinition"@,
        LspMethod::Implementation => "Implementation"@,
        LspMethod::CallHierarchy => "CallHierarchy"@,
        LspMethod::SignatureHelp => "SignatureHelp"@,
        LspMethod::Completion => "Completion"@,
        LspMethod::CodeAction => "CodeAction"@,
        LspMethod::Rename => "Rename"@,
        LspMethod::FoldingRange => "FoldingRange"@,
        LspMethod::SelectionRange => "SelectionRange"@,
        LspMethod::SemanticTokens => "SemanticTokens"@,
        LspMethod::InlayHint => "InlayHint"@,
    }
}

/// A method's name as `Debug` prints it
pub fn method_debug_str(m: LspMethod) -> (r: &'static str)
    ensures
        r@ == method_debug_name(m),
{
    match m {
        LspMethod::Definition => "Definition",
        LspMethod::References => "References",
        LspMethod::Hover => "Hover",
        LspMethod::DocumentSymbols => "DocumentSymbols",
        LspMethod::WorkspaceSymbols => "WorkspaceSymbols",
        LspMethod::TypeDefinition => "TypeDefinition",
        LspMethod::Implementation => "Implementation",
        LspMethod::CallHierarchy => "CallHierarchy",
        LspMethod::SignatureHelp => "SignatureHelp",
        LspMethod::Completion => "Completion",
        LspMethod::CodeAction => "CodeAction",
        LspMethod::Rename => "Rename",
        LspMethod::FoldingRange => "FoldingRange",
        LspMethod::SelectionRange => "SelectionRange",
        LspMethod::SemanticTokens => "SemanticTokens",
        LspMethod::InlayHint => "InlayHint",
    }
}

/// What a symbol clearing has cleared so far: the entries, and each position and method
/// with entries cleared, once, in the order first cleared
pub struct SymbolClearing {
    pub entries: u64,
    pub positions: Vec<(u32, u32)>,
    pub methods: Vec<LspMethod>,
}

/// The outcome of a symbol clearing: entries cleared, positions and methods cleared
/// (methods by name), and an estimate of the bytes freed
pub struct ClearedSymbol {
    pub entries_cleared: usize,
    pub positions_cleared: Vec<(u32, u32)>,
    pub methods_cleared: Vec<String>,
    pub size_freed: u64,
}

/// A sequence with one more element, where it was not in it yet.
pub open spec fn with_once<T>(s: Seq<T>, x: T) -> Seq<T> {
    if s.contains(x) {
        s
    } else {
        s.push(x)
    }
}

impl SymbolClearing {
    /// Nothing cleared yet
    pub fn new() -> (r: Self)
        ensures
            r.entries == 0,
            r.positions@ == Seq::<(u32, u32)>::empty(),
            r.methods@ == Seq::<LspMethod>::empty(),
    {
        SymbolClearing { entries: 0, positions: Vec::new(), methods: Vec::new() }
    }

    /// Records the entries cleared by one prefix, for a position and method; a prefix
    /// that cleared nothing leaves the tally as it was
    pub fn record(&mut self, count: u64, position: (u32, u32), method: LspMethod)
        requires
            old(self).entries + count <= u64::MAX,
        ensures
            count == 0 ==> *final(self) == *old(self),
            count > 0 ==> {
                &&& final(self).entries == old(self).entries + count
                &&& final(self).positions@ == with_once(old(self).positions@, position)
                &&& final(self).methods@ == with_once(old(self).methods@, method)
            },
    {
        if count > 0 {
            self.entries = self.entries + count;
            let mut found = false;
            let mut i: usize = 0;
            while i < self.positions.len()
                invariant
                    i <= self.positions@.len(),
                    found == exists|j: int| 0 <= j < i && self.positions@[j] == position,
                decreases self.positions.len() - i,
            {
                if self.positions[i].0 == position.0 && self.positions[i].1 == position.1 {
                    found = true;
                }
                i += 1;
            }
            if !found {
                self.positions.push(position);
            }
            let mut found_method = false;
            let mut k: usize = 0;
            while k < self.methods.len()
                invariant
                    k <= self.methods@.len(),
                    found_method == exists|j: int| 0 <= j < k && self.methods@[j] == method,
                decreases self.methods.len() - k,
            {
                if self.methods[k] == method {
                    found_method = true;
                }
                k += 1;
            }
            if !found_method {
                self.methods.push(method);
            }
        }
    }

    /// The outcome: the entries cleared, the positions and method names cleared, and
    /// 1 KB freed per entry
    pub fn finish(&self) -> (r: ClearedSymbol)
        requires
            self.entries * 1024 <= u64::MAX,
        ensures
            r.entries_cleared == self.entries as usize,
            r.positions_cleared@ == self.positions@,
            r.methods_cleared@.map_values(|s: String| s@) == self.methods@.map_values(
                |m: LspMethod| method_debug_name(m),
            ),
            r.size_freed == self.entries * 1024,
    {
        let mut names: Vec<String> = Vec::new();
        let mut i: usize = 0;
        while i < self.methods.len()
            invariant
                i <= self.methods@.len(),
                names@.map_values(|s: String| s@) == self.methods@.take(i as int).map_values(
                    |m: LspMethod| method_debug_name(m),
                ),
            decreases self.methods.len() - i,
        {
            let ghost before = names@.map_values(|s: String| s@);
            let name = string_of(&chars_of(method_debug_str(self.methods[i])));
            names.push(name);
            proof {
                assert(names@.map_values(|s: String| s@) =~= before.push(name@));
                assert(self.methods@.take(i + 1) =~= self.methods@.take(i as int).push(
                    self.methods@[i as int],
                ));
                assert(names@.map_values(|s: String| s@) =~= self.methods@.take(i + 1).map_values(
                    |m: LspMethod| method_debug_name(m),
                ));
            }
            i += 1;
        }
        proof {
            assert(self.methods@.take(self.methods@.len() as int) =~= self.methods@);
        }
        let mut positions: Vec<(u32, u32)> = Vec::new();
        let mut j: usize = 0;
        while j < self.positions.len()
            invariant
                j <= self.positions@.len(),
                positions@ == self.positions@.take(j as int),
            decreases self.positions.len() - j,
        {
            positions.push(self.positions[j]);
            proof {
                assert(positions@ =~= self.positions@.take(j + 1));
            }
            j += 1;
        }
        proof {
            assert(self.positions@.take(self.positions@.len() as int) =~= self.positions@);
        }
        ClearedSymbol {
            entries_cleared: #[verifier::truncate] (self.entries as usize),
            positions_cleared: positions,
            methods_cleared: names,
            size_freed: self.entries * 1024,
        }
    }
}

// ---------------------------------------------------------------------------
// The plan of a symbol clearing and its tally
// ---------------------------------------------------------------------------

/// The lookups a symbol clearing makes: each position, and for each position each
/// method, in order.
pub open spec fn clear_plan(positions: Seq<(u32, u32)>, methods: Seq<LspMethod>) -> Seq<
    ((u32, u32), LspMethod),
>
    decreases positions.len(),
{
    if positions.len() == 0 {
        Seq::empty()
    } else {
        clear_plan(positions.drop_last(), methods) + methods.map_values(
            |m: LspMethod| (positions.last(), m),
        )
    }
}

/// One lookup of a symbol clearing: the position and method, and the request
/// parameters whose cache entries it clears.
pub struct ClearStep {
    pub position: (u32, u32),
    pub method: LspMethod,
    pub params: String,
}

pub open spec fn steps_plan(steps: Seq<ClearStep>) -> Seq<((u32, u32), LspMethod)> {
    steps.map_values(|s: ClearStep| (s.position, s.method))
}

/// The lookups of a symbol clearing, each with its request parameters
pub fn symbol_clear_plan(positions: &Vec<(u32, u32)>, methods: &Vec<LspMethod>) -> (r: Vec<
    ClearStep,
>)
    ensures
        steps_plan(r@) == clear_plan(positions@, methods@),
        forall|k: int|
            0 <= k < r@.len() ==> (#[trigger] r@[k]).params@ == clear_params(
                r@[k].method,
                r@[k].position.0,
                r@[k].position.1,
            ),
{
    let mut out: Vec<ClearStep> = Vec::new();
    let mut i: usize = 0;
    while i < positions.len()
        invariant
            i <= positions@.len(),
            steps_plan(out@) == clear_plan(positions@.take(i as int), methods@),
            forall|k: int|
                0 <= k < out@.len() ==> (#[trigger] out@[k]).params@ == clear_params(
                    out@[k].method,
                    out@[k].position.0,
                    out@[k].position.1,
                ),
        decreases positions.len() - i,
    {
        let position = positions[i];
        let ghost start = steps_plan(out@);
        let mut j: usize = 0;
        while j < methods.len()
            invariant
                j <= methods@.len(),
                i < positions@.len(),
                position == positions@[i as int],
                steps_plan(out@) == start + methods@.take(j as int).map_values(
                    |m: LspMethod| (position, m),
                ),
                forall|k: int|
                    0 <= k < out@.len() ==> (#[trigger] out@[k]).params@ == clear_params(
                        out@[k].method,
                        out@[k].position.0,
                        out@[k].position.1,
                    ),
            decreases methods.len() - j,
        {
            let m = methods[j];
            let params = clear_params_for(m, position.0, position.1);
            let ghost before = out@;
            out.push(ClearStep { position, method: m, params });
            proof {
                assert(steps_plan(out@) =~= steps_plan(before).push((position, m)));
                assert(methods@.take(j + 1).map_values(|m: LspMethod| (position, m))
                    =~= methods@.take(j as int).map_values(|m: LspMethod| (position, m)).push(
                    (position, m),
                ));
            }
            j += 1;
        }
        proof {
            assert(methods@.take(j as int) =~= methods@);
            let ps = positions@.take(i + 1);
            assert(ps.drop_last() =~= positions@.take(i as int));
            assert(ps.last() == position);
        }
        i += 1;
    }
    proof {
        assert(positions@.take(i as int) =~= positions@);
    }
    out
}

/// The entries a clearing counts over its lookups.
pub open spec fn counts_total(counts: Seq<u64>) -> nat
    decreases counts.len(),
{
    if counts.len() == 0 {
        0
    } else {
        counts_total(counts.drop_last()) + counts.last() as nat
    }
}

/// The positions a clearing reports: each position of a lookup that cleared something,
/// once, in the order first cleared.
pub open spec fn tally_positions(plan: Seq<((u32, u32), LspMethod)>, counts: Seq<u64>) -> Seq<
    (u32, u32),
>
    decreases plan.len(),
{
    if plan.len() == 0 || counts.len() == 0 {
        Seq::empty()
    } else {
        let before = tally_positions(plan.drop_last(), counts.drop_last());
        if counts.last() > 0 {
            with_once(before, plan.last().0)
        } else {
            before
        }
    }
}

/// The methods a clearing reports: each method of a lookup that cleared something,
/// once, in the order first cleared.
pub open spec fn tally_methods(plan: Seq<((u32, u32), LspMethod)>, counts: Seq<u64>) -> Seq<
    LspMethod,
>
    decreases plan.len(),
{
    if plan.len() == 0 || counts.len() == 0 {
        Seq::empty()
    } else {
        let before = tally_methods(plan.drop_last(), counts.drop_last());
        if counts.last() > 0 {
            with_once(before, plan.last().1)
        } else {
            before
        }
    }
}

/// Tally a symbol clearing: `counts[k]` entries were cleared by the lookup `steps[k]`
pub fn tally_clearing(steps: &Vec<ClearStep>, counts: &Vec<u64>) -> (r: SymbolClearing)
    requires
        counts@.len() == steps@.len(),
        counts_total(counts@) <= u64::MAX,
    ensures
        r.entries == counts_total(counts@),
        r.positions@ == tally_positions(steps_plan(steps@), counts@),
        r.methods@ == tally_methods(steps_plan(steps@), counts@),
{
    let mut tally = SymbolClearing::new();
    let mut k: usize = 0;
    while k < steps.len()
        invariant
            k <= steps@.len(),
            counts@.len() == steps@.len(),
            counts_total(counts@) <= u64::MAX,
            tally.entries == counts_total(counts@.take(k as int)),
            tally.positions@ == tally_positions(steps_plan(steps@).take(k as int), counts@.take(k as int)),
            tally.methods@ == tally_methods(steps_plan(steps@).take(k as int), counts@.take(k as int)),
        decreases steps.len() - k,
    {
        proof {
            lemma_counts_total_prefix(counts@, k as int + 1);
            assert(counts@.take(k + 1).drop_last() =~= counts@.take(k as int));
            assert(steps_plan(steps@).take(k + 1).drop_last() =~= steps_plan(steps@).take(k as int));
        }
        tally.record(counts[k], steps[k].position, steps[k].method);
        k += 1;
    }
    proof {
        assert(counts@.take(k as int) =~= counts@);
        assert(steps_plan(steps@).take(k as int) =~= steps_plan(steps@));
    }
    tally
}

proof fn lemma_counts_total_prefix(counts: Seq<u64>, n: int)
    requires
        0 <= n <= counts.len(),
    ensures
        counts_total(counts.take(n)) <= counts_total(counts),
    decreases counts.len(),
{
    if n < counts.len() {
        assert(counts.drop_last().take(n) =~= counts.take(n));
        lemma_counts_total_prefix(counts.drop_last(), n);
    } else {
        assert(counts.take(n) =~= counts);
    }
}

proof fn lemma_with_once_contains<T>(s: Seq<T>, x: T, y: T)
    ensures
        with_once(s, x).contains(y) <==> s.contains(y) || y == x,
{
    if !s.contains(x) {
        let w = s.push(x);
        assert(w[s.len() as int] == x);
        if w.contains(y) {
            let j = choose|j: int| 0 <= j < w.len() && w[j] == y;
            if j < s.len() {
                assert(s[j] == w[j]);
            }
        }
        if s.contains(y) {
            let j = choose|j: int| 0 <= j < s.len() && s[j] == y;
            assert(w[j] == s[j]);
        }
    }
}

/// A clearing reports only what it looked up and found: every position and method it
/// reports belongs to a lookup of the plan that cleared at least one entry, and every
/// lookup that cleared an entry has its position and method reported.
pub proof fn law_cleared_were_checked(plan: Seq<((u32, u32), LspMethod)>, counts: Seq<u64>)
    requires
        counts.len() == plan.len(),
    ensures
        forall|p: (u32, u32)|
            #[trigger] tally_positions(plan, counts).contains(p) <==> exists|k: int|
                0 <= k < plan.len() && plan[k].0 == p && counts[k] > 0,
        forall|m: LspMethod|
            #[trigger] tally_methods(plan, counts).contains(m) <==> exists|k: int|
                0 <= k < plan.len() && plan[k].1 == m && counts[k] > 0,
    decreases plan.len(),
{
    if plan.len() > 0 {
        let dp = plan.drop_last();
        let dc = counts.drop_last();
        law_cleared_were_checked(dp, dc);
        let n = plan.len() - 1;
        assert forall|p: (u32, u32)|
            #[trigger] tally_positions(plan, counts).contains(p) <==> exists|k: int|
                0 <= k < plan.len() && plan[k].0 == p && counts[k] > 0 by {
            lemma_with_once_contains(tally_positions(dp, dc), plan[n].0, p);
            if exists|k: int| 0 <= k < plan.len() && plan[k].0 == p && counts[k] > 0 {
                let k = choose|k: int| 0 <= k < plan.len() && plan[k].0 == p && counts[k] > 0;
                if k < n {
                    assert(dp[k] == plan[k] && dc[k] == counts[k]);
                    assert(tally_positions(dp, dc).contains(p));
                }
            }
            if tally_positions(dp, dc).contains(p) {
                let k = choose|k: int| 0 <= k < dp.len() && dp[k].0 == p && dc[k] > 0;
                assert(plan[k] == dp[k] && counts[k] == dc[k]);
            }
        }
        assert forall|m: LspMethod|
            #[trigger] tally_methods(plan, counts).contains(m) <==> exists|k: int|
                0 <= k < plan.len() && plan[k].1 == m && counts[k] > 0 by {
            lemma_with_once_contains(tally_methods(dp, dc), plan[n].1, m);
            if exists|k: int| 0 <= k < plan.len() && plan[k].1 == m && counts[k] > 0 {
                let k = choose|k: int| 0 <= k < plan.len() && plan[k].1 == m && counts[k] > 0;
                if k < n {
                    assert(dp[k] == plan[k] && dc[k] == counts[k]);
                    assert(tally_methods(dp, dc).contains(m));
                }
            }
            if tally_methods(dp, dc).contains(m) {
                let k = choose|k: int| 0 <= k < dp.len() && dp[k].1 == m && dc[k] > 0;
                assert(plan[k] == dp[k] && counts[k] == dc[k]);
            }
        }
    }
}

/// The name a symbol clearing takes for a method: the name `Debug` prints for it, but
/// `Implementations` for the implementation method.
pub open spec fn clear_name(m: LspMethod) -> Seq<char> {
    if m == LspMethod::Implementation {
        "Implementations"@
    } else {
        method_debug_name(m)
    }
}

/// The names a symbol clearing takes: each method it clears by default is named by its
/// clearing name, and only by it; names of other methods, and any other text, name
/// nothing. So naming a method clears exactly that method.
pub proof fn law_clear_method_names(s: Seq<char>, m: LspMethod)
    ensures
        default_clear_methods().contains(m) ==> clear_method_named(clear_name(m)) == Some(m),
        default_clear_methods().contains(m) ==> named_methods(seq![clear_name(m)]) == seq![m],
        clear_method_named(s) == Some(m) ==> s == clear_name(m) && default_clear_methods().contains(
            m,
        ),
{
    reveal_strlit("CallHierarchy");
    reveal_strlit("References");
    reveal_strlit("Hover");
    reveal_strlit("Definition");
    reveal_strlit("DocumentSymbols");
    reveal_strlit("WorkspaceSymbols");
    reveal_strlit("Implementations");
    reveal_strlit("TypeDefinition");
    reveal_strlit("Implementation");
    reveal_strlit("SignatureHelp");
    reveal_strlit("Completion");
    reveal_strlit("CodeAction");
    reveal_strlit("Rename");
    reveal_strlit("FoldingRange");
    reveal_strlit("SelectionRange");
    reveal_strlit("SemanticTokens");
    reveal_strlit("InlayHint");
    assert("References"@[0] != "Definition"@[0]);
    assert("References"@ != "Definition"@);
    assert("DocumentSymbols"@[0] != "Implementations"@[0]);
    assert("DocumentSymbols"@ != "Implementations"@);
    assert("CallHierarchy"@.len() == 13 && "References"@.len() == 10 && "Hover"@.len() == 5);
    assert("Definition"@.len() == 10 && "DocumentSymbols"@.len() == 15);
    assert("WorkspaceSymbols"@.len() == 16 && "Implementations"@.len() == 15);
    assert("TypeDefinition"@.len() == 14);
    if default_clear_methods().contains(m) {
        let k = choose|k: int| 0 <= k < 8 && default_clear_methods()[k] == m;
        assert(seq![clear_name(m)].drop_last() =~= Seq::<Seq<char>>::empty());
        assert(named_methods(Seq::<Seq<char>>::empty()) =~= Seq::<LspMethod>::empty());
    }
    if clear_method_named(s) == Some(m) {
        assert(default_clear_methods()[0] == LspMethod::CallHierarchy);
        assert(default_clear_methods()[1] == LspMethod::References);
        assert(default_clear_methods()[2] == LspMethod::Hover);
        assert(default_clear_methods()[3] == LspMethod::Definition);
        assert(default_clear_methods()[4] == LspMethod::DocumentSymbols);
        assert(default_clear_methods()[5] == LspMethod::WorkspaceSymbols);
        assert(default_clear_methods()[6] == LspMethod::Implementation);
        assert(default_clear_methods()[7] == LspMethod::TypeDefinition);
    }
}

} // verus!
