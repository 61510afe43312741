//! Core UID Generation Engine
//!
//! `SymbolUIDGenerator` creates stable, unique identifiers for symbols across
//! programming languages, following a hierarchy based on what is known of a symbol:
//! its USR, whether it is anonymous, local, a method, or a global symbol.
use vstd::prelude::*;
use crate::text::{text_lower, all_ascii, ascii_lower};
use crate::text::{
    append, is_ws, is_whitespace, chars_eq, chars_of, contains, decimal, lemma_find, matches_at, has_char, lemma_join_cons, decimal_exec, eq_lit, find, find_exec, join,
    join_exec, seqs_view, slice, split, split_exec, starts_with, string_of, trim, trim_exec,
    contains_exec, has_prefix,
};
use crate::external::{blake3_hex, blake3_hex_of, sha256_hex, sha256_hex_of, to_lowercase};
use crate::symbol::{
    strings_to_chars, strings_view, symbol_is_anonymous, text_result, SymbolContext, SymbolInfo,
    SymbolKind, UIDError, UIDErrorView, UIDResult,
};
use crate::symbol::language_support::{
    c_rules, cpp_rules, go_rules, java_rules, javascript_rules, python_rules, rust_rules,
    typescript_rules, pairs_view, LanguageRules, LanguageRulesView,
};
use crate::symbol::normalization::{
    normalized_name, normalized_signature_result, qualified_name_parts, Normalizer, fqn_parts,
    lemma_normalized_names_len,
};

verus! {

broadcast use vstd::string::group_string_axioms;

// ---------------------------------------------------------------------------
// Model
// ---------------------------------------------------------------------------

/// The language that a file extension (any case) stands for, if it is known.
pub open spec fn extension_language(extension: Seq<char>) -> Option<Seq<char>> {
    let e = text_lower(extension);
    if e == "rs"@ {
        Some("rust"@)
    } else if e == "js"@ || e == "jsx"@ {
        Some("javascript"@)
    } else if e == "ts"@ || e == "tsx"@ {
        Some("typescript"@)
    } else if e == "py"@ {
        Some("python"@)
    } else if e == "go"@ {
        Some("go"@)
    } else if e == "c"@ || e == "h"@ {
        Some("c"@)
    } else if e == "cpp"@ || e == "cc"@ || e == "cxx"@ || e == "hpp"@ || e == "hxx"@ {
        Some("cpp"@)
    } else if e == "java"@ {
        Some("java"@)
    } else if e == "rb"@ {
        Some("ruby"@)
    } else if e == "php"@ {
        Some("php"@)
    } else if e == "swift"@ {
        Some("swift"@)
    } else if e == "cs"@ {
        Some("csharp"@)
    } else {
        None
    }
}

pub open spec fn opt_str_view(o: Option<&str>) -> Option<Seq<char>> {
    match o {
        Some(s) => Some(s@),
        None => None,
    }
}

/// The key under which the rules of a language (a name or a file extension) are kept.
pub open spec fn rules_key(language: Seq<char>) -> Seq<char> {
    match extension_language(language) {
        Some(name) => text_lower(name),
        None => text_lower(language),
    }
}

/// The rule sets a generator holds, by key.
pub open spec fn generator_rules_table() -> Seq<(Seq<char>, LanguageRulesView)> {
    seq![
        ("rust"@, rust_rules()),
        ("typescript"@, typescript_rules()),
        ("javascript"@, javascript_rules()),
        ("python"@, python_rules()),
        ("go"@, go_rules()),
        ("java"@, java_rules()),
        ("c"@, c_rules()),
        ("cpp"@, cpp_rules()),
        ("c++"@, cpp_rules()),
    ]
}

/// The rules of the first entry with the given key.
pub open spec fn lookup_rules(t: Seq<(Seq<char>, LanguageRulesView)>, key: Seq<char>) -> Option<
    LanguageRulesView,
>
    decreases t.len(),
{
    if t.len() == 0 {
        None
    } else if t[0].0 == key {
        Some(t[0].1)
    } else {
        lookup_rules(t.drop_first(), key)
    }
}

/// The rules used for a symbol's language, if the language is supported.
pub open spec fn rules_for_language(language: Seq<char>) -> Option<LanguageRulesView> {
    lookup_rules(generator_rules_table(), rules_key(language))
}

pub open spec fn rules_table_view(v: Seq<(String, LanguageRules)>) -> Seq<
    (Seq<char>, LanguageRulesView),
> {
    v.map_values(|p: (String, LanguageRules)| (p.0@, p.1@))
}

/// The hex digest of a text under an algorithm.
pub open spec fn hash_text(alg: HashAlgorithm, text: Seq<char>) -> Seq<char> {
    match alg {
        HashAlgorithm::Blake3 => blake3_hex_of(text),
        HashAlgorithm::Sha256 => sha256_hex_of(text),
    }
}

/// `file:line:char:scope`, what the UID of an anonymous symbol hashes.
pub open spec fn anonymous_position_key(
    s: SymbolInfo,
    ctx: SymbolContext,
    rules: LanguageRulesView,
) -> Seq<char> {
    s.location.file_path@ + ":"@ + decimal(s.location.start_line as nat) + ":"@ + decimal(
        s.location.start_char as nat,
    ) + ":"@ + join(strings_view(ctx.scope_stack@), rules.scope_separator)
}

/// `lang::<anonymous prefix>::<hash of the position key>`
pub open spec fn anonymous_uid(
    alg: HashAlgorithm,
    s: SymbolInfo,
    ctx: SymbolContext,
    rules: LanguageRulesView,
) -> Seq<char> {
    s.language@ + "::"@ + rules.anonymous_prefix + "::"@ + hash_text(
        alg,
        anonymous_position_key(s, ctx, rules),
    )
}

/// The scope of a local symbol: the context's scopes, else its parent scope, if any.
pub open spec fn local_scope(s: SymbolInfo, ctx: SymbolContext) -> Seq<Seq<char>> {
    if ctx.scope_stack@.len() > 0 {
        strings_view(ctx.scope_stack@)
    } else {
        match s.parent_scope {
            Some(p) => seq![p@],
            None => Seq::empty(),
        }
    }
}

/// `lang::scope::name#<first 8 hex digits of the hash of line:char>`
pub open spec fn local_uid(alg: HashAlgorithm, s: SymbolInfo, ctx: SymbolContext) -> Result<
    Seq<char>,
    UIDErrorView,
> {
    match normalized_name(s.name@, s.language@) {
        Err(e) => Err(e),
        Ok(n) => Ok(
            join(seq![s.language@] + local_scope(s, ctx) + seq![n], "::"@) + "#"@ + hash_text(
                alg,
                decimal(s.location.start_line as nat) + ":"@ + decimal(s.location.start_char as nat),
            ).take(8),
        ),
    }
}

/// Whether a symbol has a qualified name that is not blank.
pub open spec fn has_qualified_name(s: SymbolInfo) -> bool {
    s.qualified_name is Some && trim(s.qualified_name->0@).len() > 0
}

/// The components after the language: the qualified name's parts, else the scopes and
/// the normalized name.
pub open spec fn name_components(s: SymbolInfo, ctx: SymbolContext) -> Result<
    Seq<Seq<char>>,
    UIDErrorView,
> {
    if has_qualified_name(s) {
        qualified_name_parts(s.qualified_name->0@, s.language@)
    } else {
        match normalized_name(s.name@, s.language@) {
            Err(e) => Err(e),
            Ok(n) => Ok(strings_view(ctx.scope_stack@).push(n)),
        }
    }
}

/// A normalized signature without the symbol's name where the name first follows a
/// space (`fn calculate_total(` becomes `fn(`).
pub open spec fn without_name(sig: Seq<char>, name: Seq<char>) -> Seq<char> {
    match find(sig, " "@ + name) {
        Some(i) => sig.take(i) + sig.skip(i + 1 + name.len()),
        None => sig,
    }
}

/// A signature as a UID shows it: the normalized signature without the symbol's name
/// and without whitespace (`fn(items:&[Item])->f64`).
pub open spec fn compact_signature(sig: Seq<char>, name: Seq<char>) -> Seq<char> {
    without_name(sig, name).filter(|c: char| !is_ws(c))
}

/// `lang::a::b::name`, followed by `#<first 8 hex digits of the hash of the normalized
/// signature>` where the signature is hashed and there is one, or else by `#<compact
/// signature>` where the signature is shown and its compact form is not empty.
pub open spec fn named_uid(
    alg: HashAlgorithm,
    s: SymbolInfo,
    ctx: SymbolContext,
    hash_signature: bool,
    show_signature: bool,
) -> Result<Seq<char>, UIDErrorView> {
    match name_components(s, ctx) {
        Err(e) => Err(e),
        Ok(parts) => {
            let base = join(seq![s.language@] + parts, "::"@);
            if hash_signature && s.signature is Some {
                match normalized_signature_result(s.signature->0@, s.language@) {
                    Err(e) => Err(e),
                    Ok(sig) => Ok(base + "#"@ + hash_text(alg, sig).take(8)),
                }
            } else if show_signature && s.signature is Some {
                match normalized_signature_result(s.signature->0@, s.language@) {
                    Err(e) => Err(e),
                    Ok(sig) => {
                        let shown = compact_signature(sig, s.name@);
                        if shown.len() > 0 {
                            Ok(base + "#"@ + shown)
                        } else {
                            Ok(base)
                        }
                    },
                }
            } else {
                Ok(base)
            }
        },
    }
}

pub open spec fn is_local_kind(k: SymbolKind) -> bool {
    k == SymbolKind::Variable || k == SymbolKind::Parameter
}

pub open spec fn is_method_kind(k: SymbolKind) -> bool {
    k == SymbolKind::Method || k == SymbolKind::Constructor || k == SymbolKind::Destructor
}

/// The UID of a symbol under the rules of its language.
pub open spec fn uid_with_rules(
    alg: HashAlgorithm,
    s: SymbolInfo,
    ctx: SymbolContext,
    rules: LanguageRulesView,
) -> Result<Seq<char>, UIDErrorView> {
    if s.usr is Some {
        Ok(s.usr->0@)
    } else if symbol_is_anonymous(s.kind, s.name@) {
        Ok(anonymous_uid(alg, s, ctx, rules))
    } else if is_local_kind(s.kind) {
        local_uid(alg, s, ctx)
    } else if is_method_kind(s.kind) {
        named_uid(alg, s, ctx, rules.supports_overloading, !rules.supports_overloading)
    } else {
        named_uid(
            alg,
            s,
            ctx,
            rules.supports_overloading && s.kind.spec_is_callable(),
            !rules.supports_overloading && s.kind.spec_is_callable(),
        )
    }
}

/// What `generate_uid` returns.
pub open spec fn generated_uid(alg: HashAlgorithm, s: SymbolInfo, ctx: SymbolContext) -> Result<
    Seq<char>,
    UIDErrorView,
> {
    if s.name@.len() == 0 {
        Err(UIDErrorView::InvalidSymbol("Symbol name cannot be empty"@))
    } else if s.language@.len() == 0 {
        Err(UIDErrorView::InvalidSymbol("Language cannot be empty"@))
    } else {
        match rules_for_language(s.language@) {
            None => Err(UIDErrorView::UnsupportedLanguage { language: s.language@ }),
            Some(rules) => uid_with_rules(alg, s, ctx, rules),
        }
    }
}

/// How `Debug` prints an algorithm.
pub open spec fn algorithm_name(a: HashAlgorithm) -> Seq<char> {
    match a {
        HashAlgorithm::Blake3 => "Blake3"@,
        HashAlgorithm::Sha256 => "Sha256"@,
    }
}

pub open spec fn rules_keys(t: Seq<(Seq<char>, LanguageRulesView)>) -> Seq<Seq<char>> {
    t.map_values(|p: (Seq<char>, LanguageRulesView)| p.0)
}

/// The statistics of a generator: its algorithm, how many language keys it has, and
/// the keys, comma-separated.
pub open spec fn generator_stats(alg: HashAlgorithm) -> Seq<(Seq<char>, Seq<char>)> {
    seq![
        ("hash_algorithm"@, algorithm_name(alg)),
        ("supported_languages"@, decimal(generator_rules_table().len())),
        ("languages"@, join(rules_keys(generator_rules_table()), ", "@)),
    ]
}

/// A well-formed UID: at least three characters, a `::`, and a non-empty language and
/// first component around the first `::`.
pub open spec fn uid_is_valid(uid: Seq<char>) -> bool {
    let parts = split(uid, "::"@);
    &&& uid.len() >= 3
    &&& contains(uid, "::"@)
    &&& !starts_with(uid, "::"@)
    &&& parts.len() >= 2
    &&& parts[0].len() > 0
    &&& parts[1].len() > 0
}

/// The language part of a UID: what precedes its first `::`.
pub open spec fn uid_language(uid: Seq<char>) -> Option<Seq<char>> {
    match find(uid, "::"@) {
        Some(p) => Some(uid.take(p)),
        None => None,
    }
}

// ---------------------------------------------------------------------------
// Implementation
// ---------------------------------------------------------------------------

/// Convert file extension to language name for UID generation
fn extension_to_language_name(extension: &str) -> (r: Option<&'static str>)
    ensures
        opt_str_view(r) == extension_language(extension@),
{
    let e = chars_of(to_lowercase(extension).as_str());
    if eq_lit(&e, "rs") {
        Some("rust")
    } else if eq_lit(&e, "js") || eq_lit(&e, "jsx") {
        Some("javascript")
    } else if eq_lit(&e, "ts") || eq_lit(&e, "tsx") {
        Some("typescript")  // TSX uses the TypeScript parser
    } else if eq_lit(&e, "py") {
        Some("python")
    } else if eq_lit(&e, "go") {
        Some("go")
    } else if eq_lit(&e, "c") || eq_lit(&e, "h") {
        Some("c")
    } else if eq_lit(&e, "cpp") || eq_lit(&e, "cc") || eq_lit(&e, "cxx") || eq_lit(&e, "hpp")
        || eq_lit(&e, "hxx") {
        Some("cpp")
    } else if eq_lit(&e, "java") {
        Some("java")
    } else if eq_lit(&e, "rb") {
        Some("ruby")
    } else if eq_lit(&e, "php") {
        Some("php")
    } else if eq_lit(&e, "swift") {
        Some("swift")
    } else if eq_lit(&e, "cs") {
        Some("csharp")
    } else {
        None
    }
}

/// Hash algorithm options for UID generation
#[derive(Debug, Clone, Copy, PartialEq, Eq, Structural)]
pub enum HashAlgorithm {
    /// Blake3 - Fast, cryptographically secure (default)
    Blake3,
    /// SHA256 - Standard, widely supported
    Sha256,
}

impl Default for HashAlgorithm {
    fn default() -> (r: Self)
        ensures
            r == HashAlgorithm::Blake3,
    {
        HashAlgorithm::Blake3
    }
}

/// Appends each of `more` to `out`.
fn extend_parts(out: &mut Vec<Vec<char>>, more: &Vec<Vec<char>>)
    ensures
        seqs_view(final(out)@) == seqs_view(old(out)@) + seqs_view(more@),
{
    let mut i: usize = 0;
    while i < more.len()
        invariant
            i <= more.len(),
            seqs_view(out@) == seqs_view(old(out)@) + seqs_view(more@).take(i as int),
        decreases more.len() - i,
    {
        let ghost before = out@;
        out.push(more[i].clone());
        assert(seqs_view(out@) =~= seqs_view(before).push(more@[i as int]@));
        assert(seqs_view(more@).take(i + 1) =~= seqs_view(more@).take(i as int).push(
            more@[i as int]@,
        ));
        i += 1;
    }
    assert(seqs_view(more@).take(more.len() as int) =~= seqs_view(more@));
}

/// Main UID generator with configurable algorithms and language support
pub struct SymbolUIDGenerator {
    /// Hash algorithm to use for generating UIDs
    hash_algorithm: HashAlgorithm,
    /// Language-specific rules for UID generation, by language key
    language_rules: Vec<(String, LanguageRules)>,
    /// Normalizer for symbol names and signatures
    normalizer: Normalizer,
}

proof fn lemma_lookup_skip(t: Seq<(Seq<char>, LanguageRulesView)>, key: Seq<char>, i: int)
    requires
        0 <= i <= t.len(),
        forall|j: int| 0 <= j < i ==> t[j].0 != key,
    ensures
        lookup_rules(t, key) == lookup_rules(t.subrange(i, t.len() as int), key),
    decreases i,
{
    if i > 0 {
        assert(t.drop_first().subrange(i - 1, t.drop_first().len() as int) =~= t.subrange(
            i,
            t.len() as int,
        ));
        lemma_lookup_skip(t.drop_first(), key, i - 1);
    } else {
        assert(t.subrange(0, t.len() as int) =~= t);
    }
}

/// The compact form of a normalized signature: without the symbol's name and without
/// whitespace.
fn compact_signature_exec(sig: &Vec<char>, name: &Vec<char>) -> (r: Vec<char>)
    ensures
        r@ == compact_signature(sig@, name@),
{
    let mut pattern = chars_of(" ");
    append(&mut pattern, name);
    proof {
        reveal_strlit(" ");
    }
    let stripped = match find_exec(sig, &pattern) {
        Some(i) => {
            proof {
                lemma_find(sig@, pattern@);
            }
            let mut s = slice(sig, 0, i);
            append(&mut s, &slice(sig, i + pattern.len(), sig.len()));
            assert(s@ =~= without_name(sig@, name@));
            s
        },
        None => slice(sig, 0, sig.len()),
    };
    assert(stripped@ =~= without_name(sig@, name@));
    let ghost keep = |c: char| !is_ws(c);
    let mut out: Vec<char> = Vec::new();
    let mut i: usize = 0;
    while i < stripped.len()
        invariant
            i <= stripped@.len(),
            keep == (|c: char| !is_ws(c)),
            out@ == stripped@.take(i as int).filter(keep),
        decreases stripped.len() - i,
    {
        let c = stripped[i];
        proof {
            assert(stripped@.take(i + 1) =~= stripped@.take(i as int).push(c));
            stripped@.take(i as int).lemma_filter_push(c, keep);
        }
        if !is_whitespace(c) {
            out.push(c);
        }
        i += 1;
    }
    proof {
        assert(stripped@.take(i as int) =~= stripped@);
        assert(Seq::<char>::empty() =~= Seq::<char>::empty());
    }
    out
}

impl SymbolUIDGenerator {
    /// The generator holds the rule set of every language it supports.
    #[verifier::type_invariant]
    spec fn rules_complete(self) -> bool {
        rules_table_view(self.language_rules@) == generator_rules_table()
    }

    /// The hash algorithm the generator uses.
    pub closed spec fn algorithm(self) -> HashAlgorithm {
        self.hash_algorithm
    }

    /// Create a new UID generator with default settings (Blake3)
    pub fn new() -> (r: Self)
        ensures
            r.algorithm() == HashAlgorithm::Blake3,
    {
        Self {
            hash_algorithm: HashAlgorithm::default(),
            language_rules: Self::initialize_language_rules(),
            normalizer: Normalizer::new(),
        }
    }

    /// Create a UID generator with a specific hash algorithm
    pub fn with_hash_algorithm(algorithm: HashAlgorithm) -> (r: Self)
        ensures
            r.algorithm() == algorithm,
    {
        Self {
            hash_algorithm: algorithm,
            language_rules: Self::initialize_language_rules(),
            normalizer: Normalizer::new(),
        }
    }

    /// The hash algorithm the generator uses.
    pub fn hash_algorithm(&self) -> (r: HashAlgorithm)
        ensures
            r == self.algorithm(),
    {
        self.hash_algorithm
    }

    /// Initialize language-specific rules for supported languages
    fn initialize_language_rules() -> (r: Vec<(String, LanguageRules)>)
        ensures
            rules_table_view(r@) == generator_rules_table(),
    {
        let mut rules: Vec<(String, LanguageRules)> = Vec::new();
        rules.push(("rust".to_string(), LanguageRules::rust()));
        // TypeScript/JavaScript
        rules.push(("typescript".to_string(), LanguageRules::typescript()));
        rules.push(("javascript".to_string(), LanguageRules::javascript()));
        rules.push(("python".to_string(), LanguageRules::python()));
        rules.push(("go".to_string(), LanguageRules::go()));
        rules.push(("java".to_string(), LanguageRules::java()));
        // C/C++
        rules.push(("c".to_string(), LanguageRules::c()));
        rules.push(("cpp".to_string(), LanguageRules::cpp()));
        rules.push(("c++".to_string(), LanguageRules::cpp()));
        assert(rules_table_view(rules@) =~= generator_rules_table());
        rules
    }

    /// Get language rules for a specific language (supports extensions and language names)
    fn get_language_rules(&self, language: &str) -> (r: UIDResult<&LanguageRules>)
        ensures
            match r {
                Ok(rules) => rules_for_language(language@) == Some(rules@),
                Err(e) => rules_for_language(language@) is None && e@
                    == (UIDErrorView::UnsupportedLanguage { language: language@ }),
            },
    {
        proof {
            use_type_invariant(self);
        }
        // Convert extension to language name if needed
        let language_name: String = match extension_to_language_name(language) {
            Some(name) => name.to_string(),
            None => language.to_string(),
        };
        let key = chars_of(to_lowercase(language_name.as_str()).as_str());
        let ghost table = generator_rules_table();
        let mut i: usize = 0;
        while i < self.language_rules.len()
            invariant
                i <= self.language_rules@.len(),
                rules_table_view(self.language_rules@) == table,
                table == generator_rules_table(),
                key@ == rules_key(language@),
                forall|j: int| 0 <= j < i ==> table[j].0 != key@,
            decreases self.language_rules.len() - i,
        {
            if chars_eq(&chars_of(self.language_rules[i].0.as_str()), &key) {
                proof {
                    lemma_lookup_skip(table, key@, i as int);
                    assert(table.subrange(i as int, table.len() as int)[0] == table[i as int]);
                }
                return Ok(&self.language_rules[i].1);
            }
            i += 1;
        }
        proof {
            lemma_lookup_skip(table, key@, table.len() as int);
        }
        Err(UIDError::UnsupportedLanguage { language: language.to_string() })
    }

    /// Generate hash of a string using the configured algorithm
    fn hash_string(&self, input: &str) -> (r: UIDResult<String>)
        ensures
            match r {
                Ok(h) => h@ == hash_text(self.algorithm(), input@) && h@.len() == 64,
                Err(_) => false,
            },
    {
        match self.hash_algorithm {
            HashAlgorithm::Blake3 => Ok(blake3_hex(input)),
            HashAlgorithm::Sha256 => Ok(sha256_hex(input)),
        }
    }

    /// Normalize USR (Unified Symbol Resolution) identifiers: they are already unique.
    fn normalize_usr(&self, usr: &str, _rules: &LanguageRules) -> (r: String)
        ensures
            r@ == usr@,
    {
        usr.to_string()
    }

    /// Check if a symbol is anonymous (lambda, closure, etc.)
    fn is_anonymous_symbol(&self, symbol: &SymbolInfo) -> (r: bool)
        ensures
            r == symbol_is_anonymous(symbol.kind, symbol.name@),
    {
        symbol.is_anonymous()
    }

    /// Check if a symbol is local (variable, parameter)
    fn is_local_symbol(&self, symbol: &SymbolInfo) -> (r: bool)
        ensures
            r == is_local_kind(symbol.kind),
    {
        symbol.kind == SymbolKind::Variable || symbol.kind == SymbolKind::Parameter
    }

    /// Check if a symbol is a method/constructor/destructor
    fn is_method_symbol(&self, symbol: &SymbolInfo) -> (r: bool)
        ensures
            r == is_method_kind(symbol.kind),
    {
        symbol.kind == SymbolKind::Method || symbol.kind == SymbolKind::Constructor || symbol.kind
            == SymbolKind::Destructor
    }

    /// Generate UID for anonymous symbols (position-based)
    fn generate_anonymous_uid(
        &self,
        symbol: &SymbolInfo,
        context: &SymbolContext,
        rules: &LanguageRules,
    ) -> (r: UIDResult<String>)
        ensures
            text_result(r) == Ok::<Seq<char>, UIDErrorView>(
                anonymous_uid(self.algorithm(), *symbol, *context, rules@),
            ),
    {
        // Format: lang::anon::<hash(file_path + position + scope)>
        let colon = chars_of(":");
        let mut key = chars_of(symbol.location.file_path.as_str());
        append(&mut key, &colon);
        append(&mut key, &decimal_exec(symbol.location.start_line as u64));
        append(&mut key, &colon);
        append(&mut key, &decimal_exec(symbol.location.start_char as u64));
        append(&mut key, &colon);
        append(&mut key, &chars_of(context.current_scope(rules.scope_separator.as_str()).as_str()));
        let key_text = string_of(&key);
        let position_hash = match self.hash_string(key_text.as_str()) {
            Ok(h) => h,
            Err(e) => return Err(e),
        };
        // "::" is the separator of UIDs, whatever the language's scope separator
        let sep = chars_of("::");
        let mut out = chars_of(symbol.language.as_str());
        append(&mut out, &sep);
        append(&mut out, &chars_of(rules.anonymous_prefix.as_str()));
        append(&mut out, &sep);
        append(&mut out, &chars_of(position_hash.as_str()));
        Ok(string_of(&out))
    }

    /// Generate UID for local symbols (scope + position based)
    fn generate_local_uid(
        &self,
        symbol: &SymbolInfo,
        context: &SymbolContext,
        _rules: &LanguageRules,
    ) -> (r: UIDResult<String>)
        ensures
            text_result(r) == local_uid(self.algorithm(), *symbol, *context),
    {
        // Format: lang::scope::name#pos_hash
        let mut components: Vec<Vec<char>> = Vec::new();
        components.push(chars_of(symbol.language.as_str()));
        // Add scope context
        if context.scope_stack.len() > 0 {
            extend_parts(&mut components, &strings_to_chars(&context.scope_stack));
        } else {
            match &symbol.parent_scope {
                Some(parent_scope) => components.push(chars_of(parent_scope.as_str())),
                None => {},
            }
        }
        let ghost scoped = seqs_view(components@);
        assert(scoped =~= seq![symbol.language@] + local_scope(*symbol, *context));
        // Add symbol name (normalized)
        let normalized_name = match self.normalizer.normalize_symbol_name(
            symbol.name.as_str(),
            symbol.language.as_str(),
        ) {
            Ok(n) => n,
            Err(e) => return Err(e),
        };
        components.push(chars_of(normalized_name.as_str()));
        assert(seqs_view(components@) =~= seq![symbol.language@] + local_scope(*symbol, *context)
            + seq![normalized_name@]);
        // Position hash: locals can share a name in different scopes
        let mut key = decimal_exec(symbol.location.start_line as u64);
        append(&mut key, &chars_of(":"));
        append(&mut key, &decimal_exec(symbol.location.start_char as u64));
        let key_text = string_of(&key);
        let position_hash = match self.hash_string(key_text.as_str()) {
            Ok(h) => h,
            Err(e) => return Err(e),
        };
        let mut out = join_exec(&components, &chars_of("::"));
        append(&mut out, &chars_of("#"));
        let short = slice(&chars_of(position_hash.as_str()), 0, 8);
        assert(short@ =~= position_hash@.take(8));
        append(&mut out, &short);
        Ok(string_of(&out))
    }

    /// The name-based UID of methods and global symbols; the signature's hash is added
    /// where `hash_signature` holds and there is a signature, else the compact signature
    /// where `show_signature` holds.
    fn generate_named_uid(
        &self,
        symbol: &SymbolInfo,
        context: &SymbolContext,
        hash_signature: bool,
        show_signature: bool,
    ) -> (r: UIDResult<String>)
        ensures
            text_result(r) == named_uid(
                self.algorithm(),
                *symbol,
                *context,
                hash_signature,
                show_signature,
            ),
    {
        let mut components: Vec<Vec<char>> = Vec::new();
        components.push(chars_of(symbol.language.as_str()));
        // Prefer the qualified name (ignore empty/whitespace ones)
        let fqn: Option<&String> = match &symbol.qualified_name {
            Some(f) => if trim_exec(&chars_of(f.as_str())).len() > 0 {
                Some(f)
            } else {
                None
            },
            None => None,
        };
        match fqn {
            Some(fqn) => {
                let fqn_parts = match self.normalizer.split_qualified_name(
                    fqn.as_str(),
                    symbol.language.as_str(),
                ) {
                    Ok(p) => p,
                    Err(e) => return Err(e),
                };
                extend_parts(&mut components, &strings_to_chars(&fqn_parts));
            },
            None => {
                // Fall back to the scope context and the name
                extend_parts(&mut components, &strings_to_chars(&context.scope_stack));
                let name = match self.normalizer.normalize_symbol_name(
                    symbol.name.as_str(),
                    symbol.language.as_str(),
                ) {
                    Ok(n) => n,
                    Err(e) => return Err(e),
                };
                let ghost before = seqs_view(components@);
                components.push(chars_of(name.as_str()));
                assert(seqs_view(components@) =~= before.push(name@));
            },
        }
        assert(seqs_view(components@) =~= seq![symbol.language@] + name_components(
            *symbol,
            *context,
        )->Ok_0);
        // "::" is the separator of UIDs, whatever the language's scope separator
        let mut base = join_exec(&components, &chars_of("::"));
        if hash_signature {
            match &symbol.signature {
                Some(signature) => {
                    let normalized_signature = match self.normalizer.normalize_signature(
                        signature.as_str(),
                        symbol.language.as_str(),
                    ) {
                        Ok(s) => s,
                        Err(e) => return Err(e),
                    };
                    let sig_hash = match self.hash_string(normalized_signature.as_str()) {
                        Ok(h) => h,
                        Err(e) => return Err(e),
                    };
                    append(&mut base, &chars_of("#"));
                    let short = slice(&chars_of(sig_hash.as_str()), 0, 8);
                    assert(short@ =~= sig_hash@.take(8));
                    append(&mut base, &short);
                    return Ok(string_of(&base));
                },
                None => {},
            }
        }
        if show_signature {
            match &symbol.signature {
                Some(signature) => {
                    let normalized_signature = match self.normalizer.normalize_signature(
                        signature.as_str(),
                        symbol.language.as_str(),
                    ) {
                        Ok(s) => s,
                        Err(e) => return Err(e),
                    };
                    let shown = compact_signature_exec(
                        &chars_of(normalized_signature.as_str()),
                        &chars_of(symbol.name.as_str()),
                    );
                    if shown.len() > 0 {
                        append(&mut base, &chars_of("#"));
                        append(&mut base, &shown);
                    }
                    return Ok(string_of(&base));
                },
                None => {},
            }
        }
        Ok(string_of(&base))
    }

    /// Generate UID for methods (including class context)
    fn generate_method_uid(
        &self,
        symbol: &SymbolInfo,
        context: &SymbolContext,
        rules: &LanguageRules,
    ) -> (r: UIDResult<String>)
        ensures
            text_result(r) == named_uid(
                self.algorithm(),
                *symbol,
                *context,
                rules.supports_overloading,
                !rules.supports_overloading,
            ),
    {
        // Format: lang::class::method_name#signature_hash, or #signature without overloading
        self.generate_named_uid(
            symbol,
            context,
            rules.supports_overloading,
            !rules.supports_overloading,
        )
    }

    /// Generate UID for global symbols (FQN-based)
    fn generate_global_uid(
        &self,
        symbol: &SymbolInfo,
        context: &SymbolContext,
        rules: &LanguageRules,
    ) -> (r: UIDResult<String>)
        ensures
            text_result(r) == named_uid(
                self.algorithm(),
                *symbol,
                *context,
                rules.supports_overloading && symbol.kind.spec_is_callable(),
                !rules.supports_overloading && symbol.kind.spec_is_callable(),
            ),
    {
        // Format: lang::fqn or lang::scope::name; functions add a signature hash where
        // the language overloads, else the compact signature
        let callable = symbol.kind.is_callable();
        self.generate_named_uid(
            symbol,
            context,
            rules.supports_overloading && callable,
            !rules.supports_overloading && callable,
        )
    }

    /// Internal UID generation logic
    fn generate_uid_internal(
        &self,
        symbol: &SymbolInfo,
        context: &SymbolContext,
        rules: &LanguageRules,
    ) -> (r: UIDResult<String>)
        ensures
            text_result(r) == uid_with_rules(self.algorithm(), *symbol, *context, rules@),
    {
        // 1. Use USR if available (highest priority)
        match &symbol.usr {
            Some(usr) => return Ok(self.normalize_usr(usr.as_str(), rules)),
            None => {},
        }
        // 2. Anonymous symbols need position-based UID
        if self.is_anonymous_symbol(symbol) {
            return self.generate_anonymous_uid(symbol, context, rules);
        }
        // 3. Local variables and parameters need scope + position
        if self.is_local_symbol(symbol) {
            return self.generate_local_uid(symbol, context, rules);
        }
        // 4. Methods, constructors, destructors need class context
        if self.is_method_symbol(symbol) {
            return self.generate_method_uid(symbol, context, rules);
        }
        // 5. Global symbols use fully qualified name
        self.generate_global_uid(symbol, context, rules)
    }

    /// Generate a unique identifier for a symbol:
    /// 1. Use USR if available (Clang provides this)
    /// 2. Anonymous symbols need position-based UIDs
    /// 3. Local variables need scope + position
    /// 4. Methods need class context
    /// 5. Global symbols use FQN
    pub fn generate_uid(&self, symbol: &SymbolInfo, context: &SymbolContext) -> (r: UIDResult<
        String,
    >)
        ensures
            text_result(r) == generated_uid(self.algorithm(), *symbol, *context),
    {
        // Validate inputs
        if chars_of(symbol.name.as_str()).len() == 0 {
            return Err(UIDError::InvalidSymbol("Symbol name cannot be empty".to_string()));
        }
        if chars_of(symbol.language.as_str()).len() == 0 {
            return Err(UIDError::InvalidSymbol("Language cannot be empty".to_string()));
        }
        let rules = match self.get_language_rules(symbol.language.as_str()) {
            Ok(rules) => rules,
            Err(e) => return Err(e),
        };
        self.generate_uid_internal(symbol, context, rules)
    }

    /// Generate batch UIDs for multiple symbols
    pub fn generate_batch_uids(&self, symbols: &[(SymbolInfo, SymbolContext)]) -> (r: Vec<
        UIDResult<String>,
    >)
        ensures
            r@.len() == symbols@.len(),
            forall|i: int|
                0 <= i < symbols@.len() ==> text_result(#[trigger] r@[i]) == generated_uid(
                    self.algorithm(),
                    symbols@[i].0,
                    symbols@[i].1,
                ),
    {
        let mut out: Vec<UIDResult<String>> = Vec::new();
        let mut i: usize = 0;
        while i < symbols.len()
            invariant
                i <= symbols@.len(),
                out@.len() == i,
                forall|j: int|
                    0 <= j < i ==> text_result(#[trigger] out@[j]) == generated_uid(
                        self.algorithm(),
                        symbols@[j].0,
                        symbols@[j].1,
                    ),
            decreases symbols.len() - i,
        {
            let (symbol, context) = &symbols[i];
            out.push(self.generate_uid(symbol, context));
            i += 1;
        }
        out
    }

    /// Validate that a UID is properly formatted: `language::something`
    pub fn validate_uid(&self, uid: &str) -> (r: bool)
        ensures
            r == uid_is_valid(uid@),
    {
        let u = chars_of(uid);
        let sep = chars_of("::");
        proof {
            reveal_strlit("::");
        }
        // A UID with a `::` and a non-empty language has at least 3 bytes exactly when it
        // has at least 3 characters, so counting characters gives the same answer.
        if u.len() < 3 || !contains_exec(&u, &sep) {
            return false;
        }
        // Check for edge cases
        if has_prefix(&u, &sep) {
            return false;
        }
        // Must have at least language::something format
        let parts = split_exec(&u, &sep);
        parts.len() >= 2 && parts[0].len() > 0 && parts[1].len() > 0
    }

    /// Extract language from a UID
    pub fn extract_language_from_uid(&self, uid: &str) -> (r: Option<String>)
        ensures
            match r {
                Some(l) => uid_language(uid@) == Some(l@),
                None => uid_language(uid@) is None,
            },
    {
        let u = chars_of(uid);
        match find_exec(&u, &chars_of("::")) {
            Some(p) => {
                proof {
                    lemma_find(u@, "::"@);
                }
                Some(string_of(&slice(&u, 0, p)))
            },
            None => None,
        }
    }

    /// Get statistics about UID generation: the hash algorithm, the number of language
    /// keys and the keys themselves.
    pub fn get_stats(&self) -> (r: Vec<(String, String)>)
        ensures
            pairs_view(r@) == generator_stats(self.algorithm()),
    {
        proof {
            use_type_invariant(self);
        }
        let ghost table = generator_rules_table();
        let algorithm = match self.hash_algorithm {
            HashAlgorithm::Blake3 => "Blake3".to_string(),
            HashAlgorithm::Sha256 => "Sha256".to_string(),
        };
        let count = string_of(&decimal_exec(self.language_rules.len() as u64));
        let mut keys: Vec<Vec<char>> = Vec::new();
        let mut i: usize = 0;
        while i < self.language_rules.len()
            invariant
                i <= self.language_rules@.len(),
                rules_table_view(self.language_rules@) == table,
                table == generator_rules_table(),
                seqs_view(keys@) == rules_keys(table).take(i as int),
            decreases self.language_rules.len() - i,
        {
            let ghost before = seqs_view(keys@);
            keys.push(chars_of(self.language_rules[i].0.as_str()));
            assert(seqs_view(keys@) =~= before.push(table[i as int].0));
            assert(rules_keys(table).take(i + 1) =~= rules_keys(table).take(i as int).push(
                table[i as int].0,
            ));
            i += 1;
        }
        assert(rules_keys(table).take(table.len() as int) =~= rules_keys(table));
        let languages = string_of(&join_exec(&keys, &chars_of(", ")));
        let mut stats: Vec<(String, String)> = Vec::new();
        stats.push(("hash_algorithm".to_string(), algorithm));
        stats.push(("supported_languages".to_string(), count));
        stats.push(("languages".to_string(), languages));
        assert(pairs_view(stats@) =~= generator_stats(self.algorithm()));
        stats
    }
}

impl Default for SymbolUIDGenerator {
    fn default() -> (r: Self)
        ensures
            r.algorithm() == HashAlgorithm::Blake3,
    {
        Self::new()
    }
}

} // verus!

verus! {

// ---------------------------------------------------------------------------
// Laws
// ---------------------------------------------------------------------------

/// Where `x` has no `:`, the first `::` of `x + "::" + y` is right after `x`.
proof fn lemma_find_after(x: Seq<char>, y: Seq<char>)
    requires
        !has_char(x, ':'),
    ensures
        find(x + "::"@ + y, "::"@) == Some(x.len() as int),
{
    reveal_strlit("::");
    let u = x + "::"@ + y;
    lemma_find(u, "::"@);
    assert(u.subrange(x.len() as int, x.len() as int + 2) =~= "::"@);
    assert(matches_at(u, "::"@, x.len() as int));
    match find(u, "::"@) {
        Some(k) => {
            if k < x.len() {
                assert(u.subrange(k, k + 2)[0] == u[k]);
                assert(x[k] == ':');
            }
        },
        None => {},
    }
}

/// `lang::rest` is a valid UID whose language is `lang`, when `lang` is non-empty and
/// has no `:`, and `rest` is non-empty and does not begin with `:`.
pub proof fn law_uid_shape_valid(lang: Seq<char>, rest: Seq<char>)
    requires
        lang.len() > 0,
        !has_char(lang, ':'),
        rest.len() > 0,
        rest[0] != ':',
    ensures
        uid_is_valid(lang + "::"@ + rest),
        uid_language(lang + "::"@ + rest) == Some(lang),
{
    reveal_strlit("::");
    let u = lang + "::"@ + rest;
    lemma_find_after(lang, rest);
    assert(u.take(lang.len() as int) =~= lang);
    assert(u.skip(lang.len() as int + 2) =~= rest);
    let pr = split(rest, "::"@);
    lemma_find(rest, "::"@);
    match find(rest, "::"@) {
        Some(k) => {
            if k == 0 {
                assert(rest.subrange(0, 2)[0] == rest[0]);
            }
            assert(pr == seq![rest.take(k)] + split(rest.skip(k + 2), "::"@));
            assert(pr[0].len() > 0);
        },
        None => {
            assert(pr == seq![rest]);
        },
    }
    assert(split(u, "::"@) == seq![lang] + pr);
    assert(u[0] == lang[0]);
    assert(!starts_with(u, "::"@)) by {
        if starts_with(u, "::"@) {
            assert(u.subrange(0, 2)[0] == u[0]);
        }
    }
}

/// `lang::rest`, with `lang` non-empty and without `:`, reads back as language `lang`,
/// and is a valid UID exactly when `rest` is non-empty and does not begin with `::`.
proof fn lemma_uid_shape_iff(lang: Seq<char>, rest: Seq<char>)
    requires
        lang.len() > 0,
        !has_char(lang, ':'),
    ensures
        uid_language(lang + "::"@ + rest) == Some(lang),
        uid_is_valid(lang + "::"@ + rest) <==> (rest.len() > 0 && !starts_with(rest, "::"@)),
{
    reveal_strlit("::");
    let u = lang + "::"@ + rest;
    lemma_find_after(lang, rest);
    assert(u.take(lang.len() as int) =~= lang);
    assert(u.skip(lang.len() as int + 2) =~= rest);
    let pr = split(rest, "::"@);
    lemma_find(rest, "::"@);
    match find(rest, "::"@) {
        Some(k) => {
            assert(pr == seq![rest.take(k)] + split(rest.skip(k + 2), "::"@));
            if starts_with(rest, "::"@) {
                assert(k == 0);
            } else {
                if k == 0 {
                    assert(matches_at(rest, "::"@, 0));
                }
            }
        },
        None => {
            assert(pr == seq![rest]);
            if starts_with(rest, "::"@) {
                assert(matches_at(rest, "::"@, 0));
            }
        },
    }
    assert(split(u, "::"@) == seq![lang] + pr);
    assert(u[0] == lang[0]);
    assert(!starts_with(u, "::"@)) by {
        if starts_with(u, "::"@) {
            assert(u.subrange(0, 2)[0] == u[0]);
        }
    }
    assert(contains(u, "::"@));
}

/// The rules of every supported language name anonymous symbols `anon` or `lambda`.
proof fn lemma_anonymous_prefixes(language: Seq<char>)
    requires
        rules_for_language(language) is Some,
    ensures
        rules_for_language(language)->0.anonymous_prefix == "anon"@
            || rules_for_language(language)->0.anonymous_prefix == "lambda"@,
{
    reveal_with_fuel(lookup_rules, 10);
}

/// An all-ASCII language name with a `:` names no supported language.
proof fn lemma_colon_language_unsupported(lang: Seq<char>)
    requires
        all_ascii(lang),
        has_char(lang, ':'),
    ensures
        rules_for_language(lang) is None,
{
    reveal_strlit("rs");
    reveal_strlit("js");
    reveal_strlit("jsx");
    reveal_strlit("ts");
    reveal_strlit("tsx");
    reveal_strlit("py");
    reveal_strlit("go");
    reveal_strlit("c");
    reveal_strlit("h");
    reveal_strlit("cpp");
    reveal_strlit("cc");
    reveal_strlit("cxx");
    reveal_strlit("hpp");
    reveal_strlit("hxx");
    reveal_strlit("java");
    reveal_strlit("rb");
    reveal_strlit("php");
    reveal_strlit("swift");
    reveal_strlit("cs");
    reveal_strlit("rust");
    reveal_strlit("typescript");
    reveal_strlit("javascript");
    reveal_strlit("python");
    reveal_strlit("c++");
    let i = choose|i: int| 0 <= i < lang.len() && lang[i] == ':';
    let e = ascii_lower(lang);
    assert(e[i] == ':');
    assert(text_lower(lang) == e);
    assert(extension_language(lang) is None);
    assert(rules_key(lang) == e);
    let t = generator_rules_table();
    assert(lookup_rules(t, e) is None) by {
        reveal_with_fuel(lookup_rules, 10);
    }
}

/// The UID of a symbol does not depend on the workspace, the file version or the
/// language of the analysis: only on the symbol and the scopes of the context.
pub proof fn law_uid_ignores_workspace(
    alg: HashAlgorithm,
    s: SymbolInfo,
    c1: SymbolContext,
    c2: SymbolContext,
)
    requires
        c1.scope_stack@ == c2.scope_stack@,
    ensures
        generated_uid(alg, s, c1) == generated_uid(alg, s, c2),
{
}

/// A UID that does not come from a USR starts with the symbol's language and `::`.
pub proof fn law_uid_starts_with_language(alg: HashAlgorithm, s: SymbolInfo, ctx: SymbolContext)
    requires
        s.usr is None,
        generated_uid(alg, s, ctx) is Ok,
    ensures
        starts_with(generated_uid(alg, s, ctx)->Ok_0, s.language@ + "::"@),
{
    reveal_strlit("::");
    let lang = s.language@;
    let rules = rules_for_language(lang)->0;
    let uid = generated_uid(alg, s, ctx)->Ok_0;
    let head = lang + "::"@;
    if symbol_is_anonymous(s.kind, s.name@) {
        assert(uid.subrange(0, head.len() as int) =~= head);
    } else if is_local_kind(s.kind) {
        let n = normalized_name(s.name@, lang)->Ok_0;
        let t = local_scope(s, ctx) + seq![n];
        assert(seq![lang] + local_scope(s, ctx) + seq![n] =~= seq![lang] + t);
        lemma_join_cons(lang, t, "::"@);
        assert(uid.subrange(0, head.len() as int) =~= head);
    } else {
        let parts = name_components(s, ctx)->Ok_0;
        if has_qualified_name(s) {
            lemma_normalized_names_len(fqn_parts(s.qualified_name->0@, lang), lang);
        }
        lemma_join_cons(lang, parts, "::"@);
        assert(uid.subrange(0, head.len() as int) =~= head);
    }
}

/// The language read back from a UID that does not come from a USR is the symbol's
/// language, when that is written in ASCII (as every supported language's name is) or
/// has no `:`.
pub proof fn law_uid_language_extracted(alg: HashAlgorithm, s: SymbolInfo, ctx: SymbolContext)
    requires
        s.usr is None,
        generated_uid(alg, s, ctx) is Ok,
        all_ascii(s.language@) || !has_char(s.language@, ':'),
    ensures
        uid_language(generated_uid(alg, s, ctx)->Ok_0) == Some(s.language@),
{
    reveal_strlit("::");
    if has_char(s.language@, ':') {
        lemma_colon_language_unsupported(s.language@);
    }
    law_uid_starts_with_language(alg, s, ctx);
    let uid = generated_uid(alg, s, ctx)->Ok_0;
    let l = s.language@.len() as int;
    assert(uid =~= s.language@ + "::"@ + uid.skip(l + 2));
    lemma_find_after(s.language@, uid.skip(l + 2));
    assert(uid.take(l) =~= s.language@);
}

proof fn lemma_join_first(t: Seq<Seq<char>>, sep: Seq<char>)
    requires
        t.len() > 0,
        t[0].len() > 0,
    ensures
        join(t, sep).len() > 0,
        join(t, sep)[0] == t[0][0],
    decreases t.len(),
{
    if t.len() > 1 {
        let d = t.drop_last();
        assert(d[0] == t[0]);
        lemma_join_first(d, sep);
        let j = join(d, sep) + sep + t.last();
        assert(j[0] == join(d, sep)[0]);
    }
}

/// The first component of a name-based or local UID after its language: the first
/// scope or qualified-name part, else the normalized name.
pub open spec fn leading_component(s: SymbolInfo, ctx: SymbolContext) -> Seq<char> {
    if is_local_kind(s.kind) {
        (local_scope(s, ctx) + seq![normalized_name(s.name@, s.language@)->Ok_0])[0]
    } else {
        name_components(s, ctx)->Ok_0[0]
    }
}

/// What follows the language and its `::` in a UID.
pub open spec fn uid_after_language(uid: Seq<char>, lang: Seq<char>) -> Seq<char> {
    uid.skip(lang.len() as int + 2)
}

/// A generated UID that does not come from a USR reads back as its symbol's language
/// (one written in ASCII, as every supported one is, or without `:`), and is valid
/// exactly when what follows the language's `::` is not empty and does not begin with
/// `::` in turn. So it is valid whenever its first component after the language is not
/// empty and does not begin with `:` (as with non-empty scopes and names).
pub proof fn law_generated_uid_valid(alg: HashAlgorithm, s: SymbolInfo, ctx: SymbolContext)
    requires
        s.usr is None,
        generated_uid(alg, s, ctx) is Ok,
        all_ascii(s.language@) || !has_char(s.language@, ':'),
    ensures
        uid_language(generated_uid(alg, s, ctx)->Ok_0) == Some(s.language@),
        uid_is_valid(generated_uid(alg, s, ctx)->Ok_0) <==> ({
            let rest = uid_after_language(generated_uid(alg, s, ctx)->Ok_0, s.language@);
            rest.len() > 0 && !starts_with(rest, "::"@)
        }),
        symbol_is_anonymous(s.kind, s.name@) || (leading_component(s, ctx).len() > 0
            && leading_component(s, ctx)[0] != ':') ==> uid_is_valid(
            generated_uid(alg, s, ctx)->Ok_0,
        ),
{
    reveal_strlit("::");
    let lang = s.language@;
    if has_char(lang, ':') {
        lemma_colon_language_unsupported(lang);
    }
    let uid = generated_uid(alg, s, ctx)->Ok_0;
    let l = lang.len() as int;
    law_uid_starts_with_language(alg, s, ctx);
    let rest = uid.skip(l + 2);
    assert(uid =~= lang + "::"@ + rest);
    assert(lang.len() > 0);
    lemma_uid_shape_iff(lang, rest);
    if symbol_is_anonymous(s.kind, s.name@) {
        law_anonymous_uid_valid(alg, s, ctx);
    } else if leading_component(s, ctx).len() > 0 && leading_component(s, ctx)[0] != ':' {
        let tt = if is_local_kind(s.kind) {
            local_scope(s, ctx) + seq![normalized_name(s.name@, lang)->Ok_0]
        } else {
            name_components(s, ctx)->Ok_0
        };
        if !is_local_kind(s.kind) && has_qualified_name(s) {
            lemma_normalized_names_len(fqn_parts(s.qualified_name->0@, lang), lang);
        }
        assert(tt.len() > 0);
        lemma_join_cons(lang, tt, "::"@);
        lemma_join_first(tt, "::"@);
        if is_local_kind(s.kind) {
            assert(seq![lang] + local_scope(s, ctx) + seq![normalized_name(s.name@, lang)->Ok_0]
                =~= seq![lang] + tt);
        }
        assert(rest.len() > 0 && rest[0] == join(tt, "::"@)[0]) by {
            assert((lang + "::"@ + join(tt, "::"@))[l + 2] == join(tt, "::"@)[0]);
        }
        law_uid_shape_valid(lang, rest);
    }
}

/// The UID of an anonymous symbol (without a USR) of a supported language is valid,
/// when the language is written in ASCII or has no `:`.
pub proof fn law_anonymous_uid_valid(alg: HashAlgorithm, s: SymbolInfo, ctx: SymbolContext)
    requires
        s.usr is None,
        symbol_is_anonymous(s.kind, s.name@),
        s.name@.len() > 0,
        s.language@.len() > 0,
        rules_for_language(s.language@) is Some,
        all_ascii(s.language@) || !has_char(s.language@, ':'),
    ensures
        generated_uid(alg, s, ctx) is Ok,
        uid_is_valid(generated_uid(alg, s, ctx)->Ok_0),
{
    if has_char(s.language@, ':') {
        lemma_colon_language_unsupported(s.language@);
    }
    reveal_strlit("anon");
    reveal_strlit("lambda");
    lemma_anonymous_prefixes(s.language@);
    let rules = rules_for_language(s.language@)->0;
    let rest = rules.anonymous_prefix + "::"@ + hash_text(alg, anonymous_position_key(s, ctx, rules));
    assert(anonymous_uid(alg, s, ctx, rules) =~= s.language@ + "::"@ + rest);
    assert(rest[0] == rules.anonymous_prefix[0]);
    law_uid_shape_valid(s.language@, rest);
}

/// Where the rules of a language do not allow overloading, a function or method named
/// by its qualified name or scopes shows its signature rather than a hash of it: its
/// UID is the name-based UID followed by `#` and the compact signature, when there is one.
pub proof fn law_signature_shown_without_overloading(
    alg: HashAlgorithm,
    s: SymbolInfo,
    ctx: SymbolContext,
)
    requires
        s.name@.len() > 0,
        s.language@.len() > 0,
        rules_for_language(s.language@) is Some,
        !rules_for_language(s.language@)->0.supports_overloading,
        s.usr is None,
        !symbol_is_anonymous(s.kind, s.name@),
        !is_local_kind(s.kind),
        is_method_kind(s.kind) || s.kind.spec_is_callable(),
    ensures
        generated_uid(alg, s, ctx) == named_uid(alg, s, ctx, false, true),
{
}

/// A text with no ASCII capital letter, all ASCII, is its own lowercase.
proof fn lemma_lower_text_id(s: Seq<char>)
    requires
        forall|i: int| 0 <= i < s.len() ==> (s[i] as u32) < 128 && !('A' <= #[trigger] s[i] <= 'Z'),
    ensures
        text_lower(s) == s,
{
    assert(all_ascii(s));
    assert(ascii_lower(s) =~= s);
}

proof fn lemma_ascii_lower_twice(s: Seq<char>)
    requires
        all_ascii(s),
    ensures
        all_ascii(ascii_lower(s)),
        text_lower(ascii_lower(s)) == ascii_lower(s),
        text_lower(s) == ascii_lower(s),
{
    let l = ascii_lower(s);
    assert forall|i: int| 0 <= i < l.len() implies (l[i] as u32) < 128 && !('A' <= #[trigger] l[i] <= 'Z') by {
        assert(l[i] == crate::text::ascii_lower_char(s[i]));
    }
    lemma_lower_text_id(l);
}

/// The file extensions the generator documents, each with its language.
pub open spec fn documented_extensions() -> Seq<(Seq<char>, Seq<char>)> {
    seq![("rs"@, "rust"@), ("js"@, "javascript"@), ("jsx"@, "javascript"@), ("ts"@, "typescript"@), ("tsx"@, "typescript"@), ("py"@, "python"@), ("go"@, "go"@), ("c"@, "c"@), ("h"@, "c"@), ("cpp"@, "cpp"@), ("cc"@, "cpp"@), ("cxx"@, "cpp"@), ("hpp"@, "cpp"@), ("hxx"@, "cpp"@), ("java"@, "java"@)]
}

/// The rules of a language do not depend on the case of its ASCII name, and each file
/// extension the generator knows selects the rules of its language: `rs` Rust, `js` and
/// `jsx` JavaScript, `ts` and `tsx` TypeScript, `py` Python, `go` Go, `c` and `h` C,
/// `cpp`, `cc`, `cxx`, `hpp` and `hxx` C++, `java` Java.
pub proof fn law_extension_selects_language_rules(s: Seq<char>)
    ensures
        all_ascii(s) ==> rules_for_language(s) == rules_for_language(ascii_lower(s)),
        forall|i: int|
            0 <= i < documented_extensions().len() ==> rules_for_language(#[trigger] documented_extensions()[i].0)
                == rules_for_language(documented_extensions()[i].1) && rules_for_language(
                documented_extensions()[i].1,
            ) is Some,
{
    if all_ascii(s) {
        lemma_ascii_lower_twice(s);
    }
    reveal_strlit("c");
    reveal_strlit("c++");
    reveal_strlit("cc");
    reveal_strlit("cpp");
    reveal_strlit("cs");
    reveal_strlit("csharp");
    reveal_strlit("cxx");
    reveal_strlit("go");
    reveal_strlit("h");
    reveal_strlit("hpp");
    reveal_strlit("hxx");
    reveal_strlit("java");
    reveal_strlit("javascript");
    reveal_strlit("js");
    reveal_strlit("jsx");
    reveal_strlit("php");
    reveal_strlit("py");
    reveal_strlit("python");
    reveal_strlit("rb");
    reveal_strlit("rs");
    reveal_strlit("ruby");
    reveal_strlit("rust");
    reveal_strlit("swift");
    reveal_strlit("ts");
    reveal_strlit("tsx");
    reveal_strlit("typescript");
    lemma_lower_text_id("c"@);
    lemma_lower_text_id("c++"@);
    lemma_lower_text_id("cc"@);
    lemma_lower_text_id("cpp"@);
    lemma_lower_text_id("cs"@);
    lemma_lower_text_id("csharp"@);
    lemma_lower_text_id("cxx"@);
    lemma_lower_text_id("go"@);
    lemma_lower_text_id("h"@);
    lemma_lower_text_id("hpp"@);
    lemma_lower_text_id("hxx"@);
    lemma_lower_text_id("java"@);
    lemma_lower_text_id("javascript"@);
    lemma_lower_text_id("js"@);
    lemma_lower_text_id("jsx"@);
    lemma_lower_text_id("php"@);
    lemma_lower_text_id("py"@);
    lemma_lower_text_id("python"@);
    lemma_lower_text_id("rb"@);
    lemma_lower_text_id("rs"@);
    lemma_lower_text_id("ruby"@);
    lemma_lower_text_id("rust"@);
    lemma_lower_text_id("swift"@);
    lemma_lower_text_id("ts"@);
    lemma_lower_text_id("tsx"@);
    lemma_lower_text_id("typescript"@);
    reveal_with_fuel(lookup_rules, 10);
    assert("rs"@[0] != "js"@[0]);
    assert("rs"@[0] != "ts"@[0]);
    assert("rs"@[0] != "py"@[0]);
    assert("rs"@[0] != "go"@[0]);
    assert("rs"@[0] != "cc"@[0]);
    assert("rs"@[1] != "rb"@[1]);
    assert("rs"@[0] != "cs"@[0]);
    assert("js"@[0] != "ts"@[0]);
    assert("js"@[0] != "py"@[0]);
    assert("js"@[0] != "go"@[0]);
    assert("js"@[0] != "cc"@[0]);
    assert("js"@[0] != "rb"@[0]);
    assert("js"@[0] != "cs"@[0]);
    assert("jsx"@[0] != "tsx"@[0]);
    assert("jsx"@[0] != "cpp"@[0]);
    assert("jsx"@[0] != "cxx"@[0]);
    assert("jsx"@[0] != "hpp"@[0]);
    assert("jsx"@[0] != "hxx"@[0]);
    assert("jsx"@[0] != "php"@[0]);
    assert("jsx"@[0] != "c++"@[0]);
    assert("ts"@[0] != "py"@[0]);
    assert("ts"@[0] != "go"@[0]);
    assert("ts"@[0] != "cc"@[0]);
    assert("ts"@[0] != "rb"@[0]);
    assert("ts"@[0] != "cs"@[0]);
    assert("tsx"@[0] != "cpp"@[0]);
    assert("tsx"@[0] != "cxx"@[0]);
    assert("tsx"@[0] != "hpp"@[0]);
    assert("tsx"@[0] != "hxx"@[0]);
    assert("tsx"@[0] != "php"@[0]);
    assert("tsx"@[0] != "c++"@[0]);
    assert("py"@[0] != "go"@[0]);
    assert("py"@[0] != "cc"@[0]);
    assert("py"@[0] != "rb"@[0]);
    assert("py"@[0] != "cs"@[0]);
    assert("go"@[0] != "cc"@[0]);
    assert("go"@[0] != "rb"@[0]);
    assert("go"@[0] != "cs"@[0]);
    assert("c"@[0] != "h"@[0]);
    assert("cpp"@[1] != "cxx"@[1]);
    assert("cpp"@[0] != "hpp"@[0]);
    assert("cpp"@[0] != "hxx"@[0]);
    assert("cpp"@[0] != "php"@[0]);
    assert("cpp"@[1] != "c++"@[1]);
    assert("cc"@[0] != "rb"@[0]);
    assert("cc"@[1] != "cs"@[1]);
    assert("cxx"@[0] != "hpp"@[0]);
    assert("cxx"@[0] != "hxx"@[0]);
    assert("cxx"@[0] != "php"@[0]);
    assert("cxx"@[1] != "c++"@[1]);
    assert("hpp"@[1] != "hxx"@[1]);
    assert("hpp"@[0] != "php"@[0]);
    assert("hpp"@[0] != "c++"@[0]);
    assert("hxx"@[0] != "php"@[0]);
    assert("hxx"@[0] != "c++"@[0]);
    assert("java"@[0] != "rust"@[0]);
    assert("java"@[0] != "ruby"@[0]);
    assert("rb"@[0] != "cs"@[0]);
    assert("php"@[0] != "c++"@[0]);
    assert("rust"@[2] != "ruby"@[2]);
    assert("typescript"@[0] != "javascript"@[0]);
    assert("python"@[0] != "csharp"@[0]);
    assert(rules_for_language("rs"@) == rules_for_language("rust"@) && rules_for_language("rust"@) is Some);
    assert(rules_for_language("js"@) == rules_for_language("javascript"@) && rules_for_language("javascript"@) is Some);
    assert(rules_for_language("jsx"@) == rules_for_language("javascript"@) && rules_for_language("javascript"@) is Some);
    assert(rules_for_language("ts"@) == rules_for_language("typescript"@) && rules_for_language("typescript"@) is Some);
    assert(rules_for_language("tsx"@) == rules_for_language("typescript"@) && rules_for_language("typescript"@) is Some);
    assert(rules_for_language("py"@) == rules_for_language("python"@) && rules_for_language("python"@) is Some);
    assert(rules_for_language("go"@) == rules_for_language("go"@) && rules_for_language("go"@) is Some);
    assert(rules_for_language("c"@) == rules_for_language("c"@) && rules_for_language("c"@) is Some);
    assert(rules_for_language("h"@) == rules_for_language("c"@) && rules_for_language("c"@) is Some);
    assert(rules_for_language("cpp"@) == rules_for_language("cpp"@) && rules_for_language("cpp"@) is Some);
    assert(rules_for_language("cc"@) == rules_for_language("cpp"@) && rules_for_language("cpp"@) is Some);
    assert(rules_for_language("cxx"@) == rules_for_language("cpp"@) && rules_for_language("cpp"@) is Some);
    assert(rules_for_language("hpp"@) == rules_for_language("cpp"@) && rules_for_language("cpp"@) is Some);
    assert(rules_for_language("hxx"@) == rules_for_language("cpp"@) && rules_for_language("cpp"@) is Some);
    assert(rules_for_language("java"@) == rules_for_language("java"@) && rules_for_language("java"@) is Some);
    assert forall|i: int| 0 <= i < documented_extensions().len() implies rules_for_language(
        #[trigger] documented_extensions()[i].0,
    ) == rules_for_language(documented_extensions()[i].1) && rules_for_language(
        documented_extensions()[i].1,
    ) is Some by {
        assert(documented_extensions()[i] == seq![("rs"@, "rust"@), ("js"@, "javascript"@), ("jsx"@, "javascript"@), ("ts"@, "typescript"@), ("tsx"@, "typescript"@), ("py"@, "python"@), ("go"@, "go"@), ("c"@, "c"@), ("h"@, "c"@), ("cpp"@, "cpp"@), ("cc"@, "cpp"@), ("cxx"@, "cpp"@), ("hpp"@, "cpp"@), ("hxx"@, "cpp"@), ("java"@, "java"@)][i]);
    }
}

} // verus!
