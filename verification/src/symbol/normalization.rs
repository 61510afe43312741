//! Symbol Name and Signature Normalization
//!
//! Normalization of symbol names, qualified names, type names and signatures, so that
//! semantically equivalent symbols get the same UID.
use vstd::prelude::*;
use crate::text::text_lower;
use vstd::utf8::encode_utf8;
use std::collections::HashMap;
use crate::text::{
    TrimSet, append, chars_eq, chars_of, contains, contains_exec, decimal, decimal_exec, ends_with,
    eq_lit, find, find_exec, has_prefix, has_suffix, is_control_char, join, join_exec,
    lemma_find, lemma_rfind_char_below, replace, replace_exec, rfind_char, has_char, matches_at,
    lemma_replace_after_prefix, lemma_replace_at_start,
    rfind_char_exec, seqs_view, slice, split, split_exec, starts_with, string_of, trim, trim_both,
    trim_both_exec, trim_end_str, trim_end_str_exec, trim_exec,
};
use crate::external::{
    regex_all_captures, regex_captures, regex_captures_iter,
    regex_first_captures, regex_is_valid, regex_replace_all, regex_replace_all_text,
    to_lowercase, groups_view,
};
use crate::symbol::{UIDError, UIDErrorView, UIDResult, text_result, texts_result, chars_to_strings};

verus! {

broadcast use vstd::string::group_string_axioms;

/// Main normalizer for symbol names and signatures
pub struct Normalizer {
    /// Cache for normalized results
    normalization_cache: HashMap<String, String>,
}

// ---------------------------------------------------------------------------
// Model
// ---------------------------------------------------------------------------

pub open spec fn invalid_symbol(msg: Seq<char>) -> UIDErrorView {
    UIDErrorView::InvalidSymbol(msg)
}

pub open spec fn normalization_error(component: Seq<char>, error: Seq<char>) -> UIDErrorView {
    UIDErrorView::NormalizationError { component, error }
}

/// A name with leading and trailing underscores removed; all underscores is an error
/// of the named component.
pub open spec fn underscore_trimmed(n: Seq<char>, component: Seq<char>) -> Result<
    Seq<char>,
    UIDErrorView,
> {
    let t = trim_both(n, TrimSet::Only('_'));
    if t.len() == 0 {
        Err(normalization_error(component, "Name consists only of underscores: '"@ + n + "'"@))
    } else {
        Ok(t)
    }
}

/// A JavaScript/TypeScript name without a trailing type annotation.
pub open spec fn js_name(n: Seq<char>) -> Seq<char> {
    match find(n, ":"@) {
        Some(p) => trim(n.take(p)),
        None => n,
    }
}

/// The language-specific step of name normalization, on a trimmed name.
pub open spec fn language_name(n: Seq<char>, lang: Seq<char>) -> Result<Seq<char>, UIDErrorView> {
    if lang == "rust"@ {
        underscore_trimmed(n, "rust_name"@)
    } else if lang == "typescript"@ || lang == "javascript"@ {
        Ok(js_name(n))
    } else if lang == "python"@ {
        underscore_trimmed(n, "python_name"@)
    } else {
        Ok(n)
    }
}

/// The result of normalizing a symbol name for a language.
pub open spec fn normalized_name(name: Seq<char>, language: Seq<char>) -> Result<
    Seq<char>,
    UIDErrorView,
> {
    if name.len() == 0 {
        Err(invalid_symbol("Symbol name cannot be empty"@))
    } else {
        match language_name(trim(name), text_lower(language)) {
            Err(e) => Err(e),
            Ok(m) => {
                let t = trim_both(m, TrimSet::WhitespaceOr('_'));
                if t.len() == 0 {
                    Err(
                        normalization_error(
                            "symbol_name"@,
                            "Normalization resulted in empty name for input: '"@ + name + "'"@,
                        ),
                    )
                } else {
                    Ok(t)
                }
            },
        }
    }
}

/// The separator of qualified names in a (lowercased) language.
pub open spec fn fqn_separator(lang: Seq<char>) -> Seq<char> {
    if lang == "rust"@ || lang == "c"@ || lang == "cpp"@ || lang == "c++"@ {
        "::"@
    } else if lang == "java"@ || lang == "typescript"@ || lang == "javascript"@ || lang
        == "python"@ || lang == "go"@ {
        "."@
    } else {
        "::"@
    }
}

/// The trimmed, non-empty components of a qualified name.
pub open spec fn fqn_parts(fqn: Seq<char>, language: Seq<char>) -> Seq<Seq<char>> {
    split(fqn, fqn_separator(text_lower(language))).map_values(|p: Seq<char>| trim(p)).filter(
        |p: Seq<char>| p.len() > 0,
    )
}

/// Each name normalized, left to right; the first error is the result.
pub open spec fn normalized_names(parts: Seq<Seq<char>>, language: Seq<char>) -> Result<
    Seq<Seq<char>>,
    UIDErrorView,
>
    decreases parts.len(),
{
    if parts.len() == 0 {
        Ok(Seq::empty())
    } else {
        match normalized_name(parts[0], language) {
            Err(e) => Err(e),
            Ok(h) => match normalized_names(parts.drop_first(), language) {
                Err(e) => Err(e),
                Ok(t) => Ok(seq![h] + t),
            },
        }
    }
}

/// Normalizing names keeps their number.
pub proof fn lemma_normalized_names_len(parts: Seq<Seq<char>>, language: Seq<char>)
    ensures
        normalized_names(parts, language) is Ok ==> normalized_names(parts, language)->Ok_0.len()
            == parts.len(),
    decreases parts.len(),
{
    if parts.len() > 0 {
        lemma_normalized_names_len(parts.drop_first(), language);
    }
}

/// The result of splitting and normalizing a qualified name.
pub open spec fn qualified_name_parts(fqn: Seq<char>, language: Seq<char>) -> Result<
    Seq<Seq<char>>,
    UIDErrorView,
> {
    if fqn.len() == 0 {
        Err(invalid_symbol("Qualified name cannot be empty"@))
    } else if fqn_parts(fqn, language).len() == 0 {
        Err(
            normalization_error(
                "qualified_name"@,
                "No valid components found in FQN: '"@ + fqn + "'"@,
            ),
        )
    } else {
        normalized_names(fqn_parts(fqn, language), language)
    }
}

/// The value of the first entry whose key is `n`, or `n` itself.
pub open spec fn exact_map(n: Seq<char>, table: Seq<(Seq<char>, Seq<char>)>) -> Seq<char>
    decreases table.len(),
{
    if table.len() == 0 {
        n
    } else if table[0].0 == n {
        table[0].1
    } else {
        exact_map(n, table.drop_first())
    }
}

/// Each entry in turn replaces its key by its value where the text contains the key.
pub open spec fn contained_replace_all(n: Seq<char>, table: Seq<(Seq<char>, Seq<char>)>) -> Seq<
    char,
>
    decreases table.len(),
{
    if table.len() == 0 {
        n
    } else {
        let m = if contains(n, table[0].0) {
            replace(n, table[0].0, table[0].1)
        } else {
            n
        };
        contained_replace_all(m, table.drop_first())
    }
}

pub open spec fn rust_type_table() -> Seq<(Seq<char>, Seq<char>)> {
    seq![
        ("str"@, "&str"@),
        ("String"@, "String"@),
        ("i8"@, "i8"@),
        ("i16"@, "i16"@),
        ("i32"@, "i32"@),
        ("i64"@, "i64"@),
        ("u8"@, "u8"@),
        ("u16"@, "u16"@),
        ("u32"@, "u32"@),
        ("u64"@, "u64"@),
        ("f32"@, "f32"@),
        ("f64"@, "f64"@),
        ("bool"@, "bool"@),
        ("char"@, "char"@),
        ("usize"@, "usize"@),
        ("isize"@, "isize"@),
    ]
}

pub open spec fn java_type_table() -> Seq<(Seq<char>, Seq<char>)> {
    seq![
        ("String"@, "java.lang.String"@),
        ("Object"@, "java.lang.Object"@),
        ("Integer"@, "java.lang.Integer"@),
        ("Double"@, "java.lang.Double"@),
        ("Boolean"@, "java.lang.Boolean"@),
        ("List"@, "java.util.List"@),
        ("Map"@, "java.util.Map"@),
        ("Set"@, "java.util.Set"@),
    ]
}

pub open spec fn js_type_table() -> Seq<(Seq<char>, Seq<char>)> {
    seq![
        ("number"@, "number"@),
        ("string"@, "string"@),
        ("boolean"@, "boolean"@),
        ("object"@, "object"@),
        ("any"@, "any"@),
        ("void"@, "void"@),
        ("null"@, "null"@),
        ("undefined"@, "undefined"@),
    ]
}

pub open spec fn python_type_table() -> Seq<(Seq<char>, Seq<char>)> {
    seq![
        ("str"@, "str"@),
        ("int"@, "int"@),
        ("float"@, "float"@),
        ("bool"@, "bool"@),
        ("list"@, "list"@),
        ("dict"@, "dict"@),
        ("tuple"@, "tuple"@),
        ("set"@, "set"@),
    ]
}

pub open spec fn go_type_table() -> Seq<(Seq<char>, Seq<char>)> {
    seq![
        ("string"@, "string"@),
        ("int"@, "int"@),
        ("int8"@, "int8"@),
        ("int16"@, "int16"@),
        ("int32"@, "int32"@),
        ("int64"@, "int64"@),
        ("uint"@, "uint"@),
        ("uint8"@, "uint8"@),
        ("uint16"@, "uint16"@),
        ("uint32"@, "uint32"@),
        ("uint64"@, "uint64"@),
        ("float32"@, "float32"@),
        ("float64"@, "float64"@),
        ("bool"@, "bool"@),
        ("byte"@, "uint8"@),
        ("rune"@, "int32"@),
    ]
}

pub open spec fn c_type_table() -> Seq<(Seq<char>, Seq<char>)> {
    seq![
        ("std::string"@, "std::string"@),
        ("std::vector"@, "std::vector"@),
        ("std::map"@, "std::map"@),
        ("std::set"@, "std::set"@),
        ("size_t"@, "size_t"@),
    ]
}

/// A type name as the normalizer writes it for a language.
pub open spec fn normalized_typename(type_text: Seq<char>, language: Seq<char>) -> Seq<char> {
    if type_text.len() == 0 {
        Seq::empty()
    } else {
        let n = trim(type_text);
        let lang = text_lower(language);
        if lang == "rust"@ {
            exact_map(replace(replace(n, "&mut "@, "&mut"@), "& "@, "&"@), rust_type_table())
        } else if lang == "java"@ {
            exact_map(n, java_type_table())
        } else if lang == "typescript"@ || lang == "javascript"@ {
            exact_map(n, js_type_table())
        } else if lang == "python"@ {
            exact_map(n, python_type_table())
        } else if lang == "go"@ {
            exact_map(n, go_type_table())
        } else if lang == "c"@ || lang == "cpp"@ || lang == "c++"@ {
            contained_replace_all(
                replace(
                    replace(
                        replace(replace(n, "unsigned int"@, "unsigned"@), "signed int"@, "int"@),
                        "long int"@,
                        "long"@,
                    ),
                    "short int"@,
                    "short"@,
                ),
                c_type_table(),
            )
        } else {
            n
        }
    }
}

/// Runs of whitespace become one space, and the ends are trimmed.
pub open spec fn ws_normalized(text: Seq<char>) -> Seq<char> {
    if regex_is_valid("\\s+"@) {
        trim(regex_replace_all_text("\\s+"@, text, " "@))
    } else {
        trim(text)
    }
}

/// A capture group, `None` where the group does not exist or did not take part.
pub open spec fn group(groups: Seq<Option<Seq<char>>>, i: int) -> Option<Seq<char>> {
    if 0 <= i < groups.len() {
        groups[i]
    } else {
        None
    }
}

pub open spec fn rust_function_pattern() -> Seq<char> {
    "fn\\s+(\\w+)\\s*\\([^)]*\\)(?:\\s*->\\s*([^{]+))?"@
}

pub open spec fn rust_params_pattern() -> Seq<char> {
    "\\b(\\w+):\\s*([^,)]+)"@
}

pub open spec fn python_def_pattern() -> Seq<char> {
    "def\\s+(\\w+)\\s*\\([^)]*\\)(?:\\s*->\\s*([^:]+))?"@
}

/// `name: type` for each match that has both groups.
pub open spec fn rust_param_list(caps: Seq<Seq<Option<Seq<char>>>>) -> Seq<Seq<char>>
    decreases caps.len(),
{
    if caps.len() == 0 {
        Seq::empty()
    } else {
        let rest = rust_param_list(caps.drop_first());
        match (group(caps[0], 1), group(caps[0], 2)) {
            (Some(name), Some(ty)) => seq![
                name + ": "@ + normalized_typename(trim(ty), "rust"@),
            ] + rest,
            _ => rest,
        }
    }
}

/// The parameters of a Rust signature, `name: type` joined by `, `.
pub open spec fn rust_params(sig: Seq<char>) -> Seq<char> {
    if regex_is_valid(rust_params_pattern()) {
        join(rust_param_list(regex_all_captures(rust_params_pattern(), sig)), ", "@)
    } else {
        Seq::empty()
    }
}

/// A Rust signature rebuilt as `fn name(params) -> ret`.
pub open spec fn rust_signature(sig: Seq<char>) -> Seq<char> {
    let caps = if regex_is_valid(rust_function_pattern()) {
        regex_first_captures(rust_function_pattern(), sig)
    } else {
        None
    };
    match caps {
        Some(gs) => match group(gs, 1) {
            Some(name) => "fn "@ + name + "("@ + rust_params(sig) + ")"@ + match group(gs, 2) {
                Some(ret) => " -> "@ + normalized_typename(trim(ret), "rust"@),
                None => Seq::empty(),
            },
            None => ws_normalized(sig),
        },
        None => ws_normalized(sig),
    }
}

/// Whether the parameter list of a Python signature can be cut out: the last `)` does not
/// come before the first `(`.
pub open spec fn python_brackets_ok(sig: Seq<char>) -> bool {
    match (find(sig, "("@), rfind_char(sig, ')')) {
        (Some(s), Some(e)) => e >= s + 1,
        _ => true,
    }
}

/// The Python parameters kept, each `name: type` with the type normalized.
pub open spec fn python_param_list(params: Seq<Seq<char>>) -> Seq<Seq<char>>
    decreases params.len(),
{
    if params.len() == 0 {
        Seq::empty()
    } else {
        let p = params[0];
        let rest = python_param_list(params.drop_first());
        if p.len() == 0 || p == "self"@ || p == "cls"@ {
            rest
        } else {
            match find(p, ":"@) {
                Some(c) => seq![
                    trim(p.take(c)) + ": "@ + normalized_typename(trim(p.skip(c + 1)), "python"@),
                ] + rest,
                None => seq![p] + rest,
            }
        }
    }
}

/// The parameters between the first `(` and the last `)` of a Python signature.
pub open spec fn python_params(sig: Seq<char>) -> Seq<char> {
    match (find(sig, "("@), rfind_char(sig, ')')) {
        (Some(s), Some(e)) => join(
            python_param_list(
                split(sig.subrange(s + 1, e), ","@).map_values(|p: Seq<char>| trim(p)),
            ),
            ", "@,
        ),
        _ => Seq::empty(),
    }
}

/// A Python signature rebuilt as `def name(params) -> ret`.
pub open spec fn python_signature(sig: Seq<char>) -> Seq<char> {
    let caps = if regex_is_valid(python_def_pattern()) {
        regex_first_captures(python_def_pattern(), sig)
    } else {
        None
    };
    match caps {
        Some(gs) => if !python_brackets_ok(sig) {
            sig
        } else {
            let head = match group(gs, 1) {
                Some(name) => "def "@ + name,
                None => Seq::empty(),
            };
            head + "("@ + python_params(sig) + ")"@ + match group(gs, 2) {
                Some(ret) => " -> "@ + normalized_typename(trim(ret), "python"@),
                None => Seq::empty(),
            }
        },
        None => sig,
    }
}

/// Each word `k` in turn: `"k "` becomes `" "`.
pub open spec fn strip_words(s: Seq<char>, kws: Seq<Seq<char>>) -> Seq<char>
    decreases kws.len(),
{
    if kws.len() == 0 {
        s
    } else {
        strip_words(replace(s, kws[0] + " "@, " "@), kws.drop_first())
    }
}

pub open spec fn js_keywords() -> Seq<Seq<char>> {
    seq![
        "export"@,
        "default"@,
        "async"@,
        "function"@,
        "public"@,
        "private"@,
        "protected"@,
        "static"@,
    ]
}

pub open spec fn java_modifiers() -> Seq<Seq<char>> {
    seq![
        "public"@,
        "private"@,
        "protected"@,
        "static"@,
        "final"@,
        "abstract"@,
        "synchronized"@,
    ]
}

pub open spec fn c_keywords() -> Seq<Seq<char>> {
    seq!["virtual"@, "override"@, "final"@, "inline"@, "static"@, "extern"@]
}

pub open spec fn js_signature(sig: Seq<char>) -> Seq<char> {
    let n = strip_words(sig, js_keywords());
    ws_normalized(
        if contains(n, "=>"@) {
            replace(n, "=>"@, " => "@)
        } else {
            n
        },
    )
}

pub open spec fn go_signature(sig: Seq<char>) -> Seq<char> {
    ws_normalized(
        match find(sig, "func"@) {
            Some(start) => sig.skip(start),
            None => sig,
        },
    )
}

pub open spec fn java_signature(sig: Seq<char>) -> Seq<char> {
    ws_normalized(strip_words(sig, java_modifiers()))
}

/// One C/C++ keyword removed: before a space, at the end, and at the start.
pub open spec fn c_strip_keyword(s: Seq<char>, kw: Seq<char>) -> Seq<char> {
    let a = replace(s, kw + " "@, " "@);
    let b = if ends_with(a, kw) {
        trim(a.take(a.len() - kw.len()))
    } else {
        a
    };
    if starts_with(b, kw + " "@) {
        b.skip(kw.len() + 1 as int)
    } else {
        b
    }
}

pub open spec fn c_strip_keywords(s: Seq<char>, kws: Seq<Seq<char>>) -> Seq<char>
    decreases kws.len(),
{
    if kws.len() == 0 {
        s
    } else {
        c_strip_keywords(c_strip_keyword(s, kws[0]), kws.drop_first())
    }
}

pub open spec fn c_signature(sig: Seq<char>) -> Seq<char> {
    let n = c_strip_keywords(sig, c_keywords());
    ws_normalized(
        if ends_with(n, " const"@) {
            trim_end_str(n, " const"@) + " const"@
        } else {
            n
        },
    )
}

/// The language-specific step of signature normalization, on a trimmed signature.
pub open spec fn language_signature(n: Seq<char>, lang: Seq<char>) -> Seq<char> {
    if lang == "rust"@ {
        rust_signature(n)
    } else if lang == "typescript"@ || lang == "javascript"@ {
        js_signature(n)
    } else if lang == "python"@ {
        python_signature(n)
    } else if lang == "go"@ {
        go_signature(n)
    } else if lang == "java"@ {
        java_signature(n)
    } else if lang == "c"@ || lang == "cpp"@ || lang == "c++"@ {
        c_signature(n)
    } else {
        ws_normalized(n)
    }
}

/// A control character other than newline and tab.
pub open spec fn has_bad_control(s: Seq<char>) -> bool {
    exists|i: int| 0 <= i < s.len() && is_control_char(s[i]) && s[i] != '\n' && s[i] != '\t'
}

/// The result of normalizing a signature for a language.
pub open spec fn normalized_signature_result(sig: Seq<char>, language: Seq<char>) -> Result<
    Seq<char>,
    UIDErrorView,
> {
    if sig.len() == 0 {
        Ok(Seq::empty())
    } else if encode_utf8(sig).len() > 10000 {
        Err(
            normalization_error(
                "signature"@,
                "Signature too long: "@ + decimal(encode_utf8(sig).len()) + " characters"@,
            ),
        )
    } else if has_bad_control(trim(sig)) {
        Err(normalization_error("signature"@, "Signature contains invalid control characters"@))
    } else {
        Ok(ws_normalized(language_signature(trim(sig), text_lower(language))))
    }
}

// ---------------------------------------------------------------------------
// Implementation
// ---------------------------------------------------------------------------

pub open spec fn table_view(t: Seq<(&str, &str)>) -> Seq<(Seq<char>, Seq<char>)> {
    t.map_values(|p: (&str, &str)| (p.0@, p.1@))
}

fn exact_map_exec(n: &Vec<char>, table: &[(&str, &str)]) -> (r: Vec<char>)
    ensures
        r@ == exact_map(n@, table_view(table@)),
{
    let ghost t = table_view(table@);
    let mut i: usize = 0;
    assert(t.skip(0) =~= t);
    while i < table.len()
        invariant
            i <= table@.len(),
            t == table_view(table@),
            exact_map(n@, t) == exact_map(n@, t.skip(i as int)),
        decreases table.len() - i,
    {
        assert(t.skip(i as int).drop_first() =~= t.skip(i + 1));
        let (from, to) = table[i];
        if chars_eq(n, &chars_of(from)) {
            return chars_of(to);
        }
        i += 1;
    }
    n.clone()
}

fn contained_replace_all_exec(n: &Vec<char>, table: &[(&str, &str)]) -> (r: Vec<char>)
    ensures
        r@ == contained_replace_all(n@, table_view(table@)),
{
    let ghost t = table_view(table@);
    let mut cur = n.clone();
    let mut i: usize = 0;
    assert(t.skip(0) =~= t);
    while i < table.len()
        invariant
            i <= table@.len(),
            t == table_view(table@),
            contained_replace_all(n@, t) == contained_replace_all(cur@, t.skip(i as int)),
        decreases table.len() - i,
    {
        assert(t.skip(i as int).drop_first() =~= t.skip(i + 1));
        let (from, to) = table[i];
        let from_chars = chars_of(from);
        if contains_exec(&cur, &from_chars) {
            cur = replace_exec(&cur, &from_chars, &chars_of(to));
        }
        i += 1;
    }
    cur
}

fn strip_words_exec(s: &Vec<char>, kws: &[&str]) -> (r: Vec<char>)
    ensures
        r@ == strip_words(s@, kws@.map_values(|k: &str| k@)),
{
    let ghost ks = kws@.map_values(|k: &str| k@);
    let mut cur = s.clone();
    let space = chars_of(" ");
    let mut i: usize = 0;
    assert(ks.skip(0) =~= ks);
    while i < kws.len()
        invariant
            i <= kws@.len(),
            ks == kws@.map_values(|k: &str| k@),
            space@ == " "@,
            strip_words(s@, ks) == strip_words(cur@, ks.skip(i as int)),
        decreases kws.len() - i,
    {
        assert(ks.skip(i as int).drop_first() =~= ks.skip(i + 1));
        let mut kw_space = chars_of(kws[i]);
        append(&mut kw_space, &space);
        cur = replace_exec(&cur, &kw_space, &space);
        i += 1;
    }
    cur
}

fn c_strip_keyword_exec(s: &Vec<char>, kw: &Vec<char>) -> (r: Vec<char>)
    ensures
        r@ == c_strip_keyword(s@, kw@),
{
    let space = chars_of(" ");
    let mut kw_space = kw.clone();
    append(&mut kw_space, &space);
    // Remove keyword followed by space
    let mut n = replace_exec(s, &kw_space, &space);
    // Remove keyword at the end of string
    if has_suffix(&n, kw) {
        let cut = n.len() - kw.len();
        n = trim_exec(&slice(&n, 0, cut));
    }
    // Remove keyword at the beginning of string
    proof {
        reveal_strlit(" ");
    }
    if has_prefix(&n, &kw_space) {
        let start = kw_space.len();
        n = slice(&n, start, n.len());
    }
    n
}

/// The group `i` of a match, `None` where it is absent.
fn group_exec(groups: &Vec<Option<String>>, i: usize) -> (r: Option<Vec<char>>)
    ensures
        match r {
            Some(g) => group(groups_view(*groups), i as int) == Some(g@),
            None => group(groups_view(*groups), i as int) is None,
        },
{
    if i < groups.len() {
        match &groups[i] {
            Some(g) => Some(chars_of(g.as_str())),
            None => None,
        }
    } else {
        None
    }
}

pub open spec fn ok_text(r: UIDResult<Vec<char>>) -> Result<Seq<char>, UIDErrorView> {
    match r {
        Ok(v) => Ok(v@),
        Err(e) => Err(e@),
    }
}

impl Normalizer {
    /// The normalized results the normalizer has cached, under what they normalize.
    pub closed spec fn cached_results(&self) -> Map<String, String> {
        self.normalization_cache@
    }

    /// Create a new normalizer, with nothing cached
    pub fn new() -> (r: Self)
        ensures
            r.cached_results() == Map::<String, String>::empty(),
    {
        Self { normalization_cache: HashMap::new() }
    }

    /// Normalize a symbol name for consistent UID generation
    pub fn normalize_symbol_name(&self, name: &str, language: &str) -> (r: UIDResult<String>)
        ensures
            text_result(r) == normalized_name(name@, language@),
    {
        match self.normalize_name_chars(&chars_of(name), language) {
            Ok(v) => Ok(string_of(&v)),
            Err(e) => Err(e),
        }
    }

    pub fn normalize_name_chars(&self, name: &Vec<char>, language: &str) -> (r: UIDResult<Vec<char>>)
        ensures
            ok_text(r) == normalized_name(name@, language@),
    {
        if name.len() == 0 {
            return Err(UIDError::InvalidSymbol(string_of(&chars_of("Symbol name cannot be empty"))));
        }
        let mut normalized = trim_exec(name);
        let lang = chars_of(to_lowercase(language).as_str());
        // Language-specific name normalization
        if eq_lit(&lang, "rust") {
            normalized = match self.normalize_rust_name(&normalized) {
                Ok(v) => v,
                Err(e) => return Err(e),
            };
        } else if eq_lit(&lang, "typescript") || eq_lit(&lang, "javascript") {
            normalized = self.normalize_js_ts_name(&normalized);
        } else if eq_lit(&lang, "python") {
            normalized = match self.normalize_python_name(&normalized) {
                Ok(v) => v,
                Err(e) => return Err(e),
            };
        }
        // Remove any leading/trailing whitespace and underscores
        normalized = trim_both_exec(&normalized, TrimSet::WhitespaceOr('_'));
        if normalized.len() == 0 {
            let mut msg = chars_of("Normalization resulted in empty name for input: '");
            append(&mut msg, name);
            append(&mut msg, &chars_of("'"));
            return Err(
                UIDError::NormalizationError {
                    component: string_of(&chars_of("symbol_name")),
                    error: string_of(&msg),
                },
            );
        }
        Ok(normalized)
    }

    /// Normalize a fully qualified name (FQN) and split into components
    pub fn split_qualified_name(&self, fqn: &str, language: &str) -> (r: UIDResult<Vec<String>>)
        ensures
            texts_result(r) == qualified_name_parts(fqn@, language@),
    {
        let f = chars_of(fqn);
        if f.len() == 0 {
            return Err(UIDError::InvalidSymbol(string_of(&chars_of("Qualified name cannot be empty"))));
        }
        let lang = chars_of(to_lowercase(language).as_str());
        // Determine separator based on language
        let separator = if eq_lit(&lang, "rust") || eq_lit(&lang, "c") || eq_lit(&lang, "cpp")
            || eq_lit(&lang, "c++") {
            chars_of("::")
        } else if eq_lit(&lang, "java") || eq_lit(&lang, "typescript") || eq_lit(
            &lang,
            "javascript",
        ) || eq_lit(&lang, "python") || eq_lit(&lang, "go") {
            chars_of(".")
        } else {
            chars_of("::")
        };
        proof {
            reveal_strlit("::");
            reveal_strlit(".");
        }
        let pieces = split_exec(&f, &separator);
        // Trim the pieces and keep the non-empty ones
        let ghost trimmed = seqs_view(pieces@).map_values(|p: Seq<char>| trim(p));
        let ghost keep = |p: Seq<char>| p.len() > 0;
        let mut parts: Vec<Vec<char>> = Vec::new();
        let mut i: usize = 0;
        while i < pieces.len()
            invariant
                i <= pieces@.len(),
                trimmed == seqs_view(pieces@).map_values(|p: Seq<char>| trim(p)),
                keep == (|p: Seq<char>| p.len() > 0),
                seqs_view(parts@) == trimmed.take(i as int).filter(keep),
            decreases pieces.len() - i,
        {
            let t = trim_exec(&pieces[i]);
            proof {
                reveal_with_fuel(Seq::<_>::filter, 1);
                assert(trimmed.take(i + 1).drop_last() =~= trimmed.take(i as int));
                assert(trimmed[i as int] == t@);
            }
            if t.len() > 0 {
                let ghost before = parts@;
                parts.push(t);
                assert(seqs_view(parts@) =~= seqs_view(before).push(t@));
            }
            i += 1;
        }
        assert(trimmed.take(pieces@.len() as int) =~= trimmed);
        assert(seqs_view(parts@) == fqn_parts(fqn@, language@));
        if parts.len() == 0 {
            let mut msg = chars_of("No valid components found in FQN: '");
            append(&mut msg, &f);
            append(&mut msg, &chars_of("'"));
            return Err(
                UIDError::NormalizationError {
                    component: string_of(&chars_of("qualified_name")),
                    error: string_of(&msg),
                },
            );
        }
        // Normalize each component
        let ghost all = seqs_view(parts@);
        let mut out: Vec<Vec<char>> = Vec::new();
        let mut k: usize = 0;
        assert(all.skip(0) =~= all);
        while k < parts.len()
            invariant
                k <= parts@.len(),
                all == seqs_view(parts@),
                all == fqn_parts(fqn@, language@),
                fqn@.len() > 0,
                all.len() > 0,
                normalized_names(all, language@) == match normalized_names(
                    all.skip(k as int),
                    language@,
                ) {
                    Ok(t) => Ok(seqs_view(out@) + t),
                    Err(e) => Err(e),
                },
            decreases parts.len() - k,
        {
            assert(all.skip(k as int).drop_first() =~= all.skip(k + 1));
            assert(all.skip(k as int)[0] == parts@[k as int]@);
            match self.normalize_name_chars(&parts[k], language) {
                Ok(v) => {
                    let ghost before = out@;
                    out.push(v);
                    assert(seqs_view(out@) =~= seqs_view(before).push(v@));
                    proof {
                        match normalized_names(all.skip(k + 1), language@) {
                            Ok(t) => {
                                assert(seqs_view(before) + (seq![v@] + t) =~= seqs_view(out@) + t);
                            },
                            Err(_) => {},
                        }
                    }
                },
                Err(e) => {
                    return Err(e);
                },
            }
            k += 1;
        }
        assert(all.skip(parts@.len() as int) =~= Seq::<Seq<char>>::empty());
        assert(seqs_view(out@) + Seq::<Seq<char>>::empty() =~= seqs_view(out@));
        Ok(chars_to_strings(&out))
    }

    /// Normalize a function/method signature
    pub fn normalize_signature(&self, signature: &str, language: &str) -> (r: UIDResult<String>)
        ensures
            text_result(r) == normalized_signature_result(signature@, language@),
    {
        let sig = chars_of(signature);
        if sig.len() == 0 {
            return Ok(string_of(&Vec::new()));
        }
        // Input validation for malformed signatures
        let byte_len = signature.as_bytes().len();
        if byte_len > 10000 {
            let mut msg = chars_of("Signature too long: ");
            append(&mut msg, &decimal_exec(byte_len as u64));
            append(&mut msg, &chars_of(" characters"));
            return Err(
                UIDError::NormalizationError {
                    component: string_of(&chars_of("signature")),
                    error: string_of(&msg),
                },
            );
        }
        let normalized = trim_exec(&sig);
        // Malformed signatures: control characters other than newline and tab
        let mut i: usize = 0;
        while i < normalized.len()
            invariant
                i <= normalized@.len(),
                normalized@ == trim(signature@),
                signature@.len() > 0,
                encode_utf8(signature@).len() <= 10000,
                forall|j: int|
                    0 <= j < i ==> !(is_control_char(normalized@[j]) && normalized@[j] != '\n'
                        && normalized@[j] != '\t'),
            decreases normalized.len() - i,
        {
            let c = normalized[i];
            if (c <= '\u{1f}' || ('\u{7f}' <= c && c <= '\u{9f}')) && c != '\n' && c != '\t' {
                assert(has_bad_control(normalized@)) by {
                    assert(is_control_char(normalized@[i as int]));
                }
                return Err(
                    UIDError::NormalizationError {
                        component: string_of(&chars_of("signature")),
                        error: string_of(&chars_of("Signature contains invalid control characters")),
                    },
                );
            }
            i += 1;
        }
        let lang = chars_of(to_lowercase(language).as_str());
        // Language-specific signature normalization
        let step = if eq_lit(&lang, "rust") {
            self.normalize_rust_signature(&normalized)
        } else if eq_lit(&lang, "typescript") || eq_lit(&lang, "javascript") {
            self.normalize_js_ts_signature(&normalized)
        } else if eq_lit(&lang, "python") {
            self.normalize_python_signature(&normalized)
        } else if eq_lit(&lang, "go") {
            self.normalize_go_signature(&normalized)
        } else if eq_lit(&lang, "java") {
            self.normalize_java_signature(&normalized)
        } else if eq_lit(&lang, "c") || eq_lit(&lang, "cpp") || eq_lit(&lang, "c++") {
            self.normalize_c_cpp_signature(&normalized)
        } else {
            self.normalize_whitespace_chars(&normalized)
        };
        // Final whitespace cleanup
        Ok(string_of(&self.normalize_whitespace_chars(&step)))
    }

    /// Normalize a type name for consistent representation
    pub fn normalize_typename(&self, type_text: &str, language: &str) -> (r: UIDResult<String>)
        ensures
            r is Ok,
            text_result(r) == Ok::<Seq<char>, UIDErrorView>(normalized_typename(type_text@, language@)),
    {
        Ok(string_of(&self.normalize_typename_chars(&chars_of(type_text), language)))
    }

    pub fn normalize_typename_chars(&self, type_text: &Vec<char>, language: &str) -> (r: Vec<char>)
        ensures
            r@ == normalized_typename(type_text@, language@),
    {
        if type_text.len() == 0 {
            return Vec::new();
        }
        let mut normalized = trim_exec(type_text);
        let lang = chars_of(to_lowercase(language).as_str());
        if eq_lit(&lang, "rust") {
            // Handle Rust-specific type normalization
            normalized = replace_exec(&normalized, &chars_of("&mut "), &chars_of("&mut"));
            normalized = replace_exec(&normalized, &chars_of("& "), &chars_of("&"));
            // Normalize common Rust types
            let type_map: [(&str, &str); 16] = [
                ("str", "&str"),
                ("String", "String"),
                ("i8", "i8"),
                ("i16", "i16"),
                ("i32", "i32"),
                ("i64", "i64"),
                ("u8", "u8"),
                ("u16", "u16"),
                ("u32", "u32"),
                ("u64", "u64"),
                ("f32", "f32"),
                ("f64", "f64"),
                ("bool", "bool"),
                ("char", "char"),
                ("usize", "usize"),
                ("isize", "isize"),
            ];
            assert(table_view(type_map@) =~= rust_type_table());
            normalized = exact_map_exec(&normalized, &type_map);
        } else if eq_lit(&lang, "java") {
            // Normalize Java types to fully qualified names where appropriate
            let type_map: [(&str, &str); 8] = [
                ("String", "java.lang.String"),
                ("Object", "java.lang.Object"),
                ("Integer", "java.lang.Integer"),
                ("Double", "java.lang.Double"),
                ("Boolean", "java.lang.Boolean"),
                ("List", "java.util.List"),
                ("Map", "java.util.Map"),
                ("Set", "java.util.Set"),
            ];
            assert(table_view(type_map@) =~= java_type_table());
            normalized = exact_map_exec(&normalized, &type_map);
        } else if eq_lit(&lang, "typescript") || eq_lit(&lang, "javascript") {
            // Normalize TypeScript/JavaScript types
            let type_map: [(&str, &str); 8] = [
                ("number", "number"),
                ("string", "string"),
                ("boolean", "boolean"),
                ("object", "object"),
                ("any", "any"),
                ("void", "void"),
                ("null", "null"),
                ("undefined", "undefined"),
            ];
            assert(table_view(type_map@) =~= js_type_table());
            normalized = exact_map_exec(&normalized, &type_map);
        } else if eq_lit(&lang, "python") {
            // Normalize Python types
            let type_map: [(&str, &str); 8] = [
                ("str", "str"),
                ("int", "int"),
                ("float", "float"),
                ("bool", "bool"),
                ("list", "list"),
                ("dict", "dict"),
                ("tuple", "tuple"),
                ("set", "set"),
            ];
            assert(table_view(type_map@) =~= python_type_table());
            normalized = exact_map_exec(&normalized, &type_map);
        } else if eq_lit(&lang, "go") {
            // Normalize Go types
            let type_map: [(&str, &str); 16] = [
                ("string", "string"),
                ("int", "int"),
                ("int8", "int8"),
                ("int16", "int16"),
                ("int32", "int32"),
                ("int64", "int64"),
                ("uint", "uint"),
                ("uint8", "uint8"),
                ("uint16", "uint16"),
                ("uint32", "uint32"),
                ("uint64", "uint64"),
                ("float32", "float32"),
                ("float64", "float64"),
                ("bool", "bool"),
                ("byte", "uint8"),  // byte is alias for uint8
                ("rune", "int32"),  // rune is alias for int32
            ];
            assert(table_view(type_map@) =~= go_type_table());
            normalized = exact_map_exec(&normalized, &type_map);
        } else if eq_lit(&lang, "c") || eq_lit(&lang, "cpp") || eq_lit(&lang, "c++") {
            // Normalize C/C++ types
            normalized = replace_exec(&normalized, &chars_of("unsigned int"), &chars_of("unsigned"));
            normalized = replace_exec(&normalized, &chars_of("signed int"), &chars_of("int"));
            normalized = replace_exec(&normalized, &chars_of("long int"), &chars_of("long"));
            normalized = replace_exec(&normalized, &chars_of("short int"), &chars_of("short"));
            let type_map: [(&str, &str); 5] = [
                ("std::string", "std::string"),
                ("std::vector", "std::vector"),
                ("std::map", "std::map"),
                ("std::set", "std::set"),
                ("size_t", "size_t"),
            ];
            assert(table_view(type_map@) =~= c_type_table());
            normalized = contained_replace_all_exec(&normalized, &type_map);
        }
        normalized
    }

    // Language-specific name normalization

    fn normalize_rust_name(&self, name: &Vec<char>) -> (r: UIDResult<Vec<char>>)
        ensures
            ok_text(r) == underscore_trimmed(name@, "rust_name"@),
    {
        self.underscore_trimmed_exec(name, "rust_name")
    }

    fn normalize_js_ts_name(&self, name: &Vec<char>) -> (r: Vec<char>)
        ensures
            r@ == js_name(name@),
    {
        // Remove TypeScript type annotations if present
        match find_exec(name, &chars_of(":")) {
            Some(pos) => {
                proof {
                    lemma_find(name@, ":"@);
                }
                trim_exec(&slice(name, 0, pos))
            },
            None => name.clone(),
        }
    }

    fn normalize_python_name(&self, name: &Vec<char>) -> (r: UIDResult<Vec<char>>)
        ensures
            ok_text(r) == underscore_trimmed(name@, "python_name"@),
    {
        self.underscore_trimmed_exec(name, "python_name")
    }

    fn normalize_go_name(&self, name: &Vec<char>) -> (r: Vec<char>)
        ensures
            r@ == name@,
    {
        name.clone()
    }

    fn normalize_java_name(&self, name: &Vec<char>) -> (r: Vec<char>)
        ensures
            r@ == name@,
    {
        name.clone()
    }

    fn normalize_c_cpp_name(&self, name: &Vec<char>) -> (r: Vec<char>)
        ensures
            r@ == name@,
    {
        // Operator names such as `operator+` are kept as they are
        name.clone()
    }

    fn underscore_trimmed_exec(&self, name: &Vec<char>, component: &str) -> (r: UIDResult<Vec<char>>)
        ensures
            ok_text(r) == underscore_trimmed(name@, component@),
    {
        let normalized = trim_both_exec(name, TrimSet::Only('_'));
        if normalized.len() == 0 {
            let mut msg = chars_of("Name consists only of underscores: '");
            append(&mut msg, name);
            append(&mut msg, &chars_of("'"));
            return Err(
                UIDError::NormalizationError {
                    component: string_of(&chars_of(component)),
                    error: string_of(&msg),
                },
            );
        }
        Ok(normalized)
    }

    // Signature normalization methods

    fn normalize_rust_signature(&self, signature: &Vec<char>) -> (r: Vec<char>)
        ensures
            r@ == rust_signature(signature@),
    {
        let text = string_of(signature);
        match regex_captures("fn\\s+(\\w+)\\s*\\([^)]*\\)(?:\\s*->\\s*([^{]+))?", text.as_str()) {
            Some(Some(groups)) => {
                let mut normalized = match group_exec(&groups, 1) {
                    Some(name) => {
                        let mut n = chars_of("fn ");
                        append(&mut n, &name);
                        n
                    },
                    None => {
                        return self.normalize_whitespace_chars(signature);
                    },
                };
                // Normalize parameters
                append(&mut normalized, &chars_of("("));
                append(&mut normalized, &self.rust_params_chars(signature));
                append(&mut normalized, &chars_of(")"));
                // Add return type if present
                match group_exec(&groups, 2) {
                    Some(ret_type) => {
                        append(&mut normalized, &chars_of(" -> "));
                        let t = trim_exec(&ret_type);
                        append(&mut normalized, &self.normalize_typename_chars(&t, "rust"));
                    },
                    None => {},
                }
                normalized
            },
            _ => self.normalize_whitespace_chars(signature),
        }
    }

    fn normalize_js_ts_signature(&self, signature: &Vec<char>) -> (r: Vec<char>)
        ensures
            r@ == js_signature(signature@),
    {
        // Remove access modifiers and keywords
        let keywords: [&str; 8] = [
            "export",
            "default",
            "async",
            "function",
            "public",
            "private",
            "protected",
            "static",
        ];
        assert(keywords@.map_values(|k: &str| k@) =~= js_keywords());
        let mut normalized = strip_words_exec(signature, &keywords);
        // Normalize arrow functions
        let arrow = chars_of("=>");
        if contains_exec(&normalized, &arrow) {
            normalized = replace_exec(&normalized, &arrow, &chars_of(" => "));
        }
        self.normalize_whitespace_chars(&normalized)
    }

    fn normalize_python_signature(&self, signature: &Vec<char>) -> (r: Vec<char>)
        ensures
            r@ == python_signature(signature@),
    {
        let text = string_of(signature);
        match regex_captures("def\\s+(\\w+)\\s*\\([^)]*\\)(?:\\s*->\\s*([^:]+))?", text.as_str()) {
            Some(Some(groups)) => {
                if !Self::python_brackets_ok_exec(signature) {
                    return signature.clone();
                }
                let mut normalized: Vec<char> = Vec::new();
                // Add function name
                match group_exec(&groups, 1) {
                    Some(name) => {
                        normalized = chars_of("def ");
                        append(&mut normalized, &name);
                    },
                    None => {},
                }
                // Normalize parameters
                append(&mut normalized, &chars_of("("));
                append(&mut normalized, &self.python_params_chars(signature));
                append(&mut normalized, &chars_of(")"));
                // Add return annotation if present
                match group_exec(&groups, 2) {
                    Some(ret_type) => {
                        append(&mut normalized, &chars_of(" -> "));
                        let t = trim_exec(&ret_type);
                        append(&mut normalized, &self.normalize_typename_chars(&t, "python"));
                    },
                    None => {},
                }
                normalized
            },
            _ => signature.clone(),
        }
    }

    fn normalize_go_signature(&self, signature: &Vec<char>) -> (r: Vec<char>)
        ensures
            r@ == go_signature(signature@),
    {
        // Remove receiver if present (for methods)
        let normalized = match find_exec(signature, &chars_of("func")) {
            Some(start) => {
                proof {
                    lemma_find(signature@, "func"@);
                }
                slice(signature, start, signature.len())
            },
            None => signature.clone(),
        };
        self.normalize_whitespace_chars(&normalized)
    }

    fn normalize_java_signature(&self, signature: &Vec<char>) -> (r: Vec<char>)
        ensures
            r@ == java_signature(signature@),
    {
        // Remove access modifiers
        let modifiers: [&str; 7] = [
            "public",
            "private",
            "protected",
            "static",
            "final",
            "abstract",
            "synchronized",
        ];
        assert(modifiers@.map_values(|k: &str| k@) =~= java_modifiers());
        let normalized = strip_words_exec(signature, &modifiers);
        self.normalize_whitespace_chars(&normalized)
    }

    fn normalize_c_cpp_signature(&self, signature: &Vec<char>) -> (r: Vec<char>)
        ensures
            r@ == c_signature(signature@),
    {
        // Remove C++ keywords that don't affect function identity
        let keywords: [&str; 6] = ["virtual", "override", "final", "inline", "static", "extern"];
        let ghost ks = keywords@.map_values(|k: &str| k@);
        assert(ks =~= c_keywords());
        let mut normalized = signature.clone();
        let mut i: usize = 0;
        assert(ks.skip(0) =~= ks);
        while i < 6
            invariant
                i <= 6,
                keywords@.len() == 6,
                ks == keywords@.map_values(|k: &str| k@),
                c_strip_keywords(signature@, ks) == c_strip_keywords(normalized@, ks.skip(i as int)),
            decreases 6 - i,
        {
            assert(ks.skip(i as int).drop_first() =~= ks.skip(i + 1));
            normalized = c_strip_keyword_exec(&normalized, &chars_of(keywords[i]));
            i += 1;
        }
        // Handle const methods
        let const_suffix = chars_of(" const");
        if has_suffix(&normalized, &const_suffix) {
            normalized = trim_end_str_exec(&normalized, &const_suffix);
            append(&mut normalized, &const_suffix);
        }
        self.normalize_whitespace_chars(&normalized)
    }

    fn normalize_generic_signature(&self, signature: &Vec<char>) -> (r: Vec<char>)
        ensures
            r@ == ws_normalized(signature@),
    {
        self.normalize_whitespace_chars(signature)
    }

    // Helper methods

    /// The parameters of a Rust signature, `name: type` joined by `, `.
    pub fn extract_and_normalize_rust_params(&self, signature: &str) -> (r: UIDResult<String>)
        ensures
            r is Ok,
            text_result(r) == Ok::<Seq<char>, UIDErrorView>(rust_params(signature@)),
    {
        Ok(string_of(&self.rust_params_chars(&chars_of(signature))))
    }

    fn rust_params_chars(&self, signature: &Vec<char>) -> (r: Vec<char>)
        ensures
            r@ == rust_params(signature@),
    {
        let text = string_of(signature);
        match regex_captures_iter("\\b(\\w+):\\s*([^,)]+)", text.as_str()) {
            Some(matches) => {
                let ghost caps = matches@.map_values(|m: Vec<Option<String>>| groups_view(m));
                let mut params: Vec<Vec<char>> = Vec::new();
                let mut i: usize = matches.len();
                // Built from the last match backwards, as the model lists them
                let ghost all = caps;
                assert(all.take(i as int) =~= all);
                assert(rust_param_list(all) =~= rust_param_list(all.take(i as int)) + seqs_view(params@));
                while i > 0
                    invariant
                        i <= matches@.len(),
                        all == matches@.map_values(|m: Vec<Option<String>>| groups_view(m)),
                        rust_param_list(all) == rust_param_list(all.take(i as int)) + seqs_view(params@),
                    decreases i,
                {
                    let j = i - 1;
                    assert(all.take(i as int).drop_last() =~= all.take(j as int));
                    proof {
                        lemma_param_list_split(all.take(i as int));
                    }
                    assert(all[j as int] == groups_view(matches@[j as int]));
                    match (group_exec(&matches[j], 1), group_exec(&matches[j], 2)) {
                        (Some(name), Some(type_str)) => {
                            let mut p = name.clone();
                            append(&mut p, &chars_of(": "));
                            let t = trim_exec(&type_str);
                            append(&mut p, &self.normalize_typename_chars(&t, "rust"));
                            let ghost before = params@;
                            params.insert(0, p);
                            assert(seqs_view(params@) =~= seq![p@] + seqs_view(before));
                        },
                        _ => {},
                    }
                    i = j;
                }
                assert(all.take(0) =~= Seq::<Seq<Option<Seq<char>>>>::empty());
                assert(rust_param_list(all.take(0)) + seqs_view(params@) =~= seqs_view(params@));
                join_exec(&params, &chars_of(", "))
            },
            None => Vec::new(),
        }
    }

    /// Whether the last `)` comes no earlier than the first `(`.
    fn python_brackets_ok_exec(signature: &Vec<char>) -> (r: bool)
        ensures
            r == python_brackets_ok(signature@),
    {
        match (find_exec(signature, &chars_of("(")), rfind_char_exec(signature, ')')) {
            (Some(s), Some(e)) => e > s,
            _ => true,
        }
    }

    /// The parameters between the first `(` and the last `)` of a Python signature.
    pub fn extract_and_normalize_python_params(&self, signature: &str) -> (r: UIDResult<String>)
        requires
            python_brackets_ok(signature@),
        ensures
            r is Ok,
            text_result(r) == Ok::<Seq<char>, UIDErrorView>(python_params(signature@)),
    {
        Ok(string_of(&self.python_params_chars(&chars_of(signature))))
    }

    fn python_params_chars(&self, signature: &Vec<char>) -> (r: Vec<char>)
        requires
            python_brackets_ok(signature@),
        ensures
            r@ == python_params(signature@),
    {
        // Extract parameters between parentheses
        match (find_exec(signature, &chars_of("(")), rfind_char_exec(signature, ')')) {
            (Some(start), Some(end)) => {
                proof {
                    lemma_find(signature@, "("@);
                    lemma_rfind_char_below(signature@, ')', signature@.len() as int);
                    reveal_strlit("(");
                    reveal_strlit(",");
                }
                let param_str = slice(signature, start + 1, end);
                let pieces = split_exec(&param_str, &chars_of(","));
                let ghost params = seqs_view(pieces@).map_values(|p: Seq<char>| trim(p));
                let mut kept: Vec<Vec<char>> = Vec::new();
                let mut i: usize = pieces.len();
                assert(params.take(i as int) =~= params);
                assert(python_param_list(params) =~= python_param_list(params.take(i as int)) + seqs_view(kept@));
                while i > 0
                    invariant
                        i <= pieces@.len(),
                        params == seqs_view(pieces@).map_values(|p: Seq<char>| trim(p)),
                        python_param_list(params) == python_param_list(params.take(i as int))
                            + seqs_view(kept@),
                    decreases i,
                {
                    let j = i - 1;
                    proof {
                        lemma_python_list_split(params.take(i as int));
                    }
                    assert(params.take(i as int).drop_last() =~= params.take(j as int));
                    let param = trim_exec(&pieces[j]);
                    assert(param@ == params[j as int]);
                    assert(params.take(i as int).last() == params[j as int]);
                    assert(seq![param@].drop_first() =~= Seq::<Seq<char>>::empty());
                    proof {
                        reveal_strlit(":");
                    }
                    let ghost prefix = python_param_list(params.take(j as int));
                    proof {
                        lemma_python_single(param@);
                    }
                    let ghost old_kept = seqs_view(kept@);
                    if param.len() == 0 || eq_lit(&param, "self") || eq_lit(&param, "cls") {
                        assert(python_param_list(seq![param@]) =~= Seq::<Seq<char>>::empty());
                        assert(prefix + Seq::<Seq<char>>::empty() + old_kept =~= prefix + old_kept);
                    } else {
                        let p = match find_exec(&param, &chars_of(":")) {
                            Some(colon) => {
                                proof {
                                    lemma_find(param@, ":"@);
                                }
                                let name = trim_exec(&slice(&param, 0, colon));
                                assert(param@.subrange(0, colon as int) =~= param@.take(colon as int));
                                let type_str = trim_exec(&slice(&param, colon + 1, param.len()));
                                assert(param@.subrange(colon + 1, param@.len() as int) =~= param@.skip(colon + 1));
                                let mut p = name;
                                append(&mut p, &chars_of(": "));
                                append(&mut p, &self.normalize_typename_chars(&type_str, "python"));
                                p
                            },
                            None => param.clone(),
                        };
                        let ghost before = kept@;
                        kept.insert(0, p);
                        assert(seqs_view(kept@) =~= seq![p@] + seqs_view(before));
                        assert(python_param_list(seq![param@]) =~= seq![p@]);
                        assert(prefix + seq![p@] + old_kept =~= prefix + seqs_view(kept@));
                    }
                    i = j;
                }
                assert(params.take(0) =~= Seq::<Seq<char>>::empty());
                assert(python_param_list(params.take(0)) + seqs_view(kept@) =~= seqs_view(kept@));
                join_exec(&kept, &chars_of(", "))
            },
            _ => Vec::new(),
        }
    }

    /// Collapses runs of whitespace into one space and trims the ends.
    pub fn normalize_whitespace(&self, text: &str) -> (r: String)
        ensures
            r@ == ws_normalized(text@),
    {
        string_of(&self.normalize_whitespace_chars(&chars_of(text)))
    }

    fn normalize_whitespace_chars(&self, text: &Vec<char>) -> (r: Vec<char>)
        ensures
            r@ == ws_normalized(text@),
    {
        let t = string_of(text);
        match regex_replace_all("\\s+", t.as_str(), " ") {
            Some(replaced) => trim_exec(&chars_of(replaced.as_str())),
            None => trim_exec(text),
        }
    }
}

/// The list built from a sequence of matches is the list of all but the last, then the
/// entry of the last.
pub proof fn lemma_param_list_split(caps: Seq<Seq<Option<Seq<char>>>>)
    requires
        caps.len() > 0,
    ensures
        rust_param_list(caps) == rust_param_list(caps.drop_last()) + match (
            group(caps.last(), 1),
            group(caps.last(), 2),
        ) {
            (Some(name), Some(ty)) => seq![name + ": "@ + normalized_typename(trim(ty), "rust"@)],
            _ => Seq::<Seq<char>>::empty(),
        },
    decreases caps.len(),
{
    if caps.len() > 1 {
        lemma_param_list_split(caps.drop_first());
        assert(caps.drop_first().drop_last() =~= caps.drop_last().drop_first());
        assert(caps.drop_first().last() == caps.last());
        match (group(caps[0], 1), group(caps[0], 2)) {
            (Some(_), Some(_)) => {
                assert(caps.drop_last()[0] == caps[0]);
            },
            _ => {
                assert(caps.drop_last()[0] == caps[0]);
            },
        }
    } else {
        assert(caps.drop_first() =~= Seq::<Seq<Option<Seq<char>>>>::empty());
        assert(caps.drop_last() =~= Seq::<Seq<Option<Seq<char>>>>::empty());
    }
}

/// The same for the Python parameter list.
pub proof fn lemma_python_list_split(params: Seq<Seq<char>>)
    requires
        params.len() > 0,
    ensures
        python_param_list(params) == python_param_list(params.drop_last()) + python_param_list(
            seq![params.last()],
        ),
    decreases params.len(),
{
    if params.len() > 1 {
        lemma_python_list_split(params.drop_first());
        assert(params.drop_first().drop_last() =~= params.drop_last().drop_first());
        assert(params.drop_first().last() == params.last());
        assert(params.drop_last()[0] == params[0]);
    } else {
        assert(params =~= seq![params.last()]);
        assert(params.drop_last() =~= Seq::<Seq<char>>::empty());
    }
}

/// The Python parameter list of a single parameter.
pub proof fn lemma_python_single(p: Seq<char>)
    ensures
        python_param_list(seq![p]) == (if p.len() == 0 || p == "self"@ || p == "cls"@ {
            Seq::<Seq<char>>::empty()
        } else {
            match find(p, ":"@) {
                Some(c) => seq![
                    trim(p.take(c)) + ": "@ + normalized_typename(trim(p.skip(c + 1)), "python"@),
                ],
                None => seq![p],
            }
        }),
{
    assert(seq![p].drop_first() =~= Seq::<Seq<char>>::empty());
    assert(python_param_list(Seq::<Seq<char>>::empty()) == Seq::<Seq<char>>::empty());
    assert(seq![p][0] == p);
    match find(p, ":"@) {
        Some(c) => {
            let x = trim(p.take(c)) + ": "@ + normalized_typename(trim(p.skip(c + 1)), "python"@);
            assert(seq![x] + Seq::<Seq<char>>::empty() =~= seq![x]);
        },
        None => {
            assert(seq![p] + Seq::<Seq<char>>::empty() =~= seq![p]);
        },
    }
}

impl Default for Normalizer {
    fn default() -> Self {
        Self::new()
    }
}

/// Words without spaces, none a proper suffix of `m`: no occurrence of one of them and a
/// space can start inside `m` other than `m` itself at its start.
pub open spec fn clean_words_for(m: Seq<char>, kws: Seq<Seq<char>>) -> bool {
    &&& forall|j: int| 0 <= j < kws.len() ==> (#[trigger] kws[j]).len() > 0 && !has_char(kws[j], ' ')
    &&& forall|j: int, i: int|
        #![trigger m.skip(i), kws[j]]
        0 < i < m.len() && 0 <= j < kws.len() && i + kws[j].len() == m.len() ==> m.skip(i) != kws[j]
}

proof fn lemma_strip_words_space(t: Seq<char>, kws: Seq<Seq<char>>)
    requires
        forall|j: int| 0 <= j < kws.len() ==> (#[trigger] kws[j]).len() > 0 && !has_char(kws[j], ' '),
    ensures
        strip_words(" "@ + t, kws) == " "@ + strip_words(t, kws),
    decreases kws.len(),
{
    reveal_strlit(" ");
    if kws.len() > 0 {
        let k = kws[0];
        let p = k + " "@;
        assert(!matches_at(" "@ + t, p, 0)) by {
            if matches_at(" "@ + t, p, 0) {
                assert((" "@ + t).subrange(0, p.len() as int)[0] == p[0]);
                assert(p[0] == k[0]);
            }
        }
        lemma_replace_after_prefix(" "@, t, p, " "@);
        assert forall|j: int| 0 <= j < kws.drop_first().len() implies (#[trigger] kws.drop_first()[j]).len()
            > 0 && !has_char(kws.drop_first()[j], ' ') by {
            assert(kws.drop_first()[j] == kws[j + 1]);
        }
        lemma_strip_words_space(replace(t, p, " "@), kws.drop_first());
    }
}

proof fn lemma_strip_words_lead(m: Seq<char>, s: Seq<char>, kws: Seq<Seq<char>>)
    requires
        m.len() > 0,
        !has_char(m, ' '),
        clean_words_for(m, kws),
    ensures
        strip_words(m + " "@ + s, kws) == if kws.contains(m) {
            " "@ + strip_words(s, kws)
        } else {
            m + " "@ + strip_words(s, kws)
        },
    decreases kws.len(),
{
    reveal_strlit(" ");
    if kws.len() > 0 {
        let k = kws[0];
        let p = k + " "@;
        let rest = kws.drop_first();
        assert(clean_words_for(m, rest)) by {
            assert forall|j: int| 0 <= j < rest.len() implies (#[trigger] rest[j]).len() > 0 && !has_char(
                rest[j],
                ' ',
            ) by {
                assert(rest[j] == kws[j + 1]);
            }
            assert forall|j: int, i: int|
                #![trigger m.skip(i), rest[j]]
                0 < i < m.len() && 0 <= j < rest.len() && i + rest[j].len() == m.len()
                    implies m.skip(i) != rest[j] by {
                assert(rest[j] == kws[j + 1]);
            }
        }
        assert(k.len() > 0 && !has_char(k, ' '));
        if k == m {
            assert(m + " "@ + s =~= p + s);
            lemma_replace_at_start(p, s, " "@);
            lemma_strip_words_space(replace(s, p, " "@), rest);
            assert(kws.contains(m)) by {
                assert(kws[0] == m);
            }
        } else {
            let x = m + " "@;
            let u = x + s;
            assert(m + " "@ + s =~= u);
            assert forall|i: int| 0 <= i < x.len() implies !matches_at(u, p, i) by {
                if matches_at(u, p, i) {
                    let sub = u.subrange(i, i + p.len());
                    assert(sub == p);
                    if i == m.len() {
                        assert(sub[0] == u[i]);
                        assert(u[i] == ' ');
                        assert(p[0] == k[0]);
                    } else {
                        let e = i + k.len();
                        assert(sub[k.len() as int] == ' ');
                        assert(sub[k.len() as int] == u[e]);
                        if e < m.len() {
                            assert(u[e] == m[e]);
                        } else if e == m.len() {
                            assert forall|q: int| 0 <= q < k.len() implies m.skip(i)[q] == k[q] by {
                                assert(sub[q] == u[i + q]);
                                assert(u[i + q] == m[i + q]);
                            }
                            assert(m.skip(i) =~= k);
                            if i == 0 {
                                assert(m =~= k);
                            } else {
                                assert(kws[0] == k);
                            }
                        } else {
                            let q = m.len() - i;
                            assert(sub[q] == u[m.len() as int]);
                            assert(sub[q] == p[q]);
                            assert(p[q] == k[q]);
                        }
                    }
                }
            }
            lemma_replace_after_prefix(x, s, p, " "@);
            assert(x + replace(s, p, " "@) =~= m + " "@ + replace(s, p, " "@));
            lemma_strip_words_lead(m, replace(s, p, " "@), rest);
            assert(kws.contains(m) == rest.contains(m)) by {
                if kws.contains(m) {
                    let j = choose|j: int| 0 <= j < kws.len() && kws[j] == m;
                    assert(j > 0);
                    assert(rest[j - 1] == m);
                }
                if rest.contains(m) {
                    let j = choose|j: int| 0 <= j < rest.len() && rest[j] == m;
                    assert(kws[j + 1] == m);
                }
            }
        }
    }
}

/// A Java signature loses a leading access or other modifier (`public`, `private`,
/// `protected`, `static`, `final`, `abstract`, `synchronized`) followed by a space: the
/// signature of `m s` is what the signature of ` s` would be with its modifiers
/// removed the same way, so `public final void f()` and `void f()` normalize alike.
pub proof fn law_java_modifier_removed(m: Seq<char>, s: Seq<char>)
    requires
        seq!["public"@, "private"@, "protected"@, "static"@, "final"@, "abstract"@, "synchronized"@].contains(
            m,
        ),
    ensures
        strip_words(m + " "@ + s, java_modifiers()) == " "@ + strip_words(s, java_modifiers()),
        java_signature(m + " "@ + s) == ws_normalized(" "@ + strip_words(s, java_modifiers())),
{
    reveal_strlit("public");
    reveal_strlit("private");
    reveal_strlit("protected");
    reveal_strlit("static");
    reveal_strlit("final");
    reveal_strlit("abstract");
    reveal_strlit("synchronized");
    let kws = java_modifiers();
    assert(kws[0] == "public"@ && kws[1] == "private"@ && kws[2] == "protected"@);
    assert(kws[3] == "static"@ && kws[4] == "final"@ && kws[5] == "abstract"@);
    assert(kws[6] == "synchronized"@);
    assert(forall|j: int| 0 <= j < kws.len() ==> (#[trigger] kws[j]).len() > 0 && !has_char(kws[j], ' '));
    assert forall|j: int, i: int|
        #![trigger m.skip(i), kws[j]]
        0 < i < m.len() && 0 <= j < kws.len() && i + kws[j].len() == m.len() implies m.skip(i)
            != kws[j] by {
        let k = kws[j];
        if m.skip(i) == k {
            assert(m.skip(i)[k.len() - 1] == m[m.len() - 1]);
            assert(k.len() >= 3 ==> m.skip(i)[k.len() - 3] == m[m.len() - 3]);
            assert(m.skip(i)[0] == m[i]);
        }
    }
    assert(clean_words_for(m, kws));
    assert(!has_char(m, ' '));
    assert(kws.contains(m));
    lemma_strip_words_lead(m, s, kws);
}

} // verus!
