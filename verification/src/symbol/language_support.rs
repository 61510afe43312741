//! Language-Specific UID Generation Rules
//!
//! Each language has its own conventions for scoping, overloading, visibility and
//! symbol naming that affect how UIDs are generated.
use vstd::prelude::*;
use crate::text::text_lower;
use crate::text::{
    append, chars_eq, chars_of, contains, eq_lit, has_char, has_char_exec, has_prefix, join,
    join_exec, replace, replace_exec, starts_with, string_of, trim, trim_exec, words,
    words_exec,
};
use crate::external::{regex_is_valid, regex_replace_all, regex_replace_all_text, to_lowercase};
use crate::symbol::strings_view;

verus! {

broadcast use vstd::string::group_string_axioms;

/// Signature normalization strategies for different languages
#[derive(Debug, Clone, Copy, PartialEq, Eq, Structural)]
pub enum SignatureNormalization {
    /// Use signature as-is without modification
    Unchanged,
    /// Remove parameter names, keep only types
    RemoveParameterNames,
    /// Normalize type representations (e.g., "int" -> "i32")
    CanonicalTypes,
    /// Complete normalization including whitespace and parameter names
    Full,
}

/// Language-specific rules for UID generation
#[derive(Debug, Clone)]
pub struct LanguageRules {
    /// Separator used between scope elements (e.g., "::" for C++, "." for Java)
    pub scope_separator: String,
    /// Prefix used for anonymous symbols (e.g., "anon" for C++, "lambda" for Python)
    pub anonymous_prefix: String,
    /// Whether this language supports function/method overloading
    pub supports_overloading: bool,
    /// Whether symbol names are case-sensitive
    pub case_sensitive: bool,
    /// How to normalize signatures for this language
    pub signature_normalization: SignatureNormalization,
    /// Whether visibility modifiers affect UID generation
    pub visibility_affects_uid: bool,
    /// Default visibility for symbols without explicit visibility
    pub default_visibility: String,
    /// File extensions associated with this language
    pub file_extensions: Vec<String>,
    /// Keywords that might appear in signatures that should be normalized
    pub signature_keywords: Vec<String>,
    /// Type aliases that should be normalized (e.g., "string" -> "String")
    pub type_aliases: Vec<(String, String)>,
}

/// The model of a rule set: its texts as character sequences.
#[verifier::ext_equal]
pub struct LanguageRulesView {
    pub scope_separator: Seq<char>,
    pub anonymous_prefix: Seq<char>,
    pub supports_overloading: bool,
    pub case_sensitive: bool,
    pub signature_normalization: SignatureNormalization,
    pub visibility_affects_uid: bool,
    pub default_visibility: Seq<char>,
    pub file_extensions: Seq<Seq<char>>,
    pub signature_keywords: Seq<Seq<char>>,
    pub type_aliases: Seq<(Seq<char>, Seq<char>)>,
}

pub open spec fn pairs_view(v: Seq<(String, String)>) -> Seq<(Seq<char>, Seq<char>)> {
    v.map_values(|p: (String, String)| (p.0@, p.1@))
}

impl View for LanguageRules {
    type V = LanguageRulesView;

    open spec fn view(&self) -> LanguageRulesView {
        LanguageRulesView {
            scope_separator: self.scope_separator@,
            anonymous_prefix: self.anonymous_prefix@,
            supports_overloading: self.supports_overloading,
            case_sensitive: self.case_sensitive,
            signature_normalization: self.signature_normalization,
            visibility_affects_uid: self.visibility_affects_uid,
            default_visibility: self.default_visibility@,
            file_extensions: strings_view(self.file_extensions@),
            signature_keywords: strings_view(self.signature_keywords@),
            type_aliases: pairs_view(self.type_aliases@),
        }
    }
}

pub open spec fn rules_view(
    scope_separator: Seq<char>,
    anonymous_prefix: Seq<char>,
    supports_overloading: bool,
    signature_normalization: SignatureNormalization,
    default_visibility: Seq<char>,
    file_extensions: Seq<Seq<char>>,
    signature_keywords: Seq<Seq<char>>,
    type_aliases: Seq<(Seq<char>, Seq<char>)>,
) -> LanguageRulesView {
    LanguageRulesView {
        scope_separator,
        anonymous_prefix,
        supports_overloading,
        case_sensitive: true,
        signature_normalization,
        visibility_affects_uid: false,
        default_visibility,
        file_extensions,
        signature_keywords,
        type_aliases,
    }
}

pub open spec fn rust_rules() -> LanguageRulesView {
    rules_view(
        "::"@,
        "anon"@,
        false,
        SignatureNormalization::RemoveParameterNames,
        "private"@,
        seq!["rs"@],
        seq!["fn"@, "pub"@, "const"@, "static"@, "mut"@, "unsafe"@, "async"@],
        seq![("str"@, "&str"@), ("String"@, "std::string::String"@)],
    )
}

pub open spec fn typescript_rules() -> LanguageRulesView {
    rules_view(
        "."@,
        "anon"@,
        true,
        SignatureNormalization::Full,
        "public"@,
        seq!["ts"@, "tsx"@],
        seq![
            "function"@,
            "async"@,
            "export"@,
            "default"@,
            "public"@,
            "private"@,
            "protected"@,
            "readonly"@,
            "static"@,
        ],
        seq![("number"@, "number"@), ("string"@, "string"@), ("boolean"@, "boolean"@)],
    )
}

pub open spec fn javascript_rules() -> LanguageRulesView {
    rules_view(
        "."@,
        "anon"@,
        false,
        SignatureNormalization::RemoveParameterNames,
        "public"@,
        seq!["js"@, "jsx"@, "mjs"@],
        seq!["function"@, "async"@, "export"@, "default"@, "const"@, "let"@, "var"@],
        seq![],
    )
}

pub open spec fn python_rules() -> LanguageRulesView {
    rules_view(
        "."@,
        "lambda"@,
        false,
        SignatureNormalization::RemoveParameterNames,
        "public"@,
        seq!["py"@, "pyx"@, "pyi"@],
        seq![
            "def"@,
            "async"@,
            "class"@,
            "self"@,
            "cls"@,
            "staticmethod"@,
            "classmethod"@,
            "property"@,
        ],
        seq![("str"@, "str"@), ("int"@, "int"@), ("float"@, "float"@), ("bool"@, "bool"@)],
    )
}

pub open spec fn go_rules() -> LanguageRulesView {
    rules_view(
        "."@,
        "anon"@,
        false,
        SignatureNormalization::RemoveParameterNames,
        "private"@,
        seq!["go"@],
        seq!["func"@, "type"@, "struct"@, "interface"@, "const"@, "var"@],
        seq![
            ("string"@, "string"@),
            ("int"@, "int"@),
            ("bool"@, "bool"@),
            ("byte"@, "uint8"@),
            ("rune"@, "int32"@),
        ],
    )
}

pub open spec fn java_rules() -> LanguageRulesView {
    rules_view(
        "."@,
        "anon"@,
        true,
        SignatureNormalization::Full,
        "package"@,
        seq!["java"@],
        seq![
            "public"@,
            "private"@,
            "protected"@,
            "static"@,
            "final"@,
            "abstract"@,
            "synchronized"@,
            "native"@,
            "strictfp"@,
            "volatile"@,
            "transient"@,
        ],
        seq![
            ("String"@, "java.lang.String"@),
            ("Object"@, "java.lang.Object"@),
            ("Integer"@, "java.lang.Integer"@),
        ],
    )
}

pub open spec fn c_rules() -> LanguageRulesView {
    rules_view(
        "::"@,
        "anon"@,
        false,
        SignatureNormalization::CanonicalTypes,
        "public"@,
        seq!["c"@, "h"@],
        seq!["static"@, "extern"@, "inline"@, "const"@, "volatile"@, "restrict"@, "typedef"@],
        seq![("size_t"@, "unsigned long"@), ("ptrdiff_t"@, "long"@)],
    )
}

pub open spec fn cpp_rules() -> LanguageRulesView {
    rules_view(
        "::"@,
        "anon"@,
        true,
        SignatureNormalization::Full,
        "private"@,
        seq!["cpp"@, "cxx"@, "cc"@, "hpp"@, "hxx"@, "h"@],
        seq![
            "public"@,
            "private"@,
            "protected"@,
            "virtual"@,
            "static"@,
            "const"@,
            "mutable"@,
            "inline"@,
            "explicit"@,
            "constexpr"@,
            "noexcept"@,
            "override"@,
            "final"@,
        ],
        seq![("string"@, "std::string"@), ("vector"@, "std::vector"@), ("map"@, "std::map"@)],
    )
}

/// Owned strings for a list of literals.
fn strings(lits: &[&str]) -> (r: Vec<String>)
    ensures
        strings_view(r@) == lits@.map_values(|s: &str| s@),
{
    let mut out: Vec<String> = Vec::new();
    let mut i: usize = 0;
    while i < lits.len()
        invariant
            i <= lits@.len(),
            strings_view(out@) == lits@.map_values(|s: &str| s@).take(i as int),
        decreases lits.len() - i,
    {
        let s = lits[i].to_string();
        let ghost before = out@;
        out.push(s);
        assert(strings_view(out@) =~= strings_view(before).push(s@));
        assert(lits@.map_values(|s: &str| s@).take(i + 1) =~= lits@.map_values(|s: &str| s@).take(
            i as int,
        ).push(lits@[i as int]@));
        i += 1;
    }
    assert(lits@.map_values(|s: &str| s@).take(lits@.len() as int) =~= lits@.map_values(
        |s: &str| s@,
    ));
    out
}

/// Owned string pairs for a list of literal pairs.
fn string_pairs(lits: &[(&str, &str)]) -> (r: Vec<(String, String)>)
    ensures
        pairs_view(r@) == lits@.map_values(|p: (&str, &str)| (p.0@, p.1@)),
{
    let mut out: Vec<(String, String)> = Vec::new();
    let mut i: usize = 0;
    while i < lits.len()
        invariant
            i <= lits@.len(),
            pairs_view(out@) == lits@.map_values(|p: (&str, &str)| (p.0@, p.1@)).take(i as int),
        decreases lits.len() - i,
    {
        let (a, b) = lits[i];
        let p = (a.to_string(), b.to_string());
        let ghost before = out@;
        out.push(p);
        assert(pairs_view(out@) =~= pairs_view(before).push((p.0@, p.1@)));
        assert(lits@.map_values(|p: (&str, &str)| (p.0@, p.1@)).take(i + 1) =~= lits@.map_values(
            |p: (&str, &str)| (p.0@, p.1@),
        ).take(i as int).push((lits@[i as int].0@, lits@[i as int].1@)));
        i += 1;
    }
    assert(lits@.map_values(|p: (&str, &str)| (p.0@, p.1@)).take(lits@.len() as int)
        =~= lits@.map_values(|p: (&str, &str)| (p.0@, p.1@)));
    out
}

impl LanguageRules {
    /// Create rules for Rust
    pub fn rust() -> (r: Self)
        ensures
            r@ == rust_rules(),
    {
        let r = Self {
            scope_separator: "::".to_string(),
            anonymous_prefix: "anon".to_string(),
            supports_overloading: false,  // Rust doesn't support function overloading
            case_sensitive: true,
            signature_normalization: SignatureNormalization::RemoveParameterNames,
            visibility_affects_uid: false,  // pub/private doesn't change the symbol identity
            default_visibility: "private".to_string(),
            file_extensions: strings(&["rs"]),
            signature_keywords: strings(&["fn", "pub", "const", "static", "mut", "unsafe", "async"]),
            type_aliases: string_pairs(&[("str", "&str"), ("String", "std::string::String")]),
        };
        assert(r@ =~~= rust_rules());
        r
    }

    /// Create rules for TypeScript
    pub fn typescript() -> (r: Self)
        ensures
            r@ == typescript_rules(),
    {
        let r = Self {
            scope_separator: ".".to_string(),
            anonymous_prefix: "anon".to_string(),
            supports_overloading: true,  // TypeScript supports function overloading
            case_sensitive: true,
            signature_normalization: SignatureNormalization::Full,
            visibility_affects_uid: false,
            default_visibility: "public".to_string(),
            file_extensions: strings(&["ts", "tsx"]),
            signature_keywords: strings(
                &[
                    "function",
                    "async",
                    "export",
                    "default",
                    "public",
                    "private",
                    "protected",
                    "readonly",
                    "static",
                ],
            ),
            type_aliases: string_pairs(
                &[("number", "number"), ("string", "string"), ("boolean", "boolean")],
            ),
        };
        assert(r@ =~~= typescript_rules());
        r
    }

    /// Create rules for JavaScript
    pub fn javascript() -> (r: Self)
        ensures
            r@ == javascript_rules(),
    {
        let r = Self {
            scope_separator: ".".to_string(),
            anonymous_prefix: "anon".to_string(),
            supports_overloading: false,  // JavaScript doesn't have true overloading
            case_sensitive: true,
            signature_normalization: SignatureNormalization::RemoveParameterNames,
            visibility_affects_uid: false,
            default_visibility: "public".to_string(),
            file_extensions: strings(&["js", "jsx", "mjs"]),
            signature_keywords: strings(
                &["function", "async", "export", "default", "const", "let", "var"],
            ),
            type_aliases: Vec::new(),
        };
        assert(r@ =~~= javascript_rules());
        r
    }

    /// Create rules for Python
    pub fn python() -> (r: Self)
        ensures
            r@ == python_rules(),
    {
        let r = Self {
            scope_separator: ".".to_string(),
            anonymous_prefix: "lambda".to_string(),
            supports_overloading: false,  // Python uses default arguments, not overloading
            case_sensitive: true,
            signature_normalization: SignatureNormalization::RemoveParameterNames,
            visibility_affects_uid: false,  // Python uses naming convention, not keywords
            default_visibility: "public".to_string(),
            file_extensions: strings(&["py", "pyx", "pyi"]),
            signature_keywords: strings(
                &[
                    "def",
                    "async",
                    "class",
                    "self",
                    "cls",
                    "staticmethod",
                    "classmethod",
                    "property",
                ],
            ),
            type_aliases: string_pairs(
                &[("str", "str"), ("int", "int"), ("float", "float"), ("bool", "bool")],
            ),
        };
        assert(r@ =~~= python_rules());
        r
    }

    /// Create rules for Go
    pub fn go() -> (r: Self)
        ensures
            r@ == go_rules(),
    {
        let r = Self {
            scope_separator: ".".to_string(),
            anonymous_prefix: "anon".to_string(),
            supports_overloading: false,  // Go doesn't support function overloading
            case_sensitive: true,
            signature_normalization: SignatureNormalization::RemoveParameterNames,
            visibility_affects_uid: false,  // Go uses capitalization for visibility
            default_visibility: "private".to_string(),
            file_extensions: strings(&["go"]),
            signature_keywords: strings(&["func", "type", "struct", "interface", "const", "var"]),
            type_aliases: string_pairs(
                &[
                    ("string", "string"),
                    ("int", "int"),
                    ("bool", "bool"),
                    ("byte", "uint8"),
                    ("rune", "int32"),
                ],
            ),
        };
        assert(r@ =~~= go_rules());
        r
    }

    /// Create rules for Java
    pub fn java() -> (r: Self)
        ensures
            r@ == java_rules(),
    {
        let r = Self {
            scope_separator: ".".to_string(),
            anonymous_prefix: "anon".to_string(),
            supports_overloading: true,  // Java supports method overloading
            case_sensitive: true,
            signature_normalization: SignatureNormalization::Full,
            visibility_affects_uid: false,  // public/private doesn't change symbol identity
            default_visibility: "package".to_string(),
            file_extensions: strings(&["java"]),
            signature_keywords: strings(
                &[
                    "public",
                    "private",
                    "protected",
                    "static",
                    "final",
                    "abstract",
                    "synchronized",
                    "native",
                    "strictfp",
                    "volatile",
                    "transient",
                ],
            ),
            type_aliases: string_pairs(
                &[
                    ("String", "java.lang.String"),
                    ("Object", "java.lang.Object"),
                    ("Integer", "java.lang.Integer"),
                ],
            ),
        };
        assert(r@ =~~= java_rules());
        r
    }

    /// Create rules for C
    pub fn c() -> (r: Self)
        ensures
            r@ == c_rules(),
    {
        let r = Self {
            scope_separator: "::".to_string(),
            anonymous_prefix: "anon".to_string(),
            supports_overloading: false,  // C doesn't support function overloading
            case_sensitive: true,
            signature_normalization: SignatureNormalization::CanonicalTypes,
            visibility_affects_uid: false,
            default_visibility: "public".to_string(),  // C functions are global by default
            file_extensions: strings(&["c", "h"]),
            signature_keywords: strings(
                &["static", "extern", "inline", "const", "volatile", "restrict", "typedef"],
            ),
            type_aliases: string_pairs(&[("size_t", "unsigned long"), ("ptrdiff_t", "long")]),
        };
        assert(r@ =~~= c_rules());
        r
    }

    /// Create rules for C++
    pub fn cpp() -> (r: Self)
        ensures
            r@ == cpp_rules(),
    {
        let r = Self {
            scope_separator: "::".to_string(),
            anonymous_prefix: "anon".to_string(),
            supports_overloading: true,  // C++ supports function overloading
            case_sensitive: true,
            signature_normalization: SignatureNormalization::Full,
            visibility_affects_uid: false,
            default_visibility: "private".to_string(),  // class members are private by default
            file_extensions: strings(&["cpp", "cxx", "cc", "hpp", "hxx", "h"]),
            signature_keywords: strings(
                &[
                    "public",
                    "private",
                    "protected",
                    "virtual",
                    "static",
                    "const",
                    "mutable",
                    "inline",
                    "explicit",
                    "constexpr",
                    "noexcept",
                    "override",
                    "final",
                ],
            ),
            type_aliases: string_pairs(
                &[("string", "std::string"), ("vector", "std::vector"), ("map", "std::map")],
            ),
        };
        assert(r@ =~~= cpp_rules());
        r
    }
}


/// Whether a rule set supports a named feature.
pub open spec fn supports_feature_spec(r: LanguageRulesView, feature: Seq<char>) -> bool {
    if feature == "overloading"@ {
        r.supports_overloading
    } else if feature == "case_sensitive"@ {
        r.case_sensitive
    } else if feature == "visibility_uid"@ {
        r.visibility_affects_uid
    } else {
        false
    }
}

/// The canonical name of the first alias entry for `name`.
pub open spec fn alias_lookup(aliases: Seq<(Seq<char>, Seq<char>)>, name: Seq<char>) -> Option<
    Seq<char>,
>
    decreases aliases.len(),
{
    if aliases.len() == 0 {
        None
    } else if aliases[0].0 == name {
        Some(aliases[0].1)
    } else {
        alias_lookup(aliases.drop_first(), name)
    }
}

/// A type name as a rule set normalizes it: its alias if it has one, else lowercased
/// for case-insensitive languages, else unchanged.
pub open spec fn normalized_type(r: LanguageRulesView, name: Seq<char>) -> Seq<char> {
    match alias_lookup(r.type_aliases, name) {
        Some(c) => c,
        None => if !r.case_sensitive {
            text_lower(name)
        } else {
            name
        },
    }
}

/// Whether a name follows a rule set's anonymous naming convention.
pub open spec fn anonymous_name(r: LanguageRulesView, name: Seq<char>) -> bool {
    ||| starts_with(name, r.anonymous_prefix)
    ||| has_char(name, '@')
    ||| has_char(name, '$')
    ||| (starts_with(name, "lambda"@) && r.anonymous_prefix == "lambda"@)
    ||| starts_with(name, "__anon"@)
}

/// How specific an extension is: 0 when the rule set does not list it.
pub open spec fn extension_priority(r: LanguageRulesView, ext: Seq<char>) -> u8 {
    if !r.file_extensions.contains(ext) {
        0
    } else if ext == "tsx"@ || ext == "jsx"@ || ext == "pyi"@ || ext == "hpp"@ || ext == "hxx"@ {
        10
    } else if ext == "cxx"@ || ext == "cc"@ || ext == "mjs"@ || ext == "pyx"@ {
        8
    } else {
        5
    }
}

/// Each keyword `k` of the list in turn: `"k "` and then `" k"` become `" "`.
pub open spec fn strip_keywords(s: Seq<char>, kws: Seq<Seq<char>>) -> Seq<char>
    decreases kws.len(),
{
    if kws.len() == 0 {
        s
    } else {
        strip_keywords(
            replace(replace(s, kws[0] + " "@, " "@), " "@ + kws[0], " "@),
            kws.drop_first(),
        )
    }
}

/// Each alias of the list in turn is replaced by its canonical name.
pub open spec fn apply_aliases(s: Seq<char>, aliases: Seq<(Seq<char>, Seq<char>)>) -> Seq<char>
    decreases aliases.len(),
{
    if aliases.len() == 0 {
        s
    } else {
        apply_aliases(replace(s, aliases[0].0, aliases[0].1), aliases.drop_first())
    }
}

/// One regular-expression replacement; a pattern the regex engine refuses changes nothing.
pub open spec fn regex_apply(s: Seq<char>, pattern: Seq<char>, replacement: Seq<char>) -> Seq<char> {
    if regex_is_valid(pattern) {
        regex_replace_all_text(pattern, s, replacement)
    } else {
        s
    }
}

/// Each (pattern, replacement) of the list in turn.
pub open spec fn regex_apply_all(s: Seq<char>, rules: Seq<(Seq<char>, Seq<char>)>) -> Seq<char>
    decreases rules.len(),
{
    if rules.len() == 0 {
        s
    } else {
        regex_apply_all(regex_apply(s, rules[0].0, rules[0].1), rules.drop_first())
    }
}

/// `type name` becomes `type` for the C-family primitive types.
pub open spec fn cpp_param_patterns() -> Seq<(Seq<char>, Seq<char>)> {
    seq![
        ("\\bint\\s+\\w+\\b"@, "int"@),
        ("\\bdouble\\s+\\w+\\b"@, "double"@),
        ("\\bfloat\\s+\\w+\\b"@, "float"@),
        ("\\bbool\\s+\\w+\\b"@, "bool"@),
        ("\\bchar\\s+\\w+\\b"@, "char"@),
    ]
}

/// `Type name` becomes `Type`, for primitive and then for any (possibly generic) type.
pub open spec fn java_param_patterns() -> Seq<(Seq<char>, Seq<char>)> {
    seq![
        ("\\b(int|long|short|byte|char|boolean|float|double|String|Object)\\s+\\w+\\b"@, "$1"@),
        ("\\b(\\w+(?:<[^>]*>)?)\\s+\\w+\\b"@, "$1"@),
    ]
}

/// Parameter names removed, by the scope separator's language family.
pub open spec fn without_parameter_names(r: LanguageRulesView, s: Seq<char>) -> Seq<char> {
    if r.scope_separator == "::"@ {
        regex_apply_all(s, cpp_param_patterns())
    } else if r.scope_separator == "."@ {
        join(words(regex_apply_all(s, java_param_patterns())), " "@)
    } else {
        s
    }
}

/// The form in which two signatures are compared.
pub open spec fn normalized_signature(r: LanguageRulesView, sig: Seq<char>) -> Seq<char> {
    let stripped = strip_keywords(trim(sig), r.signature_keywords);
    let spaced = join(words(stripped), " "@);
    let aliased = apply_aliases(spaced, r.type_aliases);
    match r.signature_normalization {
        SignatureNormalization::Unchanged => sig,
        SignatureNormalization::RemoveParameterNames => without_parameter_names(r, aliased),
        SignatureNormalization::CanonicalTypes => apply_aliases(aliased, r.type_aliases),
        SignatureNormalization::Full => apply_aliases(
            without_parameter_names(r, aliased),
            r.type_aliases,
        ),
    }
}

impl LanguageRules {
    /// Check if this language supports a specific feature
    pub fn supports_feature(&self, feature: &str) -> (r: bool)
        ensures
            r == supports_feature_spec(self@, feature@),
    {
        let f = chars_of(feature);
        if eq_lit(&f, "overloading") {
            self.supports_overloading
        } else if eq_lit(&f, "case_sensitive") {
            self.case_sensitive
        } else if eq_lit(&f, "visibility_uid") {
            self.visibility_affects_uid
        } else {
            false
        }
    }

    /// Get the normalized type name for this language
    pub fn normalize_type(&self, type_text: &str) -> (r: String)
        ensures
            r@ == normalized_type(self@, type_text@),
    {
        let name = chars_of(type_text);
        let ghost aliases = self@.type_aliases;
        let mut i: usize = 0;
        assert(aliases.skip(0) =~= aliases);
        while i < self.type_aliases.len()
            invariant
                i <= self.type_aliases@.len(),
                aliases == pairs_view(self.type_aliases@),
                name@ == type_text@,
                alias_lookup(aliases, name@) == alias_lookup(aliases.skip(i as int), name@),
            decreases self.type_aliases.len() - i,
        {
            assert(aliases.skip(i as int).drop_first() =~= aliases.skip(i + 1));
            let alias = &self.type_aliases[i];
            if chars_eq(&chars_of(alias.0.as_str()), &name) {
                return alias.1.clone();
            }
            i += 1;
        }
        if !self.case_sensitive {
            to_lowercase(type_text)
        } else {
            string_of(&name)
        }
    }

    /// Check if a symbol name follows the language's anonymous naming convention
    pub fn is_anonymous_name(&self, name: &str) -> (r: bool)
        ensures
            r == anonymous_name(self@, name@),
    {
        let n = chars_of(name);
        let prefix = chars_of(self.anonymous_prefix.as_str());
        has_prefix(&n, &prefix) || has_char_exec(&n, '@') || has_char_exec(&n, '$') || (
        has_prefix(&n, &chars_of("lambda")) && eq_lit(&prefix, "lambda")) || has_prefix(
            &n,
            &chars_of("__anon"),
        )
    }

    /// Get the file extension priority for this language (higher = more specific)
    pub fn get_extension_priority(&self, extension: &str) -> (r: u8)
        ensures
            r == extension_priority(self@, extension@),
    {
        let ext = chars_of(extension);
        let ghost exts = self@.file_extensions;
        let mut found = false;
        let mut i: usize = 0;
        while i < self.file_extensions.len()
            invariant
                i <= self.file_extensions@.len(),
                exts == strings_view(self.file_extensions@),
                ext@ == extension@,
                found == exists|j: int| 0 <= j < i && exts[j] == ext@,
            decreases self.file_extensions.len() - i,
        {
            assert(exts[i as int] == self.file_extensions@[i as int]@);
            if chars_eq(&chars_of(self.file_extensions[i].as_str()), &ext) {
                found = true;
            }
            i += 1;
        }
        if !found {
            assert(!exts.contains(ext@));
            return 0;
        }
        assert(exts.contains(ext@)) by {
            let j = choose|j: int| 0 <= j < exts.len() && exts[j] == ext@;
            assert(exts[j] == ext@);
        }
        if eq_lit(&ext, "tsx") || eq_lit(&ext, "jsx") || eq_lit(&ext, "pyi") || eq_lit(&ext, "hpp")
            || eq_lit(&ext, "hxx") {
            10
        } else if eq_lit(&ext, "cxx") || eq_lit(&ext, "cc") || eq_lit(&ext, "mjs") || eq_lit(
            &ext,
            "pyx",
        ) {
            8
        } else {
            5
        }
    }

    /// Determine if two signatures are equivalent in this language
    pub fn signatures_equivalent(&self, sig1: &str, sig2: &str) -> (r: bool)
        ensures
            r == (!self.supports_overloading || normalized_signature(self@, sig1@)
                == normalized_signature(self@, sig2@)),
    {
        if !self.supports_overloading {
            // Without overloading the signature does not take part in a symbol's identity
            return true;
        }
        let norm1 = self.normalize_signature_internal(sig1);
        let norm2 = self.normalize_signature_internal(sig2);
        chars_eq(&chars_of(norm1.as_str()), &chars_of(norm2.as_str()))
    }

    /// Internal signature normalization
    pub fn normalize_signature_internal(&self, signature: &str) -> (r: String)
        ensures
            r@ == normalized_signature(self@, signature@),
    {
        let mut normalized = trim_exec(&chars_of(signature));
        let ghost kws = self@.signature_keywords;
        let ghost start = normalized@;
        let space = chars_of(" ");
        // Remove language keywords that don't affect signature identity
        let mut i: usize = 0;
        assert(kws.skip(0) =~= kws);
        while i < self.signature_keywords.len()
            invariant
                i <= self.signature_keywords@.len(),
                kws == strings_view(self.signature_keywords@),
                space@ == " "@,
                strip_keywords(start, kws) == strip_keywords(normalized@, kws.skip(i as int)),
            decreases self.signature_keywords.len() - i,
        {
            assert(kws.skip(i as int).drop_first() =~= kws.skip(i + 1));
            let kw = chars_of(self.signature_keywords[i].as_str());
            let mut kw_space = kw.clone();
            append(&mut kw_space, &space);
            let mut space_kw = space.clone();
            append(&mut space_kw, &kw);
            normalized = replace_exec(&normalized, &kw_space, &space);
            normalized = replace_exec(&normalized, &space_kw, &space);
            i += 1;
        }
        // Normalize whitespace
        normalized = join_exec(&words_exec(&normalized), &space);
        // Apply type aliases
        normalized = self.canonicalize_chars(&normalized);
        match self.signature_normalization {
            SignatureNormalization::Unchanged => string_of(&chars_of(signature)),
            SignatureNormalization::RemoveParameterNames => self.remove_parameter_names(
                &normalized,
            ),
            SignatureNormalization::CanonicalTypes => string_of(&self.canonicalize_chars(&normalized)),
            SignatureNormalization::Full => {
                let without_params = self.remove_parameter_names(&normalized);
                string_of(&self.canonicalize_chars(&chars_of(without_params.as_str())))
            },
        }
    }

    /// Remove parameter names from signature, keeping only types
    fn remove_parameter_names(&self, signature: &Vec<char>) -> (r: String)
        ensures
            r@ == without_parameter_names(self@, signature@),
    {
        let sep = chars_of(self.scope_separator.as_str());
        if eq_lit(&sep, "::") {
            self.remove_cpp_parameter_names(signature)
        } else if eq_lit(&sep, ".") {
            self.remove_java_python_parameter_names(signature)
        } else {
            string_of(signature)
        }
    }

    /// Remove parameter names for C++ style signatures
    fn remove_cpp_parameter_names(&self, signature: &Vec<char>) -> (r: String)
        ensures
            r@ == regex_apply_all(signature@, cpp_param_patterns()),
    {
        let patterns: [(&str, &str); 5] = [
            ("\\bint\\s+\\w+\\b", "int"),
            ("\\bdouble\\s+\\w+\\b", "double"),
            ("\\bfloat\\s+\\w+\\b", "float"),
            ("\\bbool\\s+\\w+\\b", "bool"),
            ("\\bchar\\s+\\w+\\b", "char"),
        ];
        assert(patterns@.map_values(|p: (&str, &str)| (p.0@, p.1@)) =~= cpp_param_patterns());
        apply_patterns(signature, &patterns)
    }

    /// Remove parameter names for Java/Python style signatures
    fn remove_java_python_parameter_names(&self, signature: &Vec<char>) -> (r: String)
        ensures
            r@ == join(words(regex_apply_all(signature@, java_param_patterns())), " "@),
    {
        let patterns: [(&str, &str); 2] = [
            ("\\b(int|long|short|byte|char|boolean|float|double|String|Object)\\s+\\w+\\b", "$1"),
            ("\\b(\\w+(?:<[^>]*>)?)\\s+\\w+\\b", "$1"),
        ];
        assert(patterns@.map_values(|p: (&str, &str)| (p.0@, p.1@)) =~= java_param_patterns());
        let result = apply_patterns(signature, &patterns);
        // Clean up multiple spaces
        string_of(&join_exec(&words_exec(&chars_of(result.as_str())), &chars_of(" ")))
    }

    /// Canonicalize type names in signature
    pub fn canonicalize_types(&self, signature: &str) -> (r: String)
        ensures
            r@ == apply_aliases(signature@, self@.type_aliases),
    {
        string_of(&self.canonicalize_chars(&chars_of(signature)))
    }

    fn canonicalize_chars(&self, signature: &Vec<char>) -> (r: Vec<char>)
        ensures
            r@ == apply_aliases(signature@, self@.type_aliases),
    {
        let ghost aliases = self@.type_aliases;
        let mut result = signature.clone();
        let mut i: usize = 0;
        assert(aliases.skip(0) =~= aliases);
        while i < self.type_aliases.len()
            invariant
                i <= self.type_aliases@.len(),
                aliases == pairs_view(self.type_aliases@),
                apply_aliases(signature@, aliases) == apply_aliases(result@, aliases.skip(i as int)),
            decreases self.type_aliases.len() - i,
        {
            assert(aliases.skip(i as int).drop_first() =~= aliases.skip(i + 1));
            let alias = &self.type_aliases[i];
            result = replace_exec(&result, &chars_of(alias.0.as_str()), &chars_of(alias.1.as_str()));
            i += 1;
        }
        result
    }
}

/// Applies each (pattern, replacement) in turn with `regex_replace_all`.
fn apply_patterns(signature: &Vec<char>, patterns: &[(&str, &str)]) -> (r: String)
    ensures
        r@ == regex_apply_all(signature@, patterns@.map_values(|p: (&str, &str)| (p.0@, p.1@))),
{
    let ghost pats = patterns@.map_values(|p: (&str, &str)| (p.0@, p.1@));
    let mut result = string_of(signature);
    let mut i: usize = 0;
    assert(pats.skip(0) =~= pats);
    while i < patterns.len()
        invariant
            i <= patterns@.len(),
            pats == patterns@.map_values(|p: (&str, &str)| (p.0@, p.1@)),
            regex_apply_all(signature@, pats) == regex_apply_all(result@, pats.skip(i as int)),
        decreases patterns.len() - i,
    {
        assert(pats.skip(i as int).drop_first() =~= pats.skip(i + 1));
        let (pattern, replacement) = patterns[i];
        match regex_replace_all(pattern, result.as_str(), replacement) {
            Some(replaced) => {
                result = replaced;
            },
            None => {},
        }
        i += 1;
    }
    result
}

/// Factory for creating language rules
pub struct LanguageRulesFactory;

/// The rules for a lowercased language name, if it is supported.
pub open spec fn rules_for_name(lower: Seq<char>) -> Option<LanguageRulesView> {
    if lower == "rust"@ || lower == "rs"@ {
        Some(rust_rules())
    } else if lower == "typescript"@ || lower == "ts"@ {
        Some(typescript_rules())
    } else if lower == "javascript"@ || lower == "js"@ {
        Some(javascript_rules())
    } else if lower == "python"@ || lower == "py"@ {
        Some(python_rules())
    } else if lower == "go"@ {
        Some(go_rules())
    } else if lower == "java"@ {
        Some(java_rules())
    } else if lower == "c"@ {
        Some(c_rules())
    } else if lower == "cpp"@ || lower == "c++"@ || lower == "cxx"@ {
        Some(cpp_rules())
    } else {
        None
    }
}

pub open spec fn opt_rules_view(r: Option<LanguageRules>) -> Option<LanguageRulesView> {
    match r {
        Some(r) => Some(r@),
        None => None,
    }
}

/// The languages the factory knows by their full names.
pub open spec fn supported_language_names() -> Seq<Seq<char>> {
    seq!["rust"@, "typescript"@, "javascript"@, "python"@, "go"@, "java"@, "c"@, "cpp"@]
}

impl LanguageRulesFactory {
    /// Create rules for a language by name (case-insensitive)
    pub fn create_rules(language: &str) -> (r: Option<LanguageRules>)
        ensures
            opt_rules_view(r) == rules_for_name(text_lower(language@)),
    {
        let lower = chars_of(to_lowercase(language).as_str());
        if eq_lit(&lower, "rust") || eq_lit(&lower, "rs") {
            Some(LanguageRules::rust())
        } else if eq_lit(&lower, "typescript") || eq_lit(&lower, "ts") {
            Some(LanguageRules::typescript())
        } else if eq_lit(&lower, "javascript") || eq_lit(&lower, "js") {
            Some(LanguageRules::javascript())
        } else if eq_lit(&lower, "python") || eq_lit(&lower, "py") {
            Some(LanguageRules::python())
        } else if eq_lit(&lower, "go") {
            Some(LanguageRules::go())
        } else if eq_lit(&lower, "java") {
            Some(LanguageRules::java())
        } else if eq_lit(&lower, "c") {
            Some(LanguageRules::c())
        } else if eq_lit(&lower, "cpp") || eq_lit(&lower, "c++") || eq_lit(&lower, "cxx") {
            Some(LanguageRules::cpp())
        } else {
            None
        }
    }

    /// Get all supported languages
    pub fn supported_languages() -> (r: Vec<String>)
        ensures
            strings_view(r@) == supported_language_names(),
    {
        let r = strings(&["rust", "typescript", "javascript", "python", "go", "java", "c", "cpp"]);
        assert(strings_view(r@) =~= supported_language_names());
        r
    }

    /// Check if a language is supported
    pub fn is_supported(language: &str) -> (r: bool)
        ensures
            r == rules_for_name(text_lower(language@)) is Some,
    {
        Self::create_rules(language).is_some()
    }
}

} // verus!
