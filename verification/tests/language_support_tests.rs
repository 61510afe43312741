use lsp_daemon::symbol::language_support::{
    LanguageRules, LanguageRulesFactory, SignatureNormalization,
};

#[test]
fn test_language_rules_creation() {
    let rust_rules = LanguageRules::rust();
    assert_eq!(rust_rules.scope_separator, "::");
    assert!(!rust_rules.supports_overloading);
    assert!(rust_rules.case_sensitive);

    let java_rules = LanguageRules::java();
    assert_eq!(java_rules.scope_separator, ".");
    assert!(java_rules.supports_overloading);

    let python_rules = LanguageRules::python();
    assert_eq!(python_rules.anonymous_prefix, "lambda");
}

#[test]
fn test_language_features() {
    let cpp_rules = LanguageRules::cpp();
    assert!(cpp_rules.supports_feature("overloading"));
    assert!(cpp_rules.supports_feature("case_sensitive"));
    assert!(!cpp_rules.supports_feature("unknown_feature"));
}

#[test]
fn language_support_test_type_normalization() {
    let cpp_rules = LanguageRules::cpp();
    assert_eq!(cpp_rules.normalize_type("string"), "std::string");
    assert_eq!(cpp_rules.normalize_type("unknown"), "unknown");

    let java_rules = LanguageRules::java();
    assert_eq!(java_rules.normalize_type("String"), "java.lang.String");
}

#[test]
fn test_anonymous_name_detection() {
    let python_rules = LanguageRules::python();
    assert!(python_rules.is_anonymous_name("lambda123"));
    assert!(python_rules.is_anonymous_name("test@456"));
    assert!(!python_rules.is_anonymous_name("normal_function"));

    let cpp_rules = LanguageRules::cpp();
    assert!(cpp_rules.is_anonymous_name("anon_class"));
    assert!(cpp_rules.is_anonymous_name("__anon_function"));
}

#[test]
fn test_extension_priority() {
    let ts_rules = LanguageRules::typescript();
    assert_eq!(ts_rules.get_extension_priority("tsx"), 10);
    assert_eq!(ts_rules.get_extension_priority("ts"), 5);
    assert_eq!(ts_rules.get_extension_priority("unknown"), 0);
}

#[test]
fn test_signature_equivalence() {
    let java_rules = LanguageRules::java();

    // Java supports overloading, so different signatures are not equivalent
    assert!(!java_rules.signatures_equivalent("void method(int a)", "void method(String a)"));
    // Parameter names don't matter
    assert!(java_rules.signatures_equivalent("void method(int a)", "void method(int b)"));

    let rust_rules = LanguageRules::rust();
    // Rust doesn't support overloading, so signatures are equivalent for UID purposes
    assert!(rust_rules.signatures_equivalent("fn test(a: i32)", "fn test(b: String)"));
}

#[test]
fn test_language_rules_factory() {
    assert!(LanguageRulesFactory::is_supported("rust"));
    assert!(LanguageRulesFactory::is_supported("TypeScript"));
    assert!(LanguageRulesFactory::is_supported("C++"));
    assert!(!LanguageRulesFactory::is_supported("unknown"));

    let supported = LanguageRulesFactory::supported_languages();
    assert!(supported.contains(&"rust".to_string()));
    assert!(supported.contains(&"java".to_string()));

    let rust_rules = LanguageRulesFactory::create_rules("rust").unwrap();
    assert_eq!(rust_rules.scope_separator, "::");
}

#[test]
fn test_signature_normalization_strategies() {
    let rules = LanguageRules::cpp();

    let signature = "  public   static   void   method  ( int  param )  ";
    let normalized = rules.normalize_signature_internal(signature);

    // Should remove extra whitespace and normalize
    assert!(!normalized.contains("  ")); // No double spaces
    assert!(normalized.len() < signature.len()); // Should be shorter
}

#[test]
fn rules_of_every_language() {
    let go = LanguageRules::go();
    assert_eq!(go.scope_separator, ".");
    assert_eq!(go.anonymous_prefix, "anon");
    assert!(!go.supports_overloading);
    assert_eq!(go.default_visibility, "private");
    let ts = LanguageRules::typescript();
    assert!(ts.supports_overloading);
    assert_eq!(ts.signature_normalization, SignatureNormalization::Full);
    let c = LanguageRules::c();
    assert_eq!(c.scope_separator, "::");
    assert!(!c.supports_overloading);
}

#[test]
fn factory_accepts_short_names_in_any_case() {
    assert!(LanguageRulesFactory::is_supported("PY"));
    assert!(LanguageRulesFactory::is_supported("cxx"));
    assert!(LanguageRulesFactory::create_rules("cobol").is_none());
    assert_eq!(LanguageRulesFactory::supported_languages().len(), 8);
    let ts = LanguageRulesFactory::create_rules("ts").unwrap();
    assert_eq!(ts.anonymous_prefix, "anon");
    assert!(ts.supports_overloading);
}

#[test]
fn feature_names_follow_the_rules() {
    let rust = LanguageRules::rust();
    assert!(!rust.supports_feature("overloading"));
    assert!(!rust.supports_feature("visibility_uid"));
    assert!(rust.supports_feature("case_sensitive"));
}

#[test]
fn type_aliases_are_exact_matches() {
    let rust = LanguageRules::rust();
    assert_eq!(rust.normalize_type("str"), "&str");
    assert_eq!(rust.normalize_type("String"), "std::string::String");
    assert_eq!(rust.normalize_type("Strings"), "Strings");
}
