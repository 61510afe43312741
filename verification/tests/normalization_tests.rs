use lsp_daemon::symbol::normalization::Normalizer;
use lsp_daemon::symbol::UIDError;

#[test]
fn test_symbol_name_normalization() {
    let normalizer = Normalizer::new();

    // Rust names
    assert_eq!(
        normalizer.normalize_symbol_name("_private_func", "rust").unwrap(),
        "private_func"
    );
    assert_eq!(
        normalizer.normalize_symbol_name("__internal__", "rust").unwrap(),
        "internal"
    );

    // JavaScript/TypeScript names
    assert_eq!(
        normalizer
            .normalize_symbol_name("myFunc: () => void", "typescript")
            .unwrap(),
        "myFunc"
    );

    // Error cases
    assert!(normalizer.normalize_symbol_name("", "rust").is_err());
    assert!(normalizer.normalize_symbol_name("____", "rust").is_err());
}

#[test]
fn test_qualified_name_splitting() {
    let normalizer = Normalizer::new();

    // Rust FQN
    let rust_parts = normalizer
        .split_qualified_name("std::collections::HashMap", "rust")
        .unwrap();
    assert_eq!(rust_parts, vec!["std", "collections", "HashMap"]);

    // Java FQN
    let java_parts = normalizer
        .split_qualified_name("com.example.service.UserService", "java")
        .unwrap();
    assert_eq!(java_parts, vec!["com", "example", "service", "UserService"]);

    // Error cases
    assert!(normalizer.split_qualified_name("", "rust").is_err());
    assert!(normalizer.split_qualified_name("::", "rust").is_err());
}

#[test]
fn normalization_test_type_normalization() {
    let normalizer = Normalizer::new();

    // Rust types
    assert_eq!(normalizer.normalize_typename("&mut str", "rust").unwrap(), "&mutstr");
    assert_eq!(normalizer.normalize_typename("String", "rust").unwrap(), "String");

    // Java types
    assert_eq!(
        normalizer.normalize_typename("String", "java").unwrap(),
        "java.lang.String"
    );
    assert_eq!(
        normalizer.normalize_typename("List", "java").unwrap(),
        "java.util.List"
    );

    // Go types
    assert_eq!(normalizer.normalize_typename("byte", "go").unwrap(), "uint8");
    assert_eq!(normalizer.normalize_typename("rune", "go").unwrap(), "int32");
}

#[test]
fn test_signature_normalization() {
    let normalizer = Normalizer::new();

    // Rust signature
    let rust_sig = "fn calculate(x: i32, y: i32) -> i32";
    let normalized_rust = normalizer.normalize_signature(rust_sig, "rust").unwrap();
    assert!(normalized_rust.contains("fn"));
    assert!(normalized_rust.contains("calculate"));

    // Java signature
    let java_sig = "public static void main(String[] args)";
    let normalized_java = normalizer.normalize_signature(java_sig, "java").unwrap();
    assert!(!normalized_java.contains("public")); // Should remove access modifiers
    assert!(!normalized_java.contains("static"));

    // Empty signature
    assert_eq!(normalizer.normalize_signature("", "rust").unwrap(), "");
}

#[test]
fn test_whitespace_normalization() {
    let normalizer = Normalizer::new();

    let text = "  function   test  (  param1  ,  param2  )  ";
    let normalized = normalizer.normalize_whitespace(text);

    assert!(!normalized.starts_with(' '));
    assert!(!normalized.ends_with(' '));
    assert!(!normalized.contains("  ")); // No double spaces
}

#[test]
fn test_rust_parameter_extraction() {
    let normalizer = Normalizer::new();

    let signature = "fn test(x: i32, y: &str, z: Vec<String>) -> bool";
    let params = normalizer.extract_and_normalize_rust_params(signature).unwrap();

    assert!(params.contains("x: i32"));
    assert!(params.contains("y: &str"));
    assert!(params.contains("z: Vec<String>"));
}

#[test]
fn test_python_parameter_extraction() {
    let normalizer = Normalizer::new();

    let signature = "def process(self, data: str, count: int = 10) -> List[str]";
    let params = normalizer
        .extract_and_normalize_python_params(signature)
        .unwrap();

    // Should not include 'self'
    assert!(!params.contains("self"));
    assert!(params.contains("data: str"));
    assert!(params.contains("count: int"));
}

#[test]
fn test_language_specific_patterns() {
    let normalizer = Normalizer::new();

    // Test C++ const methods
    let cpp_sig = "virtual int getValue() const override";
    let normalized = normalizer.normalize_signature(cpp_sig, "cpp").unwrap();
    assert!(!normalized.contains("virtual"));
    assert!(!normalized.contains("override"));
    assert!(normalized.contains("const")); // const should be preserved for method identity

    // Test TypeScript arrow functions
    let ts_sig = "export const myFunc = (x: number) => boolean";
    let normalized = normalizer.normalize_signature(ts_sig, "typescript").unwrap();
    assert!(!normalized.contains("export"));
    assert!(normalized.contains("=>"));
}

#[test]
fn whitespace_collapses_to_single_spaces() {
    let normalizer = Normalizer::new();
    assert_eq!(
        normalizer.normalize_whitespace("  function   test  (  param1  ,  param2  )  "),
        "function test ( param1 , param2 )"
    );
}

#[test]
fn empty_name_and_underscores_give_their_errors() {
    let normalizer = Normalizer::new();
    match normalizer.normalize_symbol_name("", "rust") {
        Err(UIDError::InvalidSymbol(msg)) => assert_eq!(msg, "Symbol name cannot be empty"),
        other => panic!("unexpected {:?}", other),
    }
    match normalizer.normalize_symbol_name("____", "rust") {
        Err(UIDError::NormalizationError { component, .. }) => {
            assert_eq!(component, "rust_name")
        }
        other => panic!("unexpected {:?}", other),
    }
    match normalizer.split_qualified_name("::", "rust") {
        Err(UIDError::NormalizationError { component, .. }) => {
            assert_eq!(component, "qualified_name")
        }
        other => panic!("unexpected {:?}", other),
    }
}

#[test]
fn other_languages_keep_names_after_trimming() {
    let normalizer = Normalizer::new();
    assert_eq!(normalizer.normalize_symbol_name("  getValue ", "java").unwrap(), "getValue");
    assert_eq!(normalizer.normalize_symbol_name("__init__", "python").unwrap(), "init");
}

#[test]
fn signature_with_control_character_is_refused() {
    let normalizer = Normalizer::new();
    assert!(normalizer.normalize_signature("fn a\u{1}()", "rust").is_err());
    assert!(normalizer.normalize_signature("fn a\t()", "rust").is_ok());
    let long = "x".repeat(10001);
    match normalizer.normalize_signature(&long, "rust") {
        Err(UIDError::NormalizationError { error, .. }) => {
            assert_eq!(error, "Signature too long: 10001 characters")
        }
        other => panic!("unexpected {:?}", other),
    }
}
