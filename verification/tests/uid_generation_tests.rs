use lsp_daemon::symbol::uid_generator::{HashAlgorithm, SymbolUIDGenerator};
use lsp_daemon::symbol::{SymbolContext, SymbolInfo, SymbolKind, SymbolLocation, UIDError, Visibility};
use sha2::Digest;
use std::collections::{HashMap, HashSet};

fn create_symbol(name: &str, kind: SymbolKind, language: &str, line: u32, char: u32) -> SymbolInfo {
    let location = SymbolLocation::point("test.rs".to_string(), line, char);
    SymbolInfo::new(name.to_string(), kind, language.to_string(), location)
}

fn create_context(workspace_id: i64, scopes: Vec<&str>) -> SymbolContext {
    let mut context = SymbolContext::new(workspace_id, "rust".to_string());
    for scope in scopes {
        context = context.push_scope(scope.to_string());
    }
    context
}

fn create_test_symbol(name: &str, kind: SymbolKind, language: &str) -> SymbolInfo {
    let location = SymbolLocation::point("test.rs".to_string(), 10, 5);
    SymbolInfo::new(name.to_string(), kind, language.to_string(), location)
}

fn create_test_context() -> SymbolContext {
    SymbolContext::new(1, "rust".to_string())
        .push_scope("module".to_string())
        .push_scope("class".to_string())
}

fn stats_map(generator: &SymbolUIDGenerator) -> HashMap<String, String> {
    generator.get_stats().into_iter().collect()
}

#[test]
fn test_global_function_uid_generation() {
    let generator = SymbolUIDGenerator::new();
    let context = create_context(1, vec!["module", "submodule"]);

    let symbol = create_symbol("calculate_total", SymbolKind::Function, "rust", 10, 5)
        .with_qualified_name("accounting::billing::calculate_total".to_string())
        .with_signature("fn calculate_total(items: &[Item]) -> f64".to_string());

    let uid = generator.generate_uid(&symbol, &context).unwrap();

    assert!(uid.starts_with("rust::"));
    assert!(uid.contains("accounting"));
    assert!(uid.contains("billing"));
    assert!(uid.contains("calculate_total"));

    // Should be deterministic
    let uid2 = generator.generate_uid(&symbol, &context).unwrap();
    assert_eq!(uid, uid2);
}

#[test]
fn tests_test_method_uid_with_overloading() {
    let generator = SymbolUIDGenerator::new();
    let context = create_context(1, vec![]);

    let method1 = create_symbol("process", SymbolKind::Method, "java", 20, 10)
        .with_qualified_name("com.example.Service.process".to_string())
        .with_signature("void process(String input)".to_string());

    let method2 = create_symbol("process", SymbolKind::Method, "java", 25, 10)
        .with_qualified_name("com.example.Service.process".to_string())
        .with_signature("void process(String input, int count)".to_string());

    let uid1 = generator.generate_uid(&method1, &context).unwrap();
    let uid2 = generator.generate_uid(&method2, &context).unwrap();

    assert_ne!(uid1, uid2);
    assert!(uid1.contains("#"));
    assert!(uid2.contains("#"));

    // Base part should be the same
    let base1 = uid1.split('#').next().unwrap();
    let base2 = uid2.split('#').next().unwrap();
    assert_eq!(base1, base2);
}

#[test]
fn tests_test_local_variable_uid() {
    let generator = SymbolUIDGenerator::new();
    let context = create_context(1, vec!["function", "block"]);

    let var1 = create_symbol("local_var", SymbolKind::Variable, "rust", 30, 8);
    let var2 = create_symbol("local_var", SymbolKind::Variable, "rust", 35, 12);

    let uid1 = generator.generate_uid(&var1, &context).unwrap();
    let uid2 = generator.generate_uid(&var2, &context).unwrap();

    assert_ne!(uid1, uid2);
    assert!(uid1.contains("local_var"));
    assert!(uid2.contains("local_var"));
    assert!(uid1.contains("#"));
    assert!(uid2.contains("#"));
}

#[test]
fn tests_test_anonymous_symbol_uid() {
    let generator = SymbolUIDGenerator::new();
    let context = create_context(1, vec!["function"]);

    let lambda1 = create_symbol("lambda@123", SymbolKind::Anonymous, "python", 15, 20);
    let lambda2 = create_symbol("lambda@456", SymbolKind::Anonymous, "python", 15, 30);

    let uid1 = generator.generate_uid(&lambda1, &context).unwrap();
    let uid2 = generator.generate_uid(&lambda2, &context).unwrap();

    assert_ne!(uid1, uid2);
    assert!(uid1.starts_with("python::"));
    assert!(uid2.starts_with("python::"));
    assert!(uid1.contains("lambda"));
    assert!(uid2.contains("lambda"));
}

#[test]
fn test_usr_based_uid() {
    let generator = SymbolUIDGenerator::new();
    let context = create_context(1, vec![]);

    let symbol = create_symbol("test_func", SymbolKind::Function, "c", 10, 5)
        .with_usr("c:@F@test_func#I#".to_string());

    let uid = generator.generate_uid(&symbol, &context).unwrap();
    assert_eq!(uid, "c:@F@test_func#I#");
}

#[test]
fn test_class_member_uid() {
    let generator = SymbolUIDGenerator::new();
    let context = create_context(1, vec![]);

    let field = create_symbol("name", SymbolKind::Field, "typescript", 12, 5)
        .with_qualified_name("UserService.User.name".to_string())
        .with_visibility(Visibility::Private);

    let uid = generator.generate_uid(&field, &context).unwrap();

    assert!(uid.starts_with("typescript::"));
    assert!(uid.contains("UserService"));
    assert!(uid.contains("User"));
    assert!(uid.contains("name"));
}

#[test]
fn test_rust_uid_generation() {
    let generator = SymbolUIDGenerator::new();
    let context = create_context(1, vec!["std", "collections"]);

    let func = create_symbol("hash_map", SymbolKind::Function, "rust", 10, 5)
        .with_qualified_name("std::collections::hash_map".to_string())
        .with_signature("fn hash_map<K, V>() -> HashMap<K, V>".to_string());

    let uid = generator.generate_uid(&func, &context).unwrap();
    assert!(uid.starts_with("rust::"));
    assert!(uid.contains("std"));
    assert!(uid.contains("collections"));

    let struct_sym = create_symbol("HashMap", SymbolKind::Struct, "rust", 20, 5)
        .with_qualified_name("std::collections::HashMap".to_string());

    let struct_uid = generator.generate_uid(&struct_sym, &context).unwrap();
    assert!(struct_uid.starts_with("rust::"));
    assert!(struct_uid.contains("HashMap"));
}

#[test]
fn test_typescript_uid_generation() {
    let generator = SymbolUIDGenerator::new();
    let context = create_context(1, vec!["services"]);

    let interface = create_symbol("UserService", SymbolKind::Interface, "typescript", 15, 5)
        .with_qualified_name("services.UserService".to_string())
        .with_signature("interface UserService { getUser(id: string): User; }".to_string());

    let uid = generator.generate_uid(&interface, &context).unwrap();
    assert!(uid.starts_with("typescript::"));
    assert!(uid.contains("services"));
    assert!(uid.contains("UserService"));

    let method1 = create_symbol("getUser", SymbolKind::Method, "typescript", 20, 10)
        .with_qualified_name("services.UserService.getUser".to_string())
        .with_signature("getUser(id: string): User".to_string());

    let method2 = create_symbol("getUser", SymbolKind::Method, "typescript", 21, 10)
        .with_qualified_name("services.UserService.getUser".to_string())
        .with_signature("getUser(id: number): User".to_string());

    let uid1 = generator.generate_uid(&method1, &context).unwrap();
    let uid2 = generator.generate_uid(&method2, &context).unwrap();

    assert_ne!(uid1, uid2);
}

#[test]
fn test_python_uid_generation() {
    let generator = SymbolUIDGenerator::new();
    let context = create_context(1, vec!["package", "module"]);

    let class = create_symbol("UserService", SymbolKind::Class, "python", 10, 5)
        .with_qualified_name("package.module.UserService".to_string());

    let uid = generator.generate_uid(&class, &context).unwrap();
    assert!(uid.starts_with("python::"));
    assert!(uid.contains("package"));
    assert!(uid.contains("module"));
    assert!(uid.contains("UserService"));

    let lambda = create_symbol("lambda@line_25", SymbolKind::Anonymous, "python", 25, 15);
    let lambda_uid = generator.generate_uid(&lambda, &context).unwrap();
    assert!(lambda_uid.contains("lambda"));
}

#[test]
fn test_go_uid_generation() {
    let generator = SymbolUIDGenerator::new();
    let context = create_context(1, vec![]);

    let func = create_symbol("ProcessData", SymbolKind::Function, "go", 20, 5)
        .with_qualified_name("github.com/example/service.ProcessData".to_string())
        .with_signature("func ProcessData(data []string) error".to_string());

    let uid = generator.generate_uid(&func, &context).unwrap();
    assert!(uid.starts_with("go::"));
    assert!(uid.contains("ProcessData"));

    let struct_sym = create_symbol("User", SymbolKind::Struct, "go", 30, 5)
        .with_qualified_name("github.com/example/models.User".to_string());

    let struct_uid = generator.generate_uid(&struct_sym, &context).unwrap();
    assert!(struct_uid.contains("User"));
}

#[test]
fn test_java_uid_generation() {
    let generator = SymbolUIDGenerator::new();
    let context = create_context(1, vec![]);

    let class = create_symbol("UserService", SymbolKind::Class, "java", 10, 5)
        .with_qualified_name("com.example.service.UserService".to_string());

    let uid = generator.generate_uid(&class, &context).unwrap();
    assert!(uid.starts_with("java::"));
    assert!(uid.contains("com"));
    assert!(uid.contains("example"));
    assert!(uid.contains("service"));
    assert!(uid.contains("UserService"));
}

#[test]
fn test_cpp_uid_generation() {
    let generator = SymbolUIDGenerator::new();
    let context = create_context(1, vec![]);

    let class = create_symbol("Vector", SymbolKind::Class, "cpp", 15, 5)
        .with_qualified_name("std::vector::Vector".to_string());

    let uid = generator.generate_uid(&class, &context).unwrap();
    assert!(uid.starts_with("cpp::"));
    assert!(uid.contains("std"));
    assert!(uid.contains("vector"));
    assert!(uid.contains("Vector"));

    let func1 = create_symbol("process", SymbolKind::Function, "cpp", 20, 5)
        .with_qualified_name("utils::process".to_string())
        .with_signature("void process(int value)".to_string());

    let func2 = create_symbol("process", SymbolKind::Function, "cpp", 25, 5)
        .with_qualified_name("utils::process".to_string())
        .with_signature("void process(std::string value)".to_string());

    let uid1 = generator.generate_uid(&func1, &context).unwrap();
    let uid2 = generator.generate_uid(&func2, &context).unwrap();

    assert_ne!(uid1, uid2);
    assert!(uid1.contains("#"));
    assert!(uid2.contains("#"));
}

#[test]
fn test_empty_inputs() {
    let generator = SymbolUIDGenerator::new();
    let context = create_context(1, vec![]);

    let location = SymbolLocation::point("test.rs".to_string(), 10, 5);
    let empty_name = SymbolInfo::new(
        "".to_string(),
        SymbolKind::Function,
        "rust".to_string(),
        location.clone(),
    );
    assert!(generator.generate_uid(&empty_name, &context).is_err());

    let empty_lang = SymbolInfo::new(
        "test".to_string(),
        SymbolKind::Function,
        "".to_string(),
        location,
    );
    assert!(generator.generate_uid(&empty_lang, &context).is_err());
}

#[test]
fn test_unsupported_language() {
    let generator = SymbolUIDGenerator::new();
    let context = create_context(1, vec![]);

    let symbol = create_symbol("test", SymbolKind::Function, "unsupported_language", 10, 5);
    let result = generator.generate_uid(&symbol, &context);

    assert!(result.is_err());
    match result.unwrap_err() {
        UIDError::UnsupportedLanguage { language } => {
            assert_eq!(language, "unsupported_language");
        }
        _ => panic!("Expected UnsupportedLanguage error"),
    }
}

#[test]
fn test_special_characters_in_names() {
    let generator = SymbolUIDGenerator::new();
    let context = create_context(1, vec![]);

    let operator = create_symbol("operator+", SymbolKind::Function, "cpp", 10, 5)
        .with_qualified_name("MyClass::operator+".to_string());

    let uid = generator.generate_uid(&operator, &context).unwrap();
    assert!(uid.contains("operator+"));

    let unicode_name = create_symbol("测试函数", SymbolKind::Function, "rust", 15, 5);
    let unicode_uid = generator.generate_uid(&unicode_name, &context).unwrap();
    assert!(unicode_uid.contains("测试函数"));
}

#[test]
fn test_very_long_names() {
    let generator = SymbolUIDGenerator::new();
    let context = create_context(1, vec![]);

    let long_name = "a".repeat(1000);
    let symbol = create_symbol(&long_name, SymbolKind::Function, "rust", 10, 5);

    let uid = generator.generate_uid(&symbol, &context).unwrap();
    assert!(uid.len() > 0);
    assert!(uid.len() < 2000);
}

#[test]
fn test_deeply_nested_scopes() {
    let generator = SymbolUIDGenerator::new();

    let deep_scopes: Vec<&str> = (0..100).map(|_i| "scope").collect();
    let context = create_context(1, deep_scopes);

    let symbol = create_symbol("nested_func", SymbolKind::Function, "rust", 10, 5);
    let uid = generator.generate_uid(&symbol, &context).unwrap();

    assert!(uid.contains("nested_func"));
    assert!(uid.contains("scope"));
}

#[test]
fn test_duplicate_scope_names() {
    let generator = SymbolUIDGenerator::new();
    let context = create_context(1, vec!["module", "module", "submodule", "module"]);

    let symbol = create_symbol("func", SymbolKind::Function, "rust", 10, 5);
    let uid = generator.generate_uid(&symbol, &context).unwrap();

    assert!(uid.contains("func"));
}

#[test]
fn test_batch_uid_generation_performance() {
    let generator = SymbolUIDGenerator::new();
    let context = create_context(1, vec!["module"]);

    let mut symbols = Vec::new();
    for i in 0..1000 {
        let symbol = create_symbol(
            &format!("func_{}", i),
            SymbolKind::Function,
            "rust",
            i as u32 + 10,
            5,
        );
        symbols.push((symbol, context.clone()));
    }

    let start = std::time::Instant::now();
    let results = generator.generate_batch_uids(&symbols);
    let duration = start.elapsed();

    assert!(duration.as_millis() < 1000);

    assert_eq!(results.len(), 1000);
    for result in &results {
        assert!(result.is_ok());
    }

    let uids: HashSet<String> = results.into_iter().map(|r| r.unwrap()).collect();
    assert_eq!(uids.len(), 1000);
}

#[test]
fn test_uid_generation_consistency() {
    let generator = SymbolUIDGenerator::new();
    let context = create_context(1, vec!["module"]);

    let symbol = create_symbol("test_func", SymbolKind::Function, "rust", 10, 5)
        .with_qualified_name("module::test_func".to_string());

    let mut uids = Vec::new();
    for _ in 0..100 {
        let uid = generator.generate_uid(&symbol, &context).unwrap();
        uids.push(uid);
    }

    for uid in &uids[1..] {
        assert_eq!(uid, &uids[0]);
    }
}

#[test]
fn test_hash_algorithm_performance() {
    let blake3_gen = SymbolUIDGenerator::with_hash_algorithm(HashAlgorithm::Blake3);
    let sha256_gen = SymbolUIDGenerator::with_hash_algorithm(HashAlgorithm::Sha256);

    let context = create_context(1, vec![]);
    let symbols: Vec<_> = (0..100)
        .map(|i| {
            create_symbol(
                &format!("func_{}", i),
                SymbolKind::Function,
                "rust",
                i as u32 + 10,
                5,
            )
        })
        .collect();

    let start = std::time::Instant::now();
    for symbol in &symbols {
        let _ = blake3_gen.generate_uid(symbol, &context).unwrap();
    }
    let blake3_duration = start.elapsed();

    let start = std::time::Instant::now();
    for symbol in &symbols {
        let _ = sha256_gen.generate_uid(symbol, &context).unwrap();
    }
    let sha256_duration = start.elapsed();

    assert!(blake3_duration.as_millis() < 100);
    assert!(sha256_duration.as_millis() < 100);

    println!("Blake3: {:?}, SHA256: {:?}", blake3_duration, sha256_duration);
}

#[test]
fn test_indexing_pipeline_integration() {
    // A symbol as the indexing pipeline reports it: a public function with a signature.
    let mut symbol = SymbolInfo::new(
        "test_func".to_string(),
        SymbolKind::from_name("function"),
        "unknown".to_string(),
        SymbolLocation::new("".to_string(), 10, 5, 15, 10),
    )
    .with_signature("fn test_func() -> i32".to_string())
    .with_visibility(Visibility::from_name("public"));
    symbol.location.file_path = "src/lib.rs".to_string();
    symbol.language = "rust".to_string();

    let generator = SymbolUIDGenerator::new();
    let context = create_context(1, vec!["crate"]);
    let uid = generator.generate_uid(&symbol, &context).unwrap();

    assert!(!uid.is_empty());
    assert!(uid.contains("test_func"));
}

#[test]
fn test_cross_language_consistency() {
    let generator = SymbolUIDGenerator::new();

    let rust_func = create_symbol("process", SymbolKind::Function, "rust", 10, 5)
        .with_qualified_name("module::process".to_string());
    let java_func = create_symbol("process", SymbolKind::Function, "java", 10, 5)
        .with_qualified_name("module.process".to_string());

    let context = create_context(1, vec![]);

    let rust_uid = generator.generate_uid(&rust_func, &context).unwrap();
    let java_uid = generator.generate_uid(&java_func, &context).unwrap();

    assert_ne!(rust_uid, java_uid);
    assert!(rust_uid.starts_with("rust::"));
    assert!(java_uid.starts_with("java::"));
}

#[test]
fn tests_test_workspace_isolation() {
    let generator = SymbolUIDGenerator::new();

    let symbol = create_symbol("func", SymbolKind::Function, "rust", 10, 5)
        .with_qualified_name("module::func".to_string());

    let context1 = create_context(1, vec!["module"]);
    let context2 = create_context(2, vec!["module"]);

    let uid1 = generator.generate_uid(&symbol, &context1).unwrap();
    let uid2 = generator.generate_uid(&symbol, &context2).unwrap();

    assert_eq!(uid1, uid2);
}

#[test]
fn tests_test_uid_validation() {
    let generator = SymbolUIDGenerator::new();

    assert!(generator.validate_uid("rust::module::function"));
    assert!(generator.validate_uid("java::com::example::Class::method#abc12345"));
    assert!(generator.validate_uid("typescript::services::UserService"));

    assert!(!generator.validate_uid(""));
    assert!(!generator.validate_uid("a"));
    assert!(!generator.validate_uid("no_separator"));
    assert!(!generator.validate_uid("::"));
    assert!(!generator.validate_uid("::empty"));
}

#[test]
fn tests_test_language_extraction() {
    let generator = SymbolUIDGenerator::new();

    assert_eq!(
        generator.extract_language_from_uid("rust::module::function"),
        Some("rust".to_string())
    );
    assert_eq!(
        generator.extract_language_from_uid("java::com::example::Class"),
        Some("java".to_string())
    );
    assert_eq!(
        generator.extract_language_from_uid("typescript::services::UserService"),
        Some("typescript".to_string())
    );

    assert_eq!(generator.extract_language_from_uid("single"), None);
    assert_eq!(generator.extract_language_from_uid(""), None);
    assert_eq!(
        generator.extract_language_from_uid("::no_language"),
        Some("".to_string())
    );
}

#[test]
fn test_uid_format_consistency() {
    let generator = SymbolUIDGenerator::new();
    let context = create_context(1, vec![]);

    let symbols = vec![
        create_symbol("func", SymbolKind::Function, "rust", 10, 5),
        create_symbol("Class", SymbolKind::Class, "java", 20, 10),
        create_symbol("interface", SymbolKind::Interface, "typescript", 30, 15),
        create_symbol("variable", SymbolKind::Variable, "python", 40, 20),
    ];

    for symbol in symbols {
        let uid = generator.generate_uid(&symbol, &context).unwrap();
        assert!(generator.validate_uid(&uid));
        assert!(uid.contains("::"));
        let extracted_lang = generator.extract_language_from_uid(&uid);
        assert!(extracted_lang.is_some());
        assert_eq!(extracted_lang.unwrap(), symbol.language);
    }
}

#[test]
fn test_generator_statistics() {
    let generator = SymbolUIDGenerator::new();
    let stats = stats_map(&generator);

    assert!(stats.contains_key("hash_algorithm"));
    assert!(stats.contains_key("supported_languages"));
    assert!(stats.contains_key("languages"));

    assert_eq!(stats["hash_algorithm"], "Blake3");

    let lang_count: usize = stats["supported_languages"].parse().unwrap();
    assert!(lang_count >= 7);

    let languages = &stats["languages"];
    assert!(languages.contains("rust"));
    assert!(languages.contains("java"));
    assert!(languages.contains("typescript"));
}

#[test]
fn test_uid_generator_creation() {
    let generator = SymbolUIDGenerator::new();
    assert_eq!(generator.hash_algorithm(), HashAlgorithm::Blake3);
    assert!(stats_map(&generator)["supported_languages"] != "0");

    let blake3_generator = SymbolUIDGenerator::with_hash_algorithm(HashAlgorithm::Blake3);
    assert_eq!(blake3_generator.hash_algorithm(), HashAlgorithm::Blake3);

    let sha256_generator = SymbolUIDGenerator::with_hash_algorithm(HashAlgorithm::Sha256);
    assert_eq!(sha256_generator.hash_algorithm(), HashAlgorithm::Sha256);
}

#[test]
fn test_global_symbol_uid() {
    let generator = SymbolUIDGenerator::new();
    let context = create_test_context();

    let symbol = create_test_symbol("calculate_total", SymbolKind::Function, "rust")
        .with_qualified_name("accounting::billing::calculate_total".to_string());

    let uid = generator.generate_uid(&symbol, &context).unwrap();
    assert!(uid.starts_with("rust::"));
    assert!(uid.contains("accounting"));
    assert!(uid.contains("billing"));
    assert!(uid.contains("calculate_total"));
}

#[test]
fn uid_generator_test_method_uid_with_overloading() {
    let generator = SymbolUIDGenerator::new();
    let context = create_test_context();

    let method1 = create_test_symbol("process", SymbolKind::Method, "java")
        .with_qualified_name("com.example.Service.process".to_string())
        .with_signature("void process(String input)".to_string());

    let method2 = create_test_symbol("process", SymbolKind::Method, "java")
        .with_qualified_name("com.example.Service.process".to_string())
        .with_signature("void process(String input, int count)".to_string());

    let uid1 = generator.generate_uid(&method1, &context).unwrap();
    let uid2 = generator.generate_uid(&method2, &context).unwrap();

    assert_ne!(uid1, uid2);
    assert!(uid1.contains("#"));
    assert!(uid2.contains("#"));
}

#[test]
fn uid_generator_test_local_variable_uid() {
    let generator = SymbolUIDGenerator::new();
    let context = create_test_context();

    let var_symbol = create_test_symbol("local_var", SymbolKind::Variable, "rust");
    let uid = generator.generate_uid(&var_symbol, &context).unwrap();

    assert!(uid.starts_with("rust::"));
    assert!(uid.contains("local_var"));
    assert!(uid.contains("#"));
}

#[test]
fn uid_generator_test_anonymous_symbol_uid() {
    let generator = SymbolUIDGenerator::new();
    let context = create_test_context();

    let lambda_symbol = create_test_symbol("lambda@123", SymbolKind::Anonymous, "python");
    let uid = generator.generate_uid(&lambda_symbol, &context).unwrap();

    assert!(uid.starts_with("python::"));
    assert!(uid.contains("lambda"));
}

#[test]
fn test_usr_symbol_uid() {
    let generator = SymbolUIDGenerator::new();
    let context = create_test_context();

    let symbol = create_test_symbol("test_func", SymbolKind::Function, "c")
        .with_usr("c:@F@test_func".to_string());

    let uid = generator.generate_uid(&symbol, &context).unwrap();
    assert_eq!(uid, "c:@F@test_func");
}

#[test]
fn test_batch_uid_generation() {
    let generator = SymbolUIDGenerator::new();
    let context = create_test_context();

    let symbols = vec![
        (create_test_symbol("func1", SymbolKind::Function, "rust"), context.clone()),
        (create_test_symbol("func2", SymbolKind::Function, "rust"), context.clone()),
        (create_test_symbol("var1", SymbolKind::Variable, "rust"), context.clone()),
    ];

    let uids = generator.generate_batch_uids(&symbols);
    assert_eq!(uids.len(), 3);

    for uid_result in &uids {
        assert!(uid_result.is_ok());
    }

    let uid_strings: Vec<String> = uids.into_iter().map(|r| r.unwrap()).collect();
    assert_eq!(uid_strings.len(), 3);

    for i in 0..uid_strings.len() {
        for j in i + 1..uid_strings.len() {
            assert_ne!(uid_strings[i], uid_strings[j]);
        }
    }
}

#[test]
fn uid_generator_test_uid_validation() {
    let generator = SymbolUIDGenerator::new();

    assert!(generator.validate_uid("rust::module::function"));
    assert!(generator.validate_uid("java::com::example::Class::method#hash123"));

    assert!(!generator.validate_uid(""));
    assert!(!generator.validate_uid("a"));
    assert!(!generator.validate_uid("no_separator"));
}

#[test]
fn uid_generator_test_language_extraction() {
    let generator = SymbolUIDGenerator::new();

    assert_eq!(
        generator.extract_language_from_uid("rust::module::function"),
        Some("rust".to_string())
    );
    assert_eq!(
        generator.extract_language_from_uid("java::com::example::Class"),
        Some("java".to_string())
    );
    assert_eq!(generator.extract_language_from_uid("invalid"), None);
}

#[test]
fn test_error_handling() {
    let generator = SymbolUIDGenerator::new();
    let context = create_test_context();

    let location = SymbolLocation::point("test.rs".to_string(), 10, 5);
    let empty_name_symbol = SymbolInfo::new(
        "".to_string(),
        SymbolKind::Function,
        "rust".to_string(),
        location.clone(),
    );
    assert!(generator.generate_uid(&empty_name_symbol, &context).is_err());

    let empty_lang_symbol = SymbolInfo::new(
        "test".to_string(),
        SymbolKind::Function,
        "".to_string(),
        location.clone(),
    );
    assert!(generator.generate_uid(&empty_lang_symbol, &context).is_err());

    let unsupported_symbol = SymbolInfo::new(
        "test".to_string(),
        SymbolKind::Function,
        "unsupported_lang".to_string(),
        location,
    );
    assert!(generator.generate_uid(&unsupported_symbol, &context).is_err());
}

#[test]
fn test_hash_algorithms() {
    let blake3_gen = SymbolUIDGenerator::with_hash_algorithm(HashAlgorithm::Blake3);
    let sha256_gen = SymbolUIDGenerator::with_hash_algorithm(HashAlgorithm::Sha256);

    let context = create_test_context();
    let symbol = create_test_symbol("test_func", SymbolKind::Function, "rust");

    let blake3_uid = blake3_gen.generate_uid(&symbol, &context).unwrap();
    let sha256_uid = sha256_gen.generate_uid(&symbol, &context).unwrap();

    assert!(blake3_uid.starts_with("rust::"));
    assert!(sha256_uid.starts_with("rust::"));
}

#[test]
fn test_generator_stats() {
    let generator = SymbolUIDGenerator::new();
    let stats = stats_map(&generator);

    assert!(stats.contains_key("hash_algorithm"));
    assert!(stats.contains_key("supported_languages"));
    assert!(stats.contains_key("languages"));

    assert_eq!(stats["hash_algorithm"], "Blake3");
    assert!(stats["supported_languages"].parse::<usize>().unwrap() > 0);
}

// ---------------------------------------------------------------------------
// Exact values
// ---------------------------------------------------------------------------

#[test]
fn global_uid_is_language_and_qualified_parts() {
    let generator = SymbolUIDGenerator::new();
    let context = create_context(1, vec!["ignored"]);
    let symbol = create_symbol("calculate_total", SymbolKind::Function, "rust", 10, 5)
        .with_qualified_name("accounting::billing::calculate_total".to_string())
        .with_signature("fn calculate_total() -> f64".to_string());
    assert_eq!(
        generator.generate_uid(&symbol, &context).unwrap(),
        "rust::accounting::billing::calculate_total#fn()->f64"
    );
    let plain = create_symbol("helper", SymbolKind::Function, "rust", 1, 1);
    let context = create_context(1, vec!["a", "b"]);
    assert_eq!(generator.generate_uid(&plain, &context).unwrap(), "rust::a::b::helper");
}

#[test]
fn local_uid_carries_position_hash_prefix() {
    let generator = SymbolUIDGenerator::new();
    let context = create_context(1, vec!["f"]);
    let var = create_symbol("x", SymbolKind::Variable, "rust", 30, 8);
    let uid = generator.generate_uid(&var, &context).unwrap();
    let expected_hash = blake3::hash(b"30:8").to_hex().to_string();
    assert_eq!(uid, format!("rust::f::x#{}", &expected_hash[..8]));
}

#[test]
fn local_uid_uses_parent_scope_without_context() {
    let generator = SymbolUIDGenerator::new();
    let context = create_context(1, vec![]);
    let var = create_symbol("x", SymbolKind::Parameter, "rust", 1, 2)
        .with_parent_scope("outer".to_string());
    let uid = generator.generate_uid(&var, &context).unwrap();
    assert!(uid.starts_with("rust::outer::x#"));
    assert_eq!(uid.len(), "rust::outer::x#".len() + 8);
}

#[test]
fn anonymous_uid_hashes_file_position_and_scope() {
    let generator = SymbolUIDGenerator::with_hash_algorithm(HashAlgorithm::Sha256);
    let context = create_context(1, vec!["pkg", "mod"]);
    let lambda = create_symbol("lambda@1", SymbolKind::Anonymous, "python", 15, 20);
    let uid = generator.generate_uid(&lambda, &context).unwrap();
    let digest = format!("{:x}", sha2::Sha256::digest(b"test.rs:15:20:pkg.mod"));
    assert_eq!(uid, format!("python::lambda::{}", digest));
}

#[test]
fn overloaded_method_hash_is_of_normalized_signature() {
    let generator = SymbolUIDGenerator::new();
    let context = create_context(1, vec![]);
    let method = create_symbol("process", SymbolKind::Method, "java", 20, 10)
        .with_qualified_name("com.example.Service.process".to_string())
        .with_signature("void process(String input)".to_string());
    let uid = generator.generate_uid(&method, &context).unwrap();
    let normalized = lsp_daemon::symbol::normalization::Normalizer::new()
        .normalize_signature("void process(String input)", "java")
        .unwrap();
    let expected_hash = blake3::hash(normalized.as_bytes()).to_hex().to_string();
    assert_eq!(
        uid,
        format!("java::com::example::Service::process#{}", &expected_hash[..8])
    );
}

#[test]
fn rust_signature_is_shown_in_uid() {
    let generator = SymbolUIDGenerator::new();
    let context = create_context(1, vec![]);
    let a = create_symbol("f", SymbolKind::Function, "rust", 1, 1)
        .with_signature("fn f(a: i32)".to_string());
    let b = create_symbol("f", SymbolKind::Function, "rust", 1, 1)
        .with_signature("fn f(b: String)".to_string());
    let plain = create_symbol("f", SymbolKind::Function, "rust", 1, 1);
    assert_eq!(generator.generate_uid(&a, &context).unwrap(), "rust::f#fn(a:i32)");
    assert_eq!(generator.generate_uid(&b, &context).unwrap(), "rust::f#fn(b:String)");
    assert_eq!(generator.generate_uid(&plain, &context).unwrap(), "rust::f");
}

#[test]
fn extension_names_select_rules() {
    let generator = SymbolUIDGenerator::new();
    let context = create_context(1, vec![]);
    let symbol = create_symbol("f", SymbolKind::Function, "RS", 1, 1);
    assert_eq!(generator.generate_uid(&symbol, &context).unwrap(), "RS::f");
    let ruby = create_symbol("f", SymbolKind::Function, "rb", 1, 1);
    match generator.generate_uid(&ruby, &context) {
        Err(UIDError::UnsupportedLanguage { language }) => assert_eq!(language, "rb"),
        other => panic!("unexpected {:?}", other),
    }
}

#[test]
fn empty_inputs_give_invalid_symbol_messages() {
    let generator = SymbolUIDGenerator::new();
    let context = create_context(1, vec![]);
    match generator.generate_uid(&create_symbol("", SymbolKind::Function, "rust", 1, 1), &context) {
        Err(UIDError::InvalidSymbol(m)) => assert_eq!(m, "Symbol name cannot be empty"),
        other => panic!("unexpected {:?}", other),
    }
    match generator.generate_uid(&create_symbol("f", SymbolKind::Function, "", 1, 1), &context) {
        Err(UIDError::InvalidSymbol(m)) => assert_eq!(m, "Language cannot be empty"),
        other => panic!("unexpected {:?}", other),
    }
}

#[test]
fn stats_list_every_language_key() {
    let generator = SymbolUIDGenerator::with_hash_algorithm(HashAlgorithm::Sha256);
    let stats = stats_map(&generator);
    assert_eq!(stats["hash_algorithm"], "Sha256");
    assert_eq!(stats["supported_languages"], "9");
    assert_eq!(
        stats["languages"],
        "rust, typescript, javascript, python, go, java, c, cpp, c++"
    );
}

#[test]
fn default_generator_uses_blake3() {
    let generator = SymbolUIDGenerator::default();
    assert_eq!(generator.hash_algorithm(), HashAlgorithm::Blake3);
    assert_eq!(HashAlgorithm::default(), HashAlgorithm::Blake3);
}

#[test]
fn rust_function_uid_shows_its_signature() {
    let generator = SymbolUIDGenerator::new();
    let context = create_context(123, vec!["accounting", "billing"]);
    let symbol = create_symbol("calculate_total", SymbolKind::Function, "rust", 10, 5)
        .with_qualified_name("accounting::billing::calculate_total".to_string())
        .with_signature("fn calculate_total(items: &[Item]) -> f64".to_string());
    assert_eq!(
        generator.generate_uid(&symbol, &context).unwrap(),
        "rust::accounting::billing::calculate_total#fn(items:&[Item])->f64"
    );
}
