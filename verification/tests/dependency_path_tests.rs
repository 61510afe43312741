use lsp_daemon::symbol::dependency_path::{
    classify_absolute_path, DependencyPathClassifier, GoDep, JsDep, RustDep,
};

#[test]
fn rust_stdlib_maps_to_dep() {
    let path = "/usr/lib/rustlib/src/rust/library/alloc/src/lib.rs";
    let dep = RustDep.classify(path).unwrap();
    assert!(dep.starts_with("/dep/rust/system/alloc"));
}

#[test]
fn rust_registry_maps_to_dep() {
    let path =
        "/home/u/.cargo/registry/src/index.crates.io-6f17d22bba15001f/serde-1.0.210/src/lib.rs";
    let dep = RustDep.classify(path).unwrap();
    assert!(dep.starts_with("/dep/rust/serde"));
}

#[test]
fn node_modules_unscoped() {
    let path = "/repo/node_modules/lodash/index.js";
    let dep = JsDep.classify(path).unwrap();
    assert!(dep.starts_with("/dep/js/lodash"));
}

#[test]
fn node_modules_scoped() {
    let path = "/repo/node_modules/@types/node/fs.d.ts";
    let dep = JsDep.classify(path).unwrap();
    assert!(dep.starts_with("/dep/js/@types/node"));
}

#[test]
fn go_stdlib_maps() {
    let go = GoDep::new(Some("/go/root".to_string()), None, None);
    let path = "/go/root/src/net/http/server.go";
    let dep = go.classify(path).unwrap();
    assert_eq!(dep, "/dep/go/system/net/http/server.go");
}

#[test]
fn go_modcache_maps() {
    let go = GoDep::new(None, Some("/mod/cache".to_string()), None);
    let path = "/mod/cache/github.com/gorilla/mux@v1.8.1/router.go";
    let dep = go.classify(path).unwrap();
    assert_eq!(dep, "/dep/go/github.com/gorilla/mux/router.go");
}

#[test]
fn rust_registry_exact_path() {
    let path =
        "/home/u/.cargo/registry/src/index.crates.io-6f17d22bba15001f/serde-1.0.210/src/lib.rs";
    assert_eq!(RustDep.classify(path).unwrap(), "/dep/rust/serde/src/lib.rs");
    assert_eq!(
        RustDep.classify("/usr/lib/rustlib/src/rust/library/core").unwrap(),
        "/dep/rust/system/core"
    );
    assert_eq!(RustDep.classify("/home/u/project/src/main.rs"), None);
}

#[test]
fn registry_crate_without_version_keeps_name() {
    assert_eq!(
        RustDep
            .classify("/x/registry/src/idx/my-crate-beta/lib.rs")
            .unwrap(),
        "/dep/rust/my-crate-beta/lib.rs"
    );
}

#[test]
fn scoped_package_without_name_is_not_classified() {
    assert_eq!(JsDep.classify("/repo/node_modules/@types"), None);
    assert_eq!(JsDep.classify("/repo/node_modules/react"), Some("/dep/js/react".to_string()));
}

#[test]
fn gopath_module_maps() {
    let go = GoDep::new(None, None, Some("/home/u/go/".to_string()));
    let dep = go
        .classify("/home/u/go/pkg/mod/golang.org/x/text@v0.3.0/unicode/norm.go")
        .unwrap();
    assert_eq!(dep, "/dep/go/golang.org/x/text/unicode/norm.go");
    assert_eq!(go.classify("/elsewhere/main.go"), None);
}

#[test]
fn classifiers_tried_in_order() {
    let go = GoDep::new(None, None, None);
    assert_eq!(
        classify_absolute_path("/repo/node_modules/lodash/index.js", &go),
        Some("/dep/js/lodash/index.js".to_string())
    );
    assert_eq!(classify_absolute_path("/repo/src/main.rs", &go), None);
}
