use lsp_daemon::universal_cache::document_provider::{
    uri_file_path, ContentSource, DaemonDocumentProvider, DocumentProviderFactory, DocumentState,
};

fn memory_content(provider: &DaemonDocumentProvider, uri: &str) -> Option<String> {
    match provider.content_source(uri) {
        ContentSource::Memory(c) => Some(c),
        _ => None,
    }
}

#[test]
fn test_document_lifecycle() {
    let mut provider = DaemonDocumentProvider::new();

    let uri = "file:///test/document.rs";
    let initial_content = "fn main() {}";
    let modified_content = "fn main() { println!(\"Hello!\"); }";

    assert!(!provider.is_document_open(uri));
    assert!(!provider.has_unsaved_changes(uri));

    provider.document_opened(uri, initial_content.to_string(), 1);
    assert!(provider.is_document_open(uri));
    assert!(!provider.has_unsaved_changes(uri));
    assert_eq!(provider.get_document_version(uri), Some(1));
    assert_eq!(memory_content(&provider, uri), Some(initial_content.to_string()));

    provider.document_changed(uri, modified_content.to_string(), 2);
    assert!(provider.has_unsaved_changes(uri));
    assert_eq!(provider.get_document_version(uri), Some(2));
    assert_eq!(memory_content(&provider, uri), Some(modified_content.to_string()));

    let dirty_docs = provider.get_dirty_documents();
    assert_eq!(dirty_docs.len(), 1);
    assert_eq!(dirty_docs[0], uri);

    provider.document_saved(uri, None, 3);
    assert!(!provider.has_unsaved_changes(uri));
    assert_eq!(provider.get_document_version(uri), Some(3));
    assert_eq!(memory_content(&provider, uri), Some(modified_content.to_string()));
    assert_eq!(provider.get_dirty_documents().len(), 0);

    provider.document_closed(uri);
    assert!(!provider.is_document_open(uri));
    assert_eq!(provider.get_document_version(uri), None);
}

#[test]
fn test_multiple_documents() {
    let mut provider = DaemonDocumentProvider::new();

    let uri1 = "file:///test/doc1.rs";
    let uri2 = "file:///test/doc2.rs";
    let uri3 = "file:///test/doc3.rs";

    provider.document_opened(uri1, "content1".to_string(), 1);
    provider.document_opened(uri2, "content2".to_string(), 1);
    provider.document_opened(uri3, "content3".to_string(), 1);
    assert_eq!(provider.get_open_documents().len(), 3);

    provider.document_changed(uri1, "modified1".to_string(), 2);
    provider.document_changed(uri3, "modified3".to_string(), 2);

    let mut dirty_docs = provider.get_dirty_documents();
    dirty_docs.sort();
    assert_eq!(dirty_docs.len(), 2);
    assert!(dirty_docs.contains(&uri1.to_string()));
    assert!(dirty_docs.contains(&uri3.to_string()));

    provider.document_saved(uri1, None, 3);
    let dirty_docs = provider.get_dirty_documents();
    assert_eq!(dirty_docs.len(), 1);
    assert_eq!(dirty_docs[0], uri3);

    provider.clear_all_documents();
    assert_eq!(provider.get_open_documents().len(), 0);
    assert_eq!(provider.get_dirty_documents().len(), 0);
}

#[test]
fn test_document_versions() {
    let mut provider = DaemonDocumentProvider::new();
    let uri = "file:///test/versioned.rs";

    provider.document_opened(uri, "v1".to_string(), 1);
    assert_eq!(provider.get_document_version(uri), Some(1));

    provider.document_changed(uri, "v2".to_string(), 2);
    assert_eq!(provider.get_document_version(uri), Some(2));

    provider.document_changed(uri, "v3".to_string(), 3);
    assert_eq!(provider.get_document_version(uri), Some(3));

    provider.document_saved(uri, Some("v4".to_string()), 4);
    assert_eq!(provider.get_document_version(uri), Some(4));
    assert_eq!(memory_content(&provider, uri), Some("v4".to_string()));
}

#[test]
fn test_changed_before_open_opens_dirty() {
    let mut provider = DaemonDocumentProvider::new();
    let uri = "file:///test/unopened.rs";
    provider.document_changed(uri, "draft".to_string(), 7);
    assert!(provider.is_document_open(uri));
    assert!(provider.has_unsaved_changes(uri));
    assert_eq!(provider.get_document_version(uri), Some(7));
}

#[test]
fn test_saving_unopened_document_changes_nothing() {
    let mut provider = DaemonDocumentProvider::new();
    let uri = "file:///test/never_opened.rs";
    provider.document_saved(uri, Some("text".to_string()), 2);
    assert!(!provider.is_document_open(uri));
    assert_eq!(provider.get_open_documents().len(), 0);
}

#[test]
fn test_reopen_replaces_state() {
    let mut provider = DaemonDocumentProvider::new();
    let uri = "file:///test/reopen.rs";
    provider.document_opened(uri, "a".to_string(), 1);
    provider.document_changed(uri, "b".to_string(), 2);
    provider.document_opened(uri, "c".to_string(), 5);
    assert_eq!(provider.get_open_documents().len(), 1);
    assert!(!provider.has_unsaved_changes(uri));
    assert_eq!(provider.get_document_version(uri), Some(5));
    assert_eq!(memory_content(&provider, uri), Some("c".to_string()));
}

#[test]
fn test_open_documents_listing() {
    let mut provider = DaemonDocumentProvider::new();
    provider.document_opened("file:///a.rs", "x".to_string(), 1);
    provider.document_changed("file:///b.rs", "y".to_string(), 4);
    let docs = provider.get_open_documents();
    assert_eq!(docs.len(), 2);
    let b = docs.iter().find(|(u, _)| u == "file:///b.rs").unwrap();
    assert_eq!(b.1.content, Some("y".to_string()));
    assert!(b.1.has_unsaved_changes);
    assert_eq!(b.1.version, 4);
}

#[test]
fn test_uri_parsing() {
    let mut provider = DaemonDocumentProvider::new();

    match provider.content_source("file:///usr/local/test.rs") {
        ContentSource::File(p) => assert_eq!(p, "/usr/local/test.rs"),
        other => panic!("unexpected source {:?}", other),
    }
    match provider.content_source("http://example.com/test.rs") {
        ContentSource::Unavailable => {}
        other => panic!("unexpected source {:?}", other),
    }

    provider.document_opened("http://example.com/test.rs", "remote".to_string(), 1);
    assert_eq!(
        memory_content(&provider, "http://example.com/test.rs"),
        Some("remote".to_string())
    );
}

#[test]
fn test_document_state_default() {
    let state = DocumentState::default();
    assert_eq!(state.content, None);
    assert!(!state.has_unsaved_changes);
    assert_eq!(state.version, 0);
}

#[test]
fn test_document_provider_factory() {
    let fs_provider = DocumentProviderFactory::create_filesystem_provider();
    assert_eq!(
        fs_provider.content_path("file:///nonexistent.rs"),
        Some("/nonexistent.rs".to_string())
    );
    assert_eq!(fs_provider.content_path("untitled:Untitled-1"), None);
    assert!(!fs_provider.has_unsaved_changes("file:///any.rs"));
    assert_eq!(fs_provider.get_workspace_root("file:///any.rs"), None);

    let daemon_provider = DocumentProviderFactory::create_daemon_provider();
    assert_eq!(daemon_provider.get_open_documents().len(), 0);
}

#[test]
fn test_file_uri_paths() {
    assert_eq!(uri_file_path("file:///a/b.rs"), Some("/a/b.rs".to_string()));
    assert_eq!(uri_file_path("file://"), Some(String::new()));
    assert_eq!(uri_file_path("File:///a"), None);
    assert_eq!(uri_file_path(""), None);
}
