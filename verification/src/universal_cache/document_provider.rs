//! Tracking of open documents and their unsaved changes, as the language-server
//! document synchronization reports them.
use vstd::prelude::*;
use std::time::SystemTime;
use crate::symbol::strings_view;
use crate::table::{
    entries_map, key_position, keys_distinct, lemma_entry_at, lemma_push_entry, lemma_remove_entry,
    lemma_update_entry, view_entries,
};
use crate::text::{chars_of, has_prefix, slice, starts_with, string_of};

verus! {

broadcast use vstd::string::group_string_axioms;

/// Document state tracking unsaved changes and content
#[derive(Debug)]
pub struct DocumentState {
    /// Current document content (if different from file)
    pub content: Option<String>,
    /// Whether the document has unsaved changes
    pub has_unsaved_changes: bool,
    /// Document version number (for change tracking)
    pub version: u64,
    /// Last modified timestamp
    pub last_modified: SystemTime,
}

/// The model of a document's state.
pub struct DocumentStateView {
    pub content: Option<Seq<char>>,
    pub has_unsaved_changes: bool,
    pub version: u64,
    pub last_modified: SystemTime,
}

pub open spec fn opt_chars(o: Option<String>) -> Option<Seq<char>> {
    match o {
        Some(s) => Some(s@),
        None => None,
    }
}

impl View for DocumentState {
    type V = DocumentStateView;

    open spec fn view(&self) -> DocumentStateView {
        DocumentStateView {
            content: opt_chars(self.content),
            has_unsaved_changes: self.has_unsaved_changes,
            version: self.version,
            last_modified: self.last_modified,
        }
    }
}

impl DocumentState {
    /// A copy of the state.
    pub fn copy(&self) -> (r: Self)
        ensures
            r@ == self@,
    {
        DocumentState {
            content: match &self.content {
                Some(c) => Some(string_of(&chars_of(c.as_str()))),
                None => None,
            },
            has_unsaved_changes: self.has_unsaved_changes,
            version: self.version,
            last_modified: self.last_modified.clone(),
        }
    }
}

impl Default for DocumentState {
    fn default() -> (r: Self)
        ensures
            r.content is None,
            !r.has_unsaved_changes,
            r.version == 0,
    {
        Self {
            content: None,
            has_unsaved_changes: false,
            version: 0,
            last_modified: SystemTime::now(),
        }
    }
}

// ---------------------------------------------------------------------------
// Model of the document table and its transitions
// ---------------------------------------------------------------------------

/// The documents after one is opened with some content and version, at time `t`: the
/// document is clean.
pub open spec fn opened_documents(
    m: Map<Seq<char>, DocumentStateView>,
    uri: Seq<char>,
    content: Seq<char>,
    version: u64,
    t: SystemTime,
) -> Map<Seq<char>, DocumentStateView> {
    m.insert(
        uri,
        DocumentStateView {
            content: Some(content),
            has_unsaved_changes: false,
            version,
            last_modified: t,
        },
    )
}

/// The documents after one is changed: it holds the new content and version and has
/// unsaved changes (a document not yet open becomes open).
pub open spec fn changed_documents(
    m: Map<Seq<char>, DocumentStateView>,
    uri: Seq<char>,
    content: Seq<char>,
    version: u64,
    t: SystemTime,
) -> Map<Seq<char>, DocumentStateView> {
    m.insert(
        uri,
        DocumentStateView {
            content: Some(content),
            has_unsaved_changes: true,
            version,
            last_modified: t,
        },
    )
}

/// The documents after one is saved: an open document takes the saved content, if
/// given, and the version, and is clean; saving a document that is not open changes
/// nothing.
pub open spec fn saved_documents(
    m: Map<Seq<char>, DocumentStateView>,
    uri: Seq<char>,
    content: Option<Seq<char>>,
    version: u64,
    t: SystemTime,
) -> Map<Seq<char>, DocumentStateView> {
    if m.dom().contains(uri) {
        m.insert(
            uri,
            DocumentStateView {
                content: match content {
                    Some(c) => Some(c),
                    None => m[uri].content,
                },
                has_unsaved_changes: false,
                version,
                last_modified: t,
            },
        )
    } else {
        m
    }
}

/// A changed document has unsaved changes; saving it without new content keeps the
/// changed content, takes the saved version and clears the unsaved flag.
pub proof fn law_save_keeps_changed_content(
    m: Map<Seq<char>, DocumentStateView>,
    uri: Seq<char>,
    content: Seq<char>,
    changed_version: u64,
    saved_version: u64,
    t1: SystemTime,
    t2: SystemTime,
)
    ensures
        changed_documents(m, uri, content, changed_version, t1)[uri].has_unsaved_changes,
        saved_documents(changed_documents(m, uri, content, changed_version, t1), uri, None, saved_version, t2)[uri]
            == (DocumentStateView {
            content: Some(content),
            has_unsaved_changes: false,
            version: saved_version,
            last_modified: t2,
        }),
{
}

/// Opening, changing, saving or closing one document leaves every other document as
/// it was.
pub proof fn law_other_documents_unchanged(
    m: Map<Seq<char>, DocumentStateView>,
    uri: Seq<char>,
    other: Seq<char>,
    content: Seq<char>,
    saved: Option<Seq<char>>,
    version: u64,
    t: SystemTime,
)
    requires
        other != uri,
    ensures
        opened_documents(m, uri, content, version, t).dom().contains(other) == m.dom().contains(other),
        changed_documents(m, uri, content, version, t).dom().contains(other) == m.dom().contains(other),
        saved_documents(m, uri, saved, version, t).dom().contains(other) == m.dom().contains(other),
        m.remove(uri).dom().contains(other) == m.dom().contains(other),
        m.dom().contains(other) ==> {
            &&& opened_documents(m, uri, content, version, t)[other] == m[other]
            &&& changed_documents(m, uri, content, version, t)[other] == m[other]
            &&& saved_documents(m, uri, saved, version, t)[other] == m[other]
            &&& m.remove(uri)[other] == m[other]
        },
{
}

/// Closing an opened document forgets it: it is no longer open and the table is as
/// it was before it was opened, when it was not open then.
pub proof fn law_close_undoes_open(
    m: Map<Seq<char>, DocumentStateView>,
    uri: Seq<char>,
    content: Seq<char>,
    version: u64,
    t: SystemTime,
)
    ensures
        !opened_documents(m, uri, content, version, t).remove(uri).dom().contains(uri),
        !m.dom().contains(uri) ==> opened_documents(m, uri, content, version, t).remove(uri) == m,
{
    if !m.dom().contains(uri) {
        assert(opened_documents(m, uri, content, version, t).remove(uri) =~= m);
    }
}

/// Where the content of a document comes from.
#[derive(Debug)]
pub enum ContentSource {
    /// The content of the open document
    Memory(String),
    /// The file at this path (the document's `file://` URI without its scheme)
    File(String),
    /// Neither: the document is not open and its URI is not a file's
    Unavailable,
}

// ---------------------------------------------------------------------------
// The document table
// ---------------------------------------------------------------------------

/// Document provider that tracks open documents and unsaved changes
pub struct DaemonDocumentProvider {
    documents: Vec<(String, DocumentState)>,
}

impl View for DaemonDocumentProvider {
    type V = Map<Seq<char>, DocumentStateView>;

    closed spec fn view(&self) -> Map<Seq<char>, DocumentStateView> {
        entries_map(view_entries(self.documents@))
    }
}

impl DaemonDocumentProvider {
    #[verifier::type_invariant]
    spec fn uris_distinct(self) -> bool {
        keys_distinct(view_entries(self.documents@))
    }

    /// Create a document provider with no open documents
    pub fn new() -> (r: Self)
        ensures
            r@ == Map::<Seq<char>, DocumentStateView>::empty(),
    {
        let r = Self { documents: Vec::new() };
        assert(r@ =~= Map::<Seq<char>, DocumentStateView>::empty());
        r
    }

    /// Puts a document's state in the table, in place of the one it had.
    fn put(&mut self, uri: &str, state: DocumentState)
        ensures
            final(self)@ == old(self)@.insert(uri@, state@),
    {
        proof {
            use_type_invariant(&*self);
        }
        let ghost s = view_entries(self.documents@);
        let ghost v = state@;
        let key = string_of(&chars_of(uri));
        match key_position(&self.documents, &chars_of(uri)) {
            Some(i) => {
                proof {
                    lemma_update_entry(s, i as int, v);
                }
                let mut documents = Vec::new();
                std::mem::swap(&mut documents, &mut self.documents);
                documents.set(i, (key, state));
                proof {
                    assert(view_entries(documents@) =~= s.update(i as int, (s[i as int].0, v)));
                }
                self.documents = documents;
            },
            None => {
                proof {
                    lemma_push_entry(s, uri@, v);
                }
                let mut documents = Vec::new();
                std::mem::swap(&mut documents, &mut self.documents);
                documents.push((key, state));
                proof {
                    assert(view_entries(documents@) =~= s.push((uri@, v)));
                }
                self.documents = documents;
            },
        }
    }

    /// Notify that a document was opened
    pub fn document_opened(&mut self, uri: &str, content: String, version: u64)
        ensures
            exists|t: SystemTime|
                final(self)@ == opened_documents(old(self)@, uri@, content@, version, t),
    {
        let now = SystemTime::now();
        let ghost c = content@;
        self.put(
            uri,
            DocumentState {
                content: Some(content),
                has_unsaved_changes: false,
                version,
                last_modified: now,
            },
        );
        assert(self@ == opened_documents(old(self)@, uri@, c, version, now));
    }

    /// Notify that a document was changed
    pub fn document_changed(&mut self, uri: &str, content: String, version: u64)
        ensures
            exists|t: SystemTime|
                final(self)@ == changed_documents(old(self)@, uri@, content@, version, t),
    {
        let now = SystemTime::now();
        let ghost c = content@;
        self.put(
            uri,
            DocumentState {
                content: Some(content),
                has_unsaved_changes: true,
                version,
                last_modified: now,
            },
        );
        assert(self@ == changed_documents(old(self)@, uri@, c, version, now));
    }

    /// Notify that a document was saved (an unknown document is left alone)
    pub fn document_saved(&mut self, uri: &str, content: Option<String>, version: u64)
        ensures
            exists|t: SystemTime|
                final(self)@ == saved_documents(old(self)@, uri@, opt_chars(content), version, t),
    {
        proof {
            use_type_invariant(&*self);
        }
        let now = SystemTime::now();
        let ghost c = opt_chars(content);
        match key_position(&self.documents, &chars_of(uri)) {
            Some(i) => {
                proof {
                    lemma_entry_at(view_entries(self.documents@), i as int);
                }
                let kept = match content {
                    Some(c) => Some(c),
                    None => match &self.documents[i].1.content {
                        Some(old_content) => Some(string_of(&chars_of(old_content.as_str()))),
                        None => None,
                    },
                };
                self.put(
                    uri,
                    DocumentState {
                        content: kept,
                        has_unsaved_changes: false,
                        version,
                        last_modified: now,
                    },
                );
                assert(self@ == saved_documents(old(self)@, uri@, c, version, now));
            },
            None => {
                assert(self@ == saved_documents(old(self)@, uri@, c, version, now));
            },
        }
    }

    /// Notify that a document was closed
    pub fn document_closed(&mut self, uri: &str)
        ensures
            final(self)@ == old(self)@.remove(uri@),
    {
        proof {
            use_type_invariant(&*self);
        }
        let ghost s = view_entries(self.documents@);
        match key_position(&self.documents, &chars_of(uri)) {
            Some(i) => {
                proof {
                    lemma_remove_entry(s, i as int);
                }
                let mut documents = Vec::new();
                std::mem::swap(&mut documents, &mut self.documents);
                documents.remove(i);
                proof {
                    assert(view_entries(documents@) =~= s.remove(i as int));
                }
                self.documents = documents;
            },
            None => {
                assert(self@ =~= old(self)@.remove(uri@));
            },
        }
    }

    /// Check if a document is open
    pub fn is_document_open(&self, uri: &str) -> (r: bool)
        ensures
            r == self@.dom().contains(uri@),
    {
        proof {
            use_type_invariant(self);
        }
        match key_position(&self.documents, &chars_of(uri)) {
            Some(i) => {
                proof {
                    lemma_entry_at(view_entries(self.documents@), i as int);
                }
                true
            },
            None => false,
        }
    }

    /// Get document version
    pub fn get_document_version(&self, uri: &str) -> (r: Option<u64>)
        ensures
            r == (if self@.dom().contains(uri@) {
                Some(self@[uri@].version)
            } else {
                None
            }),
    {
        proof {
            use_type_invariant(self);
        }
        match key_position(&self.documents, &chars_of(uri)) {
            Some(i) => {
                proof {
                    lemma_entry_at(view_entries(self.documents@), i as int);
                }
                Some(self.documents[i].1.version)
            },
            None => None,
        }
    }

    /// Check if a document has unsaved changes (a document that is not open has none)
    pub fn has_unsaved_changes(&self, uri: &str) -> (r: bool)
        ensures
            r == (self@.dom().contains(uri@) && self@[uri@].has_unsaved_changes),
    {
        proof {
            use_type_invariant(self);
        }
        match key_position(&self.documents, &chars_of(uri)) {
            Some(i) => {
                proof {
                    lemma_entry_at(view_entries(self.documents@), i as int);
                }
                self.documents[i].1.has_unsaved_changes
            },
            None => false,
        }
    }

    /// Where the content of a document comes from: the open document's content, else
    /// the file its `file://` URI names.
    pub fn content_source(&self, uri: &str) -> (r: ContentSource)
        ensures
            match r {
                ContentSource::Memory(c) => self@.dom().contains(uri@) && self@[uri@].content
                    == Some(c@),
                ContentSource::File(p) => !(self@.dom().contains(uri@) && self@[uri@].content
                    is Some) && starts_with(uri@, "file://"@) && p@ == uri@.skip(7),
                ContentSource::Unavailable => !(self@.dom().contains(uri@)
                    && self@[uri@].content is Some) && !starts_with(uri@, "file://"@),
            },
    {
        proof {
            use_type_invariant(self);
            reveal_strlit("file://");
        }
        let u = chars_of(uri);
        match key_position(&self.documents, &u) {
            Some(i) => {
                proof {
                    lemma_entry_at(view_entries(self.documents@), i as int);
                }
                match &self.documents[i].1.content {
                    Some(c) => return ContentSource::Memory(string_of(&chars_of(c.as_str()))),
                    None => {},
                }
            },
            None => {},
        }
        match uri_file_path(uri) {
            Some(p) => ContentSource::File(p),
            None => ContentSource::Unavailable,
        }
    }

    /// Get all open documents
    pub fn get_open_documents(&self) -> (r: Vec<(String, DocumentState)>)
        ensures
            keys_distinct(view_entries(r@)),
            entries_map(view_entries(r@)) == self@,
    {
        proof {
            use_type_invariant(self);
        }
        let mut out: Vec<(String, DocumentState)> = Vec::new();
        let mut i: usize = 0;
        while i < self.documents.len()
            invariant
                i <= self.documents@.len(),
                view_entries(out@) == view_entries(self.documents@).take(i as int),
            decreases self.documents.len() - i,
        {
            let e = (string_of(&chars_of(self.documents[i].0.as_str())), self.documents[i].1.copy());
            let ghost before = out@;
            out.push(e);
            assert(view_entries(out@) =~= view_entries(before).push((e.0@, e.1@)));
            assert(view_entries(self.documents@).take(i + 1) =~= view_entries(self.documents@).take(
                i as int,
            ).push(view_entries(self.documents@)[i as int]));
            i += 1;
        }
        assert(view_entries(self.documents@).take(self.documents@.len() as int) =~= view_entries(
            self.documents@,
        ));
        out
    }

    /// Clear all document states
    pub fn clear_all_documents(&mut self)
        ensures
            final(self)@ == Map::<Seq<char>, DocumentStateView>::empty(),
    {
        self.documents = Vec::new();
        assert(self@ =~= Map::<Seq<char>, DocumentStateView>::empty());
    }

    /// Get documents with unsaved changes, each once
    pub fn get_dirty_documents(&self) -> (r: Vec<String>)
        ensures
            strings_view(r@).no_duplicates(),
            forall|k: Seq<char>|
                strings_view(r@).contains(k) <==> (self@.dom().contains(k)
                    && self@[k].has_unsaved_changes),
    {
        proof {
            use_type_invariant(self);
        }
        let ghost s = view_entries(self.documents@);
        let mut out: Vec<String> = Vec::new();
        let mut i: usize = 0;
        while i < self.documents.len()
            invariant
                i <= self.documents@.len(),
                s == view_entries(self.documents@),
                keys_distinct(s),
                strings_view(out@).no_duplicates(),
                forall|k: Seq<char>|
                    strings_view(out@).contains(k) <==> (exists|j: int|
                        0 <= j < i && s[j].0 == k && s[j].1.has_unsaved_changes),
            decreases self.documents.len() - i,
        {
            if self.documents[i].1.has_unsaved_changes {
                let u = string_of(&chars_of(self.documents[i].0.as_str()));
                let ghost before = strings_view(out@);
                out.push(u);
                let ghost after = strings_view(out@);
                assert(after =~= before.push(u@));
                assert(u@ == s[i as int].0);
                assert forall|k: Seq<char>|
                    after.contains(k) <==> (exists|j: int|
                        0 <= j < i + 1 && s[j].0 == k && s[j].1.has_unsaved_changes) by {
                    if after.contains(k) && k != u@ {
                        let p = choose|p: int| 0 <= p < after.len() && #[trigger] after[p] == k;
                        assert(before[p] == k);
                        assert(before.contains(k));
                    }
                    if k == u@ {
                        assert(after[before.len() as int] == k);
                        assert(s[i as int].1.has_unsaved_changes);
                    }
                    if (exists|j: int| 0 <= j < i + 1 && s[j].0 == k && s[j].1.has_unsaved_changes) && k != u@ {
                        let j = choose|j: int| 0 <= j < i + 1 && s[j].0 == k && s[j].1.has_unsaved_changes;
                        assert(j != i);
                        assert(before.contains(k));
                        let p = choose|p: int| 0 <= p < before.len() && #[trigger] before[p] == k;
                        assert(after[p] == k);
                    }
                }
                assert(!before.contains(u@)) by {
                    if before.contains(u@) {
                        let j = choose|j: int| 0 <= j < i && s[j].0 == u@ && s[j].1.has_unsaved_changes;
                        assert(s[j].0 != s[i as int].0);
                    }
                }
                assert(after.no_duplicates()) by {
                    assert forall|a: int, b: int| 0 <= a < after.len() && 0 <= b < after.len() && a != b
                        implies after[a] != after[b] by {
                        if a < before.len() && b < before.len() {
                            assert(after[a] == before[a] && after[b] == before[b]);
                        } else if a < before.len() {
                            assert(after[a] == before[a]);
                        } else if b < before.len() {
                            assert(after[b] == before[b]);
                        }
                    }
                }
            } else {
                assert forall|k: Seq<char>|
                    strings_view(out@).contains(k) <==> (exists|j: int|
                        0 <= j < i + 1 && s[j].0 == k && s[j].1.has_unsaved_changes) by {
                    if exists|j: int| 0 <= j < i + 1 && s[j].0 == k && s[j].1.has_unsaved_changes {
                        let j = choose|j: int| 0 <= j < i + 1 && s[j].0 == k && s[j].1.has_unsaved_changes;
                        assert(j != i);
                    }
                }
            }
            i += 1;
        }
        proof {
            assert forall|k: Seq<char>|
                strings_view(out@).contains(k) <==> (self@.dom().contains(k)
                    && self@[k].has_unsaved_changes) by {
                if exists|j: int| 0 <= j < s.len() && s[j].0 == k && s[j].1.has_unsaved_changes {
                    let j = choose|j: int| 0 <= j < s.len() && s[j].0 == k && s[j].1.has_unsaved_changes;
                    lemma_entry_at(s, j);
                }
                if self@.dom().contains(k) && self@[k].has_unsaved_changes {
                    let j = choose|j: int| 0 <= j < s.len() && s[j].0 == k;
                    lemma_entry_at(s, j);
                }
            }
        }
        out
    }
}

/// The path a `file://` URI names: the URI without its scheme.
pub open spec fn file_uri_path(uri: Seq<char>) -> Option<Seq<char>> {
    if starts_with(uri, "file://"@) {
        Some(uri.skip(7))
    } else {
        None
    }
}

/// The path of a `file://` URI; `None` for any other URI
pub fn uri_file_path(uri: &str) -> (r: Option<String>)
    ensures
        match r {
            Some(p) => file_uri_path(uri@) == Some(p@),
            None => file_uri_path(uri@) is None,
        },
{
    proof {
        reveal_strlit("file://");
    }
    let u = chars_of(uri);
    if has_prefix(&u, &chars_of("file://")) {
        Some(string_of(&slice(&u, 7, u.len())))
    } else {
        None
    }
}

/// Default document provider that only works with saved files: the content of a
/// document is that of the file its URI names
#[derive(Debug, Clone, Copy)]
pub struct FileSystemDocumentProvider;

impl FileSystemDocumentProvider {
    /// The file to read for a document's content; none for a URI that is not a file's
    pub fn content_path(&self, uri: &str) -> (r: Option<String>)
        ensures
            match r {
                Some(p) => file_uri_path(uri@) == Some(p@),
                None => file_uri_path(uri@) is None,
            },
    {
        uri_file_path(uri)
    }

    /// Filesystem provider assumes all files are saved
    pub fn has_unsaved_changes(&self, uri: &str) -> (r: bool)
        ensures
            !r,
    {
        false
    }

    /// The workspace root of a document: left to workspace resolution
    pub fn get_workspace_root(&self, uri: &str) -> (r: Option<String>)
        ensures
            r is None,
    {
        None
    }
}

/// Factory for creating document providers
pub struct DocumentProviderFactory;

impl DocumentProviderFactory {
    /// Create a daemon document provider, with no document open
    pub fn create_daemon_provider() -> (r: DaemonDocumentProvider)
        ensures
            r@ == Map::<Seq<char>, DocumentStateView>::empty(),
    {
        DaemonDocumentProvider::new()
    }

    /// Create a filesystem-only document provider (for testing or simple cases)
    pub fn create_filesystem_provider() -> (r: FileSystemDocumentProvider) {
        FileSystemDocumentProvider
    }
}

} // verus!
