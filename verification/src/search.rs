//! The two stores of an index directory and the sessions over them: a write
//! session that stages changes to both and commits or rolls back both, and a
//! read session that lists and searches what is committed.

use crate::detect::{
    content_hash, content_needed, detect, detect_change, fingerprint, needs_content, Change,
};
use crate::engine::{
    commit_writer, document_text, engine_failure, fetch_document, holds_document, index_field,
    index_fields, index_of, is_exact_field, open_directory, open_or_create_index, open_reader,
    open_writer, parse_query, query_parser, query_terms, reader_fields, rollback_writer,
    searcher_of,
    stage_delete, stage_delete_all, stage_document, staged_ops, tokenize, tokenizer_for_field,
    top_documents, two_field_schema, two_fields, writer_fields, writer_index, FieldSpec, IndexOp,
    IndexSession, MAX_LIMIT,
};
use crate::error::{Error, ErrorSource};
use crate::fragments::{
    entries_of, gather_entries, is_fragment_list, lemma_entries_of, term_set, EntryView, Found,
    FoundView, TextToken,
};
use crate::model::views;
use crate::query::{query_ok, query_refused};
use crate::session::SessionView;
use crate::state::{parse_record, record_bytes, DocumentView};
pub use crate::fragments::FileSearchEntry;
pub use crate::state::{FileDocumentEntry, FileStateEntry};
use crate::store::{
    abort_transaction, begin_read, begin_write, commit_transaction, create_database,
    delete_record, join_path, lists_keys, read_record, record_keys, snapshot_entries,
    snapshot_records, staged_records, store_failure, write_record,
};
use vstd::prelude::*;
use vstd::string::*;

verus! {

/// The file that holds the state store, inside the index directory.
pub const DB_FILENAME: &'static str = "file_states.redb";

/// The table of file states.
pub const STATE_TABLE: &'static str = "file_states";

/// The field that holds a document's path.
pub const FIELD_PATH: &'static str = "path";

/// The field that holds a document's content.
pub const FIELD_CONTENT: &'static str = "content";

/// The memory that an index writer may use, in bytes.
pub const WRITER_MEMORY: usize = 50_000_000;

/// The number of hits that a search returns when no limit is given.
pub const DEFAULT_LIMIT: usize = 100_000;

/// A write session: one open transaction of the state store and one writer
/// of the index. What it stages is seen by no read session before `commit`.
pub struct FileSearchWriteTransaction {
    txn: redb::WriteTransaction,
    writer: IndexSession,
    field_path: u32,
    field_content: u32,
}

impl View for FileSearchWriteTransaction {
    type V = SessionView;

    closed spec fn view(&self) -> SessionView {
        SessionView {
            records: staged_records(self.txn, STATE_TABLE@),
            staged: staged_ops(self.writer),
            fields: (self.field_path, self.field_content),
        }
    }
}

/// That the two fields of a document are fields that documents of the
/// schema can carry: both are there and numbered within the engine's range,
/// and the path's is indexed as one exact term, so that the documents of a
/// path can be found again and deleted.
pub open spec fn fields_match(fields: (u32, u32), schema: Seq<FieldSpec>) -> bool {
    &&& fields.0 <= 0xFFFF
    &&& fields.1 <= 0xFFFF
    &&& is_exact_field(schema, fields.0)
    &&& fields.1 < schema.len()
}

impl FileSearchWriteTransaction {
    /// The fields of the schema of the index that the session writes to.
    pub closed spec fn schema(&self) -> Seq<FieldSpec> {
        writer_fields(self.writer)
    }

    /// That the session's two fields are fields of the index.
    pub open spec fn fields_fit(&self) -> bool {
        fields_match(self@.fields, self.schema())
    }

    pub fn new(
        txn: redb::WriteTransaction,
        writer: IndexSession,
        field_path: u32,
        field_content: u32,
    ) -> (session: Self)
        ensures
            session@.records == staged_records(txn, STATE_TABLE@),
            session@.staged == staged_ops(writer),
            session@.fields == (field_path, field_content),
            session.schema() == writer_fields(writer),
    {
        Self { txn, writer, field_path, field_content }
    }

    /// Tests that the session's two fields are fields of the index; the
    /// engine is to blame where they are not.
    pub fn check_fields(&self) -> (r: Result<(), Error>)
        ensures
            r is Ok <==> self.fields_fit(),
            r matches Err(e) ==> e.spec_source() == ErrorSource::Tantivy,
    {
        proof {
            reveal_strlit("raw");
        }
        let index = writer_index(&self.writer);
        let exact = match index_field(index, self.field_path) {
            Some(info) => match info.tokenizer {
                Some(name) => name == String::from_str("raw"),
                None => false,
            },
            None => false,
        };
        let there = index_field(index, self.field_content).is_some();
        if exact && there && self.field_path <= 0xFFFF && self.field_content <= 0xFFFF {
            Ok(())
        } else {
            Err(engine_failure(String::from_str("The index lacks the fields of a document.")))
        }
    }

    /// The state stored for a path. Fails with a state-store error where the
    /// store fails or the record of the path does not hold a state.
    pub fn get_from_state(&self, path: &str) -> (r: Result<Option<FileStateEntry>, Error>)
        ensures
            match r {
                Ok(found) => self@.readable(path@) && found == self@.stored(path@),
                Err(e) => e.spec_source() == ErrorSource::Redb,
            },
            !self@.readable(path@) ==> r is Err,
    {
        proof {
            reveal_strlit("file_states");
        }
        match read_record(&self.txn, STATE_TABLE, path) {
            Ok(Some(record)) => match FileStateEntry::from_bytes(record.as_slice()) {
                Some(entry) => Ok(Some(entry)),
                None => Err(
                    store_failure(String::from_str("The stored file state cannot be read.")),
                ),
            },
            Ok(None) => Ok(None),
            Err(e) => Err(Error::from(e)),
        }
    }

    /// Whether indexing a file with the given modification time needs its
    /// content: not when the path is stored with that very time.
    pub fn needs_content(&self, path: &str, epoch: u128) -> (r: Result<bool, Error>)
        ensures
            match r {
                Ok(needed) => self@.readable(path@) && needed == needs_content(
                    self@.stored(path@),
                    epoch,
                ),
                Err(e) => e.spec_source() == ErrorSource::Redb,
            },
            !self@.readable(path@) ==> r is Err,
    {
        match self.get_from_state(path) {
            Ok(stored) => Ok(content_needed(&stored, epoch)),
            Err(e) => Err(e),
        }
    }

    fn insert_into_state(&mut self, path: &str, entry: FileStateEntry) -> (r: Result<(), Error>)
        ensures
            final(self)@.staged == old(self)@.staged,
            final(self)@.fields == old(self)@.fields,
            final(self).schema() == old(self).schema(),
            match r {
                Ok(_) => final(self)@.records == old(self)@.records.insert(
                    path@,
                    record_bytes(entry),
                ),
                Err(e) => e.spec_source() == ErrorSource::Redb,
            },
    {
        proof {
            reveal_strlit("file_states");
        }
        let record = entry.as_bytes();
        match write_record(&mut self.txn, STATE_TABLE, path, record.as_slice()) {
            Ok(_) => Ok(()),
            Err(e) => Err(Error::from(e)),
        }
    }

    fn delete_from_state(&mut self, path: &str) -> (r: Result<(), Error>)
        ensures
            final(self)@.staged == old(self)@.staged,
            final(self)@.fields == old(self)@.fields,
            final(self).schema() == old(self).schema(),
            match r {
                Ok(_) => final(self)@.records == old(self)@.records.remove(path@),
                Err(e) => e.spec_source() == ErrorSource::Redb,
            },
    {
        proof {
            reveal_strlit("file_states");
        }
        match delete_record(&mut self.txn, STATE_TABLE, path) {
            Ok(_) => Ok(()),
            Err(e) => Err(Error::from(e)),
        }
    }

    fn insert_into_index(&mut self, path: &str, content: &str) -> (r: Result<(), Error>)
        requires
            old(self).fields_fit(),
        ensures
            final(self)@.records == old(self)@.records,
            final(self)@.fields == old(self)@.fields,
            final(self).schema() == old(self).schema(),
            match r {
                Ok(_) => final(self)@.staged == old(self)@.staged.push(
                    old(self)@.insertion(path@, content@),
                ),
                Err(e) => e.spec_source() == ErrorSource::Tantivy,
            },
    {
        match stage_document(&mut self.writer, self.field_path, self.field_content, path, content) {
            Ok(_) => Ok(()),
            Err(e) => Err(Error::from(e)),
        }
    }

    fn delete_from_index(&mut self, path: &str)
        requires
            old(self).fields_fit(),
        ensures
            final(self)@.records == old(self)@.records,
            final(self)@.fields == old(self)@.fields,
            final(self).schema() == old(self).schema(),
            final(self)@.staged == old(self)@.staged.push(old(self)@.deletion(path@)),
    {
        stage_delete(&mut self.writer, self.field_path, path);
    }

    /// Indexes a file, given its modification time and its content. The
    /// stored state of the path decides what is done: nothing, a refresh of
    /// the stored time, or a fresh document in place of any stale one.
    /// Succeeds with the verdict and the session changed accordingly. A
    /// failure comes from the state store or the search engine and leaves
    /// the session open. Two failures are certain and change nothing: a
    /// record that does not hold a state, and a document to index where the
    /// session's fields are not fields of the index.
    pub fn add(&mut self, path: &str, epoch: u128, content: &str) -> (r: Result<Change, Error>)
        ensures
            match r {
                Ok(change) => {
                    &&& old(self)@.readable(path@)
                    &&& change == detect(
                        old(self)@.stored(path@),
                        epoch,
                        fingerprint(content@),
                    )
                    &&& final(self)@ == old(self)@.added(
                        path@,
                        epoch,
                        content@,
                        fingerprint(content@),
                    )
                    &&& change == Change::Reindex ==> old(self).fields_fit()
                },
                Err(e) => e.spec_source() != ErrorSource::Io,
            },
            !old(self)@.readable(path@) ==> r is Err && final(self)@ == old(self)@,
            !needs_content(old(self)@.stored(path@), epoch) ==> final(self)@ == old(self)@,
            detect(old(self)@.stored(path@), epoch, fingerprint(content@)) == Change::Reindex
                && !old(self).fields_fit() ==> r is Err && final(self)@ == old(self)@,
            final(self)@.fields == old(self)@.fields,
            final(self).schema() == old(self).schema(),
    {
        let stored = match self.get_from_state(path) {
            Ok(stored) => stored,
            Err(e) => { return Err(e); },
        };
        if !content_needed(&stored, epoch) {
            return Ok(Change::Skip);
        }
        let hash = content_hash(content);
        let change = detect_change(&stored, epoch, hash);
        if change == Change::Reindex {
            match self.check_fields() {
                Ok(_) => {},
                Err(e) => { return Err(e); },
            }
            self.delete_from_index(path);
            match self.insert_into_index(path, content) {
                Ok(_) => {},
                Err(e) => { return Err(e); },
            }
        }
        match self.insert_into_state(path, FileStateEntry::new(epoch, hash)) {
            Ok(_) => Ok(change),
            Err(e) => Err(e),
        }
    }

    /// Removes a path: stages the deletion of its documents and drops its
    /// record. A path that was never indexed is removed like any other: the
    /// records are then as before. Where the session's fields are not fields
    /// of the index nothing is done and the engine's failure comes back;
    /// else the deletion is staged whatever the state store answers.
    pub fn remove(&mut self, path: &str) -> (r: Result<(), Error>)
        ensures
            match r {
                Ok(_) => final(self)@ == old(self)@.removed(path@),
                Err(e) => e.spec_source() != ErrorSource::Io,
            },
            !old(self).fields_fit() ==> r is Err && final(self)@ == old(self)@,
            old(self).fields_fit() ==> final(self)@.staged == old(self)@.removed(path@).staged,
            final(self)@.fields == old(self)@.fields,
            final(self).schema() == old(self).schema(),
    {
        match self.check_fields() {
            Ok(_) => {},
            Err(e) => { return Err(e); },
        }
        self.delete_from_index(path);
        self.delete_from_state(path)
    }

    /// Removes every path that the session sees and stages the deletion of
    /// every document. Where a step fails, the paths removed so far stay
    /// removed and nothing is staged.
    pub fn clear(&mut self) -> (r: Result<(), Error>)
        ensures
            final(self)@.fields == old(self)@.fields,
            final(self).schema() == old(self).schema(),
            match r {
                Ok(_) => final(self)@ == old(self)@.cleared(),
                Err(e) => {
                    &&& e.spec_source() != ErrorSource::Io
                    &&& final(self)@.staged == old(self)@.staged
                },
            },
    {
        proof {
            reveal_strlit("file_states");
        }
        let keys = match record_keys(&self.txn, STATE_TABLE) {
            Ok(keys) => keys,
            Err(e) => { return Err(Error::from(e)); },
        };
        let ghost paths = views(keys@);
        let mut i: usize = 0;
        proof {
            assert(self@.records.dom() =~= left_from(paths, 0)) by {
                assert forall|key: Seq<char>| self@.records.dom().contains(key) implies left_from(
                    paths,
                    0,
                ).contains(key) by {
                    assert(paths.contains(key));
                    let j = choose|j: int| 0 <= j < paths.len() && paths[j] == key;
                    assert(0 <= j < paths.len() && paths[j] == key);
                }
            }
        }
        while i < keys.len()
            invariant
                i <= keys.len(),
                paths == views(keys@),
                paths.no_duplicates(),
                self@.fields == old(self)@.fields,
                self.schema() == old(self).schema(),
                self@.staged == old(self)@.staged,
                self@.records.dom() =~= left_from(paths, i as int),
            decreases keys.len() - i,
        {
            match self.delete_from_state(keys[i].as_str()) {
                Ok(_) => {},
                Err(e) => { return Err(e); },
            }
            proof {
                assert(paths[i as int] == keys@[i as int]@);
                assert(self@.records.dom() =~= left_from(paths, i + 1)) by {
                    assert forall|key: Seq<char>| left_from(paths, i as int).remove(
                        paths[i as int],
                    ).contains(key) implies left_from(paths, i + 1).contains(key) by {
                        let j = choose|j: int| i <= j < paths.len() && paths[j] == key;
                        assert(i + 1 <= j < paths.len() && paths[j] == key);
                    }
                    assert forall|key: Seq<char>| left_from(paths, i + 1).contains(
                        key,
                    ) implies left_from(paths, i as int).remove(paths[i as int]).contains(key) by {
                        let j = choose|j: int| i + 1 <= j < paths.len() && paths[j] == key;
                        assert(i <= j < paths.len() && paths[j] == key);
                    }
                }
            }
            i += 1;
        }
        proof {
            assert(self@.records =~= Map::<Seq<char>, Seq<u8>>::empty()) by {
                assert forall|key: Seq<char>| !self@.records.dom().contains(key) by {
                    if left_from(paths, i as int).contains(key) {
                        let j = choose|j: int| i <= j < paths.len() && paths[j] == key;
                        assert(false);
                    }
                }
            }
        }
        match stage_delete_all(&mut self.writer) {
            Ok(_) => Ok(()),
            Err(e) => Err(Error::from(e)),
        }
    }

    /// Commits the index writer, then the state-store transaction, and ends
    /// the session. A failure of the engine leaves the transaction
    /// uncommitted; a failure of the store comes after the index was
    /// committed, so that the two then differ.
    pub fn commit(self) -> (r: Result<(), Error>)
        ensures
            r matches Err(e) ==> e.spec_source() == ErrorSource::Tantivy || e.spec_source()
                == ErrorSource::Redb,
    {
        let Self { txn, writer, field_path: _, field_content: _ } = self;
        match commit_index(writer) {
            Ok(_) => commit_store(txn),
            Err(e) => Err(e),
        }
    }

    /// Rolls the index writer back, then aborts the state-store
    /// transaction, and ends the session.
    pub fn rollback(self) -> (r: Result<(), Error>)
        ensures
            r matches Err(e) ==> e.spec_source() == ErrorSource::Tantivy || e.spec_source()
                == ErrorSource::Redb,
    {
        let Self { txn, writer, field_path: _, field_content: _ } = self;
        match rollback_index(writer) {
            Ok(_) => abort_store(txn),
            Err(e) => Err(e),
        }
    }
}

/// The engine's part of a commit: what is staged on the index is published.
/// A failure is the engine's.
pub fn commit_index(writer: IndexSession) -> (r: Result<(), Error>)
    ensures
        r matches Err(e) ==> e.spec_source() == ErrorSource::Tantivy,
{
    match commit_writer(writer) {
        Ok(_) => Ok(()),
        Err(e) => Err(Error::from(e)),
    }
}

/// The store's part of a commit: the records of the transaction are
/// committed. A failure is the state store's.
pub fn commit_store(txn: redb::WriteTransaction) -> (r: Result<(), Error>)
    ensures
        r matches Err(e) ==> e.spec_source() == ErrorSource::Redb,
{
    match commit_transaction(txn) {
        Ok(_) => Ok(()),
        Err(e) => Err(Error::from(e)),
    }
}

/// The engine's part of a rollback: what is staged on the index is dropped.
/// A failure is the engine's.
pub fn rollback_index(writer: IndexSession) -> (r: Result<(), Error>)
    ensures
        r matches Err(e) ==> e.spec_source() == ErrorSource::Tantivy,
{
    match rollback_writer(writer) {
        Ok(_) => Ok(()),
        Err(e) => Err(Error::from(e)),
    }
}

/// The store's part of a rollback: the transaction is aborted. A failure is
/// the state store's.
pub fn abort_store(txn: redb::WriteTransaction) -> (r: Result<(), Error>)
    ensures
        r matches Err(e) ==> e.spec_source() == ErrorSource::Redb,
{
    match abort_transaction(txn) {
        Ok(_) => Ok(()),
        Err(e) => Err(Error::from(e)),
    }
}

/// The paths among `paths` from position `from` on.
pub open spec fn left_from(paths: Seq<Seq<char>>, from: int) -> Set<Seq<char>> {
    Set::new(|key: Seq<char>| exists|j: int| from <= j < paths.len() && paths[j] == key)
}

/// That a listing shows the records: every path once, with the state that
/// its record holds.
pub open spec fn lists_states(
    listing: Seq<DocumentView>,
    records: Map<Seq<char>, Seq<u8>>,
) -> bool {
    &&& lists_keys(listing.map_values(|line: DocumentView| line.path), records)
    &&& forall|i: int|
        0 <= i < listing.len() ==> parse_record(records[(#[trigger] listing[i]).path]) == Some(
            listing[i].state,
        )
}

/// The number of hits that a search asks for.
pub open spec fn limit_of(limit: Option<usize>) -> usize {
    match limit {
        Some(k) => k,
        None => DEFAULT_LIMIT,
    }
}

/// That every entry carries the fragment list of some token stream for the
/// given terms.
pub open spec fn highlights(entries: Seq<EntryView>, terms: Seq<Seq<char>>) -> bool {
    forall|i: int|
        0 <= i < entries.len() ==> is_fragment_list((#[trigger] entries[i]).fragments, terms)
}

/// That entries are the result of a search with a limit: the entries of no
/// more hits than the limit, in the order of the hits, a hit without a path
/// left out, each with the fragments of its content for one set of terms.
pub open spec fn is_result(entries: Seq<EntryView>, limit: usize) -> bool {
    exists|found: Seq<FoundView>, terms: Seq<Seq<char>>|
        found.len() <= limit && entries == #[trigger] entries_of(found, terms)
}

/// A read session: a snapshot of the state store and a reader of the index.
pub struct FileSearchReadTransaction {
    txn: redb::ReadTransaction,
    reader: tantivy::IndexReader,
    field_path: u32,
    field_content: u32,
}

impl FileSearchReadTransaction {
    /// The records that the session sees, by path.
    pub closed spec fn records(&self) -> Map<Seq<char>, Seq<u8>> {
        snapshot_records(self.txn, STATE_TABLE@)
    }

    pub fn new(
        txn: redb::ReadTransaction,
        reader: tantivy::IndexReader,
        field_path: u32,
        field_content: u32,
    ) -> (session: Self)
        ensures
            session.records() == snapshot_records(txn, STATE_TABLE@),
            session.fields() == (field_path, field_content),
            session.schema() == reader_fields(reader),
    {
        Self { txn, reader, field_path, field_content }
    }

    /// Every indexed path with its stored state, in the order in which the store hands
    /// them out. Fails with a state-store error where the store fails, where nothing was
    /// ever committed to it, or where a record does not hold a state.
    pub fn list(&self) -> (r: Result<Vec<FileDocumentEntry>, Error>)
        ensures
            match r {
                Ok(listing) => lists_states(views(listing@), self.records()),
                Err(e) => e.spec_source() == ErrorSource::Redb,
            },
    {
        proof {
            reveal_strlit("file_states");
        }
        let entries = match snapshot_entries(&self.txn, STATE_TABLE) {
            Ok(entries) => entries,
            Err(e) => { return Err(Error::from(e)); },
        };
        let mut listing: Vec<FileDocumentEntry> = Vec::new();
        let mut i: usize = 0;
        while i < entries.len()
            invariant
                i <= entries.len(),
                listing@.len() == i,
                forall|j: int|
                    0 <= j < i ==> (#[trigger] listing@[j])@.path == entries@[j].0@ && parse_record(
                        entries@[j].1@,
                    ) == Some(listing@[j]@.state),
            decreases entries.len() - i,
        {
            let entry = &entries[i];
            match FileStateEntry::from_bytes(entry.1.as_slice()) {
                Some(state) => {
                    listing.push(
                        FileDocumentEntry {
                            path: entry.0.clone(),
                            epoch: state.epoch,
                            hash: state.hash,
                        },
                    );
                },
                None => {
                    return Err(
                        store_failure(String::from_str("The stored file state cannot be read.")),
                    );
                },
            }
            i += 1;
        }
        proof {
            let keys = Seq::new(entries@.len(), |i: int| entries@[i].0@);
            assert(views(listing@).map_values(|line: DocumentView| line.path) =~= keys);
            assert forall|i: int| 0 <= i < views(listing@).len() implies parse_record(
                self.records()[(#[trigger] views(listing@)[i]).path],
            ) == Some(views(listing@)[i].state) by {
                assert(listing@[i]@.path == entries@[i].0@);
                assert(self.records()[entries@[i].0@] == entries@[i].1@);
            }
        }
        Ok(listing)
    }

    /// Searches the content of the indexed documents. The query is parsed
    /// against the content field; its leaf terms are what the fragments of
    /// each hit are gathered for. At most `limit` hits come back, a hundred
    /// thousand where no limit is given, best first as the engine ranks
    /// them; a hit whose path cannot be had is dropped. A limit of zero asks
    /// for nothing and finds nothing, once the query has parsed. Every
    /// failure is the engine's: a query that does not parse, a field that the
    /// index does not have, a document that cannot be fetched. Two failures
    /// are certain: a content field that the index does not have, and a
    /// query in which a star stands alone behind a sign and white space,
    /// which is never parsed but refused as a syntax error.
    pub fn search(&self, query: &str, limit: Option<usize>) -> (r: Result<
        Vec<FileSearchEntry>,
        Error,
    >)
        requires
            limit_of(limit) <= MAX_LIMIT,
        ensures
            match r {
                Ok(entries) => {
                    &&& entries@.len() <= limit_of(limit)
                    &&& is_result(views(entries@), limit_of(limit))
                    &&& exists|terms: Seq<Seq<char>>| #[trigger] highlights(views(entries@), terms)
                },
                Err(e) => e.spec_source() == ErrorSource::Tantivy,
            },
            self.fields().1 >= self.schema().len() ==> r is Err,
            !query_ok(query@) ==> r is Err,
    {
        let searcher = searcher_of(&self.reader);
        let index = index_of(&searcher);
        if index_field(index, self.field_content).is_none() {
            return Err(
                engine_failure(String::from_str("The index does not have the content field.")),
            );
        }
        if query_refused(query) {
            let mut message = String::from_str("Syntax Error: ");
            message.append(query);
            return Err(engine_failure(message));
        }
        let parser = query_parser(index, self.field_content);
        let parsed = match parse_query(&parser, query) {
            Ok(parsed) => parsed,
            Err(e) => { return Err(Error::from(e)); },
        };
        let terms = term_set(&query_terms(&parsed));
        let mut found: Vec<Found> = Vec::new();
        let k = match limit {
            Some(k) => k,
            None => DEFAULT_LIMIT,
        };
        if k > 0 {
            let hits = match top_documents(&searcher, &parsed, k) {
                Ok(hits) => hits,
                Err(e) => { return Err(Error::from(e)); },
            };
            let mut i: usize = 0;
            while i < hits.len()
                invariant
                    i <= hits.len(),
                    hits@.len() <= limit_of(limit),
                    found@.len() == i,
                    self.field_content < index_fields(*index).len(),
                    forall|j: int|
                        0 <= j < hits@.len() ==> holds_document(
                            searcher,
                            (#[trigger] hits@[j]).1,
                        ),
                decreases hits.len() - i,
            {
                let hit = &hits[i];
                let document = match fetch_document(&searcher, hit.1) {
                    Ok(document) => document,
                    Err(e) => { return Err(Error::from(e)); },
                };
                let tokens: Option<Vec<TextToken>> = match document_text(
                    &document,
                    self.field_content,
                ) {
                    Some(content) => {
                        let mut analyzer = match tokenizer_for_field(index, self.field_content) {
                            Ok(analyzer) => analyzer,
                            Err(e) => { return Err(Error::from(e)); },
                        };
                        Some(tokenize(&mut analyzer, content.as_str()))
                    },
                    None => None,
                };
                let path = document_text(&document, self.field_path);
                found.push(Found { path, score_bits: hit.0, tokens });
                i += 1;
            }
        }
        let entries = gather_entries(&found, &terms);
        proof {
            lemma_entries_of(views(found@), views(terms@));
            assert(views(found@).len() == found@.len());
            assert(highlights(views(entries@), views(terms@)));
            assert(is_result(views(entries@), limit_of(limit)));
        }
        Ok(entries)
    }
}

/// The two stores of one index directory, opened once and kept for the life
/// of the process. Sessions are opened from it.
pub struct FileSearch {
    db: redb::Database,
    index: tantivy::Index,
    field_path: u32,
    field_content: u32,
}

impl FileSearch {
    /// The fields are the two of the schema, in the order in which `create`
    /// adds them.
    #[verifier::type_invariant]
    spec fn fields_in_order(self) -> bool {
        &&& self.field_path == 0
        &&& self.field_content == 1
        &&& index_fields(self.index) == document_fields()
    }

    /// Opens the state store and the index in a directory, creating what is
    /// missing. The index has two stored fields: the path, matched as one
    /// exact term, and the content, analysed as full text; an index that is
    /// there with another schema is refused. Fails with a state-store error
    /// where the store cannot be opened, and with an engine error where the
    /// directory or the index cannot.
    pub fn create(dir: &str) -> (r: Result<Self, Error>)
        ensures
            match r {
                Ok(search) => search.fields() == (0u32, 1u32) && search.schema()
                    == document_fields(),
                Err(e) => e.spec_source() == ErrorSource::Tantivy || e.spec_source()
                    == ErrorSource::Redb,
            },
    {
        let db = match create_database(&join_path(dir, DB_FILENAME)) {
            Ok(db) => db,
            Err(e) => { return Err(Error::from(e)); },
        };
        proof {
            reveal_strlit("path");
            reveal_strlit("content");
        }
        let (schema, field_path, field_content) = two_field_schema(FIELD_PATH, FIELD_CONTENT);
        let directory = match open_directory(dir) {
            Ok(directory) => directory,
            Err(e) => { return Err(Error::from(e)); },
        };
        match open_or_create_index(directory, schema) {
            Ok(index) => Ok(Self { db, index, field_path, field_content }),
            Err(e) => Err(Error::from(e)),
        }
    }

    /// Opens a write session with nothing staged. One write session can be
    /// open at a time. The index writer is opened first: while a session is
    /// open the engine refuses a second writer, and the state store, which
    /// would make a second transaction wait for the first, is not asked.
    pub fn open_write(&self) -> (r: Result<FileSearchWriteTransaction, Error>)
        ensures
            match r {
                Ok(session) => {
                    &&& session@.staged == Seq::<IndexOp>::empty()
                    &&& session@.fields == self.fields()
                    &&& session.schema() == self.schema()
                    &&& session.fields_fit()
                },
                Err(e) => e.spec_source() == ErrorSource::Tantivy || e.spec_source()
                    == ErrorSource::Redb,
            },
    {
        proof {
            use_type_invariant(self);
        }
        let writer = match open_writer(&self.index, WRITER_MEMORY) {
            Ok(writer) => writer,
            Err(e) => { return Err(Error::from(e)); },
        };
        let txn = match begin_write(&self.db) {
            Ok(txn) => txn,
            Err(e) => { return Err(Error::from(e)); },
        };
        Ok(FileSearchWriteTransaction::new(txn, writer, self.field_path, self.field_content))
    }

    /// Opens a read session on what is committed.
    pub fn open_read(&self) -> (r: Result<FileSearchReadTransaction, Error>)
        ensures
            match r {
                Ok(session) => session.fields() == self.fields() && session.schema()
                    == self.schema(),
                Err(e) => e.spec_source() == ErrorSource::Tantivy || e.spec_source()
                    == ErrorSource::Redb,
            },
    {
        let txn = match begin_read(&self.db) {
            Ok(txn) => txn,
            Err(e) => { return Err(Error::from(e)); },
        };
        let reader = match open_reader(&self.index) {
            Ok(reader) => reader,
            Err(e) => { return Err(Error::from(e)); },
        };
        Ok(FileSearchReadTransaction::new(txn, reader, self.field_path, self.field_content))
    }

    /// The numbers of the path field and of the content field in the schema of
    /// the index.
    pub closed spec fn fields(&self) -> (u32, u32) {
        (self.field_path, self.field_content)
    }

    /// The fields of the schema of the index.
    pub closed spec fn schema(&self) -> Seq<FieldSpec> {
        index_fields(self.index)
    }
}

/// The schema of the index: the path of a document, indexed as one exact
/// term and stored, and its content, analysed as full text and stored.
pub open spec fn document_fields() -> Seq<FieldSpec> {
    two_fields(FIELD_PATH@, FIELD_CONTENT@)
}

impl FileSearchReadTransaction {
    /// The numbers of the fields that the session reads the path of a hit and
    /// searches the content in.
    pub closed spec fn fields(&self) -> (u32, u32) {
        (self.field_path, self.field_content)
    }

    /// The fields of the schema of the index that the session reads.
    pub closed spec fn schema(&self) -> Seq<FieldSpec> {
        reader_fields(self.reader)
    }
}

/// That a listing shows the records of a snapshot of the state store: every
/// path once, with the state that its record holds.
pub open spec fn is_listing(listing: Seq<DocumentView>) -> bool {
    exists|records: Map<Seq<char>, Seq<u8>>| #[trigger] lists_states(listing, records)
}

} // verus!
