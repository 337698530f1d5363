//! The model of a write session, and what the operations on it amount to.

use crate::detect::{detect, needs_content, Change};
use crate::engine::IndexOp;
use crate::state::{lemma_record_round_trip, parse_record, record_bytes, FileStateEntry};
use vstd::prelude::*;

verus! {

/// What a write session holds: the records of the state table as the
/// session sees them, by path; the operations staged on the index; and the
/// numbers of the two fields of a document, the path's and the content's.
pub struct SessionView {
    pub records: Map<Seq<char>, Seq<u8>>,
    pub staged: Seq<IndexOp>,
    pub fields: (u32, u32),
}

impl SessionView {
    /// The state stored for a path, where there is a record and it reads.
    pub open spec fn stored(self, path: Seq<char>) -> Option<FileStateEntry> {
        if self.records.dom().contains(path) {
            parse_record(self.records[path])
        } else {
            None
        }
    }

    /// That the record of a path, if there is one, holds a state.
    pub open spec fn readable(self, path: Seq<char>) -> bool {
        self.records.dom().contains(path) ==> parse_record(self.records[path]) is Some
    }

    /// The deletion of every document of a path.
    pub open spec fn deletion(self, path: Seq<char>) -> IndexOp {
        IndexOp::DeleteByPath { field: self.fields.0, path }
    }

    /// The insertion of a document with a path and a content.
    pub open spec fn insertion(self, path: Seq<char>, content: Seq<char>) -> IndexOp {
        IndexOp::Insert {
            path_field: self.fields.0,
            path,
            content_field: self.fields.1,
            content,
        }
    }

    /// The session after a file was indexed: nothing changes where the file
    /// is skipped; only its record where only the time moved; where it is
    /// indexed, for the first time or again, any stale document of the path
    /// is deleted first, the new one is added, and the record is set.
    pub open spec fn added(
        self,
        path: Seq<char>,
        epoch: u128,
        content: Seq<char>,
        hash: u64,
    ) -> SessionView {
        let record = record_bytes(FileStateEntry { epoch, hash });
        match detect(self.stored(path), epoch, hash) {
            Change::Skip => self,
            Change::MetadataOnly => SessionView {
                records: self.records.insert(path, record),
                staged: self.staged,
                fields: self.fields,
            },
            Change::Reindex => SessionView {
                records: self.records.insert(path, record),
                staged: self.staged.push(self.deletion(path)).push(self.insertion(path, content)),
                fields: self.fields,
            },
        }
    }

    /// The session after a path was removed.
    pub open spec fn removed(self, path: Seq<char>) -> SessionView {
        SessionView {
            records: self.records.remove(path),
            staged: self.staged.push(self.deletion(path)),
            fields: self.fields,
        }
    }

    /// The session after everything was cleared.
    pub open spec fn cleared(self) -> SessionView {
        SessionView {
            records: Map::empty(),
            staged: self.staged.push(IndexOp::DeleteAll),
            fields: self.fields,
        }
    }
}

/// Indexing a file twice without a change between is idle the second time:
/// after the first pass the file is stored with its modification time, so
/// the second pass does not need the content and leaves the session as it
/// is, whatever content it is given.
pub proof fn lemma_add_twice_skips(
    session: SessionView,
    path: Seq<char>,
    epoch: u128,
    content: Seq<char>,
    hash: u64,
    later_content: Seq<char>,
    later_hash: u64,
)
    requires
        session.readable(path),
    ensures
        ({
            let once = session.added(path, epoch, content, hash);
            &&& once.readable(path)
            &&& !needs_content(once.stored(path), epoch)
            &&& detect(once.stored(path), epoch, later_hash) == Change::Skip
            &&& once.added(path, epoch, later_content, later_hash) == once
        }),
{
    lemma_record_round_trip(FileStateEntry { epoch, hash });
}

/// Where the modification time moved and the content did not, only the
/// stored time changes: the record holds the new time with the old
/// fingerprint, every other record stays, and nothing is staged on the
/// index.
pub proof fn lemma_same_content_touches_record_only(
    session: SessionView,
    path: Seq<char>,
    epoch: u128,
    content: Seq<char>,
    hash: u64,
)
    requires
        session.stored(path) matches Some(state) && state.epoch != epoch && state.hash == hash,
    ensures
        ({
            let after = session.added(path, epoch, content, hash);
            &&& detect(session.stored(path), epoch, hash) == Change::MetadataOnly
            &&& after.staged == session.staged
            &&& after.stored(path) == Some(FileStateEntry { epoch, hash })
            &&& forall|other: Seq<char>|
                other != path ==> after.stored(other) == session.stored(other)
        }),
{
    lemma_record_round_trip(FileStateEntry { epoch, hash });
}

/// Where the modification time moved and the fingerprint differs from the
/// stored one, the file is indexed again: the deletion of the old document
/// and then the new document are staged, and the stored fingerprint
/// changes.
pub proof fn lemma_changed_content_reindexes(
    session: SessionView,
    path: Seq<char>,
    epoch: u128,
    content: Seq<char>,
    hash: u64,
)
    requires
        session.stored(path) matches Some(state) && state.epoch != epoch && state.hash != hash,
    ensures
        ({
            let after = session.added(path, epoch, content, hash);
            &&& detect(session.stored(path), epoch, hash) == Change::Reindex
            &&& after.staged == session.staged.push(session.deletion(path)).push(
                session.insertion(path, content),
            )
            &&& after.stored(path) == Some(FileStateEntry { epoch, hash })
            &&& after.stored(path).unwrap().hash != session.stored(path).unwrap().hash
        }),
{
    lemma_record_round_trip(FileStateEntry { epoch, hash });
}

/// A file that was never indexed is indexed like a changed one: the
/// deletion of any document left under its path is staged before the new
/// document.
pub proof fn lemma_new_file_is_indexed(
    session: SessionView,
    path: Seq<char>,
    epoch: u128,
    content: Seq<char>,
    hash: u64,
)
    requires
        !session.records.dom().contains(path),
    ensures
        ({
            let after = session.added(path, epoch, content, hash);
            &&& after.staged == session.staged.push(session.deletion(path)).push(
                session.insertion(path, content),
            )
            &&& after.stored(path) == Some(FileStateEntry { epoch, hash })
        }),
{
    lemma_record_round_trip(FileStateEntry { epoch, hash });
}

/// Removing a path that has no record leaves the records as they are, and
/// removing a path a second time changes no record.
pub proof fn lemma_remove_is_idempotent(session: SessionView, path: Seq<char>)
    ensures
        !session.records.dom().contains(path) ==> session.removed(path).records
            == session.records,
        session.removed(path).removed(path).records == session.removed(path).records,
        session.removed(path).stored(path) is None,
{
    if !session.records.dom().contains(path) {
        assert(session.records.remove(path) =~= session.records);
    }
    assert(session.records.remove(path).remove(path) =~= session.records.remove(path));
}

/// After a clear no path has a state, and a file indexed next is indexed as
/// a new one.
pub proof fn lemma_clear_forgets_all(session: SessionView, path: Seq<char>, epoch: u128, hash: u64)
    ensures
        session.cleared().stored(path) is None,
        session.cleared().readable(path),
        detect(session.cleared().stored(path), epoch, hash) == Change::Reindex,
{
}

} // verus!
