//! Change detection: what indexing a file has to do, given the state it was
//! last indexed in.
//!
//! The modification time is the cheap signal: where it is unchanged the
//! content is taken to be unchanged and is not read. Where it moved, the
//! content fingerprint decides between refreshing the stored time and
//! indexing the file again.

use crate::state::FileStateEntry;
use vstd::prelude::*;
use vstd::string::*;

verus! {

/// What indexing a file amounts to.
#[derive(Debug, Clone, Copy, PartialEq, Eq, Structural)]
pub enum Change {
    /// The stored modification time is the current one: nothing is done.
    Skip,
    /// The time moved and the content did not: only the stored time is
    /// refreshed.
    MetadataOnly,
    /// The file is new or its content changed: it is indexed again.
    Reindex,
}

/// Whether the content of a file has to be read to index it: not when it is
/// stored with its current modification time.
pub open spec fn needs_content(stored: Option<FileStateEntry>, epoch: u128) -> bool {
    match stored {
        Some(state) => state.epoch != epoch,
        None => true,
    }
}

/// The verdict for a file with the given modification time and content
/// fingerprint.
pub open spec fn detect(stored: Option<FileStateEntry>, epoch: u128, hash: u64) -> Change {
    match stored {
        Some(state) => if state.epoch == epoch {
            Change::Skip
        } else if state.hash == hash {
            Change::MetadataOnly
        } else {
            Change::Reindex
        },
        None => Change::Reindex,
    }
}

/// The content decides nothing exactly where the verdict is to skip: a file
/// stored with its current modification time is skipped whatever it holds,
/// and no other file is.
pub proof fn lemma_skip_reads_nothing(stored: Option<FileStateEntry>, epoch: u128, hash: u64)
    ensures
        detect(stored, epoch, hash) == Change::Skip <==> !needs_content(stored, epoch),
{
}

/// The 64-bit XXH3 fingerprint of a byte sequence.
pub uninterp spec fn xxh3_64(bytes: Seq<u8>) -> u64;

/// `xxhash_rust::xxh3::xxh3_64`: the fingerprint is a function of the bytes
/// alone.
#[verifier::external_body]
fn xxh3_64_of(bytes: &[u8]) -> (hash: u64)
    ensures
        hash == xxh3_64(bytes@),
{
    xxhash_rust::xxh3::xxh3_64(bytes)
}

/// The fingerprint of a text: that of its bytes in UTF-8.
pub open spec fn fingerprint(content: Seq<char>) -> u64 {
    xxh3_64(vstd::utf8::encode_utf8(content))
}

/// The fingerprint of a file's content.
pub fn content_hash(content: &str) -> (hash: u64)
    ensures
        hash == fingerprint(content@),
{
    xxh3_64_of(content.as_bytes())
}

/// Decides from the modification time alone whether the content is needed.
pub fn content_needed(stored: &Option<FileStateEntry>, epoch: u128) -> (needed: bool)
    ensures
        needed == needs_content(*stored, epoch),
{
    match stored {
        Some(state) => state.epoch != epoch,
        None => true,
    }
}

/// Decides what indexing the file amounts to.
pub fn detect_change(stored: &Option<FileStateEntry>, epoch: u128, hash: u64) -> (change: Change)
    ensures
        change == detect(*stored, epoch, hash),
{
    match stored {
        Some(state) => {
            if state.epoch == epoch {
                Change::Skip
            } else if state.hash == hash {
                Change::MetadataOnly
            } else {
                Change::Reindex
            }
        },
        None => Change::Reindex,
    }
}

} // verus!
