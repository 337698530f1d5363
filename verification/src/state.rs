//! What the state store keeps for each indexed path, and its binary record.

use vstd::bytes::*;
use vstd::prelude::*;

verus! {

/// The state of a file when it was last indexed.
#[derive(Debug, Clone, Copy, PartialEq, Eq, Structural)]
pub struct FileStateEntry {
    /// Last modification, in milliseconds since the Unix epoch.
    pub epoch: u128,
    /// Fingerprint of the content.
    pub hash: u64,
}

/// One line of a listing: an indexed path with its stored state.
#[derive(Debug)]
pub struct FileDocumentEntry {
    pub path: String,
    pub epoch: u128,
    pub hash: u64,
}

/// The model of a [`FileDocumentEntry`].
pub struct DocumentView {
    pub path: Seq<char>,
    pub state: FileStateEntry,
}

impl View for FileDocumentEntry {
    type V = DocumentView;

    open spec fn view(&self) -> DocumentView {
        DocumentView {
            path: self.path@,
            state: FileStateEntry { epoch: self.epoch, hash: self.hash },
        }
    }
}

/// Length of a record: sixteen bytes of epoch, eight of hash.
pub const RECORD_LEN: usize = 24;

/// The record of a state: the epoch, then the hash, each little-endian at
/// its full width.
pub open spec fn record_bytes(entry: FileStateEntry) -> Seq<u8> {
    spec_u128_to_le_bytes(entry.epoch) + spec_u64_to_le_bytes(entry.hash)
}

/// The state that a record holds. What follows the first twenty-four bytes
/// is not read; a shorter sequence holds no state.
pub open spec fn parse_record(bytes: Seq<u8>) -> Option<FileStateEntry> {
    if bytes.len() >= RECORD_LEN {
        Some(
            FileStateEntry {
                epoch: spec_u128_from_le_bytes(bytes.subrange(0, 16)),
                hash: spec_u64_from_le_bytes(bytes.subrange(16, 24)),
            },
        )
    } else {
        None
    }
}

/// `bincode::encode_to_vec` on the pair of epoch and hash, with bincode's
/// little-endian fixed-width integer configuration. bincode writes a tuple
/// as its fields in order and nothing else, and a fixed-width integer as its
/// little-endian bytes; writing into a vector has no failing path, so the
/// bytes are always there.
#[verifier::external_body]
fn encode_pair(epoch: u128, hash: u64) -> (bytes: Vec<u8>)
    ensures
        bytes@ == spec_u128_to_le_bytes(epoch) + spec_u64_to_le_bytes(hash),
{
    let config = bincode::config::standard().with_fixed_int_encoding();
    bincode::encode_to_vec((epoch, hash), config).unwrap_or_default()
}

/// `bincode::decode_from_slice` for a pair of a 128-bit and a 64-bit
/// unsigned integer, with the same configuration. bincode reads sixteen and
/// then eight bytes from the front, little-endian, fails when the slice ends
/// before that, and leaves the rest unread.
#[verifier::external_body]
fn decode_pair(data: &[u8]) -> (pair: Option<(u128, u64)>)
    ensures
        pair == if data@.len() >= 24 {
            Some(
                (
                    spec_u128_from_le_bytes(data@.subrange(0, 16)),
                    spec_u64_from_le_bytes(data@.subrange(16, 24)),
                ),
            )
        } else {
            None::<(u128, u64)>
        },
{
    let config = bincode::config::standard().with_fixed_int_encoding();
    match bincode::decode_from_slice::<(u128, u64), _>(data, config) {
        Ok((pair, _)) => Some(pair),
        Err(_) => None,
    }
}

impl FileStateEntry {
    pub fn new(epoch: u128, hash: u64) -> (entry: FileStateEntry)
        ensures
            entry == (FileStateEntry { epoch, hash }),
    {
        FileStateEntry { epoch, hash }
    }

    /// The record under which the state is stored.
    pub fn as_bytes(&self) -> (bytes: Vec<u8>)
        ensures
            bytes@ == record_bytes(*self),
            bytes@.len() == RECORD_LEN,
    {
        proof {
            lemma_auto_spec_u128_to_from_le_bytes();
            lemma_auto_spec_u64_to_from_le_bytes();
        }
        encode_pair(self.epoch, self.hash)
    }

    /// Reads a state back from a stored record.
    pub fn from_bytes(data: &[u8]) -> (entry: Option<FileStateEntry>)
        ensures
            entry == parse_record(data@),
    {
        match decode_pair(data) {
            Some((epoch, hash)) => Some(FileStateEntry { epoch, hash }),
            None => None,
        }
    }
}

/// A record reads back as the state it was written from.
pub proof fn lemma_record_round_trip(entry: FileStateEntry)
    ensures
        record_bytes(entry).len() == RECORD_LEN,
        parse_record(record_bytes(entry)) == Some(entry),
{
    lemma_auto_spec_u128_to_from_le_bytes();
    lemma_auto_spec_u64_to_from_le_bytes();
    let head = spec_u128_to_le_bytes(entry.epoch);
    let tail = spec_u64_to_le_bytes(entry.hash);
    assert((head + tail).subrange(0, 16) == head);
    assert((head + tail).subrange(16, 24) == tail);
}

} // verus!
