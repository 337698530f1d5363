//! The state store: a table of records in an embedded key-value database.
//!
//! The database is `redb`. A write transaction sees its own staged changes;
//! a read transaction sees the records that were committed when it began.
//! What a transaction holds in a table is modelled as a map from key to
//! record, and each operation is stated over that map.

use crate::error::{Error, ErrorSource};
use crate::model::views;
use redb::ReadableTable;
use vstd::prelude::*;
use vstd::string::*;

verus! {

/// A path of the standard library, carried as it is.
#[verifier::external_type_specification]
#[verifier::external_body]
pub struct ExPathBuf(std::path::PathBuf);

/// The database of `redb`, carried as it is.
#[verifier::external_type_specification]
#[verifier::external_body]
pub struct ExDatabase(redb::Database);

/// A write transaction of `redb`, seen through [`staged_records`].
#[verifier::external_type_specification]
#[verifier::external_body]
pub struct ExWriteTransaction(redb::WriteTransaction);

/// A read transaction of `redb`, seen through [`snapshot_records`].
#[verifier::external_type_specification]
#[verifier::external_body]
pub struct ExReadTransaction(redb::ReadTransaction);

/// What `redb` gives when a database cannot be opened; only its text is used.
#[verifier::external_type_specification]
#[verifier::external_body]
pub struct ExDatabaseError(redb::DatabaseError);

/// What `redb` gives when a transaction cannot begin; only its text is used.
#[verifier::external_type_specification]
#[verifier::external_body]
pub struct ExTransactionError(redb::TransactionError);

/// What `redb` gives when a table cannot be opened or used; only its text is
/// used.
#[verifier::external_type_specification]
#[verifier::external_body]
pub struct ExTableError(redb::TableError);

/// What `redb` gives when its storage fails; only its text is used.
#[verifier::external_type_specification]
#[verifier::external_body]
pub struct ExStorageError(redb::StorageError);

/// What `redb` gives when a commit fails; only its text is used.
#[verifier::external_type_specification]
#[verifier::external_body]
pub struct ExCommitError(redb::CommitError);

/// The records that a write transaction holds in the table of the given
/// name, its own staged changes included.
pub uninterp spec fn staged_records(txn: redb::WriteTransaction, table: Seq<char>) -> Map<
    Seq<char>,
    Seq<u8>,
>;

/// The records that a read transaction sees in the table of the given name.
pub uninterp spec fn snapshot_records(txn: redb::ReadTransaction, table: Seq<char>) -> Map<
    Seq<char>,
    Seq<u8>,
>;

/// That `keys` lists the keys of `records`, each once.
pub open spec fn lists_keys(keys: Seq<Seq<char>>, records: Map<Seq<char>, Seq<u8>>) -> bool {
    &&& keys.no_duplicates()
    &&& forall|i: int| 0 <= i < keys.len() ==> records.dom().contains(#[trigger] keys[i])
    &&& forall|key: Seq<char>| records.dom().contains(key) ==> keys.contains(key)
}

/// `Path::join` of the standard library: the path of `name` inside `dir`.
#[verifier::external_body]
pub(crate) fn join_path(dir: &str, name: &str) -> std::path::PathBuf {
    std::path::Path::new(dir).join(name)
}

/// `redb::Database::create`: opens the database file, creating it when it
/// is missing or empty.
#[verifier::external_body]
pub(crate) fn create_database(path: &std::path::PathBuf) -> Result<
    redb::Database,
    redb::DatabaseError,
> {
    redb::Database::create(path)
}

/// `redb::Database::begin_write`. redb admits one write transaction at a
/// time and makes this call wait while another one is open.
#[verifier::external_body]
pub(crate) fn begin_write(db: &redb::Database) -> Result<
    redb::WriteTransaction,
    redb::TransactionError,
> {
    db.begin_write()
}

/// `redb::Database::begin_read`.
#[verifier::external_body]
pub(crate) fn begin_read(db: &redb::Database) -> Result<
    redb::ReadTransaction,
    redb::TransactionError,
> {
    db.begin_read()
}

/// `WriteTransaction::open_table`, then `get` on the table: the record
/// stored under `key`, if there is one. An empty table name is left out, on
/// which `TableDefinition::new` panics.
#[verifier::external_body]
pub(crate) fn read_record(txn: &redb::WriteTransaction, table: &'static str, key: &str) -> (r:
    Result<Option<Vec<u8>>, redb::TableError>)
    requires
        table@.len() > 0,
    ensures
        r matches Ok(found) ==> match found {
            Some(record) => staged_records(*txn, table@).dom().contains(key@) && staged_records(
                *txn,
                table@,
            )[key@] == record@,
            None => !staged_records(*txn, table@).dom().contains(key@),
        },
{
    let opened = txn.open_table(redb::TableDefinition::<&str, &[u8]>::new(table))?;
    let found = opened.get(key)?;
    Ok(found.map(|guard| guard.value().to_vec()))
}

/// `WriteTransaction::open_table`, then `insert` on the table: where it
/// succeeds, `key` holds `value` and every other key is as before.
#[verifier::external_body]
pub(crate) fn write_record(
    txn: &mut redb::WriteTransaction,
    table: &'static str,
    key: &str,
    value: &[u8],
) -> (r: Result<(), redb::TableError>)
    requires
        table@.len() > 0,
    ensures
        r is Ok ==> staged_records(*final(txn), table@) == staged_records(*old(txn), table@).insert(
            key@,
            value@,
        ),
{
    let mut opened = txn.open_table(redb::TableDefinition::<&str, &[u8]>::new(table))?;
    opened.insert(key, value)?;
    Ok(())
}

/// `WriteTransaction::open_table`, then `remove` on the table: where it
/// succeeds, `key` is gone, whether or not it was there, and every other key
/// is as before.
#[verifier::external_body]
pub(crate) fn delete_record(txn: &mut redb::WriteTransaction, table: &'static str, key: &str) -> (r:
    Result<(), redb::TableError>)
    requires
        table@.len() > 0,
    ensures
        r is Ok ==> staged_records(*final(txn), table@) == staged_records(*old(txn), table@).remove(
            key@,
        ),
{
    let mut opened = txn.open_table(redb::TableDefinition::<&str, &[u8]>::new(table))?;
    opened.remove(key)?;
    Ok(())
}

/// `WriteTransaction::open_table`, then `iter` on the table: every key that
/// the transaction holds in it, each once.
#[verifier::external_body]
pub(crate) fn record_keys(txn: &redb::WriteTransaction, table: &'static str) -> (r: Result<
    Vec<String>,
    redb::TableError,
>)
    requires
        table@.len() > 0,
    ensures
        r matches Ok(keys) ==> lists_keys(views(keys@), staged_records(*txn, table@)),
{
    let opened = txn.open_table(redb::TableDefinition::<&str, &[u8]>::new(table))?;
    let mut keys = Vec::new();
    for entry in opened.iter()? {
        let (key, _) = entry?;
        keys.push(key.value().to_owned());
    }
    Ok(keys)
}

/// `ReadTransaction::open_table`, then `iter` on the table: every key that
/// the transaction sees, each once and with its record, in the order in
/// which the table hands them out. The table has to exist: a read
/// transaction does not create it.
#[verifier::external_body]
pub(crate) fn snapshot_entries(txn: &redb::ReadTransaction, table: &'static str) -> (r: Result<
    Vec<(String, Vec<u8>)>,
    redb::TableError,
>)
    requires
        table@.len() > 0,
    ensures
        r matches Ok(entries) ==> {
            &&& lists_keys(
                Seq::new(entries@.len(), |i: int| entries@[i].0@),
                snapshot_records(*txn, table@),
            )
            &&& forall|i: int|
                0 <= i < entries@.len() ==> snapshot_records(*txn, table@)[(#[trigger] entries@[i]).0@]
                    == entries@[i].1@
        },
{
    let opened = txn.open_table(redb::TableDefinition::<&str, &[u8]>::new(table))?;
    let mut entries = Vec::new();
    for entry in opened.iter()? {
        let (key, value) = entry?;
        entries.push((key.value().to_owned(), value.value().to_vec()));
    }
    Ok(entries)
}

/// `WriteTransaction::commit`.
#[verifier::external_body]
pub(crate) fn commit_transaction(txn: redb::WriteTransaction) -> Result<(), redb::CommitError> {
    txn.commit()
}

/// `WriteTransaction::abort`.
#[verifier::external_body]
pub(crate) fn abort_transaction(txn: redb::WriteTransaction) -> Result<(), redb::StorageError> {
    txn.abort()
}

/// A state-store failure with the text that the database gave.
pub(crate) fn store_failure(message: String) -> (e: Error)
    ensures
        e.spec_source() == ErrorSource::Redb,
        e.spec_message() == message@,
{
    Error::new(ErrorSource::Redb, message)
}

} // verus!
