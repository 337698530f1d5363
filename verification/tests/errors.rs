use file_search::error::{Error, ErrorSource};

#[test]
fn failures_of_the_state_store_carry_its_tag() {
    let database = Error::from(redb::DatabaseError::DatabaseAlreadyOpen);
    assert_eq!(database.source(), ErrorSource::Redb);
    assert_eq!(database.message(), "Database already open. Cannot acquire lock.");

    let transaction =
        Error::from(redb::TransactionError::Storage(redb::StorageError::PreviousIo));
    assert_eq!(transaction.source(), ErrorSource::Redb);
    assert_eq!(
        transaction.message(),
        "Previous I/O error occurred. Please close and re-open the database."
    );

    let table = Error::from(redb::TableError::TableDoesNotExist("file_states".to_string()));
    assert_eq!(table.source(), ErrorSource::Redb);
    assert_eq!(table.message(), "Table 'file_states' does not exist");

    let storage = Error::from(redb::StorageError::ValueTooLarge(7));
    assert_eq!(storage.source(), ErrorSource::Redb);
    assert!(storage.message().contains("length=7"));

    let commit = Error::from(redb::CommitError::Storage(redb::StorageError::PreviousIo));
    assert_eq!(commit.source(), ErrorSource::Redb);
    assert_eq!(
        commit.to_string(),
        "Source: redb, Message: Previous I/O error occurred. Please close and re-open the database."
    );
}

#[test]
fn failures_of_the_engine_carry_its_tag() {
    let engine = Error::from(tantivy::TantivyError::InvalidArgument("bad".to_string()));
    assert_eq!(engine.source(), ErrorSource::Tantivy);
    assert!(engine.message().contains("bad"));

    let query = Error::from(tantivy::query::QueryParserError::SyntaxError("a(".to_string()));
    assert_eq!(query.source(), ErrorSource::Tantivy);
    assert_eq!(query.message(), "Syntax Error: a(");

    let missing = std::path::PathBuf::from("nowhere");
    let directory =
        Error::from(tantivy::directory::error::OpenDirectoryError::DoesNotExist(missing));
    assert_eq!(directory.source(), ErrorSource::Tantivy);
    assert!(directory.message().contains("nowhere"));
}
