use file_search::detect::{content_hash, Change};
use file_search::error::ErrorSource;
use file_search::search::{FileSearch, DEFAULT_LIMIT};

fn open(dir: &tempfile::TempDir) -> FileSearch {
    FileSearch::create(dir.path().to_str().unwrap()).unwrap()
}

fn paths(searcher: &FileSearch) -> Vec<String> {
    let listing = searcher.open_read().unwrap().list().unwrap();
    listing.into_iter().map(|entry| entry.path).collect()
}

fn hits(searcher: &FileSearch, query: &str) -> Vec<String> {
    let found = searcher.open_read().unwrap().search(query, None).unwrap();
    found.into_iter().map(|entry| entry.path).collect()
}

#[test]
fn add_of_new_file_reindexes_and_lists_after_commit() {
    let dir = tempfile::tempdir().unwrap();
    let searcher = open(&dir);
    let mut session = searcher.open_write().unwrap();
    assert!(session.needs_content("a.txt", 10).unwrap());
    let change = session.add("a.txt", 10, "the quick brown fox").unwrap();
    assert_eq!(change, Change::Reindex);
    session.commit().unwrap();

    let listing = searcher.open_read().unwrap().list().unwrap();
    assert_eq!(listing.len(), 1);
    assert_eq!(listing[0].path, "a.txt");
    assert_eq!(listing[0].epoch, 10);
    assert_eq!(listing[0].hash, content_hash("the quick brown fox"));
}

#[test]
fn second_add_without_change_is_skipped() {
    let dir = tempfile::tempdir().unwrap();
    let searcher = open(&dir);
    let mut session = searcher.open_write().unwrap();
    assert_eq!(session.add("a.txt", 10, "alpha beta").unwrap(), Change::Reindex);
    assert!(!session.needs_content("a.txt", 10).unwrap());
    assert_eq!(session.add("a.txt", 10, "alpha beta").unwrap(), Change::Skip);
    assert_eq!(
        session.get_from_state("a.txt").unwrap().unwrap().hash,
        content_hash("alpha beta")
    );
    session.commit().unwrap();

    let listing = searcher.open_read().unwrap().list().unwrap();
    assert_eq!(listing.len(), 1);
    assert_eq!(listing[0].epoch, 10);
    assert_eq!(hits(&searcher, "alpha"), vec!["a.txt".to_string()]);
}

#[test]
fn skip_goes_by_the_time_alone() {
    let dir = tempfile::tempdir().unwrap();
    let searcher = open(&dir);
    let mut session = searcher.open_write().unwrap();
    session.add("a.txt", 10, "alpha").unwrap();
    assert_eq!(session.add("a.txt", 10, "omega").unwrap(), Change::Skip);
    assert_eq!(session.get_from_state("a.txt").unwrap().unwrap().hash, content_hash("alpha"));
    session.rollback().unwrap();
}

#[test]
fn moved_time_with_same_bytes_updates_the_epoch_only() {
    let dir = tempfile::tempdir().unwrap();
    let searcher = open(&dir);
    let mut session = searcher.open_write().unwrap();
    session.add("a.txt", 10, "alpha beta").unwrap();
    session.commit().unwrap();

    let mut session = searcher.open_write().unwrap();
    assert!(session.needs_content("a.txt", 20).unwrap());
    assert_eq!(session.add("a.txt", 20, "alpha beta").unwrap(), Change::MetadataOnly);
    session.commit().unwrap();

    let listing = searcher.open_read().unwrap().list().unwrap();
    assert_eq!(listing.len(), 1);
    assert_eq!(listing[0].epoch, 20);
    assert_eq!(listing[0].hash, content_hash("alpha beta"));
    assert_eq!(hits(&searcher, "alpha"), vec!["a.txt".to_string()]);
}

#[test]
fn changed_bytes_replace_the_document() {
    let dir = tempfile::tempdir().unwrap();
    let searcher = open(&dir);
    let mut session = searcher.open_write().unwrap();
    session.add("a.txt", 10, "alpha beta").unwrap();
    session.commit().unwrap();

    let mut session = searcher.open_write().unwrap();
    assert_eq!(session.add("a.txt", 20, "gamma delta").unwrap(), Change::Reindex);
    session.commit().unwrap();

    let listing = searcher.open_read().unwrap().list().unwrap();
    assert_eq!(listing.len(), 1);
    assert_eq!(listing[0].epoch, 20);
    assert_eq!(listing[0].hash, content_hash("gamma delta"));
    assert_ne!(listing[0].hash, content_hash("alpha beta"));
    assert!(hits(&searcher, "alpha").is_empty());
    assert_eq!(hits(&searcher, "gamma"), vec!["a.txt".to_string()]);
}

#[test]
fn remove_of_a_path_never_indexed_succeeds() {
    let dir = tempfile::tempdir().unwrap();
    let searcher = open(&dir);
    let mut session = searcher.open_write().unwrap();
    session.add("a.txt", 10, "alpha").unwrap();
    session.remove("never.txt").unwrap();
    session.remove("never.txt").unwrap();
    assert!(session.get_from_state("never.txt").unwrap().is_none());
    assert!(session.get_from_state("a.txt").unwrap().is_some());
    session.commit().unwrap();
    assert_eq!(paths(&searcher), vec!["a.txt".to_string()]);
}

#[test]
fn remove_drops_record_and_document() {
    let dir = tempfile::tempdir().unwrap();
    let searcher = open(&dir);
    let mut session = searcher.open_write().unwrap();
    session.add("a.txt", 10, "alpha").unwrap();
    session.add("b.txt", 11, "alpha beta").unwrap();
    session.commit().unwrap();

    let mut session = searcher.open_write().unwrap();
    session.remove("a.txt").unwrap();
    session.commit().unwrap();

    assert_eq!(paths(&searcher), vec!["b.txt".to_string()]);
    assert_eq!(hits(&searcher, "alpha"), vec!["b.txt".to_string()]);
}

#[test]
fn staged_changes_show_only_after_commit() {
    let dir = tempfile::tempdir().unwrap();
    let searcher = open(&dir);
    let mut session = searcher.open_write().unwrap();
    session.add("a.txt", 10, "alpha").unwrap();
    session.commit().unwrap();

    let mut session = searcher.open_write().unwrap();
    session.add("b.txt", 11, "beta").unwrap();
    session.remove("a.txt").unwrap();
    assert!(hits(&searcher, "beta").is_empty());
    assert_eq!(hits(&searcher, "alpha"), vec!["a.txt".to_string()]);
    assert_eq!(paths(&searcher), vec!["a.txt".to_string()]);
    session.commit().unwrap();

    assert_eq!(hits(&searcher, "beta"), vec!["b.txt".to_string()]);
    assert!(hits(&searcher, "alpha").is_empty());
    assert_eq!(paths(&searcher), vec!["b.txt".to_string()]);
}

#[test]
fn rollback_restores_the_prior_state() {
    let dir = tempfile::tempdir().unwrap();
    let searcher = open(&dir);
    let mut session = searcher.open_write().unwrap();
    session.add("kept.txt", 10, "second").unwrap();
    session.commit().unwrap();

    let mut session = searcher.open_write().unwrap();
    session.add("fresh.txt", 11, "first").unwrap();
    session.remove("kept.txt").unwrap();
    session.rollback().unwrap();

    assert_eq!(paths(&searcher), vec!["kept.txt".to_string()]);
    assert_eq!(hits(&searcher, "second"), vec!["kept.txt".to_string()]);
    assert!(hits(&searcher, "first").is_empty());
}

#[test]
fn clear_then_commit_empties_both_stores() {
    let dir = tempfile::tempdir().unwrap();
    let searcher = open(&dir);
    let mut session = searcher.open_write().unwrap();
    session.add("a.txt", 10, "alpha").unwrap();
    session.add("b.txt", 11, "alpha beta").unwrap();
    session.commit().unwrap();
    assert_eq!(hits(&searcher, "alpha").len(), 2);

    let mut session = searcher.open_write().unwrap();
    session.clear().unwrap();
    assert!(session.get_from_state("a.txt").unwrap().is_none());
    assert!(session.get_from_state("b.txt").unwrap().is_none());
    session.commit().unwrap();

    assert!(paths(&searcher).is_empty());
    assert!(hits(&searcher, "alpha").is_empty());
    assert!(hits(&searcher, "beta").is_empty());
}

#[test]
fn clear_sees_what_the_session_staged() {
    let dir = tempfile::tempdir().unwrap();
    let searcher = open(&dir);
    let mut session = searcher.open_write().unwrap();
    session.add("a.txt", 10, "alpha").unwrap();
    session.clear().unwrap();
    assert!(session.get_from_state("a.txt").unwrap().is_none());
    session.commit().unwrap();
    assert!(paths(&searcher).is_empty());
}

#[test]
fn fragment_of_quick_is_four_to_nine() {
    let dir = tempfile::tempdir().unwrap();
    let searcher = open(&dir);
    let mut session = searcher.open_write().unwrap();
    session.add("a.txt", 10, "the quick brown fox").unwrap();
    session.commit().unwrap();

    let found = searcher.open_read().unwrap().search("content:quick", None).unwrap();
    assert_eq!(found.len(), 1);
    assert_eq!(found[0].path, "a.txt");
    assert_eq!(found[0].fragments.len(), 1);
    assert_eq!(found[0].fragments[0].term, "quick");
    assert_eq!(found[0].fragments[0].ranges, vec![4..9]);
    assert!(f32::from_bits(found[0].score_bits) > 0.0);
}

#[test]
fn fragments_follow_the_terms_of_the_query_tree() {
    let dir = tempfile::tempdir().unwrap();
    let searcher = open(&dir);
    let mut session = searcher.open_write().unwrap();
    session.add("a.txt", 10, "Fox and fox and DOG").unwrap();
    session.commit().unwrap();

    let found = searcher.open_read().unwrap().search("fox AND dog", None).unwrap();
    assert_eq!(found.len(), 1);
    let fragments = &found[0].fragments;
    assert_eq!(fragments.len(), 2);
    assert_eq!(fragments[0].term, "fox");
    assert_eq!(fragments[0].ranges, vec![0..3, 8..11]);
    assert_eq!(fragments[1].term, "dog");
    assert_eq!(fragments[1].ranges, vec![16..19]);
}

#[test]
fn search_keeps_to_the_limit() {
    let dir = tempfile::tempdir().unwrap();
    let searcher = open(&dir);
    let mut session = searcher.open_write().unwrap();
    session.add("a.txt", 10, "alpha").unwrap();
    session.add("b.txt", 11, "alpha alpha").unwrap();
    session.add("c.txt", 12, "alpha beta").unwrap();
    session.commit().unwrap();

    let reader = searcher.open_read().unwrap();
    assert_eq!(reader.search("alpha", None).unwrap().len(), 3);
    assert_eq!(reader.search("alpha", Some(DEFAULT_LIMIT)).unwrap().len(), 3);
    assert_eq!(reader.search("alpha", Some(2)).unwrap().len(), 2);
    assert_eq!(reader.search("alpha", Some(1)).unwrap().len(), 1);
    assert!(reader.search("alpha", Some(0)).unwrap().is_empty());
}

#[test]
fn query_that_does_not_parse_is_an_engine_error() {
    let dir = tempfile::tempdir().unwrap();
    let searcher = open(&dir);
    let reader = searcher.open_read().unwrap();
    let error = reader.search("content:(", None).unwrap_err();
    assert_eq!(error.source(), ErrorSource::Tantivy);
    assert!(!error.message().is_empty());
    let error = reader.search("content:(", Some(0)).unwrap_err();
    assert_eq!(error.source(), ErrorSource::Tantivy);
}

#[test]
fn list_before_any_commit_is_a_store_error() {
    let dir = tempfile::tempdir().unwrap();
    let searcher = open(&dir);
    let error = searcher.open_read().unwrap().list().unwrap_err();
    assert_eq!(error.source(), ErrorSource::Redb);
}

#[test]
fn create_in_a_missing_directory_fails() {
    let dir = tempfile::tempdir().unwrap();
    let missing = dir.path().join("missing");
    let error = match FileSearch::create(missing.to_str().unwrap()) {
        Ok(_) => panic!("a missing directory was opened"),
        Err(error) => error,
    };
    assert_ne!(error.source(), ErrorSource::Io);
}

#[test]
fn stores_are_found_again_when_reopened() {
    let dir = tempfile::tempdir().unwrap();
    {
        let searcher = open(&dir);
        let mut session = searcher.open_write().unwrap();
        session.add("a.txt", 10, "alpha").unwrap();
        session.commit().unwrap();
    }
    let searcher = open(&dir);
    assert_eq!(paths(&searcher), vec!["a.txt".to_string()]);
    assert_eq!(hits(&searcher, "alpha"), vec!["a.txt".to_string()]);
}

#[test]
fn record_that_holds_no_state_is_a_store_error() {
    let dir = tempfile::tempdir().unwrap();
    {
        let table: redb::TableDefinition<&str, &[u8]> = redb::TableDefinition::new("file_states");
        let db = redb::Database::create(dir.path().join("file_states.redb")).unwrap();
        let txn = db.begin_write().unwrap();
        {
            let mut records = txn.open_table(table).unwrap();
            let short = [1u8, 2, 3];
            records.insert("a.txt", &short[..]).unwrap();
        }
        txn.commit().unwrap();
    }
    let searcher = open(&dir);
    let error = searcher.open_read().unwrap().list().unwrap_err();
    assert_eq!(error.source(), ErrorSource::Redb);

    let mut session = searcher.open_write().unwrap();
    assert_eq!(session.get_from_state("a.txt").unwrap_err().source(), ErrorSource::Redb);
    assert_eq!(session.needs_content("a.txt", 1).unwrap_err().source(), ErrorSource::Redb);
    assert_eq!(session.add("a.txt", 1, "alpha").unwrap_err().source(), ErrorSource::Redb);
    assert!(session.get_from_state("b.txt").unwrap().is_none());
    session.remove("a.txt").unwrap();
    assert_eq!(session.add("a.txt", 1, "alpha").unwrap(), Change::Reindex);
    session.commit().unwrap();
    assert_eq!(paths(&searcher), vec!["a.txt".to_string()]);
}

#[test]
fn records_are_stored_in_the_fixed_layout() {
    let dir = tempfile::tempdir().unwrap();
    {
        let searcher = open(&dir);
        let mut session = searcher.open_write().unwrap();
        session.add("a.txt", 0x0102, "alpha").unwrap();
        session.commit().unwrap();
    }
    let table: redb::TableDefinition<&str, &[u8]> = redb::TableDefinition::new("file_states");
    let db = redb::Database::create(dir.path().join("file_states.redb")).unwrap();
    let txn = db.begin_read().unwrap();
    let records = txn.open_table(table).unwrap();
    let record = records.get("a.txt").unwrap().unwrap().value().to_vec();
    let mut expected = vec![0u8; 24];
    expected[0] = 0x02;
    expected[1] = 0x01;
    expected[16..24].copy_from_slice(&content_hash("alpha").to_le_bytes());
    assert_eq!(record, expected);
}

#[test]
fn second_write_session_is_refused_while_one_is_open() {
    let dir = tempfile::tempdir().unwrap();
    let searcher = open(&dir);
    let session = searcher.open_write().unwrap();
    let error = match searcher.open_write() {
        Ok(_) => panic!("a second write session was opened"),
        Err(error) => error,
    };
    assert_eq!(error.source(), ErrorSource::Tantivy);
    session.rollback().unwrap();
    searcher.open_write().unwrap().rollback().unwrap();
}

#[test]
fn query_with_a_lone_star_behind_a_sign_is_refused() {
    let dir = tempfile::tempdir().unwrap();
    let searcher = open(&dir);
    let mut session = searcher.open_write().unwrap();
    session.add("a.txt", 10, "alpha").unwrap();
    session.commit().unwrap();
    let reader = searcher.open_read().unwrap();
    for query in ["+ *", "- *", "-\t*", "alpha + * beta", "alpha AND -  *", "(+ *)", "+ *:", "- *\u{a0}x"] {
        let error = reader.search(query, None).unwrap_err();
        assert_eq!(error.source(), ErrorSource::Tantivy, "{:?}", query);
        assert_eq!(error.message(), format!("Syntax Error: {}", query));
    }
}

#[test]
fn stars_and_signs_apart_are_parsed() {
    let dir = tempfile::tempdir().unwrap();
    let searcher = open(&dir);
    let mut session = searcher.open_write().unwrap();
    session.add("a.txt", 10, "alpha beta").unwrap();
    session.add("b.txt", 11, "gamma").unwrap();
    session.commit().unwrap();
    assert_eq!(hits(&searcher, "*").len(), 2);
    assert_eq!(hits(&searcher, "+alpha -gamma"), vec!["a.txt".to_string()]);
    assert_eq!(hits(&searcher, "+alpha"), vec!["a.txt".to_string()]);
    assert_eq!(hits(&searcher, "-alpha *"), vec!["b.txt".to_string()]);
}

#[test]
fn new_file_replaces_a_document_left_under_its_path() {
    let dir = tempfile::tempdir().unwrap();
    {
        let searcher = open(&dir);
        let mut session = searcher.open_write().unwrap();
        session.add("a.txt", 10, "alpha").unwrap();
        session.commit().unwrap();
    }
    {
        let table: redb::TableDefinition<&str, &[u8]> = redb::TableDefinition::new("file_states");
        let db = redb::Database::create(dir.path().join("file_states.redb")).unwrap();
        let txn = db.begin_write().unwrap();
        {
            let mut records = txn.open_table(table).unwrap();
            records.remove("a.txt").unwrap();
        }
        txn.commit().unwrap();
    }
    let searcher = open(&dir);
    assert!(paths(&searcher).is_empty());
    assert_eq!(hits(&searcher, "alpha"), vec!["a.txt".to_string()]);

    let mut session = searcher.open_write().unwrap();
    assert_eq!(session.add("a.txt", 11, "beta").unwrap(), Change::Reindex);
    session.commit().unwrap();

    assert_eq!(paths(&searcher), vec!["a.txt".to_string()]);
    assert!(hits(&searcher, "alpha").is_empty());
    assert_eq!(hits(&searcher, "beta"), vec!["a.txt".to_string()]);
    assert_eq!(hits(&searcher, "path:a.txt OR beta"), vec!["a.txt".to_string()]);
}

#[test]
fn search_in_a_field_that_the_index_lacks_is_an_engine_error() {
    let dir = tempfile::tempdir().unwrap();
    {
        let searcher = open(&dir);
        let mut session = searcher.open_write().unwrap();
        session.add("a.txt", 10, "alpha").unwrap();
        session.commit().unwrap();
    }
    let db = redb::Database::create(dir.path().join("file_states.redb")).unwrap();
    let index = tantivy::Index::open_in_dir(dir.path()).unwrap();

    let lacking = file_search::search::FileSearchReadTransaction::new(
        db.begin_read().unwrap(),
        index.reader().unwrap(),
        0,
        7,
    );
    let error = lacking.search("alpha", None).unwrap_err();
    assert_eq!(error.source(), ErrorSource::Tantivy);
    assert_eq!(error.message(), "The index does not have the content field.");

    let fitting = file_search::search::FileSearchReadTransaction::new(
        db.begin_read().unwrap(),
        index.reader().unwrap(),
        0,
        1,
    );
    let found = fitting.search("alpha", None).unwrap();
    assert_eq!(found.len(), 1);
    assert_eq!(found[0].path, "a.txt");
}
