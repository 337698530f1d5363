use file_search::detect::{content_hash, content_needed, detect_change, Change};
use file_search::state::{FileStateEntry, RECORD_LEN};

#[test]
fn record_is_epoch_then_hash_little_endian() {
    let entry = FileStateEntry::new(0x0102, 0x0A0B0C);
    let bytes = entry.as_bytes();
    let mut expected = vec![0u8; 24];
    expected[0] = 0x02;
    expected[1] = 0x01;
    expected[16] = 0x0C;
    expected[17] = 0x0B;
    expected[18] = 0x0A;
    assert_eq!(bytes, expected);
    assert_eq!(bytes.len(), RECORD_LEN);
}

#[test]
fn record_of_the_largest_values() {
    let entry = FileStateEntry::new(u128::MAX, u64::MAX);
    assert_eq!(entry.as_bytes(), vec![0xFFu8; 24]);
    assert_eq!(FileStateEntry::from_bytes(&[0xFFu8; 24]), Some(entry));
}

#[test]
fn record_reads_back() {
    let entry = FileStateEntry::new(1_700_000_000_123, 0xDEAD_BEEF_0123_4567);
    assert_eq!(FileStateEntry::from_bytes(&entry.as_bytes()), Some(entry));
    let zero = FileStateEntry::new(0, 0);
    assert_eq!(zero.as_bytes(), vec![0u8; 24]);
    assert_eq!(FileStateEntry::from_bytes(&zero.as_bytes()), Some(zero));
}

#[test]
fn short_record_holds_no_state() {
    assert_eq!(FileStateEntry::from_bytes(&[]), None);
    assert_eq!(FileStateEntry::from_bytes(&[0u8; 23]), None);
}

#[test]
fn bytes_behind_the_record_are_not_read() {
    let mut bytes = FileStateEntry::new(7, 9).as_bytes();
    bytes.push(0xAA);
    bytes.push(0xBB);
    assert_eq!(FileStateEntry::from_bytes(&bytes), Some(FileStateEntry::new(7, 9)));
}

#[test]
fn fingerprint_is_xxh3() {
    assert_eq!(content_hash(""), 0x2D06_8005_38D3_94C2);
    assert_eq!(content_hash("abc"), 0x78AF_5F94_892F_3950);
    assert_eq!(content_hash("abc"), content_hash("abc"));
    assert_ne!(content_hash("abc"), content_hash("abd"));
}

#[test]
fn new_file_is_reindexed() {
    assert!(content_needed(&None, 5));
    assert_eq!(detect_change(&None, 5, 1), Change::Reindex);
}

#[test]
fn same_epoch_is_skipped_whatever_the_hash() {
    let stored = Some(FileStateEntry::new(5, 1));
    assert!(!content_needed(&stored, 5));
    assert_eq!(detect_change(&stored, 5, 1), Change::Skip);
    assert_eq!(detect_change(&stored, 5, 2), Change::Skip);
}

#[test]
fn moved_epoch_goes_by_the_hash() {
    let stored = Some(FileStateEntry::new(5, 1));
    assert!(content_needed(&stored, 6));
    assert!(content_needed(&stored, 4));
    assert_eq!(detect_change(&stored, 6, 1), Change::MetadataOnly);
    assert_eq!(detect_change(&stored, 4, 1), Change::MetadataOnly);
    assert_eq!(detect_change(&stored, 6, 2), Change::Reindex);
}
