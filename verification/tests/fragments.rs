use file_search::fragments::{
    collect_fragments, contains_term, found_entry, gather_entries, lower_tokens, make_entry, Found,
    TextToken,
};

fn token(text: &str, from: usize, to: usize) -> TextToken {
    TextToken { text: text.to_string(), offset_from: from, offset_to: to }
}

fn terms(words: &[&str]) -> Vec<String> {
    words.iter().map(|word| word.to_string()).collect()
}

#[test]
fn fragments_of_one_term() {
    let tokens = vec![token("the", 0, 3), token("quick", 4, 9), token("brown", 10, 15), token("fox", 16, 19)];
    let fragments = collect_fragments(&tokens, &terms(&["quick"]));
    assert_eq!(fragments.len(), 1);
    assert_eq!(fragments[0].term, "quick");
    assert_eq!(fragments[0].ranges, vec![4..9]);
}

#[test]
fn fragments_keep_stream_order_and_first_occurrence_order() {
    let tokens = vec![
        token("b", 0, 1),
        token("a", 2, 3),
        token("c", 4, 5),
        token("b", 6, 7),
        token("a", 8, 9),
        token("b", 10, 11),
    ];
    let fragments = collect_fragments(&tokens, &terms(&["a", "b", "z"]));
    assert_eq!(fragments.len(), 2);
    assert_eq!(fragments[0].term, "b");
    assert_eq!(fragments[0].ranges, vec![0..1, 6..7, 10..11]);
    assert_eq!(fragments[1].term, "a");
    assert_eq!(fragments[1].ranges, vec![2..3, 8..9]);
}

#[test]
fn fragments_of_nothing() {
    assert!(collect_fragments(&vec![], &terms(&["a"])).is_empty());
    assert!(collect_fragments(&vec![token("a", 0, 1)], &vec![]).is_empty());
    assert!(collect_fragments(&vec![token("a", 0, 1)], &terms(&["b"])).is_empty());
}

#[test]
fn repeated_terms_count_once() {
    let tokens = vec![token("a", 0, 1), token("a", 2, 3)];
    let fragments = collect_fragments(&tokens, &terms(&["a", "a"]));
    assert_eq!(fragments.len(), 1);
    assert_eq!(fragments[0].ranges, vec![0..1, 2..3]);
}

#[test]
fn terms_are_matched_as_given() {
    let tokens = vec![token("Fox", 0, 3)];
    assert!(collect_fragments(&tokens, &terms(&["fox"])).is_empty());
    assert!(contains_term(&terms(&["fox", "dog"]), &"dog".to_string()));
    assert!(!contains_term(&terms(&["fox", "dog"]), &"Dog".to_string()));
}

#[test]
fn tokens_are_lowered_with_offsets_kept() {
    let lower = lower_tokens(&vec![token("QuIcK", 4, 9), token("ÄB", 10, 13)]);
    assert_eq!(lower.len(), 2);
    assert_eq!(lower[0].text, "quick");
    assert_eq!((lower[0].offset_from, lower[0].offset_to), (4, 9));
    assert_eq!(lower[1].text, "äb");
    assert_eq!((lower[1].offset_from, lower[1].offset_to), (10, 13));
}

#[test]
fn entry_gathers_lowered_fragments() {
    let tokens = vec![token("The", 0, 3), token("QUICK", 4, 9)];
    let entry = make_entry(Some("a.txt".to_string()), 7, Some(tokens), &terms(&["quick"])).unwrap();
    assert_eq!(entry.path, "a.txt");
    assert_eq!(entry.score_bits, 7);
    assert_eq!(entry.fragments.len(), 1);
    assert_eq!(entry.fragments[0].term, "quick");
    assert_eq!(entry.fragments[0].ranges, vec![4..9]);
}

#[test]
fn entry_without_content_has_no_fragments() {
    let entry = make_entry(Some("a.txt".to_string()), 0, None, &terms(&["quick"])).unwrap();
    assert!(entry.fragments.is_empty());
}

#[test]
fn hit_without_path_is_dropped() {
    let tokens = vec![token("quick", 4, 9)];
    assert!(make_entry(None, 1, Some(tokens), &terms(&["quick"])).is_none());
}

#[test]
fn entries_keep_the_order_of_the_hits_and_drop_those_without_a_path() {
    let found = vec![
        Found {
            path: Some("b.txt".to_string()),
            score_bits: 3,
            tokens: Some(vec![token("Quick", 0, 5), token("fox", 6, 9)]),
        },
        Found { path: None, score_bits: 2, tokens: Some(vec![token("quick", 0, 5)]) },
        Found { path: Some("a.txt".to_string()), score_bits: 1, tokens: None },
    ];
    let entries = gather_entries(&found, &terms(&["quick"]));
    assert_eq!(entries.len(), 2);
    assert_eq!(entries[0].path, "b.txt");
    assert_eq!(entries[0].score_bits, 3);
    assert_eq!(entries[0].fragments.len(), 1);
    assert_eq!(entries[0].fragments[0].term, "quick");
    assert_eq!(entries[0].fragments[0].ranges, vec![0..5]);
    assert_eq!(entries[1].path, "a.txt");
    assert_eq!(entries[1].score_bits, 1);
    assert!(entries[1].fragments.is_empty());
    assert!(gather_entries(&vec![], &terms(&["quick"])).is_empty());
}

#[test]
fn entry_of_what_was_found() {
    let with_path = Found {
        path: Some("a.txt".to_string()),
        score_bits: 9,
        tokens: Some(vec![token("FOX", 4, 7)]),
    };
    let entry = found_entry(&with_path, &terms(&["fox"])).unwrap();
    assert_eq!(entry.path, "a.txt");
    assert_eq!(entry.fragments[0].ranges, vec![4..7]);
    let without = Found { path: None, score_bits: 9, tokens: None };
    assert!(found_entry(&without, &terms(&["fox"])).is_none());
}
