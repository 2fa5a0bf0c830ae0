use simple_edit::document::{Document, IoError};

#[test]
fn new_document_is_empty_and_unbound() {
    let d = Document::new();
    assert_eq!(d.text, "");
    assert!(d.source_path.is_none());
}

#[test]
fn clear_resets_text_and_path() {
    let mut d = Document::new();
    d.text = String::from("some content");
    d.source_path = Some(String::from("notes.txt"));
    d.clear();
    assert_eq!(d.text, "");
    assert!(d.source_path.is_none());
}

#[test]
fn char_count_hello_is_five() {
    let mut d = Document::new();
    d.text = String::from("hello");
    assert_eq!(d.char_count(), 5);
}

#[test]
fn char_count_empty_is_zero() {
    let d = Document::new();
    assert_eq!(d.char_count(), 0);
}

#[test]
fn char_count_is_in_characters_not_bytes() {
    let mut d = Document::new();
    d.text = String::from("héllo");
    assert_eq!(d.char_count(), 5);
    assert_eq!(d.text.len(), 6);
}

#[test]
fn find_all_na_in_banana() {
    let mut d = Document::new();
    d.text = String::from("banana");
    assert_eq!(d.find_all("na"), vec![2, 4]);
}

#[test]
fn find_all_empty_needle_returns_nothing() {
    let mut d = Document::new();
    d.text = String::from("banana");
    assert_eq!(d.find_all(""), Vec::<usize>::new());
}

#[test]
fn find_all_absent_needle_returns_nothing() {
    let mut d = Document::new();
    d.text = String::from("banana");
    assert_eq!(d.find_all("zz"), Vec::<usize>::new());
}

#[test]
fn find_all_matches_do_not_overlap() {
    let mut d = Document::new();
    d.text = String::from("aaa");
    assert_eq!(d.find_all("aa"), vec![0]);
}

#[test]
fn find_all_offsets_are_character_offsets() {
    let mut d = Document::new();
    d.text = String::from("ééa");
    assert_eq!(d.find_all("a"), vec![2]);
}

#[test]
fn replace_all_banana() {
    let mut d = Document::new();
    d.text = String::from("banana");
    let count = d.replace_all("a", "b");
    assert_eq!(count, 3);
    assert_eq!(d.text, "bbnbnb");
}

#[test]
fn replace_all_absent_pattern_changes_nothing() {
    let mut d = Document::new();
    d.text = String::from("banana");
    let count = d.replace_all("xyz", "q");
    assert_eq!(count, 0);
    assert_eq!(d.text, "banana");
}

#[test]
fn replace_all_empty_pattern_changes_nothing() {
    let mut d = Document::new();
    d.text = String::from("banana");
    let count = d.replace_all("", "x");
    assert_eq!(count, 0);
    assert_eq!(d.text, "banana");
}

#[test]
fn replace_all_is_non_overlapping() {
    let mut d = Document::new();
    d.text = String::from("aaa");
    let count = d.replace_all("aa", "b");
    assert_eq!(count, 1);
    assert_eq!(d.text, "ba");
}

#[test]
fn replace_all_with_longer_replacement() {
    let mut d = Document::new();
    d.text = String::from("banana");
    let count = d.replace_all("na", "nana");
    assert_eq!(count, 2);
    assert_eq!(d.text, "banananana");
}

#[test]
fn replace_all_keeps_the_bound_path() {
    let mut d = Document::new();
    d.text = String::from("banana");
    d.source_path = Some(String::from("fruit.txt"));
    d.replace_all("a", "o");
    assert_eq!(d.source_path, Some(String::from("fruit.txt")));
}

#[test]
fn finish_load_ok_sets_text_and_binds_path() {
    let mut d = Document::new();
    d.text = String::from("previous");
    let r = d.finish_load(String::from("in.txt"), Ok(String::from("fresh contents")));
    assert!(r.is_ok());
    assert_eq!(d.text, "fresh contents");
    assert_eq!(d.source_path, Some(String::from("in.txt")));
}

#[test]
fn finish_load_err_leaves_document_unchanged() {
    let mut d = Document::new();
    d.text = String::from("kept text");
    d.source_path = Some(String::from("kept.txt"));
    let r = d.finish_load(String::from("missing.txt"), Err(IoError::NotFound));
    assert_eq!(r, Err(IoError::NotFound));
    assert_eq!(d.text, "kept text");
    assert_eq!(d.source_path, Some(String::from("kept.txt")));
}

#[test]
fn finish_load_passes_each_error_through() {
    let errors = vec![
        IoError::NotFound,
        IoError::PermissionDenied,
        IoError::InvalidData,
        IoError::Other(String::from("disk full")),
    ];
    for e in errors {
        let mut d = Document::new();
        d.text = String::from("before");
        let r = d.finish_load(String::from("p.txt"), Err(e.clone()));
        assert_eq!(r, Err(e));
        assert_eq!(d.text, "before");
        assert!(d.source_path.is_none());
    }
}

#[test]
fn save_target_prefers_the_requested_path() {
    let mut d = Document::new();
    d.source_path = Some(String::from("bound.txt"));
    let t = d.save_target(Some(String::from("chosen.txt")));
    assert_eq!(t, Some(String::from("chosen.txt")));
}

#[test]
fn save_target_falls_back_to_the_bound_path() {
    let mut d = Document::new();
    d.source_path = Some(String::from("bound.txt"));
    assert_eq!(d.save_target(None), Some(String::from("bound.txt")));
}

#[test]
fn save_target_is_none_when_unbound_and_nothing_requested() {
    let d = Document::new();
    assert_eq!(d.save_target(None), None);
}

#[test]
fn finish_save_ok_binds_path_and_keeps_text() {
    let mut d = Document::new();
    d.text = String::from("body");
    let r = d.finish_save(String::from("out.txt"), Ok(()));
    assert!(r.is_ok());
    assert_eq!(d.text, "body");
    assert_eq!(d.source_path, Some(String::from("out.txt")));
}

#[test]
fn finish_save_err_leaves_document_unchanged() {
    let mut d = Document::new();
    d.text = String::from("body");
    d.source_path = Some(String::from("old.txt"));
    let r = d.finish_save(String::from("out.txt"), Err(IoError::PermissionDenied));
    assert_eq!(r, Err(IoError::PermissionDenied));
    assert_eq!(d.text, "body");
    assert_eq!(d.source_path, Some(String::from("old.txt")));
}

#[test]
fn save_then_load_round_trip_restores_the_text() {
    // A save hands storage exactly the document's text; here storage hands
    // the same text back, as a faithful file system would.
    let mut d = Document::new();
    d.text = String::from("line one\nline two\n");
    let r = d.finish_save(String::from("trip.txt"), Ok(()));
    assert!(r.is_ok());
    let stored = d.text.clone();

    let mut fresh = Document::new();
    let r = fresh.finish_load(String::from("trip.txt"), Ok(stored));
    assert!(r.is_ok());
    assert_eq!(fresh.text, "line one\nline two\n");
    assert_eq!(fresh.source_path, Some(String::from("trip.txt")));
}
