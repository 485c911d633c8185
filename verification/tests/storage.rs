use full_optimistic::bytes::{has_prefix, is_equal, is_less, join_pieces};
use full_optimistic::StorageDiff;

fn bytes(s: &str) -> Vec<u8> {
    s.as_bytes().to_vec()
}

#[test]
fn order_is_lexicographic() {
    assert!(is_less(b"", b"a"));
    assert!(is_less(b"a", b"ab"));
    assert!(is_less(b"ab", b"b"));
    assert!(is_less(b"a\xff", b"b"));
    assert!(!is_less(b"a", b"a"));
    assert!(!is_less(b"b", b"ab"));
    assert!(!is_less(b"", b""));
}

#[test]
fn order_agrees_with_slices() {
    let samples: Vec<Vec<u8>> = vec![
        bytes(""),
        bytes("a"),
        bytes("aa"),
        bytes("ab"),
        vec![0x61, 0x00],
        vec![0xff],
        vec![0xff, 0x00],
    ];
    for a in &samples {
        for b in &samples {
            assert_eq!(is_less(a, b), a < b);
            assert_eq!(is_equal(a, b), a == b);
            assert_eq!(has_prefix(a, b), a.starts_with(b));
        }
    }
}

#[test]
fn pieces_are_joined_in_order() {
    assert_eq!(join_pieces(&vec![]), bytes(""));
    assert_eq!(join_pieces(&vec![bytes("ab"), bytes(""), bytes("c")]), bytes("abc"));
    assert_eq!(join_pieces(&vec![bytes("c"), bytes("ab")]), bytes("cab"));
}

#[test]
fn empty_diff_changes_nothing() {
    let diff = StorageDiff::new();
    assert!(diff.get(b"a").is_none());
    assert!(!diff.contains_key(b"a"));
    assert!(!diff.contains_key(b""));
}

#[test]
fn inserted_change_is_found() {
    let mut diff = StorageDiff::new();
    for key in ["m", "a", "z", "ma", "", "l"].iter() {
        diff.insert(bytes(key), Some(bytes(&format!("value of {}", key))));
    }
    for key in ["m", "a", "z", "ma", "", "l"].iter() {
        assert_eq!(diff.get(key.as_bytes()), Some(&Some(bytes(&format!("value of {}", key)))));
    }
    for key in ["b", "mb", "zz", "k"].iter() {
        assert_eq!(diff.get(key.as_bytes()), None);
    }
}

#[test]
fn erased_key_is_told_from_unchanged_one() {
    let mut diff = StorageDiff::new();
    diff.insert(bytes("a"), None);
    assert_eq!(diff.get(b"a"), Some(&None));
    assert_eq!(diff.get(b"b"), None);
    assert!(diff.contains_key(b"a"));
}

#[test]
fn later_change_replaces_earlier_one() {
    let mut diff = StorageDiff::new();
    diff.insert(bytes("a"), Some(bytes("1")));
    diff.insert(bytes("b"), Some(bytes("2")));
    diff.insert(bytes("a"), None);
    assert_eq!(diff.get(b"a"), Some(&None));
    assert_eq!(diff.get(b"b"), Some(&Some(bytes("2"))));
    diff.insert(bytes("a"), Some(bytes("3")));
    assert_eq!(diff.get(b"a"), Some(&Some(bytes("3"))));
}

#[test]
fn other_diff_wins_when_extending() {
    let mut diff = StorageDiff::new();
    diff.insert(bytes("a"), Some(bytes("1")));
    diff.insert(bytes("b"), Some(bytes("2")));
    diff.insert(bytes("c"), None);
    let mut other = StorageDiff::new();
    other.insert(bytes("b"), None);
    other.insert(bytes("c"), Some(bytes("3")));
    other.insert(bytes("d"), Some(bytes("4")));
    diff.extend(other);
    assert_eq!(diff.get(b"a"), Some(&Some(bytes("1"))));
    assert_eq!(diff.get(b"b"), Some(&None));
    assert_eq!(diff.get(b"c"), Some(&Some(bytes("3"))));
    assert_eq!(diff.get(b"d"), Some(&Some(bytes("4"))));
}
