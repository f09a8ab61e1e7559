use cw_orch_daemon::text::{contains, find, matches_at, read_digits};

#[test]
fn finds_the_first_occurrence() {
    assert_eq!(find(b"abcabc", b"bc"), Some(1));
    assert_eq!(find(b"abcabc", b"abc"), Some(0));
    assert_eq!(find(b"abcabc", b"cab"), Some(2));
    assert_eq!(find(b"abcabc", b"abcabc"), Some(0));
}

#[test]
fn finds_nothing() {
    assert_eq!(find(b"abcabc", b"abd"), None);
    assert_eq!(find(b"abc", b"abcd"), None);
    assert_eq!(find(b"", b"a"), None);
}

#[test]
fn empty_needle_is_found_at_the_start() {
    assert_eq!(find(b"abc", b""), Some(0));
    assert_eq!(find(b"", b""), Some(0));
    assert!(contains(b"", b""));
}

#[test]
fn matches_at_an_index() {
    assert!(matches_at(b"hello", b"llo", 2));
    assert!(!matches_at(b"hello", b"llo", 3));
    assert!(!matches_at(b"hello", b"lo", 4));
    assert!(matches_at(b"hello", b"", 5));
    assert!(!matches_at(b"hello", b"", 6));
    assert!(!matches_at(b"hello", b"h", usize::MAX));
}

#[test]
fn contains_a_fragment() {
    assert!(contains(b"incorrect account sequence", b"account"));
    assert!(!contains(b"incorrect account sequence", b"Account"));
}

#[test]
fn digits_are_read_up_to_the_first_other_byte() {
    assert_eq!(read_digits(b"2500ujuno", 0), (4, Some(2500)));
    assert_eq!(read_digits(b"x2500", 1), (5, Some(2500)));
    assert_eq!(read_digits(b"ujuno", 0), (0, Some(0)));
    assert_eq!(read_digits(b"12", 2), (2, Some(0)));
    assert_eq!(read_digits(b"007", 0), (3, Some(7)));
    assert_eq!(
        read_digits(b"340282366920938463463374607431768211455", 0),
        (39, Some(u128::MAX))
    );
    assert_eq!(read_digits(b"340282366920938463463374607431768211456 ", 0), (39, None));
}
