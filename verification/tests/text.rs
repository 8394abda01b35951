use infoundr_gateway::text::{
    chars_of, decimal_text, find_in, join, join3, occurs, owned, same, slice, strip_trailing_len,
    trim_bounds,
};

#[test]
fn decimal_of_zero_is_one_digit() {
    assert_eq!(decimal_text(0), "0");
}

#[test]
fn decimal_has_no_leading_zeros() {
    assert_eq!(decimal_text(7), "7");
    assert_eq!(decimal_text(10), "10");
    assert_eq!(decimal_text(404), "404");
    assert_eq!(decimal_text(1_700_000_000_123), "1700000000123");
}

#[test]
fn decimal_of_the_largest_number() {
    assert_eq!(decimal_text(u64::MAX), "18446744073709551615");
}

#[test]
fn find_reports_the_first_occurrence() {
    let hay = chars_of("a -- b -- c");
    let pattern = chars_of(" -- ");
    assert_eq!(find_in(&hay, &pattern, 0), Some(1));
    assert_eq!(find_in(&hay, &pattern, 2), Some(6));
    assert_eq!(find_in(&hay, &pattern, 7), None);
}

#[test]
fn find_of_a_pattern_longer_than_the_text() {
    let hay = chars_of("ab");
    let pattern = chars_of("abc");
    assert_eq!(find_in(&hay, &pattern, 0), None);
    assert!(!occurs(&hay, &pattern, 0));
}

#[test]
fn find_at_the_very_end() {
    let hay = chars_of("xy-");
    let pattern = chars_of("-");
    assert_eq!(find_in(&hay, &pattern, 0), Some(2));
    assert_eq!(find_in(&hay, &pattern, 3), None);
}

#[test]
fn occurs_checks_one_position() {
    let hay = chars_of("hello");
    assert!(occurs(&hay, &chars_of("ell"), 1));
    assert!(!occurs(&hay, &chars_of("ell"), 0));
    assert!(!occurs(&hay, &chars_of("lo"), 4));
    assert!(occurs(&hay, &chars_of(""), 5));
}

#[test]
fn slices_count_characters_not_bytes() {
    assert_eq!(slice("héllo wörld", 1, 5), "éllo");
    assert_eq!(slice("🎉ab", 1, 3), "ab");
    assert_eq!(slice("abc", 2, 2), "");
}

#[test]
fn trimming_drops_unicode_whitespace_on_both_sides() {
    let chars = chars_of("\u{a0}\t Benny \u{2003}\n");
    let (from, to) = trim_bounds(&chars, 0, chars.len());
    assert_eq!((from, to), (3, 8));
}

#[test]
fn trimming_keeps_inner_whitespace() {
    let chars = chars_of("  a b  ");
    assert_eq!(trim_bounds(&chars, 0, chars.len()), (2, 5));
    assert_eq!(trim_bounds(&chars, 3, 7), (4, 5));
}

#[test]
fn trimming_blank_text_leaves_nothing() {
    let chars = chars_of(" \t\n ");
    let (from, to) = trim_bounds(&chars, 0, chars.len());
    assert_eq!(from, to);
}

#[test]
fn trailing_slashes_are_stripped() {
    assert_eq!(strip_trailing_len(&chars_of("https://x.io///"), '/'), 12);
    assert_eq!(strip_trailing_len(&chars_of("https://x.io"), '/'), 12);
    assert_eq!(strip_trailing_len(&chars_of("///"), '/'), 0);
    assert_eq!(strip_trailing_len(&chars_of(""), '/'), 0);
}

#[test]
fn joining_and_comparing() {
    assert_eq!(join("ask_", "benny"), "ask_benny");
    assert_eq!(join3("*", "Benny", "*\n"), "*Benny*\n");
    assert_eq!(owned("x"), "x");
    assert!(same("abc", "abc"));
    assert!(!same("abc", "abd"));
    assert!(!same("abc", "ab"));
}
