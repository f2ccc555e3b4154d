use runlog::pattern_matcher::{characters, is_in};

#[test]
fn finds_a_needle_in_the_middle() {
    assert!(is_in("a numeric mode", "numeric"));
}

#[test]
fn finds_a_needle_at_either_end() {
    assert!(is_in("utc time", "utc"));
    assert!(is_in("time in utc", "utc"));
}

#[test]
fn finds_a_needle_that_is_the_whole_haystack() {
    assert!(is_in("local", "local"));
}

#[test]
fn misses_a_needle_that_is_not_there() {
    assert!(!is_in("mars", "utc"));
    assert!(!is_in("numeri", "numeric"));
    assert!(!is_in("n u m e r i c", "numeric"));
}

#[test]
fn misses_a_needle_longer_than_the_haystack() {
    assert!(!is_in("ut", "utc"));
    assert!(!is_in("", "utc"));
}

#[test]
fn the_empty_needle_is_in_every_haystack() {
    assert!(is_in("anything", ""));
    assert!(is_in("", ""));
}

#[test]
fn the_search_is_case_sensitive() {
    assert!(!is_in("NUMERIC", "numeric"));
    assert!(!is_in("numeric", "NUMERIC"));
    assert!(is_in("NUMERIC", "NUMERIC"));
}

#[test]
fn a_failed_start_does_not_hide_a_later_match() {
    assert!(is_in("aaab", "aab"));
    assert!(is_in("lolocal", "local"));
    assert!(!is_in("ababab", "abb"));
}

#[test]
fn the_search_goes_by_characters() {
    assert!(is_in("zeit: utc \u{00e4}\u{00f6}", "utc"));
    assert!(is_in("\u{00e4}\u{00f6}\u{00fc}", "\u{00f6}"));
    assert!(!is_in("\u{00e4}\u{00fc}", "\u{00f6}"));
}

#[test]
fn characters_are_kept_in_order() {
    assert_eq!(characters("utc"), vec!['u', 't', 'c']);
    assert_eq!(characters("\u{00e4}b"), vec!['\u{00e4}', 'b']);
    assert_eq!(characters(""), Vec::<char>::new());
}
