use keysync::lifecycle::needs_refresh;
use keysync::redirect::extract_provider_and_code;
use keysync::text::{ends_with, find_substring, matches_at, str_equal};

#[test]
fn finds_leftmost_occurrence() {
    assert_eq!(find_substring("abcabc", "abc"), Some(0));
    assert_eq!(find_substring("xxabc", "abc"), Some(2));
    assert_eq!(find_substring("abc", "abcd"), None);
    assert_eq!(find_substring("abc", "z"), None);
    assert_eq!(find_substring("abc", ""), Some(0));
    assert_eq!(find_substring("", ""), Some(0));
}

#[test]
fn matches_at_checks_exact_position() {
    assert!(matches_at("hello", 1, "ell"));
    assert!(!matches_at("hello", 0, "ell"));
}

#[test]
fn string_equality_is_by_characters() {
    assert!(str_equal("abc", "abc"));
    assert!(!str_equal("abc", "abd"));
    assert!(!str_equal("abc", "ab"));
    assert!(str_equal("", ""));
}

#[test]
fn suffix_check() {
    assert!(ends_with("1234+x@users.noreply.github.com", "users.noreply.github.com"));
    assert!(!ends_with("x@example.com", "users.noreply.github.com"));
    assert!(ends_with("anything", ""));
}

#[test]
fn decoder_handles_multibyte_characters() {
    let r = extract_provider_and_code("app://auth/github/callback?code=héllo→&state=s");
    assert_eq!(r, Some(("github".to_string(), "héllo→".to_string())));
}

#[test]
fn refresh_decision_never_overflows() {
    assert!(needs_refresh(i64::MAX, i64::MAX));
    assert!(needs_refresh(i64::MIN, i64::MIN));
    assert!(!needs_refresh(i64::MAX, 0));
    assert!(needs_refresh(0, i64::MAX - 100));
}
