use project_bootstrap::casing::derive_project_name;
use project_bootstrap::casing::split_name_words;
use project_bootstrap::text::contains_substr;
use project_bootstrap::text::eq_str;

#[test]
fn hyphenated_name_becomes_title_words() {
    assert_eq!(derive_project_name("hello-world"), "Hello World");
}

#[test]
fn underscored_name_becomes_title_words() {
    assert_eq!(derive_project_name("my_new_project"), "My New Project");
}

#[test]
fn digits_stay_as_their_own_word() {
    assert_eq!(derive_project_name("super_mario_64"), "Super Mario 64");
}

#[test]
fn surrounding_and_repeated_spaces_vanish() {
    assert_eq!(derive_project_name("  spaced   name "), "Spaced Name");
}

#[test]
fn camel_case_word_is_split_by_title_casing() {
    assert_eq!(derive_project_name("alreadyTitled"), "Already Titled");
}

#[test]
fn empty_name_stays_empty() {
    assert_eq!(derive_project_name(""), "");
    assert_eq!(derive_project_name("-_- "), "");
}

#[test]
fn mixed_separators_split_into_words() {
    let words = split_name_words("a-b_c d");
    assert_eq!(words, vec!["a", "b", "c", "d"]);
}

#[test]
fn separator_runs_yield_no_empty_words() {
    let words = split_name_words("--one__two  three-");
    assert_eq!(words, vec!["one", "two", "three"]);
}

#[test]
fn substring_search_finds_inner_run() {
    assert!(contains_substr("hello", "ell"));
    assert!(contains_substr("hello", "hello"));
    assert!(!contains_substr("hello", "elle"));
}

#[test]
fn empty_needle_is_always_contained() {
    assert!(contains_substr("hello", ""));
    assert!(contains_substr("", ""));
}

#[test]
fn needle_longer_than_haystack_is_not_contained() {
    assert!(!contains_substr("abc", "abcd"));
    assert!(!contains_substr("", "a"));
}

#[test]
fn string_equality_is_exact() {
    assert!(eq_str("same", "same"));
    assert!(!eq_str("same", "Same"));
    assert!(!eq_str("same", "sam"));
    assert!(eq_str("", ""));
}
