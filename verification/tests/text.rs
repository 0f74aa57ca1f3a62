use reddsaver::text::{
    append, chars_of, contains, decimal_of, digit_of, ends_with, first_chars, last_position,
    matches_at,
    prefix_through_last, replace, same_str, same_text, slice_of, string_of, suffix_after_last,
};

fn chars(s: &str) -> Vec<char> {
    s.chars().collect()
}

#[test]
fn chars_and_strings_convert_both_ways() {
    assert_eq!(chars_of("héllo"), vec!['h', 'é', 'l', 'l', 'o']);
    assert_eq!(chars_of(""), Vec::<char>::new());
    assert_eq!(string_of(&chars("héllo")), "héllo");
    assert_eq!(string_of(&Vec::new()), "");
}

#[test]
fn matches_at_checks_one_position() {
    assert!(matches_at(&chars("abcabc"), &chars("bc"), 1));
    assert!(matches_at(&chars("abcabc"), &chars("bc"), 4));
    assert!(!matches_at(&chars("abcabc"), &chars("bc"), 0));
    assert!(!matches_at(&chars("abcabc"), &chars("bc"), 5));
    assert!(!matches_at(&chars("abcabc"), &chars("bc"), 50));
    assert!(matches_at(&chars("abc"), &chars(""), 3));
    assert!(!matches_at(&chars("abc"), &chars(""), 4));
}

#[test]
fn contains_finds_a_substring_anywhere() {
    assert!(contains(&chars("https://i.redd.it/a.jpg"), &chars("i.redd.it")));
    assert!(contains(&chars("abc"), &chars("abc")));
    assert!(contains(&chars("abc"), &chars("c")));
    assert!(contains(&chars("abc"), &chars("")));
    assert!(contains(&chars(""), &chars("")));
    assert!(!contains(&chars("abc"), &chars("abcd")));
    assert!(!contains(&chars("abc"), &chars("ca")));
    assert!(!contains(&chars(""), &chars("a")));
}

#[test]
fn ends_with_checks_the_end() {
    assert!(ends_with(&chars("a.jpg"), &chars("jpg")));
    assert!(ends_with(&chars("jpg"), &chars("jpg")));
    assert!(ends_with(&chars("jpg"), &chars("")));
    assert!(!ends_with(&chars("a.jpg.png"), &chars("jpg")));
    assert!(!ends_with(&chars("pg"), &chars("jpg")));
}

#[test]
fn last_position_finds_the_last_occurrence() {
    assert_eq!(last_position(&chars("a/b/c"), '/'), Some(3));
    assert_eq!(last_position(&chars("/"), '/'), Some(0));
    assert_eq!(last_position(&chars("abc"), '/'), None);
    assert_eq!(last_position(&chars(""), '/'), None);
}

#[test]
fn suffix_after_last_is_the_last_segment() {
    assert_eq!(suffix_after_last(&chars("a/b/c"), '/'), chars("c"));
    assert_eq!(suffix_after_last(&chars("a/b/"), '/'), chars(""));
    assert_eq!(suffix_after_last(&chars("abc"), '/'), chars("abc"));
    assert_eq!(suffix_after_last(&chars(""), '/'), chars(""));
}

#[test]
fn prefix_through_last_keeps_the_separator() {
    assert_eq!(prefix_through_last(&chars("a/b/c"), '/'), chars("a/b/"));
    assert_eq!(prefix_through_last(&chars("abc"), '/'), chars(""));
    assert_eq!(prefix_through_last(&chars("/"), '/'), chars("/"));
}

#[test]
fn replace_takes_occurrences_from_the_left() {
    assert_eq!(replace(&chars("a.b.c"), &chars("."), &chars("_")), chars("a_b_c"));
    assert_eq!(replace(&chars("aaa"), &chars("aa"), &chars("b")), chars("ba"));
    assert_eq!(replace(&chars("x.gifv"), &chars("gifv"), &chars("mp4")), chars("x.mp4"));
    assert_eq!(replace(&chars("a b c"), &chars(" "), &chars("")), chars("abc"));
    assert_eq!(replace(&chars("abc"), &chars("abcd"), &chars("x")), chars("abc"));
    assert_eq!(replace(&chars(""), &chars("a"), &chars("x")), chars(""));
    assert_eq!(replace(&chars("abab"), &chars("ab"), &chars("abab")), chars("abababab"));
}

#[test]
fn slices_and_appends() {
    assert_eq!(slice_of(&chars("abcdef"), 2, 4), chars("cd"));
    assert_eq!(slice_of(&chars("abcdef"), 3, 3), chars(""));
    let mut v = chars("ab");
    append(&mut v, &chars("cd"));
    append(&mut v, &chars(""));
    assert_eq!(v, chars("abcd"));
}

#[test]
fn same_text_compares_character_by_character() {
    assert!(same_text(&chars("mp4"), &chars("mp4")));
    assert!(same_text(&chars(""), &chars("")));
    assert!(!same_text(&chars("mp4"), &chars("mp3")));
    assert!(!same_text(&chars("mp4"), &chars("mp4 ")));
    assert!(same_str("0", "0"));
    assert!(!same_str("0", "00"));
}

#[test]
fn decimal_writes_numbers_in_base_ten() {
    assert_eq!(decimal_of(0), chars("0"));
    assert_eq!(decimal_of(7), chars("7"));
    assert_eq!(decimal_of(10), chars("10"));
    assert_eq!(decimal_of(4294967295), chars("4294967295"));
    assert_eq!(decimal_of(u64::MAX), chars("18446744073709551615"));
    assert_eq!(digit_of(9), '9');
    assert_eq!(digit_of(0), '0');
}

#[test]
fn first_chars_counts_characters() {
    assert_eq!(first_chars("héllo", 2), chars("hé"));
    assert_eq!(first_chars("héllo", 5), chars("héllo"));
    assert_eq!(first_chars("héllo", 9), chars("héllo"));
    assert_eq!(first_chars("héllo", 0), chars(""));
    assert_eq!(first_chars("", 3), chars(""));
}
