use zellit::text::{
    char_ascii_lower, char_is_ascii_alnum, char_is_ascii_space, chars_of, contains_chars,
    lower_chars, push_decimal, push_hex_byte, sort_strings, str_lt, subsequence_chars,
};

#[test]
fn decimal_and_hex_formatting() {
    let mut s = String::from("n=");
    push_decimal(&mut s, 0);
    push_decimal(&mut s, 1907);
    assert_eq!(s, "n=01907");
    let mut h = String::new();
    push_hex_byte(&mut h, 0x0a);
    push_hex_byte(&mut h, 0xff);
    assert_eq!(h, "0aff");
}

#[test]
fn character_classes() {
    assert!(char_is_ascii_alnum('Z'));
    assert!(!char_is_ascii_alnum('é'));
    assert!(char_is_ascii_space('\t'));
    assert!(!char_is_ascii_space('\u{a0}'));
    assert_eq!(char_ascii_lower('Q'), 'q');
    assert_eq!(char_ascii_lower('É'), 'É');
    assert_eq!(lower_chars(&chars_of("AbC1")), vec!['a', 'b', 'c', '1']);
}

#[test]
fn substring_and_subsequence_search() {
    let h = chars_of("pane (selected)");
    assert!(contains_chars(&h, &chars_of("sel")));
    assert!(!contains_chars(&h, &chars_of("pse")));
    assert!(subsequence_chars(&h, &chars_of("pse")));
    assert!(subsequence_chars(&h, &chars_of("")));
    assert!(!subsequence_chars(&h, &chars_of("xyz")));
}

#[test]
fn strings_sort_by_bytes_and_stably() {
    assert!(str_lt("B", "a"));
    assert!(str_lt("ab", "abc"));
    assert!(!str_lt("abc", "abc"));
    let v = vec![String::from("b"), String::from("a"), String::from("B"), String::from("é"), String::from("a")];
    assert_eq!(sort_strings(&v), vec!["B", "a", "a", "b", "é"]);
}
