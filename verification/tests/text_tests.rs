use mcp_auth::text::{
    chars_of, contains_chars, contains_str, decimal_text, has_at, join_strings, split_str,
};

#[test]
fn split_keeps_empty_pieces() {
    let pieces = split_str("a,,b,", ',');
    assert_eq!(pieces, vec!["a".to_string(), "".to_string(), "b".to_string(), "".to_string()]);
    assert_eq!(split_str("", ','), vec!["".to_string()]);
    assert_eq!(split_str("abc", ','), vec!["abc".to_string()]);
    assert_eq!(split_str(",", ','), vec!["".to_string(), "".to_string()]);
    assert_eq!(split_str("k\u{e9}y:us\u{e9}r", ':'), vec!["k\u{e9}y".to_string(), "us\u{e9}r".to_string()]);
}

#[test]
fn split_agrees_with_the_standard_library() {
    for text in ["", "a", ",", "a,b", "a,,b,", ",,", "key1:user1,key2:user2"] {
        let expected: Vec<String> = text.split(',').map(|p| p.to_string()).collect();
        assert_eq!(split_str(text, ','), expected);
    }
}

#[test]
fn contains_finds_inner_part() {
    assert!(contains_str("https://www.googleapis.com/auth/userinfo.email", "userinfo.email"));
    assert!(!contains_str("abc", "abd"));
    assert!(contains_str("abc", ""));
    assert!(contains_str("", ""));
    assert!(!contains_str("", "a"));
    assert!(contains_str("abc", "abc"));
    assert!(contains_str("abc", "bc"));
    assert!(!contains_str("abc", "abcd"));
    assert!(contains_str("aab", "ab"));
    assert!(contains_str("na\u{ef}ve", "\u{ef}v"));
}

#[test]
fn contains_agrees_with_the_standard_library() {
    let texts = ["", "a", "ab", "aab", "abab", "b", "ba", "abc"];
    for hay in texts {
        for needle in texts {
            assert_eq!(contains_str(hay, needle), hay.contains(needle), "{:?} {:?}", hay, needle);
        }
    }
}

#[test]
fn occurrences_are_found_in_place() {
    let hay = chars_of("abcabc");
    let needle = chars_of("bc");
    assert_eq!(hay, vec!['a', 'b', 'c', 'a', 'b', 'c']);
    assert!(!has_at(&hay, &needle, 0));
    assert!(has_at(&hay, &needle, 1));
    assert!(has_at(&hay, &needle, 4));
    assert!(contains_chars(&hay, &needle));
    assert!(!contains_chars(&needle, &hay));
}

#[test]
fn numbers_are_written_in_decimal() {
    assert_eq!(decimal_text(0), "0");
    assert_eq!(decimal_text(7), "7");
    assert_eq!(decimal_text(10), "10");
    assert_eq!(decimal_text(1234567890), "1234567890");
    assert_eq!(decimal_text(u128::MAX), u128::MAX.to_string());
}

#[test]
fn items_are_joined() {
    assert_eq!(join_strings(&Vec::new(), ", "), "");
    assert_eq!(join_strings(&vec!["a".to_string()], ", "), "a");
    assert_eq!(join_strings(&vec!["a".to_string(), "".to_string(), "c".to_string()], ", "), "a, , c");
}
