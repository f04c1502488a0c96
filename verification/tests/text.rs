use search_bot_rs::text::{chars_of, split_chars, str_contains, str_eq, string_of};

#[test]
fn characters_go_round() {
    assert_eq!(chars_of("añ你"), vec!['a', 'ñ', '你']);
    assert_eq!(string_of(&vec!['a', 'ñ', '你']), "añ你");
    assert_eq!(string_of(&chars_of("")), "");
}

#[test]
fn strings_are_compared_by_characters() {
    assert!(str_eq("", ""));
    assert!(str_eq("noop", "noop"));
    assert!(!str_eq("noop", "noo"));
    assert!(!str_eq("noop", "nooq"));
    assert!(!str_eq("a", "A"));
}

#[test]
fn split_keeps_empty_parts() {
    let parts = |s: &str| -> Vec<String> {
        split_chars(&chars_of(s), '|').iter().map(string_of).collect()
    };
    assert_eq!(parts(""), vec![""]);
    assert_eq!(parts("a"), vec!["a"]);
    assert_eq!(parts("a|b"), vec!["a", "b"]);
    assert_eq!(parts("|"), vec!["", ""]);
    assert_eq!(parts("a||b|"), vec!["a", "", "b", ""]);
}

#[test]
fn split_agrees_with_the_standard_library() {
    for s in ["", "|", "||", "a|b|c", "|a", "a|", "0|-|-|-"] {
        let ours: Vec<String> = split_chars(&chars_of(s), '|').iter().map(string_of).collect();
        let theirs: Vec<String> = s.split('|').map(String::from).collect();
        assert_eq!(ours, theirs);
    }
}

#[test]
fn substring_search_agrees_with_the_standard_library() {
    for (s, n) in [("", ""), ("abc", ""), ("", "a"), ("abc", "abc"), ("abc", "bc"), ("abc", "abd"), ("aab", "ab"), ("ab", "abc")] {
        assert_eq!(str_contains(s, n), s.contains(n), "{:?} in {:?}", n, s);
    }
}
