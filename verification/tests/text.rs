use rustdesk::text::{
    clone_text, contains_text, decimal_text, ends_with, hex_text, lines, list_contains,
    parse_number, replace_text, same_list, same_text, split_on, split_words,
    starts_with, trim,
};
use rustdesk::text_map::TextMap;

fn list(items: &[&str]) -> Vec<String> {
    items.iter().map(|s| s.to_string()).collect()
}

#[test]
fn texts_are_searched() {
    assert!(same_text("aé", "aé"));
    assert!(!same_text("a", "A"));
    assert!(starts_with("--server", "--"));
    assert!(!starts_with("-", "--"));
    assert!(ends_with("a.framework", ".framework"));
    assert!(!ends_with("work", ".framework"));
    assert!(contains_text("abcabd", "abd"));
    assert!(contains_text("abc", ""));
    assert!(!contains_text("ab", "abc"));
}

#[test]
fn texts_are_taken_apart() {
    assert_eq!(trim("\t a b \u{3000}\n"), "a b");
    assert_eq!(split_on("a,,b", ','), list(&["a", "", "b"]));
    assert_eq!(split_on("", ','), list(&[""]));
    assert_eq!(split_words("  a  bc\td "), list(&["a", "bc", "d"]));
    assert_eq!(lines("a\r\nb\n\nc"), list(&["a", "b", "", "c"]));
    assert_eq!(lines("a\n"), list(&["a"]));
    assert_eq!(lines(""), list(&[]));
}

#[test]
fn numbers_are_written_and_read() {
    for n in [0u64, 7, 10, 4_294_967_295, u64::MAX] {
        assert_eq!(decimal_text(n), n.to_string());
        assert_eq!(parse_number(&n.to_string(), u64::MAX), Some(n));
    }
    assert_eq!(parse_number("+12", 100), Some(12));
    assert_eq!(parse_number("007", 100), Some(7));
    assert_eq!(parse_number("101", 100), None);
    assert_eq!(parse_number("18446744073709551616", u64::MAX), None);
    for bad in ["", "+", "-1", "1 ", "1x"] {
        assert_eq!(parse_number(bad, 100), None);
    }
    assert_eq!(hex_text(&[0, 0x5a, 0xff]), "005aff");
}

#[test]
fn texts_are_replaced_from_left_to_right() {
    assert_eq!(replace_text("aaa", "aa", "b"), "ba");
    assert_eq!(replace_text("abcabc", "bc", ""), "aa");
    assert_eq!(replace_text("abc", "x", "y"), "abc");
    assert_eq!(replace_text("ab", "abc", "y"), "ab");
    assert_eq!(replace_text("aXbX", "X", "XX"), "aXXbXX");
}

#[test]
fn lists_and_options_are_compared() {
    assert!(list_contains(&list(&["a", "b"]), "b"));
    assert!(!list_contains(&list(&["a", "b"]), "c"));
    assert!(same_list(&list(&["a", "b"]), &list(&["a", "b"])));
    assert!(!same_list(&list(&["a", "b"]), &list(&["b", "a"])));
    assert_eq!(clone_text(&Some("a".to_owned())), Some("a".to_owned()));
    assert_eq!(clone_text(&None), None);
}

#[test]
fn maps_keep_the_last_value_of_a_key() {
    let mut map: TextMap<u32> = TextMap::new();
    assert_eq!(map.get("a"), None);
    map.insert("a", 1);
    map.insert("b", 2);
    map.insert("a", 3);
    assert_eq!(map.get("a"), Some(&3));
    assert_eq!(map.remove("a"), Some(3));
    assert_eq!(map.remove("a"), None);
    assert_eq!(map.get("a"), None);
    assert_eq!(map.get("b"), Some(&2));
}
