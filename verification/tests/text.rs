use rust_basics::strmap::StrMap;
use rust_basics::text::{
    char_is_white_space, join2, join3, starts_with, str_eq, str_lt, strip_prefix, to_decimal,
    trim,
};

#[test]
fn string_order_is_code_point_lexicographic() {
    assert!(str_lt("abc", "abd"));
    assert!(str_lt("ab", "abc"));
    assert!(!str_lt("abc", "abc"));
    assert!(!str_lt("b", "abc"));
    assert!(str_lt("", "a"));
    assert!(str_lt("Z", "a"));
    assert!(str_eq("héllo", "héllo"));
    assert!(!str_eq("abc", "abcd"));
}

#[test]
fn prefixes() {
    assert!(starts_with("APP_ADDR", "APP_"));
    assert!(!starts_with("APP", "APP_"));
    assert_eq!(strip_prefix("Bearer tok", "Bearer "), Some("tok"));
    assert_eq!(strip_prefix("Basic tok", "Bearer "), None);
    assert_eq!(strip_prefix("x", ""), Some("x"));
}

#[test]
fn trimming_matches_std() {
    for s in ["  a b  ", "\t\n x\u{3000}", "", "   ", "abc", "\u{a0}q\u{2009}"] {
        assert_eq!(trim(s), s.trim());
    }
    assert!(char_is_white_space('\u{85}'));
    assert!(!char_is_white_space('x'));
}

#[test]
fn decimal_and_concatenation() {
    assert_eq!(to_decimal(0), "0");
    assert_eq!(to_decimal(503), "503");
    assert_eq!(to_decimal(u64::MAX), u64::MAX.to_string());
    assert_eq!(join2("task:", "7"), "task:7");
    assert_eq!(join3("a", "-", "b"), "a-b");
}

#[test]
fn str_map_keeps_keys_sorted_and_unique() {
    let mut m: StrMap<u32> = StrMap::new();
    assert!(m.is_empty());
    m.insert("b".to_string(), 2);
    m.insert("a".to_string(), 1);
    m.insert("c".to_string(), 3);
    m.insert("b".to_string(), 20);
    assert_eq!(m.len(), 3);
    assert_eq!(m.get("b"), Some(&20));
    assert_eq!(m.get("z"), None);
    assert_eq!(m.key_at(0), "a");
    assert_eq!(m.value_at(2), &3);
    let entries = m.into_entries();
    assert_eq!(
        entries,
        vec![("a".to_string(), 1), ("b".to_string(), 20), ("c".to_string(), 3)]
    );
}
