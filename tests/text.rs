use self_assessment::text::{decimal_string, join_with_spaces, prefix_before, str_eq};

#[test]
fn decimal_notation() {
    assert_eq!(decimal_string(0), "0");
    assert_eq!(decimal_string(7), "7");
    assert_eq!(decimal_string(10), "10");
    assert_eq!(decimal_string(237), "237");
    assert_eq!(decimal_string(u64::MAX), "18446744073709551615");
}

#[test]
fn joining_with_spaces() {
    assert_eq!(join_with_spaces(&vec![]), "");
    assert_eq!(join_with_spaces(&vec!["a".to_string()]), "a");
    assert_eq!(join_with_spaces(&vec!["a".to_string(), "bc".to_string(), "d".to_string()]), "a bc d");
}

#[test]
fn prefix_before_separator() {
    assert_eq!(prefix_before("2024-03-15T10:00:00Z", 'T'), "2024-03-15");
    assert_eq!(prefix_before("2024-03-15", 'T'), "2024-03-15");
    assert_eq!(prefix_before("", 'T'), "");
    assert_eq!(prefix_before("Tail", 'T'), "");
}

#[test]
fn string_equality() {
    assert!(str_eq("open", "open"));
    assert!(!str_eq("open", "opened"));
    assert!(!str_eq("open", "OPEN"));
    assert!(str_eq("", ""));
}
