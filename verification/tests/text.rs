use rayhunter::text::{compare_str, insert_sorted_unique, join_strings, str_eq, usize_to_decimal};

#[test]
fn decimal_rendering() {
    assert_eq!(usize_to_decimal(0), "0");
    assert_eq!(usize_to_decimal(7), "7");
    assert_eq!(usize_to_decimal(10), "10");
    assert_eq!(usize_to_decimal(1234567890), "1234567890");
    assert_eq!(usize_to_decimal(usize::MAX), usize::MAX.to_string());
}

#[test]
fn string_comparisons() {
    assert!(str_eq("310", "310"));
    assert!(!str_eq("310", "31"));
    assert!(!str_eq("310", "311"));
    assert_eq!(compare_str("a", "b"), -1);
    assert_eq!(compare_str("b", "a"), 1);
    assert_eq!(compare_str("ab", "ab"), 0);
    assert_eq!(compare_str("ab", "abc"), -1);
    assert_eq!(compare_str("Z", "a"), -1);
}

#[test]
fn sorted_unique_insertion_and_join() {
    let mut v: Vec<String> = Vec::new();
    for s in ["pear", "apple", "fig", "apple", "banana"] {
        insert_sorted_unique(&mut v, s.to_string());
    }
    assert_eq!(v, vec!["apple", "banana", "fig", "pear"]);
    assert_eq!(join_strings(&v, ", "), "apple, banana, fig, pear");
    assert_eq!(join_strings(&vec![], ", "), "");
    assert_eq!(join_strings(&vec!["one".to_string()], ", "), "one");
}
