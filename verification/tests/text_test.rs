use menahel::text::{chars_of, i64_to_decimal, option_i64_debug, split_whitespace, str_eq};

#[test]
fn split_whitespace_matches_std() {
    for s in ["", "   ", "sp  proj", " \tsp proj\n", "a b  c", "x\u{3000}y", "one"] {
        let ours = split_whitespace(s);
        let std: Vec<String> = s.split_whitespace().map(|w| w.to_string()).collect();
        assert_eq!(ours, std);
    }
}

#[test]
fn string_helpers() {
    assert!(str_eq("all", "all"));
    assert!(!str_eq("all", "al"));
    assert_eq!(chars_of("héllo"), vec!['h', 'é', 'l', 'l', 'o']);
    assert_eq!(i64_to_decimal(0), "0");
    assert_eq!(i64_to_decimal(-45), "-45");
    assert_eq!(i64_to_decimal(i64::MIN), i64::MIN.to_string());
    assert_eq!(i64_to_decimal(i64::MAX), i64::MAX.to_string());
    assert_eq!(option_i64_debug(Some(-3)), "Some(-3)");
    assert_eq!(option_i64_debug(None), "None");
}
