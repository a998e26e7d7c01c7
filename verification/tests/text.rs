use quasar::text::{
    contains_str, decimal_u8, decimal_usize, join_strings, pascal_to_snake, replace_dashes,
    snake_to_pascal, split_whitespace, str_eq,
};

#[test]
fn split_whitespace_matches_std() {
    for s in ["", "   ", "cargo test tests::", "  npx\tvitest  run \n", "a\u{3000}b\u{85}c", "x"] {
        let expected: Vec<String> = s.split_whitespace().map(|w| w.to_string()).collect();
        assert_eq!(split_whitespace(s), expected);
    }
}

#[test]
fn case_conversions() {
    assert_eq!(snake_to_pascal("my_program"), "MyProgram");
    assert_eq!(snake_to_pascal("counter"), "Counter");
    assert_eq!(snake_to_pascal("_a__b9_c"), "AB9C");
    assert_eq!(pascal_to_snake("MakeOffer"), "make_offer");
    assert_eq!(pascal_to_snake("Initialize"), "initialize");
    assert_eq!(pascal_to_snake("ABC"), "a_b_c");
    assert_eq!(replace_dashes("my-cool-program"), "my_cool_program");
}

#[test]
fn string_helpers() {
    assert!(str_eq("abc", "abc"));
    assert!(!str_eq("abc", "abd"));
    assert!(!str_eq("abc", "ab"));
    assert!(contains_str("discriminator = 1", "discriminator"));
    assert!(contains_str("abc", ""));
    assert!(!contains_str("discrim", "discriminator"));
    assert_eq!(decimal_u8(0), "0");
    assert_eq!(decimal_u8(45), "45");
    assert_eq!(decimal_u8(196), "196");
    assert_eq!(decimal_usize(0), "0");
    assert_eq!(decimal_usize(1234567), "1234567");
    let items = vec!["a".to_string(), "b".to_string(), "c".to_string()];
    assert_eq!(join_strings(&items, ", "), "a, b, c");
    assert_eq!(join_strings(&Vec::new(), ", "), "");
}
