use pasta_create::text::{copy_text, push_decimal, same_text, str_eq, to_decimal};

#[test]
fn decimal_spelling_of_numbers() {
    assert_eq!(to_decimal(0), "0");
    assert_eq!(to_decimal(7), "7");
    assert_eq!(to_decimal(10), "10");
    assert_eq!(to_decimal(4660), "4660");
    assert_eq!(to_decimal(65_535), "65535");
    assert_eq!(to_decimal(u64::MAX), "18446744073709551615");
}

#[test]
fn decimal_spelling_agrees_with_the_standard_library() {
    for n in (0..=65_535u64).step_by(97) {
        assert_eq!(to_decimal(n), n.to_string());
    }
}

#[test]
fn decimal_is_appended_to_what_is_there() {
    let mut out = String::from("id=");
    push_decimal(&mut out, 42);
    assert_eq!(out, "id=42");
}

#[test]
fn string_slices_are_compared_by_their_characters() {
    assert!(str_eq("abc", "abc"));
    assert!(str_eq("", ""));
    assert!(!str_eq("abc", "abd"));
    assert!(!str_eq("abc", "ab"));
}

#[test]
fn texts_that_may_be_absent_are_compared() {
    let a = Some(String::from("a"));
    let b = Some(String::from("b"));
    assert!(same_text(&None, &None));
    assert!(same_text(&a, &a.clone()));
    assert!(!same_text(&a, &b));
    assert!(!same_text(&a, &None));
    assert!(!same_text(&None, &a));
    assert!(!same_text(&Some(String::new()), &None));
}

#[test]
fn texts_that_may_be_absent_are_copied() {
    assert_eq!(copy_text(&None), None);
    assert_eq!(copy_text(&Some(String::from("a"))), Some(String::from("a")));
}
