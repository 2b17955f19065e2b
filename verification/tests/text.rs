use spring_night::text::{indent, indentation, push_decimal, str_eq, str_lt};

fn decimal(n: usize) -> String {
    let mut out = String::new();
    push_decimal(&mut out, n);
    out
}

#[test]
fn decimal_notation_has_no_leading_zeros() {
    assert_eq!(decimal(0), "0");
    assert_eq!(decimal(7), "7");
    assert_eq!(decimal(10), "10");
    assert_eq!(decimal(99), "99");
    assert_eq!(decimal(100), "100");
    assert_eq!(decimal(255), "255");
    assert_eq!(decimal(1234567890), "1234567890");
    assert_eq!(decimal(usize::MAX), usize::MAX.to_string());
}

#[test]
fn push_decimal_appends() {
    let mut out = String::from("n = ");
    push_decimal(&mut out, 42);
    push_decimal(&mut out, 0);
    assert_eq!(out, "n = 420");
}

#[test]
fn indentation_is_four_spaces_a_step() {
    assert_eq!(indent(0), "");
    assert_eq!(indent(1), "    ");
    assert_eq!(indent(2), "        ");
    assert_eq!(indent(255).len(), 1020);
    assert!(indent(255).chars().all(|c| c == ' '));
    assert_eq!(indentation(256).len(), 1024);
}

#[test]
fn texts_are_equal_when_their_characters_are() {
    assert!(str_eq("", ""));
    assert!(str_eq("NONE", "NONE"));
    assert!(!str_eq("NONE", "NONe"));
    assert!(!str_eq("NONE", "NON"));
    assert!(!str_eq("", "a"));
    assert!(str_eq("é", "é"));
}

#[test]
fn names_are_ordered_by_their_bytes() {
    let names = ["", "A", "B", "a", "ab", "abc", "b", "z", "é", "日本"];
    for (i, a) in names.iter().enumerate() {
        for (j, b) in names.iter().enumerate() {
            assert_eq!(str_lt(a, b), i < j, "{a:?} {b:?}");
            assert_eq!(str_lt(a, b), a < b, "{a:?} {b:?}");
        }
    }
}
