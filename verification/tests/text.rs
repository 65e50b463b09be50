use mdcat::text::{
    has_newline_at_end, push_decimal, push_repeated, push_spaces, push_two_columns,
};

#[test]
fn decimal_notation_has_no_leading_zeros() {
    let mut out = String::new();
    for number in [0u64, 7, 10, 99, 100, 12345] {
        push_decimal(&mut out, number);
        out.push(' ');
    }
    assert_eq!(out, "0 7 10 99 100 12345 ");
}

#[test]
fn decimal_notation_of_the_greatest_number() {
    let mut out = String::from("n=");
    push_decimal(&mut out, u64::MAX);
    assert_eq!(out, "n=18446744073709551615");
}

#[test]
fn numbers_take_two_columns_at_least() {
    let mut out = String::new();
    push_two_columns(&mut out, 3);
    out.push('|');
    push_two_columns(&mut out, 10);
    out.push('|');
    push_two_columns(&mut out, 123);
    assert_eq!(out, " 3|10|123");
}

#[test]
fn units_are_repeated_behind_what_is_there() {
    let mut out = String::from(">");
    push_repeated(&mut out, "ab", 3);
    push_repeated(&mut out, "x", 0);
    push_spaces(&mut out, 2);
    out.push('<');
    assert_eq!(out, ">ababab  <");
}

#[test]
fn line_feed_at_the_end_is_seen() {
    assert!(has_newline_at_end("foo\n"));
    assert!(has_newline_at_end("\n"));
    assert!(!has_newline_at_end("foo"));
    assert!(!has_newline_at_end("foo\nbar"));
    assert!(!has_newline_at_end(""));
    assert!(!has_newline_at_end("f\u{f6}\u{f6}"));
}
