use roster_ingest::text::{
    chars_of, push_decimal, push_signed_decimal, push_zero_padded, read_decimal, same_text,
    text_of,
};

fn decimal(text: &str) -> Option<i32> {
    read_decimal(&text.chars().collect())
}

#[test]
fn text_and_characters_convert_both_ways() {
    assert_eq!(chars_of("héllo"), vec!['h', 'é', 'l', 'l', 'o']);
    assert_eq!(text_of(&vec!['N', 'E', 'R']), "NER");
    assert_eq!(text_of(&chars_of("")), "");
    assert!(same_text("Yes", "Yes"));
    assert!(!same_text("Yes", "yes"));
    assert!(!same_text("Yes", "Yes "));
    assert!(same_text("", ""));
}

#[test]
fn decimal_text_is_read_as_std_reads_it() {
    for text in ["0", "7", "007", "-7", "+7", "-0", "2147483647", "2147483648", "-2147483648",
        "-2147483649", "99999999999999999999999", "", "-", "+", "--1", "+-1", "1 ", " 1", "1.0",
        "1e3", "12a", "a12", "١٢", "0x10", "000000000000000000000000000001"]
    {
        assert_eq!(decimal(text), text.parse::<i32>().ok(), "{text:?}");
    }
    assert_eq!(decimal("42"), Some(42));
    assert_eq!(decimal("-2147483648"), Some(i32::MIN));
    assert_eq!(decimal("2147483648"), None);
}

#[test]
fn numbers_are_written_in_decimal() {
    let mut out = Vec::new();
    push_decimal(&mut out, 0);
    out.push(' ');
    push_decimal(&mut out, 1_769_000_000_123);
    out.push(' ');
    push_decimal(&mut out, u128::MAX);
    out.push(' ');
    push_signed_decimal(&mut out, -7);
    out.push(' ');
    push_signed_decimal(&mut out, i32::MIN);
    out.push(' ');
    push_signed_decimal(&mut out, i32::MAX);
    assert_eq!(
        text_of(&out),
        format!("0 1769000000123 {} -7 {} {}", u128::MAX, i32::MIN, i32::MAX)
    );
}

#[test]
fn padding_fills_up_to_the_width_and_never_cuts() {
    for (text, expected) in [("", "000"), ("7", "007"), ("42", "042"), ("123", "123"),
        ("1234", "1234"), ("-7", "0-7")]
    {
        let mut out = vec!['>'];
        push_zero_padded(&mut out, &text.chars().collect(), 3);
        assert_eq!(text_of(&out), format!(">{text:0>3}"));
        assert_eq!(text_of(&out), format!(">{expected}"));
    }
}
