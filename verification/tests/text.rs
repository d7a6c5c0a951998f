use reika_printer::text::{push_decimal, push_hex2_upper, push_hex4_lower, push_hex4_upper};

fn decimal(n: usize) -> String {
    let mut out = String::new();
    push_decimal(&mut out, n);
    out
}

#[test]
fn decimal_matches_the_standard_rendering() {
    assert_eq!(decimal(0), "0");
    assert_eq!(decimal(7), "7");
    assert_eq!(decimal(10), "10");
    assert_eq!(decimal(109), "109");
    assert_eq!(decimal(65536), "65536");
    assert_eq!(decimal(usize::MAX), format!("{}", usize::MAX));
}

#[test]
fn decimal_is_appended_to_what_is_there() {
    let mut out = String::from("n=");
    push_decimal(&mut out, 42);
    assert_eq!(out, "n=42");
}

#[test]
fn hex_of_a_byte_has_two_upper_case_digits() {
    for v in 0..=255u8 {
        let mut out = String::new();
        push_hex2_upper(&mut out, v);
        assert_eq!(out, format!("{:02X}", v));
    }
}

#[test]
fn hex_of_a_word_has_four_digits() {
    for v in [0u16, 1, 0x0483, 0x5840, 0x0FE6, 0x811E, 0xBEEF, 0xFFFF] {
        let mut upper = String::new();
        push_hex4_upper(&mut upper, v);
        assert_eq!(upper, format!("{:04X}", v));
        let mut lower = String::new();
        push_hex4_lower(&mut lower, v);
        assert_eq!(lower, format!("{:04x}", v));
    }
}
