use ayysee::parser::ast::Identifier;
use ayysee::text::{concat2, int_to_string, nat_to_string, parse_i32, parse_u8, split_words};

#[test]
fn decimal_of_naturals() {
    assert_eq!(nat_to_string(0), "0");
    assert_eq!(nat_to_string(7), "7");
    assert_eq!(nat_to_string(10), "10");
    assert_eq!(nat_to_string(1203), "1203");
    assert_eq!(nat_to_string(u64::MAX), "18446744073709551615");
}

#[test]
fn decimal_of_integers() {
    assert_eq!(int_to_string(0), "0");
    assert_eq!(int_to_string(-1), "-1");
    assert_eq!(int_to_string(42), "42");
    assert_eq!(int_to_string(i64::MAX), "9223372036854775807");
    assert_eq!(int_to_string(i64::MIN), "-9223372036854775808");
}

#[test]
fn decimal_agrees_with_the_standard_rendering() {
    let mut value: i64 = -5000;
    while value <= 5000 {
        assert_eq!(int_to_string(value), format!("{}", value));
        value += 1;
    }
    for value in [i32::MIN as i64, i32::MAX as i64, 1_000_000_007, -999_999_999_999] {
        assert_eq!(int_to_string(value), format!("{}", value));
    }
}

#[test]
fn concatenation_keeps_both_parts() {
    assert_eq!(concat2("if_0", "_end"), "if_0_end");
    assert_eq!(concat2("", "x"), "x");
    assert_eq!(concat2("x", ""), "x");
}

#[test]
fn whole_numbers_are_read() {
    assert_eq!(parse_i32("0"), Some(0));
    assert_eq!(parse_i32("5"), Some(5));
    assert_eq!(parse_i32("-5"), Some(-5));
    assert_eq!(parse_i32("+5"), Some(5));
    assert_eq!(parse_i32("-0"), Some(0));
    assert_eq!(parse_i32("007"), Some(7));
    assert_eq!(parse_i32("2147483647"), Some(i32::MAX));
    assert_eq!(parse_i32("-2147483648"), Some(i32::MIN));
}

#[test]
fn what_is_no_whole_number_is_not_read() {
    assert_eq!(parse_i32(""), None);
    assert_eq!(parse_i32("+"), None);
    assert_eq!(parse_i32("-"), None);
    assert_eq!(parse_i32("2147483648"), None);
    assert_eq!(parse_i32("-2147483649"), None);
    assert_eq!(parse_i32("99999999999999999999999"), None);
    assert_eq!(parse_i32("12a"), None);
    assert_eq!(parse_i32("a12"), None);
    assert_eq!(parse_i32(" 1"), None);
    assert_eq!(parse_i32("1 "), None);
    assert_eq!(parse_i32("1.5"), None);
    assert_eq!(parse_i32("+-1"), None);
    assert_eq!(parse_i32("--1"), None);
    assert_eq!(parse_i32("\u{663}"), None);
}

#[test]
fn reading_whole_numbers_agrees_with_the_standard_reading() {
    let samples = [
        "", "0", "-0", "+0", "1", "-1", "+1", "10", "0010", "2147483647", "2147483648",
        "-2147483648", "-2147483649", "4294967296", "x", "1x", "x1", "1_000", "1e3", "0x10",
        "+", "-", "++1", " 7", "7\n", "١٢", "12345678901234567890",
    ];
    for sample in samples {
        assert_eq!(parse_i32(sample), sample.parse::<i32>().ok(), "{:?}", sample);
        assert_eq!(parse_u8(sample), sample.parse::<u8>().ok(), "{:?}", sample);
    }
    let mut value: i32 = -300;
    while value <= 300 {
        let text = format!("{}", value);
        assert_eq!(parse_i32(&text), Some(value));
        assert_eq!(parse_u8(&text), text.parse::<u8>().ok());
        value += 1;
    }
}

#[test]
fn small_naturals_are_read() {
    assert_eq!(parse_u8("0"), Some(0));
    assert_eq!(parse_u8("255"), Some(255));
    assert_eq!(parse_u8("+7"), Some(7));
    assert_eq!(parse_u8("256"), None);
    assert_eq!(parse_u8("-1"), None);
    assert_eq!(parse_u8("-0"), None);
    assert_eq!(parse_u8(""), None);
    assert_eq!(parse_u8("+"), None);
}

#[test]
fn words_of_a_line() {
    assert_eq!(split_words("bdns d0 5"), vec!["bdns", "d0", "5"]);
    assert_eq!(split_words("  l\tr0   d1\nSetting  "), vec!["l", "r0", "d1", "Setting"]);
    assert_eq!(split_words(""), Vec::<String>::new());
    assert_eq!(split_words(" \t\n"), Vec::<String>::new());
    assert_eq!(split_words("one"), vec!["one"]);
    assert_eq!(split_words("a\u{a0}b\u{3000}c\u{85}d"), vec!["a", "b", "c", "d"]);
    assert_eq!(split_words("a\u{200b}b"), vec!["a\u{200b}b"]);
}

#[test]
fn words_agree_with_the_standard_splitting() {
    let mut code: u32 = 0;
    while code < 0x3100 {
        if let Some(c) = char::from_u32(code) {
            let text = format!("a{}b {}", c, c);
            let expected: Vec<String> = text.split_whitespace().map(|w| w.to_string()).collect();
            assert_eq!(split_words(&text), expected, "{:?}", c);
        }
        code += 1;
    }
}

#[test]
fn a_name_is_printed_in_quotes() {
    assert_eq!(Identifier::new("x").debug_string(), "Identifier(\"x\")");
    assert_eq!(Identifier::new("").debug_string(), "Identifier(\"\")");
    assert_eq!(
        Identifier::new("a\"b\\c\n").debug_string(),
        format!("Identifier({:?})", "a\"b\\c\n")
    );
    assert_eq!(Identifier::new("a\"b").debug_string(), "Identifier(\"a\\\"b\")");
}
