use transcoder::decimal::{
    digit_text, format_seconds, parse_fixed, parse_number, power_of_ten, read_digit,
};
use transcoder::text::{
    chars_of, contains, ends_with, find_in, matches_at, position_in, slice_of,
};

fn chars(s: &str) -> Vec<char> {
    s.chars().collect()
}

#[test]
fn chars_of_gives_the_characters_in_order() {
    assert_eq!(chars_of("a:é"), vec!['a', ':', 'é']);
    assert_eq!(chars_of(""), Vec::<char>::new());
}

#[test]
fn matches_at_checks_one_position() {
    let hay = chars("frame=12 fps=3");
    assert!(matches_at(&hay, &chars("frame="), 0));
    assert!(matches_at(&hay, &chars("fps="), 9));
    assert!(!matches_at(&hay, &chars("fps="), 8));
    assert!(!matches_at(&hay, &chars("fps=3x"), 9));
    assert!(matches_at(&hay, &chars(""), 14));
    assert!(!matches_at(&hay, &chars(""), 15));
}

#[test]
fn find_in_gives_the_first_occurrence() {
    let hay = chars("abcabc");
    assert_eq!(find_in(&hay, &chars("bc"), 0), Some(1));
    assert_eq!(find_in(&hay, &chars("bc"), 2), Some(4));
    assert_eq!(find_in(&hay, &chars("bc"), 5), None);
    assert_eq!(find_in(&hay, &chars("x"), 0), None);
    assert_eq!(find_in(&hay, &chars("abcabcd"), 0), None);
    assert_eq!(find_in(&hay, &chars(""), 0), Some(0));
    assert_eq!(find_in(&hay, &chars(""), 6), Some(6));
    assert_eq!(find_in(&hay, &chars(""), 7), None);
}

#[test]
fn contains_and_ends_with() {
    let hay = chars("yuv422p10le");
    assert!(contains(&hay, &chars("422")));
    assert!(!contains(&hay, &chars("420")));
    assert!(ends_with(&hay, &chars("10le")));
    assert!(!ends_with(&hay, &chars("10be")));
    assert!(ends_with(&hay, &chars("")));
    assert!(!ends_with(&chars("le"), &chars("10le")));
}

#[test]
fn position_in_gives_the_first_character_or_the_length() {
    let s = chars("a:b:c");
    assert_eq!(position_in(&s, ':', 0), 1);
    assert_eq!(position_in(&s, ':', 1), 1);
    assert_eq!(position_in(&s, ':', 2), 3);
    assert_eq!(position_in(&s, ':', 4), 5);
    assert_eq!(position_in(&s, ':', 9), 5);
    assert_eq!(position_in(&s, 'x', 0), 5);
}

#[test]
fn slice_of_copies_a_range() {
    let s = chars("hello");
    assert_eq!(slice_of(&s, 1, 4), chars("ell"));
    assert_eq!(slice_of(&s, 2, 2), chars(""));
    assert_eq!(slice_of(&s, 0, 5), s);
}

#[test]
fn read_digit_tells_digits_from_the_rest() {
    assert_eq!(read_digit('0'), Some(0));
    assert_eq!(read_digit('7'), Some(7));
    assert_eq!(read_digit('9'), Some(9));
    assert_eq!(read_digit('/'), None);
    assert_eq!(read_digit(':'), None);
    assert_eq!(read_digit('a'), None);
    assert_eq!(read_digit('٣'), None);
}

#[test]
fn parse_number_reads_whole_numbers() {
    let s = chars("x48000y");
    assert_eq!(parse_number(&s, 1, 6), Some(48000));
    assert_eq!(parse_number(&s, 1, 2), Some(4));
    assert_eq!(parse_number(&chars("007"), 0, 3), Some(7));
}

#[test]
fn parse_number_refuses_what_is_no_number() {
    let s = chars("x48000y");
    assert_eq!(parse_number(&s, 0, 6), None);
    assert_eq!(parse_number(&s, 1, 7), None);
    assert_eq!(parse_number(&s, 3, 3), None);
    assert_eq!(parse_number(&chars("+5"), 0, 2), None);
    assert_eq!(parse_number(&chars("-5"), 0, 2), None);
    assert_eq!(parse_number(&chars("1.5"), 0, 3), None);
}

#[test]
fn parse_number_stops_at_the_largest_value() {
    let max = chars("18446744073709551615");
    assert_eq!(parse_number(&max, 0, max.len()), Some(u64::MAX));
    let over = chars("18446744073709551616");
    assert_eq!(parse_number(&over, 0, over.len()), None);
    let long = chars("000000000000000000000000000001");
    assert_eq!(parse_number(&long, 0, long.len()), Some(1));
    let huge = chars("99999999999999999999999999");
    assert_eq!(parse_number(&huge, 0, huge.len()), None);
}

#[test]
fn power_of_ten_values() {
    assert_eq!(power_of_ten(0), 1);
    assert_eq!(power_of_ten(3), 1_000);
    assert_eq!(power_of_ten(6), 1_000_000);
    assert_eq!(power_of_ten(18), 1_000_000_000_000_000_000);
}

#[test]
fn parse_fixed_reads_decimal_numbers() {
    assert_eq!(parse_fixed(&chars("25.0"), 3), Some(25_000));
    assert_eq!(parse_fixed(&chars("25"), 3), Some(25_000));
    assert_eq!(parse_fixed(&chars("23.976"), 3), Some(23_976));
    assert_eq!(parse_fixed(&chars("0.5"), 3), Some(500));
    assert_eq!(parse_fixed(&chars("7."), 3), Some(7_000));
    assert_eq!(parse_fixed(&chars("123.456000"), 6), Some(123_456_000));
    assert_eq!(parse_fixed(&chars("90.00"), 6), Some(90_000_000));
    assert_eq!(parse_fixed(&chars("0"), 0), Some(0));
    assert_eq!(parse_fixed(&chars("12.9"), 0), Some(12));
}

#[test]
fn parse_fixed_rounds_towards_zero() {
    assert_eq!(parse_fixed(&chars("1.9999"), 3), Some(1_999));
    assert_eq!(parse_fixed(&chars("0.0000009"), 6), Some(0));
    assert_eq!(parse_fixed(&chars("1.23456789"), 6), Some(1_234_567));
}

#[test]
fn parse_fixed_refuses_what_is_no_decimal_number() {
    assert_eq!(parse_fixed(&chars(""), 3), None);
    assert_eq!(parse_fixed(&chars("."), 3), None);
    assert_eq!(parse_fixed(&chars(".5"), 3), None);
    assert_eq!(parse_fixed(&chars("-1.5"), 3), None);
    assert_eq!(parse_fixed(&chars("+1.5"), 3), None);
    assert_eq!(parse_fixed(&chars("1.5.2"), 3), None);
    assert_eq!(parse_fixed(&chars("1e3"), 3), None);
    assert_eq!(parse_fixed(&chars("1.5x"), 3), None);
    assert_eq!(parse_fixed(&chars("N/A"), 3), None);
    assert_eq!(parse_fixed(&chars(" 25"), 3), None);
}

#[test]
fn parse_fixed_stops_at_the_largest_value() {
    assert_eq!(
        parse_fixed(&chars("18446744073709551.615"), 3),
        Some(u64::MAX)
    );
    assert_eq!(parse_fixed(&chars("18446744073709551.616"), 3), None);
    assert_eq!(parse_fixed(&chars("18446744073709551615"), 3), None);
    assert_eq!(parse_fixed(&chars("18446744073709551616"), 0), None);
}

#[test]
fn digit_text_values() {
    assert_eq!(digit_text(0), "0");
    assert_eq!(digit_text(5), "5");
    assert_eq!(digit_text(9), "9");
}

#[test]
fn format_seconds_writes_six_fractional_digits() {
    assert_eq!(format_seconds(0), "0.000000");
    assert_eq!(format_seconds(1), "0.000001");
    assert_eq!(format_seconds(30_000_000), "30.000000");
    assert_eq!(format_seconds(1_500_000), "1.500000");
    assert_eq!(format_seconds(83_450_000), "83.450000");
    assert_eq!(format_seconds(3_600_000_000), "3600.000000");
    assert_eq!(format_seconds(100_000_010), "100.000010");
}

#[test]
fn format_seconds_writes_negative_values_with_a_sign() {
    assert_eq!(format_seconds(-1), "-0.000001");
    assert_eq!(format_seconds(-2_500_000), "-2.500000");
    assert_eq!(format_seconds(i64::MIN), "-9223372036854.775808");
    assert_eq!(format_seconds(i64::MAX), "9223372036854.775807");
}

#[test]
fn formatted_seconds_are_read_back() {
    for micros in [0i64, 1, 999_999, 1_000_000, 30_000_000, 83_450_000, i64::MAX] {
        let text = format_seconds(micros);
        assert_eq!(parse_fixed(&chars(&text), 6), Some(micros as u64));
    }
}
