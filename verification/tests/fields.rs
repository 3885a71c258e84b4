//! Single fields: integers, numbers with a fraction, text, flags.
use twsapi::fields::{
    decode_bool, decode_f64, decode_f64_show_unset, decode_i32, decode_i32_show_unset, decode_i64,
    decode_string, UNSET_INTEGER,
};
use twsapi::number::{AbsentMark, Double};
use twsapi::text::{decimal_text, split_words};

fn fields(items: &[&str]) -> Vec<String> {
    items.iter().map(|s| s.to_string()).collect()
}

#[test]
fn an_integer_is_read_and_anything_else_is_zero() {
    let f = fields(&["7", "+8", "-9", "", "x", "1.5", " 1", "2147483647", "2147483648", "-2147483648", "-", "007"]);
    let mut iter = f.iter();
    let expected = [7, 8, -9, 0, 0, 0, 0, 2147483647, 0, -2147483648, 0, 7];
    for value in expected {
        assert_eq!(decode_i32(&mut iter).ok(), Some(value));
    }
    assert!(iter.next().is_none());
}

#[test]
fn each_reading_takes_one_field() {
    let f = fields(&["1", "2", "3"]);
    let mut iter = f.iter();
    assert_eq!(decode_i32(&mut iter).ok(), Some(1));
    assert_eq!(iter.as_slice(), &f[1..]);
    assert_eq!(decode_string(&mut iter).ok(), Some("2".to_string()));
    assert_eq!(iter.as_slice(), &f[2..]);
}

#[test]
fn zero_shows_as_unset() {
    let f = fields(&["0", "", "5", "-5", "abc"]);
    let mut iter = f.iter();
    assert_eq!(decode_i32_show_unset(&mut iter).ok(), Some(UNSET_INTEGER));
    assert_eq!(decode_i32_show_unset(&mut iter).ok(), Some(i32::MAX));
    assert_eq!(decode_i32_show_unset(&mut iter).ok(), Some(5));
    assert_eq!(decode_i32_show_unset(&mut iter).ok(), Some(-5));
    assert_eq!(decode_i32_show_unset(&mut iter).ok(), Some(UNSET_INTEGER));
}

#[test]
fn a_long_integer_is_read() {
    let f = fields(&["9223372036854775807", "-9223372036854775808", "9223372036854775808", "1573000000"]);
    let mut iter = f.iter();
    assert_eq!(decode_i64(&mut iter).ok(), Some(i64::MAX));
    assert_eq!(decode_i64(&mut iter).ok(), Some(i64::MIN));
    assert_eq!(decode_i64(&mut iter).ok(), Some(0));
    assert_eq!(decode_i64(&mut iter).ok(), Some(1573000000));
}

#[test]
fn a_number_with_a_fraction_keeps_its_text() {
    let f = fields(&["1.25", "0"]);
    let mut iter = f.iter();
    assert_eq!(decode_f64(&mut iter).ok(), Some(Double::Parsed("1.25".to_string())));
    assert_eq!(
        decode_f64_show_unset(&mut iter).ok(),
        Some(Double::Marked("0".to_string(), AbsentMark::Zero))
    );
}

#[test]
fn a_flag_is_any_integer_but_zero() {
    let f = fields(&["1", "0", "-3", "true", ""]);
    let mut iter = f.iter();
    assert_eq!(decode_bool(&mut iter).ok(), Some(true));
    assert_eq!(decode_bool(&mut iter).ok(), Some(false));
    assert_eq!(decode_bool(&mut iter).ok(), Some(true));
    assert_eq!(decode_bool(&mut iter).ok(), Some(false));
    assert_eq!(decode_bool(&mut iter).ok(), Some(false));
}

#[test]
fn a_missing_flag_is_not_set() {
    let f = fields(&[]);
    let mut iter = f.iter();
    assert_eq!(decode_bool(&mut iter).ok(), Some(false));
    assert_eq!(decode_bool(&mut iter).ok(), Some(false));
}

#[test]
fn a_marked_number_is_settled_by_its_mark() {
    let marked = Double::Marked("-1".to_string(), AbsentMark::MinusOne);
    assert_eq!(marked.clone().resolve(true), Double::Max);
    assert_eq!(marked.resolve(false), Double::Parsed("-1".to_string()));
    assert_eq!(Double::Whole(4).resolve(true), Double::Whole(4));
    assert_eq!(Double::Parsed("2".to_string()).resolve(true), Double::Parsed("2".to_string()));
    assert_eq!(Double::Max.resolve(false), Double::Max);
}

#[test]
fn words_stand_between_blanks() {
    assert_eq!(split_words("20201218 15:00 EST"), fields(&["20201218", "15:00", "EST"]));
    assert_eq!(split_words("  a\t b\n"), fields(&["a", "b"]));
    assert_eq!(split_words("x\u{a0}y\u{2003}z\u{3000}"), fields(&["x", "y", "z"]));
    assert_eq!(split_words("x\u{200b}y"), fields(&["x\u{200b}y"]));
    assert_eq!(split_words(" \t "), fields(&[]));
    assert_eq!(split_words(""), fields(&[]));
}

#[test]
fn words_are_the_text_without_its_blanks() {
    let text = " ab  c\u{2028}d e ";
    let joined: String = split_words(text).concat();
    assert_eq!(joined, "abcde");
    assert_eq!(split_words(text), text.split_whitespace().map(|w| w.to_string()).collect::<Vec<_>>());
}

#[test]
fn a_number_is_written_in_decimal_and_read_back() {
    assert_eq!(decimal_text(0), "0");
    assert_eq!(decimal_text(9), "9");
    assert_eq!(decimal_text(10), "10");
    assert_eq!(decimal_text(16777216), "16777216");
    assert_eq!(decimal_text(usize::MAX), usize::MAX.to_string());
    let f = vec![decimal_text(12045)];
    assert_eq!(decode_i32(&mut f.iter()).ok(), Some(12045));
    let g = vec![format!("-{}", decimal_text(12045))];
    assert_eq!(decode_i32(&mut g.iter()).ok(), Some(-12045));
}
