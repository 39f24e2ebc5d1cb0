use sdui::text::{bool_to_str, i32_to_string, parse_u64, same_text, u64_to_string};

#[test]
fn numbers_are_read_as_the_standard_library_reads_them() {
    let texts = [
        "0", "7", "42", "007", "+5", "+0", "+", "-", "-5", "", " 5", "5 ", "5a", "a5", "1_000",
        "18446744073709551615", "18446744073709551616", "+18446744073709551615",
        "28446744073709551615", "99999999999999999999", "000000000000000000000000000001",
        "++5", "+-5", "5+", "٣", "1.5", "0x10", "184467440737095516150", "1844674407370955161",
    ];
    for text in texts {
        assert_eq!(parse_u64(text), text.parse::<u64>().ok(), "reading {:?}", text);
    }
}

#[test]
fn reading_gives_exact_values() {
    assert_eq!(parse_u64("60"), Some(60));
    assert_eq!(parse_u64("+60"), Some(60));
    assert_eq!(parse_u64("18446744073709551615"), Some(u64::MAX));
    assert_eq!(parse_u64("18446744073709551616"), None);
    assert_eq!(parse_u64(""), None);
    assert_eq!(parse_u64("+"), None);
    assert_eq!(parse_u64("six"), None);
}

#[test]
fn numbers_are_written_in_decimal() {
    for n in [0u64, 1, 9, 10, 11, 99, 100, 101, 12345, 86400, u64::MAX, u64::MAX - 1] {
        assert_eq!(u64_to_string(n), n.to_string());
    }
    assert_eq!(u64_to_string(1203), "1203");
    for i in [0i32, 1, -1, 9, -9, 10, -10, 2022, -2022, i32::MAX, i32::MIN] {
        assert_eq!(i32_to_string(i), i.to_string());
    }
    assert_eq!(i32_to_string(-44), "-44");
}

#[test]
fn written_numbers_are_read_back() {
    for n in [0u64, 5, 10, 999, 1 << 40, u64::MAX] {
        assert_eq!(parse_u64(&u64_to_string(n)), Some(n));
    }
}

#[test]
fn texts_compare_by_their_characters() {
    assert!(same_text("", ""));
    assert!(same_text("BREAK", "BREAK"));
    assert!(!same_text("BREAK", "BREAKS"));
    assert!(!same_text("BREAKS", "BREAK"));
    assert!(!same_text("BREAK", "BREAD"));
    assert!(!same_text("", "x"));
    assert!(same_text("grüße", "grüße"));
    assert!(!same_text("grüße", "grüsse"));
}

#[test]
fn truth_values_are_written_as_words() {
    assert_eq!(bool_to_str(true), "true");
    assert_eq!(bool_to_str(false), "false");
}
