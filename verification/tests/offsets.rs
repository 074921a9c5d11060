use homogrape::offsets::{offsets_from_host, parse_chat_id};

#[test]
fn chat_id_from_decimal_text() {
    assert_eq!(parse_chat_id("0"), Some(0));
    assert_eq!(parse_chat_id("100"), Some(100));
    assert_eq!(parse_chat_id("-100"), Some(-100));
    assert_eq!(parse_chat_id("+100"), Some(100));
    assert_eq!(parse_chat_id("007"), Some(7));
    assert_eq!(parse_chat_id("-0"), Some(0));
    assert_eq!(parse_chat_id("-1001234567890"), Some(-1001234567890));
}

#[test]
fn chat_id_at_the_limits() {
    assert_eq!(parse_chat_id("9223372036854775807"), Some(i64::MAX));
    assert_eq!(parse_chat_id("-9223372036854775808"), Some(i64::MIN));
    assert_eq!(parse_chat_id("9223372036854775808"), None);
    assert_eq!(parse_chat_id("-9223372036854775809"), None);
    assert_eq!(parse_chat_id("99999999999999999999999999"), None);
    assert_eq!(parse_chat_id("00000000000000000000000001"), Some(1));
}

#[test]
fn chat_id_from_what_is_no_number() {
    for text in ["", "+", "-", "12a", "a12", " 12", "12 ", "1_000", "--1", "+-1", "1.0", "١٢"] {
        assert_eq!(parse_chat_id(text), None, "{:?}", text);
    }
}

#[test]
fn chat_id_agrees_with_the_standard_parser() {
    let texts = [
        "0", "-0", "+0", "5", "-5", "+5", "0005", "9223372036854775807", "9223372036854775808",
        "-9223372036854775808", "-9223372036854775809", "18446744073709551616", "", "+", "-",
        "x", "5x", "-x", "1-", "٣",
    ];
    for text in texts {
        assert_eq!(parse_chat_id(text), text.parse::<i64>().ok(), "{:?}", text);
    }
    for value in [i64::MIN, -1, 0, 1, 42, i64::MAX] {
        assert_eq!(parse_chat_id(&value.to_string()), Some(value));
    }
}

#[test]
fn offsets_by_chat_id() {
    let entries = vec![
        ("100".to_string(), 5),
        ("-200".to_string(), 9),
        ("100".to_string(), 7),
    ];
    let offsets = offsets_from_host(&entries).unwrap();
    assert_eq!(offsets.len(), 2);
    assert_eq!(offsets.get(&100).map(|e| *e), Some(7));
    assert_eq!(offsets.get(&-200).map(|e| *e), Some(9));
    assert!(offsets_from_host(&Vec::new()).unwrap().is_empty());
}

#[test]
fn offsets_with_a_key_that_is_no_chat_id() {
    let entries = vec![("100".to_string(), 5), ("chat".to_string(), 9)];
    assert!(offsets_from_host(&entries).is_none());
}
