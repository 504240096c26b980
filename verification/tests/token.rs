use boteg::{parse_unsigned, CallbackData};

fn token(command: &str, message_id: Option<u64>) -> CallbackData {
    CallbackData { command: command.to_string(), message_id }
}

#[test]
fn payload_with_origin_decodes() {
    assert_eq!(CallbackData::decode("more/99"), Some(token("more", Some(99))));
}

#[test]
fn payload_without_slash_is_the_name() {
    assert_eq!(CallbackData::decode("exchanges"), Some(token("exchanges", None)));
    assert_eq!(CallbackData::decode(""), Some(token("", None)));
}

#[test]
fn payload_splits_at_the_first_slash() {
    assert_eq!(CallbackData::decode("/7"), Some(token("", Some(7))));
    assert_eq!(CallbackData::decode("a/1/2"), None);
    assert_eq!(CallbackData::decode("a//2"), None);
}

#[test]
fn payload_with_a_bad_number_is_malformed() {
    assert_eq!(CallbackData::decode("more/"), None);
    assert_eq!(CallbackData::decode("more/x"), None);
    assert_eq!(CallbackData::decode("more/-1"), None);
    assert_eq!(CallbackData::decode("more/1 "), None);
    assert_eq!(CallbackData::decode("more/1.5"), None);
}

#[test]
fn payload_number_reaches_the_largest_and_no_further() {
    assert_eq!(
        CallbackData::decode("more/18446744073709551615"),
        Some(token("more", Some(u64::MAX)))
    );
    assert_eq!(CallbackData::decode("more/18446744073709551616"), None);
    assert_eq!(CallbackData::decode("more/99999999999999999999999"), None);
}

#[test]
fn encode_writes_name_slash_number() {
    assert_eq!(token("more", Some(99)).encode(), "more/99");
    assert_eq!(token("more", Some(0)).encode(), "more/0");
    assert_eq!(token("more", Some(10)).encode(), "more/10");
    assert_eq!(token("exchanges", None).encode(), "exchanges");
    assert_eq!(token("m", Some(u64::MAX)).encode(), "m/18446744073709551615");
}

#[test]
fn token_round_trips_without_origin() {
    for name in ["", "test", "exchanges", "кнопка", "a b"] {
        let written = token(name, None);
        assert_eq!(CallbackData::decode(&written.encode()), Some(written));
    }
}

#[test]
fn token_round_trips_with_origin() {
    let numbers = [0u64, 1, 9, 10, 11, 99, 100, 12345, 1 << 32, u64::MAX - 1, u64::MAX];
    for name in ["", "test", "кнопка"] {
        for number in numbers {
            let written = token(name, Some(number));
            assert_eq!(CallbackData::decode(&written.encode()), Some(written));
        }
    }
}

#[test]
fn name_with_a_slash_does_not_round_trip() {
    let written = token("a/b", Some(1));
    assert_eq!(written.encode(), "a/b/1");
    assert_eq!(CallbackData::decode("a/b/1"), None);
}

#[test]
fn unsigned_numbers_parse() {
    assert_eq!(parse_unsigned("0"), Some(0));
    assert_eq!(parse_unsigned("007"), Some(7));
    assert_eq!(parse_unsigned("+5"), Some(5));
    assert_eq!(parse_unsigned("1234567890"), Some(1234567890));
    assert_eq!(parse_unsigned("18446744073709551615"), Some(u64::MAX));
}

#[test]
fn other_text_is_no_unsigned_number() {
    assert_eq!(parse_unsigned(""), None);
    assert_eq!(parse_unsigned("+"), None);
    assert_eq!(parse_unsigned("++5"), None);
    assert_eq!(parse_unsigned("-5"), None);
    assert_eq!(parse_unsigned("5+"), None);
    assert_eq!(parse_unsigned("1_000"), None);
    assert_eq!(parse_unsigned(" 1"), None);
    assert_eq!(parse_unsigned("١٢"), None);
    assert_eq!(parse_unsigned("18446744073709551616"), None);
}

#[test]
fn unsigned_numbers_parse_as_the_standard_library_does() {
    let samples = [
        "", "+", "0", "+0", "-0", "00", "9", "10", "+10", "1e3", "0x10", "18446744073709551615",
        "18446744073709551616", "184467440737095516150", "+18446744073709551615", "12a", "a12",
    ];
    for sample in samples {
        assert_eq!(parse_unsigned(sample), sample.parse::<u64>().ok());
    }
}
