use microservice::domain::CodecError;
use microservice::form::{decode_new_message, decode_time_range};
use microservice::numfmt::i64_to_string;
use microservice::numparse::{parse_i64, IntParseError};

fn codec_error_parts(e: &CodecError) -> (&str, &str) {
    match e {
        CodecError::InvalidInput { field, detail } => (field.as_str(), detail.as_str()),
    }
}

#[test]
fn decode_new_message_ok() {
    let m = decode_new_message(b"username=alice&message=hi").unwrap();
    assert_eq!(m.username, "alice");
    assert_eq!(m.message, "hi");
}

#[test]
fn decode_new_message_last_value_wins() {
    let m = decode_new_message(b"username=a&message=m1&message=m2&username=b").unwrap();
    assert_eq!(m.username, "b");
    assert_eq!(m.message, "m2");
}

#[test]
fn decode_new_message_missing_username() {
    let e = decode_new_message(b"message=hi").unwrap_err();
    let (field, detail) = codec_error_parts(&e);
    assert_eq!(field, "username");
    assert_eq!(detail, "Invalid form data");
}

#[test]
fn decode_new_message_missing_message() {
    let e = decode_new_message(b"username=x").unwrap_err();
    let (field, detail) = codec_error_parts(&e);
    assert_eq!(field, "message");
    assert_eq!(detail, "Invalid form data");
}

#[test]
fn decode_new_message_empty_body() {
    let e = decode_new_message(b"").unwrap_err();
    let (field, _) = codec_error_parts(&e);
    assert_eq!(field, "message");
}

#[test]
fn decode_new_message_percent_and_plus_decoded() {
    let m = decode_new_message(b"username=a%26b&message=hi+there").unwrap();
    assert_eq!(m.username, "a&b");
    assert_eq!(m.message, "hi there");
}

#[test]
fn decode_time_range_empty_query() {
    let tr = decode_time_range("").unwrap();
    assert_eq!(tr.before, None);
    assert_eq!(tr.after, None);
}

#[test]
fn decode_time_range_unrelated_keys() {
    let tr = decode_time_range("foo=bar&baz=7").unwrap();
    assert_eq!(tr.before, None);
    assert_eq!(tr.after, None);
}

#[test]
fn decode_time_range_both_bounds() {
    let tr = decode_time_range("before=100&after=-5").unwrap();
    assert_eq!(tr.before, Some(100));
    assert_eq!(tr.after, Some(-5));
}

#[test]
fn decode_time_range_last_value_wins() {
    let tr = decode_time_range("before=1&before=2").unwrap();
    assert_eq!(tr.before, Some(2));
}

#[test]
fn decode_time_range_bad_before() {
    let e = decode_time_range("before=abc").unwrap_err();
    let (field, detail) = codec_error_parts(&e);
    assert_eq!(field, "before");
    assert_eq!(detail, "Error parsing 'before': invalid digit found in string");
}

#[test]
fn decode_time_range_bad_after_overflow() {
    let e = decode_time_range("after=9999999999999999999999").unwrap_err();
    let (field, detail) = codec_error_parts(&e);
    assert_eq!(field, "after");
    assert_eq!(
        detail,
        "Error parsing 'after': number too large to fit in target type"
    );
}

#[test]
fn decode_time_range_before_checked_first() {
    let e = decode_time_range("after=x&before=y").unwrap_err();
    let (field, _) = codec_error_parts(&e);
    assert_eq!(field, "before");
}

#[test]
fn decode_time_range_percent_encoded_digits() {
    let tr = decode_time_range("before=%31%32").unwrap();
    assert_eq!(tr.before, Some(12));
}

#[test]
fn decode_time_range_encoded_plus_sign() {
    let tr = decode_time_range("before=%2B5").unwrap();
    assert_eq!(tr.before, Some(5));
}

#[test]
fn parse_i64_values() {
    assert_eq!(parse_i64("0"), Ok(0));
    assert_eq!(parse_i64("42"), Ok(42));
    assert_eq!(parse_i64("+17"), Ok(17));
    assert_eq!(parse_i64("-7"), Ok(-7));
    assert_eq!(parse_i64("9223372036854775807"), Ok(i64::MAX));
    assert_eq!(parse_i64("-9223372036854775808"), Ok(i64::MIN));
    assert_eq!(parse_i64("007"), Ok(7));
}

#[test]
fn parse_i64_errors() {
    assert_eq!(parse_i64(""), Err(IntParseError::Empty));
    assert_eq!(parse_i64("+"), Err(IntParseError::InvalidDigit));
    assert_eq!(parse_i64("-"), Err(IntParseError::InvalidDigit));
    assert_eq!(parse_i64("12x"), Err(IntParseError::InvalidDigit));
    assert_eq!(parse_i64(" 1"), Err(IntParseError::InvalidDigit));
    assert_eq!(
        parse_i64("9223372036854775808"),
        Err(IntParseError::PosOverflow)
    );
    assert_eq!(
        parse_i64("-9223372036854775809"),
        Err(IntParseError::NegOverflow)
    );
}

#[test]
fn parse_i64_matches_std() {
    for s in [
        "0",
        "12",
        "-7",
        "+17",
        "",
        "+",
        "-",
        "12x",
        "9223372036854775807",
        "9223372036854775808",
        "-9223372036854775808",
        "-9223372036854775809",
        "00",
        "x",
    ] {
        let ours = parse_i64(s);
        let std = s.parse::<i64>();
        match (ours, std) {
            (Ok(a), Ok(b)) => assert_eq!(a, b, "value for {:?}", s),
            (Err(e), Err(se)) => {
                let text = match e {
                    IntParseError::Empty => "cannot parse integer from empty string",
                    IntParseError::InvalidDigit => "invalid digit found in string",
                    IntParseError::PosOverflow => "number too large to fit in target type",
                    IntParseError::NegOverflow => "number too small to fit in target type",
                };
                assert_eq!(text, se.to_string(), "error text for {:?}", s);
            }
            (a, b) => panic!("mismatch for {:?}: ours {:?}, std {:?}", s, a, b),
        }
    }
}

#[test]
fn i64_to_string_values() {
    assert_eq!(i64_to_string(0), "0");
    assert_eq!(i64_to_string(-1), "-1");
    assert_eq!(i64_to_string(1625247600), "1625247600");
    assert_eq!(i64_to_string(i64::MAX), "9223372036854775807");
    assert_eq!(i64_to_string(i64::MIN), "-9223372036854775808");
}
