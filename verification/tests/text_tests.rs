use solar_telemetry::text::{
    chars_to_string, i64_dec_chars, parse_i64_chars, parse_u64_chars, str_chars, u128_hex32_chars,
    u64_dec_chars,
};

fn parse_u64(s: &str) -> Option<u64> {
    parse_u64_chars(&str_chars(s))
}

fn parse_i64(s: &str) -> Option<i64> {
    parse_i64_chars(&str_chars(s))
}

#[test]
fn unsigned_parsing_accepts_canonical_decimals_only() {
    assert_eq!(parse_u64("0"), Some(0));
    assert_eq!(parse_u64("2"), Some(2));
    assert_eq!(parse_u64("18446744073709551615"), Some(u64::MAX));
    assert_eq!(parse_u64("18446744073709551616"), None);
    assert_eq!(parse_u64(""), None);
    assert_eq!(parse_u64("007"), None);
    assert_eq!(parse_u64("2.0"), None);
    assert_eq!(parse_u64("-2"), None);
    assert_eq!(parse_u64("1e3"), None);
    assert_eq!(parse_u64("twelve"), None);
}

#[test]
fn signed_parsing_handles_both_signs_and_the_extremes() {
    assert_eq!(parse_i64("0"), Some(0));
    assert_eq!(parse_i64("-12"), Some(-12));
    assert_eq!(parse_i64("9223372036854775807"), Some(i64::MAX));
    assert_eq!(parse_i64("9223372036854775808"), None);
    assert_eq!(parse_i64("-9223372036854775808"), Some(i64::MIN));
    assert_eq!(parse_i64("-9223372036854775809"), None);
    assert_eq!(parse_i64("-"), None);
    assert_eq!(parse_i64("-1.5"), None);
}

#[test]
fn decimal_rendering_is_canonical() {
    assert_eq!(chars_to_string(&u64_dec_chars(0)), "0");
    assert_eq!(chars_to_string(&u64_dec_chars(1234)), "1234");
    assert_eq!(chars_to_string(&u64_dec_chars(u64::MAX)), "18446744073709551615");
    assert_eq!(chars_to_string(&i64_dec_chars(-200)), "-200");
    assert_eq!(chars_to_string(&i64_dec_chars(0)), "0");
    assert_eq!(chars_to_string(&i64_dec_chars(i64::MIN)), "-9223372036854775808");
}

#[test]
fn rendering_and_parsing_round_trip() {
    for n in [0u64, 1, 9, 10, 99, 12345, u64::MAX] {
        let text = chars_to_string(&u64_dec_chars(n));
        assert_eq!(parse_u64(&text), Some(n));
    }
    for n in [0i64, -1, 42, -9000, i64::MIN, i64::MAX] {
        let text = chars_to_string(&i64_dec_chars(n));
        assert_eq!(parse_i64(&text), Some(n));
    }
}

#[test]
fn hex_rendering_is_fixed_width_lowercase() {
    assert_eq!(
        chars_to_string(&u128_hex32_chars(u128::MAX)),
        "ffffffffffffffffffffffffffffffff",
    );
    assert_eq!(
        chars_to_string(&u128_hex32_chars(1)),
        "00000000000000000000000000000001",
    );
    assert_eq!(
        chars_to_string(&u128_hex32_chars(0xdead_beef)),
        "000000000000000000000000deadbeef",
    );
    assert_eq!(format!("{:032x}", 0xdead_beefu128), chars_to_string(&u128_hex32_chars(0xdead_beef)));
}
