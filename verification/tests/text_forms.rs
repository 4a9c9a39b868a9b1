use rocketmq_remoting::text::format_bool;
use rocketmq_remoting::text::format_i32;
use rocketmq_remoting::text::format_i64;
use rocketmq_remoting::text::format_u32;
use rocketmq_remoting::text::format_u64;
use rocketmq_remoting::text::parse_bool;
use rocketmq_remoting::text::parse_i32;
use rocketmq_remoting::text::parse_i64;
use rocketmq_remoting::text::parse_u32;

#[test]
fn formats_are_canonical_base_ten() {
    assert_eq!(format_u64(0), "0");
    assert_eq!(format_u64(18446744073709551615), "18446744073709551615");
    assert_eq!(format_i64(-5), "-5");
    assert_eq!(format_i64(i64::MIN), "-9223372036854775808");
    assert_eq!(format_i64(i64::MAX), "9223372036854775807");
    assert_eq!(format_i32(-2147483648), "-2147483648");
    assert_eq!(format_u32(4294967295), "4294967295");
    assert_eq!(format_bool(true), "true");
    assert_eq!(format_bool(false), "false");
}

#[test]
fn parse_i64_accepts_signed_decimal_text() {
    assert_eq!(parse_i64("0"), Some(0));
    assert_eq!(parse_i64("+5"), Some(5));
    assert_eq!(parse_i64("-0"), Some(0));
    assert_eq!(parse_i64("007"), Some(7));
    assert_eq!(parse_i64("9223372036854775807"), Some(i64::MAX));
    assert_eq!(parse_i64("-9223372036854775808"), Some(i64::MIN));
}

#[test]
fn parse_i64_rejects_malformed_or_overflowing_text() {
    assert_eq!(parse_i64(""), None);
    assert_eq!(parse_i64("-"), None);
    assert_eq!(parse_i64("+"), None);
    assert_eq!(parse_i64("12a"), None);
    assert_eq!(parse_i64(" 1"), None);
    assert_eq!(parse_i64("9223372036854775808"), None);
    assert_eq!(parse_i64("-9223372036854775809"), None);
    assert_eq!(parse_i64("92233720368547758070000"), None);
}

#[test]
fn parse_i32_observes_its_own_range() {
    assert_eq!(parse_i32("2147483647"), Some(i32::MAX));
    assert_eq!(parse_i32("-2147483648"), Some(i32::MIN));
    assert_eq!(parse_i32("2147483648"), None);
    assert_eq!(parse_i32("-2147483649"), None);
}

#[test]
fn parse_u32_rejects_any_minus_sign() {
    assert_eq!(parse_u32("0"), Some(0));
    assert_eq!(parse_u32("+7"), Some(7));
    assert_eq!(parse_u32("-0"), None);
    assert_eq!(parse_u32("-1"), None);
    assert_eq!(parse_u32("4294967295"), Some(u32::MAX));
    assert_eq!(parse_u32("4294967296"), None);
}

#[test]
fn parse_bool_accepts_only_canonical_text() {
    assert_eq!(parse_bool("true"), Some(true));
    assert_eq!(parse_bool("false"), Some(false));
    assert_eq!(parse_bool("TRUE"), None);
    assert_eq!(parse_bool("maybe"), None);
    assert_eq!(parse_bool(""), None);
}

#[test]
fn round_trips_on_sample_values() {
    for v in [i64::MIN, -1000000007, -1, 0, 1, 42, i64::MAX] {
        assert_eq!(parse_i64(&format_i64(v)), Some(v));
    }
    for v in [i32::MIN, -7, 0, 9, i32::MAX] {
        assert_eq!(parse_i32(&format_i32(v)), Some(v));
    }
    for v in [0u32, 1, 808464432, u32::MAX] {
        assert_eq!(parse_u32(&format_u32(v)), Some(v));
    }
    assert_eq!(parse_bool(&format_bool(true)), Some(true));
    assert_eq!(parse_bool(&format_bool(false)), Some(false));
}
