use opentelemetry_datadog_cloudflare::decimal::{
    i32_to_decimal, parse_i32, parse_u64, u64_to_decimal,
};
use opentelemetry_datadog_cloudflare::ident::{
    u128_from_be_bytes, u128_to_u64s, u64_from_be_bytes,
};
use opentelemetry_datadog_cloudflare::order::{key_order, KeyOrder};

#[test]
fn split_wide_identifier() {
    assert_eq!(u128_to_u64s(0), [0, 0]);
    assert_eq!(u128_to_u64s(1234), [0, 1234]);
    assert_eq!(u128_to_u64s((1234u128 << 64) + 5), [1234, 5]);
    assert_eq!(u128_to_u64s(u128::MAX), [u64::MAX, u64::MAX]);
    assert_eq!(
        u128_to_u64s(0x0102_0304_0506_0708_090a_0b0c_0d0e_0f10),
        [0x0102_0304_0506_0708, 0x090a_0b0c_0d0e_0f10]
    );
}

#[test]
fn narrowing_reads_the_leading_interchange_bytes() {
    let bytes: [u8; 16] = [1, 2, 3, 4, 5, 6, 7, 8, 9, 10, 11, 12, 13, 14, 15, 16];
    let wide = u128_from_be_bytes(&bytes);
    assert_eq!(wide, u128::from_be_bytes(bytes));
    let leading: [u8; 8] = [1, 2, 3, 4, 5, 6, 7, 8];
    let trailing: [u8; 8] = [9, 10, 11, 12, 13, 14, 15, 16];
    assert_eq!(u128_to_u64s(wide), [u64_from_be_bytes(&leading), u64_from_be_bytes(&trailing)]);
    assert_eq!(u64_from_be_bytes(&leading), 0x0102_0304_0506_0708);
    assert_eq!(u64_from_be_bytes(&[0xff; 8]), u64::MAX);
    assert_eq!(u128_from_be_bytes(&[0xff; 16]), u128::MAX);
}

#[test]
fn narrowing_collides_on_the_low_half() {
    let a = (9u128 << 64) + 1;
    let b = (9u128 << 64) + 2;
    assert_eq!(u128_to_u64s(a)[0], u128_to_u64s(b)[0]);
    assert_ne!(u128_to_u64s(a)[1], u128_to_u64s(b)[1]);
}

#[test]
fn parse_unsigned() {
    assert_eq!(parse_u64("0"), Some(0));
    assert_eq!(parse_u64("1234"), Some(1234));
    assert_eq!(parse_u64("+7"), Some(7));
    assert_eq!(parse_u64("007"), Some(7));
    assert_eq!(parse_u64("18446744073709551615"), Some(u64::MAX));
    assert_eq!(parse_u64("18446744073709551616"), None);
    assert_eq!(parse_u64("99999999999999999999999"), None);
    assert_eq!(parse_u64(""), None);
    assert_eq!(parse_u64("+"), None);
    assert_eq!(parse_u64("-1"), None);
    assert_eq!(parse_u64("12a"), None);
    assert_eq!(parse_u64(" 12"), None);
    assert_eq!(parse_u64("garbage"), None);
    assert_eq!(parse_u64("١٢"), None);
}

#[test]
fn parse_unsigned_agrees_with_std() {
    for text in ["0", "42", "+42", "-42", "", "+", "18446744073709551615", "18446744073709551616", "4 2", "0x10"] {
        assert_eq!(parse_u64(text), text.parse::<u64>().ok(), "{}", text);
    }
}

#[test]
fn parse_signed() {
    assert_eq!(parse_i32("0"), Some(0));
    assert_eq!(parse_i32("-0"), Some(0));
    assert_eq!(parse_i32("-1"), Some(-1));
    assert_eq!(parse_i32("+2"), Some(2));
    assert_eq!(parse_i32("2147483647"), Some(i32::MAX));
    assert_eq!(parse_i32("2147483648"), None);
    assert_eq!(parse_i32("-2147483648"), Some(i32::MIN));
    assert_eq!(parse_i32("-2147483649"), None);
    assert_eq!(parse_i32("-"), None);
    assert_eq!(parse_i32("+"), None);
    assert_eq!(parse_i32(""), None);
    assert_eq!(parse_i32("--1"), None);
    assert_eq!(parse_i32("1.0"), None);
}

#[test]
fn parse_signed_agrees_with_std() {
    for text in ["0", "-0", "+0", "-1", "2", "2147483647", "2147483648", "-2147483648", "-2147483649", "", "-", "+-1", "1e3"] {
        assert_eq!(parse_i32(text), text.parse::<i32>().ok(), "{}", text);
    }
}

#[test]
fn write_decimal() {
    assert_eq!(u64_to_decimal(0), "0");
    assert_eq!(u64_to_decimal(9), "9");
    assert_eq!(u64_to_decimal(10), "10");
    assert_eq!(u64_to_decimal(1234), "1234");
    assert_eq!(u64_to_decimal(u64::MAX), "18446744073709551615");
    assert_eq!(i32_to_decimal(0), "0");
    assert_eq!(i32_to_decimal(1), "1");
    assert_eq!(i32_to_decimal(-1), "-1");
    assert_eq!(i32_to_decimal(i32::MIN), "-2147483648");
    assert_eq!(i32_to_decimal(i32::MAX), "2147483647");
}

#[test]
fn decimal_round_trip() {
    for n in [0u64, 1, 9, 10, 99, 100, 1234, u64::MAX - 1, u64::MAX] {
        assert_eq!(parse_u64(&u64_to_decimal(n)), Some(n));
    }
    for n in [i32::MIN, -10, -1, 0, 1, 2, 10, i32::MAX] {
        assert_eq!(parse_i32(&i32_to_decimal(n)), Some(n));
    }
}

#[test]
fn key_order_is_the_order_of_strings() {
    assert_eq!(key_order("a", "b"), KeyOrder::Before);
    assert_eq!(key_order("b", "a"), KeyOrder::After);
    assert_eq!(key_order("a", "a"), KeyOrder::Same);
    assert_eq!(key_order("", ""), KeyOrder::Same);
    assert_eq!(key_order("", "a"), KeyOrder::Before);
    assert_eq!(key_order("ab", "a"), KeyOrder::After);
    assert_eq!(key_order("a", "ab"), KeyOrder::Before);
    assert_eq!(key_order("Z", "a"), KeyOrder::Before);
    assert_eq!(key_order("http.url", "http.method"), KeyOrder::After);
    let words = ["", "a", "ab", "b", "é", "z", "Z", "code.namespace", "code", "日本"];
    for a in words {
        for b in words {
            let expected = match a.cmp(b) {
                std::cmp::Ordering::Less => KeyOrder::Before,
                std::cmp::Ordering::Equal => KeyOrder::Same,
                std::cmp::Ordering::Greater => KeyOrder::After,
            };
            assert_eq!(key_order(a, b), expected, "{:?} {:?}", a, b);
        }
    }
}
