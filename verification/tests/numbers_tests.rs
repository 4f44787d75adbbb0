use harvest_client::numbers::{i64_to_dec, u64_to_dec};

#[test]
fn unsigned_rendering_is_exact() {
    assert_eq!(u64_to_dec(0), "0");
    assert_eq!(u64_to_dec(7), "7");
    assert_eq!(u64_to_dec(10), "10");
    assert_eq!(u64_to_dec(409), "409");
    assert_eq!(u64_to_dec(18446744073709551615), "18446744073709551615");
}

#[test]
fn signed_rendering_is_exact() {
    assert_eq!(i64_to_dec(0), "0");
    assert_eq!(i64_to_dec(42), "42");
    assert_eq!(i64_to_dec(-1), "-1");
    assert_eq!(i64_to_dec(-1000), "-1000");
    assert_eq!(i64_to_dec(9223372036854775807), "9223372036854775807");
    assert_eq!(i64_to_dec(-9223372036854775808), "-9223372036854775808");
}
