use hww_api::ethereum::amount::Amount;
use num_bigint::BigUint;

fn format(unit: &str, decimals: usize, value: &[u8]) -> String {
    Amount {
        unit,
        decimals,
        value: BigUint::from_bytes_be(value),
    }
    .format()
}

#[test]
fn format_transfer_value() {
    assert_eq!(
        format("ETH", 18, b"\x07\x5c\xf1\x25\x9e\x9c\x40\x00"),
        "0.530564 ETH"
    );
}

#[test]
fn format_fee_and_total() {
    let gas_price = BigUint::from_bytes_be(b"\x01\x65\xa0\xbc\x00");
    let gas_limit = BigUint::from_bytes_be(b"\x52\x08");
    let fee = gas_price * gas_limit;
    let value = BigUint::from_bytes_be(b"\x07\x5c\xf1\x25\x9e\x9c\x40\x00");
    let total = &value + &fee;
    assert_eq!(
        Amount { unit: "ETH", decimals: 18, value: fee }.format(),
        "0.000126 ETH"
    );
    assert_eq!(
        Amount { unit: "ETH", decimals: 18, value: total }.format(),
        "0.53069 ETH"
    );
}

#[test]
fn format_zero() {
    assert_eq!(format("ETH", 18, b""), "0 ETH");
    assert_eq!(format("ETH", 0, b""), "0 ETH");
    assert_eq!(format("ETH", 0, b"\x00\x00"), "0 ETH");
}

#[test]
fn format_without_decimals() {
    assert_eq!(format("LOL", 0, b"\x01\x00"), "256 LOL");
    assert_eq!(format("LOL", 0, b"\x0a"), "10 LOL");
}

#[test]
fn format_whole_numbers_drop_the_fraction() {
    assert_eq!(format("USDT", 6, b"\x03\x65\xc0\x40"), "57 USDT");
    assert_eq!(format("LOL", 2, b"\x64"), "1 LOL");
    assert_eq!(format("LOL", 2, b"\x03\xe8"), "10 LOL");
}

#[test]
fn format_trims_trailing_zeros_only() {
    assert_eq!(format("LOL", 3, b"\x01\xe2\x3a"), "123.45 LOL");
    assert_eq!(format("LOL", 4, b"\x27\x74"), "1.01 LOL");
    assert_eq!(format("LOL", 2, b"\x0a"), "0.1 LOL");
    assert_eq!(format("LOL", 2, b"\x01"), "0.01 LOL");
    assert_eq!(format("LOL", 1, b"\x65"), "10.1 LOL");
}

#[test]
fn format_smallest_unit() {
    assert_eq!(format("ETH", 18, b"\x01"), "0.000000000000000001 ETH");
}

#[test]
fn format_beyond_machine_words() {
    // 2^128
    let mut value = vec![0u8; 17];
    value[0] = 1;
    assert_eq!(
        format("ETH", 18, &value),
        "340282366920938463463.374607431768211456 ETH"
    );
    // 2^256 - 1
    assert_eq!(
        format("ETH", 18, &[0xff; 32]),
        "115792089237316195423570985008687907853269984665640564039457.584007913129639935 ETH"
    );
}

#[test]
fn format_more_decimals_than_digits() {
    assert_eq!(format("X", 5, b"\x7b"), "0.00123 X");
    assert_eq!(format("X", 3, b"\x7b"), "0.123 X");
    assert_eq!(format("X", 2, b"\x7b"), "1.23 X");
}

#[test]
fn format_empty_unit() {
    assert_eq!(format("", 1, b"\x0f"), "1.5 ");
}
