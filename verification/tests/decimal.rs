use totpgen::decimal::{format_decimal, format_padded, pow10_u64};

#[test]
fn powers_of_ten() {
    assert_eq!(pow10_u64(0), 1);
    assert_eq!(pow10_u64(1), 10);
    assert_eq!(pow10_u64(6), 1_000_000);
    assert_eq!(pow10_u64(19), 10_000_000_000_000_000_000);
}

#[test]
fn padded_to_the_width() {
    assert_eq!(format_padded(909, 6), "000909");
    assert_eq!(format_padded(909468, 6), "909468");
    assert_eq!(format_padded(0, 1), "0");
    assert_eq!(format_padded(0, 4), "0000");
    assert_eq!(format_padded(7, 1), "7");
}

#[test]
fn padded_keeps_the_low_digits() {
    assert_eq!(format_padded(12345, 3), "345");
    assert_eq!(format_padded(12345, 0), "");
    assert_eq!(format_padded(1000, 3), "000");
}

#[test]
fn padded_wider_than_any_number() {
    assert_eq!(format_padded(u64::MAX, 20), "18446744073709551615");
    assert_eq!(format_padded(u64::MAX, 25), "0000018446744073709551615");
    assert_eq!(format_padded(1, 21), "000000000000000000001");
}

#[test]
fn padded_agrees_with_std() {
    for value in [0u64, 9, 10, 99, 2_147_483_647, 1_817_909_468] {
        for width in 10usize..=19 {
            assert_eq!(format_padded(value, width), format!("{:01$}", value, width));
        }
    }
}

#[test]
fn decimal_without_leading_zeros() {
    assert_eq!(format_decimal(0), "0");
    assert_eq!(format_decimal(9), "9");
    assert_eq!(format_decimal(10), "10");
    assert_eq!(format_decimal(30), "30");
    assert_eq!(format_decimal(1_000_000), "1000000");
    assert_eq!(format_decimal(u64::MAX), "18446744073709551615");
}
