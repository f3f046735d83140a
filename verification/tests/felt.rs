use state_adapter::felt::Felt;

/// The digits of the field's order, `2^251 + 17 * 2^192 + 1`.
const PRIME_DIGITS: [u64; 4] = [0x0800_0000_0000_0011, 0, 0, 1];

#[test]
fn from_u64_and_back() {
    for value in [0u64, 1, 2, 15, 16, 255, 103_129, u64::MAX - 1, u64::MAX] {
        assert_eq!(Felt::from_u64(value).to_u64(), Some(value));
        assert_eq!(Felt::from_u64(value).to_be_digits(), [0, 0, 0, value]);
    }
}

#[test]
fn to_u64_refuses_what_does_not_fit() {
    for digits in [[0u64, 0, 1, 0], [0, 1, 0, 0], [1, 0, 0, 0], [0, 0, 1, 5], [0, 0, u64::MAX, u64::MAX]] {
        let felt = Felt::from_be_digits(digits).unwrap();
        assert_eq!(felt.to_u64(), None);
    }
    assert_eq!(Felt::from_be_digits([0, 0, 0, u64::MAX]).unwrap().to_u64(), Some(u64::MAX));
}

#[test]
fn digits_round_trip() {
    for digits in [
        [0u64, 0, 0, 0],
        [0, 0, 0, 1],
        [0, 0, 7, 0],
        [1, 2, 3, 4],
        [0x0800_0000_0000_0010, u64::MAX, u64::MAX, u64::MAX],
        [0x0800_0000_0000_0011, 0, 0, 0],
    ] {
        assert_eq!(Felt::from_be_digits(digits).unwrap().to_be_digits(), digits);
    }
}

#[test]
fn digits_from_the_order_on_are_refused() {
    assert!(Felt::from_be_digits([0x0800_0000_0000_0011, 0, 0, 0]).is_some());
    assert!(Felt::from_be_digits(PRIME_DIGITS).is_none());
    assert!(Felt::from_be_digits([0x0800_0000_0000_0011, 0, 0, 2]).is_none());
    assert!(Felt::from_be_digits([0x0800_0000_0000_0011, 0, 1, 0]).is_none());
    assert!(Felt::from_be_digits([0x0800_0000_0000_0011, 1, 0, 0]).is_none());
    assert!(Felt::from_be_digits([0x0800_0000_0000_0012, 0, 0, 0]).is_none());
    assert!(Felt::from_be_digits([u64::MAX, u64::MAX, u64::MAX, u64::MAX]).is_none());
}

#[test]
fn equal_elements_have_equal_digits() {
    let a = Felt::from_be_digits([0, 0, 0, 9]).unwrap();
    let b = Felt::from_u64(9);
    assert_eq!(a, b);
    assert_ne!(a, Felt::from_u64(10));
    assert_ne!(Felt::from_be_digits([0, 0, 1, 9]).unwrap(), b);
}

#[test]
fn only_zero_is_zero() {
    assert!(Felt::from_u64(0).is_zero());
    assert!(!Felt::from_u64(1).is_zero());
    assert!(!Felt::from_be_digits([0, 0, 1, 0]).unwrap().is_zero());
    assert!(!Felt::from_be_digits([0, 1, 0, 0]).unwrap().is_zero());
    assert!(!Felt::from_be_digits([1, 0, 0, 0]).unwrap().is_zero());
}

#[test]
fn hex_strings() {
    assert_eq!(Felt::from_u64(0).to_hex_string(), "0x0");
    assert_eq!(Felt::from_u64(1).to_hex_string(), "0x1");
    assert_eq!(Felt::from_u64(10).to_hex_string(), "0xa");
    assert_eq!(Felt::from_u64(16).to_hex_string(), "0x10");
    assert_eq!(Felt::from_u64(255).to_hex_string(), "0xff");
    assert_eq!(Felt::from_u64(0x1234_5678_9abc_def0).to_hex_string(), "0x123456789abcdef0");
    assert_eq!(Felt::from_u64(u64::MAX).to_hex_string(), "0xffffffffffffffff");
    assert_eq!(
        Felt::from_be_digits([0, 0, 1, 0]).unwrap().to_hex_string(),
        "0x10000000000000000"
    );
    assert_eq!(
        Felt::from_be_digits([0, 0xab, 0, 0xc]).unwrap().to_hex_string(),
        "0xab0000000000000000000000000000000c"
    );
    assert_eq!(
        Felt::from_be_digits([0x0800_0000_0000_0011, 0, 0, 0]).unwrap().to_hex_string(),
        "0x800000000000011000000000000000000000000000000000000000000000000"
    );
}

#[test]
fn felt_decimal_strings() {
    assert_eq!(Felt::from_u64(0).to_decimal_string(), "0");
    assert_eq!(Felt::from_u64(9).to_decimal_string(), "9");
    assert_eq!(Felt::from_u64(10).to_decimal_string(), "10");
    assert_eq!(Felt::from_u64(103_129).to_decimal_string(), "103129");
    assert_eq!(Felt::from_u64(u64::MAX).to_decimal_string(), "18446744073709551615");
    assert_eq!(
        Felt::from_be_digits([0, 0, 1, 0]).unwrap().to_decimal_string(),
        "18446744073709551616"
    );
    assert_eq!(
        Felt::from_be_digits([0, 0, u64::MAX, u64::MAX]).unwrap().to_decimal_string(),
        u128::MAX.to_string()
    );
    assert_eq!(
        Felt::from_be_digits([0x0800_0000_0000_0011, 0, 0, 0]).unwrap().to_decimal_string(),
        "3618502788666131213697322783095070105623107215331596699973092056135872020480"
    );
}
