use launchpad::wide::{checked_mul_div, checked_pow10, U256};

#[test]
fn mul_div_small_values() {
    assert_eq!(checked_mul_div(100, 100, 1000), Some(10));
    assert_eq!(checked_mul_div(7, 3, 2), Some(10));
    assert_eq!(checked_mul_div(0, 5, 9), Some(0));
}

#[test]
fn mul_div_rejects_zero_divisor() {
    assert_eq!(checked_mul_div(1, 1, 0), None);
    assert_eq!(checked_mul_div(0, 0, 0), None);
}

#[test]
fn mul_div_uses_all_256_bits() {
    let max = u128::MAX;
    assert_eq!(checked_mul_div(max, max, max), Some(max));
    assert_eq!(checked_mul_div(max, 2, 2), Some(max));
    assert_eq!(checked_mul_div(max, 2, 1), None);
    assert_eq!(checked_mul_div(max, max, max - 1), None);
    assert_eq!(checked_mul_div(max, max - 1, max), Some(max - 1));
    assert_eq!(checked_mul_div(1u128 << 127, 4, 8), Some(1u128 << 126));
    assert_eq!(checked_mul_div(1u128 << 100, 1u128 << 100, 1u128 << 73), Some(1u128 << 127));
    assert_eq!(checked_mul_div(1u128 << 100, 1u128 << 100, 1u128 << 72), None);
}

#[test]
fn mul_div_truncates() {
    assert_eq!(checked_mul_div(10, 5, 20), Some(2));
    assert_eq!(checked_mul_div(999, 1, 1000), Some(0));
    assert_eq!(checked_mul_div(u128::MAX, 3, 4), Some(255211775190703847597530955573826158591));
}

#[test]
fn product_of_two_words() {
    let p = U256::mul_u128(u128::MAX, u128::MAX);
    assert_eq!(p.hi, u128::MAX - 1);
    assert_eq!(p.lo, 1);
    let q = U256::mul_u128(1u128 << 64, 1u128 << 64);
    assert_eq!((q.hi, q.lo), (1, 0));
    let r = U256::mul_u128(3, 5);
    assert_eq!((r.hi, r.lo), (0, 15));
}

#[test]
fn quotient_of_wide_value() {
    let n = U256 { hi: 3, lo: 7 };
    let q = n.div_u128(1);
    assert_eq!((q.hi, q.lo), (3, 7));
    let q = n.div_u128(2);
    assert_eq!((q.hi, q.lo), (1, (1u128 << 127) + 3));
    let q = U256 { hi: u128::MAX, lo: u128::MAX }.div_u128(u128::MAX);
    assert_eq!((q.hi, q.lo), (1, 1));
}

#[test]
fn narrowing() {
    assert_eq!(U256::from_u128(42).as_u128(), Some(42));
    assert_eq!(U256 { hi: 0, lo: u128::MAX }.as_u128(), Some(u128::MAX));
    assert_eq!(U256 { hi: 1, lo: 0 }.as_u128(), None);
}

#[test]
fn powers_of_ten() {
    assert_eq!(checked_pow10(0), Some(1));
    assert_eq!(checked_pow10(2), Some(100));
    assert_eq!(checked_pow10(24), Some(1_000_000_000_000_000_000_000_000));
    assert_eq!(checked_pow10(38), Some(100_000_000_000_000_000_000_000_000_000_000_000_000));
    assert_eq!(checked_pow10(39), None);
    assert_eq!(checked_pow10(255), None);
}
