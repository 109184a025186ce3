use chaum_pedersen::Natural;
use num_bigint::BigUint;

fn big(v: &Natural) -> BigUint {
    BigUint::from_bytes_be(&v.to_bytes_be())
}

#[test]
fn from_u64_keeps_the_value() {
    assert_eq!(big(&Natural::from_u64(0)), BigUint::from(0u32));
    assert_eq!(big(&Natural::from_u64(4294967296)), BigUint::from(4294967296u64));
    assert_eq!(big(&Natural::from_u64(u64::MAX)), BigUint::from(u64::MAX));
    assert_eq!(big(&Natural::zero()), BigUint::from(0u32));
}

#[test]
fn big_endian_bytes_round_trip() {
    let v = Natural::from_bytes_be(&[4, 101]);
    assert_eq!(big(&v), BigUint::from(1125u32));
    assert_eq!(v.to_bytes_be(), vec![4, 101]);
    assert_eq!(big(&Natural::from_bytes_be(&[])), BigUint::from(0u32));
    assert_eq!(big(&Natural::from_bytes_be(&[0, 0, 1])), BigUint::from(1u32));
}

#[test]
fn arithmetic_is_exact() {
    let a = Natural::from_u64(u64::MAX);
    let b = Natural::from_u64(1000);
    assert_eq!(big(&a.times(&b)), BigUint::from(u64::MAX) * BigUint::from(1000u32));
    assert_eq!(big(&a.minus(&b)), BigUint::from(u64::MAX - 1000));
    assert_eq!(big(&a.rem(&b)), BigUint::from(u64::MAX % 1000));
    let m = Natural::from_u64(23);
    assert_eq!(big(&Natural::from_u64(4).mod_pow(&Natural::from_u64(7), &m)), BigUint::from(8u32));
    assert!(a.at_least(&b));
    assert!(!b.at_least(&a));
    assert!(b.same_value(&Natural::from_u64(1000)));
    assert!(!b.same_value(&a));
    assert_eq!(big(&a.duplicate()), BigUint::from(u64::MAX));
}

#[test]
fn random_below_stays_below() {
    let bound = Natural::from_u64(7);
    for _ in 0..50 {
        assert!(big(&Natural::random_below(&bound)) < BigUint::from(7u32));
    }
}
