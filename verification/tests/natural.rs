use ic_cdk::export::candid::Nat;
use num_bigint::BigUint;
use tracked_counter::natural::Natural;

#[test]
fn from_u64_gives_big_endian_bytes() {
    assert_eq!(Natural::from_u64(0).to_bytes_be(), vec![0]);
    assert_eq!(Natural::from_u64(5).to_bytes_be(), vec![5]);
    assert_eq!(Natural::from_u64(255).to_bytes_be(), vec![255]);
    assert_eq!(Natural::from_u64(256).to_bytes_be(), vec![1, 0]);
    assert_eq!(Natural::from_u64(258).to_bytes_be(), vec![1, 2]);
    assert_eq!(Natural::from_u64(0x0102_0304_0506_0708).to_bytes_be(), vec![1, 2, 3, 4, 5, 6, 7, 8]);
    assert_eq!(Natural::from_u64(u64::MAX).to_bytes_be(), vec![255; 8]);
}

#[test]
fn to_u64_reads_big_endian_bytes() {
    assert_eq!(Natural::from_bytes_be(vec![1, 2]).to_u64(), Some(258));
    assert_eq!(Natural::from_bytes_be(vec![1, 0]).to_u64(), Some(256));
    assert_eq!(Natural::from_bytes_be(vec![2, 1]).to_u64(), Some(513));
    assert_eq!(Natural::from_bytes_be(vec![255; 8]).to_u64(), Some(u64::MAX));
}

#[test]
fn to_u64_of_a_large_number_is_none() {
    assert_eq!(Natural::from_bytes_be(vec![1, 0, 0, 0, 0, 0, 0, 0, 0]).to_u64(), None);
    assert_eq!(Natural::from_bytes_be(vec![255; 9]).to_u64(), None);
    assert_eq!(Natural::from_bytes_be(vec![7; 40]).to_u64(), None);
}

#[test]
fn u64_round_trip() {
    for value in [0u64, 1, 5, 255, 256, 65_535, 65_536, 1 << 40, u64::MAX - 1, u64::MAX] {
        assert_eq!(Natural::from_u64(value).to_u64(), Some(value));
    }
}

#[test]
fn leading_zeros_are_dropped() {
    assert_eq!(Natural::from_bytes_be(vec![0, 0, 1, 2]).to_bytes_be(), vec![1, 2]);
    assert_eq!(Natural::from_bytes_be(vec![0, 0, 1, 2]), Natural::from_u64(258));
    assert_eq!(Natural::from_bytes_be(vec![0, 5, 0]).to_bytes_be(), vec![5, 0]);
    assert_eq!(Natural::from_bytes_be(vec![3, 0, 0]).to_bytes_be(), vec![3, 0, 0]);
}

#[test]
fn zero_has_one_writing() {
    assert_eq!(Natural::from_bytes_be(vec![]).to_bytes_be(), vec![0]);
    assert_eq!(Natural::from_bytes_be(vec![0]).to_bytes_be(), vec![0]);
    assert_eq!(Natural::from_bytes_be(vec![0, 0, 0]).to_bytes_be(), vec![0]);
    assert_eq!(Natural::from_bytes_be(vec![]), Natural::from_u64(0));
    assert_eq!(Natural::from_bytes_be(vec![]).to_u64(), Some(0));
}

#[test]
fn is_zero_tells_zero_apart() {
    assert!(Natural::from_u64(0).is_zero());
    assert!(Natural::from_bytes_be(vec![0, 0]).is_zero());
    assert!(!Natural::from_u64(1).is_zero());
    assert!(!Natural::from_u64(256).is_zero());
    assert!(!Natural::from_bytes_be(vec![1, 0, 0, 0, 0, 0, 0, 0, 0]).is_zero());
}

#[test]
fn same_value_is_the_same_number() {
    assert_eq!(Natural::from_u64(513), Natural::from_bytes_be(vec![0, 2, 1]));
    assert_ne!(Natural::from_u64(513), Natural::from_u64(258));
}

#[test]
fn clone_is_equal() {
    let number = Natural::from_bytes_be(vec![9, 8, 7, 6, 5, 4, 3, 2, 1, 0]);
    assert_eq!(number.clone(), number);
}

#[test]
fn bytes_agree_with_candid() {
    for value in [0u64, 5, 300, 1 << 33, u64::MAX] {
        assert_eq!(Natural::from_u64(value).to_bytes_be(), Nat::from(value).0.to_bytes_be());
    }
    let large = BigUint::from_bytes_be(&[1, 2, 3, 4, 5, 6, 7, 8, 9, 10, 11]);
    assert_eq!(Natural::from_bytes_be(large.to_bytes_be()).to_bytes_be(), large.to_bytes_be());
}
