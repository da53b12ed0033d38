use pathfinder_core::felt::{Felt, OverflowError, MODULUS};

#[test]
fn hexadecimal_has_no_leading_zeros() {
    let felt = Felt::from_be_slice(&[0x09, 0x99]).unwrap();
    assert_eq!(felt.to_hex_str(), "0x999");
    assert_eq!(Felt::zero().to_hex_str(), "0x0");
    assert_eq!(Felt::from_u64(0xfedc_ba98_7654_3210).to_hex_str(), "0xfedcba9876543210");
}

#[test]
fn elements_are_smaller_than_the_modulus() {
    assert_eq!(Felt::from_be_bytes(MODULUS), Err(OverflowError));
    assert_eq!(Felt::from_be_bytes([0xff; 32]), Err(OverflowError));
    let mut largest = MODULUS;
    largest[31] = 0;
    let felt = Felt::from_be_bytes(largest).unwrap();
    assert_eq!(felt.as_be_bytes(), &largest);
    assert!(felt.has_more_than_251_bits());
    assert_eq!(felt.to_hex_str(), "0x800000000000011000000000000000000000000000000000000000000000000");
}

#[test]
fn slices_are_aligned_at_the_end() {
    let felt = Felt::from_be_slice(&[1, 0]).unwrap();
    assert_eq!(felt, Felt::from_u64(256));
    assert_eq!(Felt::from_be_slice(&[]), Ok(Felt::zero()));
    assert_eq!(Felt::from_be_slice(&[0; 33]), Err(OverflowError));
    assert_ne!(felt, Felt::from_u64(257));
}

#[test]
fn elements_of_251_bits_fit() {
    let mut bytes = [0xff; 32];
    bytes[0] = 7;
    assert!(!Felt::from_be_bytes(bytes).unwrap().has_more_than_251_bits());
}
