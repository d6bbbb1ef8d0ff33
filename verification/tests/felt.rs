use cairo_felt::Felt252;
use cheatnet::address::ContractAddress;
use cheatnet::felt::{felt_from_short_string, Felt, OutOfRange};
use starknet_api::hash::StarkFelt;

fn bytes_of(high: u128, low: u128) -> [u8; 32] {
    let mut bytes = [0_u8; 32];
    bytes[..16].copy_from_slice(&high.to_be_bytes());
    bytes[16..].copy_from_slice(&low.to_be_bytes());
    bytes
}

#[test]
fn felt_from_u128_is_big_endian() {
    assert_eq!(Felt::from_u128(0).to_bytes_be(), [0_u8; 32]);
    assert_eq!(Felt::from_u128(5).to_bytes_be(), bytes_of(0, 5));
    assert_eq!(Felt::from_u128(0x0102).to_bytes_be()[30..], [1_u8, 2]);
    assert_eq!(Felt::from_u128(u128::MAX).to_bytes_be(), bytes_of(0, u128::MAX));
}

#[test]
fn felt_from_u128_agrees_with_stark_felt() {
    for value in [0_u128, 1, 3, 255, 256, 65_535, 1 << 64, u128::MAX - 1, u128::MAX] {
        let stark_felt = StarkFelt::from(value);
        assert_eq!(Felt::from_u128(value).to_bytes_be().as_slice(), stark_felt.bytes());
    }
}

#[test]
fn felt_new_keeps_the_bytes() {
    let bytes = bytes_of(0x0fff_ffff_ffff_ffff_ffff_ffff_ffff_ffff, u128::MAX);
    assert_eq!(Felt::new(bytes).unwrap().to_bytes_be(), bytes);
    assert_eq!(Felt::new(bytes_of(0, 77)), Ok(Felt::from_u128(77)));
}

#[test]
fn felt_new_rejects_what_does_not_fit() {
    assert_eq!(Felt::new(bytes_of(1 << 124, 0)), Err(OutOfRange));
    assert_eq!(Felt::new([0xff_u8; 32]), Err(OutOfRange));
    assert!(Felt::new(bytes_of((1 << 124) - 1, u128::MAX)).is_ok());
}

#[test]
fn felt_new_accepts_what_stark_felt_accepts() {
    for high in [0_u128, 1, (1 << 123) - 1, 1 << 123, (1 << 124) - 1, 1 << 124, u128::MAX] {
        let bytes = bytes_of(high, 12_345);
        assert_eq!(Felt::new(bytes).is_ok(), StarkFelt::new(bytes).is_ok());
    }
}

#[test]
fn short_string_is_read_big_endian() {
    assert_eq!(felt_from_short_string(""), Felt::from_u128(0));
    assert_eq!(felt_from_short_string("a"), Felt::from_u128(0x61));
    assert_eq!(felt_from_short_string("abc"), Felt::from_u128(0x61_6263));
    assert_eq!(
        felt_from_short_string("PANIK, DAYTAH"),
        Felt::from_u128(0x50_414e_494b_2c20_4441_5954_4148)
    );
}

#[test]
fn short_string_of_the_missing_constructor() {
    let expected: [u8; 32] = [
        0, 0, 0, 0, 0, 0, 78, 111, 32, 99, 111, 110, 115, 116, 114, 117, 99, 116, 111, 114, 32,
        105, 110, 32, 99, 111, 110, 116, 114, 97, 99, 116,
    ];
    assert_eq!(felt_from_short_string("No constructor in contract").to_bytes_be(), expected);
}

#[test]
fn short_string_is_reduced_into_the_field() {
    let text = "zzzzzzzzzzzzzzzzzzzzzzzzzzzzzzzzzzzzzzzz";
    assert_eq!(text.len(), 40);
    let expected: [u8; 32] = [
        6, 54, 54, 54, 54, 56, 95, 84, 122, 122, 122, 122, 122, 122, 122, 122, 122, 122, 122, 122,
        122, 122, 122, 107, 43, 43, 43, 43, 43, 43, 75, 180,
    ];
    assert_eq!(felt_from_short_string(text).to_bytes_be(), expected);
}

#[test]
fn short_string_agrees_with_felt252() {
    let long_text = "a longer text than any short string holds";
    for text in ["", "x", "No constructor in contract", long_text] {
        let felt252 = Felt252::from_bytes_be(text.as_bytes());
        assert_eq!(felt_from_short_string(text).to_bytes_be(), felt252.to_be_bytes());
    }
}

#[test]
fn contract_address_below_the_bound() {
    let address = ContractAddress::try_from(Felt::from_u128(111)).unwrap();
    assert_eq!(address.key(), Felt::from_u128(111));
    let largest = Felt::new(bytes_of((1 << 123) - 1, u128::MAX)).unwrap();
    assert_eq!(ContractAddress::try_from(largest).unwrap().key(), largest);
}

#[test]
fn contract_address_at_the_bound_is_refused() {
    let bound = Felt::new(bytes_of(1 << 123, 0)).unwrap();
    assert_eq!(ContractAddress::try_from(bound), Err(OutOfRange));
    let above = Felt::new(bytes_of((1 << 124) - 1, 5)).unwrap();
    assert_eq!(ContractAddress::try_from(above), Err(OutOfRange));
}

#[test]
fn contract_address_agrees_with_starknet_api() {
    for high in [0_u128, 7, (1 << 123) - 1, 1 << 123, (1 << 123) + 1, (1 << 124) - 1] {
        for low in [0_u128, 1, u128::MAX] {
            let bytes = bytes_of(high, low);
            let ours = ContractAddress::try_from(Felt::new(bytes).unwrap());
            let stark_felt = StarkFelt::new(bytes).unwrap();
            let theirs = starknet_api::core::ContractAddress::try_from(stark_felt);
            assert_eq!(ours.is_ok(), theirs.is_ok());
            if let (Ok(ours), Ok(theirs)) = (ours, theirs) {
                assert_eq!(ours.key().to_bytes_be().as_slice(), theirs.0.key().bytes());
            }
        }
    }
}
