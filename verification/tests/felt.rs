use starknet_api::codec::{encode_felt_text, parse_felt};
use starknet_api::felt::Felt;
use starknet_api::transaction::{ConstructionError, ContractAddress, PatriciaKey};

#[test]
fn felt_text_is_fixed_width_lowercase_hex() {
    let text = encode_felt_text(&Felt::from_u64(0x2f));
    let expected = format!("0x{}2f", "0".repeat(62));
    assert_eq!(text, expected);
    assert_eq!(text.len(), 66);
}

#[test]
fn felt_text_matches_the_reference_fixed_hex_form() {
    let ours = encode_felt_text(&Felt::from_u64(0x2000));
    let reference = starknet_types_core::felt::Felt::from_hex("0x2000")
        .unwrap()
        .to_fixed_hex_string();
    assert_eq!(ours, reference);
}

#[test]
fn felt_bytes_match_the_reference_bytes() {
    let ours = Felt::from_u64(0x23).to_be_bytes();
    let reference = starknet_types_core::felt::Felt::from_hex("0x23")
        .unwrap()
        .to_bytes_be();
    assert_eq!(ours, reference.to_vec());
}

#[test]
fn felt_text_parses_back() {
    let f = Felt::from_u64(0xdeadbeef);
    let text = encode_felt_text(&f);
    assert_eq!(parse_felt(&text), Some(f));
}

#[test]
fn short_hex_is_not_canonical() {
    assert_eq!(parse_felt(&"0x2f".to_owned()), None);
    assert_eq!(parse_felt(&"".to_owned()), None);
}

#[test]
fn uppercase_hex_is_not_canonical() {
    let text = encode_felt_text(&Felt::from_u64(0x2f)).to_uppercase();
    assert_eq!(parse_felt(&text), None);
}

#[test]
fn from_be_bytes_needs_exactly_32_bytes() {
    assert!(Felt::from_be_bytes(vec![0u8; 32]).is_some());
    assert!(Felt::from_be_bytes(vec![0u8; 31]).is_none());
    assert!(Felt::from_be_bytes(vec![0u8; 33]).is_none());
}

#[test]
fn addresses_outside_the_key_space_are_rejected() {
    let mut high = vec![0u8; 32];
    high[0] = 8;
    let too_big = Felt::from_be_bytes(high).unwrap();
    assert_eq!(
        ContractAddress::try_new(too_big),
        Err(ConstructionError::OutOfRange)
    );
    let mut ok = vec![0u8; 32];
    ok[0] = 7;
    let in_range = Felt::from_be_bytes(ok).unwrap();
    assert!(ContractAddress::try_new(in_range).is_ok());
    assert!(PatriciaKey::try_new(Felt::from_u64(3)).is_ok());
}
