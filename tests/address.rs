use proxy_call_scripts::address::{ContractAddress, ContractIdError, SigningKey};

const HEX_ID: &str = "7c1a0f1b8e2d3c4b5a69788796a5b4c3d2e1f00112233445566778899aabbccdd";

fn expected_id_bytes() -> [u8; 32] {
    [
        0x7c, 0x1a, 0x0f, 0x1b, 0x8e, 0x2d, 0x3c, 0x4b, 0x5a, 0x69, 0x78, 0x87, 0x96, 0xa5, 0xb4,
        0xc3, 0xd2, 0xe1, 0xf0, 0x01, 0x12, 0x23, 0x34, 0x45, 0x56, 0x67, 0x78, 0x89, 0x9a, 0xab,
        0xbc, 0xcd,
    ]
}

#[test]
fn contract_id_without_prefix_parses_to_its_bytes() {
    let a = ContractAddress::parse(&HEX_ID[..64]).unwrap();
    assert_eq!(a.bytes, expected_id_bytes());
}

#[test]
fn contract_id_with_prefix_parses_to_the_same_bytes() {
    let text = format!("0x{}", &HEX_ID[..64]);
    let a = ContractAddress::parse(&text).unwrap();
    assert_eq!(a.bytes, expected_id_bytes());
}

#[test]
fn contract_id_accepts_upper_case_digits() {
    let text = HEX_ID[..64].to_uppercase();
    let a = ContractAddress::parse(&text).unwrap();
    assert_eq!(a.bytes, expected_id_bytes());
}

#[test]
fn contract_id_all_zero_and_all_ff() {
    let zero = "0".repeat(64);
    assert_eq!(ContractAddress::parse(&zero).unwrap().bytes, [0u8; 32]);
    let ff = "f".repeat(64);
    assert_eq!(ContractAddress::parse(&ff).unwrap().bytes, [0xffu8; 32]);
}

#[test]
fn contract_id_of_wrong_length_is_refused() {
    assert_eq!(ContractAddress::parse(&HEX_ID[..62]).err(), Some(ContractIdError::Malformed));
    assert_eq!(ContractAddress::parse(&HEX_ID[..63]).err(), Some(ContractIdError::Malformed));
    assert_eq!(ContractAddress::parse(HEX_ID).err(), Some(ContractIdError::Malformed));
    assert_eq!(ContractAddress::parse("").err(), Some(ContractIdError::Malformed));
    assert_eq!(ContractAddress::parse("0x").err(), Some(ContractIdError::Malformed));
}

#[test]
fn contract_id_with_invalid_character_is_refused() {
    let mut text = String::from(&HEX_ID[..63]);
    text.push('g');
    assert_eq!(ContractAddress::parse(&text).err(), Some(ContractIdError::Malformed));
    let spaced = format!(" {}", &HEX_ID[..63]);
    assert_eq!(ContractAddress::parse(&spaced).err(), Some(ContractIdError::Malformed));
}

#[test]
fn contract_id_prefix_is_stripped_once_only() {
    let text = format!("0x0x{}", &HEX_ID[..60]);
    assert_eq!(ContractAddress::parse(&text).err(), Some(ContractIdError::Malformed));
    let upper = format!("0X{}", &HEX_ID[..64]);
    assert_eq!(ContractAddress::parse(&upper).err(), Some(ContractIdError::Malformed));
}

#[test]
fn signing_key_of_one_is_accepted() {
    let text = format!("{}1", "0".repeat(63));
    let k = SigningKey::parse(&text).unwrap();
    let mut expected = [0u8; 32];
    expected[31] = 1;
    assert_eq!(k.bytes, expected);
}

#[test]
fn signing_key_with_prefix_is_accepted() {
    let text = format!("0x{}", &HEX_ID[..64]);
    let k = SigningKey::parse(&text).unwrap();
    assert_eq!(k.bytes, expected_id_bytes());
}

#[test]
fn signing_key_of_zero_is_refused() {
    assert!(SigningKey::parse(&"0".repeat(64)).is_none());
}

#[test]
fn signing_key_at_or_above_the_order_is_refused() {
    let order = "FFFFFFFFFFFFFFFFFFFFFFFFFFFFFFFEBAAEDCE6AF48A03BBFD25E8CD0364141";
    assert!(SigningKey::parse(order).is_none());
    assert!(SigningKey::parse(&"f".repeat(64)).is_none());
    let below = "FFFFFFFFFFFFFFFFFFFFFFFFFFFFFFFEBAAEDCE6AF48A03BBFD25E8CD0364140";
    let k = SigningKey::parse(below).unwrap();
    assert_eq!(k.bytes[31], 0x40);
    assert_eq!(k.bytes[0], 0xff);
}

#[test]
fn malformed_signing_key_is_refused() {
    assert!(SigningKey::parse("").is_none());
    assert!(SigningKey::parse(&HEX_ID[..63]).is_none());
    assert!(SigningKey::parse(&format!("{}z", &HEX_ID[..63])).is_none());
}

#[test]
fn checksummed_contract_ids_parse_to_their_bytes() {
    let expected: [[u8; 32]; 3] = [
        [
            107, 50, 223, 89, 84, 225, 186, 222, 175, 254, 253, 44, 15, 197, 229, 148, 220, 255,
            55, 19, 170, 227, 221, 24, 183, 217, 102, 98, 75, 1, 0, 39,
        ],
        [
            49, 83, 18, 64, 150, 242, 119, 146, 83, 184, 84, 96, 160, 212, 110, 69, 81, 34, 101,
            86, 182, 99, 62, 68, 44, 28, 40, 26, 131, 21, 221, 64,
        ],
        [
            48, 101, 49, 52, 48, 102, 48, 55, 48, 100, 49, 97, 102, 117, 51, 57, 49, 50, 48, 54,
            48, 98, 48, 100, 48, 56, 49, 53, 48, 52, 49, 52,
        ],
    ];
    let texts = [
        "fuel1dved7k25uxadatl7l5kql309jnw07dcn4t3a6x9hm9nxyjcpqqns50p7n2",
        "fuel1x9f3ysyk7fmey5ac23s2p4rwg4gjye2kke3nu3pvrs5p4qc4m4qqwx56k3",
        "fuel1xpjnzdpsvccrwvryx9skvafn8ycnyvpkxp3rqeps8qcn2vp5xy6qu7yyz7",
    ];
    for (text, bytes) in texts.iter().zip(expected) {
        assert_eq!(ContractAddress::parse(text).unwrap().bytes, bytes);
    }
}

#[test]
fn checksummed_contract_ids_with_errors_are_refused() {
    let bad_checksum = "fuel1x9f3ysyk7fmey5ac23s2p4rwg4gjye2kke3nu3pvrs5p4qc4m4qqwx32k3";
    let bad_char = "fuel1xpjnzdpsvccrwvryx9skvafn8ycnyvpkxp3rqeps8qcn2vp5xy6qu7yyb7";
    let no_separator = "fuelldved7k25uxadatl7l5kql309jnw07dcn4t3a6x9hm9nxyjcpqqns50p7n2";
    for text in [bad_checksum, bad_char, no_separator] {
        assert_eq!(ContractAddress::parse(text).err(), Some(ContractIdError::Malformed));
    }
}
