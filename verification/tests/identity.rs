use pyth_oracle::identity::decode_private_key;
use pyth_oracle::{BootstrapError, LogRecord, SigningIdentity, SigningWallet};

const ANVIL_KEY: &str = "0xac0974bec39a17e36ba4a6b4d238ff944bacb478cbed5efcae784d7bf4f2ff80";

const ANVIL_KEY_BYTES: [u8; 32] = [
    0xac, 0x09, 0x74, 0xbe, 0xc3, 0x9a, 0x17, 0xe3, 0x6b, 0xa4, 0xa6, 0xb4, 0xd2, 0x38, 0xff, 0x94,
    0x4b, 0xac, 0xb4, 0x78, 0xcb, 0xed, 0x5e, 0xfc, 0xae, 0x78, 0x4d, 0x7b, 0xf4, 0xf2, 0xff, 0x80,
];

const ANVIL_ADDRESS: [u8; 20] = [
    0xf3, 0x9f, 0xd6, 0xe5, 0x1a, 0xad, 0x88, 0xf6, 0xf4, 0xce, 0x6a, 0xb8, 0x82, 0x72, 0x79, 0xcf,
    0xff, 0xb9, 0x22, 0x66,
];

const ADDRESS_OF_ONE: [u8; 20] = [
    0x7e, 0x5f, 0x45, 0x52, 0x09, 0x1a, 0x69, 0x12, 0x5d, 0x5d, 0xfc, 0xb7, 0xb8, 0xc2, 0x65, 0x90,
    0x29, 0x39, 0x5b, 0xdf,
];

const CURVE_ORDER: [u8; 32] = [
    0xff, 0xff, 0xff, 0xff, 0xff, 0xff, 0xff, 0xff, 0xff, 0xff, 0xff, 0xff, 0xff, 0xff, 0xff, 0xfe,
    0xba, 0xae, 0xdc, 0xe6, 0xaf, 0x48, 0xa0, 0x3b, 0xbf, 0xd2, 0x5e, 0x8c, 0xd0, 0x36, 0x41, 0x41,
];

fn one() -> [u8; 32] {
    let mut key = [0u8; 32];
    key[31] = 1;
    key
}

#[test]
fn a_key_decodes_with_and_without_prefix() {
    assert_eq!(decode_private_key(ANVIL_KEY), Ok(ANVIL_KEY_BYTES));
    assert_eq!(decode_private_key(&ANVIL_KEY[2..]), Ok(ANVIL_KEY_BYTES));
    let upper_prefix = format!("0X{}", &ANVIL_KEY[2..]);
    assert_eq!(decode_private_key(&upper_prefix), Ok(ANVIL_KEY_BYTES));
}

#[test]
fn hex_digits_of_either_case_decode() {
    let upper = format!("0x{}", ANVIL_KEY[2..].to_uppercase());
    assert_eq!(decode_private_key(&upper), Ok(ANVIL_KEY_BYTES));
    let mixed = "0xAbCdEf0123456789aBcDeF0123456789ABCDEF0123456789abcdef0123456789";
    let expected: [u8; 32] = [
        0xab, 0xcd, 0xef, 0x01, 0x23, 0x45, 0x67, 0x89, 0xab, 0xcd, 0xef, 0x01, 0x23, 0x45, 0x67,
        0x89, 0xab, 0xcd, 0xef, 0x01, 0x23, 0x45, 0x67, 0x89, 0xab, 0xcd, 0xef, 0x01, 0x23, 0x45,
        0x67, 0x89,
    ];
    assert_eq!(decode_private_key(mixed), Ok(expected));
}

#[test]
fn the_high_digit_of_a_byte_comes_first() {
    let text = format!("{}{}", "10", "0".repeat(60) + "0f");
    let mut expected = [0u8; 32];
    expected[0] = 0x10;
    expected[31] = 0x0f;
    assert_eq!(decode_private_key(&text), Ok(expected));
}

#[test]
fn a_key_of_the_wrong_length_is_refused() {
    let digits = &ANVIL_KEY[2..];
    let cases = [
        String::new(),
        "0x".to_string(),
        "0x01".to_string(),
        digits[..62].to_string(),
        digits[..63].to_string(),
        format!("{}0", digits),
        format!("{}00", digits),
        format!("0x{}00", digits),
        format!("0x{}", &digits[..63]),
        format!("0x0x{}", &digits[..62]),
    ];
    for text in cases {
        assert_eq!(decode_private_key(&text), Err(BootstrapError::InvalidKeyEncoding), "{}", text);
    }
}

#[test]
fn a_key_with_a_character_that_is_no_hex_digit_is_refused() {
    let digits = &ANVIL_KEY[2..];
    let cases = [
        format!("{}g", &digits[..63]),
        format!("0x{} ", &digits[..63]),
        format!(" {}", &digits[..63]),
        format!("{}\u{e9}", &digits[..62]),
        format!("{}\u{ff10}", &digits[..63]),
        format!("x0{}", &digits[..62]),
        format!("0x{}-", &digits[..63]),
    ];
    for text in cases {
        assert_eq!(decode_private_key(&text), Err(BootstrapError::InvalidKeyEncoding), "{}", text);
    }
}

#[test]
fn the_address_is_derived_from_the_key() {
    let identity = SigningIdentity::from_private_key(ANVIL_KEY).ok().unwrap();
    assert_eq!(identity.key(), ANVIL_KEY_BYTES);
    assert_eq!(identity.address(), ANVIL_ADDRESS);
}

#[test]
fn the_key_one_has_its_known_address() {
    let identity = SigningIdentity::from_key(one()).ok().unwrap();
    assert_eq!(identity.address(), ADDRESS_OF_ONE);
    assert_eq!(identity.key(), one());
    let text = format!("0x{}1", "0".repeat(63));
    let identity = SigningIdentity::from_private_key(&text).ok().unwrap();
    assert_eq!(identity.address(), ADDRESS_OF_ONE);
}

#[test]
fn derivation_is_repeatable() {
    let first = SigningIdentity::from_private_key(ANVIL_KEY).ok().unwrap();
    let second = SigningIdentity::from_private_key(ANVIL_KEY).ok().unwrap();
    let third = SigningIdentity::from_private_key(&ANVIL_KEY[2..].to_uppercase()).ok().unwrap();
    assert_eq!(first.address(), second.address());
    assert_eq!(first.key(), second.key());
    assert_eq!(first.address(), third.address());
}

#[test]
fn zero_is_no_signing_key() {
    let res = SigningIdentity::from_key([0u8; 32]);
    assert_eq!(res.err(), Some(BootstrapError::SignerConstructionError));
    let text = "0".repeat(64);
    let res = SigningIdentity::from_private_key(&text);
    assert_eq!(res.err(), Some(BootstrapError::SignerConstructionError));
}

#[test]
fn the_curve_order_bounds_the_signing_keys() {
    let res = SigningIdentity::from_key(CURVE_ORDER);
    assert_eq!(res.err(), Some(BootstrapError::SignerConstructionError));
    let res = SigningIdentity::from_key([0xff; 32]);
    assert_eq!(res.err(), Some(BootstrapError::SignerConstructionError));
    let mut above = CURVE_ORDER;
    above[31] += 1;
    assert_eq!(
        SigningIdentity::from_key(above).err(),
        Some(BootstrapError::SignerConstructionError)
    );
    let mut below = CURVE_ORDER;
    below[31] -= 1;
    let identity = SigningIdentity::from_key(below).ok().unwrap();
    assert_eq!(identity.key(), below);
}

#[test]
fn a_malformed_key_yields_no_identity() {
    for text in ["", "0x", "not hex", "0x1234", "zz"] {
        let res = SigningIdentity::from_private_key(text);
        assert_eq!(res.err(), Some(BootstrapError::InvalidKeyEncoding), "{}", text);
    }
}

#[test]
fn a_wallet_holds_its_identity() {
    let identity = SigningIdentity::from_private_key(ANVIL_KEY).ok().unwrap();
    let wallet = SigningWallet::new(identity);
    assert_eq!(wallet.identity().address(), ANVIL_ADDRESS);
    assert_eq!(wallet.identity().key(), ANVIL_KEY_BYTES);
}

#[test]
fn an_identity_announces_its_address() {
    let identity = SigningIdentity::from_private_key(ANVIL_KEY).ok().unwrap();
    assert_eq!(identity.announcement(), LogRecord::SignerAddress(ANVIL_ADDRESS));
}
