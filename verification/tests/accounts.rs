//! Account resolution: hex address parsing and session-key derivation.

use staking_chain_spec::account::AccountId;
use staking_chain_spec::account::SessionKey;
use staking_chain_spec::errors::BuildError;

#[test]
fn from_hex_yields_exact_bytes() {
    let a = AccountId::from_hex("6Be02d1d3665660d22FF9624b7BE0551ee1Ac91b").unwrap();
    let expected: Vec<u8> = vec![
        0x6B, 0xE0, 0x2D, 0x1D, 0x36, 0x65, 0x66, 0x0D, 0x22, 0xFF, 0x96, 0x24, 0xB7, 0xBE, 0x05,
        0x51, 0xEE, 0x1A, 0xC9, 0x1B,
    ];
    assert_eq!(a.as_bytes(), &expected);
}

#[test]
fn from_hex_is_case_insensitive() {
    let lower = AccountId::from_hex("6be02d1d3665660d22ff9624b7be0551ee1ac91b").unwrap();
    let upper = AccountId::from_hex("6BE02D1D3665660D22FF9624B7BE0551EE1AC91B").unwrap();
    assert_eq!(lower.as_bytes(), upper.as_bytes());
}

#[test]
fn from_hex_rejects_one_character_short() {
    let s = "6Be02d1d3665660d22FF9624b7BE0551ee1Ac91";
    assert_eq!(s.len(), 39);
    assert_eq!(AccountId::from_hex(s), Err(BuildError::MalformedAddress));
}

#[test]
fn from_hex_rejects_one_character_long() {
    let s = "6Be02d1d3665660d22FF9624b7BE0551ee1Ac91bb";
    assert_eq!(s.len(), 41);
    assert_eq!(AccountId::from_hex(s), Err(BuildError::MalformedAddress));
}

#[test]
fn from_hex_rejects_non_hex_character() {
    let s = "6Be02d1d3665660d22FF9624b7BE0551ee1Ac91g";
    assert_eq!(s.len(), 40);
    assert_eq!(AccountId::from_hex(s), Err(BuildError::MalformedAddress));
}

#[test]
fn from_hex_rejects_empty_string() {
    assert_eq!(AccountId::from_hex(""), Err(BuildError::MalformedAddress));
}

#[test]
fn derivation_is_deterministic() {
    let first = SessionKey::derive("Alice").unwrap();
    let second = SessionKey::derive("Alice").unwrap();
    assert_eq!(first.as_bytes(), second.as_bytes());
    let first = SessionKey::derive("Faith").unwrap();
    let second = SessionKey::derive("Faith").unwrap();
    assert_eq!(first.as_bytes(), second.as_bytes());
}

#[test]
fn derivation_distinguishes_fixture_seeds() {
    let alice = SessionKey::derive("Alice").unwrap();
    let faith = SessionKey::derive("Faith").unwrap();
    assert_ne!(alice.as_bytes(), faith.as_bytes());
}

#[test]
fn derived_key_is_thirty_two_bytes() {
    let alice = SessionKey::derive("Alice").unwrap();
    assert_eq!(alice.as_bytes().len(), 32);
}

#[test]
fn derived_alice_key_matches_known_value() {
    let alice = SessionKey::derive("Alice").unwrap();
    let expected: Vec<u8> = vec![
        0xd4, 0x35, 0x93, 0xc7, 0x15, 0xfd, 0xd3, 0x1c, 0x61, 0x14, 0x1a, 0xbd, 0x04, 0xa9, 0x9f,
        0xd6, 0x82, 0x2c, 0x85, 0x58, 0x85, 0x4c, 0xcd, 0xe3, 0x9a, 0x56, 0x84, 0xe7, 0xa5, 0x6d,
        0xa2, 0x7d,
    ];
    assert_eq!(alice.as_bytes(), &expected);
}

#[test]
fn error_messages_describe_the_defect() {
    assert_eq!(BuildError::MalformedAddress.message(), "malformed account address literal");
    assert_eq!(
        BuildError::MalformedProtocolProperties.message(),
        "malformed protocol properties blob"
    );
}
