use jupiter_swap_api_client::error::ErrorKind;
use jupiter_swap_api_client::json::Json;
use jupiter_swap_api_client::pubkey::Pubkey;
use jupiter_swap_api_client::wire::{read_pubkey, write_pubkey};

const KNOWN_TEXT: &str = "2gPihUTjt3FJqf1VpidgrY5cZ6PuyMccGVwQHRfjMPZG";

const KNOWN_BYTES: [u8; 32] = [
    24, 243, 6, 223, 230, 153, 210, 8, 92, 137, 123, 67, 164, 197, 79, 196, 125, 43, 183, 85, 103,
    91, 232, 167, 73, 131, 104, 131, 0, 101, 214, 231,
];

#[test]
fn pubkey_text_of_the_zero_key() {
    let key = Pubkey::default();
    assert_eq!(key.to_bytes(), [0u8; 32]);
    assert_eq!(key.to_string(), "11111111111111111111111111111111");
    assert_eq!(Pubkey::from_str("11111111111111111111111111111111"), Some(key));
}

#[test]
fn pubkey_text_of_a_known_key() {
    let key = Pubkey::new_from_array(KNOWN_BYTES);
    assert_eq!(key.to_string(), KNOWN_TEXT);
    assert_eq!(Pubkey::from_str(KNOWN_TEXT), Some(key));
    assert_ne!(key.to_string().as_bytes(), KNOWN_BYTES);
}

#[test]
fn pubkey_from_str_rejects_what_is_no_key() {
    assert_eq!(Pubkey::from_str(""), None);
    assert_eq!(Pubkey::from_str("not a key"), None);
    assert_eq!(Pubkey::from_str("0OIl"), None);
    assert_eq!(Pubkey::from_str("2gPihUTjt3FJqf1VpidgrY5cZ6PuyMccGVwQHRfjMPZ"), None);
    assert_eq!(Pubkey::from_str("2gPihUTjt3FJqf1VpidgrY5cZ6PuyMccGVwQHRfjMPZGG"), None);
    assert_eq!(Pubkey::from_str("2gPihUTjt3FJqf1VpidgrY5cZ6PuyMccGVwQHRfjMPZ!"), None);
}

#[test]
fn pubkey_text_agrees_with_the_sdk() {
    for seed in 0u8..=255 {
        let mut bytes = [0u8; 32];
        for (i, b) in bytes.iter_mut().enumerate() {
            *b = seed.wrapping_mul(31).wrapping_add((i as u8).wrapping_mul(seed | 1));
        }
        let theirs = solana_sdk::pubkey::Pubkey::new_from_array(bytes);
        let ours = Pubkey::new_from_array(bytes);
        assert_eq!(ours.to_string(), theirs.to_string());
        assert_eq!(Pubkey::from_str(&theirs.to_string()), Some(ours));
    }
}

#[test]
fn pubkey_field_is_written_as_a_string_and_read_back() {
    let key = Pubkey::new_from_array(KNOWN_BYTES);
    let written = write_pubkey(&key);
    assert_eq!(written, Json::Str(KNOWN_TEXT.to_string()));
    assert_eq!(read_pubkey(&written), Ok(key));
}

#[test]
fn pubkey_field_rejects_a_bad_string_and_what_is_no_string() {
    assert_eq!(read_pubkey(&Json::string("nope")), Err(ErrorKind::MalformedIdentifier));
    assert_eq!(read_pubkey(&Json::unsigned(1)), Err(ErrorKind::UnexpectedType));
    assert_eq!(read_pubkey(&Json::Null), Err(ErrorKind::UnexpectedType));
}

#[test]
fn pubkey_is_read_back_from_its_own_text() {
    assert!(Pubkey::default().round_trips());
    assert!(Pubkey::new_from_array(KNOWN_BYTES).round_trips());
    assert!(Pubkey::new_from_array([255; 32]).round_trips());
}
