use hocket_genet::key::InvalidPublicKey;
use hocket_genet::text::{
    Pair, decimal_text, hex_text, is_white_space, read_pair, strip_white_space,
};
use hocket_genet::token::{name_key, read_contact_token};
use hocket_genet::{LocalIdentity, PublicKey, encode_contact_token, parse_contact_token};
use personae::{IdentityProvider, InMemoryProvider};

fn key_from_seed(seed: [u8; 32]) -> PublicKey {
    let key = InMemoryProvider::from_seed(seed).master_public_key();
    PublicKey::from_bytes(&key.to_bytes()).unwrap()
}

/// The public key of RFC 8032's first test vector, and its token.
const RFC_SEED: [u8; 32] = [
    0x9d, 0x61, 0xb1, 0x9d, 0xef, 0xfd, 0x5a, 0x60, 0xba, 0x84, 0x4a, 0xf4, 0x92, 0xec, 0x2c, 0xc4,
    0x44, 0x49, 0xc5, 0x69, 0x7b, 0x32, 0x69, 0x19, 0x70, 0x3b, 0xac, 0x03, 0x1c, 0xae, 0x7f, 0x60,
];
const RFC_TOKEN: &str = "d75a980182b10ab7d54bfed3c964073a0ee172f3daa62325af021a68f707511a";

/// 32 bytes that no public key is encoded as.
fn undecodable() -> [u8; 32] {
    let mut bytes = [0u8; 32];
    while personae::Ed25519PublicKey::from_bytes(&bytes).is_ok() {
        bytes[0] += 1;
    }
    bytes
}

#[test]
fn contact_token_round_trips_and_rejects_malformed() {
    let key = key_from_seed([9; 32]);
    let token = encode_contact_token(&key);
    assert_eq!(token.len(), 64);
    assert_eq!(parse_contact_token(&token).unwrap(), key);
    // Pasted tokens carry stray whitespace; tolerate it.
    assert_eq!(parse_contact_token(&format!("  {token}\n")).unwrap(), key);
    assert!(parse_contact_token("too short").is_err());
    assert!(parse_contact_token(&"z".repeat(64)).is_err());
}

#[test]
fn a_known_key_has_its_known_token_and_fingerprint() {
    let identity = LocalIdentity::new(key_from_seed(RFC_SEED));
    assert_eq!(identity.contact_token(), RFC_TOKEN);
    assert_eq!(identity.fingerprint(), "d75a980182b1");
    assert_eq!(identity.master_public_key(), parse_contact_token(RFC_TOKEN).unwrap());
}

#[test]
fn the_fingerprint_is_how_the_token_begins() {
    for seed in 0u8..20 {
        let identity = LocalIdentity::new(key_from_seed([seed; 32]));
        assert_eq!(identity.fingerprint(), identity.contact_token()[..12]);
    }
}

#[test]
fn different_keys_have_different_tokens() {
    let mut tokens: Vec<String> = Vec::new();
    for seed in 0u8..20 {
        tokens.push(encode_contact_token(&key_from_seed([seed; 32])));
    }
    tokens.sort();
    tokens.dedup();
    assert_eq!(tokens.len(), 20);
}

#[test]
fn a_token_is_lowercase_hex() {
    let token = encode_contact_token(&key_from_seed([0xab; 32]));
    assert!(token.chars().all(|c| c.is_ascii_digit() || ('a'..='f').contains(&c)));
}

#[test]
fn white_space_anywhere_in_a_token_is_tolerated() {
    let key = key_from_seed([4; 32]);
    let mut spread = String::new();
    for c in encode_contact_token(&key).chars() {
        spread.push(c);
        spread.push_str(" \u{3000}\t\u{a0}");
    }
    assert_eq!(parse_contact_token(&spread).unwrap(), key);
}

#[test]
fn either_case_reads_and_lowercase_is_written_back() {
    let key = parse_contact_token(&RFC_TOKEN.to_uppercase()).unwrap();
    assert_eq!(encode_contact_token(&key), RFC_TOKEN);
}

#[test]
fn a_sign_is_no_digit() {
    for token in [
        "d75a98+182b10ab7d54bfed3c964073a0ee172f3daa62325af021a68f707511a".to_string(),
        "+0".repeat(32),
        "+f".repeat(32),
        "-0".repeat(32),
    ] {
        assert_eq!(
            parse_contact_token(&token).unwrap_err(),
            "a contact token must be hexadecimal"
        );
    }
}

#[test]
fn a_token_of_the_wrong_length_is_told_its_length() {
    assert_eq!(
        parse_contact_token("too short").unwrap_err(),
        "a contact token is 64 hex characters; this is 8"
    );
    assert_eq!(
        parse_contact_token("").unwrap_err(),
        "a contact token is 64 hex characters; this is 0"
    );
    assert_eq!(
        parse_contact_token(&"a".repeat(1234)).unwrap_err(),
        "a contact token is 64 hex characters; this is 1234"
    );
    // The length is that of the text in bytes.
    assert_eq!(
        parse_contact_token("\u{e9}\u{e9}").unwrap_err(),
        "a contact token is 64 hex characters; this is 4"
    );
}

#[test]
fn a_token_that_is_not_hexadecimal_is_told_so() {
    assert_eq!(
        parse_contact_token(&"z".repeat(64)).unwrap_err(),
        "a contact token must be hexadecimal"
    );
    // A character of two bytes, in step with the pairs.
    assert_eq!(
        parse_contact_token(&"\u{e9}".repeat(32)).unwrap_err(),
        "a contact token must be hexadecimal"
    );
    assert_eq!(
        parse_contact_token(&"++".repeat(32)).unwrap_err(),
        "a contact token must be hexadecimal"
    );
}

#[test]
fn a_token_whose_characters_are_cut_apart_is_told_so() {
    let cut = format!("a\u{e9}{}", "0".repeat(61));
    assert_eq!(cut.len(), 64);
    assert_eq!(parse_contact_token(&cut).unwrap_err(), "token has invalid text");
    // The first faulty pair decides.
    let late = format!("zz{}a\u{e9}0", "0".repeat(58));
    assert_eq!(late.len(), 64);
    assert_eq!(parse_contact_token(&late).unwrap_err(), "a contact token must be hexadecimal");
}

#[test]
fn a_token_of_no_key_is_told_so() {
    let bytes = undecodable();
    assert_eq!(read_contact_token(&hex_text(&bytes)).unwrap(), bytes);
    assert_eq!(
        parse_contact_token(&hex_text(&bytes)).unwrap_err(),
        "not a valid identity key"
    );
    assert_eq!(PublicKey::from_bytes(&bytes), Err(InvalidPublicKey));
}

#[test]
fn what_was_decoded_is_named_or_refused() {
    let key = key_from_seed([3; 32]);
    assert_eq!(name_key(Ok(key)), Ok(key));
    assert_eq!(name_key(Err(InvalidPublicKey)).unwrap_err(), "not a valid identity key");
}

#[test]
fn a_key_keeps_the_bytes_it_came_from() {
    let theirs = InMemoryProvider::from_seed([7; 32]).master_public_key();
    let ours = PublicKey::from_bytes(&theirs.to_bytes()).unwrap();
    assert_eq!(ours.to_bytes(), theirs.to_bytes());
}

#[test]
fn white_space_is_what_unicode_says() {
    for code in 0..=0x10ffffu32 {
        if let Some(c) = char::from_u32(code) {
            assert_eq!(is_white_space(c), c.is_whitespace(), "{code:x}");
        }
    }
    assert_eq!(strip_white_space(" a\u{2003}b\nc "), "abc");
}

#[test]
fn pairs_read_as_two_digits_of_radix_sixteen() {
    for first in 0..=255u8 {
        for second in 0..=255u8 {
            let expected = match std::str::from_utf8(&[first, second]) {
                Err(_) => Pair::NotText,
                // A number may carry a sign; a byte of a token may not.
                Ok(_) if first == b'+' => Pair::NotHex,
                Ok(text) => match u8::from_str_radix(text, 16) {
                    Ok(byte) => Pair::Byte(byte),
                    Err(_) => Pair::NotHex,
                },
            };
            assert_eq!(read_pair(first, second), expected);
        }
    }
}

#[test]
fn numerals_and_digits_are_written_as_usual() {
    for n in [0usize, 7, 10, 42, 99, 100, 65535, usize::MAX] {
        assert_eq!(decimal_text(n), format!("{n}"));
    }
    assert_eq!(hex_text(&[0x00, 0x0f, 0xa5, 0xff]), "000fa5ff");
    assert_eq!(hex_text(&[]), "");
}

#[test]
fn a_truncated_token_is_told_its_length() {
    for kept in 0..64usize {
        assert_eq!(
            parse_contact_token(&RFC_TOKEN[..kept]).unwrap_err(),
            format!("a contact token is 64 hex characters; this is {kept}")
        );
    }
}

#[test]
fn a_mistyped_token_is_refused() {
    for at in 0..64usize {
        for typed in ["g", "G", "+", "-", "_", "\u{7f}"] {
            let mut token = RFC_TOKEN.to_string();
            token.replace_range(at..at + 1, typed);
            assert_eq!(
                parse_contact_token(&token).unwrap_err(),
                "a contact token must be hexadecimal"
            );
        }
    }
}
