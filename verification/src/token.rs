//! Contact tokens: a public key as text that a musician pastes to a peer.

use vstd::prelude::*;

use crate::key::{InvalidPublicKey, PublicKey};
use crate::text::{Pair, decimal_text, hex_text, read_pair, strip_white_space};

verus! {

/// What the `i`th pair of neighbouring bytes says.
pub open spec fn pair_at(bytes: Seq<u8>, i: int) -> Pair {
    crate::text::pair(bytes[2 * i], bytes[2 * i + 1])
}

/// The first pair, from the `from`th on, that is no byte in hexadecimal.
pub open spec fn first_fault(bytes: Seq<u8>, from: int) -> Option<Pair>
    decreases bytes.len() - 2 * from,
{
    if from < 0 || bytes.len() < 2 * from + 2 {
        None
    } else if pair_at(bytes, from) is Byte {
        first_fault(bytes, from + 1)
    } else {
        Some(pair_at(bytes, from))
    }
}

/// The 32 bytes that a pasted token writes, or what to tell the person who
/// pasted it.
///
/// White space counts for nothing. What is left is 64 bytes of text, of which
/// each two write one byte in hexadecimal; the first two that do not decide
/// what is said.
pub open spec fn token_reading(token: Seq<char>) -> Result<Seq<u8>, Seq<char>> {
    let bytes = vstd::utf8::encode_utf8(crate::text::without_white_space(token));
    if bytes.len() != 64 {
        Err(
            "a contact token is 64 hex characters; this is "@ + crate::text::decimal(
                bytes.len(),
            ),
        )
    } else {
        match first_fault(bytes, 0) {
            None => Ok(Seq::new(32, |i: int| pair_at(bytes, i)->Byte_0)),
            Some(Pair::NotText) => Err("token has invalid text"@),
            Some(_) => Err("a contact token must be hexadecimal"@),
        }
    }
}

/// The key that a pasted token names, or what to tell the person who pasted
/// it.
pub open spec fn token_key(token: Seq<char>) -> Result<Seq<u8>, Seq<char>> {
    match token_reading(token) {
        Ok(bytes) => if crate::key::encodes_public_key(bytes) {
            Ok(bytes)
        } else {
            Err("not a valid identity key"@)
        },
        Err(message) => Err(message),
    }
}

/// Encode a public key as a contact token: 64 lowercase hex characters.
pub fn encode_contact_token(key: &PublicKey) -> (token: String)
    ensures
        token@ == crate::text::hex(key@),
        token@.len() == 64,
        token_key(token@) == Ok::<Seq<u8>, Seq<char>>(key@),
{
    let bytes = key.to_bytes();
    let token = hex_text(&bytes);
    proof {
        assert(bytes@.len() == 32);
        lemma_hex_holds_no_white_space(key@);
        law_token_reads_back(key@, token@);
    }
    token
}

/// Reads the 32 bytes that a pasted token writes.
///
/// An error carries the reason in words, since a mistyped or truncated token
/// is the common failure that a peer needs told about.
pub fn read_contact_token(token: &str) -> (read: Result<[u8; 32], String>)
    ensures
        match (read, token_reading(token@)) {
            (Ok(bytes), Ok(said)) => bytes@ == said,
            (Err(message), Err(said)) => message@ == said,
            _ => false,
        },
{
    let cleaned = strip_white_space(token);
    let written = cleaned.as_str().as_bytes();
    if written.len() != 64 {
        let mut message = "a contact token is 64 hex characters; this is ".to_owned();
        message.append(decimal_text(written.len()).as_str());
        return Err(message);
    }
    let mut bytes: [u8; 32] = [0;32];
    for i in 0..32usize
        invariant
            written@ == vstd::utf8::encode_utf8(crate::text::without_white_space(token@)),
            written@.len() == 64,
            first_fault(written@, 0) == first_fault(written@, i as int),
            forall|j: int|
                0 <= j < i ==> #[trigger] pair_at(written@, j) == Pair::Byte(bytes@[j]),
    {
        match read_pair(written[2 * i], written[2 * i + 1]) {
            Pair::Byte(byte) => {
                proof {
                    assert(pair_at(written@, i as int) == Pair::Byte(byte));
                }
                bytes[i] = byte;
            },
            Pair::NotText => {
                return Err("token has invalid text".to_owned());
            },
            Pair::NotHex => {
                return Err("a contact token must be hexadecimal".to_owned());
            },
        }
    }
    proof {
        assert(bytes@ =~= Seq::new(32, |i: int| pair_at(written@, i)->Byte_0));
    }
    Ok(bytes)
}

/// What becomes of the bytes that a token wrote, once they were decoded.
pub fn name_key(decoded: Result<PublicKey, InvalidPublicKey>) -> (named: Result<PublicKey, String>)
    ensures
        match (named, decoded) {
            (Ok(key), Ok(given)) => key@ == given@,
            (Err(message), Err(_)) => message@ == "not a valid identity key"@,
            _ => false,
        },
{
    match decoded {
        Ok(key) => Ok(key),
        Err(_) => Err("not a valid identity key".to_owned()),
    }
}

/// Parse a contact token (as pasted, whitespace tolerated) back into a public
/// key.
///
/// An error carries the reason in words.
pub fn parse_contact_token(token: &str) -> (parsed: Result<PublicKey, String>)
    ensures
        match (parsed, token_key(token@)) {
            (Ok(key), Ok(named)) => key@ == named,
            (Err(message), Err(said)) => message@ == said,
            _ => false,
        },
{
    match read_contact_token(token) {
        Ok(bytes) => name_key(PublicKey::from_bytes(&bytes)),
        Err(message) => Err(message),
    }
}

/// The digits of a token are none of them white space.
proof fn lemma_hex_holds_no_white_space(key: Seq<u8>)
    ensures
        crate::text::without_white_space(crate::text::hex(key)) == crate::text::hex(key),
{
    let token = crate::text::hex(key);
    let keep = |c: char| !crate::text::white_space(c);
    assert forall|i: int| 0 <= i < token.len() implies keep(token[i]) by {}
    lemma_filter_keeps_all(token, keep);
}

/// A filter that lets every element pass changes nothing.
proof fn lemma_filter_keeps_all(text: Seq<char>, keep: spec_fn(char) -> bool)
    requires
        forall|i: int| 0 <= i < text.len() ==> keep(text[i]),
    ensures
        text.filter(keep) == text,
    decreases text.len(),
{
    reveal(Seq::filter);
    if text.len() > 0 {
        lemma_filter_keeps_all(text.drop_last(), keep);
        assert(text.drop_last().push(text.last()) =~= text);
    }
}

/// A filter that lets no element pass leaves nothing.
proof fn lemma_filter_keeps_none(text: Seq<char>, keep: spec_fn(char) -> bool)
    requires
        forall|i: int| 0 <= i < text.len() ==> !keep(text[i]),
    ensures
        text.filter(keep) == Seq::<char>::empty(),
    decreases text.len(),
{
    reveal(Seq::filter);
    if text.len() > 0 {
        lemma_filter_keeps_none(text.drop_last(), keep);
    }
}

/// Without a faulty pair there is no first one.
proof fn lemma_no_fault(bytes: Seq<u8>, from: int)
    requires
        0 <= from,
        forall|i: int| from <= i && 2 * i + 2 <= bytes.len() ==> pair_at(bytes, i) is Byte,
    ensures
        first_fault(bytes, from) is None,
    decreases bytes.len() - 2 * from,
{
    if bytes.len() >= 2 * from + 2 {
        assert(pair_at(bytes, from) is Byte);
        lemma_no_fault(bytes, from + 1);
    }
}

/// Where there is no first faulty pair, there is none.
proof fn lemma_all_pairs_read(bytes: Seq<u8>, from: int, i: int)
    requires
        0 <= from <= i,
        2 * i + 2 <= bytes.len(),
        first_fault(bytes, from) is None,
    ensures
        pair_at(bytes, i) is Byte,
    decreases i - from,
{
    if from < i {
        lemma_all_pairs_read(bytes, from + 1, i);
    }
}

/// The first faulty pair is the one that only bytes come before.
proof fn lemma_fault_found(bytes: Seq<u8>, from: int, at: int)
    requires
        0 <= from <= at,
        2 * at + 2 <= bytes.len(),
        forall|i: int| from <= i < at ==> pair_at(bytes, i) is Byte,
        pair_at(bytes, at) !is Byte,
    ensures
        first_fault(bytes, from) == Some(pair_at(bytes, at)),
    decreases at - from,
{
    if from < at {
        assert(pair_at(bytes, from) is Byte);
        lemma_fault_found(bytes, from + 1, at);
    }
}

/// The token of a key, pasted with white space anywhere in it, reads as that
/// key again.
pub proof fn law_token_reads_back(key: Seq<u8>, pasted: Seq<char>)
    requires
        key.len() == 32,
        crate::text::without_white_space(pasted) == crate::text::hex(key),
    ensures
        token_reading(pasted) == Ok::<Seq<u8>, Seq<char>>(key),
        crate::key::encodes_public_key(key) ==> token_key(pasted) == Ok::<Seq<u8>, Seq<char>>(key),
{
    let token = crate::text::hex(key);
    assert(vstd::utf8::is_ascii_chars(token));
    vstd::utf8::is_ascii_chars_encode_utf8(token);
    let bytes = vstd::utf8::encode_utf8(token);
    assert(bytes.len() == 64);
    assert forall|i: int| 0 <= i < 32 implies #[trigger] pair_at(bytes, i) == Pair::Byte(key[i]) by {
        assert(bytes[2 * i] == token[2 * i] as u8);
        assert(bytes[2 * i + 1] == token[2 * i + 1] as u8);
        crate::text::lemma_two_byte_text(bytes[2 * i], bytes[2 * i + 1]);
    }
    lemma_no_fault(bytes, 0);
    assert(Seq::new(32, |i: int| pair_at(bytes, i)->Byte_0) =~= key);
}

/// A text whose encoding holds ASCII bytes only is ASCII.
proof fn lemma_ascii_bytes_are_ascii_text(text: Seq<char>)
    requires
        forall|i: int|
            0 <= i < vstd::utf8::encode_utf8(text).len() ==> vstd::utf8::encode_utf8(text)[i]
                < 0x80,
    ensures
        vstd::utf8::is_ascii_chars(text),
    decreases text.len(),
{
    if text.len() > 0 {
        let scalar = text[0] as u32;
        vstd::utf8::char_is_scalar(text[0]);
        vstd::utf8::char_u32_cast(text[0], scalar);
        let first = vstd::utf8::encode_scalar(scalar);
        let rest = vstd::utf8::encode_utf8(text.drop_first());
        assert(vstd::utf8::encode_utf8(text) == first + rest);
        assert(forall|i: int| 0 <= i < rest.len() ==> rest[i] == (first + rest)[first.len() + i]);
        lemma_ascii_bytes_are_ascii_text(text.drop_first());
        assert(first[0] == (first + rest)[0]);
        assert(0xc0u8 | ((scalar >> 6) & 0x1f) as u8 >= 0xc0) by (bit_vector);
        assert(0xe0u8 | ((scalar >> 12) & 0x0f) as u8 >= 0xe0) by (bit_vector);
        assert(0xf0u8 | ((scalar >> 18) & 0x7) as u8 >= 0xf0) by (bit_vector);
        assert forall|i: int| 0 <= i < text.len() implies '\0' <= #[trigger] text[i] <= '\u{7f}' by {
            if i > 0 {
                assert(text[i] == text.drop_first()[i - 1]);
            }
        }
    }
}

/// The 32 bytes that 64 hexadecimal digits write.
pub open spec fn bytes_of_digits(digits: Seq<char>) -> Seq<u8> {
    Seq::new(
        32,
        |i: int|
            crate::text::hex_pair_value(digits[2 * i] as u8, digits[2 * i + 1] as u8)->Some_0 as u8,
    )
}

/// A token names a key if and only if, but for white space, it is exactly 64
/// hexadecimal digits of either case, and the bytes that they write encode a
/// key; and that is the key it names.
pub proof fn law_exactly_hex_tokens_are_read(pasted: Seq<char>)
    ensures
        ({
            let digits = crate::text::without_white_space(pasted);
            let is_hex = digits.len() == 64 && forall|i: int|
                0 <= i < digits.len() ==> #[trigger] crate::text::is_hex_digit(digits[i]);
            let bytes = bytes_of_digits(digits);
            &&& token_reading(pasted) is Ok <==> is_hex
            &&& is_hex ==> token_reading(pasted) == Ok::<Seq<u8>, Seq<char>>(bytes)
            &&& token_key(pasted) is Ok <==> is_hex && crate::key::encodes_public_key(bytes)
            &&& is_hex && crate::key::encodes_public_key(bytes) ==> token_key(pasted) == Ok::<
                Seq<u8>,
                Seq<char>,
            >(bytes)
        }),
{
    let digits = crate::text::without_white_space(pasted);
    let is_hex = digits.len() == 64 && forall|i: int|
        0 <= i < digits.len() ==> #[trigger] crate::text::is_hex_digit(digits[i]);
    let bytes = vstd::utf8::encode_utf8(digits);
    if is_hex {
        assert forall|i: int| 0 <= i < digits.len() implies '\0' <= #[trigger] digits[i]
            <= '\u{7f}' by {
            assert(crate::text::is_hex_digit(digits[i]));
        }
        assert(vstd::utf8::is_ascii_chars(digits));
        vstd::utf8::is_ascii_chars_encode_utf8(digits);
        assert forall|i: int| 0 <= i < 32 implies #[trigger] pair_at(bytes, i) == Pair::Byte(
            bytes_of_digits(digits)[i],
        ) by {
            assert(crate::text::is_hex_digit(digits[2 * i]));
            assert(crate::text::is_hex_digit(digits[2 * i + 1]));
            assert(bytes[2 * i] == digits[2 * i] as u8);
            assert(bytes[2 * i + 1] == digits[2 * i + 1] as u8);
            crate::text::lemma_two_byte_text(bytes[2 * i], bytes[2 * i + 1]);
        }
        lemma_no_fault(bytes, 0);
        assert(Seq::new(32, |i: int| pair_at(bytes, i)->Byte_0) =~= bytes_of_digits(digits));
    } else if token_reading(pasted) is Ok {
        assert forall|i: int| 0 <= i < 64 implies crate::text::hex_digit_value(
            #[trigger] bytes[i],
        ) is Some by {
            lemma_all_pairs_read(bytes, 0, i / 2);
            assert(pair_at(bytes, i / 2) is Byte);
            assert(i == 2 * (i / 2) || i == 2 * (i / 2) + 1);
        }
        lemma_ascii_bytes_are_ascii_text(digits);
        vstd::utf8::is_ascii_chars_encode_utf8(digits);
        assert forall|i: int| 0 <= i < digits.len() implies #[trigger] crate::text::is_hex_digit(
            digits[i],
        ) by {
            assert(bytes[i] == digits[i] as u8);
        }
    }
}

/// White space is tolerated: two texts that differ in nothing else are read
/// alike.
pub proof fn law_white_space_counts_for_nothing(pasted: Seq<char>, other: Seq<char>)
    requires
        crate::text::without_white_space(pasted) == crate::text::without_white_space(other),
    ensures
        token_reading(pasted) == token_reading(other),
        token_key(pasted) == token_key(other),
{
}

/// A token picked up with white space before and after it reads as the key it
/// was made of.
pub proof fn law_margins_are_tolerated(key: Seq<u8>, before: Seq<char>, after: Seq<char>)
    requires
        key.len() == 32,
        forall|i: int| 0 <= i < before.len() ==> #[trigger] crate::text::white_space(before[i]),
        forall|i: int| 0 <= i < after.len() ==> #[trigger] crate::text::white_space(after[i]),
    ensures
        token_reading(before + crate::text::hex(key) + after) == Ok::<Seq<u8>, Seq<char>>(key),
        crate::key::encodes_public_key(key) ==> token_key(before + crate::text::hex(key) + after)
            == Ok::<Seq<u8>, Seq<char>>(key),
{
    let token = crate::text::hex(key);
    let keep = |c: char| !crate::text::white_space(c);
    Seq::filter_distributes_over_add(before + token, after, keep);
    Seq::filter_distributes_over_add(before, token, keep);
    lemma_filter_keeps_none(before, keep);
    lemma_filter_keeps_none(after, keep);
    lemma_hex_holds_no_white_space(key);
    assert(crate::text::without_white_space(before + token + after) =~= token);
    law_token_reads_back(key, before + token + after);
}

/// A token that was cut short is refused, and told its length.
pub proof fn law_truncated_token_is_told_its_length(key: Seq<u8>, kept: int)
    requires
        key.len() == 32,
        0 <= kept < 64,
    ensures
        token_key(crate::text::hex(key).take(kept)) == Err::<Seq<u8>, Seq<char>>(
            "a contact token is 64 hex characters; this is "@ + crate::text::decimal(kept as nat),
        ),
{
    let token = crate::text::hex(key).take(kept);
    lemma_filter_keeps_all(token, |c: char| !crate::text::white_space(c));
    assert(crate::text::without_white_space(token) == token);
    assert(vstd::utf8::is_ascii_chars(token));
    vstd::utf8::is_ascii_chars_encode_utf8(token);
}

/// A token with a character in place of one of its digits that is none, and no
/// white space either, is refused as not hexadecimal.
pub proof fn law_mistyped_token_is_refused(key: Seq<u8>, at: int, typed: char)
    requires
        key.len() == 32,
        0 <= at < 64,
        typed <= '\u{7f}',
        !crate::text::white_space(typed),
        crate::text::hex_digit_value(typed as u8) is None,
    ensures
        token_key(crate::text::hex(key).update(at, typed)) == Err::<Seq<u8>, Seq<char>>(
            "a contact token must be hexadecimal"@,
        ),
{
    let token = crate::text::hex(key).update(at, typed);
    lemma_filter_keeps_all(token, |c: char| !crate::text::white_space(c));
    assert(crate::text::without_white_space(token) == token);
    assert(vstd::utf8::is_ascii_chars(token));
    vstd::utf8::is_ascii_chars_encode_utf8(token);
    let bytes = vstd::utf8::encode_utf8(token);
    let faulty = at / 2;
    assert forall|i: int| 0 <= i <= faulty implies (#[trigger] pair_at(bytes, i) is Byte <==> i
        < faulty) && pair_at(bytes, i) !is NotText by {
        assert(bytes[2 * i] == token[2 * i] as u8);
        assert(bytes[2 * i + 1] == token[2 * i + 1] as u8);
        crate::text::lemma_two_byte_text(bytes[2 * i], bytes[2 * i + 1]);
        assert(at == 2 * faulty || at == 2 * faulty + 1);
    }
    lemma_fault_found(bytes, 0, faulty);
}

/// A token is made of lowercase hexadecimal digits, two for each byte of the
/// key.
pub proof fn law_token_is_lowercase_hex(key: Seq<u8>)
    ensures
        crate::text::hex(key).len() == 2 * key.len(),
        forall|i: int|
            0 <= i < 2 * key.len() ==> {
                let c = #[trigger] crate::text::hex(key)[i];
                '0' <= c <= '9' || 'a' <= c <= 'f'
            },
{
}

/// Different keys have different tokens.
pub proof fn law_tokens_tell_keys_apart(key: Seq<u8>, other: Seq<u8>)
    requires
        key.len() == 32,
        other.len() == 32,
        crate::text::hex(key) == crate::text::hex(other),
    ensures
        key == other,
{
    lemma_hex_holds_no_white_space(key);
    law_token_reads_back(key, crate::text::hex(key));
    law_token_reads_back(other, crate::text::hex(key));
}

/// A token that reads, and that is in lowercase hexadecimal but for white
/// space, is the token of the key it reads as.
pub proof fn law_reading_writes_back(pasted: Seq<char>, key: Seq<u8>)
    requires
        token_reading(pasted) == Ok::<Seq<u8>, Seq<char>>(key),
        forall|i: int|
            0 <= i < crate::text::without_white_space(pasted).len() ==> {
                let c = #[trigger] crate::text::without_white_space(pasted)[i];
                '0' <= c <= '9' || 'a' <= c <= 'f'
            },
    ensures
        crate::text::hex(key) == crate::text::without_white_space(pasted),
{
    let token = crate::text::without_white_space(pasted);
    assert(vstd::utf8::is_ascii_chars(token));
    vstd::utf8::is_ascii_chars_encode_utf8(token);
    let bytes = vstd::utf8::encode_utf8(token);
    assert forall|i: int| 0 <= i < 64 implies #[trigger] crate::text::hex(key)[i] == token[i] by {
        let j = i / 2;
        lemma_all_pairs_read(bytes, 0, j);
        assert(bytes[2 * j] == token[2 * j] as u8);
        assert(bytes[2 * j + 1] == token[2 * j + 1] as u8);
        assert(key[j] == pair_at(bytes, j)->Byte_0);
        assert(i == 2 * j || i == 2 * j + 1);
    }
    assert(crate::text::hex(key) =~= token);
}

/// The display fingerprint of a key: its first six bytes in hexadecimal.
pub open spec fn fingerprint_text(key: Seq<u8>) -> Seq<char> {
    crate::text::hex(key.take(6))
}

/// The fingerprint is how the contact token begins.
pub proof fn law_fingerprint_begins_token(key: Seq<u8>)
    requires
        key.len() == 32,
    ensures
        fingerprint_text(key) == crate::text::hex(key).take(12),
{
    assert(fingerprint_text(key) =~= crate::text::hex(key).take(12));
}

/// A token reads as a key exactly when, but for white space, it is 64
/// characters, and the two in the place of each byte are the digit of its high
/// half and the digit of its low half, in lower or in upper case.
pub proof fn law_token_writes_its_key(pasted: Seq<char>, key: Seq<u8>)
    ensures
        ({
            let text = crate::text::without_white_space(pasted);
            let lower = "0123456789abcdef"@;
            let upper = "0123456789ABCDEF"@;
            token_reading(pasted) == Ok::<Seq<u8>, Seq<char>>(key) <==> {
                &&& text.len() == 64
                &&& key.len() == 32
                &&& forall|i: int|
                    0 <= i < 32 ==> {
                        let high = #[trigger] key[i] as int / 16;
                        let low = key[i] as int % 16;
                        &&& text[2 * i] == lower[high] || text[2 * i] == upper[high]
                        &&& text[2 * i + 1] == lower[low] || text[2 * i + 1] == upper[low]
                    }
            }
        }),
{
    let text = crate::text::without_white_space(pasted);
    let lower = "0123456789abcdef"@;
    let upper = "0123456789ABCDEF"@;
    law_exactly_hex_tokens_are_read(pasted);
    if token_reading(pasted) == Ok::<Seq<u8>, Seq<char>>(key) {
        assert forall|i: int| 0 <= i < 32 implies {
            let high = #[trigger] key[i] as int / 16;
            let low = key[i] as int % 16;
            &&& text[2 * i] == lower[high] || text[2 * i] == upper[high]
            &&& text[2 * i + 1] == lower[low] || text[2 * i + 1] == upper[low]
        } by {
            assert(crate::text::is_hex_digit(text[2 * i]));
            assert(crate::text::is_hex_digit(text[2 * i + 1]));
            let high = crate::text::lemma_digit_of_two_cases(text[2 * i]);
            let low = crate::text::lemma_digit_of_two_cases(text[2 * i + 1]);
            assert(key[i] as int / 16 == high && key[i] as int % 16 == low);
        }
    }
    if text.len() == 64 && key.len() == 32 && (forall|i: int|
        0 <= i < 32 ==> {
            let high = #[trigger] key[i] as int / 16;
            let low = key[i] as int % 16;
            &&& text[2 * i] == lower[high] || text[2 * i] == upper[high]
            &&& text[2 * i + 1] == lower[low] || text[2 * i + 1] == upper[low]
        }) {
        assert forall|i: int| 0 <= i < 64 implies #[trigger] crate::text::is_hex_digit(
            text[i],
        ) by {
            let byte = key[i / 2] as int;
            crate::text::lemma_digits(byte / 16);
            crate::text::lemma_digits(byte % 16);
            assert(i == 2 * (i / 2) || i == 2 * (i / 2) + 1);
            assert(crate::text::is_hex_digit(text[2 * (i / 2)]));
            assert(crate::text::is_hex_digit(text[2 * (i / 2) + 1]));
        }
        assert forall|i: int| 0 <= i < 32 implies #[trigger] bytes_of_digits(text)[i] == key[i] by {
            let byte = key[i] as int;
            crate::text::lemma_digits(byte / 16);
            crate::text::lemma_digits(byte % 16);
        }
        assert(bytes_of_digits(text) =~= key);
    }
}

/// A token that does not read is told why: how long it is, where that is not
/// 64; else what is wrong with the first two bytes that are no two hexadecimal
/// digits, which is that they are not, or that they cut a character apart.
pub proof fn law_faulty_token_is_told_why(pasted: Seq<char>, at: int)
    ensures
        ({
            let bytes = vstd::utf8::encode_utf8(crate::text::without_white_space(pasted));
            let digit = |b: u8|
                0x30 <= b <= 0x39 || 0x61 <= b <= 0x66 || 0x41 <= b <= 0x46;
            let first = bytes[2 * at];
            let second = bytes[2 * at + 1];
            &&& bytes.len() != 64 ==> token_reading(pasted) == Err::<Seq<u8>, Seq<char>>(
                "a contact token is 64 hex characters; this is "@ + crate::text::decimal(
                    bytes.len(),
                ),
            )
            &&& bytes.len() == 64 && 0 <= at < 32 && (forall|i: int|
                0 <= i < 2 * at ==> digit(#[trigger] bytes[i])) && !(digit(first) && digit(second))
                ==> token_reading(pasted) == Err::<Seq<u8>, Seq<char>>(
                if (first < 0x80 && second < 0x80) || (0xc2 <= first <= 0xdf && 0x80 <= second
                    <= 0xbf) {
                    "a contact token must be hexadecimal"@
                } else {
                    "token has invalid text"@
                },
            )
        }),
{
    let bytes = vstd::utf8::encode_utf8(crate::text::without_white_space(pasted));
    let digit = |b: u8| 0x30 <= b <= 0x39 || 0x61 <= b <= 0x66 || 0x41 <= b <= 0x46;
    if bytes.len() == 64 && 0 <= at < 32 && (forall|i: int|
        0 <= i < 2 * at ==> digit(#[trigger] bytes[i])) && !(digit(bytes[2 * at]) && digit(
        bytes[2 * at + 1],
    )) {
        crate::text::lemma_two_byte_text(bytes[2 * at], bytes[2 * at + 1]);
        assert forall|i: int| 0 <= i < at implies #[trigger] pair_at(bytes, i) is Byte by {
            assert(digit(bytes[2 * i]) && digit(bytes[2 * i + 1]));
            crate::text::lemma_two_byte_text(bytes[2 * i], bytes[2 * i + 1]);
        }
        lemma_fault_found(bytes, 0, at);
    }
}

/// A token names the key that it reads as, if those bytes encode one; else it
/// is told that they do not. What does not read is told why it does not.
pub proof fn law_token_names_a_key_it_reads_as(pasted: Seq<char>)
    ensures
        token_reading(pasted) matches Ok(bytes) ==> {
            &&& crate::key::encodes_public_key(bytes) ==> token_key(pasted) == Ok::<
                Seq<u8>,
                Seq<char>,
            >(bytes)
            &&& !crate::key::encodes_public_key(bytes) ==> token_key(pasted) == Err::<
                Seq<u8>,
                Seq<char>,
            >("not a valid identity key"@)
        },
        token_reading(pasted) matches Err(message) ==> token_key(pasted) == Err::<
            Seq<u8>,
            Seq<char>,
        >(message),
{
}

/// White space is tolerated anywhere: a text reads the same with a white space
/// character put into it at any place.
pub proof fn law_white_space_anywhere_is_tolerated(before: Seq<char>, c: char, after: Seq<char>)
    requires
        crate::text::white_space(c),
    ensures
        token_reading(before + seq![c] + after) == token_reading(before + after),
        token_key(before + seq![c] + after) == token_key(before + after),
{
    crate::text::law_one_character_more(before, c, after);
}

/// A token that was split at any place by white space, as one wrapped over two
/// lines is, reads as the key it was made of.
pub proof fn law_split_token_reads_back(key: Seq<u8>, at: int, gap: Seq<char>)
    requires
        key.len() == 32,
        0 <= at <= 64,
        forall|i: int| 0 <= i < gap.len() ==> #[trigger] crate::text::white_space(gap[i]),
    ensures
        ({
            let token = crate::text::hex(key);
            let split = token.take(at) + gap + token.skip(at);
            &&& token_reading(split) == Ok::<Seq<u8>, Seq<char>>(key)
            &&& crate::key::encodes_public_key(key) ==> token_key(split) == Ok::<
                Seq<u8>,
                Seq<char>,
            >(key)
        }),
    decreases gap.len(),
{
    let token = crate::text::hex(key);
    let split = token.take(at) + gap + token.skip(at);
    if gap.len() == 0 {
        assert(split =~= token);
        lemma_hex_holds_no_white_space(key);
        law_token_reads_back(key, split);
    } else {
        let fewer = gap.drop_last();
        assert forall|i: int| 0 <= i < fewer.len() implies #[trigger] crate::text::white_space(
            fewer[i],
        ) by {
            assert(crate::text::white_space(gap[i]));
        }
        law_split_token_reads_back(key, at, fewer);
        let last = gap.len() - 1;
        assert(crate::text::white_space(gap[last]));
        law_white_space_anywhere_is_tolerated(token.take(at) + fewer, gap[last], token.skip(at));
        assert(split =~= token.take(at) + fewer + seq![gap[last]] + token.skip(at));
    }
}

/// The fingerprint of a key shows its first six bytes, each as the digit of
/// its high half and the digit of its low half.
pub proof fn law_fingerprint_shows_six_bytes(key: Seq<u8>)
    requires
        key.len() == 32,
    ensures
        fingerprint_text(key).len() == 12,
        forall|i: int|
            0 <= i < 6 ==> {
                let high = #[trigger] key[i] as int / 16;
                let low = key[i] as int % 16;
                &&& fingerprint_text(key)[2 * i] == "0123456789abcdef"@[high]
                &&& fingerprint_text(key)[2 * i + 1] == "0123456789abcdef"@[low]
            },
{
    assert forall|i: int| 0 <= i < 6 implies {
        let high = #[trigger] key[i] as int / 16;
        let low = key[i] as int % 16;
        &&& fingerprint_text(key)[2 * i] == "0123456789abcdef"@[high]
        &&& fingerprint_text(key)[2 * i + 1] == "0123456789abcdef"@[low]
    } by {
        crate::text::lemma_digits(key[i] as int / 16);
        crate::text::lemma_digits(key[i] as int % 16);
        assert(key.take(6)[i] == key[i]);
        assert((2 * i + 1) / 2 == i && (2 * i + 1) % 2 == 1);
    }
}

} // verus!
