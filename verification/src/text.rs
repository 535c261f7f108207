//! Characters, digits and numbers as text.

use vstd::prelude::*;

verus! {

/// `String::push` appends one character to the end of the string, and changes
/// nothing else.
pub assume_specification[ String::push ](s: &mut String, ch: char)
    ensures
        final(s)@ == old(s)@.push(ch),
;

/// The Unicode `White_Space` property.
pub open spec fn white_space(c: char) -> bool {
    ||| '\u{9}' <= c <= '\u{d}'
    ||| c == ' '
    ||| c == '\u{85}'
    ||| c == '\u{a0}'
    ||| c == '\u{1680}'
    ||| '\u{2000}' <= c <= '\u{200a}'
    ||| '\u{2028}' <= c <= '\u{2029}'
    ||| c == '\u{202f}'
    ||| c == '\u{205f}'
    ||| c == '\u{3000}'
}

/// Whether `c` is white space.
pub fn is_white_space(c: char) -> (blank: bool)
    ensures
        blank == white_space(c),
{
    ('\u{9}' <= c && c <= '\u{d}') || c == ' ' || c == '\u{85}' || c == '\u{a0}' || c == '\u{1680}'
        || ('\u{2000}' <= c && c <= '\u{200a}') || ('\u{2028}' <= c && c <= '\u{2029}') || c
        == '\u{202f}' || c == '\u{205f}' || c == '\u{3000}'
}

/// What is left of `text` when the white space is taken out.
pub open spec fn without_white_space(text: Seq<char>) -> Seq<char> {
    text.filter(|c: char| !white_space(c))
}

/// `text` without its white space.
pub fn strip_white_space(text: &str) -> (stripped: String)
    ensures
        stripped@ == without_white_space(text@),
{
    let mut stripped = String::new();
    let ghost keep = |c: char| !white_space(c);
    proof {
        assert(text@.take(0) =~= Seq::<char>::empty());
        reveal(Seq::filter);
    }
    for c in chars: text.chars()
        invariant
            chars.seq() == text@,
            keep == (|c: char| !white_space(c)),
            stripped@ == text@.take(chars.index()).filter(keep),
    {
        proof {
            let i = chars.index();
            reveal(Seq::filter);
            assert(text@.take(i + 1).drop_last() =~= text@.take(i));
            assert(text@.take(i + 1).last() == c);
        }
        if !is_white_space(c) {
            stripped.push(c);
        }
    }
    proof {
        assert(text@.take(text@.len() as int) =~= text@);
    }
    stripped
}

/// The decimal numeral of `n`, with no leading zero.
pub open spec fn decimal(n: nat) -> Seq<char>
    decreases n,
{
    if n < 10 {
        seq![('0' as int + n) as char]
    } else {
        decimal(n / 10).push(('0' as int + n % 10) as char)
    }
}

/// `n` in decimal.
pub fn decimal_text(n: usize) -> (numeral: String)
    ensures
        numeral@ == decimal(n as nat),
    decreases n,
{
    let last: char = ('0' as u8 + (n % 10) as u8) as char;
    let mut numeral = if n < 10 {
        String::new()
    } else {
        decimal_text(n / 10)
    };
    numeral.push(last);
    proof {
        assert(numeral@ =~= decimal(n as nat));
    }
    numeral
}

/// The lowercase hexadecimal digit that stands for `n`, which is below 16.
pub open spec fn hex_digit(n: int) -> char {
    if n < 10 {
        ('0' as int + n) as char
    } else {
        ('a' as int + n - 10) as char
    }
}

/// Two lowercase hexadecimal digits for each byte, the high half first.
pub open spec fn hex(bytes: Seq<u8>) -> Seq<char> {
    Seq::new(
        2 * bytes.len(),
        |i: int|
            if i % 2 == 0 {
                hex_digit(bytes[i / 2] as int / 16)
            } else {
                hex_digit(bytes[i / 2] as int % 16)
            },
    )
}

/// The lowercase hexadecimal digit for `n`.
fn hex_digit_char(n: u8) -> (digit: char)
    requires
        n < 16,
    ensures
        digit == hex_digit(n as int),
{
    if n < 10 {
        ('0' as u8 + n) as char
    } else {
        ('a' as u8 + (n - 10)) as char
    }
}

/// `bytes` in lowercase hexadecimal.
pub fn hex_text(bytes: &[u8]) -> (digits: String)
    ensures
        digits@ == hex(bytes@),
{
    let mut digits = String::new();
    for i in 0..bytes.len()
        invariant
            digits@ == hex(bytes@.take(i as int)),
    {
        let byte: u8 = bytes[i];
        digits.push(hex_digit_char(byte / 16));
        digits.push(hex_digit_char(byte % 16));
        proof {
            assert(digits@ =~= hex(bytes@.take(i + 1)));
        }
    }
    proof {
        assert(bytes@.take(bytes@.len() as int) =~= bytes@);
    }
    digits
}

/// The value of a hexadecimal digit of either case.
pub open spec fn hex_digit_value(digit: u8) -> Option<int> {
    if '0' as u8 <= digit <= '9' as u8 {
        Some(digit - '0' as u8)
    } else if 'a' as u8 <= digit <= 'f' as u8 {
        Some(digit - 'a' as u8 + 10)
    } else if 'A' as u8 <= digit <= 'F' as u8 {
        Some(digit - 'A' as u8 + 10)
    } else {
        None
    }
}

/// Whether `c` is a hexadecimal digit, of either case.
pub open spec fn is_hex_digit(c: char) -> bool {
    '0' <= c <= '9' || 'a' <= c <= 'f' || 'A' <= c <= 'F'
}

/// The number that two hexadecimal digits write, the high half first.
pub open spec fn hex_pair_value(first: u8, second: u8) -> Option<int> {
    match (hex_digit_value(first), hex_digit_value(second)) {
        (Some(high), Some(low)) => Some(16 * high + low),
        _ => None,
    }
}

/// The value of the hexadecimal digit `digit`, if it is one.
fn read_hex_digit(digit: u8) -> (value: Option<u8>)
    ensures
        match value {
            Some(v) => v < 16 && hex_digit_value(digit) == Some(v as int),
            None => hex_digit_value(digit) is None,
        },
{
    if '0' as u8 <= digit && digit <= '9' as u8 {
        Some(digit - '0' as u8)
    } else if 'a' as u8 <= digit && digit <= 'f' as u8 {
        Some(digit - 'a' as u8 + 10)
    } else if 'A' as u8 <= digit && digit <= 'F' as u8 {
        Some(digit - 'A' as u8 + 10)
    } else {
        None
    }
}

/// What two neighbouring bytes of a longer text say.
#[derive(Clone, Copy, Debug, PartialEq, Eq)]
pub enum Pair {
    /// A byte in hexadecimal.
    Byte(u8),
    /// Whole characters, but not a number in hexadecimal.
    NotHex,
    /// A character that was cut apart.
    NotText,
}

/// What the bytes `first` and `second` say.
pub open spec fn pair(first: u8, second: u8) -> Pair {
    if !vstd::utf8::valid_utf8(seq![first, second]) {
        Pair::NotText
    } else {
        match hex_pair_value(first, second) {
            Some(value) => Pair::Byte(value as u8),
            None => Pair::NotHex,
        }
    }
}

/// Two bytes are text when both are ASCII, or when they are one character of
/// two bytes.
pub proof fn lemma_two_byte_text(first: u8, second: u8)
    ensures
        vstd::utf8::valid_utf8(seq![first, second]) <==> {
            ||| first < 0x80 && second < 0x80
            ||| 0xc2 <= first <= 0xdf && 0x80 <= second <= 0xbf
        },
{
    let both = seq![first, second];
    reveal_with_fuel(vstd::utf8::valid_utf8, 3);
    assert(both.subrange(1, 2) =~= seq![second]);
    assert(both.subrange(2, 2) =~= Seq::<u8>::empty());
    assert(seq![second].subrange(1, 1) =~= Seq::<u8>::empty());
    assert((first & 0x7f) as u32 <= 0x7f) by (bit_vector);
    assert((second & 0x7f) as u32 <= 0x7f) by (bit_vector);
    assert(0xc0 <= first <= 0xdf && 0x80 <= second <= 0xbf ==> {
        let scalar: u32 = (((first & 0x1f) as u32) << 6) | ((second & 0x3f) as u32);
        scalar < 0x800 && (0x80 <= scalar <==> 0xc2 <= first)
    }) by (bit_vector);
}

/// Reads the bytes `first` and `second`.
pub fn read_pair(first: u8, second: u8) -> (said: Pair)
    ensures
        said == pair(first, second),
{
    proof {
        lemma_two_byte_text(first, second);
    }
    let ascii = first < 0x80 && second < 0x80;
    let one_character = 0xc2 <= first && first <= 0xdf && 0x80 <= second && second <= 0xbf;
    if !ascii && !one_character {
        return Pair::NotText;
    }
    match (read_hex_digit(first), read_hex_digit(second)) {
        (Some(high), Some(low)) => Pair::Byte(16 * high + low),
        _ => Pair::NotHex,
    }
}

/// There are these twenty-five white space characters, and no others.
pub proof fn law_white_space_characters(c: char)
    ensures
        white_space(c) <==> set![
            '\t', '\n', '\u{b}', '\u{c}', '\r', ' ', '\u{85}', '\u{a0}', '\u{1680}', '\u{2000}',
            '\u{2001}', '\u{2002}', '\u{2003}', '\u{2004}', '\u{2005}', '\u{2006}', '\u{2007}',
            '\u{2008}', '\u{2009}', '\u{200a}', '\u{2028}', '\u{2029}', '\u{202f}', '\u{205f}',
            '\u{3000}',
        ].contains(c),
{
}

/// White space is taken out wherever it stands, and nothing else is: a text
/// put together of two loses what each of them loses, a white space character
/// leaves nothing, and any other character stays.
pub proof fn law_white_space_is_taken_out(before: Seq<char>, c: char, after: Seq<char>)
    ensures
        without_white_space(before + after) == without_white_space(before) + without_white_space(
            after,
        ),
        without_white_space(Seq::empty()) == Seq::<char>::empty(),
        white_space(c) ==> without_white_space(seq![c]) == Seq::<char>::empty(),
        !white_space(c) ==> without_white_space(seq![c]) == seq![c],
{
    let keep = |c: char| !white_space(c);
    Seq::filter_distributes_over_add(before, after, keep);
    reveal_with_fuel(Seq::filter, 3);
    assert(seq![c].drop_last() =~= Seq::<char>::empty());
}

/// A white space character anywhere in a text makes no difference to it; any
/// other character is kept, between what is kept of the text before it and
/// after it.
pub proof fn law_one_character_more(before: Seq<char>, c: char, after: Seq<char>)
    ensures
        white_space(c) ==> without_white_space(before + seq![c] + after) == without_white_space(
            before + after,
        ),
        !white_space(c) ==> without_white_space(before + seq![c] + after)
            == without_white_space(before) + seq![c] + without_white_space(after),
{
    law_white_space_is_taken_out(before + seq![c], c, after);
    law_white_space_is_taken_out(before, c, seq![c]);
    law_white_space_is_taken_out(before, c, after);
    assert(without_white_space(before) + Seq::<char>::empty() =~= without_white_space(before));
}

/// A numeral of one digit is that digit, and any other is the numeral of its
/// tens followed by its last digit.
pub proof fn law_decimal_numerals(tens: nat, digit: nat)
    requires
        digit < 10,
    ensures
        decimal(digit) == seq!["0123456789"@[digit as int]],
        tens > 0 ==> decimal(10 * tens + digit) == decimal(tens) + decimal(digit),
{
    reveal_strlit("0123456789");
    assert(digit == 0 || digit == 1 || digit == 2 || digit == 3 || digit == 4 || digit == 5
        || digit == 6 || digit == 7 || digit == 8 || digit == 9);
    if tens > 0 {
        let n: nat = 10 * tens + digit;
        assert(n / 10 == tens && n % 10 == digit);
        assert(decimal(n) =~= decimal(tens) + decimal(digit));
    }
}

/// The digits of a byte in hexadecimal, in lower and in upper case.
pub proof fn lemma_digits(n: int)
    requires
        0 <= n < 16,
    ensures
        "0123456789abcdef"@.len() == 16,
        "0123456789ABCDEF"@.len() == 16,
        hex_digit(n) == "0123456789abcdef"@[n],
        hex_digit_value("0123456789abcdef"@[n] as u8) == Some(n),
        hex_digit_value("0123456789ABCDEF"@[n] as u8) == Some(n),
        is_hex_digit("0123456789abcdef"@[n]),
        is_hex_digit("0123456789ABCDEF"@[n]),
{
    reveal_strlit("0123456789abcdef");
    reveal_strlit("0123456789ABCDEF");
    assert(n == 0 || n == 1 || n == 2 || n == 3 || n == 4 || n == 5 || n == 6 || n == 7 || n == 8
        || n == 9 || n == 10 || n == 11 || n == 12 || n == 13 || n == 14 || n == 15);
}

/// A byte is written as the digit of its high half and the digit of its low
/// half, and bytes after each other as their digits after each other.
pub proof fn law_hexadecimal_digits(byte: u8, bytes: Seq<u8>, more: Seq<u8>)
    ensures
        hex(seq![byte]) == seq![
            "0123456789abcdef"@[byte as int / 16],
            "0123456789abcdef"@[byte as int % 16],
        ],
        hex(bytes + more) == hex(bytes) + hex(more),
        hex(Seq::empty()) == Seq::<char>::empty(),
{
    lemma_digits(byte as int / 16);
    lemma_digits(byte as int % 16);
    assert(hex(bytes + more) =~= hex(bytes) + hex(more)) by {
        assert forall|i: int| 0 <= i < 2 * (bytes.len() + more.len()) implies #[trigger] hex(
            bytes + more,
        )[i] == (hex(bytes) + hex(more))[i] by {
            if i >= 2 * bytes.len() {
                let j = i - 2 * bytes.len();
                assert(i % 2 == j % 2);
                assert(i / 2 == bytes.len() + j / 2);
            } else {
                assert(i / 2 < bytes.len());
            }
        }
    }
}

/// Only the digits of a number stand for it: a byte that reads as the digit
/// `n` is that digit in lower or in upper case.
pub proof fn lemma_value_has_two_digits(digit: u8, n: int)
    requires
        hex_digit_value(digit) == Some(n),
    ensures
        0 <= n < 16,
        digit == "0123456789abcdef"@[n] as u8 || digit == "0123456789ABCDEF"@[n] as u8,
{
    reveal_strlit("0123456789abcdef");
    reveal_strlit("0123456789ABCDEF");
    assert(n == 0 || n == 1 || n == 2 || n == 3 || n == 4 || n == 5 || n == 6 || n == 7 || n == 8
        || n == 9 || n == 10 || n == 11 || n == 12 || n == 13 || n == 14 || n == 15);
}

/// The same of a character.
pub proof fn lemma_digit_of_two_cases(c: char) -> (n: int)
    requires
        is_hex_digit(c),
    ensures
        0 <= n < 16,
        hex_digit_value(c as u8) == Some(n),
        c == "0123456789abcdef"@[n] || c == "0123456789ABCDEF"@[n],
{
    let n = hex_digit_value(c as u8)->Some_0;
    lemma_value_has_two_digits(c as u8, n);
    lemma_digits(n);
    assert(c <= 'f');
    assert(c as u8 as char == c);
    n
}

/// Two bytes say the byte whose high half the first is the digit of, and whose
/// low half the second is the digit of, in lower or in upper case. Two bytes
/// that are not text are told as such, and all others as not hexadecimal.
pub proof fn law_pairs_of_digits(first: u8, second: u8, byte: u8)
    ensures
        ({
            let lower = "0123456789abcdef"@;
            let upper = "0123456789ABCDEF"@;
            let high = byte as int / 16;
            let low = byte as int % 16;
            pair(first, second) == Pair::Byte(byte) <==> {
                &&& first == lower[high] as u8 || first == upper[high] as u8
                &&& second == lower[low] as u8 || second == upper[low] as u8
            }
        }),
        pair(first, second) is NotText <==> !(first < 0x80 && second < 0x80) && !(0xc2 <= first
            <= 0xdf && 0x80 <= second <= 0xbf),
{
    lemma_two_byte_text(first, second);
    lemma_digits(byte as int / 16);
    lemma_digits(byte as int % 16);
    if let Some(n) = hex_digit_value(first) {
        lemma_value_has_two_digits(first, n);
    }
    if let Some(n) = hex_digit_value(second) {
        lemma_value_has_two_digits(second, n);
    }
}

} // verus!
