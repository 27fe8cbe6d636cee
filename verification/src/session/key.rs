//! The keys of this library and the text that stands for them.
//!
//! A key is a number of 128 bits, drawn at random as a version 4 UUID. As text
//! it is written like a UUID: thirty-two hexadecimal digits, most significant
//! first, in groups of 8, 4, 4, 4 and 12 with a hyphen between them. That is
//! the form that [`SessionKey::to_text`] writes. [`SessionKey::parse`] reads
//! it and three more: the digits without hyphens, the hyphenated form in
//! braces, and the hyphenated form behind `urn:uuid:`. It takes digits of
//! either case.
//!
//! Drawing, writing and reading are the work of the `uuid` crate. What this
//! module believes of it is said at the three functions that call it.

use crate::session::{ParseError, SessionKey};
use std::str::FromStr;
use uuid::Uuid;
use vstd::prelude::*;

verus! {

/// The value of a hexadecimal digit of either case, if `c` is one.
pub open spec fn hex_value(c: char) -> Option<nat> {
    let code = c as int;
    if '0' as int <= code <= '9' as int {
        Some((code - '0' as int) as nat)
    } else if 'a' as int <= code <= 'f' as int {
        Some((code - 'a' as int + 10) as nat)
    } else if 'A' as int <= code <= 'F' as int {
        Some((code - 'A' as int + 10) as nat)
    } else {
        None
    }
}

/// The lower-case hexadecimal digit for a value below sixteen.
pub open spec fn hex_digit(value: nat) -> char {
    if value < 10 {
        ('0' as int + value) as char
    } else {
        ('a' as int + value - 10) as char
    }
}

/// Whether every character is a hexadecimal digit.
pub open spec fn is_hex(digits: Seq<char>) -> bool {
    forall|i: int| 0 <= i < digits.len() ==> (#[trigger] hex_value(digits[i])) is Some
}

/// The number that hexadecimal digits spell, most significant digit first.
pub open spec fn hex_number(digits: Seq<char>) -> nat
    decreases digits.len(),
{
    if digits.len() == 0 {
        0
    } else {
        16 * hex_number(digits.drop_last()) + hex_value(digits.last()).unwrap()
    }
}

/// The `width` lowest hexadecimal digits of `number`, most significant first.
pub open spec fn hex_digits(number: nat, width: nat) -> Seq<char>
    decreases width,
{
    if width == 0 {
        Seq::empty()
    } else {
        hex_digits(number / 16, (width - 1) as nat).push(hex_digit(number % 16))
    }
}

/// Thirty-two characters in groups of 8, 4, 4, 4 and 12, a hyphen between
/// them.
pub open spec fn hyphenated(digits: Seq<char>) -> Seq<char> {
    digits.subrange(0, 8) + seq!['-'] + digits.subrange(8, 12) + seq!['-'] + digits.subrange(
        12,
        16,
    ) + seq!['-'] + digits.subrange(16, 20) + seq!['-'] + digits.subrange(20, 32)
}

/// What is left of thirty-six characters without those at the four places of
/// the hyphens.
pub open spec fn unhyphenated(text: Seq<char>) -> Seq<char> {
    text.subrange(0, 8) + text.subrange(9, 13) + text.subrange(14, 18) + text.subrange(19, 23)
        + text.subrange(24, 36)
}

/// Whether `text` is thirty-two hexadecimal digits in hyphenated groups.
pub open spec fn is_hyphenated(text: Seq<char>) -> bool {
    &&& text.len() == 36
    &&& text[8] == '-'
    &&& text[13] == '-'
    &&& text[18] == '-'
    &&& text[23] == '-'
    &&& is_hex(unhyphenated(text))
}

/// Whether `c` is the lower-case letter `letter` or its upper-case form.
pub open spec fn is_letter(c: char, letter: char) -> bool {
    c == letter || c as int + 32 == letter as int
}

/// Whether `prefix` reads `urn:uuid:`, in letters of either case.
pub open spec fn is_urn_prefix(prefix: Seq<char>) -> bool {
    &&& prefix.len() == 9
    &&& is_letter(prefix[0], 'u')
    &&& is_letter(prefix[1], 'r')
    &&& is_letter(prefix[2], 'n')
    &&& prefix[3] == ':'
    &&& is_letter(prefix[4], 'u')
    &&& is_letter(prefix[5], 'u')
    &&& is_letter(prefix[6], 'i')
    &&& is_letter(prefix[7], 'd')
    &&& prefix[8] == ':'
}

/// The text that stands for `key`: its thirty-two lower-case hexadecimal
/// digits, hyphenated.
pub open spec fn key_text(key: u128) -> Seq<char> {
    hyphenated(hex_digits(key as nat, 32))
}

/// The number that `text` stands for, if it has one of the four forms of a
/// key.
pub open spec fn key_value(text: Seq<char>) -> Option<nat> {
    if text.len() == 32 && is_hex(text) {
        Some(hex_number(text))
    } else if is_hyphenated(text) {
        Some(hex_number(unhyphenated(text)))
    } else if text.len() == 38 && text[0] == '{' && text[37] == '}' && is_hyphenated(
        text.subrange(1, 37),
    ) {
        Some(hex_number(unhyphenated(text.subrange(1, 37))))
    } else if text.len() == 45 && is_urn_prefix(text.subrange(0, 9)) && is_hyphenated(
        text.subrange(9, 45),
    ) {
        Some(hex_number(unhyphenated(text.subrange(9, 45))))
    } else {
        None
    }
}

/// What parsing `text` gives: the key that it stands for, or the reason why
/// it stands for none.
pub open spec fn parsed(text: Seq<char>) -> Result<u128, ParseError> {
    match key_value(text) {
        Some(value) => Ok(value as u128),
        None => Err(ParseError::InvalidKeyFormat),
    }
}

/// Whether `key` has the fixed bits of a version 4 UUID: version 4 in bits 76
/// to 79, and the two bits `10` of the variant in bits 62 and 63.
pub open spec fn is_version_4(key: u128) -> bool {
    key & 0x0000_0000_0000_f000_c000_0000_0000_0000 == 0x0000_0000_0000_4000_8000_0000_0000_0000
}

/// Sixteen to the power of `width`.
spec fn pow16(width: nat) -> nat
    decreases width,
{
    if width == 0 {
        1
    } else {
        16 * pow16((width - 1) as nat)
    }
}

/// Calls `Uuid::new_v4` and hands out the UUID as a number (`Uuid::as_u128`).
///
/// The UUID is random, so nothing is said of the number but what `new_v4`
/// fixes in every UUID it makes: the version and the variant. `new_v4` panics
/// where the operating system has no randomness to give.
#[verifier::external_body]
fn random_uuid() -> (key: u128)
    ensures
        is_version_4(key),
{
    Uuid::new_v4().as_u128()
}

/// Calls `Uuid::from_str` and hands out the UUID as a number
/// (`Uuid::as_u128`).
///
/// The parser takes a text of 32, 36, 38 or 45 bytes: 32 hexadecimal digits;
/// the same with hyphens after the 8th, 12th, 16th and 20th digit; that in
/// braces; that behind `urn:uuid:`, whose letters may have either case. It
/// refuses every other text. The digits, of either case, are the number's
/// from the most significant down. A text in one of these forms is ASCII
/// throughout, so its bytes are its characters.
#[verifier::external_body]
fn parse_uuid(text: &str) -> (outcome: Option<u128>)
    ensures
        match outcome {
            Some(key) => key_value(text@) == Some(key as nat),
            None => key_value(text@) is None,
        },
{
    match Uuid::from_str(text) {
        Ok(id) => Some(id.as_u128()),
        Err(_) => None,
    }
}

/// Calls `Uuid::from_u128` and writes the UUID with `to_string`.
///
/// `to_string` goes by `Display`, which for a `Uuid` writes the hyphenated
/// form in lower case.
#[verifier::external_body]
fn format_uuid(key: u128) -> (text: String)
    ensures
        text@ == key_text(key),
{
    Uuid::from_u128(key).to_string()
}

impl SessionKey for u128 {
    /// A key drawn at random.
    fn generate() -> (key: u128)
        ensures
            is_version_4(key),
    {
        random_uuid()
    }

    /// The key that `text` stands for, in any of the four forms.
    fn parse(text: &str) -> (outcome: Result<u128, ParseError>)
        ensures
            outcome == parsed(text@),
    {
        match parse_uuid(text) {
            Some(key) => Ok(key),
            None => Err(ParseError::InvalidKeyFormat),
        }
    }

    /// The hyphenated lower-case text of the key.
    fn to_text(&self) -> (text: String)
        ensures
            text@ == key_text(*self),
    {
        format_uuid(*self)
    }
}

proof fn lemma_hex_digit_value(value: nat)
    requires
        value < 16,
    ensures
        hex_value(hex_digit(value)) == Some(value),
{
}

proof fn lemma_hex_digits(number: nat, width: nat)
    requires
        number < pow16(width),
    ensures
        hex_digits(number, width).len() == width,
        is_hex(hex_digits(number, width)),
        hex_number(hex_digits(number, width)) == number,
    decreases width,
{
    if width > 0 {
        let front = hex_digits(number / 16, (width - 1) as nat);
        let all = hex_digits(number, width);
        lemma_hex_digits(number / 16, (width - 1) as nat);
        lemma_hex_digit_value(number % 16);
        assert(all == front.push(hex_digit(number % 16)));
        assert(all.drop_last() =~= front);
        assert forall|i: int| 0 <= i < all.len() implies (#[trigger] hex_value(all[i])) is Some by {
            if i < front.len() {
                assert(all[i] == front[i]);
            }
        }
    }
}

proof fn lemma_hyphenated(digits: Seq<char>)
    requires
        digits.len() == 32,
    ensures
        hyphenated(digits).len() == 36,
        hyphenated(digits)[8] == '-',
        hyphenated(digits)[13] == '-',
        hyphenated(digits)[18] == '-',
        hyphenated(digits)[23] == '-',
        unhyphenated(hyphenated(digits)) == digits,
{
    assert(unhyphenated(hyphenated(digits)) =~= digits);
}

/// Sixteen to the power of thirty-two is two to the power of 128: the
/// thirty-two digits of a key are exactly enough for every key.
proof fn lemma_pow16_of_key_width()
    ensures
        pow16(32) == 0x1_0000_0000_0000_0000_0000_0000_0000_0000,
{
    reveal_with_fuel(pow16, 33);
}

/// A key survives the way to the client and back: the text that is written
/// for a key is read as that key.
pub proof fn lemma_key_round_trip(key: u128)
    ensures
        key_value(key_text(key)) == Some(key as nat),
        parsed(key_text(key)) == Ok::<u128, ParseError>(key),
{
    let digits = hex_digits(key as nat, 32);
    lemma_pow16_of_key_width();
    lemma_hex_digits(key as nat, 32);
    lemma_hyphenated(digits);
}

/// Two keys never share a text.
pub proof fn lemma_key_text_injective(a: u128, b: u128)
    requires
        key_text(a) == key_text(b),
    ensures
        a == b,
{
    lemma_key_round_trip(a);
    lemma_key_round_trip(b);
}

} // verus!
