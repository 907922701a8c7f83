//! Identifiers. A UUID is carried as the 128-bit integer that the `uuid`
//! crate gives for it (`Uuid::as_u128`).
use vstd::prelude::*;

use crate::addrtext::digit_char;

verus! {

/// A player's identifier: the 128-bit value of the player's UUID.
pub type UserId = u128;

/// A network client's identifier, as the replication layer numbers them.
pub type ClientId = u64;

/// An ECS entity, by its 64-bit encoding.
pub type EntityId = u64;

#[verifier::external_type_specification]
#[verifier::external_body]
pub struct ExUuidError(uuid::Error);

/// The value of a hexadecimal digit, either case.
pub open spec fn hex_value(c: char) -> Option<nat> {
    if 48 <= (c as int) <= 57 {
        Some((c as int - 48) as nat)
    } else if 97 <= (c as int) <= 102 {
        Some((c as int - 87) as nat)
    } else if 65 <= (c as int) <= 70 {
        Some((c as int - 55) as nat)
    } else {
        None
    }
}

/// The number a run of hexadecimal digits spells, most significant first,
/// or `None` when a character is not a hexadecimal digit.
pub open spec fn hex_digits_value(s: Seq<char>) -> Option<nat>
    decreases s.len(),
{
    if s.len() == 0 {
        Some(0)
    } else {
        match (hex_digits_value(s.drop_last()), hex_value(s.last())) {
            (Some(h), Some(d)) => Some(h * 16 + d),
            _ => None,
        }
    }
}

/// The value of 32 hexadecimal digits.
pub open spec fn simple_uuid(s: Seq<char>) -> Option<u128> {
    match hex_digits_value(s) {
        Some(v) => Some(v as u128),
        None => None,
    }
}

/// The value of the hyphenated form: 36 characters, hyphens at 8, 13, 18
/// and 23, hexadecimal digits elsewhere.
pub open spec fn hyphenated_uuid(s: Seq<char>) -> Option<u128> {
    if s.len() == 36 && s[8] == '-' && s[13] == '-' && s[18] == '-' && s[23] == '-' {
        simple_uuid(
            s.subrange(0, 8) + s.subrange(9, 13) + s.subrange(14, 18) + s.subrange(19, 23) + s.subrange(
                24,
                36,
            ),
        )
    } else {
        None
    }
}

/// The 128-bit value that `uuid::Uuid::parse_str` reads from a text, or
/// `None` where it refuses the text. It takes 32 hexadecimal digits, the
/// hyphenated `8-4-4-4-12` form, that form in braces, or that form after
/// `urn:uuid:`; digits may be of either case.
pub open spec fn uuid_parse(text: Seq<char>) -> Option<u128> {
    if text.len() == 32 {
        simple_uuid(text)
    } else if text.len() == 36 {
        hyphenated_uuid(text)
    } else if text.len() == 38 && text[0] == '{' && text[37] == '}' {
        hyphenated_uuid(text.subrange(1, 37))
    } else if text.len() == 45 && text.subrange(0, 9) == seq!['u', 'r', 'n', ':', 'u', 'u', 'i', 'd', ':'] {
        hyphenated_uuid(text.subrange(9, 45))
    } else {
        None
    }
}

/// Calls `uuid::Uuid::parse_str` and hands back the parsed UUID's 128-bit
/// value (`Uuid::as_u128`, most significant digit first). The contract
/// states the crate's parser (`try_parse`): `Ok(v)` exactly where
/// `uuid_parse` gives `Some(v)`, an error where it gives `None`. The crate
/// reads bytes; every accepted form is ASCII, so reading characters gives
/// the same answer.
#[verifier::external_body]
pub(crate) fn parse_uuid(text: &str) -> (r: Result<u128, uuid::Error>)
    ensures
        match r {
            Ok(v) => uuid_parse(text@) == Some(v),
            Err(_) => uuid_parse(text@) is None,
        },
{
    match uuid::Uuid::parse_str(text) {
        Ok(id) => Ok(id.as_u128()),
        Err(e) => Err(e),
    }
}

/// Whether a 128-bit value is that of a version-4 (random) UUID of the
/// RFC 9562 variant: version nibble 4, variant bits `10`.
pub open spec fn is_v4_uuid(v: u128) -> bool {
    v & 0x0000_0000_0000_F000_C000_0000_0000_0000u128 == 0x0000_0000_0000_4000_8000_0000_0000_0000u128
}

/// Calls `uuid::Uuid::new_v4` and hands back the 128-bit value of the
/// random UUID it makes. The value is random; what is claimed of it is what
/// `new_v4` fixes of every value: the version and variant bits.
#[verifier::external_body]
pub(crate) fn random_uuid() -> (v: u128)
    ensures
        is_v4_uuid(v),
{
    uuid::Uuid::new_v4().as_u128()
}

/// The 32 hexadecimal digits of a UUID's value, most significant first.
pub open spec fn uuid_hex(v: u128) -> Seq<char> {
    Seq::new(32, |i: int| digit_char(((v >> ((124 - 4 * i) as u128)) % 16) as nat))
}

/// A UUID in its hyphenated lower-case form: `8-4-4-4-12` hexadecimal
/// digits.
pub open spec fn uuid_text(v: u128) -> Seq<char> {
    let h = uuid_hex(v);
    h.subrange(0, 8) + seq!['-'] + h.subrange(8, 12) + seq!['-'] + h.subrange(12, 16) + seq!['-']
        + h.subrange(16, 20) + seq!['-'] + h.subrange(20, 32)
}

/// Calls `uuid::Uuid::from_u128` and writes the UUID with `to_string`,
/// which the crate's `Display` gives in the hyphenated lower-case form of
/// its 16 bytes, most significant first; the contract states that text.
#[verifier::external_body]
pub(crate) fn uuid_string(v: u128) -> (s: String)
    ensures
        s@ == uuid_text(v),
{
    uuid::Uuid::from_u128(v).to_string()
}

proof fn lemma_hex_value_of_digit(d: nat)
    requires
        d < 16,
    ensures
        hex_value(digit_char(d)) == Some(d),
{
}

/// The first `k` digits of a UUID's text spell its value shifted right by
/// the remaining digits.
proof fn lemma_uuid_hex_prefix(v: u128, k: int)
    requires
        1 <= k <= 32,
    ensures
        hex_digits_value(uuid_hex(v).take(k)) == Some((v >> ((128 - 4 * k) as u128)) as nat),
    decreases k,
{
    let h = uuid_hex(v);
    let i = k - 1;
    let d = ((v >> ((124 - 4 * i) as u128)) % 16) as nat;
    assert(h.take(k).last() == h[i]);
    assert(h[i] == digit_char(d));
    lemma_hex_value_of_digit(d);
    assert(h.take(k).drop_last() =~= h.take(i));
    if k == 1 {
        assert(h.take(0) =~= Seq::<char>::empty());
        assert((v >> 124u128) % 16 == v >> 124u128) by (bit_vector);
    } else {
        lemma_uuid_hex_prefix(v, i);
        let sh: u128 = (128 - 4 * k) as u128;
        assert((v >> sh) == (v >> ((sh + 4) as u128)) * 16 + (v >> sh) % 16) by (bit_vector)
            requires
                sh <= 120,
        ;
    }
}

/// A UUID written in its hyphenated form reads back as the same value.
pub proof fn lemma_uuid_text_parses(v: u128)
    ensures
        uuid_parse(uuid_text(v)) == Some(v),
{
    let h = uuid_hex(v);
    let t = uuid_text(v);
    assert(t.len() == 36);
    assert(t[8] == '-' && t[13] == '-' && t[18] == '-' && t[23] == '-');
    assert(t.subrange(0, 8) + t.subrange(9, 13) + t.subrange(14, 18) + t.subrange(19, 23) + t.subrange(24, 36)
        =~= h);
    lemma_uuid_hex_prefix(v, 32);
    assert(h.take(32) =~= h);
    assert(v >> 0u128 == v) by (bit_vector);
}

} // verus!
