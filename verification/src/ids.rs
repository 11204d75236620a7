//! Identifiers. Every record is known by a UUID, which this crate holds as
//! the 128-bit integer of its sixteen bytes, the first byte uppermost.

use vstd::prelude::*;
use crate::text::hex_char;
use crate::text::hex_of;

verus! {

/// The hexadecimal digit of an identifier at a place, counted from the
/// most significant digit, which is at place zero.
pub open spec fn nibble(id: u128, place: int) -> int
    recommends
        0 <= place < 32,
{
    (id as int / vstd::arithmetic::power::pow(16, (31 - place) as nat)) % 16
}

/// The digits of an identifier at the places from `from` up to `to`.
pub open spec fn nibbles(id: u128, from: int, to: int) -> Seq<char>
    recommends
        0 <= from <= to <= 32,
{
    Seq::new((to - from) as nat, |i: int| hex_char(nibble(id, from + i)))
}

/// The usual text of a UUID: thirty-two lower-case hexadecimal digits in
/// groups of eight, four, four, four and twelve, with hyphens between.
pub open spec fn hyphenated(id: u128) -> Seq<char> {
    nibbles(id, 0, 8) + seq!['-'] + nibbles(id, 8, 12) + seq!['-'] + nibbles(id, 12, 16) + seq![
        '-',
    ] + nibbles(id, 16, 20) + seq!['-'] + nibbles(id, 20, 32)
}

/// The identifier that `uuid` reads from a text, if it reads one.
pub uninterp spec fn uuid_parsed(text: Seq<char>) -> Option<u128>;

/// The version that an identifier names in its thirteenth digit.
pub open spec fn uuid_version(id: u128) -> int {
    nibble(id, 12)
}

/// A new identifier from `uuid::Uuid::new_v4`: sixteen random bytes, with
/// the digit of the version set to four. Which identifier comes is open;
/// the call fails where the system gives no random bytes.
#[verifier::external_body]
pub(crate) fn fresh_id() -> (id: u128)
    ensures
        uuid_version(id) == 4,
{
    uuid::Uuid::new_v4().as_u128()
}

/// Reads an identifier with `uuid::Uuid::parse_str`, which takes
/// hexadecimal digits with optional hyphens, in any of the forms that
/// `uuid` writes. What it reads from a text depends on the text alone, and
/// the hyphenated text of an identifier is read back as that identifier.
#[verifier::external_body]
pub(crate) fn parse_uuid(text: &str) -> (r: Option<u128>)
    ensures
        r == uuid_parsed(text@),
        forall|id: u128| text@ == #[trigger] hyphenated(id) ==> r == Some(id),
{
    match uuid::Uuid::parse_str(text) {
        Ok(id) => Some(id.as_u128()),
        Err(_) => None,
    }
}

fn push_nibbles(out: &mut String, id: u128, from: u32, to: u32)
    requires
        from <= to <= 32,
    ensures
        final(out)@ == old(out)@ + nibbles(id, from as int, to as int),
{
    let mut place: u32 = from;
    while place < to
        invariant
            from <= place <= to <= 32,
            out@ == old(out)@ + nibbles(id, from as int, place as int),
        decreases to - place,
    {
        let shift: u32 = 4 * (31 - place);
        let digit: u8 = ((id >> shift) & 0xf) as u8;
        proof {
            let p = vstd::arithmetic::power::pow(16, (31 - place) as nat);
            assert(((id >> shift) & 0xf) == (id as int / p) % 16) by {
                lemma_shift_is_division(id, (31 - place) as u32);
            }
        }
        out.push(hex_of(digit));
        assert(out@ =~= old(out)@ + nibbles(id, from as int, place + 1));
        place += 1;
    }
}

/// Shifting an identifier right by whole digits divides it by a power of
/// sixteen.
proof fn lemma_shift_is_division(id: u128, digits: u32)
    requires
        digits < 32,
    ensures
        ((id >> ((4 * digits) as u32)) & 0xf) == (id as int / vstd::arithmetic::power::pow(
            16,
            digits as nat,
        )) % 16,
        ((id >> ((4 * digits) as u32)) & 0xf) < 16,
{
    let shift: u32 = (4 * digits) as u32;
    let shifted: u128 = id >> shift;
    assert(shifted & 0xf == shifted % 16) by (bit_vector);
    assert((shifted & 0xf) < 16) by (bit_vector);
    vstd::bits::lemma_u128_shr_is_div(id, shift as u128);
    vstd::arithmetic::power2::lemma_pow2(shift as nat);
    lemma_pow16(digits as nat);
}

/// Sixteen to a power is two to four times that power.
proof fn lemma_pow16(n: nat)
    ensures
        vstd::arithmetic::power::pow(16, n) == vstd::arithmetic::power::pow(2, 4 * n),
    decreases n,
{
    vstd::arithmetic::power::lemma_pow_multiplies(2, 4, n);
    assert(vstd::arithmetic::power::pow(2, 4) == 16) by {
        reveal_with_fuel(vstd::arithmetic::power::pow, 5);
    }
}

/// The hyphenated text of an identifier.
pub fn uuid_to_string(id: u128) -> (s: String)
    ensures
        s@ == hyphenated(id),
{
    let mut s = String::new();
    push_nibbles(&mut s, id, 0, 8);
    s.push('-');
    push_nibbles(&mut s, id, 8, 12);
    s.push('-');
    push_nibbles(&mut s, id, 12, 16);
    s.push('-');
    push_nibbles(&mut s, id, 16, 20);
    s.push('-');
    push_nibbles(&mut s, id, 20, 32);
    assert(s@ =~= hyphenated(id));
    s
}

} // verus!
