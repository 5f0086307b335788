//! Hexadecimal digits to pulse pattern.
//!
//! A pattern is a fixed leader, sixteen bytes for every digit and a fixed
//! trailer. The device expects every digit inverted: the four bits of the
//! digit's complement are sent most significant bit first, each bit as one
//! of two four-byte pulses.

use crate::error::Error;
use vstd::prelude::*;

verus! {

/// The four bytes that open every pattern.
pub const LEADER: [u8; 4] = [0x00, 0x88, 0x00, 0x44];

/// The four bytes that close every pattern.
pub const TRAILER: [u8; 4] = [0x00, 0x11, 0x0b, 0x1c];

/// The pulse for a set bit.
pub const ON: [u8; 4] = [0x00, 0x11, 0x00, 0x11];

/// The pulse for a clear bit.
pub const OFF: [u8; 4] = [0x00, 0x11, 0x00, 0x33];

/// The pulse for one bit.
pub open spec fn pulse(on: bool) -> Seq<u8> {
    if on {
        ON@
    } else {
        OFF@
    }
}

/// The value of a hexadecimal digit, in either case; `None` for any other
/// character.
pub open spec fn hex_value(c: char) -> Option<u8> {
    if '0' <= c <= '9' {
        Some((c as u8 - '0' as u8) as u8)
    } else if 'a' <= c <= 'f' {
        Some((c as u8 - 'a' as u8 + 10) as u8)
    } else if 'A' <= c <= 'F' {
        Some((c as u8 - 'A' as u8 + 10) as u8)
    } else {
        None
    }
}

/// Every character is a hexadecimal digit.
pub open spec fn is_hex(source: Seq<char>) -> bool {
    forall|i: int| 0 <= i < source.len() ==> (#[trigger] hex_value(source[i])) is Some
}

/// The bitwise complement of a digit value, kept to its low four bits.
pub open spec fn complement(value: u8) -> u8 {
    !value & 0x0f
}

/// The sixteen bytes for one digit value: the four bits of its complement,
/// most significant first, one pulse each.
pub open spec fn digit_pulses(value: u8) -> Seq<u8> {
    let inverted = complement(value);
    pulse(inverted & 8 != 0) + pulse(inverted & 4 != 0) + pulse(inverted & 2 != 0) + pulse(
        inverted & 1 != 0,
    )
}

/// The pulses of a digit string, digit after digit in input order.
pub open spec fn pulses(source: Seq<char>) -> Seq<u8>
    decreases source.len(),
{
    if source.len() == 0 {
        Seq::empty()
    } else {
        pulses(source.drop_last()) + digit_pulses(hex_value(source.last()).unwrap())
    }
}

/// The complete pattern of a digit string.
pub open spec fn pattern(source: Seq<char>) -> Seq<u8> {
    LEADER@ + pulses(source) + TRAILER@
}

/// Sixteen bytes per digit.
pub proof fn lemma_pulses_len(source: Seq<char>)
    ensures
        pulses(source).len() == 16 * source.len(),
    decreases source.len(),
{
    if source.len() > 0 {
        lemma_pulses_len(source.drop_last());
    }
}

/// Appending a digit appends its sixteen bytes.
pub proof fn lemma_pulses_push(source: Seq<char>, c: char)
    ensures
        pulses(source.push(c)) == pulses(source) + digit_pulses(hex_value(c).unwrap()),
{
    assert(source.push(c).drop_last() =~= source);
}

/// A pattern is eight bytes longer than sixteen times its digit count, so
/// its length is always a multiple of four.
pub proof fn law_pattern_len(source: Seq<char>)
    ensures
        pattern(source).len() == 8 + 16 * source.len(),
        pattern(source).len() % 4 == 0,
{
    lemma_pulses_len(source);
}

/// Inverting a digit value turns `v` into `15 - v`: a bit is sent as "on"
/// exactly when it is clear in the digit. Bits above the low four never
/// reach the pattern, so complementing the whole byte sends the same pulses.
pub proof fn law_complement(value: u8)
    ensures
        value <= 15 ==> complement(value) == 15 - value,
        forall|mask: u8|
            #![trigger complement(value) & mask]
            mask == 1 || mask == 2 || mask == 4 || mask == 8 ==> {
                &&& (complement(value) & mask != 0 <==> value & mask == 0)
                &&& complement(value) & mask == !value & mask
            },
{
    assert(value <= 15 ==> !value & 0x0f == 15 - value) by (bit_vector);
    assert forall|mask: u8|
        #![trigger complement(value) & mask]
        mask == 1 || mask == 2 || mask == 4 || mask == 8 implies {
        &&& (complement(value) & mask != 0 <==> value & mask == 0)
        &&& complement(value) & mask == !value & mask
    } by {
        assert(mask == 1 || mask == 2 || mask == 4 || mask == 8 ==> {
            &&& ((!value & 0x0f) & mask != 0 <==> value & mask == 0)
            &&& (!value & 0x0f) & mask == !value & mask
        }) by (bit_vector);
    }
}

/// Parses one hexadecimal digit.
pub fn parse_digit(c: char) -> (value: Option<u8>)
    ensures
        value == hex_value(c),
        value matches Some(v) ==> v <= 15,
{
    if '0' <= c && c <= '9' {
        Some(c as u8 - '0' as u8)
    } else if 'a' <= c && c <= 'f' {
        Some(c as u8 - 'a' as u8 + 10)
    } else if 'A' <= c && c <= 'F' {
        Some(c as u8 - 'A' as u8 + 10)
    } else {
        None
    }
}

/// Appends the sixteen bytes for one digit value.
fn push_digit(code: &mut Vec<u8>, value: u8)
    ensures
        final(code)@ == old(code)@ + digit_pulses(value),
{
    let inverted: u8 = !value & 0x0f;
    code.extend_from_slice(if inverted & 8 != 0 { &ON } else { &OFF });
    code.extend_from_slice(if inverted & 4 != 0 { &ON } else { &OFF });
    code.extend_from_slice(if inverted & 2 != 0 { &ON } else { &OFF });
    code.extend_from_slice(if inverted & 1 != 0 { &ON } else { &OFF });
}

/// Encodes a string of hexadecimal digits as the pulse pattern the device
/// plays back.
///
/// Succeeds exactly on strings made of hexadecimal digits only (the empty
/// string included) and then returns the whole pattern. Any other string is
/// refused with `Error::Parse`, and nothing of it is encoded.
pub fn encode(source: &str) -> (result: Result<Vec<u8>, Error>)
    ensures
        match result {
            Ok(code) => is_hex(source@) && code@ == pattern(source@),
            Err(err) => !is_hex(source@) && err == Error::Parse,
        },
        result matches Ok(code) ==> code@.len() == 8 + 16 * source@.len(),
{
    let mut code: Vec<u8> = Vec::new();
    code.extend_from_slice(&LEADER);
    for c in it: source.chars()
        invariant
            it.seq() == source@,
            is_hex(source@.take(it.index())),
            code@ == LEADER@ + pulses(source@.take(it.index())),
    {
        proof {
            let done = source@.take(it.index());
            assert(source@.take(it.index() + 1) =~= done.push(c));
            lemma_pulses_push(done, c);
        }
        match parse_digit(c) {
            Some(value) => {
                push_digit(&mut code, value);
            },
            None => {
                return Err(Error::Parse);
            },
        }
    }
    proof {
        assert(source@.take(source@.len() as int) =~= source@);
        lemma_pulses_len(source@);
    }
    code.extend_from_slice(&TRAILER);
    Ok(code)
}

} // verus!
