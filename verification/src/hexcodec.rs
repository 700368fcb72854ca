//! Hexadecimal input decoding for the console's construction-time data: the
//! tile map, the sprite sheet and the flag table all arrive as strings of hex
//! digits.

use vstd::prelude::*;

verus! {

/// True of the sixteen characters that denote a hex digit, in either case.
pub open spec fn is_hex_digit(c: char) -> bool {
    ('0' <= c && c <= '9') || ('a' <= c && c <= 'f') || ('A' <= c && c <= 'F')
}

/// The value of a hex digit character; 0 on anything else.
pub open spec fn hex_digit_val(c: char) -> u8 {
    if '0' <= c && c <= '9' {
        (c as int - '0' as int) as u8
    } else if 'a' <= c && c <= 'f' {
        (c as int - 'a' as int + 10) as u8
    } else if 'A' <= c && c <= 'F' {
        (c as int - 'A' as int + 10) as u8
    } else {
        0
    }
}

/// True when every character of the string is a hex digit.
pub open spec fn all_hex_digits(s: Seq<char>) -> bool {
    forall|i: int| 0 <= i < s.len() ==> is_hex_digit(#[trigger] s[i])
}

/// The bytes denoted by a string of hex digit pairs, high digit first.
pub open spec fn hex_bytes(s: Seq<char>) -> Seq<u8> {
    Seq::new((s.len() / 2) as nat, |i: int| (hex_digit_val(s[2 * i]) * 16 + hex_digit_val(s[2 * i + 1])) as u8)
}

/// Relies on hex::decode: turns a string of hex digit pairs into bytes, the
/// high digit of each pair first; on an odd length or a non-hex character it
/// errors (left out here by the precondition).
#[verifier::external_body]
fn hex_decode_pairs(s: &str) -> (r: Vec<u8>)
    requires
        s@.len() % 2 == 0,
        all_hex_digits(s@),
    ensures
        r@ == hex_bytes(s@),
{
    hex::decode(s).unwrap()
}

/// Decodes a whole construction-time input string into its bytes.
pub fn decode_hex_string(s: &String) -> (r: Vec<u8>)
    requires
        s@.len() % 2 == 0,
        all_hex_digits(s@),
    ensures
        r@ == hex_bytes(s@),
        r@.len() == s@.len() / 2,
{
    hex_decode_pairs(s.as_str())
}

/// The value of one hex digit character.
pub fn hex_digit(c: char) -> (r: u8)
    requires
        is_hex_digit(c),
    ensures
        r == hex_digit_val(c),
        r < 16,
{
    match c {
        '0' => 0,
        '1' => 1,
        '2' => 2,
        '3' => 3,
        '4' => 4,
        '5' => 5,
        '6' => 6,
        '7' => 7,
        '8' => 8,
        '9' => 9,
        'a' => 10,
        'b' => 11,
        'c' => 12,
        'd' => 13,
        'e' => 14,
        'f' => 15,
        'A' => 10,
        'B' => 11,
        'C' => 12,
        'D' => 13,
        'E' => 14,
        'F' => 15,
        _ => 0,
    }
}

} // verus!
