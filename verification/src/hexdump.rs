//! Character conversions for the byte-dump debugging output.
//!
//! A byte dump prints each byte as two hex digits and, beside them, a
//! printable rendition of the raw bytes; a sentinel value pads the last
//! row's unused cells with blanks. The conversions are here; the printing
//! around them is plain output.

use vstd::prelude::*;

verus! {

/// The sentinel that pads an incomplete final row.
pub const DUMP_PAD: u32 = 0xffff;

/// The hex digit of a value below sixteen, and a marker otherwise.
pub open spec fn spec_to_hex(c: u8) -> char {
    if c <= 9 {
        ((c + 48) as u8) as char
    } else if c <= 15 {
        ((c + 87) as u8) as char
    } else {
        '?'
    }
}

/// Convert a nibble to its hex digit; anything larger indicates a caller
/// error and prints as a marker.
pub fn to_hex(c: u8) -> (r: char)
    ensures
        r == spec_to_hex(c),
{
    if c <= 9 {
        (c + 48) as char
    } else if c <= 15 {
        (c + 87) as char
    } else {
        '?'
    }
}

/// Convert a byte value to its two hex digits, or to blanks for the
/// row-padding sentinel.
pub fn hex_pair(c: u32) -> (r: (char, char))
    ensures
        c == DUMP_PAD ==> r == (' ', ' '),
        c != DUMP_PAD ==> r == (spec_to_hex(((c / 16) % 16) as u8), spec_to_hex((c % 16) as u8)),
{
    if c == DUMP_PAD {
        (' ', ' ')
    } else {
        proof {
            assert((c >> 4) & 0xf == (c / 16) % 16 && (c & 0xf) == c % 16 && (c >> 4) & 0xf < 16
                && c & 0xf < 16) by (bit_vector);
        }
        (to_hex(((c >> 4) & 0xf) as u8), to_hex((c & 0xf) as u8))
    }
}

/// The printable rendition of a byte value: itself when printable, a blank
/// for the padding sentinel, and a dot otherwise.
pub fn safe_char(c: u32) -> (r: char)
    ensures
        32 <= c <= 126 ==> r == ((c as u8) as char),
        c == DUMP_PAD ==> r == ' ',
        !(32 <= c <= 126) && c != DUMP_PAD ==> r == '.',
{
    if c >= 32 && c <= 126 {
        (c as u8) as char
    } else if c == DUMP_PAD {
        ' '
    } else {
        '.'
    }
}

} // verus!
