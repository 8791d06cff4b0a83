//! Lowercase hex encoding of byte sequences and case-insensitive comparison
//! of hex strings, the form in which checksums travel through manifests.

use vstd::prelude::*;

verus! {

/// The lowercase hex digit character for a nibble `d` (`d < 16`).
pub open spec fn hex_digit(d: nat) -> char {
    if d < 10 {
        crate::decimal::dec_digit(d)
    } else if d == 10 {
        'a'
    } else if d == 11 {
        'b'
    } else if d == 12 {
        'c'
    } else if d == 13 {
        'd'
    } else if d == 14 {
        'e'
    } else {
        'f'
    }
}

/// The lowercase hex encoding of a byte sequence: two digits per byte, high
/// nibble first.
pub open spec fn hex_lower(b: Seq<u8>) -> Seq<char> {
    Seq::new(
        b.len() * 2,
        |i: int|
            if i % 2 == 0 {
                hex_digit((b[i / 2] / 16) as nat)
            } else {
                hex_digit((b[i / 2] % 16) as nat)
            },
    )
}

/// ASCII-lowercases the uppercase hex digits 'A'..'F'; every other character
/// is left unchanged.
pub open spec fn lower_hex_char(c: char) -> char {
    if c == 'A' {
        'a'
    } else if c == 'B' {
        'b'
    } else if c == 'C' {
        'c'
    } else if c == 'D' {
        'd'
    } else if c == 'E' {
        'e'
    } else if c == 'F' {
        'f'
    } else {
        c
    }
}

/// Hex-lowercases each character of a string.
pub open spec fn lower_hex(s: Seq<char>) -> Seq<char> {
    s.map_values(|c: char| lower_hex_char(c))
}

/// Case-insensitive equality of hex strings: equal after hex-lowercasing both
/// sides.
pub open spec fn hex_eq_ci(a: Seq<char>, b: Seq<char>) -> bool {
    lower_hex(a) == lower_hex(b)
}

fn lower_hex_char_exec(c: char) -> (r: char)
    ensures
        r == lower_hex_char(c),
{
    if c == 'A' {
        'a'
    } else if c == 'B' {
        'b'
    } else if c == 'C' {
        'c'
    } else if c == 'D' {
        'd'
    } else if c == 'E' {
        'e'
    } else if c == 'F' {
        'f'
    } else {
        c
    }
}

/// Compares two hex strings case-insensitively.
pub fn str_hex_eq_ci(a: &str, b: &str) -> (r: bool)
    ensures
        r == hex_eq_ci(a@, b@),
{
    let alen = a.unicode_len();
    let blen = b.unicode_len();
    if alen != blen {
        proof {
            assert(lower_hex(a@).len() != lower_hex(b@).len());
        }
        return false;
    }
    let mut i: usize = 0;
    while i < alen
        invariant
            alen == a@.len(),
            alen == b@.len(),
            i <= alen,
            forall|j: int| 0 <= j < i ==> lower_hex_char(a@[j]) == lower_hex_char(b@[j]),
        decreases alen - i,
    {
        let ca = lower_hex_char_exec(a.get_char(i));
        let cb = lower_hex_char_exec(b.get_char(i));
        if ca != cb {
            proof {
                assert(lower_hex(a@)[i as int] != lower_hex(b@)[i as int]);
            }
            return false;
        }
        i += 1;
    }
    proof {
        assert(lower_hex(a@) =~= lower_hex(b@));
    }
    true
}

/// Relies on `base16ct::lower::encode_string`: encodes bytes as lowercase
/// hex, two digits per byte, high nibble first. It panics above
/// `usize::MAX / 2` input bytes, which the precondition rules out.
#[verifier::external_body]
pub(crate) fn hex_encode_lower(b: &Vec<u8>) -> (r: String)
    requires
        b@.len() <= usize::MAX / 2,
    ensures
        r@ == hex_lower(b@),
{
    base16ct::lower::encode_string(b.as_slice())
}

} // verus!
