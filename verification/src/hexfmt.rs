//! Uppercase hexadecimal rendering of byte strings and integers.
//!
//! The PDB identifier concatenates the debug signature (16 bytes, rendered as
//! 32 fixed-width hex digits) with the PDB age (rendered as minimal-width hex
//! digits), both uppercase.

use vstd::prelude::*;

verus! {

pub const HEX_UPPER_DIGITS: [char; 16] = ['0', '1', '2', '3', '4', '5', '6', '7', '8', '9', 'A', 'B', 'C', 'D', 'E', 'F'];

/// Fixed-width uppercase hex: every byte becomes exactly two digits.
pub open spec fn spec_hex_upper_bytes(data: Seq<u8>) -> Seq<char>
    decreases data.len(),
{
    if data.len() == 0 {
        seq![]
    } else {
        seq![
            HEX_UPPER_DIGITS@[(data.first() >> 4) as int],
            HEX_UPPER_DIGITS@[(data.first() & 0x0f) as int],
        ] + spec_hex_upper_bytes(data.drop_first())
    }
}

/// Minimal-width uppercase hex of an integer, as `{:X}` renders it:
/// no leading zeroes, and zero itself is a single digit.
pub open spec fn spec_hex_upper_u32(n: nat) -> Seq<char>
    decreases n,
{
    if n < 16 {
        seq![HEX_UPPER_DIGITS@[n as int]]
    } else {
        spec_hex_upper_u32(n / 16) + seq![HEX_UPPER_DIGITS@[(n % 16) as int]]
    }
}

/// Relies on `String::push`: appends exactly the given character.
#[verifier::external_body]
pub fn string_push(s: &mut String, c: char)
    ensures
        final(s)@ == old(s)@ + seq![c],
{
    s.push(c);
}

/// Render a byte string as fixed-width uppercase hex, two digits per byte.
pub fn hex_upper_bytes(data: &[u8]) -> (res: String)
    ensures
        res@ == spec_hex_upper_bytes(data@),
{
    let mut res = String::new();
    assert(data@.skip(0) == data@);
    for i in 0..data.len()
        invariant
            res@ + spec_hex_upper_bytes(data@.skip(i as int)) =~= spec_hex_upper_bytes(data@),
    {
        let byte = data[i];
        assert(0 <= (byte >> 4) < 16 && 0 <= (byte & 0x0f) < 16) by (bit_vector);
        string_push(&mut res, HEX_UPPER_DIGITS[(byte >> 4) as usize]);
        string_push(&mut res, HEX_UPPER_DIGITS[(byte & 0x0f) as usize]);
        assert(data@.skip(i as int).drop_first() == data@.skip(i + 1));
    }
    assert(data@.skip(data@.len() as int) =~= Seq::<u8>::empty());
    res
}

/// Append the minimal-width uppercase hex rendering of `n`.
pub fn push_hex_upper_u32(s: &mut String, n: u32)
    ensures
        final(s)@ == old(s)@ + spec_hex_upper_u32(n as nat),
    decreases n,
{
    if n < 16 {
        string_push(s, HEX_UPPER_DIGITS[n as usize]);
    } else {
        assert(n / 16 < n && n % 16 < 16) by (nonlinear_arith)
            requires
                n >= 16,
        ;
        push_hex_upper_u32(s, n / 16);
        string_push(s, HEX_UPPER_DIGITS[(n % 16) as usize]);
    }
}

/// Render an integer as minimal-width uppercase hex, as `{:X}` does.
pub fn hex_upper_u32(n: u32) -> (res: String)
    ensures
        res@ == spec_hex_upper_u32(n as nat),
{
    let mut res = String::new();
    push_hex_upper_u32(&mut res, n);
    res
}

} // verus!
