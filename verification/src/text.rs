//! Verified rendering of numbers and flags as text cells.

use vstd::prelude::*;

verus! {

/// Character for the digit value `d`: `0`–`9`, then lowercase `a`–`f`.
pub open spec fn digit_char(d: u8) -> char
    recommends
        d < 16,
{
    if d < 10 {
        (d + 48) as char
    } else {
        (d + 87) as char
    }
}

/// Character for the digit value `d`: `0`–`9`, then uppercase `A`–`F`.
pub open spec fn digit_char_upper(d: u8) -> char
    recommends
        d < 16,
{
    if d < 10 {
        (d + 48) as char
    } else {
        (d + 55) as char
    }
}

/// Decimal digits of `v`, most significant first, no leading zeros.
pub open spec fn dec_digits(v: nat) -> Seq<char>
    decreases v,
{
    if v < 10 {
        seq![digit_char(v as u8)]
    } else {
        dec_digits(v / 10).push(digit_char((v % 10) as u8))
    }
}

/// Lowercase hexadecimal digits of `v`, most significant first, no leading
/// zeros.
pub open spec fn hex_digits(v: nat) -> Seq<char>
    decreases v,
{
    if v < 16 {
        seq![digit_char(v as u8)]
    } else {
        hex_digits(v / 16).push(digit_char((v % 16) as u8))
    }
}

/// Uppercase hexadecimal digits of `v`, most significant first, no leading
/// zeros.
pub open spec fn hex_digits_upper(v: nat) -> Seq<char>
    decreases v,
{
    if v < 16 {
        seq![digit_char_upper(v as u8)]
    } else {
        hex_digits_upper(v / 16).push(digit_char_upper((v % 16) as u8))
    }
}

/// Relies on `String::push`: appends exactly the given character.
#[verifier::external_body]
pub(crate) fn push_char(s: &mut String, c: char)
    ensures
        final(s)@ == old(s)@.push(c),
{
    s.push(c);
}

/// Relies on `String::push_str`: appends exactly the given characters.
#[verifier::external_body]
pub(crate) fn push_chars(s: &mut String, t: &str)
    ensures
        final(s)@ == old(s)@ + t@,
{
    s.push_str(t);
}

/// The character for the digit value `d`.
fn digit_to_char(d: u8) -> (c: char)
    requires
        d < 16,
    ensures
        c == digit_char(d),
{
    if d < 10 {
        (d + 48) as char
    } else {
        (d + 87) as char
    }
}

/// The uppercase character for the digit value `d`.
fn digit_to_char_upper(d: u8) -> (c: char)
    requires
        d < 16,
    ensures
        c == digit_char_upper(d),
{
    if d < 10 {
        (d + 48) as char
    } else {
        (d + 55) as char
    }
}

/// Append the decimal digits of `v`.
pub fn push_decimal(s: &mut String, v: u64)
    ensures
        final(s)@ == old(s)@ + dec_digits(v as nat),
    decreases v,
{
    if v >= 10 {
        push_decimal(s, v / 10);
    }
    push_char(s, digit_to_char((v % 10) as u8));
}

/// Append the lowercase hexadecimal digits of `v`.
pub fn push_hex(s: &mut String, v: u64)
    ensures
        final(s)@ == old(s)@ + hex_digits(v as nat),
    decreases v,
{
    if v >= 16 {
        push_hex(s, v / 16);
    }
    push_char(s, digit_to_char((v % 16) as u8));
}

/// Append the uppercase hexadecimal digits of `v`.
pub fn push_hex_upper(s: &mut String, v: u64)
    ensures
        final(s)@ == old(s)@ + hex_digits_upper(v as nat),
    decreases v,
{
    if v >= 16 {
        push_hex_upper(s, v / 16);
    }
    push_char(s, digit_to_char_upper((v % 16) as u8));
}

/// `v` in decimal.
pub fn decimal_string(v: u64) -> (s: String)
    ensures
        s@ == dec_digits(v as nat),
{
    let mut s = String::new();
    push_decimal(&mut s, v);
    proof {
        assert(s@ =~= dec_digits(v as nat));
    }
    s
}

/// `v` in uppercase hexadecimal, bare digits.
pub fn hex_string_upper(v: u64) -> (s: String)
    ensures
        s@ == hex_digits_upper(v as nat),
{
    let mut s = String::new();
    push_hex_upper(&mut s, v);
    proof {
        assert(s@ =~= hex_digits_upper(v as nat));
    }
    s
}

/// A word as a `0x`-prefixed lowercase hexadecimal cell, zero-padded to at
/// least two digits.
pub open spec fn hex_cell(v: u16) -> Seq<char> {
    seq!['0', 'x'] + (if v < 16 {
        seq!['0']
    } else {
        Seq::<char>::empty()
    }) + hex_digits(v as nat)
}

/// Render a word as its `0x`-prefixed hexadecimal cell.
pub fn hex_cell_string(v: u16) -> (s: String)
    ensures
        s@ == hex_cell(v),
{
    let mut s = String::new();
    push_char(&mut s, '0');
    push_char(&mut s, 'x');
    if v < 16 {
        push_char(&mut s, '0');
    }
    push_hex(&mut s, v as u64);
    proof {
        assert(s@ =~= hex_cell(v));
    }
    s
}

/// Leading zeros that pad the decimal digits of `v` to a width of four.
pub open spec fn offset_pad(v: nat) -> Seq<char> {
    if v < 10 {
        seq!['0', '0', '0']
    } else if v < 100 {
        seq!['0', '0']
    } else if v < 1000 {
        seq!['0']
    } else {
        Seq::<char>::empty()
    }
}

/// An offset label: the value in decimal, zero-padded to at least four
/// characters, followed by a colon.
pub open spec fn offset_label(v: nat) -> Seq<char> {
    offset_pad(v) + dec_digits(v) + seq![':']
}

/// Render an offset label.
pub fn offset_label_string(v: u64) -> (s: String)
    ensures
        s@ == offset_label(v as nat),
{
    let mut s = String::new();
    if v < 10 {
        push_chars(&mut s, "000");
    } else if v < 100 {
        push_chars(&mut s, "00");
    } else if v < 1000 {
        push_chars(&mut s, "0");
    }
    push_decimal(&mut s, v);
    push_char(&mut s, ':');
    proof {
        reveal_strlit("000");
        reveal_strlit("00");
        reveal_strlit("0");
        assert(s@ =~= offset_label(v as nat));
    }
    s
}

/// Text of a coil or input status flag.
pub open spec fn bool_label(b: bool) -> Seq<char> {
    if b {
        "true"@
    } else {
        "false"@
    }
}

/// Render a status flag as text.
pub fn bool_string(b: bool) -> (s: String)
    ensures
        s@ == bool_label(b),
{
    if b {
        "true".to_owned()
    } else {
        "false".to_owned()
    }
}

} // verus!
