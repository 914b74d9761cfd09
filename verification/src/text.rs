//! Rendering of numbers as text: decimal, hexadecimal, byte tags and id
//! lists. Every function appends to a `String` and says exactly which
//! characters it appends.

use vstd::prelude::*;
use vstd::string::StringExecFns;

verus! {

/// `String::push` appends one character to the end of the string.
pub assume_specification[ String::push ](s: &mut String, ch: char)
    ensures
        final(s)@ == old(s)@.push(ch),
;

/// The character that stands for the digit `d` in bases up to sixteen,
/// lower case.
pub open spec fn digit_char(d: nat) -> char {
    if d < 10 {
        (48 + d) as char
    } else {
        (87 + d) as char
    }
}

/// `n` in decimal, most significant digit first, without leading zeros;
/// zero is the single digit `0`.
pub open spec fn decimal(n: nat) -> Seq<char>
    decreases n,
{
    if n < 10 {
        seq![digit_char(n)]
    } else {
        decimal(n / 10).push(digit_char(n % 10))
    }
}

/// `n` in lower-case hexadecimal, most significant digit first, without
/// leading zeros; zero is the single digit `0`.
pub open spec fn hexadecimal(n: nat) -> Seq<char>
    decreases n,
{
    if n < 16 {
        seq![digit_char(n)]
    } else {
        hexadecimal(n / 16).push(digit_char(n % 16))
    }
}

/// `n` in hexadecimal behind the marker `0x`.
pub open spec fn hex_literal(n: nat) -> Seq<char> {
    seq!['0', 'x'] + hexadecimal(n)
}

/// One byte as exactly two lower-case hexadecimal digits.
pub open spec fn byte_pair(b: u8) -> Seq<char> {
    seq![digit_char(b as nat / 16), digit_char(b as nat % 16)]
}

/// The bytes of `tag` as two hexadecimal digits each, with nothing between
/// them.
pub open spec fn tag_hex(tag: Seq<u8>) -> Seq<char>
    decreases tag.len(),
{
    if tag.len() == 0 {
        Seq::empty()
    } else {
        tag_hex(tag.drop_last()) + byte_pair(tag.last())
    }
}

/// The numbers of `ids` in decimal, separated by a comma and a space.
pub open spec fn comma_separated(ids: Seq<u32>) -> Seq<char>
    decreases ids.len(),
{
    if ids.len() == 0 {
        Seq::empty()
    } else if ids.len() == 1 {
        decimal(ids[0] as nat)
    } else {
        comma_separated(ids.drop_last()) + seq![',', ' '] + decimal(ids.last() as nat)
    }
}

/// A list of ids between square brackets: `[]`, `[7]`, `[7, 12]`.
pub open spec fn id_list(ids: Seq<u32>) -> Seq<char> {
    seq!['['] + comma_separated(ids) + seq![']']
}

fn digit(d: u8) -> (c: char)
    requires
        d < 16,
    ensures
        c == digit_char(d as nat),
{
    if d < 10 {
        (48u8 + d) as char
    } else {
        (87u8 + d) as char
    }
}

/// Appends `n` in decimal to `out`.
pub fn push_decimal(out: &mut String, n: u64)
    ensures
        final(out)@ == old(out)@ + decimal(n as nat),
    decreases n,
{
    if n >= 10 {
        push_decimal(out, n / 10);
    }
    out.push(digit((n % 10) as u8));
}

/// Appends `n` in hexadecimal, behind `0x`, to `out`.
pub fn push_hex_literal(out: &mut String, n: u64)
    ensures
        final(out)@ == old(out)@ + hex_literal(n as nat),
{
    out.push('0');
    out.push('x');
    push_hexadecimal(out, n);
}

fn push_hexadecimal(out: &mut String, n: u64)
    ensures
        final(out)@ == old(out)@ + hexadecimal(n as nat),
    decreases n,
{
    if n >= 16 {
        push_hexadecimal(out, n / 16);
    }
    out.push(digit((n % 16) as u8));
}

/// Appends the two hexadecimal digits of `b` to `out`.
pub fn push_byte_pair(out: &mut String, b: u8)
    ensures
        final(out)@ == old(out)@ + byte_pair(b),
{
    out.push(digit(b / 16));
    out.push(digit(b % 16));
}

/// Appends the list `ids`, in square brackets, to `out`.
pub fn push_id_list(out: &mut String, ids: &Vec<u32>)
    ensures
        final(out)@ == old(out)@ + id_list(ids@),
{
    out.push('[');
    let mut i: usize = 0;
    while i < ids.len()
        invariant
            i <= ids.len(),
            out@ == old(out)@ + seq!['['] + comma_separated(ids@.take(i as int)),
        decreases ids.len() - i,
    {
        if i > 0 {
            out.push(',');
            out.push(' ');
        }
        push_decimal(out, ids[i] as u64);
        proof {
            let upto = ids@.take(i + 1);
            assert(upto.drop_last() =~= ids@.take(i as int));
            assert(upto.last() == ids@[i as int]);
        }
        i += 1;
    }
    proof {
        assert(ids@.take(ids.len() as int) =~= ids@);
    }
    out.push(']');
}

/// `n` in decimal.
pub fn decimal_string(n: u64) -> (s: String)
    ensures
        s@ == decimal(n as nat),
{
    let mut s = String::new();
    push_decimal(&mut s, n);
    s
}

/// `n` in hexadecimal behind `0x`.
pub fn hex_string(n: u64) -> (s: String)
    ensures
        s@ == hex_literal(n as nat),
{
    let mut s = String::new();
    push_hex_literal(&mut s, n);
    s
}

/// `n` in decimal, followed by `suffix`.
pub fn decimal_with_suffix(n: u64, suffix: &str) -> (s: String)
    ensures
        s@ == decimal(n as nat) + suffix@,
{
    let mut s = String::new();
    push_decimal(&mut s, n);
    s.append(suffix);
    s
}

} // verus!
