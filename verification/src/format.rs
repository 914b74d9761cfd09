//! Display text for the fields of a descriptor record that need more than a
//! number: content tags, durations and load times.

use crate::text::{byte_pair, decimal, digit_char, push_byte_pair, push_decimal, tag_hex};
use vstd::prelude::*;
use vstd::string::StringExecFns;

verus! {

/// Length of a program's content tag.
pub const TAG_LEN: usize = 8;

/// Nanoseconds in a microsecond, a millisecond and a second.
pub const MICROSECOND: u64 = 1_000;

pub const MILLISECOND: u64 = 1_000_000;

pub const SECOND: u64 = 1_000_000_000;

/// `ns` in hundredths of `unit`, rounded to the nearest, a half upwards.
pub open spec fn hundredths(ns: u64, unit: u64) -> nat {
    ((ns as nat * 100 + unit as nat / 2) / unit as nat) as nat
}

/// A count of hundredths as a number with two decimal places.
pub open spec fn two_places(h: nat) -> Seq<char> {
    decimal(h / 100) + seq!['.', digit_char(h % 100 / 10), digit_char(h % 10)]
}

/// A duration of `ns` nanoseconds in the largest of the units s, ms and μs of
/// which it holds at least one, to two decimal places; below a microsecond, the
/// whole nanoseconds.
pub open spec fn duration_text(ns: u64) -> Seq<char> {
    if ns >= SECOND {
        two_places(hundredths(ns, SECOND)) + "s"@
    } else if ns >= MILLISECOND {
        two_places(hundredths(ns, MILLISECOND)) + "ms"@
    } else if ns >= MICROSECOND {
        two_places(hundredths(ns, MICROSECOND)) + "μs"@
    } else {
        decimal(ns as nat) + "ns"@
    }
}

/// The content tag as sixteen lower-case hexadecimal digits.
pub fn format_tag(tag: [u8; 8]) -> (s: String)
    ensures
        s@ == tag_hex(tag@),
{
    let mut s = String::new();
    let mut i: usize = 0;
    while i < TAG_LEN
        invariant
            i <= TAG_LEN,
            tag@.len() == TAG_LEN,
            s@ == tag_hex(tag@.take(i as int)),
        decreases TAG_LEN - i,
    {
        push_byte_pair(&mut s, tag[i]);
        proof {
            let upto = tag@.take(i + 1);
            assert(upto.drop_last() =~= tag@.take(i as int));
            assert(upto.last() == tag@[i as int]);
        }
        i += 1;
    }
    proof {
        assert(tag@.take(TAG_LEN as int) =~= tag@);
    }
    s
}

fn push_two_places(out: &mut String, h: u64)
    ensures
        final(out)@ == old(out)@ + two_places(h as nat),
{
    push_decimal(out, h / 100);
    out.push('.');
    push_byte_digit(out, (h % 100 / 10) as u8);
    push_byte_digit(out, (h % 10) as u8);
}

fn push_byte_digit(out: &mut String, d: u8)
    requires
        d < 10,
    ensures
        final(out)@ == old(out)@.push(digit_char(d as nat)),
{
    out.push((48u8 + d) as char);
}

/// The duration of `ns` nanoseconds as text.
pub fn format_ns(ns: u64) -> (s: String)
    ensures
        s@ == duration_text(ns),
{
    let mut s = String::new();
    let wide: u128 = ns as u128 * 100;
    if ns >= SECOND {
        let h: u128 = (wide + 500_000_000) / 1_000_000_000;
        push_two_places(&mut s, h as u64);
        s.append("s");
    } else if ns >= MILLISECOND {
        let h: u128 = (wide + 500_000) / 1_000_000;
        push_two_places(&mut s, h as u64);
        s.append("ms");
    } else if ns >= MICROSECOND {
        let h: u128 = (wide + 500) / 1_000;
        push_two_places(&mut s, h as u64);
        s.append("μs");
    } else {
        push_decimal(&mut s, ns);
        s.append("ns");
    }
    s
}

} // verus!
