//! Decoding of the fixed-size name buffers of descriptor records.
//!
//! A name is the bytes before the first zero byte of the buffer, or the whole
//! buffer where it holds no zero byte, read as UTF-8.

use vstd::prelude::*;
use vstd::utf8::{decode_utf8, valid_utf8};

verus! {

/// Length of a name buffer in a descriptor record.
pub const NAME_LEN: usize = 16;

/// The byte that has the bit pattern of `c`.
pub open spec fn byte_of(c: i8) -> u8 {
    if c < 0 {
        (c + 256) as u8
    } else {
        c as u8
    }
}

/// Number of elements of `buf` before its first zero; the length of `buf`
/// where it holds none.
pub open spec fn terminator(buf: Seq<i8>) -> nat
    decreases buf.len(),
{
    if buf.len() == 0 || buf[0] == 0 {
        0
    } else {
        1 + terminator(buf.drop_first())
    }
}

/// The bytes of the name that `buf` holds.
pub open spec fn name_bytes(buf: Seq<i8>) -> Seq<u8> {
    buf.take(terminator(buf) as int).map_values(|c: i8| byte_of(c))
}

/// The name that `buf` holds, where its bytes are UTF-8.
pub open spec fn decoded_name(buf: Seq<i8>) -> Option<Seq<char>> {
    if valid_utf8(name_bytes(buf)) {
        Some(decode_utf8(name_bytes(buf)))
    } else {
        None
    }
}

/// The text shown for the name in `buf`: the name, or `N/A` where its bytes
/// are not UTF-8.
pub open spec fn name_text(buf: Seq<i8>) -> Seq<char> {
    match decoded_name(buf) {
        Some(name) => name,
        None => "N/A"@,
    }
}

/// `n` is where the name in `buf` ends: nothing before it is zero, and it is
/// either a zero or the end of the buffer.
pub open spec fn ends_at(buf: Seq<i8>, n: int) -> bool {
    &&& 0 <= n <= buf.len()
    &&& forall|i: int| 0 <= i < n ==> buf[i] != 0
    &&& (n < buf.len() ==> buf[n] == 0)
}

/// The terminator is the one place where the name ends.
pub proof fn lemma_terminator_ends(buf: Seq<i8>, n: int)
    requires
        ends_at(buf, n),
    ensures
        terminator(buf) == n,
    decreases buf.len(),
{
    if buf.len() == 0 || buf[0] == 0 {
    } else {
        let rest = buf.drop_first();
        assert forall|i: int| 0 <= i < n - 1 implies rest[i] != 0 by {
            assert(rest[i] == buf[i + 1]);
        }
        lemma_terminator_ends(rest, n - 1);
    }
}

/// `String::from_utf8` accepts exactly the byte sequences that are UTF-8, and
/// returns the characters they encode.
#[verifier::external_body]
fn string_from_utf8(bytes: Vec<u8>) -> (r: Option<String>)
    ensures
        r is Some <==> valid_utf8(bytes@),
        r matches Some(s) ==> s@ == decode_utf8(bytes@),
{
    match String::from_utf8(bytes) {
        Ok(s) => Some(s),
        Err(_) => None,
    }
}

fn raw_byte(c: i8) -> (b: u8)
    ensures
        b == byte_of(c),
{
    if c < 0 {
        (c as i16 + 256) as u8
    } else {
        c as u8
    }
}

/// The name in `arr`, or `None` where its bytes are not UTF-8.
pub fn cstring_from_i8_array(arr: [i8; 16]) -> (name: Option<String>)
    ensures
        name is Some <==> decoded_name(arr@) is Some,
        name matches Some(s) ==> decoded_name(arr@) == Some(s@),
{
    let mut bytes: Vec<u8> = Vec::new();
    let mut i: usize = 0;
    while i < NAME_LEN && arr[i] != 0
        invariant
            i <= NAME_LEN,
            arr@.len() == NAME_LEN,
            forall|j: int| 0 <= j < i ==> arr@[j] != 0,
            bytes@ == arr@.take(i as int).map_values(|c: i8| byte_of(c)),
        decreases NAME_LEN - i,
    {
        bytes.push(raw_byte(arr[i]));
        proof {
            assert(arr@.take(i + 1).map_values(|c: i8| byte_of(c)) =~= arr@.take(
                i as int,
            ).map_values(|c: i8| byte_of(c)).push(byte_of(arr@[i as int])));
        }
        i += 1;
    }
    proof {
        lemma_terminator_ends(arr@, i as int);
    }
    string_from_utf8(bytes)
}

/// The text shown for the name in `arr`.
pub fn name_string(arr: [i8; 16]) -> (s: String)
    ensures
        s@ == name_text(arr@),
{
    match cstring_from_i8_array(arr) {
        Some(name) => name,
        None => "N/A".to_owned(),
    }
}

} // verus!
