//! Big-endian fields inside a byte buffer.

use byteorder::{BigEndian, ByteOrder};
use vstd::prelude::*;

verus! {

/// The two bytes of a 16-bit number, most significant first.
pub open spec fn be16_bytes(n: u16) -> Seq<u8> {
    seq![(n / 0x100) as u8, (n % 0x100) as u8]
}

/// The 16-bit number that two bytes stand for, most significant first.
pub open spec fn be16_value(hi: u8, lo: u8) -> u16 {
    (hi as int * 0x100 + lo as int) as u16
}

/// `s` with the bytes from position `at` on replaced by `field`.
pub open spec fn patch(s: Seq<u8>, at: int, field: Seq<u8>) -> Seq<u8> {
    Seq::new(
        s.len(),
        |i: int|
            if at <= i < at + field.len() {
                field[i - at]
            } else {
                s[i]
            },
    )
}

/// Patching a field and then another right behind it is patching the two
/// fields joined.
pub proof fn lemma_patch_extends(s: Seq<u8>, at: int, field: Seq<u8>, more: Seq<u8>)
    requires
        0 <= at,
        at + field.len() + more.len() <= s.len(),
    ensures
        patch(patch(s, at, field), at + field.len(), more) == patch(s, at, field + more),
{
    assert(patch(patch(s, at, field), at + field.len(), more) =~= patch(s, at, field + more));
}

/// Two big-endian bytes give back the number they were made from.
pub proof fn lemma_be16_round_trip(n: u16)
    ensures
        be16_value(be16_bytes(n)[0], be16_bytes(n)[1]) == n,
{
}

/// Calls `byteorder::BigEndian::write_u16` on the part of `buf` that starts
/// at `at`. The crate stores the number's two big-endian bytes in the first
/// two bytes of the slice it is given and touches nothing else; it panics
/// on a slice shorter than two bytes, which `requires` rules out.
#[verifier::external_body]
pub(crate) fn write_u16_at(buf: &mut Vec<u8>, at: usize, n: u16)
    requires
        at + 2 <= old(buf)@.len(),
    ensures
        final(buf)@ == patch(old(buf)@, at as int, be16_bytes(n)),
{
    BigEndian::write_u16(&mut buf[at..], n)
}

/// Calls `byteorder::BigEndian::read_u16` on the part of `buf` that starts
/// at `at`. The crate reads the first two bytes of the slice it is given as
/// a big-endian number; it panics on a slice shorter than two bytes, which
/// `requires` rules out.
#[verifier::external_body]
pub(crate) fn read_u16_at(buf: &[u8], at: usize) -> (n: u16)
    requires
        at + 2 <= buf@.len(),
    ensures
        n == be16_value(buf@[at as int], buf@[at + 1]),
{
    BigEndian::read_u16(&buf[at..])
}

} // verus!
