//! Big-endian integer access over caller-provided byte buffers.

use byteorder::{ByteOrder, NetworkEndian};
use vstd::prelude::*;

verus! {

/// The two bytes of `v`, most significant first.
pub open spec fn u16_bytes(v: u16) -> Seq<u8> {
    seq![(v / 256) as u8, (v % 256) as u8]
}

/// The four bytes of `v`, most significant first.
pub open spec fn u32_bytes(v: u32) -> Seq<u8> {
    seq![
        (v / 0x100_0000) as u8,
        ((v / 0x1_0000) % 256) as u8,
        ((v / 256) % 256) as u8,
        (v % 256) as u8,
    ]
}

/// The big-endian 16-bit value stored at `s[at..at + 2]`.
pub open spec fn be16_at(s: Seq<u8>, at: int) -> u16 {
    (s[at] * 256 + s[at + 1]) as u16
}

/// The big-endian 32-bit value stored at `s[at..at + 4]`.
pub open spec fn be32_at(s: Seq<u8>, at: int) -> u32 {
    (s[at] * 0x100_0000 + s[at + 1] * 0x1_0000 + s[at + 2] * 256 + s[at + 3]) as u32
}

/// `s` with the bytes from `at` on replaced by `x`.
pub open spec fn splice(s: Seq<u8>, at: int, x: Seq<u8>) -> Seq<u8> {
    s.take(at) + x + s.skip(at + x.len())
}

pub proof fn lemma_be16_of_bytes(v: u16)
    ensures
        be16_at(u16_bytes(v), 0) == v,
{
}

pub proof fn lemma_be32_of_bytes(v: u32)
    ensures
        be32_at(u32_bytes(v), 0) == v,
{
}

pub proof fn lemma_splice_twice(s: Seq<u8>, at: int, x: Seq<u8>, y: Seq<u8>)
    requires
        0 <= at,
        at + x.len() + y.len() <= s.len(),
    ensures
        splice(splice(s, at, x), at + x.len(), y) == splice(s, at, x + y),
        splice(s, at, x).len() == s.len(),
{
    assert(splice(splice(s, at, x), at + x.len(), y) =~= splice(s, at, x + y));
}

/// Reads the big-endian `u16` at `buf[at..at + 2]`.
///
/// Relies on byteorder's `NetworkEndian::read_u16`, which reads the first two
/// bytes of the slice it is given, most significant first.
#[verifier::external_body]
pub(crate) fn read_u16(buf: &[u8], at: usize) -> (r: u16)
    requires
        at + 2 <= buf@.len(),
    ensures
        r == be16_at(buf@, at as int),
{
    NetworkEndian::read_u16(&buf[at..at + 2])
}

/// Reads the big-endian `u32` at `buf[at..at + 4]`.
///
/// Relies on byteorder's `NetworkEndian::read_u32`, which reads the first four
/// bytes of the slice it is given, most significant first.
#[verifier::external_body]
pub(crate) fn read_u32(buf: &[u8], at: usize) -> (r: u32)
    requires
        at + 4 <= buf@.len(),
    ensures
        r == be32_at(buf@, at as int),
{
    NetworkEndian::read_u32(&buf[at..at + 4])
}

/// Writes `v` big-endian into `buf[at..at + 2]`, leaving the other bytes alone.
///
/// Relies on byteorder's `NetworkEndian::write_u16`, which copies the two
/// big-endian bytes of `v` into the front of the slice it is given.
#[verifier::external_body]
pub(crate) fn write_u16(buf: &mut [u8], at: usize, v: u16)
    requires
        at + 2 <= old(buf)@.len(),
    ensures
        final(buf)@ == splice(old(buf)@, at as int, u16_bytes(v)),
{
    NetworkEndian::write_u16(&mut buf[at..at + 2], v)
}

/// Writes `v` big-endian into `buf[at..at + 4]`, leaving the other bytes alone.
///
/// Relies on byteorder's `NetworkEndian::write_u32`, which copies the four
/// big-endian bytes of `v` into the front of the slice it is given.
#[verifier::external_body]
pub(crate) fn write_u32(buf: &mut [u8], at: usize, v: u32)
    requires
        at + 4 <= old(buf)@.len(),
    ensures
        final(buf)@ == splice(old(buf)@, at as int, u32_bytes(v)),
{
    NetworkEndian::write_u32(&mut buf[at..at + 4], v)
}

/// Writes one byte at `buf[at]`.
pub(crate) fn put_u8(buf: &mut [u8], at: usize, v: u8)
    requires
        at < old(buf)@.len(),
    ensures
        final(buf)@ == splice(old(buf)@, at as int, seq![v]),
{
    buf[at] = v;
    assert(buf@ =~= splice(old(buf)@, at as int, seq![v]));
}

} // verus!
