//! Integers on the wire.
//!
//! The protocol mixes byte orders: commands carry little-endian integers, statistics carry a
//! big-endian sequence number beside a little-endian byte count, and datagrams and port numbers
//! are big-endian. The spec functions here say what each encoding means in terms of ordinary
//! arithmetic; the executable functions either call `byteorder` or spell the bytes out.

use byteorder::{BigEndian, ByteOrder, LittleEndian};
use vstd::prelude::*;

verus! {

/// The number that the first two bytes of `s` denote, least significant byte first.
pub open spec fn le_u16(s: Seq<u8>) -> int {
    s[0] + 0x100 * s[1]
}

/// The number that the first four bytes of `s` denote, least significant byte first.
pub open spec fn le_u32(s: Seq<u8>) -> int {
    s[0] + 0x100 * s[1] + 0x1_0000 * s[2] + 0x100_0000 * s[3]
}

/// The number that the first four bytes of `s` denote, most significant byte first.
pub open spec fn be_u32(s: Seq<u8>) -> int {
    0x100_0000 * s[0] + 0x1_0000 * s[1] + 0x100 * s[2] + s[3]
}

/// The number that the first two bytes of `s` denote, most significant byte first.
pub open spec fn be_u16(s: Seq<u8>) -> int {
    0x100 * s[0] + s[1]
}

/// The two bytes of `n`, least significant first.
pub open spec fn le_u16_bytes(n: u16) -> Seq<u8> {
    seq![(n % 0x100) as u8, (n / 0x100) as u8]
}

/// The four bytes of `n`, least significant first.
pub open spec fn le_u32_bytes(n: u32) -> Seq<u8> {
    seq![
        (n % 0x100) as u8,
        (n / 0x100 % 0x100) as u8,
        (n / 0x1_0000 % 0x100) as u8,
        (n / 0x100_0000) as u8,
    ]
}

/// The four bytes of `n`, most significant first.
pub open spec fn be_u32_bytes(n: u32) -> Seq<u8> {
    seq![
        (n / 0x100_0000) as u8,
        (n / 0x1_0000 % 0x100) as u8,
        (n / 0x100 % 0x100) as u8,
        (n % 0x100) as u8,
    ]
}

/// The two bytes of `n`, most significant first.
pub open spec fn be_u16_bytes(n: u16) -> Seq<u8> {
    seq![(n / 0x100) as u8, (n % 0x100) as u8]
}

/// Calls `byteorder::LittleEndian::read_u16`, which panics on fewer than two bytes and otherwise
/// reads the first two as a little-endian number.
#[verifier::external_body]
pub(crate) fn read_u16_le(buf: &[u8]) -> (value: u16)
    requires
        buf@.len() >= 2,
    ensures
        value == le_u16(buf@),
{
    LittleEndian::read_u16(buf)
}

/// Calls `byteorder::LittleEndian::read_u32`, which panics on fewer than four bytes and otherwise
/// reads the first four as a little-endian number.
#[verifier::external_body]
pub(crate) fn read_u32_le(buf: &[u8]) -> (value: u32)
    requires
        buf@.len() >= 4,
    ensures
        value == le_u32(buf@),
{
    LittleEndian::read_u32(buf)
}

/// Calls `byteorder::BigEndian::read_u32`, which panics on fewer than four bytes and otherwise
/// reads the first four as a big-endian number.
#[verifier::external_body]
pub(crate) fn read_u32_be(buf: &[u8]) -> (value: u32)
    requires
        buf@.len() >= 4,
    ensures
        value == be_u32(buf@),
{
    BigEndian::read_u32(buf)
}

/// Calls `byteorder::LittleEndian::write_u32`, which overwrites the first four bytes of its
/// buffer, here all of it, with the little-endian bytes of `n`.
#[verifier::external_body]
pub(crate) fn write_u32_le(buf: &mut [u8; 4], n: u32)
    ensures
        final(buf)@ == le_u32_bytes(n),
{
    LittleEndian::write_u32(buf, n)
}

/// Calls `byteorder::BigEndian::write_u32`, which overwrites the first four bytes of its
/// buffer, here all of it, with the big-endian bytes of `n`.
#[verifier::external_body]
pub(crate) fn write_u32_be(buf: &mut [u8; 4], n: u32)
    ensures
        final(buf)@ == be_u32_bytes(n),
{
    BigEndian::write_u32(buf, n)
}

/// Reading back the little-endian bytes of a number gives that number.
pub proof fn law_le_u32_roundtrip(n: u32)
    ensures
        le_u32_bytes(n).len() == 4,
        le_u32(le_u32_bytes(n)) == n,
{
}

/// Reading back the big-endian bytes of a number gives that number.
pub proof fn law_be_u32_roundtrip(n: u32)
    ensures
        be_u32_bytes(n).len() == 4,
        be_u32(be_u32_bytes(n)) == n,
{
}

/// Reading back the big-endian bytes of a port number gives that port number.
pub proof fn law_be_u16_roundtrip(n: u16)
    ensures
        be_u16_bytes(n).len() == 2,
        be_u16(be_u16_bytes(n)) == n,
{
}

/// Reading back the little-endian bytes of a short number gives that number.
pub proof fn law_le_u16_roundtrip(n: u16)
    ensures
        le_u16_bytes(n).len() == 2,
        le_u16(le_u16_bytes(n)) == n,
{
}

/// Two bytes are the little-endian bytes of the number that they denote.
pub proof fn law_le_u16_bytes_roundtrip(s: Seq<u8>)
    requires
        s.len() == 2,
    ensures
        le_u16_bytes(le_u16(s) as u16) == s,
{
    assert(le_u16_bytes(le_u16(s) as u16) =~= s);
}

/// Four bytes are the little-endian bytes of the number that they denote.
pub proof fn law_le_u32_bytes_roundtrip(s: Seq<u8>)
    requires
        s.len() == 4,
    ensures
        le_u32_bytes(le_u32(s) as u32) == s,
{
    let n = le_u32(s);
    assert(n % 0x100 == s[0]);
    assert(n / 0x100 == s[1] + 0x100 * s[2] + 0x1_0000 * s[3]);
    assert(n / 0x1_0000 == s[2] + 0x100 * s[3]);
    assert(n / 0x100_0000 == s[3]);
    assert(le_u32_bytes(n as u32) =~= s);
}

/// Four bytes are the big-endian bytes of the number that they denote.
pub proof fn law_be_u32_bytes_roundtrip(s: Seq<u8>)
    requires
        s.len() == 4,
    ensures
        be_u32_bytes(be_u32(s) as u32) == s,
{
    let n = be_u32(s);
    assert(n % 0x100 == s[3]);
    assert(n / 0x100 == s[2] + 0x100 * s[1] + 0x1_0000 * s[0]);
    assert(n / 0x1_0000 == s[1] + 0x100 * s[0]);
    assert(n / 0x100_0000 == s[0]);
    assert(be_u32_bytes(n as u32) =~= s);
}

/// The two byte orders mirror each other.
pub proof fn law_byte_orders_mirror(s: Seq<u8>, t: Seq<u8>)
    requires
        s.len() == 4,
        t.len() == 2,
    ensures
        be_u32(s) == le_u32(s.reverse()),
        be_u16(t) == le_u16(t.reverse()),
{
}

/// In little-endian order the first byte counts ones, and each further byte counts 0x100 times as
/// much as the one before it; zeros are zero.
pub proof fn law_little_endian_places(s: Seq<u8>, i: int)
    requires
        s.len() == 4,
        0 <= i < 4,
        s[i] < 0xFF,
    ensures
        le_u32(seq![0u8, 0u8, 0u8, 0u8]) == 0,
        le_u32(s.update(i, (s[i] + 1) as u8)) - le_u32(s) == if i == 0 {
            1int
        } else if i == 1 {
            0x100int
        } else if i == 2 {
            0x1_0000int
        } else {
            0x100_0000int
        },
        i < 2 ==> le_u16(s.update(i, (s[i] + 1) as u8)) - le_u16(s) == if i == 0 {
            1int
        } else {
            0x100int
        },
        le_u16(seq![0u8, 0u8]) == 0,
{
}

} // verus!
