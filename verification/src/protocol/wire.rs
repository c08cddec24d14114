//! Big-endian integers at the front of a byte slice.

use bytes::Buf;
use vstd::prelude::*;

verus! {

/// The signed 16-bit integer whose big-endian bytes `b` starts with.
pub open spec fn be_i16(b: Seq<u8>) -> int {
    let unsigned = b[0] * 0x100 + b[1];
    if unsigned < 0x8000 {
        unsigned
    } else {
        unsigned - 0x1_0000
    }
}

/// The signed 32-bit integer whose big-endian bytes `b` starts with.
pub open spec fn be_i32(b: Seq<u8>) -> int {
    let unsigned = b[0] * 0x100_0000 + b[1] * 0x1_0000 + b[2] * 0x100 + b[3];
    if unsigned < 0x8000_0000 {
        unsigned
    } else {
        unsigned - 0x1_0000_0000
    }
}

/// The two bytes of `v`, the high one first.
pub open spec fn i16_bytes(v: int) -> Seq<u8> {
    let unsigned = if v < 0 {
        v + 0x1_0000
    } else {
        v
    };
    seq![(unsigned / 0x100) as u8, (unsigned % 0x100) as u8]
}

/// The four bytes of `v`, the highest one first.
pub open spec fn i32_bytes(v: int) -> Seq<u8> {
    let unsigned = if v < 0 {
        v + 0x1_0000_0000
    } else {
        v
    };
    seq![
        (unsigned / 0x100_0000) as u8,
        (unsigned / 0x1_0000 % 0x100) as u8,
        (unsigned / 0x100 % 0x100) as u8,
        (unsigned % 0x100) as u8,
    ]
}

/// A 16-bit integer is read back from its bytes, whatever follows them.
pub proof fn law_i16_read_back(v: int, tail: Seq<u8>)
    requires
        i16::MIN <= v <= i16::MAX,
    ensures
        be_i16(i16_bytes(v) + tail) == v,
{
}

/// A 32-bit integer is read back from its bytes, whatever follows them.
pub proof fn law_i32_read_back(v: int, tail: Seq<u8>)
    requires
        i32::MIN <= v <= i32::MAX,
    ensures
        be_i32(i32_bytes(v) + tail) == v,
{
}

/// The two bytes of an integer, as an unsigned number with the high byte first,
/// differ from it by a multiple of what two bytes can hold.
pub proof fn law_i16_bytes_are_big_endian(v: int)
    requires
        i16::MIN <= v <= i16::MAX,
    ensures
        i16_bytes(v).len() == 2,
        (i16_bytes(v)[0] * 256 + i16_bytes(v)[1] - v) % 0x1_0000 == 0,
{
}

/// Every two bytes are those of some integer.
pub proof fn law_two_bytes_are_an_i16(b: Seq<u8>)
    requires
        b.len() == 2,
    ensures
        i16::MIN <= be_i16(b) <= i16::MAX,
        i16_bytes(be_i16(b)) == b,
{
    assert(i16_bytes(be_i16(b)) =~= b);
}

/// The four bytes of an integer, as an unsigned number with the highest byte first,
/// differ from it by a multiple of what four bytes can hold.
pub proof fn law_i32_bytes_are_big_endian(v: int)
    requires
        i32::MIN <= v <= i32::MAX,
    ensures
        i32_bytes(v).len() == 4,
        (((i32_bytes(v)[0] * 256 + i32_bytes(v)[1]) * 256 + i32_bytes(v)[2]) * 256 + i32_bytes(v)[3]
            - v) % 0x1_0000_0000 == 0,
{
    let unsigned = if v < 0 {
        v + 0x1_0000_0000
    } else {
        v
    };
    let high = unsigned / 0x1_0000;
    assert(unsigned / 0x100_0000 == high / 0x100);
    assert(unsigned / 0x100 / 0x100 == high);
    assert(i32_bytes(v)[0] * 256 + i32_bytes(v)[1] == high);
    assert(high * 256 + i32_bytes(v)[2] == unsigned / 0x100);
}

/// Every four bytes are those of some integer.
pub proof fn law_four_bytes_are_an_i32(b: Seq<u8>)
    requires
        b.len() == 4,
    ensures
        i32::MIN <= be_i32(b) <= i32::MAX,
        i32_bytes(be_i32(b)) == b,
{
    let unsigned = b[0] * 0x100_0000 + b[1] * 0x1_0000 + b[2] * 0x100 + b[3];
    assert(unsigned / 0x100 == b[0] * 0x1_0000 + b[1] * 0x100 + b[2]);
    assert(unsigned / 0x1_0000 == b[0] * 0x100 + b[1]);
    assert(unsigned / 0x100_0000 == b[0]);
    assert(i32_bytes(be_i32(b)) =~= b);
}

/// Calls `bytes::Buf::get_i16` on the slice. Claimed of it: it gives the
/// big-endian integer at the front, and moves the slice past those two bytes.
#[verifier::external_body]
pub(crate) fn get_i16(b: &mut &[u8]) -> (v: i16)
    requires
        old(b)@.len() >= 2,
    ensures
        v == be_i16(old(b)@),
        final(b)@ == old(b)@.skip(2),
{
    b.get_i16()
}

/// Calls `bytes::Buf::get_i32` on the slice. Claimed of it: it gives the
/// big-endian integer at the front, and moves the slice past those four bytes.
#[verifier::external_body]
pub(crate) fn get_i32(b: &mut &[u8]) -> (v: i32)
    requires
        old(b)@.len() >= 4,
    ensures
        v == be_i32(old(b)@),
        final(b)@ == old(b)@.skip(4),
{
    b.get_i32()
}

/// Calls `bytes::Buf::advance` on the slice. Claimed of it: it moves the slice
/// past `count` bytes.
#[verifier::external_body]
pub(crate) fn advance(b: &mut &[u8], count: usize)
    requires
        old(b)@.len() >= count,
    ensures
        final(b)@ == old(b)@.skip(count as int),
{
    b.advance(count)
}

} // verus!
