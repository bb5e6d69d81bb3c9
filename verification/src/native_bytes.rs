//! Integers as they lie in memory: the bytes of a `u32` and of an `i64` in the byte
//! order of the machine.

use vstd::prelude::*;

verus! {

/// The four bytes of `x`, least significant first.
pub open spec fn u32_le_bytes(x: u32) -> Seq<u8> {
    seq![x as u8, (x >> 8) as u8, (x >> 16) as u8, (x >> 24) as u8]
}

/// The number whose four bytes, least significant first, are `s`.
pub open spec fn u32_of_le_bytes(s: Seq<u8>) -> u32 {
    (s[0] as u32) | (s[1] as u32) << 8 | (s[2] as u32) << 16 | (s[3] as u32) << 24
}

/// The eight bytes of `x`, least significant first.
pub open spec fn u64_le_bytes(x: u64) -> Seq<u8> {
    seq![
        x as u8,
        (x >> 8) as u8,
        (x >> 16) as u8,
        (x >> 24) as u8,
        (x >> 32) as u8,
        (x >> 40) as u8,
        (x >> 48) as u8,
        (x >> 56) as u8,
    ]
}

/// The number whose eight bytes, least significant first, are `s`.
pub open spec fn u64_of_le_bytes(s: Seq<u8>) -> u64 {
    (s[0] as u64) | (s[1] as u64) << 8 | (s[2] as u64) << 16 | (s[3] as u64) << 24 | (s[4] as u64)
        << 32 | (s[5] as u64) << 40 | (s[6] as u64) << 48 | (s[7] as u64) << 56
}

/// `le`, a sequence of bytes with the least significant first, in the byte order of
/// this machine; and back, since turning the order round twice changes nothing.
pub open spec fn in_native_order(le: Seq<u8>) -> Seq<u8> {
    if vstd::endian::endianness() == vstd::endian::Endian::Little {
        le
    } else {
        le.reverse()
    }
}

/// The bytes of `x` in the byte order of this machine.
pub open spec fn u32_ne_bytes(x: u32) -> Seq<u8> {
    in_native_order(u32_le_bytes(x))
}

/// The number whose bytes, in the byte order of this machine, are `s`.
pub open spec fn u32_of_ne_bytes(s: Seq<u8>) -> u32 {
    u32_of_le_bytes(in_native_order(s))
}

/// The bytes of `x`, in two's complement, in the byte order of this machine.
pub open spec fn i64_ne_bytes(x: i64) -> Seq<u8> {
    in_native_order(u64_le_bytes(x as u64))
}

/// The number whose bytes, in two's complement and in the byte order of this machine,
/// are `s`.
pub open spec fn i64_of_ne_bytes(s: Seq<u8>) -> i64 {
    u64_of_le_bytes(in_native_order(s)) as i64
}

/// `u32::to_ne_bytes`: the four bytes of `x` in the byte order of the machine.
#[verifier::external_body]
pub(crate) fn u32_to_ne_bytes(x: u32) -> (bytes: [u8; 4])
    ensures
        bytes@ == u32_ne_bytes(x),
{
    x.to_ne_bytes()
}

/// `u32::from_ne_bytes`: the number whose bytes in the byte order of the machine are
/// `bytes`.
#[verifier::external_body]
pub(crate) fn u32_from_ne_bytes(bytes: [u8; 4]) -> (x: u32)
    ensures
        x == u32_of_ne_bytes(bytes@),
{
    u32::from_ne_bytes(bytes)
}

/// `i64::to_ne_bytes`: the eight bytes of `x`, in two's complement, in the byte order of
/// the machine.
#[verifier::external_body]
pub(crate) fn i64_to_ne_bytes(x: i64) -> (bytes: [u8; 8])
    ensures
        bytes@ == i64_ne_bytes(x),
{
    x.to_ne_bytes()
}

/// `i64::from_ne_bytes`: the number whose bytes, in two's complement and in the byte
/// order of the machine, are `bytes`.
#[verifier::external_body]
pub(crate) fn i64_from_ne_bytes(bytes: [u8; 8]) -> (x: i64)
    ensures
        x == i64_of_ne_bytes(bytes@),
{
    i64::from_ne_bytes(bytes)
}

/// Reading the bytes of a `u32` gives the number back, and so do the bytes of the number
/// read.
pub proof fn u32_ne_bytes_round_trip(x: u32, s: Seq<u8>)
    ensures
        u32_ne_bytes(x).len() == 4,
        u32_of_ne_bytes(u32_ne_bytes(x)) == x,
        s.len() == 4 ==> u32_ne_bytes(u32_of_ne_bytes(s)) == s,
{
    assert(in_native_order(u32_ne_bytes(x)) =~= u32_le_bytes(x));
    assert(((x as u8) as u32) | (((x >> 8) as u8) as u32) << 8 | (((x >> 16) as u8) as u32) << 16
        | (((x >> 24) as u8) as u32) << 24 == x) by (bit_vector);
    if s.len() == 4 {
        let t = in_native_order(s);
        let (a, b, c, d) = (t[0], t[1], t[2], t[3]);
        let y = u32_of_le_bytes(t);
        assert(y as u8 == a && (y >> 8) as u8 == b && (y >> 16) as u8 == c && (y >> 24) as u8 == d)
            by (bit_vector)
            requires
                y == (a as u32) | (b as u32) << 8 | (c as u32) << 16 | (d as u32) << 24,
        ;
        assert(u32_le_bytes(y) =~= t);
        assert(in_native_order(t) =~= s);
    }
}

/// Reading the bytes of an `i64` gives the number back, and so do the bytes of the number
/// read.
pub proof fn i64_ne_bytes_round_trip(x: i64, s: Seq<u8>)
    ensures
        i64_ne_bytes(x).len() == 8,
        i64_of_ne_bytes(i64_ne_bytes(x)) == x,
        s.len() == 8 ==> i64_ne_bytes(i64_of_ne_bytes(s)) == s,
{
    let u = x as u64;
    assert(in_native_order(i64_ne_bytes(x)) =~= u64_le_bytes(u));
    assert(((u as u8) as u64) | (((u >> 8) as u8) as u64) << 8 | (((u >> 16) as u8) as u64) << 16
        | (((u >> 24) as u8) as u64) << 24 | (((u >> 32) as u8) as u64) << 32 | (((u
        >> 40) as u8) as u64) << 40 | (((u >> 48) as u8) as u64) << 48 | (((u >> 56) as u8) as u64)
        << 56 == u) by (bit_vector);
    assert((x as u64) as i64 == x) by (bit_vector);
    if s.len() == 8 {
        let t = in_native_order(s);
        let (a, b, c, d) = (t[0], t[1], t[2], t[3]);
        let (e, f, g, h) = (t[4], t[5], t[6], t[7]);
        let y = u64_of_le_bytes(t);
        assert(y as u8 == a && (y >> 8) as u8 == b && (y >> 16) as u8 == c && (y >> 24) as u8 == d
            && (y >> 32) as u8 == e && (y >> 40) as u8 == f && (y >> 48) as u8 == g && (y
            >> 56) as u8 == h) by (bit_vector)
            requires
                y == (a as u64) | (b as u64) << 8 | (c as u64) << 16 | (d as u64) << 24 | (
                e as u64) << 32 | (f as u64) << 40 | (g as u64) << 48 | (h as u64) << 56,
        ;
        assert((y as i64) as u64 == y) by (bit_vector);
        assert(u64_le_bytes(y) =~= t);
        assert(in_native_order(t) =~= s);
    }
}

} // verus!
