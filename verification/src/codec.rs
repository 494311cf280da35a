//! Endian-aware fixed-width value codecs: read and write unsigned and
//! signed integers of every width in big-endian, little-endian or native
//! byte order, over any byte source or sink. The byte-level meaning of each
//! width and order is a spec function (`be16`, `le64_bytes`, ...), and every
//! reader and writer is exact against it.

use vstd::endian::Endian;
use vstd::endian::endianness;
use vstd::prelude::*;

use crate::stream::ByteSink;
use crate::stream::ByteSource;
use crate::stream::StreamError;

verus! {

/// What a successful read delivered beyond the bytes `before` already held.
pub open spec fn fresh_bytes(before: Seq<u8>, after: Seq<u8>) -> Seq<u8> {
    after.skip(before.len() as int)
}

/// The value that `s` holds as a big-endian u16.
pub open spec fn be16(s: Seq<u8>) -> u16
    recommends
        s.len() == 2,
{
    (s[0] * 0x100 + s[1]) as u16
}

/// The value that `s` holds as a little-endian u16.
pub open spec fn le16(s: Seq<u8>) -> u16
    recommends
        s.len() == 2,
{
    (s[1] * 0x100 + s[0]) as u16
}

/// The value that `s` holds as a native-endian u16.
pub open spec fn ne16(s: Seq<u8>) -> u16
    recommends
        s.len() == 2,
{
    if endianness() == Endian::Little {
        le16(s)
    } else {
        be16(s)
    }
}

/// The big-endian bytes of `v`.
pub open spec fn be16_bytes(v: u16) -> Seq<u8> {
    seq![((v / 0x100) % 0x100) as u8, (v % 0x100) as u8]
}

/// The little-endian bytes of `v`.
pub open spec fn le16_bytes(v: u16) -> Seq<u8> {
    seq![(v % 0x100) as u8, ((v / 0x100) % 0x100) as u8]
}

/// The native-endian bytes of `v`.
pub open spec fn ne16_bytes(v: u16) -> Seq<u8> {
    if endianness() == Endian::Little {
        le16_bytes(v)
    } else {
        be16_bytes(v)
    }
}

/// The value that `s` holds as a big-endian u32.
pub open spec fn be32(s: Seq<u8>) -> u32
    recommends
        s.len() == 4,
{
    (s[0] * 0x1000000 + s[1] * 0x10000 + s[2] * 0x100 + s[3]) as u32
}

/// The value that `s` holds as a little-endian u32.
pub open spec fn le32(s: Seq<u8>) -> u32
    recommends
        s.len() == 4,
{
    (s[3] * 0x1000000 + s[2] * 0x10000 + s[1] * 0x100 + s[0]) as u32
}

/// The value that `s` holds as a native-endian u32.
pub open spec fn ne32(s: Seq<u8>) -> u32
    recommends
        s.len() == 4,
{
    if endianness() == Endian::Little {
        le32(s)
    } else {
        be32(s)
    }
}

/// The big-endian bytes of `v`.
pub open spec fn be32_bytes(v: u32) -> Seq<u8> {
    seq![((v / 0x1000000) % 0x100) as u8, ((v / 0x10000) % 0x100) as u8, ((v / 0x100) % 0x100) as u8, (v % 0x100) as u8]
}

/// The little-endian bytes of `v`.
pub open spec fn le32_bytes(v: u32) -> Seq<u8> {
    seq![(v % 0x100) as u8, ((v / 0x100) % 0x100) as u8, ((v / 0x10000) % 0x100) as u8, ((v / 0x1000000) % 0x100) as u8]
}

/// The native-endian bytes of `v`.
pub open spec fn ne32_bytes(v: u32) -> Seq<u8> {
    if endianness() == Endian::Little {
        le32_bytes(v)
    } else {
        be32_bytes(v)
    }
}

/// The value that `s` holds as a big-endian u64.
pub open spec fn be64(s: Seq<u8>) -> u64
    recommends
        s.len() == 8,
{
    (s[0] * 0x100000000000000 + s[1] * 0x1000000000000 + s[2] * 0x10000000000 + s[3] * 0x100000000 + s[4] * 0x1000000 + s[5] * 0x10000 + s[6] * 0x100 + s[7]) as u64
}

/// The value that `s` holds as a little-endian u64.
pub open spec fn le64(s: Seq<u8>) -> u64
    recommends
        s.len() == 8,
{
    (s[7] * 0x100000000000000 + s[6] * 0x1000000000000 + s[5] * 0x10000000000 + s[4] * 0x100000000 + s[3] * 0x1000000 + s[2] * 0x10000 + s[1] * 0x100 + s[0]) as u64
}

/// The value that `s` holds as a native-endian u64.
pub open spec fn ne64(s: Seq<u8>) -> u64
    recommends
        s.len() == 8,
{
    if endianness() == Endian::Little {
        le64(s)
    } else {
        be64(s)
    }
}

/// The big-endian bytes of `v`.
pub open spec fn be64_bytes(v: u64) -> Seq<u8> {
    seq![((v / 0x100000000000000) % 0x100) as u8, ((v / 0x1000000000000) % 0x100) as u8, ((v / 0x10000000000) % 0x100) as u8, ((v / 0x100000000) % 0x100) as u8, ((v / 0x1000000) % 0x100) as u8, ((v / 0x10000) % 0x100) as u8, ((v / 0x100) % 0x100) as u8, (v % 0x100) as u8]
}

/// The little-endian bytes of `v`.
pub open spec fn le64_bytes(v: u64) -> Seq<u8> {
    seq![(v % 0x100) as u8, ((v / 0x100) % 0x100) as u8, ((v / 0x10000) % 0x100) as u8, ((v / 0x1000000) % 0x100) as u8, ((v / 0x100000000) % 0x100) as u8, ((v / 0x10000000000) % 0x100) as u8, ((v / 0x1000000000000) % 0x100) as u8, ((v / 0x100000000000000) % 0x100) as u8]
}

/// The native-endian bytes of `v`.
pub open spec fn ne64_bytes(v: u64) -> Seq<u8> {
    if endianness() == Endian::Little {
        le64_bytes(v)
    } else {
        be64_bytes(v)
    }
}

/// The value that `s` holds as a big-endian u128.
pub open spec fn be128(s: Seq<u8>) -> u128
    recommends
        s.len() == 16,
{
    (s[0] * 0x1000000000000000000000000000000 + s[1] * 0x10000000000000000000000000000 + s[2] * 0x100000000000000000000000000 + s[3] * 0x1000000000000000000000000 + s[4] * 0x10000000000000000000000 + s[5] * 0x100000000000000000000 + s[6] * 0x1000000000000000000 + s[7] * 0x10000000000000000 + s[8] * 0x100000000000000 + s[9] * 0x1000000000000 + s[10] * 0x10000000000 + s[11] * 0x100000000 + s[12] * 0x1000000 + s[13] * 0x10000 + s[14] * 0x100 + s[15]) as u128
}

/// The value that `s` holds as a little-endian u128.
pub open spec fn le128(s: Seq<u8>) -> u128
    recommends
        s.len() == 16,
{
    (s[15] * 0x1000000000000000000000000000000 + s[14] * 0x10000000000000000000000000000 + s[13] * 0x100000000000000000000000000 + s[12] * 0x1000000000000000000000000 + s[11] * 0x10000000000000000000000 + s[10] * 0x100000000000000000000 + s[9] * 0x1000000000000000000 + s[8] * 0x10000000000000000 + s[7] * 0x100000000000000 + s[6] * 0x1000000000000 + s[5] * 0x10000000000 + s[4] * 0x100000000 + s[3] * 0x1000000 + s[2] * 0x10000 + s[1] * 0x100 + s[0]) as u128
}

/// The value that `s` holds as a native-endian u128.
pub open spec fn ne128(s: Seq<u8>) -> u128
    recommends
        s.len() == 16,
{
    if endianness() == Endian::Little {
        le128(s)
    } else {
        be128(s)
    }
}

/// The big-endian bytes of `v`.
pub open spec fn be128_bytes(v: u128) -> Seq<u8> {
    seq![((v / 0x1000000000000000000000000000000) % 0x100) as u8, ((v / 0x10000000000000000000000000000) % 0x100) as u8, ((v / 0x100000000000000000000000000) % 0x100) as u8, ((v / 0x1000000000000000000000000) % 0x100) as u8, ((v / 0x10000000000000000000000) % 0x100) as u8, ((v / 0x100000000000000000000) % 0x100) as u8, ((v / 0x1000000000000000000) % 0x100) as u8, ((v / 0x10000000000000000) % 0x100) as u8, ((v / 0x100000000000000) % 0x100) as u8, ((v / 0x1000000000000) % 0x100) as u8, ((v / 0x10000000000) % 0x100) as u8, ((v / 0x100000000) % 0x100) as u8, ((v / 0x1000000) % 0x100) as u8, ((v / 0x10000) % 0x100) as u8, ((v / 0x100) % 0x100) as u8, (v % 0x100) as u8]
}

/// The little-endian bytes of `v`.
pub open spec fn le128_bytes(v: u128) -> Seq<u8> {
    seq![(v % 0x100) as u8, ((v / 0x100) % 0x100) as u8, ((v / 0x10000) % 0x100) as u8, ((v / 0x1000000) % 0x100) as u8, ((v / 0x100000000) % 0x100) as u8, ((v / 0x10000000000) % 0x100) as u8, ((v / 0x1000000000000) % 0x100) as u8, ((v / 0x100000000000000) % 0x100) as u8, ((v / 0x10000000000000000) % 0x100) as u8, ((v / 0x1000000000000000000) % 0x100) as u8, ((v / 0x100000000000000000000) % 0x100) as u8, ((v / 0x10000000000000000000000) % 0x100) as u8, ((v / 0x1000000000000000000000000) % 0x100) as u8, ((v / 0x100000000000000000000000000) % 0x100) as u8, ((v / 0x10000000000000000000000000000) % 0x100) as u8, ((v / 0x1000000000000000000000000000000) % 0x100) as u8]
}

/// The native-endian bytes of `v`.
pub open spec fn ne128_bytes(v: u128) -> Seq<u8> {
    if endianness() == Endian::Little {
        le128_bytes(v)
    } else {
        be128_bytes(v)
    }
}

/// Relies on `u16::to_ne_bytes`: on a little-endian target the low byte of
/// 0x0001 comes first, so the probe returns 1; on a big-endian target the
/// high byte comes first, so it returns 0.
#[verifier::external_body]
fn ne_low_byte_first() -> (r: u8)
    ensures
        (r == 1) == (endianness() == Endian::Little),
{
    1u16.to_ne_bytes()[0]
}

/// Deliver exactly `n` bytes from `src`, named as the fresh suffix of its
/// delivery history.
fn fetch<S: ByteSource>(src: &mut S, n: usize) -> (r: Result<Vec<u8>, StreamError>)
    requires
        old(src).inv(),
    ensures
        final(src).inv(),
        (r matches Ok(v) ==> {
            &&& v@.len() == n
            &&& final(src).taken() == old(src).taken() + v@
            &&& fresh_bytes(old(src).taken(), final(src).taken()) == v@
        }),
        r is Err ==> final(src).taken() == old(src).taken(),
{
    match src.read_exact(n) {
        Ok(v) => {
            proof {
                assert(src.taken().skip(old(src).taken().len() as int) =~= v@);
            }
            Ok(v)
        },
        Err(e) => Err(e),
    }
}

/// Decode a big-endian u16 from its 2 bytes.
pub fn be16_of(b: &Vec<u8>) -> (r: u16)
    requires
        b@.len() == 2,
    ensures
        r == be16(b@),
{
    (b[0] as u16) * 0x100 + (b[1] as u16)
}

/// Encode `v` as its 2 big-endian bytes.
pub fn be16_to(v: u16) -> (r: Vec<u8>)
    ensures
        r@ == be16_bytes(v),
{
    let mut r: Vec<u8> = Vec::new();
    r.push(((v / 0x100) % 0x100) as u8);
    r.push((v % 0x100) as u8);
    proof {
        assert(r@ =~= be16_bytes(v));
    }
    r
}

/// Decode a little-endian u16 from its 2 bytes.
pub fn le16_of(b: &Vec<u8>) -> (r: u16)
    requires
        b@.len() == 2,
    ensures
        r == le16(b@),
{
    (b[1] as u16) * 0x100 + (b[0] as u16)
}

/// Encode `v` as its 2 little-endian bytes.
pub fn le16_to(v: u16) -> (r: Vec<u8>)
    ensures
        r@ == le16_bytes(v),
{
    let mut r: Vec<u8> = Vec::new();
    r.push((v % 0x100) as u8);
    r.push(((v / 0x100) % 0x100) as u8);
    proof {
        assert(r@ =~= le16_bytes(v));
    }
    r
}

/// Decode a big-endian u32 from its 4 bytes.
pub fn be32_of(b: &Vec<u8>) -> (r: u32)
    requires
        b@.len() == 4,
    ensures
        r == be32(b@),
{
    (b[0] as u32) * 0x1000000 + (b[1] as u32) * 0x10000 + (b[2] as u32) * 0x100 + (b[3] as u32)
}

/// Encode `v` as its 4 big-endian bytes.
pub fn be32_to(v: u32) -> (r: Vec<u8>)
    ensures
        r@ == be32_bytes(v),
{
    let mut r: Vec<u8> = Vec::new();
    r.push(((v / 0x1000000) % 0x100) as u8);
    r.push(((v / 0x10000) % 0x100) as u8);
    r.push(((v / 0x100) % 0x100) as u8);
    r.push((v % 0x100) as u8);
    proof {
        assert(r@ =~= be32_bytes(v));
    }
    r
}

/// Decode a little-endian u32 from its 4 bytes.
pub fn le32_of(b: &Vec<u8>) -> (r: u32)
    requires
        b@.len() == 4,
    ensures
        r == le32(b@),
{
    (b[3] as u32) * 0x1000000 + (b[2] as u32) * 0x10000 + (b[1] as u32) * 0x100 + (b[0] as u32)
}

/// Encode `v` as its 4 little-endian bytes.
pub fn le32_to(v: u32) -> (r: Vec<u8>)
    ensures
        r@ == le32_bytes(v),
{
    let mut r: Vec<u8> = Vec::new();
    r.push((v % 0x100) as u8);
    r.push(((v / 0x100) % 0x100) as u8);
    r.push(((v / 0x10000) % 0x100) as u8);
    r.push(((v / 0x1000000) % 0x100) as u8);
    proof {
        assert(r@ =~= le32_bytes(v));
    }
    r
}

/// Decode a big-endian u64 from its 8 bytes.
pub fn be64_of(b: &Vec<u8>) -> (r: u64)
    requires
        b@.len() == 8,
    ensures
        r == be64(b@),
{
    (b[0] as u64) * 0x100000000000000 + (b[1] as u64) * 0x1000000000000 + (b[2] as u64) * 0x10000000000 + (b[3] as u64) * 0x100000000 + (b[4] as u64) * 0x1000000 + (b[5] as u64) * 0x10000 + (b[6] as u64) * 0x100 + (b[7] as u64)
}

/// Encode `v` as its 8 big-endian bytes.
pub fn be64_to(v: u64) -> (r: Vec<u8>)
    ensures
        r@ == be64_bytes(v),
{
    let mut r: Vec<u8> = Vec::new();
    r.push(((v / 0x100000000000000) % 0x100) as u8);
    r.push(((v / 0x1000000000000) % 0x100) as u8);
    r.push(((v / 0x10000000000) % 0x100) as u8);
    r.push(((v / 0x100000000) % 0x100) as u8);
    r.push(((v / 0x1000000) % 0x100) as u8);
    r.push(((v / 0x10000) % 0x100) as u8);
    r.push(((v / 0x100) % 0x100) as u8);
    r.push((v % 0x100) as u8);
    proof {
        assert(r@ =~= be64_bytes(v));
    }
    r
}

/// Decode a little-endian u64 from its 8 bytes.
pub fn le64_of(b: &Vec<u8>) -> (r: u64)
    requires
        b@.len() == 8,
    ensures
        r == le64(b@),
{
    (b[7] as u64) * 0x100000000000000 + (b[6] as u64) * 0x1000000000000 + (b[5] as u64) * 0x10000000000 + (b[4] as u64) * 0x100000000 + (b[3] as u64) * 0x1000000 + (b[2] as u64) * 0x10000 + (b[1] as u64) * 0x100 + (b[0] as u64)
}

/// Encode `v` as its 8 little-endian bytes.
pub fn le64_to(v: u64) -> (r: Vec<u8>)
    ensures
        r@ == le64_bytes(v),
{
    let mut r: Vec<u8> = Vec::new();
    r.push((v % 0x100) as u8);
    r.push(((v / 0x100) % 0x100) as u8);
    r.push(((v / 0x10000) % 0x100) as u8);
    r.push(((v / 0x1000000) % 0x100) as u8);
    r.push(((v / 0x100000000) % 0x100) as u8);
    r.push(((v / 0x10000000000) % 0x100) as u8);
    r.push(((v / 0x1000000000000) % 0x100) as u8);
    r.push(((v / 0x100000000000000) % 0x100) as u8);
    proof {
        assert(r@ =~= le64_bytes(v));
    }
    r
}

/// Decode a big-endian u128 from its 16 bytes.
pub fn be128_of(b: &Vec<u8>) -> (r: u128)
    requires
        b@.len() == 16,
    ensures
        r == be128(b@),
{
    (b[0] as u128) * 0x1000000000000000000000000000000 + (b[1] as u128) * 0x10000000000000000000000000000 + (b[2] as u128) * 0x100000000000000000000000000 + (b[3] as u128) * 0x1000000000000000000000000 + (b[4] as u128) * 0x10000000000000000000000 + (b[5] as u128) * 0x100000000000000000000 + (b[6] as u128) * 0x1000000000000000000 + (b[7] as u128) * 0x10000000000000000 + (b[8] as u128) * 0x100000000000000 + (b[9] as u128) * 0x1000000000000 + (b[10] as u128) * 0x10000000000 + (b[11] as u128) * 0x100000000 + (b[12] as u128) * 0x1000000 + (b[13] as u128) * 0x10000 + (b[14] as u128) * 0x100 + (b[15] as u128)
}

/// Encode `v` as its 16 big-endian bytes.
pub fn be128_to(v: u128) -> (r: Vec<u8>)
    ensures
        r@ == be128_bytes(v),
{
    let mut r: Vec<u8> = Vec::new();
    r.push(((v / 0x1000000000000000000000000000000) % 0x100) as u8);
    r.push(((v / 0x10000000000000000000000000000) % 0x100) as u8);
    r.push(((v / 0x100000000000000000000000000) % 0x100) as u8);
    r.push(((v / 0x1000000000000000000000000) % 0x100) as u8);
    r.push(((v / 0x10000000000000000000000) % 0x100) as u8);
    r.push(((v / 0x100000000000000000000) % 0x100) as u8);
    r.push(((v / 0x1000000000000000000) % 0x100) as u8);
    r.push(((v / 0x10000000000000000) % 0x100) as u8);
    r.push(((v / 0x100000000000000) % 0x100) as u8);
    r.push(((v / 0x1000000000000) % 0x100) as u8);
    r.push(((v / 0x10000000000) % 0x100) as u8);
    r.push(((v / 0x100000000) % 0x100) as u8);
    r.push(((v / 0x1000000) % 0x100) as u8);
    r.push(((v / 0x10000) % 0x100) as u8);
    r.push(((v / 0x100) % 0x100) as u8);
    r.push((v % 0x100) as u8);
    proof {
        assert(r@ =~= be128_bytes(v));
    }
    r
}

/// Decode a little-endian u128 from its 16 bytes.
pub fn le128_of(b: &Vec<u8>) -> (r: u128)
    requires
        b@.len() == 16,
    ensures
        r == le128(b@),
{
    (b[15] as u128) * 0x1000000000000000000000000000000 + (b[14] as u128) * 0x10000000000000000000000000000 + (b[13] as u128) * 0x100000000000000000000000000 + (b[12] as u128) * 0x1000000000000000000000000 + (b[11] as u128) * 0x10000000000000000000000 + (b[10] as u128) * 0x100000000000000000000 + (b[9] as u128) * 0x1000000000000000000 + (b[8] as u128) * 0x10000000000000000 + (b[7] as u128) * 0x100000000000000 + (b[6] as u128) * 0x1000000000000 + (b[5] as u128) * 0x10000000000 + (b[4] as u128) * 0x100000000 + (b[3] as u128) * 0x1000000 + (b[2] as u128) * 0x10000 + (b[1] as u128) * 0x100 + (b[0] as u128)
}

/// Encode `v` as its 16 little-endian bytes.
pub fn le128_to(v: u128) -> (r: Vec<u8>)
    ensures
        r@ == le128_bytes(v),
{
    let mut r: Vec<u8> = Vec::new();
    r.push((v % 0x100) as u8);
    r.push(((v / 0x100) % 0x100) as u8);
    r.push(((v / 0x10000) % 0x100) as u8);
    r.push(((v / 0x1000000) % 0x100) as u8);
    r.push(((v / 0x100000000) % 0x100) as u8);
    r.push(((v / 0x10000000000) % 0x100) as u8);
    r.push(((v / 0x1000000000000) % 0x100) as u8);
    r.push(((v / 0x100000000000000) % 0x100) as u8);
    r.push(((v / 0x10000000000000000) % 0x100) as u8);
    r.push(((v / 0x1000000000000000000) % 0x100) as u8);
    r.push(((v / 0x100000000000000000000) % 0x100) as u8);
    r.push(((v / 0x10000000000000000000000) % 0x100) as u8);
    r.push(((v / 0x1000000000000000000000000) % 0x100) as u8);
    r.push(((v / 0x100000000000000000000000000) % 0x100) as u8);
    r.push(((v / 0x10000000000000000000000000000) % 0x100) as u8);
    r.push(((v / 0x1000000000000000000000000000000) % 0x100) as u8);
    proof {
        assert(r@ =~= le128_bytes(v));
    }
    r
}

/// Read a single-byte u8 from `src`. Endianness orders bytes, not
/// bits, so all three encodings of one byte agree; the big-endian,
/// little-endian and native-endian readers exist for uniformity.
pub fn read_u8<S: ByteSource>(src: &mut S) -> (r: Result<u8, StreamError>)
    requires
        old(src).inv(),
    ensures
        final(src).inv(),
        (r matches Ok(v) ==> {
            let got = fresh_bytes(old(src).taken(), final(src).taken());
            &&& got.len() == 1
            &&& final(src).taken() == old(src).taken() + got
            &&& v == got[0]
        }),
        r is Err ==> final(src).taken() == old(src).taken(),
{
    let bytes = match fetch(src, 1) {
        Ok(b) => b,
        Err(e) => {
            return Err(e);
        },
    };
    Ok(bytes[0])
}

/// Read a single-byte u8 from `src`. Endianness orders bytes, not
/// bits, so all three encodings of one byte agree; the big-endian,
/// little-endian and native-endian readers exist for uniformity.
pub fn read_u8_le<S: ByteSource>(src: &mut S) -> (r: Result<u8, StreamError>)
    requires
        old(src).inv(),
    ensures
        final(src).inv(),
        (r matches Ok(v) ==> {
            let got = fresh_bytes(old(src).taken(), final(src).taken());
            &&& got.len() == 1
            &&& final(src).taken() == old(src).taken() + got
            &&& v == got[0]
        }),
        r is Err ==> final(src).taken() == old(src).taken(),
{
    let bytes = match fetch(src, 1) {
        Ok(b) => b,
        Err(e) => {
            return Err(e);
        },
    };
    Ok(bytes[0])
}

/// Read a single-byte u8 from `src`. Endianness orders bytes, not
/// bits, so all three encodings of one byte agree; the big-endian,
/// little-endian and native-endian readers exist for uniformity.
pub fn read_u8_ne<S: ByteSource>(src: &mut S) -> (r: Result<u8, StreamError>)
    requires
        old(src).inv(),
    ensures
        final(src).inv(),
        (r matches Ok(v) ==> {
            let got = fresh_bytes(old(src).taken(), final(src).taken());
            &&& got.len() == 1
            &&& final(src).taken() == old(src).taken() + got
            &&& v == got[0]
        }),
        r is Err ==> final(src).taken() == old(src).taken(),
{
    let bytes = match fetch(src, 1) {
        Ok(b) => b,
        Err(e) => {
            return Err(e);
        },
    };
    Ok(bytes[0])
}

/// Read a single-byte i8 from `src`. Endianness orders bytes, not
/// bits, so all three encodings of one byte agree; the big-endian,
/// little-endian and native-endian readers exist for uniformity.
pub fn read_i8<S: ByteSource>(src: &mut S) -> (r: Result<i8, StreamError>)
    requires
        old(src).inv(),
    ensures
        final(src).inv(),
        (r matches Ok(v) ==> {
            let got = fresh_bytes(old(src).taken(), final(src).taken());
            &&& got.len() == 1
            &&& final(src).taken() == old(src).taken() + got
            &&& v == got[0] as i8
        }),
        r is Err ==> final(src).taken() == old(src).taken(),
{
    let bytes = match fetch(src, 1) {
        Ok(b) => b,
        Err(e) => {
            return Err(e);
        },
    };
    Ok(bytes[0] as i8)
}

/// Read a single-byte i8 from `src`. Endianness orders bytes, not
/// bits, so all three encodings of one byte agree; the big-endian,
/// little-endian and native-endian readers exist for uniformity.
pub fn read_i8_le<S: ByteSource>(src: &mut S) -> (r: Result<i8, StreamError>)
    requires
        old(src).inv(),
    ensures
        final(src).inv(),
        (r matches Ok(v) ==> {
            let got = fresh_bytes(old(src).taken(), final(src).taken());
            &&& got.len() == 1
            &&& final(src).taken() == old(src).taken() + got
            &&& v == got[0] as i8
        }),
        r is Err ==> final(src).taken() == old(src).taken(),
{
    let bytes = match fetch(src, 1) {
        Ok(b) => b,
        Err(e) => {
            return Err(e);
        },
    };
    Ok(bytes[0] as i8)
}

/// Read a single-byte i8 from `src`. Endianness orders bytes, not
/// bits, so all three encodings of one byte agree; the big-endian,
/// little-endian and native-endian readers exist for uniformity.
pub fn read_i8_ne<S: ByteSource>(src: &mut S) -> (r: Result<i8, StreamError>)
    requires
        old(src).inv(),
    ensures
        final(src).inv(),
        (r matches Ok(v) ==> {
            let got = fresh_bytes(old(src).taken(), final(src).taken());
            &&& got.len() == 1
            &&& final(src).taken() == old(src).taken() + got
            &&& v == got[0] as i8
        }),
        r is Err ==> final(src).taken() == old(src).taken(),
{
    let bytes = match fetch(src, 1) {
        Ok(b) => b,
        Err(e) => {
            return Err(e);
        },
    };
    Ok(bytes[0] as i8)
}

/// Read a big-endian u16 from `src`.
pub fn read_u16<S: ByteSource>(src: &mut S) -> (r: Result<u16, StreamError>)
    requires
        old(src).inv(),
    ensures
        final(src).inv(),
        (r matches Ok(v) ==> {
            let got = fresh_bytes(old(src).taken(), final(src).taken());
            &&& got.len() == 2
            &&& final(src).taken() == old(src).taken() + got
            &&& v == be16(got)
        }),
        r is Err ==> final(src).taken() == old(src).taken(),
{
    let bytes = match fetch(src, 2) {
        Ok(b) => b,
        Err(e) => {
            return Err(e);
        },
    };
    Ok(be16_of(&bytes))
}

/// Read a little-endian u16 from `src`.
pub fn read_u16_le<S: ByteSource>(src: &mut S) -> (r: Result<u16, StreamError>)
    requires
        old(src).inv(),
    ensures
        final(src).inv(),
        (r matches Ok(v) ==> {
            let got = fresh_bytes(old(src).taken(), final(src).taken());
            &&& got.len() == 2
            &&& final(src).taken() == old(src).taken() + got
            &&& v == le16(got)
        }),
        r is Err ==> final(src).taken() == old(src).taken(),
{
    let bytes = match fetch(src, 2) {
        Ok(b) => b,
        Err(e) => {
            return Err(e);
        },
    };
    Ok(le16_of(&bytes))
}

/// Read a native-endian u16 from `src`.
pub fn read_u16_ne<S: ByteSource>(src: &mut S) -> (r: Result<u16, StreamError>)
    requires
        old(src).inv(),
    ensures
        final(src).inv(),
        (r matches Ok(v) ==> {
            let got = fresh_bytes(old(src).taken(), final(src).taken());
            &&& got.len() == 2
            &&& final(src).taken() == old(src).taken() + got
            &&& v == ne16(got)
        }),
        r is Err ==> final(src).taken() == old(src).taken(),
{
    let bytes = match fetch(src, 2) {
        Ok(b) => b,
        Err(e) => {
            return Err(e);
        },
    };
    if ne_low_byte_first() == 1 {
        Ok(le16_of(&bytes))
    } else {
        Ok(be16_of(&bytes))
    }
}

/// Read a big-endian i16 from `src`.
pub fn read_i16<S: ByteSource>(src: &mut S) -> (r: Result<i16, StreamError>)
    requires
        old(src).inv(),
    ensures
        final(src).inv(),
        (r matches Ok(v) ==> {
            let got = fresh_bytes(old(src).taken(), final(src).taken());
            &&& got.len() == 2
            &&& final(src).taken() == old(src).taken() + got
            &&& v == be16(got) as i16
        }),
        r is Err ==> final(src).taken() == old(src).taken(),
{
    let bytes = match fetch(src, 2) {
        Ok(b) => b,
        Err(e) => {
            return Err(e);
        },
    };
    Ok(be16_of(&bytes) as i16)
}

/// Read a little-endian i16 from `src`.
pub fn read_i16_le<S: ByteSource>(src: &mut S) -> (r: Result<i16, StreamError>)
    requires
        old(src).inv(),
    ensures
        final(src).inv(),
        (r matches Ok(v) ==> {
            let got = fresh_bytes(old(src).taken(), final(src).taken());
            &&& got.len() == 2
            &&& final(src).taken() == old(src).taken() + got
            &&& v == le16(got) as i16
        }),
        r is Err ==> final(src).taken() == old(src).taken(),
{
    let bytes = match fetch(src, 2) {
        Ok(b) => b,
        Err(e) => {
            return Err(e);
        },
    };
    Ok(le16_of(&bytes) as i16)
}

/// Read a native-endian i16 from `src`.
pub fn read_i16_ne<S: ByteSource>(src: &mut S) -> (r: Result<i16, StreamError>)
    requires
        old(src).inv(),
    ensures
        final(src).inv(),
        (r matches Ok(v) ==> {
            let got = fresh_bytes(old(src).taken(), final(src).taken());
            &&& got.len() == 2
            &&& final(src).taken() == old(src).taken() + got
            &&& v == ne16(got) as i16
        }),
        r is Err ==> final(src).taken() == old(src).taken(),
{
    let bytes = match fetch(src, 2) {
        Ok(b) => b,
        Err(e) => {
            return Err(e);
        },
    };
    if ne_low_byte_first() == 1 {
        Ok(le16_of(&bytes) as i16)
    } else {
        Ok(be16_of(&bytes) as i16)
    }
}

/// Read a big-endian u32 from `src`.
pub fn read_u32<S: ByteSource>(src: &mut S) -> (r: Result<u32, StreamError>)
    requires
        old(src).inv(),
    ensures
        final(src).inv(),
        (r matches Ok(v) ==> {
            let got = fresh_bytes(old(src).taken(), final(src).taken());
            &&& got.len() == 4
            &&& final(src).taken() == old(src).taken() + got
            &&& v == be32(got)
        }),
        r is Err ==> final(src).taken() == old(src).taken(),
{
    let bytes = match fetch(src, 4) {
        Ok(b) => b,
        Err(e) => {
            return Err(e);
        },
    };
    Ok(be32_of(&bytes))
}

/// Read a little-endian u32 from `src`.
pub fn read_u32_le<S: ByteSource>(src: &mut S) -> (r: Result<u32, StreamError>)
    requires
        old(src).inv(),
    ensures
        final(src).inv(),
        (r matches Ok(v) ==> {
            let got = fresh_bytes(old(src).taken(), final(src).taken());
            &&& got.len() == 4
            &&& final(src).taken() == old(src).taken() + got
            &&& v == le32(got)
        }),
        r is Err ==> final(src).taken() == old(src).taken(),
{
    let bytes = match fetch(src, 4) {
        Ok(b) => b,
        Err(e) => {
            return Err(e);
        },
    };
    Ok(le32_of(&bytes))
}

/// Read a native-endian u32 from `src`.
pub fn read_u32_ne<S: ByteSource>(src: &mut S) -> (r: Result<u32, StreamError>)
    requires
        old(src).inv(),
    ensures
        final(src).inv(),
        (r matches Ok(v) ==> {
            let got = fresh_bytes(old(src).taken(), final(src).taken());
            &&& got.len() == 4
            &&& final(src).taken() == old(src).taken() + got
            &&& v == ne32(got)
        }),
        r is Err ==> final(src).taken() == old(src).taken(),
{
    let bytes = match fetch(src, 4) {
        Ok(b) => b,
        Err(e) => {
            return Err(e);
        },
    };
    if ne_low_byte_first() == 1 {
        Ok(le32_of(&bytes))
    } else {
        Ok(be32_of(&bytes))
    }
}

/// Read a big-endian i32 from `src`.
pub fn read_i32<S: ByteSource>(src: &mut S) -> (r: Result<i32, StreamError>)
    requires
        old(src).inv(),
    ensures
        final(src).inv(),
        (r matches Ok(v) ==> {
            let got = fresh_bytes(old(src).taken(), final(src).taken());
            &&& got.len() == 4
            &&& final(src).taken() == old(src).taken() + got
            &&& v == be32(got) as i32
        }),
        r is Err ==> final(src).taken() == old(src).taken(),
{
    let bytes = match fetch(src, 4) {
        Ok(b) => b,
        Err(e) => {
            return Err(e);
        },
    };
    Ok(be32_of(&bytes) as i32)
}

/// Read a little-endian i32 from `src`.
pub fn read_i32_le<S: ByteSource>(src: &mut S) -> (r: Result<i32, StreamError>)
    requires
        old(src).inv(),
    ensures
        final(src).inv(),
        (r matches Ok(v) ==> {
            let got = fresh_bytes(old(src).taken(), final(src).taken());
            &&& got.len() == 4
            &&& final(src).taken() == old(src).taken() + got
            &&& v == le32(got) as i32
        }),
        r is Err ==> final(src).taken() == old(src).taken(),
{
    let bytes = match fetch(src, 4) {
        Ok(b) => b,
        Err(e) => {
            return Err(e);
        },
    };
    Ok(le32_of(&bytes) as i32)
}

/// Read a native-endian i32 from `src`.
pub fn read_i32_ne<S: ByteSource>(src: &mut S) -> (r: Result<i32, StreamError>)
    requires
        old(src).inv(),
    ensures
        final(src).inv(),
        (r matches Ok(v) ==> {
            let got = fresh_bytes(old(src).taken(), final(src).taken());
            &&& got.len() == 4
            &&& final(src).taken() == old(src).taken() + got
            &&& v == ne32(got) as i32
        }),
        r is Err ==> final(src).taken() == old(src).taken(),
{
    let bytes = match fetch(src, 4) {
        Ok(b) => b,
        Err(e) => {
            return Err(e);
        },
    };
    if ne_low_byte_first() == 1 {
        Ok(le32_of(&bytes) as i32)
    } else {
        Ok(be32_of(&bytes) as i32)
    }
}

/// Read a big-endian u64 from `src`.
pub fn read_u64<S: ByteSource>(src: &mut S) -> (r: Result<u64, StreamError>)
    requires
        old(src).inv(),
    ensures
        final(src).inv(),
        (r matches Ok(v) ==> {
            let got = fresh_bytes(old(src).taken(), final(src).taken());
            &&& got.len() == 8
            &&& final(src).taken() == old(src).taken() + got
            &&& v == be64(got)
        }),
        r is Err ==> final(src).taken() == old(src).taken(),
{
    let bytes = match fetch(src, 8) {
        Ok(b) => b,
        Err(e) => {
            return Err(e);
        },
    };
    Ok(be64_of(&bytes))
}

/// Read a little-endian u64 from `src`.
pub fn read_u64_le<S: ByteSource>(src: &mut S) -> (r: Result<u64, StreamError>)
    requires
        old(src).inv(),
    ensures
        final(src).inv(),
        (r matches Ok(v) ==> {
            let got = fresh_bytes(old(src).taken(), final(src).taken());
            &&& got.len() == 8
            &&& final(src).taken() == old(src).taken() + got
            &&& v == le64(got)
        }),
        r is Err ==> final(src).taken() == old(src).taken(),
{
    let bytes = match fetch(src, 8) {
        Ok(b) => b,
        Err(e) => {
            return Err(e);
        },
    };
    Ok(le64_of(&bytes))
}

/// Read a native-endian u64 from `src`.
pub fn read_u64_ne<S: ByteSource>(src: &mut S) -> (r: Result<u64, StreamError>)
    requires
        old(src).inv(),
    ensures
        final(src).inv(),
        (r matches Ok(v) ==> {
            let got = fresh_bytes(old(src).taken(), final(src).taken());
            &&& got.len() == 8
            &&& final(src).taken() == old(src).taken() + got
            &&& v == ne64(got)
        }),
        r is Err ==> final(src).taken() == old(src).taken(),
{
    let bytes = match fetch(src, 8) {
        Ok(b) => b,
        Err(e) => {
            return Err(e);
        },
    };
    if ne_low_byte_first() == 1 {
        Ok(le64_of(&bytes))
    } else {
        Ok(be64_of(&bytes))
    }
}

/// Read a big-endian i64 from `src`.
pub fn read_i64<S: ByteSource>(src: &mut S) -> (r: Result<i64, StreamError>)
    requires
        old(src).inv(),
    ensures
        final(src).inv(),
        (r matches Ok(v) ==> {
            let got = fresh_bytes(old(src).taken(), final(src).taken());
            &&& got.len() == 8
            &&& final(src).taken() == old(src).taken() + got
            &&& v == be64(got) as i64
        }),
        r is Err ==> final(src).taken() == old(src).taken(),
{
    let bytes = match fetch(src, 8) {
        Ok(b) => b,
        Err(e) => {
            return Err(e);
        },
    };
    Ok(be64_of(&bytes) as i64)
}

/// Read a little-endian i64 from `src`.
pub fn read_i64_le<S: ByteSource>(src: &mut S) -> (r: Result<i64, StreamError>)
    requires
        old(src).inv(),
    ensures
        final(src).inv(),
        (r matches Ok(v) ==> {
            let got = fresh_bytes(old(src).taken(), final(src).taken());
            &&& got.len() == 8
            &&& final(src).taken() == old(src).taken() + got
            &&& v == le64(got) as i64
        }),
        r is Err ==> final(src).taken() == old(src).taken(),
{
    let bytes = match fetch(src, 8) {
        Ok(b) => b,
        Err(e) => {
            return Err(e);
        },
    };
    Ok(le64_of(&bytes) as i64)
}

/// Read a native-endian i64 from `src`.
pub fn read_i64_ne<S: ByteSource>(src: &mut S) -> (r: Result<i64, StreamError>)
    requires
        old(src).inv(),
    ensures
        final(src).inv(),
        (r matches Ok(v) ==> {
            let got = fresh_bytes(old(src).taken(), final(src).taken());
            &&& got.len() == 8
            &&& final(src).taken() == old(src).taken() + got
            &&& v == ne64(got) as i64
        }),
        r is Err ==> final(src).taken() == old(src).taken(),
{
    let bytes = match fetch(src, 8) {
        Ok(b) => b,
        Err(e) => {
            return Err(e);
        },
    };
    if ne_low_byte_first() == 1 {
        Ok(le64_of(&bytes) as i64)
    } else {
        Ok(be64_of(&bytes) as i64)
    }
}

/// Read a big-endian u128 from `src`.
pub fn read_u128<S: ByteSource>(src: &mut S) -> (r: Result<u128, StreamError>)
    requires
        old(src).inv(),
    ensures
        final(src).inv(),
        (r matches Ok(v) ==> {
            let got = fresh_bytes(old(src).taken(), final(src).taken());
            &&& got.len() == 16
            &&& final(src).taken() == old(src).taken() + got
            &&& v == be128(got)
        }),
        r is Err ==> final(src).taken() == old(src).taken(),
{
    let bytes = match fetch(src, 16) {
        Ok(b) => b,
        Err(e) => {
            return Err(e);
        },
    };
    Ok(be128_of(&bytes))
}

/// Read a little-endian u128 from `src`.
pub fn read_u128_le<S: ByteSource>(src: &mut S) -> (r: Result<u128, StreamError>)
    requires
        old(src).inv(),
    ensures
        final(src).inv(),
        (r matches Ok(v) ==> {
            let got = fresh_bytes(old(src).taken(), final(src).taken());
            &&& got.len() == 16
            &&& final(src).taken() == old(src).taken() + got
            &&& v == le128(got)
        }),
        r is Err ==> final(src).taken() == old(src).taken(),
{
    let bytes = match fetch(src, 16) {
        Ok(b) => b,
        Err(e) => {
            return Err(e);
        },
    };
    Ok(le128_of(&bytes))
}

/// Read a native-endian u128 from `src`.
pub fn read_u128_ne<S: ByteSource>(src: &mut S) -> (r: Result<u128, StreamError>)
    requires
        old(src).inv(),
    ensures
        final(src).inv(),
        (r matches Ok(v) ==> {
            let got = fresh_bytes(old(src).taken(), final(src).taken());
            &&& got.len() == 16
            &&& final(src).taken() == old(src).taken() + got
            &&& v == ne128(got)
        }),
        r is Err ==> final(src).taken() == old(src).taken(),
{
    let bytes = match fetch(src, 16) {
        Ok(b) => b,
        Err(e) => {
            return Err(e);
        },
    };
    if ne_low_byte_first() == 1 {
        Ok(le128_of(&bytes))
    } else {
        Ok(be128_of(&bytes))
    }
}

/// Read a big-endian i128 from `src`.
pub fn read_i128<S: ByteSource>(src: &mut S) -> (r: Result<i128, StreamError>)
    requires
        old(src).inv(),
    ensures
        final(src).inv(),
        (r matches Ok(v) ==> {
            let got = fresh_bytes(old(src).taken(), final(src).taken());
            &&& got.len() == 16
            &&& final(src).taken() == old(src).taken() + got
            &&& v == be128(got) as i128
        }),
        r is Err ==> final(src).taken() == old(src).taken(),
{
    let bytes = match fetch(src, 16) {
        Ok(b) => b,
        Err(e) => {
            return Err(e);
        },
    };
    Ok(be128_of(&bytes) as i128)
}

/// Read a little-endian i128 from `src`.
pub fn read_i128_le<S: ByteSource>(src: &mut S) -> (r: Result<i128, StreamError>)
    requires
        old(src).inv(),
    ensures
        final(src).inv(),
        (r matches Ok(v) ==> {
            let got = fresh_bytes(old(src).taken(), final(src).taken());
            &&& got.len() == 16
            &&& final(src).taken() == old(src).taken() + got
            &&& v == le128(got) as i128
        }),
        r is Err ==> final(src).taken() == old(src).taken(),
{
    let bytes = match fetch(src, 16) {
        Ok(b) => b,
        Err(e) => {
            return Err(e);
        },
    };
    Ok(le128_of(&bytes) as i128)
}

/// Read a native-endian i128 from `src`.
pub fn read_i128_ne<S: ByteSource>(src: &mut S) -> (r: Result<i128, StreamError>)
    requires
        old(src).inv(),
    ensures
        final(src).inv(),
        (r matches Ok(v) ==> {
            let got = fresh_bytes(old(src).taken(), final(src).taken());
            &&& got.len() == 16
            &&& final(src).taken() == old(src).taken() + got
            &&& v == ne128(got) as i128
        }),
        r is Err ==> final(src).taken() == old(src).taken(),
{
    let bytes = match fetch(src, 16) {
        Ok(b) => b,
        Err(e) => {
            return Err(e);
        },
    };
    if ne_low_byte_first() == 1 {
        Ok(le128_of(&bytes) as i128)
    } else {
        Ok(be128_of(&bytes) as i128)
    }
}

/// Write a single-byte u8 to `out`. Endianness orders bytes, not
/// bits, so all three encodings of one byte agree; the big-endian,
/// little-endian and native-endian writers exist for uniformity.
pub fn write_u8<S: ByteSink>(out: &mut S, val: u8) -> (r: Result<(), StreamError>)
    requires
        old(out).inv(),
    ensures
        final(out).inv(),
        r is Ok ==> final(out).sunk() == old(out).sunk() + seq![val],
        r is Err ==> final(out).sunk() == old(out).sunk(),
{
    let mut bytes: Vec<u8> = Vec::new();
    bytes.push(val);
    proof {
        assert(bytes@ =~= seq![val]);
    }
    out.write_all(bytes.as_slice())
}

/// Write a single-byte u8 to `out`. Endianness orders bytes, not
/// bits, so all three encodings of one byte agree; the big-endian,
/// little-endian and native-endian writers exist for uniformity.
pub fn write_u8_le<S: ByteSink>(out: &mut S, val: u8) -> (r: Result<(), StreamError>)
    requires
        old(out).inv(),
    ensures
        final(out).inv(),
        r is Ok ==> final(out).sunk() == old(out).sunk() + seq![val],
        r is Err ==> final(out).sunk() == old(out).sunk(),
{
    let mut bytes: Vec<u8> = Vec::new();
    bytes.push(val);
    proof {
        assert(bytes@ =~= seq![val]);
    }
    out.write_all(bytes.as_slice())
}

/// Write a single-byte u8 to `out`. Endianness orders bytes, not
/// bits, so all three encodings of one byte agree; the big-endian,
/// little-endian and native-endian writers exist for uniformity.
pub fn write_u8_ne<S: ByteSink>(out: &mut S, val: u8) -> (r: Result<(), StreamError>)
    requires
        old(out).inv(),
    ensures
        final(out).inv(),
        r is Ok ==> final(out).sunk() == old(out).sunk() + seq![val],
        r is Err ==> final(out).sunk() == old(out).sunk(),
{
    let mut bytes: Vec<u8> = Vec::new();
    bytes.push(val);
    proof {
        assert(bytes@ =~= seq![val]);
    }
    out.write_all(bytes.as_slice())
}

/// Write a single-byte i8 to `out`. Endianness orders bytes, not
/// bits, so all three encodings of one byte agree; the big-endian,
/// little-endian and native-endian writers exist for uniformity.
pub fn write_i8<S: ByteSink>(out: &mut S, val: i8) -> (r: Result<(), StreamError>)
    requires
        old(out).inv(),
    ensures
        final(out).inv(),
        r is Ok ==> final(out).sunk() == old(out).sunk() + seq![val as u8],
        r is Err ==> final(out).sunk() == old(out).sunk(),
{
    let mut bytes: Vec<u8> = Vec::new();
    bytes.push(val as u8);
    proof {
        assert(bytes@ =~= seq![val as u8 as u8]);
    }
    out.write_all(bytes.as_slice())
}

/// Write a single-byte i8 to `out`. Endianness orders bytes, not
/// bits, so all three encodings of one byte agree; the big-endian,
/// little-endian and native-endian writers exist for uniformity.
pub fn write_i8_le<S: ByteSink>(out: &mut S, val: i8) -> (r: Result<(), StreamError>)
    requires
        old(out).inv(),
    ensures
        final(out).inv(),
        r is Ok ==> final(out).sunk() == old(out).sunk() + seq![val as u8],
        r is Err ==> final(out).sunk() == old(out).sunk(),
{
    let mut bytes: Vec<u8> = Vec::new();
    bytes.push(val as u8);
    proof {
        assert(bytes@ =~= seq![val as u8 as u8]);
    }
    out.write_all(bytes.as_slice())
}

/// Write a single-byte i8 to `out`. Endianness orders bytes, not
/// bits, so all three encodings of one byte agree; the big-endian,
/// little-endian and native-endian writers exist for uniformity.
pub fn write_i8_ne<S: ByteSink>(out: &mut S, val: i8) -> (r: Result<(), StreamError>)
    requires
        old(out).inv(),
    ensures
        final(out).inv(),
        r is Ok ==> final(out).sunk() == old(out).sunk() + seq![val as u8],
        r is Err ==> final(out).sunk() == old(out).sunk(),
{
    let mut bytes: Vec<u8> = Vec::new();
    bytes.push(val as u8);
    proof {
        assert(bytes@ =~= seq![val as u8 as u8]);
    }
    out.write_all(bytes.as_slice())
}

/// Write `val` as a big-endian u16 to `out`.
pub fn write_u16<S: ByteSink>(out: &mut S, val: u16) -> (r: Result<(), StreamError>)
    requires
        old(out).inv(),
    ensures
        final(out).inv(),
        r is Ok ==> final(out).sunk() == old(out).sunk() + be16_bytes(val),
        r is Err ==> final(out).sunk() == old(out).sunk(),
{
    let bytes = be16_to(val);
    out.write_all(bytes.as_slice())
}

/// Write `val` as a little-endian u16 to `out`.
pub fn write_u16_le<S: ByteSink>(out: &mut S, val: u16) -> (r: Result<(), StreamError>)
    requires
        old(out).inv(),
    ensures
        final(out).inv(),
        r is Ok ==> final(out).sunk() == old(out).sunk() + le16_bytes(val),
        r is Err ==> final(out).sunk() == old(out).sunk(),
{
    let bytes = le16_to(val);
    out.write_all(bytes.as_slice())
}

/// Write `val` as a native-endian u16 to `out`.
pub fn write_u16_ne<S: ByteSink>(out: &mut S, val: u16) -> (r: Result<(), StreamError>)
    requires
        old(out).inv(),
    ensures
        final(out).inv(),
        r is Ok ==> final(out).sunk() == old(out).sunk() + ne16_bytes(val),
        r is Err ==> final(out).sunk() == old(out).sunk(),
{
    let bytes = if ne_low_byte_first() == 1 {
        le16_to(val)
    } else {
        be16_to(val)
    };
    out.write_all(bytes.as_slice())
}

/// Write `val` as a big-endian i16 to `out`.
pub fn write_i16<S: ByteSink>(out: &mut S, val: i16) -> (r: Result<(), StreamError>)
    requires
        old(out).inv(),
    ensures
        final(out).inv(),
        r is Ok ==> final(out).sunk() == old(out).sunk() + be16_bytes(val as u16),
        r is Err ==> final(out).sunk() == old(out).sunk(),
{
    let bytes = be16_to(val as u16);
    out.write_all(bytes.as_slice())
}

/// Write `val` as a little-endian i16 to `out`.
pub fn write_i16_le<S: ByteSink>(out: &mut S, val: i16) -> (r: Result<(), StreamError>)
    requires
        old(out).inv(),
    ensures
        final(out).inv(),
        r is Ok ==> final(out).sunk() == old(out).sunk() + le16_bytes(val as u16),
        r is Err ==> final(out).sunk() == old(out).sunk(),
{
    let bytes = le16_to(val as u16);
    out.write_all(bytes.as_slice())
}

/// Write `val` as a native-endian i16 to `out`.
pub fn write_i16_ne<S: ByteSink>(out: &mut S, val: i16) -> (r: Result<(), StreamError>)
    requires
        old(out).inv(),
    ensures
        final(out).inv(),
        r is Ok ==> final(out).sunk() == old(out).sunk() + ne16_bytes(val as u16),
        r is Err ==> final(out).sunk() == old(out).sunk(),
{
    let bytes = if ne_low_byte_first() == 1 {
        le16_to(val as u16)
    } else {
        be16_to(val as u16)
    };
    out.write_all(bytes.as_slice())
}

/// Write `val` as a big-endian u32 to `out`.
pub fn write_u32<S: ByteSink>(out: &mut S, val: u32) -> (r: Result<(), StreamError>)
    requires
        old(out).inv(),
    ensures
        final(out).inv(),
        r is Ok ==> final(out).sunk() == old(out).sunk() + be32_bytes(val),
        r is Err ==> final(out).sunk() == old(out).sunk(),
{
    let bytes = be32_to(val);
    out.write_all(bytes.as_slice())
}

/// Write `val` as a little-endian u32 to `out`.
pub fn write_u32_le<S: ByteSink>(out: &mut S, val: u32) -> (r: Result<(), StreamError>)
    requires
        old(out).inv(),
    ensures
        final(out).inv(),
        r is Ok ==> final(out).sunk() == old(out).sunk() + le32_bytes(val),
        r is Err ==> final(out).sunk() == old(out).sunk(),
{
    let bytes = le32_to(val);
    out.write_all(bytes.as_slice())
}

/// Write `val` as a native-endian u32 to `out`.
pub fn write_u32_ne<S: ByteSink>(out: &mut S, val: u32) -> (r: Result<(), StreamError>)
    requires
        old(out).inv(),
    ensures
        final(out).inv(),
        r is Ok ==> final(out).sunk() == old(out).sunk() + ne32_bytes(val),
        r is Err ==> final(out).sunk() == old(out).sunk(),
{
    let bytes = if ne_low_byte_first() == 1 {
        le32_to(val)
    } else {
        be32_to(val)
    };
    out.write_all(bytes.as_slice())
}

/// Write `val` as a big-endian i32 to `out`.
pub fn write_i32<S: ByteSink>(out: &mut S, val: i32) -> (r: Result<(), StreamError>)
    requires
        old(out).inv(),
    ensures
        final(out).inv(),
        r is Ok ==> final(out).sunk() == old(out).sunk() + be32_bytes(val as u32),
        r is Err ==> final(out).sunk() == old(out).sunk(),
{
    let bytes = be32_to(val as u32);
    out.write_all(bytes.as_slice())
}

/// Write `val` as a little-endian i32 to `out`.
pub fn write_i32_le<S: ByteSink>(out: &mut S, val: i32) -> (r: Result<(), StreamError>)
    requires
        old(out).inv(),
    ensures
        final(out).inv(),
        r is Ok ==> final(out).sunk() == old(out).sunk() + le32_bytes(val as u32),
        r is Err ==> final(out).sunk() == old(out).sunk(),
{
    let bytes = le32_to(val as u32);
    out.write_all(bytes.as_slice())
}

/// Write `val` as a native-endian i32 to `out`.
pub fn write_i32_ne<S: ByteSink>(out: &mut S, val: i32) -> (r: Result<(), StreamError>)
    requires
        old(out).inv(),
    ensures
        final(out).inv(),
        r is Ok ==> final(out).sunk() == old(out).sunk() + ne32_bytes(val as u32),
        r is Err ==> final(out).sunk() == old(out).sunk(),
{
    let bytes = if ne_low_byte_first() == 1 {
        le32_to(val as u32)
    } else {
        be32_to(val as u32)
    };
    out.write_all(bytes.as_slice())
}

/// Write `val` as a big-endian u64 to `out`.
pub fn write_u64<S: ByteSink>(out: &mut S, val: u64) -> (r: Result<(), StreamError>)
    requires
        old(out).inv(),
    ensures
        final(out).inv(),
        r is Ok ==> final(out).sunk() == old(out).sunk() + be64_bytes(val),
        r is Err ==> final(out).sunk() == old(out).sunk(),
{
    let bytes = be64_to(val);
    out.write_all(bytes.as_slice())
}

/// Write `val` as a little-endian u64 to `out`.
pub fn write_u64_le<S: ByteSink>(out: &mut S, val: u64) -> (r: Result<(), StreamError>)
    requires
        old(out).inv(),
    ensures
        final(out).inv(),
        r is Ok ==> final(out).sunk() == old(out).sunk() + le64_bytes(val),
        r is Err ==> final(out).sunk() == old(out).sunk(),
{
    let bytes = le64_to(val);
    out.write_all(bytes.as_slice())
}

/// Write `val` as a native-endian u64 to `out`.
pub fn write_u64_ne<S: ByteSink>(out: &mut S, val: u64) -> (r: Result<(), StreamError>)
    requires
        old(out).inv(),
    ensures
        final(out).inv(),
        r is Ok ==> final(out).sunk() == old(out).sunk() + ne64_bytes(val),
        r is Err ==> final(out).sunk() == old(out).sunk(),
{
    let bytes = if ne_low_byte_first() == 1 {
        le64_to(val)
    } else {
        be64_to(val)
    };
    out.write_all(bytes.as_slice())
}

/// Write `val` as a big-endian i64 to `out`.
pub fn write_i64<S: ByteSink>(out: &mut S, val: i64) -> (r: Result<(), StreamError>)
    requires
        old(out).inv(),
    ensures
        final(out).inv(),
        r is Ok ==> final(out).sunk() == old(out).sunk() + be64_bytes(val as u64),
        r is Err ==> final(out).sunk() == old(out).sunk(),
{
    let bytes = be64_to(val as u64);
    out.write_all(bytes.as_slice())
}

/// Write `val` as a little-endian i64 to `out`.
pub fn write_i64_le<S: ByteSink>(out: &mut S, val: i64) -> (r: Result<(), StreamError>)
    requires
        old(out).inv(),
    ensures
        final(out).inv(),
        r is Ok ==> final(out).sunk() == old(out).sunk() + le64_bytes(val as u64),
        r is Err ==> final(out).sunk() == old(out).sunk(),
{
    let bytes = le64_to(val as u64);
    out.write_all(bytes.as_slice())
}

/// Write `val` as a native-endian i64 to `out`.
pub fn write_i64_ne<S: ByteSink>(out: &mut S, val: i64) -> (r: Result<(), StreamError>)
    requires
        old(out).inv(),
    ensures
        final(out).inv(),
        r is Ok ==> final(out).sunk() == old(out).sunk() + ne64_bytes(val as u64),
        r is Err ==> final(out).sunk() == old(out).sunk(),
{
    let bytes = if ne_low_byte_first() == 1 {
        le64_to(val as u64)
    } else {
        be64_to(val as u64)
    };
    out.write_all(bytes.as_slice())
}

/// Write `val` as a big-endian u128 to `out`.
pub fn write_u128<S: ByteSink>(out: &mut S, val: u128) -> (r: Result<(), StreamError>)
    requires
        old(out).inv(),
    ensures
        final(out).inv(),
        r is Ok ==> final(out).sunk() == old(out).sunk() + be128_bytes(val),
        r is Err ==> final(out).sunk() == old(out).sunk(),
{
    let bytes = be128_to(val);
    out.write_all(bytes.as_slice())
}

/// Write `val` as a little-endian u128 to `out`.
pub fn write_u128_le<S: ByteSink>(out: &mut S, val: u128) -> (r: Result<(), StreamError>)
    requires
        old(out).inv(),
    ensures
        final(out).inv(),
        r is Ok ==> final(out).sunk() == old(out).sunk() + le128_bytes(val),
        r is Err ==> final(out).sunk() == old(out).sunk(),
{
    let bytes = le128_to(val);
    out.write_all(bytes.as_slice())
}

/// Write `val` as a native-endian u128 to `out`.
pub fn write_u128_ne<S: ByteSink>(out: &mut S, val: u128) -> (r: Result<(), StreamError>)
    requires
        old(out).inv(),
    ensures
        final(out).inv(),
        r is Ok ==> final(out).sunk() == old(out).sunk() + ne128_bytes(val),
        r is Err ==> final(out).sunk() == old(out).sunk(),
{
    let bytes = if ne_low_byte_first() == 1 {
        le128_to(val)
    } else {
        be128_to(val)
    };
    out.write_all(bytes.as_slice())
}

/// Write `val` as a big-endian i128 to `out`.
pub fn write_i128<S: ByteSink>(out: &mut S, val: i128) -> (r: Result<(), StreamError>)
    requires
        old(out).inv(),
    ensures
        final(out).inv(),
        r is Ok ==> final(out).sunk() == old(out).sunk() + be128_bytes(val as u128),
        r is Err ==> final(out).sunk() == old(out).sunk(),
{
    let bytes = be128_to(val as u128);
    out.write_all(bytes.as_slice())
}

/// Write `val` as a little-endian i128 to `out`.
pub fn write_i128_le<S: ByteSink>(out: &mut S, val: i128) -> (r: Result<(), StreamError>)
    requires
        old(out).inv(),
    ensures
        final(out).inv(),
        r is Ok ==> final(out).sunk() == old(out).sunk() + le128_bytes(val as u128),
        r is Err ==> final(out).sunk() == old(out).sunk(),
{
    let bytes = le128_to(val as u128);
    out.write_all(bytes.as_slice())
}

/// Write `val` as a native-endian i128 to `out`.
pub fn write_i128_ne<S: ByteSink>(out: &mut S, val: i128) -> (r: Result<(), StreamError>)
    requires
        old(out).inv(),
    ensures
        final(out).inv(),
        r is Ok ==> final(out).sunk() == old(out).sunk() + ne128_bytes(val as u128),
        r is Err ==> final(out).sunk() == old(out).sunk(),
{
    let bytes = if ne_low_byte_first() == 1 {
        le128_to(val as u128)
    } else {
        be128_to(val as u128)
    };
    out.write_all(bytes.as_slice())
}

/// Read up to `length` bytes from `src` into a fresh vector, stopping early
/// only when the stream ends. Fewer than `length` bytes mean the stream
/// ended; an error may leave earlier chunks consumed but delivers none.
pub fn read_bytes<S: ByteSource>(src: &mut S, length: u64) -> (r: Result<Vec<u8>, StreamError>)
    requires
        old(src).inv(),
    ensures
        final(src).inv(),
        (r matches Ok(v) ==> {
            &&& v@.len() <= length
            &&& final(src).taken() == old(src).taken() + v@
        }),
        r is Err ==> old(src).taken().is_prefix_of(final(src).taken()),
{
    let cap: usize = if length > usize::MAX as u64 {
        usize::MAX
    } else {
        length as usize
    };
    let mut out: Vec<u8> = Vec::new();
    let mut left: usize = cap;
    while left > 0
        invariant
            src.inv(),
            src.taken() == old(src).taken() + out@,
            out@.len() + left == cap,
        ensures
            src.inv(),
            src.taken() == old(src).taken() + out@,
            out@.len() <= cap,
        decreases left,
    {
        let mut chunk = match src.read(left) {
            Ok(c) => c,
            Err(e) => {
                return Err(e);
            },
        };
        if chunk.len() == 0 {
            break ;
        }
        left = left - chunk.len();
        out.append(&mut chunk);
    }
    Ok(out)
}

/// Write the bytes of `vals` to `out`, surrendering the vector. Kept beside
/// [`write_byte_slice`] for callers that already own a vector.
pub fn write_bytes<S: ByteSink>(out: &mut S, vals: Vec<u8>) -> (r: Result<(), StreamError>)
    requires
        old(out).inv(),
    ensures
        final(out).inv(),
        r is Ok ==> final(out).sunk() == old(out).sunk() + vals@,
        r is Err ==> final(out).sunk() == old(out).sunk(),
{
    write_byte_slice(out, vals.as_slice())
}

/// Write the bytes of `vals` to `out`.
pub fn write_byte_slice<S: ByteSink>(out: &mut S, vals: &[u8]) -> (r: Result<(), StreamError>)
    requires
        old(out).inv(),
    ensures
        final(out).inv(),
        r is Ok ==> final(out).sunk() == old(out).sunk() + vals@,
        r is Err ==> final(out).sunk() == old(out).sunk(),
{
    out.write_all(vals)
}

/// What `str::trim` leaves of `s`: the characters with leading and trailing
/// whitespace removed.
pub uninterp spec fn trimmed(s: Seq<char>) -> Seq<char>;

/// Relies on `str::trim`: removes leading and trailing whitespace; the
/// result is a function of the characters alone.
#[verifier::external_body]
fn trim_str<'a>(s: &'a str) -> (r: &'a str)
    ensures
        r@ == trimmed(s@),
{
    s.trim()
}

/// Relies on `str::parse`: parses through `T`'s `FromStr` implementation.
/// Which strings parse, and to what, is that implementation's business, so
/// nothing is promised of the outcome; callers handle both.
#[verifier::external_body]
fn parse_str<T: core::str::FromStr>(s: &str) -> (r: Option<T>) {
    match s.parse::<T>() {
        Ok(t) => Some(t),
        Err(_) => None,
    }
}

/// Read one line from `src` and parse its trimmed text as a `T`. A line that
/// is not UTF-8, or does not parse, is consumed and reported as
/// `InvalidData`.
pub fn read_t<S: ByteSource, T: core::str::FromStr>(src: &mut S) -> (r: Result<T, StreamError>)
    requires
        old(src).inv(),
    ensures
        final(src).inv(),
        old(src).taken().is_prefix_of(final(src).taken()),
{
    let mut line = String::new();
    match crate::stream::read_line_from(src, &mut line) {
        Ok(_) => {},
        Err(e) => {
            return Err(e);
        },
    };
    match parse_str::<T>(trim_str(line.as_str())) {
        Some(t) => Ok(t),
        None => Err(StreamError::InvalidData),
    }
}

} // verus!
