//! Wire primitives: big-endian integers and zero-terminated strings.
//!
//! Integers are read and written by the `bytes` crate; the contracts of the
//! small wrappers around it are stated over the spec functions below.

use bytes::{Buf, BufMut};
use vstd::prelude::*;
use vstd::string::StringSliceAdditionalSpecFns;
use vstd::utf8::valid_utf8;

verus! {

/// The unsigned number held by the first two bytes of `s`, high byte first.
pub open spec fn be_u16(s: Seq<u8>) -> int
    recommends
        s.len() >= 2,
{
    s[0] as int * 0x100 + s[1] as int
}

/// The two's-complement number held by the first two bytes of `s`, high byte first.
pub open spec fn be_i16(s: Seq<u8>) -> int
    recommends
        s.len() >= 2,
{
    if be_u16(s) >= 0x8000 {
        be_u16(s) - 0x1_0000
    } else {
        be_u16(s)
    }
}

/// The unsigned number held by the first four bytes of `s`, high byte first.
pub open spec fn be_u32(s: Seq<u8>) -> int
    recommends
        s.len() >= 4,
{
    s[0] as int * 0x100_0000 + s[1] as int * 0x1_0000 + s[2] as int * 0x100 + s[3] as int
}

/// The two's-complement number held by the first four bytes of `s`, high
/// byte first.
pub open spec fn be_i32(s: Seq<u8>) -> int
    recommends
        s.len() >= 4,
{
    if be_u32(s) >= 0x8000_0000 {
        be_u32(s) - 0x1_0000_0000
    } else {
        be_u32(s)
    }
}

/// The two bytes that hold `n`, high byte first.
pub open spec fn u16_be(n: u16) -> Seq<u8> {
    seq![(n / 0x100) as u8, (n % 0x100) as u8]
}

/// The two bytes that hold `n` in two's complement, high byte first.
pub open spec fn i16_be(n: i16) -> Seq<u8> {
    if n < 0 {
        u16_be((n + 0x1_0000) as u16)
    } else {
        u16_be(n as u16)
    }
}

/// The four bytes that hold `n`, high byte first.
pub open spec fn u32_be(n: u32) -> Seq<u8> {
    seq![
        (n / 0x100_0000) as u8,
        (n / 0x1_0000 % 0x100) as u8,
        (n / 0x100 % 0x100) as u8,
        (n % 0x100) as u8,
    ]
}

/// Reading back what `u16_be` wrote gives the number again.
pub proof fn lemma_u16_round_trip(n: u16)
    ensures
        u16_be(n).len() == 2,
        be_u16(u16_be(n)) == n,
{
}

/// Reading back what `i16_be` wrote gives the number again.
pub proof fn lemma_i16_round_trip(n: i16)
    ensures
        i16_be(n).len() == 2,
        be_i16(i16_be(n)) == n,
{
}

/// Reading back what `u32_be` wrote gives the number again.
pub proof fn lemma_u32_round_trip(n: u32)
    ensures
        u32_be(n).len() == 4,
        be_u32(u32_be(n)) == n,
{
}

/// `pos` is the place of the first zero byte of `s`.
pub open spec fn is_first_null(s: Seq<u8>, pos: int) -> bool {
    &&& 0 <= pos < s.len()
    &&& s[pos] == 0
    &&& forall|j: int| 0 <= j < pos ==> s[j] != 0
}

/// `s` holds a zero byte.
pub open spec fn has_null(s: Seq<u8>) -> bool {
    exists|pos: int| 0 <= pos < s.len() && s[pos] == 0
}

/// The place of the first zero byte of `s`, where it has one.
pub open spec fn first_null(s: Seq<u8>) -> int
    recommends
        has_null(s),
{
    choose|pos: int| is_first_null(s, pos)
}

/// A sequence has at most one first zero byte, and `first_null` names it.
pub proof fn lemma_first_null_unique(s: Seq<u8>, pos: int)
    requires
        is_first_null(s, pos),
    ensures
        has_null(s),
        first_null(s) == pos,
{
}

/// A sequence with a zero byte has a first one.
pub proof fn lemma_first_null_exists(s: Seq<u8>)
    requires
        has_null(s),
    ensures
        is_first_null(s, first_null(s)),
{
    let w = choose|pos: int| 0 <= pos < s.len() && s[pos] == 0;
    lemma_first_null_below(s, w);
}

proof fn lemma_first_null_below(s: Seq<u8>, w: int)
    requires
        0 <= w < s.len(),
        s[w] == 0,
    ensures
        exists|pos: int| is_first_null(s, pos),
    decreases w,
{
    if exists|j: int| 0 <= j < w && s[j] == 0 {
        let j = choose|j: int| 0 <= j < w && s[j] == 0;
        lemma_first_null_below(s, j);
    } else {
        assert(is_first_null(s, w));
    }
}

/// Scans `buf` for a zero byte and reports the place of the first one.
pub fn find_str_null(buf: &[u8]) -> (r: Option<usize>)
    ensures
        r is Some <==> has_null(buf@),
        r matches Some(pos) ==> pos < buf.len() && is_first_null(buf@, pos as int) && pos as int
            == first_null(buf@),
{
    let mut i: usize = 0;
    while i < buf.len()
        invariant
            i <= buf@.len(),
            forall|j: int| 0 <= j < i ==> buf@[j] != 0,
        decreases buf@.len() - i,
    {
        if buf[i] == 0 {
            proof {
                lemma_first_null_unique(buf@, i as int);
            }
            return Some(i);
        }
        i = i + 1;
    }
    None
}

/// `bytes::Buf::get_u8` on a byte slice: hands out the first byte and moves
/// the slice past it. The call panics on an empty slice, which `requires`
/// leaves out.
#[verifier::external_body]
pub(crate) fn get_u8(buf: &mut &[u8]) -> (r: u8)
    requires
        old(buf)@.len() >= 1,
    ensures
        r == old(buf)@[0],
        final(buf)@ == old(buf)@.skip(1),
{
    buf.get_u8()
}

/// `bytes::Buf::get_u16` on a byte slice: reads the first two bytes as a
/// big-endian number and moves the slice past them. The call panics on fewer
/// than two bytes, which `requires` leaves out.
#[verifier::external_body]
pub(crate) fn get_u16(buf: &mut &[u8]) -> (r: u16)
    requires
        old(buf)@.len() >= 2,
    ensures
        r == be_u16(old(buf)@),
        final(buf)@ == old(buf)@.skip(2),
{
    buf.get_u16()
}

/// `bytes::Buf::get_i16` on a byte slice: reads the first two bytes as a
/// big-endian two's-complement number and moves the slice past them. The call
/// panics on fewer than two bytes, which `requires` leaves out.
#[verifier::external_body]
pub(crate) fn get_i16(buf: &mut &[u8]) -> (r: i16)
    requires
        old(buf)@.len() >= 2,
    ensures
        r == be_i16(old(buf)@),
        final(buf)@ == old(buf)@.skip(2),
{
    buf.get_i16()
}

/// `bytes::Buf::get_u32` on a byte slice: reads the first four bytes as a
/// big-endian number and moves the slice past them. The call panics on fewer
/// than four bytes, which `requires` leaves out.
#[verifier::external_body]
pub(crate) fn get_u32(buf: &mut &[u8]) -> (r: u32)
    requires
        old(buf)@.len() >= 4,
    ensures
        r == be_u32(old(buf)@),
        final(buf)@ == old(buf)@.skip(4),
{
    buf.get_u32()
}

/// `bytes::Buf::get_i32` on a byte slice: reads the first four bytes as a
/// big-endian two's-complement number and moves the slice past them. The call
/// panics on fewer than four bytes, which `requires` leaves out.
#[verifier::external_body]
pub(crate) fn get_i32(buf: &mut &[u8]) -> (r: i32)
    requires
        old(buf)@.len() >= 4,
    ensures
        r == be_i32(old(buf)@),
        final(buf)@ == old(buf)@.skip(4),
{
    buf.get_i32()
}

/// `bytes::Buf::advance` on a byte slice: drops the first `cnt` bytes. The
/// call panics where `cnt` exceeds the length, which `requires` leaves out.
#[verifier::external_body]
pub(crate) fn advance(buf: &mut &[u8], cnt: usize)
    requires
        cnt <= old(buf)@.len(),
    ensures
        final(buf)@ == old(buf)@.skip(cnt as int),
{
    buf.advance(cnt)
}

/// `bytes::BufMut::put_u16` on a vector: appends the two bytes of `n`, high
/// byte first. A vector cannot grow beyond `isize::MAX` bytes.
#[verifier::external_body]
pub(crate) fn put_u16(buf: &mut Vec<u8>, n: u16)
    requires
        old(buf)@.len() + 2 <= isize::MAX,
    ensures
        final(buf)@ == old(buf)@ + u16_be(n),
{
    buf.put_u16(n)
}

/// `bytes::BufMut::put_i16` on a vector: appends the two bytes of `n` in
/// two's complement, high byte first. A vector cannot grow beyond
/// `isize::MAX` bytes.
#[verifier::external_body]
pub(crate) fn put_i16(buf: &mut Vec<u8>, n: i16)
    requires
        old(buf)@.len() + 2 <= isize::MAX,
    ensures
        final(buf)@ == old(buf)@ + i16_be(n),
{
    buf.put_i16(n)
}

/// `bytes::BufMut::put_u32` on a vector: appends the four bytes of `n`, high
/// byte first. A vector cannot grow beyond `isize::MAX` bytes.
#[verifier::external_body]
pub(crate) fn put_u32(buf: &mut Vec<u8>, n: u32)
    requires
        old(buf)@.len() + 4 <= isize::MAX,
    ensures
        final(buf)@ == old(buf)@ + u32_be(n),
{
    buf.put_u32(n)
}

/// `bytes::BufMut::put` on a vector, with a byte slice as the source: appends
/// all of `src`. A vector cannot grow beyond `isize::MAX` bytes.
#[verifier::external_body]
pub(crate) fn put(buf: &mut Vec<u8>, src: &[u8])
    requires
        old(buf)@.len() + src@.len() <= isize::MAX,
    ensures
        final(buf)@ == old(buf)@ + src@,
{
    buf.put(src)
}

/// `std::str::from_utf8`: the bytes as a string slice where they are valid
/// UTF-8, and nothing where they are not.
#[verifier::external_body]
pub(crate) fn str_from_utf8<'a>(data: &'a [u8]) -> (r: Option<&'a str>)
    ensures
        r is Some <==> valid_utf8(data@),
        r matches Some(s) ==> s.spec_bytes() == data@,
{
    std::str::from_utf8(data).ok()
}

/// Reads one byte from the front of `buf` and moves `buf` past it; on an
/// empty buffer reads nothing.
pub fn read_u8(buf: &mut &[u8]) -> (r: Option<u8>)
    ensures
        r is Some <==> old(buf)@.len() >= 1,
        r matches Some(v) ==> v == old(buf)@[0] && final(buf)@ == old(buf)@.skip(1),
        r is None ==> final(buf)@ == old(buf)@,
{
    if buf.len() < 1 {
        None
    } else {
        Some(get_u8(buf))
    }
}

/// Reads a big-endian `u16` from the front of `buf` and moves `buf` past it;
/// on fewer than two bytes reads nothing.
pub fn read_u16(buf: &mut &[u8]) -> (r: Option<u16>)
    ensures
        r is Some <==> old(buf)@.len() >= 2,
        r matches Some(v) ==> v == be_u16(old(buf)@) && final(buf)@ == old(buf)@.skip(2),
        r is None ==> final(buf)@ == old(buf)@,
{
    if buf.len() < 2 {
        None
    } else {
        Some(get_u16(buf))
    }
}

/// Reads a big-endian `i16` from the front of `buf` and moves `buf` past it;
/// on fewer than two bytes reads nothing.
pub fn read_i16(buf: &mut &[u8]) -> (r: Option<i16>)
    ensures
        r is Some <==> old(buf)@.len() >= 2,
        r matches Some(v) ==> v == be_i16(old(buf)@) && final(buf)@ == old(buf)@.skip(2),
        r is None ==> final(buf)@ == old(buf)@,
{
    if buf.len() < 2 {
        None
    } else {
        Some(get_i16(buf))
    }
}

/// Reads a big-endian `u32` from the front of `buf` and moves `buf` past it;
/// on fewer than four bytes reads nothing.
pub fn read_u32(buf: &mut &[u8]) -> (r: Option<u32>)
    ensures
        r is Some <==> old(buf)@.len() >= 4,
        r matches Some(v) ==> v == be_u32(old(buf)@) && final(buf)@ == old(buf)@.skip(4),
        r is None ==> final(buf)@ == old(buf)@,
{
    if buf.len() < 4 {
        None
    } else {
        Some(get_u32(buf))
    }
}

/// Reads a big-endian `i32` from the front of `buf` and moves `buf` past it;
/// on fewer than four bytes reads nothing.
pub fn read_i32(buf: &mut &[u8]) -> (r: Option<i32>)
    ensures
        r is Some <==> old(buf)@.len() >= 4,
        r matches Some(v) ==> v == be_i32(old(buf)@) && final(buf)@ == old(buf)@.skip(4),
        r is None ==> final(buf)@ == old(buf)@,
{
    if buf.len() < 4 {
        None
    } else {
        Some(get_i32(buf))
    }
}

} // verus!
