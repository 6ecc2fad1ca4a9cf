//! Bounds-checked decoding of numbers, byte runs and terminated strings at a
//! given offset of a buffer.
//!
//! The reads themselves are made by the parsers of the `nom` crate. Each
//! function here finds its place with `take`, reads with one parser, and
//! returns the value together with the offset that follows it. Nothing is
//! read outside the buffer: a span that does not fit is an
//! [`Error::ParseError`].

use crate::error::Error;
use vstd::prelude::*;

verus! {

broadcast use vstd::slice::group_slice_axioms;

/// The bytes of a descriptor.
pub type Bytes<'a> = &'a [u8];

/// What a record decoder returns: the bytes that follow the record, and the
/// record.
pub type Res<'a, T> = Result<(Bytes<'a>, T), Error>;

/// The little-endian number in the 2 bytes of `s` from index `i` on.
pub open spec fn le_u16_at(s: Seq<u8>, i: int) -> int {
    s[i] as int + s[i + 1] as int * 0x100
}

/// The little-endian number in the 4 bytes of `s` from index `i` on.
pub open spec fn le_u32_at(s: Seq<u8>, i: int) -> int {
    s[i] as int + s[i + 1] as int * 0x100 + s[i + 2] as int * 0x1_0000 + s[i + 3] as int
        * 0x100_0000
}

/// The little-endian number in the 8 bytes of `s` from index `i` on.
pub open spec fn le_u64_at(s: Seq<u8>, i: int) -> int {
    le_u32_at(s, i) + le_u32_at(s, i + 4) * 0x1_0000_0000
}

/// The little-endian two's complement number in the 4 bytes of `s` from index
/// `i` on.
pub open spec fn le_i32_at(s: Seq<u8>, i: int) -> int {
    if le_u32_at(s, i) >= 0x8000_0000 {
        le_u32_at(s, i) - 0x1_0000_0000
    } else {
        le_u32_at(s, i)
    }
}

/// Whether the `width` bytes from `offset` on lie inside `s`.
pub open spec fn in_bounds(s: Seq<u8>, offset: int, width: int) -> bool {
    0 <= offset && 0 <= width && offset + width <= s.len()
}

/// Whether the bytes of `expected` stand in `s` from `offset` on.
pub open spec fn stands_at(s: Seq<u8>, offset: int, expected: Seq<u8>) -> bool {
    in_bounds(s, offset, expected.len() as int) && s.subrange(offset, offset + expected.len())
        == expected
}

/// The index of the first zero byte of `s` at or after `from`, or the length
/// of `s` if there is none.
pub open spec fn terminator(s: Seq<u8>, from: int) -> int
    decreases s.len() - from,
{
    if from < 0 || from >= s.len() {
        s.len() as int
    } else if s[from] == 0 {
        from
    } else {
        terminator(s, from + 1)
    }
}

/// `nom::Err`: the wrapper that `nom` puts around the error of a parser. It is
/// carried from the parsers to the functions below, which look no further
/// into it than to see that a parser failed.
#[verifier::external_type_specification]
#[verifier::external_body]
#[verifier::reject_recursive_types(E)]
pub struct ExNomErr<E>(nom::Err<E>);

/// What a `nom` parser returns on bytes: the value with the input that
/// follows it, or a failure without further detail.
pub type Parsed<'a, T> = Result<(&'a [u8], T), nom::Err<()>>;

/// Calls `nom::bytes::complete::take`. It fails if `input` is shorter than
/// `count`; else it returns the first `count` bytes, and before them the bytes
/// that follow.
#[verifier::external_body]
pub(crate) fn take<'a>(count: usize, input: &'a [u8]) -> (r: Parsed<'a, &'a [u8]>)
    ensures
        r is Err <==> count > input@.len(),
        r is Ok ==> r->Ok_0.0@ == input@.skip(count as int),
        r is Ok ==> r->Ok_0.1@ == input@.take(count as int),
{
    nom::bytes::complete::take(count)(input)
}

/// Calls `nom::bytes::complete::tag`. It succeeds if `input` starts with the
/// bytes of `expected`, and then returns those bytes of `input`, and before them
/// the bytes that follow; else it fails.
#[verifier::external_body]
pub(crate) fn tag<'a>(expected: &[u8], input: &'a [u8]) -> (r: Parsed<'a, &'a [u8]>)
    ensures
        r is Ok <==> expected@.is_prefix_of(input@),
        r is Ok ==> r->Ok_0.0@ == input@.skip(expected@.len() as int),
        r is Ok ==> r->Ok_0.1@ == expected@,
{
    nom::bytes::complete::tag(expected)(input)
}

/// Whether a byte is the terminator of a string.
pub fn is_zero(x: u8) -> (r: bool)
    ensures
        r == (x == 0),
{
    x == 0
}

/// Calls `nom::bytes::complete::take_till` with [`is_zero`]. It never fails:
/// it returns the bytes of `input` before its first zero byte (all of them,
/// if there is none), and before them the bytes from that zero byte on.
#[verifier::external_body]
pub(crate) fn take_till_zero<'a>(input: &'a [u8]) -> (r: Parsed<'a, &'a [u8]>)
    ensures
        r is Ok,
        r->Ok_0.0@ == input@.skip(terminator(input@, 0)),
        r->Ok_0.1@ == input@.take(terminator(input@, 0)),
{
    nom::bytes::complete::take_till(is_zero)(input)
}

/// Calls `nom::number::complete::le_u8`. It fails on an empty input; else it
/// returns the first byte, and before it the bytes that follow.
#[verifier::external_body]
pub(crate) fn le_u8<'a>(input: &'a [u8]) -> (r: Parsed<'a, u8>)
    ensures
        r is Err <==> input@.len() < 1,
        r is Ok ==> r->Ok_0.0@ == input@.skip(1),
        r is Ok ==> r->Ok_0.1 == input@[0],
{
    nom::number::complete::le_u8(input)
}

/// Calls `nom::number::complete::le_u16`. It fails on fewer than 2 bytes;
/// else it returns the little-endian number in the first 2 bytes, and before
/// it the bytes that follow.
#[verifier::external_body]
pub(crate) fn le_u16<'a>(input: &'a [u8]) -> (r: Parsed<'a, u16>)
    ensures
        r is Err <==> input@.len() < 2,
        r is Ok ==> r->Ok_0.0@ == input@.skip(2),
        r is Ok ==> r->Ok_0.1 == le_u16_at(input@, 0),
{
    nom::number::complete::le_u16(input)
}

/// Calls `nom::number::complete::le_u32`. It fails on fewer than 4 bytes;
/// else it returns the little-endian number in the first 4 bytes, and before
/// it the bytes that follow.
#[verifier::external_body]
pub(crate) fn le_u32<'a>(input: &'a [u8]) -> (r: Parsed<'a, u32>)
    ensures
        r is Err <==> input@.len() < 4,
        r is Ok ==> r->Ok_0.0@ == input@.skip(4),
        r is Ok ==> r->Ok_0.1 == le_u32_at(input@, 0),
{
    nom::number::complete::le_u32(input)
}

/// Calls `nom::number::complete::le_u64`. It fails on fewer than 8 bytes;
/// else it returns the little-endian number in the first 8 bytes, and before
/// it the bytes that follow.
#[verifier::external_body]
pub(crate) fn le_u64<'a>(input: &'a [u8]) -> (r: Parsed<'a, u64>)
    ensures
        r is Err <==> input@.len() < 8,
        r is Ok ==> r->Ok_0.0@ == input@.skip(8),
        r is Ok ==> r->Ok_0.1 == le_u64_at(input@, 0),
{
    nom::number::complete::le_u64(input)
}

/// Calls `nom::number::complete::le_i32`. It fails on fewer than 4 bytes;
/// else it returns the little-endian two's complement number in the first 4
/// bytes, and before it the bytes that follow.
#[verifier::external_body]
pub(crate) fn le_i32<'a>(input: &'a [u8]) -> (r: Parsed<'a, i32>)
    ensures
        r is Err <==> input@.len() < 4,
        r is Ok ==> r->Ok_0.0@ == input@.skip(4),
        r is Ok ==> r->Ok_0.1 == le_i32_at(input@, 0),
{
    nom::number::complete::le_i32(input)
}

/// The length of a buffer is a number that a `usize` holds.
pub proof fn lemma_len_fits(buf: &[u8])
    ensures
        buf@.len() <= usize::MAX,
{
    assert(vstd::slice::spec_slice_len(buf) == buf@.len());
}

/// The bytes of `buf` from `offset` on.
pub fn bytes_from<'a>(buf: &'a [u8], offset: usize) -> (r: Result<&'a [u8], Error>)
    ensures
        match r {
            Ok(rest) => offset <= buf@.len() <= usize::MAX && rest@ == buf@.skip(offset as int),
            Err(e) => offset > buf@.len() && e == Error::ParseError,
        },
{
    proof {
        lemma_len_fits(buf);
    }
    match take(offset, buf) {
        Ok((rest, _)) => Ok(rest),
        Err(_) => Err(Error::ParseError),
    }
}

/// The `count` bytes at `offset`.
pub fn bytes_at<'a>(buf: &'a [u8], offset: usize, count: usize) -> (r: Result<
    (&'a [u8], usize),
    Error,
>)
    ensures
        match r {
            Ok((run, next)) => in_bounds(buf@, offset as int, count as int) && run@
                == buf@.subrange(offset as int, offset + count) && next == offset + count,
            Err(e) => !in_bounds(buf@, offset as int, count as int) && e == Error::ParseError,
        },
{
    let rest = bytes_from(buf, offset)?;
    match take(count, rest) {
        Ok((_, run)) => {
            Ok((run, offset + count))
        },
        Err(_) => Err(Error::ParseError),
    }
}

/// Checks that the bytes of `expected` stand at `offset`, and steps over them.
pub fn tag_at(buf: &[u8], offset: usize, expected: &[u8]) -> (r: Result<usize, Error>)
    ensures
        match r {
            Ok(next) => stands_at(buf@, offset as int, expected@) && next == offset
                + expected@.len(),
            Err(e) => !stands_at(buf@, offset as int, expected@) && e == Error::ParseError,
        },
{
    let rest = bytes_from(buf, offset)?;
    proof {
        if expected@.is_prefix_of(rest@) {
            assert(buf@.subrange(offset as int, offset + expected@.len()) =~= expected@);
        }
        if stands_at(buf@, offset as int, expected@) {
        }
    }
    match tag(expected, rest) {
        Ok(_) => Ok(offset + expected.len()),
        Err(_) => Err(Error::ParseError),
    }
}

/// The byte at `offset`.
pub fn u8_at(buf: &[u8], offset: usize) -> (r: Result<(u8, usize), Error>)
    ensures
        match r {
            Ok((v, next)) => in_bounds(buf@, offset as int, 1) && v == buf@[offset as int] && next
                == offset + 1,
            Err(e) => !in_bounds(buf@, offset as int, 1) && e == Error::ParseError,
        },
{
    let rest = bytes_from(buf, offset)?;
    match le_u8(rest) {
        Ok((_, v)) => Ok((v, offset + 1)),
        Err(_) => Err(Error::ParseError),
    }
}

/// The little-endian number in the 2 bytes at `offset`.
pub fn u16_at(buf: &[u8], offset: usize) -> (r: Result<(u16, usize), Error>)
    ensures
        match r {
            Ok((v, next)) => in_bounds(buf@, offset as int, 2) && v == le_u16_at(
                buf@,
                offset as int,
            ) && next == offset + 2,
            Err(e) => !in_bounds(buf@, offset as int, 2) && e == Error::ParseError,
        },
{
    let rest = bytes_from(buf, offset)?;
    match le_u16(rest) {
        Ok((_, v)) => Ok((v, offset + 2)),
        Err(_) => Err(Error::ParseError),
    }
}

/// The little-endian number in the 4 bytes at `offset`.
pub fn u32_at(buf: &[u8], offset: usize) -> (r: Result<(u32, usize), Error>)
    ensures
        match r {
            Ok((v, next)) => in_bounds(buf@, offset as int, 4) && v == le_u32_at(
                buf@,
                offset as int,
            ) && next == offset + 4,
            Err(e) => !in_bounds(buf@, offset as int, 4) && e == Error::ParseError,
        },
{
    let rest = bytes_from(buf, offset)?;
    match le_u32(rest) {
        Ok((_, v)) => Ok((v, offset + 4)),
        Err(_) => Err(Error::ParseError),
    }
}

/// The little-endian number in the 8 bytes at `offset`.
pub fn u64_at(buf: &[u8], offset: usize) -> (r: Result<(u64, usize), Error>)
    ensures
        match r {
            Ok((v, next)) => in_bounds(buf@, offset as int, 8) && v == le_u64_at(
                buf@,
                offset as int,
            ) && next == offset + 8,
            Err(e) => !in_bounds(buf@, offset as int, 8) && e == Error::ParseError,
        },
{
    let rest = bytes_from(buf, offset)?;
    match le_u64(rest) {
        Ok((_, v)) => Ok((v, offset + 8)),
        Err(_) => Err(Error::ParseError),
    }
}

/// The little-endian two's complement number in the 4 bytes at `offset`.
pub fn i32_at(buf: &[u8], offset: usize) -> (r: Result<(i32, usize), Error>)
    ensures
        match r {
            Ok((v, next)) => in_bounds(buf@, offset as int, 4) && v == le_i32_at(
                buf@,
                offset as int,
            ) && next == offset + 4,
            Err(e) => !in_bounds(buf@, offset as int, 4) && e == Error::ParseError,
        },
{
    let rest = bytes_from(buf, offset)?;
    match le_i32(rest) {
        Ok((_, v)) => Ok((v, offset + 4)),
        Err(_) => Err(Error::ParseError),
    }
}

/// The bytes from `offset` up to the first zero byte, or up to the end of the
/// buffer if no zero byte follows, and the offset at which they end.
pub fn terminated_at<'a>(buf: &'a [u8], offset: usize) -> (r: Result<(&'a [u8], usize), Error>)
    ensures
        match r {
            Ok((run, next)) => offset <= buf@.len() && run@ == buf@.subrange(
                offset as int,
                terminator(buf@, offset as int),
            ) && next == terminator(buf@, offset as int),
            Err(e) => offset > buf@.len() && e == Error::ParseError,
        },
{
    let rest = bytes_from(buf, offset)?;
    proof {
        lemma_terminator_bounds(buf@, offset as int);
        lemma_terminator_skip(buf@, offset as int, offset as int);
        assert(rest@.take(terminator(rest@, 0)) =~= buf@.subrange(
            offset as int,
            terminator(buf@, offset as int),
        ));
    }
    match take_till_zero(rest) {
        Ok((_, run)) => Ok((run, offset + run.len())),
        Err(_) => Err(Error::ParseError),
    }
}

/// A terminator lies at or after the place where the search began, and inside
/// the buffer or at its end.
pub proof fn lemma_terminator_bounds(s: Seq<u8>, from: int)
    requires
        0 <= from <= s.len(),
    ensures
        from <= terminator(s, from) <= s.len(),
        forall|i: int| from <= i < terminator(s, from) ==> s[i] != 0,
        terminator(s, from) < s.len() ==> s[terminator(s, from)] == 0,
    decreases s.len() - from,
{
    if from < s.len() && s[from] != 0 {
        lemma_terminator_bounds(s, from + 1);
    }
}

/// Searching the tail of a buffer finds the terminator that searching the
/// whole buffer from the same place finds.
pub proof fn lemma_terminator_skip(s: Seq<u8>, start: int, from: int)
    requires
        0 <= start <= from <= s.len(),
    ensures
        terminator(s.skip(start), from - start) == terminator(s, from) - start,
    decreases s.len() - from,
{
    if from < s.len() && s[from] != 0 {
        lemma_terminator_skip(s, start, from + 1);
    }
}

} // verus!
