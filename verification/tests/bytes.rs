use mds_image::error::Error;
use mds_image::mds::bytes::{
    bytes_at, bytes_from, i32_at, is_zero, tag_at, terminated_at, u16_at, u32_at, u64_at, u8_at,
};

const SAMPLE: [u8; 12] = [0x01, 0x02, 0x03, 0x04, 0x05, 0x06, 0x07, 0x08, 0x09, 0x0A, 0x0B, 0x0C];

#[test]
fn byte_is_read_at_its_offset() {
    assert_eq!(u8_at(&SAMPLE, 0), Ok((0x01, 1)));
    assert_eq!(u8_at(&SAMPLE, 11), Ok((0x0C, 12)));
}

#[test]
fn byte_past_the_end_is_refused() {
    assert_eq!(u8_at(&SAMPLE, 12), Err(Error::ParseError));
    assert_eq!(u8_at(&SAMPLE, usize::MAX), Err(Error::ParseError));
    assert_eq!(u8_at(&[], 0), Err(Error::ParseError));
}

#[test]
fn u16_is_little_endian() {
    assert_eq!(u16_at(&SAMPLE, 0), Ok((0x0201, 2)));
    assert_eq!(u16_at(&SAMPLE, 3), Ok((0x0504, 5)));
    assert_eq!(u16_at(&SAMPLE, 10), Ok((0x0C0B, 12)));
    assert_eq!(u16_at(&SAMPLE, 11), Err(Error::ParseError));
}

#[test]
fn u32_is_little_endian() {
    assert_eq!(u32_at(&SAMPLE, 0), Ok((0x04030201, 4)));
    assert_eq!(u32_at(&SAMPLE, 8), Ok((0x0C0B0A09, 12)));
    assert_eq!(u32_at(&SAMPLE, 9), Err(Error::ParseError));
    assert_eq!(u32_at(&[0xFF, 0xFF, 0xFF, 0xFF], 0), Ok((u32::MAX, 4)));
}

#[test]
fn u64_is_little_endian() {
    assert_eq!(u64_at(&SAMPLE, 0), Ok((0x0807060504030201, 8)));
    assert_eq!(u64_at(&SAMPLE, 4), Ok((0x0C0B0A0908070605, 12)));
    assert_eq!(u64_at(&SAMPLE, 5), Err(Error::ParseError));
    assert_eq!(u64_at(&[0xFF; 8], 0), Ok((u64::MAX, 8)));
}

#[test]
fn i32_is_twos_complement() {
    assert_eq!(i32_at(&[0x6A, 0xFF, 0xFF, 0xFF], 0), Ok((-150, 4)));
    assert_eq!(i32_at(&[0xFF, 0xFF, 0xFF, 0x7F], 0), Ok((i32::MAX, 4)));
    assert_eq!(i32_at(&[0x00, 0x00, 0x00, 0x80], 0), Ok((i32::MIN, 4)));
    assert_eq!(i32_at(&SAMPLE, 0), Ok((0x04030201, 4)));
    assert_eq!(i32_at(&SAMPLE, 9), Err(Error::ParseError));
}

#[test]
fn bytes_from_an_offset_are_the_tail() {
    assert_eq!(bytes_from(&SAMPLE, 0), Ok(&SAMPLE[..]));
    assert_eq!(bytes_from(&SAMPLE, 10), Ok(&SAMPLE[10..]));
    assert_eq!(bytes_from(&SAMPLE, 12), Ok(&SAMPLE[12..]));
    assert_eq!(bytes_from(&SAMPLE, 13), Err(Error::ParseError));
}

#[test]
fn run_of_bytes_stays_inside_the_buffer() {
    assert_eq!(bytes_at(&SAMPLE, 2, 4), Ok((&SAMPLE[2..6], 6)));
    assert_eq!(bytes_at(&SAMPLE, 12, 0), Ok((&SAMPLE[12..], 12)));
    assert_eq!(bytes_at(&SAMPLE, 0, 12), Ok((&SAMPLE[..], 12)));
    assert_eq!(bytes_at(&SAMPLE, 0, 13), Err(Error::ParseError));
    assert_eq!(bytes_at(&SAMPLE, 13, 0), Err(Error::ParseError));
    assert_eq!(bytes_at(&SAMPLE, 1, usize::MAX), Err(Error::ParseError));
}

#[test]
fn tag_must_match_in_full() {
    assert_eq!(tag_at(&SAMPLE, 2, &[0x03, 0x04, 0x05]), Ok(5));
    assert_eq!(tag_at(&SAMPLE, 2, &[]), Ok(2));
    assert_eq!(tag_at(&SAMPLE, 2, &[0x03, 0x04, 0x06]), Err(Error::ParseError));
    assert_eq!(tag_at(&SAMPLE, 10, &[0x0B, 0x0C, 0x0D]), Err(Error::ParseError));
    assert_eq!(tag_at(&SAMPLE, 13, &[]), Err(Error::ParseError));
}

#[test]
fn terminated_run_stops_before_the_zero() {
    let buf = [b'a', b'b', 0, b'c', b'd', b'e', 0, 0, b'f'];
    assert_eq!(terminated_at(&buf, 0), Ok((&b"ab"[..], 2)));
    assert_eq!(terminated_at(&buf, 1), Ok((&b"b"[..], 2)));
    assert_eq!(terminated_at(&buf, 2), Ok((&b""[..], 2)));
    assert_eq!(terminated_at(&buf, 3), Ok((&b"cde"[..], 6)));
    assert_eq!(terminated_at(&buf, 7), Ok((&b""[..], 7)));
}

#[test]
fn unterminated_run_goes_to_the_end() {
    let buf = [b'a', b'b', 0, b'c', b'd'];
    assert_eq!(terminated_at(&buf, 3), Ok((&b"cd"[..], 5)));
    assert_eq!(terminated_at(&buf, 5), Ok((&b""[..], 5)));
    assert_eq!(terminated_at(&buf, 6), Err(Error::ParseError));
}

#[test]
fn only_zero_is_the_terminator() {
    assert!(is_zero(0));
    assert!(!is_zero(1));
    assert!(!is_zero(0xFF));
}
