//! The header of a descriptor.

use super::bytes::{
    bytes_at, bytes_from, in_bounds, le_u16_at, le_u32_at, stands_at, tag_at, u16_at, u32_at,
    u8_at, Bytes, Res,
};
use crate::error::Error;
use crate::text::{decimal, push_decimal};
use vstd::prelude::*;
use vstd::std_specs::convert::TryFromSpecImpl;

verus! {

/// The bytes that every descriptor starts with: `MEDIA DESCRIPTOR` in ASCII.
pub const SIGNATURE: [u8; 16] = [
    0x4D,
    0x45,
    0x44,
    0x49,
    0x41,
    0x20,
    0x44,
    0x45,
    0x53,
    0x43,
    0x52,
    0x49,
    0x50,
    0x54,
    0x4F,
    0x52,
];

/// The number of bytes of a descriptor that the header takes: no shorter
/// buffer can be decoded.
pub const HEADER_SIZE: usize = 0x54;

/// The version of the format that a descriptor is written in.
#[derive(Clone, Copy, Debug, PartialEq, Eq, Structural)]
pub struct Version {
    pub major: u8,
    pub minor: u8,
}

impl Version {
    /// The text of [`Version::to_string`]: both numbers in decimal, with a
    /// dot between them.
    pub open spec fn spec_text(self) -> Seq<char> {
        decimal(self.major as nat) + "."@ + decimal(self.minor as nat)
    }

    /// The version as it is commonly written, such as `1.5`.
    pub fn to_string(&self) -> (r: String)
        ensures
            r@ == self.spec_text(),
    {
        let mut s = String::new();
        push_decimal(&mut s, self.major as u64);
        s.append(".");
        push_decimal(&mut s, self.minor as u64);
        s
    }
}

/// The kind of disc that an image was taken from.
#[derive(Clone, Copy, Debug, PartialEq, Eq, Structural)]
pub enum MediaType {
    CdRom,
    CdR,
    CdRw,
    DvdRom,
    DvdR,
    /// A code that the format does not define, kept as it was found.
    Other(u16),
}

/// A media type code that the format does not define.
#[derive(Clone, Copy, Debug, PartialEq, Eq, Structural)]
pub struct UnknownMediaType(pub u16);

impl MediaType {
    /// The kind of disc that a media type code stands for, if the format
    /// defines that code.
    pub open spec fn spec_from_code(code: u16) -> Option<MediaType> {
        if code == 0x00 {
            Some(MediaType::CdRom)
        } else if code == 0x01 {
            Some(MediaType::CdR)
        } else if code == 0x02 {
            Some(MediaType::CdRw)
        } else if code == 0x10 {
            Some(MediaType::DvdRom)
        } else if code == 0x12 {
            Some(MediaType::DvdR)
        } else {
            None
        }
    }

    /// The kind of disc that a media type code stands for. A code that the
    /// format does not define is kept in [`MediaType::Other`].
    pub fn from_raw(code: u16) -> (r: MediaType)
        ensures
            r == match MediaType::spec_from_code(code) {
                Some(media_type) => media_type,
                None => MediaType::Other(code),
            },
    {
        match MediaType::try_from(code) {
            Ok(media_type) => media_type,
            Err(_) => MediaType::Other(code),
        }
    }

    /// The text of [`MediaType::to_string`].
    pub open spec fn spec_text(self) -> Seq<char> {
        match self {
            MediaType::CdRom => "CD-ROM"@,
            MediaType::CdR => "CD-R"@,
            MediaType::CdRw => "CD-RW"@,
            MediaType::DvdRom => "DVD"@,
            MediaType::DvdR => "DVD-R"@,
            MediaType::Other(code) => "Other("@ + decimal(code as nat) + ")"@,
        }
    }

    /// The name of the kind of disc, as it is printed for the user.
    pub fn to_string(&self) -> (r: String)
        ensures
            r@ == self.spec_text(),
    {
        match self {
            MediaType::CdRom => String::from_str("CD-ROM"),
            MediaType::CdR => String::from_str("CD-R"),
            MediaType::CdRw => String::from_str("CD-RW"),
            MediaType::DvdRom => String::from_str("DVD"),
            MediaType::DvdR => String::from_str("DVD-R"),
            MediaType::Other(code) => {
                let mut s = String::from_str("Other(");
                push_decimal(&mut s, *code as u64);
                s.append(")");
                s
            },
        }
    }
}

impl TryFrom<u16> for MediaType {
    type Error = UnknownMediaType;

    /// The kind of disc that a media type code stands for, or the code itself
    /// if the format does not define it.
    fn try_from(code: u16) -> (r: Result<MediaType, UnknownMediaType>) {
        match code {
            0x00 => Ok(MediaType::CdRom),
            0x01 => Ok(MediaType::CdR),
            0x02 => Ok(MediaType::CdRw),
            0x10 => Ok(MediaType::DvdRom),
            0x12 => Ok(MediaType::DvdR),
            x => Err(UnknownMediaType(x)),
        }
    }
}

impl TryFromSpecImpl<u16> for MediaType {
    open spec fn obeys_try_from_spec() -> bool {
        true
    }

    open spec fn try_from_spec(code: u16) -> Result<MediaType, UnknownMediaType> {
        match MediaType::spec_from_code(code) {
            Some(media_type) => Ok(media_type),
            None => Err(UnknownMediaType(code)),
        }
    }
}

/// What the header of a descriptor says of the image.
#[derive(Clone, Copy, Debug, PartialEq, Eq, Structural)]
pub struct Header {
    pub version: Version,
    pub media_type: MediaType,
    /// The number of records of the session table.
    pub num_sessions: u16,
    /// The offset in the descriptor of the session table.
    pub session_offset: u32,
}

impl Header {
    /// The number of records of the session table.
    pub fn num_sessions(&self) -> (r: usize)
        ensures
            r == self.num_sessions,
    {
        self.num_sessions as usize
    }

    /// The offset in the descriptor of the session table.
    pub fn session_offset(&self) -> (r: usize)
        ensures
            r == self.session_offset,
    {
        self.session_offset as usize
    }
}

/// Whether `buf` starts with the signature of a descriptor.
pub open spec fn has_signature(buf: Seq<u8>) -> bool {
    stands_at(buf, 0, SIGNATURE@)
}

/// The header that `buf` starts with.
///
/// There is one if `buf` holds the `0x54` bytes of a header, starts with the
/// signature, and gives a media type code that the format defines.
pub open spec fn spec_header(buf: Seq<u8>) -> Option<Header> {
    if !in_bounds(buf, 0, HEADER_SIZE as int) {
        None
    } else if !has_signature(buf) {
        None
    } else if MediaType::spec_from_code(le_u16_at(buf, 18) as u16) is None {
        None
    } else {
        Some(
            Header {
                version: Version { major: buf[16], minor: buf[17] },
                media_type: MediaType::spec_from_code(le_u16_at(buf, 18) as u16)->Some_0,
                num_sessions: le_u16_at(buf, 20) as u16,
                session_offset: le_u32_at(buf, 80) as u32,
            },
        )
    }
}

/// Decodes the header at the start of `input`, and returns it with the bytes
/// that follow it.
pub fn header(input: Bytes) -> (r: Res<Header>)
    ensures
        match r {
            Ok((rest, header)) => spec_header(input@) == Some(header) && rest@ == input@.skip(
                HEADER_SIZE as int,
            ),
            Err(e) => spec_header(input@) is None && e == Error::ParseError,
        },
{
    let at = tag_at(input, 0, SIGNATURE.as_slice())?;
    let (major, at) = u8_at(input, at)?;
    let (minor, at) = u8_at(input, at)?;
    let (media_code, at) = u16_at(input, at)?;
    let media_type = match MediaType::try_from(media_code) {
        Ok(media_type) => media_type,
        Err(_) => {
            return Err(Error::ParseError);
        },
    };
    let (num_sessions, at) = u16_at(input, at)?;
    let (_, at) = bytes_at(input, at, 0x3A)?;
    let (session_offset, at) = u32_at(input, at)?;
    let rest = bytes_from(input, at)?;

    let version = Version { major, minor };
    Ok((rest, Header { version, media_type, num_sessions, session_offset }))
}

} // verus!
