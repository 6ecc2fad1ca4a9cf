//! Filename blocks and the names they point to.

use super::bytes::{
    bytes_from, in_bounds, le_u32_at, terminated_at, terminator, u32_at, u8_at, Bytes, Res,
};
use crate::error::Error;
use vstd::prelude::*;
use vstd::std_specs::convert::TryFromSpecImpl;

verus! {

/// The number of bytes of a filename block that are decoded.
pub const FILENAME_BLOCK_SIZE: usize = 5;

/// How the characters of a file name are stored.
#[derive(Clone, Copy, Debug, PartialEq, Eq, Structural)]
pub enum NameFormat {
    /// One byte per character, ended by a zero byte.
    EightBit,
    /// Two bytes per character.
    SixteenBit,
}

/// A name format flag that the format does not define.
#[derive(Clone, Copy, Debug, PartialEq, Eq, Structural)]
pub struct NameFormatError;

impl NameFormat {
    /// The format that a flag of a filename block stands for, if the format
    /// defines that flag.
    pub open spec fn spec_from_code(code: u8) -> Option<NameFormat> {
        if code == 0 {
            Some(NameFormat::EightBit)
        } else if code == 1 {
            Some(NameFormat::SixteenBit)
        } else {
            None
        }
    }
}

impl TryFrom<u8> for NameFormat {
    type Error = NameFormatError;

    /// The format that a flag stands for, if the format defines that flag.
    fn try_from(code: u8) -> (r: Result<NameFormat, NameFormatError>) {
        match code {
            0 => Ok(NameFormat::EightBit),
            1 => Ok(NameFormat::SixteenBit),
            _ => Err(NameFormatError),
        }
    }
}

impl TryFromSpecImpl<u8> for NameFormat {
    open spec fn obeys_try_from_spec() -> bool {
        true
    }

    open spec fn try_from_spec(code: u8) -> Result<NameFormat, NameFormatError> {
        match NameFormat::spec_from_code(code) {
            Some(format) => Ok(format),
            None => Err(NameFormatError),
        }
    }
}

/// Where the name of a track's payload file stands, and how it is stored.
#[derive(Clone, Copy, Debug, PartialEq, Eq, Structural)]
pub struct FilenameBlock {
    /// The offset in the descriptor of the first byte of the name.
    pub filename_offset: u32,
    pub filename_format: NameFormat,
}

/// The filename block that stands at `offset` of `buf`, if it lies inside
/// `buf` and its format flag is defined.
pub open spec fn spec_filename_block(buf: Seq<u8>, offset: int) -> Option<FilenameBlock> {
    if in_bounds(buf, offset, FILENAME_BLOCK_SIZE as int) {
        match NameFormat::spec_from_code(buf[offset + 4]) {
            Some(format) => Some(
                FilenameBlock {
                    filename_offset: le_u32_at(buf, offset) as u32,
                    filename_format: format,
                },
            ),
            None => None,
        }
    } else {
        None
    }
}

/// The text that `String::from_utf8_lossy` makes of a run of bytes: the text
/// that the bytes encode in UTF-8, with a replacement character for each part
/// that encodes none.
pub uninterp spec fn lossy_utf8(bytes: Seq<u8>) -> Seq<char>;

/// Calls `String::from_utf8_lossy` of std and copies what it returns into a
/// `String`.
#[verifier::external_body]
pub(crate) fn string_from_utf8_lossy(bytes: &[u8]) -> (r: String)
    ensures
        r@ == lossy_utf8(bytes@),
{
    String::from_utf8_lossy(bytes).into_owned()
}

/// The name that the filename block at `block_offset` of `buf` points to.
///
/// The name is there if the block can be decoded, stores its name with one
/// byte per character, and points into `buf` or at its end. It is made of the
/// bytes from that place up to the first zero byte, or up to the end of `buf`
/// if none follows. A name of two bytes per character is not decoded.
pub open spec fn spec_filename(buf: Seq<u8>, block_offset: int) -> Option<Seq<char>> {
    match spec_filename_block(buf, block_offset) {
        Some(block) => if block.filename_format == NameFormat::EightBit && block.filename_offset
            <= buf.len() {
            Some(
                lossy_utf8(
                    buf.subrange(
                        block.filename_offset as int,
                        terminator(buf, block.filename_offset as int),
                    ),
                ),
            )
        } else {
            None
        },
        None => None,
    }
}

/// Decodes the filename block at `offset` of `buf`.
pub fn filename_block_at(buf: Bytes, offset: usize) -> (r: Result<FilenameBlock, Error>)
    ensures
        match r {
            Ok(block) => spec_filename_block(buf@, offset as int) == Some(block),
            Err(e) => spec_filename_block(buf@, offset as int) is None && e == Error::ParseError,
        },
{
    let (filename_offset, next) = u32_at(buf, offset)?;
    let (flag, _) = u8_at(buf, next)?;
    match NameFormat::try_from(flag) {
        Ok(filename_format) => Ok(FilenameBlock { filename_offset, filename_format }),
        Err(_) => Err(Error::ParseError),
    }
}

/// Decodes the filename block at the start of `input`, and returns it with
/// the bytes that follow it.
pub fn filename_block(input: Bytes) -> (r: Res<FilenameBlock>)
    ensures
        match r {
            Ok((rest, block)) => spec_filename_block(input@, 0) == Some(block) && rest@
                == input@.skip(FILENAME_BLOCK_SIZE as int),
            Err(e) => spec_filename_block(input@, 0) is None && e == Error::ParseError,
        },
{
    let block = filename_block_at(input, 0)?;
    let rest = bytes_from(input, FILENAME_BLOCK_SIZE)?;
    Ok((rest, block))
}

/// Decodes the name that the filename block at `block_offset` of `buf`
/// points to.
pub fn filename_at(buf: Bytes, block_offset: usize) -> (r: Result<String, Error>)
    ensures
        match r {
            Ok(name) => spec_filename(buf@, block_offset as int) == Some(name@),
            Err(e) => spec_filename(buf@, block_offset as int) is None && e == Error::ParseError,
        },
{
    let block = filename_block_at(buf, block_offset)?;
    match block.filename_format {
        NameFormat::EightBit => {
            let (run, _) = terminated_at(buf, block.filename_offset as usize)?;
            Ok(string_from_utf8_lossy(run))
        },
        NameFormat::SixteenBit => Err(Error::ParseError),
    }
}

} // verus!
