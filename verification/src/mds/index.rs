//! Index blocks: the lengths of the two parts of a track.

use super::bytes::{in_bounds, le_u32_at, u32_at, Bytes, Res};
use crate::error::Error;
use vstd::prelude::*;

verus! {

/// The number of bytes that an index block takes.
pub const INDEX_BLOCK_SIZE: usize = 8;

/// How many sectors a track holds before and from its index 1.
#[derive(Clone, Copy, Debug, PartialEq, Eq, Structural)]
pub struct IndexBlock {
    /// The sectors before index 1: the pregap of the track.
    pub index0_sectors: u32,
    /// The sectors from index 1 on: the body of the track.
    pub index1_sectors: u32,
}

/// The index block that stands at `offset` of `buf`, if it lies inside `buf`.
pub open spec fn spec_index_block(buf: Seq<u8>, offset: int) -> Option<IndexBlock> {
    if in_bounds(buf, offset, INDEX_BLOCK_SIZE as int) {
        Some(
            IndexBlock {
                index0_sectors: le_u32_at(buf, offset) as u32,
                index1_sectors: le_u32_at(buf, offset + 4) as u32,
            },
        )
    } else {
        None
    }
}

/// Decodes the index block at `offset` of `buf`.
pub fn index_block_at(buf: Bytes, offset: usize) -> (r: Result<IndexBlock, Error>)
    ensures
        match r {
            Ok(block) => spec_index_block(buf@, offset as int) == Some(block),
            Err(e) => spec_index_block(buf@, offset as int) is None && e == Error::ParseError,
        },
{
    let (index0_sectors, next) = u32_at(buf, offset)?;
    let (index1_sectors, _) = u32_at(buf, next)?;
    Ok(IndexBlock { index0_sectors, index1_sectors })
}

/// Decodes the index block at the start of `input`, and returns it with the
/// bytes that follow it.
pub fn index_block(input: Bytes) -> (r: Res<IndexBlock>)
    ensures
        match r {
            Ok((rest, block)) => spec_index_block(input@, 0) == Some(block) && rest@
                == input@.skip(INDEX_BLOCK_SIZE as int),
            Err(e) => spec_index_block(input@, 0) is None && e == Error::ParseError,
        },
{
    let block = index_block_at(input, 0)?;
    let rest = super::bytes::bytes_from(input, INDEX_BLOCK_SIZE)?;
    Ok((rest, block))
}

} // verus!
