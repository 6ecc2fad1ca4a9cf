//! Track records.

use super::bytes::{
    bytes_at, bytes_from, i32_at, in_bounds, le_i32_at, le_u16_at, le_u32_at, le_u64_at, u16_at,
    u32_at, u64_at, u8_at, Bytes, Res,
};
use super::filename::{filename_at, spec_filename};
use super::index::{index_block_at, spec_index_block, IndexBlock};
use crate::error::Error;
use crate::text::{decimal, push_decimal};
use crate::util::{path_with_extension, path_with_file_name, set_extension, set_file_name};
use vstd::prelude::*;
use vstd::std_specs::convert::TryFromSpecImpl;

verus! {

/// How the user data of a track's sectors is laid out.
#[derive(Clone, Copy, Debug, PartialEq, Eq, Structural)]
pub enum TrackMode {
    /// The mode byte is zero: the entry describes no sectors of its own.
    NoMode,
    Audio,
    Mode1,
    Mode2,
    Mode2Form1,
    Mode2Form2,
    /// A mode byte that the format does not define, kept as it was found.
    Unknown(u8),
}

/// A mode byte that the format does not define.
#[derive(Clone, Copy, Debug, PartialEq, Eq, Structural)]
pub struct UnknownTrackMode(pub u8);

impl TrackMode {
    /// The mode that a mode byte of a track record stands for, if the format
    /// defines that byte.
    pub open spec fn spec_from_code(code: u8) -> Option<TrackMode> {
        if code == 0x00 {
            Some(TrackMode::NoMode)
        } else if code == 0xA9 {
            Some(TrackMode::Audio)
        } else if code == 0xAA {
            Some(TrackMode::Mode1)
        } else if code == 0xAB || code == 0xEC {
            Some(TrackMode::Mode2)
        } else if code == 0xAC {
            Some(TrackMode::Mode2Form1)
        } else if code == 0xAD {
            Some(TrackMode::Mode2Form2)
        } else {
            None
        }
    }

    /// The mode that a mode byte stands for. A byte that the format does not
    /// define is kept in [`TrackMode::Unknown`].
    pub fn from_raw(code: u8) -> (r: TrackMode)
        ensures
            r == match TrackMode::spec_from_code(code) {
                Some(mode) => mode,
                None => TrackMode::Unknown(code),
            },
    {
        match TrackMode::try_from(code) {
            Ok(mode) => mode,
            Err(_) => TrackMode::Unknown(code),
        }
    }

    /// The name of the variant, with the byte of an unknown mode in brackets.
    pub open spec fn spec_debug(self) -> Seq<char> {
        match self {
            TrackMode::NoMode => "None"@,
            TrackMode::Audio => "Audio"@,
            TrackMode::Mode1 => "Mode1"@,
            TrackMode::Mode2 => "Mode2"@,
            TrackMode::Mode2Form1 => "Mode2Form1"@,
            TrackMode::Mode2Form2 => "Mode2Form2"@,
            TrackMode::Unknown(code) => "Unknown("@ + decimal(code as nat) + ")"@,
        }
    }

    /// Appends the name of the variant to `s`.
    pub fn push_debug(&self, s: &mut String)
        ensures
            final(s)@ == old(s)@ + self.spec_debug(),
    {
        match self {
            TrackMode::NoMode => s.append("None"),
            TrackMode::Audio => s.append("Audio"),
            TrackMode::Mode1 => s.append("Mode1"),
            TrackMode::Mode2 => s.append("Mode2"),
            TrackMode::Mode2Form1 => s.append("Mode2Form1"),
            TrackMode::Mode2Form2 => s.append("Mode2Form2"),
            TrackMode::Unknown(code) => {
                s.append("Unknown(");
                push_decimal(s, *code as u64);
                s.append(")");
            },
        }
    }
}

impl TryFrom<u8> for TrackMode {
    type Error = UnknownTrackMode;

    /// The mode that a mode byte stands for, or the byte itself if the format
    /// does not define it.
    fn try_from(code: u8) -> (r: Result<TrackMode, UnknownTrackMode>) {
        match code {
            0x00 => Ok(TrackMode::NoMode),
            0xA9 => Ok(TrackMode::Audio),
            0xAA => Ok(TrackMode::Mode1),
            0xAB => Ok(TrackMode::Mode2),
            0xAC => Ok(TrackMode::Mode2Form1),
            0xAD => Ok(TrackMode::Mode2Form2),
            0xEC => Ok(TrackMode::Mode2),
            x => Err(UnknownTrackMode(x)),
        }
    }
}

impl TryFromSpecImpl<u8> for TrackMode {
    open spec fn obeys_try_from_spec() -> bool {
        true
    }

    open spec fn try_from_spec(code: u8) -> Result<TrackMode, UnknownTrackMode> {
        match TrackMode::spec_from_code(code) {
            Some(mode) => Ok(mode),
            None => Err(UnknownTrackMode(code)),
        }
    }
}

/// Whether the sectors of a track end in a block of subchannel data.
#[derive(Clone, Copy, Debug, PartialEq, Eq, Structural)]
pub enum SubChannels {
    /// Sectors hold user data only.
    Absent,
    /// Sectors end in 0x60 bytes that hold the eight subchannels.
    Eight,
}

/// A subchannel flag that the format does not define.
#[derive(Clone, Copy, Debug, PartialEq, Eq, Structural)]
pub struct UnknonwSubChannelFlag(pub u8);

impl SubChannels {
    /// The layout that a subchannel flag of a track record stands for, if the
    /// format defines that flag.
    pub open spec fn spec_from_code(code: u8) -> Option<SubChannels> {
        if code == 0x00 {
            Some(SubChannels::Absent)
        } else if code == 0x08 {
            Some(SubChannels::Eight)
        } else {
            None
        }
    }

    /// The number of bytes at the end of each sector that hold subchannel
    /// data.
    pub open spec fn spec_size(self) -> int {
        match self {
            SubChannels::Absent => 0x00,
            SubChannels::Eight => 0x60,
        }
    }
}

impl TryFrom<u8> for SubChannels {
    type Error = UnknonwSubChannelFlag;

    /// The layout that a subchannel flag stands for, or the flag itself if
    /// the format does not define it.
    fn try_from(code: u8) -> (r: Result<SubChannels, UnknonwSubChannelFlag>) {
        match code {
            0x00 => Ok(SubChannels::Absent),
            0x08 => Ok(SubChannels::Eight),
            x => Err(UnknonwSubChannelFlag(x)),
        }
    }
}

impl TryFromSpecImpl<u8> for SubChannels {
    open spec fn obeys_try_from_spec() -> bool {
        true
    }

    open spec fn try_from_spec(code: u8) -> Result<SubChannels, UnknonwSubChannelFlag> {
        match SubChannels::spec_from_code(code) {
            Some(layout) => Ok(layout),
            None => Err(UnknonwSubChannelFlag(code)),
        }
    }
}

/// The number of bytes that a track record takes.
pub const TRACK_SIZE: usize = 0x50;

/// The first point of the table of contents that marks the lead-in or
/// lead-out instead of a track.
pub const FIRST_LEAD_POINT: u8 = 0xA0;

/// One entry of a session's track table: a track of the disc, or a marker of
/// the lead-in or lead-out.
#[derive(Debug)]
pub struct Track {
    pub mode: TrackMode,
    pub num_subchannels: SubChannels,
    pub adr: u8,
    pub track_number: u8,
    /// The point of the table of contents that this entry describes. Points
    /// from 0xA0 on mark the lead-in and lead-out and hold no data.
    pub point: u8,
    pub minute: u8,
    pub second: u8,
    pub frame: u8,
    /// The lengths of the track's parts, if the record points to them.
    pub index: Option<IndexBlock>,
    /// The number of bytes of one sector in the payload file, subchannel
    /// data included.
    pub sector_size: u16,
    /// The logical sector at which the track starts.
    pub track_start_sector: i32,
    /// The offset in the payload file of the track's first sector.
    pub track_start_offset: u64,
    pub num_filenames: u32,
    /// The name of the payload file, if the record points to one.
    pub filename: Option<String>,
}

/// A track record as a mathematical value: the record with the file name as a
/// sequence of characters.
pub struct TrackView {
    pub mode: TrackMode,
    pub num_subchannels: SubChannels,
    pub adr: u8,
    pub track_number: u8,
    pub point: u8,
    pub minute: u8,
    pub second: u8,
    pub frame: u8,
    pub index: Option<IndexBlock>,
    pub sector_size: u16,
    pub track_start_sector: i32,
    pub track_start_offset: u64,
    pub num_filenames: u32,
    pub filename: Option<Seq<char>>,
}

impl View for Track {
    type V = TrackView;

    open spec fn view(&self) -> TrackView {
        TrackView {
            mode: self.mode,
            num_subchannels: self.num_subchannels,
            adr: self.adr,
            track_number: self.track_number,
            point: self.point,
            minute: self.minute,
            second: self.second,
            frame: self.frame,
            index: self.index,
            sector_size: self.sector_size,
            track_start_sector: self.track_start_sector,
            track_start_offset: self.track_start_offset,
            num_filenames: self.num_filenames,
            filename: match self.filename {
                Some(name) => Some(name@),
                None => None,
            },
        }
    }
}

impl TrackView {
    /// Whether the entry describes a track that holds data, and not a marker
    /// of the lead-in or lead-out.
    pub open spec fn is_data(self) -> bool {
        self.point < FIRST_LEAD_POINT
    }

    /// The number of bytes at the end of each sector that hold subchannel
    /// data.
    pub open spec fn subchannel_size(self) -> int {
        self.num_subchannels.spec_size()
    }

    /// The number of bytes at the start of each sector that hold the data of
    /// the track: the sector without its subchannel data.
    pub open spec fn data_size(self) -> int {
        self.sector_size - self.subchannel_size()
    }

    /// The number of sectors of the track's body: what its index block says
    /// of index 1, and none if it has no index block.
    pub open spec fn num_sectors(self) -> int {
        match self.index {
            Some(block) => block.index1_sectors as int,
            None => 0,
        }
    }

    /// The path of the payload file of the track, for a descriptor that
    /// stands at `mds_file_name`.
    ///
    /// A track without a file name has none. The name `*.mdf` stands for the
    /// file beside the descriptor that has the descriptor's name with the
    /// extension `mdf`. Any other name is that of a file in the descriptor's
    /// directory.
    pub open spec fn data_filename(self, mds_file_name: Seq<char>) -> Option<Seq<char>> {
        match self.filename {
            Some(name) => if name == "*.mdf"@ {
                Some(path_with_extension(mds_file_name, "mdf"@))
            } else {
                Some(path_with_file_name(mds_file_name, name))
            },
            None => None,
        }
    }
}

/// The track that the record at `offset` of `buf` describes.
///
/// There is one if the `0x50` bytes of the record lie inside `buf`, its mode
/// byte and its subchannel flag are defined, and each of the two blocks that
/// it points to with an offset other than zero can be decoded: the index
/// block, and the filename block with the name it points to.
pub open spec fn spec_track(buf: Seq<u8>, offset: int) -> Option<TrackView> {
    let index_offset = le_u32_at(buf, offset + 12);
    let name_offset = le_u32_at(buf, offset + 52);
    if !in_bounds(buf, offset, TRACK_SIZE as int) {
        None
    } else if TrackMode::spec_from_code(buf[offset]) is None {
        None
    } else if SubChannels::spec_from_code(buf[offset + 1]) is None {
        None
    } else if index_offset > 0 && spec_index_block(buf, index_offset) is None {
        None
    } else if name_offset > 0 && spec_filename(buf, name_offset) is None {
        None
    } else {
        Some(
            TrackView {
                mode: TrackMode::spec_from_code(buf[offset])->Some_0,
                num_subchannels: SubChannels::spec_from_code(buf[offset + 1])->Some_0,
                adr: buf[offset + 2],
                track_number: buf[offset + 3],
                point: buf[offset + 4],
                minute: buf[offset + 9],
                second: buf[offset + 10],
                frame: buf[offset + 11],
                index: if index_offset > 0 {
                    spec_index_block(buf, index_offset)
                } else {
                    None
                },
                sector_size: le_u16_at(buf, offset + 16) as u16,
                track_start_sector: le_i32_at(buf, offset + 36) as i32,
                track_start_offset: le_u64_at(buf, offset + 40) as u64,
                num_filenames: le_u32_at(buf, offset + 48) as u32,
                filename: if name_offset > 0 {
                    spec_filename(buf, name_offset)
                } else {
                    None
                },
            },
        )
    }
}

impl Track {
    /// The point of the table of contents that this entry describes.
    pub fn number(&self) -> (r: usize)
        ensures
            r == self@.point,
    {
        self.point as usize
    }

    /// The number of bytes of one sector in the payload file, subchannel
    /// data included.
    pub fn sector_size(&self) -> (r: usize)
        ensures
            r == self@.sector_size,
    {
        self.sector_size as usize
    }

    /// The number of bytes at the start of each sector that hold the data of
    /// the track. The sector must be long enough to hold its subchannel data.
    pub fn sector_data_size(&self) -> (r: usize)
        requires
            self@.data_size() >= 0,
        ensures
            r == self@.data_size(),
    {
        self.sector_size() - self.sector_subchannel_size()
    }

    /// The number of bytes at the end of each sector that hold subchannel
    /// data.
    pub fn sector_subchannel_size(&self) -> (r: usize)
        ensures
            r == self@.subchannel_size(),
    {
        match self.num_subchannels {
            SubChannels::Absent => 0x00,
            SubChannels::Eight => 0x60,
        }
    }

    /// The number of sectors of the track's body.
    pub fn num_sectors(&self) -> (r: usize)
        ensures
            r == self@.num_sectors(),
    {
        match &self.index {
            Some(block) => block.index1_sectors as usize,
            None => 0,
        }
    }

    /// The path of the payload file of the track, for a descriptor that
    /// stands at `mds_file_name`. The name `*.mdf` is never taken for the
    /// name of a file: it stands for the descriptor's own name with the
    /// extension `mdf`.
    pub fn data_filename(&self, mds_file_name: &str) -> (r: Option<String>)
        ensures
            r is Some <==> self@.data_filename(mds_file_name@) is Some,
            r is Some ==> r->Some_0@ == self@.data_filename(mds_file_name@)->Some_0,
    {
        match &self.filename {
            Some(name) => {
                let same_name = String::from_str("*.mdf");
                if *name == same_name {
                    proof {
                        reveal_strlit("mdf");
                    }
                    Some(set_extension(mds_file_name, "mdf"))
                } else {
                    Some(set_file_name(mds_file_name, name.as_str()))
                }
            },
            None => None,
        }
    }
}

/// Decodes the track record at `track_offset` of `input`, with the index
/// block and the file name that it points to, and returns it with the bytes
/// that follow the record.
pub fn track(input: Bytes, track_offset: usize) -> (r: Res<Track>)
    ensures
        match r {
            Ok((rest, track)) => spec_track(input@, track_offset as int) == Some(track@) && rest@
                == input@.skip(track_offset + TRACK_SIZE),
            Err(e) => spec_track(input@, track_offset as int) is None && e == Error::ParseError,
        },
{
    let (mode_code, at) = u8_at(input, track_offset)?;
    let mode = match TrackMode::try_from(mode_code) {
        Ok(mode) => mode,
        Err(_) => {
            return Err(Error::ParseError);
        },
    };
    let (subchannel_flag, at) = u8_at(input, at)?;
    let num_subchannels = match SubChannels::try_from(subchannel_flag) {
        Ok(layout) => layout,
        Err(_) => {
            return Err(Error::ParseError);
        },
    };
    let (adr, at) = u8_at(input, at)?;
    let (track_number, at) = u8_at(input, at)?;
    let (point, at) = u8_at(input, at)?;
    let (_, at) = bytes_at(input, at, 4)?;
    let (minute, at) = u8_at(input, at)?;
    let (second, at) = u8_at(input, at)?;
    let (frame, at) = u8_at(input, at)?;
    let (index_block_offset, at) = u32_at(input, at)?;
    let (sector_size, at) = u16_at(input, at)?;
    let (_, at) = bytes_at(input, at, 0x12)?;
    let (track_start_sector, at) = i32_at(input, at)?;
    let (track_start_offset, at) = u64_at(input, at)?;
    let (num_filenames, at) = u32_at(input, at)?;
    let (filename_offset, at) = u32_at(input, at)?;
    let (_, at) = bytes_at(input, at, 0x18)?;
    let rest = bytes_from(input, at)?;

    let index = if index_block_offset > 0 {
        Some(index_block_at(input, index_block_offset as usize)?)
    } else {
        None
    };

    let filename = if filename_offset > 0 {
        Some(filename_at(input, filename_offset as usize)?)
    } else {
        None
    };

    let track = Track {
        mode,
        num_subchannels,
        adr,
        track_number,
        point,
        minute,
        second,
        frame,
        index,
        sector_size,
        track_start_sector,
        track_start_offset,
        num_filenames,
        filename,
    };

    Ok((rest, track))
}

} // verus!
