//! Session records and the tracks of a session.

use super::bytes::{
    bytes_from, i32_at, in_bounds, le_i32_at, le_u16_at, le_u32_at, u16_at, u32_at, u8_at, Bytes,
    Res,
};
use super::track::{spec_track, track, Track, TrackView, FIRST_LEAD_POINT, TRACK_SIZE};
use crate::error::Error;
use crate::timecode::{Timecode, FRAMES_PER_SECOND};
use vstd::prelude::*;

verus! {

/// The number of bytes that a session record takes.
pub const SESSION_SIZE: usize = 0x18;

/// One session of a disc: a recording pass with its track table.
#[derive(Debug)]
pub struct Session {
    /// The first sector of the session that the image holds. It is negative
    /// where the image holds the pregap: sector 0 is the first sector of user
    /// data, so an image with the usual pregap starts at sector -150.
    pub start_sector: i32,
    /// The position of `start_sector`, as a timecode.
    pub start_time: Timecode,
    pub end_sector: i32,
    pub session_number: u16,
    /// The number of entries of the track table.
    pub num_data_blocks: u8,
    pub num_lead_in_data_blocks: u8,
    pub first_track_num: u16,
    pub last_track_num: u16,
    /// The offset in the descriptor of the track table.
    pub first_track_offset: u32,
    /// The entries of the track table, in the order of the table.
    pub tracks: Vec<Track>,
}

/// A session as a mathematical value.
pub struct SessionView {
    pub start_sector: i32,
    pub start_time: Timecode,
    pub end_sector: i32,
    pub session_number: u16,
    pub num_data_blocks: u8,
    pub num_lead_in_data_blocks: u8,
    pub first_track_num: u16,
    pub last_track_num: u16,
    pub first_track_offset: u32,
    pub tracks: Seq<TrackView>,
}

impl View for Session {
    type V = SessionView;

    open spec fn view(&self) -> SessionView {
        SessionView {
            start_sector: self.start_sector,
            start_time: self.start_time,
            end_sector: self.end_sector,
            session_number: self.session_number,
            num_data_blocks: self.num_data_blocks,
            num_lead_in_data_blocks: self.num_lead_in_data_blocks,
            first_track_num: self.first_track_num,
            last_track_num: self.last_track_num,
            first_track_offset: self.first_track_offset,
            tracks: Seq::new(self.tracks@.len(), |i: int| self.tracks@[i]@),
        }
    }
}

impl SessionView {
    /// The entries of the track table that describe tracks with data, in the
    /// order of the table. The markers of the lead-in and lead-out are left
    /// out.
    pub open spec fn data_tracks(self) -> Seq<TrackView> {
        self.tracks.filter(|t: TrackView| t.is_data())
    }
}

impl Session {
    /// The tracks of this session that hold data, in the order of the track
    /// table. The markers of the lead-in and lead-out are left out.
    pub fn data_tracks(&self) -> (r: Vec<&Track>)
        ensures
            r@.len() == self@.data_tracks().len(),
            forall|i: int| 0 <= i < r@.len() ==> (#[trigger] r@[i])@ == self@.data_tracks()[i],
    {
        let mut found: Vec<&Track> = Vec::new();
        let ghost is_data = |t: TrackView| t.is_data();
        proof {
            reveal(Seq::filter);
        }
        let mut i: usize = 0;
        while i < self.tracks.len()
            invariant
                i <= self.tracks@.len(),
                is_data == (|t: TrackView| t.is_data()),
                found@.len() == self@.tracks.take(i as int).filter(is_data).len(),
                forall|k: int|
                    0 <= k < found@.len() ==> (#[trigger] found@[k])@ == self@.tracks.take(
                        i as int,
                    ).filter(is_data)[k],
            decreases self.tracks@.len() - i,
        {
            let track = &self.tracks[i];
            proof {
                reveal(Seq::filter);
                let before = self@.tracks.take(i as int);
                let upto = self@.tracks.take(i + 1);
                assert(upto.drop_last() =~= before);
            }
            if track.point < FIRST_LEAD_POINT {
                found.push(track);
            }
            i += 1;
        }
        proof {
            assert(self@.tracks.take(i as int) =~= self@.tracks);
        }
        found
    }
}

/// The track that entry `j` of the track table at offset `table` of `buf`
/// describes: the entries are `0x50` bytes apart.
pub open spec fn spec_table_entry(buf: Seq<u8>, table: int, j: int) -> Option<TrackView> {
    spec_track(buf, table + j * TRACK_SIZE)
}

/// The session that the record at `offset` of `buf` describes.
///
/// There is one if the `0x18` bytes of the record lie inside `buf` and every
/// entry of its track table can be decoded. The table has as many entries as
/// the record says, `0x50` bytes apart, from the offset that the record gives.
/// The start time is the position of the start sector.
pub open spec fn spec_session(buf: Seq<u8>, offset: int) -> Option<SessionView> {
    let count = buf[offset + 10] as int;
    let table = le_u32_at(buf, offset + 20);
    if !in_bounds(buf, offset, SESSION_SIZE as int) {
        None
    } else if !(forall|j: int| 0 <= j < count ==> spec_table_entry(buf, table, j) is Some) {
        None
    } else {
        Some(
            SessionView {
                start_sector: le_i32_at(buf, offset) as i32,
                start_time: Timecode(le_i32_at(buf, offset) as i32),
                end_sector: le_i32_at(buf, offset + 4) as i32,
                session_number: le_u16_at(buf, offset + 8) as u16,
                num_data_blocks: buf[offset + 10],
                num_lead_in_data_blocks: buf[offset + 11],
                first_track_num: le_u16_at(buf, offset + 12) as u16,
                last_track_num: le_u16_at(buf, offset + 14) as u16,
                first_track_offset: table as u32,
                tracks: Seq::new(
                    count as nat,
                    |j: int| spec_table_entry(buf, table, j)->Some_0,
                ),
            },
        )
    }
}

/// Decodes the session record at `session_offset` of `input`, with the
/// entries of its track table, and returns it with the bytes that follow the
/// record.
pub fn session(input: Bytes, session_offset: usize) -> (r: Res<Session>)
    ensures
        match r {
            Ok((rest, session)) => spec_session(input@, session_offset as int) == Some(session@)
                && rest@ == input@.skip(session_offset + SESSION_SIZE),
            Err(e) => spec_session(input@, session_offset as int) is None && e
                == Error::ParseError,
        },
{
    let (start_sector, at) = i32_at(input, session_offset)?;
    let (end_sector, at) = i32_at(input, at)?;
    let (session_number, at) = u16_at(input, at)?;
    let (num_data_blocks, at) = u8_at(input, at)?;
    let (num_lead_in_data_blocks, at) = u8_at(input, at)?;
    let (first_track_num, at) = u16_at(input, at)?;
    let (last_track_num, at) = u16_at(input, at)?;
    let (_, at) = u32_at(input, at)?;
    let (first_track_offset, at) = u32_at(input, at)?;
    let rest = bytes_from(input, at)?;

    let ghost table = first_track_offset as int;
    let mut tracks: Vec<Track> = Vec::new();
    let mut i: u8 = 0;
    while i < num_data_blocks
        invariant
            i <= num_data_blocks,
            table == first_track_offset,
            tracks@.len() == i,
            forall|k: int|
                0 <= k < i ==> #[trigger] spec_table_entry(input@, table, k) == Some(tracks@[k]@),
            in_bounds(input@, session_offset as int, SESSION_SIZE as int),
            num_data_blocks == input@[session_offset + 10],
            table == le_u32_at(input@, session_offset + 20),
        decreases num_data_blocks - i,
    {
        let block_offset: u64 = first_track_offset as u64 + TRACK_SIZE as u64 * (i as u64);
        if block_offset > usize::MAX as u64 {
            proof {
                super::bytes::lemma_len_fits(input);
            }
            return Err(Error::ParseError);
        }
        let (_, track) = track(input, block_offset as usize)?;
        assert(spec_table_entry(input@, table, i as int) == Some(track@));
        tracks.push(track);
        i += 1;
    }

    let frames: i32 = start_sector % FRAMES_PER_SECOND;
    let seconds: i32 = start_sector / FRAMES_PER_SECOND;
    let start_time = Timecode::from_msf(0, seconds, frames);

    let session = Session {
        start_sector,
        start_time,
        end_sector,
        session_number,
        num_data_blocks,
        num_lead_in_data_blocks,
        first_track_num,
        last_track_num,
        first_track_offset,
        tracks,
    };
    proof {
        assert(session@.tracks =~= spec_session(input@, session_offset as int)->Some_0.tracks);
    }
    Ok((rest, session))
}

} // verus!
