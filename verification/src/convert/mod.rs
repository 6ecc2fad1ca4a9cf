//! Conversion of a disc model and its payload into derived formats.
//!
//! Both formats hold the data of tracks without subchannel data: of each
//! sector of a track, only the bytes before its subchannel block are kept.

pub mod cue_bin;
pub mod iso;

use crate::error::{Error, IoError};
use crate::mds::track::{Track, TrackView};
use vstd::prelude::*;
use vstd::slice::slice_subrange;

verus! {

broadcast use vstd::slice::group_slice_axioms;

/// The first `data_size` bytes of each of the first `count` sectors of
/// `payload`, one after the other. The sectors are `sector_size` bytes long
/// and begin at offset `start`.
pub open spec fn sectors_data(
    payload: Seq<u8>,
    start: int,
    sector_size: int,
    data_size: int,
    count: nat,
) -> Seq<u8>
    decreases count,
{
    if count == 0 {
        Seq::empty()
    } else {
        sectors_data(payload, start, sector_size, data_size, (count - 1) as nat)
            + payload.subrange(
            start + (count - 1) * sector_size,
            start + (count - 1) * sector_size + data_size,
        )
    }
}

/// Whether `payload` holds all the sectors of `track`: either the track has
/// no byte to read, or its sectors end inside the payload.
pub open spec fn track_readable(track: TrackView, payload: Seq<u8>) -> bool {
    track.num_sectors() * track.sector_size == 0 || track.track_start_offset
        + track.num_sectors() * track.sector_size <= payload.len()
}

/// The data of `track` in `payload`: of each sector of the track's body, the
/// bytes before its subchannel block. The body starts at the track's start
/// offset and has as many sectors as the track's index block says.
pub open spec fn track_data(track: TrackView, payload: Seq<u8>) -> Seq<u8> {
    if track.sector_size == 0 {
        Seq::empty()
    } else {
        sectors_data(
            payload,
            track.track_start_offset as int,
            track.sector_size as int,
            track.data_size(),
            track.num_sectors() as nat,
        )
    }
}

/// What reading the data of `track` from the payload file it names gives,
/// if `payload` is what that file holds: the data, or the failure of the
/// read that finds a sector missing. A track that names no file has no
/// payload.
pub open spec fn spec_track_data(track: TrackView, payload: Seq<u8>) -> Result<Seq<u8>, Error> {
    if track.filename is None {
        Err(Error::MissingInputFile)
    } else if !track_readable(track, payload) {
        Err(Error::Io(IoError::UnexpectedEof))
    } else {
        Ok(track_data(track, payload))
    }
}

/// The data of a number of sectors has the length of that many data blocks.
pub proof fn lemma_sectors_data_len(
    payload: Seq<u8>,
    start: int,
    sector_size: int,
    data_size: int,
    count: nat,
)
    requires
        0 <= start,
        0 <= data_size <= sector_size,
        start + count * sector_size <= payload.len(),
    ensures
        sectors_data(payload, start, sector_size, data_size, count).len() == count * data_size,
    decreases count,
{
    if count == 0 {
        assert(count * data_size == 0) by (nonlinear_arith)
            requires
                count == 0,
        ;
    } else {
        let before = (count - 1) as nat;
        assert(before * sector_size + sector_size == count * sector_size) by (nonlinear_arith)
            requires
                before == count - 1,
        ;
        assert(0 <= before * sector_size) by (nonlinear_arith)
            requires
                0 <= sector_size,
                0 <= before,
        ;
        lemma_sectors_data_len(payload, start, sector_size, data_size, before);
        assert(before * data_size + data_size == count * data_size) by (nonlinear_arith)
            requires
                before == count - 1,
        ;
    }
}

/// Of every track that is converted, as many sectors are written as its
/// index block counts from index 1 on, and none if it has no index block:
/// the data written has the length of that many data blocks.
pub proof fn lemma_sectors_written(track: TrackView, payload: Seq<u8>)
    requires
        track.data_size() >= 0,
        spec_track_data(track, payload) is Ok,
    ensures
        spec_track_data(track, payload)->Ok_0.len() == track.num_sectors() * track.data_size(),
{
    let count = track.num_sectors() as nat;
    let size = track.sector_size as int;
    if size == 0 {
        assert(track.num_sectors() * track.data_size() == 0) by (nonlinear_arith)
            requires
                track.data_size() == 0,
        ;
    } else if count == 0 {
        assert(track.num_sectors() * track.data_size() == 0) by (nonlinear_arith)
            requires
                track.num_sectors() == 0,
        ;
    } else {
        assert(count * size != 0) by (nonlinear_arith)
            requires
                count > 0,
                size > 0,
        ;
        lemma_sectors_data_len(
            payload,
            track.track_start_offset as int,
            size,
            track.data_size(),
            count,
        );
    }
}

/// Appends the data of `track` to `out`, taken from `payload`: what the
/// payload file that the track names holds.
///
/// Nothing is appended unless all of the track can be read. The sectors of
/// the track must be long enough to hold their subchannel data.
pub fn append_track_data(track: &Track, payload: &[u8], out: &mut Vec<u8>) -> (r: Result<
    (),
    Error,
>)
    requires
        track@.data_size() >= 0,
    ensures
        match r {
            Ok(_) => spec_track_data(track@, payload@) is Ok && final(out)@ == old(out)@
                + spec_track_data(track@, payload@)->Ok_0,
            Err(e) => spec_track_data(track@, payload@) == Err::<Seq<u8>, Error>(e) && final(out)@
                == old(out)@,
        },
{
    if track.filename.is_none() {
        return Err(Error::MissingInputFile);
    }
    let sector_size = track.sector_size();
    let data_size = track.sector_data_size();
    let num_sectors = track.num_sectors();
    let ghost before = out@;
    assert(num_sectors * sector_size <= 0xFFFF_FFFF * 0xFFFF) by (nonlinear_arith)
        requires
            0 <= num_sectors <= 0xFFFF_FFFF,
            0 <= sector_size <= 0xFFFF,
    ;
    let total: u64 = (num_sectors as u64) * (sector_size as u64);
    if total == 0 {
        assert(track@.sector_size == 0 || track@.num_sectors() == 0) by (nonlinear_arith)
            requires
                track@.num_sectors() * track@.sector_size == 0,
        ;
        return Ok(());
    }
    let end: u64 = match track.track_start_offset.checked_add(total) {
        Some(end) => end,
        None => {
            proof {
                crate::mds::bytes::lemma_len_fits(payload);
            }
            return Err(Error::Io(IoError::UnexpectedEof));
        },
    };
    if end > payload.len() as u64 {
        return Err(Error::Io(IoError::UnexpectedEof));
    }
    assert(sector_size > 0) by (nonlinear_arith)
        requires
            num_sectors * sector_size != 0,
            0 <= sector_size,
    ;
    let start: usize = track.track_start_offset as usize;
    let mut i: usize = 0;
    while i < num_sectors
        invariant
            i <= num_sectors,
            sector_size > 0,
            data_size <= sector_size,
            start + num_sectors * sector_size <= payload@.len(),
            payload@.len() <= usize::MAX,
            out@ == before + sectors_data(
                payload@,
                start as int,
                sector_size as int,
                data_size as int,
                i as nat,
            ),
        decreases num_sectors - i,
    {
        assert(i * sector_size + sector_size <= num_sectors * sector_size) by (nonlinear_arith)
            requires
                i < num_sectors,
                0 <= sector_size,
        ;
        assert(0 <= i * sector_size) by (nonlinear_arith)
            requires
                0 <= sector_size,
                0 <= i,
        ;
        let from: usize = start + i * sector_size;
        let sector = slice_subrange(payload, from, from + data_size);
        out.extend_from_slice(sector);
        i += 1;
    }
    Ok(())
}

} // verus!
