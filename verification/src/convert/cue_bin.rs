//! Conversion to a cue sheet and a BIN image.
//!
//! The BIN image holds the data of all the data tracks of a session, one
//! after the other. The cue sheet names the BIN image and says, for each
//! track, of what kind it is and where in the image it starts.

use super::{append_track_data, spec_track_data};
use crate::error::Error;
use crate::mds::mds::{Mds, MdsView};
use crate::mds::session::SessionView;
use crate::mds::track::{Track, TrackMode, TrackView};
use crate::text::{decimal, push_decimal, push_two_digits, two_digits};
use crate::timecode::{frame_count, msf_of, Timecode};
use crate::util::{file_name, path_file_name, path_with_extension, set_extension};
use vstd::prelude::*;

verus! {

/// The name that a cue sheet gives to a track of mode `mode` whose sectors
/// hold `data_size` bytes of data, if it has one.
pub open spec fn spec_cue_media_type(mode: TrackMode, data_size: int) -> Option<Seq<char>> {
    if mode == TrackMode::Audio && data_size == 0x930 {
        Some("AUDIO"@)
    } else if mode == TrackMode::Mode1 && data_size == 0x800 {
        Some("MODE1/2048"@)
    } else if mode == TrackMode::Mode1 && data_size == 0x930 {
        Some("MODE1/2352"@)
    } else if mode == TrackMode::Mode2 && data_size == 0x920 {
        Some("MODE2/2336"@)
    } else if mode == TrackMode::Mode2 && data_size == 0x930 {
        Some("MODE2/2352"@)
    } else {
        None
    }
}

/// The position at which `track` starts in a cue sheet: the position that
/// its record gives, moved by `pregap_correction`, written as minutes,
/// seconds and frames of two digits each.
pub open spec fn spec_cue_address(track: TrackView, pregap_correction: Timecode) -> Seq<char> {
    let (minutes, seconds, frames) = msf_of(
        frame_count(track.minute as int, track.second as int, track.frame as int)
            + pregap_correction@,
    );
    two_digits(minutes) + ":"@ + two_digits(seconds) + ":"@ + two_digits(frames)
}

/// The first line of a cue sheet, which names the BIN image.
pub open spec fn cue_file_line(bin_name: Seq<char>) -> Seq<char> {
    "FILE \""@ + bin_name + "\" BINARY\n"@
}

/// The two lines of a cue sheet that describe track `number`: a `TRACK` line
/// with the number and the name of the track's kind, and an `INDEX` line with
/// the position at which the track starts.
pub open spec fn cue_track_lines(number: nat, mode: Seq<char>, address: Seq<char>) -> Seq<char> {
    "  TRACK "@ + decimal(number) + " "@ + mode + "\n"@ + "    INDEX 01 "@ + address + "\n"@
}

/// The two lines of a cue sheet that describe `track` as track `number`, or
/// the failure of a track that a cue sheet has no name for.
pub open spec fn cue_track_entry(number: nat, track: TrackView, pregap_correction: Timecode)
    -> Result<Seq<char>, Error> {
    match spec_cue_media_type(track.mode, track.data_size()) {
        Some(mode) => Ok(
            cue_track_lines(number, mode, spec_cue_address(track, pregap_correction)),
        ),
        None => Err(Error::UnknownCueTrackSize(track.mode, track.data_size() as usize)),
    }
}

/// The lines of a cue sheet that describe `tracks`, numbered from 1 in their
/// order, or the failure of the first track that cannot be described.
pub open spec fn cue_track_entries(tracks: Seq<TrackView>, pregap_correction: Timecode) -> Result<
    Seq<char>,
    Error,
>
    decreases tracks.len(),
{
    if tracks.len() == 0 {
        Ok(Seq::empty())
    } else {
        match cue_track_entries(tracks.drop_last(), pregap_correction) {
            Ok(text) => match cue_track_entry(tracks.len(), tracks.last(), pregap_correction) {
                Ok(entry) => Ok(text + entry),
                Err(e) => Err(e),
            },
            Err(e) => Err(e),
        }
    }
}

/// The cue sheet of the disc `mds` for a BIN image named `bin_name`: the line
/// that names the image, then the lines of each data track of the one
/// session. The start time of the session is the pregap correction.
pub open spec fn spec_mds_to_cue(mds: MdsView, bin_name: Seq<char>) -> Result<Seq<char>, Error> {
    match mds.single_session() {
        Ok(session) => match cue_track_entries(session.data_tracks(), session.start_time) {
            Ok(entries) => Ok(cue_file_line(bin_name) + entries),
            Err(e) => Err(e),
        },
        Err(e) => Err(e),
    }
}

/// What the payload files hold, each as a sequence of bytes.
pub open spec fn payload_views(payloads: Seq<&[u8]>) -> Seq<Seq<u8>> {
    Seq::new(payloads.len(), |i: int| payloads[i]@)
}

/// The data of track `k` of a BIN image. `payloads[k]` is what the payload
/// file that the track names holds; a track for which nothing is given has no
/// payload.
pub open spec fn bin_track_data(track: TrackView, payloads: Seq<Seq<u8>>, k: int) -> Result<
    Seq<u8>,
    Error,
> {
    if 0 <= k < payloads.len() {
        spec_track_data(track, payloads[k])
    } else {
        Err(Error::MissingInputFile)
    }
}

/// The data of `tracks`, one after the other in their order, or the failure
/// of the first track whose data cannot be read.
pub open spec fn bin_tracks_data(tracks: Seq<TrackView>, payloads: Seq<Seq<u8>>) -> Result<
    Seq<u8>,
    Error,
>
    decreases tracks.len(),
{
    if tracks.len() == 0 {
        Ok(Seq::empty())
    } else {
        match bin_tracks_data(tracks.drop_last(), payloads) {
            Ok(bytes) => match bin_track_data(tracks.last(), payloads, tracks.len() - 1) {
                Ok(data) => Ok(bytes + data),
                Err(e) => Err(e),
            },
            Err(e) => Err(e),
        }
    }
}

/// The BIN image of the disc `mds`: the data of the data tracks of its one
/// session, in the order of the track table.
pub open spec fn spec_mds_to_bin(mds: MdsView, payloads: Seq<Seq<u8>>) -> Result<Seq<u8>, Error> {
    match mds.single_session() {
        Ok(session) => bin_tracks_data(session.data_tracks(), payloads),
        Err(e) => Err(e),
    }
}

/// The cue sheet and the BIN image of the disc `mds`, or the first failure in
/// making the sheet and then the image.
pub open spec fn spec_convert(mds: MdsView, bin_name: Seq<char>, payloads: Seq<Seq<u8>>) -> Result<
    (Seq<char>, Seq<u8>),
    Error,
> {
    match spec_mds_to_cue(mds, bin_name) {
        Ok(sheet) => match spec_mds_to_bin(mds, payloads) {
            Ok(bin) => Ok((sheet, bin)),
            Err(e) => Err(e),
        },
        Err(e) => Err(e),
    }
}

/// The number of data bytes in all the sectors of `tracks`.
pub open spec fn tracks_data_len(tracks: Seq<TrackView>) -> int
    decreases tracks.len(),
{
    if tracks.len() == 0 {
        0
    } else {
        tracks_data_len(tracks.drop_last()) + tracks.last().num_sectors()
            * tracks.last().data_size()
    }
}

/// Whether the sectors of every data track of `session` are long enough to
/// hold their subchannel data.
pub open spec fn sectors_fit(session: SessionView) -> bool {
    forall|i: int|
        0 <= i < session.data_tracks().len() ==> (#[trigger] session.data_tracks()[i]).data_size()
            >= 0
}

/// The name that a cue sheet gives to `track`. It goes by the mode of the
/// track and the number of data bytes of its sectors; a track for which no
/// name is known is refused, with its mode and that number.
pub fn cue_media_type(track: &Track) -> (r: Result<&'static str, Error>)
    requires
        track@.data_size() >= 0,
    ensures
        match r {
            Ok(name) => spec_cue_media_type(track@.mode, track@.data_size()) == Some(name@),
            Err(e) => spec_cue_media_type(track@.mode, track@.data_size()) is None && e
                == Error::UnknownCueTrackSize(track@.mode, track@.data_size() as usize),
        },
{
    let data_size = track.sector_data_size();
    match track.mode {
        TrackMode::Audio => if data_size == 0x930 {
            return Ok("AUDIO");
        },
        TrackMode::Mode1 => if data_size == 0x800 {
            return Ok("MODE1/2048");
        } else if data_size == 0x930 {
            return Ok("MODE1/2352");
        },
        TrackMode::Mode2 => if data_size == 0x920 {
            return Ok("MODE2/2336");
        } else if data_size == 0x930 {
            return Ok("MODE2/2352");
        },
        _ => {},
    }
    Err(Error::UnknownCueTrackSize(track.mode, data_size))
}

/// The position at which `track` starts, as an `INDEX` line of a cue sheet
/// gives it.
///
/// A cue sheet does not count the pregap, so the positions of a disc whose
/// image holds one are moved by `pregap_correction`: the first track of such
/// a disc starts at `00:02:00` on the disc and at `00:00:00` in the sheet.
pub fn cue_address(track: &Track, pregap_correction: Timecode) -> (r: String)
    ensures
        r@ == spec_cue_address(track@, pregap_correction),
{
    let start = Timecode::from_track(track);
    let total: i64 = start.0 as i64 + pregap_correction.0 as i64;
    let all_seconds: i64 = total / 75;
    let mut address = String::new();
    push_two_digits(&mut address, all_seconds / 60);
    address.append(":");
    push_two_digits(&mut address, all_seconds % 60);
    address.append(":");
    push_two_digits(&mut address, total % 75);
    address
}

/// The name of the BIN image that goes with the descriptor at `mds_path`: the
/// last component of that path with the extension `bin`. A path without a
/// last component has none.
pub fn bin_file_name(mds_path: &str) -> (r: Option<String>)
    ensures
        r is Some <==> path_file_name(path_with_extension(mds_path@, "bin"@)) is Some,
        r is Some ==> r->Some_0@ == path_file_name(path_with_extension(mds_path@, "bin"@))->Some_0,
{
    proof {
        reveal_strlit("bin");
    }
    let bin_path = set_extension(mds_path, "bin");
    file_name(bin_path.as_str())
}

/// Appends the two lines of a cue sheet that describe track `number`.
fn push_cue_track_lines(sheet: &mut String, number: usize, mode: &str, address: &str)
    ensures
        final(sheet)@ == old(sheet)@ + cue_track_lines(number as nat, mode@, address@),
{
    sheet.append("  TRACK ");
    push_decimal(sheet, number as u64);
    sheet.append(" ");
    sheet.append(mode);
    sheet.append("\n");
    sheet.append("    INDEX 01 ");
    sheet.append(address);
    sheet.append("\n");
}

/// The cue sheet of the disc `mds` for a BIN image named `bin_name`.
///
/// An image that does not have exactly one session is refused, and so is one
/// with a data track that a cue sheet has no name for. The sectors of the
/// data tracks must be long enough to hold their subchannel data.
pub fn mds_to_cue(mds: &Mds, bin_name: &str) -> (r: Result<String, Error>)
    requires
        mds@.single_session() matches Ok(session) ==> sectors_fit(session),
    ensures
        match r {
            Ok(sheet) => spec_mds_to_cue(mds@, bin_name@) == Ok::<Seq<char>, Error>(sheet@),
            Err(e) => spec_mds_to_cue(mds@, bin_name@) == Err::<Seq<char>, Error>(e),
        },
{
    let session = mds.single_session()?;
    let pregap_correction = session.start_time;
    let tracks = session.data_tracks();
    let ghost all = session@.data_tracks();

    let mut sheet = String::from_str("FILE \"");
    sheet.append(bin_name);
    sheet.append("\" BINARY\n");
    let ghost mut entries: Seq<char> = Seq::empty();

    let mut i: usize = 0;
    while i < tracks.len()
        invariant
            i <= tracks@.len(),
            tracks@.len() == all.len(),
            forall|k: int| 0 <= k < tracks@.len() ==> (#[trigger] tracks@[k])@ == all[k],
            forall|k: int| 0 <= k < all.len() ==> (#[trigger] all[k]).data_size() >= 0,
            mds@.single_session() == Ok::<SessionView, Error>(session@),
            all == session@.data_tracks(),
            pregap_correction == session@.start_time,
            cue_track_entries(all.take(i as int), pregap_correction) == Ok::<Seq<char>, Error>(
                entries,
            ),
            sheet@ == cue_file_line(bin_name@) + entries,
        decreases tracks@.len() - i,
    {
        let track = tracks[i];
        proof {
            assert(all.take(i + 1).drop_last() =~= all.take(i as int));
        }
        let mode = match cue_media_type(track) {
            Ok(mode) => mode,
            Err(e) => {
                proof {
                    lemma_cue_failure_stays(all, pregap_correction, i + 1);
                }
                return Err(e);
            },
        };
        let address = cue_address(track, pregap_correction);
        push_cue_track_lines(&mut sheet, i + 1, mode, address.as_str());
        proof {
            let entry = cue_track_lines((i + 1) as nat, mode@, address@);
            assert(cue_track_entry((i + 1) as nat, track@, pregap_correction) == Ok::<
                Seq<char>,
                Error,
            >(entry));
            entries = entries + entry;
        }
        i += 1;
    }
    proof {
        assert(all.take(i as int) =~= all);
    }
    Ok(sheet)
}

/// Once the lines of the first `n` tracks cannot be written, the lines of all
/// the tracks cannot be written either, for the same reason.
pub proof fn lemma_cue_failure_stays(tracks: Seq<TrackView>, pregap_correction: Timecode, n: int)
    requires
        0 <= n <= tracks.len(),
        cue_track_entries(tracks.take(n), pregap_correction) is Err,
    ensures
        cue_track_entries(tracks, pregap_correction) == cue_track_entries(
            tracks.take(n),
            pregap_correction,
        ),
    decreases tracks.len() - n,
{
    if n < tracks.len() {
        assert(tracks.take(n + 1).drop_last() =~= tracks.take(n));
        lemma_cue_failure_stays(tracks, pregap_correction, n + 1);
    } else {
        assert(tracks.take(n) =~= tracks);
    }
}

/// Once the data of the first `n` tracks cannot be read, the data of all the
/// tracks cannot be read either, for the same reason.
pub proof fn lemma_bin_failure_stays(tracks: Seq<TrackView>, payloads: Seq<Seq<u8>>, n: int)
    requires
        0 <= n <= tracks.len(),
        bin_tracks_data(tracks.take(n), payloads) is Err,
    ensures
        bin_tracks_data(tracks, payloads) == bin_tracks_data(tracks.take(n), payloads),
    decreases tracks.len() - n,
{
    if n < tracks.len() {
        assert(tracks.take(n + 1).drop_last() =~= tracks.take(n));
        lemma_bin_failure_stays(tracks, payloads, n + 1);
    } else {
        assert(tracks.take(n) =~= tracks);
    }
}

/// The BIN image of the disc `mds`: the data of the data tracks of its one
/// session, one after the other. `payloads` holds, for each data track in the
/// order of the track table, what the payload file that the track names
/// holds.
///
/// An image that does not have exactly one session is refused. A track that
/// names no payload file, or for which no payload is given, is missing its
/// input. The sectors of the data tracks must be long enough to hold their
/// subchannel data.
pub fn mds_to_bin(mds: &Mds, payloads: &Vec<&[u8]>) -> (r: Result<Vec<u8>, Error>)
    requires
        mds@.single_session() matches Ok(session) ==> sectors_fit(session),
    ensures
        match r {
            Ok(bin) => spec_mds_to_bin(mds@, payload_views(payloads@)) == Ok::<Seq<u8>, Error>(
                bin@,
            ),
            Err(e) => spec_mds_to_bin(mds@, payload_views(payloads@)) == Err::<Seq<u8>, Error>(e),
        },
{
    let session = mds.single_session()?;
    let tracks = session.data_tracks();
    let ghost all = session@.data_tracks();
    let ghost given = payload_views(payloads@);

    let mut bin: Vec<u8> = Vec::new();
    let mut i: usize = 0;
    while i < tracks.len()
        invariant
            i <= tracks@.len(),
            tracks@.len() == all.len(),
            given == payload_views(payloads@),
            mds@.single_session() == Ok::<SessionView, Error>(session@),
            all == session@.data_tracks(),
            forall|k: int| 0 <= k < tracks@.len() ==> (#[trigger] tracks@[k])@ == all[k],
            forall|k: int| 0 <= k < all.len() ==> (#[trigger] all[k]).data_size() >= 0,
            bin_tracks_data(all.take(i as int), given) == Ok::<Seq<u8>, Error>(bin@),
        decreases tracks@.len() - i,
    {
        let track = tracks[i];
        proof {
            assert(all.take(i + 1).drop_last() =~= all.take(i as int));
        }
        if i >= payloads.len() {
            proof {
                lemma_bin_failure_stays(all, given, i + 1);
            }
            return Err(Error::MissingInputFile);
        }
        if let Err(e) = append_track_data(track, payloads[i], &mut bin) {
            proof {
                lemma_bin_failure_stays(all, given, i + 1);
            }
            return Err(e);
        }
        i += 1;
    }
    proof {
        assert(all.take(i as int) =~= all);
    }
    Ok(bin)
}

/// The cue sheet and the BIN image of the disc `mds`, or the first failure in
/// making the sheet and then the image. See [`mds_to_cue`] and
/// [`mds_to_bin`].
pub fn convert(mds: &Mds, bin_name: &str, payloads: &Vec<&[u8]>) -> (r: Result<
    (String, Vec<u8>),
    Error,
>)
    requires
        mds@.single_session() matches Ok(session) ==> sectors_fit(session),
    ensures
        match r {
            Ok((sheet, bin)) => spec_convert(mds@, bin_name@, payload_views(payloads@)) == Ok::<
                (Seq<char>, Seq<u8>),
                Error,
            >((sheet@, bin@)),
            Err(e) => spec_convert(mds@, bin_name@, payload_views(payloads@)) == Err::<
                (Seq<char>, Seq<u8>),
                Error,
            >(e),
        },
        mds@.sessions.len() == 0 ==> r == Err::<(String, Vec<u8>), Error>(Error::NoSessions),
        mds@.sessions.len() > 1 ==> r == Err::<(String, Vec<u8>), Error>(Error::TooManySessions),
{
    let sheet = mds_to_cue(mds, bin_name)?;
    let bin = mds_to_bin(mds, payloads)?;
    Ok((sheet, bin))
}

/// Of every track that goes into a BIN image, as many sectors are written as
/// its index block counts from index 1 on: the image has the length of the
/// data blocks of all those sectors.
pub proof fn lemma_bin_sectors_written(tracks: Seq<TrackView>, payloads: Seq<Seq<u8>>)
    requires
        forall|i: int| 0 <= i < tracks.len() ==> (#[trigger] tracks[i]).data_size() >= 0,
        bin_tracks_data(tracks, payloads) is Ok,
    ensures
        bin_tracks_data(tracks, payloads)->Ok_0.len() == tracks_data_len(tracks),
    decreases tracks.len(),
{
    if tracks.len() > 0 {
        let before = tracks.drop_last();
        lemma_bin_sectors_written(before, payloads);
        super::lemma_sectors_written(tracks.last(), payloads[tracks.len() - 1]);
    }
}

/// Converting the same disc and payloads twice gives the same result: two
/// results that both are what [`convert`] promises are equal, in the sheet
/// and in the image.
pub proof fn lemma_convert_is_deterministic(
    mds: MdsView,
    bin_name: Seq<char>,
    payloads: Seq<Seq<u8>>,
    first: Result<(Seq<char>, Seq<u8>), Error>,
    second: Result<(Seq<char>, Seq<u8>), Error>,
)
    requires
        first == spec_convert(mds, bin_name, payloads),
        second == spec_convert(mds, bin_name, payloads),
    ensures
        first == second,
{
}

} // verus!
