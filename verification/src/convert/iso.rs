//! Conversion to an ISO image.
//!
//! An ISO image holds the data of one track, so only an image with one
//! session and one data track can be converted.

use super::{append_track_data, spec_track_data};
use crate::error::Error;
use crate::mds::mds::{Mds, MdsView};
use crate::mds::track::Track;
use vstd::prelude::*;

verus! {

/// The ISO image of the disc `mds`, if `payload` is what the payload file of
/// its data track holds: the data of the one data track of the one session,
/// or why there is none.
pub open spec fn spec_convert(mds: MdsView, payload: Seq<u8>) -> Result<Seq<u8>, Error> {
    match mds.single_track() {
        Ok(track) => spec_track_data(track, payload),
        Err(e) => Err(e),
    }
}

/// The ISO image of `track`: its data without subchannel data. `payload` is
/// what the payload file that the track names holds.
///
/// A track without sectors gives an empty image. The sectors of the track
/// must be long enough to hold their subchannel data.
pub fn track_to_iso(track: &Track, payload: &[u8]) -> (r: Result<Vec<u8>, Error>)
    requires
        track@.data_size() >= 0,
    ensures
        match r {
            Ok(iso) => spec_track_data(track@, payload@) == Ok::<Seq<u8>, Error>(iso@),
            Err(e) => spec_track_data(track@, payload@) == Err::<Seq<u8>, Error>(e),
        },
{
    let mut iso: Vec<u8> = Vec::new();
    append_track_data(track, payload, &mut iso)?;
    Ok(iso)
}

/// The ISO image of the disc `mds`. `payload` is what the payload file of
/// its data track holds.
///
/// An image that does not have exactly one session with exactly one data
/// track is refused, whatever the payload holds. The sectors of the data
/// track must be long enough to hold their subchannel data.
pub fn convert(mds: &Mds, payload: &[u8]) -> (r: Result<Vec<u8>, Error>)
    requires
        mds@.single_track() matches Ok(track) ==> track.data_size() >= 0,
    ensures
        match r {
            Ok(iso) => spec_convert(mds@, payload@) == Ok::<Seq<u8>, Error>(iso@),
            Err(e) => spec_convert(mds@, payload@) == Err::<Seq<u8>, Error>(e),
        },
        mds@.sessions.len() == 0 ==> r == Err::<Vec<u8>, Error>(Error::NoSessions),
        mds@.sessions.len() > 1 ==> r == Err::<Vec<u8>, Error>(Error::TooManySessions),
{
    let track = mds.single_track()?;
    track_to_iso(track, payload)
}

/// Converting the same disc and payload twice gives the same result: two
/// results that both are what [`convert`] promises are equal, byte for byte.
pub proof fn lemma_convert_is_deterministic(
    mds: MdsView,
    payload: Seq<u8>,
    first: Result<Seq<u8>, Error>,
    second: Result<Seq<u8>, Error>,
)
    requires
        first == spec_convert(mds, payload),
        second == spec_convert(mds, payload),
    ensures
        first == second,
{
}

} // verus!
