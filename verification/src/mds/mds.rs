//! The disc model: the header of a descriptor with its sessions and tracks.

use super::bytes::{lemma_len_fits, Bytes, Res};
use super::header::{
    has_signature, header, spec_header, Header, MediaType, Version, HEADER_SIZE,
};
use super::session::{session, spec_session, Session, SessionView, SESSION_SIZE};
use super::track::{Track, TrackView};
use crate::error::Error;
use vstd::prelude::*;

verus! {

/// A decoded descriptor. It is made by [`Mds::from_bytes`] and never changed.
#[derive(Debug)]
pub struct Mds {
    header: Header,
    num_bytes: usize,
    sessions: Vec<Session>,
}

/// A disc model as a mathematical value.
pub struct MdsView {
    pub header: Header,
    /// The length of the descriptor that the model was decoded from.
    pub num_bytes: nat,
    /// The sessions, in the order of the session table.
    pub sessions: Seq<SessionView>,
}

impl View for Mds {
    type V = MdsView;

    closed spec fn view(&self) -> MdsView {
        MdsView {
            header: self.header,
            num_bytes: self.num_bytes as nat,
            sessions: Seq::new(self.sessions@.len(), |i: int| self.sessions@[i]@),
        }
    }
}

impl MdsView {
    /// The one session of the image, or why there is not exactly one.
    pub open spec fn single_session(self) -> Result<SessionView, Error> {
        if self.sessions.len() == 0 {
            Err(Error::NoSessions)
        } else if self.sessions.len() > 1 {
            Err(Error::TooManySessions)
        } else {
            Ok(self.sessions[0])
        }
    }

    /// The one data track of the one session of the image, or why there is
    /// not exactly one.
    pub open spec fn single_track(self) -> Result<TrackView, Error> {
        match self.single_session() {
            Ok(session) => if session.data_tracks().len() == 0 {
                Err(Error::NoDataTracks)
            } else if session.data_tracks().len() > 1 {
                Err(Error::MultiTrackNotSupported)
            } else {
                Ok(session.data_tracks()[0])
            },
            Err(e) => Err(e),
        }
    }
}

/// The session that record `i` of the session table at offset `table` of
/// `buf` describes: the records are `0x18` bytes apart.
pub open spec fn spec_session_entry(buf: Seq<u8>, table: int, i: int) -> Option<SessionView> {
    spec_session(buf, table + i * SESSION_SIZE)
}

/// The disc model that the descriptor `buf` describes.
///
/// There is one if the header can be decoded and every record of the session
/// table can be decoded with its tracks. The table has as many records as the
/// header says, from the offset that the header gives.
pub open spec fn spec_mds(buf: Seq<u8>) -> Option<MdsView> {
    match spec_header(buf) {
        Some(header) => if forall|i: int|
            0 <= i < header.num_sessions ==> spec_session_entry(
                buf,
                header.session_offset as int,
                i,
            ) is Some {
            Some(
                MdsView {
                    header,
                    num_bytes: buf.len(),
                    sessions: Seq::new(
                        header.num_sessions as nat,
                        |i: int| spec_session_entry(buf, header.session_offset as int, i)->Some_0,
                    ),
                },
            )
        } else {
            None
        },
        None => None,
    }
}

/// The bytes that follow what [`mds`] decodes one after the other: the last
/// record of the session table, or the header if the table is empty.
pub open spec fn spec_mds_rest(buf: Seq<u8>) -> Seq<u8> {
    match spec_header(buf) {
        Some(header) => if header.num_sessions == 0 {
            buf.skip(HEADER_SIZE as int)
        } else {
            buf.skip(header.session_offset + header.num_sessions * SESSION_SIZE)
        },
        None => buf,
    }
}

impl Mds {
    /// The sessions of the image, in the order of the session table.
    pub fn sessions(&self) -> (r: &Vec<Session>)
        ensures
            r@.len() == self@.sessions.len(),
            forall|i: int| 0 <= i < r@.len() ==> (#[trigger] r@[i])@ == self@.sessions[i],
    {
        &self.sessions
    }

    /// The one session of the image. An image without a session, or with more
    /// than one, has none.
    pub fn single_session(&self) -> (r: Result<&Session, Error>)
        ensures
            match r {
                Ok(session) => self@.single_session() == Ok::<SessionView, Error>(session@),
                Err(e) => self@.single_session() == Err::<SessionView, Error>(e),
            },
    {
        if self.sessions.len() == 0 {
            return Err(Error::NoSessions);
        }
        if self.sessions.len() > 1 {
            return Err(Error::TooManySessions);
        }
        Ok(&self.sessions[0])
    }

    /// The one data track of the one session of the image.
    pub fn single_track(&self) -> (r: Result<&Track, Error>)
        ensures
            match r {
                Ok(track) => self@.single_track() == Ok::<TrackView, Error>(track@),
                Err(e) => self@.single_track() == Err::<TrackView, Error>(e),
            },
    {
        let session = self.single_session()?;
        let tracks = session.data_tracks();
        if tracks.len() == 0 {
            return Err(Error::NoDataTracks);
        }
        if tracks.len() > 1 {
            return Err(Error::MultiTrackNotSupported);
        }
        Ok(tracks[0])
    }

    /// The version of the format that the descriptor is written in.
    pub fn version(&self) -> (r: Version)
        ensures
            r == self@.header.version,
    {
        self.header.version
    }

    /// The kind of disc that the image was taken from.
    pub fn media_type(&self) -> (r: MediaType)
        ensures
            r == self@.header.media_type,
    {
        self.header.media_type
    }

    /// Decodes a descriptor. Either all of it is decoded, or nothing: any
    /// record that cannot be decoded makes the whole fail.
    pub fn from_bytes(bytes: &[u8]) -> (r: Result<Mds, Error>)
        ensures
            match r {
                Ok(mds) => spec_mds(bytes@) == Some(mds@),
                Err(e) => spec_mds(bytes@) is None && e == Error::ParseError,
            },
            bytes@.len() < HEADER_SIZE ==> r == Err::<Mds, Error>(Error::ParseError),
            !has_signature(bytes@) ==> r == Err::<Mds, Error>(Error::ParseError),
    {
        match mds(bytes) {
            Ok((_, mds)) => Ok(mds),
            Err(e) => Err(e),
        }
    }

    /// The length of the descriptor that the model was decoded from.
    pub fn byte_len(&self) -> (r: usize)
        ensures
            r == self@.num_bytes,
    {
        self.num_bytes
    }
}

/// Decodes a descriptor: the header, then the records of the session table
/// with their tracks. Returns the disc model with the bytes that follow the
/// last record decoded.
pub fn mds(input: Bytes) -> (r: Res<Mds>)
    ensures
        match r {
            Ok((rest, mds)) => spec_mds(input@) == Some(mds@) && rest@ == spec_mds_rest(input@),
            Err(e) => spec_mds(input@) is None && e == Error::ParseError,
        },
{
    let (mut rest, header) = header(input)?;
    let num_sessions = header.num_sessions;
    let num_bytes = input.len();

    let ghost table = header.session_offset as int;
    let mut sessions: Vec<Session> = Vec::new();
    let mut i: u16 = 0;
    while i < num_sessions
        invariant
            i <= num_sessions,
            num_sessions == header.num_sessions,
            table == header.session_offset,
            spec_header(input@) == Some(header),
            sessions@.len() == i,
            forall|k: int|
                0 <= k < i ==> #[trigger] spec_session_entry(input@, table, k) == Some(
                    sessions@[k]@,
                ),
            i == 0 ==> rest@ == input@.skip(HEADER_SIZE as int),
            i > 0 ==> rest@ == input@.skip(table + i * SESSION_SIZE),
        decreases num_sessions - i,
    {
        let session_offset: u64 = header.session_offset as u64 + SESSION_SIZE as u64 * (i as u64);
        if session_offset > usize::MAX as u64 {
            proof {
                lemma_len_fits(input);
            }
            return Err(Error::ParseError);
        }
        let (after, session) = session(input, session_offset as usize)?;
        assert(spec_session_entry(input@, table, i as int) == Some(session@));
        rest = after;
        sessions.push(session);
        i += 1;
    }

    let mds = Mds { num_bytes, header, sessions };
    proof {
        assert(mds@.sessions =~= spec_mds(input@)->Some_0.sessions);
    }
    Ok((rest, mds))
}

} // verus!
