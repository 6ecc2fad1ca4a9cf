//! The failures that decoding and conversion report.

use crate::mds::track::TrackMode;
use crate::text::{decimal, push_decimal};
use vstd::prelude::*;

verus! {

/// A failed read of payload data.
#[derive(Clone, Copy, Debug, PartialEq, Eq, Structural)]
pub enum IoError {
    /// The payload ended before the sectors that a track declares.
    UnexpectedEof,
}

/// Why a descriptor could not be decoded or an image could not be converted.
#[derive(Clone, Copy, Debug, PartialEq, Eq, Structural)]
pub enum Error {
    /// Payload data could not be read.
    Io(IoError),
    /// A track names no payload file.
    MissingInputFile,
    /// The session holds more than one data track, which an ISO cannot.
    MultiTrackNotSupported,
    /// The session holds no data track.
    NoDataTracks,
    /// The image holds no session.
    NoSessions,
    /// The descriptor is malformed.
    ParseError,
    /// The image holds more than one session.
    TooManySessions,
    /// A cue sheet has no name for a track of this mode with this many data
    /// bytes per sector.
    UnknownCueTrackSize(TrackMode, usize),
}

impl Error {
    /// The text of [`Error::to_string`].
    pub open spec fn spec_message(self) -> Seq<char> {
        match self {
            Error::Io(IoError::UnexpectedEof) => "failed to fill whole buffer"@,
            Error::MissingInputFile => "No input file provided to read data from"@,
            Error::MultiTrackNotSupported => "Multi track conversion not yet supported"@,
            Error::NoDataTracks => "There are no data tracks in this mdf"@,
            Error::NoSessions => "There are no sessions in the image"@,
            Error::ParseError => "Error parsing mds file"@,
            Error::TooManySessions => "Cannot convert multi-session images"@,
            Error::UnknownCueTrackSize(mode, data_size) => "Unusual track type: "@
                + mode.spec_debug() + " @ "@ + decimal(data_size as nat),
        }
    }

    /// A sentence for the user that says what went wrong.
    pub fn to_string(&self) -> (r: String)
        ensures
            r@ == self.spec_message(),
    {
        match self {
            Error::Io(IoError::UnexpectedEof) => String::from_str("failed to fill whole buffer"),
            Error::MissingInputFile => String::from_str(
                "No input file provided to read data from",
            ),
            Error::MultiTrackNotSupported => String::from_str(
                "Multi track conversion not yet supported",
            ),
            Error::NoDataTracks => String::from_str("There are no data tracks in this mdf"),
            Error::NoSessions => String::from_str("There are no sessions in the image"),
            Error::ParseError => String::from_str("Error parsing mds file"),
            Error::TooManySessions => String::from_str("Cannot convert multi-session images"),
            Error::UnknownCueTrackSize(mode, data_size) => {
                let mut s = String::from_str("Unusual track type: ");
                mode.push_debug(&mut s);
                s.append(" @ ");
                push_decimal(&mut s, *data_size as u64);
                s
            },
        }
    }
}

} // verus!
