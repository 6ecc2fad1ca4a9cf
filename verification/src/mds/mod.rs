//! The `.mds` descriptor: its records and the disc model decoded from them.
//!
//! All numbers in a descriptor are little-endian. Records refer to each other
//! by absolute offsets from the start of the file; an offset of zero stands
//! for a record that is absent.

pub mod bytes;
pub mod filename;
pub mod header;
pub mod index;
pub mod mds;
pub mod session;
pub mod track;

pub use header::{header, Header, MediaType, Version};
pub use mds::{Mds, MdsView};
pub use session::{session, Session, SessionView};
pub use track::{SubChannels, Track, TrackMode, TrackView};
