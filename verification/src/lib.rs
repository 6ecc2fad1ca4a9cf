//! Decoding of `.mds` disc-image descriptors and their conversion to ISO and
//! CUE/BIN images.
//!
//! An `.mds` file describes how the sessions and tracks of a CD or DVD image
//! map onto one or more payload files of raw sectors. [`mds::Mds::from_bytes`]
//! decodes a descriptor into a disc model; the functions under [`convert`]
//! turn a model and its payload into the bytes of the derived formats.

pub mod convert;
pub mod error;
pub mod mds;
pub mod text;
pub mod timecode;
pub mod util;
