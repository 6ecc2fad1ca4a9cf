use mds_image::error::{Error, IoError};
use mds_image::mds::header::{MediaType, Version};
use mds_image::mds::track::TrackMode;
use mds_image::text::{push_decimal, push_two_digits};
use mds_image::util::{pluralize, set_extension};

fn decimal(n: u64) -> String {
    let mut s = String::new();
    push_decimal(&mut s, n);
    s
}

fn two_digits(n: i64) -> String {
    let mut s = String::new();
    push_two_digits(&mut s, n);
    s
}

#[test]
fn decimal_has_no_leading_zeros() {
    assert_eq!(decimal(0), "0");
    assert_eq!(decimal(7), "7");
    assert_eq!(decimal(10), "10");
    assert_eq!(decimal(2352), "2352");
    assert_eq!(decimal(u64::MAX), "18446744073709551615");
}

#[test]
fn decimal_is_appended_to_what_is_there() {
    let mut s = String::from("TRACK ");
    push_decimal(&mut s, 12);
    assert_eq!(s, "TRACK 12");
}

#[test]
fn two_digits_fill_with_a_zero() {
    assert_eq!(two_digits(0), "00");
    assert_eq!(two_digits(9), "09");
    assert_eq!(two_digits(10), "10");
    assert_eq!(two_digits(99), "99");
    assert_eq!(two_digits(100), "100");
}

#[test]
fn two_digits_count_the_sign_as_a_column() {
    assert_eq!(two_digits(-2), format!("{:02}", -2));
    assert_eq!(two_digits(-2), "-2");
    assert_eq!(two_digits(-12), "-12");
    assert_eq!(two_digits(i64::MIN), "-9223372036854775808");
}

#[test]
fn two_digits_agree_with_std_formatting() {
    for n in -120i64..=120 {
        assert_eq!(two_digits(n), format!("{n:02}"));
    }
}

#[test]
fn pluralize_leaves_one_alone() {
    assert_eq!(pluralize("byte", 1), "byte");
    assert_eq!(pluralize("session", 1), "session");
}

#[test]
fn pluralize_adds_an_s_to_other_counts() {
    assert_eq!(pluralize("byte", 0), "bytes");
    assert_eq!(pluralize("track", 2), "tracks");
    assert_eq!(pluralize("session", usize::MAX), "sessions");
}

#[test]
fn set_extension_replaces_the_extension() {
    assert_eq!(set_extension("disc.mds", "iso"), "disc.iso");
    assert_eq!(set_extension("images/disc.mds", "bin"), "images/disc.bin");
    assert_eq!(set_extension("disc", "cue"), "disc.cue");
    assert_eq!(set_extension("disc.tar.mds", "mdf"), "disc.tar.mdf");
}

#[test]
fn version_is_written_with_a_dot() {
    assert_eq!(Version { major: 1, minor: 5 }.to_string(), "1.5");
    assert_eq!(Version { major: 0, minor: 0 }.to_string(), "0.0");
    assert_eq!(Version { major: 255, minor: 10 }.to_string(), "255.10");
}

#[test]
fn media_types_have_their_names() {
    assert_eq!(MediaType::CdRom.to_string(), "CD-ROM");
    assert_eq!(MediaType::CdR.to_string(), "CD-R");
    assert_eq!(MediaType::CdRw.to_string(), "CD-RW");
    assert_eq!(MediaType::DvdRom.to_string(), "DVD");
    assert_eq!(MediaType::DvdR.to_string(), "DVD-R");
    assert_eq!(MediaType::Other(0x11).to_string(), "Other(17)");
}

#[test]
fn errors_have_their_messages() {
    assert_eq!(Error::Io(IoError::UnexpectedEof).to_string(), "failed to fill whole buffer");
    assert_eq!(Error::MissingInputFile.to_string(), "No input file provided to read data from");
    assert_eq!(
        Error::MultiTrackNotSupported.to_string(),
        "Multi track conversion not yet supported"
    );
    assert_eq!(Error::NoDataTracks.to_string(), "There are no data tracks in this mdf");
    assert_eq!(Error::NoSessions.to_string(), "There are no sessions in the image");
    assert_eq!(Error::ParseError.to_string(), "Error parsing mds file");
    assert_eq!(Error::TooManySessions.to_string(), "Cannot convert multi-session images");
}

#[test]
fn unknown_track_size_names_mode_and_size() {
    assert_eq!(
        Error::UnknownCueTrackSize(TrackMode::Mode2Form1, 2048).to_string(),
        "Unusual track type: Mode2Form1 @ 2048"
    );
    assert_eq!(
        Error::UnknownCueTrackSize(TrackMode::NoMode, 0).to_string(),
        "Unusual track type: None @ 0"
    );
    assert_eq!(
        Error::UnknownCueTrackSize(TrackMode::Unknown(0xEE), 2352).to_string(),
        "Unusual track type: Unknown(238) @ 2352"
    );
}
