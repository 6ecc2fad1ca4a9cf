use mds_image::convert::cue_bin;
use mds_image::convert::cue_bin::{bin_file_name, cue_address, cue_media_type, mds_to_bin, mds_to_cue};
use mds_image::convert::iso;
use mds_image::convert::iso::track_to_iso;
use mds_image::error::{Error, IoError};
use mds_image::mds::index::IndexBlock;
use mds_image::mds::track::{SubChannels, Track, TrackMode};
use mds_image::mds::Mds;
use mds_image::timecode::Timecode;

struct TrackSpec {
    mode: u8,
    subchannels: u8,
    adr: u8,
    track_number: u8,
    point: u8,
    msf: (u8, u8, u8),
    index: Option<(u32, u32)>,
    sector_size: u16,
    start_sector: i32,
    start_offset: u64,
    name: Option<(u8, Vec<u8>)>,
}

fn data_track(point: u8) -> TrackSpec {
    TrackSpec {
        mode: 0xAA,
        subchannels: 0x00,
        adr: 0x14,
        track_number: 0,
        point,
        msf: (0, 2, 0),
        index: Some((150, 1000)),
        sector_size: 0x930,
        start_sector: 0,
        start_offset: 0,
        name: Some((0, b"*.mdf".to_vec())),
    }
}

fn lead_marker(point: u8) -> TrackSpec {
    TrackSpec {
        mode: 0x00,
        subchannels: 0x00,
        adr: 0x14,
        track_number: 0,
        point,
        msf: (0, 0, 0),
        index: None,
        sector_size: 0,
        start_sector: 0,
        start_offset: 0,
        name: None,
    }
}

fn header_bytes(media_type: u16, num_sessions: u16, session_offset: u32) -> Vec<u8> {
    let mut out = b"MEDIA DESCRIPTOR".to_vec();
    out.push(1);
    out.push(5);
    out.extend_from_slice(&media_type.to_le_bytes());
    out.extend_from_slice(&num_sessions.to_le_bytes());
    out.extend_from_slice(&[0u8; 0x3A]);
    out.extend_from_slice(&session_offset.to_le_bytes());
    out.extend_from_slice(&[0u8; 4]);
    assert_eq!(out.len(), 0x58);
    out
}

fn session_bytes(start: i32, end: i32, number: u16, count: u8, table: u32) -> Vec<u8> {
    let mut out = Vec::new();
    out.extend_from_slice(&start.to_le_bytes());
    out.extend_from_slice(&end.to_le_bytes());
    out.extend_from_slice(&number.to_le_bytes());
    out.push(count);
    out.push(3);
    out.extend_from_slice(&1u16.to_le_bytes());
    out.extend_from_slice(&7u16.to_le_bytes());
    out.extend_from_slice(&[0u8; 4]);
    out.extend_from_slice(&table.to_le_bytes());
    assert_eq!(out.len(), 0x18);
    out
}

fn track_bytes(spec: &TrackSpec, index_offset: u32, name_offset: u32) -> Vec<u8> {
    let mut out = vec![spec.mode, spec.subchannels, spec.adr, spec.track_number, spec.point];
    out.extend_from_slice(&[0u8; 4]);
    out.extend_from_slice(&[spec.msf.0, spec.msf.1, spec.msf.2]);
    out.extend_from_slice(&index_offset.to_le_bytes());
    out.extend_from_slice(&spec.sector_size.to_le_bytes());
    out.extend_from_slice(&[0u8; 0x12]);
    out.extend_from_slice(&spec.start_sector.to_le_bytes());
    out.extend_from_slice(&spec.start_offset.to_le_bytes());
    out.extend_from_slice(&1u32.to_le_bytes());
    out.extend_from_slice(&name_offset.to_le_bytes());
    out.extend_from_slice(&[0u8; 0x18]);
    assert_eq!(out.len(), 0x50);
    out
}

/// A descriptor with the given sessions: the header, the session table, the
/// track tables, and then the index blocks, filename blocks and names.
fn image(sessions: &[(i32, i32, Vec<TrackSpec>)]) -> Vec<u8> {
    let tracks_total: usize = sessions.iter().map(|s| s.2.len()).sum();
    let table_start = 0x58 + 0x18 * sessions.len();
    let mut extra_offset = table_start + 0x50 * tracks_total;
    let mut out = header_bytes(0x00, sessions.len() as u16, 0x58);
    let mut table_offset = table_start;
    for (i, (start, end, tracks)) in sessions.iter().enumerate() {
        out.extend(session_bytes(*start, *end, i as u16 + 1, tracks.len() as u8, table_offset as u32));
        table_offset += 0x50 * tracks.len();
    }
    let mut extras: Vec<u8> = Vec::new();
    for (_, _, tracks) in sessions {
        for spec in tracks {
            let mut index_offset = 0u32;
            let mut name_offset = 0u32;
            if let Some((index0, index1)) = spec.index {
                index_offset = (extra_offset + extras.len()) as u32;
                extras.extend_from_slice(&index0.to_le_bytes());
                extras.extend_from_slice(&index1.to_le_bytes());
            }
            if let Some((format, name)) = &spec.name {
                name_offset = (extra_offset + extras.len()) as u32;
                let text_offset = name_offset + 16;
                extras.extend_from_slice(&text_offset.to_le_bytes());
                extras.push(*format);
                extras.extend_from_slice(&[0u8; 11]);
                extras.extend_from_slice(name);
                extras.push(0);
            }
            out.extend(track_bytes(spec, index_offset, name_offset));
        }
    }
    extra_offset += 0;
    assert_eq!(out.len(), extra_offset);
    out.extend(extras);
    out
}

fn usual_disc() -> Vec<u8> {
    image(&[(
        -150,
        1000,
        vec![lead_marker(0xA0), lead_marker(0xA1), lead_marker(0xA2), data_track(1)],
    )])
}


fn plain_track(mode: TrackMode, num_subchannels: SubChannels, sector_size: u16) -> Track {
    Track {
        mode,
        num_subchannels,
        adr: 0x14,
        track_number: 0,
        point: 1,
        minute: 0,
        second: 2,
        frame: 0,
        index: Some(IndexBlock { index0_sectors: 0, index1_sectors: 0 }),
        sector_size,
        track_start_sector: 0,
        track_start_offset: 0,
        num_filenames: 1,
        filename: Some("*.mdf".to_string()),
    }
}

/// A payload of `count` sectors of `sector_size` bytes: sector `i` holds the
/// byte `i` in its data and `0xEE` in its last `subchannel_size` bytes.
fn payload(count: usize, sector_size: usize, subchannel_size: usize) -> Vec<u8> {
    let mut out = Vec::new();
    for i in 0..count {
        out.extend(std::iter::repeat(i as u8).take(sector_size - subchannel_size));
        out.extend(std::iter::repeat(0xEEu8).take(subchannel_size));
    }
    out
}

#[test]
fn cue_names_the_known_kinds_of_track() {
    let cases = [
        (TrackMode::Audio, 0x930u16, "AUDIO"),
        (TrackMode::Mode1, 0x800, "MODE1/2048"),
        (TrackMode::Mode1, 0x930, "MODE1/2352"),
        (TrackMode::Mode2, 0x920, "MODE2/2336"),
        (TrackMode::Mode2, 0x930, "MODE2/2352"),
    ];
    for (mode, data_size, name) in cases {
        let plain = plain_track(mode, SubChannels::Absent, data_size);
        assert_eq!(cue_media_type(&plain), Ok(name));
        let with_subchannels = plain_track(mode, SubChannels::Eight, data_size + 0x60);
        assert_eq!(cue_media_type(&with_subchannels), Ok(name));
    }
}

#[test]
fn cue_refuses_every_other_kind_of_track() {
    let modes = [
        TrackMode::NoMode,
        TrackMode::Audio,
        TrackMode::Mode1,
        TrackMode::Mode2,
        TrackMode::Mode2Form1,
        TrackMode::Mode2Form2,
        TrackMode::Unknown(0x55),
    ];
    let known = [
        (TrackMode::Audio, 0x930usize),
        (TrackMode::Mode1, 0x800),
        (TrackMode::Mode1, 0x930),
        (TrackMode::Mode2, 0x920),
        (TrackMode::Mode2, 0x930),
    ];
    for mode in modes {
        for data_size in [0usize, 1, 0x7FF, 0x800, 0x801, 0x920, 0x92F, 0x930, 0x931, 0x990, 0xFFFF] {
            if known.contains(&(mode, data_size)) {
                continue;
            }
            let track = plain_track(mode, SubChannels::Absent, data_size as u16);
            assert_eq!(cue_media_type(&track), Err(Error::UnknownCueTrackSize(mode, data_size)));
        }
    }
}

#[test]
fn cue_goes_by_the_data_size_not_the_sector_size() {
    let track = plain_track(TrackMode::Mode1, SubChannels::Eight, 0x930);
    assert_eq!(
        cue_media_type(&track),
        Err(Error::UnknownCueTrackSize(TrackMode::Mode1, 0x930 - 0x60))
    );
    let track = plain_track(TrackMode::Mode1, SubChannels::Eight, 0x860);
    assert_eq!(cue_media_type(&track), Ok("MODE1/2048"));
}

#[test]
fn first_track_of_a_pregap_disc_is_indexed_at_zero() {
    let track = plain_track(TrackMode::Mode1, SubChannels::Absent, 0x930);
    assert_eq!(cue_address(&track, Timecode(-150)), "00:00:00");
    assert_eq!(cue_address(&track, Timecode::from_msf(0, -2, 0)), "00:00:00");
}

#[test]
fn index_is_the_start_of_the_track_plus_the_correction() {
    let mut track = plain_track(TrackMode::Audio, SubChannels::Absent, 0x930);
    track.minute = 12;
    track.second = 34;
    track.frame = 56;
    assert_eq!(cue_address(&track, Timecode(0)), "12:34:56");
    assert_eq!(cue_address(&track, Timecode(-150)), "12:32:56");
    assert_eq!(cue_address(&track, Timecode(19)), "12:35:00");
    assert_eq!(cue_address(&track, Timecode::from_msf(90, 0, 0)), "102:34:56");
}

#[test]
fn index_before_the_start_of_the_sheet_is_written_with_its_sign() {
    let mut track = plain_track(TrackMode::Audio, SubChannels::Absent, 0x930);
    track.minute = 0;
    track.second = 0;
    track.frame = 0;
    assert_eq!(cue_address(&track, Timecode(-150)), "00:-2:00");
    assert_eq!(cue_address(&track, Timecode(0)), "00:00:00");
}

#[test]
fn index_is_written_for_any_correction() {
    let mut track = plain_track(TrackMode::Audio, SubChannels::Absent, 0x930);
    track.minute = 255;
    track.second = 255;
    track.frame = 255;
    assert_eq!(cue_address(&track, Timecode(i32::MAX)), "477477:53:52");
    assert_eq!(cue_address(&track, Timecode(i32::MIN)), "-476959:-16:-68");
}

#[test]
fn cue_sheet_lists_the_data_tracks() {
    let mut audio = data_track(2);
    audio.mode = 0xA9;
    audio.msf = (5, 10, 20);
    let mut with_subchannels = data_track(3);
    with_subchannels.mode = 0xAB;
    with_subchannels.subchannels = 0x08;
    with_subchannels.sector_size = 0x980;
    with_subchannels.msf = (61, 0, 74);
    let bytes = image(&[(
        -150,
        0,
        vec![lead_marker(0xA0), data_track(1), lead_marker(0xA1), audio, with_subchannels],
    )]);
    let model = Mds::from_bytes(&bytes).unwrap();
    assert_eq!(
        mds_to_cue(&model, "disc.bin").unwrap(),
        "FILE \"disc.bin\" BINARY\n\
         \x20 TRACK 1 MODE1/2352\n\
         \x20   INDEX 01 00:00:00\n\
         \x20 TRACK 2 AUDIO\n\
         \x20   INDEX 01 05:08:20\n\
         \x20 TRACK 3 MODE2/2336\n\
         \x20   INDEX 01 60:58:74\n"
    );
}

#[test]
fn cue_sheet_without_pregap_keeps_the_positions() {
    let mut first = data_track(1);
    first.msf = (0, 0, 0);
    let bytes = image(&[(0, 0, vec![first])]);
    let model = Mds::from_bytes(&bytes).unwrap();
    assert_eq!(
        mds_to_cue(&model, "a b.bin").unwrap(),
        "FILE \"a b.bin\" BINARY\n  TRACK 1 MODE1/2352\n    INDEX 01 00:00:00\n"
    );
}

#[test]
fn cue_sheet_of_a_session_without_data_tracks_names_the_image_only() {
    let bytes = image(&[(-150, 0, vec![lead_marker(0xA0)])]);
    let model = Mds::from_bytes(&bytes).unwrap();
    assert_eq!(mds_to_cue(&model, "disc.bin").unwrap(), "FILE \"disc.bin\" BINARY\n");
}

#[test]
fn cue_sheet_numbers_tracks_past_nine_without_padding() {
    let tracks: Vec<TrackSpec> = (1..=11).map(data_track).collect();
    let bytes = image(&[(-150, 0, tracks)]);
    let model = Mds::from_bytes(&bytes).unwrap();
    let sheet = mds_to_cue(&model, "disc.bin").unwrap();
    assert!(sheet.contains("  TRACK 9 MODE1/2352\n"));
    assert!(sheet.contains("  TRACK 10 MODE1/2352\n"));
    assert!(sheet.ends_with("  TRACK 11 MODE1/2352\n    INDEX 01 00:00:00\n"));
    assert_eq!(sheet.lines().count(), 1 + 2 * 11);
}

#[test]
fn cue_sheet_fails_on_the_first_track_without_a_name() {
    let mut odd = data_track(2);
    odd.mode = 0xAC;
    odd.sector_size = 0x800;
    let mut odder = data_track(3);
    odder.mode = 0xAD;
    odder.sector_size = 0x914;
    let bytes = image(&[(-150, 0, vec![data_track(1), odd, odder])]);
    let model = Mds::from_bytes(&bytes).unwrap();
    assert_eq!(
        mds_to_cue(&model, "disc.bin"),
        Err(Error::UnknownCueTrackSize(TrackMode::Mode2Form1, 0x800))
    );
}

#[test]
fn cue_sheet_needs_exactly_one_session() {
    let none = Mds::from_bytes(&image(&[])).unwrap();
    assert_eq!(mds_to_cue(&none, "disc.bin"), Err(Error::NoSessions));
    let two = Mds::from_bytes(&image(&[(-150, 0, vec![data_track(1)]), (0, 0, vec![])])).unwrap();
    assert_eq!(mds_to_cue(&two, "disc.bin"), Err(Error::TooManySessions));
    assert_eq!(mds_to_bin(&two, &vec![]), Err(Error::TooManySessions));
    assert_eq!(mds_to_bin(&none, &vec![]), Err(Error::NoSessions));
    assert_eq!(cue_bin::convert(&two, "disc.bin", &vec![]).err(), Some(Error::TooManySessions));
    assert_eq!(cue_bin::convert(&none, "disc.bin", &vec![]).err(), Some(Error::NoSessions));
}

#[test]
fn bin_image_is_named_after_the_descriptor() {
    assert_eq!(bin_file_name("images/disc.mds"), Some("disc.bin".to_string()));
    assert_eq!(bin_file_name("disc.mds"), Some("disc.bin".to_string()));
    assert_eq!(bin_file_name("/a/b/c"), Some("c.bin".to_string()));
    assert_eq!(bin_file_name(""), None);
    assert_eq!(bin_file_name("/"), None);
    assert_eq!(bin_file_name(".."), None);
}

#[test]
fn iso_drops_the_subchannel_data() {
    let mut track = plain_track(TrackMode::Mode1, SubChannels::Eight, 0x860);
    track.index = Some(IndexBlock { index0_sectors: 0, index1_sectors: 3 });
    let sectors = payload(3, 0x860, 0x60);
    let iso = track_to_iso(&track, &sectors).unwrap();
    assert_eq!(iso, payload(3, 0x800, 0));
    assert!(!iso.contains(&0xEE));
}

#[test]
fn iso_of_plain_sectors_is_the_payload() {
    let mut track = plain_track(TrackMode::Mode1, SubChannels::Absent, 0x800);
    track.index = Some(IndexBlock { index0_sectors: 0, index1_sectors: 4 });
    let sectors = payload(4, 0x800, 0);
    assert_eq!(track_to_iso(&track, &sectors).unwrap(), sectors);
}

#[test]
fn sectors_written_are_those_the_index_block_counts() {
    for count in [0u32, 1, 2, 7] {
        let mut track = plain_track(TrackMode::Mode1, SubChannels::Eight, 0x70);
        track.index = Some(IndexBlock { index0_sectors: 99, index1_sectors: count });
        let sectors = payload(9, 0x70, 0x60);
        let iso = track_to_iso(&track, &sectors).unwrap();
        assert_eq!(iso.len(), count as usize * 0x10);
        assert_eq!(iso, payload(count as usize, 0x10, 0));
    }
}

#[test]
fn track_without_index_block_gives_an_empty_iso() {
    let mut track = plain_track(TrackMode::Mode1, SubChannels::Absent, 0x800);
    track.index = None;
    assert_eq!(track_to_iso(&track, &payload(2, 0x800, 0)), Ok(vec![]));
    assert_eq!(track_to_iso(&track, &[]), Ok(vec![]));
}

#[test]
fn track_without_sectors_gives_an_empty_iso_wherever_it_starts() {
    let mut track = plain_track(TrackMode::Mode1, SubChannels::Absent, 0x800);
    track.track_start_offset = u64::MAX;
    assert_eq!(track_to_iso(&track, &[]), Ok(vec![]));
    track.index = Some(IndexBlock { index0_sectors: 0, index1_sectors: 5 });
    track.sector_size = 0;
    assert_eq!(track_to_iso(&track, &[]), Ok(vec![]));
}

#[test]
fn iso_starts_at_the_start_offset_of_the_track() {
    let mut track = plain_track(TrackMode::Mode1, SubChannels::Eight, 0x68);
    track.index = Some(IndexBlock { index0_sectors: 0, index1_sectors: 2 });
    track.track_start_offset = 5;
    let mut file = vec![0xAAu8; 5];
    file.extend(payload(2, 0x68, 0x60));
    file.extend(vec![0xBBu8; 3]);
    assert_eq!(track_to_iso(&track, &file).unwrap(), payload(2, 8, 0));
}

#[test]
fn short_payload_is_an_unexpected_end_of_file() {
    let mut track = plain_track(TrackMode::Mode1, SubChannels::Eight, 0x860);
    track.index = Some(IndexBlock { index0_sectors: 0, index1_sectors: 3 });
    let sectors = payload(3, 0x860, 0x60);
    assert!(track_to_iso(&track, &sectors).is_ok());
    let short = &sectors[..sectors.len() - 1];
    assert_eq!(track_to_iso(&track, short), Err(Error::Io(IoError::UnexpectedEof)));
    assert_eq!(track_to_iso(&track, &[]), Err(Error::Io(IoError::UnexpectedEof)));
    track.track_start_offset = 1;
    assert_eq!(track_to_iso(&track, &sectors), Err(Error::Io(IoError::UnexpectedEof)));
    track.track_start_offset = u64::MAX;
    assert_eq!(track_to_iso(&track, &sectors), Err(Error::Io(IoError::UnexpectedEof)));
}

#[test]
fn track_without_file_name_is_missing_its_input() {
    let mut track = plain_track(TrackMode::Mode1, SubChannels::Absent, 0x800);
    track.index = Some(IndexBlock { index0_sectors: 0, index1_sectors: 1 });
    track.filename = None;
    assert_eq!(track_to_iso(&track, &payload(1, 0x800, 0)), Err(Error::MissingInputFile));
    assert_eq!(track_to_iso(&track, &[]), Err(Error::MissingInputFile));
}

#[test]
fn iso_of_a_disc_is_the_data_of_its_track() {
    let mut spec = data_track(1);
    spec.subchannels = 0x08;
    spec.sector_size = 0x990;
    spec.index = Some((150, 2));
    let bytes = image(&[(-150, 0, vec![lead_marker(0xA0), spec, lead_marker(0xA2)])]);
    let model = Mds::from_bytes(&bytes).unwrap();
    let sectors = payload(2, 0x990, 0x60);
    assert_eq!(iso::convert(&model, &sectors).unwrap(), payload(2, 0x930, 0));
}

#[test]
fn iso_of_two_sessions_is_refused() {
    let bytes = image(&[(-150, 0, vec![data_track(1)]), (1000, 0, vec![data_track(2)])]);
    let model = Mds::from_bytes(&bytes).unwrap();
    assert_eq!(model.sessions().len(), 2);
    assert_eq!(iso::convert(&model, &payload(1000, 0x930, 0)), Err(Error::TooManySessions));
    assert_eq!(iso::convert(&model, &[]), Err(Error::TooManySessions));
}

#[test]
fn iso_needs_exactly_one_data_track() {
    let none = Mds::from_bytes(&image(&[])).unwrap();
    assert_eq!(iso::convert(&none, &[]), Err(Error::NoSessions));
    let markers = Mds::from_bytes(&image(&[(0, 0, vec![lead_marker(0xA0)])])).unwrap();
    assert_eq!(iso::convert(&markers, &[]), Err(Error::NoDataTracks));
    let two = Mds::from_bytes(&image(&[(0, 0, vec![data_track(1), data_track(2)])])).unwrap();
    assert_eq!(iso::convert(&two, &[]), Err(Error::MultiTrackNotSupported));
}

#[test]
fn converting_twice_gives_the_same_bytes() {
    let mut spec = data_track(1);
    spec.subchannels = 0x08;
    spec.sector_size = 0x990;
    spec.index = Some((150, 3));
    let bytes = image(&[(-150, 0, vec![spec, data_track(2)])]);
    let sectors = payload(3, 0x990, 0x60);
    let more = payload(1000, 0x930, 0);
    let first = Mds::from_bytes(&bytes).unwrap();
    let second = Mds::from_bytes(&bytes).unwrap();
    let given: Vec<&[u8]> = vec![&sectors, &more];
    assert_eq!(mds_to_bin(&first, &given), mds_to_bin(&second, &given));
    assert_eq!(mds_to_cue(&first, "disc.bin"), mds_to_cue(&second, "disc.bin"));
    assert_eq!(mds_to_bin(&first, &given), mds_to_bin(&first, &given));
    let single = Mds::from_bytes(&image(&[(-150, 0, vec![data_track(1)])])).unwrap();
    assert_eq!(iso::convert(&single, &more), iso::convert(&single, &more));
}

#[test]
fn bin_holds_the_tracks_one_after_the_other() {
    let mut first = data_track(1);
    first.subchannels = 0x08;
    first.sector_size = 0x64;
    first.index = Some((0, 2));
    let mut second = data_track(2);
    second.mode = 0xA9;
    second.sector_size = 3;
    second.index = Some((0, 3));
    second.start_offset = 2 * 0x64;
    second.name = Some((0, b"audio.bin".to_vec()));
    let bytes = image(&[(-150, 0, vec![lead_marker(0xA0), first, lead_marker(0xA1), second])]);
    let model = Mds::from_bytes(&bytes).unwrap();

    let mut file = payload(2, 0x64, 0x60);
    file.extend_from_slice(&[1, 2, 3, 4, 5, 6, 7, 8, 9]);
    let given: Vec<&[u8]> = vec![&file, &file];
    assert_eq!(
        mds_to_bin(&model, &given).unwrap(),
        vec![0, 0, 0, 0, 1, 1, 1, 1, 1, 2, 3, 4, 5, 6, 7, 8, 9]
    );
}

#[test]
fn bin_takes_each_track_from_its_own_payload() {
    let mut first = data_track(1);
    first.sector_size = 2;
    first.index = Some((0, 1));
    let mut second = data_track(2);
    second.sector_size = 2;
    second.index = Some((0, 2));
    let bytes = image(&[(0, 0, vec![first, second])]);
    let model = Mds::from_bytes(&bytes).unwrap();
    let one = [0x11u8, 0x12, 0x13];
    let two = [0x21u8, 0x22, 0x23, 0x24];
    let given: Vec<&[u8]> = vec![&one, &two];
    assert_eq!(mds_to_bin(&model, &given).unwrap(), vec![0x11, 0x12, 0x21, 0x22, 0x23, 0x24]);
}

#[test]
fn cue_and_bin_are_made_together() {
    let mut first = data_track(1);
    first.index = Some((0, 1));
    let mut second = data_track(2);
    second.mode = 0xA9;
    second.index = Some((0, 2));
    second.msf = (0, 2, 1);
    let bytes = image(&[(-150, 0, vec![first, second])]);
    let model = Mds::from_bytes(&bytes).unwrap();
    let one = payload(1, 0x930, 0);
    let two = payload(2, 0x930, 0);
    let given: Vec<&[u8]> = vec![&one, &two];
    let (sheet, bin) = cue_bin::convert(&model, "disc.bin", &given).unwrap();
    assert_eq!(
        sheet,
        "FILE \"disc.bin\" BINARY\n  TRACK 1 MODE1/2352\n    INDEX 01 00:00:00\n  TRACK 2 AUDIO\n    INDEX 01 00:00:01\n"
    );
    let mut expected = one.clone();
    expected.extend_from_slice(&two);
    assert_eq!(bin, expected);
    assert_eq!(bin.len(), 3 * 0x930);
}

#[test]
fn bin_track_without_payload_is_missing_its_input() {
    let bytes = image(&[(0, 0, vec![data_track(1), data_track(2)])]);
    let model = Mds::from_bytes(&bytes).unwrap();
    let file = payload(1000, 0x930, 0);
    let one: Vec<&[u8]> = vec![&file];
    assert_eq!(mds_to_bin(&model, &one), Err(Error::MissingInputFile));
    assert_eq!(mds_to_bin(&model, &vec![]), Err(Error::MissingInputFile));

    let mut nameless = data_track(2);
    nameless.name = None;
    let bytes = image(&[(0, 0, vec![data_track(1), nameless])]);
    let model = Mds::from_bytes(&bytes).unwrap();
    let both: Vec<&[u8]> = vec![&file, &file];
    assert_eq!(mds_to_bin(&model, &both), Err(Error::MissingInputFile));
}

#[test]
fn bin_track_with_short_payload_is_an_unexpected_end_of_file() {
    let bytes = image(&[(0, 0, vec![data_track(1), data_track(2)])]);
    let model = Mds::from_bytes(&bytes).unwrap();
    let file = payload(1000, 0x930, 0);
    let short = payload(999, 0x930, 0);
    let given: Vec<&[u8]> = vec![&file, &short];
    assert_eq!(mds_to_bin(&model, &given), Err(Error::Io(IoError::UnexpectedEof)));
}

#[test]
fn cue_failure_comes_before_bin_failure() {
    let mut odd = data_track(1);
    odd.mode = 0xAC;
    let bytes = image(&[(0, 0, vec![odd])]);
    let model = Mds::from_bytes(&bytes).unwrap();
    assert_eq!(
        cue_bin::convert(&model, "disc.bin", &vec![]).err(),
        Some(Error::UnknownCueTrackSize(TrackMode::Mode2Form1, 0x930))
    );
}
