use music_scan::cover::{cover_name, PictureData};
use music_scan::hash::get_file_hash_code;
use music_scan::metadata::{
    first_cover, get_music_metadata, select_tag, AudioProperties, MetadataError, ProbeResult, TagFields,
    TaggedFileInfo,
};
use music_scan::scan::{collect_outcomes, plan_scan, FileOutcome, ScanReport};

fn empty_tag() -> TagFields {
    TagFields {
        title: None,
        artist: None,
        album: None,
        genre: None,
        album_artist: None,
        year: None,
        track: None,
        pictures: Vec::new(),
    }
}

fn titled(title: &str) -> TagFields {
    let mut t = empty_tag();
    t.title = Some(title.to_string());
    t
}

fn props() -> AudioProperties {
    AudioProperties { bitrate: Some(320), sample_rate: Some(44100), channels: Some(2) }
}

fn read(primary: Option<TagFields>, tags: Vec<TagFields>) -> ProbeResult {
    ProbeResult::Read(TaggedFileInfo { primary_tag: primary, tags, properties: props() })
}

#[test]
fn probe_and_read_failures() {
    let r = get_music_metadata("a.mp3".to_string(), ProbeResult::ProbeFailed, Some(1), None);
    assert_eq!(r.err(), Some(MetadataError::ProbeFailed));
    let r = get_music_metadata("a.mp3".to_string(), ProbeResult::ReadFailed, Some(1), None);
    assert_eq!(r.err(), Some(MetadataError::ReadFailed));
}

#[test]
fn no_tag_container() {
    let r = get_music_metadata("a.mp3".to_string(), read(None, Vec::new()), Some(1), None);
    assert_eq!(r.err(), Some(MetadataError::NoTagsFound));
}

#[test]
fn primary_tag_is_preferred() {
    let t = select_tag(TaggedFileInfo {
        primary_tag: Some(titled("primary")),
        tags: vec![titled("first")],
        properties: props(),
    });
    assert_eq!(t.unwrap().title, Some("primary".to_string()));
    let t = select_tag(TaggedFileInfo {
        primary_tag: None,
        tags: vec![titled("first"), titled("second")],
        properties: props(),
    });
    assert_eq!(t.unwrap().title, Some("first".to_string()));
}

#[test]
fn fields_are_copied() {
    let mut t = titled("Song");
    t.artist = Some("Artist".to_string());
    t.album = Some("Album".to_string());
    t.genre = Some("Pop".to_string());
    t.album_artist = Some("Band".to_string());
    t.year = Some(1999);
    t.track = Some(4);
    let m = get_music_metadata("./music/x.MP3".to_string(), read(Some(t), Vec::new()), Some(1234), None).ok().unwrap();
    assert_eq!(m.name.as_deref(), Some("Song"));
    assert_eq!(m.artist.as_deref(), Some("Artist"));
    assert_eq!(m.album.as_deref(), Some("Album"));
    assert_eq!(m.genre.as_deref(), Some("Pop"));
    assert_eq!(m.album_artist.as_deref(), Some("Band"));
    assert_eq!(m.year, Some(1999));
    assert_eq!(m.track, Some(4));
    assert_eq!(m.duration, 0);
    assert_eq!(m.path, "./music/x.MP3");
    assert_eq!(m.size, 1234);
    assert_eq!(m.codec.as_deref(), Some("mp3"));
    assert_eq!(m.cover_art, None);
}

#[test]
fn unreadable_size_is_zero() {
    let m = get_music_metadata("a.ogg".to_string(), read(Some(titled("x")), Vec::new()), None, None).ok().unwrap();
    assert_eq!(m.size, 0);
}

#[test]
fn textless_tag_keeps_properties() {
    let m = get_music_metadata(
        "./music/plain.flac".to_string(),
        read(None, vec![empty_tag()]),
        Some(10),
        Some("unused.png".to_string()),
    )
    .ok()
    .unwrap();
    assert!(m.name.is_none() && m.artist.is_none() && m.album.is_none());
    assert!(m.genre.is_none() && m.album_artist.is_none());
    assert_eq!(m.bitrate, Some(320));
    assert_eq!(m.sample_rate, Some(44100));
    assert_eq!(m.channels, Some(2));
    assert_eq!(m.cover_art, None);
}

#[test]
fn cover_kept_when_picture_present() {
    let mut t = titled("Song");
    t.pictures.push(PictureData { mime_type: Some("image/jpeg".to_string()), data: vec![1, 2] });
    let probe = read(Some(t), Vec::new());
    let pic = first_cover(&probe).unwrap();
    assert_eq!(pic.data, vec![1, 2]);
    let m = get_music_metadata("a.mp3".to_string(), probe, Some(5), Some("h.jpeg".to_string())).ok().unwrap();
    assert_eq!(m.cover_art.as_deref(), Some("h.jpeg"));
}

#[test]
fn cover_absent_when_storing_failed() {
    let mut t = titled("Song");
    t.pictures.push(PictureData { mime_type: None, data: vec![1] });
    let m = get_music_metadata("a.mp3".to_string(), read(Some(t), Vec::new()), Some(5), None).ok().unwrap();
    assert_eq!(m.cover_art, None);
}

#[test]
fn first_cover_of_unread_file() {
    assert!(first_cover(&ProbeResult::ProbeFailed).is_none());
    assert!(first_cover(&read(Some(empty_tag()), Vec::new())).is_none());
}

#[test]
fn missing_root_plans_nothing() {
    let p = plan_scan(false, false);
    assert!(!p.walk && !p.create_cover_dir);
    let p = plan_scan(false, true);
    assert!(!p.walk && !p.create_cover_dir);
    let p = plan_scan(true, false);
    assert!(p.walk && p.create_cover_dir);
    let p = plan_scan(true, true);
    assert!(p.walk && !p.create_cover_dir);
    let empty = collect_outcomes(Vec::new());
    assert!(empty.records.is_empty() && empty.skipped.is_empty());
}

#[test]
fn failures_do_not_stop_a_scan() {
    let mut outcomes = Vec::new();
    for i in 0..5 {
        let path = format!("./music/{}.mp3", i);
        let probe = if i % 2 == 0 { read(Some(titled("t")), Vec::new()) } else { ProbeResult::ProbeFailed };
        outcomes.push(FileOutcome { path: path.clone(), outcome: get_music_metadata(path, probe, Some(1), None) });
    }
    outcomes.push(FileOutcome {
        path: "./music/empty.ogg".to_string(),
        outcome: get_music_metadata("./music/empty.ogg".to_string(), read(None, Vec::new()), Some(1), None),
    });
    let report = collect_outcomes(outcomes);
    assert_eq!(report.records.len(), 3);
    assert_eq!(report.skipped.len(), 3);
    let paths: Vec<&str> = report.records.iter().map(|m| m.path.as_str()).collect();
    assert_eq!(paths, vec!["./music/0.mp3", "./music/2.mp3", "./music/4.mp3"]);
    assert_eq!(report.skipped[2].path, "./music/empty.ogg");
    assert_eq!(report.skipped[2].error, MetadataError::NoTagsFound);
}

#[test]
fn report_accepts_one_at_a_time() {
    let mut report = ScanReport::new();
    report.accept("b.mp3".to_string(), Err(MetadataError::ReadFailed));
    assert_eq!(report.records.len(), 0);
    assert_eq!(report.skipped.len(), 1);
    assert_eq!(report.skipped[0].error, MetadataError::ReadFailed);
}

#[test]
fn end_to_end_two_files() {
    let a_contents: Vec<u8> = b"ID3 fake a.mp3 contents".to_vec();
    let jpeg = vec![0xff, 0xd8, 0xff, 0xe0];
    let mut t = titled("Song");
    t.artist = Some("Artist".to_string());
    t.pictures.push(PictureData { mime_type: Some("image/jpeg".to_string()), data: jpeg.clone() });
    let a_probe = read(Some(t), Vec::new());
    let stored = {
        let pic = first_cover(&a_probe).unwrap();
        assert_eq!(pic.data, jpeg);
        cover_name(&a_contents, pic).ok()
    };
    let expected_name = format!("{}.jpeg", get_file_hash_code(&a_contents));
    assert_eq!(stored.as_deref(), Some(expected_name.as_str()));
    let a = get_music_metadata("./music/a.mp3".to_string(), a_probe, Some(a_contents.len() as u64), stored);
    let b = get_music_metadata("./music/b.mp3".to_string(), ProbeResult::ReadFailed, Some(3), None);
    let report = collect_outcomes(vec![
        FileOutcome { path: "./music/a.mp3".to_string(), outcome: a },
        FileOutcome { path: "./music/b.mp3".to_string(), outcome: b },
    ]);
    assert_eq!(report.records.len(), 1);
    let m = &report.records[0];
    assert_eq!(m.name.as_deref(), Some("Song"));
    assert_eq!(m.artist.as_deref(), Some("Artist"));
    assert_eq!(m.cover_art.as_deref(), Some(expected_name.as_str()));
    assert_eq!(report.skipped.len(), 1);
    assert_eq!(report.skipped[0].path, "./music/b.mp3");
}
