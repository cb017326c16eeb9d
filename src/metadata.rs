use vstd::prelude::*;
use crate::cover::PictureData;
use crate::extension::{codec_of, codec_tag};

verus! {

/// One tag container of an audio file, with the fields the catalog reads.
pub struct TagFields {
    pub title: Option<String>,
    pub artist: Option<String>,
    pub album: Option<String>,
    pub genre: Option<String>,
    pub album_artist: Option<String>,
    pub year: Option<u32>,
    pub track: Option<u32>,
    /// The embedded pictures, in the order the tag holds them.
    pub pictures: Vec<PictureData>,
}

/// The technical properties of an audio stream.
#[derive(Debug, Clone, Copy, PartialEq, Eq)]
pub struct AudioProperties {
    /// Audio bitrate, in the unit the tag reader reports.
    pub bitrate: Option<u32>,
    /// Sample rate in Hz.
    pub sample_rate: Option<u32>,
    pub channels: Option<u8>,
}

/// What the tag reader decoded from one file.
pub struct TaggedFileInfo {
    /// The tag container that the file's format prefers, if the file has it.
    pub primary_tag: Option<TagFields>,
    /// Every tag container of the file, in the reader's order.
    pub tags: Vec<TagFields>,
    pub properties: AudioProperties,
}

/// The outcome of handing one file to the tag reader.
pub enum ProbeResult {
    /// The file could not be opened, or its format not detected.
    ProbeFailed,
    /// The format was detected but its tags could not be decoded.
    ReadFailed,
    Read(TaggedFileInfo),
}

/// Why no record is made for a file.
#[derive(Debug, Clone, Copy, PartialEq, Eq)]
pub enum MetadataError {
    ProbeFailed,
    ReadFailed,
    NoTagsFound,
}

/// The catalog record of one audio file.
pub struct MusicMetadata {
    pub name: Option<String>,
    pub artist: Option<String>,
    pub album: Option<String>,
    pub genre: Option<String>,
    pub album_artist: Option<String>,
    /// Reserved: always 0.
    pub duration: u128,
    pub track: Option<u32>,
    pub year: Option<u32>,
    /// The file's path as it was walked.
    pub path: String,
    /// Size in bytes; 0 where the size could not be read.
    pub size: u64,
    pub bitrate: Option<u32>,
    pub sample_rate: Option<u32>,
    pub channels: Option<u8>,
    /// The file's extension in lowercase.
    pub codec: Option<String>,
    /// The file name of the stored cover, inside the cover directory.
    pub cover_art: Option<String>,
}

/// The tag container a record is read from: the primary one, else the first.
pub open spec fn selected_tag(info: TaggedFileInfo) -> Option<TagFields> {
    match info.primary_tag {
        Some(t) => Some(t),
        None => if info.tags.len() > 0 {
            Some(info.tags@[0])
        } else {
            None
        },
    }
}

/// The picture whose cover a record refers to: the first of the selected tag.
pub open spec fn cover_candidate(probe: ProbeResult) -> Option<PictureData> {
    match probe {
        ProbeResult::Read(info) => match selected_tag(info) {
            Some(t) => if t.pictures.len() > 0 {
                Some(t.pictures@[0])
            } else {
                None
            },
            None => None,
        },
        _ => None,
    }
}

/// The view of an optional text.
pub open spec fn opt_text(s: Option<String>) -> Option<Seq<char>> {
    match s {
        Some(t) => Some(t@),
        None => None,
    }
}

/// `r` is the record of the file at `path`, read from tag `t` and properties
/// `p`, with its size (if it could be read) and the name of its stored cover
/// (if one was stored).
pub open spec fn is_record_of(
    r: MusicMetadata,
    path: String,
    t: TagFields,
    p: AudioProperties,
    size: Option<u64>,
    stored_cover: Option<String>,
) -> bool {
    &&& r.name == t.title
    &&& r.artist == t.artist
    &&& r.album == t.album
    &&& r.genre == t.genre
    &&& r.album_artist == t.album_artist
    &&& r.year == t.year
    &&& r.track == t.track
    &&& r.duration == 0
    &&& r.path == path
    &&& r.size == match size {
        Some(n) => n,
        None => 0,
    }
    &&& r.bitrate == p.bitrate
    &&& r.sample_rate == p.sample_rate
    &&& r.channels == p.channels
    &&& opt_text(r.codec) == codec_of(path@)
    &&& r.cover_art == if t.pictures.len() > 0 {
        stored_cover
    } else {
        None
    }
}

/// The outcome of extracting the record of the file at `path`.
pub open spec fn is_extraction_of(
    r: Result<MusicMetadata, MetadataError>,
    path: String,
    probe: ProbeResult,
    size: Option<u64>,
    stored_cover: Option<String>,
) -> bool {
    match probe {
        ProbeResult::ProbeFailed => r == Err::<MusicMetadata, MetadataError>(MetadataError::ProbeFailed),
        ProbeResult::ReadFailed => r == Err::<MusicMetadata, MetadataError>(MetadataError::ReadFailed),
        ProbeResult::Read(info) => match selected_tag(info) {
            None => r == Err::<MusicMetadata, MetadataError>(MetadataError::NoTagsFound),
            Some(t) => r is Ok && is_record_of(r->Ok_0, path, t, info.properties, size, stored_cover),
        },
    }
}

/// The tag container to read: the primary one if present, else the first
/// one, else none.
pub fn select_tag(info: TaggedFileInfo) -> (r: Option<TagFields>)
    ensures
        r == selected_tag(info),
{
    match info.primary_tag {
        Some(t) => Some(t),
        None => {
            let mut tags = info.tags;
            if tags.len() > 0 {
                Some(tags.remove(0))
            } else {
                None
            }
        },
    }
}

/// The embedded picture that gives a file its cover, if the selected tag
/// holds any: the first one.
pub fn first_cover(probe: &ProbeResult) -> (r: Option<&PictureData>)
    ensures
        match cover_candidate(*probe) {
            Some(p) => r is Some && *r->Some_0 == p,
            None => r is None,
        },
{
    match probe {
        ProbeResult::Read(info) => {
            let tag = match &info.primary_tag {
                Some(t) => t,
                None => {
                    if info.tags.len() > 0 {
                        &info.tags[0]
                    } else {
                        return None;
                    }
                },
            };
            if tag.pictures.len() > 0 {
                Some(&tag.pictures[0])
            } else {
                None
            }
        },
        _ => None,
    }
}

/// The record of the file at `path` from what the tag reader gave for it.
/// `size` is the file's size where it could be read; `stored_cover` is the
/// name under which its cover (see `first_cover`) was stored, where storing
/// succeeded. Text fields, numbers and technical properties are each taken as
/// they are, present or not; the cover is kept only where the selected tag
/// has a picture.
pub fn get_music_metadata(
    path: String,
    probe: ProbeResult,
    size: Option<u64>,
    stored_cover: Option<String>,
) -> (r: Result<MusicMetadata, MetadataError>)
    ensures
        is_extraction_of(r, path, probe, size, stored_cover),
{
    match probe {
        ProbeResult::ProbeFailed => Err(MetadataError::ProbeFailed),
        ProbeResult::ReadFailed => Err(MetadataError::ReadFailed),
        ProbeResult::Read(info) => {
            let properties = info.properties;
            match select_tag(info) {
                None => Err(MetadataError::NoTagsFound),
                Some(t) => {
                    let cover_art = if t.pictures.len() > 0 {
                        stored_cover
                    } else {
                        None
                    };
                    let codec = codec_tag(path.as_str());
                    let size = match size {
                        Some(n) => n,
                        None => 0,
                    };
                    Ok(
                        MusicMetadata {
                            name: t.title,
                            artist: t.artist,
                            album: t.album,
                            genre: t.genre,
                            album_artist: t.album_artist,
                            duration: 0,
                            track: t.track,
                            year: t.year,
                            path,
                            size,
                            bitrate: properties.bitrate,
                            sample_rate: properties.sample_rate,
                            channels: properties.channels,
                            codec,
                            cover_art,
                        },
                    )
                },
            }
        },
    }
}

/// Fields are independent: a file whose selected tag holds no text, no
/// numbers and no picture, but whose properties are all known, still gives a
/// record, with every text field absent, every technical field present and
/// no cover.
pub proof fn lemma_field_independence(
    r: Result<MusicMetadata, MetadataError>,
    path: String,
    info: TaggedFileInfo,
    size: Option<u64>,
    stored_cover: Option<String>,
)
    requires
        is_extraction_of(r, path, ProbeResult::Read(info), size, stored_cover),
        selected_tag(info) is Some,
        ({
            let t = selected_tag(info)->Some_0;
            &&& t.title is None
            &&& t.artist is None
            &&& t.album is None
            &&& t.genre is None
            &&& t.album_artist is None
            &&& t.pictures.len() == 0
        }),
        info.properties.bitrate is Some,
        info.properties.sample_rate is Some,
        info.properties.channels is Some,
    ensures
        r is Ok,
        ({
            let m = r->Ok_0;
            &&& m.name is None
            &&& m.artist is None
            &&& m.album is None
            &&& m.genre is None
            &&& m.album_artist is None
            &&& m.bitrate == info.properties.bitrate
            &&& m.sample_rate == info.properties.sample_rate
            &&& m.channels == info.properties.channels
            &&& m.bitrate is Some
            &&& m.sample_rate is Some
            &&& m.channels is Some
            &&& m.cover_art is None
        }),
{
}

} // verus!
