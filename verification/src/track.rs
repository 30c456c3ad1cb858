//! A playable file and what its tag says about it.

use core::cmp::Ordering;
use vstd::prelude::*;

verus! {

/// What a tag reader found in one file. A field the tag lacks is `None`.
#[derive(Debug)]
pub struct TagInfo {
    pub title: Option<String>,
    pub artist: Option<String>,
    pub album: Option<String>,
    pub album_artist: Option<String>,
    pub year: Option<i32>,
    pub track: Option<u32>,
    pub duration: Option<u32>,
}

/// One track of the library.
///
/// Two tracks are the same track when their paths agree; tracks are ordered
/// by track number alone. The other fields are for display.
#[derive(Debug, Eq)]
pub struct Track {
    pub file_path: String,
    pub title: String,
    pub artist: String,
    pub album_artist: String,
    pub album: String,
    pub year: i32,
    pub track_num: u32,
    pub duration: u32,
}

/// The mathematical content of a [`Track`].
pub struct TrackView {
    pub file_path: Seq<char>,
    pub title: Seq<char>,
    pub artist: Seq<char>,
    pub album_artist: Seq<char>,
    pub album: Seq<char>,
    pub year: i32,
    pub track_num: u32,
    pub duration: u32,
}

impl View for Track {
    type V = TrackView;

    open spec fn view(&self) -> TrackView {
        TrackView {
            file_path: self.file_path@,
            title: self.title@,
            artist: self.artist@,
            album_artist: self.album_artist@,
            album: self.album@,
            year: self.year,
            track_num: self.track_num,
            duration: self.duration,
        }
    }
}

/// The text of a tag field, empty where the tag has none.
pub open spec fn text_or_empty(field: Option<String>) -> Seq<char> {
    match field {
        Some(text) => text@,
        None => Seq::empty(),
    }
}

/// The track that a file at `path` with tag `info` stands for: missing text is
/// empty and missing numbers are zero.
pub open spec fn described(path: Seq<char>, info: TagInfo) -> TrackView {
    TrackView {
        file_path: path,
        title: text_or_empty(info.title),
        artist: text_or_empty(info.artist),
        album_artist: text_or_empty(info.album_artist),
        album: text_or_empty(info.album),
        year: match info.year {
            Some(y) => y,
            None => 0,
        },
        track_num: match info.track {
            Some(n) => n,
            None => 0,
        },
        duration: match info.duration {
            Some(d) => d,
            None => 0,
        },
    }
}

/// How two track numbers compare.
pub open spec fn number_order(left: u32, right: u32) -> Ordering {
    if left < right {
        Ordering::Less
    } else if left == right {
        Ordering::Equal
    } else {
        Ordering::Greater
    }
}

fn text_of(field: Option<String>) -> (text: String)
    ensures
        text@ == text_or_empty(field),
{
    match field {
        Some(text) => text,
        None => String::new(),
    }
}

impl Track {
    /// Builds the track for the file at `path` from the outcome of reading
    /// its tag; a file whose tag could not be read gives no track.
    pub fn new(path: String, tag: Option<TagInfo>) -> (made: Result<Track, ()>)
        ensures
            tag is None <==> made is Err,
            tag matches Some(info) ==> made matches Ok(track) && track@ == described(path@, info),
    {
        match tag {
            None => Err(()),
            Some(info) => {
                let title = text_of(info.title);
                let artist = text_of(info.artist);
                let album = text_of(info.album);
                let album_artist = text_of(info.album_artist);
                let year: i32 = match info.year {
                    Some(y) => y,
                    None => 0,
                };
                let track_num: u32 = match info.track {
                    Some(n) => n,
                    None => 0,
                };
                let duration: u32 = match info.duration {
                    Some(d) => d,
                    None => 0,
                };
                Ok(
                    Track {
                        file_path: path,
                        title,
                        artist,
                        album_artist,
                        album,
                        year,
                        track_num,
                        duration,
                    },
                )
            },
        }
    }
}

impl Track {
    /// How this track compares with another: by track number alone.
    pub fn cmp(&self, other: &Track) -> (order: Ordering)
        ensures
            order == number_order(self.track_num, other.track_num),
    {
        if self.track_num < other.track_num {
            Ordering::Less
        } else if self.track_num == other.track_num {
            Ordering::Equal
        } else {
            Ordering::Greater
        }
    }
}

impl Clone for Track {
    fn clone(&self) -> (copy: Track)
        ensures
            copy == *self,
    {
        Track {
            file_path: self.file_path.clone(),
            title: self.title.clone(),
            artist: self.artist.clone(),
            album_artist: self.album_artist.clone(),
            album: self.album.clone(),
            year: self.year,
            track_num: self.track_num,
            duration: self.duration,
        }
    }
}

impl PartialEq for Track {
    fn eq(&self, other: &Track) -> (same: bool) {
        self.file_path == other.file_path
    }
}

impl vstd::std_specs::cmp::PartialEqSpecImpl for Track {
    open spec fn obeys_eq_spec() -> bool {
        true
    }

    open spec fn eq_spec(&self, other: &Track) -> bool {
        self.file_path@ == other.file_path@
    }
}

impl PartialOrd for Track {
    fn partial_cmp(&self, other: &Track) -> (order: Option<Ordering>) {
        Some(self.cmp(other))
    }
}

impl vstd::std_specs::cmp::PartialOrdSpecImpl for Track {
    open spec fn obeys_partial_cmp_spec() -> bool {
        true
    }

    open spec fn partial_cmp_spec(&self, other: &Track) -> Option<Ordering> {
        Some(number_order(self.track_num, other.track_num))
    }
}

} // verus!
