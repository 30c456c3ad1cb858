//! Turning what a directory holds into the lists that are browsed.
//!
//! Reading a directory, walking a tree and reading tags are the caller's
//! part; this module decides what of the outcome is kept, and in what order.

use crate::list::ListState;
use crate::paths::{
    extension, is_music, is_music_extension, is_not_hidden, music, path_extension, playable, visible,
};
use crate::track::{described, TagInfo, Track, TrackView};
use vstd::prelude::*;

verus! {

/// One entry met while walking a directory tree: its path, whether it is a
/// directory, and its tag where one could be read.
#[derive(Debug)]
pub struct ScanEntry {
    pub path: String,
    pub is_dir: bool,
    pub tag: Option<TagInfo>,
}

/// An entry becomes a track when it is a playable file whose tag was read.
pub open spec fn kept(entry: ScanEntry) -> bool {
    music(entry.path@, entry.is_dir) && entry.tag is Some
}

/// The track that a kept entry becomes.
pub open spec fn track_of(entry: ScanEntry) -> TrackView {
    described(entry.path@, entry.tag->0)
}

/// The tracks found in a walk: those of the kept entries, in walk order.
pub open spec fn scanned(entries: Seq<ScanEntry>) -> Seq<TrackView> {
    entries.filter(|entry: ScanEntry| kept(entry)).map_values(|entry: ScanEntry| track_of(entry))
}

/// The content of each track of a sequence.
pub open spec fn views(tracks: Seq<Track>) -> Seq<TrackView> {
    tracks.map_values(|track: Track| track@)
}

/// The visible paths of a listing, in their order.
pub open spec fn shown(paths: Seq<String>) -> Seq<String> {
    paths.filter(|path: String| visible(path@))
}

proof fn lemma_filter_push<A>(items: Seq<A>, item: A, pred: spec_fn(A) -> bool)
    ensures
        items.push(item).filter(pred) == if pred(item) {
            items.filter(pred).push(item)
        } else {
            items.filter(pred)
        },
{
    reveal(Seq::filter);
    assert(items.push(item).drop_last() =~= items);
}

/// Filtering a listing twice keeps what filtering it once keeps.
pub proof fn lemma_shown_idempotent(paths: Seq<String>)
    ensures
        shown(shown(paths)) == shown(paths),
    decreases paths.len(),
{
    let pred = |path: String| visible(path@);
    reveal(Seq::filter);
    if paths.len() > 0 {
        lemma_shown_idempotent(paths.drop_last());
        if pred(paths.last()) {
            lemma_filter_push(paths.drop_last().filter(pred), paths.last(), pred);
        }
    }
}

/// Drops the hidden paths from a listing.
pub fn keep_visible(lists: Vec<String>) -> (kept: Vec<String>)
    ensures
        kept@ == shown(lists@),
{
    let ghost all = lists@;
    let mut kept: Vec<String> = Vec::new();
    assert(all.take(0) =~= Seq::<String>::empty());
    for path in it: lists
        invariant
            it.seq() == all,
            kept@ == shown(all.take(it.index() as int)),
    {
        proof {
            let n = it.index() as int;
            assert(all.take(n + 1) =~= all.take(n).push(path));
            lemma_filter_push(all.take(n), path, |p: String| visible(p@));
        }
        if is_not_hidden(&path) {
            kept.push(path);
        }
    }
    assert(all.take(all.len() as int) =~= all);
    kept
}

/// Collects the tracks of a walk. Entries that are no playable files, and
/// files whose tag could not be read, are passed over; the tracks come in
/// walk order, not sorted.
pub fn get_tracks_from_path(entries: Vec<ScanEntry>) -> (tracks: Vec<Track>)
    ensures
        views(tracks@) == scanned(entries@),
{
    let ghost all = entries@;
    let ghost keep = |entry: ScanEntry| kept(entry);
    let ghost make = |entry: ScanEntry| track_of(entry);
    let mut tracks: Vec<Track> = Vec::new();
    proof {
        assert(all.take(0) =~= Seq::<ScanEntry>::empty());
        assert(views(tracks@) =~= scanned(all.take(0)));
    }
    for entry in it: entries
        invariant
            it.seq() == all,
            keep == |entry: ScanEntry| kept(entry),
            make == |entry: ScanEntry| track_of(entry),
            views(tracks@) == all.take(it.index() as int).filter(keep).map_values(make),
    {
        let ghost before = tracks@;
        proof {
            let n = it.index() as int;
            assert(all.take(n + 1) =~= all.take(n).push(entry));
            lemma_filter_push(all.take(n), entry, keep);
        }
        if is_music(&entry.path, entry.is_dir) {
            match Track::new(entry.path, entry.tag) {
                Ok(track) => {
                    tracks.push(track);
                    proof {
                        let n = it.index() as int;
                        assert(views(tracks@) =~= views(before).push(track@));
                        assert(all.take(n).filter(keep).push(entry).map_values(make)
                            =~= all.take(n).filter(keep).map_values(make).push(make(entry)));
                    }
                },
                Err(_) => {},
            }
        }
    }
    proof {
        assert(all.take(all.len() as int) =~= all);
    }
    tracks
}

/// The list of tracks that a walk gives, with its first track selected.
pub fn init_tracks(entries: Vec<ScanEntry>) -> (list: ListState<Track>)
    ensures
        views(list.items@) == scanned(entries@),
        list.selected == 0,
        list.wf(),
{
    ListState::new(get_tracks_from_path(entries))
}

/// The children of a directory that are to be listed, given what reading the
/// directory gave: `None` for a directory that could not be read. A directory
/// that could not be read or holds nothing has no entries; any other gives
/// its visible children in the order read.
pub fn get_list_of_paths(listing: Option<Vec<String>>) -> (children: Option<Vec<String>>)
    ensures
        match listing {
            Some(read) if read@.len() > 0 => children matches Some(paths) && paths@ == shown(
                read@,
            ),
            _ => children is None,
        },
{
    match listing {
        Some(read) => {
            if read.len() > 0 {
                Some(keep_visible(read))
            } else {
                None
            }
        },
        None => None,
    }
}

/// The directory list that reading a directory gives, with its first entry
/// selected; empty where the directory has no entries.
pub fn init_directory(listing: Option<Vec<String>>) -> (list: ListState<String>)
    ensures
        list.items@ == match listing {
            Some(read) => shown(read@),
            None => Seq::<String>::empty(),
        },
        list.selected == 0,
        list.wf(),
{
    let ghost given = listing;
    match get_list_of_paths(listing) {
        Some(paths) => {
            proof {
                lemma_shown_idempotent(given->0@);
            }
            ListState::new(keep_visible(paths))
        },
        None => {
            proof {
                if given is Some {
                    reveal(Seq::filter);
                    assert(shown(given->0@) =~= Seq::<String>::empty());
                }
            }
            ListState::new(Vec::new())
        },
    }
}

/// The entry carries an extension, and it is a playable one.
pub open spec fn plays(path: String) -> bool {
    path_extension(path@) matches Some(ext) && playable(ext)
}

/// The entry carries an extension that is not a playable one.
pub open spec fn foreign(path: String) -> bool {
    path_extension(path@) matches Some(ext) && !playable(ext)
}

/// A folder of music holds at least one playable file and no file with any
/// other extension. Entries without an extension do not count either way.
pub open spec fn folder_of_music(paths: Seq<String>) -> bool {
    &&& forall|i: int| 0 <= i < paths.len() ==> !#[trigger] foreign(paths[i])
    &&& exists|i: int| 0 <= i < paths.len() && #[trigger] plays(paths[i])
}

/// Whether the children of a directory make it a folder of music.
pub fn is_music_in_folder(entries: &Vec<String>) -> (found: bool)
    ensures
        found == folder_of_music(entries@),
{
    let mut has_audio_file = false;
    let mut i: usize = 0;
    while i < entries.len()
        invariant
            i <= entries.len(),
            forall|j: int| 0 <= j < i ==> !#[trigger] foreign(entries@[j]),
            has_audio_file == exists|j: int| 0 <= j < i && #[trigger] plays(entries@[j]),
        decreases entries.len() - i,
    {
        match extension(entries[i].as_str()) {
            Some(ext) => {
                if is_music_extension(ext.as_str()) {
                    has_audio_file = true;
                    assert(plays(entries@[i as int]));
                } else {
                    assert(foreign(entries@[i as int]));
                    return false;
                }
            },
            None => {},
        }
        i += 1;
    }
    has_audio_file
}

/// What the kinds of a directory's children say, `Some(true)` standing for a
/// directory and `None` for a child whose kind could not be read: whether
/// every kind was read and the last child is no directory.
pub open spec fn last_is_file(kinds: Seq<Option<bool>>) -> bool {
    &&& forall|i: int| 0 <= i < kinds.len() ==> (#[trigger] kinds[i]) is Some
    &&& kinds.len() > 0
    &&& kinds.last() == Some(false)
}

/// Whether the walk over a directory's children ended on a file, every kind
/// having been read.
pub fn is_no_folder_inside(kinds: &Vec<Option<bool>>) -> (ended_on_file: bool)
    ensures
        ended_on_file == last_is_file(kinds@),
{
    let mut is_no_folder = false;
    let mut i: usize = 0;
    while i < kinds.len()
        invariant
            i <= kinds.len(),
            forall|j: int| 0 <= j < i ==> (#[trigger] kinds@[j]) is Some,
            is_no_folder == (i > 0 && kinds@[i - 1] == Some(false)),
        decreases kinds.len() - i,
    {
        match kinds[i] {
            Some(is_dir) => {
                is_no_folder = !is_dir;
            },
            None => {
                return false;
            },
        }
        i += 1;
    }
    is_no_folder
}

} // verus!
