//! What the tables on screen hold: rows for tracks, the columns that fit,
//! and the row at which a scrolled table starts. Drawing is the caller's.

use crate::paths::{file_name, path_file_name};
use crate::track::{Track, TrackView};
use vstd::prelude::*;

verus! {

/// One column heading and the width of its column.
pub struct TableHeader<'a> {
    pub text: &'a str,
    pub width: u16,
}

/// One row: what identifies it and the text of its cells.
#[derive(Debug, Clone)]
pub struct TableItem {
    pub id: String,
    pub format: Vec<String>,
}

/// The mathematical content of a [`TableItem`].
pub struct TableRow {
    pub id: Seq<char>,
    pub cells: Seq<Seq<char>>,
}

impl View for TableItem {
    type V = TableRow;

    open spec fn view(&self) -> TableRow {
        TableRow { id: self.id@, cells: self.format@.map_values(|cell: String| cell@) }
    }
}

/// The row of a track: its title identifies it, and its cells are title,
/// artist and album.
pub open spec fn row_of(track: TrackView) -> TableRow {
    TableRow { id: track.title, cells: seq![track.title, track.artist, track.album] }
}

/// The row that stands in an otherwise empty table.
pub open spec fn placeholder_row(text: Seq<char>) -> TableRow {
    TableRow { id: "placeholder"@, cells: seq![text] }
}

/// The mark in front of the selected row: `+` right after a file was added
/// to the playlist, `>` otherwise.
pub fn get_symbol(state: bool) -> (symbol: String)
    ensures
        symbol@ == if state {
            "+"@
        } else {
            ">"@
        },
{
    if state {
        "+".to_owned()
    } else {
        ">".to_owned()
    }
}

/// The single row of a table that has nothing to show but a remark.
pub fn get_init_selection_table_state(placeholder: &str) -> (item: TableItem)
    ensures
        item@ == placeholder_row(placeholder@),
{
    let mut format: Vec<String> = Vec::new();
    format.push(placeholder.to_owned());
    let item = TableItem { id: "placeholder".to_owned(), format };
    assert(item@.cells =~= seq![placeholder@]);
    item
}

/// The row of one track.
pub fn track_row(track: &Track) -> (item: TableItem)
    ensures
        item@ == row_of(track@),
{
    let mut format: Vec<String> = Vec::new();
    format.push(track.title.clone());
    format.push(track.artist.clone());
    format.push(track.album.clone());
    let item = TableItem { id: track.title.clone(), format };
    assert(item@.cells =~= seq![track@.title, track@.artist, track@.album]);
    item
}

/// The rows of a list of tracks, one for each track and in their order.
pub fn track_rows(tracks: &Vec<Track>) -> (rows: Vec<TableItem>)
    ensures
        rows@.len() == tracks@.len(),
        forall|i: int| 0 <= i < rows@.len() ==> (#[trigger] rows@[i])@ == row_of(tracks@[i]@),
{
    let mut rows: Vec<TableItem> = Vec::new();
    let mut i: usize = 0;
    while i < tracks.len()
        invariant
            i <= tracks.len(),
            rows@.len() == i,
            forall|j: int| 0 <= j < i ==> (#[trigger] rows@[j])@ == row_of(tracks@[j]@),
        decreases tracks.len() - i,
    {
        rows.push(track_row(&tracks[i]));
        i += 1;
    }
    rows
}

/// The rows of the playlist: those of its tracks, or one remark where it has
/// none.
pub fn playlist_rows(tracks: &Vec<Track>) -> (rows: Vec<TableItem>)
    ensures
        tracks@.len() > 0 ==> rows@.len() == tracks@.len() && forall|i: int|
            0 <= i < rows@.len() ==> (#[trigger] rows@[i])@ == row_of(tracks@[i]@),
        tracks@.len() == 0 ==> rows@.len() == 1 && rows@[0]@ == placeholder_row(
            "No song added.."@,
        ),
{
    if tracks.len() > 0 {
        track_rows(tracks)
    } else {
        let mut rows: Vec<TableItem> = Vec::new();
        rows.push(get_init_selection_table_state("No song added.."));
        rows
    }
}

/// The label of a directory entry: a slash and the entry's file name. An
/// entry without a file name is labelled by the slash alone.
pub open spec fn label_of(path: Seq<char>) -> Seq<char> {
    match path_file_name(path) {
        Some(name) => "/"@ + name,
        None => "/"@,
    }
}

/// The label of one directory entry.
pub fn directory_label(path: &String) -> (label: String)
    ensures
        label@ == label_of(path@),
{
    let slash = "/".to_owned();
    match file_name(path.as_str()) {
        Some(name) => slash.concat(name.as_str()),
        None => slash,
    }
}

/// The labels of the directory list, one for each entry and in their order.
pub fn directory_labels(paths: &Vec<String>) -> (labels: Vec<String>)
    ensures
        labels@.len() == paths@.len(),
        forall|i: int| 0 <= i < labels@.len() ==> (#[trigger] labels@[i])@ == label_of(paths@[i]@),
{
    let mut labels: Vec<String> = Vec::new();
    let mut i: usize = 0;
    while i < paths.len()
        invariant
            i <= paths.len(),
            labels@.len() == i,
            forall|j: int| 0 <= j < i ==> (#[trigger] labels@[j])@ == label_of(paths@[j]@),
        decreases paths.len() - i,
    {
        labels.push(directory_label(&paths[i]));
        i += 1;
    }
    labels
}

/// Whether a row is to be shown as the playing one.
pub fn is_playing_row(should_active: bool, playing: Option<usize>, row: usize) -> (marked: bool)
    ensures
        marked == (should_active && playing == Some(row)),
{
    match playing {
        Some(at) => should_active && at == row,
        None => false,
    }
}

/// The first row on show in a table of `height` rows, so that the selected
/// row is the last one on show once it lies beyond the first screenful.
pub open spec fn first_row(selected: Option<usize>, height: usize) -> int {
    match selected {
        Some(at) => if at >= height {
            at - height + 1
        } else {
            0
        },
        None => 0,
    }
}

/// The first row on show in a table of `height` rows.
pub fn scroll_offset(selected: Option<usize>, height: usize) -> (offset: usize)
    requires
        first_row(selected, height) <= usize::MAX,
    ensures
        offset == first_row(selected, height),
{
    match selected {
        Some(at) => {
            if at >= height {
                at - height + 1
            } else {
                0
            }
        },
        None => 0,
    }
}

/// The total of the first `count` widths.
pub open spec fn total_width(widths: Seq<u16>, count: int) -> int
    decreases count,
{
    if count <= 0 {
        0
    } else {
        total_width(widths, count - 1) + widths[count - 1]
    }
}

/// A column fits when the columns up to and including it are narrower than
/// the table.
pub open spec fn fits(widths: Seq<u16>, column: int, available: u16) -> bool {
    total_width(widths, column + 1) < available
}

/// The widths of the first `count` columns that fit, in their order.
pub open spec fn fitting(widths: Seq<u16>, count: int, available: u16) -> Seq<u16>
    decreases count,
{
    if count <= 0 {
        Seq::empty()
    } else if fits(widths, count - 1, available) {
        fitting(widths, count - 1, available).push(widths[count - 1])
    } else {
        fitting(widths, count - 1, available)
    }
}

/// The widths of the columns that fit in a table `available` wide.
pub fn fitting_widths(widths: &Vec<u16>, available: u16) -> (kept: Vec<u16>)
    ensures
        kept@ == fitting(widths@, widths@.len() as int, available),
{
    let mut kept: Vec<u16> = Vec::new();
    let mut x: u16 = 0;
    let mut i: usize = 0;
    while i < widths.len()
        invariant
            i <= widths.len(),
            x <= available,
            total_width(widths@, i as int) < available ==> x == total_width(widths@, i as int),
            total_width(widths@, i as int) >= available ==> x == available,
            kept@ == fitting(widths@, i as int, available),
        decreases widths.len() - i,
    {
        let width = widths[i];
        if (x as u32) + (width as u32) < available as u32 {
            kept.push(width);
            x = x + width;
        } else {
            x = available;
        }
        i += 1;
    }
    kept
}

} // verus!
