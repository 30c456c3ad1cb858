//! What the library reads off a path: its file name, its extension and the
//! directories above it. Paths are held as text.

use std::path::Path;
use vstd::prelude::*;

verus! {

/// The final component of a path, as `std::path::Path::file_name` gives it.
pub uninterp spec fn path_file_name(path: Seq<char>) -> Option<Seq<char>>;

/// The path without its final component, as `std::path::Path::parent` gives it.
pub uninterp spec fn path_parent(path: Seq<char>) -> Option<Seq<char>>;

/// The text of an optional string.
pub open spec fn text_of(field: Option<String>) -> Option<Seq<char>> {
    match field {
        Some(text) => Some(text@),
        None => None,
    }
}

/// Calls `std::path::Path::file_name` on the path and hands the component
/// back as text. Not proved: that the outcome is the one the library calls
/// [`path_file_name`], which is to say that it depends on the path's text
/// alone.
#[verifier::external_body]
pub(crate) fn file_name(path: &str) -> (name: Option<String>)
    ensures
        text_of(name) == path_file_name(path@),
{
    match Path::new(path).file_name() {
        Some(name) => Some(name.to_string_lossy().into_owned()),
        None => None,
    }
}

/// Calls `std::path::Path::parent` on the path and hands the directory back
/// as text. Not proved: that the outcome is the one the library calls
/// [`path_parent`].
#[verifier::external_body]
fn parent(path: &str) -> (dir: Option<String>)
    ensures
        text_of(dir) == path_parent(path@),
{
    match Path::new(path).parent() {
        Some(dir) => Some(dir.to_string_lossy().into_owned()),
        None => None,
    }
}

/// A name that begins with a dot.
pub open spec fn dotted(name: Seq<char>) -> bool {
    name.len() > 0 && name[0] == '.'
}

/// A path is visible when it has a file name and that name is not dotted.
pub open spec fn visible(path: Seq<char>) -> bool {
    match path_file_name(path) {
        Some(name) => !dotted(name),
        None => false,
    }
}

/// The extensions of the files that can be played.
pub open spec fn playable(ext: Seq<char>) -> bool {
    ext == "mp3"@ || ext == "flac"@ || ext == "ogg"@
}

/// The position of the last dot of a name, or -1 where it has none.
pub open spec fn last_dot(name: Seq<char>) -> int
    decreases name.len(),
{
    if name.len() == 0 {
        -1
    } else if name.last() == '.' {
        name.len() - 1
    } else {
        last_dot(name.drop_last())
    }
}

/// The name that is two dots and nothing else.
pub open spec fn two_dots(name: Seq<char>) -> bool {
    name.len() == 2 && name[0] == '.' && name[1] == '.'
}

/// The extension of a file name: what follows its last dot. A name without
/// a dot has none, nor has a name whose only dot is its first character, nor
/// has the name of two dots.
pub open spec fn name_extension(name: Seq<char>) -> Option<Seq<char>> {
    if last_dot(name) <= 0 || two_dots(name) {
        None
    } else {
        Some(name.subrange(last_dot(name) + 1, name.len() as int))
    }
}

/// The extension of a path: that of its file name.
pub open spec fn path_extension(path: Seq<char>) -> Option<Seq<char>> {
    match path_file_name(path) {
        Some(name) => name_extension(name),
        None => None,
    }
}

/// A path names music when it is no directory and carries a playable
/// extension.
pub open spec fn music(path: Seq<char>, is_dir: bool) -> bool {
    !is_dir && match path_extension(path) {
        Some(ext) => playable(ext),
        None => false,
    }
}

/// A dot with no dot after it is the last dot.
proof fn lemma_last_dot_found(name: Seq<char>, at: int)
    requires
        0 <= at < name.len(),
        name[at] == '.',
        forall|j: int| at < j < name.len() ==> name[j] != '.',
    ensures
        last_dot(name) == at,
    decreases name.len(),
{
    if name.last() != '.' {
        lemma_last_dot_found(name.drop_last(), at);
    }
}

/// A name without a dot has no last dot.
proof fn lemma_last_dot_missing(name: Seq<char>)
    requires
        forall|j: int| 0 <= j < name.len() ==> name[j] != '.',
    ensures
        last_dot(name) == -1,
    decreases name.len(),
{
    if name.len() > 0 {
        lemma_last_dot_missing(name.drop_last());
    }
}

/// The directory two levels above a path.
pub open spec fn grandparent(path: Seq<char>) -> Option<Seq<char>> {
    match path_parent(path) {
        Some(dir) => path_parent(dir),
        None => None,
    }
}

/// Whether two pieces of text hold the same characters.
pub fn same_text(left: &str, right: &str) -> (same: bool)
    ensures
        same == (left@ == right@),
{
    let a = left.to_owned();
    let b = right.to_owned();
    a == b
}

/// Whether a file or directory name is one to show: dotted names are not.
pub fn name_is_visible(name: &str) -> (shown: bool)
    ensures
        shown == !dotted(name@),
{
    if name.unicode_len() == 0 {
        true
    } else {
        name.get_char(0) != '.'
    }
}

/// Whether the entry at this path is one to show. A path without a file name
/// is not shown.
pub fn is_not_hidden(entry: &String) -> (shown: bool)
    ensures
        shown == visible(entry@),
{
    match file_name(entry.as_str()) {
        Some(name) => name_is_visible(name.as_str()),
        None => false,
    }
}

/// Whether an extension is that of a playable file.
pub fn is_music_extension(ext: &str) -> (plays: bool)
    ensures
        plays == playable(ext@),
{
    same_text(ext, "mp3") || same_text(ext, "flac") || same_text(ext, "ogg")
}

/// The extension of a file name, as [`name_extension`] defines it.
pub fn extension_of_name(name: &str) -> (ext: Option<String>)
    ensures
        text_of(ext) == name_extension(name@),
{
    let len = name.unicode_len();
    let mut i = len;
    while i > 0 && name.get_char(i - 1) != '.'
        invariant
            i <= len,
            len == name@.len(),
            forall|j: int| i <= j < len ==> name@[j] != '.',
        decreases i,
    {
        i -= 1;
    }
    proof {
        if i == 0 {
            lemma_last_dot_missing(name@);
        } else {
            lemma_last_dot_found(name@, i - 1);
        }
    }
    if i <= 1 {
        None
    } else if len == 2 && name.get_char(0) == '.' {
        None
    } else {
        Some(name.substring_char(i, len).to_owned())
    }
}

/// The extension of the entry at this path: that of its file name.
pub fn extension(path: &str) -> (ext: Option<String>)
    ensures
        text_of(ext) == path_extension(path@),
{
    match file_name(path) {
        Some(name) => extension_of_name(name.as_str()),
        None => None,
    }
}

/// Whether the entry at this path, a directory or not, is a playable file.
pub fn is_music(path: &String, is_dir: bool) -> (plays: bool)
    ensures
        plays == music(path@, is_dir),
{
    if is_dir {
        return false;
    }
    match extension(path.as_str()) {
        Some(ext) => is_music_extension(ext.as_str()),
        None => false,
    }
}

/// The directory two levels above the entry: the directory that holds the
/// directory that holds it.
pub fn ascend(path: &String) -> (up: Option<String>)
    ensures
        text_of(up) == grandparent(path@),
{
    match parent(path.as_str()) {
        Some(dir) => parent(dir.as_str()),
        None => None,
    }
}

} // verus!
