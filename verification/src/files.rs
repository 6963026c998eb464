//! Where the work is kept: the names of the files beside a drawing, how a
//! drawing's path is written into a project file and read back out of one,
//! and which of the project file's formats a file is written in.
//!
//! Paths are held as text. What a path means (its last component, its stem,
//! whether it is absolute) is decided by the standard library's path rules for
//! the platform the library is built for, behind the functions at the end of
//! this file; each of their results is named for that reason.

use vstd::prelude::*;

verus! {

/// A drawing the project measures on.
#[derive(Clone, Debug)]
pub struct Drawing {
    /// Where the file is, as the project last knew it.
    pub path: String,
}

impl Drawing {
    /// What the drawing is called in the list: its file name without the
    /// extension, which is what a sheet is usually named after, or its whole
    /// file name where it has no stem.
    pub fn name(&self) -> (name: String)
        ensures
            name@ == match stem_of(self.path@) {
                Some(stem) => stem,
                None => shown_name(self.path@),
            },
    {
        let stem = path_file_stem(self.path.as_str());
        named(stem, self.path.as_str())
    }
}

/// What a drawing at `path` is called, given its stem as the path rules found
/// it: the stem, or the file name where there is none.
pub fn named(stem: Option<String>, path: &str) -> (name: String)
    ensures
        name@ == match stem {
            Some(stem) => stem@,
            None => shown_name(path@),
        },
{
    match stem {
        Some(stem) => stem,
        None => file_name(path),
    }
}

/// What a message calls a file: its last component, or the whole path where
/// it has none.
pub open spec fn shown_name(path: Seq<char>) -> Seq<char> {
    match last_component_of(path) {
        Some(name) => name,
        None => path,
    }
}

/// A path's own name, which is what a message about it should carry: the rest
/// of it is the user's business, not the message's.
pub fn file_name(path: &str) -> (name: String)
    ensures
        name@ == shown_name(path@),
{
    let found = path_file_name(path);
    shown(found, path)
}

/// What a message calls the file at `path`, given its last component as the
/// path rules found it: that component, or the whole path where there is none.
pub fn shown(found: Option<String>, path: &str) -> (name: String)
    ensures
        name@ == match found {
            Some(name) => name@,
            None => path@,
        },
{
    match found {
        Some(name) => name,
        None => path.to_string(),
    }
}

/// What a project file is called for a drawing that has none yet: the same
/// name, beside it.
pub fn project_path(drawing: &str) -> (path: String)
    ensures
        path@ == with_extension_of(drawing@, "measure.json"@),
{
    proof {
        reveal_strlit("measure.json");
    }
    path_with_extension(drawing, "measure.json")
}

/// Phase one's sidecar for a drawing, which is read when there is no project
/// file to read instead.
pub fn sidecar_path(drawing: &str) -> (path: String)
    ensures
        path@ == with_extension_of(drawing@, "measurements.json"@),
{
    proof {
        reveal_strlit("measurements.json");
    }
    path_with_extension(drawing, "measurements.json")
}

/// `text` with every backslash turned forward.
pub open spec fn forward(text: Seq<char>) -> Seq<char> {
    text.map_values(|c: char| if c == '\\' { '/' } else { c })
}

/// `text` with every forward slash turned into `separator`.
pub open spec fn native(text: Seq<char>, separator: char) -> Seq<char> {
    text.map_values(|c: char| if c == '/' { separator } else { c })
}

/// `text` with each `from` turned into the one character `to` holds.
fn swapped(text: &str, from: char, to: &str) -> (swapped: String)
    requires
        to@.len() == 1,
    ensures
        swapped@ == text@.map_values(|c: char| if c == from { to@[0] } else { c }),
{
    let mut swapped = String::new();
    let count = text.unicode_len();
    let mut index: usize = 0;
    while index < count
        invariant
            0 <= index <= count,
            count == text@.len(),
            to@.len() == 1,
            swapped@ == text@.subrange(0, index as int).map_values(|c: char| if c == from { to@[0] } else { c }),
        decreases count - index,
    {
        if text.get_char(index) == from {
            swapped.append(to);
        } else {
            swapped.append(text.substring_char(index, index + 1));
        }
        index = index + 1;
        assert(swapped@ =~= text@.subrange(0, index as int).map_values(|c: char| if c == from { to@[0] } else { c }));
    }
    assert(text@.subrange(0, count as int) =~= text@);
    swapped
}

/// A drawing's path as it should be written: relative to the project file's
/// folder when it lies inside it, so that a folder moved or copied whole still
/// opens, and as it is otherwise. Written with forward slashes whatever the
/// platform, so a project file opens on either.
pub fn written_relative(path: &str, folder: &str) -> (written: String)
    ensures
        written@ == forward(match inside_of(path@, folder@) {
            Some(relative) => relative,
            None => path@,
        }),
{
    let inside = path_strip_prefix(path, folder);
    written(inside, path)
}

/// How the drawing at `path` is written, given what is left of it inside the
/// project's folder as the path rules found it: that remainder, or else the
/// whole path, with forward slashes.
pub fn written(inside: Option<String>, path: &str) -> (written: String)
    ensures
        written@ == forward(match inside {
            Some(relative) => relative@,
            None => path@,
        }),
{
    proof {
        reveal_strlit("/");
    }
    let relative = match inside {
        Some(relative) => relative,
        None => path.to_string(),
    };
    let written = swapped(relative.as_str(), '\\', "/");
    assert(written@ =~= forward(relative@));
    written
}

/// Where a written path leads, read against `folder` with the platform's
/// `separator`: an absolute path as it is, anything else within the folder.
pub open spec fn resolved_in(written: Seq<char>, folder: Seq<char>, separator: char) -> Seq<char> {
    let path = native(written, separator);
    if absolute(path) {
        path
    } else {
        joined(folder, path)
    }
}

/// The other direction: a written path against the folder it was written in.
pub fn resolved(written: &str, folder: &str) -> (path: String)
    ensures
        path@ == resolved_in(written@, folder@, '/') || path@ == resolved_in(written@, folder@, '\\'),
{
    let separator = main_separator();
    let path = swapped(written, '/', separator);
    assert(path@ =~= native(written@, separator@[0]));
    if path_is_absolute(path.as_str()) {
        path
    } else {
        path_join(folder, path.as_str())
    }
}

/// What `written_relative` keeps of `path` before turning its slashes: the
/// part inside `folder`, or the whole path.
pub open spec fn kept_of(path: Seq<char>, folder: Seq<char>) -> Seq<char> {
    match inside_of(path, folder) {
        Some(relative) => relative,
        None => path,
    }
}

/// A drawing's path written into a project file and resolved against the same
/// folder comes back as it was, on a platform whose separator is `separator`.
/// That holds wherever the path rules join back on what they took off the
/// front (the part inside the folder is then relative), or the path lies
/// outside the folder and is absolute, and where the path holds no slash of
/// the other kind, which the writing would otherwise turn.
pub proof fn a_written_path_resolves_back(path: Seq<char>, folder: Seq<char>, separator: char)
    requires
        separator == '/' || separator == '\\',
        forall|i: int| 0 <= i < kept_of(path, folder).len()
            ==> #[trigger] kept_of(path, folder)[i] == separator || kept_of(path, folder)[i] != '/' && kept_of(path, folder)[i] != '\\',
        match inside_of(path, folder) {
            Some(relative) => !absolute(relative) && joined(folder, relative) == path,
            None => absolute(path),
        },
    ensures
        resolved_in(forward(kept_of(path, folder)), folder, separator) == path,
{
    let kept = kept_of(path, folder);
    assert(native(forward(kept), separator) =~= kept);
}

/// How many reference points have ever been placed, by a project file that
/// counts `counted` of them and holds `held`. The count only ever climbs, so
/// it is never fewer than the points still held: a file written before the
/// count was kept knows how many points it holds, which is the most it can
/// say about their numbers.
pub fn references_placed(counted: usize, held: usize) -> (placed: usize)
    ensures
        placed == if counted >= held { counted } else { held },
{
    if counted >= held {
        counted
    } else {
        held
    }
}

/// Whether `count` is nothing, which is when the project file leaves the
/// count out.
pub fn is_zero(count: &usize) -> (zero: bool)
    ensures
        zero == (*count == 0),
{
    *count == 0
}

/// The project file's format. Raised when a change would stop this reader
/// making sense of a file, so a file from the future is refused rather than
/// half-understood. Version 1 was a sidecar beside a single drawing, and is
/// still read; version 2 is this shape without the reference points.
pub const VERSION: u64 = 3;

/// How a project file is laid out.
#[derive(Clone, Copy, Debug, PartialEq, Eq, Structural)]
pub enum Format {
    /// Phase one's sidecar: one drawing, and its pages keyed by number.
    PhaseOne,
    /// The project file: drawings, then each worked sheet.
    Project,
}

/// Which format a file that gives `version` is written in, or `None` when this
/// reader cannot vouch for it, which is how a file from a later version of the
/// application, or one giving no version at all, is refused.
pub fn format_of(version: Option<u64>) -> (format: Option<Format>)
    ensures
        format == match version {
            Some(1) => Some(Format::PhaseOne),
            Some(2) | Some(3) => Some(Format::Project),
            _ => None,
        },
        version matches Some(v) && v > VERSION ==> format is None,
{
    match version {
        Some(1) => Some(Format::PhaseOne),
        Some(2) | Some(3) => Some(Format::Project),
        _ => None,
    }
}

/// The last component of a path, where it has one.
pub uninterp spec fn last_component_of(path: Seq<char>) -> Option<Seq<char>>;

/// The last component of a path without its extension, where it has one.
pub uninterp spec fn stem_of(path: Seq<char>) -> Option<Seq<char>>;

/// A path with its extension set to `extension`.
pub uninterp spec fn with_extension_of(path: Seq<char>, extension: Seq<char>) -> Seq<char>;

/// What is left of `path` once `base` is taken off its front, component by
/// component, where `base` is a prefix of it.
pub uninterp spec fn inside_of(path: Seq<char>, base: Seq<char>) -> Option<Seq<char>>;

/// Whether a path is absolute.
pub uninterp spec fn absolute(path: Seq<char>) -> bool;

/// `path` read inside `base`.
pub uninterp spec fn joined(base: Seq<char>, path: Seq<char>) -> Seq<char>;

/// Calls `Path::file_name` on `path` read as a path. A name taken out of text
/// is text, so nothing is lost converting it back.
#[verifier::external_body]
fn path_file_name(path: &str) -> (name: Option<String>)
    ensures
        name is Some <==> last_component_of(path@) is Some,
        name matches Some(name) ==> last_component_of(path@) == Some(name@),
{
    std::path::Path::new(path).file_name().map(|name| name.to_string_lossy().into_owned())
}

/// Calls `Path::file_stem` on `path` read as a path.
#[verifier::external_body]
fn path_file_stem(path: &str) -> (stem: Option<String>)
    ensures
        stem is Some <==> stem_of(path@) is Some,
        stem matches Some(stem) ==> stem_of(path@) == Some(stem@),
{
    std::path::Path::new(path).file_stem().map(|stem| stem.to_string_lossy().into_owned())
}

/// Calls `Path::with_extension` on `path` read as a path. It panics on an
/// extension holding a path separator, which is either slash on some platform.
#[verifier::external_body]
fn path_with_extension(path: &str, extension: &str) -> (changed: String)
    requires
        !extension@.contains('/'),
        !extension@.contains('\\'),
    ensures
        changed@ == with_extension_of(path@, extension@),
{
    std::path::Path::new(path).with_extension(extension).to_string_lossy().into_owned()
}

/// Calls `Path::strip_prefix`, which succeeds when `base` is a prefix of
/// `path` component by component.
#[verifier::external_body]
fn path_strip_prefix(path: &str, base: &str) -> (inside: Option<String>)
    ensures
        inside is Some <==> inside_of(path@, base@) is Some,
        inside matches Some(inside) ==> inside_of(path@, base@) == Some(inside@),
{
    std::path::Path::new(path).strip_prefix(base).ok().map(|inside| inside.to_string_lossy().into_owned())
}

/// Calls `Path::is_absolute`.
#[verifier::external_body]
fn path_is_absolute(path: &str) -> (absolute_path: bool)
    ensures
        absolute_path == absolute(path@),
{
    std::path::Path::new(path).is_absolute()
}

/// Calls `Path::join`.
#[verifier::external_body]
fn path_join(base: &str, path: &str) -> (joined_path: String)
    ensures
        joined_path@ == joined(base@, path@),
{
    std::path::Path::new(base).join(path).to_string_lossy().into_owned()
}

/// The platform's path separator, `std::path::MAIN_SEPARATOR_STR`: a
/// backslash on Windows and a forward slash everywhere else.
#[verifier::external_body]
fn main_separator() -> (separator: &'static str)
    ensures
        separator@ == seq!['/'] || separator@ == seq!['\\'],
{
    std::path::MAIN_SEPARATOR_STR
}

} // verus!
