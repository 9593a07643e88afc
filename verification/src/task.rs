//! The task list: the lines of code that mention `TODO`, `NOTE` or `FIXME`.
//!
//! Walking the files and searching them is the application's part; this
//! module decides which directories are skipped and how a matching line is
//! shown.
use vstd::prelude::*;

use crate::text::{chars_of, str_eq, string_from_chars};

verus! {

/// Directories that are never searched.
pub const IGNORED_DIRS: [&'static str; 8] = [
    "node_modules",
    ".git",
    "target",
    ".idea",
    ".vscode",
    ".next",
    ".data",
    "vendor",
];

/// What the task list searches for: `TODO`, `NOTE` and `FIXME` comments
/// (a regular expression).
pub const DEFAULT_QUERY: &'static str = "TODO|NOTE|FIXME";

/// The directory names that are skipped.
pub open spec fn is_ignored_name(name: Seq<char>) -> bool {
    exists|i: int| 0 <= i < IGNORED_DIRS@.len() && IGNORED_DIRS@[i]@ == name
}

/// Whether a walked entry is skipped, with everything below it: a
/// directory with one of the ignored names.
pub fn is_ignored(is_dir: bool, file_name: &str) -> (r: bool)
    ensures
        r == (is_dir && is_ignored_name(file_name@)),
{
    if !is_dir {
        return false;
    }
    let dirs = IGNORED_DIRS;
    let mut i: usize = 0;
    while i < 8
        invariant
            is_dir,
            dirs@ == IGNORED_DIRS@,
            IGNORED_DIRS@.len() == 8,
            i <= 8,
            forall|j: int| 0 <= j < i ==> IGNORED_DIRS@[j]@ != file_name@,
        decreases 8 - i,
    {
        if str_eq(dirs[i], file_name) {
            assert(0 <= i < IGNORED_DIRS@.len() && IGNORED_DIRS@[i as int]@ == file_name@);
            return true;
        }
        i += 1;
    }
    false
}

/// A line cut to `max_width` characters, with `…` after it when it was
/// longer.
pub open spec fn truncated(line: Seq<char>, max_width: nat) -> Seq<char> {
    if line.len() > max_width {
        line.take(max_width as int).push('…')
    } else {
        line
    }
}

/// Cuts a line to `max_width` characters, marking a cut with `…`.
pub fn truncate_line(line: &str, max_width: usize) -> (r: String)
    ensures
        r@ == truncated(line@, max_width as nat),
        r@.len() <= max_width + 1,
        line@.len() <= max_width ==> r@ == line@,
{
    let cv = chars_of(line);
    if cv.len() > max_width {
        let mut out: Vec<char> = Vec::new();
        let mut i: usize = 0;
        while i < max_width
            invariant
                max_width < cv@.len(),
                i <= max_width,
                out@ == cv@.take(i as int),
            decreases max_width - i,
        {
            out.push(cv[i]);
            i += 1;
            assert(out@ =~= cv@.take(i as int));
        }
        out.push('…');
        string_from_chars(out.as_slice())
    } else {
        string_from_chars(cv.as_slice())
    }
}

/// Calls `terminal_size::terminal_size` and keeps the width. Whether there
/// is a terminal, and how wide it is, depends on where the tool runs, so
/// nothing is stated of the result.
#[verifier::external_body]
fn terminal_width() -> Option<u16> {
    terminal_size::terminal_size().map(|(terminal_size::Width(w), _)| w)
}

/// The width used for a terminal of the given width, `80` without one.
pub fn width_or_default(width: Option<u16>) -> (r: usize)
    ensures
        r == width_or_default_spec(width),
{
    match width {
        Some(w) => w as usize,
        None => 80,
    }
}

/// The width of the terminal, `80` when it cannot be told.
pub fn get_terminal_width() -> (r: usize)
    ensures
        exists|width: Option<u16>| r == width_or_default_spec(width),
{
    let w = terminal_width();
    let r = width_or_default(w);
    assert(r == width_or_default_spec(w));
    r
}

/// The width used for a terminal of the given width.
pub open spec fn width_or_default_spec(width: Option<u16>) -> usize {
    match width {
        Some(w) => w as usize,
        None => 80usize,
    }
}

} // verus!
