//! The answers asked for when a project is initialized, and the text shown
//! at its end.
use vstd::prelude::*;

use crate::text::{push_str, string_from_chars};

verus! {

/// The characters that `sanitize_filename` treats as illegal in a file name.
pub open spec fn is_illegal_filename_char(c: char) -> bool {
    ||| c == '/'
    ||| c == '?'
    ||| c == '<'
    ||| c == '>'
    ||| c == '\\'
    ||| c == ':'
    ||| c == '*'
    ||| c == '|'
    ||| c == '"'
    ||| (c as u32) <= 0x1f
    ||| (0x80 <= (c as u32) && (c as u32) <= 0x9f)
}

/// No character of the name is illegal in a file name.
pub open spec fn free_of_illegal_chars(name: Seq<char>) -> bool {
    forall|i: int| 0 <= i < name.len() ==> !is_illegal_filename_char(#[trigger] name[i])
}

/// The name is made of dots only (`.`, `..`, ...).
pub open spec fn only_dots(name: Seq<char>) -> bool {
    name.len() > 0 && forall|i: int| 0 <= i < name.len() ==> #[trigger] name[i] == '.'
}

/// A file name that `sanitize_filename` accepts on every platform: no
/// illegal or control character, not only dots, and at most 255 bytes
/// (so at most 255 characters).
pub open spec fn portable_file_name(name: Seq<char>) -> bool {
    &&& free_of_illegal_chars(name)
    &&& !only_dots(name)
    &&& name.len() <= 255
}

/// The number of bytes of a character in UTF-8.
pub open spec fn utf8_width(c: char) -> nat {
    let u = c as u32;
    if u < 0x80 {
        1
    } else if u < 0x800 {
        2
    } else if u < 0x10000 {
        3
    } else {
        4
    }
}

/// The number of bytes of a text in UTF-8.
pub open spec fn utf8_len(s: Seq<char>) -> nat
    decreases s.len(),
{
    if s.len() == 0 {
        0
    } else {
        utf8_len(s.drop_last()) + utf8_width(s.last())
    }
}

/// `a` is `b` with some characters left out.
pub open spec fn is_subsequence(a: Seq<char>, b: Seq<char>) -> bool
    decreases b.len(),
{
    if a.len() == 0 {
        true
    } else if b.len() == 0 {
        false
    } else if a.last() == b.last() {
        is_subsequence(a.drop_last(), b.drop_last())
    } else {
        is_subsequence(a, b.drop_last())
    }
}

/// `c` is the ASCII lowercase letter `lower` in either case.
pub open spec fn ascii_ci_eq(c: char, lower: char) -> bool {
    c == lower || (c as u32) + 32 == (lower as u32)
}

/// The name starts with the three letters of `word` in any case.
pub open spec fn starts_with_ci(name: Seq<char>, word: Seq<char>) -> bool {
    &&& name.len() >= 3
    &&& ascii_ci_eq(name[0], word[0])
    &&& ascii_ci_eq(name[1], word[1])
    &&& ascii_ci_eq(name[2], word[2])
}

/// A name that Windows reserves for a device (`con`, `prn`, `aux`, `nul`,
/// `com0`..`com9`, `lpt0`..`lpt9`, in any case, alone or before a dot).
pub open spec fn windows_reserved(name: Seq<char>) -> bool {
    let ends_or_dot = |k: int| name.len() == k || (name.len() > k && name[k] == '.');
    ||| (starts_with_ci(name, "con"@) || starts_with_ci(name, "prn"@) || starts_with_ci(name, "aux"@)
        || starts_with_ci(name, "nul"@)) && ends_or_dot(3)
    ||| (starts_with_ci(name, "com"@) || starts_with_ci(name, "lpt"@)) && name.len() >= 4 && '0'
        <= name[3] <= '9' && ends_or_dot(4)
}

/// The name ends with a dot or a space.
pub open spec fn trailing_dot_or_space(name: Seq<char>) -> bool {
    name.len() > 0 && (name.last() == '.' || name.last() == ' ')
}

/// A file name that `sanitize_filename` keeps as it is on every platform:
/// no illegal or control character, not only dots, at most 255 bytes, not
/// a name Windows reserves and no trailing dot or space.
pub open spec fn kept_file_name(name: Seq<char>) -> bool {
    &&& free_of_illegal_chars(name)
    &&& !only_dots(name)
    &&& utf8_len(name) <= 255
    &&& !windows_reserved(name)
    &&& !trailing_dot_or_space(name)
}

/// Calls `sanitize_filename::is_sanitized`. Its answer also depends on the
/// platform the tool was built for (Windows adds reserved names and refuses
/// trailing dots and spaces), so the contract states only what holds on
/// every platform: a name with an illegal or control character, a name of
/// dots only, and a name longer than 255 bytes are refused, and a name that
/// no platform's rule touches is accepted.
#[verifier::external_body]
fn is_sanitized_name(name: &str) -> (r: bool)
    ensures
        r ==> portable_file_name(name@),
        r || !kept_file_name(name@),
{
    sanitize_filename::is_sanitized(name)
}

/// Calls `sanitize_filename::sanitize`. What it removes depends on the
/// platform the tool was built for, so the contract states only what holds
/// on every platform: characters are only removed (the result is the name
/// with some characters left out), the result holds no illegal or control
/// character and is cut to at most 255 bytes (so at most 255 characters),
/// and a name that no platform's rule touches is returned unchanged.
#[verifier::external_body]
fn sanitize_name(name: &str) -> (r: String)
    ensures
        is_subsequence(r@, name@),
        free_of_illegal_chars(r@),
        r@.len() <= 255,
        r@ == name@ || !kept_file_name(name@),
{
    sanitize_filename::sanitize(name)
}

/// The objection to a project name, if any, given whether it is a
/// sanitized file name and whether its directory already holds files.
pub fn project_name_problem(input: &str, sanitized: bool, directory_non_empty: bool) -> (r: Result<
    (),
    &'static str,
>)
    ensures
        input@.len() == 0 ==> (r matches Err(m) && m@ == "Please enter a name."@),
        input@.len() > 0 && !sanitized ==> (r matches Err(m) && m@ == "Please enter a valid name."@),
        input@.len() > 0 && sanitized && directory_non_empty ==> (r matches Err(m) && m@
            == "Directory is non-empty."@),
        input@.len() > 0 && sanitized && !directory_non_empty ==> r is Ok,
{
    if input.unicode_len() == 0 {
        Err("Please enter a name.")
    } else if !sanitized {
        Err("Please enter a valid name.")
    } else if directory_non_empty {
        Err("Directory is non-empty.")
    } else {
        Ok(())
    }
}

/// Checks a project name typed by the user: it is required, it must be a
/// valid file name, and its directory must not already hold files.
pub fn validate_project_name(input: &str, directory_non_empty: bool) -> (r: Result<(), &'static str>)
    ensures
        input@.len() == 0 ==> (r matches Err(m) && m@ == "Please enter a name."@),
        input@.len() > 0 && !free_of_illegal_chars(input@) ==> (r matches Err(m) && m@
            == "Please enter a valid name."@),
        input@.len() > 0 && only_dots(input@) ==> (r matches Err(m) && m@
            == "Please enter a valid name."@),
        r is Ok ==> input@.len() > 0 && portable_file_name(input@) && !directory_non_empty,
        input@.len() > 0 && kept_file_name(input@) && !directory_non_empty ==> r is Ok,
{
    let sanitized = is_sanitized_name(input);
    project_name_problem(input, sanitized, directory_non_empty)
}

/// The next steps shown for a project whose directory is `directory`.
pub fn next_steps_for(directory: &str) -> (r: String)
    ensures
        r@ == "cd ./"@ + directory@ + "\nncl run dev"@,
{
    let mut v: Vec<char> = Vec::new();
    push_str(&mut v, "cd ./");
    push_str(&mut v, directory);
    push_str(&mut v, "\nncl run dev");
    string_from_chars(v.as_slice())
}

/// The next steps shown once a project is initialized: enter its directory
/// (the sanitized project name) and start it.
pub fn next_steps(project_name: &str) -> (r: String)
    ensures
        exists|dir: Seq<char>|
            free_of_illegal_chars(dir) && dir.len() <= 255 && is_subsequence(dir, project_name@) && r@
                == "cd ./"@ + dir + "\nncl run dev"@,
        kept_file_name(project_name@) ==> r@ == "cd ./"@ + project_name@ + "\nncl run dev"@,
{
    let dir = sanitize_name(project_name);
    next_steps_for(dir.as_str())
}

} // verus!
