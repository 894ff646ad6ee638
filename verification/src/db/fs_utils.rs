//! Paths of songs: relative to the music root or absolute, and which files
//! count as songs.

use vstd::prelude::*;

use crate::common::config::{globs_match, IgnoreSet};
use crate::text::{push_str, str_eq};

verus! {

/// Whether `std::path::Path::is_absolute` holds of `p`.
pub uninterp spec fn path_absolute(p: Seq<char>) -> bool;

/// What `std::path::Path::join` makes of `root` and `p`.
pub uninterp spec fn path_joined(root: Seq<char>, p: Seq<char>) -> Seq<char>;

/// What `std::path::Path::strip_prefix` gives for `p` and `root`: the rest of
/// the path, or nothing when `root` is not a prefix of it.
pub uninterp spec fn path_stripped(p: Seq<char>, root: Seq<char>) -> Option<Seq<char>>;

/// The extension that `std::path::Path::extension` finds in `p`.
pub uninterp spec fn path_extension(p: Seq<char>) -> Option<Seq<char>>;

/// `Path::is_absolute`.
#[verifier::external_body]
fn is_absolute(p: &str) -> (r: bool)
    ensures
        r == path_absolute(p@),
{
    std::path::Path::new(p).is_absolute()
}

/// `Path::join`, with the joined path as a string.
#[verifier::external_body]
fn join(root: &str, p: &str) -> (r: String)
    ensures
        r@ == path_joined(root@, p@),
{
    std::path::Path::new(root).join(p).to_string_lossy().into_owned()
}

/// `Path::strip_prefix`, with the rest as a string.
#[verifier::external_body]
fn strip_prefix(p: &str, root: &str) -> (r: Option<String>)
    ensures
        match path_stripped(p@, root@) {
            Some(s) => r matches Some(t) && t@ == s,
            None => r is None,
        },
{
    match std::path::Path::new(p).strip_prefix(root) {
        Ok(rest) => Some(rest.to_string_lossy().into_owned()),
        Err(_) => None,
    }
}

/// `Path::extension`, as a string.
#[verifier::external_body]
fn extension(p: &str) -> (r: Option<String>)
    ensures
        match path_extension(p@) {
            Some(s) => r matches Some(t) && t@ == s,
            None => r is None,
        },
{
    match std::path::Path::new(p).extension() {
        Some(ext) => Some(ext.to_string_lossy().into_owned()),
        None => None,
    }
}

/// `path` without the prefix `root`, or `path` itself when `root` is not a
/// prefix of it.
pub open spec fn stripped_or_whole(path: Seq<char>, root: Seq<char>) -> Seq<char> {
    match path_stripped(path, root) {
        Some(s) => s,
        None => path,
    }
}

/// The path relative to `root` when it lies under it, else the path itself.
pub fn strip_or_default(path: &str, root: &str) -> (r: String)
    ensures
        r@ == stripped_or_whole(path@, root@),
{
    match strip_prefix(path, root) {
        Some(s) => s,
        None => String::from_str(path),
    }
}

/// The absolute form of `path`: itself when absolute, else joined to `root`.
pub open spec fn absolute_path(path: Seq<char>, root: Seq<char>) -> Seq<char> {
    if path_absolute(path) {
        path
    } else {
        path_joined(root, path)
    }
}

/// Makes `path` absolute by joining it to `root` when it is relative.
pub fn to_absolute(path: &str, root: &str) -> (r: String)
    ensures
        r@ == absolute_path(path@, root@),
{
    if is_absolute(path) {
        String::from_str(path)
    } else {
        join(root, path)
    }
}

/// Some text occurs among `v`.
pub open spec fn contains_text(v: Seq<String>, t: Seq<char>) -> bool {
    exists|i: int| 0 <= i < v.len() && (#[trigger] v[i])@ == t
}

/// Whether the extension of `path` is one of `allowed_exts` (a path without
/// an extension never is). The answer is always given: the path is text.
pub fn ext_matches(path: &str, allowed_exts: &Vec<String>) -> (r: Option<bool>)
    ensures
        r == Some(
            match path_extension(path@) {
                Some(e) => contains_text(allowed_exts@, e),
                None => false,
            },
        ),
{
    match extension(path) {
        Some(ext) => {
            let mut i: usize = 0;
            while i < allowed_exts.len()
                invariant
                    i <= allowed_exts.len(),
                    path_extension(path@) == Some(ext@),
                    forall|j: int| 0 <= j < i ==> allowed_exts@[j]@ != ext@,
                decreases allowed_exts.len() - i,
            {
                if str_eq(allowed_exts[i].as_str(), ext.as_str()) {
                    assert(allowed_exts@[i as int]@ == ext@);
                    return Some(true);
                }
                i = i + 1;
            }
            Some(false)
        },
        None => Some(false),
    }
}

/// The reason why a path that was looked up cannot be used: it does not
/// exist, or looking it up failed with `error`.
pub open spec fn missing_path_message(path: Seq<char>, looked_up: Result<bool, String>) -> Option<
    Seq<char>,
> {
    match looked_up {
        Ok(true) => None,
        Ok(false) => Some("path `"@ + path + "` not found"@),
        Err(e) => Some("path `"@ + path + "` could not be accessed ("@ + e@ + ")"@),
    }
}

/// Turns the outcome of looking `path` up (`Path::try_exists`) into an
/// error when the path is missing or could not be accessed.
pub fn ensure_path_exists(path: &str, looked_up: Result<bool, String>) -> (r: Result<(), String>)
    ensures
        match missing_path_message(path@, looked_up) {
            None => r is Ok,
            Some(m) => r matches Err(e) && e@ == m,
        },
{
    match looked_up {
        Ok(true) => Ok(()),
        Ok(false) => {
            let mut m = String::from_str("path `");
            push_str(&mut m, path);
            push_str(&mut m, "` not found");
            Err(m)
        },
        Err(e) => {
            let mut m = String::from_str("path `");
            push_str(&mut m, path);
            push_str(&mut m, "` could not be accessed (");
            push_str(&mut m, e.as_str());
            push_str(&mut m, ")");
            Err(m)
        },
    }
}

/// Whether a walk keeps the entry at `path`, file or directory: it is kept
/// unless an ignore glob matches it (an ignored directory is not entered).
pub fn walk_keeps(path: &str, ignore: &IgnoreSet) -> (r: bool)
    ensures
        r == !globs_match(ignore.patterns(), path@),
{
    !ignore.is_match(path)
}

/// Which entries of a directory walk become songs: files that no ignore glob
/// matches and that have an allowed extension, named relative to the walk's
/// `prefix`.
pub fn walk_entry(path: &str, is_file: bool, prefix: &str, allowed_exts: &Vec<String>, ignore: &IgnoreSet) -> (r: Option<
    String,
>)
    ensures
        match r {
            Some(s) => is_file && !globs_match(ignore.patterns(), path@) && (path_extension(path@) matches Some(e)
                && contains_text(allowed_exts@, e)) && s@ == stripped_or_whole(path@, prefix@),
            None => !is_file || globs_match(ignore.patterns(), path@) || !(path_extension(path@) matches Some(e)
                && contains_text(allowed_exts@, e)),
        },
{
    if !walk_keeps(path, ignore) {
        return None;
    }
    if !is_file {
        return None;
    }
    match ext_matches(path, allowed_exts) {
        Some(true) => Some(strip_or_default(path, prefix)),
        _ => None,
    }
}

} // verus!
