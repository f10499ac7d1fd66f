//! Paths as text: the questions the engine asks of a path, and the forms it
//! puts one into. Whatever needs the disk is answered by the caller and
//! handed in as plain values.

use vstd::prelude::*;
use std::path::Path;

verus! {

/// The final component that `Path::file_name` finds in `path`, if any.
pub uninterp spec fn path_file_name(path: Seq<char>) -> Option<Seq<char>>;

/// Whether `Path::is_absolute` holds of `path`.
pub uninterp spec fn path_is_absolute(path: Seq<char>) -> bool;

/// What `Path::strip_prefix` leaves of `path` behind `base`, if `path`
/// starts with the components of `base`.
pub uninterp spec fn path_without_prefix(path: Seq<char>, base: Seq<char>) -> Option<Seq<char>>;

/// The path that `Path::join` makes of `base` and `path`.
pub uninterp spec fn path_joined(base: Seq<char>, path: Seq<char>) -> Seq<char>;

/// The name of the current directory as a path.
pub open spec fn current_dir_name() -> Seq<char> {
    seq!['.']
}

/// `path` without a leading current-directory component.
pub open spec fn stripped(path: Seq<char>) -> Seq<char> {
    match path_without_prefix(path, current_dir_name()) {
        Some(rest) => rest,
        None => path,
    }
}

/// `path` itself if it is absolute, else `path`, without a leading
/// current-directory component, below `current_dir`.
pub open spec fn absolute_form(path: Seq<char>, current_dir: Seq<char>) -> Seq<char> {
    if path_is_absolute(path) {
        path
    } else {
        path_joined(current_dir, stripped(path))
    }
}

/// Calls `Path::file_name`, which gives the final component of the path
/// unless the path ends in `..` or has no component to name. The result is
/// taken to depend on the text of the path alone.
#[verifier::external_body]
fn file_name(path: &str) -> (name: Option<String>)
    ensures
        match name {
            Some(text) => path_file_name(path@) == Some(text@),
            None => path_file_name(path@).is_none(),
        },
{
    match Path::new(path).file_name() {
        Some(name) => Some(name.to_string_lossy().into_owned()),
        None => None,
    }
}

/// Calls `Path::is_absolute`. The result is taken to depend on the text of
/// the path alone.
#[verifier::external_body]
fn is_absolute(path: &str) -> (absolute: bool)
    ensures
        absolute == path_is_absolute(path@),
{
    Path::new(path).is_absolute()
}

/// Calls `Path::strip_prefix`: `None` where `path` does not start with
/// `base`, else the rest of `path`, which is a part of the same text.
#[verifier::external_body]
fn strip_prefix<'a>(path: &'a str, base: &str) -> (rest: Option<&'a str>)
    ensures
        match rest {
            Some(r) => path_without_prefix(path@, base@) == Some(r@),
            None => path_without_prefix(path@, base@).is_none(),
        },
{
    match Path::new(path).strip_prefix(base) {
        Ok(rest) => rest.to_str(),
        Err(_) => None,
    }
}

/// Calls `Path::join`, which puts `path` below `base`, or returns `path`
/// where it is absolute.
#[verifier::external_body]
fn join(base: &str, path: &str) -> (joined: String)
    ensures
        joined@ == path_joined(base@, path@),
{
    Path::new(base).join(path).to_string_lossy().into_owned()
}

/// Whether `path` names a directory that is still there. `is_dir` says
/// whether the filesystem shows a directory at `path`, `normalizes` whether
/// the path can be normalized. A path without a final component, such as
/// `.`, may show as a directory after it was deleted, so it must normalize
/// too.
pub fn is_existing_directory(path: &str, is_dir: bool, normalizes: bool) -> (there: bool)
    ensures
        there == (is_dir && (path_file_name(path@).is_some() || normalizes)),
{
    is_dir && (file_name(path).is_some() || normalizes)
}

/// The absolute form of `path` when the working directory is `current_dir`.
pub fn path_absolute_form(path: &str, current_dir: &str) -> (absolute: String)
    ensures
        absolute@ == absolute_form(path@, current_dir@),
{
    if is_absolute(path) {
        return path.to_owned();
    }
    let path = strip_current_dir(path);
    join(current_dir, path)
}

/// The absolute path of `path` when the working directory is `current_dir`.
pub fn absolute_path(path: &str, current_dir: &str) -> (absolute: String)
    ensures
        absolute@ == absolute_form(path@, current_dir@),
{
    path_absolute_form(path, current_dir)
}

/// Removes a leading current-directory component from a path.
pub fn strip_current_dir<'a>(path: &'a str) -> (rest: &'a str)
    ensures
        rest@ == stripped(path@),
{
    proof {
        reveal_strlit(".");
        assert("."@ =~= current_dir_name());
    }
    match strip_prefix(path, ".") {
        Some(rest) => rest,
        None => path,
    }
}

/// Replaces each search path by its absolute form.
pub fn update_to_absolute_paths(search_paths: &mut Vec<String>, current_dir: &str)
    ensures
        final(search_paths)@.len() == old(search_paths)@.len(),
        forall|i: int|
            0 <= i < old(search_paths)@.len() ==> (#[trigger] final(search_paths)@[i])@
                == absolute_form(old(search_paths)@[i]@, current_dir@),
{
    let mut absolute: Vec<String> = Vec::new();
    let mut i: usize = 0;
    while i < search_paths.len()
        invariant
            i <= search_paths@.len(),
            search_paths@ == old(search_paths)@,
            absolute@.len() == i,
            forall|k: int|
                0 <= k < i ==> (#[trigger] absolute@[k])@ == absolute_form(
                    search_paths@[k]@,
                    current_dir@,
                ),
        decreases search_paths.len() - i,
    {
        absolute.push(absolute_path(search_paths[i].as_str(), current_dir));
        i += 1;
    }
    *search_paths = absolute;
}

} // verus!
