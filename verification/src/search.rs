//! What a search is asked for: the pattern, compiled, and the directories to
//! search. The caller asks the filesystem and hands in the answers.

use vstd::prelude::*;
use vstd::utf8::encode_utf8;
use crate::filesystem::{is_existing_directory, path_file_name};
use crate::output::PATH_SEPARATOR;

verus! {

/// `regex::bytes::Regex`, a compiled expression; nothing is known of its inside.
#[verifier::external_type_specification]
#[verifier::external_body]
pub struct ExRegex(regex::bytes::Regex);

/// `regex::Error`, carried from the compiler of expressions to its message.
#[verifier::external_type_specification]
#[verifier::external_body]
pub struct ExRegexError(regex::Error);

/// `globset::Error`, carried from the parser of globs to its message.
#[verifier::external_type_specification]
#[verifier::external_body]
pub struct ExGlobError(globset::Error);

/// The regular expression that `globset` makes of a glob pattern, or `None`
/// where it rejects the pattern.
pub uninterp spec fn glob_regex(pattern: Seq<char>, literal_separator: bool) -> Option<Seq<char>>;

/// Whether `regex` accepts a pattern for matching on bytes.
pub uninterp spec fn regex_compiles(
    pattern: Seq<char>,
    case_insensitive: bool,
    dot_matches_new_line: bool,
) -> bool;

/// Why a search could not be set up.
#[derive(Debug)]
pub enum SearchError {
    /// The base directory, named here, is not a directory.
    BaseDirectoryNotADirectory(String),
    /// The search pattern is not valid UTF-8.
    InvalidPatternEncoding,
    /// None of the given search paths is a directory.
    NoValidSearchPaths,
    /// The current directory is gone.
    CurrentDirectoryMissing,
    /// The pattern, given here, holds a path separator and names a directory.
    PatternIsAPath(String),
    /// The glob pattern was rejected, with this message.
    InvalidGlob(String),
    /// The regular expression was rejected, with this message.
    InvalidRegex(String),
}

/// A path together with what the filesystem said of it.
#[derive(Debug)]
pub struct PathProbe {
    pub path: String,
    /// Whether the path shows as a directory.
    pub is_dir: bool,
    /// Whether the path could be normalized.
    pub normalizes: bool,
}

impl PathProbe {
    /// Whether the path names a directory that is still there.
    pub open spec fn is_there(self) -> bool {
        self.is_dir && (path_file_name(self.path@).is_some() || self.normalizes)
    }

    pub fn new(path: String, is_dir: bool, normalizes: bool) -> (probe: PathProbe)
        ensures
            probe.path == path,
            probe.is_dir == is_dir,
            probe.normalizes == normalizes,
    {
        PathProbe { path, is_dir, normalizes }
    }

    /// Whether the path names a directory that is still there.
    pub fn is_existing_directory(&self) -> (there: bool)
        ensures
            there == self.is_there(),
    {
        is_existing_directory(self.path.as_str(), self.is_dir, self.normalizes)
    }
}

/// The text of each path.
pub open spec fn texts(paths: Seq<String>) -> Seq<Seq<char>> {
    paths.map_values(|path: String| path@)
}

/// The paths among `probes` that name existing directories, in order.
pub open spec fn accepted(probes: Seq<PathProbe>) -> Seq<Seq<char>>
    decreases probes.len(),
{
    if probes.len() == 0 {
        Seq::empty()
    } else if probes.last().is_there() {
        accepted(probes.drop_last()).push(probes.last().path@)
    } else {
        accepted(probes.drop_last())
    }
}

/// The paths among `probes` that do not name existing directories, in order.
pub open spec fn rejected(probes: Seq<PathProbe>) -> Seq<Seq<char>>
    decreases probes.len(),
{
    if probes.len() == 0 {
        Seq::empty()
    } else if probes.last().is_there() {
        rejected(probes.drop_last())
    } else {
        rejected(probes.drop_last()).push(probes.last().path@)
    }
}

/// The directories to search, and the given paths that were turned down.
#[derive(Debug)]
pub struct Extraction {
    /// The given paths that are no directories, to be reported.
    pub rejected: Vec<String>,
    /// The directories to search, or why there are none.
    pub paths: Result<Vec<String>, SearchError>,
}

/// Calls `globset::GlobBuilder` on `pattern` and returns the regular
/// expression of the glob it built, or the error it gave.
#[verifier::external_body]
fn glob_to_regex(pattern: &str, literal_separator: bool) -> (regex: Result<String, globset::Error>)
    ensures
        match regex {
            Ok(text) => glob_regex(pattern@, literal_separator) == Some(text@),
            Err(_) => glob_regex(pattern@, literal_separator).is_none(),
        },
{
    match globset::GlobBuilder::new(pattern).literal_separator(literal_separator).build() {
        Ok(glob) => Ok(glob.regex().to_owned()),
        Err(error) => Err(error),
    }
}

/// Calls `to_string` on a `globset::Error`; nothing is claimed of the text.
#[verifier::external_body]
fn glob_error_message(error: &globset::Error) -> (message: String) {
    error.to_string()
}

/// Calls `regex::bytes::RegexBuilder` on `pattern` with the two options
/// and builds the expression. Whether it succeeds is taken to depend on
/// the pattern and the options alone.
#[verifier::external_body]
fn compile_regex(pattern: &str, case_insensitive: bool, dot_matches_new_line: bool) -> (regex:
    Result<regex::bytes::Regex, regex::Error>)
    ensures
        regex.is_ok() == regex_compiles(pattern@, case_insensitive, dot_matches_new_line),
{
    regex::bytes::RegexBuilder::new(pattern)
        .case_insensitive(case_insensitive)
        .dot_matches_new_line(dot_matches_new_line)
        .build()
}

/// Calls `to_string` on a `regex::Error`; nothing is claimed of the text.
#[verifier::external_body]
fn regex_error_message(error: &regex::Error) -> (message: String) {
    error.to_string()
}

/// Decides whether to change the working directory: `Ok(true)` where a base
/// directory is given and exists, `Ok(false)` where none is given.
pub fn set_working_dir(base_directory: Option<&PathProbe>) -> (change: Result<bool, SearchError>)
    ensures
        match base_directory {
            None => change == Ok::<bool, SearchError>(false),
            Some(probe) => if probe.is_there() {
                change == Ok::<bool, SearchError>(true)
            } else {
                change matches Err(SearchError::BaseDirectoryNotADirectory(path)) && path@
                    == probe.path@
            },
        },
{
    match base_directory {
        None => Ok(false),
        Some(probe) => {
            if probe.is_existing_directory() {
                Ok(true)
            } else {
                Err(SearchError::BaseDirectoryNotADirectory(probe.path.clone()))
            }
        },
    }
}

/// The search pattern: empty where none is given. `Some(None)` stands for a
/// pattern that is not valid UTF-8.
pub fn extract_search_pattern(pattern: Option<Option<String>>) -> (text: Result<
    String,
    SearchError,
>)
    ensures
        match pattern {
            None => text is Ok && text->Ok_0@ == Seq::<char>::empty(),
            Some(None) => text matches Err(SearchError::InvalidPatternEncoding),
            Some(Some(given)) => text == Ok::<String, SearchError>(given),
        },
{
    match pattern {
        None => {
            let text = String::new();
            Ok(text)
        },
        Some(None) => Err(SearchError::InvalidPatternEncoding),
        Some(Some(given)) => Ok(given),
    }
}

/// Picks the directories to search. Of the given paths those that are
/// existing directories are kept, in order, and the others turned down;
/// where no path is given the current directory is searched.
pub fn extract_search_paths(given: Option<Vec<PathProbe>>, current_directory: &PathProbe) -> (found:
    Extraction)
    ensures
        match given {
            None => {
                &&& found.rejected@.len() == 0
                &&& if current_directory.is_there() {
                    found.paths is Ok && texts(found.paths->Ok_0@) == seq![
                        current_directory.path@,
                    ]
                } else {
                    found.paths matches Err(SearchError::CurrentDirectoryMissing)
                }
            },
            Some(probes) => {
                &&& texts(found.rejected@) == rejected(probes@)
                &&& if accepted(probes@).len() == 0 {
                    found.paths matches Err(SearchError::NoValidSearchPaths)
                } else {
                    found.paths is Ok && texts(found.paths->Ok_0@) == accepted(probes@)
                }
            },
        },
{
    match given {
        None => {
            let rejected: Vec<String> = Vec::new();
            match ensure_current_directory_exists(current_directory) {
                Ok(()) => {
                    let mut paths: Vec<String> = Vec::new();
                    paths.push(current_directory.path.clone());
                    proof {
                        assert(texts(paths@) =~= seq![current_directory.path@]);
                    }
                    Extraction { rejected, paths: Ok(paths) }
                },
                Err(error) => Extraction { rejected, paths: Err(error) },
            }
        },
        Some(probes) => {
            let mut kept: Vec<String> = Vec::new();
            let mut rejected_paths: Vec<String> = Vec::new();
            let mut i: usize = 0;
            proof {
                assert(texts(kept@) =~= accepted(probes@.take(0)));
                assert(texts(rejected_paths@) =~= rejected(probes@.take(0)));
            }
            while i < probes.len()
                invariant
                    i <= probes@.len(),
                    texts(kept@) == accepted(probes@.take(i as int)),
                    texts(rejected_paths@) == rejected(probes@.take(i as int)),
                decreases probes.len() - i,
            {
                let ghost before_kept = kept@;
                let ghost before_rejected = rejected_paths@;
                let path = probes[i].path.clone();
                if probes[i].is_existing_directory() {
                    kept.push(path);
                    proof {
                        assert(texts(kept@) =~= texts(before_kept).push(path@));
                    }
                } else {
                    rejected_paths.push(path);
                    proof {
                        assert(texts(rejected_paths@) =~= texts(before_rejected).push(path@));
                    }
                }
                proof {
                    assert(probes@.take(i + 1).drop_last() =~= probes@.take(i as int));
                }
                i += 1;
            }
            proof {
                assert(probes@.take(i as int) =~= probes@);
            }
            if kept.len() == 0 {
                Extraction { rejected: rejected_paths, paths: Err(SearchError::NoValidSearchPaths) }
            } else {
                Extraction { rejected: rejected_paths, paths: Ok(kept) }
            }
        },
    }
}

/// Fails where the current directory is gone.
pub fn ensure_current_directory_exists(current_directory: &PathProbe) -> (checked: Result<
    (),
    SearchError,
>)
    ensures
        current_directory.is_there() ==> checked is Ok,
        !current_directory.is_there() ==> checked matches Err(SearchError::CurrentDirectoryMissing),
{
    if current_directory.is_existing_directory() {
        Ok(())
    } else {
        Err(SearchError::CurrentDirectoryMissing)
    }
}

/// Whether the text of a pattern holds the path separator.
pub open spec fn holds_separator(pattern: Seq<char>) -> bool {
    encode_utf8(pattern).contains(PATH_SEPARATOR)
}

/// Fails where a pattern that is matched against file names only holds a
/// path separator and names a directory: it was meant as a search path.
pub fn ensure_search_pattern_is_not_a_path(full_path: bool, pattern: &str, is_dir: bool) -> (checked:
    Result<(), SearchError>)
    ensures
        if !full_path && holds_separator(pattern@) && is_dir {
            checked matches Err(SearchError::PatternIsAPath(text)) && text@ == pattern@
        } else {
            checked is Ok
        },
{
    if full_path || !is_dir {
        return Ok(());
    }
    let bytes = pattern.as_bytes();
    let mut i: usize = 0;
    while i < bytes.len()
        invariant
            i <= bytes@.len(),
            !full_path,
            is_dir,
            bytes@ == encode_utf8(pattern@),
            forall|k: int| 0 <= k < i ==> bytes@[k] != PATH_SEPARATOR,
        decreases bytes.len() - i,
    {
        if bytes[i] == PATH_SEPARATOR {
            proof {
                assert(bytes@[i as int] == PATH_SEPARATOR);
                assert(encode_utf8(pattern@).contains(PATH_SEPARATOR));
            }
            return Err(SearchError::PatternIsAPath(pattern.to_owned()));
        }
        i += 1;
    }
    Ok(())
}

/// The regular expression to search with: that of the glob where a glob
/// search of a pattern that is not empty is asked for, else the pattern.
pub fn build_pattern_regex(glob: bool, pattern: &str) -> (regex: Result<String, SearchError>)
    ensures
        if glob && pattern@.len() > 0 {
            match glob_regex(pattern@, true) {
                Some(text) => regex is Ok && regex->Ok_0@ == text,
                None => regex matches Err(SearchError::InvalidGlob(_)),
            }
        } else {
            regex is Ok && regex->Ok_0@ == pattern@
        },
{
    if glob && !pattern.is_empty() {
        match glob_to_regex(pattern, true) {
            Ok(text) => Ok(text),
            Err(error) => Err(SearchError::InvalidGlob(glob_error_message(&error))),
        }
    } else {
        Ok(pattern.to_owned())
    }
}

/// Compiles the regular expression of a search: case is told apart and a
/// dot matches a line break too.
pub fn build_regex(pattern_regex: String) -> (regex: Result<regex::bytes::Regex, SearchError>)
    ensures
        regex is Ok == regex_compiles(pattern_regex@, false, true),
        regex is Err ==> regex matches Err(SearchError::InvalidRegex(_)),
{
    match compile_regex(pattern_regex.as_str(), false, true) {
        Ok(compiled) => Ok(compiled),
        Err(error) => Err(SearchError::InvalidRegex(regex_error_message(&error))),
    }
}

} // verus!
