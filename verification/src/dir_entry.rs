//! One discovered filesystem object.

use vstd::prelude::*;
use crate::filesystem::{strip_current_dir, stripped};

verus! {

/// What kind of object an entry is.
#[derive(Clone, Copy, Debug, PartialEq, Eq, Structural)]
pub enum FileType {
    Regular,
    Directory,
    Symlink,
    Other,
}

/// A traversal result: the path as discovered (under the search root), how
/// deep below the root it lies, and its kind where that is known.
///
/// An entry is built once and only moved afterwards.
#[derive(Debug)]
pub struct DirEntry {
    pub path: String,
    pub depth: usize,
    pub file_type: Option<FileType>,
}

impl DirEntry {
    /// The bytes of the path, by which entries are ordered.
    pub open spec fn key(self) -> Seq<u8> {
        vstd::utf8::encode_utf8(self.path@)
    }

    /// Whether the entry is known to be a directory.
    pub open spec fn spec_is_dir(self) -> bool {
        self.file_type == Some(FileType::Directory)
    }

    pub fn new(path: String, depth: usize, file_type: Option<FileType>) -> (entry: DirEntry)
        ensures
            entry.path == path,
            entry.depth == depth,
            entry.file_type == file_type,
    {
        DirEntry { path, depth, file_type }
    }

    pub fn path(&self) -> (path: &str)
        ensures
            path@ == self.path@,
    {
        self.path.as_str()
    }

    /// The path as it is shown: without a leading current-directory component.
    pub fn stripped_path(&self) -> (shown: &str)
        ensures
            shown@ == stripped(self.path@),
    {
        strip_current_dir(self.path.as_str())
    }

    pub fn depth(&self) -> (depth: usize)
        ensures
            depth == self.depth,
    {
        self.depth
    }

    pub fn file_type(&self) -> (file_type: Option<FileType>)
        ensures
            file_type == self.file_type,
    {
        self.file_type
    }

    pub fn is_dir(&self) -> (dir: bool)
        ensures
            dir == self.spec_is_dir(),
    {
        match self.file_type {
            Some(FileType::Directory) => true,
            _ => false,
        }
    }
}

} // verus!
