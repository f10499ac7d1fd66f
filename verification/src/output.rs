//! The line that an entry is printed as.

use vstd::prelude::*;
use vstd::utf8::encode_utf8;
use crate::dir_entry::DirEntry;
use crate::filesystem::stripped;

verus! {

/// The byte that ends a directory's path.
pub const PATH_SEPARATOR: u8 = 47;

/// The byte that ends a line.
pub const LINE_TERMINATOR: u8 = 10;

/// What follows a path on its line: the separator for a directory, nothing
/// for anything else.
pub open spec fn trailing_slash(entry: DirEntry) -> Seq<u8> {
    if entry.spec_is_dir() {
        seq![PATH_SEPARATOR]
    } else {
        Seq::empty()
    }
}

/// The line of an entry: its path without a leading current-directory
/// component, the separator if it is a directory, and the line terminator.
pub open spec fn line_of(entry: DirEntry) -> Seq<u8> {
    encode_utf8(stripped(entry.path@)) + trailing_slash(entry) + seq![LINE_TERMINATOR]
}

/// The lines of `entries`, one after the other.
pub open spec fn lines_of(entries: Seq<DirEntry>) -> Seq<u8>
    decreases entries.len(),
{
    if entries.len() == 0 {
        Seq::empty()
    } else {
        lines_of(entries.drop_last()) + line_of(entries.last())
    }
}

/// Appends `bytes` to `stdout`.
pub fn write_bytes(stdout: &mut Vec<u8>, bytes: &[u8])
    ensures
        final(stdout)@ == old(stdout)@ + bytes@,
{
    let mut i: usize = 0;
    while i < bytes.len()
        invariant
            i <= bytes@.len(),
            stdout@ == old(stdout)@ + bytes@.take(i as int),
        decreases bytes.len() - i,
    {
        stdout.push(bytes[i]);
        proof {
            assert(bytes@.take(i + 1) =~= bytes@.take(i as int).push(bytes@[i as int]));
            assert(stdout@ =~= old(stdout)@ + bytes@.take(i + 1));
        }
        i += 1;
    }
    proof {
        assert(bytes@.take(i as int) =~= bytes@);
    }
}

/// Appends the line of `entry` to `stdout`.
pub fn print_entry(stdout: &mut Vec<u8>, entry: &DirEntry)
    ensures
        final(stdout)@ == old(stdout)@ + line_of(*entry),
{
    print_entry_uncolorized(stdout, entry)
}

/// Appends the line of `entry` to `stdout`, without colors.
pub fn print_entry_uncolorized_base(stdout: &mut Vec<u8>, entry: &DirEntry)
    ensures
        final(stdout)@ == old(stdout)@ + line_of(*entry),
{
    let path = entry.stripped_path();
    write_bytes(stdout, path.as_bytes());
    print_trailing_slash(stdout, entry);
    stdout.push(LINE_TERMINATOR);
    proof {
        assert(stdout@ =~= old(stdout)@ + line_of(*entry));
    }
}

/// Appends the path separator to `stdout` if `entry` is a directory.
pub fn print_trailing_slash(stdout: &mut Vec<u8>, entry: &DirEntry)
    ensures
        final(stdout)@ == old(stdout)@ + trailing_slash(*entry),
{
    if entry.is_dir() {
        stdout.push(PATH_SEPARATOR);
    }
    proof {
        assert(stdout@ =~= old(stdout)@ + trailing_slash(*entry));
    }
}

/// Appends the line of `entry` to `stdout`, without colors.
pub fn print_entry_uncolorized(stdout: &mut Vec<u8>, entry: &DirEntry)
    ensures
        final(stdout)@ == old(stdout)@ + line_of(*entry),
{
    print_entry_uncolorized_base(stdout, entry)
}

/// The lines of `entries`, in their order.
pub fn render(entries: &Vec<DirEntry>) -> (text: Vec<u8>)
    ensures
        text@ == lines_of(entries@),
{
    let mut text: Vec<u8> = Vec::new();
    let mut i: usize = 0;
    while i < entries.len()
        invariant
            i <= entries@.len(),
            text@ == lines_of(entries@.take(i as int)),
        decreases entries.len() - i,
    {
        print_entry(&mut text, &entries[i]);
        proof {
            assert(entries@.take(i + 1).drop_last() =~= entries@.take(i as int));
        }
        i += 1;
    }
    proof {
        assert(entries@.take(i as int) =~= entries@);
    }
    text
}

} // verus!
