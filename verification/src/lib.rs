//! Engine of a parallel file finder: the entry model, the ordering of
//! entries by path, line formatting, and the receiver that buffers a fast
//! scan for sorted output and streams a slow one.

pub mod dir_entry;
pub mod exit_codes;
pub mod filesystem;
pub mod order;
pub mod output;
pub mod search;
pub mod trace;
pub mod walk;
