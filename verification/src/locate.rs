//! Selection of the most recent log file.
//!
//! The client writes its logs into one directory under names of a fixed
//! shape.  Given the directory's entries, each with its name and its creation
//! timestamp, the most recently created entry of that shape is the log to
//! read.  Listing the directory is the caller's business; this module only
//! chooses.

use vstd::prelude::*;
use crate::text::{ends_with_seq, ends_with_str, starts_with_seq, starts_with_str};

verus! {

/// A log file's name begins with this.
pub open spec fn log_prefix() -> Seq<char> {
    "output_log_"@
}

/// A log file's name ends with this.
pub open spec fn log_suffix() -> Seq<char> {
    ".txt"@
}

/// A directory entry as the locator sees it: a file name and the file's
/// creation timestamp.
pub struct LogEntry {
    pub name: String,
    pub created: u64,
}

/// The name fits the log-file naming convention.
pub open spec fn is_log_name(name: Seq<char>) -> bool {
    starts_with_seq(name, log_prefix()) && ends_with_seq(name, log_suffix())
}

/// Whether a file name fits the log-file naming convention.
pub fn matches_log_name(name: &str) -> (r: bool)
    ensures
        r == is_log_name(name@),
{
    starts_with_str(name, "output_log_") && ends_with_str(name, ".txt")
}

/// Choose the most recently created entry whose name fits the convention.
///
/// The result is an index into `entries`: a fitting entry of maximal
/// timestamp, the first such when several share it.  There is none exactly
/// when no entry fits.
pub fn find_latest_log(entries: &Vec<LogEntry>) -> (r: Option<usize>)
    ensures
        match r {
            Some(i) => i < entries.len() && is_log_name(entries[i as int].name@) && (forall|k: int|
                0 <= k < entries.len() && is_log_name(#[trigger] entries[k].name@)
                    ==> entries[k].created <= entries[i as int].created) && (forall|k: int|
                0 <= k < i && is_log_name(#[trigger] entries[k].name@) ==> entries[k].created
                    < entries[i as int].created),
            None => forall|k: int|
                0 <= k < entries.len() ==> !is_log_name(#[trigger] entries[k].name@),
        },
{
    let mut best: Option<usize> = None;
    let mut idx: usize = 0;
    while idx < entries.len()
        invariant
            idx <= entries.len(),
            match best {
                Some(i) => i < idx && is_log_name(entries[i as int].name@) && (forall|k: int|
                    0 <= k < idx && is_log_name(#[trigger] entries[k].name@) ==> entries[k].created
                        <= entries[i as int].created) && (forall|k: int|
                    0 <= k < i && is_log_name(#[trigger] entries[k].name@) ==> entries[k].created
                        < entries[i as int].created),
                None => forall|k: int| 0 <= k < idx ==> !is_log_name(#[trigger] entries[k].name@),
            },
        decreases entries.len() - idx,
    {
        if matches_log_name(entries[idx].name.as_str()) {
            match best {
                None => {
                    best = Some(idx);
                },
                Some(i) => {
                    if entries[i].created < entries[idx].created {
                        best = Some(idx);
                    }
                },
            }
        }
        idx += 1;
    }
    best
}

} // verus!
