//! Recovery of the last visited world from the client's log text.
//!
//! The log is an ordered sequence of lines, appended chronologically.  The
//! scan walks the lines from the last to the first and stops at the first line
//! that contains the join marker and neither of the two exclusion markers.
//! From that line, the text after the last occurrence of `"] Joining "` is the
//! world identifier; a line that ends at the marker yields nothing, and the
//! scan is then over: there is no fallback to an earlier line.

use vstd::prelude::*;
use vstd::string::StrSliceExecFns;
use crate::lines::{lines_of, split_lines};
use crate::text::{
    contains_seq, contains_str, last_match, lemma_last_match_unique, match_at, rfind_str,
};

verus! {

/// A line about joining a world instance carries this marker.
pub open spec fn join_marker() -> Seq<char> {
    "[Behaviour] Joining "@
}

/// Excluded: the room line does not name a world the user was in.
pub open spec fn room_marker() -> Seq<char> {
    "] Joining or Creating Room: "@
}

/// Excluded: the friend line names a person, not a world.
pub open spec fn friend_marker() -> Seq<char> {
    "] Joining friend: "@
}

/// The identifier begins after the last occurrence of this marker.
pub open spec fn sep_marker() -> Seq<char> {
    "] Joining "@
}

/// A line is selected when it carries the join marker and neither exclusion.
pub open spec fn qualifies(line: Seq<char>) -> bool {
    contains_seq(line, join_marker()) && !contains_seq(line, room_marker()) && !contains_seq(
        line,
        friend_marker(),
    )
}

/// The largest index below `n` of a qualifying line, or `-1`.
pub open spec fn last_qualifying_before(lines: Seq<Seq<char>>, n: int) -> int
    decreases n,
{
    if n <= 0 {
        -1
    } else if qualifies(lines[n - 1]) {
        n - 1
    } else {
        last_qualifying_before(lines, n - 1)
    }
}

/// The index of the qualifying line closest to the end, or `-1`.
pub open spec fn last_qualifying(lines: Seq<Seq<char>>) -> int {
    last_qualifying_before(lines, lines.len() as int)
}

/// What a selected line yields: the text after the last separator marker,
/// or nothing when the line ends at the marker.
pub open spec fn world_id_of_line(line: Seq<char>) -> Option<Seq<char>> {
    let lm = last_match(line, sep_marker());
    if lm < 0 {
        None
    } else if lm + sep_marker().len() >= line.len() {
        None
    } else {
        Some(line.subrange(lm + sep_marker().len() as int, line.len() as int))
    }
}

/// The world identifier recovered from a whole log, line by line from the end.
pub open spec fn extract_spec(lines: Seq<Seq<char>>) -> Option<Seq<char>> {
    let k = last_qualifying(lines);
    if k < 0 {
        None
    } else {
        world_id_of_line(lines[k])
    }
}

/// The join marker carries the separator marker inside it, so a qualifying
/// line always has a separator occurrence.
pub proof fn lemma_join_contains_sep(s: Seq<char>)
    requires
        contains_seq(s, join_marker()),
    ensures
        contains_seq(s, sep_marker()),
{
    reveal_strlit("[Behaviour] Joining ");
    reveal_strlit("] Joining ");
    let i = choose|i: int| match_at(s, join_marker(), i);
    assert(s.subrange(i, i + 20) == join_marker());
    assert(match_at(s, sep_marker(), i + 10)) by {
        assert forall|t: int| 0 <= t < 10 implies s[i + 10 + t] == sep_marker()[t] by {
            assert(s[i + 10 + t] == s.subrange(i, i + 20)[10 + t]);
        }
        assert(s.subrange(i + 10, i + 20) =~= sep_marker());
    }
}

/// Scan the log lines from the end for the last visited world.
///
/// The result is exactly `extract_spec` of the lines: the qualifying line
/// closest to the end decides, and within it the text after the last
/// separator marker.
pub fn extract_last_world_id_from_lines(lines: &Vec<String>) -> (r: Option<String>)
    ensures
        r.deep_view() == extract_spec(lines.deep_view()),
{
    let ghost lv = lines.deep_view();
    let mut idx: usize = lines.len();
    while idx > 0
        invariant
            lv == lines.deep_view(),
            idx <= lines.len(),
            last_qualifying_before(lv, idx as int) == last_qualifying(lv),
        decreases idx,
    {
        idx -= 1;
        let line: &String = &lines[idx];
        proof {
            assert(lv[idx as int] == line@);
        }
        if contains_str(line.as_str(), "[Behaviour] Joining ") && !contains_str(
            line.as_str(),
            "] Joining or Creating Room: ",
        ) && !contains_str(line.as_str(), "] Joining friend: ") {
            proof {
                assert(qualifies(lv[idx as int]));
                assert(last_qualifying(lv) == idx as int);
                lemma_join_contains_sep(line@);
            }
            let sep = "] Joining ";
            let pos = match rfind_str(line.as_str(), sep) {
                Some(pos) => pos,
                None => {
                    proof {
                        assert(false);
                    }
                    return None;
                },
            };
            let m = sep.unicode_len();
            let n = line.as_str().unicode_len();
            assert(pos + m <= n);
            if pos + m >= n {
                return None;
            }
            let id = line.as_str().substring_char(pos + m, n).to_owned();
            return Some(id);
        }
    }
    None
}

/// Recover the last visited world from a whole log text.
pub fn extract_last_world_id(text: &str) -> (r: Option<String>)
    ensures
        r.deep_view() == extract_spec(lines_of(text@)),
{
    let lines = split_lines(text);
    extract_last_world_id_from_lines(&lines)
}

/// A log in which no line carries the join marker yields no world.
pub proof fn lemma_no_join_marker_no_world(lines: Seq<Seq<char>>)
    requires
        forall|k: int| 0 <= k < lines.len() ==> !contains_seq(#[trigger] lines[k], join_marker()),
    ensures
        extract_spec(lines) is None,
{
    lemma_no_qualifying_before(lines, lines.len() as int);
}

proof fn lemma_no_qualifying_before(lines: Seq<Seq<char>>, n: int)
    requires
        n <= lines.len(),
        forall|k: int| 0 <= k < lines.len() ==> !contains_seq(#[trigger] lines[k], join_marker()),
    ensures
        last_qualifying_before(lines, n) == -1,
    decreases n,
{
    if n > 0 {
        assert(!qualifies(lines[n - 1]));
        lemma_no_qualifying_before(lines, n - 1);
    }
}

proof fn lemma_selected_qualifies(lines: Seq<Seq<char>>, n: int)
    ensures
        last_qualifying_before(lines, n) >= 0 ==> last_qualifying_before(lines, n) < n
            && qualifies(lines[last_qualifying_before(lines, n)]),
    decreases n,
{
    if n > 0 {
        lemma_selected_qualifies(lines, n - 1);
    }
}

/// A line carrying an exclusion marker is never the selected line.
pub proof fn lemma_excluded_line_not_selected(lines: Seq<Seq<char>>, k: int)
    requires
        0 <= k < lines.len(),
        contains_seq(lines[k], room_marker()) || contains_seq(lines[k], friend_marker()),
    ensures
        last_qualifying(lines) != k,
{
    lemma_selected_qualifies(lines, lines.len() as int);
}

proof fn lemma_no_qualifying_after(lines: Seq<Seq<char>>, j: int, n: int)
    requires
        last_qualifying_before(lines, n) < j < n,
    ensures
        !qualifies(lines[j]),
    decreases n,
{
    if j < n - 1 {
        lemma_no_qualifying_after(lines, j, n - 1);
    }
}

/// Scan-from-end: every line after the selected one fails the test, so of
/// several qualifying lines the one closest to the end wins.
pub proof fn lemma_scan_from_end(lines: Seq<Seq<char>>, j: int)
    requires
        last_qualifying(lines) < j < lines.len(),
    ensures
        !qualifies(lines[j]),
{
    lemma_no_qualifying_after(lines, j, lines.len() as int);
}

/// A selected line that ends exactly at the separator marker yields nothing
/// at all, not an empty identifier.
pub proof fn lemma_marker_at_end_yields_none(lines: Seq<Seq<char>>)
    requires
        last_qualifying(lines) >= 0,
        last_match(lines[last_qualifying(lines)], sep_marker()) + sep_marker().len()
            >= lines[last_qualifying(lines)].len(),
    ensures
        extract_spec(lines) is None,
{
}

} // verus!
