//! Splitting a log text into its lines.
//!
//! A log is newline-delimited text.  Lines are the pieces between `'\n'`
//! characters; a `'\r'` immediately before a `'\n'` belongs to the line
//! ending and is stripped, one at the very end of the text does not.  A final
//! line ending is optional and opens no empty last line.

use vstd::prelude::*;
use vstd::string::StrSliceExecFns;

verus! {

/// Drop one carriage return off the end of a line, if there is one.
pub open spec fn strip_cr(l: Seq<char>) -> Seq<char> {
    if l.len() > 0 && l.last() == '\r' {
        l.drop_last()
    } else {
        l
    }
}

/// The lines of `s`, with `cur` the piece of the current line read so far.
pub open spec fn lines_acc(s: Seq<char>, cur: Seq<char>) -> Seq<Seq<char>>
    decreases s.len(),
{
    if s.len() == 0 {
        if cur.len() == 0 {
            Seq::empty()
        } else {
            seq![cur]
        }
    } else if s[0] == '\n' {
        seq![strip_cr(cur)] + lines_acc(s.skip(1), Seq::empty())
    } else {
        lines_acc(s.skip(1), cur.push(s[0]))
    }
}

/// The lines of a text.
pub open spec fn lines_of(s: Seq<char>) -> Seq<Seq<char>> {
    lines_acc(s, Seq::empty())
}

/// Split a text into its lines.
pub fn split_lines(text: &str) -> (r: Vec<String>)
    ensures
        r.deep_view() == lines_of(text@),
{
    let n = text.unicode_len();
    let mut out: Vec<String> = Vec::new();
    let mut start: usize = 0;
    let mut i: usize = 0;
    proof {
        assert(text@.skip(0) =~= text@);
        assert(text@.subrange(0, 0) =~= Seq::<char>::empty());
        assert(out.deep_view() =~= Seq::<Seq<char>>::empty());
        assert(out.deep_view() + lines_acc(text@, Seq::<char>::empty()) =~= lines_of(text@));
    }
    while i < n
        invariant
            n == text@.len(),
            start <= i <= n,
            lines_of(text@) == out.deep_view() + lines_acc(
                text@.skip(i as int),
                text@.subrange(start as int, i as int),
            ),
        decreases n - i,
    {
        let ghost s = text@;
        proof {
            assert(s.skip(i as int)[0] == s[i as int]);
            assert(s.skip(i as int).skip(1) =~= s.skip(i + 1));
        }
        if text.get_char(i) == '\n' {
            let end = if i > start && text.get_char(i - 1) == '\r' {
                i - 1
            } else {
                i
            };
            proof {
                assert(s.subrange(start as int, end as int) =~= strip_cr(
                    s.subrange(start as int, i as int),
                ));
            }
            let line = text.substring_char(start, end).to_owned();
            let ghost old_out = out.deep_view();
            out.push(line);
            proof {
                assert(out.deep_view() =~= old_out.push(line@));
                assert(out.deep_view() + lines_acc(s.skip(i + 1), Seq::empty()) =~= old_out + (
                seq![strip_cr(s.subrange(start as int, i as int))] + lines_acc(
                    s.skip(i + 1),
                    Seq::empty(),
                )));
                assert(s.subrange(i + 1 as int, i + 1 as int) =~= Seq::<char>::empty());
            }
            start = i + 1;
        } else {
            proof {
                assert(s.subrange(start as int, i as int).push(s[i as int]) =~= s.subrange(
                    start as int,
                    i + 1,
                ));
            }
        }
        i += 1;
    }
    proof {
        assert(text@.skip(n as int).len() == 0);
    }
    if start < n {
        let line = text.substring_char(start, n).to_owned();
        let ghost old_out = out.deep_view();
        out.push(line);
        proof {
            assert(out.deep_view() =~= old_out.push(line@));
            assert(lines_acc(text@.skip(n as int), text@.subrange(start as int, n as int))
                =~= seq![text@.subrange(start as int, n as int)]);
            assert(out.deep_view() =~= lines_of(text@));
        }
    } else {
        proof {
            assert(text@.subrange(start as int, n as int).len() == 0);
            assert(lines_acc(text@.skip(n as int), text@.subrange(start as int, n as int))
                =~= Seq::<Seq<char>>::empty());
            assert(out.deep_view() =~= lines_of(text@));
        }
    }
    out
}

} // verus!
