//! The pending list: the repositories that a run is asked to star.
//!
//! The list comes as text, one identifier per line. A line ends at a line
//! feed, and a carriage return that stands directly before that line feed
//! belongs to the line ending. The last line needs no line ending. Nothing
//! else is interpreted: an empty line is an entry like any other, and an
//! identifier is not checked for its form.

use vstd::prelude::*;
use crate::text::{lemma_texts_push, texts};

verus! {

/// The place of the first line feed at or after `from`, or the length of the
/// text where there is none.
pub open spec fn line_end(text: Seq<char>, from: int) -> int
    decreases text.len() - from,
{
    if from < 0 || from >= text.len() || text[from] == '\n' {
        from
    } else {
        line_end(text, from + 1)
    }
}

/// A line without the carriage return that may close it.
pub open spec fn without_return(line: Seq<char>) -> Seq<char> {
    if line.len() > 0 && line.last() == '\r' {
        line.drop_last()
    } else {
        line
    }
}

/// The lines of `text` that start at or after `from`, where `from` is the
/// start of a line.
pub open spec fn lines_from(text: Seq<char>, from: int) -> Seq<Seq<char>>
    decreases text.len() - from,
{
    if from < 0 || from >= text.len() {
        Seq::empty()
    } else {
        let end = line_end(text, from);
        if end >= text.len() {
            seq![text.subrange(from, text.len() as int)]
        } else {
            proof {
                lemma_line_end_bounds(text, from);
            }
            seq![without_return(text.subrange(from, end))] + lines_from(text, end + 1)
        }
    }
}

/// The lines of a text, in order.
pub open spec fn lines_of(text: Seq<char>) -> Seq<Seq<char>> {
    lines_from(text, 0)
}

/// A line ends no earlier than it starts and no later than the text does,
/// and holds no line feed.
pub proof fn lemma_line_end_bounds(text: Seq<char>, from: int)
    requires
        0 <= from <= text.len(),
    ensures
        from <= line_end(text, from) <= text.len(),
        forall|k: int| from <= k < line_end(text, from) ==> text[k] != '\n',
        line_end(text, from) < text.len() ==> text[line_end(text, from)] == '\n',
    decreases text.len() - from,
{
    if from < text.len() && text[from] != '\n' {
        lemma_line_end_bounds(text, from + 1);
    }
}

/// A stretch without a line feed that is followed by one, or by the end of
/// the text, is a line.
proof fn lemma_line_end_found(text: Seq<char>, from: int, end: int)
    requires
        0 <= from <= end <= text.len(),
        forall|k: int| from <= k < end ==> text[k] != '\n',
        end < text.len() ==> text[end] == '\n',
    ensures
        line_end(text, from) == end,
    decreases end - from,
{
    if from < end {
        lemma_line_end_found(text, from + 1, end);
    }
}

/// Splits the text of a pending list into its entries.
pub fn pending_list(text: &str) -> (entries: Vec<String>)
    ensures
        texts(entries@) == lines_of(text@),
{
    let mut entries: Vec<String> = Vec::new();
    let mut line = String::new();
    // A carriage return was read and is not yet known to belong to the line.
    let mut held = false;
    // Something was read since the last line feed.
    let mut begun = false;
    let ghost mut start: int = 0;
    assert(texts(entries@) =~= Seq::<Seq<char>>::empty());
    for c in it: text.chars()
        invariant
            it.seq() == text@,
            0 <= start <= it.index() <= text@.len(),
            lines_of(text@) == texts(entries@) + lines_from(text@, start),
            forall|k: int| start <= k < it.index() ==> text@[k] != '\n',
            text@.subrange(start, it.index() as int) == if held {
                line@.push('\r')
            } else {
                line@
            },
            !held ==> line@.len() == 0 || line@.last() != '\r',
            begun == (start < it.index()),
    {
        let ghost at = it.index() as int;
        let ghost seen = text@.subrange(start, at);
        assert(text@.subrange(start, at + 1) == seen.push(c));
        if c == '\n' {
            proof {
                lemma_line_end_found(text@, start, at);
                assert(without_return(seen) == line@) by {
                    if held {
                        assert(line@.push('\r').drop_last() == line@);
                    }
                }
                lemma_texts_push(entries@, line);
                assert(texts(entries@) + lines_from(text@, start) == texts(entries@).push(
                    line@,
                ) + lines_from(text@, at + 1));
                start = at + 1;
            }
            entries.push(line);
            line = String::new();
            held = false;
            begun = false;
            assert(text@.subrange(start, at + 1) == line@);
        } else {
            if held {
                line.push('\r');
            }
            if c == '\r' {
                held = true;
            } else {
                line.push(c);
                held = false;
            }
            begun = true;
        }
    }
    if begun {
        let ghost rest = text@.subrange(start, text@.len() as int);
        if held {
            line.push('\r');
        }
        proof {
            lemma_line_end_found(text@, start, text@.len() as int);
            lemma_texts_push(entries@, line);
            assert(lines_from(text@, start) == seq![rest]);
            assert(texts(entries@) + seq![rest] == texts(entries@).push(rest));
        }
        entries.push(line);
    } else {
        assert(texts(entries@) + lines_from(text@, start) == texts(entries@));
    }
    entries
}

} // verus!
