//! The first meaningful line of a commit message, and merge-like headers.

use crate::text::{
    chars_of, find_char, has_prefix, is_free_of, is_trimmed, lemma_split_at,
    lemma_split_pieces_are_free, lemma_trimmed_end_takes, lemma_trimmed_is_core,
    lemma_trimmed_start_skips, split, starts_with, string_of, trim_bounds, trimmed,
};
use vstd::prelude::*;

verus! {

/// A trimmed line counts if it is not empty and, where comments are ignored,
/// does not begin with `#`.
pub open spec fn is_meaningful(line: Seq<char>, ignore_comments: bool) -> bool {
    line.len() > 0 && !(ignore_comments && line.first() == '#')
}

/// The first of `lines` that is meaningful once trimmed, trimmed; `None` if
/// none is.
pub open spec fn first_meaningful(lines: Seq<Seq<char>>, ignore_comments: bool) -> Option<
    Seq<char>,
>
    decreases lines.len(),
{
    if lines.len() == 0 {
        None
    } else if is_meaningful(trimmed(lines.first()), ignore_comments) {
        Some(trimmed(lines.first()))
    } else {
        first_meaningful(lines.drop_first(), ignore_comments)
    }
}

/// The first meaningful line of `message`, whose lines are what stands between
/// its line feeds.
pub open spec fn meaningful_line(message: Seq<char>, ignore_comments: bool) -> Option<Seq<char>> {
    first_meaningful(split(message, '\n'), ignore_comments)
}

/// A header that begins with `Merge ` or `Revert `.
pub open spec fn is_merge_like(line: Seq<char>) -> bool {
    has_prefix(line, "Merge "@) || has_prefix(line, "Revert "@)
}

/// `s` holds no line feed.
pub open spec fn is_single_line(s: Seq<char>) -> bool {
    is_free_of(s, '\n')
}

/// The first meaningful line is one of the lines, trimmed; it is meaningful,
/// and no line before it is.
pub proof fn lemma_first_meaningful_is_first(lines: Seq<Seq<char>>, ignore_comments: bool)
    ensures
        match first_meaningful(lines, ignore_comments) {
            Some(line) => exists|k: int|
                {
                    &&& 0 <= k < lines.len()
                    &&& line == trimmed(#[trigger] lines[k])
                    &&& is_meaningful(line, ignore_comments)
                    &&& forall|j: int|
                        0 <= j < k ==> !is_meaningful(trimmed(#[trigger] lines[j]), ignore_comments)
                },
            None => forall|j: int|
                0 <= j < lines.len() ==> !is_meaningful(
                    trimmed(#[trigger] lines[j]),
                    ignore_comments,
                ),
        },
    decreases lines.len(),
{
    if lines.len() == 0 {
    } else if is_meaningful(trimmed(lines.first()), ignore_comments) {
        assert(trimmed(lines.first()) == trimmed(lines[0]));
    } else {
        let rest = lines.drop_first();
        lemma_first_meaningful_is_first(rest, ignore_comments);
        match first_meaningful(rest, ignore_comments) {
            Some(line) => {
                let k = choose|k: int|
                    {
                        &&& 0 <= k < rest.len()
                        &&& line == trimmed(#[trigger] rest[k])
                        &&& is_meaningful(line, ignore_comments)
                        &&& forall|j: int|
                            0 <= j < k ==> !is_meaningful(
                                trimmed(#[trigger] rest[j]),
                                ignore_comments,
                            )
                    };
                assert(rest[k] == lines[k + 1]);
                assert forall|j: int| 0 <= j < k + 1 implies !is_meaningful(
                    trimmed(#[trigger] lines[j]),
                    ignore_comments,
                ) by {
                    if j > 0 {
                        assert(lines[j] == rest[j - 1]);
                    }
                }
            },
            None => {
                assert forall|j: int| 0 <= j < lines.len() implies !is_meaningful(
                    trimmed(#[trigger] lines[j]),
                    ignore_comments,
                ) by {
                    if j > 0 {
                        assert(lines[j] == rest[j - 1]);
                    }
                }
            },
        }
    }
}

/// What the line extractor gives is trimmed, not empty, holds no line feed
/// and, where comments are ignored, is no comment.
pub proof fn lemma_meaningful_line_shape(message: Seq<char>, ignore_comments: bool)
    ensures
        match meaningful_line(message, ignore_comments) {
            Some(line) => {
                &&& is_meaningful(line, ignore_comments)
                &&& is_trimmed(line)
                &&& is_single_line(line)
            },
            None => true,
        },
{
    let lines = split(message, '\n');
    lemma_first_meaningful_is_first(lines, ignore_comments);
    lemma_split_pieces_are_free(message, '\n');
    match first_meaningful(lines, ignore_comments) {
        Some(line) => {
            let k = choose|k: int| 0 <= k < lines.len() && line == trimmed(#[trigger] lines[k]);
            let raw = lines[k];
            let (a, b) = lemma_trimmed_is_core(raw);
            assert forall|i: int| 0 <= i < line.len() implies #[trigger] line[i] != '\n' by {
                assert(line[i] == raw[a + i]);
            }
        },
        None => {},
    }
}

/// A text of one line that is trimmed and meaningful is its own first
/// meaningful line.
pub proof fn lemma_meaningful_line_of_line(line: Seq<char>, ignore_comments: bool)
    requires
        is_single_line(line),
        is_trimmed(line),
        is_meaningful(line, ignore_comments),
    ensures
        meaningful_line(line, ignore_comments) == Some(line),
{
    let n = line.len() as int;
    assert(line.take(n) == line);
    lemma_split_at(line, '\n', n);
    assert(line.take(0) =~= Seq::<char>::empty());
    lemma_trimmed_start_skips(line, 0);
    assert(line.skip(0) == line);
    assert(line.skip(n) =~= Seq::<char>::empty());
    lemma_trimmed_end_takes(line, n);
}

/// Extracting the first meaningful line of an extracted line gives that line
/// again.
pub proof fn lemma_meaningful_line_twice(message: Seq<char>, ignore_comments: bool)
    ensures
        match meaningful_line(message, ignore_comments) {
            Some(line) => meaningful_line(line, ignore_comments) == Some(line),
            None => true,
        },
{
    lemma_meaningful_line_shape(message, ignore_comments);
    match meaningful_line(message, ignore_comments) {
        Some(line) => lemma_meaningful_line_of_line(line, ignore_comments),
        None => {},
    }
}

/// The first meaningful line of a commit message: the first line that, once
/// trimmed, is not empty and, if `ignore_comments` is set, does not begin with
/// `#`. Returns that line trimmed, or `None` if the message has no such line.
pub fn first_meaningful_line(message: &str, ignore_comments: bool) -> (r: Option<String>)
    ensures
        r.deep_view() == meaningful_line(message@, ignore_comments),
{
    let v = chars_of(message);
    let mut start: usize = 0;
    assert(v@.skip(0) == v@);
    loop
        invariant
            start <= v.len(),
            v@ == message@,
            meaningful_line(message@, ignore_comments) == meaningful_line(
                v@.skip(start as int),
                ignore_comments,
            ),
        decreases v.len() - start,
    {
        let end = find_char(&v, start, '\n');
        let ghost rest = v@.skip(start as int);
        proof {
            lemma_split_at(rest, '\n', end - start);
            assert(rest.take(end - start) == v@.subrange(start as int, end as int));
        }
        let (a, b) = trim_bounds(&v, start, end);
        if a < b && !(ignore_comments && v[a] == '#') {
            let line = string_of(&v, a, b);
            assert(line@.first() == v@[a as int]);
            return Some(line);
        }
        proof {
            let line = v@.subrange(a as int, b as int);
            if a < b {
                assert(line.first() == v@[a as int]);
            }
            assert(!is_meaningful(line, ignore_comments));
        }
        if end == v.len() {
            assert(first_meaningful(Seq::empty(), ignore_comments) is None);
            return None;
        }
        proof {
            assert(rest.skip(end - start + 1) == v@.skip(end + 1));
        }
        start = end + 1;
    }
}

/// Whether `line` begins with `Merge ` or with `Revert `.
pub fn is_merge_like_header(line: &str) -> (r: bool)
    ensures
        r == is_merge_like(line@),
{
    let v = chars_of(line);
    starts_with(&v, "Merge ") || starts_with(&v, "Revert ")
}

} // verus!
