//! The grammar of a commit header, `type(scope)!: subject`, and its parser.
//!
//! The grammar is stated as a relation between a line and the parts it is made
//! of ([`matches_header`]). A line has at most one reading
//! ([`lemma_header_unique`]), and [`parse_header`] finds it whenever there is
//! one.

use crate::text::{chars_of, find_char, is_first_at, string_of};
use vstd::prelude::*;

verus! {

/// The parts of a commit header.
#[derive(Debug, Clone, PartialEq, Eq)]
pub struct CommitHeader {
    /// The commit type, such as `feat`.
    pub commit_type: String,
    /// What stands between the parentheses, if there are any.
    pub scope: Option<String>,
    /// Whether `!` marks a breaking change.
    pub breaking: bool,
    /// All that follows the colon and the space, untrimmed.
    pub subject: String,
}

/// The parts of a commit header as sequences of characters.
pub struct HeaderParts {
    pub commit_type: Seq<char>,
    pub scope: Option<Seq<char>>,
    pub breaking: bool,
    pub subject: Seq<char>,
}

impl View for CommitHeader {
    type V = HeaderParts;

    open spec fn view(&self) -> HeaderParts {
        HeaderParts {
            commit_type: self.commit_type@,
            scope: self.scope.deep_view(),
            breaking: self.breaking,
            subject: self.subject@,
        }
    }
}

/// A commit type is made of the letters `a` to `z`.
pub open spec fn is_type_char(c: char) -> bool {
    'a' <= c <= 'z'
}

/// How a scope is written: between parentheses, or not at all.
pub open spec fn scope_text(scope: Option<Seq<char>>) -> Seq<char> {
    match scope {
        Some(s) => seq!['('] + s + seq![')'],
        None => Seq::empty(),
    }
}

/// How the breaking marker is written.
pub open spec fn breaking_text(breaking: bool) -> Seq<char> {
    if breaking {
        seq!['!']
    } else {
        Seq::empty()
    }
}

/// The line that the parts `h` are written as.
pub open spec fn header_text(h: HeaderParts) -> Seq<char> {
    h.commit_type + scope_text(h.scope) + breaking_text(h.breaking) + seq![':', ' '] + h.subject
}

/// What the grammar asks of each part: a type of one or more letters `a` to
/// `z`; a scope, if any, of one or more characters other than `)`; a subject
/// of one or more characters other than a line feed.
pub open spec fn parts_well_formed(h: HeaderParts) -> bool {
    &&& h.commit_type.len() >= 1
    &&& forall|i: int| 0 <= i < h.commit_type.len() ==> is_type_char(#[trigger] h.commit_type[i])
    &&& h.scope matches Some(s) ==> {
        &&& s.len() >= 1
        &&& forall|i: int| 0 <= i < s.len() ==> #[trigger] s[i] != ')'
    }
    &&& h.subject.len() >= 1
    &&& forall|i: int| 0 <= i < h.subject.len() ==> #[trigger] h.subject[i] != '\n'
}

/// `line`, as a whole, reads as the header with the parts `h`.
pub open spec fn matches_header(line: Seq<char>, h: HeaderParts) -> bool {
    parts_well_formed(h) && line == header_text(h)
}

/// `line` matches the grammar.
pub open spec fn is_header(line: Seq<char>) -> bool {
    exists|h: HeaderParts| matches_header(line, h)
}

/// The parts of a line that matches the grammar.
pub open spec fn header_of(line: Seq<char>) -> HeaderParts {
    choose|h: HeaderParts| matches_header(line, h)
}

/// Where the parts of a header stand in its line.
pub proof fn lemma_header_layout(line: Seq<char>, h: HeaderParts)
    requires
        matches_header(line, h),
    ensures
        ({
            let n = h.commit_type.len() as int;
            let m = n + scope_text(h.scope).len();
            let k = m + breaking_text(h.breaking).len();
            &&& 1 <= n <= m <= k
            &&& k + 2 < line.len()
            &&& line.take(n) == h.commit_type
            &&& forall|i: int| 0 <= i < n ==> is_type_char(#[trigger] line[i])
            &&& !is_type_char(line[n])
            &&& (line[n] == '(') == (h.scope is Some)
            &&& h.scope matches Some(s) ==> {
                &&& m == n + s.len() + 2
                &&& s.len() >= 1
                &&& line.subrange(n + 1, m - 1) == s
                &&& line[m - 1] == ')'
                &&& forall|i: int| n + 1 <= i < m - 1 ==> #[trigger] line[i] != ')'
            }
            &&& (line[m] == '!') == h.breaking
            &&& line[k] == ':'
            &&& line[k + 1] == ' '
            &&& line.skip(k + 2) == h.subject
            &&& forall|i: int| k + 2 <= i < line.len() ==> #[trigger] line[i] != '\n'
        }),
{
    let n = h.commit_type.len() as int;
    let m = n + scope_text(h.scope).len();
    let k = m + breaking_text(h.breaking).len();
    let sep = seq![':', ' '];
    let head = h.commit_type + scope_text(h.scope) + breaking_text(h.breaking) + sep;
    assert(line == head + h.subject);
    assert(head.len() == k + 2);
    assert(sep[0] == ':' && sep[1] == ' ');
    assert(line.take(n) =~= h.commit_type);
    assert forall|i: int| 0 <= i < n implies is_type_char(#[trigger] line[i]) by {
        assert(line[i] == h.commit_type[i]);
    }
    match h.scope {
        Some(s) => {
            assert(line[n] == '(');
            assert(line.subrange(n + 1, m - 1) =~= s);
            assert(line[m - 1] == ')');
            assert forall|i: int| n + 1 <= i < m - 1 implies #[trigger] line[i] != ')' by {
                assert(line[i] == s[i - n - 1]);
            }
        },
        None => {},
    }
    if h.breaking {
        assert(line[m] == '!');
    }
    assert(line[k] == sep[0]);
    assert(line[k + 1] == sep[1]);
    assert(line.skip(k + 2) =~= h.subject);
    assert forall|i: int| k + 2 <= i < line.len() implies #[trigger] line[i] != '\n' by {
        assert(line[i] == h.subject[i - k - 2]);
    }
}

/// A line reads as a header in one way at most.
pub proof fn lemma_header_unique(line: Seq<char>, h1: HeaderParts, h2: HeaderParts)
    requires
        matches_header(line, h1),
        matches_header(line, h2),
    ensures
        h1 == h2,
{
    lemma_header_layout(line, h1);
    lemma_header_layout(line, h2);
    let n1 = h1.commit_type.len() as int;
    let n2 = h2.commit_type.len() as int;
    if n1 < n2 {
        assert(is_type_char(line[n1]));
    }
    if n2 < n1 {
        assert(is_type_char(line[n2]));
    }
    assert(h1.commit_type == h2.commit_type);
    match (h1.scope, h2.scope) {
        (Some(s1), Some(s2)) => {
            if s1.len() < s2.len() {
                assert(line[n1 + 1 + s1.len()] == ')');
            }
            if s2.len() < s1.len() {
                assert(line[n1 + 1 + s2.len()] == ')');
            }
            assert(s1 == s2);
        },
        _ => {},
    }
    assert(h1.scope == h2.scope);
    assert(h1.breaking == h2.breaking);
    assert(h1.subject == h2.subject);
}

/// The parts of a line that reads as a header are the parts it reads as.
pub proof fn lemma_header_of(line: Seq<char>, h: HeaderParts)
    requires
        matches_header(line, h),
    ensures
        is_header(line),
        header_of(line) == h,
{
    lemma_header_unique(line, header_of(line), h);
}

/// `s` begins with exactly `n` letters `a` to `z`.
spec fn type_run_is(s: Seq<char>, n: int) -> bool {
    &&& 0 <= n <= s.len()
    &&& forall|i: int| 0 <= i < n ==> is_type_char(#[trigger] s[i])
    &&& n < s.len() ==> !is_type_char(s[n])
}

/// What stands before the subject, read from the left: whether there is a
/// scope, whether there is a `!`, and where the subject starts. `n` is the
/// length of the type and `close` the place of the first `)` after it.
spec fn prefix_reading(s: Seq<char>, n: int, close: int) -> Option<(bool, bool, int)> {
    if n <= 0 || n >= s.len() {
        None
    } else {
        let scoped = s[n] == '(';
        if scoped && (close <= n + 1 || close + 1 >= s.len()) {
            None
        } else {
            let m = if scoped {
                close + 1
            } else {
                n
            };
            let breaking = s[m] == '!';
            let k = if breaking {
                m + 1
            } else {
                m
            };
            if s.len() - k < 3 || s[k] != ':' || s[k + 1] != ' ' {
                None
            } else {
                Some((scoped, breaking, k + 2))
            }
        }
    }
}

/// `n`, `close` and `feed` are what a scan of `s` from the left finds: the
/// length of the type, the first `)` after an opening parenthesis, and the
/// first line feed in the subject.
spec fn observed(s: Seq<char>, n: int, close: int, feed: int) -> bool {
    &&& type_run_is(s, n)
    &&& 0 < n < s.len() && s[n] == '(' ==> is_first_at(s, n + 1, ')', close)
    &&& prefix_reading(s, n, close) matches Some((_, _, start)) ==> is_first_at(s, start, '\n', feed)
}

/// The parts that a scan of `s` from the left gives.
spec fn reading(s: Seq<char>, n: int, close: int, feed: int) -> Option<HeaderParts> {
    match prefix_reading(s, n, close) {
        None => None,
        Some((scoped, breaking, start)) => if feed < s.len() {
            None
        } else {
            Some(
                HeaderParts {
                    commit_type: s.take(n),
                    scope: if scoped {
                        Some(s.subrange(n + 1, close))
                    } else {
                        None
                    },
                    breaking,
                    subject: s.skip(start),
                },
            )
        },
    }
}

/// What a scan reads is a reading that the grammar allows.
proof fn lemma_reading_sound(s: Seq<char>, n: int, close: int, feed: int)
    requires
        observed(s, n, close, feed),
        reading(s, n, close, feed) is Some,
    ensures
        matches_header(s, reading(s, n, close, feed)->0),
{
    let h = reading(s, n, close, feed)->0;
    let (scoped, breaking, start) = prefix_reading(s, n, close)->0;
    assert forall|i: int| 0 <= i < h.commit_type.len() implies is_type_char(
        #[trigger] h.commit_type[i],
    ) by {
        assert(h.commit_type[i] == s[i]);
    }
    assert forall|i: int| 0 <= i < h.subject.len() implies #[trigger] h.subject[i] != '\n' by {
        assert(h.subject[i] == s[start + i]);
    }
    match h.scope {
        Some(sc) => {
            assert forall|i: int| 0 <= i < sc.len() implies #[trigger] sc[i] != ')' by {
                assert(sc[i] == s[n + 1 + i]);
            }
        },
        None => {},
    }
    assert(s =~= header_text(h));
}

/// A scan reads every line that the grammar allows, and reads it so.
proof fn lemma_reading_complete(s: Seq<char>, n: int, close: int, feed: int, h: HeaderParts)
    requires
        observed(s, n, close, feed),
        matches_header(s, h),
    ensures
        reading(s, n, close, feed) == Some(h),
{
    lemma_header_layout(s, h);
    let hn = h.commit_type.len() as int;
    if hn < n {
        assert(is_type_char(s[hn]));
    }
    if n < hn {
        assert(is_type_char(s[n]));
    }
    assert(hn == n);
    match h.scope {
        Some(hs) => {
            if n + 1 + hs.len() < close {
                assert(s[n + 1 + hs.len()] == ')');
            }
            if close < n + 1 + hs.len() {
                assert(s[close] == ')');
            }
            assert(close == n + 1 + hs.len());
        },
        None => {},
    }
    let (scoped, breaking, start) = prefix_reading(s, n, close)->0;
    assert(prefix_reading(s, n, close) is Some);
    assert(breaking == h.breaking);
    if feed < s.len() {
        assert(s[feed] == '\n');
    }
}

/// A line that a scan cannot read is no header.
proof fn lemma_unread_is_no_header(s: Seq<char>, n: int, close: int, feed: int)
    requires
        observed(s, n, close, feed),
        reading(s, n, close, feed) is None,
    ensures
        !is_header(s),
{
    assert forall|h: HeaderParts| !matches_header(s, h) by {
        if matches_header(s, h) {
            lemma_reading_complete(s, n, close, feed, h);
        }
    }
}

/// Whether `c` is one of the letters `a` to `z`.
pub fn is_type_letter(c: char) -> (r: bool)
    ensures
        r == is_type_char(c),
{
    'a' <= c && c <= 'z'
}

/// The number of letters `a` to `z` that `v` begins with.
fn type_run(v: &Vec<char>) -> (n: usize)
    ensures
        type_run_is(v@, n as int),
{
    let mut n: usize = 0;
    while n < v.len() && is_type_letter(v[n])
        invariant
            n <= v.len(),
            forall|i: int| 0 <= i < n ==> is_type_char(#[trigger] v@[i]),
        decreases v.len() - n,
    {
        n += 1;
    }
    n
}

/// Reads `line` as a commit header. Gives the parts if the whole line matches
/// the grammar `type(scope)!: subject`, where the scope and the `!` may each be
/// left out, and `None` if it does not.
pub fn parse_header(line: &str) -> (r: Option<CommitHeader>)
    ensures
        match r {
            Some(h) => matches_header(line@, h@),
            None => !is_header(line@),
        },
{
    let v = chars_of(line);
    let len = v.len();
    let n = type_run(&v);
    if n == 0 || n == len {
        proof {
            lemma_unread_is_no_header(v@, n as int, len as int, len as int);
        }
        return None;
    }
    let scoped = v[n] == '(';
    let close = if scoped {
        find_char(&v, n + 1, ')')
    } else {
        len
    };
    if scoped && (close == n + 1 || len - close < 2) {
        proof {
            lemma_unread_is_no_header(v@, n as int, close as int, len as int);
        }
        return None;
    }
    let after_scope = if scoped {
        close + 1
    } else {
        n
    };
    let breaking = v[after_scope] == '!';
    let colon = if breaking {
        after_scope + 1
    } else {
        after_scope
    };
    if len - colon < 3 || v[colon] != ':' || v[colon + 1] != ' ' {
        proof {
            lemma_unread_is_no_header(v@, n as int, close as int, len as int);
        }
        return None;
    }
    let start = colon + 2;
    let feed = find_char(&v, start, '\n');
    if feed < len {
        proof {
            lemma_unread_is_no_header(v@, n as int, close as int, feed as int);
        }
        return None;
    }
    let header = CommitHeader {
        commit_type: string_of(&v, 0, n),
        scope: if scoped {
            Some(string_of(&v, n + 1, close))
        } else {
            None
        },
        breaking,
        subject: string_of(&v, start, len),
    };
    proof {
        lemma_reading_sound(v@, n as int, close as int, feed as int);
        let h = reading(v@, n as int, close as int, feed as int)->0;
        assert(header@.commit_type == h.commit_type);
        assert(header@.subject == h.subject);
        assert(header@.scope == h.scope);
        assert(header@ == h);
    }
    Some(header)
}

} // verus!
