//! Characters, white space and trimming.
//!
//! A piece of text is modelled as the sequence of its Unicode scalar values,
//! `Seq<char>`, which is the view of `str` and `String`. Lengths and positions
//! in this crate always count scalar values, never bytes.

use vstd::prelude::*;

verus! {

/// `String::push` of the standard library: appends one character to the end of
/// the string and leaves the characters before it as they were.
pub assume_specification[ String::push ](s: &mut String, c: char)
    ensures
        final(s)@ == old(s)@.push(c),
;

/// The characters with the Unicode property `White_Space`.
pub open spec fn is_white_space(c: char) -> bool {
    ||| '\u{9}' <= c <= '\u{d}'
    ||| c == ' '
    ||| c == '\u{85}'
    ||| c == '\u{a0}'
    ||| c == '\u{1680}'
    ||| '\u{2000}' <= c <= '\u{200a}'
    ||| c == '\u{2028}'
    ||| c == '\u{2029}'
    ||| c == '\u{202f}'
    ||| c == '\u{205f}'
    ||| c == '\u{3000}'
}

/// `s` without its leading white space.
pub open spec fn trimmed_start(s: Seq<char>) -> Seq<char>
    decreases s.len(),
{
    if s.len() > 0 && is_white_space(s.first()) {
        trimmed_start(s.drop_first())
    } else {
        s
    }
}

/// `s` without its trailing white space.
pub open spec fn trimmed_end(s: Seq<char>) -> Seq<char>
    decreases s.len(),
{
    if s.len() > 0 && is_white_space(s.last()) {
        trimmed_end(s.drop_last())
    } else {
        s
    }
}

/// `s` without its leading and trailing white space.
pub open spec fn trimmed(s: Seq<char>) -> Seq<char> {
    trimmed_end(trimmed_start(s))
}

/// Every character of `s` is white space.
pub open spec fn is_blank(s: Seq<char>) -> bool {
    forall|i: int| 0 <= i < s.len() ==> is_white_space(#[trigger] s[i])
}

/// `s` neither begins nor ends with white space.
pub open spec fn is_trimmed(s: Seq<char>) -> bool {
    s.len() > 0 ==> !is_white_space(s.first()) && !is_white_space(s.last())
}

/// `s` begins with `prefix`.
pub open spec fn has_prefix(s: Seq<char>, prefix: Seq<char>) -> bool {
    prefix.len() <= s.len() && s.take(prefix.len() as int) == prefix
}

/// `at` is the first position at or after `from` where `s` holds `c`, or the
/// length of `s` if it holds none there.
pub open spec fn is_first_at(s: Seq<char>, from: int, c: char, at: int) -> bool {
    &&& 0 <= from <= at <= s.len()
    &&& forall|i: int| from <= i < at ==> #[trigger] s[i] != c
    &&& at < s.len() ==> s[at] == c
}

/// The number of characters of `s` before the first `stop`: the length of `s`
/// if it holds none.
pub open spec fn len_before(s: Seq<char>, stop: char) -> nat
    decreases s.len(),
{
    if s.len() == 0 || s.first() == stop {
        0
    } else {
        1 + len_before(s.drop_first(), stop)
    }
}

/// Where the first `stop` is found, there `len_before` ends.
pub proof fn lemma_len_before_is(s: Seq<char>, stop: char, n: int)
    requires
        is_first_at(s, 0, stop, n),
    ensures
        len_before(s, stop) == n,
    decreases n,
{
    if n > 0 {
        lemma_len_before_is(s.drop_first(), stop, n - 1);
    }
}

/// `len_before` ends where the first `stop` is found.
pub proof fn lemma_len_before_found(s: Seq<char>, stop: char)
    ensures
        is_first_at(s, 0, stop, len_before(s, stop) as int),
    decreases s.len(),
{
    if s.len() == 0 || s.first() == stop {
    } else {
        let rest = s.drop_first();
        lemma_len_before_found(rest, stop);
        let n = len_before(s, stop) as int;
        assert forall|i: int| 0 <= i < n implies #[trigger] s[i] != stop by {
            if i > 0 {
                assert(s[i] == rest[i - 1]);
            }
        }
    }
}

/// The pieces of `s` that stand between its occurrences of `sep`, in order.
/// There is one piece more than there are occurrences, so that a text without
/// `sep` is its own single piece.
pub open spec fn split(s: Seq<char>, sep: char) -> Seq<Seq<char>>
    decreases s.len(),
{
    let n = len_before(s, sep) as int;
    if n < s.len() {
        seq![s.take(n)] + split(s.skip(n + 1), sep)
    } else {
        seq![s]
    }
}

/// `s` does not hold `c`.
pub open spec fn is_free_of(s: Seq<char>, c: char) -> bool {
    forall|i: int| 0 <= i < s.len() ==> #[trigger] s[i] != c
}

/// How a text splits, given where its first `sep` stands: into what is before
/// it and the pieces of what is after it, or, if there is none, into itself.
pub proof fn lemma_split_at(s: Seq<char>, sep: char, n: int)
    requires
        is_first_at(s, 0, sep, n),
    ensures
        split(s, sep).len() > 0,
        split(s, sep).first() == s.take(n),
        n < s.len() ==> split(s, sep).drop_first() == split(s.skip(n + 1), sep),
        n == s.len() ==> split(s, sep).drop_first() == Seq::<Seq<char>>::empty(),
{
    lemma_len_before_is(s, sep, n);
    if n < s.len() {
        assert(split(s, sep).drop_first() =~= split(s.skip(n + 1), sep));
    } else {
        assert(s.take(n) == s);
        assert(split(s, sep).drop_first() =~= Seq::<Seq<char>>::empty());
    }
}

/// No piece holds the separator.
pub proof fn lemma_split_pieces_are_free(s: Seq<char>, sep: char)
    ensures
        forall|i: int| 0 <= i < split(s, sep).len() ==> is_free_of(#[trigger] split(s, sep)[i], sep),
    decreases s.len(),
{
    let n = len_before(s, sep) as int;
    lemma_len_before_found(s, sep);
    if n < s.len() {
        lemma_split_pieces_are_free(s.skip(n + 1), sep);
        let rest = split(s.skip(n + 1), sep);
        assert forall|i: int| 0 <= i < split(s, sep).len() implies is_free_of(
            #[trigger] split(s, sep)[i],
            sep,
        ) by {
            if i > 0 {
                assert(split(s, sep)[i] == rest[i - 1]);
            }
        }
    }
}

/// Dropping `k` leading white-space characters, the next not being one, is
/// trimming the start.
pub proof fn lemma_trimmed_start_skips(s: Seq<char>, k: int)
    requires
        0 <= k <= s.len(),
        is_blank(s.take(k)),
        k < s.len() ==> !is_white_space(s[k]),
    ensures
        trimmed_start(s) == s.skip(k),
    decreases k,
{
    if k == 0 {
        assert(s.skip(0) == s);
    } else {
        assert(s.take(k)[0] == s[0]);
        let rest = s.drop_first();
        assert forall|i: int| 0 <= i < k - 1 implies is_white_space(
            #[trigger] rest.take(k - 1)[i],
        ) by {
            assert(rest.take(k - 1)[i] == s.take(k)[i + 1]);
        }
        lemma_trimmed_start_skips(rest, k - 1);
        assert(rest.skip(k - 1) == s.skip(k));
    }
}

/// Keeping the first `k` characters, the last of them no white space and all
/// after them white space, is trimming the end.
pub proof fn lemma_trimmed_end_takes(s: Seq<char>, k: int)
    requires
        0 <= k <= s.len(),
        is_blank(s.skip(k)),
        k > 0 ==> !is_white_space(s[k - 1]),
    ensures
        trimmed_end(s) == s.take(k),
    decreases s.len() - k,
{
    if k == s.len() {
        assert(s.take(k) == s);
    } else {
        assert(s.skip(k)[s.len() - 1 - k] == s.last());
        let rest = s.drop_last();
        assert forall|i: int| 0 <= i < rest.len() - k implies is_white_space(
            #[trigger] rest.skip(k)[i],
        ) by {
            assert(rest.skip(k)[i] == s.skip(k)[i]);
        }
        lemma_trimmed_end_takes(rest, k);
        assert(rest.take(k) == s.take(k));
    }
}

/// What trimming gives: a piece of `s` that neither begins nor ends with white
/// space, with nothing but white space on either side of it.
pub proof fn lemma_trimmed_is_core(s: Seq<char>) -> (bounds: (int, int))
    ensures
        0 <= bounds.0 <= bounds.1 <= s.len(),
        trimmed(s) == s.subrange(bounds.0, bounds.1),
        is_blank(s.take(bounds.0)),
        is_blank(s.skip(bounds.1)),
        is_trimmed(trimmed(s)),
{
    let a = blank_prefix_end(s, 0);
    let b = blank_suffix_start(s, a, s.len() as int);
    lemma_trimmed_start_skips(s, a);
    let t = s.skip(a);
    assert forall|i: int| 0 <= i < t.skip(b - a).len() implies is_white_space(
        #[trigger] t.skip(b - a)[i],
    ) by {
        assert(t.skip(b - a)[i] == s[b + i]);
    }
    lemma_trimmed_end_takes(t, b - a);
    assert(t.take(b - a) == s.subrange(a, b));
    assert forall|i: int| 0 <= i < s.skip(b).len() implies is_white_space(
        #[trigger] s.skip(b)[i],
    ) by {
        assert(s.skip(b)[i] == s[b + i]);
    }
    (a, b)
}

/// Where the white space that `s` begins with ends, given that it reaches
/// `from`.
proof fn blank_prefix_end(s: Seq<char>, from: int) -> (k: int)
    requires
        0 <= from <= s.len(),
        forall|i: int| 0 <= i < from ==> is_white_space(#[trigger] s[i]),
    ensures
        from <= k <= s.len(),
        is_blank(s.take(k)),
        k < s.len() ==> !is_white_space(s[k]),
    decreases s.len() - from,
{
    if from < s.len() && is_white_space(s[from]) {
        blank_prefix_end(s, from + 1)
    } else {
        from
    }
}

/// Where the white space that `s` ends with begins, no earlier than `lo`,
/// given that it reaches back to `hi`.
proof fn blank_suffix_start(s: Seq<char>, lo: int, hi: int) -> (k: int)
    requires
        0 <= lo <= hi <= s.len(),
        forall|i: int| hi <= i < s.len() ==> is_white_space(#[trigger] s[i]),
    ensures
        lo <= k <= hi,
        forall|i: int| k <= i < s.len() ==> is_white_space(#[trigger] s[i]),
        k > lo ==> !is_white_space(s[k - 1]),
    decreases hi - lo,
{
    if lo < hi && is_white_space(s[hi - 1]) {
        blank_suffix_start(s, lo, hi - 1)
    } else {
        hi
    }
}

/// Whether `c` has the Unicode property `White_Space`.
pub fn is_whitespace(c: char) -> (r: bool)
    ensures
        r == is_white_space(c),
{
    ('\u{9}' <= c && c <= '\u{d}') || c == ' ' || c == '\u{85}' || c == '\u{a0}' || c
        == '\u{1680}' || ('\u{2000}' <= c && c <= '\u{200a}') || c == '\u{2028}' || c
        == '\u{2029}' || c == '\u{202f}' || c == '\u{205f}' || c == '\u{3000}'
}

/// The characters of `s`, in order.
pub fn chars_of(s: &str) -> (v: Vec<char>)
    ensures
        v@ == s@,
{
    let mut v: Vec<char> = Vec::new();
    for c in it: s.chars()
        invariant
            v@ == it.seq().take(it.index() as int),
            it.seq() == s@,
    {
        v.push(c);
    }
    v
}

/// The text made of the characters of `v` from position `from` up to, not
/// including, position `to`.
pub fn string_of(v: &Vec<char>, from: usize, to: usize) -> (s: String)
    requires
        from <= to <= v.len(),
    ensures
        s@ == v@.subrange(from as int, to as int),
{
    let mut s = String::new();
    let mut i: usize = from;
    while i < to
        invariant
            from <= i <= to <= v.len(),
            s@ == v@.subrange(from as int, i as int),
        decreases to - i,
    {
        s.push(v[i]);
        i += 1;
    }
    s
}

/// Appends the characters of `piece` to `s`.
pub fn push_chars(s: &mut String, piece: &Vec<char>)
    ensures
        final(s)@ == old(s)@ + piece@,
{
    let mut i: usize = 0;
    while i < piece.len()
        invariant
            i <= piece.len(),
            s@ == old(s)@ + piece@.take(i as int),
        decreases piece.len() - i,
    {
        s.push(piece[i]);
        i += 1;
    }
}

/// The first position at or after `from` where `v` holds `c`, or the length of
/// `v` if it holds none there.
pub fn find_char(v: &Vec<char>, from: usize, c: char) -> (at: usize)
    requires
        from <= v.len(),
    ensures
        is_first_at(v@, from as int, c, at as int),
{
    let mut at: usize = from;
    while at < v.len() && v[at] != c
        invariant
            from <= at <= v.len(),
            forall|i: int| from <= i < at ==> #[trigger] v@[i] != c,
        decreases v.len() - at,
    {
        at += 1;
    }
    at
}

/// The bounds of the trimmed piece of `v[from..to]`.
pub fn trim_bounds(v: &Vec<char>, from: usize, to: usize) -> (bounds: (usize, usize))
    requires
        from <= to <= v.len(),
    ensures
        from <= bounds.0 <= bounds.1 <= to,
        v@.subrange(bounds.0 as int, bounds.1 as int) == trimmed(
            v@.subrange(from as int, to as int),
        ),
{
    let ghost s = v@.subrange(from as int, to as int);
    let mut a: usize = from;
    while a < to && is_whitespace(v[a])
        invariant
            from <= a <= to <= v.len(),
            forall|i: int| from <= i < a ==> is_white_space(#[trigger] v@[i]),
        decreases to - a,
    {
        a += 1;
    }
    let mut b: usize = to;
    while b > a && is_whitespace(v[b - 1])
        invariant
            a <= b <= to <= v.len(),
            forall|i: int| b <= i < to ==> is_white_space(#[trigger] v@[i]),
        decreases b - a,
    {
        b -= 1;
    }
    proof {
        assert forall|i: int| 0 <= i < a - from implies is_white_space(
            #[trigger] s.take(a - from)[i],
        ) by {
            assert(s.take(a - from)[i] == v@[from + i]);
        }
        lemma_trimmed_start_skips(s, a - from);
        let t = s.skip(a - from);
        assert forall|i: int| 0 <= i < t.skip(b - a).len() implies is_white_space(
            #[trigger] t.skip(b - a)[i],
        ) by {
            assert(t.skip(b - a)[i] == v@[b + i]);
        }
        lemma_trimmed_end_takes(t, b - a);
        assert(t.take(b - a) == v@.subrange(a as int, b as int));
    }
    (a, b)
}

/// `s` without its leading and trailing white space.
pub fn trim(s: &str) -> (r: String)
    ensures
        r@ == trimmed(s@),
{
    let v = chars_of(s);
    let (from, to) = trim_bounds(&v, 0, v.len());
    assert(v@.subrange(0, v.len() as int) == v@);
    string_of(&v, from, to)
}

/// Whether the characters of `v` begin with `prefix`.
pub fn starts_with(v: &Vec<char>, prefix: &str) -> (r: bool)
    ensures
        r == has_prefix(v@, prefix@),
{
    let p = chars_of(prefix);
    if p.len() > v.len() {
        return false;
    }
    let mut i: usize = 0;
    while i < p.len()
        invariant
            p.len() <= v.len(),
            i <= p.len(),
            p@ == prefix@,
            forall|j: int| 0 <= j < i ==> v@[j] == #[trigger] p@[j],
        decreases p.len() - i,
    {
        if v[i] != p[i] {
            assert(v@.take(p.len() as int)[i as int] == v@[i as int]);
            return false;
        }
        i += 1;
    }
    assert(v@.take(p.len() as int) =~= p@);
    true
}

} // verus!
