//! The policy that a message is checked against, and the check itself.

use crate::error::{verdict_view, ErrorKind, ValidationError};
use crate::line::{first_meaningful_line, is_merge_like, is_merge_like_header, meaningful_line};
use crate::text::{chars_of, find_char, lemma_split_at, split, string_of, trim_bounds, trimmed};
use crate::validate::{header_verdict, is_allowed_type, type_set, validate_header};
use vstd::prelude::*;
use vstd::string::StringExecFns;

verus! {

/// What a commit message is held to.
#[derive(Debug, Clone, PartialEq, Eq)]
pub struct ValidationPolicy {
    /// The commit types that a header may have.
    pub allowed_types: Vec<String>,
    /// The most characters that a subject may have; 0 for no limit.
    pub max_subject_length: usize,
    /// Whether a subject that ends with a period is rejected.
    pub forbid_trailing_period: bool,
    /// Whether lines that begin with `#` are passed over.
    pub ignore_comment_lines: bool,
    /// Whether a header that begins with `Merge ` or `Revert ` is accepted as
    /// it is.
    pub allow_merge_like: bool,
}

/// A [`ValidationPolicy`] as mathematical values; the allowed types are a set.
pub struct PolicyView {
    pub allowed_types: Set<Seq<char>>,
    pub max_subject_length: nat,
    pub forbid_trailing_period: bool,
    pub ignore_comment_lines: bool,
    pub allow_merge_like: bool,
}

impl View for ValidationPolicy {
    type V = PolicyView;

    open spec fn view(&self) -> PolicyView {
        PolicyView {
            allowed_types: type_set(self.allowed_types.deep_view()),
            max_subject_length: self.max_subject_length as nat,
            forbid_trailing_period: self.forbid_trailing_period,
            ignore_comment_lines: self.ignore_comment_lines,
            allow_merge_like: self.allow_merge_like,
        }
    }
}

/// The eleven commit types that are allowed unless a policy says otherwise.
pub open spec fn default_type_names() -> Seq<Seq<char>> {
    seq![
        "feat"@,
        "fix"@,
        "chore"@,
        "docs"@,
        "style"@,
        "refactor"@,
        "perf"@,
        "test"@,
        "build"@,
        "ci"@,
        "revert"@,
    ]
}

/// The subject length that is allowed unless a policy says otherwise.
pub const DEFAULT_MAX_SUBJECT: usize = 72;

/// The items of `items` that are not empty once trimmed, each trimmed.
pub open spec fn trimmed_items(items: Seq<Seq<char>>) -> Seq<Seq<char>>
    decreases items.len(),
{
    if items.len() == 0 {
        Seq::empty()
    } else if trimmed(items.first()).len() > 0 {
        seq![trimmed(items.first())] + trimmed_items(items.drop_first())
    } else {
        trimmed_items(items.drop_first())
    }
}

/// The items of a comma-separated list, each trimmed, without the empty ones.
pub open spec fn listed_types(list: Seq<char>) -> Seq<Seq<char>> {
    trimmed_items(split(list, ','))
}

/// `types` with each type of `extra` that it does not hold yet added at the
/// end, in the order of `extra`.
pub open spec fn with_types(types: Seq<Seq<char>>, extra: Seq<Seq<char>>) -> Seq<Seq<char>>
    decreases extra.len(),
{
    if extra.len() == 0 {
        types
    } else if types.contains(extra.first()) {
        with_types(types, extra.drop_first())
    } else {
        with_types(types.push(extra.first()), extra.drop_first())
    }
}

/// The verdict on a whole message: `Empty` if it has no meaningful line;
/// acceptance if its first meaningful line is merge-like and the policy
/// allows that; else the verdict on that line as a header.
pub open spec fn message_verdict(message: Seq<char>, policy: PolicyView) -> Result<(), ErrorKind> {
    match meaningful_line(message, policy.ignore_comment_lines) {
        None => Err(ErrorKind::Empty),
        Some(line) => if policy.allow_merge_like && is_merge_like(line) {
            Ok(())
        } else {
            header_verdict(
                line,
                policy.allowed_types,
                policy.max_subject_length,
                policy.forbid_trailing_period,
            )
        },
    }
}

/// The default commit types.
pub fn default_types() -> (types: Vec<String>)
    ensures
        types.deep_view() == default_type_names(),
{
    let mut types: Vec<String> = Vec::new();
    types.push(String::from_str("feat"));
    types.push(String::from_str("fix"));
    types.push(String::from_str("chore"));
    types.push(String::from_str("docs"));
    types.push(String::from_str("style"));
    types.push(String::from_str("refactor"));
    types.push(String::from_str("perf"));
    types.push(String::from_str("test"));
    types.push(String::from_str("build"));
    types.push(String::from_str("ci"));
    types.push(String::from_str("revert"));
    assert(types.deep_view() =~= default_type_names());
    types
}

/// The types that a comma-separated list names: its items, trimmed, without
/// the empty ones.
pub fn parse_type_list(list: &str) -> (types: Vec<String>)
    ensures
        types.deep_view() == listed_types(list@),
{
    let v = chars_of(list);
    let mut types: Vec<String> = Vec::new();
    let mut start: usize = 0;
    assert(v@.skip(0) == v@);
    assert(types.deep_view() + listed_types(v@) =~= listed_types(v@));
    loop
        invariant
            start <= v.len(),
            v@ == list@,
            listed_types(list@) == types.deep_view() + listed_types(v@.skip(start as int)),
        decreases v.len() - start,
    {
        let end = find_char(&v, start, ',');
        let ghost rest = v@.skip(start as int);
        let ghost before = types.deep_view();
        proof {
            lemma_split_at(rest, ',', end - start);
            assert(rest.take(end - start) == v@.subrange(start as int, end as int));
        }
        let (a, b) = trim_bounds(&v, start, end);
        if a < b {
            types.push(string_of(&v, a, b));
            assert(types.deep_view() =~= before + seq![v@.subrange(a as int, b as int)]);
        } else {
            assert(types.deep_view() =~= before + Seq::<Seq<char>>::empty());
        }
        if end == v.len() {
            assert(trimmed_items(Seq::empty()) =~= Seq::<Seq<char>>::empty());
            return types;
        }
        proof {
            assert(rest.skip(end - start + 1) == v@.skip(end + 1));
            let first = types.deep_view().skip(before.len() as int);
            assert(types.deep_view() =~= before + first);
            assert(before + (first + listed_types(v@.skip(end + 1))) =~= (before + first)
                + listed_types(v@.skip(end + 1)));
        }
        start = end + 1;
    }
}

/// Adds to `types` each type of `extra` that it does not hold yet.
pub fn add_types(types: &mut Vec<String>, extra: &Vec<String>)
    ensures
        final(types).deep_view() == with_types(old(types).deep_view(), extra.deep_view()),
{
    let mut i: usize = 0;
    assert(extra.deep_view().skip(0) =~= extra.deep_view());
    while i < extra.len()
        invariant
            i <= extra.len(),
            with_types(old(types).deep_view(), extra.deep_view()) == with_types(
                types.deep_view(),
                extra.deep_view().skip(i as int),
            ),
        decreases extra.len() - i,
    {
        let ghost before = types.deep_view();
        let ghost rest = extra.deep_view().skip(i as int);
        assert(rest.first() == extra@[i as int]@);
        assert(rest.drop_first() =~= extra.deep_view().skip(i + 1));
        if !is_allowed_type(types.as_slice(), &extra[i]) {
            types.push(extra[i].clone());
            assert(types.deep_view() =~= before.push(extra@[i as int]@));
        }
        i += 1;
    }
}

impl Default for ValidationPolicy {
    /// The default policy: the eleven default types, subjects of at most 72
    /// characters that do not end with a period, comments ignored and
    /// merge-like headers accepted.
    fn default() -> (policy: ValidationPolicy)
        ensures
            policy.allowed_types.deep_view() == default_type_names(),
            policy.max_subject_length == DEFAULT_MAX_SUBJECT,
            policy.forbid_trailing_period,
            policy.ignore_comment_lines,
            policy.allow_merge_like,
    {
        ValidationPolicy {
            allowed_types: default_types(),
            max_subject_length: DEFAULT_MAX_SUBJECT,
            forbid_trailing_period: true,
            ignore_comment_lines: true,
            allow_merge_like: true,
        }
    }
}

/// Checks a whole commit message against `policy`: finds its first meaningful
/// line, fails with `Empty` if there is none, accepts a merge-like line where
/// the policy allows it, and else validates the line as a header.
pub fn check_message(message: &str, policy: &ValidationPolicy) -> (r: Result<(), ValidationError>)
    ensures
        verdict_view(r) == message_verdict(message@, policy@),
{
    match first_meaningful_line(message, policy.ignore_comment_lines) {
        None => Err(ValidationError::Empty),
        Some(line) => {
            if policy.allow_merge_like && is_merge_like_header(line.as_str()) {
                Ok(())
            } else {
                validate_header(
                    line.as_str(),
                    policy.allowed_types.as_slice(),
                    policy.max_subject_length,
                    policy.forbid_trailing_period,
                )
            }
        },
    }
}

} // verus!
