//! What holds of every message and every policy.

use crate::error::ErrorKind;
use crate::header::{lemma_header_layout, matches_header, HeaderParts};
use crate::line::{lemma_meaningful_line_shape, lemma_meaningful_line_twice, meaningful_line};
use crate::policy::{default_type_names, message_verdict, with_types, PolicyView};
use crate::text::{has_prefix, is_trimmed, lemma_trimmed_is_core, trimmed};
use crate::validate::{header_verdict, lemma_verdict_of_parts, parts_verdict, type_set};
use vstd::prelude::*;

verus! {

/// A message is accepted if its first meaningful line reads as a header whose
/// type is allowed and whose trimmed subject is not empty, is within the
/// limit, or there is no limit, and does not end with a period where that is
/// forbidden.
pub proof fn law_conforming_message_accepted(
    message: Seq<char>,
    policy: PolicyView,
    h: HeaderParts,
)
    requires
        meaningful_line(message, policy.ignore_comment_lines) matches Some(line)
            && matches_header(line, h),
        policy.allowed_types.contains(h.commit_type),
        trimmed(h.subject).len() > 0,
        policy.max_subject_length == 0 || trimmed(h.subject).len() <= policy.max_subject_length,
        !(policy.forbid_trailing_period && trimmed(h.subject).last() == '.'),
    ensures
        message_verdict(message, policy) == Ok::<(), ErrorKind>(()),
{
    let line = meaningful_line(message, policy.ignore_comment_lines)->0;
    lemma_verdict_of_parts(
        line,
        h,
        policy.allowed_types,
        policy.max_subject_length,
        policy.forbid_trailing_period,
    );
}

/// Where the policy exempts merge-like headers, a message whose first
/// meaningful line begins with `Merge ` or `Revert ` is accepted, whatever
/// else that line holds.
pub proof fn law_merge_like_accepted(message: Seq<char>, policy: PolicyView)
    requires
        policy.allow_merge_like,
        meaningful_line(message, policy.ignore_comment_lines) matches Some(line) && (has_prefix(
            line,
            "Merge "@,
        ) || has_prefix(line, "Revert "@)),
    ensures
        message_verdict(message, policy) == Ok::<(), ErrorKind>(()),
{
}

/// The verdict is a function of the message and the policy: two validations
/// of the same message under the same policy end alike.
pub proof fn law_verdict_repeatable(
    message: Seq<char>,
    policy: PolicyView,
    first: Result<(), ErrorKind>,
    second: Result<(), ErrorKind>,
)
    requires
        first == message_verdict(message, policy),
        second == message_verdict(message, policy),
    ensures
        first == second,
{
}

/// Validating the first meaningful line of a message, taken as a message of
/// its own, ends as validating the message.
pub proof fn law_verdict_of_extracted_line(message: Seq<char>, policy: PolicyView)
    ensures
        match meaningful_line(message, policy.ignore_comment_lines) {
            Some(line) => message_verdict(line, policy) == message_verdict(message, policy),
            None => message_verdict(message, policy) == Err::<(), ErrorKind>(ErrorKind::Empty),
        },
{
    lemma_meaningful_line_twice(message, policy.ignore_comment_lines);
}

/// The length limit at its boundary, for a header whose type is allowed. A
/// trimmed subject of exactly `max` characters is not too long, and is
/// accepted unless it ends with a forbidden period. One of `max + 1`
/// characters fails with `SubjectTooLong(max, max + 1)`. With a limit of 0 no
/// subject is too long.
pub proof fn law_subject_length_boundary(
    line: Seq<char>,
    h: HeaderParts,
    allowed: Set<Seq<char>>,
    max: nat,
    no_trailing_period: bool,
)
    requires
        matches_header(line, h),
        allowed.contains(h.commit_type),
        trimmed(h.subject).len() > 0,
    ensures
        ({
            let count = trimmed(h.subject).len();
            let verdict = header_verdict(line, allowed, max, no_trailing_period);
            let ends_badly = no_trailing_period && trimmed(h.subject).last() == '.';
            &&& count == max && !ends_badly ==> verdict == Ok::<(), ErrorKind>(())
            &&& max > 0 && count == max + 1 ==> verdict == Err::<(), ErrorKind>(
                ErrorKind::SubjectTooLong(max, max + 1),
            )
            &&& max == 0 && !ends_badly ==> verdict == Ok::<(), ErrorKind>(())
            &&& max == 0 || count <= max ==> !(verdict matches Err(ErrorKind::SubjectTooLong(_, _)))
        }),
{
    lemma_verdict_of_parts(line, h, allowed, max, no_trailing_period);
}

/// The subject of a header that does not end with white space is not empty
/// once trimmed.
pub proof fn law_trimmed_line_has_subject(line: Seq<char>, h: HeaderParts)
    requires
        is_trimmed(line),
        matches_header(line, h),
    ensures
        trimmed(h.subject).len() > 0,
{
    lemma_header_layout(line, h);
    let (a, b) = lemma_trimmed_is_core(h.subject);
    if b < h.subject.len() {
        assert(h.subject.skip(b)[h.subject.len() - 1 - b] == h.subject.last());
    }
    if a == h.subject.len() {
        assert(h.subject.take(a)[a - 1] == h.subject.last());
    }
}

/// No message is rejected for an empty subject: the first meaningful line is
/// trimmed, so that a subject, where the line has one, does not end with
/// white space.
pub proof fn law_message_never_lacks_subject(message: Seq<char>, policy: PolicyView)
    ensures
        message_verdict(message, policy) != Err::<(), ErrorKind>(ErrorKind::EmptySubject),
{
    lemma_meaningful_line_shape(message, policy.ignore_comment_lines);
    match meaningful_line(message, policy.ignore_comment_lines) {
        Some(line) => {
            if exists|h: HeaderParts| matches_header(line, h) {
                let h = choose|h: HeaderParts| matches_header(line, h);
                law_trimmed_line_has_subject(line, h);
                lemma_verdict_of_parts(
                    line,
                    h,
                    policy.allowed_types,
                    policy.max_subject_length,
                    policy.forbid_trailing_period,
                );
                assert(parts_verdict(
                    h,
                    policy.allowed_types,
                    policy.max_subject_length,
                    policy.forbid_trailing_period,
                ) != Err::<(), ErrorKind>(ErrorKind::EmptySubject));
            }
        },
        None => {},
    }
}

/// Adding types allows what was allowed before and what was added, and
/// nothing else.
pub proof fn law_added_types_are_allowed(types: Seq<Seq<char>>, extra: Seq<Seq<char>>, t: Seq<char>)
    ensures
        type_set(with_types(types, extra)).contains(t) <==> type_set(types).contains(t)
            || type_set(extra).contains(t),
    decreases extra.len(),
{
    if extra.len() == 0 {
    } else {
        let first = extra.first();
        let rest = extra.drop_first();
        let next = if types.contains(first) {
            types
        } else {
            types.push(first)
        };
        law_added_types_are_allowed(next, rest, t);
        if rest.contains(t) {
            let i = choose|i: int| 0 <= i < rest.len() && rest[i] == t;
            assert(extra[i + 1] == t);
        }
        if extra.contains(t) && t != first {
            let i = choose|i: int| 0 <= i < extra.len() && extra[i] == t;
            assert(rest[i - 1] == t);
        }
        if types.contains(t) {
            let i = choose|i: int| 0 <= i < types.len() && types[i] == t;
            assert(types.push(first)[i] == t);
        }
        if !types.contains(first) {
            assert(types.push(first)[types.len() as int] == first);
            assert(extra[0] == first);
        }
    }
}

/// Adding types to a list without repetitions gives one without repetitions.
pub proof fn law_added_types_are_not_repeated(types: Seq<Seq<char>>, extra: Seq<Seq<char>>)
    requires
        types.no_duplicates(),
    ensures
        with_types(types, extra).no_duplicates(),
    decreases extra.len(),
{
    if extra.len() == 0 {
    } else if types.contains(extra.first()) {
        law_added_types_are_not_repeated(types, extra.drop_first());
    } else {
        law_added_types_are_not_repeated(types.push(extra.first()), extra.drop_first());
    }
}

/// The default types are eleven different types.
pub proof fn law_default_types_are_distinct()
    ensures
        default_type_names().len() == 11,
        default_type_names().no_duplicates(),
{
    reveal_strlit("feat");
    reveal_strlit("fix");
    reveal_strlit("chore");
    reveal_strlit("docs");
    reveal_strlit("style");
    reveal_strlit("refactor");
    reveal_strlit("perf");
    reveal_strlit("test");
    reveal_strlit("build");
    reveal_strlit("ci");
    reveal_strlit("revert");
    // Types that begin alike differ in their second or third letter.
    let names = default_type_names();
    assert(names[0][1] == 'e' && names[1][1] == 'i' && names[2][1] == 'h' && names[3][1] == 'o');
    assert(names[4][1] == 't' && names[5][2] == 'f' && names[6][2] == 'r' && names[7][2] == 's');
    assert(names[8][1] == 'u' && names[9].len() == 2 && names[10][2] == 'v');
    assert(names[0][0] == 'f' && names[1][0] == 'f' && names[2][0] == 'c' && names[3][0] == 'd');
    assert(names[4][0] == 's' && names[5][0] == 'r' && names[6][0] == 'p' && names[7][0] == 't');
    assert(names[8][0] == 'b' && names[10][0] == 'r');
}

/// A policy built from the default types and any extra types names no type
/// twice.
pub proof fn law_policy_types_are_distinct(extra: Seq<Seq<char>>)
    ensures
        with_types(default_type_names(), extra).no_duplicates(),
{
    law_default_types_are_distinct();
    law_added_types_are_not_repeated(default_type_names(), extra);
}

} // verus!
