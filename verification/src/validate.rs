//! The header validator: the grammar first, then four checks in a fixed order.

use crate::error::{verdict_view, ErrorKind, ValidationError};
use crate::header::{
    header_of, is_header, lemma_header_of, matches_header, parse_header, CommitHeader,
    HeaderParts,
};
use crate::text::{chars_of, trim_bounds, trimmed};
use vstd::prelude::*;

verus! {

/// The set of the commit types that `types` lists.
pub open spec fn type_set(types: Seq<Seq<char>>) -> Set<Seq<char>> {
    Set::new(|t: Seq<char>| types.contains(t))
}

/// The verdict on a header with the parts `h`. The checks come in this order,
/// and the first that fails gives the error: the type is one of `allowed`; the
/// trimmed subject is not empty; it has at most `max_subject_len` characters,
/// unless that limit is 0; it does not end with a period, if
/// `no_trailing_period` is set.
pub open spec fn parts_verdict(
    h: HeaderParts,
    allowed: Set<Seq<char>>,
    max_subject_len: nat,
    no_trailing_period: bool,
) -> Result<(), ErrorKind> {
    let subject = trimmed(h.subject);
    if !allowed.contains(h.commit_type) {
        Err(ErrorKind::DisallowedType(h.commit_type))
    } else if subject.len() == 0 {
        Err(ErrorKind::EmptySubject)
    } else if max_subject_len > 0 && subject.len() > max_subject_len {
        Err(ErrorKind::SubjectTooLong(max_subject_len, subject.len()))
    } else if no_trailing_period && subject.last() == '.' {
        Err(ErrorKind::TrailingPeriod)
    } else {
        Ok(())
    }
}

/// The verdict on a header line: `BadHeader` if the line does not match the
/// grammar, and the verdict on its parts if it does.
pub open spec fn header_verdict(
    line: Seq<char>,
    allowed: Set<Seq<char>>,
    max_subject_len: nat,
    no_trailing_period: bool,
) -> Result<(), ErrorKind> {
    if is_header(line) {
        parts_verdict(header_of(line), allowed, max_subject_len, no_trailing_period)
    } else {
        Err(ErrorKind::BadHeader)
    }
}

/// The verdict on a line that reads as the parts `h` is the verdict on `h`.
pub proof fn lemma_verdict_of_parts(
    line: Seq<char>,
    h: HeaderParts,
    allowed: Set<Seq<char>>,
    max_subject_len: nat,
    no_trailing_period: bool,
)
    requires
        matches_header(line, h),
    ensures
        header_verdict(line, allowed, max_subject_len, no_trailing_period) == parts_verdict(
            h,
            allowed,
            max_subject_len,
            no_trailing_period,
        ),
{
    lemma_header_of(line, h);
}

/// Whether `types` lists `commit_type`.
pub fn is_allowed_type(types: &[String], commit_type: &String) -> (r: bool)
    ensures
        r == types.deep_view().contains(commit_type@),
{
    let mut i: usize = 0;
    while i < types.len()
        invariant
            i <= types.len(),
            forall|j: int| 0 <= j < i ==> (#[trigger] types@[j])@ != commit_type@,
        decreases types.len() - i,
    {
        if types[i] == *commit_type {
            assert(types.deep_view()[i as int] == commit_type@);
            return true;
        }
        i += 1;
    }
    assert forall|j: int| 0 <= j < types.deep_view().len() implies #[trigger] types.deep_view()[j]
        != commit_type@ by {
        assert(types.deep_view()[j] == types@[j]@);
    }
    false
}

/// Checks the parts of a header against the policy, in the order of
/// [`parts_verdict`].
pub fn check_parts(
    header: &CommitHeader,
    allowed_types: &[String],
    max_subject_len: usize,
    no_trailing_period: bool,
) -> (r: Result<(), ValidationError>)
    ensures
        verdict_view(r) == parts_verdict(
            header@,
            type_set(allowed_types.deep_view()),
            max_subject_len as nat,
            no_trailing_period,
        ),
{
    if !is_allowed_type(allowed_types, &header.commit_type) {
        return Err(ValidationError::DisallowedType(header.commit_type.clone()));
    }
    let subject = chars_of(header.subject.as_str());
    let (from, to) = trim_bounds(&subject, 0, subject.len());
    assert(subject@.subrange(0, subject.len() as int) == subject@);
    let count = to - from;
    if count == 0 {
        return Err(ValidationError::EmptySubject);
    }
    if max_subject_len > 0 && count > max_subject_len {
        return Err(ValidationError::SubjectTooLong(max_subject_len, count));
    }
    assert(subject@.subrange(from as int, to as int).last() == subject@[to - 1]);
    if no_trailing_period && subject[to - 1] == '.' {
        return Err(ValidationError::TrailingPeriod);
    }
    Ok(())
}

/// Validates a header line: it must match the grammar
/// `type(scope)!: subject` as a whole, its type must be one of
/// `allowed_types`, and its subject, trimmed, must not be empty, must have at
/// most `max_subject_len` characters unless that limit is 0, and must not end
/// with a period if `no_trailing_period` is set. The first of these that fails
/// gives the error.
pub fn validate_header(
    header_line: &str,
    allowed_types: &[String],
    max_subject_len: usize,
    no_trailing_period: bool,
) -> (r: Result<(), ValidationError>)
    ensures
        verdict_view(r) == header_verdict(
            header_line@,
            type_set(allowed_types.deep_view()),
            max_subject_len as nat,
            no_trailing_period,
        ),
{
    match parse_header(header_line) {
        None => Err(ValidationError::BadHeader),
        Some(header) => {
            proof {
                lemma_header_of(header_line@, header@);
            }
            check_parts(&header, allowed_types, max_subject_len, no_trailing_period)
        },
    }
}

} // verus!
