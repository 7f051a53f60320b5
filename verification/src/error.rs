//! Why a commit message is rejected.

use crate::decimal::{decimal, push_decimal};
use vstd::prelude::*;
use vstd::string::StringExecFns;

verus! {

/// The reason for which a commit message is rejected.
#[derive(Debug, Clone, PartialEq, Eq)]
pub enum ValidationError {
    /// The message has no meaningful line.
    Empty,
    /// The message has no first line to read as a header. The functions of
    /// this crate report a message without a meaningful line as
    /// [`ValidationError::Empty`]; this is for front ends that tell the two
    /// apart.
    MissingHeader,
    /// The header does not match `<type>(<scope>)?: <subject>`.
    BadHeader,
    /// The header's type, held here, is not among the allowed types.
    DisallowedType(String),
    /// The subject is empty once trimmed.
    EmptySubject,
    /// The trimmed subject is longer than the limit: the limit first, then the
    /// subject's length in characters.
    SubjectTooLong(usize, usize),
    /// The subject ends with a period where none is allowed.
    TrailingPeriod,
}

/// A [`ValidationError`] with its data as mathematical values.
pub enum ErrorKind {
    Empty,
    MissingHeader,
    BadHeader,
    DisallowedType(Seq<char>),
    EmptySubject,
    SubjectTooLong(nat, nat),
    TrailingPeriod,
}

impl View for ValidationError {
    type V = ErrorKind;

    open spec fn view(&self) -> ErrorKind {
        match self {
            ValidationError::Empty => ErrorKind::Empty,
            ValidationError::MissingHeader => ErrorKind::MissingHeader,
            ValidationError::BadHeader => ErrorKind::BadHeader,
            ValidationError::DisallowedType(t) => ErrorKind::DisallowedType(t@),
            ValidationError::EmptySubject => ErrorKind::EmptySubject,
            ValidationError::SubjectTooLong(limit, actual) => ErrorKind::SubjectTooLong(
                *limit as nat,
                *actual as nat,
            ),
            ValidationError::TrailingPeriod => ErrorKind::TrailingPeriod,
        }
    }
}

/// A verdict with its error as mathematical values.
pub open spec fn verdict_view(r: Result<(), ValidationError>) -> Result<(), ErrorKind> {
    match r {
        Ok(_) => Ok(()),
        Err(e) => Err(e@),
    }
}

/// The line that tells a person of the error `e`.
pub open spec fn message_text(e: ErrorKind) -> Seq<char> {
    match e {
        ErrorKind::Empty => "empty commit message"@,
        ErrorKind::MissingHeader => "first line (header) missing"@,
        ErrorKind::BadHeader => "header must match <type>(<scope>)?: <subject>"@,
        ErrorKind::DisallowedType(t) => "type '"@ + t + "' is not allowed"@,
        ErrorKind::EmptySubject => "subject must be non-empty"@,
        ErrorKind::SubjectTooLong(limit, actual) => "subject exceeds "@ + decimal(limit)
            + " characters ("@ + decimal(actual) + ")"@,
        ErrorKind::TrailingPeriod => "subject must not end with a period"@,
    }
}

impl ValidationError {
    /// The line that tells a person of this error.
    pub fn message(&self) -> (s: String)
        ensures
            s@ == message_text(self@),
    {
        match self {
            ValidationError::Empty => String::from_str("empty commit message"),
            ValidationError::MissingHeader => String::from_str("first line (header) missing"),
            ValidationError::BadHeader => String::from_str(
                "header must match <type>(<scope>)?: <subject>",
            ),
            ValidationError::DisallowedType(t) => {
                let mut s = String::from_str("type '");
                s.append(t.as_str());
                s.append("' is not allowed");
                s
            },
            ValidationError::EmptySubject => String::from_str("subject must be non-empty"),
            ValidationError::SubjectTooLong(limit, actual) => {
                let mut s = String::from_str("subject exceeds ");
                push_decimal(&mut s, *limit);
                s.append(" characters (");
                push_decimal(&mut s, *actual);
                s.append(")");
                s
            },
            ValidationError::TrailingPeriod => String::from_str(
                "subject must not end with a period",
            ),
        }
    }
}

} // verus!
