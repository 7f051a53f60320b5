//! Validation of commit messages against the Conventional Commits header
//! grammar, `type(scope)!: subject`.
//!
//! A message is checked in three steps. [`first_meaningful_line`] finds the
//! header: the first line that is neither blank nor, if comments are ignored,
//! a comment. [`is_merge_like_header`] tells whether the header is that of a
//! merge or a revert, which a policy may exempt. [`validate_header`] holds the
//! header to the grammar and to the policy and names the first rule that it
//! breaks. [`check_message`] does the three in turn.
//!
//! Every function is verified against a specification over sequences of
//! characters: the view of a `str` or a `String` is the `Seq<char>` of its
//! Unicode scalar values. The module [`laws`] states what follows for every
//! message and every policy.
//!
//! The library reads no file and writes to no stream. The modules [`report`],
//! [`hook`], [`install`], [`launch`] and [`repo`] hold what a command-line
//! front end decides, as functions of what it has found out.

pub mod decimal;
pub mod error;
pub mod header;
pub mod hook;
pub mod install;
pub mod launch;
pub mod laws;
pub mod line;
pub mod options;
pub mod policy;
pub mod repo;
pub mod report;
pub mod text;
pub mod validate;

pub use error::ValidationError;
pub use header::{parse_header, CommitHeader};
pub use hook::{create_unix_hook, create_windows_hook, shell_escape};
pub use line::{first_meaningful_line, is_merge_like_header};
pub use options::{CheckOptions, Config};
pub use policy::{check_message, ValidationPolicy};
pub use repo::{find_repo_root, DirProbe};
pub use report::{report, OutputFormat, Report};
pub use validate::validate_header;
