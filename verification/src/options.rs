//! Where a policy comes from: the options of a run, and the configuration
//! file.

use crate::policy::{
    add_types, default_type_names, default_types, listed_types, parse_type_list, with_types,
    ValidationPolicy, DEFAULT_MAX_SUBJECT,
};
use crate::repo::{config_dir_of, find_repo_root, DirProbe};
use crate::report::OutputFormat;
use vstd::prelude::*;

verus! {

/// The options of one run of `cc-check`.
#[derive(Debug, Clone, PartialEq, Eq)]
pub struct CheckOptions {
    /// The path of the file that holds the commit message, if one was given.
    pub commit_msg_file: Option<String>,
    /// Commit types to allow besides the default ones, separated by commas.
    pub extra_types: Option<String>,
    /// The most characters that a subject may have; 0 for no limit.
    pub max_subject: usize,
    /// Whether a subject that ends with a period is rejected.
    pub no_trailing_period: bool,
    /// Whether lines that begin with `#` are passed over.
    pub ignore_comments: bool,
    /// Whether merge-like headers are accepted as they are.
    pub allow_merge_commits: bool,
    /// The form of the report.
    pub format: OutputFormat,
}

/// The contents of a configuration file. What the file leaves out is `None`,
/// or empty, and stands for the default.
#[derive(Debug, Clone, PartialEq, Eq)]
pub struct Config {
    /// Commit types to allow besides the default ones.
    pub extra_types: Vec<String>,
    /// The most characters that a subject may have; 0 for no limit.
    pub max_subject: Option<usize>,
    /// Whether a subject that ends with a period is rejected.
    pub no_trailing_period: Option<bool>,
    /// Whether lines that begin with `#` are passed over.
    pub ignore_comments: Option<bool>,
    /// Whether merge-like headers are accepted as they are.
    pub allow_merge_commits: Option<bool>,
}

/// The types that the extra types of a run name.
pub open spec fn extra_type_names(extra_types: Option<String>) -> Seq<Seq<char>> {
    match extra_types {
        Some(list) => listed_types(list@),
        None => Seq::empty(),
    }
}

/// The setting of a configuration file, or the default where it has none.
pub open spec fn setting_or<T>(setting: Option<T>, default: T) -> T {
    match setting {
        Some(value) => value,
        None => default,
    }
}

impl CheckOptions {
    /// The default options, for the message in `commit_msg_file`.
    pub fn default_with_file(commit_msg_file: Option<String>) -> (options: CheckOptions)
        ensures
            options.commit_msg_file == commit_msg_file,
            options.extra_types is None,
            options.max_subject == DEFAULT_MAX_SUBJECT,
            options.no_trailing_period,
            options.ignore_comments,
            options.allow_merge_commits,
            options.format == OutputFormat::Text,
    {
        CheckOptions {
            commit_msg_file,
            extra_types: None,
            max_subject: DEFAULT_MAX_SUBJECT,
            no_trailing_period: true,
            ignore_comments: true,
            allow_merge_commits: true,
            format: OutputFormat::Text,
        }
    }

    /// The policy that these options ask for: the default types and, after
    /// them, the extra types that are not among them yet.
    pub fn policy(&self) -> (policy: ValidationPolicy)
        ensures
            policy.allowed_types.deep_view() == with_types(
                default_type_names(),
                extra_type_names(self.extra_types),
            ),
            policy.max_subject_length == self.max_subject,
            policy.forbid_trailing_period == self.no_trailing_period,
            policy.ignore_comment_lines == self.ignore_comments,
            policy.allow_merge_like == self.allow_merge_commits,
    {
        let mut allowed_types = default_types();
        match &self.extra_types {
            Some(list) => {
                let extra = parse_type_list(list.as_str());
                add_types(&mut allowed_types, &extra);
            },
            None => {},
        }
        ValidationPolicy {
            allowed_types,
            max_subject_length: self.max_subject,
            forbid_trailing_period: self.no_trailing_period,
            ignore_comment_lines: self.ignore_comments,
            allow_merge_like: self.allow_merge_commits,
        }
    }
}

impl Default for Config {
    /// The configuration that sets nothing.
    fn default() -> (config: Config)
        ensures
            config.extra_types@.len() == 0,
            config.max_subject is None,
            config.no_trailing_period is None,
            config.ignore_comments is None,
            config.allow_merge_commits is None,
    {
        Config {
            extra_types: Vec::new(),
            max_subject: None,
            no_trailing_period: None,
            ignore_comments: None,
            allow_merge_commits: None,
        }
    }
}

impl Config {
    /// The policy that this configuration asks for: each setting as the file
    /// gives it, the default where it gives none, and the default types with,
    /// after them, the extra types that are not among them yet.
    pub fn policy(&self) -> (policy: ValidationPolicy)
        ensures
            policy.allowed_types.deep_view() == with_types(
                default_type_names(),
                self.extra_types.deep_view(),
            ),
            policy.max_subject_length == setting_or(self.max_subject, DEFAULT_MAX_SUBJECT),
            policy.forbid_trailing_period == setting_or(self.no_trailing_period, true),
            policy.ignore_comment_lines == setting_or(self.ignore_comments, true),
            policy.allow_merge_like == setting_or(self.allow_merge_commits, true),
    {
        let mut allowed_types = default_types();
        add_types(&mut allowed_types, &self.extra_types);
        ValidationPolicy {
            allowed_types,
            max_subject_length: match self.max_subject {
                Some(limit) => limit,
                None => DEFAULT_MAX_SUBJECT,
            },
            forbid_trailing_period: match self.no_trailing_period {
                Some(flag) => flag,
                None => true,
            },
            ignore_comment_lines: match self.ignore_comments {
                Some(flag) => flag,
                None => true,
            },
            allow_merge_like: match self.allow_merge_commits {
                Some(flag) => flag,
                None => true,
            },
        }
    }

    /// Finds the directory that holds the configuration file, among a
    /// directory and its ancestors, given nearest first: the repository root,
    /// if the file is there. Returns its place in `ancestors`, or `None` if
    /// there is no root or the root holds no configuration file.
    pub fn find_config_file(ancestors: &[DirProbe]) -> (r: Option<usize>)
        ensures
            match r {
                Some(dir) => config_dir_of(ancestors@) == Some(dir as int),
                None => config_dir_of(ancestors@) is None,
            },
    {
        match find_repo_root(ancestors) {
            Some(root) => {
                proof {
                    crate::repo::lemma_repo_root_is_first(ancestors@);
                }
                if ancestors[root].has_config {
                    Some(root)
                } else {
                    None
                }
            },
            None => None,
        }
    }
}

} // verus!
