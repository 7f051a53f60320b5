//! Finding the repository root among the ancestors of a directory.
//!
//! The library does not touch the file system. A front end looks, in the
//! starting directory and in each of its ancestors, for the files that matter,
//! and hands what it found to these functions, the starting directory first.

use vstd::prelude::*;

verus! {

/// What was found in one directory.
#[derive(Debug, Clone, Copy, PartialEq, Eq)]
pub struct DirProbe {
    /// The directory holds `Cargo.toml`.
    pub has_cargo_toml: bool,
    /// The directory holds `.git`.
    pub has_git: bool,
    /// The directory holds the configuration file, `.cc-check.toml`.
    pub has_config: bool,
}

impl DirProbe {
    /// A directory is a repository root if it holds `Cargo.toml` or `.git`.
    pub open spec fn is_root(self) -> bool {
        self.has_cargo_toml || self.has_git
    }
}

/// The first place at or after `from` that holds a repository root, or the
/// length of `ancestors` if none does.
pub open spec fn first_root(ancestors: Seq<DirProbe>, from: int) -> int
    decreases ancestors.len() - from,
{
    if from < 0 || from >= ancestors.len() {
        ancestors.len() as int
    } else if ancestors[from].is_root() {
        from
    } else {
        first_root(ancestors, from + 1)
    }
}

/// The place in `ancestors` of the repository root: the first directory that
/// is one; `None` if none is.
pub open spec fn repo_root_of(ancestors: Seq<DirProbe>) -> Option<int> {
    if first_root(ancestors, 0) < ancestors.len() {
        Some(first_root(ancestors, 0))
    } else {
        None
    }
}

/// The place of the configuration file: the repository root, if it holds one.
pub open spec fn config_dir_of(ancestors: Seq<DirProbe>) -> Option<int> {
    match repo_root_of(ancestors) {
        Some(root) => if ancestors[root].has_config {
            Some(root)
        } else {
            None
        },
        None => None,
    }
}

/// The repository root is a root, and no directory before it is one.
pub proof fn lemma_repo_root_is_first(ancestors: Seq<DirProbe>)
    ensures
        match repo_root_of(ancestors) {
            Some(root) => {
                &&& 0 <= root < ancestors.len()
                &&& ancestors[root].is_root()
                &&& forall|i: int| 0 <= i < root ==> !(#[trigger] ancestors[i]).is_root()
            },
            None => forall|i: int| 0 <= i < ancestors.len() ==> !(#[trigger] ancestors[i]).is_root(),
        },
{
    lemma_first_root(ancestors, 0);
}

/// `first_root` passes over no root.
proof fn lemma_first_root(ancestors: Seq<DirProbe>, from: int)
    requires
        0 <= from <= ancestors.len(),
    ensures
        from <= first_root(ancestors, from) <= ancestors.len(),
        forall|i: int|
            from <= i < first_root(ancestors, from) ==> !(#[trigger] ancestors[i]).is_root(),
        first_root(ancestors, from) < ancestors.len() ==> ancestors[first_root(
            ancestors,
            from,
        )].is_root(),
    decreases ancestors.len() - from,
{
    if from < ancestors.len() && !ancestors[from].is_root() {
        lemma_first_root(ancestors, from + 1);
    }
}

/// Finds the repository root among a directory and its ancestors, given
/// nearest first: the first that holds `Cargo.toml` or `.git`. Returns its
/// place in `ancestors`, or `None` if none of them is a root.
pub fn find_repo_root(ancestors: &[DirProbe]) -> (r: Option<usize>)
    ensures
        match r {
            Some(root) => repo_root_of(ancestors@) == Some(root as int),
            None => repo_root_of(ancestors@) is None,
        },
{
    let mut i: usize = 0;
    while i < ancestors.len()
        invariant
            i <= ancestors.len(),
            first_root(ancestors@, 0) == first_root(ancestors@, i as int),
            forall|j: int| 0 <= j < i ==> !(#[trigger] ancestors@[j]).is_root(),
        decreases ancestors.len() - i,
    {
        if ancestors[i].has_cargo_toml || ancestors[i].has_git {
            return Some(i);
        }
        i += 1;
    }
    None
}

} // verus!
