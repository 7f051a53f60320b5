//! The text of the `commit-msg` hook scripts.

use crate::text::chars_of;
use vstd::prelude::*;
use vstd::string::StringExecFns;

verus! {

/// `s` with `with` in the place of each `from`.
pub open spec fn replaced(s: Seq<char>, from: char, with: Seq<char>) -> Seq<char>
    decreases s.len(),
{
    if s.len() == 0 {
        Seq::empty()
    } else if s.last() == from {
        replaced(s.drop_last(), from, with) + with
    } else {
        replaced(s.drop_last(), from, with).push(s.last())
    }
}

/// `s` as one word of a POSIX shell: between single quotes, with each single
/// quote of `s` written as `'\''`.
pub open spec fn shell_quoted(s: Seq<char>) -> Seq<char> {
    "'"@ + replaced(s, '\'', "'\\''"@) + "'"@
}

/// The hook script for a POSIX shell, which runs the binary at `binary_path`
/// on the message file. Backslashes in the path become slashes.
pub open spec fn unix_hook_text(binary_path: Seq<char>) -> Seq<char> {
    "#!/bin/sh\n# Commit-msg hook to validate conventional commit messages\n# Generated by cc-check install\n\nexec "@
        + shell_quoted(replaced(binary_path, '\\', "/"@)) + " check \"$1\"\n"@
}

/// The hook script for the Windows command interpreter, which runs the binary
/// at `binary_path` on the message file. The path stands between double
/// quotes, with each double quote in it doubled.
pub open spec fn windows_hook_text(binary_path: Seq<char>) -> Seq<char> {
    "@echo off\nREM Commit-msg hook to validate conventional commit messages\nREM Generated by cc-check install\n\n\""@
        + replaced(binary_path, '"', "\"\""@)
        + "\" check \"%~1\"\nif errorlevel 1 (\n    echo.\n    echo Commit rejected. Please fix your commit message to follow the conventional commit format.\n    exit /b 1\n)\n"@
}

/// Appends `s`, with `with` in the place of each `from`, to `out`.
pub fn push_replaced(out: &mut String, s: &str, from: char, with: &str)
    ensures
        final(out)@ == old(out)@ + replaced(s@, from, with@),
{
    let v = chars_of(s);
    let mut i: usize = 0;
    assert(v@.take(0) =~= Seq::<char>::empty());
    while i < v.len()
        invariant
            i <= v.len(),
            v@ == s@,
            out@ == old(out)@ + replaced(v@.take(i as int), from, with@),
        decreases v.len() - i,
    {
        let ghost done = v@.take(i as int);
        let ghost next = v@.take(i + 1);
        assert(next.drop_last() =~= done);
        assert(next.last() == v@[i as int]);
        if v[i] == from {
            out.append(with);
            assert(out@ =~= old(out)@ + replaced(next, from, with@));
        } else {
            out.push(v[i]);
            assert(out@ =~= old(out)@ + replaced(next, from, with@));
        }
        i += 1;
    }
    assert(v@.take(v.len() as int) == v@);
}

/// `s` with `with` in the place of each `from`.
pub fn replace_char(s: &str, from: char, with: &str) -> (r: String)
    ensures
        r@ == replaced(s@, from, with@),
{
    let mut r = String::new();
    push_replaced(&mut r, s, from, with);
    assert(Seq::<char>::empty() + replaced(s@, from, with@) =~= replaced(s@, from, with@));
    r
}

/// Quotes `s` as one word of a POSIX shell.
pub fn shell_escape(s: &str) -> (r: String)
    ensures
        r@ == shell_quoted(s@),
{
    let mut r = String::from_str("'");
    push_replaced(&mut r, s, '\'', "'\\''");
    r.append("'");
    r
}

/// The text of the `commit-msg` hook for a POSIX shell.
pub fn create_unix_hook(binary_path: &str) -> (r: String)
    ensures
        r@ == unix_hook_text(binary_path@),
{
    let with_slashes = replace_char(binary_path, '\\', "/");
    let mut r = String::from_str(
        "#!/bin/sh\n# Commit-msg hook to validate conventional commit messages\n# Generated by cc-check install\n\nexec ",
    );
    let quoted = shell_escape(with_slashes.as_str());
    r.append(quoted.as_str());
    r.append(" check \"$1\"\n");
    r
}

/// The text of the `commit-msg` hook for the Windows command interpreter.
pub fn create_windows_hook(binary_path: &str) -> (r: String)
    ensures
        r@ == windows_hook_text(binary_path@),
{
    let mut r = String::from_str(
        "@echo off\nREM Commit-msg hook to validate conventional commit messages\nREM Generated by cc-check install\n\n\"",
    );
    push_replaced(&mut r, binary_path, '"', "\"\"");
    r.append(
        "\" check \"%~1\"\nif errorlevel 1 (\n    echo.\n    echo Commit rejected. Please fix your commit message to follow the conventional commit format.\n    exit /b 1\n)\n",
    );
    r
}

} // verus!
