//! Installing the `commit-msg` hook: the names of the files, which binary the
//! hook runs, whether the hook in place is kept, and what is written.
//!
//! The library runs no command and touches no file. A front end finds out
//! what is there, asks [`plan_install`] what to do, and does it.

use crate::hook::{create_unix_hook, create_windows_hook, unix_hook_text, windows_hook_text};
use vstd::prelude::*;
use vstd::string::StringExecFns;

verus! {

/// What a front end found before it installs the hook.
#[derive(Debug, Clone, PartialEq, Eq)]
pub struct InstallProbe {
    /// The hook is for the Windows command interpreter, not for a POSIX shell.
    pub windows: bool,
    /// The path of the binary beside the running executable.
    pub binary_beside_exe: String,
    /// Whether that binary exists.
    pub beside_exe_exists: bool,
    /// The path of the binary in the repository's release directory, if it
    /// was looked for and exists.
    pub release_binary: Option<String>,
    /// Whether a hook is in place already.
    pub hook_exists: bool,
    /// Whether a copy of an earlier hook is in place already.
    pub backup_exists: bool,
}

/// What a front end is to do to install the hook.
#[derive(Debug, Clone, PartialEq, Eq)]
pub struct InstallPlan {
    /// The binary that the hook runs.
    pub binary_path: String,
    /// Whether the hook in place is copied to the backup file first.
    pub back_up: bool,
    /// The text of the hook.
    pub script: String,
}

/// The name of the hook's file in the hooks directory.
pub open spec fn hook_file_name_text(windows: bool) -> Seq<char> {
    if windows {
        "commit-msg.bat"@
    } else {
        "commit-msg"@
    }
}

/// The name of the `cc-check` binary.
pub open spec fn binary_file_name_text(windows: bool) -> Seq<char> {
    if windows {
        "cc-check.exe"@
    } else {
        "cc-check"@
    }
}

/// The binary that the hook runs: the one beside the running executable if it
/// exists, else the one in the release directory if that exists, else the
/// first again.
pub open spec fn chosen_binary(
    beside_exe: Seq<char>,
    beside_exe_exists: bool,
    release: Option<Seq<char>>,
) -> Seq<char> {
    if beside_exe_exists {
        beside_exe
    } else {
        match release {
            Some(path) => path,
            None => beside_exe,
        }
    }
}

/// The text of the hook for the platform.
pub open spec fn hook_text(windows: bool, binary_path: Seq<char>) -> Seq<char> {
    if windows {
        windows_hook_text(binary_path)
    } else {
        unix_hook_text(binary_path)
    }
}

/// The name of the hook's file in the hooks directory.
pub fn hook_file_name(windows: bool) -> (name: String)
    ensures
        name@ == hook_file_name_text(windows),
{
    if windows {
        String::from_str("commit-msg.bat")
    } else {
        String::from_str("commit-msg")
    }
}

/// The name of the file that a hook found in place is copied to.
pub fn backup_file_name() -> (name: String)
    ensures
        name@ == "commit-msg.backup"@,
{
    String::from_str("commit-msg.backup")
}

/// The name of the `cc-check` binary.
pub fn binary_file_name(windows: bool) -> (name: String)
    ensures
        name@ == binary_file_name_text(windows),
{
    if windows {
        String::from_str("cc-check.exe")
    } else {
        String::from_str("cc-check")
    }
}

/// The text of the hook for the platform.
pub fn create_hook(windows: bool, binary_path: &str) -> (script: String)
    ensures
        script@ == hook_text(windows, binary_path@),
{
    if windows {
        create_windows_hook(binary_path)
    } else {
        create_unix_hook(binary_path)
    }
}

/// Plans the installation. The hook runs the binary that [`chosen_binary`]
/// names. A hook in place is copied to the backup file unless a backup is
/// there already, so that the first hook ever replaced is the one kept.
pub fn plan_install(probe: &InstallProbe) -> (plan: InstallPlan)
    ensures
        plan.binary_path@ == chosen_binary(
            probe.binary_beside_exe@,
            probe.beside_exe_exists,
            probe.release_binary.deep_view(),
        ),
        plan.back_up == (probe.hook_exists && !probe.backup_exists),
        plan.script@ == hook_text(probe.windows, plan.binary_path@),
{
    let binary_path = if probe.beside_exe_exists {
        probe.binary_beside_exe.clone()
    } else {
        match &probe.release_binary {
            Some(path) => path.clone(),
            None => probe.binary_beside_exe.clone(),
        }
    };
    let script = create_hook(probe.windows, binary_path.as_str());
    InstallPlan { binary_path, back_up: probe.hook_exists && !probe.backup_exists, script }
}

} // verus!
