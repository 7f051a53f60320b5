//! Starting `cc-check` from a hook, and naming the binary of a platform.

use crate::text::chars_of;
use vstd::prelude::*;
use vstd::string::StringExecFns;

verus! {

/// The exit code for a run of `cc-check` that a signal ended.
pub const SIGNALLED_EXIT_CODE: i32 = 130;

/// The arguments that `cc-check` is started with, given those of the hook:
/// `check` goes in front unless the first argument is an option or is
/// `check` itself.
pub open spec fn command_arguments(args: Seq<Seq<char>>) -> Seq<Seq<char>> {
    if args.len() == 0 {
        seq!["check"@]
    } else if args[0] == "check"@ || (args[0].len() > 0 && args[0][0] == '-') {
        args
    } else {
        seq!["check"@] + args
    }
}

/// How the hook starts `cc-check`.
#[derive(Debug, Clone, Copy, PartialEq, Eq, Structural)]
pub enum Launcher {
    /// By the binary of the release build.
    ReleaseBinary,
    /// By the binary of the debug build.
    DebugBinary,
    /// By `cargo run`.
    CargoRun,
}

/// The way to start `cc-check`, given what there is: the release binary
/// before the debug binary, and either before `cargo`; `None` if there is
/// none of the three.
pub open spec fn launcher_of(has_release: bool, has_debug: bool, has_cargo: bool) -> Option<
    Launcher,
> {
    if has_release {
        Some(Launcher::ReleaseBinary)
    } else if has_debug {
        Some(Launcher::DebugBinary)
    } else if has_cargo {
        Some(Launcher::CargoRun)
    } else {
        None
    }
}

/// The names of a platform's binary.
#[derive(Debug, Clone, PartialEq, Eq)]
pub struct PlatformBinary {
    /// The name of the operating system, as package names have it.
    pub os_name: String,
    /// The name of the binary as it is shipped.
    pub binary_name: String,
    /// The name that the binary is installed under.
    pub target_name: String,
}

/// The name of the operating system `os`, as package names have it.
pub open spec fn os_name_of(os: Seq<char>) -> Seq<char> {
    if os == "windows"@ {
        "win32"@
    } else if os == "macos"@ {
        "darwin"@
    } else {
        "linux"@
    }
}

/// `arch` is a 64-bit ARM architecture.
pub open spec fn is_arm64(arch: Seq<char>) -> bool {
    arch == "aarch64"@ || arch == "arm64"@
}

/// The name of the binary shipped for the operating system `os` on the
/// architecture `arch`.
pub open spec fn shipped_binary_of(os: Seq<char>, arch: Seq<char>) -> Seq<char> {
    if os == "windows"@ {
        "cc-check-win32-x64.exe"@
    } else if os == "macos"@ {
        if is_arm64(arch) {
            "cc-check-darwin-arm64"@
        } else {
            "cc-check-darwin-x64"@
        }
    } else if is_arm64(arch) {
        "cc-check-linux-aarch64"@
    } else {
        "cc-check-linux-x64"@
    }
}

/// The name that the binary is installed under on the operating system `os`.
pub open spec fn installed_binary_of(os: Seq<char>) -> Seq<char> {
    if os == "windows"@ {
        "cc-check.exe"@
    } else {
        "cc-check"@
    }
}

/// Whether `a` and `b` are the same text.
fn same_text(a: &str, b: &str) -> (r: bool)
    ensures
        r == (a@ == b@),
{
    String::from_str(a) == String::from_str(b)
}

/// The arguments to start `cc-check` with, given the arguments of the hook.
pub fn hook_arguments(args: Vec<String>) -> (r: Vec<String>)
    ensures
        r.deep_view() == command_arguments(args.deep_view()),
{
    let mut r: Vec<String> = Vec::new();
    let mut in_front = false;
    if args.len() == 0 {
        in_front = true;
    } else {
        let first = chars_of(args[0].as_str());
        let is_option = first.len() > 0 && first[0] == '-';
        if !is_option && !same_text(args[0].as_str(), "check") {
            in_front = true;
        }
    }
    if in_front {
        r.push(String::from_str("check"));
    }
    let ghost head = r.deep_view();
    assert(head =~= if in_front {
        seq!["check"@]
    } else {
        Seq::empty()
    });
    assert(r.deep_view() =~= head + args.deep_view().take(0));
    let mut i: usize = 0;
    while i < args.len()
        invariant
            i <= args.len(),
            r.deep_view() == head + args.deep_view().take(i as int),
        decreases args.len() - i,
    {
        let ghost before = r.deep_view();
        r.push(args[i].clone());
        assert(r.deep_view() =~= before.push(args@[i as int]@));
        assert(args.deep_view().take(i + 1) =~= args.deep_view().take(i as int).push(
            args@[i as int]@,
        ));
        i += 1;
    }
    assert(args.deep_view().take(args.len() as int) =~= args.deep_view());
    assert(Seq::<Seq<char>>::empty() + args.deep_view() =~= args.deep_view());
    assert(args.len() > 0 ==> args.deep_view()[0] == args@[0]@);
    r
}

/// Chooses the way to start `cc-check`, given whether the release binary and
/// the debug binary are there and whether `cargo` runs.
pub fn choose_launcher(has_release: bool, has_debug: bool, has_cargo: bool) -> (r: Option<
    Launcher,
>)
    ensures
        r == launcher_of(has_release, has_debug, has_cargo),
{
    if has_release {
        Some(Launcher::ReleaseBinary)
    } else if has_debug {
        Some(Launcher::DebugBinary)
    } else if has_cargo {
        Some(Launcher::CargoRun)
    } else {
        None
    }
}

/// The exit code of the hook, given that of `cc-check`: its own,
/// or 130 if a signal ended it.
pub fn exit_code_of(code: Option<i32>) -> (r: i32)
    ensures
        r == match code {
            Some(c) => c,
            None => SIGNALLED_EXIT_CODE,
        },
{
    match code {
        Some(c) => c,
        None => SIGNALLED_EXIT_CODE,
    }
}

/// The names of the binary for the operating system `os` on the architecture
/// `arch`, each named as the standard library names it.
pub fn platform_binary(os: &str, arch: &str) -> (r: PlatformBinary)
    ensures
        r.os_name@ == os_name_of(os@),
        r.binary_name@ == shipped_binary_of(os@, arch@),
        r.target_name@ == installed_binary_of(os@),
{
    let arm64 = same_text(arch, "aarch64") || same_text(arch, "arm64");
    if same_text(os, "windows") {
        PlatformBinary {
            os_name: String::from_str("win32"),
            binary_name: String::from_str("cc-check-win32-x64.exe"),
            target_name: String::from_str("cc-check.exe"),
        }
    } else if same_text(os, "macos") {
        PlatformBinary {
            os_name: String::from_str("darwin"),
            binary_name: if arm64 {
                String::from_str("cc-check-darwin-arm64")
            } else {
                String::from_str("cc-check-darwin-x64")
            },
            target_name: String::from_str("cc-check"),
        }
    } else {
        PlatformBinary {
            os_name: String::from_str("linux"),
            binary_name: if arm64 {
                String::from_str("cc-check-linux-aarch64")
            } else {
                String::from_str("cc-check-linux-x64")
            },
            target_name: String::from_str("cc-check"),
        }
    }
}

} // verus!
