use cc_check::hook::replace_char;
use cc_check::{create_unix_hook, create_windows_hook, shell_escape};
use std::path::PathBuf;

#[test]
fn handles_regular_paths() {
    let path = "/usr/bin/cc-check";
    let escaped = shell_escape(path);
    assert_eq!(escaped, "'/usr/bin/cc-check'");
}

#[test]
fn handles_paths_with_spaces() {
    let path = "/path with spaces/cc-check";
    let escaped = shell_escape(path);
    assert_eq!(escaped, "'/path with spaces/cc-check'");
}

#[test]
fn main_handles_paths_with_spaces() {
    let path = PathBuf::from("/path with spaces/cc-check");
    let hook = create_unix_hook(&path.to_string_lossy());
    assert!(hook.contains("'/path with spaces/cc-check'"));

    let path = PathBuf::from("C:\\My Programs\\cc-check.exe");
    let hook = create_windows_hook(&path.to_string_lossy());
    assert!(hook.contains("\"C:\\My Programs\\cc-check.exe\""));
}

#[test]
fn handles_paths_with_quotes() {
    let path = "/path'with'quotes/cc-check";
    let escaped = shell_escape(path);
    assert_eq!(escaped, "'/path'\\''with'\\''quotes/cc-check'");
}

#[test]
fn escapes_paths() {
    let path = PathBuf::from("/usr/bin/cc-check");
    let hook = create_unix_hook(&path.to_string_lossy());
    assert!(hook.contains("exec '/usr/bin/cc-check'"));
    assert!(hook.contains("#!/bin/sh"));
    assert!(hook.contains("check \"$1\""));
}

#[test]
fn converts_windows_paths() {
    let path = PathBuf::from("C:\\Program Files\\cc-check.exe");
    let hook = create_unix_hook(&path.to_string_lossy());
    assert!(hook.contains("C:/Program Files/cc-check.exe"));
}

#[test]
fn wraps_paths_in_quotes() {
    let path = PathBuf::from("C:\\Program Files\\cc-check.exe");
    let hook = create_windows_hook(&path.to_string_lossy());
    assert!(hook.contains("\"C:\\Program Files\\cc-check.exe\""));
    assert!(hook.contains("@echo off"));
    assert!(hook.contains("check \"%~1\""));
}

#[test]
fn escapes_quotes_in_paths() {
    let path = PathBuf::from("C:\\path\"with\"quotes\\cc-check.exe");
    let hook = create_windows_hook(&path.to_string_lossy());
    assert!(hook.contains("\"C:\\path\"\"with\"\"quotes\\cc-check.exe\""));
}

#[test]
fn unix_hook_is_the_whole_script() {
    let hook = create_unix_hook("/opt/it's here\\bin/cc-check");
    let expected = format!(
        "#!/bin/sh\n# Commit-msg hook to validate conventional commit messages\n# Generated by cc-check install\n\nexec {} check \"$1\"\n",
        "'/opt/it'\\''s here/bin/cc-check'"
    );
    assert_eq!(hook, expected);
}

#[test]
fn windows_hook_is_the_whole_script() {
    let hook = create_windows_hook("C:\\tools\\cc \"check\".exe");
    let expected = format!(
        "@echo off\nREM Commit-msg hook to validate conventional commit messages\nREM Generated by cc-check install\n\n\"{}\" check \"%~1\"\nif errorlevel 1 (\n    echo.\n    echo Commit rejected. Please fix your commit message to follow the conventional commit format.\n    exit /b 1\n)\n",
        "C:\\tools\\cc \"\"check\"\".exe"
    );
    assert_eq!(hook, expected);
}

#[test]
fn shell_escape_of_nothing_is_two_quotes() {
    assert_eq!(shell_escape(""), "''");
    assert_eq!(shell_escape("'"), "''\\'''");
}

#[test]
fn replace_char_agrees_with_std() {
    let samples = ["", "a", "''", "a'b'c", "päth/'ü'", "no quotes", "\\\\x\\", "'\u{1F600}'"];
    for s in samples {
        assert_eq!(replace_char(s, '\'', "'\\''"), s.replace('\'', "'\\''"));
        assert_eq!(replace_char(s, '\\', "/"), s.replace('\\', "/"));
        assert_eq!(replace_char(s, '"', "\"\""), s.replace('"', "\"\""));
        assert_eq!(replace_char(s, 'a', ""), s.replace('a', ""));
    }
}
