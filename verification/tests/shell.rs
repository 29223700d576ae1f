//! Shell selection, command lines and the restore wrapper.
use herdr::platform::shell::{
    default_shell_from_env, is_cmd_exe, pane_shell_from, restore_command_args,
    restore_wrapper_script, shell_command_args, windows_preferred_shell_on_path,
    RESTORE_WRAPPER_PS1, RESTORE_WRAPPER_SH,
};
use herdr::platform::Os;

fn never_on_path(_: &str) -> bool {
    false
}

fn always_finds(name: &str) -> bool {
    name == "pwsh.exe"
}

fn only_powershell(name: &str) -> bool {
    name == "powershell.exe"
}

fn unasked(_: &str) -> bool {
    panic!("the probe is not to be asked")
}

fn strings(list: &[&str]) -> Vec<String> {
    list.iter().map(|s| s.to_string()).collect()
}

#[test]
fn default_shell_uses_env_shell_on_unix() {
    let shell =
        default_shell_from_env(Os::Linux, Some("/usr/bin/zsh".to_string()), None, never_on_path);
    assert_eq!(shell, "/usr/bin/zsh");
}

#[test]
fn default_shell_falls_back_to_bin_sh_on_unix() {
    let shell =
        default_shell_from_env(Os::Linux, None, Some("C:/Windows/cmd.exe".into()), never_on_path);
    assert_eq!(shell, "/bin/sh");
}

#[test]
fn default_shell_trims_whitespace_only_env_on_unix() {
    let shell = default_shell_from_env(Os::Linux, Some("   ".to_string()), None, never_on_path);
    assert_eq!(shell, "/bin/sh");
}

#[test]
fn default_shell_prefers_pwsh_on_windows() {
    let shell = default_shell_from_env(Os::Windows, None, None, always_finds);
    assert_eq!(shell, "pwsh.exe");
}

#[test]
fn default_shell_falls_back_to_powershell_when_pwsh_missing() {
    let shell = default_shell_from_env(Os::Windows, None, None, only_powershell);
    assert_eq!(shell, "powershell.exe");
}

#[test]
fn default_shell_uses_comspec_when_no_shell_on_path() {
    let shell = default_shell_from_env(
        Os::Windows,
        None,
        Some(r"C:\Windows\System32\cmd.exe".into()),
        never_on_path,
    );
    assert_eq!(shell, r"C:\Windows\System32\cmd.exe");
}

#[test]
fn default_shell_final_fallback_is_cmd_exe() {
    let shell = default_shell_from_env(Os::Windows, None, None, never_on_path);
    assert_eq!(shell, "cmd.exe");
}

#[test]
fn default_shell_is_platform_appropriate() {
    for os in [Os::Linux, Os::MacOs, Os::Windows, Os::Other] {
        for probe in [never_on_path, always_finds, only_powershell] {
            for hint in [None, Some("  ".to_string())] {
                let shell = default_shell_from_env(os, hint.clone(), hint, probe);
                assert!(!shell.is_empty());
                if os == Os::Windows {
                    let lowered = shell.to_ascii_lowercase();
                    assert!(
                        lowered.ends_with("pwsh.exe")
                            || lowered.ends_with("powershell.exe")
                            || lowered.ends_with("cmd.exe"),
                        "windows default_shell should be a known windows shell, got: {shell}"
                    );
                } else {
                    assert!(
                        shell.starts_with('/'),
                        "unix default_shell should be an absolute path, got: {shell}"
                    );
                }
            }
        }
    }
}

#[test]
fn default_shell_ignores_the_other_platforms_hints() {
    let unix = Some("/usr/bin/fish".to_string());
    let comspec = Some(r" D:\cmd.exe ".to_string());
    assert_eq!(
        default_shell_from_env(Os::Windows, unix.clone(), comspec.clone(), never_on_path),
        r"D:\cmd.exe"
    );
    assert_eq!(default_shell_from_env(Os::MacOs, unix, comspec, unasked), "/usr/bin/fish");
}

#[test]
fn powershell_is_asked_for_only_after_pwsh() {
    let probe = |name: &str| {
        assert_eq!(name, "pwsh.exe", "asked past the hit");
        true
    };
    assert_eq!(default_shell_from_env(Os::Windows, None, None, probe), "pwsh.exe");
}

#[test]
fn pane_shell_prefers_configured_value() {
    for os in [Os::Linux, Os::Windows] {
        assert_eq!(
            pane_shell_from(os, "/usr/bin/nu", Some("/bin/bash".to_string()), None, unasked),
            "/usr/bin/nu"
        );
    }
}

#[test]
fn pane_shell_falls_back_to_env_shell() {
    assert_eq!(
        pane_shell_from(Os::Linux, "", Some("/bin/bash".to_string()), None, unasked),
        "/bin/bash"
    );
}

#[test]
fn pane_shell_ignores_whitespace_only_values() {
    assert_eq!(
        pane_shell_from(Os::Linux, "   ", Some("  ".to_string()), None, unasked),
        "/bin/sh"
    );
    assert_eq!(pane_shell_from(Os::Linux, "", None, None, unasked), "/bin/sh");
}

#[test]
fn pane_shell_on_windows_is_the_default_shell() {
    assert_eq!(
        pane_shell_from(Os::Windows, " \t", Some("/bin/bash".into()), None, only_powershell),
        "powershell.exe"
    );
    assert_eq!(
        pane_shell_from(Os::Windows, "\u{a0} nu \u{2003}", None, None, unasked),
        "nu"
    );
}

#[test]
fn resolved_shells_stay_as_they_are() {
    let once = pane_shell_from(Os::Linux, "  /usr/bin/nu -l ", None, None, unasked);
    assert_eq!(once, "/usr/bin/nu -l");
    assert_eq!(pane_shell_from(Os::Linux, &once, None, None, unasked), once);
}

#[test]
fn path_is_searched_in_order_until_found() {
    let dirs = [vec!["a.exe"], vec!["pwsh.exe"], vec![]];
    let holds = |dir: &Vec<&str>, name: &str| {
        assert!(!dir.is_empty(), "asked past the hit");
        dir.contains(&name)
    };
    assert!(windows_preferred_shell_on_path(Os::Windows, Some(&dirs[..]), "pwsh.exe", holds));
    let holds = |dir: &Vec<&str>, name: &str| dir.contains(&name);
    assert!(!windows_preferred_shell_on_path(Os::Windows, Some(&dirs[..]), "powershell.exe", holds));
    assert!(!windows_preferred_shell_on_path(Os::Windows, None::<&[Vec<&str>]>, "pwsh.exe", holds));
    assert!(!windows_preferred_shell_on_path(Os::Linux, Some(&dirs[..]), "pwsh.exe", holds));
}

#[test]
fn shell_command_args_uses_bin_sh_minus_c_on_unix() {
    let (program, args) = shell_command_args(Os::Linux, "/usr/bin/zsh".to_string(), "echo hi");
    assert_eq!(program, "/bin/sh");
    assert_eq!(args, vec!["-c".to_string(), "echo hi".to_string()]);
}

#[test]
fn shell_command_args_uses_pwsh_or_cmd_on_windows() {
    for probe in [never_on_path, always_finds, only_powershell] {
        let shell = default_shell_from_env(Os::Windows, None, None, probe);
        let (program, args) = shell_command_args(Os::Windows, shell.clone(), "echo hi");
        assert_eq!(program, shell);
        let lowered = program.to_ascii_lowercase();
        if lowered.ends_with("cmd.exe") {
            assert_eq!(args, vec!["/C".to_string(), "echo hi".to_string()]);
        } else {
            assert_eq!(
                args,
                vec![
                    "-NoProfile".to_string(),
                    "-Command".to_string(),
                    "echo hi".to_string(),
                ]
            );
        }
    }
}

#[test]
fn restore_wrapper_script_returns_non_empty() {
    for os in [Os::Linux, Os::MacOs, Os::Windows] {
        let script = restore_wrapper_script(os);
        assert!(!script.is_empty());
        if os == Os::Windows {
            assert!(script.contains("param"));
        } else {
            assert!(script.contains("exec"));
        }
    }
}

#[test]
fn restore_command_args_emits_posix_invocation_on_unix() {
    let (program, args) = restore_command_args(
        Os::Linux,
        "/usr/bin/zsh".to_string(),
        "codex",
        "/bin/zsh",
        &["/bin/sh".to_string(), "-c".to_string(), "exit 7".to_string()],
    );
    assert_eq!(program, "/bin/sh");
    assert_eq!(args[0], "-c");
    assert!(args[1].contains("agent"));
    assert_eq!(args[2], "herdr-agent-restore");
    assert_eq!(args[3], "codex");
    assert_eq!(args[4], "/bin/zsh");
    assert_eq!(args[5], "30");
    assert_eq!(args[6], "/bin/sh");
    assert_eq!(args[1], RESTORE_WRAPPER_SH);
    assert_eq!(args[6..], strings(&["/bin/sh", "-c", "exit 7"]));
}

#[test]
fn restore_command_args_emits_pwsh_invocation_on_windows() {
    for shell in ["cmd.exe", "pwsh.exe"] {
        let (program, args) = restore_command_args(
            Os::Windows,
            shell.to_string(),
            "codex",
            "pwsh.exe",
            &["pwsh.exe".to_string(), "-c".to_string(), "exit 7".to_string()],
        );
        assert_eq!(program, shell);
        let lowered = program.to_ascii_lowercase();
        if lowered.ends_with("cmd.exe") {
            assert_eq!(args[0], "/C");
            assert!(args[1].contains("pwsh.exe"));
            assert!(args[1].contains("||"));
            assert_eq!(args[1], "pwsh.exe -c exit 7 || pwsh.exe");
            assert_eq!(args.len(), 2);
        } else {
            assert_eq!(args[0], "-NoProfile");
            assert_eq!(args[1], "-Command");
            assert!(args[2].contains("param"));
            assert_eq!(args[3], "--");
            assert_eq!(args[4], "codex");
            assert_eq!(args[5], "pwsh.exe");
            assert_eq!(args[6], "30");
            assert_eq!(args[7], "pwsh.exe");
            assert_eq!(args[2], RESTORE_WRAPPER_PS1);
            assert_eq!(args.len(), 10);
        }
    }
}

#[test]
fn restore_without_argv_still_falls_back() {
    let (_, args) = restore_command_args(Os::Windows, "cmd.exe".into(), "a", "pwsh.exe", &[]);
    assert_eq!(args, strings(&["/C", " || pwsh.exe"]));
    let (_, args) = restore_command_args(Os::MacOs, "x".into(), "a", "/bin/zsh", &[]);
    assert_eq!(args.len(), 6);
}

#[test]
fn is_cmd_exe_recognizes_full_and_bare_paths() {
    assert!(is_cmd_exe("cmd.exe"));
    assert!(is_cmd_exe(r"C:\Windows\System32\cmd.exe"));
    assert!(is_cmd_exe("/some/wsl/path/cmd.exe"));
    assert!(!is_cmd_exe("pwsh.exe"));
    assert!(!is_cmd_exe("/bin/sh"));
}

#[test]
fn is_cmd_exe_ignores_ascii_case_but_needs_the_whole_name() {
    assert!(is_cmd_exe("CMD.EXE"));
    assert!(is_cmd_exe(r"c:\windows\CmD.exe"));
    assert!(!is_cmd_exe("mycmd.exe"));
    assert!(!is_cmd_exe("cmd.exe "));
    assert!(!is_cmd_exe(""));
}
