//! Shell selection, shell command lines and the agent-restore wrapper.
//!
//! On unix-like hosts everything runs through `/bin/sh`; on windows `pwsh.exe` is preferred, then
//! `powershell.exe`, then `%COMSPEC%` / `cmd.exe`, and the restore wrapper is a PowerShell script.
use vstd::prelude::*;

use crate::platform::Os;
use crate::text::{ascii_lower_chars, ends_with, trim};
#[allow(unused_imports)]
use crate::text::{ascii_lower_spec, trim_spec};

verus! {

/// The texts of a list of strings.
pub open spec fn texts(list: Seq<String>) -> Seq<Seq<char>> {
    list.map_values(|s: String| s@)
}

/// `value` without surrounding white space, or `fallback` when nothing is left of it.
pub open spec fn nonblank_or(value: Option<String>, fallback: Seq<char>) -> Seq<char> {
    match value {
        Some(v) => if trim_spec(v@).len() > 0 {
            trim_spec(v@)
        } else {
            fallback
        },
        None => fallback,
    }
}

fn nonblank_or_exec(value: Option<String>, fallback: &str) -> (r: String)
    ensures
        r@ == nonblank_or(value, fallback@),
{
    if let Some(v) = value {
        let trimmed = trim(v.as_str());
        if !trimmed.is_empty() {
            return trimmed.to_owned();
        }
    }
    fallback.to_owned()
}

/// The default shell of a host, given its environment and which of the two preferred windows
/// shells are on `PATH`.
pub open spec fn default_shell_spec(
    os: Os,
    unix_shell: Option<String>,
    windows_comspec: Option<String>,
    pwsh_found: bool,
    powershell_found: bool,
) -> Seq<char> {
    if os != Os::Windows {
        nonblank_or(unix_shell, "/bin/sh"@)
    } else if pwsh_found {
        "pwsh.exe"@
    } else if powershell_found {
        "powershell.exe"@
    } else {
        nonblank_or(windows_comspec, "cmd.exe"@)
    }
}

/// Whether `shell` is a default shell for answers that the probe can give.
pub open spec fn is_default_shell<F: Fn(&str) -> bool>(
    os: Os,
    unix_shell: Option<String>,
    windows_comspec: Option<String>,
    windows_probe: F,
    shell: Seq<char>,
) -> bool {
    exists|pwsh: bool, powershell: bool|
        {
            &&& shell == #[trigger] default_shell_spec(
                os,
                unix_shell,
                windows_comspec,
                pwsh,
                powershell,
            )
            &&& os == Os::Windows ==> call_ensures(windows_probe, ("pwsh.exe",), pwsh)
            &&& os == Os::Windows && !pwsh ==> call_ensures(
                windows_probe,
                ("powershell.exe",),
                powershell,
            )
        }
}

/// The probe can be asked for `pwsh.exe`, and for `powershell.exe` once it has said no to that.
pub open spec fn probes_in_order<F: Fn(&str) -> bool>(windows_probe: F) -> bool {
    &&& call_requires(windows_probe, ("pwsh.exe",))
    &&& call_ensures(windows_probe, ("pwsh.exe",), false) ==> call_requires(
        windows_probe,
        ("powershell.exe",),
    )
}

/// Default shell of a host.
///
/// Honors `$SHELL` off windows and `%COMSPEC%` on windows, falling back to `/bin/sh` and `cmd.exe`
/// when no environment hint is set and, on windows, the probe finds no preferred shell on `PATH`. It is
/// asked for `pwsh.exe` first, and for `powershell.exe` only if that is not there.
pub fn default_shell_from_env<F: Fn(&str) -> bool>(
    os: Os,
    unix_shell: Option<String>,
    windows_comspec: Option<String>,
    windows_probe: F,
) -> (shell: String)
    requires
        os == Os::Windows ==> probes_in_order(windows_probe),
    ensures
        is_default_shell(os, unix_shell, windows_comspec, windows_probe, shell@),
        shell@.len() > 0,
{
    proof {
        reveal_strlit("/bin/sh");
        reveal_strlit("pwsh.exe");
        reveal_strlit("powershell.exe");
        reveal_strlit("cmd.exe");
    }
    if os == Os::Windows {
        if windows_probe("pwsh.exe") {
            assert("pwsh.exe"@ == default_shell_spec(os, unix_shell, windows_comspec, true, true));
            return "pwsh.exe".to_owned();
        }
        if windows_probe("powershell.exe") {
            assert("powershell.exe"@ == default_shell_spec(
                os,
                unix_shell,
                windows_comspec,
                false,
                true,
            ));
            return "powershell.exe".to_owned();
        }
        let shell = nonblank_or_exec(windows_comspec, "cmd.exe");
        assert(shell@ == default_shell_spec(os, unix_shell, windows_comspec, false, false));
        return shell;
    }
    let shell = nonblank_or_exec(unix_shell, "/bin/sh");
    assert(shell@ == default_shell_spec(os, unix_shell, windows_comspec, false, false));
    shell
}

/// Whether `shell` drives a pane for answers that the probe can give: the configured value without
/// its surrounding white space, or a default shell where nothing is left of it.
pub open spec fn is_pane_shell<F: Fn(&str) -> bool>(
    os: Os,
    configured: Seq<char>,
    env_shell: Option<String>,
    windows_comspec: Option<String>,
    windows_probe: F,
    shell: Seq<char>,
) -> bool {
    if trim_spec(configured).len() > 0 {
        shell == trim_spec(configured)
    } else {
        is_default_shell(os, env_shell, windows_comspec, windows_probe, shell)
    }
}

/// Shell that drives a pane: a configured value wins, else the default shell.
pub fn pane_shell_from<F: Fn(&str) -> bool>(
    os: Os,
    configured: &str,
    env_shell: Option<String>,
    windows_comspec: Option<String>,
    windows_probe: F,
) -> (shell: String)
    requires
        os == Os::Windows && trim_spec(configured@).len() == 0 ==> probes_in_order(windows_probe),
    ensures
        is_pane_shell(os, configured@, env_shell, windows_comspec, windows_probe, shell@),
        shell@.len() > 0,
{
    let configured = trim(configured);
    if !configured.is_empty() {
        return configured.to_owned();
    }
    default_shell_from_env(os, env_shell, windows_comspec, windows_probe)
}

/// `is_file` may say no about each of the first `n` directories.
pub open spec fn misses<D, F: Fn(&D, &str) -> bool>(
    dirs: Seq<D>,
    n: int,
    name: &str,
    is_file: F,
) -> bool {
    forall|k: int| 0 <= k < n ==> call_ensures(is_file, (&#[trigger] dirs[k], name), false)
}

/// `is_file` can be asked about each directory in front of which all have said no.
pub open spec fn searchable<D, F: Fn(&D, &str) -> bool>(
    dirs: Seq<D>,
    name: &str,
    is_file: F,
) -> bool {
    forall|i: int|
        0 <= i < dirs.len() && #[trigger] misses(dirs, i, name, is_file) ==> call_requires(
            is_file,
            (&dirs[i], name),
        )
}

/// Whether a preferred windows shell lies in one of the directories of `PATH`.
///
/// `path_dirs` is `None` when `PATH` is unset. `is_file` tells whether a directory holds a file of
/// the given name; directories are asked in order until one answers yes. Off windows the answer is
/// no without a question asked.
pub fn windows_preferred_shell_on_path<D, F: Fn(&D, &str) -> bool>(
    os: Os,
    path_dirs: Option<&[D]>,
    name: &str,
    is_file: F,
) -> (found: bool)
    requires
        os == Os::Windows && path_dirs is Some ==> searchable(path_dirs->0@, name, is_file),
    ensures
        found ==> os == Os::Windows && path_dirs is Some && exists|i: int|
            {
                &&& 0 <= i < path_dirs->0@.len()
                &&& #[trigger] misses(path_dirs->0@, i, name, is_file)
                &&& call_ensures(is_file, (&path_dirs->0@[i], name), true)
            },
        !found && os == Os::Windows && path_dirs is Some ==> misses(
            path_dirs->0@,
            path_dirs->0@.len() as int,
            name,
            is_file,
        ),
{
    if os != Os::Windows {
        return false;
    }
    let dirs = match path_dirs {
        Some(dirs) => dirs,
        None => {
            return false;
        },
    };
    let mut i: usize = 0;
    while i < dirs.len()
        invariant
            os == Os::Windows,
            path_dirs == Some(dirs),
            i <= dirs.len(),
            searchable(dirs@, name, is_file),
            misses(dirs@, i as int, name, is_file),
        decreases dirs.len() - i,
    {
        if is_file(&dirs[i], name) {
            assert(misses(path_dirs->0@, i as int, name, is_file));
            return true;
        }
        i += 1;
    }
    false
}

/// Programs named `cmd.exe`, bare or at the end of a path, in any ASCII case.
pub open spec fn is_cmd_exe_spec(program: Seq<char>) -> bool {
    let lowered = ascii_lower_spec(program);
    ||| lowered == "cmd.exe"@
    ||| "\\cmd.exe"@.is_suffix_of(lowered)
    ||| "/cmd.exe"@.is_suffix_of(lowered)
}

/// Whether `program` is the windows command interpreter.
pub fn is_cmd_exe(program: &str) -> (r: bool)
    ensures
        r == is_cmd_exe_spec(program@),
{
    let lowered = ascii_lower_chars(program);
    proof {
        reveal_strlit("cmd.exe");
        assert(lowered@.len() == 7 ==> lowered@.subrange(0, 7) == lowered@);
    }
    (lowered.len() == 7 && ends_with(&lowered, "cmd.exe")) || ends_with(&lowered, "\\cmd.exe")
        || ends_with(&lowered, "/cmd.exe")
}

/// Arguments of "run this command line" for a host whose default shell is `shell`.
pub open spec fn shell_command_args_spec(
    os: Os,
    shell: Seq<char>,
    cmd: Seq<char>,
) -> Seq<Seq<char>> {
    if os != Os::Windows {
        seq!["-c"@, cmd]
    } else if is_cmd_exe_spec(shell) {
        seq!["/C"@, cmd]
    } else {
        seq!["-NoProfile"@, "-Command"@, cmd]
    }
}

/// The program that runs command lines on a host whose default shell is `shell`.
pub open spec fn shell_program_spec(os: Os, shell: Seq<char>) -> Seq<char> {
    if os != Os::Windows {
        "/bin/sh"@
    } else {
        shell
    }
}

/// `(program, args)` for "run this command line as a shell command"; `shell` is the host's default
/// shell.
///
/// - Off windows: `("/bin/sh", ["-c", cmd])`.
/// - Windows: `(shell, ["/C", cmd])` when the shell is `cmd.exe`, else
///   `(shell, ["-NoProfile", "-Command", cmd])`.
pub fn shell_command_args(os: Os, shell: String, cmd: &str) -> (r: (String, Vec<String>))
    ensures
        r.0@ == shell_program_spec(os, shell@),
        texts(r.1@) == shell_command_args_spec(os, shell@, cmd@),
{
    if os == Os::Windows {
        if is_cmd_exe(shell.as_str()) {
            return (shell, vec!["/C".to_owned(), cmd.to_owned()]);
        }
        return (shell, vec!["-NoProfile".to_owned(), "-Command".to_owned(), cmd.to_owned()]);
    }
    ("/bin/sh".to_owned(), vec!["-c".to_owned(), cmd.to_owned()])
}

/// POSIX restore wrapper: runs the agent's argv, prints a diagnostic on early-exit failure, then
/// execs a fallback shell.
pub const RESTORE_WRAPPER_SH: &'static str = r#"agent="$1"
fallback_shell="$2"
early_window="$3"
shift 3
	start="$(date +%s 2>/dev/null || printf 0)"
	"$@"
	status="$?"
	end="$(date +%s 2>/dev/null || printf 999999)"
	elapsed="$((end - start))"
	if [ "$status" -ne 0 ] && [ "$elapsed" -le "$early_window" ]; then
	  printf 'herdr: %s session restore failed; started a shell instead\n' "$agent"
	fi
	exec "$fallback_shell"
	"#;

/// PowerShell restore wrapper, with the same arguments and behaviour.
pub const RESTORE_WRAPPER_PS1: &'static str = r#"param([Parameter(ValueFromRemainingArguments=$true)][string[]]$All)
$agent = $All[0]
$fallback_shell = $All[1]
$early_window = [int]$All[2]
$rest = $All[3..($All.Length - 1)]
$start = [int][double]::Parse((Get-Date -UFormat %s))
$exe = $rest[0]
$exe_args = if ($rest.Length -gt 1) { $rest[1..($rest.Length - 1)] } else { @() }
& $exe @exe_args
$status = $LASTEXITCODE
$end = [int][double]::Parse((Get-Date -UFormat %s))
$elapsed = $end - $start
if ($status -ne 0 -and $elapsed -le $early_window) {
    Write-Host ("herdr: {0} session restore failed; started a shell instead" -f $agent)
}
& $fallback_shell
"#;

/// The body of the restore wrapper script: PowerShell on windows, POSIX `sh` elsewhere.
pub fn restore_wrapper_script(os: Os) -> (script: &'static str)
    ensures
        script@ == restore_wrapper_spec(os),
{
    if os == Os::Windows {
        RESTORE_WRAPPER_PS1
    } else {
        RESTORE_WRAPPER_SH
    }
}

/// The text of the restore wrapper script of a host.
pub open spec fn restore_wrapper_spec(os: Os) -> Seq<char> {
    if os == Os::Windows {
        RESTORE_WRAPPER_PS1@
    } else {
        RESTORE_WRAPPER_SH@
    }
}

/// Seconds within which a failing agent counts as a failed restore, as the wrapper takes it.
pub open spec fn early_window() -> Seq<char> {
    "30"@
}

/// The words of a command line, separated by single spaces.
pub open spec fn join_words(words: Seq<Seq<char>>) -> Seq<char>
    decreases words.len(),
{
    if words.len() == 0 {
        seq![]
    } else if words.len() == 1 {
        words[0]
    } else {
        join_words(words.drop_last()) + " "@ + words.last()
    }
}

/// What stands before the agent's argv on the restore command line of a host that runs the wrapper
/// script.
pub open spec fn restore_prefix_spec(
    os: Os,
    agent: Seq<char>,
    fallback_shell: Seq<char>,
) -> Seq<Seq<char>> {
    if os != Os::Windows {
        seq![
            "-c"@,
            restore_wrapper_spec(os),
            "herdr-agent-restore"@,
            agent,
            fallback_shell,
            early_window(),
        ]
    } else {
        seq![
            "-NoProfile"@,
            "-Command"@,
            restore_wrapper_spec(os),
            "--"@,
            agent,
            fallback_shell,
            early_window(),
        ]
    }
}

/// Arguments that restore an agent on a host whose default shell is `shell`.
pub open spec fn restore_command_args_spec(
    os: Os,
    shell: Seq<char>,
    agent: Seq<char>,
    fallback_shell: Seq<char>,
    argv: Seq<Seq<char>>,
) -> Seq<Seq<char>> {
    if os == Os::Windows && is_cmd_exe_spec(shell) {
        seq!["/C"@, join_words(argv) + " || "@ + fallback_shell]
    } else {
        restore_prefix_spec(os, agent, fallback_shell) + argv
    }
}

/// Appends copies of `argv` to `args`.
fn extend_with(args: &mut Vec<String>, argv: &[String])
    ensures
        texts(final(args)@) == texts(old(args)@) + texts(argv@),
{
    let ghost start = args@;
    let mut i: usize = 0;
    assert(texts(args@) =~= texts(start) + texts(argv@.take(0)));
    while i < argv.len()
        invariant
            i <= argv.len(),
            texts(args@) =~= texts(start) + texts(argv@.take(i as int)),
        decreases argv.len() - i,
    {
        let ghost before = args@;
        args.push(argv[i].clone());
        assert(texts(args@) =~= texts(before).push(argv@[i as int]@));
        assert(texts(argv@.take(i + 1)) =~= texts(argv@.take(i as int)).push(argv@[i as int]@));
        i += 1;
    }
    assert(argv@.take(i as int) =~= argv@);
}

/// The words of `argv`, separated by single spaces.
fn join_argv(argv: &[String]) -> (chain: String)
    ensures
        chain@ == join_words(texts(argv@)),
{
    let mut chain = String::new();
    let mut index: usize = 0;
    while index < argv.len()
        invariant
            index <= argv.len(),
            chain@ =~= join_words(texts(argv@.take(index as int))),
        decreases argv.len() - index,
    {
        let ghost done = texts(argv@.take(index as int));
        let ghost next = texts(argv@.take(index + 1));
        assert(next.drop_last() =~= done);
        assert(next.last() == argv@[index as int]@);
        if index > 0 {
            chain.append(" ");
        }
        chain.append(argv[index].as_str());
        index += 1;
    }
    assert(argv@.take(index as int) =~= argv@);
    chain
}

/// `(program, args)` to spawn the restore wrapper for an agent; `shell` is the host's default
/// shell.
///
/// - Off windows: `("/bin/sh", ["-c", SCRIPT, "herdr-agent-restore", agent, fallback_shell, "30",
///   ...argv])`.
/// - Windows with pwsh/powershell: `(shell, ["-NoProfile", "-Command", SCRIPT, "--", agent,
///   fallback_shell, "30", ...argv])`.
/// - Windows with cmd.exe: `(shell, ["/C", "<argv> || <fallback_shell>"])`. No inline script
///   survives cmd.exe's quoting, so it runs argv and falls back to the shell on failure.
pub fn restore_command_args(
    os: Os,
    shell: String,
    agent: &str,
    fallback_shell: &str,
    argv: &[String],
) -> (r: (String, Vec<String>))
    ensures
        r.0@ == shell_program_spec(os, shell@),
        texts(r.1@) == restore_command_args_spec(
            os,
            shell@,
            agent@,
            fallback_shell@,
            texts(argv@),
        ),
{
    if os == Os::Windows {
        if is_cmd_exe(shell.as_str()) {
            let mut chain = join_argv(argv);
            chain.append(" || ");
            chain.append(fallback_shell);
            return (shell, vec!["/C".to_owned(), chain]);
        }
        let mut args = vec![
            "-NoProfile".to_owned(),
            "-Command".to_owned(),
            RESTORE_WRAPPER_PS1.to_owned(),
            "--".to_owned(),
            agent.to_owned(),
            fallback_shell.to_owned(),
            "30".to_owned(),
        ];
        assert(texts(args@) =~= restore_prefix_spec(os, agent@, fallback_shell@));
        extend_with(&mut args, argv);
        return (shell, args);
    }
    let mut args = vec![
        "-c".to_owned(),
        RESTORE_WRAPPER_SH.to_owned(),
        "herdr-agent-restore".to_owned(),
        agent.to_owned(),
        fallback_shell.to_owned(),
        "30".to_owned(),
    ];
    assert(texts(args@) =~= restore_prefix_spec(os, agent@, fallback_shell@));
    extend_with(&mut args, argv);
    ("/bin/sh".to_owned(), args)
}

/// Where the wrapper script runs, the agent's argv ends the command line word for word, and the
/// script is the host's own, right behind the flag that makes the shell run it.
pub proof fn restore_keeps_argv(
    os: Os,
    shell: Seq<char>,
    agent: Seq<char>,
    fallback_shell: Seq<char>,
    argv: Seq<Seq<char>>,
)
    requires
        !(os == Os::Windows && is_cmd_exe_spec(shell)),
    ensures
        ({
            let args = restore_command_args_spec(os, shell, agent, fallback_shell, argv);
            let run = shell_command_args_spec(os, shell, restore_wrapper_spec(os));
            &&& args.take(run.len() as int) == run
            &&& args.skip(run.len() as int + 4) == argv
        }),
{
    let args = restore_command_args_spec(os, shell, agent, fallback_shell, argv);
    let run = shell_command_args_spec(os, shell, restore_wrapper_spec(os));
    assert(args.take(run.len() as int) =~= run);
    assert(args.skip(run.len() as int + 4) =~= argv);
}

/// On windows the program that runs a command line and the one that restores an agent agree on
/// whether they are `cmd.exe`: both take `/C` exactly then.
pub proof fn cmd_exe_always_takes_slash_c(
    shell: Seq<char>,
    cmd: Seq<char>,
    agent: Seq<char>,
    fallback_shell: Seq<char>,
    argv: Seq<Seq<char>>,
)
    ensures
        (shell_command_args_spec(Os::Windows, shell, cmd)[0] == "/C"@) == is_cmd_exe_spec(shell),
        (restore_command_args_spec(Os::Windows, shell, agent, fallback_shell, argv)[0] == "/C"@)
            == is_cmd_exe_spec(shell),
{
    reveal_strlit("/C");
    reveal_strlit("-NoProfile");
    assert("/C"@.len() != "-NoProfile"@.len());
}

/// For a probe with one answer per name, the environment determines the default shell. So a pane
/// without a configured shell gets the very shell that the host defaults to.
pub proof fn default_shell_is_determined<F: Fn(&str) -> bool>(
    os: Os,
    env_shell: Option<String>,
    windows_comspec: Option<String>,
    windows_probe: F,
    pane: Seq<char>,
    default: Seq<char>,
)
    requires
        forall|name: &str, a: bool, b: bool|
            call_ensures(windows_probe, (name,), a) && call_ensures(windows_probe, (name,), b)
                ==> a == b,
        is_default_shell(os, env_shell, windows_comspec, windows_probe, pane),
        is_default_shell(os, env_shell, windows_comspec, windows_probe, default),
    ensures
        pane == default,
{
}

/// A host's default shell does not depend on the other platform's hint.
pub proof fn foreign_hints_do_not_matter(
    os: Os,
    unix_shell: Option<String>,
    other_unix_shell: Option<String>,
    windows_comspec: Option<String>,
    other_comspec: Option<String>,
    pwsh: bool,
    powershell: bool,
)
    ensures
        os == Os::Windows ==> default_shell_spec(os, unix_shell, windows_comspec, pwsh, powershell)
            == default_shell_spec(os, other_unix_shell, windows_comspec, pwsh, powershell),
        os != Os::Windows ==> default_shell_spec(os, unix_shell, windows_comspec, pwsh, powershell)
            == default_shell_spec(os, unix_shell, other_comspec, pwsh, powershell),
{
}

/// A shell resolved once is resolved for good: feeding it back as the configured value, or as the
/// environment's hint, gives the same shell.
pub proof fn resolved_shell_is_stable(value: Option<String>, fallback: Seq<char>)
    requires
        trim_spec(fallback) == fallback,
    ensures
        trim_spec(nonblank_or(value, fallback)) == nonblank_or(value, fallback),
{
    if let Some(v) = value {
        crate::text::trim_is_idempotent(v@);
    }
}

/// On windows a preferred shell that is found wins over whatever `%COMSPEC%` holds: `pwsh.exe` where
/// it is found, `powershell.exe` where only that one is, and else what `%COMSPEC%` holds between its
/// white space, or `cmd.exe` where that is nothing. Elsewhere it is `$SHELL` in the same way, or
/// `/bin/sh`.
pub proof fn found_shells_win_over_hints(
    os: Os,
    unix_shell: Option<String>,
    windows_comspec: Option<String>,
    pwsh: bool,
    powershell: bool,
)
    ensures
        ({
            let shell = default_shell_spec(os, unix_shell, windows_comspec, pwsh, powershell);
            let windows = os == Os::Windows;
            let hint = if windows {
                windows_comspec
            } else {
                unix_shell
            };
            let asked = !windows || (!pwsh && !powershell);
            let blank = hint is None || trim_spec(hint->0@).len() == 0;
            &&& windows && pwsh ==> shell == "pwsh.exe"@
            &&& windows && !pwsh && powershell ==> shell == "powershell.exe"@
            &&& asked && !blank ==> shell == trim_spec(hint->0@)
            &&& asked && blank && windows ==> shell == "cmd.exe"@
            &&& asked && blank && !windows ==> shell == "/bin/sh"@
        }),
{
}

/// A probe that finds `pwsh.exe` makes it the default shell on windows whatever `%COMSPEC%` holds;
/// one that finds `powershell.exe` alone makes it that one; one that finds neither leaves it to
/// `%COMSPEC%` and `cmd.exe`. Elsewhere no probe plays a part.
pub proof fn probes_decide_the_default_shell<F: Fn(&str) -> bool>(
    os: Os,
    unix_shell: Option<String>,
    windows_comspec: Option<String>,
    windows_probe: F,
    shell: Seq<char>,
)
    requires
        is_default_shell(os, unix_shell, windows_comspec, windows_probe, shell),
    ensures
        ({
            let pwsh = !call_ensures(windows_probe, ("pwsh.exe",), false);
            let no_pwsh = !call_ensures(windows_probe, ("pwsh.exe",), true);
            let powershell = !call_ensures(windows_probe, ("powershell.exe",), false);
            let no_powershell = !call_ensures(windows_probe, ("powershell.exe",), true);
            let windows = os == Os::Windows;
            let comspec = windows_comspec is Some && trim_spec(windows_comspec->0@).len() > 0;
            let unix = unix_shell is Some && trim_spec(unix_shell->0@).len() > 0;
            &&& windows && pwsh ==> shell == "pwsh.exe"@
            &&& windows && no_pwsh && powershell ==> shell == "powershell.exe"@
            &&& windows && no_pwsh && no_powershell && comspec ==> shell == trim_spec(
                windows_comspec->0@,
            )
            &&& windows && no_pwsh && no_powershell && !comspec ==> shell == "cmd.exe"@
            &&& !windows && unix ==> shell == trim_spec(unix_shell->0@)
            &&& !windows && !unix ==> shell == "/bin/sh"@
        }),
{
}

/// A program is the command interpreter exactly where its last seven characters spell `cmd.exe`, in
/// small letters or capitals, and either nothing or a separator stands in front of them.
pub proof fn cmd_exe_is_a_whole_file_name(program: Seq<char>)
    ensures
        ({
            let n = program.len() as int;
            let spelled = n >= 7 && (program[n - 7] == 'c' || program[n - 7] == 'C') && (program[n
                - 6] == 'm' || program[n - 6] == 'M') && (program[n - 5] == 'd' || program[n - 5]
                == 'D') && program[n - 4] == '.' && (program[n - 3] == 'e' || program[n - 3] == 'E')
                && (program[n - 2] == 'x' || program[n - 2] == 'X') && (program[n - 1] == 'e'
                || program[n - 1] == 'E');
            is_cmd_exe_spec(program) <==> spelled && (n == 7 || program[n - 8] == '\\' || program[n
                - 8] == '/')
        }),
{
    reveal_strlit("cmd.exe");
    reveal_strlit("\\cmd.exe");
    reveal_strlit("/cmd.exe");
    let n = program.len() as int;
    let lowered = ascii_lower_spec(program);
    assert(lowered.len() == n);
    if n >= 7 {
        let tail = lowered.subrange(n - 7, n);
        assert forall|k: int| 0 <= k < 7 implies #[trigger] tail[k] == crate::text::ascii_lower(
            program[n - 7 + k],
        ) by {}
        let spells = tail[0] == 'c' && tail[1] == 'm' && tail[2] == 'd' && tail[3] == '.' && tail[4]
            == 'e' && tail[5] == 'x' && tail[6] == 'e';
        assert(spells <==> tail =~= "cmd.exe"@);
        assert(n == 7 ==> tail =~= lowered);
        if n >= 8 {
            let longer = lowered.subrange(n - 8, n);
            assert(longer[0] == crate::text::ascii_lower(program[n - 8]));
            assert forall|k: int| 0 <= k < 7 implies #[trigger] tail[k] == longer[k + 1] by {}
            assert(tail[0] == longer[1] && tail[1] == longer[2] && tail[2] == longer[3] && tail[3]
                == longer[4] && tail[4] == longer[5] && tail[5] == longer[6] && tail[6]
                == longer[7]);
            assert(longer =~= "\\cmd.exe"@ <==> longer[0] == '\\' && spells);
            assert(longer =~= "/cmd.exe"@ <==> longer[0] == '/' && spells);
        }
    }
}

/// A command line is run by the host's shell with the flag that the shell takes one by: the command
/// itself is the last argument, word for word. Off windows that is `/bin/sh` and `-c`; on windows
/// it is the default shell, with `/C` for `cmd.exe` and without a profile for any other.
pub proof fn commands_are_handed_over_whole(os: Os, shell: Seq<char>, cmd: Seq<char>)
    ensures
        ({
            let program = shell_program_spec(os, shell);
            let args = shell_command_args_spec(os, shell, cmd);
            let windows = os == Os::Windows;
            &&& args.last() == cmd
            &&& !windows ==> program == "/bin/sh"@ && args.len() == 2 && args[0] == "-c"@
            &&& windows ==> program == shell
            &&& windows && is_cmd_exe_spec(shell) ==> args.len() == 2 && args[0] == "/C"@
            &&& windows && !is_cmd_exe_spec(shell) ==> args.len() == 3 && args[0] == "-NoProfile"@
                && args[1] == "-Command"@
        }),
{
}

/// The restore wrapper gets what it reads by position: the agent, the fallback shell and a window of
/// thirty seconds, and behind them the agent's argv.
pub proof fn restore_arguments_stand_in_their_places(
    os: Os,
    shell: Seq<char>,
    agent: Seq<char>,
    fallback_shell: Seq<char>,
    argv: Seq<Seq<char>>,
)
    ensures
        ({
            let args = restore_command_args_spec(os, shell, agent, fallback_shell, argv);
            let windows = os == Os::Windows;
            &&& !windows ==> {
                &&& args.len() == 6 + argv.len()
                &&& args[0] == "-c"@
                &&& args[1] == RESTORE_WRAPPER_SH@
                &&& args[2] == "herdr-agent-restore"@
                &&& args[3] == agent
                &&& args[4] == fallback_shell
                &&& args[5] == "30"@
                &&& forall|i: int| 0 <= i < argv.len() ==> #[trigger] argv[i] == args[6 + i]
            }
            &&& windows && !is_cmd_exe_spec(shell) ==> {
                &&& args.len() == 7 + argv.len()
                &&& args[0] == "-NoProfile"@
                &&& args[1] == "-Command"@
                &&& args[2] == RESTORE_WRAPPER_PS1@
                &&& args[3] == "--"@
                &&& args[4] == agent
                &&& args[5] == fallback_shell
                &&& args[6] == "30"@
                &&& forall|i: int| 0 <= i < argv.len() ==> #[trigger] argv[i] == args[7 + i]
            }
            &&& windows && is_cmd_exe_spec(shell) ==> {
                &&& args.len() == 2
                &&& args[0] == "/C"@
                &&& fallback_shell.is_suffix_of(args[1])
                &&& args[1] == join_words(argv) + seq![' ', '|', '|', ' '] + fallback_shell
            }
        }),
{
    reveal_strlit(" || ");
    let chain = join_words(argv) + " || "@ + fallback_shell;
    assert(" || "@ =~= seq![' ', '|', '|', ' ']);
    assert(chain.subrange(chain.len() - fallback_shell.len(), chain.len() as int)
        =~= fallback_shell);
}

/// Where the words of a command line stand in it, and what stands between them: the words one after
/// the other, a single space in front of each but the first.
pub proof fn words_are_joined_by_single_spaces(words: Seq<Seq<char>>, word: Seq<char>)
    ensures
        join_words(Seq::<Seq<char>>::empty()).len() == 0,
        join_words(seq![word]) == word,
        words.len() > 0 ==> join_words(words.push(word)) == join_words(words) + seq![' '] + word,
{
    reveal_strlit(" ");
    assert(" "@ =~= seq![' ']);
    assert(words.push(word).drop_last() =~= words);
}

/// The POSIX wrapper reads the agent, the fallback shell and the window, and shifts them off; runs
/// what is left between two looks at the clock; reports a failure that came within the window; and
/// gives way to the fallback shell.
pub proof fn posix_wrapper_runs_reports_and_falls_back(os: Os)
    requires
        os != Os::Windows,
    ensures
        restore_wrapper_spec(os) == r#"agent="$1"
fallback_shell="$2"
early_window="$3"
shift 3
"#@ + r#"	start="$(date +%s 2>/dev/null || printf 0)"
	"$@"
	status="$?"
	end="$(date +%s 2>/dev/null || printf 999999)"
	elapsed="$((end - start))"
"#@ + r#"	if [ "$status" -ne 0 ] && [ "$elapsed" -le "$early_window" ]; then
	  printf 'herdr: %s session restore failed; started a shell instead\n' "$agent"
	fi
"#@ + r#"	exec "$fallback_shell"
	"#@,
{
    let script = r#"agent="$1"
fallback_shell="$2"
early_window="$3"
shift 3
	start="$(date +%s 2>/dev/null || printf 0)"
	"$@"
	status="$?"
	end="$(date +%s 2>/dev/null || printf 999999)"
	elapsed="$((end - start))"
	if [ "$status" -ne 0 ] && [ "$elapsed" -le "$early_window" ]; then
	  printf 'herdr: %s session restore failed; started a shell instead\n' "$agent"
	fi
	exec "$fallback_shell"
	"#@;
    reveal_strlit(r#"agent="$1"
fallback_shell="$2"
early_window="$3"
shift 3
	start="$(date +%s 2>/dev/null || printf 0)"
	"$@"
	status="$?"
	end="$(date +%s 2>/dev/null || printf 999999)"
	elapsed="$((end - start))"
	if [ "$status" -ne 0 ] && [ "$elapsed" -le "$early_window" ]; then
	  printf 'herdr: %s session restore failed; started a shell instead\n' "$agent"
	fi
	exec "$fallback_shell"
	"#);
    reveal_strlit(r#"agent="$1"
fallback_shell="$2"
early_window="$3"
shift 3
"#);
    reveal_strlit(r#"	start="$(date +%s 2>/dev/null || printf 0)"
	"$@"
	status="$?"
	end="$(date +%s 2>/dev/null || printf 999999)"
	elapsed="$((end - start))"
"#);
    reveal_strlit(r#"	if [ "$status" -ne 0 ] && [ "$elapsed" -le "$early_window" ]; then
	  printf 'herdr: %s session restore failed; started a shell instead\n' "$agent"
	fi
"#);
    reveal_strlit(r#"	exec "$fallback_shell"
	"#);
    assert(script =~= r#"agent="$1"
fallback_shell="$2"
early_window="$3"
shift 3
"#@ + r#"	start="$(date +%s 2>/dev/null || printf 0)"
	"$@"
	status="$?"
	end="$(date +%s 2>/dev/null || printf 999999)"
	elapsed="$((end - start))"
"#@ + r#"	if [ "$status" -ne 0 ] && [ "$elapsed" -le "$early_window" ]; then
	  printf 'herdr: %s session restore failed; started a shell instead\n' "$agent"
	fi
"#@ + r#"	exec "$fallback_shell"
	"#@);
}

/// The PowerShell wrapper reads the agent, the fallback shell and the window, and takes what is left
/// for the command; runs it between two looks at the clock; reports a failure that came within the
/// window; and goes on in the fallback shell.
pub proof fn powershell_wrapper_runs_reports_and_falls_back(os: Os)
    requires
        os == Os::Windows,
    ensures
        restore_wrapper_spec(os) == r#"param([Parameter(ValueFromRemainingArguments=$true)][string[]]$All)
$agent = $All[0]
$fallback_shell = $All[1]
$early_window = [int]$All[2]
$rest = $All[3..($All.Length - 1)]
"#@ + r#"$start = [int][double]::Parse((Get-Date -UFormat %s))
$exe = $rest[0]
$exe_args = if ($rest.Length -gt 1) { $rest[1..($rest.Length - 1)] } else { @() }
& $exe @exe_args
$status = $LASTEXITCODE
$end = [int][double]::Parse((Get-Date -UFormat %s))
$elapsed = $end - $start
"#@ + r#"if ($status -ne 0 -and $elapsed -le $early_window) {
    Write-Host ("herdr: {0} session restore failed; started a shell instead" -f $agent)
}
"#@ + r#"& $fallback_shell
"#@,
{
    let script = r#"param([Parameter(ValueFromRemainingArguments=$true)][string[]]$All)
$agent = $All[0]
$fallback_shell = $All[1]
$early_window = [int]$All[2]
$rest = $All[3..($All.Length - 1)]
$start = [int][double]::Parse((Get-Date -UFormat %s))
$exe = $rest[0]
$exe_args = if ($rest.Length -gt 1) { $rest[1..($rest.Length - 1)] } else { @() }
& $exe @exe_args
$status = $LASTEXITCODE
$end = [int][double]::Parse((Get-Date -UFormat %s))
$elapsed = $end - $start
if ($status -ne 0 -and $elapsed -le $early_window) {
    Write-Host ("herdr: {0} session restore failed; started a shell instead" -f $agent)
}
& $fallback_shell
"#@;
    reveal_strlit(r#"param([Parameter(ValueFromRemainingArguments=$true)][string[]]$All)
$agent = $All[0]
$fallback_shell = $All[1]
$early_window = [int]$All[2]
$rest = $All[3..($All.Length - 1)]
$start = [int][double]::Parse((Get-Date -UFormat %s))
$exe = $rest[0]
$exe_args = if ($rest.Length -gt 1) { $rest[1..($rest.Length - 1)] } else { @() }
& $exe @exe_args
$status = $LASTEXITCODE
$end = [int][double]::Parse((Get-Date -UFormat %s))
$elapsed = $end - $start
if ($status -ne 0 -and $elapsed -le $early_window) {
    Write-Host ("herdr: {0} session restore failed; started a shell instead" -f $agent)
}
& $fallback_shell
"#);
    reveal_strlit(r#"param([Parameter(ValueFromRemainingArguments=$true)][string[]]$All)
$agent = $All[0]
$fallback_shell = $All[1]
$early_window = [int]$All[2]
$rest = $All[3..($All.Length - 1)]
"#);
    reveal_strlit(r#"$start = [int][double]::Parse((Get-Date -UFormat %s))
$exe = $rest[0]
$exe_args = if ($rest.Length -gt 1) { $rest[1..($rest.Length - 1)] } else { @() }
& $exe @exe_args
$status = $LASTEXITCODE
$end = [int][double]::Parse((Get-Date -UFormat %s))
$elapsed = $end - $start
"#);
    reveal_strlit(r#"if ($status -ne 0 -and $elapsed -le $early_window) {
    Write-Host ("herdr: {0} session restore failed; started a shell instead" -f $agent)
}
"#);
    reveal_strlit(r#"& $fallback_shell
"#);
    assert(script =~= r#"param([Parameter(ValueFromRemainingArguments=$true)][string[]]$All)
$agent = $All[0]
$fallback_shell = $All[1]
$early_window = [int]$All[2]
$rest = $All[3..($All.Length - 1)]
"#@ + r#"$start = [int][double]::Parse((Get-Date -UFormat %s))
$exe = $rest[0]
$exe_args = if ($rest.Length -gt 1) { $rest[1..($rest.Length - 1)] } else { @() }
& $exe @exe_args
$status = $LASTEXITCODE
$end = [int][double]::Parse((Get-Date -UFormat %s))
$elapsed = $end - $start
"#@ + r#"if ($status -ne 0 -and $elapsed -le $early_window) {
    Write-Host ("herdr: {0} session restore failed; started a shell instead" -f $agent)
}
"#@ + r#"& $fallback_shell
"#@);
}

/// A search that missed in the first directories has a no for each of them.
pub proof fn misses_are_answers<D, F: Fn(&D, &str) -> bool>(
    dirs: Seq<D>,
    n: int,
    name: &str,
    is_file: F,
    k: int,
)
    requires
        misses(dirs, n, name, is_file),
        0 <= k < n,
    ensures
        call_ensures(is_file, (&dirs[k], name), false),
{
}

/// The texts of a list of strings are its strings, one for one and in order.
pub proof fn texts_are_one_for_one(list: Seq<String>, i: int)
    requires
        0 <= i < list.len(),
    ensures
        texts(list).len() == list.len(),
        texts(list)[i] == list[i]@,
{
}

/// A configured shell drives the pane whatever the host defaults to; a blank one leaves it to the
/// host's default.
pub proof fn configured_shells_win<F: Fn(&str) -> bool>(
    os: Os,
    configured: Seq<char>,
    env_shell: Option<String>,
    windows_comspec: Option<String>,
    windows_probe: F,
    shell: Seq<char>,
)
    requires
        is_pane_shell(os, configured, env_shell, windows_comspec, windows_probe, shell),
    ensures
        (exists|i: int| 0 <= i < configured.len() && !crate::text::is_white_space(
            #[trigger] configured[i],
        )) ==> shell == trim_spec(configured),
        (forall|i: int|
            0 <= i < configured.len() ==> crate::text::is_white_space(#[trigger] configured[i]))
            ==> is_default_shell(os, env_shell, windows_comspec, windows_probe, shell),
{
    crate::text::trim_removes_surrounding_white_space(configured);
}

/// A probe that is sure to find `pwsh.exe` need not be ready for any other question, and one that may
/// not find it has to be ready for the one about `powershell.exe` alone.
pub proof fn pwsh_is_asked_for_first<F: Fn(&str) -> bool>(windows_probe: F)
    requires
        call_requires(windows_probe, ("pwsh.exe",)),
    ensures
        !call_ensures(windows_probe, ("pwsh.exe",), false) ==> probes_in_order(windows_probe),
        call_requires(windows_probe, ("powershell.exe",)) ==> probes_in_order(windows_probe),
{
}

/// Directories behind one that is sure to hold the file are not asked about, and neither is any file
/// of another name.
pub proof fn searches_stop_at_a_sure_hit<D, F: Fn(&D, &str) -> bool>(
    dirs: Seq<D>,
    name: &str,
    is_file: F,
    hit: int,
)
    requires
        0 <= hit < dirs.len(),
        !call_ensures(is_file, (&dirs[hit], name), false),
        forall|i: int| 0 <= i <= hit ==> call_requires(is_file, (&#[trigger] dirs[i], name)),
    ensures
        searchable(dirs, name, is_file),
{
    assert forall|i: int|
        0 <= i < dirs.len() && #[trigger] misses(dirs, i, name, is_file) implies call_requires(
        is_file,
        (&dirs[i], name),
    ) by {
        if hit < i {
            assert(call_ensures(is_file, (&dirs[hit], name), false));
        }
        assert(call_requires(is_file, (&dirs[i], name)));
    }
}

} // verus!
