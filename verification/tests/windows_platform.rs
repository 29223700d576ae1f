//! Jobs, processes, signals, clipboard and notifications.
use std::collections::HashMap;

use herdr::error::{ErrorKind, Failure, Fault};
use herdr::platform::clipboard::{
    read_clipboard_image, write_clipboard, write_clipboard_text, ClipboardReply, ClipboardStep,
    CF_UNICODETEXT,
};
use herdr::platform::jobs::{
    assign_to_job, discard_job, session_pids, session_processes, signal_processes, AssignReply,
    AssignStep, JobQuery, JobRecord, JobTable, ProcessIdList, Signal, SignalAction,
};
use herdr::platform::notification::{
    notification_outcome, notification_script, ps_single_quote_escape, show_desktop_notification,
};
use herdr::platform::process::{
    foreground_job, foreground_job_of, foreground_process_group_id, process_cwd, process_exists,
    process_names_for, ProcessEntry, ProcessProbe,
};
use herdr::utf16::{decode_lossy, encode_utf16};
use herdr::win32::{Handle, ERROR_ACCESS_DENIED, ERROR_MORE_DATA, STILL_ACTIVE};

const CHILD: u32 = 4242;

fn handle(bits: usize) -> Handle {
    Handle { bits }
}

fn record(bits: usize) -> JobRecord {
    JobRecord { handle: handle(bits) }
}

fn running(_: u32) -> ProcessProbe {
    ProcessProbe::Opened { exit_code_read: true, exit_code: STILL_ACTIVE }
}

fn no_query(_: JobRecord) -> JobQuery {
    panic!("no job is to be queried")
}

fn listed(in_list: u32, ids: &[usize]) -> JobQuery {
    JobQuery { ok: true, code: 0, list: ProcessIdList { in_list, ids: ids.to_vec() } }
}

fn entry(pid: u32, name: &str) -> ProcessEntry {
    let mut exe_file = encode_utf16(name);
    exe_file.push(0);
    exe_file.resize(260, 0x78);
    ProcessEntry { pid, exe_file }
}

/// A host on which processes can be ended, and what it was asked.
struct Processes {
    alive: Vec<u32>,
    breaks: Vec<u32>,
}

impl Processes {
    fn carry_out(&mut self, actions: &[SignalAction]) {
        for action in actions {
            match *action {
                SignalAction::ConsoleEvent { event, pid } => {
                    assert_eq!(event, 1);
                    self.breaks.push(pid);
                }
                SignalAction::Terminate { pid, exit_code } => {
                    assert_eq!(exit_code, 1);
                    self.alive.retain(|p| *p != pid);
                }
            }
        }
    }

    fn probe(&self, pid: u32) -> ProcessProbe {
        if self.alive.contains(&pid) {
            running(pid)
        } else {
            ProcessProbe::Opened { exit_code_read: true, exit_code: 1 }
        }
    }
}

#[test]
fn process_exists_for_a_running_process_is_true() {
    assert!(process_exists(CHILD, running));
}

#[test]
fn process_exists_for_zero_is_false() {
    assert!(!process_exists(0, |_| panic!("the idle process is not looked at")));
}

#[test]
fn process_exists_tells_exited_from_running() {
    let with = |probe: ProcessProbe| process_exists(7, move |_| probe);
    assert!(!with(ProcessProbe::Opened { exit_code_read: true, exit_code: 0 }));
    assert!(!with(ProcessProbe::Opened { exit_code_read: false, exit_code: STILL_ACTIVE }));
    assert!(with(ProcessProbe::OpenFailed { code: ERROR_ACCESS_DENIED }));
    assert!(!with(ProcessProbe::OpenFailed { code: 87 }));
}

#[test]
fn signal_processes_terminate_kills_child() {
    let mut host = Processes { alive: vec![CHILD], breaks: vec![] };
    let mut table = JobTable::new();
    assert!(table.register(CHILD, record(8)).is_none());
    assert!(process_exists(CHILD, |p| host.probe(p)));
    let plan = signal_processes(&mut table, &[CHILD], Signal::Terminate);
    host.carry_out(&plan.actions);
    assert!(!process_exists(CHILD, |p| host.probe(p)));
    assert!(plan.released.is_empty());
    assert_eq!(table.lookup(CHILD), Some(record(8)));
}

#[test]
fn signal_processes_kill_kills_child() {
    let mut host = Processes { alive: vec![CHILD], breaks: vec![] };
    let mut table = JobTable::new();
    table.register(CHILD, record(8));
    let plan = signal_processes(&mut table, &[CHILD], Signal::Kill);
    host.carry_out(&plan.actions);
    assert!(!process_exists(CHILD, |p| host.probe(p)));
    assert_eq!(plan.released, vec![record(8)]);
    assert_eq!(table.lookup(CHILD), None);
}

#[test]
fn signal_processes_skips_the_idle_process_and_keeps_the_order() {
    let mut table = JobTable::new();
    table.register(3, record(30));
    table.register(5, record(50));
    table.register(9, record(90));
    let pids = [5, 0, 3, 5, 7];
    let hangup = signal_processes(&mut table, &pids, Signal::Hangup);
    let wanted = |pid| SignalAction::ConsoleEvent { event: 1, pid };
    assert_eq!(hangup.actions, vec![wanted(5), wanted(3), wanted(5), wanted(7)]);
    assert!(hangup.released.is_empty());
    let kill = signal_processes(&mut table, &pids, Signal::Kill);
    let wanted = |pid| SignalAction::Terminate { pid, exit_code: 1 };
    assert_eq!(kill.actions, vec![wanted(5), wanted(3), wanted(5), wanted(7)]);
    assert_eq!(kill.released, vec![record(50), record(30)]);
    assert_eq!(table.lookup(9), Some(record(90)));
    assert_eq!((table.lookup(3), table.lookup(5)), (None, None));
}

#[test]
fn discard_job_forgets_one_pid() {
    let mut table = JobTable::new();
    assert_eq!(table.register(1, record(10)), None);
    assert_eq!(table.register(2, record(20)), None);
    assert_eq!(table.register(1, record(11)), Some(record(10)));
    assert_eq!(discard_job(&mut table, 1), Some(record(11)));
    assert_eq!(discard_job(&mut table, 1), None);
    assert_eq!(table.lookup(2), Some(record(20)));
}

#[test]
fn foreground_process_group_id_returns_self_for_live_child() {
    let pid = CHILD;
    let gid = foreground_process_group_id(pid, running);
    assert_eq!(gid, Some(pid));
}

#[test]
fn foreground_process_group_id_is_none_without_a_live_child() {
    let gone = |_: u32| ProcessProbe::OpenFailed { code: 87 };
    assert_eq!(foreground_process_group_id(CHILD, gone), None);
    assert_eq!(foreground_process_group_id(0, running), None);
}

#[test]
fn foreground_job_returns_at_least_the_root_pid() {
    let pid = CHILD;
    let table = JobTable::new();
    let job = foreground_job(&table, pid, no_query, Vec::new).expect("foreground job");
    assert_eq!(job.process_group_id, pid);
    assert!(job.processes.iter().any(|p| p.pid == pid));
}

#[test]
fn foreground_job_lists_the_job_with_names() {
    let mut table = JobTable::new();
    table.register(CHILD, record(8));
    let query = |job: JobRecord| {
        assert_eq!(job, record(8));
        listed(3, &[77, CHILD as usize, 78, 0])
    };
    let snapshot = || vec![entry(77, "old.exe"), entry(CHILD, "cmd.exe"), entry(77, "ping.exe")];
    let job = foreground_job(&table, CHILD, query, snapshot).expect("foreground job");
    let found: Vec<(u32, &str)> =
        job.processes.iter().map(|p| (p.pid, p.name.as_str())).collect();
    assert_eq!(found, vec![(CHILD, "cmd.exe"), (77, "ping.exe"), (78, "")]);
    assert!(job.processes.iter().all(|p| p.argv0.is_none() && p.argv.is_none()));
    assert!(job.processes.iter().all(|p| p.cmdline.is_none()));
}

#[test]
fn foreground_job_of_nobody_is_none() {
    let table = JobTable::new();
    assert!(foreground_job(&table, 0, no_query, || panic!("no snapshot is taken")).is_none());
    assert!(foreground_job_of(7, &[], &HashMap::new()).is_none());
    assert!(foreground_job_of(0, &[7], &HashMap::new()).is_none());
}

#[test]
fn names_are_kept_for_pids_of_interest_only() {
    let full = ProcessEntry { pid: 2, exe_file: encode_utf16("no-nul") };
    let entries = [entry(1, "a.exe"), full, entry(3, "c.exe"), entry(4, "")];
    let names = process_names_for(&[2, 1, 4, 9], &entries);
    let mut listed: Vec<(u32, String)> = names.into_iter().collect();
    listed.sort();
    assert_eq!(
        listed,
        vec![(1, "a.exe".to_string()), (2, "no-nul".to_string()), (4, String::new())]
    );
    assert!(process_names_for(&[1], &[]).is_empty());
}

#[test]
fn assign_to_job_and_session_processes_round_trip() {
    let pid = CHILD;
    let mut table = JobTable::new();
    let mut step = assign_to_job(pid);
    let outcome = loop {
        step = match step {
            AssignStep::OpenProcess { pid: p, access } => {
                assert_eq!((p, access), (pid, 0x1001));
                step.advance(AssignReply::Opened { process: handle(40), code: 0 })
            }
            AssignStep::CreateJob { .. } => {
                step.advance(AssignReply::JobCreated { job: handle(44), code: 0 })
            }
            AssignStep::LimitJob { job, limit_flags, .. } => {
                assert_eq!((job, limit_flags), (handle(44), 0x2000));
                step.advance(AssignReply::Limited { ok: true, code: 0 })
            }
            AssignStep::AssignProcess { process, job, .. } => {
                assert_eq!((process, job), (handle(40), handle(44)));
                step.advance(AssignReply::Assigned { ok: true, code: 0 })
            }
            AssignStep::Abandon { .. } => panic!("nothing failed"),
            AssignStep::Register { pid: p, record } => {
                assert_eq!(p, pid);
                assert_eq!(table.register(p, record), None);
                step.advance(AssignReply::Registered)
            }
            AssignStep::Finish { outcome } => break outcome,
        };
    };
    assert_eq!(outcome, Ok(()));
    let pids = session_processes(&table, pid, |job| {
        assert_eq!(job, record(44));
        listed(2, &[99, pid as usize])
    });
    signal_processes(&mut table, &[pid], Signal::Kill);
    assert!(pids.contains(&pid));
    assert_eq!(pids, vec![pid, 99]);
    assert_eq!(session_processes(&table, pid, no_query), vec![pid]);
}

/// Runs an assignment in which the given call fails with code 31, and lists what it closes.
fn failing_assignment(failing: usize) -> (Result<(), Failure>, Vec<usize>) {
    let mut closed = Vec::new();
    let mut step = assign_to_job(CHILD);
    loop {
        step = match step {
            AssignStep::OpenProcess { .. } => {
                let process = handle(if failing == 0 { 0 } else { 40 });
                step.advance(AssignReply::Opened { process, code: 31 })
            }
            AssignStep::CreateJob { .. } => {
                let job = handle(if failing == 1 { 0 } else { 44 });
                step.advance(AssignReply::JobCreated { job, code: 31 })
            }
            AssignStep::LimitJob { .. } => {
                step.advance(AssignReply::Limited { ok: failing != 2, code: 31 })
            }
            AssignStep::AssignProcess { process, .. } => {
                closed.push(process.bits);
                step.advance(AssignReply::Assigned { ok: failing != 3, code: 31 })
            }
            AssignStep::Abandon { open_job, open_process, .. } => {
                closed.extend(open_job.map(|h| h.bits));
                closed.extend(open_process.map(|h| h.bits));
                step.advance(AssignReply::Abandoned)
            }
            AssignStep::Register { .. } => step.advance(AssignReply::Registered),
            AssignStep::Finish { outcome } => return (outcome, closed),
        };
    }
}

#[test]
fn failed_assignments_close_what_they_opened() {
    let failed = Err(Failure::Os { code: 31 });
    assert_eq!(failing_assignment(0), (failed, vec![]));
    assert_eq!(failing_assignment(1), (failed, vec![40]));
    assert_eq!(failing_assignment(2), (failed, vec![44, 40]));
    assert_eq!(failing_assignment(3), (failed, vec![40, 44]));
    assert_eq!(failing_assignment(9), (Ok(()), vec![40]));
}

#[test]
fn the_idle_process_cannot_join_a_job() {
    let step = assign_to_job(0);
    let outcome = match step {
        AssignStep::Finish { outcome } => outcome,
        _ => panic!("the idle process is not opened"),
    };
    assert_eq!(outcome, Err(Failure::Fault(Fault::PidZero)));
    assert_eq!(Fault::PidZero.kind(), ErrorKind::InvalidInput);
    assert_eq!(Fault::PidZero.message(), "pid 0 cannot be assigned to a job");
}

#[test]
fn sessions_start_with_their_root() {
    let table = JobTable::new();
    assert!(session_processes(&table, 0, no_query).is_empty());
    assert_eq!(session_processes(&table, 5, no_query), vec![5]);
    assert_eq!(session_pids(5, None), vec![5]);
    let list = |in_list, ids: &[usize]| Some(ProcessIdList { in_list, ids: ids.to_vec() });
    assert_eq!(session_pids(5, list(0, &[9, 9])), vec![5]);
    assert_eq!(session_pids(5, list(3, &[9, 5, 0, 8])), vec![5, 9]);
    assert_eq!(session_pids(5, list(200, &[9, 5, 8])), vec![5, 9, 8]);
    assert_eq!(session_pids(0, list(1, &[9])), Vec::<u32>::new());
    let wide = (7u64 << 32 | 6) as usize;
    assert_eq!(session_pids(5, list(1, &[wide])), vec![5, 6]);
}

#[test]
fn job_lists_that_are_too_long_are_cut_off() {
    let mut table = JobTable::new();
    table.register(5, record(8));
    let ask = |ok, code| {
        session_processes(&table, 5, move |_| {
            JobQuery { ok, code, list: ProcessIdList { in_list: 2, ids: vec![9, 8] } }
        })
    };
    assert_eq!(ask(true, 0), vec![5, 9, 8]);
    assert_eq!(ask(false, ERROR_MORE_DATA), vec![5, 9, 8]);
    assert_eq!(ask(false, ERROR_ACCESS_DENIED), vec![5]);
    let many: Vec<usize> = (100..300).collect();
    let cut = session_processes(&table, 5, |_| listed(200, &many));
    assert_eq!(cut.len(), 65);
    assert_eq!((cut[0], cut[1], cut[64]), (5, 100, 163));
}

#[test]
fn process_cwd_is_unknown() {
    assert!(process_cwd(CHILD).is_none());
}

/// Carries out a clipboard write on a host where every step up to `good` works.
fn put(bytes: &[u8], good: usize) -> (bool, Vec<u16>, Vec<&'static str>) {
    let mut log = Vec::new();
    let mut clipboard = Vec::new();
    let mut block = Vec::new();
    let Some(mut write) = write_clipboard(bytes) else {
        return (false, clipboard, log);
    };
    loop {
        let reply = match write.step {
            ClipboardStep::Open => {
                log.push("open");
                ClipboardReply::Opened { ok: good > 0 }
            }
            ClipboardStep::Empty => {
                log.push("empty");
                ClipboardReply::Emptied
            }
            ClipboardStep::Allocate { units } => {
                log.push("allocate");
                block = vec![0xffff; units];
                ClipboardReply::Allocated { block: handle(if good > 1 { 12 } else { 0 }) }
            }
            ClipboardStep::Lock { block } => {
                log.push("lock");
                assert_eq!(block, handle(12));
                ClipboardReply::Locked { address: handle(if good > 2 { 16 } else { 0 }) }
            }
            ClipboardStep::Fill { .. } => {
                log.push("fill");
                block.copy_from_slice(&write.wide);
                ClipboardReply::Filled
            }
            ClipboardStep::Publish { block: given, format } => {
                log.push("publish");
                assert_eq!((given, format), (handle(12), CF_UNICODETEXT));
                if good > 3 {
                    clipboard = block.clone();
                }
                ClipboardReply::Published { ok: good > 3 }
            }
            ClipboardStep::Close { .. } => {
                log.push("close");
                ClipboardReply::Closed
            }
            ClipboardStep::Finish { ok } => return (ok, clipboard, log),
        };
        write.advance(reply);
    }
}

#[test]
fn write_clipboard_round_trips() {
    let marker = "herdr-test-4242 é𝄞";
    let (wrote, clipboard, log) = put(marker.as_bytes(), 4);
    assert!(wrote);
    assert_eq!(log, ["open", "empty", "allocate", "lock", "fill", "publish", "close"]);
    let (nul, text) = clipboard.split_last().expect("a terminator");
    assert_eq!(*nul, 0);
    assert_eq!(decode_lossy(text), marker);
}

#[test]
fn failed_clipboard_writes_still_close_the_clipboard() {
    assert_eq!(put(b"x", 0), (false, vec![], vec!["open"]));
    assert_eq!(put(b"x", 1).2, ["open", "empty", "allocate", "close"]);
    assert_eq!(put(b"x", 2).2, ["open", "empty", "allocate", "lock", "close"]);
    let (wrote, clipboard, log) = put(b"x", 3);
    assert!(!wrote && clipboard.is_empty());
    assert_eq!(log.last(), Some(&"close"));
}

#[test]
fn only_utf8_is_written_to_the_clipboard() {
    assert!(write_clipboard(&[0x68, 0xff]).is_none());
    assert!(write_clipboard(&[0xed, 0xa0, 0x80]).is_none());
    assert_eq!(put(&[0xc3], 4), (false, vec![], vec![]));
    assert_eq!(write_clipboard(b"").expect("empty text").wide, vec![0]);
    assert_eq!(write_clipboard_text("hi").wide, vec![0x68, 0x69, 0]);
    assert_eq!(write_clipboard_text("hi").step, ClipboardStep::Open);
}

#[test]
fn read_clipboard_image_is_safe_to_call() {
    assert!(read_clipboard_image().is_none());
}

#[test]
fn show_desktop_notification_never_errs_without_burnt_toast() {
    let outcomes: [Result<bool, String>; 3] = [Ok(true), Ok(false), Err("not found".to_string())];
    let shown = [true, false, false];
    for (outcome, shown) in outcomes.into_iter().zip(shown) {
        let result = show_desktop_notification("herdr test", Some("body"), |script| {
            assert_eq!(
                script,
                "if (-not (Get-Module -ListAvailable -Name BurntToast)) { exit 1 };\
                 New-BurntToastNotification -Text 'herdr test','body'"
            );
            outcome
        });
        assert!(result.is_ok(), "notification result: {result:?}");
        assert_eq!(result, Ok(shown));
    }
}

#[test]
fn no_launch_failure_is_an_error() {
    assert_eq!(notification_outcome(Err("denied")), Ok(false));
    assert_eq!(notification_outcome(Ok::<bool, &str>(false)), Ok(false));
    assert_eq!(notification_outcome(Ok::<bool, &str>(true)), Ok(true));
}

#[test]
fn notifications_without_a_title_run_nothing() {
    let result: Result<bool, String> =
        show_desktop_notification("", Some("body"), |_| panic!("nothing is to be run"));
    assert_eq!(result, Ok(false));
}

#[test]
fn notification_scripts_quote_their_texts() {
    let lead = "if (-not (Get-Module -ListAvailable -Name BurntToast)) { exit 1 };\
                New-BurntToastNotification -Text ";
    assert_eq!(notification_script("it's", None), format!("{lead}'it''s'"));
    assert_eq!(notification_script("t", Some("")), format!("{lead}'t'"));
    assert_eq!(notification_script("t", Some("a 'b'")), format!("{lead}'t','a ''b'''"));
}

#[test]
fn ps_single_quote_escape_doubles_quotes() {
    assert_eq!(ps_single_quote_escape("it's mine"), "it''s mine");
    assert_eq!(ps_single_quote_escape("plain"), "plain");
}

#[test]
fn escaped_quotes_read_back() {
    for text in ["", "'", "''", "a'b''c", "'x'"] {
        let escaped = ps_single_quote_escape(text);
        assert_eq!(escaped, text.replace('\'', "''"));
        assert_eq!(escaped.replace("''", "'"), text);
    }
}
