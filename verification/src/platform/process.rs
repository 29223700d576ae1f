//! Processes: whether one runs, what a terminal's foreground job is, and process names.
use std::collections::{HashMap, HashSet};

use vstd::prelude::*;

#[allow(unused_imports)]
use crate::platform::jobs::{
    is_session, session_pids_spec, session_starts_with_its_root, ProcessIdList,
};
use crate::platform::jobs::{session_processes, JobQuery, JobRecord, JobTable};
use crate::utf16::decode_lossy;
#[allow(unused_imports)]
use crate::utf16::decode_lossy_spec;
use crate::win32::{ERROR_ACCESS_DENIED, STILL_ACTIVE};

verus! {

broadcast use vstd::std_specs::hash::group_hash_axioms;

/// What a look at a process found.
#[derive(Clone, Copy, Debug, PartialEq, Eq, Structural)]
pub enum ProcessProbe {
    /// The process could not be opened.
    OpenFailed { code: u32 },
    /// It was opened, and its exit code could be read or not.
    Opened { exit_code_read: bool, exit_code: u32 },
}

impl ProcessProbe {
    /// The process runs: it may not be looked at, or it has not exited. A process that has exited
    /// can still be opened while someone holds a handle to it.
    pub open spec fn alive(self) -> bool {
        match self {
            ProcessProbe::OpenFailed { code } => code == ERROR_ACCESS_DENIED,
            ProcessProbe::Opened { exit_code_read, exit_code } => exit_code_read && exit_code
                == STILL_ACTIVE,
        }
    }

    /// Whether the process runs.
    pub fn is_alive(self) -> (r: bool)
        ensures
            r == self.alive(),
    {
        match self {
            ProcessProbe::OpenFailed { code } => code == ERROR_ACCESS_DENIED,
            ProcessProbe::Opened { exit_code_read, exit_code } => exit_code_read && exit_code
                == STILL_ACTIVE,
        }
    }
}

/// Whether the process runs. `probe` looks at it; the idle process is never looked at and does not
/// count.
pub fn process_exists<F: FnOnce(u32) -> ProcessProbe>(pid: u32, probe: F) -> (exists_now: bool)
    requires
        pid != 0 ==> call_requires(probe, (pid,)),
    ensures
        pid == 0 ==> !exists_now,
        pid != 0 ==> exists|found: ProcessProbe| #[trigger]
            call_ensures(probe, (pid,), found) && exists_now == found.alive(),
{
    if pid == 0 {
        return false;
    }
    probe(pid).is_alive()
}

/// The process group in the foreground of a terminal. There are no process groups per terminal, so
/// the spawned child, while it runs, stands for the group.
pub fn foreground_process_group_id<F: FnOnce(u32) -> ProcessProbe>(
    child_pid: u32,
    probe: F,
) -> (group: Option<u32>)
    requires
        child_pid != 0 ==> call_requires(probe, (child_pid,)),
    ensures
        child_pid == 0 ==> group is None,
        child_pid != 0 ==> exists|found: ProcessProbe| #[trigger]
            call_ensures(probe, (child_pid,), found) && group == (if found.alive() {
                Some(child_pid)
            } else {
                None
            }),
{
    if child_pid == 0 {
        return None;
    }
    if process_exists(child_pid, probe) {
        Some(child_pid)
    } else {
        None
    }
}

/// A process of a foreground job.
#[derive(Debug)]
pub struct ForegroundProcess {
    pub pid: u32,
    pub name: String,
    pub argv0: Option<String>,
    pub argv: Option<Vec<String>>,
    pub cmdline: Option<String>,
}

/// The processes in the foreground of a terminal.
#[derive(Debug)]
pub struct ForegroundJob {
    pub process_group_id: u32,
    pub processes: Vec<ForegroundProcess>,
}

/// An entry of a snapshot of all processes.
#[derive(Debug)]
pub struct ProcessEntry {
    pub pid: u32,
    /// The name of the executable in UTF-16, ended by a zero where it is shorter than the field.
    pub exe_file: Vec<u16>,
}

/// The units in front of the first zero.
pub open spec fn before_zero(units: Seq<u16>) -> Seq<u16>
    decreases units.len(),
{
    if units.len() == 0 || units[0] == 0 {
        seq![]
    } else {
        seq![units[0]] + before_zero(units.skip(1))
    }
}

/// The name that a snapshot entry holds.
pub open spec fn entry_name(units: Seq<u16>) -> Seq<char> {
    decode_lossy_spec(before_zero(units))
}

/// The names that a snapshot has for `pids`; the last entry of a pid counts.
pub open spec fn names_spec(pids: Seq<u32>, entries: Seq<ProcessEntry>) -> Map<u32, Seq<char>>
    decreases entries.len(),
{
    if entries.len() == 0 {
        Map::empty()
    } else {
        let earlier = names_spec(pids, entries.drop_last());
        let entry = entries.last();
        if pids.contains(entry.pid) {
            earlier.insert(entry.pid, entry_name(entry.exe_file@))
        } else {
            earlier
        }
    }
}

/// The texts of a map of names.
pub open spec fn name_texts(names: Map<u32, String>) -> Map<u32, Seq<char>> {
    names.map_values(|name: String| name@)
}

/// Where the leading units without a zero end.
proof fn before_zero_is_prefix(units: Seq<u16>, len: int)
    requires
        0 <= len <= units.len(),
        forall|k: int| 0 <= k < len ==> units[k] != 0,
        len < units.len() ==> units[len] == 0,
    ensures
        before_zero(units) == units.take(len),
    decreases len,
{
    if len > 0 {
        before_zero_is_prefix(units.skip(1), len - 1);
        assert(units.take(len) =~= seq![units[0]] + units.skip(1).take(len - 1));
    } else {
        assert(units.take(0) =~= seq![]);
    }
}

/// The name in the units of a snapshot entry.
fn name_of_units(units: &Vec<u16>) -> (name: String)
    ensures
        name@ == entry_name(units@),
{
    let mut head: Vec<u16> = Vec::new();
    let mut len: usize = 0;
    while len < units.len() && units[len] != 0
        invariant
            len <= units.len(),
            forall|k: int| 0 <= k < len ==> units[k] != 0,
            head@ == units@.take(len as int),
        decreases units.len() - len,
    {
        head.push(units[len]);
        len += 1;
        assert(head@ =~= units@.take(len as int));
    }
    proof {
        before_zero_is_prefix(units@, len as int);
    }
    decode_lossy(head.as_slice())
}

/// The names of the processes in `pids`, as far as a snapshot of all processes knows them.
pub fn process_names_for(pids: &[u32], entries: &[ProcessEntry]) -> (names: HashMap<u32, String>)
    ensures
        name_texts(names@) == names_spec(pids@, entries@),
{
    let mut interest: HashSet<u32> = HashSet::new();
    let mut i: usize = 0;
    while i < pids.len()
        invariant
            i <= pids.len(),
            forall|pid: u32| interest@.contains(pid) <==> pids@.take(i as int).contains(pid),
        decreases pids.len() - i,
    {
        let ghost earlier = pids@.take(i as int);
        let ghost upto = pids@.take(i + 1);
        interest.insert(pids[i]);
        proof {
            assert(upto =~= earlier.push(pids@[i as int]));
            assert forall|pid: u32| interest@.contains(pid) <==> upto.contains(pid) by {
                broadcast use vstd::seq_lib::group_seq_properties;
            }
        }
        i += 1;
    }
    assert(pids@.take(pids@.len() as int) =~= pids@);
    let mut names: HashMap<u32, String> = HashMap::new();
    assert(name_texts(names@) =~= Map::<u32, Seq<char>>::empty());
    let mut k: usize = 0;
    while k < entries.len()
        invariant
            k <= entries.len(),
            forall|pid: u32| interest@.contains(pid) <==> pids@.contains(pid),
            name_texts(names@) == names_spec(pids@, entries@.take(k as int)),
        decreases entries.len() - k,
    {
        let ghost before = names@;
        assert(entries@.take(k + 1).drop_last() =~= entries@.take(k as int));
        let pid: u32 = entries[k].pid;
        if interest.contains(&pid) {
            let name = name_of_units(&entries[k].exe_file);
            names.insert(pid, name);
            assert(name_texts(names@) =~= name_texts(before).insert(pid, name@));
        }
        k += 1;
    }
    assert(entries@.take(entries@.len() as int) =~= entries@);
    names
}

/// The process list of a foreground job: one entry for each pid, in order, with its name or, where
/// that is unknown, an empty one, and nothing about its arguments.
pub open spec fn lists_processes(
    processes: Seq<ForegroundProcess>,
    pids: Seq<u32>,
    names: Map<u32, Seq<char>>,
) -> bool {
    &&& processes.len() == pids.len()
    &&& forall|k: int| #![trigger processes[k]]
        0 <= k < pids.len() ==> {
            &&& processes[k].pid == pids[k]
            &&& processes[k].name@ == (if names.contains_key(pids[k]) {
                names[pids[k]]
            } else {
                seq![]
            })
            &&& processes[k].argv0 is None
            &&& processes[k].argv is None
            &&& processes[k].cmdline is None
        }
}

/// The foreground job that consists of `pids`, with the names known for them.
pub fn foreground_job_of(
    child_pid: u32,
    pids: &[u32],
    names: &HashMap<u32, String>,
) -> (job: Option<ForegroundJob>)
    ensures
        job is Some <==> child_pid != 0 && pids@.len() > 0,
        job matches Some(j) ==> j.process_group_id == child_pid && lists_processes(
            j.processes@,
            pids@,
            name_texts(names@),
        ),
{
    if child_pid == 0 || pids.len() == 0 {
        return None;
    }
    let mut processes: Vec<ForegroundProcess> = Vec::new();
    let mut i: usize = 0;
    while i < pids.len()
        invariant
            i <= pids.len(),
            lists_processes(processes@, pids@.take(i as int), name_texts(names@)),
        decreases pids.len() - i,
    {
        let pid: u32 = pids[i];
        let name = match names.get(&pid) {
            Some(name) => name.clone(),
            None => String::new(),
        };
        processes.push(
            ForegroundProcess { pid, name, argv0: None, argv: None, cmdline: None },
        );
        i += 1;
    }
    assert(pids@.take(pids@.len() as int) =~= pids@);
    Some(ForegroundJob { process_group_id: child_pid, processes })
}

/// The foreground job that consists of `pids`, with the names that a snapshot of all processes has
/// for them. The snapshot is taken only where there is a job.
pub fn foreground_job_in<G: FnOnce() -> Vec<ProcessEntry>>(
    child_pid: u32,
    pids: &[u32],
    snapshot: G,
) -> (job: Option<ForegroundJob>)
    requires
        child_pid != 0 && pids@.len() > 0 ==> call_requires(snapshot, ()),
    ensures
        job is Some <==> child_pid != 0 && pids@.len() > 0,
        job matches Some(j) ==> {
            &&& j.process_group_id == child_pid
            &&& exists|entries: Vec<ProcessEntry>| #[trigger]
                call_ensures(snapshot, (), entries) && lists_processes(
                    j.processes@,
                    pids@,
                    names_spec(pids@, entries@),
                )
        },
{
    if child_pid == 0 || pids.len() == 0 {
        return None;
    }
    let entries = snapshot();
    let names = process_names_for(pids, entries.as_slice());
    foreground_job_of(child_pid, pids, &names)
}

/// The processes of a terminal's job: those of the child's session. `query` reads the process list
/// of a job and `snapshot` lists all processes, as far as they can; without a list the child stands
/// alone, without a snapshot the names are empty.
pub fn foreground_job<
    F: FnOnce(JobRecord) -> JobQuery,
    G: FnOnce() -> Vec<ProcessEntry>,
>(table: &JobTable, child_pid: u32, query: F, snapshot: G) -> (job: Option<ForegroundJob>)
    requires
        child_pid != 0 && table@.contains_key(child_pid) ==> call_requires(
            query,
            (table@[child_pid],),
        ),
        child_pid != 0 ==> call_requires(snapshot, ()),
    ensures
        child_pid == 0 <==> job is None,
        job matches Some(j) ==> {
            &&& j.process_group_id == child_pid
            &&& exists|pids: Seq<u32>, entries: Vec<ProcessEntry>| #[trigger]
                is_session(table@, child_pid, query, pids) && #[trigger] call_ensures(
                    snapshot,
                    (),
                    entries,
                ) && lists_processes(j.processes@, pids, names_spec(pids, entries@))
        },
{
    if child_pid == 0 {
        return None;
    }
    let pids = session_processes(table, child_pid, query);
    foreground_job_in(child_pid, pids.as_slice(), snapshot)
}

/// The working directory of a process. Windows has no documented way to read it, so it is unknown.
pub fn process_cwd(_pid: u32) -> (cwd: Option<String>)
    ensures
        cwd is None,
{
    None
}

/// A process that has exited does not run, even while it can still be opened.
pub proof fn exited_processes_are_gone(exit_code: u32)
    requires
        exit_code != STILL_ACTIVE,
    ensures
        !(ProcessProbe::Opened { exit_code_read: true, exit_code }).alive(),
{
}

/// A snapshot names no process that was not asked for.
pub proof fn names_are_of_interest(pids: Seq<u32>, entries: Seq<ProcessEntry>, pid: u32)
    ensures
        names_spec(pids, entries).contains_key(pid) <==> pids.contains(pid) && exists|k: int|
            0 <= k < entries.len() && (#[trigger] entries[k]).pid == pid,
    decreases entries.len(),
{
    if entries.len() > 0 {
        let earlier = entries.drop_last();
        names_are_of_interest(pids, earlier, pid);
        if exists|k: int| 0 <= k < earlier.len() && (#[trigger] earlier[k]).pid == pid {
            let k = choose|k: int| 0 <= k < earlier.len() && (#[trigger] earlier[k]).pid == pid;
            assert(entries[k].pid == pid);
        }
        if exists|k: int| 0 <= k < entries.len() && (#[trigger] entries[k]).pid == pid {
            let k = choose|k: int| 0 <= k < entries.len() && (#[trigger] entries[k]).pid == pid;
            if k < earlier.len() {
                assert(earlier[k].pid == pid);
            }
        }
        assert(entries.last() == entries[entries.len() - 1]);
    }
}

/// A foreground job has the child as its leader: it is the first of the processes.
pub proof fn foreground_job_starts_with_the_child(
    processes: Seq<ForegroundProcess>,
    child_pid: u32,
    list: Option<ProcessIdList>,
    names: Map<u32, Seq<char>>,
)
    requires
        child_pid != 0,
        lists_processes(
            processes,
            session_pids_spec(child_pid, list),
            names,
        ),
    ensures
        processes.len() > 0,
        processes[0].pid == child_pid,
{
    session_starts_with_its_root(child_pid, list);
}

/// A process runs where it may not be looked at, and where it was looked at and has not exited. It
/// does not where it cannot be opened for any other reason, or its exit code cannot be read.
pub proof fn running_processes_have_not_exited(probe: ProcessProbe)
    ensures
        probe matches ProcessProbe::OpenFailed { code } ==> (probe.alive() <==> code == 5),
        probe matches ProcessProbe::Opened { exit_code_read, exit_code } ==> (probe.alive()
            <==> exit_code_read && exit_code == 259),
{
}

/// A name ends in front of the first zero, or with the field where there is none.
pub proof fn names_end_at_the_first_zero(units: Seq<u16>)
    ensures
        ({
            let head = before_zero(units);
            &&& head.len() <= units.len()
            &&& forall|i: int| 0 <= i < head.len() ==> #[trigger] head[i] == units[i]
            &&& forall|i: int| 0 <= i < head.len() ==> #[trigger] head[i] != 0
            &&& head.len() < units.len() ==> units[head.len() as int] == 0
            &&& entry_name(units) == decode_lossy_spec(head)
        }),
    decreases units.len(),
{
    let head = before_zero(units);
    if units.len() > 0 && units[0] != 0 {
        let tail = units.skip(1);
        names_end_at_the_first_zero(tail);
        let rest = before_zero(tail);
        assert forall|i: int| 0 <= i < head.len() implies #[trigger] head[i] == units[i] && head[i]
            != 0 by {
            if i > 0 {
                assert(head[i] == rest[i - 1]);
                assert(tail[i - 1] == units[i]);
            }
        }
        if head.len() < units.len() {
            assert(tail[rest.len() as int] == units[head.len() as int]);
        }
    }
}

/// The name of a process is the one in the last entry that the snapshot has for it.
pub proof fn last_entries_name_their_process(pids: Seq<u32>, entries: Seq<ProcessEntry>, k: int)
    requires
        0 <= k < entries.len(),
        pids.contains(entries[k].pid),
        forall|i: int| k < i < entries.len() ==> (#[trigger] entries[i]).pid != entries[k].pid,
    ensures
        names_spec(pids, entries).contains_key(entries[k].pid),
        names_spec(pids, entries)[entries[k].pid] == decode_lossy_spec(
            before_zero(entries[k].exe_file@),
        ),
    decreases entries.len(),
{
    if k < entries.len() - 1 {
        let earlier = entries.drop_last();
        assert forall|i: int| k < i < earlier.len() implies (#[trigger] earlier[i]).pid
            != earlier[k].pid by {
            assert(earlier[i] == entries[i]);
        }
        last_entries_name_their_process(pids, earlier, k);
        assert(entries[entries.len() - 1].pid != entries[k].pid);
        assert(entries.last() == entries[entries.len() - 1]);
    }
}

/// A foreground job lists its processes one for one and in order, each under its own name where it
/// has one and without a name where it has none, and tells nothing of their arguments.
pub proof fn foreground_jobs_list_one_for_one(
    processes: Seq<ForegroundProcess>,
    pids: Seq<u32>,
    names: Map<u32, Seq<char>>,
    k: int,
)
    requires
        lists_processes(processes, pids, names),
        0 <= k < pids.len(),
    ensures
        processes.len() == pids.len(),
        processes[k].pid == pids[k],
        names.contains_key(pids[k]) ==> processes[k].name@ == names[pids[k]],
        !names.contains_key(pids[k]) ==> processes[k].name@.len() == 0,
        processes[k].argv0 is None && processes[k].argv is None && processes[k].cmdline is None,
{
    assert(processes[k].pid == pids[k]);
}

/// The texts of a map of names are those of its names, for the same processes.
pub proof fn name_texts_are_the_names(names: Map<u32, String>, pid: u32)
    ensures
        name_texts(names).contains_key(pid) <==> names.contains_key(pid),
        names.contains_key(pid) ==> name_texts(names)[pid] == names[pid]@,
{
}

} // verus!
