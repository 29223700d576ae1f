//! Job objects: which process trees are tracked, who belongs to one, and how they are signalled.
//!
//! Windows has no process groups, so a spawned child is put into a job object that kills its
//! processes when the last handle to it closes. The handles live in a table keyed by pid.
use std::collections::HashMap;

use vstd::prelude::*;

use crate::error::{Failure, Fault};
use crate::win32::{
    Handle, ERROR_MORE_DATA, JOB_OBJECT_LIMIT_KILL_ON_JOB_CLOSE, PROCESS_QUERY_LIMITED_INFORMATION,
    PROCESS_TERMINATE,
};

verus! {

broadcast use vstd::std_specs::hash::group_hash_axioms;

/// A tracked kill-on-close job. Whoever takes a record out of the table closes its handle.
#[derive(Clone, Copy, Debug, PartialEq, Eq, Structural)]
pub struct JobRecord {
    pub handle: Handle,
}

/// The tracked jobs, by the pid of each tree's root.
#[derive(Debug)]
pub struct JobTable {
    jobs: HashMap<u32, JobRecord>,
}

impl View for JobTable {
    type V = Map<u32, JobRecord>;

    closed spec fn view(&self) -> Map<u32, JobRecord> {
        self.jobs@
    }
}

/// The record of `pid` in a table.
pub open spec fn tracked_job(jobs: Map<u32, JobRecord>, pid: u32) -> Option<JobRecord> {
    if jobs.contains_key(pid) {
        Some(jobs[pid])
    } else {
        None
    }
}

impl JobTable {
    /// A table that tracks no job.
    pub fn new() -> (table: JobTable)
        ensures
            table@ == Map::<u32, JobRecord>::empty(),
    {
        JobTable { jobs: HashMap::new() }
    }

    /// Tracks `job` for `pid`. Returns the record it replaces, whose handle is to be closed.
    pub fn register(&mut self, pid: u32, job: JobRecord) -> (replaced: Option<JobRecord>)
        ensures
            final(self)@ == old(self)@.insert(pid, job),
            replaced == tracked_job(old(self)@, pid),
    {
        self.jobs.insert(pid, job)
    }

    /// The job tracked for `pid`.
    pub fn lookup(&self, pid: u32) -> (job: Option<JobRecord>)
        ensures
            job == tracked_job(self@, pid),
    {
        match self.jobs.get(&pid) {
            Some(job) => Some(*job),
            None => None,
        }
    }
}

/// Discards the job tracked for `pid`, if any. Closing the handle of the returned record terminates
/// the child tree.
pub fn discard_job(table: &mut JobTable, pid: u32) -> (discarded: Option<JobRecord>)
    ensures
        final(table)@ == old(table)@.remove(pid),
        discarded == tracked_job(old(table)@, pid),
{
    table.jobs.remove(&pid)
}

/// What the caller of an assignment does next.
#[derive(Debug)]
pub enum AssignStep {
    /// Open the process with the given access.
    OpenProcess { pid: u32, access: u32 },
    /// Create a job object.
    CreateJob { pid: u32, process: Handle },
    /// Set the given limits on the job: it kills its processes when its last handle closes.
    LimitJob { pid: u32, process: Handle, job: Handle, limit_flags: u32 },
    /// Assign the process to the job, close the process handle, then read the error, if any.
    AssignProcess { pid: u32, process: Handle, job: Handle },
    /// Close the job and the process handle, as far as they are there, in this order.
    Abandon { open_job: Option<Handle>, open_process: Option<Handle>, failure: Failure },
    /// Track the job for the pid, and close the record that it replaces.
    Register { pid: u32, record: JobRecord },
    /// The assignment is over.
    Finish { outcome: Result<(), Failure> },
}

/// What came of a step. Handles are null, and `ok` false, where the call failed with `code`.
#[derive(Debug)]
pub enum AssignReply {
    Opened { process: Handle, code: u32 },
    JobCreated { job: Handle, code: u32 },
    Limited { ok: bool, code: u32 },
    Assigned { ok: bool, code: u32 },
    Abandoned,
    Registered,
}

impl AssignStep {
    /// The reply is one to this step.
    pub open spec fn expects(self, reply: AssignReply) -> bool {
        match self {
            AssignStep::OpenProcess { .. } => reply is Opened,
            AssignStep::CreateJob { .. } => reply is JobCreated,
            AssignStep::LimitJob { .. } => reply is Limited,
            AssignStep::AssignProcess { .. } => reply is Assigned,
            AssignStep::Abandon { .. } => reply is Abandoned,
            AssignStep::Register { .. } => reply is Registered,
            AssignStep::Finish { .. } => false,
        }
    }

    /// The step that follows a reply.
    pub open spec fn after(self, reply: AssignReply) -> AssignStep {
        match (self, reply) {
            (AssignStep::OpenProcess { pid, .. }, AssignReply::Opened { process, code }) => {
                if process.bits == 0 {
                    AssignStep::Finish { outcome: Err(Failure::Os { code }) }
                } else {
                    AssignStep::CreateJob { pid, process }
                }
            },
            (AssignStep::CreateJob { pid, process }, AssignReply::JobCreated { job, code }) => {
                if job.bits == 0 {
                    AssignStep::Abandon {
                        open_job: None,
                        open_process: Some(process),
                        failure: Failure::Os { code },
                    }
                } else {
                    AssignStep::LimitJob {
                        pid,
                        process,
                        job,
                        limit_flags: JOB_OBJECT_LIMIT_KILL_ON_JOB_CLOSE,
                    }
                }
            },
            (AssignStep::LimitJob { pid, process, job, .. }, AssignReply::Limited { ok, code }) => {
                if ok {
                    AssignStep::AssignProcess { pid, process, job }
                } else {
                    AssignStep::Abandon {
                        open_job: Some(job),
                        open_process: Some(process),
                        failure: Failure::Os { code },
                    }
                }
            },
            (AssignStep::AssignProcess { pid, job, .. }, AssignReply::Assigned { ok, code }) => {
                if ok {
                    AssignStep::Register { pid, record: JobRecord { handle: job } }
                } else {
                    AssignStep::Abandon {
                        open_job: Some(job),
                        open_process: None,
                        failure: Failure::Os { code },
                    }
                }
            },
            (AssignStep::Abandon { failure, .. }, _) => AssignStep::Finish {
                outcome: Err(failure),
            },
            (AssignStep::Register { .. }, _) => AssignStep::Finish { outcome: Ok(()) },
            _ => self,
        }
    }

    /// Takes the reply to this step and tells the next one.
    pub fn advance(self, reply: AssignReply) -> (next: AssignStep)
        requires
            self.expects(reply),
        ensures
            next == self.after(reply),
    {
        match (self, reply) {
            (AssignStep::OpenProcess { pid, .. }, AssignReply::Opened { process, code }) => {
                if process.is_null() {
                    AssignStep::Finish { outcome: Err(Failure::Os { code }) }
                } else {
                    AssignStep::CreateJob { pid, process }
                }
            },
            (AssignStep::CreateJob { pid, process }, AssignReply::JobCreated { job, code }) => {
                if job.is_null() {
                    AssignStep::Abandon {
                        open_job: None,
                        open_process: Some(process),
                        failure: Failure::Os { code },
                    }
                } else {
                    AssignStep::LimitJob {
                        pid,
                        process,
                        job,
                        limit_flags: JOB_OBJECT_LIMIT_KILL_ON_JOB_CLOSE,
                    }
                }
            },
            (AssignStep::LimitJob { pid, process, job, .. }, AssignReply::Limited { ok, code }) => {
                if ok {
                    AssignStep::AssignProcess { pid, process, job }
                } else {
                    AssignStep::Abandon {
                        open_job: Some(job),
                        open_process: Some(process),
                        failure: Failure::Os { code },
                    }
                }
            },
            (AssignStep::AssignProcess { pid, job, .. }, AssignReply::Assigned { ok, code }) => {
                if ok {
                    AssignStep::Register { pid, record: JobRecord { handle: job } }
                } else {
                    // Common failure: the process is already in a job that disallows breakaway.
                    AssignStep::Abandon {
                        open_job: Some(job),
                        open_process: None,
                        failure: Failure::Os { code },
                    }
                }
            },
            (AssignStep::Abandon { failure, .. }, _) => AssignStep::Finish {
                outcome: Err(failure),
            },
            (AssignStep::Register { .. }, _) => AssignStep::Finish { outcome: Ok(()) },
            (step, _) => step,
        }
    }
}

/// Begins to assign `pid` to a new kill-on-close job that the job table tracks from then on.
pub fn assign_to_job(pid: u32) -> (first: AssignStep)
    ensures
        pid == 0 ==> first == (AssignStep::Finish {
            outcome: Err(Failure::Fault(Fault::PidZero)),
        }),
        pid != 0 ==> first == (AssignStep::OpenProcess {
            pid,
            access: PROCESS_TERMINATE | PROCESS_QUERY_LIMITED_INFORMATION,
        }),
{
    if pid == 0 {
        return AssignStep::Finish { outcome: Err(Failure::Fault(Fault::PidZero)) };
    }
    AssignStep::OpenProcess { pid, access: PROCESS_TERMINATE | PROCESS_QUERY_LIMITED_INFORMATION }
}

/// The handles that an assignment holds open on arrival at a step, the job first.
pub open spec fn held_handles(step: AssignStep) -> Seq<Handle> {
    match step {
        AssignStep::OpenProcess { .. } | AssignStep::Finish { .. } => seq![],
        AssignStep::CreateJob { process, .. } => seq![process],
        AssignStep::LimitJob { process, job, .. } => seq![job, process],
        AssignStep::AssignProcess { process, job, .. } => seq![job, process],
        AssignStep::Abandon { open_job, open_process, .. } => (match open_job {
            Some(h) => seq![h],
            None => seq![],
        }) + (match open_process {
            Some(h) => seq![h],
            None => seq![],
        }),
        AssignStep::Register { record, .. } => seq![record.handle],
    }
}

/// The handles that a step opened, given what came of it.
pub open spec fn opened_by(step: AssignStep, reply: AssignReply) -> Seq<Handle> {
    match (step, reply) {
        (AssignStep::OpenProcess { .. }, AssignReply::Opened { process, .. }) => if process.bits
            != 0 {
            seq![process]
        } else {
            seq![]
        },
        (AssignStep::CreateJob { .. }, AssignReply::JobCreated { job, .. }) => if job.bits != 0 {
            seq![job]
        } else {
            seq![]
        },
        _ => seq![],
    }
}

/// The handles that a step closes, or hands over to the table.
pub open spec fn released_by(step: AssignStep) -> Seq<Handle> {
    match step {
        AssignStep::AssignProcess { process, .. } => seq![process],
        AssignStep::Abandon { .. } => held_handles(step),
        AssignStep::Register { record, .. } => seq![record.handle],
        _ => seq![],
    }
}

/// An assignment loses no handle: what is held at the next step is what was held at this one, and
/// what the step opened, without what it closed or handed to the table. At the end nothing is held.
pub proof fn assignment_balances_its_handles(step: AssignStep, reply: AssignReply)
    requires
        step.expects(reply),
    ensures
        (opened_by(step, reply) + held_handles(step)).to_multiset() == (released_by(step)
            + held_handles(step.after(reply))).to_multiset(),
        step.after(reply) is Finish ==> held_handles(step.after(reply)).len() == 0,
{
    broadcast use vstd::seq_lib::group_to_multiset_ensures;

    let next = step.after(reply);
    match step {
        AssignStep::AssignProcess { process, job, .. } => {
            if next is Abandon || next is Register {
                let before = opened_by(step, reply) + held_handles(step);
                let after = released_by(step) + held_handles(next);
                assert(before =~= seq![job].push(process));
                assert(after =~= seq![process].push(job));
                assert(seq![job] =~= Seq::<Handle>::empty().push(job));
                assert(seq![process] =~= Seq::<Handle>::empty().push(process));
                assert(before.to_multiset() =~= after.to_multiset());
            }
        },
        _ => {
            assert(opened_by(step, reply) + held_handles(step) =~= released_by(step)
                + held_handles(next));
        },
    }
}

/// The answers that the system has ready for the calls of one assignment, made or not.
pub struct AssignAnswers {
    pub process: Handle,
    pub job: Handle,
    pub limited: bool,
    pub assigned: bool,
    /// The error that is read after a failed call.
    pub code: u32,
}

impl AssignAnswers {
    /// The reply to a step.
    pub open spec fn reply_to(self, step: AssignStep) -> AssignReply {
        match step {
            AssignStep::OpenProcess { .. } => AssignReply::Opened {
                process: self.process,
                code: self.code,
            },
            AssignStep::CreateJob { .. } => AssignReply::JobCreated {
                job: self.job,
                code: self.code,
            },
            AssignStep::LimitJob { .. } => AssignReply::Limited {
                ok: self.limited,
                code: self.code,
            },
            AssignStep::AssignProcess { .. } => AssignReply::Assigned {
                ok: self.assigned,
                code: self.code,
            },
            AssignStep::Abandon { .. } => AssignReply::Abandoned,
            AssignStep::Register { .. } | AssignStep::Finish { .. } => AssignReply::Registered,
        }
    }

    /// Every call succeeds.
    pub open spec fn all_succeed(self) -> bool {
        self.process.bits != 0 && self.job.bits != 0 && self.limited && self.assigned
    }
}

/// The step after at most `n` steps that meet `answers`.
pub open spec fn assign_run(step: AssignStep, answers: AssignAnswers, n: nat) -> AssignStep
    decreases n,
{
    if n == 0 || step is Finish {
        step
    } else {
        assign_run(step.after(answers.reply_to(step)), answers, (n - 1) as nat)
    }
}

/// An assignment is over after at most five steps. It registers the new job for the pid and
/// succeeds exactly when every call succeeds; otherwise it fails with the error of the call that failed.
pub proof fn assignment_succeeds_as_a_whole(pid: u32, answers: AssignAnswers)
    requires
        pid != 0,
    ensures
        ({
            let first = AssignStep::OpenProcess {
                pid,
                access: PROCESS_TERMINATE | PROCESS_QUERY_LIMITED_INFORMATION,
            };
            &&& assign_run(first, answers, 5) == (AssignStep::Finish {
                outcome: if answers.all_succeed() {
                    Ok(())
                } else {
                    Err(Failure::Os { code: answers.code })
                },
            })
            &&& answers.all_succeed() ==> assign_run(first, answers, 4) == (AssignStep::Register {
                pid,
                record: JobRecord { handle: answers.job },
            })
        }),
{
    reveal_with_fuel(assign_run, 6);
}

/// Looking up a pid after its job was registered finds that job, and after it was discarded
/// nothing; the jobs of other pids stay as they are.
pub proof fn table_tracks_the_last_job(
    jobs: Map<u32, JobRecord>,
    pid: u32,
    other: u32,
    job: JobRecord,
)
    requires
        other != pid,
    ensures
        tracked_job(jobs.insert(pid, job), pid) == Some(job),
        tracked_job(jobs.remove(pid), pid) is None,
        tracked_job(jobs.insert(pid, job), other) == tracked_job(jobs, other),
        tracked_job(jobs.remove(pid), other) == tracked_job(jobs, other),
{
}

/// Most processes of a job that are listed. Real terminal trees stay well under it; a longer list
/// is cut off.
pub const MAX_LISTED: usize = 64;

/// The process list of a job, as the system reports it.
#[derive(Debug)]
pub struct ProcessIdList {
    /// How many entries of `ids` are process ids.
    pub in_list: u32,
    pub ids: Vec<usize>,
}

/// What came of querying the process list of a job: the list as far as it was filled in, and the
/// error code where the call failed.
#[derive(Debug)]
pub struct JobQuery {
    pub ok: bool,
    pub code: u32,
    pub list: ProcessIdList,
}

impl JobQuery {
    /// The list can be used: the query succeeded, or failed only because the job has more processes
    /// than there is room for.
    pub open spec fn usable(self) -> bool {
        self.ok || self.code == ERROR_MORE_DATA
    }

    /// The list that the query yields, if any.
    pub open spec fn found(self) -> Option<ProcessIdList> {
        if self.usable() {
            Some(self.list)
        } else {
            None
        }
    }

    /// The list that the query yields. One that is cut off counts; nothing is known where the query
    /// failed otherwise.
    pub fn into_list(self) -> (list: Option<ProcessIdList>)
        ensures
            list == self.found(),
    {
        if self.ok || self.code == ERROR_MORE_DATA {
            Some(self.list)
        } else {
            None
        }
    }
}

impl ProcessIdList {
    /// How many entries are reported: as many as the list says, no more than there are, and no more
    /// than are ever listed.
    pub open spec fn reported_len(self) -> int {
        let there = if self.in_list as int <= self.ids@.len() {
            self.in_list as int
        } else {
            self.ids@.len() as int
        };
        if there <= MAX_LISTED {
            there
        } else {
            MAX_LISTED as int
        }
    }

    /// The reported entries.
    pub open spec fn reported(self) -> Seq<usize> {
        self.ids@.take(self.reported_len())
    }
}

/// The process id in an entry of a job's process list: its low 32 bits.
pub open spec fn entry_pid(entry: usize) -> u32 {
    (entry as u64 % 0x1_0000_0000) as u32
}

/// The process ids in a job's process list.
pub open spec fn entry_pids(entries: Seq<usize>) -> Seq<u32> {
    entries.map_values(|e: usize| entry_pid(e))
}

/// Tells processes from the idle process and from the root of their tree.
pub open spec fn beside(root: u32) -> spec_fn(u32) -> bool {
    |id: u32| id != 0 && id != root
}

/// The processes in `entries` other than the tree's root, in the order of the list.
pub open spec fn descendants(root: u32, entries: Seq<usize>) -> Seq<u32> {
    entry_pids(entries).filter(beside(root))
}

/// The processes of the session of `pid`, given the process list of its job where there is one and
/// it could be queried.
pub open spec fn session_pids_spec(pid: u32, list: Option<ProcessIdList>) -> Seq<u32> {
    if pid == 0 {
        seq![]
    } else {
        match list {
            Some(l) => seq![pid] + descendants(pid, l.reported()),
            None => seq![pid],
        }
    }
}

/// The processes of the session of `pid`. `list` is the process list of its job: none where no job
/// is tracked, or where the query failed, and the pid then stands alone.
///
/// The root comes first, so that it can be told from the rest wherever the system lists it. At most
/// `MAX_LISTED` entries of the list count.
pub fn session_pids(pid: u32, list: Option<ProcessIdList>) -> (pids: Vec<u32>)
    ensures
        pids@ == session_pids_spec(pid, list),
        pids@.len() <= MAX_LISTED + 1,
{
    proof {
        sessions_are_bounded(pid, list);
    }
    let mut out: Vec<u32> = Vec::new();
    if pid == 0 {
        return out;
    }
    out.push(pid);
    let list = match list {
        Some(list) => list,
        None => {
            assert(out@ =~= seq![pid]);
            return out;
        },
    };
    let ghost all = entry_pids(list.ids@);
    let mut count: usize = list.ids.len();
    if (list.in_list as u64) < (count as u64) {
        count = list.in_list as usize;
    }
    if count > MAX_LISTED {
        count = MAX_LISTED;
    }
    let mut i: usize = 0;
    assert(all.take(0).filter(beside(pid)) =~= Seq::<u32>::empty()) by {
        reveal(Seq::filter);
    }
    assert(out@ =~= seq![pid] + all.take(0).filter(beside(pid)));
    while i < count
        invariant
            i <= count <= list.ids.len(),
            all == entry_pids(list.ids@),
            out@ == seq![pid] + all.take(i as int).filter(beside(pid)),
        decreases count - i,
    {
        let id: u32 = (list.ids[i] as u64 % 0x1_0000_0000) as u32;
        proof {
            reveal(Seq::filter);
            let upto = all.take(i + 1);
            assert(upto.drop_last() =~= all.take(i as int));
            assert(upto.last() == id);
        }
        if id != 0 && id != pid {
            out.push(id);
        }
        assert(out@ =~= seq![pid] + all.take(i + 1).filter(beside(pid)));
        i += 1;
    }
    assert(all.take(count as int) =~= entry_pids(list.reported()));
    out
}

/// `pids` are the processes of the session of `pid`, where `query` reads the process list of a job.
pub open spec fn is_session<F: FnOnce(JobRecord) -> JobQuery>(
    jobs: Map<u32, JobRecord>,
    pid: u32,
    query: F,
    pids: Seq<u32>,
) -> bool {
    if pid != 0 && jobs.contains_key(pid) {
        exists|answer: JobQuery| #[trigger]
            call_ensures(query, (jobs[pid],), answer) && pids == session_pids_spec(
                pid,
                answer.found(),
            )
    } else {
        pids == session_pids_spec(pid, None)
    }
}

/// Looks up the job of `pid` and lists its processes; `query` reads the process list of a job.
/// Without a job, or where the query fails, the pid stands alone; a list that is too long is cut off.
pub fn session_processes<F: FnOnce(JobRecord) -> JobQuery>(
    table: &JobTable,
    pid: u32,
    query: F,
) -> (pids: Vec<u32>)
    requires
        pid != 0 && table@.contains_key(pid) ==> call_requires(query, (table@[pid],)),
    ensures
        is_session(table@, pid, query, pids@),
        pids@.len() <= MAX_LISTED + 1,
{
    if pid == 0 {
        return session_pids(pid, None);
    }
    match table.lookup(pid) {
        Some(job) => session_pids(pid, query(job).into_list()),
        None => session_pids(pid, None),
    }
}

/// A session lists its root and no more than `MAX_LISTED` others, however many the job has.
pub proof fn sessions_are_bounded(pid: u32, list: Option<ProcessIdList>)
    ensures
        session_pids_spec(pid, list).len() <= MAX_LISTED + 1,
{
    if let Some(l) = list {
        entry_pids(l.reported()).lemma_filter_len(beside(pid));
    }
}

/// The root leads its session and is listed once; nothing is listed for the idle process, and the
/// idle process is in no list.
pub proof fn session_starts_with_its_root(pid: u32, list: Option<ProcessIdList>)
    ensures
        ({
            let pids = session_pids_spec(pid, list);
            &&& pid == 0 <==> pids.len() == 0
            &&& pid != 0 ==> pids[0] == pid
            &&& forall|k: int| 1 <= k < pids.len() ==> pids[k] != pid
            &&& !pids.contains(0)
        }),
{
    if pid != 0 {
        if let Some(l) = list {
            let all = entry_pids(l.reported());
                let rest = descendants(pid, l.reported());
            let pids = session_pids_spec(pid, list);
            assert forall|k: int| 1 <= k < pids.len() implies pids[k] != pid && pids[k] != 0 by {
                assert(pids[k] == rest[k - 1]);
                all.lemma_filter_pred(beside(pid), k - 1);
            }
        }
    }
}

/// Every process that the job reports is in the session.
pub proof fn session_lists_the_whole_job(pid: u32, list: ProcessIdList, k: int)
    requires
        pid != 0,
        0 <= k < list.reported().len(),
        entry_pid(list.reported()[k]) != 0,
    ensures
        session_pids_spec(pid, Some(list)).contains(entry_pid(list.reported()[k])),
{
    let id = entry_pid(list.reported()[k]);
    let pids = session_pids_spec(pid, Some(list));
    if id == pid {
        assert(pids[0] == id);
    } else {
        let all = entry_pids(list.reported());
        assert(all[k] == id);
        all.lemma_filter_contains(beside(pid), k);
        let rest = descendants(pid, list.reported());
        let j = choose|j: int| 0 <= j < rest.len() && rest[j] == id;
        assert(pids[j + 1] == id);
    }
}

/// Signals that processes can be sent.
#[derive(Clone, Copy, Debug, PartialEq, Eq, Structural)]
pub enum Signal {
    Hangup,
    Terminate,
    Kill,
}

/// What is done to one process to signal it.
#[derive(Clone, Copy, Debug, PartialEq, Eq, Structural)]
pub enum SignalAction {
    /// Send the console control event to the process group.
    ConsoleEvent { event: u32, pid: u32 },
    /// End the process, where it can be opened.
    Terminate { pid: u32, exit_code: u32 },
}

/// Console control event of a break.
pub const CTRL_BREAK_EVENT: u32 = 1;

/// Exit code of processes that are ended by a signal.
pub const SIGNALLED_EXIT_CODE: u32 = 1;

/// What a signal does to a process. A hangup cannot be expressed and becomes a break.
pub open spec fn signal_action(signal: Signal, pid: u32) -> SignalAction {
    match signal {
        Signal::Hangup => SignalAction::ConsoleEvent { event: CTRL_BREAK_EVENT, pid },
        Signal::Terminate | Signal::Kill => SignalAction::Terminate {
            pid,
            exit_code: SIGNALLED_EXIT_CODE,
        },
    }
}

/// What a signal does to `pids`: one action for each process other than the idle one, in order.
pub open spec fn signal_actions(signal: Signal, pids: Seq<u32>) -> Seq<SignalAction>
    decreases pids.len(),
{
    if pids.len() == 0 {
        seq![]
    } else if pids.last() == 0 {
        signal_actions(signal, pids.drop_last())
    } else {
        signal_actions(signal, pids.drop_last()).push(signal_action(signal, pids.last()))
    }
}

/// The table after a signal to `pids`: a kill stops tracking their jobs.
pub open spec fn jobs_after_signal(
    jobs: Map<u32, JobRecord>,
    signal: Signal,
    pids: Seq<u32>,
) -> Map<u32, JobRecord> {
    if signal == Signal::Kill {
        jobs.remove_keys(pids.to_set())
    } else {
        jobs
    }
}

/// The records that stop being tracked when the jobs of `pids` do, in the order of `pids`.
pub open spec fn released_jobs(jobs: Map<u32, JobRecord>, pids: Seq<u32>) -> Seq<JobRecord>
    decreases pids.len(),
{
    if pids.len() == 0 {
        seq![]
    } else {
        let earlier = pids.drop_last();
        let pid = pids.last();
        if jobs.contains_key(pid) && !earlier.contains(pid) {
            released_jobs(jobs, earlier).push(jobs[pid])
        } else {
            released_jobs(jobs, earlier)
        }
    }
}

/// How a signal is carried out: first the actions, one after the other, then the handles of the
/// released records are closed, which ends what is left of their trees.
#[derive(Debug)]
pub struct SignalPlan {
    pub actions: Vec<SignalAction>,
    pub released: Vec<JobRecord>,
}

/// Signals processes; a kill also stops tracking their jobs.
pub fn signal_processes(table: &mut JobTable, pids: &[u32], signal: Signal) -> (plan: SignalPlan)
    ensures
        plan.actions@ == signal_actions(signal, pids@),
        plan.released@ == (if signal == Signal::Kill {
            released_jobs(old(table)@, pids@)
        } else {
            seq![]
        }),
        final(table)@ == jobs_after_signal(old(table)@, signal, pids@),
{
    let ghost before = table@;
    let mut actions: Vec<SignalAction> = Vec::new();
    let mut released: Vec<JobRecord> = Vec::new();
    let mut i: usize = 0;
    while i < pids.len()
        invariant
            i <= pids.len(),
            actions@ == signal_actions(signal, pids@.take(i as int)),
        decreases pids.len() - i,
    {
        let pid: u32 = pids[i];
        assert(pids@.take(i + 1).drop_last() =~= pids@.take(i as int));
        if pid != 0 {
            match signal {
                Signal::Hangup => actions.push(
                    SignalAction::ConsoleEvent { event: CTRL_BREAK_EVENT, pid },
                ),
                Signal::Terminate | Signal::Kill => actions.push(
                    SignalAction::Terminate { pid, exit_code: SIGNALLED_EXIT_CODE },
                ),
            }
        }
        i += 1;
    }
    assert(pids@.take(pids@.len() as int) =~= pids@);
    if signal == Signal::Kill {
        let mut k: usize = 0;
        assert(before.remove_keys(pids@.take(0).to_set()) =~= before);
        while k < pids.len()
            invariant
                k <= pids.len(),
                released@ == released_jobs(before, pids@.take(k as int)),
                table@ == before.remove_keys(pids@.take(k as int).to_set()),
            decreases pids.len() - k,
        {
            let pid: u32 = pids[k];
            proof {
                let earlier = pids@.take(k as int);
                let upto = pids@.take(k + 1);
                assert(upto.drop_last() =~= earlier);
                assert(earlier.to_set().contains(pid) <==> earlier.contains(pid));
                assert(upto =~= earlier.push(pid));
                assert(upto.to_set() =~= earlier.to_set().insert(pid)) by {
                    broadcast use vstd::seq_lib::group_seq_properties;
                }
                assert(before.remove_keys(upto.to_set()) =~= before.remove_keys(
                    earlier.to_set(),
                ).remove(pid));
            }
            if let Some(job) = discard_job(table, pid) {
                released.push(job);
            }
            k += 1;
        }
    }
    SignalPlan { actions, released }
}

/// Only a kill releases jobs: a hangup or a termination leaves every tree tracked.
pub proof fn only_kill_forgets_jobs(
    jobs: Map<u32, JobRecord>,
    signal: Signal,
    pids: Seq<u32>,
    pid: u32,
)
    ensures
        tracked_job(jobs_after_signal(jobs, signal, pids), pid) == (if signal == Signal::Kill
            && pids.contains(pid) {
            None
        } else {
            tracked_job(jobs, pid)
        }),
{
    assert(pids.to_set().contains(pid) <==> pids.contains(pid));
}

/// A kill releases each tracked job of the killed processes: no handle leaves the table without
/// being closed.
pub proof fn kill_releases_tracked_jobs(jobs: Map<u32, JobRecord>, pids: Seq<u32>, pid: u32)
    requires
        pids.contains(pid),
        jobs.contains_key(pid),
    ensures
        released_jobs(jobs, pids).contains(jobs[pid]),
    decreases pids.len(),
{
    let earlier = pids.drop_last();
    let before = released_jobs(jobs, earlier);
    let after = released_jobs(jobs, pids);
    if earlier.contains(pid) {
        kill_releases_tracked_jobs(jobs, earlier, pid);
        let j = choose|j: int| 0 <= j < before.len() && before[j] == jobs[pid];
        assert(after[j] == jobs[pid]);
    } else {
        let k = choose|k: int| 0 <= k < pids.len() && pids[k] == pid;
        assert(k == pids.len() - 1) by {
            if k < pids.len() - 1 {
                assert(earlier[k] == pid);
            }
        }
        assert(after.last() == jobs[pid]);
        assert(after[after.len() - 1] == jobs[pid]);
    }
}

/// A kill releases nothing that was not tracked for one of the killed processes.
pub proof fn kill_releases_only_tracked_jobs(
    jobs: Map<u32, JobRecord>,
    pids: Seq<u32>,
    job: JobRecord,
)
    requires
        released_jobs(jobs, pids).contains(job),
    ensures
        exists|pid: u32| #[trigger] pids.contains(pid) && jobs.contains_key(pid) && jobs[pid] == job,
    decreases pids.len(),
{
    let earlier = pids.drop_last();
    let before = released_jobs(jobs, earlier);
    let after = released_jobs(jobs, pids);
    if before.contains(job) {
        kill_releases_only_tracked_jobs(jobs, earlier, job);
        let pid = choose|pid: u32| #[trigger]
            earlier.contains(pid) && jobs.contains_key(pid) && jobs[pid] == job;
        let k = choose|k: int| 0 <= k < earlier.len() && earlier[k] == pid;
        assert(pids[k] == pid);
        assert(pids.contains(pid));
    } else {
        let j = choose|j: int| 0 <= j < after.len() && after[j] == job;
        let pid = pids.last();
        assert(pids[pids.len() - 1] == pid);
        assert(pids.contains(pid));
        if j < before.len() {
            assert(before[j] == job);
        }
    }
}

/// A signal reaches every process it is meant for, and never the idle process.
pub proof fn signal_reaches_every_process(signal: Signal, pids: Seq<u32>, pid: u32)
    ensures
        signal_actions(signal, pids).contains(signal_action(signal, pid)) <==> pid != 0
            && pids.contains(pid),
    decreases pids.len(),
{
    if pids.len() > 0 {
        let earlier = pids.drop_last();
        let before = signal_actions(signal, earlier);
        let after = signal_actions(signal, pids);
        signal_reaches_every_process(signal, earlier, pid);
        assert(pids =~= earlier.push(pids.last()));
        broadcast use vstd::seq_lib::group_seq_properties;
        assert(pids.contains(pid) <==> earlier.contains(pid) || pids.last() == pid);
        assert(pids.last() != 0 ==> (after.contains(signal_action(signal, pid)) <==> before.contains(
            signal_action(signal, pid),
        ) || signal_action(signal, pids.last()) == signal_action(signal, pid)));
    }
}

/// A process list is read up to what it says, what it holds and sixty-four entries, whichever is
/// least, and from its beginning.
pub proof fn lists_are_read_from_the_front(list: ProcessIdList)
    ensures
        list.reported().len() <= list.in_list,
        list.reported().len() <= list.ids@.len(),
        list.reported().len() <= 64,
        list.reported().len() == list.in_list || list.reported().len() == list.ids@.len()
            || list.reported().len() == 64,
        forall|k: int|
            0 <= k < list.reported().len() ==> #[trigger] list.reported()[k] == list.ids@[k],
{
}

/// A process id in the list is in the session as it is.
pub proof fn listed_processes_are_in_the_session(pid: u32, list: ProcessIdList, k: int)
    requires
        pid != 0,
        0 <= k < list.in_list,
        k < list.ids@.len(),
        k < 64,
        0 < list.ids@[k] <= u32::MAX,
    ensures
        exists|j: int|
            0 <= j < session_pids_spec(pid, Some(list)).len() && #[trigger] session_pids_spec(
                pid,
                Some(list),
            )[j] == list.ids@[k],
{
    assert(list.reported()[k] == list.ids@[k]);
    session_lists_the_whole_job(pid, list, k);
    let pids = session_pids_spec(pid, Some(list));
    let j = choose|j: int| 0 <= j < pids.len() && pids[j] == entry_pid(list.reported()[k]);
    assert(pids[j] == list.ids@[k]);
}

/// A session holds nothing that is not in its job: each of its processes but the root is an entry of
/// the list, by the entry's low 32 bits.
pub proof fn sessions_hold_listed_processes_only(pid: u32, list: ProcessIdList, j: int)
    requires
        pid != 0,
        1 <= j < session_pids_spec(pid, Some(list)).len(),
    ensures
        exists|k: int|
            0 <= k < list.in_list && k < list.ids@.len() && k < 64 && #[trigger] list.ids@[k] as int
                % 0x1_0000_0000 == session_pids_spec(pid, Some(list))[j],
{
    let all = entry_pids(list.reported());
    let rest = descendants(pid, list.reported());
    let pids = session_pids_spec(pid, Some(list));
    assert(pids[j] == rest[j - 1]);
    filtered_from(all, beside(pid), j - 1);
    let k = choose|k: int| 0 <= k < all.len() && #[trigger] all[k] == rest[j - 1];
    assert(list.reported()[k] == list.ids@[k]);
    assert(all[k] == entry_pid(list.ids@[k]));
    assert(list.ids@[k] as int % 0x1_0000_0000 == pids[j]);
}

/// What a filter keeps was there before.
proof fn filtered_from(s: Seq<u32>, pred: spec_fn(u32) -> bool, i: int)
    requires
        0 <= i < s.filter(pred).len(),
    ensures
        exists|k: int| 0 <= k < s.len() && #[trigger] s[k] == s.filter(pred)[i],
    decreases s.len(),
{
    reveal(Seq::filter);
    if s.len() > 0 {
        let head = s.drop_last();
        if i < head.filter(pred).len() {
            filtered_from(head, pred, i);
            let k = choose|k: int| 0 <= k < head.len() && #[trigger] head[k] == head.filter(pred)[i];
            assert(s[k] == s.filter(pred)[i]);
        } else {
            assert(s[s.len() - 1] == s.filter(pred)[i]);
        }
    }
}

/// A session lists its job in the job's own order, repeats and all: where no entry is zero or the
/// root, the session is the root and then the entries one by one.
pub proof fn sessions_keep_the_order_of_the_job(pid: u32, list: ProcessIdList)
    requires
        pid != 0,
        forall|k: int|
            0 <= k < list.reported().len() ==> 0 < #[trigger] list.reported()[k] <= u32::MAX
                && list.reported()[k] != pid,
    ensures
        session_pids_spec(pid, Some(list)).len() == list.reported().len() + 1,
        session_pids_spec(pid, Some(list))[0] == pid,
        forall|k: int|
            0 <= k < list.reported().len() ==> #[trigger] list.reported()[k] == session_pids_spec(
                pid,
                Some(list),
            )[k + 1],
{
    let all = entry_pids(list.reported());
    assert forall|k: int| 0 <= k < all.len() implies beside(pid)(#[trigger] all[k]) by {
        assert(list.reported()[k] != pid);
    }
    kept_whole(all, beside(pid));
    assert forall|k: int| 0 <= k < list.reported().len() implies #[trigger] list.reported()[k]
        == session_pids_spec(pid, Some(list))[k + 1] by {
        assert(all[k] == list.reported()[k]);
    }
}

/// A filter that keeps everything changes nothing.
proof fn kept_whole(s: Seq<u32>, pred: spec_fn(u32) -> bool)
    requires
        forall|k: int| 0 <= k < s.len() ==> pred(#[trigger] s[k]),
    ensures
        s.filter(pred) == s,
    decreases s.len(),
{
    reveal(Seq::filter);
    if s.len() > 0 {
        let head = s.drop_last();
        assert forall|k: int| 0 <= k < head.len() implies pred(#[trigger] head[k]) by {
            assert(head[k] == s[k]);
        }
        kept_whole(head, pred);
        assert(s[s.len() - 1] == s.last());
        assert(s.filter(pred) =~= s);
    }
}

/// A query yields its list where it succeeds or only ran out of room, and nothing where it fails
/// otherwise.
pub proof fn overlong_lists_still_count(query: JobQuery)
    ensures
        query.found() == Some(query.list) <==> query.ok || query.code == 234,
        query.found() is None <==> !query.ok && query.code != 234,
{
}

/// Whose processes a session is. The idle process has none; a pid whose job is not tracked, or whose
/// query fails, stands alone; any other starts with the pid.
pub proof fn sessions_belong_to_their_pid<F: FnOnce(JobRecord) -> JobQuery>(
    jobs: Map<u32, JobRecord>,
    pid: u32,
    query: F,
    pids: Seq<u32>,
)
    requires
        is_session(jobs, pid, query, pids),
    ensures
        pid == 0 ==> pids.len() == 0,
        pid != 0 ==> pids.len() > 0 && pids[0] == pid,
        pid != 0 && !jobs.contains_key(pid) ==> pids == seq![pid],
        pid != 0 && jobs.contains_key(pid) && (forall|answer: JobQuery| #[trigger]
            call_ensures(query, (jobs[pid],), answer) ==> !answer.ok && answer.code != 234) ==> pids
            == seq![pid],
        pid != 0 && jobs.contains_key(pid) ==> exists|answer: JobQuery| #[trigger]
            call_ensures(query, (jobs[pid],), answer) && (answer.ok || answer.code == 234 ==> pids
                == session_pids_spec(pid, Some(answer.list))),
{
    if pid != 0 && jobs.contains_key(pid) {
        let answer = choose|answer: JobQuery| #[trigger]
            call_ensures(query, (jobs[pid],), answer) && pids == session_pids_spec(
                pid,
                answer.found(),
            );
        session_starts_with_its_root(pid, answer.found());
    }
}

/// What a signal does to a process: a hangup sends it a break, and a termination or a kill ends it
/// with exit code one. It is done to that very process.
pub proof fn signals_do_what_they_say(signal: Signal, pid: u32)
    ensures
        signal is Hangup ==> signal_action(signal, pid) == (SignalAction::ConsoleEvent {
            event: 1,
            pid,
        }),
        signal is Terminate || signal is Kill ==> signal_action(signal, pid) == (
        SignalAction::Terminate { pid, exit_code: 1 }),
{
}

/// A signal to two lists of processes is a signal to the first and then to the second, and the idle
/// process is passed over.
pub proof fn signals_go_through_the_list_in_order(signal: Signal, a: Seq<u32>, b: Seq<u32>)
    ensures
        signal_actions(signal, a + b) == signal_actions(signal, a) + signal_actions(signal, b),
    decreases b.len(),
{
    if b.len() == 0 {
        assert(a + b =~= a);
        assert(signal_actions(signal, a) + signal_actions(signal, b) =~= signal_actions(signal, a));
    } else {
        signals_go_through_the_list_in_order(signal, a, b.drop_last());
        assert((a + b).drop_last() =~= a + b.drop_last());
        assert((a + b).last() == b.last());
        assert(signal_actions(signal, a + b) =~= signal_actions(signal, a) + signal_actions(
            signal,
            b,
        ));
    }
}

/// A signal to one process is one action, and none to the idle process.
pub proof fn one_process_takes_one_action(signal: Signal, pid: u32)
    ensures
        pid == 0 ==> signal_actions(signal, seq![pid]).len() == 0,
        pid != 0 ==> signal_actions(signal, seq![pid]) == seq![signal_action(signal, pid)],
{
    reveal_with_fuel(signal_actions, 2);
    let one = seq![pid];
    assert(one.drop_last() =~= Seq::<u32>::empty());
    assert(one.last() == pid);
    assert(pid != 0 ==> signal_actions(signal, one) =~= seq![signal_action(signal, pid)]);
}

/// A job is released once for all, by the first of its processes' mentions: a pid that is mentioned
/// again, or has no job, releases nothing more.
pub proof fn jobs_are_released_once(jobs: Map<u32, JobRecord>, pids: Seq<u32>, pid: u32)
    ensures
        released_jobs(jobs, Seq::<u32>::empty()).len() == 0,
        pids.contains(pid) || !jobs.contains_key(pid) ==> released_jobs(jobs, pids.push(pid))
            == released_jobs(jobs, pids),
        !pids.contains(pid) && jobs.contains_key(pid) ==> released_jobs(jobs, pids.push(pid))
            == released_jobs(jobs, pids).push(jobs[pid]),
{
    assert(pids.push(pid).drop_last() =~= pids);
}

/// What an assignment asks of the system when all goes well, step by step: a job is created, set to
/// kill its processes when it is closed, given the process, and tracked for its pid.
pub proof fn assignments_take_their_steps(pid: u32, answers: AssignAnswers)
    requires
        answers.process.bits != 0,
        answers.job.bits != 0,
        answers.limited,
        answers.assigned,
    ensures
        ({
            let first = AssignStep::OpenProcess { pid, access: 0x1001 };
            let (process, job) = (answers.process, answers.job);
            &&& assign_run(first, answers, 1) == (AssignStep::CreateJob { pid, process })
            &&& assign_run(first, answers, 2) == (AssignStep::LimitJob {
                pid,
                process,
                job,
                limit_flags: 0x2000,
            })
            &&& assign_run(first, answers, 3) == (AssignStep::AssignProcess { pid, process, job })
            &&& assign_run(first, answers, 4) == (AssignStep::Register {
                pid,
                record: JobRecord { handle: job },
            })
            &&& assign_run(first, answers, 5) == (AssignStep::Finish { outcome: Ok(()) })
        }),
{
    reveal_with_fuel(assign_run, 6);
}

/// An assignment that fails tracks nothing, closes what it opened, and fails with the error of the
/// call that failed: the process is closed where there is no job, both are where the job cannot be
/// limited, and the job where it does not take the process, whose handle is closed by then.
pub proof fn failed_assignments_close_what_they_opened(pid: u32, answers: AssignAnswers, n: nat)
    requires
        n <= 5,
        answers.process.bits == 0 || answers.job.bits == 0 || !answers.limited || !answers.assigned,
    ensures
        ({
            let first = AssignStep::OpenProcess { pid, access: 0x1001 };
            let failure = Failure::Os { code: answers.code };
            let (process, job) = (answers.process, answers.job);
            &&& !(assign_run(first, answers, n) is Register)
            &&& assign_run(first, answers, 5) == (AssignStep::Finish { outcome: Err(failure) })
            &&& process.bits == 0 ==> assign_run(first, answers, 1) == (AssignStep::Finish {
                outcome: Err(failure),
            })
            &&& process.bits != 0 && job.bits == 0 ==> assign_run(first, answers, 2) == (
            AssignStep::Abandon { open_job: None, open_process: Some(process), failure })
            &&& process.bits != 0 && job.bits != 0 && !answers.limited ==> assign_run(
                first,
                answers,
                3,
            ) == (AssignStep::Abandon {
                open_job: Some(job),
                open_process: Some(process),
                failure,
            })
            &&& process.bits != 0 && job.bits != 0 && answers.limited && !answers.assigned
                ==> assign_run(first, answers, 4) == (AssignStep::Abandon {
                open_job: Some(job),
                open_process: None,
                failure,
            })
        }),
{
    reveal_with_fuel(assign_run, 6);
}

/// A process is opened for an assignment with the right to end it and the right to ask after it, and
/// no other.
pub proof fn assignments_ask_for_two_rights()
    ensures
        PROCESS_TERMINATE | PROCESS_QUERY_LIMITED_INFORMATION == 0x1001,
{
    assert(0x0001u32 | 0x1000u32 == 0x1001u32) by (bit_vector);
}

/// A job's processes come out in the order of its list, whatever is left out between them: those of
/// two lists in a row are those of the first and then those of the second.
pub proof fn descendants_come_in_the_order_of_the_list(root: u32, a: Seq<usize>, b: Seq<usize>)
    ensures
        descendants(root, a + b) == descendants(root, a) + descendants(root, b),
{
    assert(entry_pids(a + b) =~= entry_pids(a) + entry_pids(b));
    Seq::filter_distributes_over_add(entry_pids(a), entry_pids(b), beside(root));
}

/// An entry of a list that is zero or the root counts for nothing, and any other for the process of
/// its low 32 bits.
pub proof fn one_entry_is_one_descendant(root: u32, entry: usize)
    ensures
        ({
            let id = entry as int % 0x1_0000_0000;
            &&& id == 0 || id == root ==> descendants(root, seq![entry]).len() == 0
            &&& id != 0 && id != root ==> descendants(root, seq![entry]) == seq![id as u32]
        }),
{
    reveal_with_fuel(Seq::filter, 2);
    let one = entry_pids(seq![entry]);
    assert(one =~= seq![entry_pid(entry)]);
    assert(one.drop_last() =~= Seq::<u32>::empty());
    assert(beside(root)(entry_pid(entry)) ==> descendants(root, seq![entry]) =~= seq![
        entry_pid(entry),
    ]);
}

} // verus!
