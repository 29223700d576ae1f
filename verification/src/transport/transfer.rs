//! One overlapped read or write on a pipe handle.
//!
//! A transfer is driven step by step: the caller performs the step it is told, hands back what
//! came of it, and is told the next step until the transfer finishes.
use vstd::prelude::*;

use crate::error::{code_is_disconnect, map_io_error, Failure, Fault};
#[allow(unused_imports)]
use crate::error::{is_disconnect, map_io_error_spec};
use crate::win32::Handle;
#[allow(unused_imports)]
use crate::win32::{ERROR_IO_PENDING, WAIT_OBJECT_0, WAIT_TIMEOUT};

verus! {

/// Which way the bytes go.
#[derive(Clone, Copy, Debug, PartialEq, Eq, Structural)]
pub enum Direction {
    Read,
    Write,
}

/// How a transfer call on a handle ended.
#[derive(Clone, Copy, Debug, PartialEq, Eq, Structural)]
pub enum Completion {
    Done { transferred: u32 },
    Failed { code: u32 },
}

/// What the caller of a transfer does next.
#[derive(Clone, Copy, Debug, PartialEq, Eq)]
pub enum TransferStep {
    /// Issue the overlapped `ReadFile` or `WriteFile` for `len` bytes.
    Issue { len: u32 },
    /// Wait for the transfer's event, at most `timeout_ms` milliseconds.
    Wait { timeout_ms: u32 },
    /// Collect the result of the completed transfer, without waiting.
    Collect,
    /// Cancel the transfer, then wait until its cancellation has drained.
    Cancel,
    /// Read the thread's last error code.
    LastError,
    /// The transfer is over.
    Finish { outcome: Result<usize, Failure> },
}

/// What came of a step.
#[derive(Clone, Copy, Debug, PartialEq, Eq, Structural)]
pub enum TransferReply {
    Issued(Completion),
    Waited { code: u32 },
    Collected(Completion),
    Cancelled,
    LastError { code: u32 },
}

/// A transfer in progress.
#[derive(Clone, Copy, Debug, PartialEq, Eq)]
pub struct Transfer {
    pub direction: Direction,
    pub timeout_ms: u32,
    pub step: TransferStep,
}

/// The outcome of a call that ended with `completion`: on a read, a peer that is gone is the end of
/// the stream.
pub open spec fn completion_outcome(direction: Direction, completion: Completion) -> Result<
    usize,
    Failure,
> {
    match completion {
        Completion::Done { transferred } => Ok(transferred as usize),
        Completion::Failed { code } => if direction == Direction::Read && is_disconnect(code) {
            Ok(0)
        } else {
            Err(map_io_error_spec(code))
        },
    }
}

/// The fault of a transfer that ran out of time.
pub open spec fn timed_out(direction: Direction) -> Fault {
    match direction {
        Direction::Read => Fault::ReadTimedOut,
        Direction::Write => Fault::WriteTimedOut,
    }
}

/// The first step of a read. An empty buffer, and a handle that is null or invalid, read as end of
/// stream at once. The call takes a 32-bit length: of a longer one it gets the low 32 bits.
pub open spec fn read_step(handle: Handle, buf_len: usize) -> TransferStep {
    if buf_len == 0 || !handle.usable() {
        TransferStep::Finish { outcome: Ok(0) }
    } else {
        TransferStep::Issue { len: (buf_len as int % 0x1_0000_0000) as u32 }
    }
}

/// The first step of a write. Nothing to write is done at once; a handle that is null or invalid is
/// an error. A single call writes at most `u32::MAX` bytes.
pub open spec fn write_step(handle: Handle, buf_len: usize) -> TransferStep {
    if buf_len == 0 {
        TransferStep::Finish { outcome: Ok(0) }
    } else if !handle.usable() {
        TransferStep::Finish { outcome: Err(Failure::Fault(Fault::HandleClosed)) }
    } else if buf_len <= u32::MAX {
        TransferStep::Issue { len: buf_len as u32 }
    } else {
        TransferStep::Issue { len: u32::MAX }
    }
}

impl Transfer {
    /// The reply is one to the step that the transfer asked for.
    pub open spec fn expects(self, reply: TransferReply) -> bool {
        match self.step {
            TransferStep::Issue { .. } => reply is Issued,
            TransferStep::Wait { .. } => reply is Waited,
            TransferStep::Collect => reply is Collected,
            TransferStep::Cancel => reply is Cancelled,
            TransferStep::LastError => reply is LastError,
            TransferStep::Finish { .. } => false,
        }
    }

    /// The step that follows a reply.
    pub open spec fn step_after(self, reply: TransferReply) -> TransferStep {
        match reply {
            TransferReply::Issued(completion) => if completion == (Completion::Failed {
                code: ERROR_IO_PENDING,
            }) {
                TransferStep::Wait { timeout_ms: self.timeout_ms }
            } else {
                TransferStep::Finish { outcome: completion_outcome(self.direction, completion) }
            },
            TransferReply::Waited { code } => if code == WAIT_OBJECT_0 {
                TransferStep::Collect
            } else if code == WAIT_TIMEOUT {
                TransferStep::Cancel
            } else {
                TransferStep::LastError
            },
            TransferReply::Collected(completion) => TransferStep::Finish {
                outcome: completion_outcome(self.direction, completion),
            },
            TransferReply::Cancelled => TransferStep::Finish {
                outcome: Err(Failure::Fault(timed_out(self.direction))),
            },
            TransferReply::LastError { code } => TransferStep::Finish {
                outcome: Err(Failure::Os { code }),
            },
        }
    }

    /// The transfer after a reply.
    pub open spec fn after(self, reply: TransferReply) -> Transfer {
        Transfer { step: self.step_after(reply), ..self }
    }

    /// Begins a read of up to `buf_len` bytes.
    pub fn overlapped_read(handle: Handle, buf_len: usize, timeout_ms: u32) -> (t: Transfer)
        ensures
            t == (Transfer {
                direction: Direction::Read,
                timeout_ms,
                step: read_step(handle, buf_len),
            }),
    {
        let step = if buf_len == 0 || !handle.is_usable() {
            TransferStep::Finish { outcome: Ok(0) }
        } else {
            TransferStep::Issue { len: (buf_len as u64 % 0x1_0000_0000) as u32 }
        };
        Transfer { direction: Direction::Read, timeout_ms, step }
    }

    /// Begins a write of up to `buf_len` bytes.
    pub fn overlapped_write(handle: Handle, buf_len: usize, timeout_ms: u32) -> (t: Transfer)
        ensures
            t == (Transfer {
                direction: Direction::Write,
                timeout_ms,
                step: write_step(handle, buf_len),
            }),
    {
        let step = if buf_len == 0 {
            TransferStep::Finish { outcome: Ok(0) }
        } else if !handle.is_usable() {
            TransferStep::Finish { outcome: Err(Failure::Fault(Fault::HandleClosed)) }
        } else if buf_len <= u32::MAX as usize {
            TransferStep::Issue { len: buf_len as u32 }
        } else {
            TransferStep::Issue { len: u32::MAX }
        };
        Transfer { direction: Direction::Write, timeout_ms, step }
    }

    /// Takes the reply to the current step and tells the next one.
    pub fn advance(&mut self, reply: TransferReply)
        requires
            old(self).expects(reply),
        ensures
            *final(self) == old(self).after(reply),
    {
        let step = match reply {
            TransferReply::Issued(completion) => match completion {
                Completion::Failed { code } => if code == ERROR_IO_PENDING {
                    TransferStep::Wait { timeout_ms: self.timeout_ms }
                } else {
                    TransferStep::Finish { outcome: self.outcome_of(completion) }
                },
                Completion::Done { .. } => TransferStep::Finish {
                    outcome: self.outcome_of(completion),
                },
            },
            TransferReply::Waited { code } => if code == WAIT_OBJECT_0 {
                TransferStep::Collect
            } else if code == WAIT_TIMEOUT {
                TransferStep::Cancel
            } else {
                TransferStep::LastError
            },
            TransferReply::Collected(completion) => TransferStep::Finish {
                outcome: self.outcome_of(completion),
            },
            TransferReply::Cancelled => {
                let fault = match self.direction {
                    Direction::Read => Fault::ReadTimedOut,
                    Direction::Write => Fault::WriteTimedOut,
                };
                TransferStep::Finish { outcome: Err(Failure::Fault(fault)) }
            },
            TransferReply::LastError { code } => TransferStep::Finish {
                outcome: Err(Failure::Os { code }),
            },
        };
        self.step = step;
    }

    /// The outcome of a call that ended with `completion`.
    fn outcome_of(&self, completion: Completion) -> (outcome: Result<usize, Failure>)
        ensures
            outcome == completion_outcome(self.direction, completion),
    {
        match completion {
            Completion::Done { transferred } => Ok(transferred as usize),
            Completion::Failed { code } => {
                if self.direction == Direction::Read && code_is_disconnect(code) {
                    Ok(0)
                } else {
                    Err(map_io_error(code))
                }
            },
        }
    }
}

/// The answers that the system has ready for the calls of one transfer, made or not.
pub struct TransferAnswers {
    pub issued: Completion,
    pub waited: u32,
    pub collected: Completion,
    pub last_error: u32,
}

impl TransferAnswers {
    /// The reply to a step.
    pub open spec fn reply_to(self, step: TransferStep) -> TransferReply {
        match step {
            TransferStep::Issue { .. } => TransferReply::Issued(self.issued),
            TransferStep::Wait { .. } => TransferReply::Waited { code: self.waited },
            TransferStep::Collect => TransferReply::Collected(self.collected),
            TransferStep::Cancel => TransferReply::Cancelled,
            TransferStep::LastError => TransferReply::LastError { code: self.last_error },
            TransferStep::Finish { .. } => TransferReply::Cancelled,
        }
    }

    /// The outcome of a transfer that is issued and meets these answers.
    pub open spec fn outcome(self, direction: Direction) -> Result<usize, Failure> {
        if self.issued != (Completion::Failed { code: ERROR_IO_PENDING }) {
            completion_outcome(direction, self.issued)
        } else if self.waited == WAIT_OBJECT_0 {
            completion_outcome(direction, self.collected)
        } else if self.waited == WAIT_TIMEOUT {
            Err(Failure::Fault(timed_out(direction)))
        } else {
            Err(Failure::Os { code: self.last_error })
        }
    }
}

impl Transfer {
    /// The transfer after at most `n` steps that meet `answers`.
    pub open spec fn run(self, answers: TransferAnswers, n: nat) -> Transfer
        decreases n,
    {
        if n == 0 || self.step is Finish {
            self
        } else {
            self.after(answers.reply_to(self.step)).run(answers, (n - 1) as nat)
        }
    }
}

/// An issued transfer is over after at most three steps, with the outcome that the answers of the
/// system call for.
pub proof fn issued_transfer_finishes(t: Transfer, answers: TransferAnswers)
    requires
        t.step is Issue,
    ensures
        t.run(answers, 3).step == (TransferStep::Finish { outcome: answers.outcome(t.direction) }),
{
    reveal_with_fuel(Transfer::run, 4);
}

/// A transfer reports that it timed out exactly when it has just been cancelled and drained: no
/// buffer is handed back while the system may still fill or read it.
pub proof fn timeout_means_cancelled(t: Transfer, reply: TransferReply)
    requires
        t.expects(reply),
    ensures
        t.after(reply).step == (TransferStep::Finish {
            outcome: Err(Failure::Fault(timed_out(t.direction))),
        }) <==> t.step is Cancel,
{
}

/// A peer that is gone ends a read without an error, and fails a write.
pub proof fn disconnect_ends_reads_and_fails_writes(code: u32)
    requires
        is_disconnect(code),
    ensures
        completion_outcome(Direction::Read, Completion::Failed { code }) == Ok::<usize, Failure>(0),
        completion_outcome(Direction::Write, Completion::Failed { code }) == Err::<usize, Failure>(
            Failure::Fault(Fault::PipeClosed),
        ),
{
}

/// A buffer whose length 32 bits can say is transferred by one call for all of it, and no call asks
/// for more than the buffer holds. A write is never issued for nothing.
pub proof fn calls_ask_for_the_buffer(handle: Handle, buf_len: usize)
    requires
        handle.usable(),
        buf_len > 0,
    ensures
        read_step(handle, buf_len) matches TransferStep::Issue { len } && len <= buf_len && (buf_len
            <= u32::MAX ==> len == buf_len),
        write_step(handle, buf_len) matches TransferStep::Issue { len } && 0 < len <= buf_len && (
        buf_len <= u32::MAX ==> len == buf_len),
{
}

/// No read ever fails with a closed pipe.
pub proof fn reads_never_fail_on_a_closed_pipe(answers: TransferAnswers)
    ensures
        answers.outcome(Direction::Read) != Err::<usize, Failure>(
            Failure::Fault(Fault::PipeClosed),
        ),
{
}

/// How a transfer begins. Without bytes nothing is issued and nothing fails; without a handle a read
/// is at the end of its stream and a write fails. Any other transfer is issued, for the length of
/// the buffer where 32 bits can say it. Of a longer one a read is issued for what is left after
/// whole multiples of 2^32, and a write for as much as 32 bits can say.
pub proof fn transfers_begin_by_handle_and_length(handle: Handle, buf_len: usize)
    ensures
        buf_len == 0 ==> read_step(handle, buf_len) == (TransferStep::Finish { outcome: Ok(0) })
            && write_step(handle, buf_len) == (TransferStep::Finish { outcome: Ok(0) }),
        buf_len > 0 && (handle.bits == 0 || handle.bits == usize::MAX) ==> read_step(handle, buf_len)
            == (TransferStep::Finish { outcome: Ok(0) }) && write_step(handle, buf_len) == (
        TransferStep::Finish { outcome: Err(Failure::Fault(Fault::HandleClosed)) }),
        buf_len > 0 && handle.bits != 0 && handle.bits != usize::MAX ==> {
            &&& read_step(handle, buf_len) matches TransferStep::Issue { len } && (exists|m: int|
                m >= 0 && buf_len == len + #[trigger] (m * 0x1_0000_0000))
            &&& write_step(handle, buf_len) matches TransferStep::Issue { len } && len <= buf_len
                && (len < buf_len ==> len == 0xffff_ffff)
        },
{
    if buf_len > 0 && handle.usable() {
        let m = buf_len as int / 0x1_0000_0000;
        assert(buf_len == (buf_len as int % 0x1_0000_0000) + m * 0x1_0000_0000);
    }
}

/// How a call ends a transfer: the bytes it moved are the outcome; on a read a peer that is gone is
/// the end of the stream; any other failure is the failure of the transfer.
pub proof fn completions_decide_the_outcome(direction: Direction, completion: Completion)
    ensures
        ({
            let outcome = completion_outcome(direction, completion);
            &&& completion matches Completion::Done { transferred } ==> outcome == Ok::<
                usize,
                Failure,
            >(transferred as usize)
            &&& completion matches Completion::Failed { code } ==> ({
                let gone = code == 109 || code == 232 || code == 233;
                &&& gone && direction is Read ==> outcome == Ok::<usize, Failure>(0)
                &&& gone && direction is Write ==> outcome == Err::<usize, Failure>(
                    Failure::Fault(Fault::PipeClosed),
                )
                &&& code == 995 ==> outcome == Err::<usize, Failure>(
                    Failure::Fault(Fault::OperationCancelled),
                )
                &&& code == 996 ==> outcome == Err::<usize, Failure>(
                    Failure::Fault(Fault::IoIncomplete),
                )
                &&& !gone && code != 995 && code != 996 ==> outcome == Err::<usize, Failure>(
                    Failure::Os { code },
                )
            })
        }),
{
}

/// A transfer that the system takes up is waited for as long as it says and no call but the wait is
/// made before: a signal has its result collected, a timeout has it cancelled and reported as a
/// timeout of its direction, and anything else is an error of the system.
pub proof fn pending_transfers_are_waited_for(t: Transfer, answers: TransferAnswers)
    requires
        t.step is Issue,
        answers.issued == (Completion::Failed { code: 997 }),
    ensures
        t.run(answers, 1).step == (TransferStep::Wait { timeout_ms: t.timeout_ms }),
        answers.waited == 0 ==> {
            &&& t.run(answers, 2).step == TransferStep::Collect
            &&& t.run(answers, 3).step matches TransferStep::Finish { outcome } && outcome
                == completion_outcome(t.direction, answers.collected)
        },
        answers.waited == 258 ==> {
            &&& t.run(answers, 2).step == TransferStep::Cancel
            &&& t.run(answers, 3).step == (TransferStep::Finish {
                outcome: Err(
                    Failure::Fault(
                        if t.direction is Read {
                            Fault::ReadTimedOut
                        } else {
                            Fault::WriteTimedOut
                        },
                    ),
                ),
            })
        },
        answers.waited != 0 && answers.waited != 258 ==> {
            &&& t.run(answers, 2).step == TransferStep::LastError
            &&& t.run(answers, 3).step == (TransferStep::Finish {
                outcome: Err(Failure::Os { code: answers.last_error }),
            })
        },
{
    reveal_with_fuel(Transfer::run, 4);
}

/// A transfer whose call ends at once is over with that call, and is not waited for.
pub proof fn finished_calls_are_not_waited_for(t: Transfer, answers: TransferAnswers)
    requires
        t.step is Issue,
        answers.issued != (Completion::Failed { code: 997 }),
    ensures
        t.run(answers, 1).step matches TransferStep::Finish { outcome } && outcome
            == completion_outcome(t.direction, answers.issued),
{
    reveal_with_fuel(Transfer::run, 2);
}

/// A transfer never changes its direction or its time limit on the way.
pub proof fn transfers_keep_direction_and_limit(t: Transfer, reply: TransferReply)
    ensures
        t.after(reply).direction == t.direction,
        t.after(reply).timeout_ms == t.timeout_ms,
{
}

} // verus!
