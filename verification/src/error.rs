//! Errors of the platform and transport decisions.
use vstd::prelude::*;

#[allow(unused_imports)]
use crate::win32::{
    ERROR_BROKEN_PIPE, ERROR_IO_INCOMPLETE, ERROR_NO_DATA, ERROR_OPERATION_ABORTED,
    ERROR_PIPE_NOT_CONNECTED,
};

verus! {

/// Categories of I/O errors that the decisions tell apart or produce.
#[derive(Clone, Copy, Debug, PartialEq, Eq, Structural)]
pub enum ErrorKind {
    NotFound,
    InvalidInput,
    AddrInUse,
    ConnectionRefused,
    NotConnected,
    BrokenPipe,
    WouldBlock,
    TimedOut,
    Other,
}

/// Failures that the decisions find themselves.
#[derive(Clone, Copy, Debug, PartialEq, Eq, Structural)]
pub enum Fault {
    /// The idle process cannot join a job.
    PidZero,
    /// A read ran out of its time limit.
    ReadTimedOut,
    /// A write ran out of its time limit.
    WriteTimedOut,
    /// A write through a handle that is closed.
    HandleClosed,
    /// The peer is gone.
    PipeClosed,
    /// The operation was cancelled.
    OperationCancelled,
    /// The operation has not completed.
    IoIncomplete,
    /// A non-blocking accept with no client waiting.
    NoPendingConnection,
    /// The two ends of a pair did not meet in time.
    PairIncomplete,
}

/// Why an operation failed: a fault found here, or a code of the operating system.
#[derive(Clone, Copy, Debug, PartialEq, Eq, Structural)]
pub enum Failure {
    Fault(Fault),
    Os { code: u32 },
}

/// An error with its category and message.
#[derive(Debug)]
pub struct IoError {
    pub kind: ErrorKind,
    pub message: String,
}

/// Common error envelope.
pub fn make_io_err(kind: ErrorKind, msg: String) -> (err: IoError)
    ensures
        err.kind == kind,
        err.message@ == msg@,
{
    IoError { kind, message: msg }
}

/// The category of a fault.
pub open spec fn fault_kind(fault: Fault) -> ErrorKind {
    match fault {
        Fault::PidZero => ErrorKind::InvalidInput,
        Fault::HandleClosed => ErrorKind::NotConnected,
        Fault::PipeClosed => ErrorKind::BrokenPipe,
        Fault::PairIncomplete => ErrorKind::TimedOut,
        Fault::ReadTimedOut
        | Fault::WriteTimedOut
        | Fault::OperationCancelled
        | Fault::IoIncomplete
        | Fault::NoPendingConnection => ErrorKind::WouldBlock,
    }
}

/// The message of a fault.
pub open spec fn fault_message(fault: Fault) -> Seq<char> {
    match fault {
        Fault::PidZero => "pid 0 cannot be assigned to a job"@,
        Fault::ReadTimedOut => "read timed out"@,
        Fault::WriteTimedOut => "write timed out"@,
        Fault::HandleClosed => "transport handle is closed"@,
        Fault::PipeClosed => "pipe closed"@,
        Fault::OperationCancelled => "operation cancelled"@,
        Fault::IoIncomplete => "io incomplete"@,
        Fault::NoPendingConnection => "no pending connection"@,
        Fault::PairIncomplete => "pair connect did not complete"@,
    }
}

impl Fault {
    /// The category of the fault.
    pub fn kind(self) -> (kind: ErrorKind)
        ensures
            kind == fault_kind(self),
    {
        match self {
            Fault::PidZero => ErrorKind::InvalidInput,
            Fault::HandleClosed => ErrorKind::NotConnected,
            Fault::PipeClosed => ErrorKind::BrokenPipe,
            Fault::PairIncomplete => ErrorKind::TimedOut,
            Fault::ReadTimedOut
            | Fault::WriteTimedOut
            | Fault::OperationCancelled
            | Fault::IoIncomplete
            | Fault::NoPendingConnection => ErrorKind::WouldBlock,
        }
    }

    /// The message of the fault.
    pub fn message(self) -> (message: &'static str)
        ensures
            message@ == fault_message(self),
    {
        match self {
            Fault::PidZero => "pid 0 cannot be assigned to a job",
            Fault::ReadTimedOut => "read timed out",
            Fault::WriteTimedOut => "write timed out",
            Fault::HandleClosed => "transport handle is closed",
            Fault::PipeClosed => "pipe closed",
            Fault::OperationCancelled => "operation cancelled",
            Fault::IoIncomplete => "io incomplete",
            Fault::NoPendingConnection => "no pending connection",
            Fault::PairIncomplete => "pair connect did not complete",
        }
    }

    /// The fault as an error.
    pub fn to_io_error(self) -> (err: IoError)
        ensures
            err.kind == fault_kind(self),
            err.message@ == fault_message(self),
    {
        make_io_err(self.kind(), self.message().to_owned())
    }
}

/// Codes that say the peer of a pipe is gone.
pub open spec fn is_disconnect(code: u32) -> bool {
    code == ERROR_BROKEN_PIPE || code == ERROR_PIPE_NOT_CONNECTED || code == ERROR_NO_DATA
}

/// Whether `code` says that the peer of a pipe is gone.
pub fn code_is_disconnect(code: u32) -> (r: bool)
    ensures
        r == is_disconnect(code),
{
    code == ERROR_BROKEN_PIPE || code == ERROR_PIPE_NOT_CONNECTED || code == ERROR_NO_DATA
}

/// The failure that an error code of a pipe operation stands for.
pub open spec fn map_io_error_spec(code: u32) -> Failure {
    if is_disconnect(code) {
        Failure::Fault(Fault::PipeClosed)
    } else if code == ERROR_OPERATION_ABORTED {
        Failure::Fault(Fault::OperationCancelled)
    } else if code == ERROR_IO_INCOMPLETE {
        Failure::Fault(Fault::IoIncomplete)
    } else {
        Failure::Os { code }
    }
}

/// Turns the error code of a pipe operation into a failure.
pub fn map_io_error(code: u32) -> (failure: Failure)
    ensures
        failure == map_io_error_spec(code),
{
    if code_is_disconnect(code) {
        Failure::Fault(Fault::PipeClosed)
    } else if code == ERROR_OPERATION_ABORTED {
        Failure::Fault(Fault::OperationCancelled)
    } else if code == ERROR_IO_INCOMPLETE {
        Failure::Fault(Fault::IoIncomplete)
    } else {
        Failure::Os { code }
    }
}

/// What an error code of a pipe operation becomes: three codes say that the pipe is closed, one that
/// the operation was cancelled, one that it is incomplete, and every other code stays what it is.
pub proof fn codes_are_kept_or_explained(code: u32)
    ensures
        map_io_error_spec(code) == Failure::Fault(Fault::PipeClosed) <==> code == 109 || code == 232
            || code == 233,
        map_io_error_spec(code) == Failure::Fault(Fault::OperationCancelled) <==> code == 995,
        map_io_error_spec(code) == Failure::Fault(Fault::IoIncomplete) <==> code == 996,
        map_io_error_spec(code) is Os <==> code != 109 && code != 232 && code != 233 && code != 995
            && code != 996,
        map_io_error_spec(code) matches Failure::Os { code: kept } ==> kept == code,
        is_disconnect(code) <==> code == 109 || code == 232 || code == 233,
{
}

/// Running out of time, being cancelled and finding nobody there all mean to try again later; a
/// closed pipe is broken, a missing handle is not connected, a pair that does not meet timed out and
/// the idle process is invalid input. No fault is of any other category.
pub proof fn faults_have_their_category(fault: Fault)
    ensures
        fault_kind(fault) == ErrorKind::WouldBlock <==> fault is ReadTimedOut
            || fault is WriteTimedOut || fault is OperationCancelled || fault is IoIncomplete
            || fault is NoPendingConnection,
        fault_kind(fault) == ErrorKind::BrokenPipe <==> fault is PipeClosed,
        fault_kind(fault) == ErrorKind::NotConnected <==> fault is HandleClosed,
        fault_kind(fault) == ErrorKind::TimedOut <==> fault is PairIncomplete,
        fault_kind(fault) == ErrorKind::InvalidInput <==> fault is PidZero,
{
}

} // verus!
