//! The Win32 vocabulary the decisions of this crate speak: handles, error codes, wait results and
//! access bits.
use vstd::prelude::*;

verus! {

/// A kernel object handle, by its bits.
#[derive(Clone, Copy, Debug, PartialEq, Eq, Structural)]
pub struct Handle {
    pub bits: usize,
}

impl Handle {
    /// Neither null nor `INVALID_HANDLE_VALUE`.
    pub open spec fn usable(self) -> bool {
        self.bits != 0 && !self.invalid()
    }

    /// `INVALID_HANDLE_VALUE`, all bits set.
    pub open spec fn invalid(self) -> bool {
        self.bits == usize::MAX
    }

    /// Whether the handle is neither null nor `INVALID_HANDLE_VALUE`.
    pub fn is_usable(self) -> (r: bool)
        ensures
            r == self.usable(),
    {
        self.bits != 0 && self.bits != usize::MAX
    }

    /// Whether the handle is `INVALID_HANDLE_VALUE`.
    pub fn is_invalid(self) -> (r: bool)
        ensures
            r == self.invalid(),
    {
        self.bits == usize::MAX
    }

    /// Whether the handle is null.
    pub fn is_null(self) -> (r: bool)
        ensures
            r == (self.bits == 0),
    {
        self.bits == 0
    }
}

pub const ERROR_FILE_NOT_FOUND: u32 = 2;

pub const ERROR_ACCESS_DENIED: u32 = 5;

pub const ERROR_BROKEN_PIPE: u32 = 109;

pub const ERROR_PIPE_BUSY: u32 = 231;

pub const ERROR_NO_DATA: u32 = 232;

pub const ERROR_PIPE_NOT_CONNECTED: u32 = 233;

/// There is more to report than there is room for.
pub const ERROR_MORE_DATA: u32 = 234;

pub const ERROR_PIPE_CONNECTED: u32 = 535;

pub const ERROR_OPERATION_ABORTED: u32 = 995;

pub const ERROR_IO_INCOMPLETE: u32 = 996;

pub const ERROR_IO_PENDING: u32 = 997;

/// The waited-for object is signaled.
pub const WAIT_OBJECT_0: u32 = 0;

/// The wait ran out of time.
pub const WAIT_TIMEOUT: u32 = 258;

/// Wait without a time limit.
pub const INFINITE: u32 = 0xffff_ffff;

/// Exit code that a process reports while it runs.
pub const STILL_ACTIVE: u32 = 259;

pub const PROCESS_TERMINATE: u32 = 0x0001;

pub const PROCESS_QUERY_LIMITED_INFORMATION: u32 = 0x1000;

/// Processes spawned with this flag start outside their parent's job.
pub const CREATE_BREAKAWAY_FROM_JOB: u32 = 0x0100_0000;

/// Limit of a job: its processes end when its last handle closes.
pub const JOB_OBJECT_LIMIT_KILL_ON_JOB_CLOSE: u32 = 0x2000;

pub const GENERIC_READ: u32 = 0x8000_0000;

pub const GENERIC_WRITE: u32 = 0x4000_0000;

pub const FILE_FLAG_OVERLAPPED: u32 = 0x4000_0000;

pub const PIPE_ACCESS_INBOUND: u32 = 0x0000_0001;

pub const PIPE_ACCESS_OUTBOUND: u32 = 0x0000_0002;

pub const PIPE_ACCESS_DUPLEX: u32 = 0x0000_0003;

pub const PIPE_UNLIMITED_INSTANCES: u32 = 255;

/// Bytes a pipe buffers in each direction.
pub const PIPE_BUFFER_SIZE: u32 = 0x1_0000;

/// A handle can be used unless it is null or has all its bits set.
pub proof fn handles_are_usable_unless_null_or_invalid(handle: Handle)
    ensures
        handle.usable() <==> handle.bits != 0 && handle.bits != usize::MAX,
        handle.invalid() <==> handle.bits == usize::MAX,
{
}

} // verus!
