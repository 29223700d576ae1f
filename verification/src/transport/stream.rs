//! Streams: the pipe handles behind one, its settings, and the attempts that connect one.
use vstd::prelude::*;

#[allow(unused_imports)]
use crate::error::{fault_kind, Fault};
use crate::error::{make_io_err, ErrorKind, Failure, IoError};
#[allow(unused_imports)]
use crate::transport::settings::{effective_wait_spec, stored_limit, NEVER};
use crate::transport::settings::{StreamSettings, TimeSpan};
use crate::transport::transfer::Transfer;
#[allow(unused_imports)]
use crate::transport::transfer::{
    read_step, write_step, Completion, Direction, TransferAnswers, TransferStep,
};
use crate::win32::Handle;
#[allow(unused_imports)]
use crate::win32::{ERROR_FILE_NOT_FOUND, ERROR_IO_PENDING, ERROR_PIPE_BUSY, WAIT_TIMEOUT};

verus! {

/// Which half of a stream to shut down.
#[derive(Clone, Copy, Debug, PartialEq, Eq, Structural)]
pub enum ShutdownHow {
    Read,
    Write,
    Both,
}

/// The handles that a stream reads from and writes to.
#[derive(Clone, Copy, Debug, PartialEq, Eq, Structural)]
pub enum StreamEnds {
    /// One full-duplex pipe, as connect and accept make it.
    Duplex { handle: Handle },
    /// One pipe per direction, as an in-process pair has it.
    Split { read: Handle, write: Handle },
}

/// `handle` alone if it is usable, else nothing.
pub open spec fn if_usable(handle: Handle) -> Seq<Handle> {
    if handle.usable() {
        seq![handle]
    } else {
        seq![]
    }
}

/// What came of duplicating the handles of a stream with `duplicate`. The clone has the layout of
/// the stream: a full-duplex pipe is duplicated once, a split stream's read handle before its write
/// handle. The first failure is the failure of the whole.
pub open spec fn duplicates<F: Fn(Handle) -> Result<Handle, u32>>(
    ends: StreamEnds,
    duplicate: F,
    clone: Result<StreamEnds, Failure>,
) -> bool {
    match ends {
        StreamEnds::Duplex { handle } => match clone {
            Ok(c) => c matches StreamEnds::Duplex { handle: h } && call_ensures(
                duplicate,
                (handle,),
                Ok::<Handle, u32>(h),
            ),
            Err(f) => f matches Failure::Os { code } && call_ensures(
                duplicate,
                (handle,),
                Err::<Handle, u32>(code),
            ),
        },
        StreamEnds::Split { read, write } => match clone {
            Ok(c) => c matches StreamEnds::Split { read: r, write: w } && call_ensures(
                duplicate,
                (read,),
                Ok::<Handle, u32>(r),
            ) && call_ensures(duplicate, (write,), Ok::<Handle, u32>(w)),
            Err(f) => f matches Failure::Os { code } && (call_ensures(
                duplicate,
                (read,),
                Err::<Handle, u32>(code),
            ) || (call_ensures(duplicate, (write,), Err::<Handle, u32>(code)) && exists|r: Handle|
                #[trigger] call_ensures(duplicate, (read,), Ok::<Handle, u32>(r)))),
        },
    }
}

/// `duplicate` can be asked for a copy of each handle of a stream, of a split stream's write handle
/// once the read handle has been copied.
pub open spec fn duplicable<F: Fn(Handle) -> Result<Handle, u32>>(
    ends: StreamEnds,
    duplicate: F,
) -> bool {
    &&& call_requires(duplicate, (ends.read_end(),))
    &&& ends is Split && (exists|r: Handle| #[trigger]
        call_ensures(duplicate, (ends.read_end(),), Ok::<Handle, u32>(r))) ==> call_requires(
        duplicate,
        (ends.write_end(),),
    )
}

impl StreamEnds {
    /// The handle that the stream reads from.
    pub open spec fn read_end(self) -> Handle {
        match self {
            StreamEnds::Duplex { handle } => handle,
            StreamEnds::Split { read, .. } => read,
        }
    }

    /// The handle that the stream writes to.
    pub open spec fn write_end(self) -> Handle {
        match self {
            StreamEnds::Duplex { handle } => handle,
            StreamEnds::Split { write, .. } => write,
        }
    }

    /// The handles that a shutdown closes, in order.
    pub open spec fn shutdown_spec(self, how: ShutdownHow) -> Seq<Handle> {
        match how {
            ShutdownHow::Read => if_usable(self.read_end()),
            ShutdownHow::Write => if_usable(self.write_end()),
            ShutdownHow::Both => if_usable(self.read_end()) + if_usable(self.write_end()),
        }
    }

    /// The handles that are closed when the stream is dropped: each that is neither null nor invalid.
    pub open spec fn close_spec(self) -> Seq<Handle> {
        match self {
            StreamEnds::Duplex { handle } => if_usable(handle),
            StreamEnds::Split { read, write } => if_usable(read) + if_usable(write),
        }
    }

    /// The handles to close when the stream is dropped, in order.
    pub fn close(&self) -> (close: Vec<Handle>)
        ensures
            close@ == self.close_spec(),
    {
        match *self {
            StreamEnds::Duplex { .. } => self.shutdown(ShutdownHow::Read),
            StreamEnds::Split { .. } => self.shutdown(ShutdownHow::Both),
        }
    }

    /// The handle that the stream reads from.
    pub fn read_handle(&self) -> (handle: Handle)
        ensures
            handle == self.read_end(),
    {
        match *self {
            StreamEnds::Duplex { handle } => handle,
            StreamEnds::Split { read, .. } => read,
        }
    }

    /// The handle that the stream writes to.
    pub fn write_handle(&self) -> (handle: Handle)
        ensures
            handle == self.write_end(),
    {
        match *self {
            StreamEnds::Duplex { handle } => handle,
            StreamEnds::Split { write, .. } => write,
        }
    }

    /// The handles to close for a shutdown, in order.
    ///
    /// Shutting down a direction closes the handle of that direction, so that the peer's next read
    /// sees the end of the stream. A full-duplex pipe has one handle for both directions: closing
    /// it tears down the whole connection, whichever half was named.
    pub fn shutdown(&self, how: ShutdownHow) -> (close: Vec<Handle>)
        ensures
            close@ == self.shutdown_spec(how),
    {
        let mut close: Vec<Handle> = Vec::new();
        let reads = match how {
            ShutdownHow::Read | ShutdownHow::Both => true,
            ShutdownHow::Write => false,
        };
        let writes = match how {
            ShutdownHow::Write | ShutdownHow::Both => true,
            ShutdownHow::Read => false,
        };
        if reads && self.read_handle().is_usable() {
            close.push(self.read_handle());
        }
        if writes && self.write_handle().is_usable() {
            close.push(self.write_handle());
        }
        assert(close@ =~= self.shutdown_spec(how));
        close
    }

    /// A second set of handles to the same pipes. `duplicate` duplicates one handle, or gives the
    /// error code of its failure.
    pub fn try_clone<F: Fn(Handle) -> Result<Handle, u32>>(&self, duplicate: F) -> (clone: Result<
        StreamEnds,
        Failure,
    >)
        requires
            duplicable(*self, duplicate),
        ensures
            duplicates(*self, duplicate, clone),
    {
        match *self {
            StreamEnds::Duplex { handle } => match duplicate(handle) {
                Ok(h) => Ok(StreamEnds::Duplex { handle: h }),
                Err(code) => Err(Failure::Os { code }),
            },
            StreamEnds::Split { read, write } => match duplicate(read) {
                Ok(r) => match duplicate(write) {
                    Ok(w) => Ok(StreamEnds::Split { read: r, write: w }),
                    Err(code) => Err(Failure::Os { code }),
                },
                Err(code) => Err(Failure::Os { code }),
            },
        }
    }
}

/// Any shutdown of a full-duplex stream closes its one handle.
pub proof fn duplex_shutdown_is_total(handle: Handle, how: ShutdownHow)
    requires
        handle.usable(),
    ensures
        (StreamEnds::Duplex { handle }).shutdown_spec(how).contains(handle),
{
    let close = (StreamEnds::Duplex { handle }).shutdown_spec(how);
    assert(close[0] == handle);
}

/// Shutting down one half of a split stream leaves the other half alone.
pub proof fn split_shutdown_is_partial(read: Handle, write: Handle)
    requires
        read != write,
    ensures
        !(StreamEnds::Split { read, write }).shutdown_spec(ShutdownHow::Write).contains(read),
        !(StreamEnds::Split { read, write }).shutdown_spec(ShutdownHow::Read).contains(write),
{
}

/// Milliseconds for which connecting is retried while every pipe instance is busy.
pub const CONNECT_WINDOW_MS: u64 = 500;

/// Milliseconds between two attempts to connect.
pub const CONNECT_RETRY_MS: u64 = 5;

/// What came of one attempt to open the pipe of an endpoint: the handle, or the error code when it
/// is invalid, and the whole milliseconds since connecting began.
#[derive(Clone, Copy, Debug, PartialEq, Eq, Structural)]
pub struct ConnectAttempt {
    pub handle: Handle,
    pub code: u32,
    pub elapsed_ms: u64,
}

/// What to do after an attempt to connect.
#[derive(Clone, Copy, Debug, PartialEq, Eq, Structural)]
pub enum ConnectStep {
    /// Use the stream.
    Connected { stream: StreamState },
    /// Sleep, then try again.
    Retry { after_ms: u64 },
    /// Nobody listens at the endpoint.
    Missing,
    /// Give up.
    Fail(Failure),
}

/// A stream as it is at one moment: its handles, and the settings it goes by.
#[derive(Clone, Copy, Debug, PartialEq, Eq, Structural)]
pub struct StreamState {
    pub ends: StreamEnds,
    pub settings: StreamSettings,
}

impl StreamState {
    /// A new stream over `ends`: blocking, without time limits.
    pub open spec fn fresh(ends: StreamEnds) -> StreamState {
        StreamState {
            ends,
            settings: StreamSettings {
                read_timeout_ms: NEVER,
                write_timeout_ms: NEVER,
                nonblocking: false,
            },
        }
    }

    /// A read into a buffer of `buf_len` bytes, as it begins.
    pub open spec fn read_transfer(self, buf_len: usize) -> Transfer {
        Transfer {
            direction: Direction::Read,
            timeout_ms: effective_wait_spec(
                self.settings.nonblocking,
                self.settings.read_timeout_ms,
            ),
            step: read_step(self.ends.read_end(), buf_len),
        }
    }

    /// A write of `buf_len` bytes, as it begins.
    pub open spec fn write_transfer(self, buf_len: usize) -> Transfer {
        Transfer {
            direction: Direction::Write,
            timeout_ms: effective_wait_spec(
                self.settings.nonblocking,
                self.settings.write_timeout_ms,
            ),
            step: write_step(self.ends.write_end(), buf_len),
        }
    }

    /// A stream over one full-duplex pipe.
    pub fn new_duplex(handle: Handle) -> (stream: StreamState)
        ensures
            stream == StreamState::fresh(StreamEnds::Duplex { handle }),
    {
        StreamState { ends: StreamEnds::Duplex { handle }, settings: StreamSettings::new() }
    }

    /// A stream over one pipe per direction.
    pub fn new_split(read: Handle, write: Handle) -> (stream: StreamState)
        ensures
            stream == StreamState::fresh(StreamEnds::Split { read, write }),
    {
        StreamState { ends: StreamEnds::Split { read, write }, settings: StreamSettings::new() }
    }
}

/// What to do after an attempt to connect. Only a busy pipe is tried again, and only while the
/// window is open.
pub open spec fn connect_spec(attempt: ConnectAttempt) -> ConnectStep {
    if !attempt.handle.invalid() {
        ConnectStep::Connected {
            stream: StreamState::fresh(StreamEnds::Duplex { handle: attempt.handle }),
        }
    } else if attempt.code == ERROR_PIPE_BUSY && attempt.elapsed_ms < CONNECT_WINDOW_MS {
        ConnectStep::Retry { after_ms: CONNECT_RETRY_MS }
    } else if attempt.code == ERROR_FILE_NOT_FOUND {
        ConnectStep::Missing
    } else {
        ConnectStep::Fail(Failure::Os { code: attempt.code })
    }
}

/// A stream with its clones. Each is a member with handles of its own, known by its number; all go
/// by one set of settings.
#[derive(Debug)]
pub struct LocalStream {
    members: Vec<Option<StreamEnds>>,
    settings: StreamSettings,
}

impl LocalStream {
    /// The handles of a member; none where there is no such member.
    pub closed spec fn member(self, k: usize) -> Option<StreamEnds> {
        if k < self.members@.len() {
            self.members@[k as int]
        } else {
            None
        }
    }

    /// The settings that all members go by.
    pub closed spec fn settings(self) -> StreamSettings {
        self.settings
    }

    /// There is a member of this number.
    pub open spec fn live(self, k: usize) -> bool {
        self.member(k) is Some
    }

    /// A member as it is now.
    pub open spec fn stream(self, k: usize) -> StreamState {
        StreamState { ends: self.member(k)->0, settings: self.settings() }
    }

    /// The members are those of `other`.
    pub open spec fn same_members(self, other: LocalStream) -> bool {
        forall|j: usize| #[trigger] self.member(j) == other.member(j)
    }

    /// The members other than `k` are those of `other`.
    pub open spec fn same_members_but(self, other: LocalStream, k: usize) -> bool {
        forall|j: usize| j != k ==> #[trigger] self.member(j) == other.member(j)
    }

    /// Takes up a stream, which becomes member 0.
    pub fn open(stream: StreamState) -> (opened: LocalStream)
        ensures
            opened.live(0),
            opened.stream(0) == stream,
            forall|j: usize| j != 0 ==> !#[trigger] opened.live(j),
    {
        let mut members: Vec<Option<StreamEnds>> = Vec::new();
        members.push(Some(stream.ends));
        LocalStream { members, settings: stream.settings }
    }

    /// Decides what to do after an attempt to connect.
    ///
    /// A busy pipe is tried again while the window is open: the server has not offered its next
    /// instance yet, which is common at startup.
    pub fn connect(attempt: ConnectAttempt) -> (step: ConnectStep)
        ensures
            step == connect_spec(attempt),
    {
        if attempt.handle.is_invalid() {
            if attempt.code == ERROR_PIPE_BUSY && attempt.elapsed_ms < CONNECT_WINDOW_MS {
                return ConnectStep::Retry { after_ms: CONNECT_RETRY_MS };
            }
            if attempt.code == ERROR_FILE_NOT_FOUND {
                return ConnectStep::Missing;
            }
            return ConnectStep::Fail(Failure::Os { code: attempt.code });
        }
        ConnectStep::Connected { stream: StreamState::new_duplex(attempt.handle) }
    }

    /// Switches all members between blocking and non-blocking.
    pub fn set_nonblocking(&mut self, nonblocking: bool) -> (done: Result<(), Failure>)
        ensures
            done is Ok,
            final(self).same_members(*old(self)),
            final(self).settings() == (StreamSettings { nonblocking, ..old(self).settings() }),
    {
        self.settings.set_nonblocking(nonblocking);
        Ok(())
    }

    /// Limits the time that reads of any member wait.
    pub fn set_read_timeout(&mut self, dur: Option<TimeSpan>) -> (done: Result<(), Failure>)
        ensures
            done is Ok,
            final(self).same_members(*old(self)),
            final(self).settings() == (StreamSettings {
                read_timeout_ms: stored_limit(dur),
                ..old(self).settings()
            }),
    {
        self.settings.set_read_timeout(dur);
        Ok(())
    }

    /// Limits the time that writes of any member wait.
    pub fn set_write_timeout(&mut self, dur: Option<TimeSpan>) -> (done: Result<(), Failure>)
        ensures
            done is Ok,
            final(self).same_members(*old(self)),
            final(self).settings() == (StreamSettings {
                write_timeout_ms: stored_limit(dur),
                ..old(self).settings()
            }),
    {
        self.settings.set_write_timeout(dur);
        Ok(())
    }

    /// Adds a clone of member `k`: a member of its own over the same pipes. `duplicate` duplicates
    /// one handle, or gives the error code of its failure. The clone takes a free number.
    pub fn try_clone<F: Fn(Handle) -> Result<Handle, u32>>(
        &mut self,
        k: usize,
        duplicate: F,
    ) -> (clone: Result<usize, Failure>)
        requires
            old(self).live(k),
            duplicable(old(self).stream(k).ends, duplicate),
        ensures
            final(self).settings() == old(self).settings(),
            match clone {
                Ok(c) => {
                    &&& !old(self).live(c)
                    &&& final(self).live(c)
                    &&& final(self).same_members_but(*old(self), c)
                    &&& duplicates(
                        old(self).stream(k).ends,
                        duplicate,
                        Ok(final(self).stream(c).ends),
                    )
                },
                Err(failure) => {
                    &&& final(self).same_members(*old(self))
                    &&& duplicates(old(self).stream(k).ends, duplicate, Err(failure))
                },
            },
    {
        let ends = self.state(k).ends;
        let copy = match ends.try_clone(duplicate) {
            Ok(copy) => copy,
            Err(failure) => {
                return Err(failure);
            },
        };
        let mut c: usize = 0;
        while c < self.members.len() && self.members[c].is_some()
            invariant
                c <= self.members.len(),
                *self == *old(self),
            decreases self.members.len() - c,
        {
            c += 1;
        }
        if c < self.members.len() {
            self.members.set(c, Some(copy));
        } else {
            self.members.push(Some(copy));
        }
        Ok(c)
    }

    /// Drops member `k`: its handles are to be closed. The other members stay. A handle that a
    /// shutdown has closed before is closed again, which is harmless unless it has been recycled.
    pub fn close(&mut self, k: usize) -> (close: Vec<Handle>)
        requires
            old(self).live(k),
        ensures
            close@ == old(self).stream(k).ends.close_spec(),
            !final(self).live(k),
            final(self).same_members_but(*old(self), k),
            final(self).settings() == old(self).settings(),
    {
        let ends = self.state(k).ends;
        self.members.set(k, None);
        ends.close()
    }

    /// Member `k` as it is now.
    pub fn state(&self, k: usize) -> (stream: StreamState)
        requires
            self.live(k),
        ensures
            stream == self.stream(k),
    {
        match self.members[k] {
            Some(ends) => StreamState { ends, settings: self.settings },
            None => StreamState::new_duplex(Handle { bits: 0 }),
        }
    }

    /// The handles to close for a shutdown of member `k`, in order. The member keeps its handles: it
    /// can still be read, written and dropped, and the system then refuses what goes through a
    /// closed one. Shutting down a full-duplex member both ways names its one handle twice.
    pub fn shutdown(&self, k: usize, how: ShutdownHow) -> (close: Vec<Handle>)
        requires
            self.live(k),
        ensures
            close@ == self.stream(k).ends.shutdown_spec(how),
    {
        self.state(k).ends.shutdown(how)
    }

    /// Begins a read of member `k` into a buffer of `buf_len` bytes.
    pub fn read_inner(&self, k: usize, buf_len: usize) -> (t: Transfer)
        requires
            self.live(k),
        ensures
            t == self.stream(k).read_transfer(buf_len),
    {
        let handle = self.state(k).ends.read_handle();
        Transfer::overlapped_read(handle, buf_len, self.settings.read_wait_ms())
    }

    /// Begins a write by member `k` of `buf_len` bytes.
    pub fn write_inner(&self, k: usize, buf_len: usize) -> (t: Transfer)
        requires
            self.live(k),
        ensures
            t == self.stream(k).write_transfer(buf_len),
    {
        let handle = self.state(k).ends.write_handle();
        Transfer::overlapped_write(handle, buf_len, self.settings.write_wait_ms())
    }
}

/// A stream and its clones share their settings: whatever one of them waits, another waits, and a
/// change that keeps the members reaches all of them alike.
pub proof fn clones_share_settings(
    before: LocalStream,
    after: LocalStream,
    k: usize,
    c: usize,
    buf_len: usize,
)
    requires
        before.live(k),
        before.live(c),
        after.same_members(before),
    ensures
        after.live(k) && after.live(c),
        after.stream(k) == (StreamState { settings: after.settings(), ..before.stream(k) }),
        after.stream(c) == (StreamState { settings: after.settings(), ..before.stream(c) }),
        after.stream(k).read_transfer(buf_len).timeout_ms == after.stream(c).read_transfer(
            buf_len,
        ).timeout_ms,
        after.stream(k).write_transfer(buf_len).timeout_ms == after.stream(c).write_transfer(
            buf_len,
        ).timeout_ms,
        after.settings().nonblocking ==> after.stream(c).read_transfer(buf_len).timeout_ms == 0,
{
    assert(after.member(k) == before.member(k));
    assert(after.member(c) == before.member(c));
}

/// Dropping one member leaves every other usable as before.
pub proof fn other_members_survive_a_drop(
    before: LocalStream,
    after: LocalStream,
    k: usize,
    c: usize,
)
    requires
        before.live(c),
        c != k,
        after.same_members_but(before, k),
        after.settings() == before.settings(),
    ensures
        after.live(c),
        after.stream(c) == before.stream(c),
{
    assert(after.member(c) == before.member(c));
}

/// Connecting does not go on for ever: attempts that lie at least the retry pause apart, and are all
/// to be retried, are at most a hundred, and the last of them was made within the window.
pub proof fn connect_retries_end(attempts: Seq<ConnectAttempt>)
    requires
        forall|i: int| 0 <= i < attempts.len() ==> connect_spec(#[trigger] attempts[i]) is Retry,
        forall|i: int, j: int|
            0 <= i < j < attempts.len() && j == i + 1 ==> (#[trigger] attempts[i]).elapsed_ms
                + CONNECT_RETRY_MS <= (#[trigger] attempts[j]).elapsed_ms,
    ensures
        attempts.len() * CONNECT_RETRY_MS <= CONNECT_WINDOW_MS,
        attempts.len() > 0 ==> attempts.last().elapsed_ms < CONNECT_WINDOW_MS,
{
    if attempts.len() > 0 {
        let last = attempts.len() - 1;
        attempts_take_time(attempts, last);
        assert(connect_spec(attempts[last]) is Retry);
    }
}

/// Attempts that lie apart take their time.
proof fn attempts_take_time(attempts: Seq<ConnectAttempt>, i: int)
    requires
        0 <= i < attempts.len(),
        forall|i: int, j: int|
            0 <= i < j < attempts.len() && j == i + 1 ==> (#[trigger] attempts[i]).elapsed_ms
                + CONNECT_RETRY_MS <= (#[trigger] attempts[j]).elapsed_ms,
    ensures
        i * CONNECT_RETRY_MS <= attempts[i].elapsed_ms,
    decreases i,
{
    if i > 0 {
        attempts_take_time(attempts, i - 1);
        assert(attempts[i - 1].elapsed_ms + CONNECT_RETRY_MS <= attempts[i].elapsed_ms);
    }
}

/// A missing endpoint is given up on at once.
pub proof fn missing_endpoints_are_not_retried(attempt: ConnectAttempt)
    requires
        attempt.handle.invalid(),
        attempt.code == ERROR_FILE_NOT_FOUND,
    ensures
        connect_spec(attempt) == ConnectStep::Missing,
{
}

/// A read of an idle stream would block: it waits as long as the settings say, not at all when
/// non-blocking, is cancelled then, and fails with the would-block error.
pub proof fn idle_reads_would_block(stream: StreamState, buf_len: usize, answers: TransferAnswers)
    requires
        stream.ends.read_end().usable(),
        buf_len > 0,
        answers.issued == (Completion::Failed { code: ERROR_IO_PENDING }),
        answers.waited == WAIT_TIMEOUT,
    ensures
        stream.read_transfer(buf_len).run(answers, 1).step == (TransferStep::Wait {
            timeout_ms: effective_wait_spec(
                stream.settings.nonblocking,
                stream.settings.read_timeout_ms,
            ),
        }),
        stream.settings.nonblocking ==> stream.read_transfer(buf_len).timeout_ms == 0,
        stream.read_transfer(buf_len).run(answers, 3).step == (TransferStep::Finish {
            outcome: Err(Failure::Fault(Fault::ReadTimedOut)),
        }),
        fault_kind(Fault::ReadTimedOut) == ErrorKind::WouldBlock,
{
    reveal_with_fuel(Transfer::run, 4);
}

/// A stream without a handle, whose handle is null or invalid, reads as ended and cannot be written
/// to.
pub proof fn streams_without_handles_read_the_end(stream: StreamState, buf_len: usize)
    requires
        buf_len > 0,
    ensures
        !stream.ends.read_end().usable() ==> stream.read_transfer(buf_len).step == (
        TransferStep::Finish { outcome: Ok(0) }),
        !stream.ends.write_end().usable() ==> stream.write_transfer(buf_len).step == (
        TransferStep::Finish { outcome: Err(Failure::Fault(Fault::HandleClosed)) }),
{
}

/// The error for an endpoint at which nobody listens.
pub fn endpoint_missing(path: &str) -> (err: IoError)
    ensures
        err.kind == ErrorKind::NotFound,
        err.message@ == "no transport endpoint at "@ + path@,
{
    let mut message = String::new();
    message.append("no transport endpoint at ");
    message.append(path);
    make_io_err(ErrorKind::NotFound, message)
}

/// Reads wait as their stream is set: not at all when non-blocking, for ever without a limit, and
/// else as long as the limit says, short of for ever. The limit on writes plays no part.
pub proof fn reads_wait_as_set(stream: StreamState, buf_len: usize)
    ensures
        ({
            let t = stream.read_transfer(buf_len);
            let limit = stream.settings.read_timeout_ms;
            &&& t.direction == Direction::Read
            &&& stream.settings.nonblocking ==> t.timeout_ms == 0
            &&& !stream.settings.nonblocking ==> {
                &&& t.timeout_ms == 0xffff_ffff <==> limit == u64::MAX
                &&& limit <= 0xffff_fffe ==> t.timeout_ms == limit
                &&& 0xffff_fffe < limit < u64::MAX ==> t.timeout_ms == 0xffff_fffe
            }
        }),
{
}

/// Writes wait as their stream is set: not at all when non-blocking, for ever without a limit, and
/// else as long as the limit says, short of for ever. The limit on reads plays no part.
pub proof fn writes_wait_as_set(stream: StreamState, buf_len: usize)
    ensures
        ({
            let t = stream.write_transfer(buf_len);
            let limit = stream.settings.write_timeout_ms;
            &&& t.direction == Direction::Write
            &&& stream.settings.nonblocking ==> t.timeout_ms == 0
            &&& !stream.settings.nonblocking ==> {
                &&& t.timeout_ms == 0xffff_ffff <==> limit == u64::MAX
                &&& limit <= 0xffff_fffe ==> t.timeout_ms == limit
                &&& 0xffff_fffe < limit < u64::MAX ==> t.timeout_ms == 0xffff_fffe
            }
        }),
{
}

/// A write that finds no room would block: it waits as long as the stream is set to, not at all when
/// non-blocking, is cancelled then, and fails with the would-block error.
pub proof fn full_writes_would_block(stream: StreamState, buf_len: usize, answers: TransferAnswers)
    requires
        stream.ends.write_end().usable(),
        buf_len > 0,
        answers.issued == (Completion::Failed { code: 997 }),
        answers.waited == 258,
    ensures
        ({
            let t = stream.write_transfer(buf_len);
            &&& t.run(answers, 1).step == (TransferStep::Wait { timeout_ms: t.timeout_ms })
            &&& stream.settings.nonblocking ==> t.run(answers, 1).step == (TransferStep::Wait {
                timeout_ms: 0,
            })
            &&& t.run(answers, 2).step == TransferStep::Cancel
            &&& t.run(answers, 3).step == (TransferStep::Finish {
                outcome: Err(Failure::Fault(Fault::WriteTimedOut)),
            })
            &&& fault_kind(Fault::WriteTimedOut) == ErrorKind::WouldBlock
        }),
{
    reveal_with_fuel(Transfer::run, 4);
}

/// A transfer goes through the handle of its direction: it is issued exactly where there are bytes
/// and that handle is neither null nor invalid.
pub proof fn transfers_need_their_own_handle(stream: StreamState, buf_len: usize)
    ensures
        ({
            let (read, write) = match stream.ends {
                StreamEnds::Duplex { handle } => (handle, handle),
                StreamEnds::Split { read, write } => (read, write),
            };
            &&& stream.ends.read_end() == read && stream.ends.write_end() == write
            &&& stream.read_transfer(buf_len).step is Issue <==> buf_len > 0 && read.bits != 0
                && read.bits != usize::MAX
            &&& stream.write_transfer(buf_len).step is Issue <==> buf_len > 0 && write.bits != 0
                && write.bits != usize::MAX
        }),
{
}

/// A new stream blocks: its reads and writes wait for ever until a limit is set, and go through the
/// very handles it was made over.
pub proof fn new_streams_block(ends: StreamEnds, buf_len: usize)
    ensures
        StreamState::fresh(ends).ends == ends,
        StreamState::fresh(ends).read_transfer(buf_len).timeout_ms == 0xffff_ffff,
        StreamState::fresh(ends).write_transfer(buf_len).timeout_ms == 0xffff_ffff,
{
}

/// An attempt that opened the pipe connects, whatever else is said of it, to a stream over that one
/// handle for both directions, on which reads and writes wait for ever until a limit is set.
pub proof fn opened_pipes_connect_and_block(attempt: ConnectAttempt, buf_len: usize)
    requires
        attempt.handle.bits != usize::MAX,
    ensures
        connect_spec(attempt) matches ConnectStep::Connected { stream } && {
            &&& stream.ends == (StreamEnds::Duplex { handle: attempt.handle })
            &&& stream.ends.read_end() == attempt.handle
            &&& stream.ends.write_end() == attempt.handle
            &&& !stream.settings.nonblocking
            &&& stream.read_transfer(buf_len).timeout_ms == 0xffff_ffff
            &&& stream.write_transfer(buf_len).timeout_ms == 0xffff_ffff
        },
{
}

/// An attempt that opened nothing never connects. It is tried again, five milliseconds later, exactly
/// where every instance is busy and fewer than 500 milliseconds have passed; it finds nobody exactly
/// where there is no such pipe; and it fails with its own code everywhere else.
pub proof fn unopened_pipes_never_connect(attempt: ConnectAttempt)
    requires
        attempt.handle.bits == usize::MAX,
    ensures
        !(connect_spec(attempt) is Connected),
        connect_spec(attempt) is Retry <==> attempt.code == 231 && attempt.elapsed_ms < 500,
        connect_spec(attempt) matches ConnectStep::Retry { after_ms } ==> after_ms == 5,
        connect_spec(attempt) == ConnectStep::Missing <==> attempt.code == 2,
        connect_spec(attempt) matches ConnectStep::Fail(failure) ==> failure == (Failure::Os {
            code: attempt.code,
        }),
{
}

/// A shutdown closes the handle of each direction it names, and no other. Both directions close the
/// handle that is read from before the one that is written to.
pub proof fn shutdown_closes_what_it_names(ends: StreamEnds, how: ShutdownHow, handle: Handle)
    ensures
        ({
            let (read, write) = match ends {
                StreamEnds::Duplex { handle } => (handle, handle),
                StreamEnds::Split { read, write } => (read, write),
            };
            let reads = how is Read || how is Both;
            let writes = how is Write || how is Both;
            let closed = ends.shutdown_spec(how);
            let open = handle.bits != 0 && handle.bits != usize::MAX;
            &&& closed.contains(handle) <==> open && ((reads && handle == read) || (writes && handle
                == write))
            &&& how is Both && read.usable() && write.usable() ==> closed == seq![read, write]
            &&& !(how is Both) ==> closed.len() <= 1
        }),
{
    let closed = ends.shutdown_spec(how);
    let read = ends.read_end();
    let write = ends.write_end();
    if how is Both {
        assert(read.usable() && write.usable() ==> closed =~= seq![read, write]);
        if read.usable() {
            assert(closed[0] == read);
            if write.usable() {
                assert(closed[1] == write);
            }
        } else if write.usable() {
            assert(closed[0] == write);
        }
    } else if how is Read && read.usable() {
        assert(closed[0] == read);
    } else if how is Write && write.usable() {
        assert(closed[0] == write);
    }
}

/// Dropping a stream closes every handle it has and no other, the one handle of a full-duplex stream
/// once.
pub proof fn dropping_closes_every_handle(ends: StreamEnds, handle: Handle)
    ensures
        ({
            let closed = ends.close_spec();
            let open = handle.bits != 0 && handle.bits != usize::MAX;
            let own = match ends {
                StreamEnds::Duplex { handle: h } => handle == h,
                StreamEnds::Split { read, write } => handle == read || handle == write,
            };
            &&& closed.contains(handle) <==> open && own
            &&& ends is Duplex ==> closed.len() <= 1
            &&& ends matches StreamEnds::Split { read, write } ==> (read.usable() && write.usable()
                ==> closed == seq![read, write])
        }),
{
    let closed = ends.close_spec();
    match ends {
        StreamEnds::Duplex { handle: h } => {
            if h.usable() {
                assert(closed[0] == h);
            }
        },
        StreamEnds::Split { read, write } => {
            assert(read.usable() && write.usable() ==> closed =~= seq![read, write]);
            if read.usable() {
                assert(closed[0] == read);
                if write.usable() {
                    assert(closed[1] == write);
                }
            } else if write.usable() {
                assert(closed[0] == write);
            }
        },
    }
}

/// A clone reads from a copy of the handle that is read from and writes to a copy of the one that is
/// written to, and has the layout of its original. Cloning fails only with the code of a copy that
/// failed, and never where every copy succeeds.
pub proof fn clones_copy_each_direction<F: Fn(Handle) -> Result<Handle, u32>>(
    ends: StreamEnds,
    duplicate: F,
    clone: Result<StreamEnds, Failure>,
)
    requires
        duplicates(ends, duplicate, clone),
    ensures
        clone matches Ok(c) ==> {
            &&& call_ensures(duplicate, (ends.read_end(),), Ok::<Handle, u32>(c.read_end()))
            &&& call_ensures(duplicate, (ends.write_end(),), Ok::<Handle, u32>(c.write_end()))
            &&& c is Duplex <==> ends is Duplex
        },
        clone matches Err(failure) ==> failure matches Failure::Os { code } && (call_ensures(
            duplicate,
            (ends.read_end(),),
            Err::<Handle, u32>(code),
        ) || call_ensures(duplicate, (ends.write_end(),), Err::<Handle, u32>(code))),
{
}

/// Cloning copies the read handle first: a full-duplex stream needs no other copy, and neither does a
/// split one whose read handle cannot be copied.
pub proof fn read_handles_are_copied_first<F: Fn(Handle) -> Result<Handle, u32>>(
    ends: StreamEnds,
    duplicate: F,
)
    requires
        call_requires(duplicate, (ends.read_end(),)),
    ensures
        ends is Duplex ==> duplicable(ends, duplicate),
        (forall|r: Handle|
            !#[trigger] call_ensures(duplicate, (ends.read_end(),), Ok::<Handle, u32>(r)))
            ==> duplicable(ends, duplicate),
        call_requires(duplicate, (ends.write_end(),)) ==> duplicable(ends, duplicate),
{
}

} // verus!
