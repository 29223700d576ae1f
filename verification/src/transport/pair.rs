//! In-process pairs: two pipes, one per direction, wired into two connected streams.
use vstd::prelude::*;

#[allow(unused_imports)]
use crate::error::is_disconnect;
use crate::error::{Failure, Fault};
use crate::transport::names::make_pair_name;
#[allow(unused_imports)]
use crate::transport::names::pair_name;
use crate::transport::stream::{LocalStream, StreamState};
#[allow(unused_imports)]
use crate::transport::stream::{ShutdownHow, StreamEnds};
#[allow(unused_imports)]
use crate::transport::transfer::{Completion, Transfer, TransferAnswers, TransferStep};
#[allow(unused_imports)]
use crate::utf16::encode_utf16_spec;
use crate::win32::Handle;
#[allow(unused_imports)]
use crate::win32::{
    ERROR_IO_PENDING, ERROR_PIPE_CONNECTED, FILE_FLAG_OVERLAPPED, GENERIC_READ, GENERIC_WRITE,
    PIPE_ACCESS_INBOUND, PIPE_ACCESS_OUTBOUND, WAIT_OBJECT_0, WAIT_TIMEOUT,
};

verus! {

/// Milliseconds that the server end of a pair waits for its client.
pub const PAIR_CONNECT_MS: u32 = 1000;

/// Open mode of a one-way pipe, from the server's side.
pub fn unidir_open_mode(inbound: bool) -> (mode: u32)
    ensures
        mode == if inbound {
            PIPE_ACCESS_INBOUND | FILE_FLAG_OVERLAPPED
        } else {
            PIPE_ACCESS_OUTBOUND | FILE_FLAG_OVERLAPPED
        },
{
    let access: u32 = if inbound {
        PIPE_ACCESS_INBOUND
    } else {
        PIPE_ACCESS_OUTBOUND
    };
    access | FILE_FLAG_OVERLAPPED
}

/// Access rights with which a client opens a pipe.
pub fn client_access(read: bool, write: bool) -> (access: u32)
    ensures
        access == match (read, write) {
            (true, true) => GENERIC_READ | GENERIC_WRITE,
            (true, false) => GENERIC_READ,
            (false, true) => GENERIC_WRITE,
            (false, false) => 0,
        },
{
    if read && write {
        GENERIC_READ | GENERIC_WRITE
    } else if read {
        GENERIC_READ
    } else if write {
        GENERIC_WRITE
    } else {
        0
    }
}

/// How one pipe of a pair is made.
#[derive(Debug, PartialEq, Eq)]
pub struct PairPipe {
    /// NUL-terminated name of the pipe.
    pub name: Vec<u16>,
    /// The server end reads; else it writes.
    pub server_reads: bool,
    /// The client end reads; else it writes.
    pub client_reads: bool,
    /// How many server ends the pipe may have.
    pub instances: u32,
}

/// Server ends that a pipe of a pair may have: it is private to the pair.
pub const PAIR_INSTANCES: u32 = 1;

/// How a pipe of a pair is made: its server end, the only one, writes, and its client end reads.
pub open spec fn is_pair_pipe(pipe: PairPipe, pid: u32, nonce: u64, channel: u8) -> bool {
    &&& pipe.name@ == encode_utf16_spec(pair_name(pid, nonce, channel)).push(0)
    &&& !pipe.server_reads
    &&& pipe.client_reads
    &&& pipe.instances == PAIR_INSTANCES
}

/// The two pipes of a pair: the one that carries `a`'s writes, and the one that carries `b`'s.
///
/// Either stream writes to the server end of its pipe and reads from the client end of the other's,
/// so both servers are outbound and both clients read.
pub fn pair_pipes(pid: u32, nonce: u64) -> (pipes: (PairPipe, PairPipe))
    ensures
        is_pair_pipe(pipes.0, pid, nonce, 0),
        is_pair_pipe(pipes.1, pid, nonce, 1),
{
    (
        PairPipe {
            name: make_pair_name(pid, nonce, 0),
            server_reads: false,
            client_reads: true,
            instances: PAIR_INSTANCES,
        },
        PairPipe {
            name: make_pair_name(pid, nonce, 1),
            server_reads: false,
            client_reads: true,
            instances: PAIR_INSTANCES,
        },
    )
}

/// The streams of a pair over the open ends of its two pipes.
pub open spec fn wire_pair_spec(
    ab_server: Handle,
    ab_client: Handle,
    ba_server: Handle,
    ba_client: Handle,
) -> (StreamState, StreamState) {
    (
        StreamState::fresh(StreamEnds::Split { read: ba_client, write: ab_server }),
        StreamState::fresh(StreamEnds::Split { read: ab_client, write: ba_server }),
    )
}

/// Wires the open ends of the two pipes into the two streams of a pair.
pub fn wire_pair(
    ab_server: Handle,
    ab_client: Handle,
    ba_server: Handle,
    ba_client: Handle,
) -> (streams: (StreamState, StreamState))
    ensures
        streams == wire_pair_spec(ab_server, ab_client, ba_server, ba_client),
{
    (StreamState::new_split(ba_client, ab_server), StreamState::new_split(ab_client, ba_server))
}

/// Two handles are the ends of a one-way pipe: bytes written to the first come out of the second.
pub open spec fn carries(
    pipe: PairPipe,
    server: Handle,
    client: Handle,
    from: Handle,
    to: Handle,
) -> bool {
    if pipe.server_reads {
        !pipe.client_reads && from == client && to == server
    } else {
        pipe.client_reads && from == server && to == client
    }
}

/// A pair is connected both ways: what one stream writes, the other reads.
pub proof fn pair_is_connected_both_ways(
    ab: PairPipe,
    ba: PairPipe,
    ab_server: Handle,
    ab_client: Handle,
    ba_server: Handle,
    ba_client: Handle,
)
    requires
        !ab.server_reads && ab.client_reads,
        !ba.server_reads && ba.client_reads,
    ensures
        ({
            let (a, b) = wire_pair_spec(ab_server, ab_client, ba_server, ba_client);
            &&& carries(ab, ab_server, ab_client, a.ends.write_end(), b.ends.read_end())
            &&& carries(ba, ba_server, ba_client, b.ends.write_end(), a.ends.read_end())
        }),
{
}

/// Shutting down the write half of one stream of a pair closes the one handle that the other's
/// reads depend on. Those reads then meet a disconnect and end; the other direction stays open.
pub proof fn write_shutdown_ends_the_peers_reads(
    ab_server: Handle,
    ab_client: Handle,
    ba_server: Handle,
    ba_client: Handle,
    buf_len: usize,
    answers: TransferAnswers,
)
    requires
        ab_server.usable(),
        ba_client != ab_server,
        buf_len > 0,
        answers.issued matches Completion::Failed { code } && is_disconnect(code),
    ensures
        ({
            let (a, b) = wire_pair_spec(ab_server, ab_client, ba_server, ba_client);
            let closed = a.ends.shutdown_spec(ShutdownHow::Write);
            &&& closed == seq![ab_server]
            &&& !closed.contains(a.ends.read_end())
            &&& b.read_transfer(buf_len).run(answers, 3).step == (TransferStep::Finish {
                outcome: Ok(0),
            })
        }),
{
    reveal_with_fuel(Transfer::run, 4);
}

/// A server end that is open on a host.
pub struct OpenServer {
    pub name: Seq<u16>,
    pub instances: u32,
}

/// The host keeps the limits of its pipes: where two server ends go by one name, that pipe may have
/// more than one. A server end past the limit is not opened.
pub open spec fn limits_are_kept(servers: Map<Handle, OpenServer>) -> bool {
    forall|h: Handle, g: Handle| #[trigger]
        servers.contains_key(h) && #[trigger] servers.contains_key(g) && h != g && servers[h].name
            == servers[g].name ==> servers[h].instances > 1
}

/// No other server end goes by the name of a pair's pipe, whoever opened it and whenever: neither
/// another pair nor a listener shares the pipe, even where the clock has run back. So a client that
/// opens the name reaches the pair's own server end.
pub proof fn pairs_never_share_a_pipe(
    servers: Map<Handle, OpenServer>,
    pipe: PairPipe,
    pid: u32,
    nonce: u64,
    channel: u8,
    server: Handle,
    other: Handle,
)
    requires
        limits_are_kept(servers),
        is_pair_pipe(pipe, pid, nonce, channel),
        servers.contains_key(server),
        servers[server] == (OpenServer { name: pipe.name@, instances: pipe.instances }),
        servers.contains_key(other),
        servers[other].name == pipe.name@,
    ensures
        other == server,
{
}

/// The two pipes of a pair have different names.
pub proof fn pair_pipes_are_distinct(pid: u32, nonce: u64)
    ensures
        encode_utf16_spec(pair_name(pid, nonce, 0)).push(0) != encode_utf16_spec(
            pair_name(pid, nonce, 1),
        ).push(0),
{
    if encode_utf16_spec(pair_name(pid, nonce, 0)).push(0) == encode_utf16_spec(
        pair_name(pid, nonce, 1),
    ).push(0) {
        crate::transport::names::pair_names_are_unique(pid, nonce, 0, pid, nonce, 1);
    }
}

/// What the server end of a pair does next to meet its client.
#[derive(Clone, Copy, Debug, PartialEq, Eq)]
pub enum MeetStep {
    /// Create the event that the connect signals.
    MakeEvent,
    /// Start waiting for the client.
    Connect,
    /// Wait for the event.
    Wait { timeout_ms: u32 },
    /// Cancel the connect.
    Cancel,
    /// The ends have met, or will not.
    Finish { outcome: Result<(), Failure> },
}

/// What came of a step.
#[derive(Clone, Copy, Debug, PartialEq, Eq)]
pub enum MeetReply {
    EventMade { outcome: Result<(), u32> },
    /// Whether the connect completed at once, and the error code if not.
    Connected { ok: bool, code: u32 },
    Waited { code: u32 },
    Cancelled,
}

impl MeetStep {
    /// The reply is one to this step.
    pub open spec fn expects(self, reply: MeetReply) -> bool {
        match self {
            MeetStep::MakeEvent => reply is EventMade,
            MeetStep::Connect => reply is Connected,
            MeetStep::Wait { .. } => reply is Waited,
            MeetStep::Cancel => reply is Cancelled,
            MeetStep::Finish { .. } => false,
        }
    }

    /// The step that follows a reply.
    pub open spec fn after(self, reply: MeetReply) -> MeetStep {
        match reply {
            MeetReply::EventMade { outcome } => match outcome {
                Ok(_) => MeetStep::Connect,
                Err(code) => MeetStep::Finish { outcome: Err(Failure::Os { code }) },
            },
            MeetReply::Connected { ok, code } => if ok || code == ERROR_PIPE_CONNECTED {
                MeetStep::Finish { outcome: Ok(()) }
            } else if code == ERROR_IO_PENDING {
                MeetStep::Wait { timeout_ms: PAIR_CONNECT_MS }
            } else {
                MeetStep::Finish { outcome: Err(Failure::Os { code }) }
            },
            MeetReply::Waited { code } => if code == WAIT_OBJECT_0 {
                MeetStep::Finish { outcome: Ok(()) }
            } else if code == WAIT_TIMEOUT {
                MeetStep::Cancel
            } else {
                MeetStep::Finish { outcome: Err(Failure::Fault(Fault::PairIncomplete)) }
            },
            MeetReply::Cancelled => MeetStep::Finish {
                outcome: Err(Failure::Fault(Fault::PairIncomplete)),
            },
        }
    }
}

/// Takes the reply to a step of the server end of a pair and tells the next step.
pub fn finish_pair_connect(step: MeetStep, reply: MeetReply) -> (next: MeetStep)
    requires
        step.expects(reply),
    ensures
        next == step.after(reply),
{
    match reply {
        MeetReply::EventMade { outcome } => match outcome {
            Ok(_) => MeetStep::Connect,
            Err(code) => MeetStep::Finish { outcome: Err(Failure::Os { code }) },
        },
        MeetReply::Connected { ok, code } => if ok || code == ERROR_PIPE_CONNECTED {
            MeetStep::Finish { outcome: Ok(()) }
        } else if code == ERROR_IO_PENDING {
            MeetStep::Wait { timeout_ms: PAIR_CONNECT_MS }
        } else {
            MeetStep::Finish { outcome: Err(Failure::Os { code }) }
        },
        MeetReply::Waited { code } => if code == WAIT_OBJECT_0 {
            MeetStep::Finish { outcome: Ok(()) }
        } else if code == WAIT_TIMEOUT {
            MeetStep::Cancel
        } else {
            MeetStep::Finish { outcome: Err(Failure::Fault(Fault::PairIncomplete)) }
        },
        MeetReply::Cancelled => MeetStep::Finish {
            outcome: Err(Failure::Fault(Fault::PairIncomplete)),
        },
    }
}

/// One of the two pipes of a pair.
#[derive(Clone, Copy, Debug, PartialEq, Eq, Structural)]
pub enum Channel {
    /// Carries what `a` writes.
    Ab,
    /// Carries what `b` writes.
    Ba,
}

/// What the caller who makes a pair does next.
#[derive(Clone, Copy, Debug, PartialEq, Eq)]
pub enum PairStep {
    /// Create the server end of a pipe.
    CreateServer { channel: Channel },
    /// Open the client end of a pipe.
    OpenClient { channel: Channel },
    /// Let the server end of a pipe meet its client.
    Meet { channel: Channel, server: Handle, step: MeetStep },
    /// The pair is made, or will not be.
    Finish { outcome: Result<(StreamState, StreamState), Failure> },
}

/// What came of a step.
#[derive(Clone, Copy, Debug, PartialEq, Eq)]
pub enum PairReply {
    /// The end of a pipe, or `INVALID_HANDLE_VALUE` and the error code.
    Opened { handle: Handle, code: u32 },
    Met(MeetReply),
}

/// The ends of the two pipes of a pair; null until they are open.
#[derive(Clone, Copy, Debug, PartialEq, Eq, Structural)]
pub struct PairEnds {
    pub ab_server: Handle,
    pub ab_client: Handle,
    pub ba_server: Handle,
    pub ba_client: Handle,
}

/// A pair in the making.
#[derive(Debug)]
pub struct PairSetup {
    pub ab: PairPipe,
    pub ba: PairPipe,
    pub ends: PairEnds,
    pub step: PairStep,
}

impl PairStep {
    /// The reply is one to this step.
    pub open spec fn expects(self, reply: PairReply) -> bool {
        match self {
            PairStep::CreateServer { .. } | PairStep::OpenClient { .. } => reply is Opened,
            PairStep::Meet { step, .. } => reply matches PairReply::Met(r) && step.expects(r),
            PairStep::Finish { .. } => false,
        }
    }

    /// The ends of the pipes after a reply to this step.
    pub open spec fn ends_after(self, ends: PairEnds, reply: PairReply) -> PairEnds {
        match (self, reply) {
            (PairStep::CreateServer { channel }, PairReply::Opened { handle, .. }) => {
                if handle.invalid() {
                    ends
                } else {
                    match channel {
                        Channel::Ab => PairEnds { ab_server: handle, ..ends },
                        Channel::Ba => PairEnds { ba_server: handle, ..ends },
                    }
                }
            },
            (PairStep::OpenClient { channel }, PairReply::Opened { handle, .. }) => {
                if handle.invalid() {
                    ends
                } else {
                    match channel {
                        Channel::Ab => PairEnds { ab_client: handle, ..ends },
                        Channel::Ba => PairEnds { ba_client: handle, ..ends },
                    }
                }
            },
            _ => ends,
        }
    }

    /// The step that follows a reply: first both servers, then both clients, then both meetings.
    /// The first failure ends it all. `ends` are the ends of the pipes after the reply.
    pub open spec fn after(self, ends: PairEnds, reply: PairReply) -> PairStep {
        match (self, reply) {
            (PairStep::CreateServer { channel }, PairReply::Opened { handle, code }) => {
                if handle.invalid() {
                    PairStep::Finish { outcome: Err(Failure::Os { code }) }
                } else {
                    match channel {
                        Channel::Ab => PairStep::CreateServer { channel: Channel::Ba },
                        Channel::Ba => PairStep::OpenClient { channel: Channel::Ab },
                    }
                }
            },
            (PairStep::OpenClient { channel }, PairReply::Opened { handle, code }) => {
                if handle.invalid() {
                    PairStep::Finish { outcome: Err(Failure::Os { code }) }
                } else {
                    match channel {
                        Channel::Ab => PairStep::OpenClient { channel: Channel::Ba },
                        Channel::Ba => PairStep::Meet {
                            channel: Channel::Ab,
                            server: ends.ab_server,
                            step: MeetStep::MakeEvent,
                        },
                    }
                }
            },
            (PairStep::Meet { channel, server, step }, PairReply::Met(r)) => {
                match step.after(r) {
                    MeetStep::Finish { outcome: Ok(_) } => match channel {
                        Channel::Ab => PairStep::Meet {
                            channel: Channel::Ba,
                            server: ends.ba_server,
                            step: MeetStep::MakeEvent,
                        },
                        Channel::Ba => PairStep::Finish {
                            outcome: Ok(
                                wire_pair_spec(
                                    ends.ab_server,
                                    ends.ab_client,
                                    ends.ba_server,
                                    ends.ba_client,
                                ),
                            ),
                        },
                    },
                    MeetStep::Finish { outcome: Err(failure) } => PairStep::Finish {
                        outcome: Err(failure),
                    },
                    next => PairStep::Meet { channel, server, step: next },
                }
            },
            _ => self,
        }
    }
}

/// No end of a pair is open yet.
pub open spec fn no_ends() -> PairEnds {
    PairEnds {
        ab_server: Handle { bits: 0 },
        ab_client: Handle { bits: 0 },
        ba_server: Handle { bits: 0 },
        ba_client: Handle { bits: 0 },
    }
}

/// Begins to make a connected pair of streams over two pipes of their own, so that shutting down
/// one direction does not break the other.
pub fn pair(pid: u32, nonce: u64) -> (setup: PairSetup)
    ensures
        is_pair_pipe(setup.ab, pid, nonce, 0),
        is_pair_pipe(setup.ba, pid, nonce, 1),
        setup.ends == no_ends(),
        setup.step == (PairStep::CreateServer { channel: Channel::Ab }),
{
    let (ab, ba) = pair_pipes(pid, nonce);
    let null = Handle { bits: 0 };
    PairSetup {
        ab,
        ba,
        ends: PairEnds {
            ab_server: null,
            ab_client: null,
            ba_server: null,
            ba_client: null,
        },
        step: PairStep::CreateServer { channel: Channel::Ab },
    }
}

impl LocalStream {
    /// Begins to make a connected pair of streams.
    pub fn pair(pid: u32, nonce: u64) -> (setup: PairSetup)
        ensures
            is_pair_pipe(setup.ab, pid, nonce, 0),
            is_pair_pipe(setup.ba, pid, nonce, 1),
            setup.ends == no_ends(),
            setup.step == (PairStep::CreateServer { channel: Channel::Ab }),
    {
        pair(pid, nonce)
    }
}

impl PairSetup {
    /// Takes the reply to the current step and moves to the next one.
    pub fn advance(&mut self, reply: PairReply)
        requires
            old(self).step.expects(reply),
        ensures
            final(self).ab == old(self).ab,
            final(self).ba == old(self).ba,
            final(self).ends == old(self).step.ends_after(old(self).ends, reply),
            final(self).step == old(self).step.after(final(self).ends, reply),
    {
        let next = match (self.step, reply) {
            (PairStep::CreateServer { channel }, PairReply::Opened { handle, code }) => {
                if handle.is_invalid() {
                    PairStep::Finish { outcome: Err(Failure::Os { code }) }
                } else {
                    match channel {
                        Channel::Ab => {
                            self.ends.ab_server = handle;
                            PairStep::CreateServer { channel: Channel::Ba }
                        },
                        Channel::Ba => {
                            self.ends.ba_server = handle;
                            PairStep::OpenClient { channel: Channel::Ab }
                        },
                    }
                }
            },
            (PairStep::OpenClient { channel }, PairReply::Opened { handle, code }) => {
                if handle.is_invalid() {
                    PairStep::Finish { outcome: Err(Failure::Os { code }) }
                } else {
                    match channel {
                        Channel::Ab => {
                            self.ends.ab_client = handle;
                            PairStep::OpenClient { channel: Channel::Ba }
                        },
                        Channel::Ba => {
                            self.ends.ba_client = handle;
                            PairStep::Meet {
                                channel: Channel::Ab,
                                server: self.ends.ab_server,
                                step: MeetStep::MakeEvent,
                            }
                        },
                    }
                }
            },
            (PairStep::Meet { channel, server, step }, PairReply::Met(r)) => {
                match finish_pair_connect(step, r) {
                    MeetStep::Finish { outcome: Ok(_) } => match channel {
                        Channel::Ab => PairStep::Meet {
                            channel: Channel::Ba,
                            server: self.ends.ba_server,
                            step: MeetStep::MakeEvent,
                        },
                        Channel::Ba => PairStep::Finish {
                            outcome: Ok(
                                wire_pair(
                                    self.ends.ab_server,
                                    self.ends.ab_client,
                                    self.ends.ba_server,
                                    self.ends.ba_client,
                                ),
                            ),
                        },
                    },
                    MeetStep::Finish { outcome: Err(failure) } => PairStep::Finish {
                        outcome: Err(failure),
                    },
                    next => PairStep::Meet { channel, server, step: next },
                }
            },
            (step, _) => step,
        };
        self.step = next;
    }
}

/// The answers that the system has ready when the server end of a pipe meets its client, asked for
/// or not.
pub struct MeetAnswers {
    pub event: Result<(), u32>,
    pub connect_ok: bool,
    pub connect_error: u32,
    pub waited: u32,
}

impl MeetAnswers {
    /// The reply to a step.
    pub open spec fn reply_to(self, step: MeetStep) -> MeetReply {
        match step {
            MeetStep::MakeEvent => MeetReply::EventMade { outcome: self.event },
            MeetStep::Connect => MeetReply::Connected {
                ok: self.connect_ok,
                code: self.connect_error,
            },
            MeetStep::Wait { .. } => MeetReply::Waited { code: self.waited },
            MeetStep::Cancel | MeetStep::Finish { .. } => MeetReply::Cancelled,
        }
    }

    /// How the meeting ends.
    pub open spec fn outcome(self) -> Result<(), Failure> {
        match self.event {
            Err(code) => Err(Failure::Os { code }),
            Ok(_) => if self.connect_ok || self.connect_error == ERROR_PIPE_CONNECTED {
                Ok(())
            } else if self.connect_error != ERROR_IO_PENDING {
                Err(Failure::Os { code: self.connect_error })
            } else if self.waited == WAIT_OBJECT_0 {
                Ok(())
            } else {
                Err(Failure::Fault(Fault::PairIncomplete))
            },
        }
    }
}

/// The answers that the system has ready for the steps of making one pair, made or not.
pub struct PairAnswers {
    pub ends: PairEnds,
    /// The error that is read where an end is invalid.
    pub code: u32,
    pub ab: MeetAnswers,
    pub ba: MeetAnswers,
}

impl PairAnswers {
    /// The reply to a step.
    pub open spec fn reply_to(self, step: PairStep) -> PairReply {
        match step {
            PairStep::CreateServer { channel: Channel::Ab } => PairReply::Opened {
                handle: self.ends.ab_server,
                code: self.code,
            },
            PairStep::CreateServer { channel: Channel::Ba } => PairReply::Opened {
                handle: self.ends.ba_server,
                code: self.code,
            },
            PairStep::OpenClient { channel: Channel::Ab } => PairReply::Opened {
                handle: self.ends.ab_client,
                code: self.code,
            },
            PairStep::OpenClient { channel: Channel::Ba } => PairReply::Opened {
                handle: self.ends.ba_client,
                code: self.code,
            },
            PairStep::Meet { channel: Channel::Ab, step, .. } => PairReply::Met(
                self.ab.reply_to(step),
            ),
            PairStep::Meet { channel: Channel::Ba, step, .. } => PairReply::Met(
                self.ba.reply_to(step),
            ),
            PairStep::Finish { .. } => PairReply::Met(MeetReply::Cancelled),
        }
    }

    /// Every end can be opened.
    pub open spec fn all_open(self) -> bool {
        !self.ends.ab_server.invalid() && !self.ends.ab_client.invalid()
            && !self.ends.ba_server.invalid() && !self.ends.ba_client.invalid()
    }

    /// How making the pair ends.
    pub open spec fn outcome(self) -> Result<(StreamState, StreamState), Failure> {
        if !self.all_open() {
            Err(Failure::Os { code: self.code })
        } else {
            match (self.ab.outcome(), self.ba.outcome()) {
                (Err(failure), _) => Err(failure),
                (Ok(_), Err(failure)) => Err(failure),
                (Ok(_), Ok(_)) => Ok(
                    wire_pair_spec(
                        self.ends.ab_server,
                        self.ends.ab_client,
                        self.ends.ba_server,
                        self.ends.ba_client,
                    ),
                ),
            }
        }
    }
}

/// The step after at most `n` steps that meet `answers`.
pub open spec fn pair_run(ends: PairEnds, step: PairStep, answers: PairAnswers, n: nat) -> PairStep
    decreases n,
{
    if n == 0 || step is Finish {
        step
    } else {
        let reply = answers.reply_to(step);
        let next = step.ends_after(ends, reply);
        pair_run(next, step.after(next, reply), answers, (n - 1) as nat)
    }
}

/// Making a pair is over after at most twelve steps. It yields the two streams exactly when every
/// end opens and both servers meet their clients, and else fails with the first failure.
pub proof fn pair_is_made_as_a_whole(answers: PairAnswers)
    ensures
        pair_run(no_ends(), PairStep::CreateServer { channel: Channel::Ab }, answers, 12) == (
        PairStep::Finish { outcome: answers.outcome() }),
{
    let e0 = no_ends();
    let e1 = PairEnds { ab_server: answers.ends.ab_server, ..e0 };
    let e2 = PairEnds { ba_server: answers.ends.ba_server, ..e1 };
    let e3 = PairEnds { ab_client: answers.ends.ab_client, ..e2 };
    let s0 = PairStep::CreateServer { channel: Channel::Ab };
    let s1 = PairStep::CreateServer { channel: Channel::Ba };
    let s2 = PairStep::OpenClient { channel: Channel::Ab };
    let s3 = PairStep::OpenClient { channel: Channel::Ba };
    let meet_ab = PairStep::Meet {
        channel: Channel::Ab,
        server: answers.ends.ab_server,
        step: MeetStep::MakeEvent,
    };
    assert(pair_run(e0, s0, answers, 12) == (if answers.ends.ab_server.invalid() {
        PairStep::Finish { outcome: Err(Failure::Os { code: answers.code }) }
    } else {
        pair_run(e1, s1, answers, 11)
    })) by {
        reveal_with_fuel(pair_run, 2);
    }
    assert(pair_run(e1, s1, answers, 11) == (if answers.ends.ba_server.invalid() {
        PairStep::Finish { outcome: Err(Failure::Os { code: answers.code }) }
    } else {
        pair_run(e2, s2, answers, 10)
    })) by {
        reveal_with_fuel(pair_run, 2);
    }
    assert(pair_run(e2, s2, answers, 10) == (if answers.ends.ab_client.invalid() {
        PairStep::Finish { outcome: Err(Failure::Os { code: answers.code }) }
    } else {
        pair_run(e3, s3, answers, 9)
    })) by {
        reveal_with_fuel(pair_run, 2);
    }
    assert(pair_run(e3, s3, answers, 9) == (if answers.ends.ba_client.invalid() {
        PairStep::Finish { outcome: Err(Failure::Os { code: answers.code }) }
    } else {
        pair_run(answers.ends, meet_ab, answers, 8)
    })) by {
        reveal_with_fuel(pair_run, 2);
    }
    meetings_run(answers);
}

/// Both meetings of a pair, from the moment that all ends are open.
proof fn meetings_run(answers: PairAnswers)
    ensures
        pair_run(
            answers.ends,
            PairStep::Meet {
                channel: Channel::Ab,
                server: answers.ends.ab_server,
                step: MeetStep::MakeEvent,
            },
            answers,
            8,
        ) == (PairStep::Finish {
            outcome: match (answers.ab.outcome(), answers.ba.outcome()) {
                (Err(failure), _) => Err(failure),
                (Ok(_), Err(failure)) => Err(failure),
                (Ok(_), Ok(_)) => Ok(
                    wire_pair_spec(
                        answers.ends.ab_server,
                        answers.ends.ab_client,
                        answers.ends.ba_server,
                        answers.ends.ba_client,
                    ),
                ),
            },
        }),
{
    reveal_with_fuel(pair_run, 9);
}

/// A pair whose ends all open and meet is wired crosswise: `a` writes to the server end of the first
/// pipe and `b` reads from its client end, and the other way round for the second. Both streams
/// block until a limit is set.
pub proof fn pairs_are_wired_crosswise(answers: PairAnswers, buf_len: usize)
    requires
        answers.ends.ab_server.bits != usize::MAX,
        answers.ends.ab_client.bits != usize::MAX,
        answers.ends.ba_server.bits != usize::MAX,
        answers.ends.ba_client.bits != usize::MAX,
        answers.ab.event is Ok,
        answers.ba.event is Ok,
        answers.ab.connect_ok || answers.ab.connect_error == 535 || (answers.ab.connect_error == 997
            && answers.ab.waited == 0),
        answers.ba.connect_ok || answers.ba.connect_error == 535 || (answers.ba.connect_error == 997
            && answers.ba.waited == 0),
    ensures
        pair_run(
            no_ends(),
            PairStep::CreateServer { channel: Channel::Ab },
            answers,
            12,
        ) matches PairStep::Finish { outcome: Ok(streams) } && {
            let (a, b) = streams;
            &&& a.ends.write_end() == answers.ends.ab_server
            &&& b.ends.read_end() == answers.ends.ab_client
            &&& b.ends.write_end() == answers.ends.ba_server
            &&& a.ends.read_end() == answers.ends.ba_client
            &&& a.ends is Split && b.ends is Split
            &&& a.read_transfer(buf_len).timeout_ms == 0xffff_ffff
            &&& a.write_transfer(buf_len).timeout_ms == 0xffff_ffff
            &&& b.read_transfer(buf_len).timeout_ms == 0xffff_ffff
            &&& b.write_transfer(buf_len).timeout_ms == 0xffff_ffff
        },
{
    pair_is_made_as_a_whole(answers);
}

/// Any end that cannot be opened, and any server end that does not meet its client, leaves no pair:
/// the error is that of the end, or of the first meeting that failed.
pub proof fn pairs_need_every_end_and_meeting(answers: PairAnswers)
    ensures
        ({
            let end = pair_run(
                no_ends(),
                PairStep::CreateServer { channel: Channel::Ab },
                answers,
                12,
            );
            let open = answers.ends.ab_server.bits != usize::MAX && answers.ends.ab_client.bits
                != usize::MAX && answers.ends.ba_server.bits != usize::MAX
                && answers.ends.ba_client.bits != usize::MAX;
            let ab_met = answers.ab.connect_ok || answers.ab.connect_error == 535 || (
            answers.ab.connect_error == 997 && answers.ab.waited == 0);
            let ba_met = answers.ba.connect_ok || answers.ba.connect_error == 535 || (
            answers.ba.connect_error == 997 && answers.ba.waited == 0);
            &&& end is Finish
            &&& !open ==> end == failed_pair(Failure::Os { code: answers.code })
            &&& open && answers.ab.event is Err ==> end == failed_pair(
                Failure::Os { code: answers.ab.event->Err_0 },
            )
            &&& open && answers.ab.event is Ok && !ab_met ==> end == failed_pair(
                if answers.ab.connect_error == 997 {
                    Failure::Fault(Fault::PairIncomplete)
                } else {
                    Failure::Os { code: answers.ab.connect_error }
                },
            )
            &&& open && answers.ab.event is Ok && ab_met && answers.ba.event is Err ==> end
                == failed_pair(Failure::Os { code: answers.ba.event->Err_0 })
            &&& open && answers.ab.event is Ok && ab_met && answers.ba.event is Ok && !ba_met ==> end
                == failed_pair(
                if answers.ba.connect_error == 997 {
                    Failure::Fault(Fault::PairIncomplete)
                } else {
                    Failure::Os { code: answers.ba.connect_error }
                },
            )
        }),
{
    pair_is_made_as_a_whole(answers);
}

/// Making a pair that is over without one.
pub open spec fn failed_pair(failure: Failure) -> PairStep {
    PairStep::Finish { outcome: Err(failure) }
}

/// A pair is made in this order: both server ends, both client ends, then each server end meets its
/// client, the one of the first pipe before the one of the second.
pub proof fn pairs_open_servers_before_clients(answers: PairAnswers)
    requires
        answers.ends.ab_server.bits != usize::MAX,
        answers.ends.ab_client.bits != usize::MAX,
        answers.ends.ba_server.bits != usize::MAX,
        answers.ends.ba_client.bits != usize::MAX,
    ensures
        ({
            let first = PairStep::CreateServer { channel: Channel::Ab };
            &&& pair_run(no_ends(), first, answers, 1) == (PairStep::CreateServer {
                channel: Channel::Ba,
            })
            &&& pair_run(no_ends(), first, answers, 2) == (PairStep::OpenClient {
                channel: Channel::Ab,
            })
            &&& pair_run(no_ends(), first, answers, 3) == (PairStep::OpenClient {
                channel: Channel::Ba,
            })
            &&& pair_run(no_ends(), first, answers, 4) == (PairStep::Meet {
                channel: Channel::Ab,
                server: answers.ends.ab_server,
                step: MeetStep::MakeEvent,
            })
        }),
{
    reveal_with_fuel(pair_run, 5);
}

/// The second meeting of a pair is on the server end of its second pipe.
pub proof fn second_meeting_is_on_the_second_pipe(
    ends: PairEnds,
    server: Handle,
    step: MeetStep,
    reply: MeetReply,
)
    requires
        step.expects(reply),
        step.after(reply) == (MeetStep::Finish { outcome: Ok(()) }),
    ensures
        (PairStep::Meet { channel: Channel::Ab, server, step }).after(ends, PairReply::Met(reply))
            == (PairStep::Meet {
            channel: Channel::Ba,
            server: ends.ba_server,
            step: MeetStep::MakeEvent,
        }),
{
}

/// A server end waits for its client a second at most, only where the connect is pending, and the
/// connect is cancelled when the second is over.
pub proof fn meetings_wait_a_second(code: u32)
    ensures
        MeetStep::Connect.after(MeetReply::Connected { ok: false, code: 997 }) == (MeetStep::Wait {
            timeout_ms: 1000,
        }),
        MeetStep::Connect.after(MeetReply::Connected { ok: false, code }) is Wait <==> code == 997,
        (MeetStep::Wait { timeout_ms: 1000 }).after(MeetReply::Waited { code }) == MeetStep::Cancel
            <==> code == 258,
        (MeetStep::Wait { timeout_ms: 1000 }).after(MeetReply::Waited { code }) == (
        MeetStep::Finish { outcome: Ok(()) }) <==> code == 0,
{
}

/// The pipes of a pair let bytes through one way, from the only server end to the client end, and
/// are named apart.
pub proof fn pair_pipes_are_private_and_one_way(ab: PairPipe, ba: PairPipe, pid: u32, nonce: u64)
    requires
        is_pair_pipe(ab, pid, nonce, 0),
        is_pair_pipe(ba, pid, nonce, 1),
    ensures
        ab.instances == 1 && ba.instances == 1,
        !ab.server_reads && ab.client_reads,
        !ba.server_reads && ba.client_reads,
        ab.name@ != ba.name@,
        ab.name@.last() == 0 && ba.name@.last() == 0,
{
    pair_pipes_are_distinct(pid, nonce);
}

} // verus!
