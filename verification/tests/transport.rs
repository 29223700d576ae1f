//! Streams, listeners and pairs, carried out on an in-memory host with named pipes.
use std::collections::{HashMap, VecDeque};

use herdr::error::{map_io_error, ErrorKind, Failure, Fault};
use herdr::platform::Os;
use herdr::transport::listener::{
    instance_open_mode, AcceptReply, AcceptStep, LocalListener,
};
use herdr::transport::names::{make_pair_name, next_pair_nonce, path_to_pipe_name};
use herdr::transport::pair::{
    client_access, pair, unidir_open_mode, Channel, MeetReply, MeetStep, PairReply, PairStep,
};
use herdr::transport::prepare::{
    busy_error, prepare_next, prepare_socket_path, restrict_socket_permissions, PrepareReply,
    PrepareStep, Prepared,
};
use herdr::transport::settings::{
    duration_to_ms, effective_wait_ms, StreamSettings, TimeSpan, NEVER,
};
use herdr::transport::stream::{
    endpoint_missing, ConnectAttempt, ConnectStep, LocalStream, ShutdownHow, StreamEnds,
    StreamState,
};
use herdr::transport::transfer::{
    Completion, Direction, Transfer, TransferReply, TransferStep,
};
use herdr::utf16::decode_lossy;
use herdr::win32::{
    Handle, ERROR_ACCESS_DENIED, ERROR_BROKEN_PIPE, ERROR_FILE_NOT_FOUND, ERROR_IO_INCOMPLETE,
    ERROR_IO_PENDING, ERROR_NO_DATA, ERROR_OPERATION_ABORTED, ERROR_PIPE_BUSY,
    ERROR_PIPE_CONNECTED, ERROR_PIPE_NOT_CONNECTED, INFINITE, PIPE_BUFFER_SIZE, WAIT_OBJECT_0,
    WAIT_TIMEOUT,
};

const INVALID: Handle = Handle { bits: usize::MAX };
const ERROR_INVALID_HANDLE: u32 = 6;
const PID: u32 = 31337;

#[derive(Clone, Copy, PartialEq)]
enum Side {
    Server,
    Client,
}

#[derive(Clone, Copy)]
struct End {
    pipe: usize,
    side: Side,
    reads: bool,
    writes: bool,
}

struct Pipe {
    name: Vec<u16>,
    to_client: VecDeque<u8>,
    to_server: VecDeque<u8>,
    connected: bool,
}

/// A host with named pipes. Nobody else acts while a call waits, so a wait for something that has
/// not happened yet runs out of time.
#[derive(Default)]
struct Host {
    pipes: Vec<Pipe>,
    ends: HashMap<usize, End>,
    last_handle: usize,
    waits: Vec<u32>,
    retries: u32,
}

impl Host {
    fn add(&mut self, end: End) -> Handle {
        self.last_handle += 4;
        self.ends.insert(self.last_handle, end);
        Handle { bits: self.last_handle }
    }

    fn create_server(&mut self, name: &[u16], mode: u32) -> Handle {
        self.pipes.push(Pipe {
            name: name.to_vec(),
            to_client: VecDeque::new(),
            to_server: VecDeque::new(),
            connected: false,
        });
        let pipe = self.pipes.len() - 1;
        self.add(End { pipe, side: Side::Server, reads: mode & 1 != 0, writes: mode & 2 != 0 })
    }

    fn open_client(&mut self, name: &[u16], access: u32) -> (Handle, u32) {
        let named: Vec<usize> =
            (0..self.pipes.len()).filter(|p| self.pipes[*p].name == name).collect();
        let served: Vec<usize> = named
            .into_iter()
            .filter(|p| self.ends.values().any(|e| e.pipe == *p && e.side == Side::Server))
            .collect();
        if served.is_empty() {
            return (INVALID, ERROR_FILE_NOT_FOUND);
        }
        let Some(pipe) = served.into_iter().find(|p| !self.pipes[*p].connected) else {
            return (INVALID, ERROR_PIPE_BUSY);
        };
        self.pipes[pipe].connected = true;
        let reads = access & 0x8000_0000 != 0;
        let writes = access & 0x4000_0000 != 0;
        (self.add(End { pipe, side: Side::Client, reads, writes }), 0)
    }

    fn close(&mut self, handle: Handle) {
        self.ends.remove(&handle.bits);
    }

    fn duplicate(&mut self, handle: Handle) -> Result<Handle, u32> {
        match self.ends.get(&handle.bits).copied() {
            Some(end) => Ok(self.add(end)),
            None => Err(ERROR_INVALID_HANDLE),
        }
    }

    fn connect_server(&self, server: Handle) -> (bool, u32) {
        let end = self.ends[&server.bits];
        if self.pipes[end.pipe].connected {
            (false, ERROR_PIPE_CONNECTED)
        } else {
            (false, ERROR_IO_PENDING)
        }
    }

    fn read_file(&mut self, handle: Handle, buf: &mut [u8], len: u32) -> Completion {
        let Some(end) = self.ends.get(&handle.bits).copied() else {
            return Completion::Failed { code: ERROR_INVALID_HANDLE };
        };
        if !end.reads {
            return Completion::Failed { code: ERROR_ACCESS_DENIED };
        }
        let peer = self.ends.values().any(|e| e.pipe == end.pipe && e.side != end.side && e.writes);
        let pipe = &mut self.pipes[end.pipe];
        let queue = if end.side == Side::Server { &mut pipe.to_server } else { &mut pipe.to_client };
        if queue.is_empty() {
            let code = if peer { ERROR_IO_PENDING } else { ERROR_BROKEN_PIPE };
            return Completion::Failed { code };
        }
        let n = queue.len().min(len as usize);
        for (slot, byte) in buf.iter_mut().zip(queue.drain(..n)) {
            *slot = byte;
        }
        Completion::Done { transferred: n as u32 }
    }

    fn write_file(&mut self, handle: Handle, data: &[u8], len: u32) -> Completion {
        let Some(end) = self.ends.get(&handle.bits).copied() else {
            return Completion::Failed { code: ERROR_INVALID_HANDLE };
        };
        if !end.writes {
            return Completion::Failed { code: ERROR_ACCESS_DENIED };
        }
        if !self.ends.values().any(|e| e.pipe == end.pipe && e.side != end.side) {
            return Completion::Failed { code: ERROR_NO_DATA };
        }
        let pipe = &mut self.pipes[end.pipe];
        let queue = if end.side == Side::Server { &mut pipe.to_client } else { &mut pipe.to_server };
        if queue.len() + len as usize > PIPE_BUFFER_SIZE as usize {
            return Completion::Failed { code: ERROR_IO_PENDING };
        }
        queue.extend(&data[..len as usize]);
        Completion::Done { transferred: len }
    }

    fn drive(&mut self, mut transfer: Transfer, handle: Handle, io: &mut Io) -> Result<usize, Failure> {
        loop {
            let reply = match transfer.step {
                TransferStep::Issue { len } => TransferReply::Issued(match io {
                    Io::Read(buf) => self.read_file(handle, buf, len),
                    Io::Write(data) => self.write_file(handle, data, len),
                }),
                TransferStep::Wait { timeout_ms } => {
                    self.waits.push(timeout_ms);
                    assert_ne!(timeout_ms, INFINITE, "nobody would ever wake this wait");
                    TransferReply::Waited { code: WAIT_TIMEOUT }
                }
                TransferStep::Collect => {
                    TransferReply::Collected(Completion::Failed { code: ERROR_IO_INCOMPLETE })
                }
                TransferStep::Cancel => TransferReply::Cancelled,
                TransferStep::LastError => TransferReply::LastError { code: 1 },
                TransferStep::Finish { outcome } => return outcome,
            };
            transfer.advance(reply);
        }
    }

    fn read_by(&mut self, stream: &LocalStream, k: usize, buf: &mut [u8]) -> Result<usize, Failure> {
        let transfer = stream.read_inner(k, buf.len());
        self.drive(transfer, stream.state(k).ends.read_handle(), &mut Io::Read(buf))
    }

    fn write_by(&mut self, stream: &LocalStream, k: usize, data: &[u8]) -> Result<usize, Failure> {
        let transfer = stream.write_inner(k, data.len());
        self.drive(transfer, stream.state(k).ends.write_handle(), &mut Io::Write(data))
    }

    fn read(&mut self, stream: &LocalStream, buf: &mut [u8]) -> Result<usize, Failure> {
        self.read_by(stream, 0, buf)
    }

    fn write(&mut self, stream: &LocalStream, data: &[u8]) -> Result<usize, Failure> {
        self.write_by(stream, 0, data)
    }

    fn shutdown_by(&mut self, stream: &LocalStream, k: usize, how: ShutdownHow) {
        for handle in stream.shutdown(k, how) {
            self.close(handle);
        }
    }

    fn shutdown(&mut self, stream: &LocalStream, how: ShutdownHow) {
        self.shutdown_by(stream, 0, how)
    }

    fn drop_member(&mut self, stream: &mut LocalStream, k: usize) {
        for handle in stream.close(k) {
            self.close(handle);
        }
    }

    fn try_clone(&mut self, stream: &mut LocalStream) -> Result<usize, Failure> {
        let ends = stream.state(0).ends;
        let from = ends.read_handle();
        let read = self.duplicate(from);
        let write = match ends {
            StreamEnds::Duplex { .. } => read,
            StreamEnds::Split { .. } => self.duplicate(ends.write_handle()),
        };
        stream.try_clone(0, |handle: Handle| if handle == from { read } else { write })
    }

    fn pair(&mut self, nonce: u64) -> Result<(LocalStream, LocalStream), Failure> {
        let mut setup = pair(PID, nonce);
        loop {
            let reply = match setup.step {
                PairStep::CreateServer { channel } => {
                    let pipe = if channel == Channel::Ab { &setup.ab } else { &setup.ba };
                    assert_eq!(pipe.instances, 1);
                    let mode = unidir_open_mode(pipe.server_reads);
                    PairReply::Opened { handle: self.create_server(&pipe.name, mode), code: 0 }
                }
                PairStep::OpenClient { channel } => {
                    let pipe = if channel == Channel::Ab { &setup.ab } else { &setup.ba };
                    let access = client_access(pipe.client_reads, !pipe.client_reads);
                    let (handle, code) = self.open_client(&pipe.name, access);
                    PairReply::Opened { handle, code }
                }
                PairStep::Meet { server, step, .. } => PairReply::Met(match step {
                    MeetStep::MakeEvent => MeetReply::EventMade { outcome: Ok(()) },
                    MeetStep::Connect => {
                        let (ok, code) = self.connect_server(server);
                        MeetReply::Connected { ok, code }
                    }
                    MeetStep::Wait { .. } => MeetReply::Waited { code: WAIT_TIMEOUT },
                    MeetStep::Cancel => MeetReply::Cancelled,
                    MeetStep::Finish { .. } => panic!("the meeting is over"),
                }),
                PairStep::Finish { outcome } => {
                    return outcome.map(|(a, b)| (LocalStream::open(a), LocalStream::open(b)));
                }
            };
            setup.advance(reply);
        }
    }

    fn bind(&mut self, path: &str) -> Result<LocalListener, Failure> {
        let instance = self.create_server(&path_to_pipe_name(path), instance_open_mode());
        LocalListener::bind(path, instance, 0)
    }

    fn accept(&mut self, listener: &mut LocalListener) -> Result<LocalStream, Failure> {
        let mut step = listener.accept();
        loop {
            let reply = match step {
                AcceptStep::OpenInstance { .. } | AcceptStep::OpenNext { .. } => {
                    let handle = self.create_server(&listener.name, instance_open_mode());
                    AcceptReply::Instance { handle, code: 0 }
                }
                AcceptStep::MakeEvent { .. } => AcceptReply::EventMade { outcome: Ok(()) },
                AcceptStep::Connect { pending, .. } => {
                    let (ok, code) = self.connect_server(pending);
                    AcceptReply::Connected { ok, code }
                }
                AcceptStep::Wait { timeout_ms, .. } => {
                    self.waits.push(timeout_ms);
                    assert_ne!(timeout_ms, INFINITE, "nobody would ever wake this wait");
                    AcceptReply::Waited { code: WAIT_TIMEOUT }
                }
                AcceptStep::Cancel { .. } => AcceptReply::Cancelled,
                AcceptStep::Close { pending, .. } | AcceptStep::CloseForError { pending } => {
                    self.close(pending);
                    AcceptReply::Closed { last_error: 0 }
                }
                AcceptStep::Finish { outcome } => return outcome.map(LocalStream::open),
            };
            step = listener.accept_next(step, reply);
        }
    }

    fn connect(&mut self, path: &str) -> Result<LocalStream, ErrorKind> {
        let mut elapsed_ms = 0;
        loop {
            let (handle, code) =
                self.open_client(&path_to_pipe_name(path), client_access(true, true));
            match LocalStream::connect(ConnectAttempt { handle, code, elapsed_ms }) {
                ConnectStep::Connected { stream } => return Ok(LocalStream::open(stream)),
                ConnectStep::Retry { after_ms } => {
                    elapsed_ms += after_ms;
                    self.retries += 1;
                }
                ConnectStep::Missing => return Err(endpoint_missing(path).kind),
                ConnectStep::Fail(_) => return Err(ErrorKind::Other),
            }
        }
    }

    fn prepare(&mut self, path: &str, has_parent: bool) -> (Prepared, bool) {
        let mut made_parent = false;
        let mut step = prepare_socket_path(Os::Windows, has_parent);
        loop {
            let reply = match step {
                PrepareStep::CreateParent => {
                    made_parent = true;
                    PrepareReply::ParentCreated { outcome: Ok(()) }
                }
                PrepareStep::ProbePipe => {
                    let (handle, code) =
                        self.open_client(&path_to_pipe_name(path), client_access(true, true));
                    PrepareReply::PipeProbed { handle, code }
                }
                PrepareStep::CloseProbe { handle } => {
                    self.close(handle);
                    PrepareReply::ProbeClosed
                }
                PrepareStep::Finish(prepared) => return (prepared, made_parent),
                _ => panic!("there is no socket file on windows"),
            };
            step = prepare_next(Os::Windows, step, reply);
        }
    }
}

enum Io<'a> {
    Read(&'a mut [u8]),
    Write(&'a [u8]),
}

fn kind(failure: Failure) -> ErrorKind {
    match failure {
        Failure::Fault(fault) => fault.kind(),
        Failure::Os { .. } => ErrorKind::Other,
    }
}

fn os_error<T>(code: u32) -> Result<T, Failure> {
    Err(Failure::Os { code })
}

#[test]
fn pair_round_trips_small_payload() {
    let mut host = Host::default();
    let (a, b) = host.pair(1).expect("pair");
    let msg = b"hello";
    assert_eq!(host.write(&a, msg), Ok(5));
    let mut buf = [0u8; 5];
    assert_eq!(host.read(&b, &mut buf), Ok(5));
    assert_eq!(&buf, msg);
    assert_eq!(host.write(&b, b"back"), Ok(4));
    assert_eq!(host.read(&a, &mut buf), Ok(4));
    assert_eq!(&buf[..4], b"back");
}

#[test]
fn pair_round_trips_64k() {
    let mut host = Host::default();
    let (a, b) = host.pair(1).expect("pair");
    let payload = vec![0x55u8; 64 * 1024];
    assert_eq!(host.write(&a, &payload), Ok(payload.len()));
    let mut got = vec![0u8; 64 * 1024];
    assert_eq!(host.read(&b, &mut got), Ok(payload.len()));
    assert_eq!(got, payload);
}

#[test]
fn shutdown_write_makes_peer_see_eof() {
    let mut host = Host::default();
    let (a, b) = host.pair(1).expect("pair");
    host.shutdown(&a, ShutdownHow::Write);
    let mut buf = [0u8; 8];
    let n = host.read(&b, &mut buf).expect("read");
    assert_eq!(n, 0, "read after peer-write-shutdown should hit EOF");
    assert_eq!(host.write(&b, b"still open"), Ok(10));
    assert_eq!(host.read(&a, &mut buf), Ok(8));
}

#[test]
fn set_read_timeout_fires_on_idle() {
    let mut host = Host::default();
    let (_a, mut b) = host.pair(1).expect("pair");
    b.set_read_timeout(Some(TimeSpan { secs: 0, subsec_nanos: 50_000_000 }))
        .expect("set_read_timeout");
    let mut buf = [0u8; 1];
    let err = host.read(&b, &mut buf).expect_err("expected timeout");
    assert!(
        matches!(kind(err), ErrorKind::WouldBlock | ErrorKind::TimedOut),
        "unexpected kind: {:?}",
        kind(err)
    );
    assert_eq!(err, Failure::Fault(Fault::ReadTimedOut));
    assert_eq!(host.waits, vec![50]);
}

#[test]
fn set_nonblocking_makes_read_return_would_block() {
    let mut host = Host::default();
    let (_a, mut b) = host.pair(1).expect("pair");
    b.set_nonblocking(true).expect("set_nonblocking");
    let reader = host.try_clone(&mut b).expect("try_clone");
    let mut buf = [0u8; 1];
    let err = host.read_by(&b, reader, &mut buf).expect_err("expected wouldblock");
    assert_eq!(kind(err), ErrorKind::WouldBlock);
    assert_eq!(host.waits, vec![0]);
}

#[test]
fn settings_changed_after_a_clone_reach_both() {
    let mut host = Host::default();
    let (_a, mut b) = host.pair(1).expect("pair");
    let clone = host.try_clone(&mut b).expect("try_clone");
    assert_eq!(b.read_inner(clone, 1).timeout_ms, INFINITE);
    b.set_nonblocking(true).expect("set_nonblocking");
    let mut buf = [0u8; 1];
    for k in [0, clone] {
        let err = host.read_by(&b, k, &mut buf).expect_err("expected wouldblock");
        assert_eq!(kind(err), ErrorKind::WouldBlock);
    }
    assert_eq!(host.waits, vec![0, 0]);
    b.set_nonblocking(false).expect("set_nonblocking");
    b.set_read_timeout(Some(TimeSpan { secs: 0, subsec_nanos: 7_000_000 })).expect("set");
    b.set_write_timeout(Some(TimeSpan { secs: 2, subsec_nanos: 0 })).expect("set");
    for k in [0, clone] {
        assert_eq!(b.read_inner(k, 1).timeout_ms, 7);
        assert_eq!(b.write_inner(k, 1).timeout_ms, 2000);
    }
}

#[test]
fn dropping_one_member_leaves_the_other_usable() {
    let mut host = Host::default();
    let (a, mut b) = host.pair(1).expect("pair");
    let clone = host.try_clone(&mut b).expect("try_clone");
    host.drop_member(&mut b, 0);
    assert_eq!(host.write(&a, b"hi"), Ok(2));
    let mut buf = [0u8; 2];
    assert_eq!(host.read_by(&b, clone, &mut buf), Ok(2));
    assert_eq!(host.write_by(&b, clone, b"yo"), Ok(2));
    assert_eq!(host.read(&a, &mut buf), Ok(2));
    host.drop_member(&mut b, clone);
    assert_eq!(host.read(&a, &mut buf), Ok(0));
    assert_eq!(host.ends.len(), 2);
}

#[test]
fn members_are_closed_once_and_their_numbers_reused() {
    let next = |h: Handle| -> Result<Handle, u32> { Ok(Handle { bits: h.bits + 4 }) };
    let mut duplex = LocalStream::open(StreamState::new_duplex(Handle { bits: 4 }));
    let clone = duplex.try_clone(0, next).expect("clone");
    let third = duplex.try_clone(clone, next).expect("clone");
    assert_eq!((clone, third), (1, 2));
    assert_eq!(duplex.close(clone), vec![Handle { bits: 8 }]);
    assert_eq!(duplex.try_clone(third, next), Ok(1));
    assert_eq!(duplex.state(1).ends, StreamEnds::Duplex { handle: Handle { bits: 16 } });
    let split = StreamState::new_split(Handle { bits: 4 }, Handle { bits: 8 });
    let mut split = LocalStream::open(split);
    assert_eq!(split.close(0), vec![Handle { bits: 4 }, Handle { bits: 8 }]);
    let mut closed = LocalStream::open(StreamState::new_duplex(INVALID));
    assert!(closed.close(0).is_empty());
}

#[test]
fn try_clone_yields_independently_usable_handle() {
    let mut host = Host::default();
    let (a, mut b) = host.pair(1).expect("pair");
    let cloned = host.try_clone(&mut b).expect("clone");
    assert_ne!(b.state(cloned).ends.read_handle(), b.state(0).ends.read_handle());
    assert_eq!(host.write(&a, b"two"), Ok(3));
    host.shutdown(&a, ShutdownHow::Write);

    let mut buf = [0u8; 3];
    assert_eq!(host.read(&b, &mut buf), Ok(3));
    assert_eq!(&buf, b"two");
    let mut clone_buf = [0u8; 4];
    let n = host.read_by(&b, cloned, &mut clone_buf).expect("clone read");
    assert_eq!(n, 0, "clone should see EOF after data was consumed");
}

#[test]
fn try_clone_fails_with_the_first_duplicate_that_fails() {
    let fresh = StreamState::new_split(Handle { bits: 4 }, Handle { bits: 8 });
    let clone = |bad: usize| {
        let mut split = LocalStream::open(fresh);
        split
            .try_clone(0, move |h: Handle| {
                assert!(bad != 4 || h.bits == 4, "asked past the failure");
                if h.bits == bad { Err(6) } else { Ok(Handle { bits: h.bits + 100 }) }
            })
            .map(|c| split.state(c).ends)
    };
    assert_eq!(clone(4), os_error(6));
    assert_eq!(clone(8), os_error(6));
    let ends = StreamEnds::Split { read: Handle { bits: 104 }, write: Handle { bits: 108 } };
    assert_eq!(clone(0), Ok(ends));
    let mut duplex = LocalStream::open(StreamState::new_duplex(Handle { bits: 4 }));
    assert_eq!(duplex.try_clone(0, |_: Handle| Err(6)), os_error(6));
    let clone = duplex.try_clone(0, |h: Handle| Ok(Handle { bits: h.bits + 1 })).expect("clone");
    assert_eq!(duplex.state(clone).ends, StreamEnds::Duplex { handle: Handle { bits: 5 } });
}

#[test]
fn oversized_write_does_not_panic_when_peer_drops() {
    let mut host = Host::default();
    let (a, mut b) = host.pair(1).expect("pair");
    host.drop_member(&mut b, 0);
    let payload = vec![0xAAu8; 256 * 1024];
    let result = host.write(&a, &payload);
    if let Err(err) = result {
        assert!(
            matches!(kind(err), ErrorKind::BrokenPipe | ErrorKind::Other),
            "unexpected kind: {:?}",
            kind(err)
        );
    }
    assert_eq!(result, Err(Failure::Fault(Fault::PipeClosed)));
}

#[test]
fn writes_that_find_no_room_time_out() {
    let mut host = Host::default();
    let (mut a, _b) = host.pair(1).expect("pair");
    a.set_write_timeout(Some(TimeSpan { secs: 1, subsec_nanos: 999_999 })).expect("set");
    let payload = vec![0xAAu8; 256 * 1024];
    let err = host.write(&a, &payload).expect_err("no room");
    assert_eq!(err, Failure::Fault(Fault::WriteTimedOut));
    assert_eq!(kind(err), ErrorKind::WouldBlock);
    assert_eq!(host.waits, vec![1000]);
}

#[test]
fn bind_accept_connect_round_trip() {
    let mut host = Host::default();
    let path = "/tmp/herdr-transport-bac/bac.sock";
    let mut listener = host.bind(path).expect("bind");
    let client = host.connect(path).expect("connect");
    assert_eq!(host.write(&client, b"ping"), Ok(4));
    let server = host.accept(&mut listener).expect("accept");
    let mut buf = [0u8; 4];
    assert_eq!(host.read(&server, &mut buf), Ok(4));
    assert_eq!(host.write(&server, b"pong"), Ok(4));
    let mut resp = [0u8; 4];
    assert_eq!(host.read(&client, &mut resp), Ok(4));
    assert_eq!(&buf, b"ping");
    assert_eq!(&resp, b"pong");
    let second = host.connect(path).expect("the next instance is ready");
    assert_ne!(second.state(0).ends, client.state(0).ends);
}

#[test]
fn duplex_shutdown_closes_the_whole_connection() {
    let mut host = Host::default();
    let mut listener = host.bind("duplex").expect("bind");
    let client = host.connect("duplex").expect("connect");
    let server = host.accept(&mut listener).expect("accept");
    let handle = client.state(0).ends.read_handle();
    assert_eq!(client.shutdown(0, ShutdownHow::Write), vec![handle]);
    assert_eq!(client.shutdown(0, ShutdownHow::Both), vec![handle, handle]);
    assert_eq!(client.state(0).ends.read_handle(), handle);
    host.shutdown(&client, ShutdownHow::Write);
    let mut buf = [0u8; 4];
    assert_eq!(host.read(&server, &mut buf), Ok(0));
    assert_eq!(host.write(&server, b"x"), Err(Failure::Fault(Fault::PipeClosed)));
}

#[test]
fn listener_set_nonblocking_returns_would_block_when_idle() {
    let mut host = Host::default();
    let mut listener = host.bind("lsnb.sock").expect("bind");
    listener.set_nonblocking(true).expect("nb");
    let ready = listener.next_instance;
    let err = host.accept(&mut listener).expect_err("accept should fail");
    assert_eq!(kind(err), ErrorKind::WouldBlock);
    assert_eq!(err, Failure::Fault(Fault::NoPendingConnection));
    assert_eq!(host.waits, vec![0]);
    assert_eq!(listener.next_instance, ready);
    host.connect("lsnb.sock").expect("the same instance takes the next client");
    host.accept(&mut listener).expect("accept");
}

#[test]
fn failed_accepts_close_their_instance() {
    let mut host = Host::default();
    let mut listener = host.bind("f").expect("bind");
    let pending = listener.next_instance.expect("ready");
    let first = listener.accept();
    assert_eq!(first, AcceptStep::MakeEvent { pending, timeout_ms: INFINITE });
    let connect = listener.accept_next(first, AcceptReply::EventMade { outcome: Ok(()) });
    let failed = listener.accept_next(connect, AcceptReply::Connected { ok: false, code: 8 });
    assert_eq!(failed, AcceptStep::Close { pending, failure: Failure::Os { code: 8 } });
    let end = listener.accept_next(failed, AcceptReply::Closed { last_error: 0 });
    assert_eq!(end, AcceptStep::Finish { outcome: os_error(8) });
    let pended = AcceptReply::Connected { ok: false, code: ERROR_IO_PENDING };
    let wait = listener.accept_next(connect, pended);
    assert_eq!(wait, AcceptStep::Wait { pending, timeout_ms: INFINITE });
    let odd = listener.accept_next(wait, AcceptReply::Waited { code: 0xffff_ffff });
    assert_eq!(odd, AcceptStep::CloseForError { pending });
    let end = listener.accept_next(odd, AcceptReply::Closed { last_error: 9 });
    assert_eq!(end, AcceptStep::Finish { outcome: os_error(9) });
    assert_eq!(listener.next_instance, None);
    assert_eq!(listener.accept(), AcceptStep::OpenInstance { timeout_ms: INFINITE });
}

#[test]
fn accepts_fail_where_no_instance_or_event_can_be_made() {
    let mut host = Host::default();
    let mut listener = host.bind("g").expect("bind");
    let instance = listener.close();
    assert!(instance.is_some());
    let open = listener.accept();
    let failed = AcceptReply::Instance { handle: INVALID, code: 5 };
    assert_eq!(
        listener.accept_next(open, failed),
        AcceptStep::Finish { outcome: os_error(5) }
    );
    let pending = Handle { bits: 4 };
    let event = AcceptStep::MakeEvent { pending, timeout_ms: 0 };
    assert_eq!(
        listener.accept_next(event, AcceptReply::EventMade { outcome: Err(14) }),
        AcceptStep::Finish { outcome: os_error(14) }
    );
    let next = AcceptStep::OpenNext { pending };
    assert_eq!(listener.accept_next(next, failed), AcceptStep::Finish { outcome: os_error(5) });
    let connected = listener.accept_next(
        AcceptStep::Wait { pending, timeout_ms: 0 },
        AcceptReply::Waited { code: WAIT_OBJECT_0 },
    );
    assert_eq!(connected, next);
}

#[test]
fn bind_fails_without_an_instance() {
    assert_eq!(LocalListener::bind("p", INVALID, 231).err(), Some(Failure::Os { code: 231 }));
    let listener = LocalListener::bind("p", Handle { bits: 4 }, 0).expect("bind");
    assert_eq!(listener.name, path_to_pipe_name("p"));
    assert!(!listener.nonblocking);
}

#[test]
fn prepare_socket_path_creates_parent_dir() {
    let mut host = Host::default();
    let prepared = host.prepare("/tmp/herdr-prep/nested/dir/herdr.sock", true);
    assert_eq!(prepared, (Prepared::Ready, true));
    assert_eq!(host.prepare("herdr.sock", false), (Prepared::Ready, false));
}

#[test]
fn prepare_socket_path_rejects_live_endpoint() {
    let mut host = Host::default();
    let path = "/tmp/live.sock";
    let _listener = host.bind(path).expect("bind");
    assert_eq!(host.prepare(path, true).0, Prepared::Busy);
    let err = busy_error(format!("busy at {path}"));
    assert_eq!(err.kind, ErrorKind::AddrInUse);
    assert_eq!(err.message, "busy at /tmp/live.sock");
    assert_eq!(host.prepare(path, true).0, Prepared::Busy);
}

/// Prepares a socket file that answers a connect as given, on a host where removing it ends as
/// given; also tells whether it was removed.
fn prepare_socket_file(
    exists: bool,
    probe: Result<(), ErrorKind>,
    removal: Result<(), ErrorKind>,
) -> (Prepared, bool) {
    let mut removed = false;
    let mut step = prepare_socket_path(Os::Linux, true);
    loop {
        let reply = match step {
            PrepareStep::CreateParent => PrepareReply::ParentCreated { outcome: Ok(()) },
            PrepareStep::CheckExists => PrepareReply::Exists { exists },
            PrepareStep::ProbeSocket => PrepareReply::Probed { outcome: probe },
            PrepareStep::RemoveStale => {
                removed = true;
                PrepareReply::Removed { outcome: removal }
            }
            PrepareStep::ProbePipe | PrepareStep::CloseProbe { .. } => panic!("there is no pipe"),
            PrepareStep::Finish(prepared) => return (prepared, removed),
        };
        step = prepare_next(Os::Linux, step, reply);
    }
}

#[test]
fn only_stale_socket_files_are_removed() {
    assert_eq!(prepare_socket_file(false, Ok(()), Ok(())), (Prepared::Ready, false));
    assert_eq!(prepare_socket_file(true, Ok(()), Ok(())), (Prepared::Busy, false));
    for stale in [ErrorKind::ConnectionRefused, ErrorKind::NotFound, ErrorKind::TimedOut] {
        assert_eq!(prepare_socket_file(true, Err(stale), Ok(())), (Prepared::Ready, true));
        let gone = Err(ErrorKind::NotFound);
        assert_eq!(prepare_socket_file(true, Err(stale), gone), (Prepared::Ready, true));
        let stuck = Err(ErrorKind::Other);
        assert_eq!(prepare_socket_file(true, Err(stale), stuck), (Prepared::Failed, true));
    }
    assert_eq!(prepare_socket_file(true, Err(ErrorKind::Other), Ok(())), (Prepared::Failed, false));
    let no_dir = PrepareReply::ParentCreated { outcome: Err(ErrorKind::Other) };
    assert_eq!(
        prepare_next(Os::Linux, PrepareStep::CreateParent, no_dir),
        PrepareStep::Finish(Prepared::Failed)
    );
}

#[test]
fn restrict_socket_permissions_is_ok_after_bind() {
    let mut host = Host::default();
    let _listener = host.bind("perm.sock").expect("bind");
    assert_eq!(restrict_socket_permissions(Os::Windows, 0o600), None);
    assert_eq!(restrict_socket_permissions(Os::Linux, 0o600), Some(0o600));
}

#[test]
fn connect_returns_not_found_for_missing_endpoint() {
    let mut host = Host::default();
    let err = host.connect("/tmp/missing.sock").expect_err("connect should fail");
    assert!(
        matches!(
            err,
            ErrorKind::NotFound | ErrorKind::ConnectionRefused | ErrorKind::TimedOut
        ),
        "unexpected kind: {:?}",
        err
    );
    assert_eq!(err, ErrorKind::NotFound);
    assert_eq!(host.retries, 0);
    assert_eq!(
        endpoint_missing("/tmp/missing.sock").message,
        "no transport endpoint at /tmp/missing.sock"
    );
}

#[test]
fn connect_retries_busy_pipes_while_the_window_is_open() {
    let mut host = Host::default();
    let _listener = host.bind("busy").expect("bind");
    host.connect("busy").expect("connect");
    assert_eq!(host.connect("busy").err(), Some(ErrorKind::Other));
    assert_eq!(host.retries, 100);
    let attempt = |code, elapsed_ms| {
        LocalStream::connect(ConnectAttempt { handle: INVALID, code, elapsed_ms })
    };
    assert_eq!(attempt(ERROR_PIPE_BUSY, 0), ConnectStep::Retry { after_ms: 5 });
    assert_eq!(attempt(ERROR_PIPE_BUSY, 499), ConnectStep::Retry { after_ms: 5 });
    let gave_up = ConnectStep::Fail(Failure::Os { code: ERROR_PIPE_BUSY });
    assert_eq!(attempt(ERROR_PIPE_BUSY, 500), gave_up);
    assert_eq!(attempt(ERROR_FILE_NOT_FOUND, 0), ConnectStep::Missing);
    assert_eq!(attempt(5, 0), ConnectStep::Fail(Failure::Os { code: 5 }));
}

#[test]
fn shutdown_read_then_write_succeeds_then_fails() {
    let mut host = Host::default();
    let (a, _b) = host.pair(1).expect("pair");
    host.shutdown(&a, ShutdownHow::Both);
    let res = host.write(&a, b"after shutdown");
    if let Ok(n) = res {
        assert_eq!(n, 0);
    }
    assert_eq!(res, os_error(ERROR_INVALID_HANDLE));
}

#[test]
fn pair_two_writers_do_not_corrupt() {
    let mut host = Host::default();
    let (mut a, b) = host.pair(1).expect("pair");
    let a2 = host.try_clone(&mut a).expect("clone");
    for _ in 0..200 {
        assert_eq!(host.write(&a, b"AAAA"), Ok(4));
        assert_eq!(host.write_by(&a, a2, b"BBBB"), Ok(4));
    }
    host.shutdown(&a, ShutdownHow::Write);
    host.shutdown_by(&a, a2, ShutdownHow::Write);
    let mut sink = Vec::new();
    let mut buf = [0u8; 33];
    loop {
        let n = host.read(&b, &mut buf).expect("read_to_end");
        if n == 0 {
            break;
        }
        sink.extend_from_slice(&buf[..n]);
    }
    assert!(sink.len() >= 4 * 200, "got {} bytes", sink.len());
    assert_eq!(sink.len(), 8 * 200);
}

#[test]
fn pairs_fail_with_their_first_failure() {
    let mut setup = LocalStream::pair(1, 2);
    assert_eq!(setup.step, PairStep::CreateServer { channel: Channel::Ab });
    assert_eq!(setup.ab.name, make_pair_name(1, 2, 0));
    assert_eq!(setup.ba.name, make_pair_name(1, 2, 1));
    assert_eq!((setup.ab.instances, setup.ba.instances), (1, 1));
    setup.advance(PairReply::Opened { handle: Handle { bits: 4 }, code: 0 });
    assert_eq!(setup.step, PairStep::CreateServer { channel: Channel::Ba });
    setup.advance(PairReply::Opened { handle: INVALID, code: 5 });
    assert_eq!(setup.step, PairStep::Finish { outcome: os_error(5) });
}

#[test]
fn pair_ends_that_do_not_meet_time_out() {
    let mut setup = pair(1, 2);
    for bits in [4, 8, 12, 16] {
        setup.advance(PairReply::Opened { handle: Handle { bits }, code: 0 });
    }
    setup.advance(PairReply::Met(MeetReply::EventMade { outcome: Ok(()) }));
    setup.advance(PairReply::Met(MeetReply::Connected { ok: false, code: ERROR_IO_PENDING }));
    let server = Handle { bits: 4 };
    let waiting = |step| PairStep::Meet { channel: Channel::Ab, server, step };
    assert_eq!(setup.step, waiting(MeetStep::Wait { timeout_ms: 1000 }));
    setup.advance(PairReply::Met(MeetReply::Waited { code: WAIT_TIMEOUT }));
    assert_eq!(setup.step, waiting(MeetStep::Cancel));
    setup.advance(PairReply::Met(MeetReply::Cancelled));
    let failed = Err(Failure::Fault(Fault::PairIncomplete));
    assert_eq!(setup.step, PairStep::Finish { outcome: failed });
    assert_eq!(Fault::PairIncomplete.kind(), ErrorKind::TimedOut);
    assert_eq!(Fault::PairIncomplete.message(), "pair connect did not complete");
}

#[test]
fn pair_streams_are_wired_crosswise() {
    let mut setup = pair(1, 2);
    for bits in [4, 8, 12, 16] {
        setup.advance(PairReply::Opened { handle: Handle { bits }, code: 0 });
    }
    for _ in 0..2 {
        setup.advance(PairReply::Met(MeetReply::EventMade { outcome: Ok(()) }));
        setup.advance(PairReply::Met(MeetReply::Connected { ok: true, code: 0 }));
    }
    let PairStep::Finish { outcome: Ok((a, b)) } = setup.step else {
        panic!("the pair is made");
    };
    let split = |read, write| StreamEnds::Split {
        read: Handle { bits: read },
        write: Handle { bits: write },
    };
    assert_eq!((a.ends, b.ends), (split(16, 4), split(12, 8)));
}

#[test]
fn pair_pipes_are_one_way() {
    assert_eq!(unidir_open_mode(true), 0x4000_0001);
    assert_eq!(unidir_open_mode(false), 0x4000_0002);
    assert_eq!(client_access(true, false), 0x8000_0000);
    assert_eq!(client_access(false, true), 0x4000_0000);
    assert_eq!(client_access(true, true), 0xc000_0000);
    assert_eq!(client_access(false, false), 0);
    assert_eq!(instance_open_mode(), 0x4000_0003);
}

#[test]
fn empty_buffers_and_closed_handles_need_no_call() {
    let over = |handle| LocalStream::open(StreamState::new_duplex(handle));
    let closed = over(Handle { bits: 0 });
    assert_eq!(closed.read_inner(0, 8).step, TransferStep::Finish { outcome: Ok(0) });
    let not_connected = Err(Failure::Fault(Fault::HandleClosed));
    assert_eq!(closed.write_inner(0, 8).step, TransferStep::Finish { outcome: not_connected });
    assert_eq!(Fault::HandleClosed.kind(), ErrorKind::NotConnected);
    assert_eq!(Fault::HandleClosed.message(), "transport handle is closed");
    assert!(over(INVALID).shutdown(0, ShutdownHow::Both).is_empty());
    let open = over(Handle { bits: 4 });
    assert_eq!(open.read_inner(0, 0).step, TransferStep::Finish { outcome: Ok(0) });
    assert_eq!(open.write_inner(0, 0).step, TransferStep::Finish { outcome: Ok(0) });
    assert_eq!(open.read_inner(0, 0x1_0000_0000).step, TransferStep::Issue { len: 0 });
    assert_eq!(open.read_inner(0, 0x1_0000_0007).step, TransferStep::Issue { len: 7 });
    assert_eq!(open.write_inner(0, 0x1_0000_0007).step, TransferStep::Issue { len: u32::MAX });
    for len in [9, 0xffff_ffff] {
        let issue = TransferStep::Issue { len: len as u32 };
        assert_eq!((open.read_inner(0, len).step, open.write_inner(0, len).step), (issue, issue));
    }
}

/// The outcome of a transfer whose issue ends as given, after a wait and a result as given.
fn outcome(
    direction: Direction,
    issued: Completion,
    waited: u32,
    collected: Completion,
) -> Result<usize, Failure> {
    let handle = Handle { bits: 4 };
    let mut transfer = match direction {
        Direction::Read => Transfer::overlapped_read(handle, 16, 50),
        Direction::Write => Transfer::overlapped_write(handle, 16, 50),
    };
    loop {
        let reply = match transfer.step {
            TransferStep::Issue { len } => {
                assert_eq!(len, 16);
                TransferReply::Issued(issued)
            }
            TransferStep::Wait { timeout_ms } => {
                assert_eq!(timeout_ms, 50);
                TransferReply::Waited { code: waited }
            }
            TransferStep::Collect => TransferReply::Collected(collected),
            TransferStep::Cancel => TransferReply::Cancelled,
            TransferStep::LastError => TransferReply::LastError { code: 6 },
            TransferStep::Finish { outcome } => return outcome,
        };
        transfer.advance(reply);
    }
}

#[test]
fn transfers_end_as_the_system_says() {
    let pending = Completion::Failed { code: ERROR_IO_PENDING };
    let done = Completion::Done { transferred: 9 };
    for direction in [Direction::Read, Direction::Write] {
        assert_eq!(outcome(direction, done, 1, pending), Ok(9));
        assert_eq!(outcome(direction, pending, WAIT_OBJECT_0, done), Ok(9));
        assert_eq!(outcome(direction, pending, 0xffff_ffff, done), os_error(6));
        let denied = Completion::Failed { code: 5 };
        assert_eq!(outcome(direction, denied, 1, done), os_error(5));
        assert_eq!(outcome(direction, pending, WAIT_OBJECT_0, denied), os_error(5));
    }
    for code in [ERROR_BROKEN_PIPE, ERROR_PIPE_NOT_CONNECTED, ERROR_NO_DATA] {
        let gone = Completion::Failed { code };
        let closed = Err(Failure::Fault(Fault::PipeClosed));
        assert_eq!(outcome(Direction::Read, gone, 1, done), Ok(0));
        assert_eq!(outcome(Direction::Read, pending, WAIT_OBJECT_0, gone), Ok(0));
        assert_eq!(outcome(Direction::Write, gone, 1, done), closed);
        assert_eq!(outcome(Direction::Write, pending, WAIT_OBJECT_0, gone), closed);
    }
    let timed_out = |direction| outcome(direction, pending, WAIT_TIMEOUT, done);
    assert_eq!(timed_out(Direction::Read), Err(Failure::Fault(Fault::ReadTimedOut)));
    assert_eq!(timed_out(Direction::Write), Err(Failure::Fault(Fault::WriteTimedOut)));
}

#[test]
fn system_errors_are_mapped() {
    let mapped = |code| map_io_error(code);
    let faults = [
        (ERROR_BROKEN_PIPE, Fault::PipeClosed, ErrorKind::BrokenPipe, "pipe closed"),
        (ERROR_PIPE_NOT_CONNECTED, Fault::PipeClosed, ErrorKind::BrokenPipe, "pipe closed"),
        (ERROR_NO_DATA, Fault::PipeClosed, ErrorKind::BrokenPipe, "pipe closed"),
        (
            ERROR_OPERATION_ABORTED,
            Fault::OperationCancelled,
            ErrorKind::WouldBlock,
            "operation cancelled",
        ),
        (ERROR_IO_INCOMPLETE, Fault::IoIncomplete, ErrorKind::WouldBlock, "io incomplete"),
    ];
    for (code, fault, kind, message) in faults {
        assert_eq!(mapped(code), Failure::Fault(fault));
        let err = fault.to_io_error();
        assert_eq!((err.kind, err.message.as_str()), (kind, message));
    }
    assert_eq!(mapped(5), Failure::Os { code: 5 });
    let texts = [
        (Fault::ReadTimedOut, "read timed out"),
        (Fault::WriteTimedOut, "write timed out"),
        (Fault::NoPendingConnection, "no pending connection"),
    ];
    for (fault, message) in texts {
        assert_eq!((fault.kind(), fault.message()), (ErrorKind::WouldBlock, message));
    }
}

#[test]
fn time_limits_are_clamped_to_finite_waits() {
    let span = |secs, subsec_nanos| Some(TimeSpan { secs, subsec_nanos });
    assert_eq!(duration_to_ms(None), NEVER);
    assert_eq!(duration_to_ms(span(0, 999_999)), 0);
    assert_eq!(duration_to_ms(span(2, 5_000_000)), 2005);
    assert_eq!(duration_to_ms(span(4_294_967, 294_000_000)), 4_294_967_294);
    assert_eq!(duration_to_ms(span(4_294_967, 295_000_000)), 4_294_967_294);
    assert_eq!(duration_to_ms(span(u64::MAX, 999_999_999)), 4_294_967_294);
    assert_eq!(effective_wait_ms(true, 70), 0);
    assert_eq!(effective_wait_ms(true, NEVER), 0);
    assert_eq!(effective_wait_ms(false, NEVER), INFINITE);
    assert_eq!(effective_wait_ms(false, 70), 70);
    assert_eq!(effective_wait_ms(false, 4_294_967_295), INFINITE - 1);
    assert_eq!(effective_wait_ms(false, NEVER - 1), INFINITE - 1);
}

#[test]
fn settings_are_changed_one_at_a_time() {
    let mut settings = StreamSettings::new();
    assert_eq!((settings.read_wait_ms(), settings.write_wait_ms()), (INFINITE, INFINITE));
    settings.set_read_timeout(Some(TimeSpan { secs: 1, subsec_nanos: 0 }));
    assert_eq!((settings.read_wait_ms(), settings.write_wait_ms()), (1000, INFINITE));
    settings.set_write_timeout(Some(TimeSpan { secs: 0, subsec_nanos: 7_000_000 }));
    settings.set_read_timeout(None);
    assert_eq!((settings.read_wait_ms(), settings.write_wait_ms()), (INFINITE, 7));
    settings.set_nonblocking(true);
    assert_eq!((settings.read_wait_ms(), settings.write_wait_ms()), (0, 0));
    settings.set_nonblocking(false);
    assert_eq!(settings.write_wait_ms(), 7);
}

fn text_of(name: &[u16]) -> String {
    let (nul, units) = name.split_last().expect("a terminator");
    assert_eq!(*nul, 0);
    decode_lossy(units)
}

#[test]
fn paths_become_single_segment_pipe_names() {
    let name = |path: &str| text_of(&path_to_pipe_name(path));
    assert_eq!(name("/tmp/herdr.sock"), r"\\.\pipe\herdr-tmp_herdr.sock");
    assert_eq!(name(r"C:\Users\x\h.sock"), r"\\.\pipe\herdr-C__Users_x_h.sock");
    assert_eq!(name(r"\\.\pipe\mine"), r"\\.\pipe\mine");
    assert_eq!(name("a|b<c>d\"e?f*g"), r"\\.\pipe\herdr-a_b_c_d_e_f_g");
    assert_eq!(name("__x_"), r"\\.\pipe\herdr-x_");
    assert_eq!(name(""), r"\\.\pipe\herdr-");
    assert_eq!(name("é/𝄞"), r"\\.\pipe\herdr-é_𝄞");
    let once = name("/tmp/herdr.sock");
    assert_eq!(name(&once), once);
}

#[test]
fn pair_names_tell_pairs_apart() {
    assert_eq!(text_of(&make_pair_name(7, 8, 1)), r"\\.\pipe\herdr-pair-7-8-1");
    assert_eq!(
        text_of(&make_pair_name(u32::MAX, u64::MAX, 255)),
        r"\\.\pipe\herdr-pair-4294967295-18446744073709551615-255"
    );
    assert_ne!(make_pair_name(1, 11, 0), make_pair_name(11, 1, 0));
    assert_eq!(next_pair_nonce(2, 5, 7), 2_000_018);
    assert_eq!(next_pair_nonce(0, u64::MAX, 1), 0);
    assert_ne!(next_pair_nonce(9, 100, 1), next_pair_nonce(9, 100, 2));
}
