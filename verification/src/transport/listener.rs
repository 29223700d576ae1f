//! A named-pipe listener: it always keeps the next pipe instance ready for a client.
//!
//! An accept is driven step by step: the caller performs the step it is told, hands back what came
//! of it, and is told the next step until the accept finishes.
use vstd::prelude::*;

use crate::error::{Failure, Fault};
use crate::transport::names::path_to_pipe_name;
#[allow(unused_imports)]
use crate::transport::names::pipe_name;
use crate::transport::stream::StreamState;
#[allow(unused_imports)]
use crate::transport::stream::StreamEnds;
#[allow(unused_imports)]
use crate::utf16::encode_utf16_spec;
use crate::win32::Handle;
#[allow(unused_imports)]
use crate::win32::{
    ERROR_IO_PENDING, ERROR_PIPE_CONNECTED, FILE_FLAG_OVERLAPPED, INFINITE, PIPE_ACCESS_DUPLEX,
    WAIT_OBJECT_0, WAIT_TIMEOUT,
};

verus! {

/// The state of a listener.
#[derive(Debug)]
pub struct LocalListener {
    /// NUL-terminated name of the pipe.
    pub name: Vec<u16>,
    /// The instance that the next client connects to.
    pub next_instance: Option<Handle>,
    pub nonblocking: bool,
}

/// What the caller of an accept does next. `pending` is the instance that the accept took.
#[derive(Clone, Copy, Debug, PartialEq, Eq)]
pub enum AcceptStep {
    /// Create an instance of the pipe to accept on.
    OpenInstance { timeout_ms: u32 },
    /// Create the event that the connect signals.
    MakeEvent { pending: Handle, timeout_ms: u32 },
    /// Start waiting for a client on the instance.
    Connect { pending: Handle, timeout_ms: u32 },
    /// Wait for the event.
    Wait { pending: Handle, timeout_ms: u32 },
    /// Cancel the connect, then wait until its cancellation has drained.
    Cancel { pending: Handle },
    /// Close the instance; the accept then fails with `failure`.
    Close { pending: Handle, failure: Failure },
    /// Close the instance, then read the thread's last error code.
    CloseForError { pending: Handle },
    /// A client is connected: create the instance for the next one.
    OpenNext { pending: Handle },
    /// The accept is over; on success with a stream over the connected instance.
    Finish { outcome: Result<StreamState, Failure> },
}

/// What came of a step.
#[derive(Clone, Copy, Debug, PartialEq, Eq)]
pub enum AcceptReply {
    /// A new instance, or `INVALID_HANDLE_VALUE` and the error code.
    Instance { handle: Handle, code: u32 },
    EventMade { outcome: Result<(), u32> },
    /// Whether the connect completed at once, and the error code if not.
    Connected { ok: bool, code: u32 },
    Waited { code: u32 },
    Cancelled,
    Closed { last_error: u32 },
}

impl AcceptStep {
    /// The reply is one to this step.
    pub open spec fn expects(self, reply: AcceptReply) -> bool {
        match self {
            AcceptStep::OpenInstance { .. } => reply is Instance,
            AcceptStep::MakeEvent { .. } => reply is EventMade,
            AcceptStep::Connect { .. } => reply is Connected,
            AcceptStep::Wait { .. } => reply is Waited,
            AcceptStep::Cancel { .. } => reply is Cancelled,
            AcceptStep::Close { .. } => reply is Closed,
            AcceptStep::CloseForError { .. } => reply is Closed,
            AcceptStep::OpenNext { .. } => reply is Instance,
            AcceptStep::Finish { .. } => false,
        }
    }

    /// The step that follows a reply.
    pub open spec fn after(self, reply: AcceptReply) -> AcceptStep {
        match (self, reply) {
            (AcceptStep::OpenInstance { timeout_ms }, AcceptReply::Instance { handle, code }) => {
                if handle.invalid() {
                    AcceptStep::Finish { outcome: Err(Failure::Os { code }) }
                } else {
                    AcceptStep::MakeEvent { pending: handle, timeout_ms }
                }
            },
            (
                AcceptStep::MakeEvent { pending, timeout_ms },
                AcceptReply::EventMade { outcome },
            ) => match outcome {
                Ok(_) => AcceptStep::Connect { pending, timeout_ms },
                Err(code) => AcceptStep::Finish { outcome: Err(Failure::Os { code }) },
            },
            (AcceptStep::Connect { pending, timeout_ms }, AcceptReply::Connected { ok, code }) => {
                if ok || code == ERROR_PIPE_CONNECTED {
                    AcceptStep::OpenNext { pending }
                } else if code == ERROR_IO_PENDING {
                    AcceptStep::Wait { pending, timeout_ms }
                } else {
                    AcceptStep::Close { pending, failure: Failure::Os { code } }
                }
            },
            (AcceptStep::Wait { pending, .. }, AcceptReply::Waited { code }) => {
                if code == WAIT_OBJECT_0 {
                    AcceptStep::OpenNext { pending }
                } else if code == WAIT_TIMEOUT {
                    AcceptStep::Cancel { pending }
                } else {
                    AcceptStep::CloseForError { pending }
                }
            },
            (AcceptStep::Cancel { .. }, _) => AcceptStep::Finish {
                outcome: Err(Failure::Fault(Fault::NoPendingConnection)),
            },
            (AcceptStep::Close { failure, .. }, _) => AcceptStep::Finish { outcome: Err(failure) },
            (AcceptStep::CloseForError { .. }, AcceptReply::Closed { last_error }) => {
                AcceptStep::Finish { outcome: Err(Failure::Os { code: last_error }) }
            },
            (AcceptStep::OpenNext { pending }, AcceptReply::Instance { handle, code }) => {
                if handle.invalid() {
                    AcceptStep::Finish { outcome: Err(Failure::Os { code }) }
                } else {
                    AcceptStep::Finish {
                        outcome: Ok(StreamState::fresh(StreamEnds::Duplex { handle: pending })),
                    }
                }
            },
            _ => self,
        }
    }

    /// The listener's ready instance after a reply to this step.
    pub open spec fn stash_after(self, stash: Option<Handle>, reply: AcceptReply) -> Option<
        Handle,
    > {
        match (self, reply) {
            (AcceptStep::Cancel { pending }, _) => Some(pending),
            (AcceptStep::OpenNext { .. }, AcceptReply::Instance { handle, .. }) => {
                if handle.invalid() {
                    stash
                } else {
                    Some(handle)
                }
            },
            _ => stash,
        }
    }
}

/// Milliseconds that an accept waits for a client.
pub open spec fn accept_timeout(nonblocking: bool) -> u32 {
    if nonblocking {
        0
    } else {
        INFINITE
    }
}

/// The first step of an accept.
pub open spec fn accept_step(ready: Option<Handle>, nonblocking: bool) -> AcceptStep {
    match ready {
        Some(pending) => AcceptStep::MakeEvent { pending, timeout_ms: accept_timeout(nonblocking) },
        None => AcceptStep::OpenInstance { timeout_ms: accept_timeout(nonblocking) },
    }
}

/// Open mode of an instance: both directions, overlapped.
pub fn instance_open_mode() -> (mode: u32)
    ensures
        mode == PIPE_ACCESS_DUPLEX | FILE_FLAG_OVERLAPPED,
{
    PIPE_ACCESS_DUPLEX | FILE_FLAG_OVERLAPPED
}

impl LocalListener {
    /// A blocking listener at `path`. `instance` is the first instance of the pipe behind the path,
    /// or `INVALID_HANDLE_VALUE` where creating it failed with `code`.
    pub fn bind(path: &str, instance: Handle, code: u32) -> (bound: Result<LocalListener, Failure>)
        ensures
            instance.invalid() ==> bound == Err::<LocalListener, Failure>(Failure::Os { code }),
            !instance.invalid() ==> (bound matches Ok(listener) && {
                &&& listener.name@ == encode_utf16_spec(pipe_name(path@)).push(0)
                &&& listener.next_instance == Some(instance)
                &&& !listener.nonblocking
            }),
    {
        if instance.is_invalid() {
            return Err(Failure::Os { code });
        }
        Ok(
            LocalListener {
                name: path_to_pipe_name(path),
                next_instance: Some(instance),
                nonblocking: false,
            },
        )
    }

    /// Switches between blocking and non-blocking accepts.
    pub fn set_nonblocking(&mut self, nonblocking: bool) -> (done: Result<(), Failure>)
        ensures
            done is Ok,
            *final(self) == (LocalListener { nonblocking, ..*old(self) }),
    {
        self.nonblocking = nonblocking;
        Ok(())
    }

    /// Begins an accept: takes the instance that is ready, or asks for a new one.
    pub fn accept(&mut self) -> (step: AcceptStep)
        ensures
            *final(self) == (LocalListener { next_instance: None, ..*old(self) }),
            step == accept_step(old(self).next_instance, old(self).nonblocking),
    {
        let timeout_ms: u32 = if self.nonblocking {
            0
        } else {
            INFINITE
        };
        match self.next_instance.take() {
            Some(pending) => AcceptStep::MakeEvent { pending, timeout_ms },
            None => AcceptStep::OpenInstance { timeout_ms },
        }
    }

    /// Takes the reply to a step of an accept and tells the next step.
    pub fn accept_next(&mut self, step: AcceptStep, reply: AcceptReply) -> (next: AcceptStep)
        requires
            step.expects(reply),
        ensures
            next == step.after(reply),
            *final(self) == (LocalListener {
                next_instance: step.stash_after(old(self).next_instance, reply),
                ..*old(self)
            }),
    {
        match (step, reply) {
            (AcceptStep::OpenInstance { timeout_ms }, AcceptReply::Instance { handle, code }) => {
                if handle.is_invalid() {
                    AcceptStep::Finish { outcome: Err(Failure::Os { code }) }
                } else {
                    AcceptStep::MakeEvent { pending: handle, timeout_ms }
                }
            },
            (
                AcceptStep::MakeEvent { pending, timeout_ms },
                AcceptReply::EventMade { outcome },
            ) => match outcome {
                Ok(_) => AcceptStep::Connect { pending, timeout_ms },
                Err(code) => AcceptStep::Finish { outcome: Err(Failure::Os { code }) },
            },
            (AcceptStep::Connect { pending, timeout_ms }, AcceptReply::Connected { ok, code }) => {
                if ok || code == ERROR_PIPE_CONNECTED {
                    AcceptStep::OpenNext { pending }
                } else if code == ERROR_IO_PENDING {
                    AcceptStep::Wait { pending, timeout_ms }
                } else {
                    AcceptStep::Close { pending, failure: Failure::Os { code } }
                }
            },
            (AcceptStep::Wait { pending, .. }, AcceptReply::Waited { code }) => {
                if code == WAIT_OBJECT_0 {
                    AcceptStep::OpenNext { pending }
                } else if code == WAIT_TIMEOUT {
                    AcceptStep::Cancel { pending }
                } else {
                    AcceptStep::CloseForError { pending }
                }
            },
            (AcceptStep::Cancel { pending }, _) => {
                self.next_instance = Some(pending);
                AcceptStep::Finish { outcome: Err(Failure::Fault(Fault::NoPendingConnection)) }
            },
            (AcceptStep::Close { failure, .. }, _) => AcceptStep::Finish { outcome: Err(failure) },
            (AcceptStep::CloseForError { .. }, AcceptReply::Closed { last_error }) => {
                AcceptStep::Finish { outcome: Err(Failure::Os { code: last_error }) }
            },
            (AcceptStep::OpenNext { pending }, AcceptReply::Instance { handle, code }) => {
                if handle.is_invalid() {
                    AcceptStep::Finish { outcome: Err(Failure::Os { code }) }
                } else {
                    self.next_instance = Some(handle);
                    AcceptStep::Finish { outcome: Ok(StreamState::new_duplex(pending)) }
                }
            },
            (step, _) => step,
        }
    }

    /// Takes the ready instance out, to be disconnected and closed with the listener.
    pub fn close(&mut self) -> (instance: Option<Handle>)
        ensures
            instance == old(self).next_instance,
            *final(self) == (LocalListener { next_instance: None, ..*old(self) }),
    {
        self.next_instance.take()
    }
}

/// The answers that the system has ready for the calls of one accept, made or not.
pub struct AcceptAnswers {
    pub instance: Handle,
    pub instance_error: u32,
    pub event: Result<(), u32>,
    pub connect_ok: bool,
    pub connect_error: u32,
    pub waited: u32,
    pub close_error: u32,
    pub next: Handle,
    pub next_error: u32,
}

impl AcceptAnswers {
    /// The reply to a step.
    pub open spec fn reply_to(self, step: AcceptStep) -> AcceptReply {
        match step {
            AcceptStep::OpenInstance { .. } => AcceptReply::Instance {
                handle: self.instance,
                code: self.instance_error,
            },
            AcceptStep::MakeEvent { .. } => AcceptReply::EventMade { outcome: self.event },
            AcceptStep::Connect { .. } => AcceptReply::Connected {
                ok: self.connect_ok,
                code: self.connect_error,
            },
            AcceptStep::Wait { .. } => AcceptReply::Waited { code: self.waited },
            AcceptStep::Cancel { .. } | AcceptStep::Finish { .. } => AcceptReply::Cancelled,
            AcceptStep::Close { .. } | AcceptStep::CloseForError { .. } => AcceptReply::Closed {
                last_error: self.close_error,
            },
            AcceptStep::OpenNext { .. } => AcceptReply::Instance {
                handle: self.next,
                code: self.next_error,
            },
        }
    }

    /// A client is there: at once, already, or before the wait runs out.
    pub open spec fn client_connects(self) -> bool {
        self.connect_ok || self.connect_error == ERROR_PIPE_CONNECTED || (self.connect_error
            == ERROR_IO_PENDING && self.waited == WAIT_OBJECT_0)
    }

    /// No client comes before the wait runs out.
    pub open spec fn nobody_comes(self) -> bool {
        !self.connect_ok && self.connect_error == ERROR_IO_PENDING && self.waited == WAIT_TIMEOUT
    }

    /// The instance that an accept of a listener with this ready instance waits on.
    pub open spec fn pending(self, ready: Option<Handle>) -> Handle {
        match ready {
            Some(handle) => handle,
            None => self.instance,
        }
    }

    /// There is an instance to wait on, and an event to wait for.
    pub open spec fn can_wait(self, ready: Option<Handle>) -> bool {
        (ready is Some || !self.instance.invalid()) && self.event is Ok
    }

    /// How an accept of a listener with this ready instance ends.
    pub open spec fn outcome(self, ready: Option<Handle>) -> Result<StreamState, Failure> {
        if ready is None && self.instance.invalid() {
            Err(Failure::Os { code: self.instance_error })
        } else if self.event is Err {
            Err(Failure::Os { code: self.event->Err_0 })
        } else if self.client_connects() {
            if self.next.invalid() {
                Err(Failure::Os { code: self.next_error })
            } else {
                Ok(StreamState::fresh(StreamEnds::Duplex { handle: self.pending(ready) }))
            }
        } else if self.connect_error != ERROR_IO_PENDING {
            Err(Failure::Os { code: self.connect_error })
        } else if self.waited == WAIT_TIMEOUT {
            Err(Failure::Fault(Fault::NoPendingConnection))
        } else {
            Err(Failure::Os { code: self.close_error })
        }
    }

    /// The instance that is ready once such an accept has ended.
    pub open spec fn ready_after(self, ready: Option<Handle>) -> Option<Handle> {
        if !self.can_wait(ready) {
            None
        } else if self.client_connects() && !self.next.invalid() {
            Some(self.next)
        } else if self.nobody_comes() {
            Some(self.pending(ready))
        } else {
            None
        }
    }
}

/// The step, and the listener's ready instance, after at most `n` steps that meet `answers`.
pub open spec fn accept_run(
    step: AcceptStep,
    stash: Option<Handle>,
    answers: AcceptAnswers,
    n: nat,
) -> (AcceptStep, Option<Handle>)
    decreases n,
{
    if n == 0 || step is Finish {
        (step, stash)
    } else {
        let reply = answers.reply_to(step);
        accept_run(step.after(reply), step.stash_after(stash, reply), answers, (n - 1) as nat)
    }
}

/// Every accept is over after at most six steps.
pub proof fn accept_finishes(step: AcceptStep, stash: Option<Handle>, answers: AcceptAnswers)
    ensures
        accept_run(step, stash, answers, 6).0 is Finish,
{
    reveal_with_fuel(accept_run, 7);
}

/// Every accept, whatever the system answers, is over after at most six steps, with the outcome and
/// the ready instance that the answers call for.
pub proof fn accept_ends_as_answered(
    ready: Option<Handle>,
    nonblocking: bool,
    answers: AcceptAnswers,
)
    ensures
        accept_run(accept_step(ready, nonblocking), None, answers, 6) == (
            AcceptStep::Finish { outcome: answers.outcome(ready) },
            answers.ready_after(ready),
        ),
{
    reveal_with_fuel(accept_run, 7);
}

/// An accept on a ready instance that meets a client yields that instance, and another one is ready
/// behind it.
pub proof fn accept_yields_the_pending_instance(
    pending: Handle,
    timeout_ms: u32,
    answers: AcceptAnswers,
)
    requires
        answers.event is Ok,
        answers.client_connects(),
        !answers.next.invalid(),
    ensures
        accept_run(AcceptStep::MakeEvent { pending, timeout_ms }, None, answers, 6) == (
            AcceptStep::Finish {
                outcome: Ok(StreamState::fresh(StreamEnds::Duplex { handle: pending })),
            },
            Some(answers.next),
        ),
{
    reveal_with_fuel(accept_run, 7);
}

/// An accept that meets no client in time fails with would-block and puts the instance it took
/// back: the listener is ready for the same clients as before.
pub proof fn idle_accept_changes_nothing(pending: Handle, timeout_ms: u32, answers: AcceptAnswers)
    requires
        answers.event is Ok,
        answers.nobody_comes(),
    ensures
        accept_run(AcceptStep::MakeEvent { pending, timeout_ms }, None, answers, 6) == (
            AcceptStep::Finish { outcome: Err(Failure::Fault(Fault::NoPendingConnection)) },
            Some(pending),
        ),
{
    reveal_with_fuel(accept_run, 7);
}

/// The time limit of an accept is set when it begins: the only wait on the way to its end has the
/// limit that the first step carries.
pub proof fn accept_keeps_its_limit(step: AcceptStep, reply: AcceptReply)
    requires
        step.expects(reply),
        step.after(reply) is Wait,
    ensures
        step is Connect,
        step->Connect_timeout_ms == step.after(reply)->Wait_timeout_ms,
{
}

/// The instance that an accept has in hand at a step.
pub open spec fn pending_instance(step: AcceptStep) -> Option<Handle> {
    match step {
        AcceptStep::MakeEvent { pending, .. } => Some(pending),
        AcceptStep::Connect { pending, .. } => Some(pending),
        AcceptStep::Wait { pending, .. } => Some(pending),
        AcceptStep::Cancel { pending } => Some(pending),
        AcceptStep::Close { pending, .. } => Some(pending),
        AcceptStep::CloseForError { pending } => Some(pending),
        AcceptStep::OpenNext { pending } => Some(pending),
        AcceptStep::OpenInstance { .. } | AcceptStep::Finish { .. } => None,
    }
}

/// From the connect on, an accept keeps its instance in hand until a step that puts it back, closes
/// it or has a client on it: a connect or a wait never ends the accept by itself.
pub proof fn connecting_instance_is_never_dropped(step: AcceptStep, reply: AcceptReply)
    requires
        step.expects(reply),
        step is Connect || step is Wait,
    ensures
        pending_instance(step.after(reply)) == pending_instance(step),
        !(step.after(reply) is Finish),
{
}

/// An accept begins on the instance that is ready, or asks for one where none is, and carries the
/// limit that the listener is set to: none of the time when non-blocking, else all of it.
pub proof fn accepts_begin_on_the_ready_instance(ready: Option<Handle>, nonblocking: bool)
    ensures
        ({
            let limit: u32 = if nonblocking {
                0
            } else {
                0xffff_ffff
            };
            &&& ready matches Some(handle) ==> accept_step(ready, nonblocking) == (
            AcceptStep::MakeEvent { pending: handle, timeout_ms: limit })
            &&& ready is None ==> accept_step(ready, nonblocking) == (AcceptStep::OpenInstance {
                timeout_ms: limit,
            })
        }),
{
}

/// A client that is there at once, was there already, or comes while the accept waits gets the
/// instance that was ready: the accept yields a blocking stream over it, and the instance created
/// then is ready for the next client. Where that one cannot be created the accept fails with its
/// error.
pub proof fn clients_get_the_ready_instance(
    ready: Handle,
    nonblocking: bool,
    answers: AcceptAnswers,
    buf_len: usize,
)
    requires
        answers.event is Ok,
        answers.connect_ok || answers.connect_error == 535 || (answers.connect_error == 997
            && answers.waited == 0),
    ensures
        ({
            let (step, stash) = accept_run(accept_step(Some(ready), nonblocking), None, answers, 6);
            &&& answers.next.bits != usize::MAX ==> {
                &&& stash == Some(answers.next)
                &&& step matches AcceptStep::Finish { outcome: Ok(stream) } && {
                    &&& stream.ends == (StreamEnds::Duplex { handle: ready })
                    &&& stream.read_transfer(buf_len).timeout_ms == 0xffff_ffff
                    &&& stream.write_transfer(buf_len).timeout_ms == 0xffff_ffff
                }
            }
            &&& answers.next.bits == usize::MAX ==> {
                &&& stash is None
                &&& step == (AcceptStep::Finish {
                    outcome: Err(Failure::Os { code: answers.next_error }),
                })
            }
        }),
{
    reveal_with_fuel(accept_run, 7);
}

/// Without a client an accept yields no stream. Where the wait runs out it would block, and the
/// instance is ready again; any other failure of the connect or of the wait is the failure of the
/// accept, and no instance is ready.
pub proof fn accepts_without_a_client_yield_nothing(
    ready: Handle,
    nonblocking: bool,
    answers: AcceptAnswers,
)
    requires
        answers.event is Ok,
        !answers.connect_ok,
        answers.connect_error != 535,
        answers.connect_error == 997 ==> answers.waited != 0,
    ensures
        ({
            let (step, stash) = accept_run(accept_step(Some(ready), nonblocking), None, answers, 6);
            let pended = answers.connect_error == 997;
            &&& pended && answers.waited == 258 ==> stash == Some(ready) && step == (
            AcceptStep::Finish { outcome: Err(Failure::Fault(Fault::NoPendingConnection)) })
            &&& pended && answers.waited != 258 ==> stash is None && step == (AcceptStep::Finish {
                outcome: Err(Failure::Os { code: answers.close_error }),
            })
            &&& !pended ==> stash is None && step == (AcceptStep::Finish {
                outcome: Err(Failure::Os { code: answers.connect_error }),
            })
        }),
{
    reveal_with_fuel(accept_run, 7);
}

/// An accept without a ready instance is one on the instance that it creates; where it cannot create
/// one, or has no event to wait for, it fails with that error and nothing is ready.
pub proof fn accepts_create_a_missing_instance(nonblocking: bool, answers: AcceptAnswers)
    ensures
        answers.instance.bits == usize::MAX ==> accept_run(
            accept_step(None, nonblocking),
            None,
            answers,
            6,
        ) == (
            AcceptStep::Finish { outcome: Err(Failure::Os { code: answers.instance_error }) },
            None::<Handle>,
        ),
        answers.instance.bits != usize::MAX ==> accept_run(
            accept_step(None, nonblocking),
            None,
            answers,
            6,
        ) == accept_run(accept_step(Some(answers.instance), nonblocking), None, answers, 6),
        forall|ready: Handle, code: u32|
            answers.event == Err::<(), u32>(code) ==> #[trigger] accept_run(
                accept_step(Some(ready), nonblocking),
                None,
                answers,
                6,
            ) == (
                #[trigger] failed_accept(code),
                None::<Handle>,
            ),
{
    reveal_with_fuel(accept_run, 7);
}

/// An accept that is over with an error of the system.
pub open spec fn failed_accept(code: u32) -> AcceptStep {
    AcceptStep::Finish { outcome: Err(Failure::Os { code }) }
}

/// Every call of an accept is made on its own instance: the one that is connected, waited on,
/// cancelled or closed is the one that the accept began on, and it waits at most as long as it began
/// with.
pub proof fn accepts_act_on_their_instance(
    ready: Handle,
    nonblocking: bool,
    answers: AcceptAnswers,
    n: nat,
)
    requires
        n <= 6,
    ensures
        ({
            let step = accept_run(accept_step(Some(ready), nonblocking), None, answers, n).0;
            let limit: u32 = if nonblocking {
                0
            } else {
                0xffff_ffff
            };
            &&& step matches AcceptStep::Connect { pending, timeout_ms } ==> pending == ready
                && timeout_ms == limit
            &&& step matches AcceptStep::Wait { pending, timeout_ms } ==> pending == ready
                && timeout_ms == limit
            &&& step matches AcceptStep::Cancel { pending } ==> pending == ready
            &&& step matches AcceptStep::Close { pending, .. } ==> pending == ready
            &&& step matches AcceptStep::CloseForError { pending } ==> pending == ready
            &&& step matches AcceptStep::OpenNext { pending } ==> pending == ready
            &&& !(step is OpenInstance)
        }),
{
    reveal_with_fuel(accept_run, 7);
}

/// An accept cancels a connect that is still pending before it puts the instance back, and closes
/// the instance before it fails for any other reason than a missing event or next instance.
pub proof fn accepts_clean_up_before_they_fail(
    ready: Handle,
    nonblocking: bool,
    answers: AcceptAnswers,
)
    requires
        answers.event is Ok,
        !answers.connect_ok,
        answers.connect_error != 535,
    ensures
        answers.connect_error == 997 && answers.waited == 258 ==> accept_run(
            accept_step(Some(ready), nonblocking),
            None,
            answers,
            3,
        ).0 == (AcceptStep::Cancel { pending: ready }),
        answers.connect_error == 997 && answers.waited != 258 && answers.waited != 0 ==> accept_run(
            accept_step(Some(ready), nonblocking),
            None,
            answers,
            3,
        ).0 == (AcceptStep::CloseForError { pending: ready }),
        answers.connect_error != 997 ==> accept_run(
            accept_step(Some(ready), nonblocking),
            None,
            answers,
            2,
        ).0 == (AcceptStep::Close {
            pending: ready,
            failure: Failure::Os { code: answers.connect_error },
        }),
{
    reveal_with_fuel(accept_run, 4);
}

/// An accept touches the listener's ready instance only where it puts its own back or has created
/// the next one; whatever is ready meanwhile stays.
pub proof fn accepts_leave_other_instances_alone(
    step: AcceptStep,
    stash: Option<Handle>,
    reply: AcceptReply,
)
    requires
        step.expects(reply),
    ensures
        ({
            let after = step.stash_after(stash, reply);
            &&& step matches AcceptStep::Cancel { pending } ==> after == Some(pending)
            &&& step is OpenNext ==> (reply matches AcceptReply::Instance { handle, .. } && (
            if handle.bits == usize::MAX {
                after == stash
            } else {
                after == Some(handle)
            }))
            &&& !(step is Cancel) && !(step is OpenNext) ==> after == stash
        }),
{
}

} // verus!
