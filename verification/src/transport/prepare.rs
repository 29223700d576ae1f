//! Making a path ready to be bound, and who may open it then.
//!
//! Preparing is driven step by step: the caller performs the step it is told, hands back what came
//! of it, and is told the next step until the path is ready or cannot be made so.
use vstd::prelude::*;

use crate::error::{make_io_err, ErrorKind, IoError};
use crate::platform::Os;
use crate::win32::Handle;
#[allow(unused_imports)]
use crate::win32::ERROR_PIPE_BUSY;

verus! {

/// How preparing a path ended.
#[derive(Clone, Copy, Debug, PartialEq, Eq, Structural)]
pub enum Prepared {
    /// The path can be bound.
    Ready,
    /// A server listens at the path.
    Busy,
    /// The last step's error is the error of the whole.
    Failed,
}

/// What the caller does next to prepare a path.
#[derive(Clone, Copy, Debug, PartialEq, Eq, Structural)]
pub enum PrepareStep {
    /// Create the parent directory and its ancestors.
    CreateParent,
    /// Look whether the socket file exists.
    CheckExists,
    /// Connect to the socket file.
    ProbeSocket,
    /// Remove the stale socket file.
    RemoveStale,
    /// Open the pipe behind the path.
    ProbePipe,
    /// Close the handle that the probe opened.
    CloseProbe { handle: Handle },
    /// Preparing is over.
    Finish(Prepared),
}

/// What came of a step. An error is given by its category.
#[derive(Clone, Copy, Debug, PartialEq, Eq)]
pub enum PrepareReply {
    ParentCreated { outcome: Result<(), ErrorKind> },
    Exists { exists: bool },
    Probed { outcome: Result<(), ErrorKind> },
    Removed { outcome: Result<(), ErrorKind> },
    /// The probe's handle, and the error code when it is invalid.
    PipeProbed { handle: Handle, code: u32 },
    ProbeClosed,
}

/// Failures to connect that show nobody listens at a socket file.
pub open spec fn shows_stale(kind: ErrorKind) -> bool {
    kind == ErrorKind::ConnectionRefused || kind == ErrorKind::NotFound || kind
        == ErrorKind::TimedOut
}

/// The first step past the parent directory.
pub open spec fn first_probe(os: Os) -> PrepareStep {
    if os == Os::Windows {
        PrepareStep::ProbePipe
    } else {
        PrepareStep::CheckExists
    }
}

impl PrepareStep {
    /// The reply is one to this step.
    pub open spec fn expects(self, reply: PrepareReply) -> bool {
        match self {
            PrepareStep::CreateParent => reply is ParentCreated,
            PrepareStep::CheckExists => reply is Exists,
            PrepareStep::ProbeSocket => reply is Probed,
            PrepareStep::RemoveStale => reply is Removed,
            PrepareStep::ProbePipe => reply is PipeProbed,
            PrepareStep::CloseProbe { .. } => reply is ProbeClosed,
            PrepareStep::Finish(_) => false,
        }
    }

    /// The step that follows a reply.
    pub open spec fn after(self, os: Os, reply: PrepareReply) -> PrepareStep {
        match reply {
            PrepareReply::ParentCreated { outcome } => match outcome {
                Ok(_) => first_probe(os),
                Err(_) => PrepareStep::Finish(Prepared::Failed),
            },
            PrepareReply::Exists { exists } => if exists {
                PrepareStep::ProbeSocket
            } else {
                PrepareStep::Finish(Prepared::Ready)
            },
            PrepareReply::Probed { outcome } => match outcome {
                Ok(_) => PrepareStep::Finish(Prepared::Busy),
                Err(kind) => if shows_stale(kind) {
                    PrepareStep::RemoveStale
                } else {
                    PrepareStep::Finish(Prepared::Failed)
                },
            },
            PrepareReply::Removed { outcome } => if outcome is Ok || outcome == Err::<
                (),
                ErrorKind,
            >(ErrorKind::NotFound) {
                PrepareStep::Finish(Prepared::Ready)
            } else {
                PrepareStep::Finish(Prepared::Failed)
            },
            PrepareReply::PipeProbed { handle, code } => if !handle.invalid() {
                PrepareStep::CloseProbe { handle }
            } else if code == ERROR_PIPE_BUSY {
                PrepareStep::Finish(Prepared::Busy)
            } else {
                PrepareStep::Finish(Prepared::Ready)
            },
            PrepareReply::ProbeClosed => PrepareStep::Finish(Prepared::Busy),
        }
    }
}

/// Begins to prepare a path as a local endpoint: its parent directory first, if it has one.
pub fn prepare_socket_path(os: Os, has_parent: bool) -> (step: PrepareStep)
    ensures
        step == if has_parent {
            PrepareStep::CreateParent
        } else {
            first_probe(os)
        },
{
    if has_parent {
        PrepareStep::CreateParent
    } else if os == Os::Windows {
        PrepareStep::ProbePipe
    } else {
        PrepareStep::CheckExists
    }
}

/// Takes the reply to a step of preparing a path and tells the next step.
///
/// Off windows, a socket file that nobody listens at is removed; one with a server behind it is
/// busy. On windows there is no file to remove: a pipe that can be opened, or whose instances are
/// all taken, is busy.
pub fn prepare_next(os: Os, step: PrepareStep, reply: PrepareReply) -> (next: PrepareStep)
    requires
        step.expects(reply),
    ensures
        next == step.after(os, reply),
{
    match reply {
        PrepareReply::ParentCreated { outcome } => match outcome {
            Ok(_) => prepare_socket_path(os, false),
            Err(_) => PrepareStep::Finish(Prepared::Failed),
        },
        PrepareReply::Exists { exists } => if exists {
            PrepareStep::ProbeSocket
        } else {
            PrepareStep::Finish(Prepared::Ready)
        },
        PrepareReply::Probed { outcome } => match outcome {
            Ok(_) => PrepareStep::Finish(Prepared::Busy),
            Err(kind) => match kind {
                ErrorKind::ConnectionRefused
                | ErrorKind::NotFound
                | ErrorKind::TimedOut => PrepareStep::RemoveStale,
                _ => PrepareStep::Finish(Prepared::Failed),
            },
        },
        PrepareReply::Removed { outcome } => match outcome {
            Ok(_) => PrepareStep::Finish(Prepared::Ready),
            Err(kind) => if kind == ErrorKind::NotFound {
                PrepareStep::Finish(Prepared::Ready)
            } else {
                PrepareStep::Finish(Prepared::Failed)
            },
        },
        PrepareReply::PipeProbed { handle, code } => if !handle.is_invalid() {
            PrepareStep::CloseProbe { handle }
        } else if code == ERROR_PIPE_BUSY {
            PrepareStep::Finish(Prepared::Busy)
        } else {
            PrepareStep::Finish(Prepared::Ready)
        },
        PrepareReply::ProbeClosed => PrepareStep::Finish(Prepared::Busy),
    }
}

/// The error for a path at which a server listens, with the caller's message.
pub fn busy_error(message: String) -> (err: IoError)
    ensures
        err.kind == ErrorKind::AddrInUse,
        err.message@ == message@,
{
    make_io_err(ErrorKind::AddrInUse, message)
}

/// The file mode to give the endpoint so that only its owner may open it, if one is to be set.
///
/// Off windows that is `mode`. A named pipe already restricts access to the user who made it, so on
/// windows there is nothing to do.
pub fn restrict_socket_permissions(os: Os, mode: u32) -> (chmod: Option<u32>)
    ensures
        chmod == if os == Os::Windows {
            None
        } else {
            Some(mode)
        },
{
    if os == Os::Windows {
        None
    } else {
        Some(mode)
    }
}

/// A socket file is removed only after a connect to it has shown that nobody listens there.
pub proof fn only_stale_files_are_removed(os: Os, step: PrepareStep, reply: PrepareReply)
    requires
        step.expects(reply),
    ensures
        step.after(os, reply) is RemoveStale <==> step is ProbeSocket && (reply matches
            PrepareReply::Probed { outcome: Err(kind) } && shows_stale(kind)),
{
}

/// The answers that the system has ready for the steps of preparing one path, made or not.
pub struct PrepareAnswers {
    pub parent: Result<(), ErrorKind>,
    pub exists: bool,
    pub socket: Result<(), ErrorKind>,
    pub removed: Result<(), ErrorKind>,
    pub pipe: Handle,
    pub pipe_error: u32,
}

impl PrepareAnswers {
    /// The reply to a step.
    pub open spec fn reply_to(self, step: PrepareStep) -> PrepareReply {
        match step {
            PrepareStep::CreateParent => PrepareReply::ParentCreated { outcome: self.parent },
            PrepareStep::CheckExists => PrepareReply::Exists { exists: self.exists },
            PrepareStep::ProbeSocket => PrepareReply::Probed { outcome: self.socket },
            PrepareStep::RemoveStale => PrepareReply::Removed { outcome: self.removed },
            PrepareStep::ProbePipe => PrepareReply::PipeProbed {
                handle: self.pipe,
                code: self.pipe_error,
            },
            PrepareStep::CloseProbe { .. } | PrepareStep::Finish(_) => PrepareReply::ProbeClosed,
        }
    }

    /// A server listens at the path.
    pub open spec fn live(self, os: Os) -> bool {
        if os == Os::Windows {
            !self.pipe.invalid() || self.pipe_error == ERROR_PIPE_BUSY
        } else {
            self.exists && self.socket is Ok
        }
    }
}

/// The step after at most `n` steps that meet `answers`.
pub open spec fn prepare_run(
    os: Os,
    step: PrepareStep,
    answers: PrepareAnswers,
    n: nat,
) -> PrepareStep
    decreases n,
{
    if n == 0 || step is Finish {
        step
    } else {
        prepare_run(os, step.after(os, answers.reply_to(step)), answers, (n - 1) as nat)
    }
}

/// Preparing a path ends after at most four steps, and past the parent directory it finds the path
/// busy exactly when a server listens there.
pub proof fn prepare_finds_live_endpoints(os: Os, answers: PrepareAnswers)
    ensures
        prepare_run(os, PrepareStep::CreateParent, answers, 4) is Finish,
        answers.parent is Err ==> prepare_run(os, PrepareStep::CreateParent, answers, 4)
            == PrepareStep::Finish(Prepared::Failed),
        answers.parent is Ok ==> (prepare_run(os, PrepareStep::CreateParent, answers, 4)
            == PrepareStep::Finish(Prepared::Busy) <==> answers.live(os)),
        prepare_run(os, first_probe(os), answers, 3) == PrepareStep::Finish(Prepared::Busy)
            <==> answers.live(os),
{
    reveal_with_fuel(prepare_run, 5);
}

/// Off windows, a path whose parent directory is there ends up ready, busy or failed by what stands
/// there: nothing leaves it ready; a server that answers leaves it busy and untouched; a file that
/// nobody answers at is removed, and the path is ready once it is gone; any other answer fails and
/// leaves the file alone.
pub proof fn socket_files_decide_off_windows(os: Os, answers: PrepareAnswers)
    requires
        os != Os::Windows,
        answers.parent is Ok,
    ensures
        ({
            let end = prepare_run(os, PrepareStep::CreateParent, answers, 4);
            let second = prepare_run(os, PrepareStep::CreateParent, answers, 3);
            let dead = answers.socket == Err::<(), ErrorKind>(ErrorKind::ConnectionRefused)
                || answers.socket == Err::<(), ErrorKind>(ErrorKind::NotFound) || answers.socket
                == Err::<(), ErrorKind>(ErrorKind::TimedOut);
            let gone = answers.removed is Ok || answers.removed == Err::<(), ErrorKind>(
                ErrorKind::NotFound,
            );
            &&& !answers.exists ==> end == PrepareStep::Finish(Prepared::Ready)
            &&& answers.exists && answers.socket is Ok ==> end == PrepareStep::Finish(Prepared::Busy)
            &&& answers.exists && dead ==> second == PrepareStep::RemoveStale
            &&& answers.exists && dead && gone ==> end == PrepareStep::Finish(Prepared::Ready)
            &&& answers.exists && dead && !gone ==> end == PrepareStep::Finish(Prepared::Failed)
            &&& answers.exists && answers.socket is Err && !dead ==> end == PrepareStep::Finish(
                Prepared::Failed,
            )
            &&& !(answers.exists && dead) ==> second is Finish
        }),
{
    reveal_with_fuel(prepare_run, 5);
}

/// On windows a path whose parent directory is there is busy exactly where its pipe can be opened or
/// all of the pipe's instances are taken, and ready everywhere else. A handle that the look opened
/// is closed, and no file is looked at or removed.
pub proof fn pipes_decide_on_windows(answers: PrepareAnswers, n: nat)
    requires
        answers.parent is Ok,
        n <= 4,
    ensures
        ({
            let end = prepare_run(Os::Windows, PrepareStep::CreateParent, answers, 4);
            let step = prepare_run(Os::Windows, PrepareStep::CreateParent, answers, n);
            let opened = answers.pipe.bits != usize::MAX;
            &&& opened || answers.pipe_error == 231 ==> end == PrepareStep::Finish(Prepared::Busy)
            &&& !opened && answers.pipe_error != 231 ==> end == PrepareStep::Finish(Prepared::Ready)
            &&& opened ==> prepare_run(Os::Windows, PrepareStep::CreateParent, answers, 2) == (
            PrepareStep::CloseProbe { handle: answers.pipe })
            &&& !(step is CheckExists || step is ProbeSocket || step is RemoveStale)
        }),
{
    reveal_with_fuel(prepare_run, 5);
}

/// A parent directory that cannot be created ends it all before anything is looked at, on any host.
pub proof fn missing_parents_fail_first(os: Os, answers: PrepareAnswers)
    requires
        answers.parent is Err,
    ensures
        prepare_run(os, PrepareStep::CreateParent, answers, 1) == PrepareStep::Finish(
            Prepared::Failed,
        ),
        first_probe(os) == PrepareStep::ProbePipe <==> os == Os::Windows,
        first_probe(os) == PrepareStep::CheckExists <==> os != Os::Windows,
{
    reveal_with_fuel(prepare_run, 2);
}

} // verus!
