//! The process side of a handed-off session.

use crate::host::Handle;
use crate::kernel::{
    embed, Answer, Call, Conversing, Talk, INFINITE, WAIT_FAILED, WAIT_OBJECT_0, WAIT_TIMEOUT,
};
use crate::model::Model;
use crate::raw_pty::{list, listed, PtyError};
use vstd::prelude::*;

verus! {

/// The exit code of a process that was killed.
pub const KILLED: u32 = 1;

/// How a process ended.
#[derive(Clone, Copy, Debug, PartialEq, Eq, Structural)]
pub struct ExitStatus {
    pub exit_code: u32,
    pub success: bool,
}

impl Model for ExitStatus {
    type M = ExitStatus;

    open spec fn model(&self) -> ExitStatus {
        *self
    }
}

/// The status of a process that ended with a code. Only 0 is a success.
pub open spec fn status_of(code: u32) -> ExitStatus {
    ExitStatus { exit_code: code, success: code == 0 }
}

/// Calls `portable_pty::ExitStatus::with_exit_code` and reads the result back
/// through `exit_code` and `success`. The claim is that the code is the one
/// that went in, and that the status is a success exactly if the code is 0.
#[verifier::external_body]
fn exit_status(code: u32) -> (r: ExitStatus)
    ensures
        r == status_of(code),
{
    let status = portable_pty::ExitStatus::with_exit_code(code);
    ExitStatus { exit_code: status.exit_code(), success: status.success() }
}

/// The process behind a session.
///
/// `session_handle` is a duplicate of the handle of the process that serves the
/// pseudo terminal. Waiting for that process, not for the first client, keeps
/// the session alive until it ends, even if another client goes on in it.
/// `client_pid` is the first client; killing means terminating that client, by
/// `killer_handle`.
#[derive(Debug)]
pub struct TermHostChild {
    pub session_handle: Option<Handle>,
    pub killer_handle: Option<Handle>,
    pub client_pid: Option<u32>,
}

// ---------------------------------------------------------------------------
// Construction
// ---------------------------------------------------------------------------

/// The construction, waiting.
#[derive(Clone, Copy, Debug)]
pub enum OpenChild {
    /// For the duplicate of the session handle.
    Session { client_pid: Option<u32> },
    /// For the handle to terminate the client.
    Killer { session: Option<Handle>, client_pid: Option<u32> },
}

/// The construction from the killer handle on.
pub open spec fn open_killer(session: Option<Handle>, client_pid: Option<u32>) -> Talk<
    OpenChild,
    TermHostChild,
> {
    match client_pid {
        Some(pid) => Talk::Ask(
            Call::OpenForTermination(pid),
            OpenChild::Killer { session, client_pid },
        ),
        None => Talk::Done(
            TermHostChild { session_handle: session, killer_handle: None, client_pid },
        ),
    }
}

/// The construction. A handle that cannot be had is done without.
pub open spec fn open_child_talk(session: Handle, client_pid: Option<u32>) -> Talk<
    OpenChild,
    TermHostChild,
> {
    if session == 0 {
        open_killer(None, client_pid)
    } else {
        Talk::Ask(Call::Duplicate(session), OpenChild::Session { client_pid })
    }
}

impl Conversing<TermHostChild> for OpenChild {
    open spec fn next(self, answer: Answer<Seq<char>>) -> Talk<Self, TermHostChild> {
        match self {
            OpenChild::Session { client_pid } => open_killer(answer.handle(), client_pid),
            OpenChild::Killer { session, client_pid } => Talk::Done(
                TermHostChild {
                    session_handle: session,
                    killer_handle: answer.handle(),
                    client_pid,
                },
            ),
        }
    }
}

/// Begin to open a handle by which a process can be terminated, if there is a
/// process.
fn open_terminate_handle(session: Option<Handle>, client_pid: Option<u32>) -> (r: Talk<
    OpenChild,
    TermHostChild,
>)
    ensures
        r == open_killer(session, client_pid),
{
    match client_pid {
        Some(pid) => Talk::Ask(
            Call::OpenForTermination(pid),
            OpenChild::Killer { session, client_pid },
        ),
        None => Talk::Done(
            TermHostChild { session_handle: session, killer_handle: None, client_pid },
        ),
    }
}

impl OpenChild {
    /// Go on with the construction.
    pub fn resume(self, answer: Answer<String>) -> (r: Talk<OpenChild, TermHostChild>)
        ensures
            r == self.next(answer.model()),
    {
        match self {
            OpenChild::Session { client_pid } => open_terminate_handle(
                answer.as_handle(),
                client_pid,
            ),
            OpenChild::Killer { session, client_pid } => Talk::Done(
                TermHostChild {
                    session_handle: session,
                    killer_handle: answer.as_handle(),
                    client_pid,
                },
            ),
        }
    }
}

// ---------------------------------------------------------------------------
// Waiting
// ---------------------------------------------------------------------------

/// A look at whether the session has ended, waiting.
#[derive(Clone, Copy, Debug)]
pub enum TryWait {
    /// For the state of the process.
    Polling(Handle),
    /// For its exit code.
    Code,
}

impl Model for TryWait {
    type M = TryWait;

    open spec fn model(&self) -> TryWait {
        *self
    }
}

/// What a look finds: the status, or `None` while the process runs.
pub type Found = Result<Option<ExitStatus>, PtyError<Seq<char>>>;

/// A look at whether the session has ended. Without a handle it counts as
/// running.
pub open spec fn try_wait_talk(session: Option<Handle>) -> Talk<TryWait, Found> {
    match session {
        Some(h) => Talk::Ask(Call::Wait(h, 0), TryWait::Polling(h)),
        None => Talk::Done(Ok(None)),
    }
}

impl Conversing<Found> for TryWait {
    open spec fn next(self, answer: Answer<Seq<char>>) -> Talk<Self, Found> {
        match (self, answer) {
            (TryWait::Polling(h), Answer::Waited { result, last_error }) => if result
                == WAIT_OBJECT_0 {
                Talk::Ask(Call::ExitCode(h), TryWait::Code)
            } else if result == WAIT_TIMEOUT {
                Talk::Done(Ok(None))
            } else {
                Talk::Done(Err(PtyError::System(last_error)))
            },
            (TryWait::Code, Answer::Code(code)) => Talk::Done(Ok(Some(status_of(code)))),
            _ => Talk::Done(Err(PtyError::System(answer.failure()))),
        }
    }
}

impl TryWait {
    /// Go on with the look.
    pub fn resume(self, answer: Answer<String>) -> (r: Talk<
        TryWait,
        Result<Option<ExitStatus>, PtyError<String>>,
    >)
        ensures
            r.model() == self.next(answer.model()),
    {
        match (self, answer) {
            (TryWait::Polling(h), Answer::Waited { result, last_error }) => {
                if result == WAIT_OBJECT_0 {
                    Talk::Ask(Call::ExitCode(h), TryWait::Code)
                } else if result == WAIT_TIMEOUT {
                    Talk::Done(Ok(None))
                } else {
                    Talk::Done(Err(PtyError::System(last_error)))
                }
            },
            (TryWait::Code, Answer::Code(code)) => Talk::Done(Ok(Some(exit_status(code)))),
            (_, answer) => Talk::Done(Err(PtyError::System(answer.into_failure()))),
        }
    }
}

/// A wait for the end of the session, waiting. `clone` is a duplicate of the
/// session handle that is waited on; it is closed at the end.
#[derive(Debug)]
pub enum Wait<S> {
    /// For the duplicate.
    Cloning { session: Handle },
    /// For the process to end.
    Blocking { session: Handle, clone: Handle },
    /// For its status.
    Status { clone: Handle, look: TryWait },
    /// For the duplicate to be closed.
    Closing { result: Result<ExitStatus, PtyError<S>> },
}

impl<S: Model> Model for Wait<S> {
    type M = Wait<S::M>;

    open spec fn model(&self) -> Wait<S::M> {
        match self {
            Wait::Cloning { session } => Wait::Cloning { session: *session },
            Wait::Blocking { session, clone } => Wait::Blocking {
                session: *session,
                clone: *clone,
            },
            Wait::Status { clone, look } => Wait::Status { clone: *clone, look: *look },
            Wait::Closing { result } => Wait::Closing { result: result.model() },
        }
    }
}

/// What a wait ends with.
pub type Ended = Result<ExitStatus, PtyError<Seq<char>>>;

/// The end of a wait: the duplicate is closed first.
pub open spec fn wait_close(clone: Handle, result: Ended) -> Talk<Wait<Seq<char>>, Ended> {
    Talk::Ask(Call::Close(clone), Wait::Closing { result })
}

/// What a wait ends with, by what the look after it found.
pub open spec fn wait_result(found: Found) -> Ended {
    match found {
        Ok(Some(status)) => Ok(status),
        Ok(None) => Err(PtyError::NoExitStatus),
        Err(e) => Err(e),
    }
}

/// How a wait goes on once the blocking is over.
pub open spec fn wait_status(session: Handle, clone: Handle) -> Talk<Wait<Seq<char>>, Ended> {
    embed(
        try_wait_talk(Some(session)),
        |look| Wait::Status { clone, look },
        |found: Found| wait_close(clone, wait_result(found)),
    )
}

/// A wait for the end of the session. It blocks on a duplicate of the session
/// handle, so that the session can be killed meanwhile.
pub open spec fn wait_talk(session: Option<Handle>) -> Talk<Wait<Seq<char>>, Ended> {
    match session {
        Some(session) => Talk::Ask(Call::Duplicate(session), Wait::Cloning { session }),
        None => Talk::Done(Err(PtyError::Unwaitable)),
    }
}

impl Conversing<Ended> for Wait<Seq<char>> {
    open spec fn next(self, answer: Answer<Seq<char>>) -> Talk<Self, Ended> {
        match self {
            Wait::Cloning { session } => match answer.handle() {
                Some(clone) => Talk::Ask(
                    Call::Wait(clone, INFINITE),
                    Wait::Blocking { session, clone },
                ),
                None => Talk::Done(Err(PtyError::WaitDuplicate(answer.failure()))),
            },
            Wait::Blocking { session, clone } => match answer {
                Answer::Waited { result, last_error } => if result == WAIT_FAILED {
                    wait_close(clone, Err(PtyError::System(last_error)))
                } else {
                    wait_status(session, clone)
                },
                _ => wait_close(clone, Err(PtyError::System(answer.failure()))),
            },
            Wait::Status { clone, look } => embed(
                look.next(answer),
                |look| Wait::Status { clone, look },
                |found: Found| wait_close(clone, wait_result(found)),
            ),
            Wait::Closing { result } => Talk::Done(result),
        }
    }
}

fn close_clone(clone: Handle, result: Result<ExitStatus, PtyError<String>>) -> (r: Talk<
    Wait<String>,
    Result<ExitStatus, PtyError<String>>,
>)
    ensures
        r.model() == wait_close(clone, result.model()),
{
    Talk::Ask(Call::Close(clone), Wait::Closing { result })
}

fn conclude(found: Result<Option<ExitStatus>, PtyError<String>>) -> (r: Result<
    ExitStatus,
    PtyError<String>,
>)
    ensures
        r.model() == wait_result(found.model()),
{
    match found {
        Ok(Some(status)) => Ok(status),
        Ok(None) => Err(PtyError::NoExitStatus),
        Err(e) => Err(e),
    }
}

impl Wait<String> {
    /// Go on with the wait.
    pub fn resume(self, answer: Answer<String>) -> (r: Talk<
        Wait<String>,
        Result<ExitStatus, PtyError<String>>,
    >)
        ensures
            r.model() == self.model().next(answer.model()),
    {
        match self {
            Wait::Cloning { session } => match answer.as_handle() {
                Some(clone) => Talk::Ask(
                    Call::Wait(clone, INFINITE),
                    Wait::Blocking { session, clone },
                ),
                None => Talk::Done(Err(PtyError::WaitDuplicate(answer.into_failure()))),
            },
            Wait::Blocking { session, clone } => match answer {
                Answer::Waited { result, last_error } => {
                    if result == WAIT_FAILED {
                        close_clone(clone, Err(PtyError::System(last_error)))
                    } else {
                        Talk::Ask(
                            Call::Wait(session, 0),
                            Wait::Status { clone, look: TryWait::Polling(session) },
                        )
                    }
                },
                _ => close_clone(clone, Err(PtyError::System(answer.into_failure()))),
            },
            Wait::Status { clone, look } => match look.resume(answer) {
                Talk::Ask(c, look) => Talk::Ask(c, Wait::Status { clone, look }),
                Talk::Done(found) => close_clone(clone, conclude(found)),
            },
            Wait::Closing { result } => Talk::Done(result),
        }
    }
}

// ---------------------------------------------------------------------------
// Killing
// ---------------------------------------------------------------------------

/// A termination, waiting.
#[derive(Clone, Copy, Debug)]
pub struct Terminating {}

impl Model for Terminating {
    type M = Terminating;

    open spec fn model(&self) -> Terminating {
        *self
    }
}

/// A termination by a handle. Without a handle the process most likely has
/// ended, and there is nothing to do.
pub open spec fn terminate_talk(handle: Option<Handle>) -> Talk<
    Terminating,
    Result<(), PtyError<Seq<char>>>,
> {
    match handle {
        Some(h) => Talk::Ask(Call::Terminate(h, KILLED), Terminating {  }),
        None => Talk::Done(Ok(())),
    }
}

impl Conversing<Result<(), PtyError<Seq<char>>>> for Terminating {
    open spec fn next(self, answer: Answer<Seq<char>>) -> Talk<
        Self,
        Result<(), PtyError<Seq<char>>>,
    > {
        match answer {
            Answer::Failed(s) => Talk::Done(Err(PtyError::System(s))),
            _ => Talk::Done(Ok(())),
        }
    }
}

impl Terminating {
    /// Finish the termination.
    pub fn resume(self, answer: Answer<String>) -> (r: Talk<
        Terminating,
        Result<(), PtyError<String>>,
    >)
        ensures
            r.model() == self.next(answer.model()),
    {
        match answer {
            Answer::Failed(s) => Talk::Done(Err(PtyError::System(s))),
            _ => Talk::Done(Ok(())),
        }
    }
}

fn terminate_via(handle: Option<Handle>) -> (r: Talk<Terminating, Result<(), PtyError<String>>>)
    ensures
        r.model() == terminate_talk(handle),
{
    match handle {
        Some(h) => Talk::Ask(Call::Terminate(h, KILLED), Terminating {  }),
        None => Talk::Done(Ok(())),
    }
}

/// Terminates the client of a session. It owns its handle, so that closing it
/// touches no other killer.
#[derive(Debug)]
pub struct TermHostKiller {
    pub handle: Option<Handle>,
}

/// The copy of a killer, waiting for the duplicate of its handle.
#[derive(Clone, Copy, Debug)]
pub struct CopyKiller {}

/// The copy of a killer with the given handle. A handle that cannot be
/// duplicated is done without.
pub open spec fn copy_killer_talk(handle: Option<Handle>) -> Talk<CopyKiller, TermHostKiller> {
    match handle {
        Some(h) => Talk::Ask(Call::Duplicate(h), CopyKiller {  }),
        None => Talk::Done(TermHostKiller { handle: None }),
    }
}

impl Conversing<TermHostKiller> for CopyKiller {
    open spec fn next(self, answer: Answer<Seq<char>>) -> Talk<Self, TermHostKiller> {
        Talk::Done(TermHostKiller { handle: answer.handle() })
    }
}

impl CopyKiller {
    /// Finish the copy.
    pub fn resume(self, answer: Answer<String>) -> (r: Talk<CopyKiller, TermHostKiller>)
        ensures
            r == self.next(answer.model()),
    {
        Talk::Done(TermHostKiller { handle: answer.as_handle() })
    }
}

impl TermHostKiller {
    /// Begin a killer with a duplicate of a handle.
    pub fn dup_from(handle: Option<Handle>) -> (r: Talk<CopyKiller, TermHostKiller>)
        ensures
            r == copy_killer_talk(handle),
    {
        match handle {
            Some(h) => Talk::Ask(Call::Duplicate(h), CopyKiller {  }),
            None => Talk::Done(TermHostKiller { handle: None }),
        }
    }

    /// Begin to terminate the client.
    pub fn kill(&self) -> (r: Talk<Terminating, Result<(), PtyError<String>>>)
        ensures
            r.model() == terminate_talk(self.handle),
    {
        terminate_via(self.handle)
    }

    /// Begin another killer of the same client.
    pub fn clone_killer(&self) -> (r: Talk<CopyKiller, TermHostKiller>)
        ensures
            r == copy_killer_talk(self.handle),
    {
        TermHostKiller::dup_from(self.handle)
    }
}

// ---------------------------------------------------------------------------
// The process
// ---------------------------------------------------------------------------

impl TermHostChild {
    /// The handles that the value holds.
    pub open spec fn held(self) -> Seq<Handle> {
        listed(self.session_handle) + listed(self.killer_handle)
    }

    /// Begin the construction from the handle of the serving process and the
    /// identifier of the first client. The handle stays the caller's.
    pub fn from_raw(session_handle: Handle, client_pid: Option<u32>) -> (r: Talk<
        OpenChild,
        TermHostChild,
    >)
        ensures
            r == open_child_talk(session_handle, client_pid),
    {
        if session_handle == 0 {
            open_terminate_handle(None, client_pid)
        } else {
            Talk::Ask(Call::Duplicate(session_handle), OpenChild::Session { client_pid })
        }
    }

    /// Begin to look whether the session has ended.
    pub fn try_wait(&self) -> (r: Talk<TryWait, Result<Option<ExitStatus>, PtyError<String>>>)
        ensures
            r.model() == try_wait_talk(self.session_handle),
    {
        match self.session_handle {
            Some(h) => Talk::Ask(Call::Wait(h, 0), TryWait::Polling(h)),
            None => Talk::Done(Ok(None)),
        }
    }

    /// Begin to wait for the end of the session.
    pub fn wait(&self) -> (r: Talk<Wait<String>, Result<ExitStatus, PtyError<String>>>)
        ensures
            r.model() == wait_talk(self.session_handle),
    {
        match self.session_handle {
            Some(session) => Talk::Ask(Call::Duplicate(session), Wait::Cloning { session }),
            None => Talk::Done(Err(PtyError::Unwaitable)),
        }
    }

    /// The identifier of the first client.
    pub fn process_id(&self) -> (r: Option<u32>)
        ensures
            r == self.client_pid,
    {
        self.client_pid
    }

    /// The handle that is waited for.
    pub fn as_raw_handle(&self) -> (r: Option<Handle>)
        ensures
            r == self.session_handle,
    {
        self.session_handle
    }

    /// Begin to kill the session by terminating its first client.
    pub fn kill(&self) -> (r: Talk<Terminating, Result<(), PtyError<String>>>)
        ensures
            r.model() == terminate_talk(self.killer_handle),
    {
        terminate_via(self.killer_handle)
    }

    /// Begin a killer for the session that can be used elsewhere.
    pub fn clone_killer(&self) -> (r: Talk<CopyKiller, TermHostKiller>)
        ensures
            r == copy_killer_talk(self.killer_handle),
    {
        TermHostKiller::dup_from(self.killer_handle)
    }

    /// End the value: the handles that are to be closed, in order.
    pub fn into_handles(self) -> (r: Vec<Handle>)
        ensures
            r@ == self.held(),
    {
        let mut out: Vec<Handle> = Vec::new();
        list(&mut out, self.session_handle);
        list(&mut out, self.killer_handle);
        assert(out@ =~= self.held());
        out
    }
}

} // verus!
