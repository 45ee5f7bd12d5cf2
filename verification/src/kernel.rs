//! Dialogues with the kernel about handles and processes.
//!
//! As with [`machine`](crate::machine), an operation never calls the kernel
//! itself: it asks for one call at a time and is resumed with the answer.

use crate::host::Handle;
use crate::model::Model;
use vstd::prelude::*;

verus! {

/// What `WaitForSingleObject` returns when the object is signalled.
pub const WAIT_OBJECT_0: u32 = 0;

/// What it returns when the time is up.
pub const WAIT_TIMEOUT: u32 = 258;

/// What it returns when it failed.
pub const WAIT_FAILED: u32 = 0xffff_ffff;

/// The time limit that never passes.
pub const INFINITE: u32 = 0xffff_ffff;

/// A call that an operation asks for.
#[derive(Clone, Copy, Debug, PartialEq, Eq, Structural)]
pub enum Call {
    /// Duplicate a handle: `Handle`, or a failure.
    Duplicate(Handle),
    /// Close a handle: `Done`.
    Close(Handle),
    /// Open a process with the right to terminate it: `Handle`, or a failure.
    OpenForTermination(u32),
    /// Terminate a process with an exit code: `Done`, or a failure.
    Terminate(Handle, u32),
    /// Wait for an object, for so many milliseconds: `Waited`.
    Wait(Handle, u32),
    /// The exit code of a process: `Code`, or a failure.
    ExitCode(Handle),
    /// The identifier of a process: `Code`, 0 if there is none.
    ProcessId(Handle),
    /// Create a pipe: `Pipe`, or a failure. The flags tell which end a child
    /// process inherits.
    CreatePipe { inherit_read: bool, inherit_write: bool },
    /// Write the caller's two ends through its out parameters: `Done`.
    Publish { in_handle: Handle, out_handle: Handle },
    /// Record that a handoff was received: `Done`.
    MarkReceived,
    /// The size that is configured for new windows: `Size`.
    ConfiguredSize,
}

/// The answer to a call.
#[derive(Debug)]
pub enum Answer<S> {
    Done,
    Handle(Handle),
    Code(u32),
    /// What `WaitForSingleObject` returned, and the last error after it.
    Waited { result: u32, last_error: S },
    /// The read end and the write end of a pipe.
    Pipe { read: Handle, write: Handle },
    Size { rows: u16, cols: u16 },
    /// The call failed, in the system's own words.
    Failed(S),
}

impl<S: Model> Model for Answer<S> {
    type M = Answer<S::M>;

    open spec fn model(&self) -> Answer<S::M> {
        match self {
            Answer::Done => Answer::Done,
            Answer::Handle(h) => Answer::Handle(*h),
            Answer::Code(c) => Answer::Code(*c),
            Answer::Waited { result, last_error } => Answer::Waited {
                result: *result,
                last_error: last_error.model(),
            },
            Answer::Pipe { read, write } => Answer::Pipe { read: *read, write: *write },
            Answer::Size { rows, cols } => Answer::Size { rows: *rows, cols: *cols },
            Answer::Failed(s) => Answer::Failed(s.model()),
        }
    }
}

impl Answer<Seq<char>> {
    /// The handle that was asked for, if one came.
    pub open spec fn handle(self) -> Option<Handle> {
        match self {
            Answer::Handle(h) => Some(h),
            _ => None,
        }
    }

    /// The failure, without words where the answer is of another kind.
    pub open spec fn failure(self) -> Seq<char> {
        match self {
            Answer::Failed(s) => s,
            _ => seq![],
        }
    }
}

impl Answer<String> {
    /// The handle that was asked for, if one came.
    pub fn as_handle(&self) -> (r: Option<Handle>)
        ensures
            r == self.model().handle(),
    {
        match self {
            Answer::Handle(h) => Some(*h),
            _ => None,
        }
    }

    /// The failure, without words where the answer is of another kind.
    pub fn into_failure(self) -> (r: String)
        ensures
            r@ == self.model().failure(),
    {
        match self {
            Answer::Failed(s) => s,
            _ => {
                let none: String = String::new();
                assert(none@ =~= seq![]);
                none
            },
        }
    }
}

/// An operation in progress: it asks for a call and waits in state `M`, or it
/// is done with result `T`.
#[derive(Debug)]
pub enum Talk<M, T> {
    Ask(Call, M),
    Done(T),
}

impl<M: Model, T: Model> Model for Talk<M, T> {
    type M = Talk<M::M, T::M>;

    open spec fn model(&self) -> Talk<M::M, T::M> {
        match self {
            Talk::Ask(c, m) => Talk::Ask(*c, m.model()),
            Talk::Done(t) => Talk::Done(t.model()),
        }
    }
}

/// The waiting states of an operation with result `T`.
pub trait Conversing<T>: Sized {
    /// How the operation goes on when `answer` comes.
    spec fn next(self, answer: Answer<Seq<char>>) -> Talk<Self, T>;
}

/// An operation `f` as part of a larger one: its states are embedded by `wrap`,
/// and its result is handed to `cont`.
pub open spec fn embed<M, T, C, U>(
    f: Talk<M, T>,
    wrap: spec_fn(M) -> C,
    cont: spec_fn(T) -> Talk<C, U>,
) -> Talk<C, U> {
    match f {
        Talk::Ask(c, m) => Talk::Ask(c, wrap(m)),
        Talk::Done(t) => cont(t),
    }
}

/// Whether an operation is done after at most `n` answers, whatever they are.
pub open spec fn ends_within<M: Conversing<T>, T>(f: Talk<M, T>, n: nat) -> bool
    decreases n,
{
    match f {
        Talk::Done(_) => true,
        Talk::Ask(_, m) => n > 0 && forall|answer: Answer<Seq<char>>|
            ends_within(#[trigger] m.next(answer), (n - 1) as nat),
    }
}

/// An operation that ends within a number of answers ends within a larger one.
pub proof fn lemma_ends_later<M: Conversing<T>, T>(f: Talk<M, T>, n: nat, more: nat)
    requires
        ends_within(f, n),
        n <= more,
    ensures
        ends_within(f, more),
    decreases n,
{
    if f is Ask {
        let m = f->Ask_1;
        assert forall|answer: Answer<Seq<char>>|
            ends_within(#[trigger] m.next(answer), (more - 1) as nat) by {
            lemma_ends_later(m.next(answer), (n - 1) as nat, (more - 1) as nat);
        }
    }
}

/// An operation made of a part and what follows it ends if both do.
pub proof fn lemma_embed_ends<M: Conversing<T>, T, C: Conversing<U>, U>(
    f: Talk<M, T>,
    wrap: spec_fn(M) -> C,
    cont: spec_fn(T) -> Talk<C, U>,
    n: nat,
    more: nat,
)
    requires
        forall|m: M, a: Answer<Seq<char>>| #[trigger]
            wrap(m).next(a) == embed(m.next(a), wrap, cont),
        ends_within(f, n),
        forall|t: T| ends_within(#[trigger] cont(t), more),
    ensures
        ends_within(embed(f, wrap, cont), n + more),
    decreases n,
{
    match f {
        Talk::Done(t) => {
            assert(ends_within(cont(t), more));
            lemma_ends_later(cont(t), more, n + more);
        },
        Talk::Ask(_, m) => {
            assert forall|answer: Answer<Seq<char>>|
                ends_within(#[trigger] wrap(m).next(answer), (n + more - 1) as nat) by {
                assert(ends_within(m.next(answer), (n - 1) as nat));
                lemma_embed_ends(m.next(answer), wrap, cont, (n - 1) as nat, more);
            }
        },
    }
}

/// An answer gives a handle exactly if it is one, and the words of a failure if
/// it is that.
pub proof fn answers_are_taken_for_what_they_are(
    answer: Answer<String>,
    handle: Option<Handle>,
    failure: String,
)
    requires
        call_ensures(Answer::<String>::as_handle, (&answer,), handle),
        call_ensures(Answer::<String>::into_failure, (answer,), failure),
    ensures
        handle is Some <==> answer is Handle,
        answer matches Answer::Handle(h) ==> handle == Some(h),
        answer matches Answer::Failed(s) ==> failure@ == s@,
        !(answer is Failed) ==> failure@.len() == 0,
{
}

} // verus!
