//! Operations as dialogues with the operating system.
//!
//! An operation never touches the system itself. It asks for one thing at a
//! time ([`Request`]) and is resumed with the answer
//! ([`Reply`](crate::registry::Reply)), until it is done. All decisions are
//! taken here; whoever runs the dialogue only carries out requests.

use crate::error::{Context, Error};
use crate::model::Model;
use crate::notice::Notice;
use crate::registry::{Edit, Key, Reply, Root, ValueName};
use vstd::prelude::*;

verus! {

/// A build profile of a development tree.
#[derive(Clone, Copy, Debug, PartialEq, Eq, Structural)]
pub enum Profile {
    Debug,
    Release,
}

/// Where a bundled `OpenConsole.exe` may lie, relative to the directory of the
/// running executable.
#[derive(Clone, Copy, Debug, PartialEq, Eq, Structural)]
pub enum BundleFile {
    /// Next to the running executable.
    Beside,
    /// Below `target` in the directory `level` steps up.
    Built { level: u32, profile: Profile },
}

/// One thing that an operation asks of the system.
#[derive(Debug)]
pub enum Request<S> {
    /// Open a key for reading: `Done`, or a fault.
    OpenRead(Root, Key<S>),
    /// Read a string value: `Text`, or a fault.
    GetString(Root, Key<S>, ValueName),
    /// Read a number value: `Number`, or a fault.
    GetDword(Root, Key<S>, ValueName),
    /// Change the registry: `Done`, or a fault.
    Edit(Edit<S>),
    /// Whether a file exists: `Flag`.
    PathExists(S),
    /// How many directories lie above that of the running executable:
    /// `Number`, or a fault.
    ExeAncestors,
    /// Look for a bundled file: `Text` with its path, or a fault.
    FindBundled(BundleFile),
    /// Whether there is a directory `target`, so many steps up: `Flag`.
    TargetDir(u32),
    /// The path of the running executable: `Text`, or a fault.
    CurrentExe,
    /// The bundled proxy/stub library: `Text` with its path, or a fault.
    FindProxyStub,
    /// Register the proxy/stub library: `Done`, or a fault.
    RegisterProxyStub(S),
    /// Tell the user: `Done`.
    Say(Notice<S>),
}

impl<S: Model> Model for Request<S> {
    type M = Request<S::M>;

    open spec fn model(&self) -> Request<S::M> {
        match self {
            Request::OpenRead(root, k) => Request::OpenRead(*root, k.model()),
            Request::GetString(root, k, n) => Request::GetString(*root, k.model(), *n),
            Request::GetDword(root, k, n) => Request::GetDword(*root, k.model(), *n),
            Request::Edit(e) => Request::Edit(e.model()),
            Request::PathExists(s) => Request::PathExists(s.model()),
            Request::ExeAncestors => Request::ExeAncestors,
            Request::FindBundled(b) => Request::FindBundled(*b),
            Request::TargetDir(level) => Request::TargetDir(*level),
            Request::CurrentExe => Request::CurrentExe,
            Request::FindProxyStub => Request::FindProxyStub,
            Request::RegisterProxyStub(s) => Request::RegisterProxyStub(s.model()),
            Request::Say(n) => Request::Say(n.model()),
        }
    }
}

/// An operation in progress: it asks for something and waits in state `M`, or
/// it is done with result `T`.
#[derive(Debug)]
pub enum Flow<S, M, T> {
    Ask(Request<S>, M),
    Done(T),
}

impl<S: Model, M: Model, T: Model> Model for Flow<S, M, T> {
    type M = Flow<S::M, M::M, T::M>;

    open spec fn model(&self) -> Flow<S::M, M::M, T::M> {
        match self {
            Flow::Ask(r, m) => Flow::Ask(r.model(), m.model()),
            Flow::Done(t) => Flow::Done(t.model()),
        }
    }
}

/// The waiting states of an operation with result `T`.
pub trait Resumable<T>: Sized {
    /// How the operation goes on when `reply` comes.
    spec fn next(self, reply: Reply<Seq<char>>) -> Flow<Seq<char>, Self, T>;
}

/// An operation `f` as part of a larger one: its states are embedded by `wrap`,
/// and its result is handed to `cont`.
pub open spec fn bind<M, T, C, U>(
    f: Flow<Seq<char>, M, T>,
    wrap: spec_fn(M) -> C,
    cont: spec_fn(T) -> Flow<Seq<char>, C, U>,
) -> Flow<Seq<char>, C, U> {
    match f {
        Flow::Ask(r, m) => Flow::Ask(r, wrap(m)),
        Flow::Done(t) => cont(t),
    }
}

/// What an operation asks for while `replies` come in.
pub open spec fn asked<M: Resumable<T>, T>(
    f: Flow<Seq<char>, M, T>,
    replies: Seq<Reply<Seq<char>>>,
) -> Seq<Request<Seq<char>>>
    decreases replies.len(),
{
    match f {
        Flow::Done(_) => seq![],
        Flow::Ask(r, m) => if replies.len() == 0 {
            seq![r]
        } else {
            seq![r] + asked(m.next(replies[0]), replies.skip(1))
        },
    }
}

/// Whether an operation is done after at most `n` replies, whatever they are.
pub open spec fn ends_within<M: Resumable<T>, T>(f: Flow<Seq<char>, M, T>, n: nat) -> bool
    decreases n,
{
    match f {
        Flow::Done(_) => true,
        Flow::Ask(_, m) => n > 0 && forall|reply: Reply<Seq<char>>|
            ends_within(#[trigger] m.next(reply), (n - 1) as nat),
    }
}

/// An operation that ends within a number of replies ends within a larger one.
pub proof fn lemma_ends_later<M: Resumable<T>, T>(f: Flow<Seq<char>, M, T>, n: nat, more: nat)
    requires
        ends_within(f, n),
        n <= more,
    ensures
        ends_within(f, more),
    decreases n,
{
    if f is Ask {
        let m = f->Ask_1;
        assert forall|reply: Reply<Seq<char>>|
            ends_within(#[trigger] m.next(reply), (more - 1) as nat) by {
            assert(ends_within(m.next(reply), (n - 1) as nat));
            lemma_ends_later(m.next(reply), (n - 1) as nat, (more - 1) as nat);
        }
    }
}

/// An operation made of a part and what follows it ends if both do.
pub proof fn lemma_bind_ends<M: Resumable<T>, T, C: Resumable<U>, U>(
    f: Flow<Seq<char>, M, T>,
    wrap: spec_fn(M) -> C,
    cont: spec_fn(T) -> Flow<Seq<char>, C, U>,
    n: nat,
    more: nat,
)
    requires
        forall|m: M, r: Reply<Seq<char>>| #[trigger]
            wrap(m).next(r) == bind(m.next(r), wrap, cont),
        ends_within(f, n),
        forall|t: T| ends_within(#[trigger] cont(t), more),
    ensures
        ends_within(bind(f, wrap, cont), n + more),
    decreases n,
{
    match f {
        Flow::Done(t) => {
            assert(ends_within(cont(t), more));
            lemma_ends_later(cont(t), more, n + more);
        },
        Flow::Ask(_, m) => {
            assert forall|reply: Reply<Seq<char>>|
                ends_within(#[trigger] wrap(m).next(reply), (n + more - 1) as nat) by {
                assert(ends_within(m.next(reply), (n - 1) as nat));
                assert(wrap(m).next(reply) == bind(m.next(reply), wrap, cont));
                lemma_bind_ends(m.next(reply), wrap, cont, (n - 1) as nat, more);
            }
        },
    }
}

/// One edit of a script.
#[derive(Debug)]
pub struct Step<S> {
    pub edit: Edit<S>,
    /// The error that a failure of this edit ends the script with; `None` if a
    /// failure is ignored.
    pub fatal: Option<Context<S>>,
}

impl<S: Model> Model for Step<S> {
    type M = Step<S::M>;

    open spec fn model(&self) -> Step<S::M> {
        Step { edit: self.edit.model(), fatal: self.fatal.model() }
    }
}

/// A script that waits for the outcome of an edit. `L` is the list of the edits
/// that are still to come.
#[derive(Debug)]
pub struct ScriptRun<S, L> {
    /// The error that a failure of the current edit would be.
    pub fatal: Option<Context<S>>,
    pub rest: L,
}

impl<S: Model, L: Model> Model for ScriptRun<S, L> {
    type M = ScriptRun<S::M, L::M>;

    open spec fn model(&self) -> ScriptRun<S::M, L::M> {
        ScriptRun { fatal: self.fatal.model(), rest: self.rest.model() }
    }
}

/// A list of edits as run-time value.
pub type Script = Vec<Step<String>>;

/// A list of edits as a specification sees it.
pub type Steps = Seq<Step<Seq<char>>>;

/// Carry out a list of edits in order. The first edit whose failure is fatal
/// and that fails ends it.
pub open spec fn script_flow(steps: Steps) -> Flow<
    Seq<char>,
    ScriptRun<Seq<char>, Steps>,
    Result<(), Error<Seq<char>>>,
> {
    if steps.len() == 0 {
        Flow::Done(Ok(()))
    } else {
        Flow::Ask(
            Request::Edit(steps[0].edit),
            ScriptRun { fatal: steps[0].fatal, rest: steps.skip(1) },
        )
    }
}

impl Resumable<Result<(), Error<Seq<char>>>> for ScriptRun<Seq<char>, Steps> {
    open spec fn next(self, reply: Reply<Seq<char>>) -> Flow<
        Seq<char>,
        Self,
        Result<(), Error<Seq<char>>>,
    > {
        match (reply.outcome(), self.fatal) {
            (Err(fault), Some(context)) => Flow::Done(Err(Error { context, cause: fault.cause })),
            _ => script_flow(self.rest),
        }
    }
}

/// A list of edits ends after one reply to each.
pub proof fn script_ends(steps: Steps)
    ensures
        ends_within(script_flow(steps), steps.len()),
    decreases steps.len(),
{
    if steps.len() > 0 {
        let rest = steps.skip(1);
        let m = ScriptRun { fatal: steps[0].fatal, rest };
        script_ends(rest);
        assert forall|reply: Reply<Seq<char>>|
            ends_within(#[trigger] m.next(reply), (steps.len() - 1) as nat) by {}
    }
}

/// Begin a list of edits.
pub fn start_script(steps: Script) -> (r: Flow<
    String,
    ScriptRun<String, Script>,
    Result<(), Error<String>>,
>)
    ensures
        r.model() == script_flow(steps.model()),
{
    let mut rest: Script = steps;
    if rest.len() == 0 {
        return Flow::Done(Ok(()));
    }
    let first: Step<String> = rest.remove(0);
    assert(rest.model() =~= steps.model().skip(1));
    Flow::Ask(Request::Edit(first.edit), ScriptRun { fatal: first.fatal, rest })
}

impl ScriptRun<String, Script> {
    /// Go on after the current edit.
    pub fn resume(self, reply: Reply<String>) -> (r: Flow<
        String,
        ScriptRun<String, Script>,
        Result<(), Error<String>>,
    >)
        ensures
            r.model() == self.model().next(reply.model()),
    {
        match (reply.into_outcome(), self.fatal) {
            (Err(fault), Some(context)) => {
                Flow::Done(Err(Error { context, cause: fault.cause }))
            },
            _ => start_script(self.rest),
        }
    }
}

/// What an operation ends with once all replies are in; `None` if it goes on.
pub open spec fn result_of<M: Resumable<T>, T>(
    f: Flow<Seq<char>, M, T>,
    replies: Seq<Reply<Seq<char>>>,
) -> Option<T>
    decreases replies.len(),
{
    match f {
        Flow::Done(t) => Some(t),
        Flow::Ask(_, m) => if replies.len() == 0 {
            None
        } else {
            result_of(m.next(replies[0]), replies.skip(1))
        },
    }
}

/// Whether the edit at `i` fails and its failure is fatal.
pub open spec fn stops_at(steps: Steps, replies: Seq<Reply<Seq<char>>>, i: int) -> bool {
    replies[i] is Fault && steps[i].fatal is Some
}

/// The edits up to one of a list.
pub open spec fn edits_of(steps: Steps, n: nat) -> Seq<Request<Seq<char>>> {
    Seq::new(n, |i: int| Request::Edit(steps[i].edit))
}

/// A list of edits is carried out in order, to its end, past every failure that
/// is not fatal. The first fatal failure ends it, and is the error that it ends
/// with, in the system's words.
pub proof fn first_fatal_failure_ends_script(
    steps: Steps,
    replies: Seq<Reply<Seq<char>>>,
    k: nat,
)
    requires
        replies.len() == steps.len(),
        k <= steps.len(),
        forall|i: int| 0 <= i < k ==> !#[trigger] stops_at(steps, replies, i),
        k < steps.len() ==> stops_at(steps, replies, k as int),
    ensures
        k == steps.len() ==> {
            &&& result_of(script_flow(steps), replies) == Some(Ok::<(), Error<Seq<char>>>(()))
            &&& asked(script_flow(steps), replies) == edits_of(steps, k)
        },
        k < steps.len() ==> {
            &&& result_of(script_flow(steps), replies) == Some(
                Err::<(), Error<Seq<char>>>(
                    Error {
                        context: steps[k as int].fatal->0,
                        cause: replies[k as int]->Fault_0.cause,
                    },
                ),
            )
            &&& asked(script_flow(steps), replies) == edits_of(steps, k + 1)
        },
    decreases steps.len(),
{
    if steps.len() == 0 {
        assert(edits_of(steps, 0) =~= seq![]);
    } else if k == 0 {
        let m = ScriptRun { fatal: steps[0].fatal, rest: steps.skip(1) };
        let end = m.next(replies[0]);
        assert(end is Done);
        assert(result_of(end, replies.skip(1)) == Some(end->Done_0));
        assert(stops_at(steps, replies, 0));
        assert(asked(end, replies.skip(1)) =~= seq![]);
        assert(asked(script_flow(steps), replies) =~= edits_of(steps, 1));
    } else {
        let rest = steps.skip(1);
        let more = replies.skip(1);
        assert(!stops_at(steps, replies, 0));
        assert forall|i: int| 0 <= i < k - 1 implies !#[trigger] stops_at(rest, more, i) by {
            assert(!stops_at(steps, replies, i + 1));
        }
        if k < steps.len() {
            assert(rest[k - 1] == steps[k as int]);
            assert(more[k - 1] == replies[k as int]);
        }
        first_fatal_failure_ends_script(rest, more, (k - 1) as nat);
        assert(edits_of(steps, k) =~= seq![Request::Edit(steps[0].edit)] + edits_of(
            rest,
            (k - 1) as nat,
        ));
        if k < steps.len() {
            assert(edits_of(steps, k + 1) =~= seq![Request::Edit(steps[0].edit)] + edits_of(
                rest,
                k,
            ));
        }
    }
}

/// Whether an operation asks for exactly `requests`, is answered `replies`, and
/// then ends with `result`.
pub open spec fn goes<M: Resumable<T>, T>(
    f: Flow<Seq<char>, M, T>,
    requests: Seq<Request<Seq<char>>>,
    replies: Seq<Reply<Seq<char>>>,
    result: T,
) -> bool
    decreases requests.len(),
{
    match f {
        Flow::Done(t) => requests.len() == 0 && replies.len() == 0 && t == result,
        Flow::Ask(r, m) => {
            &&& requests.len() > 0
            &&& replies.len() > 0
            &&& requests[0] == r
            &&& goes(m.next(replies[0]), requests.skip(1), replies.skip(1), result)
        },
    }
}

/// A part of an operation goes as it would alone, and what follows goes by its
/// result.
pub proof fn lemma_goes_bind<M: Resumable<T>, T, C: Resumable<U>, U>(
    f: Flow<Seq<char>, M, T>,
    wrap: spec_fn(M) -> C,
    cont: spec_fn(T) -> Flow<Seq<char>, C, U>,
    q1: Seq<Request<Seq<char>>>,
    r1: Seq<Reply<Seq<char>>>,
    t: T,
    q2: Seq<Request<Seq<char>>>,
    r2: Seq<Reply<Seq<char>>>,
    u: U,
)
    requires
        forall|m: M, r: Reply<Seq<char>>| #[trigger]
            wrap(m).next(r) == bind(m.next(r), wrap, cont),
        goes(f, q1, r1, t),
        goes(cont(t), q2, r2, u),
    ensures
        goes(bind(f, wrap, cont), q1 + q2, r1 + r2, u),
    decreases q1.len(),
{
    match f {
        Flow::Done(_) => {
            assert(q1 + q2 =~= q2);
            assert(r1 + r2 =~= r2);
        },
        Flow::Ask(r, m) => {
            let next = m.next(r1[0]);
            lemma_goes_bind(next, wrap, cont, q1.skip(1), r1.skip(1), t, q2, r2, u);
            assert((q1 + q2).skip(1) =~= q1.skip(1) + q2);
            assert((r1 + r2).skip(1) =~= r1.skip(1) + r2);
            assert(wrap(m).next(r1[0]) == bind(next, wrap, cont));
        },
    }
}

} // verus!
