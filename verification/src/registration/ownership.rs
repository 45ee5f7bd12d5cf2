//! Entries in the registry that belong to this terminal, and their removal.
//!
//! An entry is removed only if it carries the ownership marker. Where the check
//! fails for any reason the entry stays: deleting an entry of another
//! application would break its registration.

use crate::error::{Context, Error, Task};
use crate::machine::{
    bind, script_flow, start_script, Flow, Request, Resumable, Script, ScriptRun, Step, Steps,
};
use crate::model::Model;
use crate::registration::{key_is_wezterm_owned, marks_ownership};
use crate::registry::{Edit, Key, Reply, Root, ValueName};
use crate::text::{quote, quoted};
use vstd::prelude::*;

verus! {

// ---------------------------------------------------------------------------
// The ownership check
// ---------------------------------------------------------------------------

/// An ownership check, waiting.
#[derive(Debug)]
pub enum OwnershipCheck<S> {
    /// For the key to be opened.
    Opening(Key<S>),
    /// For the marker.
    Marker,
}

impl<S: Model> Model for OwnershipCheck<S> {
    type M = OwnershipCheck<S::M>;

    open spec fn model(&self) -> OwnershipCheck<S::M> {
        match self {
            OwnershipCheck::Opening(k) => OwnershipCheck::Opening(k.model()),
            OwnershipCheck::Marker => OwnershipCheck::Marker,
        }
    }
}

/// The check whether a key belongs to this terminal.
pub open spec fn ownership_flow(key: Key<Seq<char>>) -> Flow<
    Seq<char>,
    OwnershipCheck<Seq<char>>,
    bool,
> {
    Flow::Ask(Request::OpenRead(Root::CurrentUser, key), OwnershipCheck::Opening(key))
}

impl Resumable<bool> for OwnershipCheck<Seq<char>> {
    open spec fn next(self, reply: Reply<Seq<char>>) -> Flow<Seq<char>, Self, bool> {
        match self {
            OwnershipCheck::Opening(key) => match reply.outcome() {
                Ok(_) => Flow::Ask(
                    Request::GetDword(Root::CurrentUser, key, ValueName::Owned),
                    OwnershipCheck::Marker,
                ),
                Err(_) => Flow::Done(false),
            },
            OwnershipCheck::Marker => Flow::Done(marks_ownership(reply.number())),
        }
    }
}

/// Check whether a key belongs to this terminal. A key that does not exist or
/// cannot be read does not.
pub fn subkey_is_wezterm_owned(key: Key<String>) -> (r: Flow<
    String,
    OwnershipCheck<String>,
    bool,
>)
    ensures
        r.model() == ownership_flow(key.model()),
{
    Flow::Ask(
        Request::OpenRead(Root::CurrentUser, key.copy()),
        OwnershipCheck::Opening(key),
    )
}

impl OwnershipCheck<String> {
    /// Go on with the check.
    pub fn resume(self, reply: Reply<String>) -> (r: Flow<String, OwnershipCheck<String>, bool>)
        ensures
            r.model() == self.model().next(reply.model()),
    {
        match self {
            OwnershipCheck::Opening(key) => match reply.into_outcome() {
                Ok(_) => Flow::Ask(
                    Request::GetDword(Root::CurrentUser, key, ValueName::Owned),
                    OwnershipCheck::Marker,
                ),
                Err(_) => Flow::Done(false),
            },
            OwnershipCheck::Marker => Flow::Done(key_is_wezterm_owned(reply.as_number())),
        }
    }
}

// ---------------------------------------------------------------------------
// Guarded removal
// ---------------------------------------------------------------------------

/// Edits that are carried out only if a key belongs to this terminal.
#[derive(Debug)]
pub struct Removal<S, L> {
    pub guard: Key<S>,
    pub edits: L,
}

impl<S: Model, L: Model> Model for Removal<S, L> {
    type M = Removal<S::M, L::M>;

    open spec fn model(&self) -> Removal<S::M, L::M> {
        Removal { guard: self.guard.model(), edits: self.edits.model() }
    }
}

/// A guarded removal, waiting.
#[derive(Debug)]
pub enum RemoveOwned<S, L> {
    /// For the ownership check.
    Checking { check: OwnershipCheck<S>, edits: L },
    /// For the edits.
    Removing(ScriptRun<S, L>),
}

impl<S: Model, L: Model> Model for RemoveOwned<S, L> {
    type M = RemoveOwned<S::M, L::M>;

    open spec fn model(&self) -> RemoveOwned<S::M, L::M> {
        match self {
            RemoveOwned::Checking { check, edits } => RemoveOwned::Checking {
                check: check.model(),
                edits: edits.model(),
            },
            RemoveOwned::Removing(run) => RemoveOwned::Removing(run.model()),
        }
    }
}

/// A guarded removal as a specification sees it. Its result tells whether the
/// key belonged to this terminal.
pub type RemovalFlow = Flow<Seq<char>, RemoveOwned<Seq<char>, Steps>, bool>;

/// How a removal goes on once ownership is known.
pub open spec fn removal_after(owned: bool, edits: Steps) -> RemovalFlow {
    if owned {
        bind(
            script_flow(edits),
            |run| RemoveOwned::Removing(run),
            |r: Result<(), Error<Seq<char>>>| Flow::Done(true),
        )
    } else {
        Flow::Done(false)
    }
}

/// A guarded removal.
pub open spec fn removal_flow(removal: Removal<Seq<char>, Steps>) -> RemovalFlow {
    bind(
        ownership_flow(removal.guard),
        |check| RemoveOwned::Checking { check, edits: removal.edits },
        |owned: bool| removal_after(owned, removal.edits),
    )
}

impl Resumable<bool> for RemoveOwned<Seq<char>, Steps> {
    open spec fn next(self, reply: Reply<Seq<char>>) -> RemovalFlow {
        match self {
            RemoveOwned::Checking { check, edits } => bind(
                check.next(reply),
                |check| RemoveOwned::Checking { check, edits },
                |owned: bool| removal_after(owned, edits),
            ),
            RemoveOwned::Removing(run) => bind(
                run.next(reply),
                |run| RemoveOwned::Removing(run),
                |r: Result<(), Error<Seq<char>>>| Flow::Done(true),
            ),
        }
    }
}

fn remove_if(owned: bool, edits: Script) -> (r: Flow<String, RemoveOwned<String, Script>, bool>)
    ensures
        r.model() == removal_after(owned, edits.model()),
{
    if owned {
        match start_script(edits) {
            Flow::Ask(q, run) => Flow::Ask(q, RemoveOwned::Removing(run)),
            Flow::Done(_) => Flow::Done(true),
        }
    } else {
        Flow::Done(false)
    }
}

/// Begin a guarded removal.
pub fn remove_owned(removal: Removal<String, Script>) -> (r: Flow<
    String,
    RemoveOwned<String, Script>,
    bool,
>)
    ensures
        r.model() == removal_flow(removal.model()),
{
    match subkey_is_wezterm_owned(removal.guard) {
        Flow::Ask(q, check) => Flow::Ask(
            q,
            RemoveOwned::Checking { check, edits: removal.edits },
        ),
        Flow::Done(owned) => remove_if(owned, removal.edits),
    }
}

impl RemoveOwned<String, Script> {
    /// Go on with the removal.
    pub fn resume(self, reply: Reply<String>) -> (r: Flow<
        String,
        RemoveOwned<String, Script>,
        bool,
    >)
        ensures
            r.model() == self.model().next(reply.model()),
    {
        match self {
            RemoveOwned::Checking { check, edits } => match check.resume(reply) {
                Flow::Ask(q, check) => Flow::Ask(q, RemoveOwned::Checking { check, edits }),
                Flow::Done(owned) => remove_if(owned, edits),
            },
            RemoveOwned::Removing(run) => match run.resume(reply) {
                Flow::Ask(q, run) => Flow::Ask(q, RemoveOwned::Removing(run)),
                Flow::Done(_) => Flow::Done(true),
            },
        }
    }
}

// ---------------------------------------------------------------------------
// Local servers
// ---------------------------------------------------------------------------

/// The edits that register an executable as the server of a class. The marker
/// comes last.
pub open spec fn local_server_steps(clsid: Seq<char>, exe: Seq<char>) -> Steps {
    seq![
        Step {
            edit: Edit::CreateKey(Key::Clsid(clsid)),
            fatal: Some(Context::CreateKey(Key::Clsid(clsid))),
        },
        Step {
            edit: Edit::SetString(
                Key::Clsid(clsid),
                ValueName::Default,
                "WezTerm Default Terminal Handoff"@,
            ),
            fatal: Some(Context::Doing(Task::WriteServerName)),
        },
        Step {
            edit: Edit::CreateKey(Key::LocalServer(clsid)),
            fatal: Some(Context::Doing(Task::CreateLocalServer)),
        },
        Step {
            edit: Edit::SetString(Key::LocalServer(clsid), ValueName::Default, quoted(exe)),
            fatal: Some(Context::Doing(Task::WriteLocalServer)),
        },
        Step {
            edit: Edit::SetDword(Key::Clsid(clsid), ValueName::Owned, 1),
            fatal: Some(Context::Doing(Task::WriteOwnedMarker)),
        },
    ]
}

/// Register an executable as the local server of a class.
pub fn register_local_server_for_clsid(clsid: &str, exe_path: &str) -> (r: Flow<
    String,
    ScriptRun<String, Script>,
    Result<(), Error<String>>,
>)
    ensures
        r.model() == script_flow(local_server_steps(clsid@, exe_path@)),
{
    let script: Script = vec![
        Step {
            edit: Edit::CreateKey(Key::Clsid(clsid.to_string())),
            fatal: Some(Context::CreateKey(Key::Clsid(clsid.to_string()))),
        },
        Step {
            edit: Edit::SetString(
                Key::Clsid(clsid.to_string()),
                ValueName::Default,
                "WezTerm Default Terminal Handoff".to_string(),
            ),
            fatal: Some(Context::Doing(Task::WriteServerName)),
        },
        Step {
            edit: Edit::CreateKey(Key::LocalServer(clsid.to_string())),
            fatal: Some(Context::Doing(Task::CreateLocalServer)),
        },
        Step {
            edit: Edit::SetString(
                Key::LocalServer(clsid.to_string()),
                ValueName::Default,
                quote(exe_path),
            ),
            fatal: Some(Context::Doing(Task::WriteLocalServer)),
        },
        Step {
            edit: Edit::SetDword(Key::Clsid(clsid.to_string()), ValueName::Owned, 1),
            fatal: Some(Context::Doing(Task::WriteOwnedMarker)),
        },
    ];
    assert(script.model() =~= local_server_steps(clsid@, exe_path@));
    start_script(script)
}

/// The removal of a class with its local server.
pub open spec fn server_removal(clsid: Seq<char>) -> Removal<Seq<char>, Steps> {
    Removal {
        guard: Key::Clsid(clsid),
        edits: seq![
            Step { edit: Edit::DeleteChild(Key::LocalServer(clsid)), fatal: None },
            Step { edit: Edit::DeleteKey(Key::Clsid(clsid)), fatal: None },
        ],
    }
}

/// Remove a class with its local server, if it belongs to this terminal. The
/// result tells whether it does.
pub fn unregister_local_server_for_clsid(clsid: &str) -> (r: Flow<
    String,
    RemoveOwned<String, Script>,
    bool,
>)
    ensures
        r.model() == removal_flow(server_removal(clsid@)),
{
    let edits: Script = vec![
        Step { edit: Edit::DeleteChild(Key::LocalServer(clsid.to_string())), fatal: None },
        Step { edit: Edit::DeleteKey(Key::Clsid(clsid.to_string())), fatal: None },
    ];
    assert(edits.model() =~= server_removal(clsid@).edits);
    remove_owned(Removal { guard: Key::Clsid(clsid.to_string()), edits })
}

// ---------------------------------------------------------------------------
// The proxy/stub
// ---------------------------------------------------------------------------

/// The removals below and of an interface.
pub open spec fn interface_removals(iid: Seq<char>) -> Seq<Removal<Seq<char>, Steps>> {
    seq![
        Removal {
            guard: Key::ProxyStub(iid),
            edits: seq![Step { edit: Edit::DeleteChild(Key::ProxyStub(iid)), fatal: None }],
        },
        Removal {
            guard: Key::Interface(iid),
            edits: seq![Step { edit: Edit::DeleteKey(Key::Interface(iid)), fatal: None }],
        },
    ]
}

/// The removals of the first `n` interfaces.
pub open spec fn all_interface_removals(iids: Seq<Seq<char>>, n: nat) -> Seq<
    Removal<Seq<char>, Steps>,
>
    decreases n,
{
    if n == 0 {
        seq![]
    } else {
        all_interface_removals(iids, (n - 1) as nat) + interface_removals(iids[n - 1])
    }
}

/// The removal of the proxy/stub class with its in-process server.
pub open spec fn proxy_class_removal(clsid: Seq<char>) -> Removal<Seq<char>, Steps> {
    Removal {
        guard: Key::Clsid(clsid),
        edits: seq![
            Step { edit: Edit::DeleteChild(Key::InProcServer(clsid)), fatal: None },
            Step { edit: Edit::DeleteKey(Key::Clsid(clsid)), fatal: None },
        ],
    }
}

/// The removal of the in-process server alone.
pub open spec fn inproc_removal(clsid: Seq<char>) -> Removal<Seq<char>, Steps> {
    Removal {
        guard: Key::InProcServer(clsid),
        edits: seq![Step { edit: Edit::DeleteChild(Key::InProcServer(clsid)), fatal: None }],
    }
}

/// The removal of the proxy/stub, waiting. `J` is the list of removals that are
/// still to come.
#[derive(Debug)]
pub enum RemoveProxyStub<S, L, J> {
    /// For a removal at an interface.
    Interfaces { current: RemoveOwned<S, L>, rest: J, clsid: S },
    /// For the removal of the class.
    Class { current: RemoveOwned<S, L>, clsid: S },
    /// For the removal of the in-process server.
    InProc(RemoveOwned<S, L>),
}

impl<S: Model, L: Model, J: Model> Model for RemoveProxyStub<S, L, J> {
    type M = RemoveProxyStub<S::M, L::M, J::M>;

    open spec fn model(&self) -> RemoveProxyStub<S::M, L::M, J::M> {
        match self {
            RemoveProxyStub::Interfaces { current, rest, clsid } => RemoveProxyStub::Interfaces {
                current: current.model(),
                rest: rest.model(),
                clsid: clsid.model(),
            },
            RemoveProxyStub::Class { current, clsid } => RemoveProxyStub::Class {
                current: current.model(),
                clsid: clsid.model(),
            },
            RemoveProxyStub::InProc(current) => RemoveProxyStub::InProc(current.model()),
        }
    }
}

/// A list of removals as run-time value.
pub type Removals = Vec<Removal<String, Script>>;

/// The removal of the proxy/stub as a specification sees it.
pub type ProxyStubState = RemoveProxyStub<Seq<char>, Steps, Seq<Removal<Seq<char>, Steps>>>;

/// How the removal goes on with the in-process server.
pub open spec fn inproc_flow(clsid: Seq<char>) -> Flow<Seq<char>, ProxyStubState, ()> {
    bind(
        removal_flow(inproc_removal(clsid)),
        |current| RemoveProxyStub::InProc(current),
        |owned: bool| Flow::Done(()),
    )
}

/// How the removal goes on once the class was seen to: if it was not this
/// terminal's, the in-process server still may be.
pub open spec fn class_after(owned: bool, clsid: Seq<char>) -> Flow<
    Seq<char>,
    ProxyStubState,
    (),
> {
    if owned {
        Flow::Done(())
    } else {
        inproc_flow(clsid)
    }
}

/// How the removal goes on with the class.
pub open spec fn class_flow(clsid: Seq<char>) -> Flow<Seq<char>, ProxyStubState, ()> {
    bind(
        removal_flow(proxy_class_removal(clsid)),
        |current| RemoveProxyStub::Class { current, clsid },
        |owned: bool| class_after(owned, clsid),
    )
}

/// The removals at the interfaces in turn, then the class.
pub open spec fn sweep_flow(jobs: Seq<Removal<Seq<char>, Steps>>, clsid: Seq<char>) -> Flow<
    Seq<char>,
    ProxyStubState,
    (),
> {
    if jobs.len() == 0 {
        class_flow(clsid)
    } else {
        Flow::Ask(
            Request::OpenRead(Root::CurrentUser, jobs[0].guard),
            RemoveProxyStub::Interfaces {
                current: RemoveOwned::Checking {
                    check: OwnershipCheck::Opening(jobs[0].guard),
                    edits: jobs[0].edits,
                },
                rest: jobs.skip(1),
                clsid,
            },
        )
    }
}

/// The removal of the proxy/stub.
pub open spec fn proxy_stub_flow(iids: Seq<Seq<char>>, clsid: Seq<char>) -> Flow<
    Seq<char>,
    ProxyStubState,
    (),
> {
    sweep_flow(all_interface_removals(iids, iids.len()), clsid)
}

impl Resumable<()> for ProxyStubState {
    open spec fn next(self, reply: Reply<Seq<char>>) -> Flow<Seq<char>, Self, ()> {
        match self {
            RemoveProxyStub::Interfaces { current, rest, clsid } => bind(
                current.next(reply),
                |current| RemoveProxyStub::Interfaces { current, rest, clsid },
                |owned: bool| sweep_flow(rest, clsid),
            ),
            RemoveProxyStub::Class { current, clsid } => bind(
                current.next(reply),
                |current| RemoveProxyStub::Class { current, clsid },
                |owned: bool| class_after(owned, clsid),
            ),
            RemoveProxyStub::InProc(current) => bind(
                current.next(reply),
                |current| RemoveProxyStub::InProc(current),
                |owned: bool| Flow::Done(()),
            ),
        }
    }
}

/// The run-time type of the removal of the proxy/stub.
pub type ProxyStubRun = RemoveProxyStub<String, Script, Removals>;

fn remove_inproc(clsid: String) -> (r: Flow<String, ProxyStubRun, ()>)
    ensures
        r.model() == inproc_flow(clsid@),
{
    let edits: Script = vec![
        Step { edit: Edit::DeleteChild(Key::InProcServer(clsid.clone())), fatal: None },
    ];
    assert(edits.model() =~= inproc_removal(clsid@).edits);
    match remove_owned(Removal { guard: Key::InProcServer(clsid), edits }) {
        Flow::Ask(q, current) => Flow::Ask(q, RemoveProxyStub::InProc(current)),
        Flow::Done(_) => Flow::Done(()),
    }
}

fn after_class(owned: bool, clsid: String) -> (r: Flow<String, ProxyStubRun, ()>)
    ensures
        r.model() == class_after(owned, clsid@),
{
    if owned {
        Flow::Done(())
    } else {
        remove_inproc(clsid)
    }
}

fn remove_class(clsid: String) -> (r: Flow<String, ProxyStubRun, ()>)
    ensures
        r.model() == class_flow(clsid@),
{
    let edits: Script = vec![
        Step { edit: Edit::DeleteChild(Key::InProcServer(clsid.clone())), fatal: None },
        Step { edit: Edit::DeleteKey(Key::Clsid(clsid.clone())), fatal: None },
    ];
    assert(edits.model() =~= proxy_class_removal(clsid@).edits);
    match remove_owned(Removal { guard: Key::Clsid(clsid.clone()), edits }) {
        Flow::Ask(q, current) => Flow::Ask(q, RemoveProxyStub::Class { current, clsid }),
        Flow::Done(owned) => after_class(owned, clsid),
    }
}

fn sweep(jobs: Removals, clsid: String) -> (r: Flow<String, ProxyStubRun, ()>)
    ensures
        r.model() == sweep_flow(jobs.model(), clsid@),
{
    let mut rest: Removals = jobs;
    if rest.len() == 0 {
        return remove_class(clsid);
    }
    let first: Removal<String, Script> = rest.remove(0);
    assert(rest.model() =~= jobs.model().skip(1));
    Flow::Ask(
        Request::OpenRead(Root::CurrentUser, first.guard.copy()),
        RemoveProxyStub::Interfaces {
            current: RemoveOwned::Checking {
                check: OwnershipCheck::Opening(first.guard),
                edits: first.edits,
            },
            rest,
            clsid,
        },
    )
}

/// Remove what registers the proxy/stub for the given interfaces under the
/// given class, as far as it belongs to this terminal.
pub fn unregister_proxy_stub_per_user(iids: &Vec<String>, clsid: &str) -> (r: Flow<
    String,
    ProxyStubRun,
    (),
>)
    ensures
        r.model() == proxy_stub_flow(iids.model(), clsid@),
{
    let mut jobs: Removals = Vec::new();
    let mut i: usize = 0;
    assert(jobs.model() =~= all_interface_removals(iids.model(), 0));
    while i < iids.len()
        invariant
            0 <= i <= iids@.len(),
            jobs.model() == all_interface_removals(iids.model(), i as nat),
        decreases iids@.len() - i,
    {
        let ghost before = jobs.model();
        let stub: Script = vec![
            Step { edit: Edit::DeleteChild(Key::ProxyStub(iids[i].clone())), fatal: None },
        ];
        let interface: Script = vec![
            Step { edit: Edit::DeleteKey(Key::Interface(iids[i].clone())), fatal: None },
        ];
        let ghost iid = iids@[i as int]@;
        assert(stub.model() =~= interface_removals(iid)[0].edits);
        assert(interface.model() =~= interface_removals(iid)[1].edits);
        jobs.push(Removal { guard: Key::ProxyStub(iids[i].clone()), edits: stub });
        jobs.push(Removal { guard: Key::Interface(iids[i].clone()), edits: interface });
        assert(jobs.model() =~= before + interface_removals(iid));
        i = i + 1;
    }
    sweep(jobs, clsid.to_string())
}

impl ProxyStubRun {
    /// Go on with the removal.
    pub fn resume(self, reply: Reply<String>) -> (r: Flow<String, ProxyStubRun, ()>)
        ensures
            r.model() == self.model().next(reply.model()),
    {
        match self {
            RemoveProxyStub::Interfaces { current, rest, clsid } => match current.resume(reply) {
                Flow::Ask(q, current) => Flow::Ask(
                    q,
                    RemoveProxyStub::Interfaces { current, rest, clsid },
                ),
                Flow::Done(_) => sweep(rest, clsid),
            },
            RemoveProxyStub::Class { current, clsid } => match current.resume(reply) {
                Flow::Ask(q, current) => Flow::Ask(q, RemoveProxyStub::Class { current, clsid }),
                Flow::Done(owned) => after_class(owned, clsid),
            },
            RemoveProxyStub::InProc(current) => match current.resume(reply) {
                Flow::Ask(q, current) => Flow::Ask(q, RemoveProxyStub::InProc(current)),
                Flow::Done(_) => Flow::Done(()),
            },
        }
    }
}

} // verus!
