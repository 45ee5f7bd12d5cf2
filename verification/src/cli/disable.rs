//! `disable`: give the Windows default back.

use crate::error::{error_text, Error};
use crate::machine::{bind, Flow, Request, Resumable, Script, Steps};
use crate::model::Model;
use crate::notice::Notice;
use crate::registration::ownership::{
    proxy_stub_flow, removal_flow, server_removal, unregister_local_server_for_clsid,
    unregister_proxy_stub_per_user, Removal, Removals, RemoveOwned, RemoveProxyStub,
};
use crate::registration::{
    restore_delegation_backup, restore_flow, RestoreBackup,
    WEZTERM_TERMHOST_FALLBACK_CONSOLE_CLSID, WEZTERM_TERMHOST_TERMINAL_CLSID,
};
use crate::registry::Reply;
use vstd::prelude::*;

verus! {

/// Remove this terminal's own server. The result tells whether there was one.
pub fn unregister_local_server_for_unpackaged() -> (r: Flow<
    String,
    RemoveOwned<String, Script>,
    bool,
>)
    ensures
        r.model() == removal_flow(server_removal(WEZTERM_TERMHOST_TERMINAL_CLSID@)),
{
    unregister_local_server_for_clsid(WEZTERM_TERMHOST_TERMINAL_CLSID)
}

// ---------------------------------------------------------------------------
// The fallback console host
// ---------------------------------------------------------------------------

/// The removal of the fallback console host, waiting.
#[derive(Debug)]
pub enum RemoveFallback<S, L> {
    /// For the removal.
    Removing(RemoveOwned<S, L>),
    /// For the user to be told.
    Saying,
}

impl<S: Model, L: Model> Model for RemoveFallback<S, L> {
    type M = RemoveFallback<S::M, L::M>;

    open spec fn model(&self) -> RemoveFallback<S::M, L::M> {
        match self {
            RemoveFallback::Removing(m) => RemoveFallback::Removing(m.model()),
            RemoveFallback::Saying => RemoveFallback::Saying,
        }
    }
}

/// The removal of the fallback console host as a specification sees it.
pub type RemoveFallbackFlow = Flow<Seq<char>, RemoveFallback<Seq<char>, Steps>, ()>;

/// How it goes on once the entry was seen to.
pub open spec fn fallback_removed(owned: bool) -> RemoveFallbackFlow {
    if owned {
        Flow::Ask(Request::Say(Notice::FallbackRemoved), RemoveFallback::Saying)
    } else {
        Flow::Done(())
    }
}

/// The removal of the fallback console host.
pub open spec fn remove_fallback_flow() -> RemoveFallbackFlow {
    bind(
        removal_flow(server_removal(WEZTERM_TERMHOST_FALLBACK_CONSOLE_CLSID@)),
        |m| RemoveFallback::Removing(m),
        |owned: bool| fallback_removed(owned),
    )
}

impl Resumable<()> for RemoveFallback<Seq<char>, Steps> {
    open spec fn next(self, reply: Reply<Seq<char>>) -> RemoveFallbackFlow {
        match self {
            RemoveFallback::Removing(m) => bind(
                m.next(reply),
                |m| RemoveFallback::Removing(m),
                |owned: bool| fallback_removed(owned),
            ),
            RemoveFallback::Saying => Flow::Done(()),
        }
    }
}

fn after_fallback_removed(owned: bool) -> (r: Flow<String, RemoveFallback<String, Script>, ()>)
    ensures
        r.model() == fallback_removed(owned),
{
    if owned {
        Flow::Ask(Request::Say(Notice::FallbackRemoved), RemoveFallback::Saying)
    } else {
        Flow::Done(())
    }
}

/// Remove the fallback console host, if it is this terminal's, and tell the
/// user.
pub fn unregister_openconsole_fallback() -> (r: Flow<String, RemoveFallback<String, Script>, ()>)
    ensures
        r.model() == remove_fallback_flow(),
{
    match unregister_local_server_for_clsid(WEZTERM_TERMHOST_FALLBACK_CONSOLE_CLSID) {
        Flow::Ask(q, m) => Flow::Ask(q, RemoveFallback::Removing(m)),
        Flow::Done(owned) => after_fallback_removed(owned),
    }
}

impl RemoveFallback<String, Script> {
    /// Go on with the removal.
    pub fn resume(self, reply: Reply<String>) -> (r: Flow<
        String,
        RemoveFallback<String, Script>,
        (),
    >)
        ensures
            r.model() == self.model().next(reply.model()),
    {
        match self {
            RemoveFallback::Removing(m) => match m.resume(reply) {
                Flow::Ask(q, m) => Flow::Ask(q, RemoveFallback::Removing(m)),
                Flow::Done(owned) => after_fallback_removed(owned),
            },
            RemoveFallback::Saying => Flow::Done(()),
        }
    }
}

// ---------------------------------------------------------------------------
// The command
// ---------------------------------------------------------------------------

/// The command `disable`.
#[derive(Clone, Copy, Debug)]
pub struct DisableCommand {}

/// The interfaces and the class of the proxy/stub library. `I` is a list of
/// interface identifiers.
#[derive(Debug)]
pub struct ProxyIds<S, I> {
    pub iids: I,
    pub clsid: S,
}

impl<S: Model, I: Model> Model for ProxyIds<S, I> {
    type M = ProxyIds<S::M, I::M>;

    open spec fn model(&self) -> ProxyIds<S::M, I::M> {
        ProxyIds { iids: self.iids.model(), clsid: self.clsid.model() }
    }
}

/// The command `disable`, waiting. `I` is a list of interface identifiers, `J` a
/// list of removals. `restore` is what came of the restoration, which is
/// reported at the end.
#[derive(Debug)]
pub enum DisableRun<S, L, I, J> {
    /// For the previous selection to be restored.
    Restoring { ids: ProxyIds<S, I>, run: RestoreBackup<S, L> },
    /// For the user to be told of that.
    ToldRestore { ids: ProxyIds<S, I>, restore: Result<bool, Error<S>> },
    /// For the removal of this terminal's server.
    Server { ids: ProxyIds<S, I>, restore: Result<bool, Error<S>>, run: RemoveOwned<S, L> },
    /// For the user to be told of that.
    ToldServer { ids: ProxyIds<S, I>, restore: Result<bool, Error<S>> },
    /// For the removal of the proxy/stub.
    Proxy { removed: bool, restore: Result<bool, Error<S>>, run: RemoveProxyStub<S, L, J> },
    /// For the removal of the fallback console host.
    Fallback { removed: bool, restore: Result<bool, Error<S>>, run: RemoveFallback<S, L> },
    /// For the user to be told of the outcome.
    ToldOutcome { restore: Result<bool, Error<S>> },
}

impl<S: Model, L: Model, I: Model, J: Model> Model for DisableRun<S, L, I, J> {
    type M = DisableRun<S::M, L::M, I::M, J::M>;

    open spec fn model(&self) -> DisableRun<S::M, L::M, I::M, J::M> {
        match self {
            DisableRun::Restoring { ids, run } => DisableRun::Restoring {
                ids: ids.model(),
                run: run.model(),
            },
            DisableRun::ToldRestore { ids, restore } => DisableRun::ToldRestore {
                ids: ids.model(),
                restore: restore.model(),
            },
            DisableRun::Server { ids, restore, run } => DisableRun::Server {
                ids: ids.model(),
                restore: restore.model(),
                run: run.model(),
            },
            DisableRun::ToldServer { ids, restore } => DisableRun::ToldServer {
                ids: ids.model(),
                restore: restore.model(),
            },
            DisableRun::Proxy { removed, restore, run } => DisableRun::Proxy {
                removed: *removed,
                restore: restore.model(),
                run: run.model(),
            },
            DisableRun::Fallback { removed, restore, run } => DisableRun::Fallback {
                removed: *removed,
                restore: restore.model(),
                run: run.model(),
            },
            DisableRun::ToldOutcome { restore } => DisableRun::ToldOutcome {
                restore: restore.model(),
            },
        }
    }
}

/// The identifiers as a specification sees them.
pub type Ids = ProxyIds<Seq<char>, Seq<Seq<char>>>;

/// The command as a specification sees it.
pub type DisableState = DisableRun<
    Seq<char>,
    Steps,
    Seq<Seq<char>>,
    Seq<Removal<Seq<char>, Steps>>,
>;

/// The same with what it asks for.
pub type DisableFlow = Flow<Seq<char>, DisableState, Result<(), Error<Seq<char>>>>;

/// What came of the restoration.
pub type Restore = Result<bool, Error<Seq<char>>>;

/// What the user is told of the restoration.
pub open spec fn restore_notice(restore: Restore) -> Notice<Seq<char>> {
    match restore {
        Ok(true) => Notice::Restored,
        Ok(false) => Notice::LeftAlone,
        Err(e) => Notice::RestoreFailed(error_text(e)),
    }
}

/// The result of the command: the failure of the restoration, if it failed.
pub open spec fn disable_result(restore: Restore) -> Result<(), Error<Seq<char>>> {
    match restore {
        Ok(_) => Ok(()),
        Err(e) => Err(e),
    }
}

/// The end of the command. `removed` tells whether this terminal's server was
/// there.
pub open spec fn disable_finish(removed: bool, restore: Restore) -> DisableFlow {
    Flow::Ask(
        Request::Say(
            if removed {
                Notice::Disabled
            } else {
                Notice::NothingToDo
            },
        ),
        DisableRun::ToldOutcome { restore },
    )
}

/// How the command goes on after the proxy/stub.
pub open spec fn disable_unproxied(removed: bool, restore: Restore) -> DisableFlow {
    bind(
        remove_fallback_flow(),
        |run| DisableRun::Fallback { removed, restore, run },
        |u: ()| disable_finish(removed, restore),
    )
}

/// How the command goes on after this terminal's server.
pub open spec fn disable_unserved(ids: Ids, removed: bool, restore: Restore) -> DisableFlow {
    bind(
        proxy_stub_flow(ids.iids, ids.clsid),
        |run| DisableRun::Proxy { removed, restore, run },
        |u: ()| disable_unproxied(removed, restore),
    )
}

/// How the command goes on once it is known whether there was a server.
pub open spec fn disable_server(ids: Ids, owned: bool, restore: Restore) -> DisableFlow {
    if owned {
        Flow::Ask(Request::Say(Notice::ServerRemoved), DisableRun::ToldServer { ids, restore })
    } else {
        disable_unserved(ids, false, restore)
    }
}

/// How the command goes on once the user was told of the restoration. A failure
/// does not keep it from cleaning up.
pub open spec fn disable_told(ids: Ids, restore: Restore) -> DisableFlow {
    bind(
        removal_flow(server_removal(WEZTERM_TERMHOST_TERMINAL_CLSID@)),
        |run| DisableRun::Server { ids, restore, run },
        |owned: bool| disable_server(ids, owned, restore),
    )
}

/// How the command goes on after the restoration.
pub open spec fn disable_restored(ids: Ids, restore: Restore) -> DisableFlow {
    Flow::Ask(
        Request::Say(restore_notice(restore)),
        DisableRun::ToldRestore { ids, restore },
    )
}

/// The command.
pub open spec fn disable_flow(ids: Ids) -> DisableFlow {
    bind(
        restore_flow(),
        |run| DisableRun::Restoring { ids, run },
        |restore: Restore| disable_restored(ids, restore),
    )
}

impl Resumable<Result<(), Error<Seq<char>>>> for DisableState {
    open spec fn next(self, reply: Reply<Seq<char>>) -> DisableFlow {
        match self {
            DisableRun::Restoring { ids, run } => bind(
                run.next(reply),
                |run| DisableRun::Restoring { ids, run },
                |restore: Restore| disable_restored(ids, restore),
            ),
            DisableRun::ToldRestore { ids, restore } => disable_told(ids, restore),
            DisableRun::Server { ids, restore, run } => bind(
                run.next(reply),
                |run| DisableRun::Server { ids, restore, run },
                |owned: bool| disable_server(ids, owned, restore),
            ),
            DisableRun::ToldServer { ids, restore } => disable_unserved(ids, true, restore),
            DisableRun::Proxy { removed, restore, run } => bind(
                run.next(reply),
                |run| DisableRun::Proxy { removed, restore, run },
                |u: ()| disable_unproxied(removed, restore),
            ),
            DisableRun::Fallback { removed, restore, run } => bind(
                run.next(reply),
                |run| DisableRun::Fallback { removed, restore, run },
                |u: ()| disable_finish(removed, restore),
            ),
            DisableRun::ToldOutcome { restore } => Flow::Done(disable_result(restore)),
        }
    }
}

/// The run-time type of the command.
pub type Disabling = DisableRun<String, Script, Vec<String>, Removals>;

fn notice_of_restore(restore: &Result<bool, Error<String>>) -> (r: Notice<String>)
    ensures
        r.model() == restore_notice(restore.model()),
{
    match restore {
        Ok(true) => Notice::Restored,
        Ok(false) => Notice::LeftAlone,
        Err(e) => Notice::RestoreFailed(e.message()),
    }
}

fn finish(removed: bool, restore: Result<bool, Error<String>>) -> (f: Flow<
    String,
    Disabling,
    Result<(), Error<String>>,
>)
    ensures
        f.model() == disable_finish(removed, restore.model()),
{
    let notice: Notice<String> = if removed {
        Notice::Disabled
    } else {
        Notice::NothingToDo
    };
    Flow::Ask(Request::Say(notice), DisableRun::ToldOutcome { restore })
}

fn after_unproxied(removed: bool, restore: Result<bool, Error<String>>) -> (f: Flow<
    String,
    Disabling,
    Result<(), Error<String>>,
>)
    ensures
        f.model() == disable_unproxied(removed, restore.model()),
{
    match unregister_openconsole_fallback() {
        Flow::Ask(q, run) => Flow::Ask(q, DisableRun::Fallback { removed, restore, run }),
        Flow::Done(_) => finish(removed, restore),
    }
}

fn after_unserved(
    ids: ProxyIds<String, Vec<String>>,
    removed: bool,
    restore: Result<bool, Error<String>>,
) -> (f: Flow<String, Disabling, Result<(), Error<String>>>)
    ensures
        f.model() == disable_unserved(ids.model(), removed, restore.model()),
{
    match unregister_proxy_stub_per_user(&ids.iids, ids.clsid.as_str()) {
        Flow::Ask(q, run) => Flow::Ask(q, DisableRun::Proxy { removed, restore, run }),
        Flow::Done(_) => after_unproxied(removed, restore),
    }
}

fn after_server(
    ids: ProxyIds<String, Vec<String>>,
    owned: bool,
    restore: Result<bool, Error<String>>,
) -> (f: Flow<String, Disabling, Result<(), Error<String>>>)
    ensures
        f.model() == disable_server(ids.model(), owned, restore.model()),
{
    if owned {
        Flow::Ask(Request::Say(Notice::ServerRemoved), DisableRun::ToldServer { ids, restore })
    } else {
        after_unserved(ids, false, restore)
    }
}

fn after_told(
    ids: ProxyIds<String, Vec<String>>,
    restore: Result<bool, Error<String>>,
) -> (f: Flow<String, Disabling, Result<(), Error<String>>>)
    ensures
        f.model() == disable_told(ids.model(), restore.model()),
{
    match unregister_local_server_for_unpackaged() {
        Flow::Ask(q, run) => Flow::Ask(q, DisableRun::Server { ids, restore, run }),
        Flow::Done(owned) => after_server(ids, owned, restore),
    }
}

fn after_restored(
    ids: ProxyIds<String, Vec<String>>,
    restore: Result<bool, Error<String>>,
) -> (f: Flow<String, Disabling, Result<(), Error<String>>>)
    ensures
        f.model() == disable_restored(ids.model(), restore.model()),
{
    Flow::Ask(
        Request::Say(notice_of_restore(&restore)),
        DisableRun::ToldRestore { ids, restore },
    )
}

impl DisableCommand {
    /// Restore the previous selection and remove everything that carries this
    /// terminal's marker. A failure to restore is told at once, does not keep
    /// the command from cleaning up, and is its result in the end.
    pub fn run(ids: ProxyIds<String, Vec<String>>) -> (f: Flow<
        String,
        Disabling,
        Result<(), Error<String>>,
    >)
        ensures
            f.model() == disable_flow(ids.model()),
    {
        match restore_delegation_backup() {
            Flow::Ask(q, run) => Flow::Ask(q, DisableRun::Restoring { ids, run }),
            Flow::Done(restore) => after_restored(ids, restore),
        }
    }
}

impl Disabling {
    /// Go on with the command.
    pub fn resume(self, reply: Reply<String>) -> (f: Flow<
        String,
        Disabling,
        Result<(), Error<String>>,
    >)
        ensures
            f.model() == self.model().next(reply.model()),
    {
        match self {
            DisableRun::Restoring { ids, run } => match run.resume(reply) {
                Flow::Ask(q, run) => Flow::Ask(q, DisableRun::Restoring { ids, run }),
                Flow::Done(restore) => after_restored(ids, restore),
            },
            DisableRun::ToldRestore { ids, restore } => after_told(ids, restore),
            DisableRun::Server { ids, restore, run } => match run.resume(reply) {
                Flow::Ask(q, run) => Flow::Ask(q, DisableRun::Server { ids, restore, run }),
                Flow::Done(owned) => after_server(ids, owned, restore),
            },
            DisableRun::ToldServer { ids, restore } => after_unserved(ids, true, restore),
            DisableRun::Proxy { removed, restore, run } => match run.resume(reply) {
                Flow::Ask(q, run) => Flow::Ask(q, DisableRun::Proxy { removed, restore, run }),
                Flow::Done(_) => after_unproxied(removed, restore),
            },
            DisableRun::Fallback { removed, restore, run } => match run.resume(reply) {
                Flow::Ask(q, run) => Flow::Ask(q, DisableRun::Fallback { removed, restore, run }),
                Flow::Done(_) => finish(removed, restore),
            },
            DisableRun::ToldOutcome { restore } => match restore {
                Ok(_) => Flow::Done(Ok(())),
                Err(e) => Flow::Done(Err(e)),
            },
        }
    }
}

} // verus!
