//! `enable`: make this terminal the Windows default.

use crate::error::{Context, Error, Task};
use crate::machine::{bind, script_flow, Flow, Request, Resumable, Script, ScriptRun, Steps};
use crate::model::Model;
use crate::notice::Notice;
use crate::registration::detect::{
    any_server_flow, brand_clsids, channel_clsids, is_wt_installed, AnyServer,
};
use crate::registration::fallback::{
    fallback_flow, resolve_bundled_openconsole_path, resolve_flow, RegisterFallback,
    ResolveBundled,
};
use crate::registration::ownership::{local_server_steps, register_local_server_for_clsid};
use crate::registration::{
    capture_delegation_backup, capture_flow, register_steps, register_termhost, wezterm_selection,
    CaptureBackup, WEZTERM_TERMHOST_TERMINAL_CLSID,
};
use crate::registry::{Fault, Reply};
use vstd::prelude::*;

verus! {

// ---------------------------------------------------------------------------
// This terminal's own server
// ---------------------------------------------------------------------------

/// The registration of the running executable, waiting.
#[derive(Debug)]
pub enum RegisterSelf<S, L> {
    /// For the path of the executable.
    Exe,
    /// For the edits.
    Writing(ScriptRun<S, L>),
}

impl<S: Model, L: Model> Model for RegisterSelf<S, L> {
    type M = RegisterSelf<S::M, L::M>;

    open spec fn model(&self) -> RegisterSelf<S::M, L::M> {
        match self {
            RegisterSelf::Exe => RegisterSelf::Exe,
            RegisterSelf::Writing(run) => RegisterSelf::Writing(run.model()),
        }
    }
}

/// The registration of the running executable as a specification sees it.
pub type SelfFlow = Flow<Seq<char>, RegisterSelf<Seq<char>, Steps>, Result<(), Error<Seq<char>>>>;

/// The registration of the running executable.
pub open spec fn self_flow() -> SelfFlow {
    Flow::Ask(Request::CurrentExe, RegisterSelf::Exe)
}

/// How it goes on once the path of the executable is known.
pub open spec fn self_after(exe: Result<Seq<char>, Fault<Seq<char>>>) -> SelfFlow {
    match exe {
        Ok(exe) => bind(
            script_flow(local_server_steps(WEZTERM_TERMHOST_TERMINAL_CLSID@, exe)),
            |run| RegisterSelf::Writing(run),
            |r: Result<(), Error<Seq<char>>>| Flow::Done(r),
        ),
        Err(fault) => Flow::Done(
            Err(Error { context: Context::Doing(Task::FindExecutable), cause: fault.cause }),
        ),
    }
}

impl Resumable<Result<(), Error<Seq<char>>>> for RegisterSelf<Seq<char>, Steps> {
    open spec fn next(self, reply: Reply<Seq<char>>) -> SelfFlow {
        match self {
            RegisterSelf::Exe => self_after(reply.text()),
            RegisterSelf::Writing(run) => bind(
                run.next(reply),
                |run| RegisterSelf::Writing(run),
                |r: Result<(), Error<Seq<char>>>| Flow::Done(r),
            ),
        }
    }
}

/// Register the running executable as the server of this terminal's class.
pub fn register_local_server_for_unpackaged() -> (r: Flow<
    String,
    RegisterSelf<String, Script>,
    Result<(), Error<String>>,
>)
    ensures
        r.model() == self_flow(),
{
    Flow::Ask(Request::CurrentExe, RegisterSelf::Exe)
}

impl RegisterSelf<String, Script> {
    /// Go on with the registration.
    pub fn resume(self, reply: Reply<String>) -> (r: Flow<
        String,
        RegisterSelf<String, Script>,
        Result<(), Error<String>>,
    >)
        ensures
            r.model() == self.model().next(reply.model()),
    {
        match self {
            RegisterSelf::Exe => match reply.into_text() {
                Ok(exe) => match register_local_server_for_clsid(
                    WEZTERM_TERMHOST_TERMINAL_CLSID,
                    exe.as_str(),
                ) {
                    Flow::Ask(q, run) => Flow::Ask(q, RegisterSelf::Writing(run)),
                    Flow::Done(r) => Flow::Done(r),
                },
                Err(fault) => Flow::Done(
                    Err(Error { context: Context::Doing(Task::FindExecutable), cause: fault.cause }),
                ),
            },
            RegisterSelf::Writing(run) => match run.resume(reply) {
                Flow::Ask(q, run) => Flow::Ask(q, RegisterSelf::Writing(run)),
                Flow::Done(r) => Flow::Done(r),
            },
        }
    }
}

// ---------------------------------------------------------------------------
// The fallback console host
// ---------------------------------------------------------------------------

/// The fallback stage, waiting.
#[derive(Debug)]
pub enum FallbackStage<S, L> {
    /// For the registration.
    Registering(RegisterFallback<S, L>),
    /// For whether there is a bundled file at all.
    Resolving(ResolveBundled),
    /// For the user to be told.
    Saying,
}

impl<S: Model, L: Model> Model for FallbackStage<S, L> {
    type M = FallbackStage<S::M, L::M>;

    open spec fn model(&self) -> FallbackStage<S::M, L::M> {
        match self {
            FallbackStage::Registering(m) => FallbackStage::Registering(m.model()),
            FallbackStage::Resolving(m) => FallbackStage::Resolving(m.model()),
            FallbackStage::Saying => FallbackStage::Saying,
        }
    }
}

/// The fallback stage as a specification sees it.
pub type FallbackStageFlow = Flow<Seq<char>, FallbackStage<Seq<char>, Steps>, ()>;

/// How the stage goes on once it is known whether there is a bundled file.
pub open spec fn stage_resolved(bundled: Option<Seq<char>>) -> FallbackStageFlow {
    match bundled {
        Some(_) => Flow::Done(()),
        None => Flow::Ask(Request::Say(Notice::OpenConsoleMissing), FallbackStage::Saying),
    }
}

/// How the stage goes on after the registration. Its failure is told, not
/// passed on.
pub open spec fn stage_registered(
    registered: Result<(), Error<Seq<char>>>,
) -> FallbackStageFlow {
    match registered {
        Ok(_) => bind(
            resolve_flow(),
            |m| FallbackStage::Resolving(m),
            |bundled: Option<Seq<char>>| stage_resolved(bundled),
        ),
        Err(e) => Flow::Ask(
            Request::Say(Notice::FallbackSkipped(crate::error::error_text(e))),
            FallbackStage::Saying,
        ),
    }
}

/// The fallback stage.
pub open spec fn stage_flow() -> FallbackStageFlow {
    bind(
        fallback_flow(),
        |m| FallbackStage::Registering(m),
        |r: Result<(), Error<Seq<char>>>| stage_registered(r),
    )
}

impl Resumable<()> for FallbackStage<Seq<char>, Steps> {
    open spec fn next(self, reply: Reply<Seq<char>>) -> FallbackStageFlow {
        match self {
            FallbackStage::Registering(m) => bind(
                m.next(reply),
                |m| FallbackStage::Registering(m),
                |r: Result<(), Error<Seq<char>>>| stage_registered(r),
            ),
            FallbackStage::Resolving(m) => bind(
                m.next(reply),
                |m| FallbackStage::Resolving(m),
                |bundled: Option<Seq<char>>| stage_resolved(bundled),
            ),
            FallbackStage::Saying => Flow::Done(()),
        }
    }
}

fn after_resolved(bundled: Option<String>) -> (r: Flow<String, FallbackStage<String, Script>, ()>)
    ensures
        r.model() == stage_resolved(bundled.model()),
{
    match bundled {
        Some(_) => Flow::Done(()),
        None => Flow::Ask(Request::Say(Notice::OpenConsoleMissing), FallbackStage::Saying),
    }
}

fn after_registered(registered: Result<(), Error<String>>) -> (r: Flow<
    String,
    FallbackStage<String, Script>,
    (),
>)
    ensures
        r.model() == stage_registered(registered.model()),
{
    match registered {
        Ok(_) => match resolve_bundled_openconsole_path() {
            Flow::Ask(q, m) => Flow::Ask(q, FallbackStage::Resolving(m)),
            Flow::Done(bundled) => after_resolved(bundled),
        },
        Err(e) => Flow::Ask(
            Request::Say(Notice::FallbackSkipped(e.message())),
            FallbackStage::Saying,
        ),
    }
}

/// Register the bundled console host as fallback. What stands in the way is
/// told to the user and goes no further.
pub fn register_openconsole_fallback() -> (r: Flow<String, FallbackStage<String, Script>, ()>)
    ensures
        r.model() == stage_flow(),
{
    match crate::registration::fallback::register_openconsole_fallback() {
        Flow::Ask(q, m) => Flow::Ask(q, FallbackStage::Registering(m)),
        Flow::Done(r) => after_registered(r),
    }
}

impl FallbackStage<String, Script> {
    /// Go on with the stage.
    pub fn resume(self, reply: Reply<String>) -> (r: Flow<
        String,
        FallbackStage<String, Script>,
        (),
    >)
        ensures
            r.model() == self.model().next(reply.model()),
    {
        match self {
            FallbackStage::Registering(m) => match m.resume(reply) {
                Flow::Ask(q, m) => Flow::Ask(q, FallbackStage::Registering(m)),
                Flow::Done(r) => after_registered(r),
            },
            FallbackStage::Resolving(m) => match m.resume(reply) {
                Flow::Ask(q, m) => Flow::Ask(q, FallbackStage::Resolving(m)),
                Flow::Done(bundled) => after_resolved(bundled),
            },
            FallbackStage::Saying => Flow::Done(()),
        }
    }
}

// ---------------------------------------------------------------------------
// The proxy/stub library
// ---------------------------------------------------------------------------

/// The proxy/stub stage, waiting. `J` is a list of classes.
#[derive(Debug)]
pub enum ProxyStage<S, J> {
    /// For the library.
    Finding,
    /// For its registration.
    Registering,
    /// For whether Windows Terminal is installed.
    Asking(AnyServer<S, J>),
    /// For the user to be told.
    Saying,
}

impl<S: Model, J: Model> Model for ProxyStage<S, J> {
    type M = ProxyStage<S::M, J::M>;

    open spec fn model(&self) -> ProxyStage<S::M, J::M> {
        match self {
            ProxyStage::Finding => ProxyStage::Finding,
            ProxyStage::Registering => ProxyStage::Registering,
            ProxyStage::Asking(m) => ProxyStage::Asking(m.model()),
            ProxyStage::Saying => ProxyStage::Saying,
        }
    }
}

/// The proxy/stub stage as a specification sees it.
pub type ProxyStageFlow = Flow<Seq<char>, ProxyStage<Seq<char>, Seq<Seq<char>>>, ()>;

/// The proxy/stub stage.
pub open spec fn proxy_flow() -> ProxyStageFlow {
    Flow::Ask(Request::FindProxyStub, ProxyStage::Finding)
}

/// How the stage goes on without a library, once it is known whether Windows
/// Terminal is installed.
pub open spec fn proxy_without(installed: bool) -> ProxyStageFlow {
    if installed {
        Flow::Ask(Request::Say(Notice::ProxyDllFromWindowsTerminal), ProxyStage::Saying)
    } else {
        Flow::Ask(Request::Say(Notice::ProxyDllMissing), ProxyStage::Saying)
    }
}

/// How the stage goes on once the library is known.
pub open spec fn proxy_found(dll: Result<Seq<char>, Fault<Seq<char>>>) -> ProxyStageFlow {
    match dll {
        Ok(dll) => Flow::Ask(Request::RegisterProxyStub(dll), ProxyStage::Registering),
        Err(_) => bind(
            any_server_flow(brand_clsids(channel_clsids())),
            |m| ProxyStage::Asking(m),
            |installed: bool| proxy_without(installed),
        ),
    }
}

impl Resumable<()> for ProxyStage<Seq<char>, Seq<Seq<char>>> {
    open spec fn next(self, reply: Reply<Seq<char>>) -> ProxyStageFlow {
        match self {
            ProxyStage::Finding => proxy_found(reply.text()),
            ProxyStage::Registering => match reply.outcome() {
                Ok(_) => Flow::Done(()),
                Err(fault) => Flow::Ask(
                    Request::Say(Notice::ProxyStubSkipped(fault.cause)),
                    ProxyStage::Saying,
                ),
            },
            ProxyStage::Asking(m) => bind(
                m.next(reply),
                |m| ProxyStage::Asking(m),
                |installed: bool| proxy_without(installed),
            ),
            ProxyStage::Saying => Flow::Done(()),
        }
    }
}

fn without_library(installed: bool) -> (r: Flow<String, ProxyStage<String, Vec<String>>, ()>)
    ensures
        r.model() == proxy_without(installed),
{
    if installed {
        Flow::Ask(Request::Say(Notice::ProxyDllFromWindowsTerminal), ProxyStage::Saying)
    } else {
        Flow::Ask(Request::Say(Notice::ProxyDllMissing), ProxyStage::Saying)
    }
}

/// Register the bundled proxy/stub library for this user. What stands in the
/// way is told to the user and goes no further.
pub fn register_proxy_stub_per_user() -> (r: Flow<String, ProxyStage<String, Vec<String>>, ()>)
    ensures
        r.model() == proxy_flow(),
{
    Flow::Ask(Request::FindProxyStub, ProxyStage::Finding)
}

impl ProxyStage<String, Vec<String>> {
    /// Go on with the stage.
    pub fn resume(self, reply: Reply<String>) -> (r: Flow<
        String,
        ProxyStage<String, Vec<String>>,
        (),
    >)
        ensures
            r.model() == self.model().next(reply.model()),
    {
        match self {
            ProxyStage::Finding => match reply.into_text() {
                Ok(dll) => Flow::Ask(Request::RegisterProxyStub(dll), ProxyStage::Registering),
                Err(_) => match is_wt_installed() {
                    Flow::Ask(q, m) => Flow::Ask(q, ProxyStage::Asking(m)),
                    Flow::Done(installed) => without_library(installed),
                },
            },
            ProxyStage::Registering => match reply.into_outcome() {
                Ok(_) => Flow::Done(()),
                Err(fault) => Flow::Ask(
                    Request::Say(Notice::ProxyStubSkipped(fault.cause)),
                    ProxyStage::Saying,
                ),
            },
            ProxyStage::Asking(m) => match m.resume(reply) {
                Flow::Ask(q, m) => Flow::Ask(q, ProxyStage::Asking(m)),
                Flow::Done(installed) => without_library(installed),
            },
            ProxyStage::Saying => Flow::Done(()),
        }
    }
}

// ---------------------------------------------------------------------------
// The command
// ---------------------------------------------------------------------------

/// The command `enable`.
#[derive(Clone, Copy, Debug)]
pub struct EnableCommand {}

/// The command `enable`, waiting.
#[derive(Debug)]
pub enum EnableRun<S, L, J> {
    /// For the current selection to be kept.
    Capturing(CaptureBackup<S, L>),
    /// For this terminal's server.
    Server(RegisterSelf<S, L>),
    /// For the fallback console host.
    Fallback(FallbackStage<S, L>),
    /// For the proxy/stub library.
    Proxy(ProxyStage<S, J>),
    /// For the selection to be written.
    Selecting(ScriptRun<S, L>),
    /// For the user to be told of the selection.
    ToldEnabled,
    /// For the user to be told of the server.
    ToldServer,
}

impl<S: Model, L: Model, J: Model> Model for EnableRun<S, L, J> {
    type M = EnableRun<S::M, L::M, J::M>;

    open spec fn model(&self) -> EnableRun<S::M, L::M, J::M> {
        match self {
            EnableRun::Capturing(m) => EnableRun::Capturing(m.model()),
            EnableRun::Server(m) => EnableRun::Server(m.model()),
            EnableRun::Fallback(m) => EnableRun::Fallback(m.model()),
            EnableRun::Proxy(m) => EnableRun::Proxy(m.model()),
            EnableRun::Selecting(m) => EnableRun::Selecting(m.model()),
            EnableRun::ToldEnabled => EnableRun::ToldEnabled,
            EnableRun::ToldServer => EnableRun::ToldServer,
        }
    }
}

/// The command as a specification sees it.
pub type EnableState = EnableRun<Seq<char>, Steps, Seq<Seq<char>>>;

/// The same with what it asks for.
pub type EnableFlow = Flow<Seq<char>, EnableState, Result<(), Error<Seq<char>>>>;

/// How the command goes on once the selection was written.
pub open spec fn enable_selected(r: Result<(), Error<Seq<char>>>) -> EnableFlow {
    match r {
        Ok(_) => Flow::Ask(Request::Say(Notice::Enabled), EnableRun::ToldEnabled),
        Err(e) => Flow::Done(Err(e)),
    }
}

/// How the command goes on after the proxy/stub stage.
pub open spec fn enable_proxied() -> EnableFlow {
    bind(
        script_flow(register_steps(wezterm_selection())),
        |m| EnableRun::Selecting(m),
        |r: Result<(), Error<Seq<char>>>| enable_selected(r),
    )
}

/// How the command goes on after the fallback stage.
pub open spec fn enable_backed() -> EnableFlow {
    bind(proxy_flow(), |m| EnableRun::Proxy(m), |u: ()| enable_proxied())
}

/// How the command goes on once this terminal's server was registered.
pub open spec fn enable_served(r: Result<(), Error<Seq<char>>>) -> EnableFlow {
    match r {
        Ok(_) => bind(stage_flow(), |m| EnableRun::Fallback(m), |u: ()| enable_backed()),
        Err(e) => Flow::Done(Err(e)),
    }
}

/// How the command goes on once the current selection was kept.
pub open spec fn enable_captured(r: Result<(), Error<Seq<char>>>) -> EnableFlow {
    match r {
        Ok(_) => bind(
            self_flow(),
            |m| EnableRun::Server(m),
            |r: Result<(), Error<Seq<char>>>| enable_served(r),
        ),
        Err(e) => Flow::Done(Err(e)),
    }
}

/// The command.
pub open spec fn enable_flow() -> EnableFlow {
    bind(
        capture_flow(),
        |m| EnableRun::Capturing(m),
        |r: Result<(), Error<Seq<char>>>| enable_captured(r),
    )
}

impl Resumable<Result<(), Error<Seq<char>>>> for EnableState {
    open spec fn next(self, reply: Reply<Seq<char>>) -> EnableFlow {
        match self {
            EnableRun::Capturing(m) => bind(
                m.next(reply),
                |m| EnableRun::Capturing(m),
                |r: Result<(), Error<Seq<char>>>| enable_captured(r),
            ),
            EnableRun::Server(m) => bind(
                m.next(reply),
                |m| EnableRun::Server(m),
                |r: Result<(), Error<Seq<char>>>| enable_served(r),
            ),
            EnableRun::Fallback(m) => bind(
                m.next(reply),
                |m| EnableRun::Fallback(m),
                |u: ()| enable_backed(),
            ),
            EnableRun::Proxy(m) => bind(
                m.next(reply),
                |m| EnableRun::Proxy(m),
                |u: ()| enable_proxied(),
            ),
            EnableRun::Selecting(m) => bind(
                m.next(reply),
                |m| EnableRun::Selecting(m),
                |r: Result<(), Error<Seq<char>>>| enable_selected(r),
            ),
            EnableRun::ToldEnabled => Flow::Ask(
                Request::Say(Notice::ServerRegistered),
                EnableRun::ToldServer,
            ),
            EnableRun::ToldServer => Flow::Done(Ok(())),
        }
    }
}

/// The run-time type of the command.
pub type Enabling = EnableRun<String, Script, Vec<String>>;

fn after_selected(r: Result<(), Error<String>>) -> (f: Flow<
    String,
    Enabling,
    Result<(), Error<String>>,
>)
    ensures
        f.model() == enable_selected(r.model()),
{
    match r {
        Ok(_) => Flow::Ask(Request::Say(Notice::Enabled), EnableRun::ToldEnabled),
        Err(e) => Flow::Done(Err(e)),
    }
}

fn after_proxied() -> (f: Flow<String, Enabling, Result<(), Error<String>>>)
    ensures
        f.model() == enable_proxied(),
{
    match register_termhost() {
        Flow::Ask(q, m) => Flow::Ask(q, EnableRun::Selecting(m)),
        Flow::Done(r) => after_selected(r),
    }
}

fn after_backed() -> (f: Flow<String, Enabling, Result<(), Error<String>>>)
    ensures
        f.model() == enable_backed(),
{
    match register_proxy_stub_per_user() {
        Flow::Ask(q, m) => Flow::Ask(q, EnableRun::Proxy(m)),
        Flow::Done(_) => after_proxied(),
    }
}

fn after_served(r: Result<(), Error<String>>) -> (f: Flow<
    String,
    Enabling,
    Result<(), Error<String>>,
>)
    ensures
        f.model() == enable_served(r.model()),
{
    match r {
        Ok(_) => match register_openconsole_fallback() {
            Flow::Ask(q, m) => Flow::Ask(q, EnableRun::Fallback(m)),
            Flow::Done(_) => after_backed(),
        },
        Err(e) => Flow::Done(Err(e)),
    }
}

fn after_captured(r: Result<(), Error<String>>) -> (f: Flow<
    String,
    Enabling,
    Result<(), Error<String>>,
>)
    ensures
        f.model() == enable_captured(r.model()),
{
    match r {
        Ok(_) => match register_local_server_for_unpackaged() {
            Flow::Ask(q, m) => Flow::Ask(q, EnableRun::Server(m)),
            Flow::Done(r) => after_served(r),
        },
        Err(e) => Flow::Done(Err(e)),
    }
}

impl EnableCommand {
    /// Keep the current selection, register what the handoff needs, and select
    /// this terminal. Without the backup, the server or the selection the
    /// command fails; the fallback console host and the proxy/stub library may
    /// be missing.
    pub fn run() -> (f: Flow<String, Enabling, Result<(), Error<String>>>)
        ensures
            f.model() == enable_flow(),
    {
        match capture_delegation_backup() {
            Flow::Ask(q, m) => Flow::Ask(q, EnableRun::Capturing(m)),
            Flow::Done(r) => after_captured(r),
        }
    }
}

impl Enabling {
    /// Go on with the command.
    pub fn resume(self, reply: Reply<String>) -> (f: Flow<
        String,
        Enabling,
        Result<(), Error<String>>,
    >)
        ensures
            f.model() == self.model().next(reply.model()),
    {
        match self {
            EnableRun::Capturing(m) => match m.resume(reply) {
                Flow::Ask(q, m) => Flow::Ask(q, EnableRun::Capturing(m)),
                Flow::Done(r) => after_captured(r),
            },
            EnableRun::Server(m) => match m.resume(reply) {
                Flow::Ask(q, m) => Flow::Ask(q, EnableRun::Server(m)),
                Flow::Done(r) => after_served(r),
            },
            EnableRun::Fallback(m) => match m.resume(reply) {
                Flow::Ask(q, m) => Flow::Ask(q, EnableRun::Fallback(m)),
                Flow::Done(_) => after_backed(),
            },
            EnableRun::Proxy(m) => match m.resume(reply) {
                Flow::Ask(q, m) => Flow::Ask(q, EnableRun::Proxy(m)),
                Flow::Done(_) => after_proxied(),
            },
            EnableRun::Selecting(m) => match m.resume(reply) {
                Flow::Ask(q, m) => Flow::Ask(q, EnableRun::Selecting(m)),
                Flow::Done(r) => after_selected(r),
            },
            EnableRun::ToldEnabled => Flow::Ask(
                Request::Say(Notice::ServerRegistered),
                EnableRun::ToldServer,
            ),
            EnableRun::ToldServer => Flow::Done(Ok(())),
        }
    }
}

} // verus!
