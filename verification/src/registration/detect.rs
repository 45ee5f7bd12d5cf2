//! Detection of installed COM servers, among them Windows Terminal's.

use crate::machine::{bind, Flow, Request, Resumable};
use crate::model::Model;
use crate::registration::ownership::{ownership_flow, subkey_is_wezterm_owned, OwnershipCheck};
use crate::registry::{Fault, Key, Reply, Root, ValueName};
use crate::text::{exe_token, extract_exe_token, starts_with};
use vstd::prelude::*;

verus! {

/// A terminal host that may be installed.
#[derive(Clone, Copy, Debug)]
pub struct KnownHost {
    pub id: &'static str,
    pub console_clsid: &'static str,
}

/// The four channels of Windows Terminal. Each ships `OpenConsole.exe` under a
/// class of its own.
pub open spec fn channel_clsids() -> Seq<(Seq<char>, Seq<char>)> {
    seq![
        ("wt-release"@, "{2EACA947-7F5F-4CFA-BA87-8F7FBEEFBE69}"@),
        ("wt-preview"@, "{06EC847C-C0A5-46B8-92CB-7C92F6E35CD5}"@),
        ("wt-canary"@, "{A854D02A-F2FE-44A5-BB24-D03F4CF830D4}"@),
        ("wt-dev"@, "{1F9F2BF5-5BC3-4F17-B0E6-912413F1F451}"@),
    ]
}

/// Hosts as pairs of their id and class.
pub open spec fn hosts_model(hosts: Seq<KnownHost>) -> Seq<(Seq<char>, Seq<char>)> {
    hosts.map_values(|h: KnownHost| (h.id@, h.console_clsid@))
}

/// The hosts that are known.
pub fn known_hosts() -> (r: Vec<KnownHost>)
    ensures
        hosts_model(r@) == channel_clsids(),
{
    let hosts: Vec<KnownHost> = vec![
        KnownHost { id: "wt-release", console_clsid: "{2EACA947-7F5F-4CFA-BA87-8F7FBEEFBE69}" },
        KnownHost { id: "wt-preview", console_clsid: "{06EC847C-C0A5-46B8-92CB-7C92F6E35CD5}" },
        KnownHost { id: "wt-canary", console_clsid: "{A854D02A-F2FE-44A5-BB24-D03F4CF830D4}" },
        KnownHost { id: "wt-dev", console_clsid: "{1F9F2BF5-5BC3-4F17-B0E6-912413F1F451}" },
    ];
    assert(hosts_model(hosts@) =~= channel_clsids());
    hosts
}

/// The classes of those hosts whose id has the prefix of Windows Terminal.
pub open spec fn brand_clsids(hosts: Seq<(Seq<char>, Seq<char>)>) -> Seq<Seq<char>>
    decreases hosts.len(),
{
    if hosts.len() == 0 {
        seq![]
    } else if "wt-"@.is_prefix_of(hosts.last().0) {
        brand_clsids(hosts.drop_last()).push(hosts.last().1)
    } else {
        brand_clsids(hosts.drop_last())
    }
}

/// The console classes of Windows Terminal's channels.
pub fn wt_brand_openconsole_clsids() -> (r: Vec<String>)
    ensures
        r.model() == brand_clsids(channel_clsids()),
{
    let hosts: Vec<KnownHost> = known_hosts();
    let ghost all = hosts_model(hosts@);
    let mut out: Vec<String> = Vec::new();
    let mut i: usize = 0;
    assert(out.model() =~= brand_clsids(all.take(0)));
    while i < hosts.len()
        invariant
            0 <= i <= hosts@.len(),
            all == hosts_model(hosts@),
            out.model() == brand_clsids(all.take(i as int)),
        decreases hosts@.len() - i,
    {
        let ghost before = out.model();
        if starts_with(hosts[i].id, "wt-") {
            out.push(hosts[i].console_clsid.to_string());
            assert(out.model() =~= before.push(hosts@[i as int].console_clsid@));
        }
        assert(all.take(i + 1).drop_last() =~= all.take(i as int));
        i = i + 1;
    }
    assert(all.take(all.len() as int) =~= all);
    out
}

// ---------------------------------------------------------------------------
// The server of a class
// ---------------------------------------------------------------------------

/// The executable that a `LocalServer32` value names; `None` if there is none.
pub open spec fn server_exe(value: Result<Seq<char>, Fault<Seq<char>>>) -> Option<Seq<char>> {
    match value {
        Ok(v) => if exe_token(v).len() > 0 {
            Some(exe_token(v))
        } else {
            None
        },
        Err(_) => None,
    }
}

/// The lookup of a server's executable, waiting.
#[derive(Debug)]
pub enum ReadServer<S> {
    /// For the key to be opened.
    Opening { root: Root, clsid: S },
    /// For its value.
    Value,
}

impl<S: Model> Model for ReadServer<S> {
    type M = ReadServer<S::M>;

    open spec fn model(&self) -> ReadServer<S::M> {
        match self {
            ReadServer::Opening { root, clsid } => ReadServer::Opening {
                root: *root,
                clsid: clsid.model(),
            },
            ReadServer::Value => ReadServer::Value,
        }
    }
}

/// The lookup of a server's executable below a registry root.
pub open spec fn read_server_flow(root: Root, clsid: Seq<char>) -> Flow<
    Seq<char>,
    ReadServer<Seq<char>>,
    Option<Seq<char>>,
> {
    Flow::Ask(
        Request::OpenRead(root, Key::LocalServer(clsid)),
        ReadServer::Opening { root, clsid },
    )
}

impl Resumable<Option<Seq<char>>> for ReadServer<Seq<char>> {
    open spec fn next(self, reply: Reply<Seq<char>>) -> Flow<Seq<char>, Self, Option<Seq<char>>> {
        match self {
            ReadServer::Opening { root, clsid } => match reply.outcome() {
                Ok(_) => Flow::Ask(
                    Request::GetString(root, Key::LocalServer(clsid), ValueName::Default),
                    ReadServer::Value,
                ),
                Err(_) => Flow::Done(None),
            },
            ReadServer::Value => Flow::Done(server_exe(reply.text())),
        }
    }
}

fn exe_of(value: Result<String, Fault<String>>) -> (r: Option<String>)
    ensures
        r.model() == server_exe(value.model()),
{
    match value {
        Ok(v) => {
            let exe: &str = extract_exe_token(v.as_str());
            if exe.unicode_len() == 0 {
                None
            } else {
                Some(exe.to_string())
            }
        },
        Err(_) => None,
    }
}

/// Look up the executable of a class's local server below a registry root,
/// without quotes and arguments. `None` if it is missing or empty.
pub fn read_local_server_exe(root: Root, clsid: &str) -> (r: Flow<
    String,
    ReadServer<String>,
    Option<String>,
>)
    ensures
        r.model() == read_server_flow(root, clsid@),
{
    Flow::Ask(
        Request::OpenRead(root, Key::LocalServer(clsid.to_string())),
        ReadServer::Opening { root, clsid: clsid.to_string() },
    )
}

impl ReadServer<String> {
    /// Go on with the lookup.
    pub fn resume(self, reply: Reply<String>) -> (r: Flow<
        String,
        ReadServer<String>,
        Option<String>,
    >)
        ensures
            r.model() == self.model().next(reply.model()),
    {
        match self {
            ReadServer::Opening { root, clsid } => match reply.into_outcome() {
                Ok(_) => Flow::Ask(
                    Request::GetString(root, Key::LocalServer(clsid), ValueName::Default),
                    ReadServer::Value,
                ),
                Err(_) => Flow::Done(None),
            },
            ReadServer::Value => Flow::Done(exe_of(reply.into_text())),
        }
    }
}

/// The search for a server, waiting.
#[derive(Debug)]
pub enum FindServer<S> {
    /// For the server registered below `root`.
    Reading { root: Root, clsid: S, read: ReadServer<S> },
    /// For whether its executable exists.
    Exists { root: Root, clsid: S, path: S },
}

impl<S: Model> Model for FindServer<S> {
    type M = FindServer<S::M>;

    open spec fn model(&self) -> FindServer<S::M> {
        match self {
            FindServer::Reading { root, clsid, read } => FindServer::Reading {
                root: *root,
                clsid: clsid.model(),
                read: read.model(),
            },
            FindServer::Exists { root, clsid, path } => FindServer::Exists {
                root: *root,
                clsid: clsid.model(),
                path: path.model(),
            },
        }
    }
}

/// A search as a specification sees it.
pub type FindFlow = Flow<Seq<char>, FindServer<Seq<char>>, Option<Seq<char>>>;

/// The search below one registry root.
pub open spec fn find_below(root: Root, clsid: Seq<char>) -> FindFlow {
    Flow::Ask(
        Request::OpenRead(root, Key::LocalServer(clsid)),
        FindServer::Reading { root, clsid, read: ReadServer::Opening { root, clsid } },
    )
}

/// How the search goes on when there is nothing below `root`: the machine's
/// registry comes after the user's.
pub open spec fn find_elsewhere(root: Root, clsid: Seq<char>) -> FindFlow {
    match root {
        Root::CurrentUser => find_below(Root::LocalMachine, clsid),
        Root::LocalMachine => Flow::Done(None),
    }
}

/// How the search goes on once it is known what is registered below `root`.
pub open spec fn find_after(root: Root, clsid: Seq<char>, exe: Option<Seq<char>>) -> FindFlow {
    match exe {
        Some(path) => Flow::Ask(
            Request::PathExists(path),
            FindServer::Exists { root, clsid, path },
        ),
        None => find_elsewhere(root, clsid),
    }
}

/// The search for a server.
pub open spec fn find_flow(clsid: Seq<char>) -> FindFlow {
    find_below(Root::CurrentUser, clsid)
}

impl Resumable<Option<Seq<char>>> for FindServer<Seq<char>> {
    open spec fn next(self, reply: Reply<Seq<char>>) -> FindFlow {
        match self {
            FindServer::Reading { root, clsid, read } => bind(
                read.next(reply),
                |read| FindServer::Reading { root, clsid, read },
                |exe: Option<Seq<char>>| find_after(root, clsid, exe),
            ),
            FindServer::Exists { root, clsid, path } => if reply.flag() {
                Flow::Done(Some(path))
            } else {
                find_elsewhere(root, clsid)
            },
        }
    }
}

fn search_below(root: Root, clsid: String) -> (r: Flow<String, FindServer<String>, Option<String>>)
    ensures
        r.model() == find_below(root, clsid@),
{
    match read_local_server_exe(root, clsid.as_str()) {
        Flow::Ask(q, read) => Flow::Ask(q, FindServer::Reading { root, clsid, read }),
        Flow::Done(found) => Flow::Done(found),
    }
}

fn search_elsewhere(root: Root, clsid: String) -> (r: Flow<
    String,
    FindServer<String>,
    Option<String>,
>)
    ensures
        r.model() == find_elsewhere(root, clsid@),
{
    match root {
        Root::CurrentUser => search_below(Root::LocalMachine, clsid),
        Root::LocalMachine => Flow::Done(None),
    }
}

/// Find the executable registered for a class, in the user's registry first and
/// the machine's second. One that does not exist on disk is passed over.
pub fn find_clsid_server_path(clsid: &str) -> (r: Flow<
    String,
    FindServer<String>,
    Option<String>,
>)
    ensures
        r.model() == find_flow(clsid@),
{
    search_below(Root::CurrentUser, clsid.to_string())
}

impl FindServer<String> {
    /// Go on with the search.
    pub fn resume(self, reply: Reply<String>) -> (r: Flow<
        String,
        FindServer<String>,
        Option<String>,
    >)
        ensures
            r.model() == self.model().next(reply.model()),
    {
        match self {
            FindServer::Reading { root, clsid, read } => match read.resume(reply) {
                Flow::Ask(q, read) => Flow::Ask(q, FindServer::Reading { root, clsid, read }),
                Flow::Done(Some(path)) => Flow::Ask(
                    Request::PathExists(path.clone()),
                    FindServer::Exists { root, clsid, path },
                ),
                Flow::Done(None) => search_elsewhere(root, clsid),
            },
            FindServer::Exists { root, clsid, path } => {
                if reply.as_flag() {
                    Flow::Done(Some(path))
                } else {
                    search_elsewhere(root, clsid)
                }
            },
        }
    }
}

/// The question whether a class has a server, waiting.
#[derive(Debug)]
pub struct ServerExists<S> {
    pub find: FindServer<S>,
}

impl<S: Model> Model for ServerExists<S> {
    type M = ServerExists<S::M>;

    open spec fn model(&self) -> ServerExists<S::M> {
        ServerExists { find: self.find.model() }
    }
}

/// The question whether a class has a server.
pub open spec fn exists_flow(clsid: Seq<char>) -> Flow<Seq<char>, ServerExists<Seq<char>>, bool> {
    bind(
        find_flow(clsid),
        |find| ServerExists { find },
        |path: Option<Seq<char>>| Flow::Done(path is Some),
    )
}

impl Resumable<bool> for ServerExists<Seq<char>> {
    open spec fn next(self, reply: Reply<Seq<char>>) -> Flow<Seq<char>, Self, bool> {
        bind(
            self.find.next(reply),
            |find| ServerExists { find },
            |path: Option<Seq<char>>| Flow::Done(path is Some),
        )
    }
}

/// Ask whether a class has a server whose executable exists.
pub fn clsid_server_exists(clsid: &str) -> (r: Flow<String, ServerExists<String>, bool>)
    ensures
        r.model() == exists_flow(clsid@),
{
    match find_clsid_server_path(clsid) {
        Flow::Ask(q, find) => Flow::Ask(q, ServerExists { find }),
        Flow::Done(path) => Flow::Done(path.is_some()),
    }
}

impl ServerExists<String> {
    /// Go on with the question.
    pub fn resume(self, reply: Reply<String>) -> (r: Flow<String, ServerExists<String>, bool>)
        ensures
            r.model() == self.model().next(reply.model()),
    {
        match self.find.resume(reply) {
            Flow::Ask(q, find) => Flow::Ask(q, ServerExists { find }),
            Flow::Done(path) => Flow::Done(path.is_some()),
        }
    }
}

// ---------------------------------------------------------------------------
// Windows Terminal
// ---------------------------------------------------------------------------

/// The question whether another host serves a class, waiting.
#[derive(Debug)]
pub enum HostServes<S> {
    /// For whether the user's registration is this terminal's own.
    Checking { clsid: S, check: OwnershipCheck<S> },
    /// For the server.
    Finding(FindServer<S>),
}

impl<S: Model> Model for HostServes<S> {
    type M = HostServes<S::M>;

    open spec fn model(&self) -> HostServes<S::M> {
        match self {
            HostServes::Checking { clsid, check } => HostServes::Checking {
                clsid: clsid.model(),
                check: check.model(),
            },
            HostServes::Finding(find) => HostServes::Finding(find.model()),
        }
    }
}

/// A question about another host as a specification sees it.
pub type HostFlow = Flow<Seq<char>, HostServes<Seq<char>>, bool>;

/// How the question goes on once it is known whether the user's registration is
/// this terminal's own. One that is, is passed over.
pub open spec fn host_checked(clsid: Seq<char>, owned: bool) -> HostFlow {
    bind(
        if owned {
            find_below(Root::LocalMachine, clsid)
        } else {
            find_flow(clsid)
        },
        |find| HostServes::Finding(find),
        |path: Option<Seq<char>>| Flow::Done(path is Some),
    )
}

/// The question whether another host serves a class.
pub open spec fn host_flow(clsid: Seq<char>) -> HostFlow {
    bind(
        ownership_flow(Key::Clsid(clsid)),
        |check| HostServes::Checking { clsid, check },
        |owned: bool| host_checked(clsid, owned),
    )
}

impl Resumable<bool> for HostServes<Seq<char>> {
    open spec fn next(self, reply: Reply<Seq<char>>) -> HostFlow {
        match self {
            HostServes::Checking { clsid, check } => bind(
                check.next(reply),
                |check| HostServes::Checking { clsid, check },
                |owned: bool| host_checked(clsid, owned),
            ),
            HostServes::Finding(find) => bind(
                find.next(reply),
                |find| HostServes::Finding(find),
                |path: Option<Seq<char>>| Flow::Done(path is Some),
            ),
        }
    }
}

fn after_checked(clsid: String, owned: bool) -> (r: Flow<String, HostServes<String>, bool>)
    ensures
        r.model() == host_checked(clsid@, owned),
{
    let search: Flow<String, FindServer<String>, Option<String>> = if owned {
        search_below(Root::LocalMachine, clsid)
    } else {
        search_below(Root::CurrentUser, clsid)
    };
    match search {
        Flow::Ask(q, find) => Flow::Ask(q, HostServes::Finding(find)),
        Flow::Done(path) => Flow::Done(path.is_some()),
    }
}

/// Ask whether another host serves a class, with an executable that exists. What
/// this terminal registered for the class itself does not count.
pub fn other_host_serves(clsid: &str) -> (r: Flow<String, HostServes<String>, bool>)
    ensures
        r.model() == host_flow(clsid@),
{
    match subkey_is_wezterm_owned(Key::Clsid(clsid.to_string())) {
        Flow::Ask(q, check) => Flow::Ask(
            q,
            HostServes::Checking { clsid: clsid.to_string(), check },
        ),
        Flow::Done(owned) => after_checked(clsid.to_string(), owned),
    }
}

impl HostServes<String> {
    /// Go on with the question.
    pub fn resume(self, reply: Reply<String>) -> (r: Flow<String, HostServes<String>, bool>)
        ensures
            r.model() == self.model().next(reply.model()),
    {
        match self {
            HostServes::Checking { clsid, check } => match check.resume(reply) {
                Flow::Ask(q, check) => Flow::Ask(q, HostServes::Checking { clsid, check }),
                Flow::Done(owned) => after_checked(clsid, owned),
            },
            HostServes::Finding(find) => match find.resume(reply) {
                Flow::Ask(q, find) => Flow::Ask(q, HostServes::Finding(find)),
                Flow::Done(path) => Flow::Done(path.is_some()),
            },
        }
    }
}

/// The question whether another host serves any of several classes, waiting. `J`
/// is the list of the classes still to be asked about.
#[derive(Debug)]
pub struct AnyServer<S, J> {
    pub current: HostServes<S>,
    pub rest: J,
}

impl<S: Model, J: Model> Model for AnyServer<S, J> {
    type M = AnyServer<S::M, J::M>;

    open spec fn model(&self) -> AnyServer<S::M, J::M> {
        AnyServer { current: self.current.model(), rest: self.rest.model() }
    }
}

/// A question about several classes as a specification sees it.
pub type AnyServerFlow = Flow<Seq<char>, AnyServer<Seq<char>, Seq<Seq<char>>>, bool>;

/// The question whether another host serves any of several classes. The first
/// that it serves answers it.
pub open spec fn any_server_flow(clsids: Seq<Seq<char>>) -> AnyServerFlow {
    if clsids.len() == 0 {
        Flow::Done(false)
    } else {
        match host_flow(clsids[0]) {
            Flow::Ask(q, current) => Flow::Ask(q, AnyServer { current, rest: clsids.skip(1) }),
            Flow::Done(found) => Flow::Done(found),
        }
    }
}

/// How the question goes on after one class.
pub open spec fn any_server_after(found: bool, rest: Seq<Seq<char>>) -> AnyServerFlow {
    if found {
        Flow::Done(true)
    } else {
        any_server_flow(rest)
    }
}

impl Resumable<bool> for AnyServer<Seq<char>, Seq<Seq<char>>> {
    open spec fn next(self, reply: Reply<Seq<char>>) -> AnyServerFlow {
        let rest = self.rest;
        bind(
            self.current.next(reply),
            |current| AnyServer { current, rest },
            |found: bool| any_server_after(found, rest),
        )
    }
}

fn ask_any(clsids: Vec<String>) -> (r: Flow<String, AnyServer<String, Vec<String>>, bool>)
    ensures
        r.model() == any_server_flow(clsids.model()),
{
    let mut rest: Vec<String> = clsids;
    if rest.len() == 0 {
        return Flow::Done(false);
    }
    let first: String = rest.remove(0);
    assert(rest.model() =~= clsids.model().skip(1));
    match other_host_serves(first.as_str()) {
        Flow::Ask(q, current) => Flow::Ask(q, AnyServer { current, rest }),
        Flow::Done(found) => Flow::Done(found),
    }
}

/// Ask whether Windows Terminal is installed, in any of its channels. The
/// bundled console host that this terminal registered under the class of one of
/// them is no Windows Terminal.
pub fn is_wt_installed() -> (r: Flow<String, AnyServer<String, Vec<String>>, bool>)
    ensures
        r.model() == any_server_flow(brand_clsids(channel_clsids())),
{
    ask_any(wt_brand_openconsole_clsids())
}

impl AnyServer<String, Vec<String>> {
    /// Go on with the question.
    pub fn resume(self, reply: Reply<String>) -> (r: Flow<
        String,
        AnyServer<String, Vec<String>>,
        bool,
    >)
        ensures
            r.model() == self.model().next(reply.model()),
    {
        match self.current.resume(reply) {
            Flow::Ask(q, current) => Flow::Ask(q, AnyServer { current, rest: self.rest }),
            Flow::Done(found) => {
                if found {
                    Flow::Done(true)
                } else {
                    ask_any(self.rest)
                }
            },
        }
    }
}

} // verus!
