//! The bundled `OpenConsole.exe` as console host of last resort.

use crate::error::{Context, Error, Task};
use crate::machine::{
    bind, script_flow, start_script, BundleFile, Flow, Profile, Request, Resumable, Script,
    ScriptRun, Step, Steps,
};
use crate::model::Model;
use crate::registration::detect::{
    find_clsid_server_path, find_flow, read_local_server_exe, read_server_flow, FindServer,
    ReadServer,
};
use crate::registration::WEZTERM_TERMHOST_FALLBACK_CONSOLE_CLSID;
use crate::registry::{Edit, Fault, Key, Reply, Root, ValueName};
use crate::text::{exe_token, extract_exe_token, quote, quoted, same_ignoring_ascii_case};
use vstd::prelude::*;

verus! {

// ---------------------------------------------------------------------------
// The bundled file
// ---------------------------------------------------------------------------

/// The search for the bundled file, waiting.
#[derive(Clone, Copy, Debug)]
pub enum ResolveBundled {
    /// For the number of directories above that of the executable.
    Ancestors,
    /// For the file next to the executable.
    Beside { ancestors: u32 },
    /// For whether there is a directory `target`, `level` steps up.
    Target { level: u32, ancestors: u32 },
    /// For a file below that directory.
    Built { level: u32, ancestors: u32, profile: Profile },
}

impl Model for ResolveBundled {
    type M = ResolveBundled;

    open spec fn model(&self) -> ResolveBundled {
        *self
    }
}

/// A search for the bundled file as a specification sees it.
pub type ResolveFlow = Flow<Seq<char>, ResolveBundled, Option<Seq<char>>>;

/// The search for the bundled file.
pub open spec fn resolve_flow() -> ResolveFlow {
    Flow::Ask(Request::ExeAncestors, ResolveBundled::Ancestors)
}

/// How the search goes on in the directories above `level`.
pub open spec fn resolve_above(level: u32, ancestors: u32) -> ResolveFlow {
    if level >= ancestors {
        Flow::Done(None)
    } else {
        let up = (level + 1) as u32;
        Flow::Ask(
            Request::TargetDir(up),
            ResolveBundled::Target { level: up, ancestors },
        )
    }
}

/// How the search goes on with one build profile at one level.
pub open spec fn resolve_built(level: u32, ancestors: u32, profile: Profile) -> ResolveFlow {
    Flow::Ask(
        Request::FindBundled(BundleFile::Built { level, profile }),
        ResolveBundled::Built { level, ancestors, profile },
    )
}

impl Resumable<Option<Seq<char>>> for ResolveBundled {
    open spec fn next(self, reply: Reply<Seq<char>>) -> ResolveFlow {
        match self {
            ResolveBundled::Ancestors => match reply.number() {
                Some(ancestors) => Flow::Ask(
                    Request::FindBundled(BundleFile::Beside),
                    ResolveBundled::Beside { ancestors },
                ),
                None => Flow::Done(None),
            },
            ResolveBundled::Beside { ancestors } => match reply.text() {
                Ok(path) => Flow::Done(Some(path)),
                Err(_) => resolve_above(0, ancestors),
            },
            ResolveBundled::Target { level, ancestors } => if reply.flag() {
                resolve_built(level, ancestors, Profile::Debug)
            } else {
                resolve_above(level, ancestors)
            },
            ResolveBundled::Built { level, ancestors, profile } => match (reply.text(), profile) {
                (Ok(path), _) => Flow::Done(Some(path)),
                (Err(_), Profile::Debug) => resolve_built(level, ancestors, Profile::Release),
                (Err(_), Profile::Release) => resolve_above(level, ancestors),
            },
        }
    }
}

/// Find the bundled `OpenConsole.exe`: next to the running executable, or in
/// the build output of a development tree around it. The nearest tree wins, and
/// within a tree the debug build.
pub fn resolve_bundled_openconsole_path() -> (r: Flow<String, ResolveBundled, Option<String>>)
    ensures
        r.model() == resolve_flow(),
{
    Flow::Ask(Request::ExeAncestors, ResolveBundled::Ancestors)
}

fn climb(level: u32, ancestors: u32) -> (r: Flow<String, ResolveBundled, Option<String>>)
    ensures
        r.model() == resolve_above(level, ancestors),
{
    if level >= ancestors {
        Flow::Done(None)
    } else {
        Flow::Ask(
            Request::TargetDir(level + 1),
            ResolveBundled::Target { level: level + 1, ancestors },
        )
    }
}

fn look(level: u32, ancestors: u32, profile: Profile) -> (r: Flow<
    String,
    ResolveBundled,
    Option<String>,
>)
    ensures
        r.model() == resolve_built(level, ancestors, profile),
{
    Flow::Ask(
        Request::FindBundled(BundleFile::Built { level, profile }),
        ResolveBundled::Built { level, ancestors, profile },
    )
}

impl ResolveBundled {
    /// Go on with the search.
    pub fn resume(self, reply: Reply<String>) -> (r: Flow<String, ResolveBundled, Option<String>>)
        ensures
            r.model() == self.next(reply.model()),
    {
        match self {
            ResolveBundled::Ancestors => match reply.as_number() {
                Some(ancestors) => Flow::Ask(
                    Request::FindBundled(BundleFile::Beside),
                    ResolveBundled::Beside { ancestors },
                ),
                None => Flow::Done(None),
            },
            ResolveBundled::Beside { ancestors } => match reply.into_text() {
                Ok(path) => Flow::Done(Some(path)),
                Err(_) => climb(0, ancestors),
            },
            ResolveBundled::Target { level, ancestors } => {
                if reply.as_flag() {
                    look(level, ancestors, Profile::Debug)
                } else {
                    climb(level, ancestors)
                }
            },
            ResolveBundled::Built { level, ancestors, profile } => match (
                reply.into_text(),
                profile,
            ) {
                (Ok(path), _) => Flow::Done(Some(path)),
                (Err(_), Profile::Debug) => look(level, ancestors, Profile::Release),
                (Err(_), Profile::Release) => climb(level, ancestors),
            },
        }
    }
}

// ---------------------------------------------------------------------------
// What was registered before
// ---------------------------------------------------------------------------

/// Whether a marker makes a registration of the fallback this terminal's own.
/// Here any number but 0 does. Removal is stricter and takes no number but 1,
/// which is the one that is written.
pub open spec fn claims_ownership(marker: Option<u32>) -> bool {
    marker is Some && marker->0 != 0
}

fn marker_claims_ownership(marker: Option<u32>) -> (r: bool)
    ensures
        r == claims_ownership(marker),
{
    match marker {
        Some(n) => n != 0,
        None => false,
    }
}

/// The lookup of this terminal's own registration of a class, waiting.
#[derive(Debug)]
pub enum ReadOwnedPath<S> {
    /// For the class to be opened.
    Opening(S),
    /// For the ownership marker.
    Marker(S),
    /// For the server to be opened.
    OpeningServer(S),
    /// For its value.
    Value,
}

impl<S: Model> Model for ReadOwnedPath<S> {
    type M = ReadOwnedPath<S::M>;

    open spec fn model(&self) -> ReadOwnedPath<S::M> {
        match self {
            ReadOwnedPath::Opening(c) => ReadOwnedPath::Opening(c.model()),
            ReadOwnedPath::Marker(c) => ReadOwnedPath::Marker(c.model()),
            ReadOwnedPath::OpeningServer(c) => ReadOwnedPath::OpeningServer(c.model()),
            ReadOwnedPath::Value => ReadOwnedPath::Value,
        }
    }
}

/// A lookup of this terminal's own registration as a specification sees it.
pub type OwnedPathFlow = Flow<Seq<char>, ReadOwnedPath<Seq<char>>, Option<Seq<char>>>;

/// The lookup of this terminal's own registration of a class.
pub open spec fn owned_path_flow(clsid: Seq<char>) -> OwnedPathFlow {
    Flow::Ask(
        Request::OpenRead(Root::CurrentUser, Key::Clsid(clsid)),
        ReadOwnedPath::Opening(clsid),
    )
}

/// The executable in a value that could be read.
pub open spec fn readable_exe(value: Result<Seq<char>, Fault<Seq<char>>>) -> Option<Seq<char>> {
    match value {
        Ok(v) => Some(exe_token(v)),
        Err(_) => None,
    }
}

impl Resumable<Option<Seq<char>>> for ReadOwnedPath<Seq<char>> {
    open spec fn next(self, reply: Reply<Seq<char>>) -> OwnedPathFlow {
        match self {
            ReadOwnedPath::Opening(clsid) => match reply.outcome() {
                Ok(_) => Flow::Ask(
                    Request::GetDword(Root::CurrentUser, Key::Clsid(clsid), ValueName::Owned),
                    ReadOwnedPath::Marker(clsid),
                ),
                Err(_) => Flow::Done(None),
            },
            ReadOwnedPath::Marker(clsid) => if claims_ownership(reply.number()) {
                Flow::Ask(
                    Request::OpenRead(Root::CurrentUser, Key::LocalServer(clsid)),
                    ReadOwnedPath::OpeningServer(clsid),
                )
            } else {
                Flow::Done(None)
            },
            ReadOwnedPath::OpeningServer(clsid) => match reply.outcome() {
                Ok(_) => Flow::Ask(
                    Request::GetString(
                        Root::CurrentUser,
                        Key::LocalServer(clsid),
                        ValueName::Default,
                    ),
                    ReadOwnedPath::Value,
                ),
                Err(_) => Flow::Done(None),
            },
            ReadOwnedPath::Value => Flow::Done(readable_exe(reply.text())),
        }
    }
}

/// Look up the executable that this terminal registered for a class. `None` if
/// the class is not there, does not carry the ownership marker, or names no
/// readable server.
pub fn read_wezterm_owned_path(clsid: &str) -> (r: Flow<
    String,
    ReadOwnedPath<String>,
    Option<String>,
>)
    ensures
        r.model() == owned_path_flow(clsid@),
{
    Flow::Ask(
        Request::OpenRead(Root::CurrentUser, Key::Clsid(clsid.to_string())),
        ReadOwnedPath::Opening(clsid.to_string()),
    )
}

impl ReadOwnedPath<String> {
    /// Go on with the lookup.
    pub fn resume(self, reply: Reply<String>) -> (r: Flow<
        String,
        ReadOwnedPath<String>,
        Option<String>,
    >)
        ensures
            r.model() == self.model().next(reply.model()),
    {
        match self {
            ReadOwnedPath::Opening(clsid) => match reply.into_outcome() {
                Ok(_) => Flow::Ask(
                    Request::GetDword(
                        Root::CurrentUser,
                        Key::Clsid(clsid.clone()),
                        ValueName::Owned,
                    ),
                    ReadOwnedPath::Marker(clsid),
                ),
                Err(_) => Flow::Done(None),
            },
            ReadOwnedPath::Marker(clsid) => {
                if marker_claims_ownership(reply.as_number()) {
                    Flow::Ask(
                        Request::OpenRead(Root::CurrentUser, Key::LocalServer(clsid.clone())),
                        ReadOwnedPath::OpeningServer(clsid),
                    )
                } else {
                    Flow::Done(None)
                }
            },
            ReadOwnedPath::OpeningServer(clsid) => match reply.into_outcome() {
                Ok(_) => Flow::Ask(
                    Request::GetString(
                        Root::CurrentUser,
                        Key::LocalServer(clsid),
                        ValueName::Default,
                    ),
                    ReadOwnedPath::Value,
                ),
                Err(_) => Flow::Done(None),
            },
            ReadOwnedPath::Value => match reply.into_text() {
                Ok(value) => Flow::Done(Some(extract_exe_token(value.as_str()).to_string())),
                Err(_) => Flow::Done(None),
            },
        }
    }
}

// ---------------------------------------------------------------------------
// Paths
// ---------------------------------------------------------------------------

/// What the equality of `std::path::Path` says of two paths, on the platform
/// that the library is built for.
pub uninterp spec fn path_equality(a: Seq<char>, b: Seq<char>) -> bool;

/// A path without what its spelling may vary in on some platform: separators and
/// dots.
pub open spec fn path_letters(path: Seq<char>) -> Seq<char> {
    path.filter(|c: char| c != '/' && c != '\\' && c != '.')
}

/// Whether two paths lead to the same place. A path leads to the same place as
/// itself, and never to that of a path with other letters. Which spellings with
/// the same letters lead to the same place is up to the platform.
pub open spec fn same_place(a: Seq<char>, b: Seq<char>) -> bool {
    ||| a == b
    ||| path_equality(a, b) && same_ignoring_ascii_case(path_letters(a), path_letters(b))
}

/// Calls the equality of `std::path::Path`, which compares two paths component
/// by component. What counts as a separator or as a prefix is up to the
/// platform, so the result goes by the name [`path_equality`]. Claimed of it
/// besides is what component-wise comparison gives on every platform: a path
/// equals itself, and equal paths differ in nothing but separators, dots and the
/// case of a drive letter.
#[verifier::external_body]
fn same_components(a: &str, b: &str) -> (r: bool)
    ensures
        r == path_equality(a@, b@),
        a@ == b@ ==> r,
        r ==> same_ignoring_ascii_case(path_letters(a@), path_letters(b@)),
{
    std::path::Path::new(a) == std::path::Path::new(b)
}

// ---------------------------------------------------------------------------
// Servers of someone else
// ---------------------------------------------------------------------------

/// The question whether someone else registered a server for a class, waiting.
#[derive(Debug)]
pub enum FindForeign<S> {
    /// For the class to be opened.
    Opening(S),
    /// For the ownership marker.
    Marker(S),
    /// For the server.
    Server(ReadServer<S>),
}

impl<S: Model> Model for FindForeign<S> {
    type M = FindForeign<S::M>;

    open spec fn model(&self) -> FindForeign<S::M> {
        match self {
            FindForeign::Opening(c) => FindForeign::Opening(c.model()),
            FindForeign::Marker(c) => FindForeign::Marker(c.model()),
            FindForeign::Server(read) => FindForeign::Server(read.model()),
        }
    }
}

/// A question about a server of someone else as a specification sees it.
pub type ForeignFlow = Flow<Seq<char>, FindForeign<Seq<char>>, bool>;

/// The question whether someone else registered a server for a class.
pub open spec fn foreign_flow(clsid: Seq<char>) -> ForeignFlow {
    Flow::Ask(
        Request::OpenRead(Root::CurrentUser, Key::Clsid(clsid)),
        FindForeign::Opening(clsid),
    )
}

/// How the question goes on once the marker is known. What this terminal
/// registered is not someone else's; of the rest, only what names a server is
/// one.
pub open spec fn foreign_marked(clsid: Seq<char>, marker: Option<u32>) -> ForeignFlow {
    if claims_ownership(marker) {
        Flow::Done(false)
    } else {
        bind(
            read_server_flow(Root::CurrentUser, clsid),
            |read| FindForeign::Server(read),
            |exe: Option<Seq<char>>| Flow::Done(exe is Some),
        )
    }
}

impl Resumable<bool> for FindForeign<Seq<char>> {
    open spec fn next(self, reply: Reply<Seq<char>>) -> ForeignFlow {
        match self {
            FindForeign::Opening(clsid) => match reply.outcome() {
                Ok(_) => Flow::Ask(
                    Request::GetDword(Root::CurrentUser, Key::Clsid(clsid), ValueName::Owned),
                    FindForeign::Marker(clsid),
                ),
                Err(_) => Flow::Done(false),
            },
            FindForeign::Marker(clsid) => foreign_marked(clsid, reply.number()),
            FindForeign::Server(read) => bind(
                read.next(reply),
                |read| FindForeign::Server(read),
                |exe: Option<Seq<char>>| Flow::Done(exe is Some),
            ),
        }
    }
}

/// Ask whether someone else registered a server for a class, for the user. It
/// does not matter whether the server's file exists. A class that cannot be read
/// and one that names no server hold none.
pub fn foreign_server_is_registered(clsid: &str) -> (r: Flow<String, FindForeign<String>, bool>)
    ensures
        r.model() == foreign_flow(clsid@),
{
    Flow::Ask(
        Request::OpenRead(Root::CurrentUser, Key::Clsid(clsid.to_string())),
        FindForeign::Opening(clsid.to_string()),
    )
}

impl FindForeign<String> {
    /// Go on with the question.
    pub fn resume(self, reply: Reply<String>) -> (r: Flow<String, FindForeign<String>, bool>)
        ensures
            r.model() == self.model().next(reply.model()),
    {
        match self {
            FindForeign::Opening(clsid) => match reply.into_outcome() {
                Ok(_) => Flow::Ask(
                    Request::GetDword(
                        Root::CurrentUser,
                        Key::Clsid(clsid.clone()),
                        ValueName::Owned,
                    ),
                    FindForeign::Marker(clsid),
                ),
                Err(_) => Flow::Done(false),
            },
            FindForeign::Marker(clsid) => {
                if marker_claims_ownership(reply.as_number()) {
                    Flow::Done(false)
                } else {
                    match read_local_server_exe(Root::CurrentUser, clsid.as_str()) {
                        Flow::Ask(q, read) => Flow::Ask(q, FindForeign::Server(read)),
                        Flow::Done(exe) => Flow::Done(exe.is_some()),
                    }
                }
            },
            FindForeign::Server(read) => match read.resume(reply) {
                Flow::Ask(q, read) => Flow::Ask(q, FindForeign::Server(read)),
                Flow::Done(exe) => Flow::Done(exe.is_some()),
            },
        }
    }
}

// ---------------------------------------------------------------------------
// Registration
// ---------------------------------------------------------------------------

/// The edits that register the bundled file.
pub open spec fn fallback_steps(bundled: Seq<char>) -> Steps {
    let clsid = WEZTERM_TERMHOST_FALLBACK_CONSOLE_CLSID@;
    seq![
        Step {
            edit: Edit::CreateKey(Key::Clsid(clsid)),
            fatal: Some(Context::CreateKey(Key::Clsid(clsid))),
        },
        Step {
            edit: Edit::SetString(
                Key::Clsid(clsid),
                ValueName::Default,
                "WezTerm-bundled OpenConsole (Microsoft MIT-licensed)"@,
            ),
            fatal: Some(Context::Doing(Task::WriteClassName)),
        },
        Step {
            edit: Edit::SetDword(Key::Clsid(clsid), ValueName::Owned, 1),
            fatal: Some(Context::Doing(Task::WriteOwnedMarker)),
        },
        Step {
            edit: Edit::CreateKey(Key::LocalServer(clsid)),
            fatal: Some(Context::Doing(Task::CreateLocalServer)),
        },
        Step {
            edit: Edit::SetString(Key::LocalServer(clsid), ValueName::Default, quoted(bundled)),
            fatal: Some(Context::Doing(Task::WriteLocalServer)),
        },
    ]
}

fn fallback_script(bundled: &str) -> (r: Script)
    ensures
        r.model() == fallback_steps(bundled@),
{
    let clsid: &'static str = WEZTERM_TERMHOST_FALLBACK_CONSOLE_CLSID;
    let script: Script = vec![
        Step {
            edit: Edit::CreateKey(Key::Clsid(clsid.to_string())),
            fatal: Some(Context::CreateKey(Key::Clsid(clsid.to_string()))),
        },
        Step {
            edit: Edit::SetString(
                Key::Clsid(clsid.to_string()),
                ValueName::Default,
                "WezTerm-bundled OpenConsole (Microsoft MIT-licensed)".to_string(),
            ),
            fatal: Some(Context::Doing(Task::WriteClassName)),
        },
        Step {
            edit: Edit::SetDword(Key::Clsid(clsid.to_string()), ValueName::Owned, 1),
            fatal: Some(Context::Doing(Task::WriteOwnedMarker)),
        },
        Step {
            edit: Edit::CreateKey(Key::LocalServer(clsid.to_string())),
            fatal: Some(Context::Doing(Task::CreateLocalServer)),
        },
        Step {
            edit: Edit::SetString(
                Key::LocalServer(clsid.to_string()),
                ValueName::Default,
                quote(bundled),
            ),
            fatal: Some(Context::Doing(Task::WriteLocalServer)),
        },
    ];
    assert(script.model() =~= fallback_steps(bundled@));
    script
}

/// The registration of the bundled file, waiting.
#[derive(Debug)]
pub enum RegisterFallback<S, L> {
    /// For the bundled file.
    Resolving(ResolveBundled),
    /// For the server that is registered.
    Finding { bundled: S, find: FindServer<S> },
    /// For this terminal's own registration, since a server is on disk.
    Owner { bundled: S, read: ReadOwnedPath<S> },
    /// For whether someone else registered a server, since none is on disk.
    Foreign { bundled: S, question: FindForeign<S> },
    /// For the edits.
    Writing(ScriptRun<S, L>),
}

impl<S: Model, L: Model> Model for RegisterFallback<S, L> {
    type M = RegisterFallback<S::M, L::M>;

    open spec fn model(&self) -> RegisterFallback<S::M, L::M> {
        match self {
            RegisterFallback::Resolving(m) => RegisterFallback::Resolving(m.model()),
            RegisterFallback::Finding { bundled, find } => RegisterFallback::Finding {
                bundled: bundled.model(),
                find: find.model(),
            },
            RegisterFallback::Foreign { bundled, question } => RegisterFallback::Foreign {
                bundled: bundled.model(),
                question: question.model(),
            },
            RegisterFallback::Owner { bundled, read } => RegisterFallback::Owner {
                bundled: bundled.model(),
                read: read.model(),
            },
            RegisterFallback::Writing(run) => RegisterFallback::Writing(run.model()),
        }
    }
}

/// The registration of the bundled file as a specification sees it.
pub type FallbackState = RegisterFallback<Seq<char>, Steps>;

/// The same with what it asks for.
pub type FallbackFlow = Flow<Seq<char>, FallbackState, Result<(), Error<Seq<char>>>>;

/// The edits.
pub open spec fn fallback_write(bundled: Seq<char>) -> FallbackFlow {
    bind(
        script_flow(fallback_steps(bundled)),
        |run| RegisterFallback::Writing(run),
        |r: Result<(), Error<Seq<char>>>| Flow::Done(r),
    )
}

/// How the registration goes on once it is known whether this terminal's own
/// registration leads to the bundled file: one that leads elsewhere is
/// refreshed.
pub open spec fn fallback_compared(bundled: Seq<char>, same: bool) -> FallbackFlow {
    if same {
        Flow::Done(Ok(()))
    } else {
        fallback_write(bundled)
    }
}

/// How the registration goes on once it is known what this terminal registered
/// before.
pub open spec fn fallback_owned(bundled: Seq<char>, ours: Option<Seq<char>>) -> FallbackFlow {
    match ours {
        Some(path) => fallback_compared(bundled, same_place(path, bundled)),
        None => Flow::Done(Ok(())),
    }
}

/// How the registration goes on where no server is on disk, once it is known
/// whether someone else registered one that is not.
pub open spec fn fallback_missing(bundled: Seq<char>, foreign: bool) -> FallbackFlow {
    if foreign {
        Flow::Done(Ok(()))
    } else {
        fallback_write(bundled)
    }
}

/// How the registration goes on once it is known whether a server is on disk.
/// What this terminal did not register itself, it leaves alone.
pub open spec fn fallback_found(bundled: Seq<char>, found: bool) -> FallbackFlow {
    if found {
        bind(
            owned_path_flow(WEZTERM_TERMHOST_FALLBACK_CONSOLE_CLSID@),
            |read| RegisterFallback::Owner { bundled, read },
            |ours: Option<Seq<char>>| fallback_owned(bundled, ours),
        )
    } else {
        bind(
            foreign_flow(WEZTERM_TERMHOST_FALLBACK_CONSOLE_CLSID@),
            |question| RegisterFallback::Foreign { bundled, question },
            |foreign: bool| fallback_missing(bundled, foreign),
        )
    }
}

/// How the registration goes on once the bundled file is known. Without one
/// there is nothing to register.
pub open spec fn fallback_resolved(bundled: Option<Seq<char>>) -> FallbackFlow {
    match bundled {
        Some(bundled) => bind(
            find_flow(WEZTERM_TERMHOST_FALLBACK_CONSOLE_CLSID@),
            |find| RegisterFallback::Finding { bundled, find },
            |existing: Option<Seq<char>>| fallback_found(bundled, existing is Some),
        ),
        None => Flow::Done(Ok(())),
    }
}

/// The registration of the bundled file.
pub open spec fn fallback_flow() -> FallbackFlow {
    bind(
        resolve_flow(),
        |m| RegisterFallback::Resolving(m),
        |bundled: Option<Seq<char>>| fallback_resolved(bundled),
    )
}

impl Resumable<Result<(), Error<Seq<char>>>> for FallbackState {
    open spec fn next(self, reply: Reply<Seq<char>>) -> FallbackFlow {
        match self {
            RegisterFallback::Resolving(m) => bind(
                m.next(reply),
                |m| RegisterFallback::Resolving(m),
                |bundled: Option<Seq<char>>| fallback_resolved(bundled),
            ),
            RegisterFallback::Finding { bundled, find } => bind(
                find.next(reply),
                |find| RegisterFallback::Finding { bundled, find },
                |existing: Option<Seq<char>>| fallback_found(bundled, existing is Some),
            ),
            RegisterFallback::Foreign { bundled, question } => bind(
                question.next(reply),
                |question| RegisterFallback::Foreign { bundled, question },
                |foreign: bool| fallback_missing(bundled, foreign),
            ),
            RegisterFallback::Owner { bundled, read } => bind(
                read.next(reply),
                |read| RegisterFallback::Owner { bundled, read },
                |ours: Option<Seq<char>>| fallback_owned(bundled, ours),
            ),
            RegisterFallback::Writing(run) => bind(
                run.next(reply),
                |run| RegisterFallback::Writing(run),
                |r: Result<(), Error<Seq<char>>>| Flow::Done(r),
            ),
        }
    }
}

/// The run-time type of the registration.
pub type FallbackRun = RegisterFallback<String, Script>;

fn write_fallback(bundled: String) -> (r: Flow<String, FallbackRun, Result<(), Error<String>>>)
    ensures
        r.model() == fallback_write(bundled@),
{
    match start_script(fallback_script(bundled.as_str())) {
        Flow::Ask(q, run) => Flow::Ask(q, RegisterFallback::Writing(run)),
        Flow::Done(r) => Flow::Done(r),
    }
}

/// Go on with the registration once it is known whether this terminal's own
/// registration leads to the bundled file: refresh it unless it does.
pub fn refresh_fallback(bundled: String, same: bool) -> (r: Flow<
    String,
    FallbackRun,
    Result<(), Error<String>>,
>)
    ensures
        r.model() == fallback_compared(bundled@, same),
{
    if same {
        Flow::Done(Ok(()))
    } else {
        write_fallback(bundled)
    }
}

fn after_owned(bundled: String, ours: Option<String>) -> (r: Flow<
    String,
    FallbackRun,
    Result<(), Error<String>>,
>)
    ensures
        r.model() == fallback_owned(bundled@, ours.model()),
{
    match ours {
        Some(path) => {
            let same: bool = same_components(path.as_str(), bundled.as_str());
            refresh_fallback(bundled, same)
        },
        None => Flow::Done(Ok(())),
    }
}

fn after_missing(bundled: String, foreign: bool) -> (r: Flow<
    String,
    FallbackRun,
    Result<(), Error<String>>,
>)
    ensures
        r.model() == fallback_missing(bundled@, foreign),
{
    if foreign {
        Flow::Done(Ok(()))
    } else {
        write_fallback(bundled)
    }
}

fn after_found(bundled: String, found: bool) -> (r: Flow<
    String,
    FallbackRun,
    Result<(), Error<String>>,
>)
    ensures
        r.model() == fallback_found(bundled@, found),
{
    if found {
        match read_wezterm_owned_path(WEZTERM_TERMHOST_FALLBACK_CONSOLE_CLSID) {
            Flow::Ask(q, read) => Flow::Ask(q, RegisterFallback::Owner { bundled, read }),
            Flow::Done(ours) => after_owned(bundled, ours),
        }
    } else {
        match foreign_server_is_registered(WEZTERM_TERMHOST_FALLBACK_CONSOLE_CLSID) {
            Flow::Ask(q, question) => Flow::Ask(
                q,
                RegisterFallback::Foreign { bundled, question },
            ),
            Flow::Done(foreign) => after_missing(bundled, foreign),
        }
    }
}

fn after_resolved(bundled: Option<String>) -> (r: Flow<
    String,
    FallbackRun,
    Result<(), Error<String>>,
>)
    ensures
        r.model() == fallback_resolved(bundled.model()),
{
    match bundled {
        Some(bundled) => match find_clsid_server_path(WEZTERM_TERMHOST_FALLBACK_CONSOLE_CLSID) {
            Flow::Ask(q, find) => Flow::Ask(q, RegisterFallback::Finding { bundled, find }),
            Flow::Done(existing) => after_found(bundled, existing.is_some()),
        },
        None => Flow::Done(Ok(())),
    }
}

/// Register the bundled `OpenConsole.exe` as the server of Microsoft's console
/// class, for this user. A server of someone else is left alone: one that exists
/// on disk, and one that is registered for the user without the ownership
/// marker, be it on disk or not. A registration of this terminal that leads
/// elsewhere is refreshed.
pub fn register_openconsole_fallback() -> (r: Flow<
    String,
    FallbackRun,
    Result<(), Error<String>>,
>)
    ensures
        r.model() == fallback_flow(),
{
    match resolve_bundled_openconsole_path() {
        Flow::Ask(q, m) => Flow::Ask(q, RegisterFallback::Resolving(m)),
        Flow::Done(bundled) => after_resolved(bundled),
    }
}

impl FallbackRun {
    /// Go on with the registration.
    pub fn resume(self, reply: Reply<String>) -> (r: Flow<
        String,
        FallbackRun,
        Result<(), Error<String>>,
    >)
        ensures
            r.model() == self.model().next(reply.model()),
    {
        match self {
            RegisterFallback::Resolving(m) => match m.resume(reply) {
                Flow::Ask(q, m) => Flow::Ask(q, RegisterFallback::Resolving(m)),
                Flow::Done(bundled) => after_resolved(bundled),
            },
            RegisterFallback::Finding { bundled, find } => match find.resume(reply) {
                Flow::Ask(q, find) => Flow::Ask(q, RegisterFallback::Finding { bundled, find }),
                Flow::Done(existing) => after_found(bundled, existing.is_some()),
            },
            RegisterFallback::Foreign { bundled, question } => match question.resume(reply) {
                Flow::Ask(q, question) => Flow::Ask(
                    q,
                    RegisterFallback::Foreign { bundled, question },
                ),
                Flow::Done(foreign) => after_missing(bundled, foreign),
            },
            RegisterFallback::Owner { bundled, read } => match read.resume(reply) {
                Flow::Ask(q, read) => Flow::Ask(q, RegisterFallback::Owner { bundled, read }),
                Flow::Done(ours) => after_owned(bundled, ours),
            },
            RegisterFallback::Writing(run) => match run.resume(reply) {
                Flow::Ask(q, run) => Flow::Ask(q, RegisterFallback::Writing(run)),
                Flow::Done(r) => Flow::Done(r),
            },
        }
    }
}

} // verus!
