//! From a handoff to a pane in a new window.

use crate::host::{
    hinted_state, pid_of, startup_window_state, Handle, PendingWindowState,
};
use crate::kernel::{embed, Answer, Call, Conversing, Talk};
use crate::model::Model;
use crate::raw_pty::child::{open_child_talk, OpenChild, TermHostChild};
use crate::raw_pty::master::{open_talk, OpenMaster, RawHandles, RawHandlesMasterPty};
use crate::raw_pty::PtySize;
use crate::types::{Startup, TerminalStartupInfoOwned};
use vstd::prelude::*;

pub mod attach;
pub mod laws;
pub mod sessions;

verus! {

/// The flag of the startup information that says its position counts.
pub const STARTF_USEPOSITION: u32 = 0x4;

/// The title of a session that comes without one.
pub const DEFAULT_TITLE: &'static str = "WezTerm (termhost)";

// ---------------------------------------------------------------------------
// Position, size and title
// ---------------------------------------------------------------------------

/// What a position is relative to.
#[derive(Clone, Copy, Debug, PartialEq, Eq, Structural)]
pub enum GeometryOrigin {
    ScreenCoordinateSystem,
}

/// The position of a window, in pixels.
#[derive(Clone, Copy, Debug, PartialEq, Eq, Structural)]
pub struct GuiPosition {
    pub x: i32,
    pub y: i32,
    pub origin: GeometryOrigin,
}

/// The number that two's complement reads from 32 bits.
pub open spec fn signed(value: u32) -> int {
    if value < 0x8000_0000 {
        value as int
    } else {
        value - 0x1_0000_0000
    }
}

/// The position that the startup information asks for, if it asks for one.
pub open spec fn wanted_position(startup: Startup) -> Option<GuiPosition> {
    if startup.dw_flags & STARTF_USEPOSITION == 0 {
        None
    } else {
        Some(
            GuiPosition {
                x: signed(startup.position_x) as i32,
                y: signed(startup.position_y) as i32,
                origin: GeometryOrigin::ScreenCoordinateSystem,
            },
        )
    }
}

/// Read a screen coordinate. The startup information has it as an unsigned
/// number, but positions left of or above the primary screen are negative.
pub fn signed_startup_coordinate(value: u32) -> (r: i32)
    ensures
        r == signed(value),
{
    if value < 0x8000_0000 {
        value as i32
    } else {
        (value - 0x8000_0000) as i32 + i32::MIN
    }
}

/// The position that the startup information asks for. `None` unless its flags
/// say that the position counts.
pub fn startup_position(startup: &TerminalStartupInfoOwned<String>) -> (r: Option<GuiPosition>)
    ensures
        r == wanted_position(startup.model()),
{
    if startup.dw_flags & STARTF_USEPOSITION == 0 {
        return None;
    }
    Some(
        GuiPosition {
            x: signed_startup_coordinate(startup.position_x),
            y: signed_startup_coordinate(startup.position_y),
            origin: GeometryOrigin::ScreenCoordinateSystem,
        },
    )
}

/// The size of a session: what the startup information says, and what is
/// configured where it says nothing.
pub open spec fn wanted_size(startup: Startup, rows: u16, cols: u16) -> PtySize {
    PtySize {
        rows: if startup.height != 0 {
            startup.height
        } else {
            rows
        },
        cols: if startup.width != 0 {
            startup.width
        } else {
            cols
        },
        pixel_width: 0,
        pixel_height: 0,
    }
}

/// The size of a session.
pub fn initial_size(startup: &TerminalStartupInfoOwned<String>, rows: u16, cols: u16) -> (r:
    PtySize)
    ensures
        r == wanted_size(startup.model(), rows, cols),
{
    PtySize {
        rows: if startup.height != 0 {
            startup.height
        } else {
            rows
        },
        cols: if startup.width != 0 {
            startup.width
        } else {
            cols
        },
        pixel_width: 0,
        pixel_height: 0,
    }
}

/// The title of a session. An empty one counts as none.
pub open spec fn wanted_title(startup: Startup) -> Seq<char> {
    match startup.title {
        Some(t) => if t.len() > 0 {
            t
        } else {
            DEFAULT_TITLE@
        },
        None => DEFAULT_TITLE@,
    }
}

/// The title of a session.
pub fn session_title(startup: &TerminalStartupInfoOwned<String>) -> (r: String)
    ensures
        r@ == wanted_title(startup.model()),
{
    match &startup.title {
        Some(t) => {
            if t.as_str().unicode_len() > 0 {
                t.clone()
            } else {
                DEFAULT_TITLE.to_string()
            }
        },
        None => DEFAULT_TITLE.to_string(),
    }
}

// ---------------------------------------------------------------------------
// The handoff
// ---------------------------------------------------------------------------

/// The handles that Windows passes in. They stay the caller's.
#[derive(Clone, Copy, Debug, PartialEq, Eq, Structural)]
pub struct HandoffHandles {
    pub signal: Handle,
    pub reference: Handle,
    /// The process that serves the pseudo terminal.
    pub server: Handle,
    /// The first client of the session.
    pub client: Handle,
}

/// A session that was taken over and waits for its window.
#[derive(Debug)]
pub struct HandedOff<S> {
    pub master: RawHandlesMasterPty,
    pub child: TermHostChild,
    pub title: S,
    pub size: PtySize,
    pub position: Option<GuiPosition>,
    /// What is to be staged for the window before the session is attached.
    pub window_state: PendingWindowState,
}

impl<S: Model> Model for HandedOff<S> {
    type M = HandedOff<S::M>;

    open spec fn model(&self) -> HandedOff<S::M> {
        HandedOff {
            master: self.master,
            child: self.child,
            title: self.title.model(),
            size: self.size,
            position: self.position,
            window_state: self.window_state,
        }
    }
}

/// Why a session could not be taken over.
#[derive(Debug)]
pub enum HandoffError<S> {
    StdinPipe(S),
    StdoutPipe(S),
}

impl<S: Model> Model for HandoffError<S> {
    type M = HandoffError<S::M>;

    open spec fn model(&self) -> HandoffError<S::M> {
        match self {
            HandoffError::StdinPipe(s) => HandoffError::StdinPipe(s.model()),
            HandoffError::StdoutPipe(s) => HandoffError::StdoutPipe(s.model()),
        }
    }
}

/// The message of an error.
pub open spec fn handoff_error_text(e: HandoffError<Seq<char>>) -> Seq<char> {
    match e {
        HandoffError::StdinPipe(s) => "create_anon_pipe for ConPTY stdin: "@ + s,
        HandoffError::StdoutPipe(s) => "create_anon_pipe for ConPTY stdout: "@ + s,
    }
}

impl HandoffError<String> {
    /// The message.
    pub fn message(&self) -> (r: String)
        ensures
            r@ == handoff_error_text(self.model()),
    {
        match self {
            HandoffError::StdinPipe(
                s,
            ) => "create_anon_pipe for ConPTY stdin: ".to_string().concat(s.as_str()),
            HandoffError::StdoutPipe(
                s,
            ) => "create_anon_pipe for ConPTY stdout: ".to_string().concat(s.as_str()),
        }
    }
}

/// A handoff, waiting. `pid` is the first client's. Of the two pipes, the
/// terminal keeps `our` ends; `their` ends go to the console.
#[derive(Debug)]
pub enum Handoff<S> {
    /// For the client's process identifier.
    Client { handles: HandoffHandles, startup: TerminalStartupInfoOwned<S> },
    /// For the pipe of the input.
    Stdin { handles: HandoffHandles, startup: TerminalStartupInfoOwned<S>, pid: Option<u32> },
    /// For the pipe of the output.
    Stdout {
        handles: HandoffHandles,
        startup: TerminalStartupInfoOwned<S>,
        pid: Option<u32>,
        their_read: Handle,
        our_write: Handle,
    },
    /// For the first pipe's write end to be closed, since there is no second.
    CloseWrite { their_read: Handle, cause: S },
    /// For its read end to be closed.
    CloseRead { cause: S },
    /// For the console's ends to be passed out.
    Publishing {
        handles: HandoffHandles,
        startup: TerminalStartupInfoOwned<S>,
        pid: Option<u32>,
        our_read: Handle,
        our_write: Handle,
    },
    /// For the handoff to be recorded.
    Marking {
        handles: HandoffHandles,
        startup: TerminalStartupInfoOwned<S>,
        pid: Option<u32>,
        our_read: Handle,
        our_write: Handle,
    },
    /// For the configured size.
    Sizing {
        handles: HandoffHandles,
        startup: TerminalStartupInfoOwned<S>,
        pid: Option<u32>,
        our_read: Handle,
        our_write: Handle,
    },
    /// For the pseudo terminal.
    Master {
        handles: HandoffHandles,
        startup: TerminalStartupInfoOwned<S>,
        pid: Option<u32>,
        size: PtySize,
        open: OpenMaster,
    },
    /// For the process.
    Child {
        startup: TerminalStartupInfoOwned<S>,
        size: PtySize,
        master: RawHandlesMasterPty,
        begin: OpenChild,
    },
}

impl<S: Model> Model for Handoff<S> {
    type M = Handoff<S::M>;

    open spec fn model(&self) -> Handoff<S::M> {
        match self {
            Handoff::Client { handles, startup } => Handoff::Client {
                handles: *handles,
                startup: startup.model(),
            },
            Handoff::Stdin { handles, startup, pid } => Handoff::Stdin {
                handles: *handles,
                startup: startup.model(),
                pid: *pid,
            },
            Handoff::Stdout { handles, startup, pid, their_read, our_write } => Handoff::Stdout {
                handles: *handles,
                startup: startup.model(),
                pid: *pid,
                their_read: *their_read,
                our_write: *our_write,
            },
            Handoff::CloseWrite { their_read, cause } => Handoff::CloseWrite {
                their_read: *their_read,
                cause: cause.model(),
            },
            Handoff::CloseRead { cause } => Handoff::CloseRead { cause: cause.model() },
            Handoff::Publishing { handles, startup, pid, our_read, our_write } => {
                Handoff::Publishing {
                    handles: *handles,
                    startup: startup.model(),
                    pid: *pid,
                    our_read: *our_read,
                    our_write: *our_write,
                }
            },
            Handoff::Marking { handles, startup, pid, our_read, our_write } => Handoff::Marking {
                handles: *handles,
                startup: startup.model(),
                pid: *pid,
                our_read: *our_read,
                our_write: *our_write,
            },
            Handoff::Sizing { handles, startup, pid, our_read, our_write } => Handoff::Sizing {
                handles: *handles,
                startup: startup.model(),
                pid: *pid,
                our_read: *our_read,
                our_write: *our_write,
            },
            Handoff::Master { handles, startup, pid, size, open } => Handoff::Master {
                handles: *handles,
                startup: startup.model(),
                pid: *pid,
                size: *size,
                open: *open,
            },
            Handoff::Child { startup, size, master, begin } => Handoff::Child {
                startup: startup.model(),
                size: *size,
                master: *master,
                begin: *begin,
            },
        }
    }
}

/// What a handoff ends with.
pub type HandoffEnd = Result<HandedOff<Seq<char>>, HandoffError<Seq<char>>>;

/// A handoff as a specification sees it.
pub type HandoffTalk = Talk<Handoff<Seq<char>>, HandoffEnd>;

/// The process identifier in an answer about a client.
pub open spec fn reported_pid(client: Handle, answer: Answer<Seq<char>>) -> Option<u32> {
    match answer {
        Answer::Code(code) => if client == 0 || code == 0 {
            None
        } else {
            Some(code)
        },
        _ => None,
    }
}

/// The handoff from the first pipe on.
pub open spec fn handoff_pipes(
    handles: HandoffHandles,
    startup: Startup,
    pid: Option<u32>,
) -> HandoffTalk {
    Talk::Ask(
        Call::CreatePipe { inherit_read: true, inherit_write: false },
        Handoff::Stdin { handles, startup, pid },
    )
}

/// The session that was taken over.
pub open spec fn handed_off(
    startup: Startup,
    size: PtySize,
    master: RawHandlesMasterPty,
    child: TermHostChild,
) -> HandedOff<Seq<char>> {
    HandedOff {
        master,
        child,
        title: wanted_title(startup),
        size,
        position: wanted_position(startup),
        window_state: hinted_state(startup.show_window),
    }
}

/// The handoff from the process on. It is the server that the session lives as
/// long as.
pub open spec fn handoff_child(
    handles: HandoffHandles,
    startup: Startup,
    pid: Option<u32>,
    size: PtySize,
    master: RawHandlesMasterPty,
) -> HandoffTalk {
    embed(
        open_child_talk(handles.server, pid),
        |begin| Handoff::Child { startup, size, master, begin },
        |child: TermHostChild| Talk::Done(Ok(handed_off(startup, size, master, child))),
    )
}

/// The raw handles of the pseudo terminal.
pub open spec fn raw_handles(
    handles: HandoffHandles,
    our_read: Handle,
    our_write: Handle,
) -> RawHandles {
    RawHandles {
        read: our_read,
        write: our_write,
        signal: handles.signal,
        reference: handles.reference,
    }
}

/// The handoff from the pseudo terminal on.
pub open spec fn handoff_master(
    handles: HandoffHandles,
    startup: Startup,
    pid: Option<u32>,
    our_read: Handle,
    our_write: Handle,
    size: PtySize,
) -> HandoffTalk {
    embed(
        open_talk(raw_handles(handles, our_read, our_write), size),
        |open| Handoff::Master { handles, startup, pid, size, open },
        |master: RawHandlesMasterPty| handoff_child(handles, startup, pid, size, master),
    )
}

/// The configured size in an answer, as rows and columns.
pub open spec fn configured(answer: Answer<Seq<char>>) -> (u16, u16) {
    match answer {
        Answer::Size { rows, cols } => (rows, cols),
        _ => (24, 80),
    }
}

/// A handoff.
pub open spec fn handoff_talk(handles: HandoffHandles, startup: Startup) -> HandoffTalk {
    if handles.client == 0 {
        handoff_pipes(handles, startup, None)
    } else {
        Talk::Ask(
            Call::ProcessId(handles.client),
            Handoff::Client { handles, startup },
        )
    }
}

impl Conversing<HandoffEnd> for Handoff<Seq<char>> {
    open spec fn next(self, answer: Answer<Seq<char>>) -> HandoffTalk {
        match self {
            Handoff::Client { handles, startup } => handoff_pipes(
                handles,
                startup,
                reported_pid(handles.client, answer),
            ),
            Handoff::Stdin { handles, startup, pid } => match answer {
                Answer::Pipe { read, write } => Talk::Ask(
                    Call::CreatePipe { inherit_read: false, inherit_write: true },
                    Handoff::Stdout { handles, startup, pid, their_read: read, our_write: write },
                ),
                _ => Talk::Done(Err(HandoffError::StdinPipe(answer.failure()))),
            },
            Handoff::Stdout { handles, startup, pid, their_read, our_write } => match answer {
                Answer::Pipe { read, write } => Talk::Ask(
                    Call::Publish { in_handle: their_read, out_handle: write },
                    Handoff::Publishing { handles, startup, pid, our_read: read, our_write },
                ),
                _ => Talk::Ask(
                    Call::Close(our_write),
                    Handoff::CloseWrite { their_read, cause: answer.failure() },
                ),
            },
            Handoff::CloseWrite { their_read, cause } => Talk::Ask(
                Call::Close(their_read),
                Handoff::CloseRead { cause },
            ),
            Handoff::CloseRead { cause } => Talk::Done(Err(HandoffError::StdoutPipe(cause))),
            Handoff::Publishing { handles, startup, pid, our_read, our_write } => Talk::Ask(
                Call::MarkReceived,
                Handoff::Marking { handles, startup, pid, our_read, our_write },
            ),
            Handoff::Marking { handles, startup, pid, our_read, our_write } => Talk::Ask(
                Call::ConfiguredSize,
                Handoff::Sizing { handles, startup, pid, our_read, our_write },
            ),
            Handoff::Sizing { handles, startup, pid, our_read, our_write } => handoff_master(
                handles,
                startup,
                pid,
                our_read,
                our_write,
                wanted_size(startup, configured(answer).0, configured(answer).1),
            ),
            Handoff::Master { handles, startup, pid, size, open } => embed(
                open.next(answer),
                |open| Handoff::Master { handles, startup, pid, size, open },
                |master: RawHandlesMasterPty| handoff_child(handles, startup, pid, size, master),
            ),
            Handoff::Child { startup, size, master, begin } => embed(
                begin.next(answer),
                |begin| Handoff::Child { startup, size, master, begin },
                |child: TermHostChild| Talk::Done(Ok(handed_off(startup, size, master, child))),
            ),
        }
    }
}

/// The run-time result of a handoff.
pub type HandoffResult = Result<HandedOff<String>, HandoffError<String>>;

fn create_pipes(
    handles: HandoffHandles,
    startup: TerminalStartupInfoOwned<String>,
    pid: Option<u32>,
) -> (r: Talk<Handoff<String>, HandoffResult>)
    ensures
        r.model() == handoff_pipes(handles, startup.model(), pid),
{
    Talk::Ask(
        Call::CreatePipe { inherit_read: true, inherit_write: false },
        Handoff::Stdin { handles, startup, pid },
    )
}

fn assemble(
    startup: TerminalStartupInfoOwned<String>,
    size: PtySize,
    master: RawHandlesMasterPty,
    child: TermHostChild,
) -> (r: HandedOff<String>)
    ensures
        r.model() == handed_off(startup.model(), size, master, child),
{
    let title: String = session_title(&startup);
    let position: Option<GuiPosition> = startup_position(&startup);
    let window_state: PendingWindowState = startup_window_state(&startup);
    HandedOff { master, child, title, size, position, window_state }
}

fn begin_child(
    handles: HandoffHandles,
    startup: TerminalStartupInfoOwned<String>,
    pid: Option<u32>,
    size: PtySize,
    master: RawHandlesMasterPty,
) -> (r: Talk<Handoff<String>, HandoffResult>)
    ensures
        r.model() == handoff_child(handles, startup.model(), pid, size, master),
{
    match TermHostChild::from_raw(handles.server, pid) {
        Talk::Ask(c, begin) => Talk::Ask(c, Handoff::Child { startup, size, master, begin }),
        Talk::Done(child) => Talk::Done(Ok(assemble(startup, size, master, child))),
    }
}

fn begin_master(
    handles: HandoffHandles,
    startup: TerminalStartupInfoOwned<String>,
    pid: Option<u32>,
    our_read: Handle,
    our_write: Handle,
    size: PtySize,
) -> (r: Talk<Handoff<String>, HandoffResult>)
    ensures
        r.model() == handoff_master(handles, startup.model(), pid, our_read, our_write, size),
{
    let raw: RawHandles = RawHandles {
        read: our_read,
        write: our_write,
        signal: handles.signal,
        reference: handles.reference,
    };
    match RawHandlesMasterPty::from_raw_handles(raw, size) {
        Talk::Ask(c, open) => Talk::Ask(c, Handoff::Master { handles, startup, pid, size, open }),
        Talk::Done(master) => begin_child(handles, startup, pid, size, master),
    }
}

/// Begin to take a session over: make the two pipes, pass the console's ends
/// out, record the handoff, and wrap the rest. Once the ends are passed out
/// nothing can fail any more. The session says what is to be staged for its
/// window.
pub fn handle_handoff(
    handles: HandoffHandles,
    startup: TerminalStartupInfoOwned<String>,
) -> (r: Talk<Handoff<String>, HandoffResult>)
    ensures
        r.model() == handoff_talk(handles, startup.model()),
{
    if handles.client == 0 {
        create_pipes(handles, startup, None)
    } else {
        Talk::Ask(
            Call::ProcessId(handles.client),
            Handoff::Client { handles, startup },
        )
    }
}

impl Handoff<String> {
    /// Go on with the handoff.
    pub fn resume(self, answer: Answer<String>) -> (r: Talk<Handoff<String>, HandoffResult>)
        ensures
            r.model() == self.model().next(answer.model()),
    {
        match self {
            Handoff::Client { handles, startup } => {
                let pid: Option<u32> = match answer {
                    Answer::Code(code) => pid_of(handles.client, code),
                    _ => None,
                };
                create_pipes(handles, startup, pid)
            },
            Handoff::Stdin { handles, startup, pid } => match answer {
                Answer::Pipe { read, write } => Talk::Ask(
                    Call::CreatePipe { inherit_read: false, inherit_write: true },
                    Handoff::Stdout { handles, startup, pid, their_read: read, our_write: write },
                ),
                _ => Talk::Done(Err(HandoffError::StdinPipe(answer.into_failure()))),
            },
            Handoff::Stdout { handles, startup, pid, their_read, our_write } => match answer {
                Answer::Pipe { read, write } => Talk::Ask(
                    Call::Publish { in_handle: their_read, out_handle: write },
                    Handoff::Publishing { handles, startup, pid, our_read: read, our_write },
                ),
                _ => Talk::Ask(
                    Call::Close(our_write),
                    Handoff::CloseWrite { their_read, cause: answer.into_failure() },
                ),
            },
            Handoff::CloseWrite { their_read, cause } => Talk::Ask(
                Call::Close(their_read),
                Handoff::CloseRead { cause },
            ),
            Handoff::CloseRead { cause } => Talk::Done(Err(HandoffError::StdoutPipe(cause))),
            Handoff::Publishing { handles, startup, pid, our_read, our_write } => Talk::Ask(
                Call::MarkReceived,
                Handoff::Marking { handles, startup, pid, our_read, our_write },
            ),
            Handoff::Marking { handles, startup, pid, our_read, our_write } => Talk::Ask(
                Call::ConfiguredSize,
                Handoff::Sizing { handles, startup, pid, our_read, our_write },
            ),
            Handoff::Sizing { handles, startup, pid, our_read, our_write } => {
                let size: PtySize = match answer {
                    Answer::Size { rows, cols } => initial_size(&startup, rows, cols),
                    _ => initial_size(&startup, 24, 80),
                };
                begin_master(handles, startup, pid, our_read, our_write, size)
            },
            Handoff::Master { handles, startup, pid, size, open } => match open.resume(answer) {
                Talk::Ask(c, open) => Talk::Ask(
                    c,
                    Handoff::Master { handles, startup, pid, size, open },
                ),
                Talk::Done(master) => begin_child(handles, startup, pid, size, master),
            },
            Handoff::Child { startup, size, master, begin } => match begin.resume(answer) {
                Talk::Ask(c, begin) => Talk::Ask(
                    c,
                    Handoff::Child { startup, size, master, begin },
                ),
                Talk::Done(child) => Talk::Done(Ok(assemble(startup, size, master, child))),
            },
        }
    }
}

} // verus!
