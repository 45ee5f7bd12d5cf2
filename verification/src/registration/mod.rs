//! The Windows default terminal selection.
//!
//! The console host reads `DelegationConsole` and `DelegationTerminal` below
//! `HKCU\Console\%%Startup` at session startup. This module reads and writes
//! that selection, and keeps the one that was there before.

use crate::error::{Context, Error, Task};
use crate::guid::{
    bytes_text, guid_text, guid_text_reads_back, guid_value, hex_text, GuidValue, GUID,
};
use crate::machine::{
    bind, script_flow, start_script, Flow, Request, Resumable, Script, ScriptRun, Step, Steps,
};
use crate::model::Model;
use crate::registry::{Edit, Fault, Key, Reply, Root, ValueName};
use crate::text::{eq_ignore_ascii_case, same_ignoring_ascii_case};
use vstd::prelude::*;

pub mod detect;
pub mod fallback;
pub mod fallback_laws;
pub mod laws;
pub mod ownership;
pub mod ownership_laws;
pub mod selection_laws;
pub mod server_laws;

verus! {

/// This terminal's class.
pub const WEZTERM_TERMHOST_TERMINAL_CLSID: &'static str = "{8B7D4E2A-3F5C-4D1B-9A6E-7C2B5F8D1E4A}";

/// Microsoft's OpenConsole class. The bundled `OpenConsole.exe` is registered
/// under it when nothing else is, so that handoff works without Windows
/// Terminal. Without any server, console launches crash with
/// `STATUS_DLL_INIT_FAILED` (`0xc0000142`).
pub const WEZTERM_TERMHOST_FALLBACK_CONSOLE_CLSID: &'static str = "{2EACA947-7F5F-4CFA-BA87-8F7FBEEFBE69}";

/// The null identifier: Windows picks the terminal itself.
pub const TERMHOST_LET_WINDOWS_DECIDE: &'static str = "{00000000-0000-0000-0000-000000000000}";

/// The class that COM knows this terminal by: the identifier that
/// [`WEZTERM_TERMHOST_TERMINAL_CLSID`] spells.
pub fn CLSID_WezTermTerminalHandoff() -> (r: GUID)
    ensures
        guid_text(r@) == WEZTERM_TERMHOST_TERMINAL_CLSID@,
        guid_value(WEZTERM_TERMHOST_TERMINAL_CLSID@) == Some(r@),
{
    let g: GUID = GUID {
        Data1: 0x8B7D4E2A,
        Data2: 0x3F5C,
        Data3: 0x4D1B,
        Data4: [0x9A, 0x6E, 0x7C, 0x2B, 0x5F, 0x8D, 0x1E, 0x4A],
    };
    proof {
        lemma_terminal_spelling(g@);
        guid_text_reads_back(g@);
    }
    g
}

proof fn lemma_terminal_spelling(g: GuidValue)
    requires
        g.data1 == 0x8B7D4E2A,
        g.data2 == 0x3F5C,
        g.data3 == 0x4D1B,
        g.data4 == seq![0x9Au8, 0x6E, 0x7C, 0x2B, 0x5F, 0x8D, 0x1E, 0x4A],
    ensures
        guid_text(g) == WEZTERM_TERMHOST_TERMINAL_CLSID@,
{
    reveal_strlit("{8B7D4E2A-3F5C-4D1B-9A6E-7C2B5F8D1E4A}");
    reveal_with_fuel(hex_text, 9);
    reveal_with_fuel(bytes_text, 7);
    let text = WEZTERM_TERMHOST_TERMINAL_CLSID@;
    assert(hex_text(0x8B7D4E2A, 8) =~= text.subrange(1, 9));
    assert(hex_text(0x3F5C, 4) =~= text.subrange(10, 14));
    assert(hex_text(0x4D1B, 4) =~= text.subrange(15, 19));
    assert(bytes_text(g.data4.take(2), 2) =~= text.subrange(20, 24));
    assert(bytes_text(g.data4.skip(2), 6) =~= text.subrange(25, 37));
    assert(guid_text(g) =~= text);
}

/// A selection of console host and terminal.
#[derive(Debug)]
pub struct TermHostRegistration<S> {
    pub delegation_console: S,
    pub delegation_terminal: S,
}

impl<S: Model> Model for TermHostRegistration<S> {
    type M = TermHostRegistration<S::M>;

    open spec fn model(&self) -> TermHostRegistration<S::M> {
        TermHostRegistration {
            delegation_console: self.delegation_console.model(),
            delegation_terminal: self.delegation_terminal.model(),
        }
    }
}

/// A selection as a specification sees it.
pub type Selection = TermHostRegistration<Seq<char>>;

/// The selection that makes this terminal the default.
pub open spec fn wezterm_selection() -> Selection {
    TermHostRegistration {
        delegation_console: WEZTERM_TERMHOST_FALLBACK_CONSOLE_CLSID@,
        delegation_terminal: WEZTERM_TERMHOST_TERMINAL_CLSID@,
    }
}

/// The selection that leaves the choice to Windows.
pub open spec fn windows_decides() -> Selection {
    TermHostRegistration {
        delegation_console: TERMHOST_LET_WINDOWS_DECIDE@,
        delegation_terminal: TERMHOST_LET_WINDOWS_DECIDE@,
    }
}

/// Whether this terminal is the default. Both values must match: one alone
/// would misclassify a partial state and clobber another host's selection.
pub open spec fn selects_wezterm(reg: Selection) -> bool {
    &&& same_ignoring_ascii_case(
        reg.delegation_console,
        WEZTERM_TERMHOST_FALLBACK_CONSOLE_CLSID@,
    )
    &&& same_ignoring_ascii_case(reg.delegation_terminal, WEZTERM_TERMHOST_TERMINAL_CLSID@)
}

impl Default for TermHostRegistration<String> {
    fn default() -> (r: Self)
        ensures
            r.model() == wezterm_selection(),
    {
        TermHostRegistration {
            delegation_console: WEZTERM_TERMHOST_FALLBACK_CONSOLE_CLSID.to_string(),
            delegation_terminal: WEZTERM_TERMHOST_TERMINAL_CLSID.to_string(),
        }
    }
}

/// Whether `reg` selects this terminal.
pub fn is_wezterm_default(reg: &TermHostRegistration<String>) -> (r: bool)
    ensures
        r == selects_wezterm(reg.model()),
{
    eq_ignore_ascii_case(
        reg.delegation_console.as_str(),
        WEZTERM_TERMHOST_FALLBACK_CONSOLE_CLSID,
    ) && eq_ignore_ascii_case(reg.delegation_terminal.as_str(), WEZTERM_TERMHOST_TERMINAL_CLSID)
}

/// Whether a key with this ownership marker was written by this terminal.
pub open spec fn marks_ownership(marker: Option<u32>) -> bool {
    marker == Some(1u32)
}

/// Whether a key with this ownership marker was written by this terminal. A
/// marker that is missing or unreadable is none.
pub fn key_is_wezterm_owned(marker: Option<u32>) -> (r: bool)
    ensures
        r == marks_ownership(marker),
{
    match marker {
        Some(n) => n == 1,
        None => false,
    }
}

fn windows_decides_text() -> (r: String)
    ensures
        r@ == TERMHOST_LET_WINDOWS_DECIDE@,
{
    TERMHOST_LET_WINDOWS_DECIDE.to_string()
}

// ---------------------------------------------------------------------------
// Writing the selection
// ---------------------------------------------------------------------------

/// The edits that write a selection.
pub open spec fn register_steps(reg: Selection) -> Steps {
    seq![
        Step {
            edit: Edit::CreateKey(Key::Startup),
            fatal: Some(Context::CreateKey(Key::Startup)),
        },
        Step {
            edit: Edit::SetString(
                Key::Startup,
                ValueName::DelegationConsole,
                reg.delegation_console,
            ),
            fatal: Some(Context::Doing(Task::WriteDelegationConsole)),
        },
        Step {
            edit: Edit::SetString(
                Key::Startup,
                ValueName::DelegationTerminal,
                reg.delegation_terminal,
            ),
            fatal: Some(Context::Doing(Task::WriteDelegationTerminal)),
        },
    ]
}

fn registration_script(reg: TermHostRegistration<String>) -> (r: Script)
    ensures
        r.model() == register_steps(reg.model()),
{
    let script: Script = vec![
        Step {
            edit: Edit::CreateKey(Key::Startup),
            fatal: Some(Context::CreateKey(Key::Startup)),
        },
        Step {
            edit: Edit::SetString(
                Key::Startup,
                ValueName::DelegationConsole,
                reg.delegation_console,
            ),
            fatal: Some(Context::Doing(Task::WriteDelegationConsole)),
        },
        Step {
            edit: Edit::SetString(
                Key::Startup,
                ValueName::DelegationTerminal,
                reg.delegation_terminal,
            ),
            fatal: Some(Context::Doing(Task::WriteDelegationTerminal)),
        },
    ];
    assert(script.model() =~= register_steps(reg.model()));
    script
}

/// Write a selection.
pub fn register_termhost_with(reg: TermHostRegistration<String>) -> (r: Flow<
    String,
    ScriptRun<String, Script>,
    Result<(), Error<String>>,
>)
    ensures
        r.model() == script_flow(register_steps(reg.model())),
{
    start_script(registration_script(reg))
}

/// Make this terminal the default.
pub fn register_termhost() -> (r: Flow<
    String,
    ScriptRun<String, Script>,
    Result<(), Error<String>>,
>)
    ensures
        r.model() == script_flow(register_steps(wezterm_selection())),
{
    register_termhost_with(TermHostRegistration::default())
}

/// The edits that delete the backup. Their failures are ignored.
pub open spec fn clear_steps() -> Steps {
    seq![
        Step { edit: Edit::DeleteValue(Key::Startup, ValueName::LastConsole), fatal: None },
        Step { edit: Edit::DeleteValue(Key::Startup, ValueName::LastTerminal), fatal: None },
    ]
}

/// Delete the backup of the previous selection. Nothing happens if there is
/// none.
pub fn clear_delegation_backup() -> (r: Flow<
    String,
    ScriptRun<String, Script>,
    Result<(), Error<String>>,
>)
    ensures
        r.model() == script_flow(clear_steps()),
{
    let script: Script = vec![
        Step { edit: Edit::DeleteValue(Key::Startup, ValueName::LastConsole), fatal: None },
        Step { edit: Edit::DeleteValue(Key::Startup, ValueName::LastTerminal), fatal: None },
    ];
    assert(script.model() =~= clear_steps());
    start_script(script)
}

// ---------------------------------------------------------------------------
// Reading the selection
// ---------------------------------------------------------------------------

/// The selection as it was read: both values, or none if one of them is not
/// set, or an error if reading failed for another reason.
pub open spec fn selection_read(
    console: Result<Seq<char>, Fault<Seq<char>>>,
    terminal: Result<Seq<char>, Fault<Seq<char>>>,
) -> Result<Option<Selection>, Error<Seq<char>>> {
    if console is Ok && terminal is Ok {
        Ok(
            Some(
                TermHostRegistration {
                    delegation_console: console->Ok_0,
                    delegation_terminal: terminal->Ok_0,
                },
            ),
        )
    } else if (console is Ok || console->Err_0.not_found) && (terminal is Ok
        || terminal->Err_0.not_found) {
        Ok(None)
    } else if console is Err {
        Err(
            Error { context: Context::Doing(Task::ReadDelegation), cause: console->Err_0.cause },
        )
    } else {
        Err(
            Error {
                context: Context::Doing(Task::ReadDelegationTerminal),
                cause: terminal->Err_0.cause,
            },
        )
    }
}

/// The lookup of the current selection, waiting.
#[derive(Debug)]
pub enum CurrentRegistration<S> {
    /// For the startup key to be opened.
    Opening,
    /// For `DelegationConsole`.
    Console,
    /// For `DelegationTerminal`, with what came of the console.
    Terminal(Result<S, Fault<S>>),
}

impl<S: Model> Model for CurrentRegistration<S> {
    type M = CurrentRegistration<S::M>;

    open spec fn model(&self) -> CurrentRegistration<S::M> {
        match self {
            CurrentRegistration::Opening => CurrentRegistration::Opening,
            CurrentRegistration::Console => CurrentRegistration::Console,
            CurrentRegistration::Terminal(c) => CurrentRegistration::Terminal(c.model()),
        }
    }
}

/// The lookup of the current selection.
pub open spec fn current_registration_flow() -> Flow<
    Seq<char>,
    CurrentRegistration<Seq<char>>,
    Result<Option<Selection>, Error<Seq<char>>>,
> {
    Flow::Ask(
        Request::OpenRead(Root::CurrentUser, Key::Startup),
        CurrentRegistration::Opening,
    )
}

impl Resumable<Result<Option<Selection>, Error<Seq<char>>>> for CurrentRegistration<Seq<char>> {
    open spec fn next(self, reply: Reply<Seq<char>>) -> Flow<
        Seq<char>,
        Self,
        Result<Option<Selection>, Error<Seq<char>>>,
    > {
        match self {
            CurrentRegistration::Opening => match reply.outcome() {
                Ok(_) => Flow::Ask(
                    Request::GetString(
                        Root::CurrentUser,
                        Key::Startup,
                        ValueName::DelegationConsole,
                    ),
                    CurrentRegistration::Console,
                ),
                Err(fault) => if fault.not_found {
                    Flow::Done(Ok(None))
                } else {
                    Flow::Done(
                        Err(
                            Error {
                                context: Context::OpenForRead(Key::Startup),
                                cause: fault.cause,
                            },
                        ),
                    )
                },
            },
            CurrentRegistration::Console => Flow::Ask(
                Request::GetString(Root::CurrentUser, Key::Startup, ValueName::DelegationTerminal),
                CurrentRegistration::Terminal(reply.text()),
            ),
            CurrentRegistration::Terminal(console) => Flow::Done(
                selection_read(console, reply.text()),
            ),
        }
    }
}

fn read_selection(
    console: Result<String, Fault<String>>,
    terminal: Result<String, Fault<String>>,
) -> (r: Result<Option<TermHostRegistration<String>>, Error<String>>)
    ensures
        r.model() == selection_read(console.model(), terminal.model()),
{
    match (console, terminal) {
        (Ok(c), Ok(t)) => Ok(
            Some(TermHostRegistration { delegation_console: c, delegation_terminal: t }),
        ),
        (Ok(_), Err(e)) => {
            if e.not_found {
                Ok(None)
            } else {
                Err(
                    Error {
                        context: Context::Doing(Task::ReadDelegationTerminal),
                        cause: e.cause,
                    },
                )
            }
        },
        (Err(e), Ok(_)) => {
            if e.not_found {
                Ok(None)
            } else {
                Err(Error { context: Context::Doing(Task::ReadDelegation), cause: e.cause })
            }
        },
        (Err(c), Err(t)) => {
            if c.not_found && t.not_found {
                Ok(None)
            } else {
                Err(Error { context: Context::Doing(Task::ReadDelegation), cause: c.cause })
            }
        },
    }
}

/// Look up the current selection: `None` if it is not set, or only in part.
pub fn current_registration() -> (r: Flow<
    String,
    CurrentRegistration<String>,
    Result<Option<TermHostRegistration<String>>, Error<String>>,
>)
    ensures
        r.model() == current_registration_flow(),
{
    Flow::Ask(Request::OpenRead(Root::CurrentUser, Key::Startup), CurrentRegistration::Opening)
}

impl CurrentRegistration<String> {
    /// Go on with the lookup.
    pub fn resume(self, reply: Reply<String>) -> (r: Flow<
        String,
        CurrentRegistration<String>,
        Result<Option<TermHostRegistration<String>>, Error<String>>,
    >)
        ensures
            r.model() == self.model().next(reply.model()),
    {
        match self {
            CurrentRegistration::Opening => match reply.into_outcome() {
                Ok(_) => Flow::Ask(
                    Request::GetString(
                        Root::CurrentUser,
                        Key::Startup,
                        ValueName::DelegationConsole,
                    ),
                    CurrentRegistration::Console,
                ),
                Err(fault) => if fault.not_found {
                    Flow::Done(Ok(None))
                } else {
                    Flow::Done(
                        Err(
                            Error {
                                context: Context::OpenForRead(Key::Startup),
                                cause: fault.cause,
                            },
                        ),
                    )
                },
            },
            CurrentRegistration::Console => Flow::Ask(
                Request::GetString(Root::CurrentUser, Key::Startup, ValueName::DelegationTerminal),
                CurrentRegistration::Terminal(reply.into_text()),
            ),
            CurrentRegistration::Terminal(console) => Flow::Done(
                read_selection(console, reply.into_text()),
            ),
        }
    }
}

// ---------------------------------------------------------------------------
// Capturing the previous selection
// ---------------------------------------------------------------------------

/// The edits that write the backup.
pub open spec fn backup_steps(previous: Selection) -> Steps {
    seq![
        Step {
            edit: Edit::CreateKey(Key::Startup),
            fatal: Some(Context::OpenForBackup(Key::Startup)),
        },
        Step {
            edit: Edit::SetString(
                Key::Startup,
                ValueName::LastConsole,
                previous.delegation_console,
            ),
            fatal: Some(Context::Doing(Task::WriteBackupConsole)),
        },
        Step {
            edit: Edit::SetString(
                Key::Startup,
                ValueName::LastTerminal,
                previous.delegation_terminal,
            ),
            fatal: Some(Context::Doing(Task::WriteBackupTerminal)),
        },
    ]
}

/// The capture of the previous selection, waiting.
#[derive(Debug)]
pub enum CaptureBackup<S, L> {
    /// For the current selection.
    Reading(CurrentRegistration<S>),
    /// For the backup to be written.
    Writing(ScriptRun<S, L>),
}

impl<S: Model, L: Model> Model for CaptureBackup<S, L> {
    type M = CaptureBackup<S::M, L::M>;

    open spec fn model(&self) -> CaptureBackup<S::M, L::M> {
        match self {
            CaptureBackup::Reading(m) => CaptureBackup::Reading(m.model()),
            CaptureBackup::Writing(m) => CaptureBackup::Writing(m.model()),
        }
    }
}

/// How the capture goes on once the current selection is known: nothing is
/// written if it is this terminal already, else the selection, or the null
/// identifiers where there is none.
pub open spec fn capture_after(
    current: Result<Option<Selection>, Error<Seq<char>>>,
) -> Flow<Seq<char>, CaptureBackup<Seq<char>, Steps>, Result<(), Error<Seq<char>>>> {
    match current {
        Err(e) => Flow::Done(Err(e)),
        Ok(Some(reg)) => if selects_wezterm(reg) {
            Flow::Done(Ok(()))
        } else {
            capture_write(reg)
        },
        Ok(None) => capture_write(windows_decides()),
    }
}

/// How the capture writes the backup.
pub open spec fn capture_write(
    previous: Selection,
) -> Flow<Seq<char>, CaptureBackup<Seq<char>, Steps>, Result<(), Error<Seq<char>>>> {
    bind(
        script_flow(backup_steps(previous)),
        |m| CaptureBackup::Writing(m),
        |r: Result<(), Error<Seq<char>>>| Flow::Done(r),
    )
}

/// The capture of the previous selection.
pub open spec fn capture_flow() -> Flow<
    Seq<char>,
    CaptureBackup<Seq<char>, Steps>,
    Result<(), Error<Seq<char>>>,
> {
    bind(
        current_registration_flow(),
        |m| CaptureBackup::Reading(m),
        |c: Result<Option<Selection>, Error<Seq<char>>>| capture_after(c),
    )
}

impl Resumable<Result<(), Error<Seq<char>>>> for CaptureBackup<Seq<char>, Steps> {
    open spec fn next(self, reply: Reply<Seq<char>>) -> Flow<
        Seq<char>,
        Self,
        Result<(), Error<Seq<char>>>,
    > {
        match self {
            CaptureBackup::Reading(m) => bind(
                m.next(reply),
                |m| CaptureBackup::Reading(m),
                |c: Result<Option<Selection>, Error<Seq<char>>>| capture_after(c),
            ),
            CaptureBackup::Writing(m) => bind(
                m.next(reply),
                |m| CaptureBackup::Writing(m),
                |r: Result<(), Error<Seq<char>>>| Flow::Done(r),
            ),
        }
    }
}

fn backup_script(previous: TermHostRegistration<String>) -> (r: Script)
    ensures
        r.model() == backup_steps(previous.model()),
{
    let script: Script = vec![
        Step {
            edit: Edit::CreateKey(Key::Startup),
            fatal: Some(Context::OpenForBackup(Key::Startup)),
        },
        Step {
            edit: Edit::SetString(
                Key::Startup,
                ValueName::LastConsole,
                previous.delegation_console,
            ),
            fatal: Some(Context::Doing(Task::WriteBackupConsole)),
        },
        Step {
            edit: Edit::SetString(
                Key::Startup,
                ValueName::LastTerminal,
                previous.delegation_terminal,
            ),
            fatal: Some(Context::Doing(Task::WriteBackupTerminal)),
        },
    ];
    assert(script.model() =~= backup_steps(previous.model()));
    script
}

fn write_backup(previous: TermHostRegistration<String>) -> (r: Flow<
    String,
    CaptureBackup<String, Script>,
    Result<(), Error<String>>,
>)
    ensures
        r.model() == capture_write(previous.model()),
{
    match start_script(backup_script(previous)) {
        Flow::Ask(q, m) => Flow::Ask(q, CaptureBackup::Writing(m)),
        Flow::Done(r) => Flow::Done(r),
    }
}

fn capture_selection(
    current: Result<Option<TermHostRegistration<String>>, Error<String>>,
) -> (r: Flow<String, CaptureBackup<String, Script>, Result<(), Error<String>>>)
    ensures
        r.model() == capture_after(current.model()),
{
    match current {
        Err(e) => Flow::Done(Err(e)),
        Ok(Some(reg)) => {
            if is_wezterm_default(&reg) {
                Flow::Done(Ok(()))
            } else {
                write_backup(reg)
            }
        },
        Ok(None) => write_backup(
            TermHostRegistration {
                delegation_console: windows_decides_text(),
                delegation_terminal: windows_decides_text(),
            },
        ),
    }
}

/// Keep the current selection as a backup. If this terminal is the default
/// already, the existing backup stays: it holds the selection from before.
pub fn capture_delegation_backup() -> (r: Flow<
    String,
    CaptureBackup<String, Script>,
    Result<(), Error<String>>,
>)
    ensures
        r.model() == capture_flow(),
{
    match current_registration() {
        Flow::Ask(q, m) => Flow::Ask(q, CaptureBackup::Reading(m)),
        Flow::Done(c) => capture_selection(c),
    }
}

impl CaptureBackup<String, Script> {
    /// Go on with the capture.
    pub fn resume(self, reply: Reply<String>) -> (r: Flow<
        String,
        CaptureBackup<String, Script>,
        Result<(), Error<String>>,
    >)
        ensures
            r.model() == self.model().next(reply.model()),
    {
        match self {
            CaptureBackup::Reading(m) => match m.resume(reply) {
                Flow::Ask(q, m) => Flow::Ask(q, CaptureBackup::Reading(m)),
                Flow::Done(c) => capture_selection(c),
            },
            CaptureBackup::Writing(m) => match m.resume(reply) {
                Flow::Ask(q, m) => Flow::Ask(q, CaptureBackup::Writing(m)),
                Flow::Done(r) => Flow::Done(r),
            },
        }
    }
}

// ---------------------------------------------------------------------------
// Restoring the previous selection
// ---------------------------------------------------------------------------

/// The restoration of the previous selection, waiting.
#[derive(Debug)]
pub enum RestoreBackup<S, L> {
    /// For the current selection.
    Reading(CurrentRegistration<S>),
    /// For the startup key to be opened again.
    Opening,
    /// For the console of the backup.
    LastConsole,
    /// For the terminal of the backup.
    LastTerminal { console: S },
    /// For the previous selection to be written.
    Writing(ScriptRun<S, L>),
    /// For the backup to be deleted.
    Clearing { restored: bool, run: ScriptRun<S, L> },
}

impl<S: Model, L: Model> Model for RestoreBackup<S, L> {
    type M = RestoreBackup<S::M, L::M>;

    open spec fn model(&self) -> RestoreBackup<S::M, L::M> {
        match self {
            RestoreBackup::Reading(m) => RestoreBackup::Reading(m.model()),
            RestoreBackup::Opening => RestoreBackup::Opening,
            RestoreBackup::LastConsole => RestoreBackup::LastConsole,
            RestoreBackup::LastTerminal { console } => RestoreBackup::LastTerminal {
                console: console.model(),
            },
            RestoreBackup::Writing(m) => RestoreBackup::Writing(m.model()),
            RestoreBackup::Clearing { restored, run } => RestoreBackup::Clearing {
                restored: *restored,
                run: run.model(),
            },
        }
    }
}

/// A restoration as a specification sees it.
pub type RestoreFlow = Flow<
    Seq<char>,
    RestoreBackup<Seq<char>, Steps>,
    Result<bool, Error<Seq<char>>>,
>;

/// A value of the backup; one that cannot be read is the null identifier.
pub open spec fn backup_value(read: Result<Seq<char>, Fault<Seq<char>>>) -> Seq<char> {
    match read {
        Ok(s) => s,
        Err(_) => TERMHOST_LET_WINDOWS_DECIDE@,
    }
}

/// How the restoration ends: the backup is deleted.
pub open spec fn restore_clear(restored: bool) -> RestoreFlow {
    bind(
        script_flow(clear_steps()),
        |run| RestoreBackup::Clearing { restored, run },
        |r: Result<(), Error<Seq<char>>>| restore_cleared(restored, r),
    )
}

/// What the restoration reports once the backup is deleted.
pub open spec fn restore_cleared(
    restored: bool,
    cleared: Result<(), Error<Seq<char>>>,
) -> RestoreFlow {
    match cleared {
        Ok(_) => Flow::Done(Ok(restored)),
        Err(e) => Flow::Done(Err(e)),
    }
}

/// How the restoration writes the previous selection.
pub open spec fn restore_write(previous: Selection) -> RestoreFlow {
    bind(
        script_flow(register_steps(previous)),
        |m| RestoreBackup::Writing(m),
        |r: Result<(), Error<Seq<char>>>| restore_written(r),
    )
}

/// How the restoration goes on once the previous selection is written.
pub open spec fn restore_written(written: Result<(), Error<Seq<char>>>) -> RestoreFlow {
    match written {
        Ok(_) => restore_clear(true),
        Err(e) => Flow::Done(Err(e)),
    }
}

/// How the restoration goes on once the current selection is known: a selection
/// that is not this terminal was made by someone else and stays.
pub open spec fn restore_after(
    current: Result<Option<Selection>, Error<Seq<char>>>,
) -> RestoreFlow {
    match current {
        Err(e) => Flow::Done(Err(e)),
        Ok(reg) => if reg is Some && selects_wezterm(reg->0) {
            Flow::Ask(
                Request::OpenRead(Root::CurrentUser, Key::Startup),
                RestoreBackup::Opening,
            )
        } else {
            restore_clear(false)
        },
    }
}

/// The restoration of the previous selection.
pub open spec fn restore_flow() -> RestoreFlow {
    bind(
        current_registration_flow(),
        |m| RestoreBackup::Reading(m),
        |c: Result<Option<Selection>, Error<Seq<char>>>| restore_after(c),
    )
}

impl Resumable<Result<bool, Error<Seq<char>>>> for RestoreBackup<Seq<char>, Steps> {
    open spec fn next(self, reply: Reply<Seq<char>>) -> RestoreFlow {
        match self {
            RestoreBackup::Reading(m) => bind(
                m.next(reply),
                |m| RestoreBackup::Reading(m),
                |c: Result<Option<Selection>, Error<Seq<char>>>| restore_after(c),
            ),
            RestoreBackup::Opening => match reply.outcome() {
                Ok(_) => Flow::Ask(
                    Request::GetString(Root::CurrentUser, Key::Startup, ValueName::LastConsole),
                    RestoreBackup::LastConsole,
                ),
                Err(_) => restore_write(windows_decides()),
            },
            RestoreBackup::LastConsole => Flow::Ask(
                Request::GetString(Root::CurrentUser, Key::Startup, ValueName::LastTerminal),
                RestoreBackup::LastTerminal { console: backup_value(reply.text()) },
            ),
            RestoreBackup::LastTerminal { console } => restore_write(
                TermHostRegistration {
                    delegation_console: console,
                    delegation_terminal: backup_value(reply.text()),
                },
            ),
            RestoreBackup::Writing(m) => bind(
                m.next(reply),
                |m| RestoreBackup::Writing(m),
                |r: Result<(), Error<Seq<char>>>| restore_written(r),
            ),
            RestoreBackup::Clearing { restored, run } => bind(
                run.next(reply),
                |run| RestoreBackup::Clearing { restored, run },
                |r: Result<(), Error<Seq<char>>>| restore_cleared(restored, r),
            ),
        }
    }
}

fn backup_or_null(read: Result<String, Fault<String>>) -> (r: String)
    ensures
        r@ == backup_value(read.model()),
{
    match read {
        Ok(s) => s,
        Err(_) => windows_decides_text(),
    }
}

fn finish_restore(restored: bool, cleared: Result<(), Error<String>>) -> (r: Flow<
    String,
    RestoreBackup<String, Script>,
    Result<bool, Error<String>>,
>)
    ensures
        r.model() == restore_cleared(restored, cleared.model()),
{
    match cleared {
        Ok(_) => Flow::Done(Ok(restored)),
        Err(e) => Flow::Done(Err(e)),
    }
}

fn clear_after_restore(restored: bool) -> (r: Flow<
    String,
    RestoreBackup<String, Script>,
    Result<bool, Error<String>>,
>)
    ensures
        r.model() == restore_clear(restored),
{
    match clear_delegation_backup() {
        Flow::Ask(q, run) => Flow::Ask(q, RestoreBackup::Clearing { restored, run }),
        Flow::Done(r) => finish_restore(restored, r),
    }
}

fn after_restore_write(written: Result<(), Error<String>>) -> (r: Flow<
    String,
    RestoreBackup<String, Script>,
    Result<bool, Error<String>>,
>)
    ensures
        r.model() == restore_written(written.model()),
{
    match written {
        Ok(_) => clear_after_restore(true),
        Err(e) => Flow::Done(Err(e)),
    }
}

fn write_previous(previous: TermHostRegistration<String>) -> (r: Flow<
    String,
    RestoreBackup<String, Script>,
    Result<bool, Error<String>>,
>)
    ensures
        r.model() == restore_write(previous.model()),
{
    match register_termhost_with(previous) {
        Flow::Ask(q, m) => Flow::Ask(q, RestoreBackup::Writing(m)),
        Flow::Done(r) => after_restore_write(r),
    }
}

fn restore_selection(
    current: Result<Option<TermHostRegistration<String>>, Error<String>>,
) -> (r: Flow<String, RestoreBackup<String, Script>, Result<bool, Error<String>>>)
    ensures
        r.model() == restore_after(current.model()),
{
    match current {
        Err(e) => Flow::Done(Err(e)),
        Ok(reg) => {
            let is_default: bool = match &reg {
                Some(reg) => is_wezterm_default(reg),
                None => false,
            };
            if is_default {
                Flow::Ask(
                    Request::OpenRead(Root::CurrentUser, Key::Startup),
                    RestoreBackup::Opening,
                )
            } else {
                clear_after_restore(false)
            }
        },
    }
}

/// Bring back the selection that was captured. The result tells whether it was
/// brought back; it is not if the current selection is not this terminal. In
/// either case the backup is deleted.
pub fn restore_delegation_backup() -> (r: Flow<
    String,
    RestoreBackup<String, Script>,
    Result<bool, Error<String>>,
>)
    ensures
        r.model() == restore_flow(),
{
    match current_registration() {
        Flow::Ask(q, m) => Flow::Ask(q, RestoreBackup::Reading(m)),
        Flow::Done(c) => restore_selection(c),
    }
}

impl RestoreBackup<String, Script> {
    /// Go on with the restoration.
    pub fn resume(self, reply: Reply<String>) -> (r: Flow<
        String,
        RestoreBackup<String, Script>,
        Result<bool, Error<String>>,
    >)
        ensures
            r.model() == self.model().next(reply.model()),
    {
        match self {
            RestoreBackup::Reading(m) => match m.resume(reply) {
                Flow::Ask(q, m) => Flow::Ask(q, RestoreBackup::Reading(m)),
                Flow::Done(c) => restore_selection(c),
            },
            RestoreBackup::Opening => match reply.into_outcome() {
                Ok(_) => Flow::Ask(
                    Request::GetString(Root::CurrentUser, Key::Startup, ValueName::LastConsole),
                    RestoreBackup::LastConsole,
                ),
                Err(_) => write_previous(
                    TermHostRegistration {
                        delegation_console: windows_decides_text(),
                        delegation_terminal: windows_decides_text(),
                    },
                ),
            },
            RestoreBackup::LastConsole => Flow::Ask(
                Request::GetString(Root::CurrentUser, Key::Startup, ValueName::LastTerminal),
                RestoreBackup::LastTerminal { console: backup_or_null(reply.into_text()) },
            ),
            RestoreBackup::LastTerminal { console } => write_previous(
                TermHostRegistration {
                    delegation_console: console,
                    delegation_terminal: backup_or_null(reply.into_text()),
                },
            ),
            RestoreBackup::Writing(m) => match m.resume(reply) {
                Flow::Ask(q, m) => Flow::Ask(q, RestoreBackup::Writing(m)),
                Flow::Done(r) => after_restore_write(r),
            },
            RestoreBackup::Clearing { restored, run } => match run.resume(reply) {
                Flow::Ask(q, run) => Flow::Ask(q, RestoreBackup::Clearing { restored, run }),
                Flow::Done(r) => finish_restore(restored, r),
            },
        }
    }
}

} // verus!
