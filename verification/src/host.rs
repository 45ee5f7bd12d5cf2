//! Process-level state of the terminal host: how the process was launched,
//! whether it listens, and what is staged for the next window.
//!
//! Windows' process launcher (the SCM) starts the terminal with an
//! `-Embedding` flag when a handoff request arrives and no terminal runs.

use crate::once::OnceSlot;
use crate::types::TerminalStartupInfoOwned;
use vstd::prelude::*;

verus! {

/// `SW_SHOWMAXIMIZED`.
pub const SW_SHOWMAXIMIZED: u16 = 3;

/// No show hint. Distinct from every real `SW_*` value, all of which are
/// below 16.
pub const SHOW_WINDOW_NONE: u16 = 0xffff;

/// How long to wait for the handoff before a fallback tab is spawned.
pub const HANDOFF_WAIT_SECONDS: u64 = 5;

/// A Win32 handle value; 0 is the null handle.
pub type Handle = usize;

/// Record whether the SCM launched this process. Only the first call counts.
pub fn set_scm_launched(slot: &mut OnceSlot<bool>, v: bool)
    ensures
        *final(slot) == old(slot).offered(v),
{
    let _ = slot.set(v);
}

/// Whether the SCM launched this process; `false` until it is recorded.
pub fn scm_launched(slot: &OnceSlot<bool>) -> (r: bool)
    ensures
        r == (slot.value == Some(true)),
{
    match slot.get() {
        Some(v) => *v,
        None => false,
    }
}

/// Holds the COM registration. `handoff` is declared first so that it is
/// dropped first: the class object is revoked while COM is still initialized.
#[derive(Debug)]
pub struct TermHostState<H, C> {
    pub handoff: Option<H>,
    pub coinit: C,
}

/// Where installation stands, and with it what the process does next.
#[derive(Debug)]
pub enum Install<H, C> {
    /// Initialize COM on the main thread.
    InitializeCom,
    /// Start the listener, keeping COM initialized.
    StartListener { coinit: C },
    /// Nothing more to do. `None` if a step failed.
    Finished(Option<TermHostState<H, C>>),
}

/// What a step of the installation brought.
#[derive(Debug)]
pub enum InstallEvent<H, C> {
    ComInitialized(C),
    ComFailed,
    /// The listener runs; `None` if it had been started before.
    ListenerStarted(Option<H>),
    ListenerFailed,
}

/// Advance the installation. A failed step ends it without a state; an event
/// that does not belong to the current step changes nothing.
pub fn install<H, C>(at: Install<H, C>, event: InstallEvent<H, C>) -> (r: Install<H, C>)
    ensures
        r == match (at, event) {
            (Install::InitializeCom, InstallEvent::ComInitialized(coinit)) => {
                Install::StartListener { coinit }
            },
            (Install::InitializeCom, InstallEvent::ComFailed) => Install::Finished(None),
            (Install::StartListener { coinit }, InstallEvent::ListenerStarted(handoff)) => {
                Install::Finished(Some(TermHostState { handoff, coinit }))
            },
            (Install::StartListener { .. }, InstallEvent::ListenerFailed) => Install::Finished(
                None,
            ),
            (other, _) => other,
        },
{
    match (at, event) {
        (Install::InitializeCom, InstallEvent::ComInitialized(coinit)) => {
            Install::StartListener { coinit }
        },
        (Install::InitializeCom, InstallEvent::ComFailed) => Install::Finished(None),
        (Install::StartListener { coinit }, InstallEvent::ListenerStarted(handoff)) => {
            Install::Finished(Some(TermHostState { handoff, coinit }))
        },
        (Install::StartListener { .. }, InstallEvent::ListenerFailed) => Install::Finished(None),
        (other, _) => other,
    }
}

/// What to do about the listener.
#[derive(Debug)]
pub enum Listener {
    /// Start it.
    Start,
    /// It runs already.
    Running,
}

/// Whether the listener has to be started: only once per process.
pub fn try_start_listener(started: &OnceSlot<()>) -> (r: Listener)
    ensures
        r is Start == started.value is None,
{
    if started.get().is_some() {
        Listener::Running
    } else {
        Listener::Start
    }
}

/// Take note of an attempt to start the listener. A failed attempt is not
/// remembered, so that a later one may succeed.
pub fn listener_started<H, E>(started: &mut OnceSlot<()>, attempt: Result<H, E>) -> (r: Result<
    Option<H>,
    E,
>)
    ensures
        match attempt {
            Ok(guard) => r == Ok::<Option<H>, E>(Some(guard)) && *final(started) == old(
                started,
            ).offered(()),
            Err(e) => r == Err::<Option<H>, E>(e) && *final(started) == *old(started),
        },
{
    match attempt {
        Ok(guard) => {
            let _ = started.set(());
            Ok(Some(guard))
        },
        Err(e) => Err(e),
    }
}

/// A text as UTF-16 code units, one per character. For ASCII text.
pub open spec fn wide(s: Seq<char>) -> Seq<u16> {
    s.map_values(|c: char| (c as u32) as u16)
}

/// Command-line arguments as their code units.
pub open spec fn arguments(argv: Seq<Vec<u16>>) -> Seq<Seq<u16>> {
    argv.map_values(|a: Vec<u16>| a@)
}

/// The flag with which the SCM launches a COM server.
pub open spec fn embedding_flag(arg: Seq<u16>) -> bool {
    arg == wide("-Embedding"@) || arg == wide("/Embedding"@)
}

/// Whether the SCM wrote this command line.
pub open spec fn launched_by_scm(argv: Seq<Seq<u16>>) -> bool {
    argv.len() > 1 && embedding_flag(argv[1])
}

/// The command line that the argument parser sees.
pub open spec fn parser_arguments(argv: Seq<Seq<u16>>) -> Seq<Seq<u16>> {
    if launched_by_scm(argv) {
        seq![argv[0], wide("start"@), wide("--always-new-process"@)] + argv.skip(2)
    } else {
        argv
    }
}

fn to_wide(s: &str) -> (r: Vec<u16>)
    ensures
        r@ == wide(s@),
{
    let len: usize = s.unicode_len();
    let mut out: Vec<u16> = Vec::new();
    let mut i: usize = 0;
    while i < len
        invariant
            0 <= i <= len,
            len == s@.len(),
            out@ == wide(s@.take(i as int)),
        decreases len - i,
    {
        #[verifier::truncate]
        let unit: u16 = (s.get_char(i) as u32) as u16;
        out.push(unit);
        i = i + 1;
        assert(out@ =~= wide(s@.take(i as int)));
    }
    assert(s@.take(len as int) =~= s@);
    out
}

fn same_units(a: &Vec<u16>, b: &Vec<u16>) -> (r: bool)
    ensures
        r == (a@ == b@),
{
    if a.len() != b.len() {
        return false;
    }
    let mut i: usize = 0;
    while i < a.len()
        invariant
            0 <= i <= a@.len(),
            a@.len() == b@.len(),
            forall|j: int| 0 <= j < i ==> a@[j] == b@[j],
        decreases a@.len() - i,
    {
        if a[i] != b[i] {
            return false;
        }
        i = i + 1;
    }
    assert(a@ =~= b@);
    true
}

/// Whether `arg` is `-Embedding` or `/Embedding`, to the letter.
pub fn is_embedding_flag(arg: &Vec<u16>) -> (r: bool)
    ensures
        r == embedding_flag(arg@),
{
    same_units(arg, &to_wide("-Embedding")) || same_units(arg, &to_wide("/Embedding"))
}

/// Detect an SCM launch and replace the flag by the `start` subcommand. Only
/// the first argument after the program is looked at: later ones may belong to
/// a child command. Arguments are UTF-16 code units, as Windows passes them.
pub fn filter_embedding_flags(argv: Vec<Vec<u16>>) -> (r: (Vec<Vec<u16>>, bool))
    requires
        argv@.len() < usize::MAX,
    ensures
        arguments(r.0@) == parser_arguments(arguments(argv@)),
        r.1 == launched_by_scm(arguments(argv@)),
{
    if argv.len() < 2 || !is_embedding_flag(&argv[1]) {
        return (argv, false);
    }
    let mut filtered: Vec<Vec<u16>> = argv;
    filtered.remove(1);
    filtered.insert(1, to_wide("start"));
    filtered.insert(2, to_wide("--always-new-process"));
    assert(arguments(filtered@) =~= parser_arguments(arguments(argv@)));
    (filtered, true)
}

/// Whatever the arguments are, the program's name and everything after the
/// first argument come through in order, and the launch mode is decided by the
/// first argument alone.
pub proof fn only_the_first_argument_counts(argv: Seq<Seq<u16>>, other: Seq<Seq<u16>>)
    requires
        argv.len() > 1,
        other.len() > 1,
        argv[1] == other[1],
    ensures
        launched_by_scm(argv) == launched_by_scm(other),
        parser_arguments(argv)[0] == argv[0],
        parser_arguments(argv).skip(
            if launched_by_scm(argv) {
                3
            } else {
                2
            },
        ) == argv.skip(2),
{
    assert(parser_arguments(argv).skip(
        if launched_by_scm(argv) {
            3
        } else {
            2
        },
    ) =~= argv.skip(2));
}

/// The window state that waits for the next window of a handoff.
#[derive(Clone, Copy, Debug, PartialEq, Eq, Structural)]
pub struct PendingWindowState {
    pub show_window: u16,
}

/// What to do to a new window.
#[derive(Clone, Copy, Debug)]
pub struct WindowEffects {
    pub maximize: bool,
    pub focus: bool,
}

/// The window state that a show hint asks for. Only "maximized" is honored.
pub open spec fn hinted_state(show_window: u16) -> PendingWindowState {
    PendingWindowState {
        show_window: if show_window == SW_SHOWMAXIMIZED {
            SW_SHOWMAXIMIZED
        } else {
            SHOW_WINDOW_NONE
        },
    }
}

/// The window state that the startup information asks for.
pub fn startup_window_state(startup: &TerminalStartupInfoOwned<String>) -> (r: PendingWindowState)
    ensures
        r == hinted_state(startup.show_window),
{
    let show_window: u16 = if startup.show_window == SW_SHOWMAXIMIZED {
        SW_SHOWMAXIMIZED
    } else {
        SHOW_WINDOW_NONE
    };
    PendingWindowState { show_window }
}

/// Stage the show hint of a handoff.
pub fn set_pending_startup_state(
    pending: &mut Option<PendingWindowState>,
    startup: &TerminalStartupInfoOwned<String>,
)
    ensures
        *final(pending) == Some(hinted_state(startup.show_window)),
{
    *pending = Some(startup_window_state(startup));
}

/// Take the staged state and say what it asks of the window. A process that
/// the SCM launched also brings its window to the front.
pub fn apply_pending_window_state(
    pending: &mut Option<PendingWindowState>,
    launched: &OnceSlot<bool>,
) -> (r: WindowEffects)
    ensures
        *final(pending) is None,
        r.maximize == (*old(pending) is Some && old(pending)->0.show_window == SW_SHOWMAXIMIZED),
        r.focus == (launched.value == Some(true)),
{
    let maximize: bool = match pending {
        Some(state) => state.show_window == SW_SHOWMAXIMIZED,
        None => false,
    };
    *pending = None;
    WindowEffects { maximize, focus: scm_launched(launched) }
}

/// A step of the wait for a handoff.
#[derive(Clone, Copy, Debug, PartialEq, Eq, Structural)]
pub enum AwaitHandoff {
    /// Keep the process alive and sleep.
    Sleep { seconds: u64 },
    /// No handoff came: spawn a tab of the default profile, so that the
    /// process does not stay invisible.
    SpawnFallback,
    /// A handoff came; it brings its own window.
    Finished,
}

/// Begin to wait for the handoff that the SCM launched this process for.
pub fn await_handoff() -> (r: AwaitHandoff)
    ensures
        r == (AwaitHandoff::Sleep { seconds: HANDOFF_WAIT_SECONDS }),
{
    AwaitHandoff::Sleep { seconds: HANDOFF_WAIT_SECONDS }
}

/// What to do once the wait is over.
pub fn handoff_deadline(received: bool) -> (r: AwaitHandoff)
    ensures
        r == (if received {
            AwaitHandoff::Finished
        } else {
            AwaitHandoff::SpawnFallback
        }),
{
    if received {
        AwaitHandoff::Finished
    } else {
        AwaitHandoff::SpawnFallback
    }
}

/// The process id behind a handle: `None` for a null handle, and for a handle
/// of which `GetProcessId` reports 0. A null handle is not asked about.
pub fn pid_of(handle: Handle, reported: u32) -> (r: Option<u32>)
    ensures
        r == (if handle == 0 || reported == 0 {
            None
        } else {
            Some(reported)
        }),
{
    if handle == 0 || reported == 0 {
        None
    } else {
        Some(reported)
    }
}

// ---------------------------------------------------------------------------
// Laws
// ---------------------------------------------------------------------------

/// A launch by the SCM is told by the first argument, which then is `-Embedding`
/// or `/Embedding` to the letter and nothing else. Only then the command line
/// changes: that argument gives way to `start` and `--always-new-process`, and
/// all others come through in order.
pub proof fn scm_launch_becomes_start(argv: Vec<Vec<u16>>, r: (Vec<Vec<u16>>, bool))
    requires
        call_ensures(filter_embedding_flags, (argv,), r),
    ensures
        r.1 <==> argv@.len() > 1 && {
            ||| argv@[1]@ == seq![0x2du16, 0x45, 0x6d, 0x62, 0x65, 0x64, 0x64, 0x69, 0x6e, 0x67]
            ||| argv@[1]@ == seq![0x2fu16, 0x45, 0x6d, 0x62, 0x65, 0x64, 0x64, 0x69, 0x6e, 0x67]
        },
        !r.1 ==> r.0@.len() == argv@.len() && forall|i: int|
            0 <= i < argv@.len() ==> (#[trigger] r.0@[i])@ == argv@[i]@,
        r.1 ==> {
            &&& r.0@.len() == argv@.len() + 1
            &&& r.0@[0]@ == argv@[0]@
            &&& r.0@[1]@ == seq![0x73u16, 0x74, 0x61, 0x72, 0x74]
            &&& r.0@[2]@ == seq![
                0x2du16, 0x2d, 0x61, 0x6c, 0x77, 0x61, 0x79, 0x73, 0x2d, 0x6e, 0x65, 0x77, 0x2d,
                0x70, 0x72, 0x6f, 0x63, 0x65, 0x73, 0x73,
            ]
            &&& forall|i: int| 3 <= i < r.0@.len() ==> (#[trigger] r.0@[i])@ == argv@[i - 1]@
        },
{
    reveal_strlit("-Embedding");
    reveal_strlit("/Embedding");
    reveal_strlit("start");
    reveal_strlit("--always-new-process");
    assert(wide("-Embedding"@) =~= seq![
        0x2du16, 0x45, 0x6d, 0x62, 0x65, 0x64, 0x64, 0x69, 0x6e, 0x67,
    ]);
    assert(wide("/Embedding"@) =~= seq![
        0x2fu16, 0x45, 0x6d, 0x62, 0x65, 0x64, 0x64, 0x69, 0x6e, 0x67,
    ]);
    assert(wide("start"@) =~= seq![0x73u16, 0x74, 0x61, 0x72, 0x74]);
    assert(wide("--always-new-process"@) =~= seq![
        0x2du16, 0x2d, 0x61, 0x6c, 0x77, 0x61, 0x79, 0x73, 0x2d, 0x6e, 0x65, 0x77, 0x2d, 0x70,
        0x72, 0x6f, 0x63, 0x65, 0x73, 0x73,
    ]);
    let given = arguments(argv@);
    let out = arguments(r.0@);
    if argv@.len() > 1 {
        assert(given[1] == argv@[1]@);
    }
    assert forall|i: int| 0 <= i < out.len() implies #[trigger] r.0@[i]@ == out[i] by {}
}

/// Whether the argument is the flag of the SCM does not depend on the command
/// line that it stands in.
pub proof fn flag_is_told_by_itself(
    arg: &Vec<u16>,
    argv: Vec<Vec<u16>>,
    r: bool,
    s: (Vec<Vec<u16>>, bool),
)
    requires
        argv@.len() > 1,
        argv@[1]@ == arg@,
        call_ensures(is_embedding_flag, (arg,), r),
        call_ensures(filter_embedding_flags, (argv,), s),
    ensures
        r == s.1,
{
    assert(arguments(argv@)[1] == argv@[1]@);
}

/// What is recorded first of how the process was launched is what is read ever
/// after; before anything is recorded, the SCM did not launch it.
pub proof fn first_launch_record_counts(
    first: &mut OnceSlot<bool>,
    second: &mut OnceSlot<bool>,
    v: bool,
    w: bool,
    before: bool,
    after: bool,
)
    requires
        old(first).value is None,
        call_ensures(scm_launched, (&*old(first),), before),
        call_ensures(set_scm_launched, (first, v), ()),
        *old(second) == *final(first),
        call_ensures(set_scm_launched, (second, w), ()),
        call_ensures(scm_launched, (&*final(second),), after),
    ensures
        !before,
        after == v,
{
}

/// The installation succeeds exactly if COM is initialized and the listener
/// starts, and then holds what the two steps brought. After a failed first step
/// there is no second.
pub proof fn install_needs_both_steps<H, C>(
    first: InstallEvent<H, C>,
    second: InstallEvent<H, C>,
    between: Install<H, C>,
    last: Install<H, C>,
)
    requires
        first is ComInitialized || first is ComFailed,
        second is ListenerStarted || second is ListenerFailed,
        call_ensures(install::<H, C>, (Install::InitializeCom, first), between),
        call_ensures(install::<H, C>, (between, second), last),
    ensures
        first is ComFailed ==> between == Install::<H, C>::Finished(None),
        first is ComInitialized ==> between is StartListener,
        last is Finished,
        last->Finished_0 is Some <==> first is ComInitialized && second is ListenerStarted,
        last->Finished_0 matches Some(state) ==> {
            &&& first == InstallEvent::<H, C>::ComInitialized(state.coinit)
            &&& second == InstallEvent::<H, C>::ListenerStarted(state.handoff)
        },
{
}

/// The listener is started once: after an attempt that succeeded it counts as
/// running, and the attempt's guard is handed on. An attempt that failed leaves
/// the next one to try again.
pub proof fn listener_starts_once<H, E>(
    started: &mut OnceSlot<()>,
    attempt: Result<H, E>,
    before: Listener,
    r: Result<Option<H>, E>,
    after: Listener,
)
    requires
        call_ensures(try_start_listener, (&*old(started),), before),
        before is Start,
        call_ensures(listener_started::<H, E>, (started, attempt), r),
        call_ensures(try_start_listener, (&*final(started),), after),
    ensures
        after is Running <==> attempt is Ok,
        attempt matches Ok(guard) ==> r == Ok::<Option<H>, E>(Some(guard)),
        attempt matches Err(e) ==> r == Err::<Option<H>, E>(e),
{
}

/// A new window is maximized exactly if the launcher's show hint is
/// `SW_SHOWMAXIMIZED`, which is 3, and only once; every other hint stages a value
/// that no window has. It comes to the front exactly if the SCM launched the
/// process.
pub proof fn only_maximized_is_honored(
    staged: &mut Option<PendingWindowState>,
    taken: &mut Option<PendingWindowState>,
    again: &mut Option<PendingWindowState>,
    startup: &TerminalStartupInfoOwned<String>,
    launched: &OnceSlot<bool>,
    effects: WindowEffects,
    later: WindowEffects,
)
    requires
        call_ensures(set_pending_startup_state, (staged, startup), ()),
        *old(taken) == *final(staged),
        call_ensures(apply_pending_window_state, (taken, launched), effects),
        *old(again) == *final(taken),
        call_ensures(apply_pending_window_state, (again, launched), later),
    ensures
        *final(staged) is Some,
        startup.show_window != 3 ==> (*final(staged))->0.show_window == 0xffff,
        startup.show_window == 3 ==> (*final(staged))->0.show_window == 3,
        effects.maximize <==> startup.show_window == 3,
        effects.focus <==> launched.value == Some(true),
        !later.maximize,
        later.focus == effects.focus,
{
}

/// Without anything staged a window is not maximized, and what is staged as the
/// state of a session counts as its show hint does.
pub proof fn session_state_is_what_is_staged(
    startup: &TerminalStartupInfoOwned<String>,
    state: PendingWindowState,
    slot: &mut Option<PendingWindowState>,
    none: &mut Option<PendingWindowState>,
    launched: &OnceSlot<bool>,
    effects: WindowEffects,
    nothing: WindowEffects,
)
    requires
        call_ensures(startup_window_state, (startup,), state),
        *old(slot) == Some(state),
        call_ensures(apply_pending_window_state, (slot, launched), effects),
        *old(none) is None,
        call_ensures(apply_pending_window_state, (none, launched), nothing),
    ensures
        effects.maximize <==> startup.show_window == 3,
        !nothing.maximize,
{
}

/// The wait for a handoff takes five seconds. After it a tab is spawned exactly
/// if no handoff came.
pub proof fn fallback_tab_takes_the_place_of_a_handoff(
    received: bool,
    first: AwaitHandoff,
    last: AwaitHandoff,
)
    requires
        call_ensures(await_handoff, (), first),
        call_ensures(handoff_deadline, (received,), last),
    ensures
        first == (AwaitHandoff::Sleep { seconds: 5 }),
        last is SpawnFallback <==> !received,
        last is Finished <==> received,
{
}

/// A process identifier is told exactly for a handle that is not null and of
/// which one is reported, and it is the one reported.
pub proof fn pid_is_the_one_reported(handle: Handle, reported: u32, r: Option<u32>)
    requires
        call_ensures(pid_of, (handle, reported), r),
    ensures
        r is Some <==> handle != 0 && reported != 0,
        r matches Some(pid) ==> pid == reported,
{
}

} // verus!
