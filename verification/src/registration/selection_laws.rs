//! What happens to the two values of the selection, whoever made it.

use crate::error::{Context, Error, Task};
use crate::guid::{guid_text_reads_back, GuidValue, GUID};
use crate::machine::{goes, lemma_goes_bind, Flow, Request, Script, ScriptRun, Steps};
use crate::model::Model;
use crate::registration::laws::{
    capture_keeps_selection, registering_selects, restore_brings_backup_back, selection_is_text,
};
use crate::registration::{
    capture_after, capture_flow, clear_delegation_backup, clear_steps, current_registration_flow,
    is_wezterm_default, key_is_wezterm_owned, lemma_terminal_spelling, register_termhost,
    register_termhost_with, restore_after, restore_flow, wezterm_selection,
    CLSID_WezTermTerminalHandoff, CaptureBackup, RestoreBackup, Selection, TermHostRegistration,
};
use crate::registry::{Edit, Fault, Key, Reply, Root, ValueName};
use crate::text::same_ignoring_ascii_case;
use crate::world::{number_at, run, text_at, World};
use vstd::prelude::*;

verus! {

/// Whether nothing changed but some values of the startup key.
pub open spec fn differs_only_in(w: World, after: World, names: Set<ValueName>) -> bool {
    &&& after == (World { user: after.user, ..w })
    &&& forall|k: Key<Seq<char>>| #![trigger after.user.contains_key(k)]
        k != Key::<Seq<char>>::Startup ==> (after.user.contains_key(k) <==> w.user.contains_key(k))
            && (w.user.contains_key(k) ==> after.user[k] == w.user[k])
    &&& forall|n: ValueName| #![trigger names.contains(n)]
        !names.contains(n) ==> text_at(after.user, Key::Startup, n) == text_at(
            w.user,
            Key::Startup,
            n,
        ) && number_at(after.user, Key::Startup, n) == number_at(w.user, Key::Startup, n)
}

/// Whether the startup key does not have a value, of whatever kind.
pub open spec fn lacks(w: World, n: ValueName) -> bool {
    text_at(w.user, Key::Startup, n) is None && number_at(w.user, Key::Startup, n) is None
}

// ---------------------------------------------------------------------------
// Whose selection it is
// ---------------------------------------------------------------------------

/// A selection is this terminal's exactly if the console is Microsoft's
/// OpenConsole and the terminal this one, each up to the case of its letters.
pub proof fn default_needs_both_values(reg: &TermHostRegistration<String>, r: bool)
    requires
        call_ensures(is_wezterm_default, (reg,), r),
    ensures
        r <==> same_ignoring_ascii_case(
            reg.delegation_console@,
            "{2EACA947-7F5F-4CFA-BA87-8F7FBEEFBE69}"@,
        ) && same_ignoring_ascii_case(
            reg.delegation_terminal@,
            "{8B7D4E2A-3F5C-4D1B-9A6E-7C2B5F8D1E4A}"@,
        ),
{
}

/// An entry is this terminal's exactly if its marker is there and 1.
pub proof fn marker_is_one(marker: Option<u32>, r: bool)
    requires
        call_ensures(key_is_wezterm_owned, (marker,), r),
    ensures
        r <==> marker is Some && marker->0 == 1,
{
}

/// The class of this terminal, in numbers.
pub proof fn class_is_this_terminal(g: GUID)
    requires
        call_ensures(CLSID_WezTermTerminalHandoff, (), g),
    ensures
        g.Data1 == 0x8B7D4E2A,
        g.Data2 == 0x3F5C,
        g.Data3 == 0x4D1B,
        g.Data4@ == seq![0x9Au8, 0x6E, 0x7C, 0x2B, 0x5F, 0x8D, 0x1E, 0x4A],
{
    let v = GuidValue {
        data1: 0x8B7D4E2A,
        data2: 0x3F5C,
        data3: 0x4D1B,
        data4: seq![0x9Au8, 0x6E, 0x7C, 0x2B, 0x5F, 0x8D, 0x1E, 0x4A],
    };
    lemma_terminal_spelling(v);
    guid_text_reads_back(v);
}

/// A selection of which either value is not this terminal's stays as it is. A
/// capture writes both of its values into the backup; a restoration deletes the
/// backup and says that it brought nothing back.
pub proof fn selection_of_others_stays(w: World, console: Seq<char>, terminal: Seq<char>)
    requires
        text_at(w.user, Key::Startup, ValueName::DelegationConsole) == Some(console),
        text_at(w.user, Key::Startup, ValueName::DelegationTerminal) == Some(terminal),
        !same_ignoring_ascii_case(terminal, "{8B7D4E2A-3F5C-4D1B-9A6E-7C2B5F8D1E4A}"@)
            || !same_ignoring_ascii_case(console, "{2EACA947-7F5F-4CFA-BA87-8F7FBEEFBE69}"@),
    ensures
        run(restore_flow(), w, 11) matches Some((r, after)) && {
            &&& r == Ok::<bool, Error<Seq<char>>>(false)
            &&& text_at(after.user, Key::Startup, ValueName::DelegationConsole) == Some(console)
            &&& text_at(after.user, Key::Startup, ValueName::DelegationTerminal) == Some(terminal)
            &&& lacks(after, ValueName::LastConsole)
            &&& lacks(after, ValueName::LastTerminal)
            &&& differs_only_in(w, after, set![ValueName::LastConsole, ValueName::LastTerminal])
        },
        run(capture_flow(), w, 6) matches Some((r, after)) && {
            &&& r is Ok
            &&& text_at(after.user, Key::Startup, ValueName::DelegationConsole) == Some(console)
            &&& text_at(after.user, Key::Startup, ValueName::DelegationTerminal) == Some(terminal)
            &&& text_at(after.user, Key::Startup, ValueName::LastConsole) == Some(console)
            &&& text_at(after.user, Key::Startup, ValueName::LastTerminal) == Some(terminal)
            &&& differs_only_in(w, after, set![ValueName::LastConsole, ValueName::LastTerminal])
        },
{
    restore_brings_backup_back(w);
    capture_keeps_selection(w);
}

/// While this terminal is selected, a capture changes nothing, and a restoration
/// brings back the two values of the backup, with the null identifier for what
/// the backup lacks. The backup is gone then.
pub proof fn selection_of_this_terminal_gives_way(
    w: World,
    console: Seq<char>,
    terminal: Seq<char>,
)
    requires
        text_at(w.user, Key::Startup, ValueName::DelegationConsole) == Some(console),
        text_at(w.user, Key::Startup, ValueName::DelegationTerminal) == Some(terminal),
        same_ignoring_ascii_case(terminal, "{8B7D4E2A-3F5C-4D1B-9A6E-7C2B5F8D1E4A}"@),
        same_ignoring_ascii_case(console, "{2EACA947-7F5F-4CFA-BA87-8F7FBEEFBE69}"@),
    ensures
        run(capture_flow(), w, 6) == Some((Ok::<(), Error<Seq<char>>>(()), w)),
        run(restore_flow(), w, 11) matches Some((r, after)) && {
            &&& r == Ok::<bool, Error<Seq<char>>>(true)
            &&& text_at(after.user, Key::Startup, ValueName::DelegationConsole) == Some(
                text_at(w.user, Key::Startup, ValueName::LastConsole).unwrap_or(
                    "{00000000-0000-0000-0000-000000000000}"@,
                ),
            )
            &&& text_at(after.user, Key::Startup, ValueName::DelegationTerminal) == Some(
                text_at(w.user, Key::Startup, ValueName::LastTerminal).unwrap_or(
                    "{00000000-0000-0000-0000-000000000000}"@,
                ),
            )
            &&& lacks(after, ValueName::LastConsole)
            &&& lacks(after, ValueName::LastTerminal)
            &&& differs_only_in(
                w,
                after,
                set![
                    ValueName::LastConsole,
                    ValueName::LastTerminal,
                    ValueName::DelegationConsole,
                    ValueName::DelegationTerminal,
                ],
            )
        },
{
    restore_brings_backup_back(w);
    capture_keeps_selection(w);
}

/// Where a value of the selection is not set, there is none: a capture writes
/// that Windows is to decide, in both values of the backup, and a restoration
/// leaves the selection as it is.
pub proof fn half_a_selection_is_none(w: World)
    requires
        selection_is_text(w),
        text_at(w.user, Key::Startup, ValueName::DelegationConsole) is None || text_at(
            w.user,
            Key::Startup,
            ValueName::DelegationTerminal,
        ) is None,
    ensures
        run(capture_flow(), w, 6) matches Some((r, after)) && {
            &&& r is Ok
            &&& text_at(after.user, Key::Startup, ValueName::LastConsole) == Some(
                "{00000000-0000-0000-0000-000000000000}"@,
            )
            &&& text_at(after.user, Key::Startup, ValueName::LastTerminal) == Some(
                "{00000000-0000-0000-0000-000000000000}"@,
            )
            &&& differs_only_in(w, after, set![ValueName::LastConsole, ValueName::LastTerminal])
        },
        run(restore_flow(), w, 11) matches Some((r, after)) && {
            &&& r == Ok::<bool, Error<Seq<char>>>(false)
            &&& lacks(after, ValueName::LastConsole)
            &&& lacks(after, ValueName::LastTerminal)
            &&& differs_only_in(w, after, set![ValueName::LastConsole, ValueName::LastTerminal])
        },
{
    restore_brings_backup_back(w);
    capture_keeps_selection(w);
}

/// Making this terminal the default writes its class and Microsoft's OpenConsole,
/// and nothing else; writing another selection writes that one.
pub proof fn takeover_writes_both_values(
    w: World,
    begun: Flow<String, ScriptRun<String, Script>, Result<(), Error<String>>>,
    reg: TermHostRegistration<String>,
    other: Flow<String, ScriptRun<String, Script>, Result<(), Error<String>>>,
)
    requires
        call_ensures(register_termhost, (), begun),
        call_ensures(register_termhost_with, (reg,), other),
    ensures
        run(begun.model(), w, 3) matches Some((r, after)) && {
            &&& r is Ok
            &&& text_at(after.user, Key::Startup, ValueName::DelegationConsole) == Some(
                "{2EACA947-7F5F-4CFA-BA87-8F7FBEEFBE69}"@,
            )
            &&& text_at(after.user, Key::Startup, ValueName::DelegationTerminal) == Some(
                "{8B7D4E2A-3F5C-4D1B-9A6E-7C2B5F8D1E4A}"@,
            )
            &&& differs_only_in(
                w,
                after,
                set![ValueName::DelegationConsole, ValueName::DelegationTerminal],
            )
        },
        run(other.model(), w, 3) matches Some((r, after)) && {
            &&& r is Ok
            &&& text_at(after.user, Key::Startup, ValueName::DelegationConsole) == Some(
                reg.delegation_console@,
            )
            &&& text_at(after.user, Key::Startup, ValueName::DelegationTerminal) == Some(
                reg.delegation_terminal@,
            )
            &&& differs_only_in(
                w,
                after,
                set![ValueName::DelegationConsole, ValueName::DelegationTerminal],
            )
        },
{
    registering_selects(w, wezterm_selection());
    registering_selects(w, reg.model());
}

/// The selection that is there without being told is this terminal's.
pub proof fn default_selection_is_this_terminal(reg: TermHostRegistration<String>)
    requires
        call_ensures(<TermHostRegistration<String> as Default>::default, (), reg),
    ensures
        reg.delegation_console@ == "{2EACA947-7F5F-4CFA-BA87-8F7FBEEFBE69}"@,
        reg.delegation_terminal@ == "{8B7D4E2A-3F5C-4D1B-9A6E-7C2B5F8D1E4A}"@,
{
}

/// Deleting the backup deletes its two values and nothing else, whether or not
/// they are there.
pub proof fn clearing_deletes_the_backup(
    w: World,
    begun: Flow<String, ScriptRun<String, Script>, Result<(), Error<String>>>,
)
    requires
        call_ensures(clear_delegation_backup, (), begun),
    ensures
        run(begun.model(), w, 2) matches Some((r, after)) && {
            &&& r is Ok
            &&& lacks(after, ValueName::LastConsole)
            &&& lacks(after, ValueName::LastTerminal)
            &&& differs_only_in(w, after, set![ValueName::LastConsole, ValueName::LastTerminal])
        },
{
    reveal_with_fuel(run, 3);
    let steps = clear_steps();
    assert(steps.skip(1)[0] == steps[1]);
    assert(steps.skip(1).skip(1).len() == 0);
}

// ---------------------------------------------------------------------------
// What can go wrong
// ---------------------------------------------------------------------------

/// A fault of the system.
pub open spec fn fault(not_found: bool, cause: Seq<char>) -> Reply<Seq<char>> {
    Reply::Fault(Fault { not_found, cause })
}

/// An error of a step.
pub open spec fn failed_to(task: Task, cause: Seq<char>) -> Error<Seq<char>> {
    Error { context: Context::Doing(task), cause }
}

/// The requests that read the selection.
pub open spec fn selection_requests() -> Seq<Request<Seq<char>>> {
    seq![
        Request::OpenRead(Root::CurrentUser, Key::Startup),
        Request::GetString(Root::CurrentUser, Key::Startup, ValueName::DelegationConsole),
        Request::GetString(Root::CurrentUser, Key::Startup, ValueName::DelegationTerminal),
    ]
}

/// The selection is read as the user has it: both values or none. A key or value
/// that does not exist is no failure; any other fault is, in the words of the
/// system, and that of the console comes first.
pub proof fn selection_is_read(
    c: Seq<char>,
    t: Seq<char>,
    why: Seq<char>,
    also: Seq<char>,
    any: bool,
)
    ensures
        goes(
            current_registration_flow(),
            selection_requests(),
            seq![Reply::Done, Reply::Text(c), Reply::Text(t)],
            Ok(Some(TermHostRegistration { delegation_console: c, delegation_terminal: t })),
        ),
        goes(
            current_registration_flow(),
            selection_requests(),
            seq![Reply::Done, Reply::Text(c), fault(true, why)],
            Ok(None),
        ),
        goes(
            current_registration_flow(),
            selection_requests(),
            seq![Reply::Done, fault(true, why), Reply::Text(t)],
            Ok(None),
        ),
        goes(
            current_registration_flow(),
            selection_requests(),
            seq![Reply::Done, fault(true, why), fault(true, also)],
            Ok(None),
        ),
        goes(
            current_registration_flow(),
            selection_requests().take(1),
            seq![fault(true, why)],
            Ok(None),
        ),
        goes(
            current_registration_flow(),
            selection_requests().take(1),
            seq![fault(false, why)],
            Err(Error { context: Context::OpenForRead(Key::Startup), cause: why }),
        ),
        goes(
            current_registration_flow(),
            selection_requests(),
            seq![Reply::Done, Reply::Text(c), fault(false, why)],
            Err(failed_to(Task::ReadDelegationTerminal, why)),
        ),
        goes(
            current_registration_flow(),
            selection_requests(),
            seq![Reply::Done, fault(false, why), Reply::Text(t)],
            Err(failed_to(Task::ReadDelegation, why)),
        ),
        goes(
            current_registration_flow(),
            selection_requests(),
            seq![Reply::Done, fault(false, why), fault(any, also)],
            Err(failed_to(Task::ReadDelegation, why)),
        ),
        goes(
            current_registration_flow(),
            selection_requests(),
            seq![Reply::Done, fault(true, why), fault(false, also)],
            Err(failed_to(Task::ReadDelegation, why)),
        ),
{
    reveal_with_fuel(goes, 4);
}

/// A capture and a restoration that cannot read the selection end with what kept
/// them from it, and ask for nothing more.
pub proof fn unread_selection_ends_it(
    q: Seq<Request<Seq<char>>>,
    r: Seq<Reply<Seq<char>>>,
    e: Error<Seq<char>>,
)
    requires
        goes(current_registration_flow(), q, r, Err(e)),
    ensures
        goes(capture_flow(), q, r, Err(e)),
        goes(restore_flow(), q, r, Err(e)),
{
    assert(q + seq![] =~= q);
    assert(r + seq![] =~= r);
    assert(goes(capture_after(Err(e)), seq![], seq![], Err(e)));
    assert(goes(restore_after(Err(e)), seq![], seq![], Err(e)));
    lemma_goes_bind(
        current_registration_flow(),
        |m| CaptureBackup::<Seq<char>, Steps>::Reading(m),
        |c: Result<Option<Selection>, Error<Seq<char>>>| capture_after(c),
        q,
        r,
        Err(e),
        seq![],
        seq![],
        Err(e),
    );
    lemma_goes_bind(
        current_registration_flow(),
        |m| RestoreBackup::<Seq<char>, Steps>::Reading(m),
        |c: Result<Option<Selection>, Error<Seq<char>>>| restore_after(c),
        q,
        r,
        Err(e),
        seq![],
        seq![],
        Err(e),
    );
}

/// The requests that write a pair of values of the startup key.
pub open spec fn pair_requests(
    first: ValueName,
    c: Seq<char>,
    second: ValueName,
    t: Seq<char>,
) -> Seq<Request<Seq<char>>> {
    seq![
        Request::Edit(Edit::CreateKey(Key::Startup)),
        Request::Edit(Edit::SetString(Key::Startup, first, c)),
        Request::Edit(Edit::SetString(Key::Startup, second, t)),
    ]
}

/// A capture that cannot write the backup, or not all of it, says so.
pub proof fn failed_capture_says_why(c: Seq<char>, t: Seq<char>, why: Seq<char>, nf: bool)
    requires
        !same_ignoring_ascii_case(t, "{8B7D4E2A-3F5C-4D1B-9A6E-7C2B5F8D1E4A}"@)
            || !same_ignoring_ascii_case(c, "{2EACA947-7F5F-4CFA-BA87-8F7FBEEFBE69}"@),
    ensures
        ({
            let read = seq![Reply::Done, Reply::Text(c), Reply::Text(t)];
            let write = pair_requests(ValueName::LastConsole, c, ValueName::LastTerminal, t);
            &&& goes(
                capture_flow(),
                selection_requests() + write,
                read + seq![Reply::Done, Reply::Done, Reply::Done],
                Ok(()),
            )
            &&& goes(
                capture_flow(),
                selection_requests() + write.take(1),
                read + seq![fault(nf, why)],
                Err(Error { context: Context::OpenForBackup(Key::Startup), cause: why }),
            )
            &&& goes(
                capture_flow(),
                selection_requests() + write.take(2),
                read + seq![Reply::Done, fault(nf, why)],
                Err(failed_to(Task::WriteBackupConsole, why)),
            )
            &&& goes(
                capture_flow(),
                selection_requests() + write,
                read + seq![Reply::Done, Reply::Done, fault(nf, why)],
                Err(failed_to(Task::WriteBackupTerminal, why)),
            )
        }),
{
    reveal_with_fuel(goes, 7);
}

/// A takeover that cannot be written says so, and does not go on.
pub proof fn failed_takeover_says_why(
    begun: Flow<String, ScriptRun<String, Script>, Result<(), Error<String>>>,
    reg: TermHostRegistration<String>,
    why: Seq<char>,
    nf: bool,
)
    requires
        call_ensures(register_termhost_with, (reg,), begun),
    ensures
        ({
            let write = pair_requests(
                ValueName::DelegationConsole,
                reg.delegation_console@,
                ValueName::DelegationTerminal,
                reg.delegation_terminal@,
            );
            &&& goes(
                begun.model(),
                write,
                seq![Reply::Done, Reply::Done, Reply::Done],
                Ok(()),
            )
            &&& goes(
                begun.model(),
                write.take(1),
                seq![fault(nf, why)],
                Err(Error { context: Context::CreateKey(Key::Startup), cause: why }),
            )
            &&& goes(
                begun.model(),
                write.take(2),
                seq![Reply::Done, fault(nf, why)],
                Err(failed_to(Task::WriteDelegationConsole, why)),
            )
            &&& goes(
                begun.model(),
                write,
                seq![Reply::Done, Reply::Done, fault(nf, why)],
                Err(failed_to(Task::WriteDelegationTerminal, why)),
            )
        }),
{
    reveal_with_fuel(goes, 4);
}

/// The requests that read the backup.
pub open spec fn backup_requests() -> Seq<Request<Seq<char>>> {
    seq![
        Request::OpenRead(Root::CurrentUser, Key::Startup),
        Request::GetString(Root::CurrentUser, Key::Startup, ValueName::LastConsole),
        Request::GetString(Root::CurrentUser, Key::Startup, ValueName::LastTerminal),
    ]
}

/// The requests that delete the backup.
pub open spec fn clear_requests() -> Seq<Request<Seq<char>>> {
    seq![
        Request::Edit(Edit::DeleteValue(Key::Startup, ValueName::LastConsole)),
        Request::Edit(Edit::DeleteValue(Key::Startup, ValueName::LastTerminal)),
    ]
}

/// A restoration goes by the backup as far as that can be read, and lets Windows
/// decide otherwise. The backup is deleted only once the selection is written,
/// and it does not matter if it cannot be deleted. What someone else selected is
/// left alone.
pub proof fn restoration_goes_by_the_backup(
    c: Seq<char>,
    t: Seq<char>,
    last_c: Seq<char>,
    last_t: Seq<char>,
    why: Seq<char>,
    nf: bool,
    one: Reply<Seq<char>>,
    two: Reply<Seq<char>>,
)
    ensures
        ({
            let read = seq![Reply::Done, Reply::Text(c), Reply::Text(t)];
            let null = "{00000000-0000-0000-0000-000000000000}"@;
            let write = |a: Seq<char>, b: Seq<char>|
                pair_requests(
                    ValueName::DelegationConsole,
                    a,
                    ValueName::DelegationTerminal,
                    b,
                );
            let done = seq![Reply::Done, Reply::Done, Reply::Done, one, two];
            if same_ignoring_ascii_case(t, "{8B7D4E2A-3F5C-4D1B-9A6E-7C2B5F8D1E4A}"@)
                && same_ignoring_ascii_case(c, "{2EACA947-7F5F-4CFA-BA87-8F7FBEEFBE69}"@) {
                &&& goes(
                    restore_flow(),
                    selection_requests() + backup_requests() + write(last_c, last_t)
                        + clear_requests(),
                    read + seq![Reply::Done, Reply::Text(last_c), Reply::Text(last_t)] + done,
                    Ok(true),
                )
                &&& goes(
                    restore_flow(),
                    selection_requests() + backup_requests() + write(null, last_t)
                        + clear_requests(),
                    read + seq![Reply::Done, fault(nf, why), Reply::Text(last_t)] + done,
                    Ok(true),
                )
                &&& goes(
                    restore_flow(),
                    selection_requests() + backup_requests() + write(last_c, null)
                        + clear_requests(),
                    read + seq![Reply::Done, Reply::Text(last_c), fault(nf, why)] + done,
                    Ok(true),
                )
                &&& goes(
                    restore_flow(),
                    selection_requests() + backup_requests().take(1) + write(null, null)
                        + clear_requests(),
                    read + seq![fault(nf, why)] + done,
                    Ok(true),
                )
                &&& goes(
                    restore_flow(),
                    selection_requests() + backup_requests() + write(last_c, last_t).take(1),
                    read + seq![
                        Reply::Done,
                        Reply::Text(last_c),
                        Reply::Text(last_t),
                        fault(nf, why),
                    ],
                    Err(Error { context: Context::CreateKey(Key::Startup), cause: why }),
                )
                &&& goes(
                    restore_flow(),
                    selection_requests() + backup_requests() + write(last_c, last_t).take(2),
                    read + seq![
                        Reply::Done,
                        Reply::Text(last_c),
                        Reply::Text(last_t),
                        Reply::Done,
                        fault(nf, why),
                    ],
                    Err(failed_to(Task::WriteDelegationConsole, why)),
                )
                &&& goes(
                    restore_flow(),
                    selection_requests() + backup_requests() + write(last_c, last_t),
                    read + seq![
                        Reply::Done,
                        Reply::Text(last_c),
                        Reply::Text(last_t),
                        Reply::Done,
                        Reply::Done,
                        fault(nf, why),
                    ],
                    Err(failed_to(Task::WriteDelegationTerminal, why)),
                )
            } else {
                goes(
                    restore_flow(),
                    selection_requests() + clear_requests(),
                    read + seq![one, two],
                    Ok(false),
                )
            }
        }),
{
    reveal_with_fuel(goes, 12);
}

} // verus!
