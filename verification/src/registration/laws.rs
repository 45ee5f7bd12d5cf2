//! What the selection goes through: capture, takeover, and restoration.

use crate::error::{Context, Error, Task};
use crate::machine::{asked, script_flow, Flow, Request, Resumable, Steps};
use crate::registration::{
    backup_steps, capture_after, capture_flow, clear_steps, current_registration_flow,
    register_steps, restore_after, restore_clear, restore_cleared, restore_flow, restore_write,
    restore_written, selects_wezterm, wezterm_selection, windows_decides, CaptureBackup,
    CurrentRegistration, RestoreBackup, Selection, TermHostRegistration,
    TERMHOST_LET_WINDOWS_DECIDE,
};
use crate::registry::{Edit, Key, Reply, ValueName};
use crate::text::ascii_case_is_symmetric;
use crate::world::{
    after_steps, lemma_more_fuel, lemma_run_bind, lemma_run_script, number_at, run, steps_succeed,
    text_at, with_key, Value, World,
};
use vstd::prelude::*;

verus! {

/// The current selection: both values, if both are set.
pub open spec fn current_selection(w: World) -> Option<Selection> {
    let console = text_at(w.user, Key::Startup, ValueName::DelegationConsole);
    let terminal = text_at(w.user, Key::Startup, ValueName::DelegationTerminal);
    if console is Some && terminal is Some {
        Some(
            TermHostRegistration {
                delegation_console: console->0,
                delegation_terminal: terminal->0,
            },
        )
    } else {
        None
    }
}

/// Whether this terminal is the current selection.
pub open spec fn wezterm_is_default(w: World) -> bool {
    current_selection(w) is Some && selects_wezterm(current_selection(w)->0)
}

/// The selection that a capture keeps.
pub open spec fn selection_to_keep(w: World) -> Selection {
    match current_selection(w) {
        Some(reg) => reg,
        None => windows_decides(),
    }
}

/// The values of the selection are texts, where they are set.
pub open spec fn selection_is_text(w: World) -> bool {
    &&& number_at(w.user, Key::Startup, ValueName::DelegationConsole) is None
    &&& number_at(w.user, Key::Startup, ValueName::DelegationTerminal) is None
}

/// A value of the backup, the null identifier where there is none.
pub open spec fn kept_value(w: World, name: ValueName) -> Seq<char> {
    match text_at(w.user, Key::Startup, name) {
        Some(s) => s,
        None => TERMHOST_LET_WINDOWS_DECIDE@,
    }
}

/// The backup.
pub open spec fn kept_selection(w: World) -> Selection {
    TermHostRegistration {
        delegation_console: kept_value(w, ValueName::LastConsole),
        delegation_terminal: kept_value(w, ValueName::LastTerminal),
    }
}

/// The system with two text values set at the startup key.
pub open spec fn with_pair(
    w: World,
    first: ValueName,
    second: ValueName,
    values: Selection,
) -> World {
    let hive = with_key(w.user, Key::Startup);
    World {
        user: hive.insert(
            Key::Startup,
            hive[Key::Startup].insert(first, Value::Text(values.delegation_console)).insert(
                second,
                Value::Text(values.delegation_terminal),
            ),
        ),
        ..w
    }
}

/// The system with another selection.
pub open spec fn with_selection(w: World, reg: Selection) -> World {
    with_pair(w, ValueName::DelegationConsole, ValueName::DelegationTerminal, reg)
}

/// The system with another backup.
pub open spec fn with_backup(w: World, reg: Selection) -> World {
    with_pair(w, ValueName::LastConsole, ValueName::LastTerminal, reg)
}

/// The system without a backup.
pub open spec fn without_backup(w: World) -> World {
    if w.user.contains_key(Key::Startup) {
        World {
            user: w.user.insert(
                Key::Startup,
                w.user[Key::Startup].remove(ValueName::LastConsole).remove(
                    ValueName::LastTerminal,
                ),
            ),
            ..w
        }
    } else {
        w
    }
}

/// Whether there is no backup, not even half of one.
pub open spec fn backup_is_gone(w: World) -> bool {
    w.user.contains_key(Key::Startup) ==> !w.user[Key::Startup].contains_key(
        ValueName::LastConsole,
    ) && !w.user[Key::Startup].contains_key(ValueName::LastTerminal)
}

proof fn lemma_current(w: World)
    requires
        selection_is_text(w),
    ensures
        run(current_registration_flow(), w, 3) == Some(
            (Ok::<Option<Selection>, Error<Seq<char>>>(current_selection(w)), w),
        ),
{
    reveal_with_fuel(run, 4);
}

proof fn lemma_register_steps(w: World, reg: Selection)
    ensures
        steps_succeed(w, register_steps(reg)),
        after_steps(w, register_steps(reg)) == with_selection(w, reg),
{
    reveal_with_fuel(after_steps, 4);
    reveal_with_fuel(steps_succeed, 4);
    let steps = register_steps(reg);
    assert(steps.skip(1)[0] == steps[1]);
    assert(steps.skip(1).skip(1)[0] == steps[2]);
    assert(steps.skip(1).skip(1).skip(1).len() == 0);
    assert(after_steps(w, steps).user =~= with_selection(w, reg).user);
}

proof fn lemma_backup_steps(w: World, reg: Selection)
    ensures
        steps_succeed(w, backup_steps(reg)),
        after_steps(w, backup_steps(reg)) == with_backup(w, reg),
{
    reveal_with_fuel(after_steps, 4);
    reveal_with_fuel(steps_succeed, 4);
    let steps = backup_steps(reg);
    assert(steps.skip(1)[0] == steps[1]);
    assert(steps.skip(1).skip(1)[0] == steps[2]);
    assert(steps.skip(1).skip(1).skip(1).len() == 0);
    assert(after_steps(w, steps).user =~= with_backup(w, reg).user);
}

proof fn lemma_clear_steps(w: World)
    ensures
        steps_succeed(w, clear_steps()),
        after_steps(w, clear_steps()) == without_backup(w),
{
    reveal_with_fuel(after_steps, 3);
    reveal_with_fuel(steps_succeed, 3);
    let steps = clear_steps();
    assert(steps.skip(1)[0] == steps[1]);
    assert(steps.skip(1).skip(1).len() == 0);
    assert(after_steps(w, steps).user =~= without_backup(w).user);
}

/// Making this terminal the default sets both values of the selection and
/// nothing else.
pub proof fn registering_selects(w: World, reg: Selection)
    ensures
        run(script_flow(register_steps(reg)), w, 3) == Some(
            (Ok::<(), Error<Seq<char>>>(()), with_selection(w, reg)),
        ),
        current_selection(with_selection(w, reg)) == Some(reg),
{
    lemma_register_steps(w, reg);
    lemma_run_script(w, register_steps(reg));
}

/// A capture keeps the current selection, or the null identifiers where there
/// is none. If this terminal is the default already, nothing changes: the
/// backup goes on holding what was there before.
pub proof fn capture_keeps_selection(w: World)
    requires
        selection_is_text(w),
    ensures
        run(capture_flow(), w, 6) == Some(
            (
                Ok::<(), Error<Seq<char>>>(()),
                if wezterm_is_default(w) {
                    w
                } else {
                    with_backup(w, selection_to_keep(w))
                },
            ),
        ),
{
    let wrap = |m: CurrentRegistration<Seq<char>>| CaptureBackup::<Seq<char>, Steps>::Reading(m);
    let cont = |c: Result<Option<Selection>, Error<Seq<char>>>| capture_after(c);
    let current = Ok::<Option<Selection>, Error<Seq<char>>>(current_selection(w));
    lemma_current(w);
    if wezterm_is_default(w) {
        assert(run(capture_after(current), w, 3) == Some((Ok::<(), Error<Seq<char>>>(()), w)));
    } else {
        let keep = selection_to_keep(w);
        lemma_backup_steps(w, keep);
        lemma_run_script(w, backup_steps(keep));
        lemma_run_bind(
            script_flow(backup_steps(keep)),
            |m| CaptureBackup::<Seq<char>, Steps>::Writing(m),
            |r: Result<(), Error<Seq<char>>>|
                Flow::<Seq<char>, CaptureBackup<Seq<char>, Steps>, _>::Done(r),
            w,
            3,
            0,
        );
    }
    lemma_run_bind(current_registration_flow(), wrap, cont, w, 3, 3);
}

/// What reading a selection ends with that is there but no text.
pub open spec fn selection_error(w: World) -> Error<Seq<char>> {
    let console = text_at(w.user, Key::Startup, ValueName::DelegationConsole);
    Error {
        context: Context::Doing(
            if console is Some {
                Task::ReadDelegationTerminal
            } else {
                Task::ReadDelegation
            },
        ),
        cause: w.words,
    }
}

/// A selection that is there but no text cannot be read. Capture and restoration
/// then fail and change nothing, not even the backup.
pub proof fn unreadable_selection_stays(w: World)
    requires
        !selection_is_text(w),
    ensures
        run(capture_flow(), w, 3) == Some((Err::<(), Error<Seq<char>>>(selection_error(w)), w)),
        run(restore_flow(), w, 3) == Some((Err::<bool, Error<Seq<char>>>(selection_error(w)), w)),
{
    let f = current_registration_flow();
    assert(run(f, w, 3) == Some(
        (Err::<Option<Selection>, Error<Seq<char>>>(selection_error(w)), w),
    )) by {
        reveal_with_fuel(run, 4);
    }
    lemma_run_bind(
        f,
        |m| CaptureBackup::<Seq<char>, Steps>::Reading(m),
        |c: Result<Option<Selection>, Error<Seq<char>>>| capture_after(c),
        w,
        3,
        0,
    );
    lemma_run_bind(
        f,
        |m| RestoreBackup::<Seq<char>, Steps>::Reading(m),
        |c: Result<Option<Selection>, Error<Seq<char>>>| restore_after(c),
        w,
        3,
        0,
    );
}

proof fn lemma_run_clear(w: World, restored: bool)
    ensures
        run(restore_clear(restored), w, 2) == Some(
            (Ok::<bool, Error<Seq<char>>>(restored), without_backup(w)),
        ),
{
    lemma_clear_steps(w);
    lemma_run_script(w, clear_steps());
    lemma_run_bind(
        script_flow(clear_steps()),
        |run| RestoreBackup::<Seq<char>, Steps>::Clearing { restored, run },
        |r: Result<(), Error<Seq<char>>>| restore_cleared(restored, r),
        w,
        2,
        0,
    );
}

proof fn lemma_run_write(w: World, reg: Selection)
    ensures
        run(restore_write(reg), w, 5) == Some(
            (Ok::<bool, Error<Seq<char>>>(true), without_backup(with_selection(w, reg))),
        ),
{
    registering_selects(w, reg);
    lemma_run_clear(with_selection(w, reg), true);
    lemma_run_bind(
        script_flow(register_steps(reg)),
        |m| RestoreBackup::<Seq<char>, Steps>::Writing(m),
        |r: Result<(), Error<Seq<char>>>| restore_written(r),
        w,
        3,
        2,
    );
}

/// Restoration brings the backup back if this terminal is the default, with the
/// null identifier for what the backup lacks. A selection that someone else
/// made stays. In either case the backup is gone afterwards.
pub proof fn restore_brings_backup_back(w: World)
    requires
        selection_is_text(w),
    ensures
        run(restore_flow(), w, 11) == Some(
            (
                Ok::<bool, Error<Seq<char>>>(wezterm_is_default(w)),
                if wezterm_is_default(w) {
                    without_backup(with_selection(w, kept_selection(w)))
                } else {
                    without_backup(w)
                },
            ),
        ),
{
    let wrap = |m: CurrentRegistration<Seq<char>>| RestoreBackup::<Seq<char>, Steps>::Reading(m);
    let cont = |c: Result<Option<Selection>, Error<Seq<char>>>| restore_after(c);
    let current = Ok::<Option<Selection>, Error<Seq<char>>>(current_selection(w));
    lemma_current(w);
    if wezterm_is_default(w) {
        lemma_run_write(w, kept_selection(w));
        reveal_with_fuel(run, 4);
        assert(run(restore_after(current), w, 8) == run(
            restore_write(kept_selection(w)),
            w,
            5,
        ));
    } else {
        lemma_run_clear(w, false);
        lemma_more_fuel(restore_clear(false), w, 2, 8);
    }
    lemma_run_bind(current_registration_flow(), wrap, cont, w, 3, 8);
}

pub proof fn lemma_wezterm_selected(w: World)
    ensures
        wezterm_is_default(with_selection(w, wezterm_selection())),
{
    ascii_case_is_symmetric(
        wezterm_selection().delegation_console,
        wezterm_selection().delegation_console,
    );
    ascii_case_is_symmetric(
        wezterm_selection().delegation_terminal,
        wezterm_selection().delegation_terminal,
    );
}

/// Taking over and giving back: after a capture, a takeover and a restoration,
/// the selection is the one from before, or "let Windows decide" where there
/// was none, the backup is gone, and nothing else has changed.
pub proof fn restore_undoes_takeover(w: World)
    requires
        selection_is_text(w),
        !wezterm_is_default(w),
    ensures
        ({
            let captured = run(capture_flow(), w, 6).unwrap().1;
            let taken = run(script_flow(register_steps(wezterm_selection())), captured, 3).unwrap().1;
            let (result, restored) = run(restore_flow(), taken, 11).unwrap();
            &&& result == Ok::<bool, Error<Seq<char>>>(true)
            &&& restored == without_backup(with_selection(w, selection_to_keep(w)))
            &&& current_selection(restored) == Some(selection_to_keep(w))
            &&& backup_is_gone(restored)
        }),
{
    let keep = selection_to_keep(w);
    capture_keeps_selection(w);
    let captured = with_backup(w, keep);
    registering_selects(captured, wezterm_selection());
    let taken = with_selection(captured, wezterm_selection());
    lemma_wezterm_selected(captured);
    assert(kept_selection(taken) == keep);
    restore_brings_backup_back(taken);
    let restored = without_backup(with_selection(taken, keep));
    let direct = without_backup(with_selection(w, keep));
    assert(restored.user[Key::Startup] =~= direct.user[Key::Startup]);
    assert(restored.user =~= direct.user);
}

/// The system after a capture and a takeover.
pub open spec fn taken_over(w: World) -> World {
    let captured = run(capture_flow(), w, 6).unwrap().1;
    run(script_flow(register_steps(wezterm_selection())), captured, 3).unwrap().1
}

/// The system after any number of them.
pub open spec fn taken_over_times(w: World, times: nat) -> World
    decreases times,
{
    if times == 0 {
        w
    } else {
        taken_over(taken_over_times(w, (times - 1) as nat))
    }
}

/// What a takeover leaves in the backup: the current selection, or what is there
/// already where this terminal is the default.
pub open spec fn first_selection(w: World) -> Selection {
    if wezterm_is_default(w) {
        kept_selection(w)
    } else {
        selection_to_keep(w)
    }
}

proof fn lemma_taken_over(w: World)
    requires
        selection_is_text(w),
    ensures
        ({
            let captured = if wezterm_is_default(w) {
                w
            } else {
                with_backup(w, selection_to_keep(w))
            };
            taken_over(w) == with_selection(captured, wezterm_selection())
        }),
        selection_is_text(taken_over(w)),
        wezterm_is_default(taken_over(w)),
        kept_selection(taken_over(w)) == first_selection(w),
{
    capture_keeps_selection(w);
    let captured = run(capture_flow(), w, 6).unwrap().1;
    registering_selects(captured, wezterm_selection());
    lemma_wezterm_selected(captured);
}

proof fn lemma_taken_over_again(w: World, times: nat)
    requires
        selection_is_text(w),
        times > 0,
    ensures
        taken_over_times(w, times) == taken_over(w),
    decreases times,
{
    reveal_with_fuel(taken_over_times, 2);
    lemma_taken_over(w);
    if times > 1 {
        let taken = taken_over(w);
        lemma_taken_over_again(w, (times - 1) as nat);
        lemma_taken_over(taken);
        let again = taken_over(taken);
        assert(again.user[Key::Startup] =~= taken.user[Key::Startup]);
        assert(again.user =~= taken.user);
    }
}

/// However often this terminal takes over, the backup holds what was there
/// before the first time: a capture changes nothing any more, and a restoration
/// brings the first selection back, after which the backup is gone and nothing
/// else has changed.
pub proof fn takeovers_keep_first_backup(w: World, times: nat)
    requires
        selection_is_text(w),
        times > 0,
    ensures
        ({
            let taken = taken_over_times(w, times);
            let (result, restored) = run(restore_flow(), taken, 11).unwrap();
            &&& wezterm_is_default(taken)
            &&& run(capture_flow(), taken, 6) == Some((Ok::<(), Error<Seq<char>>>(()), taken))
            &&& kept_selection(taken) == first_selection(w)
            &&& result == Ok::<bool, Error<Seq<char>>>(true)
            &&& restored == without_backup(with_selection(w, first_selection(w)))
            &&& current_selection(restored) == Some(first_selection(w))
            &&& backup_is_gone(restored)
        }),
{
    let first = first_selection(w);
    let taken = taken_over(w);
    lemma_taken_over_again(w, times);
    lemma_taken_over(w);
    capture_keeps_selection(taken);
    restore_brings_backup_back(taken);
    let restored = without_backup(with_selection(taken, first));
    let direct = without_backup(with_selection(w, first));
    assert(restored.user[Key::Startup] =~= direct.user[Key::Startup]);
    assert(restored.user =~= direct.user);
}

/// Whether a request changes the selection.
pub open spec fn changes_selection(request: Request<Seq<char>>) -> bool {
    match request {
        Request::Edit(Edit::SetString(Key::Startup, name, _)) => name
            == ValueName::DelegationConsole || name == ValueName::DelegationTerminal,
        Request::Edit(Edit::SetDword(Key::Startup, name, _)) => name
            == ValueName::DelegationConsole || name == ValueName::DelegationTerminal,
        Request::Edit(Edit::DeleteValue(Key::Startup, name)) => name
            == ValueName::DelegationConsole || name == ValueName::DelegationTerminal,
        Request::Edit(Edit::DeleteKey(Key::Startup)) => true,
        Request::Edit(Edit::DeleteChild(Key::Startup)) => true,
        _ => false,
    }
}

/// Whether the replies to a lookup show this terminal as the selection.
pub open spec fn shows_wezterm(replies: Seq<Reply<Seq<char>>>) -> bool {
    &&& replies.len() >= 3
    &&& replies[0].outcome() is Ok
    &&& replies[1].text() is Ok
    &&& replies[2].text() is Ok
    &&& selects_wezterm(
        TermHostRegistration {
            delegation_console: replies[1].text()->Ok_0,
            delegation_terminal: replies[2].text()->Ok_0,
        },
    )
}

/// Whether no request changes the selection.
pub open spec fn spares_selection(requests: Seq<Request<Seq<char>>>) -> bool {
    forall|i: int| 0 <= i < requests.len() ==> !changes_selection(#[trigger] requests[i])
}

proof fn lemma_clear_spares_selection(restored: bool, replies: Seq<Reply<Seq<char>>>)
    ensures
        spares_selection(asked(restore_clear(restored), replies)),
{
    reveal_with_fuel(asked, 3);
    let steps = clear_steps();
    assert(steps.skip(1)[0] == steps[1]);
    assert(steps.skip(1).skip(1).len() == 0);
}

/// Whatever the system answers, a restoration changes the selection only if
/// both values were read and are this terminal's: nobody else's choice is ever
/// overwritten.
pub proof fn foreign_selection_is_never_overwritten(replies: Seq<Reply<Seq<char>>>)
    requires
        !shows_wezterm(replies),
    ensures
        spares_selection(asked(restore_flow(), replies)),
{
    let f0 = restore_flow();
    if replies.len() > 0 {
        let r1 = replies.skip(1);
        let f1 = f0->Ask_1.next(replies[0]);
        if replies[0].outcome() is Err {
            lemma_clear_spares_selection(false, r1);
            assert(spares_selection(asked(f1, r1)));
        } else {
            if r1.len() > 0 {
                let r2 = r1.skip(1);
                let f2 = f1->Ask_1.next(r1[0]);
                if r2.len() > 0 {
                    let r3 = r2.skip(1);
                    let f3 = f2->Ask_1.next(r2[0]);
                    assert(r1[0] == replies[1] && r2[0] == replies[2]);
                    lemma_clear_spares_selection(false, r3);
                    assert(spares_selection(asked(f3, r3)));
                }
                assert(spares_selection(asked(f2, r2)));
            }
            assert(spares_selection(asked(f1, r1)));
        }
    }
}

} // verus!
