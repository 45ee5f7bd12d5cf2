//! What the commands do to the system as a whole.

use crate::cli::disable::{
    disable_finish, disable_flow, disable_restored, disable_result, disable_server, disable_told,
    disable_unproxied, disable_unserved, fallback_removed, remove_fallback_flow, restore_notice,
    DisableFlow, DisableRun, DisableState, Ids, RemoveFallback, Restore,
};
use crate::cli::enable::{
    enable_backed, enable_captured, enable_flow, enable_proxied, enable_selected, enable_served,
    proxy_flow, proxy_found, proxy_without, self_after, self_flow, stage_flow, stage_registered,
    stage_resolved, EnableRun, FallbackStage, ProxyStage, RegisterSelf,
};
use crate::error::{error_text, Error};
use crate::machine::{asked, script_flow, Flow, Request, Resumable, Steps};
use crate::notice::Notice;
use crate::registration::detect::{any_server_flow, brand_clsids, channel_clsids};
use crate::registration::fallback::{fallback_flow, resolve_flow};
use crate::registration::fallback_laws::{
    after_fallback, any_server_is_enough, bundled_file, claimed, fallback_is_registered,
    fallback_is_registered_once, foreign_server, lemma_same_builds, nearest_bundled_file_is_found,
    other_host_present, owned_exe, present_server, with_fallback,
};
use crate::registration::laws::{
    backup_is_gone, capture_keeps_selection, current_selection, first_selection, kept_selection,
    lemma_wezterm_selected, registering_selects, restore_brings_backup_back, selection_error,
    selection_is_text, selection_to_keep,
    unreadable_selection_stays, wezterm_is_default, with_backup, with_selection, without_backup,
};
use crate::registration::ownership::{
    local_server_steps, proxy_stub_flow, removal_flow, server_removal,
};
use crate::registration::ownership_laws::{
    is_owned, lemma_only_marked_chain, lemma_removed, marked, marked_server_goes,
    only_marked_removed, proxy_stub_removed, registering_writes_server, removal_heeds_marker,
    removed, unmarked_entries_stay, with_server,
};
use crate::registration::{
    capture_flow, register_steps, restore_flow, wezterm_selection,
    WEZTERM_TERMHOST_FALLBACK_CONSOLE_CLSID, WEZTERM_TERMHOST_TERMINAL_CLSID,
};
use crate::registry::{Key, Reply, ValueName};
use crate::world::{
    is_tree, lemma_more_fuel, lemma_run_bind, number_at, parent, run, World,
};
use vstd::prelude::*;

verus! {

/// The system after the user was told something.
pub open spec fn told(w: World, notice: Notice<Seq<char>>) -> World {
    World { said: w.said.push(notice), ..w }
}

// ---------------------------------------------------------------------------
// Enable
// ---------------------------------------------------------------------------

/// The system with the current selection kept.
pub open spec fn captured(w: World) -> World {
    if wezterm_is_default(w) {
        w
    } else {
        with_backup(w, selection_to_keep(w))
    }
}

/// The system with an executable registered as this terminal's server.
pub open spec fn served(w: World, exe: Seq<char>) -> World {
    World {
        user: with_server(
            w.user,
            WEZTERM_TERMHOST_TERMINAL_CLSID@,
            "WezTerm Default Terminal Handoff"@,
            exe,
        ),
        ..w
    }
}

/// The system after the fallback stage.
pub open spec fn backed(w: World) -> World {
    if bundled_file(w) is None {
        told(after_fallback(w), Notice::OpenConsoleMissing)
    } else {
        after_fallback(w)
    }
}

/// Whether Windows Terminal is installed: whether another host than this
/// terminal serves the class of one of its channels.
pub open spec fn windows_terminal_present(w: World) -> bool {
    let clsids = brand_clsids(channel_clsids());
    exists|i: int| 0 <= i < clsids.len() && other_host_present(w, #[trigger] clsids[i])
}

/// The console host that this terminal registers is no Windows Terminal:
/// registering it never makes one appear. Where the console class carries no
/// marker but the one that this terminal writes, it does not make one disappear
/// either.
pub proof fn fallback_is_no_windows_terminal(w: World)
    ensures
        windows_terminal_present(after_fallback(w)) ==> windows_terminal_present(w),
        claimed(w, WEZTERM_TERMHOST_FALLBACK_CONSOLE_CLSID@) == is_owned(
            w,
            Key::Clsid(WEZTERM_TERMHOST_FALLBACK_CONSOLE_CLSID@),
        ) ==> windows_terminal_present(after_fallback(w)) == windows_terminal_present(w),
{
    let f = WEZTERM_TERMHOST_FALLBACK_CONSOLE_CLSID@;
    let clsids = brand_clsids(channel_clsids());
    let w2 = after_fallback(w);
    let plain = claimed(w, f) == is_owned(w, Key::Clsid(f));
    assert forall|c: Seq<char>| #[trigger] other_host_present(w2, c) implies other_host_present(
        w,
        c,
    ) by {
        if c != f {
            lemma_other_class(w, c);
        }
    }
    assert forall|c: Seq<char>| plain && #[trigger] other_host_present(w, c) implies
        other_host_present(w2, c) by {
        if c != f {
            lemma_other_class(w, c);
        }
    }
    if windows_terminal_present(w2) {
        let i = choose|i: int|
            0 <= i < clsids.len() && other_host_present(w2, #[trigger] clsids[i]);
        assert(other_host_present(w, clsids[i]));
    }
    if plain && windows_terminal_present(w) {
        let i = choose|i: int|
            0 <= i < clsids.len() && other_host_present(w, #[trigger] clsids[i]);
        assert(other_host_present(w2, clsids[i]));
    }
}

proof fn lemma_other_class(w: World, clsid: Seq<char>)
    requires
        clsid != WEZTERM_TERMHOST_FALLBACK_CONSOLE_CLSID@,
    ensures
        other_host_present(after_fallback(w), clsid) == other_host_present(w, clsid),
{
    let w2 = after_fallback(w);
    assert(is_owned(w2, Key::Clsid(clsid)) == is_owned(w, Key::Clsid(clsid)));
    assert(present_server(w2, clsid) == present_server(w, clsid));
}

/// The system after the proxy/stub stage.
pub open spec fn proxied(w: World) -> World {
    match w.proxy_stub {
        Some(dll) => World { proxy_registered: Some(dll), ..w },
        None => told(
            w,
            if windows_terminal_present(w) {
                Notice::ProxyDllFromWindowsTerminal
            } else {
                Notice::ProxyDllMissing
            },
        ),
    }
}

/// The system after `enable`.
pub open spec fn enabled(w: World, exe: Seq<char>) -> World {
    told(
        told(
            with_selection(proxied(backed(served(captured(w), exe))), wezterm_selection()),
            Notice::Enabled,
        ),
        Notice::ServerRegistered,
    )
}

proof fn lemma_run_self(w: World, exe: Seq<char>)
    requires
        w.exe == Some(exe),
    ensures
        run(self_flow(), w, 6) == Some((Ok::<(), Error<Seq<char>>>(()), served(w, exe))),
{
    let clsid = WEZTERM_TERMHOST_TERMINAL_CLSID@;
    registering_writes_server(w, clsid, exe);
    lemma_run_bind(
        script_flow(local_server_steps(clsid, exe)),
        |run| RegisterSelf::<Seq<char>, Steps>::Writing(run),
        |r: Result<(), Error<Seq<char>>>|
            Flow::<Seq<char>, RegisterSelf<Seq<char>, Steps>, _>::Done(r),
        w,
        5,
        0,
    );
    assert(run(self_flow(), w, 6) == run(self_after(Ok(exe)), w, 5)) by {
        reveal_with_fuel(run, 2);
    }
}

proof fn lemma_run_stage(w: World, ancestors: u32)
    requires
        w.ancestors == Some(ancestors) || w.ancestors is None,
    ensures
        run(stage_flow(), w, (20 + 6 * ancestors) as nat) == Some(((), backed(w))),
{
    let w2 = after_fallback(w);
    let first = (17 + 3 * ancestors) as nat;
    let second = (2 + 3 * ancestors) as nat;
    fallback_is_registered(w, ancestors);
    nearest_bundled_file_is_found(w2, ancestors);
    lemma_same_bundle(w, w2);
    assert(run(stage_resolved(bundled_file(w2)), w2, 1) == Some(((), backed(w)))) by {
        reveal_with_fuel(run, 2);
    }
    lemma_run_bind(
        resolve_flow(),
        |m| FallbackStage::<Seq<char>, Steps>::Resolving(m),
        |bundled: Option<Seq<char>>| stage_resolved(bundled),
        w2,
        second,
        1,
    );
    lemma_run_bind(
        fallback_flow(),
        |m| FallbackStage::<Seq<char>, Steps>::Registering(m),
        |r: Result<(), Error<Seq<char>>>| stage_registered(r),
        w,
        first,
        second + 1,
    );
    assert(first + (second + 1) == 20 + 6 * ancestors);
}

proof fn lemma_channels()
    ensures
        brand_clsids(channel_clsids()).len() <= 4,
{
    lemma_brand_len(channel_clsids());
}

pub proof fn lemma_brand_len(hosts: Seq<(Seq<char>, Seq<char>)>)
    ensures
        brand_clsids(hosts).len() <= hosts.len(),
    decreases hosts.len(),
{
    if hosts.len() > 0 {
        lemma_brand_len(hosts.drop_last());
    }
}

proof fn lemma_run_proxy(w: World)
    ensures
        run(proxy_flow(), w, 34) == Some(((), proxied(w))),
{
    if w.proxy_stub is Some {
        reveal_with_fuel(run, 3);
    } else {
        let clsids = brand_clsids(channel_clsids());
        let installed = windows_terminal_present(w);
        any_server_is_enough(w, clsids);
        lemma_channels();
        assert(run(proxy_without(installed), w, 1) == Some(((), proxied(w)))) by {
            reveal_with_fuel(run, 2);
        }
        lemma_run_bind(
            any_server_flow(clsids),
            |m| ProxyStage::<Seq<char>, Seq<Seq<char>>>::Asking(m),
            |installed: bool| proxy_without(installed),
            w,
            8 * clsids.len(),
            1,
        );
        let used = 8 * clsids.len() + 1;
        let rest = proxy_found(w.reply(Request::FindProxyStub).text());
        lemma_more_fuel(rest, w, used, 33);
        assert(run(proxy_flow(), w, 34) == run(rest, w, 33)) by {
            reveal_with_fuel(run, 2);
        }
    }
}

proof fn lemma_run_select(w: World)
    ensures
        run(enable_proxied(), w, 5) == Some(
            (
                Ok::<(), Error<Seq<char>>>(()),
                told(
                    told(with_selection(w, wezterm_selection()), Notice::Enabled),
                    Notice::ServerRegistered,
                ),
            ),
        ),
{
    let reg = wezterm_selection();
    let w2 = with_selection(w, reg);
    registering_selects(w, reg);
    assert(run(enable_selected(Ok(())), w2, 2) == Some(
        (
            Ok::<(), Error<Seq<char>>>(()),
            told(told(w2, Notice::Enabled), Notice::ServerRegistered),
        ),
    )) by {
        reveal_with_fuel(run, 3);
    }
    lemma_run_bind(
        script_flow(register_steps(reg)),
        |m| EnableRun::<Seq<char>, Steps, Seq<Seq<char>>>::Selecting(m),
        |r: Result<(), Error<Seq<char>>>| enable_selected(r),
        w,
        3,
        2,
    );
}

/// `enable` keeps the selection of before, registers the running executable,
/// the bundled console host and the proxy/stub library, makes this terminal the
/// default, and tells the user. Neither a missing console host nor a missing
/// library keeps it from doing so.
pub proof fn enable_makes_default(w: World, exe: Seq<char>, ancestors: u32)
    requires
        selection_is_text(w),
        w.exe == Some(exe),
        w.ancestors == Some(ancestors) || w.ancestors is None,
    ensures
        run(enable_flow(), w, (71 + 6 * ancestors) as nat) == Some(
            (Ok::<(), Error<Seq<char>>>(()), enabled(w, exe)),
        ),
        wezterm_is_default(enabled(w, exe)),
{
    let w1 = captured(w);
    let w2 = served(w1, exe);
    let w3 = backed(w2);
    let w4 = proxied(w3);
    let stage = (20 + 6 * ancestors) as nat;
    capture_keeps_selection(w);
    lemma_run_self(w1, exe);
    lemma_run_stage(w2, ancestors);
    lemma_run_proxy(w3);
    lemma_run_select(w4);
    lemma_run_bind(
        proxy_flow(),
        |m| EnableRun::<Seq<char>, Steps, Seq<Seq<char>>>::Proxy(m),
        |u: ()| enable_proxied(),
        w3,
        34,
        5,
    );
    lemma_run_bind(
        stage_flow(),
        |m| EnableRun::<Seq<char>, Steps, Seq<Seq<char>>>::Fallback(m),
        |u: ()| enable_backed(),
        w2,
        stage,
        39,
    );
    lemma_run_bind(
        self_flow(),
        |m| EnableRun::<Seq<char>, Steps, Seq<Seq<char>>>::Server(m),
        |r: Result<(), Error<Seq<char>>>| enable_served(r),
        w1,
        6,
        stage + 39,
    );
    lemma_run_bind(
        capture_flow(),
        |m| EnableRun::<Seq<char>, Steps, Seq<Seq<char>>>::Capturing(m),
        |r: Result<(), Error<Seq<char>>>| enable_captured(r),
        w,
        6,
        6 + (stage + 39),
    );
    assert(6 + (6 + (stage + 39)) == 71 + 6 * ancestors);
    lemma_wezterm_selected(w4);
    assert(current_selection(enabled(w, exe)) == Some(wezterm_selection()));
}

/// A selection that cannot be read is not taken over: `enable` fails and changes
/// nothing.
pub proof fn unreadable_selection_stops_enable(w: World)
    requires
        !selection_is_text(w),
    ensures
        run(enable_flow(), w, 3) == Some((Err::<(), Error<Seq<char>>>(selection_error(w)), w)),
{
    unreadable_selection_stays(w);
    lemma_run_bind(
        capture_flow(),
        |m| EnableRun::<Seq<char>, Steps, Seq<Seq<char>>>::Capturing(m),
        |r: Result<(), Error<Seq<char>>>| enable_captured(r),
        w,
        3,
        0,
    );
}

/// Enabling twice is as good as enabling once: the second time nothing in the
/// registry changes, and the backup still holds what was there before the
/// first.
pub proof fn enabling_twice_changes_nothing(w: World, exe: Seq<char>)
    requires
        selection_is_text(w),
    ensures
        enabled(enabled(w, exe), exe).user == enabled(w, exe).user,
        kept_selection(enabled(w, exe)) == first_selection(w),
{
    let t = WEZTERM_TERMHOST_TERMINAL_CLSID@;
    let f = WEZTERM_TERMHOST_FALLBACK_CONSOLE_CLSID@;
    lemma_clsids_differ();
    let w2 = served(captured(w), exe);
    let w3 = after_fallback(w2);
    let on = enabled(w, exe);
    fallback_is_registered_once(w2);
    lemma_same_bundle(w2, w3);
    assert(on.user == with_selection(w3, wezterm_selection()).user);
    lemma_wezterm_selected(w3);
    assert(current_selection(on) == Some(wezterm_selection()));
    assert(captured(on) == on);
    let again = served(on, exe);
    assert(again.user[Key::Clsid(t)] =~= on.user[Key::Clsid(t)]);
    assert(again.user[Key::LocalServer(t)] =~= on.user[Key::LocalServer(t)]);
    assert(again.user =~= on.user);
    lemma_same_bundle(w3, on);
    lemma_same_bundle(on, again);
    assert(present_server(again, f) == present_server(w3, f));
    assert(owned_exe(again, f) == owned_exe(w3, f));
    assert(foreign_server(again, f) == foreign_server(w3, f));
    assert(after_fallback(again).user =~= again.user) by {
        if bundled_file(again) is Some {
            let b = bundled_file(again)->0;
            if after_fallback(again) != again {
                assert(after_fallback(w3) == with_fallback(w3, b));
                assert(with_fallback(w3, b).user == w3.user);
                assert(with_fallback(again, b).user =~= again.user);
            }
        }
    }
    let selected = with_selection(again, wezterm_selection());
    assert(selected.user[Key::Startup] =~= again.user[Key::Startup]);
    assert(selected.user =~= again.user);
}

proof fn lemma_same_bundle(w: World, w2: World)
    requires
        w2.ancestors == w.ancestors,
        w2.bundled == w.bundled,
        w2.target_dirs == w.target_dirs,
    ensures
        bundled_file(w2) == bundled_file(w),
{
    if w.ancestors is Some {
        lemma_same_builds(w, w2, 0, w.ancestors->0);
    }
}

// ---------------------------------------------------------------------------
// Disable
// ---------------------------------------------------------------------------

/// What comes of the restoration: whether this terminal was the default, or an
/// error where the selection cannot be read.
pub open spec fn restoration(w: World) -> Restore {
    if selection_is_text(w) {
        Ok(wezterm_is_default(w))
    } else {
        Err(selection_error(w))
    }
}

/// The system after the restoration, of which the user was told.
pub open spec fn restored(w: World) -> World {
    told(
        if !selection_is_text(w) {
            w
        } else if wezterm_is_default(w) {
            without_backup(with_selection(w, kept_selection(w)))
        } else {
            without_backup(w)
        },
        restore_notice(restoration(w)),
    )
}

/// The system without this terminal's registration of a class.
pub open spec fn unregistered(w: World, clsid: Seq<char>, notice: Notice<Seq<char>>) -> World {
    if is_owned(w, Key::Clsid(clsid)) {
        told(removed(w, server_removal(clsid)), notice)
    } else {
        w
    }
}

/// The system after the end of `disable`: the fallback console host is removed,
/// and the user is told whether this terminal's server was there.
pub open spec fn finished(w: World, owned: bool) -> World {
    told(
        unregistered(w, WEZTERM_TERMHOST_FALLBACK_CONSOLE_CLSID@, Notice::FallbackRemoved),
        if owned {
            Notice::Disabled
        } else {
            Notice::NothingToDo
        },
    )
}

/// The system after the clean-up: this terminal's server, the proxy/stub and the
/// fallback console host are removed as far as they carry the marker.
pub open spec fn cleaned(w: World, ids: Ids) -> World {
    let w2 = unregistered(w, WEZTERM_TERMHOST_TERMINAL_CLSID@, Notice::ServerRemoved);
    let w3 = proxy_stub_removed(w2, ids.iids, ids.clsid);
    finished(w3, is_owned(w, Key::Clsid(WEZTERM_TERMHOST_TERMINAL_CLSID@)))
}

/// The system after `disable`.
pub open spec fn disabled(w: World, ids: Ids) -> World {
    cleaned(restored(w), ids)
}

proof fn lemma_run_remove_fallback(w: World)
    ensures
        run(remove_fallback_flow(), w, 5) == Some(
            (
                (),
                unregistered(w, WEZTERM_TERMHOST_FALLBACK_CONSOLE_CLSID@, Notice::FallbackRemoved),
            ),
        ),
{
    let clsid = WEZTERM_TERMHOST_FALLBACK_CONSOLE_CLSID@;
    let owned = is_owned(w, Key::Clsid(clsid));
    let w2 = removed(w, server_removal(clsid));
    removal_heeds_marker(w, server_removal(clsid));
    assert(run(fallback_removed(owned), w2, 1) == Some(
        ((), unregistered(w, clsid, Notice::FallbackRemoved)),
    )) by {
        reveal_with_fuel(run, 2);
    }
    lemma_run_bind(
        removal_flow(server_removal(clsid)),
        |m| RemoveFallback::<Seq<char>, Steps>::Removing(m),
        |owned: bool| fallback_removed(owned),
        w,
        4,
        1,
    );
}

proof fn lemma_run_unproxied(w: World, owned: bool, restore: Restore)
    ensures
        run(disable_unproxied(owned, restore), w, 6) == Some(
            (disable_result(restore), finished(w, owned)),
        ),
{
    let w2 = unregistered(
        w,
        WEZTERM_TERMHOST_FALLBACK_CONSOLE_CLSID@,
        Notice::FallbackRemoved,
    );
    lemma_run_remove_fallback(w);
    assert(run(disable_finish(owned, restore), w2, 1) == Some(
        (disable_result(restore), finished(w, owned)),
    )) by {
        reveal_with_fuel(run, 2);
    }
    lemma_run_bind(
        remove_fallback_flow(),
        |run| DisableState::Fallback { removed: owned, restore, run },
        |u: ()| disable_finish(owned, restore),
        w,
        5,
        1,
    );
}

proof fn lemma_run_unserved(w: World, ids: Ids, owned: bool, restore: Restore)
    ensures
        run(disable_unserved(ids, owned, restore), w, 6 * ids.iids.len() + 13) == Some(
            (
                disable_result(restore),
                finished(proxy_stub_removed(w, ids.iids, ids.clsid), owned),
            ),
        ),
{
    unmarked_entries_stay(w, ids.iids, ids.clsid);
    lemma_run_unproxied(proxy_stub_removed(w, ids.iids, ids.clsid), owned, restore);
    lemma_run_bind(
        proxy_stub_flow(ids.iids, ids.clsid),
        |run| DisableState::Proxy { removed: owned, restore, run },
        |u: ()| disable_unproxied(owned, restore),
        w,
        6 * ids.iids.len() + 7,
        6,
    );
}

proof fn lemma_run_cleanup(w: World, ids: Ids, restore: Restore)
    ensures
        run(disable_told(ids, restore), w, 6 * ids.iids.len() + 18) == Some(
            (disable_result(restore), cleaned(w, ids)),
        ),
{
    let clsid = WEZTERM_TERMHOST_TERMINAL_CLSID@;
    let owned = is_owned(w, Key::Clsid(clsid));
    let w2 = removed(w, server_removal(clsid));
    let w3 = unregistered(w, clsid, Notice::ServerRemoved);
    let sweep = 6 * ids.iids.len() + 13;
    removal_heeds_marker(w, server_removal(clsid));
    lemma_run_unserved(w3, ids, owned, restore);
    assert(run(disable_server(ids, owned, restore), w2, sweep + 1) == Some(
        (disable_result(restore), cleaned(w, ids)),
    )) by {
        reveal_with_fuel(run, 2);
        lemma_more_fuel(disable_unserved(ids, owned, restore), w3, sweep, sweep + 1);
    }
    lemma_run_bind(
        removal_flow(server_removal(clsid)),
        |run| DisableState::Server { ids, restore, run },
        |owned: bool| disable_server(ids, owned, restore),
        w,
        4,
        sweep + 1,
    );
}

/// `disable` restores the selection of before if this terminal is the default,
/// removes what carries this terminal's marker, and tells the user. A selection
/// that cannot be read stays, and that it could not is the result, but the
/// clean-up is done all the same.
pub proof fn disable_cleans_up(w: World, ids: Ids)
    ensures
        run(disable_flow(ids), w, 6 * ids.iids.len() + 30) == Some(
            (disable_result(restoration(w)), disabled(w, ids)),
        ),
{
    let restore = restoration(w);
    let sweep = 6 * ids.iids.len() + 18;
    if selection_is_text(w) {
        restore_brings_backup_back(w);
    } else {
        unreadable_selection_stays(w);
        lemma_more_fuel(restore_flow(), w, 3, 11);
    }
    lemma_run_cleanup(restored(w), ids, restore);
    let before = run(restore_flow(), w, 11).unwrap().1;
    assert(run(disable_restored(ids, restore), before, sweep + 1) == run(
        disable_told(ids, restore),
        restored(w),
        sweep,
    )) by {
        reveal_with_fuel(run, 2);
    }
    lemma_run_bind(
        restore_flow(),
        |run| DisableState::Restoring { ids, run },
        |restore: Restore| disable_restored(ids, restore),
        w,
        11,
        sweep + 1,
    );
}

proof fn lemma_cleaned(w: World, ids: Ids)
    ensures
        only_marked_removed(w, (World { said: w.said, ..cleaned(w, ids) })),
        cleaned(w, ids).user.contains_key(Key::Startup) == w.user.contains_key(Key::Startup),
{
    let t = WEZTERM_TERMHOST_TERMINAL_CLSID@;
    let f = WEZTERM_TERMHOST_FALLBACK_CONSOLE_CLSID@;
    let w2 = unregistered(w, t, Notice::ServerRemoved);
    let w3 = proxy_stub_removed(w2, ids.iids, ids.clsid);
    let w4 = unregistered(w3, f, Notice::FallbackRemoved);
    lemma_removed(w, server_removal(t));
    lemma_removed(w3, server_removal(f));
    unmarked_entries_stay(w2, ids.iids, ids.clsid);
    let said = w.said;
    let v2 = World { said, ..w2 };
    let v3 = World { said, ..w3 };
    let v4 = World { said, ..w4 };
    assert(only_marked_removed(w, w));
    lemma_silent(w2, w3, said);
    lemma_silent(w3, removed(w3, server_removal(f)), said);
    assert(only_marked_removed(w, v2));
    assert(only_marked_removed(v3, v4)) by {
        assert(only_marked_removed(v3, v3));
    }
    lemma_only_marked_chain(w, v2, v3);
    lemma_only_marked_chain(w, v3, v4);
    assert(v4 == (World { said, ..cleaned(w, ids) }));
}

/// A selection that was made elsewhere survives `disable`: if this terminal is
/// not the default, the selection stays as it is. Only the backup and what
/// carries this terminal's marker go.
pub proof fn switched_selection_survives(w: World, ids: Ids)
    requires
        selection_is_text(w),
        !wezterm_is_default(w),
    ensures
        ({
            let (result, off) = run(disable_flow(ids), w, 6 * ids.iids.len() + 30).unwrap();
            &&& result == Ok::<(), Error<Seq<char>>>(())
            &&& current_selection(off) == current_selection(w)
            &&& backup_is_gone(off)
            &&& only_marked_removed(
                without_backup(w),
                (World { said: w.said, ..off }),
            )
        }),
{
    disable_cleans_up(w, ids);
    let w1 = restored(w);
    let off = disabled(w, ids);
    lemma_cleaned(w1, ids);
    lemma_silent(w1, (World { said: w1.said, ..off }), w.said);
    assert((World { said: w.said, ..w1 }) == without_backup(w));
}

/// A selection that cannot be read does not keep `disable` from cleaning up: its
/// result is the failure, the selection and the backup stay as they are, and
/// what goes carries this terminal's marker.
pub proof fn unreadable_selection_survives(w: World, ids: Ids)
    requires
        !selection_is_text(w),
    ensures
        ({
            let (result, off) = run(disable_flow(ids), w, 6 * ids.iids.len() + 30).unwrap();
            let notice = Notice::RestoreFailed(error_text(selection_error(w)));
            &&& result == Err::<(), Error<Seq<char>>>(selection_error(w))
            &&& off == cleaned(told(w, notice), ids)
            &&& off.user[Key::Startup] == w.user[Key::Startup]
            &&& only_marked_removed(w, (World { said: w.said, ..off }))
        }),
{
    disable_cleans_up(w, ids);
    let w1 = restored(w);
    let off = disabled(w, ids);
    lemma_cleaned(w1, ids);
    lemma_silent(w1, (World { said: w1.said, ..off }), w.said);
    assert((World { said: w.said, ..w1 }) == w);
}

proof fn lemma_silent(w: World, w2: World, said: Seq<Notice<Seq<char>>>)
    requires
        only_marked_removed(w, w2),
    ensures
        only_marked_removed((World { said, ..w }), (World { said, ..w2 })),
{
    let v = World { said, ..w };
    assert forall|k: Key<Seq<char>>| marked(v, k) == marked(w, k) by {}
}

// ---------------------------------------------------------------------------
// Enable, then disable
// ---------------------------------------------------------------------------

proof fn lemma_clsids_differ()
    ensures
        WEZTERM_TERMHOST_TERMINAL_CLSID@ != WEZTERM_TERMHOST_FALLBACK_CONSOLE_CLSID@,
{
    reveal_strlit("{8B7D4E2A-3F5C-4D1B-9A6E-7C2B5F8D1E4A}");
    reveal_strlit("{2EACA947-7F5F-4CFA-BA87-8F7FBEEFBE69}");
    assert(WEZTERM_TERMHOST_TERMINAL_CLSID@[1] != WEZTERM_TERMHOST_FALLBACK_CONSOLE_CLSID@[1]);
}

/// Whether nothing of the user carries an ownership marker.
pub open spec fn nothing_owned(w: World) -> bool {
    forall|k: Key<Seq<char>>| #[trigger] number_at(w.user, k, ValueName::Owned) is None
}

proof fn lemma_no_proxy(w: World, ids: Ids)
    requires
        forall|k: Key<Seq<char>>| #[trigger]
            is_owned(w, k) ==> (k matches Key::Clsid(c) && w.user.contains_key(Key::LocalServer(c))
                && !w.user.contains_key(Key::InProcServer(c))),
    ensures
        proxy_stub_removed(w, ids.iids, ids.clsid) == w,
{
    unmarked_entries_stay(w, ids.iids, ids.clsid);
    assert(proxy_stub_removed(w, ids.iids, ids.clsid).user =~= w.user);
}

/// `disable` undoes `enable`: where this terminal was not the default and had
/// registered nothing, all that is left in the registry is the selection of
/// before, or "let Windows decide" where there was none. A console host that
/// someone else registered is still there, whether its file exists or not. The
/// one thing that does not come back is a console class of someone else without
/// a server, which `enable` completes and makes its own.
pub proof fn disable_undoes_enable(w: World, exe: Seq<char>, ancestors: u32, ids: Ids)
    requires
        selection_is_text(w),
        !wezterm_is_default(w),
        w.exe == Some(exe),
        w.ancestors == Some(ancestors) || w.ancestors is None,
        nothing_owned(w),
        is_tree(w.user),
        !w.user.contains_key(Key::Clsid(WEZTERM_TERMHOST_TERMINAL_CLSID@)),
        w.user.contains_key(Key::Clsid(WEZTERM_TERMHOST_FALLBACK_CONSOLE_CLSID@)) ==> {
            ||| foreign_server(w, WEZTERM_TERMHOST_FALLBACK_CONSOLE_CLSID@)
            ||| present_server(w, WEZTERM_TERMHOST_FALLBACK_CONSOLE_CLSID@) is Some
            ||| bundled_file(w) is None
        },
    ensures
        ({
            let on = run(enable_flow(), w, (71 + 6 * ancestors) as nat).unwrap().1;
            let (result, off) = run(disable_flow(ids), on, 6 * ids.iids.len() + 30).unwrap();
            &&& result == Ok::<(), Error<Seq<char>>>(())
            &&& off.user == without_backup(with_selection(w, selection_to_keep(w))).user
            &&& off.machine == w.machine
            &&& current_selection(off) == Some(selection_to_keep(w))
        }),
{
    let t = WEZTERM_TERMHOST_TERMINAL_CLSID@;
    let f = WEZTERM_TERMHOST_FALLBACK_CONSOLE_CLSID@;
    let keep = selection_to_keep(w);
    lemma_clsids_differ();
    enable_makes_default(w, exe, ancestors);
    let w1 = with_backup(w, keep);
    let w2 = served(w1, exe);
    let w3 = after_fallback(w2);
    let on = enabled(w, exe);
    assert(on.user == with_selection(w3, wezterm_selection()).user);
    let fresh = w3 != w2;
    assert(present_server(w2, f) == present_server(w, f));
    assert(foreign_server(w2, f) == foreign_server(w, f));
    lemma_same_bundle(w, w2);
    assert(number_at(w.user, Key::Clsid(f), ValueName::Owned) is None);
    assert(owned_exe(w2, f) is None);
    assert(fresh ==> !w.user.contains_key(Key::Clsid(f)) && bundled_file(w2) is Some && w3
        == with_fallback(w2, bundled_file(w2)->0));
    assert(selection_is_text(on));
    disable_cleans_up(on, ids);
    assert(kept_selection(on) == keep);

    let r = restored(on);
    assert(r.user == without_backup(with_selection(on, keep)).user);
    assert(parent(Key::<Seq<char>>::LocalServer(t)) == Some(Key::<Seq<char>>::Clsid(t)));
    assert(parent(Key::<Seq<char>>::InProcServer(t)) == Some(Key::<Seq<char>>::Clsid(t)));
    assert(parent(Key::<Seq<char>>::LocalServer(f)) == Some(Key::<Seq<char>>::Clsid(f)));
    assert(parent(Key::<Seq<char>>::InProcServer(f)) == Some(Key::<Seq<char>>::Clsid(f)));
    assert(is_owned(r, Key::Clsid(t)));
    marked_server_goes(r, t);
    let r2 = unregistered(r, t, Notice::ServerRemoved);
    assert forall|k: Key<Seq<char>>| is_owned(r2, k) implies k == Key::<Seq<char>>::Clsid(
        f,
    ) && fresh by {
        assert(number_at(w.user, k, ValueName::Owned) is None);
    }
    lemma_no_proxy(r2, ids);
    let off = disabled(on, ids);
    if fresh {
        assert(is_owned(r2, Key::Clsid(f)));
        marked_server_goes(r2, f);
    } else {
        assert(!is_owned(r2, Key::Clsid(f)));
    }
    let target = without_backup(with_selection(w, keep)).user;
    assert(off.user[Key::Startup] =~= target[Key::Startup]);
    assert(off.user =~= target);
}

/// The selection comes back: where this terminal was not the default, `enable`
/// and then `disable` leave the selection of before, or "let Windows decide"
/// where there was none, and no backup. What else is in the registry does not
/// matter.
pub proof fn selection_comes_back(w: World, exe: Seq<char>, ancestors: u32, ids: Ids)
    requires
        selection_is_text(w),
        !wezterm_is_default(w),
        w.exe == Some(exe),
        w.ancestors == Some(ancestors) || w.ancestors is None,
    ensures
        ({
            let on = run(enable_flow(), w, (71 + 6 * ancestors) as nat).unwrap().1;
            let (result, off) = run(disable_flow(ids), on, 6 * ids.iids.len() + 30).unwrap();
            &&& result == Ok::<(), Error<Seq<char>>>(())
            &&& current_selection(off) == Some(selection_to_keep(w))
            &&& backup_is_gone(off)
        }),
{
    enable_makes_default(w, exe, ancestors);
    let keep = selection_to_keep(w);
    let on = enabled(w, exe);
    assert(kept_selection(on) == keep);
    disable_cleans_up(on, ids);
    lemma_cleaned(restored(on), ids);
}

// ---------------------------------------------------------------------------
// When restoring fails
// ---------------------------------------------------------------------------

/// Two states of `disable` after the restoration that differ in nothing but
/// what came of it.
pub open spec fn same_but_restore(m: DisableState, n: DisableState) -> bool {
    match (m, n) {
        (
            DisableRun::Server { ids: i, run: a, .. },
            DisableRun::Server { ids: j, run: b, .. },
        ) => i == j && a == b,
        (DisableRun::ToldServer { ids: i, .. }, DisableRun::ToldServer { ids: j, .. }) => i == j,
        (
            DisableRun::Proxy { removed: c, run: a, .. },
            DisableRun::Proxy { removed: d, run: b, .. },
        ) => c == d && a == b,
        (
            DisableRun::Fallback { removed: c, run: a, .. },
            DisableRun::Fallback { removed: d, run: b, .. },
        ) => c == d && a == b,
        (DisableRun::ToldOutcome { .. }, DisableRun::ToldOutcome { .. }) => true,
        _ => false,
    }
}

/// The same of two dialogues.
pub open spec fn same_dialogue(f: DisableFlow, g: DisableFlow) -> bool {
    match (f, g) {
        (Flow::Ask(q, m), Flow::Ask(r, n)) => q == r && same_but_restore(m, n),
        (Flow::Done(_), Flow::Done(_)) => true,
        _ => false,
    }
}

/// What the state says came of the restoration.
pub open spec fn restore_of(m: DisableState) -> Option<Restore> {
    match m {
        DisableRun::Restoring { .. } => None,
        DisableRun::ToldRestore { restore, .. } => Some(restore),
        DisableRun::Server { restore, .. } => Some(restore),
        DisableRun::ToldServer { restore, .. } => Some(restore),
        DisableRun::Proxy { restore, .. } => Some(restore),
        DisableRun::Fallback { restore, .. } => Some(restore),
        DisableRun::ToldOutcome { restore } => Some(restore),
    }
}

/// A dialogue that still knows what came of the restoration, or is done with
/// it as its result.
pub open spec fn remembers(f: DisableFlow, restore: Restore) -> bool {
    match f {
        Flow::Ask(_, m) => restore_of(m) == Some(restore),
        Flow::Done(r) => r == disable_result(restore),
    }
}

/// Where a dialogue is after replies came in.
pub open spec fn reached(f: DisableFlow, replies: Seq<Reply<Seq<char>>>) -> DisableFlow
    decreases replies.len(),
{
    match f {
        Flow::Ask(_, m) => if replies.len() == 0 {
            f
        } else {
            reached(m.next(replies[0]), replies.skip(1))
        },
        Flow::Done(_) => f,
    }
}

proof fn lemma_same_asked(f: DisableFlow, g: DisableFlow, replies: Seq<Reply<Seq<char>>>)
    requires
        same_dialogue(f, g),
    ensures
        asked(f, replies) == asked(g, replies),
    decreases replies.len(),
{
    if f is Ask && replies.len() > 0 {
        let f2 = f->Ask_1.next(replies[0]);
        let g2 = g->Ask_1.next(replies[0]);
        assert(same_dialogue(f2, g2));
        lemma_same_asked(f2, g2, replies.skip(1));
    }
}

proof fn lemma_remembers(f: DisableFlow, restore: Restore, replies: Seq<Reply<Seq<char>>>)
    requires
        remembers(f, restore),
    ensures
        remembers(reached(f, replies), restore),
    decreases replies.len(),
{
    if f is Ask && replies.len() > 0 {
        let g = f->Ask_1.next(replies[0]);
        assert(remembers(g, restore));
        lemma_remembers(g, restore, replies.skip(1));
    }
}

/// A failure to restore the selection does not change the clean-up in the
/// least: whatever the system answers, the same things are asked for as after a
/// success.
pub proof fn cleanup_ignores_restore(
    ids: Ids,
    one: Restore,
    other: Restore,
    replies: Seq<Reply<Seq<char>>>,
)
    ensures
        asked(disable_told(ids, one), replies) == asked(disable_told(ids, other), replies),
{
    lemma_same_asked(disable_told(ids, one), disable_told(ids, other), replies);
}

/// A failure to restore the selection is the result of the command, and it is
/// the only one: whatever the system answers, once `disable` is done it has
/// failed exactly if the restoration did.
pub proof fn restore_failure_is_reported(
    ids: Ids,
    restore: Restore,
    replies: Seq<Reply<Seq<char>>>,
)
    ensures
        reached(disable_restored(ids, restore), replies) matches Flow::Done(r) ==> r
            == disable_result(restore),
{
    lemma_remembers(disable_restored(ids, restore), restore, replies);
}

} // verus!
