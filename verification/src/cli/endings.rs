//! No command goes on for ever: whatever the system answers, there is a last
//! question.

use crate::cli::disable::{
    disable_finish, disable_flow, disable_restored, disable_server, disable_told,
    disable_unproxied, disable_unserved, fallback_removed, remove_fallback_flow, DisableState, Ids,
    RemoveFallback, Restore,
};
use crate::cli::enable::{
    enable_backed, enable_captured, enable_flow, enable_proxied, enable_selected, enable_served,
    proxy_flow, proxy_found, proxy_without, self_flow, stage_flow, stage_registered,
    stage_resolved, EnableState, FallbackStage, ProxyStage, RegisterSelf,
};
use crate::cli::laws::lemma_brand_len;
use crate::error::Error;
use crate::machine::{
    ends_within, lemma_bind_ends, lemma_ends_later, script_ends, script_flow, Flow, Profile,
    Resumable, Steps,
};
use crate::registration::detect::{
    any_server_after, any_server_flow, brand_clsids, channel_clsids, find_after, find_below,
    find_elsewhere, find_flow, host_checked, host_flow, read_server_flow, AnyServer, FindServer,
    HostServes,
};
use crate::registration::fallback::{
    fallback_flow, fallback_found, fallback_missing, fallback_owned, fallback_resolved,
    fallback_steps, fallback_write, foreign_flow, owned_path_flow, resolve_above, resolve_built,
    resolve_flow, FallbackState, FindForeign, RegisterFallback, ResolveBundled,
};
use crate::registration::ownership::{
    all_interface_removals, class_after, class_flow, inproc_flow, inproc_removal,
    local_server_steps, ownership_flow, proxy_class_removal, proxy_stub_flow, removal_after,
    removal_flow, server_removal, sweep_flow, ProxyStubState, Removal, RemoveOwned,
    RemoveProxyStub,
};
use crate::registration::ownership_laws::lemma_interface_removals;
use crate::registration::{
    backup_steps, backup_value, capture_after, capture_flow, clear_steps,
    current_registration_flow, register_steps, restore_after, restore_clear, restore_cleared,
    restore_flow, restore_write, restore_written, wezterm_selection, windows_decides,
    CaptureBackup, RestoreBackup, Selection, TermHostRegistration,
    WEZTERM_TERMHOST_FALLBACK_CONSOLE_CLSID, WEZTERM_TERMHOST_TERMINAL_CLSID,
};
use crate::registry::{Fault, Key, Reply, Root};
use vstd::prelude::*;

verus! {

/// What an operation of the registration may end with.
pub type Outcome = Result<(), Error<Seq<char>>>;

/// What a lookup of the selection may end with.
pub type Current = Result<Option<Selection>, Error<Seq<char>>>;

// ---------------------------------------------------------------------------
// The selection
// ---------------------------------------------------------------------------

proof fn lemma_current_ends()
    ensures
        ends_within(current_registration_flow(), 3),
{
    reveal_with_fuel(ends_within, 4);
}

proof fn lemma_capture_ends()
    ensures
        ends_within(capture_flow(), 6),
{
    lemma_current_ends();
    assert forall|c: Current| ends_within(#[trigger] capture_after(c), 3) by {
        let previous = match c {
            Ok(Some(reg)) => reg,
            _ => windows_decides(),
        };
        script_ends(backup_steps(previous));
        lemma_bind_ends(
            script_flow(backup_steps(previous)),
            |m| CaptureBackup::<Seq<char>, Steps>::Writing(m),
            |r: Outcome| Flow::<Seq<char>, CaptureBackup<Seq<char>, Steps>, Outcome>::Done(r),
            3,
            0,
        );
    }
    lemma_bind_ends(
        current_registration_flow(),
        |m| CaptureBackup::<Seq<char>, Steps>::Reading(m),
        |c: Current| capture_after(c),
        3,
        3,
    );
}

proof fn lemma_clear_ends(restored: bool)
    ensures
        ends_within(restore_clear(restored), 2),
{
    script_ends(clear_steps());
    lemma_bind_ends(
        script_flow(clear_steps()),
        |run| RestoreBackup::<Seq<char>, Steps>::Clearing { restored, run },
        |r: Outcome| restore_cleared(restored, r),
        2,
        0,
    );
}

proof fn lemma_restore_write_ends(previous: Selection)
    ensures
        ends_within(restore_write(previous), 5),
{
    script_ends(register_steps(previous));
    lemma_clear_ends(true);
    lemma_bind_ends(
        script_flow(register_steps(previous)),
        |m| RestoreBackup::<Seq<char>, Steps>::Writing(m),
        |r: Outcome| restore_written(r),
        3,
        2,
    );
}

proof fn lemma_restore_ends()
    ensures
        ends_within(restore_flow(), 11),
{
    lemma_current_ends();
    assert forall|c: Current| ends_within(#[trigger] restore_after(c), 8) by {
        lemma_clear_ends(false);
        lemma_ends_later(restore_clear(false), 2, 8);
        lemma_restore_read_ends();
    }
    lemma_bind_ends(
        current_registration_flow(),
        |m| RestoreBackup::<Seq<char>, Steps>::Reading(m),
        |c: Current| restore_after(c),
        3,
        8,
    );
}

proof fn lemma_restore_read_ends()
    ensures
        forall|reply: Reply<Seq<char>>|
            ends_within(#[trigger] RestoreBackup::<Seq<char>, Steps>::Opening.next(reply), 7),
{
    assert forall|console: Seq<char>, reply: Reply<Seq<char>>|
        ends_within(
            #[trigger] (RestoreBackup::<Seq<char>, Steps>::LastTerminal { console }).next(reply),
            5,
        ) by {
        lemma_restore_write_ends(
            TermHostRegistration {
                delegation_console: console,
                delegation_terminal: backup_value(reply.text()),
            },
        );
    }
    assert forall|reply: Reply<Seq<char>>|
        ends_within(#[trigger] RestoreBackup::<Seq<char>, Steps>::LastConsole.next(reply), 6) by {}
    assert forall|reply: Reply<Seq<char>>|
        ends_within(#[trigger] RestoreBackup::<Seq<char>, Steps>::Opening.next(reply), 7) by {
        lemma_restore_write_ends(windows_decides());
        lemma_ends_later(restore_write(windows_decides()), 5, 7);
    }
}

// ---------------------------------------------------------------------------
// Servers
// ---------------------------------------------------------------------------

proof fn lemma_find_ends(clsid: Seq<char>)
    ensures
        ends_within(find_flow(clsid), 6),
{
    lemma_find_below_ends(Root::LocalMachine, clsid, 0);
    lemma_find_below_ends(Root::CurrentUser, clsid, 3);
}

proof fn lemma_find_below_ends(root: Root, clsid: Seq<char>, rest: nat)
    requires
        ends_within(find_elsewhere(root, clsid), rest),
    ensures
        ends_within(find_below(root, clsid), 3 + rest),
{
    assert(ends_within(read_server_flow(root, clsid), 2)) by {
        reveal_with_fuel(ends_within, 3);
    }
    assert forall|exe: Option<Seq<char>>|
        ends_within(#[trigger] find_after(root, clsid, exe), 1 + rest) by {
        lemma_ends_later(find_elsewhere(root, clsid), rest, 1 + rest);
        if exe is Some {
            let m = FindServer::Exists { root, clsid, path: exe->0 };
            assert forall|reply: Reply<Seq<char>>|
                ends_within(#[trigger] m.next(reply), rest) by {}
        }
    }
    lemma_bind_ends(
        read_server_flow(root, clsid),
        |read| FindServer::Reading { root, clsid, read },
        |exe: Option<Seq<char>>| find_after(root, clsid, exe),
        2,
        1 + rest,
    );
}

proof fn lemma_host_ends(clsid: Seq<char>)
    ensures
        ends_within(host_flow(clsid), 8),
{
    assert(ends_within(ownership_flow(Key::Clsid(clsid)), 2)) by {
        reveal_with_fuel(ends_within, 3);
    }
    assert forall|owned: bool| ends_within(#[trigger] host_checked(clsid, owned), 6) by {
        let search = if owned {
            find_below(Root::LocalMachine, clsid)
        } else {
            find_flow(clsid)
        };
        lemma_find_ends(clsid);
        lemma_find_below_ends(Root::LocalMachine, clsid, 0);
        lemma_ends_later(find_below(Root::LocalMachine, clsid), 3, 6);
        lemma_bind_ends(
            search,
            |find| HostServes::<Seq<char>>::Finding(find),
            |path: Option<Seq<char>>|
                Flow::<Seq<char>, HostServes<Seq<char>>, bool>::Done(path is Some),
            6,
            0,
        );
    }
    lemma_bind_ends(
        ownership_flow(Key::Clsid(clsid)),
        |check| HostServes::Checking { clsid, check },
        |owned: bool| host_checked(clsid, owned),
        2,
        6,
    );
}

proof fn lemma_any_server_ends(clsids: Seq<Seq<char>>)
    ensures
        ends_within(any_server_flow(clsids), 8 * clsids.len()),
    decreases clsids.len(),
{
    if clsids.len() > 0 {
        let rest = clsids.skip(1);
        lemma_host_ends(clsids[0]);
        lemma_any_server_ends(rest);
        assert forall|found: bool|
            ends_within(#[trigger] any_server_after(found, rest), 8 * rest.len()) by {}
        lemma_bind_ends(
            host_flow(clsids[0]),
            |current| AnyServer { current, rest },
            |found: bool| any_server_after(found, rest),
            8,
            8 * rest.len(),
        );
    }
}

// ---------------------------------------------------------------------------
// The fallback
// ---------------------------------------------------------------------------

/// The largest number of questions of the search for the bundled file.
pub open spec fn resolve_limit() -> nat {
    2 + 3 * (u32::MAX as nat)
}

proof fn lemma_above_ends(level: u32, ancestors: u32)
    requires
        level <= ancestors,
    ensures
        ends_within(resolve_above(level, ancestors), (3 * (ancestors - level)) as nat),
    decreases ancestors - level,
{
    if level < ancestors {
        let up = (level + 1) as u32;
        let more = (3 * (ancestors - up)) as nat;
        let above = resolve_above(up, ancestors);
        lemma_above_ends(up, ancestors);
        lemma_ends_later(above, more, more + 1);
        lemma_ends_later(above, more, more + 2);
        let release = ResolveBundled::Built { level: up, ancestors, profile: Profile::Release };
        assert forall|reply: Reply<Seq<char>>|
            ends_within(#[trigger] release.next(reply), more) by {}
        assert(ends_within(resolve_built(up, ancestors, Profile::Release), more + 1));
        let debug = ResolveBundled::Built { level: up, ancestors, profile: Profile::Debug };
        assert forall|reply: Reply<Seq<char>>|
            ends_within(#[trigger] debug.next(reply), more + 1) by {}
        assert(ends_within(resolve_built(up, ancestors, Profile::Debug), more + 2));
        let target = ResolveBundled::Target { level: up, ancestors };
        assert forall|reply: Reply<Seq<char>>|
            ends_within(#[trigger] target.next(reply), more + 2) by {}
    }
}

proof fn lemma_resolve_ends()
    ensures
        ends_within(resolve_flow(), resolve_limit()),
{
    let most = 3 * (u32::MAX as nat);
    assert forall|ancestors: u32, reply: Reply<Seq<char>>|
        ends_within(#[trigger] (ResolveBundled::Beside { ancestors }).next(reply), most) by {
        lemma_above_ends(0, ancestors);
        lemma_ends_later(resolve_above(0, ancestors), (3 * ancestors) as nat, most);
    }
    assert forall|reply: Reply<Seq<char>>|
        ends_within(#[trigger] ResolveBundled::Ancestors.next(reply), most + 1) by {}
}

proof fn lemma_fallback_write_ends(bundled: Seq<char>)
    ensures
        ends_within(fallback_write(bundled), 5),
{
    script_ends(fallback_steps(bundled));
    lemma_bind_ends(
        script_flow(fallback_steps(bundled)),
        |run| RegisterFallback::<Seq<char>, Steps>::Writing(run),
        |r: Outcome| Flow::<Seq<char>, FallbackState, Outcome>::Done(r),
        5,
        0,
    );
}

proof fn lemma_foreign_ends(clsid: Seq<char>)
    ensures
        ends_within(foreign_flow(clsid), 4),
{
    assert(ends_within(read_server_flow(Root::CurrentUser, clsid), 2)) by {
        reveal_with_fuel(ends_within, 3);
    }
    lemma_bind_ends(
        read_server_flow(Root::CurrentUser, clsid),
        |read| FindForeign::<Seq<char>>::Server(read),
        |exe: Option<Seq<char>>|
            Flow::<Seq<char>, FindForeign<Seq<char>>, bool>::Done(exe is Some),
        2,
        0,
    );
    let marker = FindForeign::Marker(clsid);
    assert forall|reply: Reply<Seq<char>>| ends_within(#[trigger] marker.next(reply), 2) by {}
    let opening = FindForeign::Opening(clsid);
    assert forall|reply: Reply<Seq<char>>| ends_within(#[trigger] opening.next(reply), 3) by {}
}

proof fn lemma_fallback_found_ends(bundled: Seq<char>, found: bool)
    ensures
        ends_within(fallback_found(bundled, found), 9),
{
    let clsid = WEZTERM_TERMHOST_FALLBACK_CONSOLE_CLSID@;
    lemma_fallback_write_ends(bundled);
    if found {
        assert(ends_within(owned_path_flow(clsid), 4)) by {
            reveal_with_fuel(ends_within, 5);
        }
        lemma_bind_ends(
            owned_path_flow(clsid),
            |read| RegisterFallback::<Seq<char>, Steps>::Owner { bundled, read },
            |ours: Option<Seq<char>>| fallback_owned(bundled, ours),
            4,
            5,
        );
    } else {
        lemma_foreign_ends(clsid);
        lemma_bind_ends(
            foreign_flow(clsid),
            |question| RegisterFallback::<Seq<char>, Steps>::Foreign { bundled, question },
            |foreign: bool| fallback_missing(bundled, foreign),
            4,
            5,
        );
    }
}

proof fn lemma_fallback_ends()
    ensures
        ends_within(fallback_flow(), resolve_limit() + 15),
{
    let clsid = WEZTERM_TERMHOST_FALLBACK_CONSOLE_CLSID@;
    lemma_resolve_ends();
    assert forall|found: Option<Seq<char>>|
        ends_within(#[trigger] fallback_resolved(found), 15) by {
        if found is Some {
            let bundled = found->0;
            lemma_find_ends(clsid);
            lemma_fallback_found_ends(bundled, true);
            lemma_fallback_found_ends(bundled, false);
            lemma_bind_ends(
                find_flow(clsid),
                |find| RegisterFallback::<Seq<char>, Steps>::Finding { bundled, find },
                |existing: Option<Seq<char>>| fallback_found(bundled, existing is Some),
                6,
                9,
            );
        }
    }
    lemma_bind_ends(
        resolve_flow(),
        |m| RegisterFallback::<Seq<char>, Steps>::Resolving(m),
        |bundled: Option<Seq<char>>| fallback_resolved(bundled),
        resolve_limit(),
        15,
    );
}

// ---------------------------------------------------------------------------
// Removal
// ---------------------------------------------------------------------------

proof fn lemma_removal_ends(removal: Removal<Seq<char>, Steps>)
    ensures
        ends_within(removal_flow(removal), 2 + removal.edits.len()),
{
    let edits = removal.edits;
    assert(ends_within(ownership_flow(removal.guard), 2)) by {
        reveal_with_fuel(ends_within, 3);
    }
    script_ends(edits);
    lemma_bind_ends(
        script_flow(edits),
        |run| RemoveOwned::<Seq<char>, Steps>::Removing(run),
        |r: Outcome| Flow::<Seq<char>, RemoveOwned<Seq<char>, Steps>, bool>::Done(true),
        edits.len(),
        0,
    );
    assert forall|owned: bool|
        ends_within(#[trigger] removal_after(owned, edits), edits.len()) by {}
    lemma_bind_ends(
        ownership_flow(removal.guard),
        |check| RemoveOwned::Checking { check, edits },
        |owned: bool| removal_after(owned, edits),
        2,
        edits.len(),
    );
}

proof fn lemma_class_ends(clsid: Seq<char>)
    ensures
        ends_within(class_flow(clsid), 7),
{
    lemma_removal_ends(proxy_class_removal(clsid));
    lemma_removal_ends(inproc_removal(clsid));
    lemma_bind_ends(
        removal_flow(inproc_removal(clsid)),
        |current| RemoveProxyStub::<
            Seq<char>,
            Steps,
            Seq<Removal<Seq<char>, Steps>>,
        >::InProc(current),
        |owned: bool| Flow::<Seq<char>, ProxyStubState, ()>::Done(()),
        3,
        0,
    );
    assert(ends_within(inproc_flow(clsid), 3));
    assert forall|owned: bool| ends_within(#[trigger] class_after(owned, clsid), 3) by {}
    lemma_bind_ends(
        removal_flow(proxy_class_removal(clsid)),
        |current| RemoveProxyStub::<Seq<char>, Steps, Seq<Removal<Seq<char>, Steps>>>::Class {
            current,
            clsid,
        },
        |owned: bool| class_after(owned, clsid),
        4,
        3,
    );
}

proof fn lemma_sweep_ends(jobs: Seq<Removal<Seq<char>, Steps>>, clsid: Seq<char>)
    requires
        forall|i: int| 0 <= i < jobs.len() ==> (#[trigger] jobs[i]).edits.len() == 1,
    ensures
        ends_within(sweep_flow(jobs, clsid), 3 * jobs.len() + 7),
    decreases jobs.len(),
{
    if jobs.len() == 0 {
        lemma_class_ends(clsid);
    } else {
        let rest = jobs.skip(1);
        lemma_sweep_ends(rest, clsid);
        lemma_removal_ends(jobs[0]);
        lemma_bind_ends(
            removal_flow(jobs[0]),
            |current| RemoveProxyStub::Interfaces { current, rest, clsid },
            |owned: bool| sweep_flow(rest, clsid),
            3,
            3 * rest.len() + 7,
        );
    }
}

proof fn lemma_proxy_stub_ends(iids: Seq<Seq<char>>, clsid: Seq<char>)
    ensures
        ends_within(proxy_stub_flow(iids, clsid), 6 * iids.len() + 7),
{
    lemma_interface_removals(iids, iids.len());
    lemma_sweep_ends(all_interface_removals(iids, iids.len()), clsid);
}

// ---------------------------------------------------------------------------
// The commands
// ---------------------------------------------------------------------------

/// The largest number of questions of `enable`.
pub open spec fn enable_limit() -> nat {
    2 * resolve_limit() + 67
}

proof fn lemma_self_ends()
    ensures
        ends_within(self_flow(), 6),
{
    let m = RegisterSelf::<Seq<char>, Steps>::Exe;
    assert forall|reply: Reply<Seq<char>>| ends_within(#[trigger] m.next(reply), 5) by {
        if reply.text() is Ok {
            let steps = local_server_steps(
                WEZTERM_TERMHOST_TERMINAL_CLSID@,
                reply.text()->Ok_0,
            );
            script_ends(steps);
            lemma_bind_ends(
                script_flow(steps),
                |run| RegisterSelf::<Seq<char>, Steps>::Writing(run),
                |r: Outcome| Flow::<Seq<char>, RegisterSelf<Seq<char>, Steps>, Outcome>::Done(r),
                5,
                0,
            );
        }
    }
}

proof fn lemma_stage_ends()
    ensures
        ends_within(stage_flow(), 2 * resolve_limit() + 16),
{
    let more = resolve_limit() + 1;
    lemma_fallback_ends();
    lemma_resolve_ends();
    assert forall|bundled: Option<Seq<char>>|
        ends_within(#[trigger] stage_resolved(bundled), 1) by {
        reveal_with_fuel(ends_within, 2);
    }
    lemma_bind_ends(
        resolve_flow(),
        |m| FallbackStage::<Seq<char>, Steps>::Resolving(m),
        |bundled: Option<Seq<char>>| stage_resolved(bundled),
        resolve_limit(),
        1,
    );
    assert forall|r: Outcome| ends_within(#[trigger] stage_registered(r), more) by {
        if r is Err {
            let m = FallbackStage::<Seq<char>, Steps>::Saying;
            assert forall|reply: Reply<Seq<char>>|
                ends_within(#[trigger] m.next(reply), (more - 1) as nat) by {}
        }
    }
    lemma_bind_ends(
        fallback_flow(),
        |m| FallbackStage::<Seq<char>, Steps>::Registering(m),
        |r: Outcome| stage_registered(r),
        resolve_limit() + 15,
        more,
    );
}

proof fn lemma_proxy_ends()
    ensures
        ends_within(proxy_flow(), 34),
{
    let clsids = brand_clsids(channel_clsids());
    lemma_brand_len(channel_clsids());
    lemma_any_server_ends(clsids);
    assert forall|installed: bool| ends_within(#[trigger] proxy_without(installed), 1) by {
        reveal_with_fuel(ends_within, 2);
    }
    lemma_bind_ends(
        any_server_flow(clsids),
        |m| ProxyStage::<Seq<char>, Seq<Seq<char>>>::Asking(m),
        |installed: bool| proxy_without(installed),
        8 * clsids.len(),
        1,
    );
    assert forall|dll: Result<Seq<char>, Fault<Seq<char>>>|
        ends_within(#[trigger] proxy_found(dll), 33) by {
        if dll is Err {
            lemma_ends_later(proxy_found(dll), 8 * clsids.len() + 1, 33);
        } else {
            reveal_with_fuel(ends_within, 3);
            lemma_ends_later(proxy_found(dll), 2, 33);
        }
    }
    let m = ProxyStage::<Seq<char>, Seq<Seq<char>>>::Finding;
    assert forall|reply: Reply<Seq<char>>| ends_within(#[trigger] m.next(reply), 33) by {}
}

/// `enable` ends, whatever the system answers.
pub proof fn enable_ends()
    ensures
        ends_within(enable_flow(), enable_limit()),
{
    let stage = 2 * resolve_limit() + 16;
    lemma_capture_ends();
    lemma_self_ends();
    lemma_stage_ends();
    lemma_proxy_ends();
    script_ends(register_steps(wezterm_selection()));
    assert forall|r: Outcome| ends_within(#[trigger] enable_selected(r), 2) by {
        reveal_with_fuel(ends_within, 3);
    }
    lemma_bind_ends(
        script_flow(register_steps(wezterm_selection())),
        |m| EnableState::Selecting(m),
        |r: Outcome| enable_selected(r),
        3,
        2,
    );
    assert(ends_within(enable_proxied(), 5));
    lemma_bind_ends(
        proxy_flow(),
        |m| EnableState::Proxy(m),
        |u: ()| enable_proxied(),
        34,
        5,
    );
    assert(ends_within(enable_backed(), 39));
    lemma_bind_ends(
        stage_flow(),
        |m| EnableState::Fallback(m),
        |u: ()| enable_backed(),
        stage,
        39,
    );
    assert forall|r: Outcome| ends_within(#[trigger] enable_served(r), stage + 39) by {}
    lemma_bind_ends(
        self_flow(),
        |m| EnableState::Server(m),
        |r: Outcome| enable_served(r),
        6,
        stage + 39,
    );
    assert forall|r: Outcome| ends_within(#[trigger] enable_captured(r), 6 + (stage + 39)) by {}
    lemma_bind_ends(
        capture_flow(),
        |m| EnableState::Capturing(m),
        |r: Outcome| enable_captured(r),
        6,
        6 + (stage + 39),
    );
}

/// `disable` ends, whatever the system answers.
pub proof fn disable_ends(ids: Ids)
    ensures
        ends_within(disable_flow(ids), 6 * ids.iids.len() + 30),
{
    let terminal = server_removal(WEZTERM_TERMHOST_TERMINAL_CLSID@);
    let sweep = 6 * ids.iids.len() + 7;
    lemma_restore_ends();
    lemma_removal_ends(terminal);
    assert forall|restore: Restore|
        ends_within(#[trigger] disable_restored(ids, restore), sweep + 12) by {
        lemma_unserved_ends(ids, true, restore);
        lemma_unserved_ends(ids, false, restore);
        assert forall|owned: bool|
            ends_within(#[trigger] disable_server(ids, owned, restore), sweep + 7) by {
            lemma_ends_later(disable_unserved(ids, false, restore), sweep + 6, sweep + 7);
            let m = DisableState::ToldServer { ids, restore };
            assert forall|reply: Reply<Seq<char>>|
                ends_within(#[trigger] m.next(reply), sweep + 6) by {}
        }
        lemma_bind_ends(
            removal_flow(terminal),
            |run| DisableState::Server { ids, restore, run },
            |owned: bool| disable_server(ids, owned, restore),
            4,
            sweep + 7,
        );
        assert(ends_within(disable_told(ids, restore), sweep + 11));
        let m = DisableState::ToldRestore { ids, restore };
        assert forall|reply: Reply<Seq<char>>|
            ends_within(#[trigger] m.next(reply), sweep + 11) by {}
    }
    lemma_bind_ends(
        restore_flow(),
        |run| DisableState::Restoring { ids, run },
        |restore: Restore| disable_restored(ids, restore),
        11,
        sweep + 12,
    );
}

proof fn lemma_unserved_ends(ids: Ids, removed: bool, restore: Restore)
    ensures
        ends_within(disable_unserved(ids, removed, restore), 6 * ids.iids.len() + 13),
{
    let fallback = server_removal(
        WEZTERM_TERMHOST_FALLBACK_CONSOLE_CLSID@,
    );
    lemma_proxy_stub_ends(ids.iids, ids.clsid);
    lemma_removal_ends(fallback);
    assert forall|owned: bool| ends_within(#[trigger] fallback_removed(owned), 1) by {
        reveal_with_fuel(ends_within, 2);
    }
    lemma_bind_ends(
        removal_flow(fallback),
        |m| RemoveFallback::<Seq<char>, Steps>::Removing(m),
        |owned: bool| fallback_removed(owned),
        4,
        1,
    );
    assert(ends_within(disable_finish(removed, restore), 1)) by {
        reveal_with_fuel(ends_within, 2);
    }
    lemma_bind_ends(
        remove_fallback_flow(),
        |run| DisableState::Fallback { removed, restore, run },
        |u: ()| disable_finish(removed, restore),
        5,
        1,
    );
    assert(ends_within(disable_unproxied(removed, restore), 6));
    lemma_bind_ends(
        proxy_stub_flow(ids.iids, ids.clsid),
        |run| DisableState::Proxy { removed, restore, run },
        |u: ()| disable_unproxied(removed, restore),
        6 * ids.iids.len() + 7,
        6,
    );
}

} // verus!
