//! What the searches find, and what becomes of the fallback registration.

use crate::error::Error;
use crate::machine::{asked, script_flow, BundleFile, Flow, Profile, Steps};
use crate::registration::detect::{
    any_server_after, any_server_flow, exists_flow, find_after, find_below, find_elsewhere,
    find_flow, host_checked, host_flow, read_server_flow, server_exe, AnyServer, FindServer,
    HostServes, ServerExists,
};
use crate::registration::fallback::{
    claims_ownership, fallback_flow, fallback_found, fallback_missing, fallback_owned,
    fallback_resolved, fallback_steps, fallback_write, foreign_flow, owned_path_flow,
    resolve_above, resolve_built, resolve_flow, same_place, FallbackState, FindForeign,
    RegisterFallback, ResolveBundled,
};
use crate::registration::ownership::ownership_flow;
use crate::registration::ownership_laws::{is_owned, lemma_run_check, with_server};
use crate::registration::WEZTERM_TERMHOST_FALLBACK_CONSOLE_CLSID;
use crate::registry::{Key, Reply, Root, ValueName};
use crate::text::{exe_token, quoted_path_reads_back};
use crate::world::{
    after_steps, lemma_more_fuel, lemma_run_bind, lemma_run_script, number_at, run, steps_succeed,
    text_at, World,
};
use vstd::prelude::*;

verus! {

// ---------------------------------------------------------------------------
// Servers
// ---------------------------------------------------------------------------

/// The executable registered for a class below a registry root.
pub open spec fn registered_exe(w: World, root: Root, clsid: Seq<char>) -> Option<Seq<char>> {
    match text_at(w.hive(root), Key::LocalServer(clsid), ValueName::Default) {
        Some(v) => server_exe(Ok(v)),
        None => None,
    }
}

/// The same, if it exists on disk.
pub open spec fn present_exe(w: World, root: Root, clsid: Seq<char>) -> Option<Seq<char>> {
    match registered_exe(w, root, clsid) {
        Some(path) => if w.files.contains(path) {
            Some(path)
        } else {
            None
        },
        None => None,
    }
}

/// The server of a class: the user's if it exists on disk, else the machine's if
/// that does.
pub open spec fn present_server(w: World, clsid: Seq<char>) -> Option<Seq<char>> {
    match present_exe(w, Root::CurrentUser, clsid) {
        Some(path) => Some(path),
        None => present_exe(w, Root::LocalMachine, clsid),
    }
}

proof fn lemma_run_read(w: World, root: Root, clsid: Seq<char>)
    ensures
        run(read_server_flow(root, clsid), w, 2) == Some((registered_exe(w, root, clsid), w)),
{
    reveal_with_fuel(run, 3);
}

proof fn lemma_run_find_below(w: World, root: Root, clsid: Seq<char>, rest: nat)
    requires
        run(find_elsewhere(root, clsid), w, rest) is Some,
    ensures
        run(find_below(root, clsid), w, 3 + rest) == (match present_exe(w, root, clsid) {
            Some(path) => Some((Some(path), w)),
            None => run(find_elsewhere(root, clsid), w, rest),
        }),
{
    let exe = registered_exe(w, root, clsid);
    lemma_run_read(w, root, clsid);
    lemma_more_fuel(find_elsewhere(root, clsid), w, rest, 1 + rest);
    assert(run(find_after(root, clsid, exe), w, 1 + rest) == (match present_exe(w, root, clsid) {
        Some(path) => Some((Some(path), w)),
        None => run(find_elsewhere(root, clsid), w, rest),
    })) by {
        reveal_with_fuel(run, 2);
    }
    lemma_run_bind(
        read_server_flow(root, clsid),
        |read| FindServer::Reading { root, clsid, read },
        |exe: Option<Seq<char>>| find_after(root, clsid, exe),
        w,
        2,
        1 + rest,
    );
}

/// The search for a server takes the user's registration before the machine's
/// and passes over what does not exist on disk. It changes nothing.
pub proof fn user_server_comes_first(w: World, clsid: Seq<char>)
    ensures
        run(find_flow(clsid), w, 6) == Some((present_server(w, clsid), w)),
{
    lemma_run_find_below(w, Root::LocalMachine, clsid, 0);
    lemma_run_find_below(w, Root::CurrentUser, clsid, 3);
}

/// Asking whether a class has a server says yes exactly if it has one on disk,
/// whoever registered it.
pub proof fn existing_server_is_found(w: World, clsid: Seq<char>)
    ensures
        run(exists_flow(clsid), w, 6) == Some((present_server(w, clsid) is Some, w)),
{
    user_server_comes_first(w, clsid);
    lemma_run_bind(
        find_flow(clsid),
        |find| ServerExists::<Seq<char>> { find },
        |path: Option<Seq<char>>|
            Flow::<Seq<char>, ServerExists<Seq<char>>, bool>::Done(path is Some),
        w,
        6,
        0,
    );
}

/// Whether another host serves a class: what this terminal registered for the
/// user does not count, what is registered for the machine does.
pub open spec fn other_host_present(w: World, clsid: Seq<char>) -> bool {
    if is_owned(w, Key::Clsid(clsid)) {
        present_exe(w, Root::LocalMachine, clsid) is Some
    } else {
        present_server(w, clsid) is Some
    }
}

/// Asking whether another host serves a class passes over this terminal's own
/// registration. It changes nothing.
pub proof fn own_server_does_not_count(w: World, clsid: Seq<char>)
    ensures
        run(host_flow(clsid), w, 8) == Some((other_host_present(w, clsid), w)),
{
    let owned = is_owned(w, Key::Clsid(clsid));
    let search = if owned {
        find_below(Root::LocalMachine, clsid)
    } else {
        find_flow(clsid)
    };
    user_server_comes_first(w, clsid);
    lemma_run_find_below(w, Root::LocalMachine, clsid, 0);
    lemma_more_fuel(find_below(Root::LocalMachine, clsid), w, 3, 6);
    lemma_run_bind(
        search,
        |find| HostServes::<Seq<char>>::Finding(find),
        |path: Option<Seq<char>>|
            Flow::<Seq<char>, HostServes<Seq<char>>, bool>::Done(path is Some),
        w,
        6,
        0,
    );
    assert(run(host_checked(clsid, owned), w, 6) == Some((other_host_present(w, clsid), w)));
    lemma_run_check(w, Key::Clsid(clsid));
    lemma_run_bind(
        ownership_flow(Key::Clsid(clsid)),
        |check| HostServes::Checking { clsid, check },
        |owned: bool| host_checked(clsid, owned),
        w,
        2,
        6,
    );
}

/// Asking whether another host serves any of several classes says yes exactly if
/// it serves one of them.
pub proof fn any_server_is_enough(w: World, clsids: Seq<Seq<char>>)
    ensures
        run(any_server_flow(clsids), w, 8 * clsids.len()) == Some(
            (
                exists|i: int|
                    0 <= i < clsids.len() && other_host_present(w, #[trigger] clsids[i]),
                w,
            ),
        ),
    decreases clsids.len(),
{
    if clsids.len() > 0 {
        let rest = clsids.skip(1);
        let here = other_host_present(w, clsids[0]);
        own_server_does_not_count(w, clsids[0]);
        any_server_is_enough(w, rest);
        let later = exists|i: int|
            0 <= i < rest.len() && other_host_present(w, #[trigger] rest[i]);
        let any = exists|i: int|
            0 <= i < clsids.len() && other_host_present(w, #[trigger] clsids[i]);
        assert(any == (here || later)) by {
            if later {
                let i = choose|i: int|
                    0 <= i < rest.len() && other_host_present(w, #[trigger] rest[i]);
                assert(clsids[i + 1] == rest[i]);
            }
            if any {
                let i = choose|i: int|
                    0 <= i < clsids.len() && other_host_present(w, #[trigger] clsids[i]);
                if i > 0 {
                    assert(rest[i - 1] == clsids[i]);
                }
            }
        }
        assert(run(any_server_after(here, rest), w, 8 * rest.len()) == Some((any, w)));
        lemma_run_bind(
            host_flow(clsids[0]),
            |current| AnyServer { current, rest },
            |found: bool| any_server_after(found, rest),
            w,
            8,
            8 * rest.len(),
        );
    }
}

// ---------------------------------------------------------------------------
// The bundled file
// ---------------------------------------------------------------------------

/// The bundled file in the build output at a level, the debug build first.
pub open spec fn built_at(w: World, level: u32) -> Option<Seq<char>> {
    let debug = BundleFile::Built { level, profile: Profile::Debug };
    let release = BundleFile::Built { level, profile: Profile::Release };
    if !w.target_dirs.contains(level) {
        None
    } else if w.bundled.contains_key(debug) {
        Some(w.bundled[debug])
    } else if w.bundled.contains_key(release) {
        Some(w.bundled[release])
    } else {
        None
    }
}

/// The bundled file in the nearest build output above `level`.
pub open spec fn nearest_build(w: World, level: u32, ancestors: u32) -> Option<Seq<char>>
    decreases ancestors - level,
{
    if level >= ancestors {
        None
    } else {
        match built_at(w, (level + 1) as u32) {
            Some(path) => Some(path),
            None => nearest_build(w, (level + 1) as u32, ancestors),
        }
    }
}

/// The bundled file: the one next to the executable, else the one in the
/// nearest build output.
pub open spec fn bundled_file(w: World) -> Option<Seq<char>> {
    match w.ancestors {
        Some(ancestors) => if w.bundled.contains_key(BundleFile::Beside) {
            Some(w.bundled[BundleFile::Beside])
        } else {
            nearest_build(w, 0, ancestors)
        },
        None => None,
    }
}

proof fn lemma_run_above(w: World, level: u32, ancestors: u32)
    requires
        level <= ancestors,
    ensures
        run(resolve_above(level, ancestors), w, (3 * (ancestors - level)) as nat) == Some(
            (nearest_build(w, level, ancestors), w),
        ),
    decreases ancestors - level,
{
    if level < ancestors {
        let up = (level + 1) as u32;
        let more = (3 * (ancestors - up)) as nat;
        lemma_run_above(w, up, ancestors);
        let above = resolve_above(up, ancestors);
        lemma_more_fuel(above, w, more, more + 1);
        lemma_more_fuel(above, w, more, more + 2);
        reveal_with_fuel(run, 4);
        let target = ResolveBundled::Target { level: up, ancestors };
        let debug = ResolveBundled::Built { level: up, ancestors, profile: Profile::Debug };
        let release = ResolveBundled::Built { level: up, ancestors, profile: Profile::Release };
        assert(run(resolve_built(up, ancestors, Profile::Release), w, more + 1) == (
        if w.bundled.contains_key(BundleFile::Built { level: up, profile: Profile::Release }) {
            Some(
                (
                    Some(w.bundled[BundleFile::Built { level: up, profile: Profile::Release }]),
                    w,
                ),
            )
        } else {
            run(above, w, more)
        }));
    }
}

/// The search for the bundled file finds the one next to the executable before
/// any other, then the one in the nearest build output, there the debug build
/// first. It changes nothing.
pub proof fn nearest_bundled_file_is_found(w: World, ancestors: u32)
    requires
        w.ancestors == Some(ancestors) || w.ancestors is None,
    ensures
        run(resolve_flow(), w, (2 + 3 * ancestors) as nat) == Some((bundled_file(w), w)),
{
    lemma_run_above(w, 0, ancestors);
    reveal_with_fuel(run, 3);
}

// ---------------------------------------------------------------------------
// The fallback registration
// ---------------------------------------------------------------------------

/// Whether a class of the user carries a marker that makes the fallback
/// registration take it for this terminal's own.
pub open spec fn claimed(w: World, clsid: Seq<char>) -> bool {
    claims_ownership(number_at(w.user, Key::Clsid(clsid), ValueName::Owned))
}

/// The executable that this terminal registered for a class.
pub open spec fn owned_exe(w: World, clsid: Seq<char>) -> Option<Seq<char>> {
    let value = text_at(w.user, Key::LocalServer(clsid), ValueName::Default);
    if claimed(w, clsid) && value is Some {
        Some(exe_token(value->0))
    } else {
        None
    }
}

/// The system with the bundled file registered.
pub open spec fn with_fallback(w: World, bundled: Seq<char>) -> World {
    World {
        user: with_server(
            w.user,
            WEZTERM_TERMHOST_FALLBACK_CONSOLE_CLSID@,
            "WezTerm-bundled OpenConsole (Microsoft MIT-licensed)"@,
            bundled,
        ),
        ..w
    }
}

/// Whether someone else registered a server for a class, for the user: the class
/// is there without the marker, and it names a server. Whether the server is on
/// disk does not matter.
pub open spec fn foreign_server(w: World, clsid: Seq<char>) -> bool {
    &&& w.user.contains_key(Key::Clsid(clsid))
    &&& !claimed(w, clsid)
    &&& registered_exe(w, Root::CurrentUser, clsid) is Some
}

/// The system after the fallback registration. It is written where there is no
/// server but possibly this terminal's own that is gone, and where this
/// terminal's own leads elsewhere.
pub open spec fn after_fallback(w: World) -> World {
    let clsid = WEZTERM_TERMHOST_FALLBACK_CONSOLE_CLSID@;
    match bundled_file(w) {
        Some(bundled) => if present_server(w, clsid) is None {
            if foreign_server(w, clsid) {
                w
            } else {
                with_fallback(w, bundled)
            }
        } else {
            match owned_exe(w, clsid) {
                Some(ours) => if same_place(ours, bundled) {
                    w
                } else {
                    with_fallback(w, bundled)
                },
                None => w,
            }
        },
        None => w,
    }
}

proof fn lemma_run_foreign(w: World, clsid: Seq<char>)
    ensures
        run(foreign_flow(clsid), w, 4) == Some((foreign_server(w, clsid), w)),
{
    lemma_run_read(w, Root::CurrentUser, clsid);
    lemma_run_bind(
        read_server_flow(Root::CurrentUser, clsid),
        |read| FindForeign::<Seq<char>>::Server(read),
        |exe: Option<Seq<char>>|
            Flow::<Seq<char>, FindForeign<Seq<char>>, bool>::Done(exe is Some),
        w,
        2,
        0,
    );
    reveal_with_fuel(run, 3);
}

proof fn lemma_run_owned(w: World, clsid: Seq<char>)
    ensures
        run(owned_path_flow(clsid), w, 4) == Some((owned_exe(w, clsid), w)),
{
    reveal_with_fuel(run, 5);
}

proof fn lemma_run_fallback_write(w: World, bundled: Seq<char>)
    ensures
        run(fallback_write(bundled), w, 5) == Some(
            (Ok::<(), Error<Seq<char>>>(()), with_fallback(w, bundled)),
        ),
{
    let steps = fallback_steps(bundled);
    let clsid = WEZTERM_TERMHOST_FALLBACK_CONSOLE_CLSID@;
    reveal_with_fuel(after_steps, 6);
    reveal_with_fuel(steps_succeed, 6);
    assert(steps.skip(1)[0] == steps[1]);
    assert(steps.skip(1).skip(1)[0] == steps[2]);
    assert(steps.skip(1).skip(1).skip(1)[0] == steps[3]);
    assert(steps.skip(1).skip(1).skip(1).skip(1)[0] == steps[4]);
    assert(steps.skip(1).skip(1).skip(1).skip(1).skip(1).len() == 0);
    lemma_run_script(w, steps);
    assert(after_steps(w, steps).user =~= with_fallback(w, bundled).user);
    lemma_run_bind(
        script_flow(steps),
        |run| RegisterFallback::<Seq<char>, Steps>::Writing(run),
        |r: Result<(), Error<Seq<char>>>|
            Flow::<Seq<char>, FallbackState, Result<(), Error<Seq<char>>>>::Done(r),
        w,
        5,
        0,
    );
}

proof fn lemma_run_fallback_found(w: World, bundled: Seq<char>)
    requires
        bundled_file(w) == Some(bundled),
    ensures
        run(
            fallback_found(
                bundled,
                present_server(w, WEZTERM_TERMHOST_FALLBACK_CONSOLE_CLSID@) is Some,
            ),
            w,
            9,
        ) == Some((Ok::<(), Error<Seq<char>>>(()), after_fallback(w))),
{
    let clsid = WEZTERM_TERMHOST_FALLBACK_CONSOLE_CLSID@;
    lemma_run_fallback_write(w, bundled);
    if present_server(w, clsid) is Some {
        lemma_run_owned(w, clsid);
        lemma_run_bind(
            owned_path_flow(clsid),
            |read| RegisterFallback::<Seq<char>, Steps>::Owner { bundled, read },
            |ours: Option<Seq<char>>| fallback_owned(bundled, ours),
            w,
            4,
            5,
        );
    } else {
        lemma_run_foreign(w, clsid);
        lemma_run_bind(
            foreign_flow(clsid),
            |question| RegisterFallback::<Seq<char>, Steps>::Foreign { bundled, question },
            |foreign: bool| fallback_missing(bundled, foreign),
            w,
            4,
            5,
        );
    }
}

/// The fallback registration always succeeds, and leaves the system as
/// [`after_fallback`] says.
pub proof fn fallback_is_registered(w: World, ancestors: u32)
    requires
        w.ancestors == Some(ancestors) || w.ancestors is None,
    ensures
        run(fallback_flow(), w, (17 + 3 * ancestors) as nat) == Some(
            (Ok::<(), Error<Seq<char>>>(()), after_fallback(w)),
        ),
{
    let clsid = WEZTERM_TERMHOST_FALLBACK_CONSOLE_CLSID@;
    nearest_bundled_file_is_found(w, ancestors);
    if bundled_file(w) is Some {
        let bundled = bundled_file(w)->0;
        user_server_comes_first(w, clsid);
        lemma_run_fallback_found(w, bundled);
        lemma_run_bind(
            find_flow(clsid),
            |find| RegisterFallback::<Seq<char>, Steps>::Finding { bundled, find },
            |existing: Option<Seq<char>>| fallback_found(bundled, existing is Some),
            w,
            6,
            9,
        );
    }
    lemma_run_bind(
        resolve_flow(),
        |m| RegisterFallback::<Seq<char>, Steps>::Resolving(m),
        |bundled: Option<Seq<char>>| fallback_resolved(bundled),
        w,
        (2 + 3 * ancestors) as nat,
        15,
    );
}

/// What this terminal did not register is left alone: where the user's registry
/// names a server for the console class without the marker, on disk or not, and
/// where a server is on disk that this terminal did not register, the fallback
/// registration changes nothing at all.
pub proof fn foreign_server_is_left_alone(w: World)
    requires
        !claimed(w, WEZTERM_TERMHOST_FALLBACK_CONSOLE_CLSID@),
        foreign_server(w, WEZTERM_TERMHOST_FALLBACK_CONSOLE_CLSID@) || present_server(
            w,
            WEZTERM_TERMHOST_FALLBACK_CONSOLE_CLSID@,
        ) is Some,
    ensures
        after_fallback(w) == w,
{
}

/// Whether the replies to the question about a server of someone else, as far as
/// they have come, show one.
pub open spec fn shows_foreign_server(replies: Seq<Reply<Seq<char>>>) -> bool {
    &&& replies.len() > 0 ==> replies[0].outcome() is Ok
    &&& replies.len() > 1 ==> !claims_ownership(replies[1].number())
    &&& replies.len() > 2 ==> replies[2].outcome() is Ok
    &&& replies.len() > 3 ==> server_exe(replies[3].text()) is Some
}

/// No edit is ever asked for where a server of someone else is registered:
/// whatever the replies are that show it, and whether its file was found or not,
/// the registry stays as it is.
pub proof fn foreign_server_is_never_edited(
    bundled: Seq<char>,
    found: bool,
    replies: Seq<Reply<Seq<char>>>,
)
    requires
        shows_foreign_server(replies),
    ensures
        forall|i: int|
            0 <= i < asked(fallback_found(bundled, found), replies).len() ==> !(
            #[trigger] asked(fallback_found(bundled, found), replies)[i] is Edit),
{
    reveal_with_fuel(asked, 5);
    if replies.len() > 1 {
        assert(replies.skip(1)[0] == replies[1]);
    }
    if replies.len() > 2 {
        assert(replies.skip(1).skip(1)[0] == replies[2]);
    }
    if replies.len() > 3 {
        assert(replies.skip(1).skip(1).skip(1)[0] == replies[3]);
    }
}

proof fn lemma_same_bundle(w: World, bundled: Seq<char>)
    ensures
        bundled_file(with_fallback(w, bundled)) == bundled_file(w),
{
    if w.ancestors is Some {
        lemma_same_builds(w, with_fallback(w, bundled), 0, w.ancestors->0);
    }
}

/// Registering the fallback twice is as good as registering it once.
pub proof fn fallback_is_registered_once(w: World)
    ensures
        after_fallback(after_fallback(w)) == after_fallback(w),
{
    let clsid = WEZTERM_TERMHOST_FALLBACK_CONSOLE_CLSID@;
    if bundled_file(w) is Some {
        let bundled = bundled_file(w)->0;
        let w2 = with_fallback(w, bundled);
        lemma_same_bundle(w, bundled);
        let again = with_fallback(w2, bundled);
        assert(again.user[Key::Clsid(clsid)] =~= w2.user[Key::Clsid(clsid)]);
        assert(again.user[Key::LocalServer(clsid)] =~= w2.user[Key::LocalServer(clsid)]);
        assert(again.user =~= w2.user);
    }
}

/// Once the fallback was registered, the console class has a server on disk,
/// unless someone else registered one that is not. This holds of every bundled
/// file that exists and whose path has no quote and is not empty.
pub proof fn registered_fallback_is_found(w: World, bundled: Seq<char>)
    requires
        bundled_file(w) == Some(bundled),
        w.files.contains(bundled),
        bundled.len() > 0,
        !bundled.contains('"'),
        !foreign_server(w, WEZTERM_TERMHOST_FALLBACK_CONSOLE_CLSID@),
    ensures
        present_server(after_fallback(w), WEZTERM_TERMHOST_FALLBACK_CONSOLE_CLSID@) is Some,
{
    quoted_path_reads_back(bundled);
    assert(present_server(
        with_fallback(w, bundled),
        WEZTERM_TERMHOST_FALLBACK_CONSOLE_CLSID@,
    ) == Some(bundled));
}

pub proof fn lemma_same_builds(w: World, w2: World, level: u32, ancestors: u32)
    requires
        w2.bundled == w.bundled,
        w2.target_dirs == w.target_dirs,
    ensures
        nearest_build(w2, level, ancestors) == nearest_build(w, level, ancestors),
    decreases ancestors - level,
{
    if level < ancestors {
        lemma_same_builds(w, w2, (level + 1) as u32, ancestors);
    }
}

} // verus!
