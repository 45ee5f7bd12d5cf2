//! What registration adds and removal takes away.

use crate::error::Error;
use crate::machine::{asked, script_flow, Flow, Request, Resumable, Steps};
use crate::registration::ownership::{
    all_interface_removals, class_after, class_flow, inproc_flow, inproc_removal,
    interface_removals, local_server_steps, ownership_flow, proxy_class_removal, proxy_stub_flow,
    removal_after,
    removal_flow, server_removal, sweep_flow, ProxyStubState, Removal,
    RemoveOwned, RemoveProxyStub,
};
use crate::registry::{Edit, Key, Reply, ValueName};
use crate::text::quoted;
use crate::world::{
    after_steps, has_children, lemma_run_bind, lemma_run_script, number_at,
    parent, run, steps_succeed, with_key, Hive, Value, World,
};
use vstd::prelude::*;

verus! {

/// Whether a key of the user carries the ownership marker.
pub open spec fn is_owned(w: World, key: Key<Seq<char>>) -> bool {
    number_at(w.user, key, ValueName::Owned) == Some(1u32)
}

pub proof fn lemma_run_check(w: World, key: Key<Seq<char>>)
    ensures
        run(ownership_flow(key), w, 2) == Some((is_owned(w, key), w)),
{
    reveal_with_fuel(run, 3);
}

/// Whether no edit of a list is fatal.
pub open spec fn lenient(steps: Steps) -> bool {
    forall|i: int| 0 <= i < steps.len() ==> (#[trigger] steps[i]).fatal is None
}

proof fn lemma_lenient_steps_succeed(w: World, steps: Steps)
    requires
        lenient(steps),
    ensures
        steps_succeed(w, steps),
    decreases steps.len(),
{
    if steps.len() > 0 {
        lemma_lenient_steps_succeed(w.after(Request::Edit(steps[0].edit)), steps.skip(1));
    }
}

/// The system after a guarded removal.
pub open spec fn removed(w: World, removal: Removal<Seq<char>, Steps>) -> World {
    if is_owned(w, removal.guard) {
        after_steps(w, removal.edits)
    } else {
        w
    }
}

/// A guarded removal carries out all of its edits if the guarding key carries
/// the marker, and changes nothing if it does not. Its result tells which.
pub proof fn removal_heeds_marker(w: World, removal: Removal<Seq<char>, Steps>)
    requires
        lenient(removal.edits),
    ensures
        run(removal_flow(removal), w, 2 + removal.edits.len()) == Some(
            (is_owned(w, removal.guard), removed(w, removal)),
        ),
{
    let edits = removal.edits;
    let owned = is_owned(w, removal.guard);
    lemma_run_check(w, removal.guard);
    if owned {
        lemma_lenient_steps_succeed(w, edits);
        lemma_run_script(w, edits);
        lemma_run_bind(
            script_flow(edits),
            |run| RemoveOwned::<Seq<char>, Steps>::Removing(run),
            |r: Result<(), Error<Seq<char>>>|
                Flow::<Seq<char>, RemoveOwned<Seq<char>, Steps>, bool>::Done(true),
            w,
            edits.len(),
            0,
        );
    }
    assert(run(removal_after(owned, edits), w, edits.len()) == Some((owned, removed(w, removal))));
    lemma_run_bind(
        ownership_flow(removal.guard),
        |check| RemoveOwned::Checking { check, edits },
        |owned: bool| removal_after(owned, edits),
        w,
        2,
        edits.len(),
    );
}

// ---------------------------------------------------------------------------
// Registering and unregistering a server
// ---------------------------------------------------------------------------

/// The hive with a class, its name and marker, and its local server.
pub open spec fn with_server(
    hive: Hive,
    clsid: Seq<char>,
    name: Seq<char>,
    exe: Seq<char>,
) -> Hive {
    let class = with_key(hive, Key::Clsid(clsid));
    let server = with_key(class, Key::LocalServer(clsid));
    server.insert(
        Key::Clsid(clsid),
        class[Key::Clsid(clsid)].insert(ValueName::Default, Value::Text(name)).insert(
            ValueName::Owned,
            Value::Number(1),
        ),
    ).insert(
        Key::LocalServer(clsid),
        server[Key::LocalServer(clsid)].insert(ValueName::Default, Value::Text(quoted(exe))),
    )
}

/// Registering a local server writes its name, its executable in quotes and the
/// marker, and nothing else.
pub proof fn registering_writes_server(w: World, clsid: Seq<char>, exe: Seq<char>)
    ensures
        run(script_flow(local_server_steps(clsid, exe)), w, 5) == Some(
            (
                Ok::<(), Error<Seq<char>>>(()),
                World {
                    user: with_server(w.user, clsid, "WezTerm Default Terminal Handoff"@, exe),
                    ..w
                },
            ),
        ),
{
    let steps = local_server_steps(clsid, exe);
    let name = "WezTerm Default Terminal Handoff"@;
    reveal_with_fuel(after_steps, 6);
    reveal_with_fuel(steps_succeed, 6);
    assert(steps.skip(1)[0] == steps[1]);
    assert(steps.skip(1).skip(1)[0] == steps[2]);
    assert(steps.skip(1).skip(1).skip(1)[0] == steps[3]);
    assert(steps.skip(1).skip(1).skip(1).skip(1)[0] == steps[4]);
    assert(steps.skip(1).skip(1).skip(1).skip(1).skip(1).len() == 0);
    lemma_run_script(w, steps);
    assert(after_steps(w, steps).user[Key::Clsid(clsid)] =~= with_server(
        w.user,
        clsid,
        name,
        exe,
    )[Key::Clsid(clsid)]);
    assert(after_steps(w, steps).user =~= with_server(w.user, clsid, name, exe));
}

proof fn lemma_children(hive: Hive, c: Seq<char>)
    ensures
        has_children(hive, Key::Clsid(c)) == (hive.contains_key(Key::LocalServer(c))
            || hive.contains_key(Key::InProcServer(c))),
        has_children(hive, Key::Interface(c)) == hive.contains_key(Key::ProxyStub(c)),
        !has_children(hive, Key::LocalServer(c)),
        !has_children(hive, Key::InProcServer(c)),
        !has_children(hive, Key::ProxyStub(c)),
{
    assert(parent(Key::<Seq<char>>::LocalServer(c)) == Some(Key::<Seq<char>>::Clsid(c)));
    assert(parent(Key::<Seq<char>>::InProcServer(c)) == Some(Key::<Seq<char>>::Clsid(c)));
    assert(parent(Key::<Seq<char>>::ProxyStub(c)) == Some(Key::<Seq<char>>::Interface(c)));
}

/// The hive without a class and its local server. Where something else lies
/// below the class, the class stays.
pub open spec fn without_server(hive: Hive, clsid: Seq<char>) -> Hive {
    let rest = hive.remove(Key::LocalServer(clsid));
    if hive.contains_key(Key::InProcServer(clsid)) {
        rest
    } else {
        rest.remove(Key::Clsid(clsid))
    }
}

/// Unregistering a server that carries the marker takes the class away together
/// with its local server, whatever values they have and whether there is a
/// local server or not. Only where something else lies below the class, the
/// class stays. Nothing else changes.
pub proof fn marked_server_goes(w: World, clsid: Seq<char>)
    requires
        is_owned(w, Key::Clsid(clsid)),
    ensures
        removed(w, server_removal(clsid)) == (World {
            user: without_server(w.user, clsid),
            ..w
        }),
        run(removal_flow(server_removal(clsid)), w, 4) == Some(
            (true, World { user: without_server(w.user, clsid), ..w }),
        ),
{
    let removal = server_removal(clsid);
    let edits = removal.edits;
    removal_heeds_marker(w, removal);
    reveal_with_fuel(after_steps, 3);
    assert(edits.skip(1)[0] == edits[1]);
    assert(edits.skip(1).skip(1).len() == 0);
    lemma_children(w.user, clsid);
    let w2 = w.after(Request::Edit(edits[0].edit));
    lemma_children(w2.user, clsid);
    assert(removed(w, removal).user =~= without_server(w.user, clsid));
}

/// Unregistering a server undoes registering it: where the class was not there
/// before, the system is the same as before.
pub proof fn unregistering_undoes_registering(w: World, clsid: Seq<char>, exe: Seq<char>)
    requires
        !w.user.contains_key(Key::Clsid(clsid)),
        !has_children(w.user, Key::Clsid(clsid)),
    ensures
        ({
            let registered = run(script_flow(local_server_steps(clsid, exe)), w, 5).unwrap().1;
            run(removal_flow(server_removal(clsid)), registered, 4) == Some((true, w))
        }),
{
    registering_writes_server(w, clsid, exe);
    let registered = run(script_flow(local_server_steps(clsid, exe)), w, 5).unwrap().1;
    lemma_children(w.user, clsid);
    marked_server_goes(registered, clsid);
    assert(without_server(registered.user, clsid) =~= w.user);
}

// ---------------------------------------------------------------------------
// Removing the proxy/stub
// ---------------------------------------------------------------------------

/// Whether a key or the key above it carries the marker.
pub open spec fn marked(w: World, key: Key<Seq<char>>) -> bool {
    ||| is_owned(w, key)
    ||| parent(key) matches Some(p) && is_owned(w, p)
}

/// From `w` to `w2` only marked keys were removed: nothing was added, changed or
/// told, and every other key is still there. The startup key stays in any case.
pub open spec fn only_marked_removed(w: World, w2: World) -> bool {
    &&& w2 == (World { user: w2.user, ..w })
    &&& forall|k: Key<Seq<char>>| #[trigger]
        w2.user.contains_key(k) ==> w.user.contains_key(k) && w2.user[k] == w.user[k]
    &&& forall|k: Key<Seq<char>>| #[trigger]
        w.user.contains_key(k) && (!marked(w, k) || k is Startup) ==> w2.user.contains_key(k)
}

pub proof fn lemma_only_marked_chain(w: World, w2: World, w3: World)
    requires
        only_marked_removed(w, w2),
        only_marked_removed(w2, w3),
    ensures
        only_marked_removed(w, w3),
{
    assert forall|k: Key<Seq<char>>| #[trigger]
        w.user.contains_key(k) && (!marked(w, k) || k is Startup) implies w3.user.contains_key(
        k,
    ) by {
        assert(w2.user.contains_key(k));
        assert(marked(w2, k) ==> marked(w, k));
    }
    assert forall|k: Key<Seq<char>>| #[trigger] w3.user.contains_key(k) implies w.user.contains_key(
        k,
    ) && w3.user[k] == w.user[k] by {
        assert(w2.user.contains_key(k));
    }
}

/// A removal whose edits delete the guarding key, which is not the startup key,
/// or keys below it.
pub open spec fn stays_below_guard(removal: Removal<Seq<char>, Steps>) -> bool {
    &&& lenient(removal.edits)
    &&& !(removal.guard is Startup)
    &&& forall|i: int|
        0 <= i < removal.edits.len() ==> match (#[trigger] removal.edits[i]).edit {
            Edit::DeleteChild(k) | Edit::DeleteKey(k) => k == removal.guard || parent(k) == Some(
                removal.guard,
            ),
            _ => false,
        }
}

proof fn lemma_deletions(w: World, w0: World, guard: Key<Seq<char>>, edits: Steps)
    requires
        is_owned(w0, guard),
        only_marked_removed(w0, w),
        stays_below_guard(Removal { guard, edits }),
    ensures
        only_marked_removed(w0, after_steps(w, edits)),
    decreases edits.len(),
{
    if edits.len() > 0 {
        let w2 = w.after(Request::Edit(edits[0].edit));
        assert(stays_below_guard(Removal { guard, edits: edits.skip(1) }));
        assert(only_marked_removed(w0, w2));
        lemma_deletions(w2, w0, guard, edits.skip(1));
    }
}

pub proof fn lemma_removed(w: World, removal: Removal<Seq<char>, Steps>)
    requires
        stays_below_guard(removal),
    ensures
        only_marked_removed(w, removed(w, removal)),
{
    assert(only_marked_removed(w, w));
    if is_owned(w, removal.guard) {
        lemma_deletions(w, w, removal.guard, removal.edits);
    }
}

/// The system after a list of guarded removals.
pub open spec fn all_removed(w: World, removals: Seq<Removal<Seq<char>, Steps>>) -> World
    decreases removals.len(),
{
    if removals.len() == 0 {
        w
    } else {
        all_removed(removed(w, removals[0]), removals.skip(1))
    }
}

/// The system after the removal of the proxy/stub class, or of its in-process
/// server where only that is owned.
pub open spec fn class_removed(w: World, clsid: Seq<char>) -> World {
    if is_owned(w, Key::Clsid(clsid)) {
        removed(w, proxy_class_removal(clsid))
    } else {
        removed(w, inproc_removal(clsid))
    }
}

/// The system after the removal of the proxy/stub.
pub open spec fn proxy_stub_removed(w: World, iids: Seq<Seq<char>>, clsid: Seq<char>) -> World {
    class_removed(all_removed(w, all_interface_removals(iids, iids.len())), clsid)
}

/// A list of removals each with one edit that stays below its guard.
pub open spec fn single_deletions(removals: Seq<Removal<Seq<char>, Steps>>) -> bool {
    forall|i: int|
        0 <= i < removals.len() ==> stays_below_guard(#[trigger] removals[i])
            && removals[i].edits.len() == 1
}

pub proof fn lemma_interface_removals(iids: Seq<Seq<char>>, n: nat)
    requires
        n <= iids.len(),
    ensures
        single_deletions(all_interface_removals(iids, n)),
        all_interface_removals(iids, n).len() == 2 * n,
    decreases n,
{
    if n > 0 {
        lemma_interface_removals(iids, (n - 1) as nat);
    }
}

proof fn lemma_run_class(w: World, clsid: Seq<char>)
    ensures
        run(class_flow(clsid), w, 7) == Some(((), class_removed(w, clsid))),
        only_marked_removed(w, class_removed(w, clsid)),
{
    let class = proxy_class_removal(clsid);
    let inproc = inproc_removal(clsid);
    lemma_removed(w, class);
    lemma_removed(w, inproc);
    removal_heeds_marker(w, class);
    let owned = is_owned(w, class.guard);
    let w2 = removed(w, class);
    if !owned {
        removal_heeds_marker(w, inproc);
        lemma_run_bind(
            removal_flow(inproc),
            |current| RemoveProxyStub::<
                Seq<char>,
                Steps,
                Seq<Removal<Seq<char>, Steps>>,
            >::InProc(current),
            |owned: bool| Flow::<Seq<char>, ProxyStubState, ()>::Done(()),
            w,
            3,
            0,
        );
        assert(run(inproc_flow(clsid), w, 3) == Some(((), class_removed(w, clsid))));
    }
    assert(run(class_after(owned, clsid), w2, 3) == Some(((), class_removed(w, clsid))));
    lemma_run_bind(
        removal_flow(class),
        |current| RemoveProxyStub::<Seq<char>, Steps, Seq<Removal<Seq<char>, Steps>>>::Class {
            current,
            clsid,
        },
        |owned: bool| class_after(owned, clsid),
        w,
        4,
        3,
    );
}

proof fn lemma_run_sweep(w: World, jobs: Seq<Removal<Seq<char>, Steps>>, clsid: Seq<char>)
    requires
        single_deletions(jobs),
    ensures
        run(sweep_flow(jobs, clsid), w, 3 * jobs.len() + 7) == Some(
            ((), class_removed(all_removed(w, jobs), clsid)),
        ),
        only_marked_removed(w, class_removed(all_removed(w, jobs), clsid)),
    decreases jobs.len(),
{
    if jobs.len() == 0 {
        lemma_run_class(w, clsid);
    } else {
        let rest = jobs.skip(1);
        let w2 = removed(w, jobs[0]);
        lemma_removed(w, jobs[0]);
        lemma_run_sweep(w2, rest, clsid);
        lemma_only_marked_chain(w, w2, class_removed(all_removed(w, jobs), clsid));
        removal_heeds_marker(w, jobs[0]);
        lemma_run_bind(
            removal_flow(jobs[0]),
            |current| RemoveProxyStub::Interfaces { current, rest, clsid },
            |owned: bool| sweep_flow(rest, clsid),
            w,
            3,
            3 * rest.len() + 7,
        );
    }
}

/// Whether a key belongs to the registration of the proxy/stub and goes when
/// that is removed.
///
/// A proxy/stub entry below an interface goes if it carries the marker. An
/// interface goes if it does, unless an unmarked proxy/stub entry is left below
/// it. The class goes if it carries the marker, unless a local server is left
/// below it. Its in-process server goes if it or the class carries the marker.
pub open spec fn goes_with_proxy_stub(
    w: World,
    iids: Seq<Seq<char>>,
    clsid: Seq<char>,
    key: Key<Seq<char>>,
) -> bool {
    match key {
        Key::ProxyStub(i) => iids.contains(i) && is_owned(w, key),
        Key::Interface(i) => iids.contains(i) && is_owned(w, key) && (w.user.contains_key(
            Key::ProxyStub(i),
        ) ==> is_owned(w, Key::ProxyStub(i))),
        Key::Clsid(c) => c == clsid && is_owned(w, key) && !w.user.contains_key(
            Key::LocalServer(c),
        ),
        Key::InProcServer(c) => c == clsid && (is_owned(w, key) || is_owned(w, Key::Clsid(c))),
        _ => false,
    }
}

/// The keys of a hive that a condition does not take away.
pub open spec fn spared(hive: Hive, goes: spec_fn(Key<Seq<char>>) -> bool) -> Hive {
    Map::new(|k: Key<Seq<char>>| hive.contains_key(k) && !goes(k), |k: Key<Seq<char>>| hive[k])
}

proof fn lemma_all_removed_in_parts(
    w: World,
    a: Seq<Removal<Seq<char>, Steps>>,
    b: Seq<Removal<Seq<char>, Steps>>,
)
    ensures
        all_removed(w, a + b) == all_removed(all_removed(w, a), b),
    decreases a.len(),
{
    if a.len() == 0 {
        assert(a + b =~= b);
    } else {
        assert((a + b).skip(1) =~= a.skip(1) + b);
        lemma_all_removed_in_parts(removed(w, a[0]), a.skip(1), b);
    }
}

proof fn lemma_interfaces_go(w: World, iids: Seq<Seq<char>>, clsid: Seq<char>, n: nat)
    requires
        n <= iids.len(),
    ensures
        all_removed(w, all_interface_removals(iids, n)) == (World {
            user: spared(
                w.user,
                |k: Key<Seq<char>>|
                    (k is ProxyStub || k is Interface) && goes_with_proxy_stub(
                        w,
                        iids.take(n as int),
                        clsid,
                        k,
                    ),
            ),
            ..w
        }),
    decreases n,
{
    let goes = |k: Key<Seq<char>>|
        (k is ProxyStub || k is Interface) && goes_with_proxy_stub(
            w,
            iids.take(n as int),
            clsid,
            k,
        );
    if n == 0 {
        assert(spared(w.user, goes) =~= w.user);
    } else {
        let m = (n - 1) as nat;
        let iid = iids[m as int];
        let pair = interface_removals(iid);
        let before = all_interface_removals(iids, m);
        let w1 = all_removed(w, before);
        lemma_interfaces_go(w, iids, clsid, m);
        lemma_all_removed_in_parts(w, before, pair);
        let w2 = removed(w1, pair[0]);
        let w3 = removed(w2, pair[1]);
        assert(pair.skip(1)[0] == pair[1]);
        assert(pair.skip(1).skip(1).len() == 0);
        reveal_with_fuel(all_removed, 3);
        assert(all_removed(w1, pair) == w3);
        reveal_with_fuel(after_steps, 2);
        assert(pair[0].edits.skip(1).len() == 0);
        assert(pair[1].edits.skip(1).len() == 0);
        lemma_children(w1.user, iid);
        lemma_children(w2.user, iid);
        assert forall|i: Seq<char>| #[trigger] iids.take(n as int).contains(i) == (iids.take(
            m as int,
        ).contains(i) || i == iid) by {
            let now = iids.take(n as int);
            let then = iids.take(m as int);
            if now.contains(i) {
                let j = now.index_of(i);
                if j < m {
                    assert(then[j] == i);
                }
            }
            if then.contains(i) {
                let j = then.index_of(i);
                assert(now[j] == i);
            }
            assert(now[m as int] == iid);
        }
        assert(w3.user =~= spared(w.user, goes));
    }
}

/// Removing the proxy/stub goes through every interface and the class. What
/// carries the marker goes, as [`goes_with_proxy_stub`] says; every other key
/// stays as it is, an unmarked proxy/stub entry below a marked interface among
/// them, and nothing else changes.
pub proof fn unmarked_entries_stay(w: World, iids: Seq<Seq<char>>, clsid: Seq<char>)
    ensures
        run(proxy_stub_flow(iids, clsid), w, 6 * iids.len() + 7) == Some(
            ((), proxy_stub_removed(w, iids, clsid)),
        ),
        proxy_stub_removed(w, iids, clsid) == (World {
            user: spared(
                w.user,
                |k: Key<Seq<char>>| goes_with_proxy_stub(w, iids, clsid, k),
            ),
            ..w
        }),
        only_marked_removed(w, proxy_stub_removed(w, iids, clsid)),
{
    let n = iids.len();
    lemma_interface_removals(iids, n);
    lemma_run_sweep(w, all_interface_removals(iids, n), clsid);
    let w1 = all_removed(w, all_interface_removals(iids, n));
    lemma_interfaces_go(w, iids, clsid, n);
    assert(iids.take(n as int) =~= iids);
    lemma_class_goes(w1, clsid);
    assert(is_owned(w1, Key::Clsid(clsid)) == is_owned(w, Key::Clsid(clsid)));
    assert(is_owned(w1, Key::InProcServer(clsid)) == is_owned(w, Key::InProcServer(clsid)));
    assert(proxy_stub_removed(w, iids, clsid).user =~= spared(
        w.user,
        |k: Key<Seq<char>>| goes_with_proxy_stub(w, iids, clsid, k),
    ));
}

proof fn lemma_class_goes(w: World, clsid: Seq<char>)
    ensures
        class_removed(w, clsid) == (World {
            user: spared(
                w.user,
                |k: Key<Seq<char>>| goes_with_proxy_stub(w, seq![], clsid, k),
            ),
            ..w
        }),
{
    let goes = |k: Key<Seq<char>>| goes_with_proxy_stub(w, seq![], clsid, k);
    let class = proxy_class_removal(clsid);
    let inproc = inproc_removal(clsid);
    reveal_with_fuel(after_steps, 3);
    assert(class.edits.skip(1)[0] == class.edits[1]);
    assert(class.edits.skip(1).skip(1).len() == 0);
    assert(inproc.edits.skip(1).len() == 0);
    lemma_children(w.user, clsid);
    let w2 = w.after(Request::Edit(class.edits[0].edit));
    lemma_children(w2.user, clsid);
    assert(class_removed(w, clsid).user =~= spared(w.user, goes));
}

// ---------------------------------------------------------------------------
// Without the marker
// ---------------------------------------------------------------------------

/// Whether an operation asks for no edit.
pub open spec fn edits_nothing(requests: Seq<Request<Seq<char>>>) -> bool {
    forall|i: int| 0 <= i < requests.len() ==> !((#[trigger] requests[i]) is Edit)
}

/// Whether none of the replies is the marker.
pub open spec fn marker_never_seen(replies: Seq<Reply<Seq<char>>>) -> bool {
    forall|i: int| 0 <= i < replies.len() ==> (#[trigger] replies[i]).number() != Some(1u32)
}

/// A removal that has not seen the marker yet.
pub open spec fn unarmed(m: ProxyStubState) -> bool {
    match m {
        RemoveProxyStub::Interfaces { current, .. } => current is Checking,
        RemoveProxyStub::Class { current, .. } => current is Checking,
        RemoveProxyStub::InProc(current) => current is Checking,
    }
}

proof fn lemma_unarmed(
    f: Flow<Seq<char>, ProxyStubState, ()>,
    replies: Seq<Reply<Seq<char>>>,
)
    requires
        marker_never_seen(replies),
        f is Ask ==> unarmed(f->Ask_1) && !(f->Ask_0 is Edit),
    ensures
        edits_nothing(asked(f, replies)),
    decreases replies.len(),
{
    if f is Ask && replies.len() > 0 {
        let g = f->Ask_1.next(replies[0]);
        assert(replies[0].number() != Some(1u32));
        assert(g is Ask ==> unarmed(g->Ask_1) && !(g->Ask_0 is Edit));
        lemma_unarmed(g, replies.skip(1));
    }
}

/// Whatever the system answers, nothing is deleted as long as no marker was
/// read: neither a failing check nor a foreign entry leads to an edit.
pub proof fn nothing_goes_without_marker(
    removal: Removal<Seq<char>, Steps>,
    iids: Seq<Seq<char>>,
    clsid: Seq<char>,
    replies: Seq<Reply<Seq<char>>>,
)
    requires
        marker_never_seen(replies),
    ensures
        edits_nothing(asked(removal_flow(removal), replies)),
        edits_nothing(asked(proxy_stub_flow(iids, clsid), replies)),
{
    let f = removal_flow(removal);
    if replies.len() > 0 {
        let r1 = replies.skip(1);
        let f1 = f->Ask_1.next(replies[0]);
        assert(replies[0].number() != Some(1u32));
        if f1 is Ask && r1.len() > 0 {
            assert(r1[0].number() != Some(1u32));
            assert(f1->Ask_1.next(r1[0]) is Done);
            assert(asked(f1->Ask_1.next(r1[0]), r1.skip(1)).len() == 0);
        }
        assert(edits_nothing(asked(f1, r1)));
    }
    lemma_unarmed(proxy_stub_flow(iids, clsid), replies);
}

} // verus!
