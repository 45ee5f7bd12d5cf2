//! Which servers are found, written and removed, and what the system is asked for
//! on the way.

use crate::error::{Context, Error, Task};
use crate::machine::{
    goes, lemma_goes_bind, BundleFile, Flow, Profile, Request, Script, ScriptRun, Steps,
};
use crate::model::Model;
use crate::registration::detect::{
    any_server_after, any_server_flow, brand_clsids, channel_clsids, clsid_server_exists,
    find_below, find_clsid_server_path, find_flow, host_checked, host_flow, hosts_model,
    is_wt_installed, known_hosts, read_local_server_exe, wt_brand_openconsole_clsids, AnyServer,
    FindServer, HostServes, KnownHost, ReadServer, ServerExists,
};
use crate::registration::fallback::{
    fallback_found, fallback_missing, fallback_owned, fallback_resolved, fallback_write,
    foreign_flow, foreign_server_is_registered, owned_path_flow, path_equality, path_letters,
    read_wezterm_owned_path, register_openconsole_fallback, resolve_above, resolve_flow,
    FallbackRun, FindForeign, ReadOwnedPath, RegisterFallback,
};
use crate::registration::fallback_laws::{
    any_server_is_enough, bundled_file, existing_server_is_found, fallback_is_registered,
    other_host_present, present_exe, user_server_comes_first,
};
use crate::registration::ownership::{
    class_after, inproc_removal, ownership_flow, proxy_class_removal,
    register_local_server_for_clsid, removal_flow, sweep_flow, unregister_local_server_for_clsid,
    ProxyStubState, Removal, RemoveOwned, RemoveProxyStub,
};
use crate::registration::selection_laws::{failed_to, fault};
use crate::registry::{Edit, Key, Reply, Root, ValueName};
use crate::text::{
    all_white, exe_token, is_white_space, lemma_bare_token, lemma_blank_token, lemma_quoted_token,
    same_ignoring_ascii_case,
};
use crate::world::{number_at, run, text_at, World};
use vstd::prelude::*;

verus! {

// ---------------------------------------------------------------------------
// What a value names
// ---------------------------------------------------------------------------

/// Whether a value is white space, then a path, then anything: the path in quotes
/// with none inside, or without white space and followed by some, where it may
/// begin with a quote that is never closed. White space alone has an empty path.
pub open spec fn spelled_as(
    value: Seq<char>,
    before: Seq<char>,
    path: Seq<char>,
    rest: Seq<char>,
) -> bool {
    &&& all_white(before)
    &&& {
        ||| value == before + (seq!['"'] + path + seq!['"']) + rest && !path.contains('"')
        ||| {
            &&& value == before + path + rest
            &&& path.len() > 0
            &&& forall|i: int| 0 <= i < path.len() ==> !is_white_space(#[trigger] path[i])
            &&& rest.len() > 0 ==> is_white_space(rest[0])
            &&& path[0] != '"' || (!path.skip(1).contains('"') && !rest.contains('"'))
        }
        ||| value == before && path.len() == 0
    }
}

/// Whether a value names an executable.
pub open spec fn names(value: Seq<char>, path: Seq<char>) -> bool {
    exists|before: Seq<char>, rest: Seq<char>| #[trigger] spelled_as(value, before, path, rest)
}

pub proof fn lemma_names(value: Seq<char>, path: Seq<char>)
    requires
        names(value, path),
    ensures
        exe_token(value) == path,
{
    let (before, rest) = choose|before: Seq<char>, rest: Seq<char>| #[trigger]
        spelled_as(value, before, path, rest);
    if value == before + (seq!['"'] + path + seq!['"']) + rest && !path.contains('"') {
        lemma_quoted_token(before, path, rest);
    } else if value == before && path.len() == 0 {
        lemma_blank_token(value);
        assert(path =~= seq![]);
    } else {
        lemma_bare_token(before, path, rest);
    }
}

/// A path in quotes names the path.
pub proof fn lemma_quoted_names(path: Seq<char>)
    requires
        !path.contains('"'),
    ensures
        names(seq!['"'] + path + seq!['"'], path),
{
    let value = seq!['"'] + path + seq!['"'];
    assert(value =~= Seq::<char>::empty() + (seq!['"'] + path + seq!['"']) + Seq::<char>::empty());
    assert(spelled_as(value, seq![], path, seq![]));
}

// ---------------------------------------------------------------------------
// Finding a server
// ---------------------------------------------------------------------------

/// Whether a registry root names an executable for a class that is on disk.
pub open spec fn serves(w: World, root: Root, clsid: Seq<char>, path: Seq<char>) -> bool {
    &&& text_at(w.hive(root), Key::LocalServer(clsid), ValueName::Default) is Some
    &&& names(text_at(w.hive(root), Key::LocalServer(clsid), ValueName::Default)->0, path)
    &&& path.len() > 0
    &&& w.files.contains(path)
}

/// Whether a registry root has no server for a class, or one that is gone.
pub open spec fn serves_not(w: World, root: Root, clsid: Seq<char>) -> bool {
    match text_at(w.hive(root), Key::LocalServer(clsid), ValueName::Default) {
        None => true,
        Some(value) => exists|path: Seq<char>| #[trigger]
            names(value, path) && (path.len() == 0 || !w.files.contains(path)),
    }
}

/// The server of a class is the executable that the user's registry names, if it
/// is on disk, else the one that the machine's names, if that is. Asking whether
/// there is one says yes exactly then.
pub proof fn server_on_disk_is_found(
    w: World,
    clsid: &str,
    path: Seq<char>,
    find: Flow<String, FindServer<String>, Option<String>>,
    ask: Flow<String, ServerExists<String>, bool>,
)
    requires
        call_ensures(find_clsid_server_path, (clsid,), find),
        call_ensures(clsid_server_exists, (clsid,), ask),
    ensures
        serves(w, Root::CurrentUser, clsid@, path) || (serves_not(w, Root::CurrentUser, clsid@)
            && serves(w, Root::LocalMachine, clsid@, path)) ==> {
            &&& run(find.model(), w, 6) == Some((Some(path), w))
            &&& run(ask.model(), w, 6) == Some((true, w))
        },
        serves_not(w, Root::CurrentUser, clsid@) && serves_not(w, Root::LocalMachine, clsid@) ==> {
            &&& run(find.model(), w, 6) == Some((None::<Seq<char>>, w))
            &&& run(ask.model(), w, 6) == Some((false, w))
        },
{
    user_server_comes_first(w, clsid@);
    existing_server_is_found(w, clsid@);
    lemma_serves(w, Root::CurrentUser, clsid@, path);
    lemma_serves(w, Root::LocalMachine, clsid@, path);
}

proof fn lemma_serves(w: World, root: Root, clsid: Seq<char>, path: Seq<char>)
    ensures
        serves(w, root, clsid, path) ==> present_exe(w, root, clsid) == Some(path),
        serves_not(w, root, clsid) ==> present_exe(w, root, clsid) is None,
{
    let value = text_at(w.hive(root), Key::LocalServer(clsid), ValueName::Default);
    if serves(w, root, clsid, path) {
        lemma_names(value->0, path);
    }
    if serves_not(w, root, clsid) && value is Some {
        let p = choose|p: Seq<char>| #[trigger]
            names(value->0, p) && (p.len() == 0 || !w.files.contains(p));
        lemma_names(value->0, p);
    }
}

/// The server below one root is what its value names, on disk or not.
pub proof fn named_server_is_read(
    w: World,
    root: Root,
    clsid: &str,
    path: Seq<char>,
    read: Flow<String, ReadServer<String>, Option<String>>,
)
    requires
        call_ensures(read_local_server_exe, (root, clsid), read),
    ensures
        text_at(w.hive(root), Key::LocalServer(clsid@), ValueName::Default) is None ==> run(
            read.model(),
            w,
            2,
        ) == Some((None::<Seq<char>>, w)),
        text_at(w.hive(root), Key::LocalServer(clsid@), ValueName::Default) is Some && names(
            text_at(w.hive(root), Key::LocalServer(clsid@), ValueName::Default)->0,
            path,
        ) ==> run(read.model(), w, 2) == Some(
            (
                if path.len() == 0 {
                    None
                } else {
                    Some(path)
                },
                w,
            ),
        ),
{
    reveal_with_fuel(run, 3);
    let value = text_at(w.hive(root), Key::LocalServer(clsid@), ValueName::Default);
    if value is Some && names(value->0, path) {
        lemma_names(value->0, path);
    }
}

/// A server that cannot be read is none, whatever the reason, and one that is not
/// on disk is passed over. The user's registry is asked first.
pub proof fn unreadable_server_is_passed_over(
    c: Seq<char>,
    value: Seq<char>,
    path: Seq<char>,
    nf: bool,
    also: bool,
    why: Seq<char>,
    there: bool,
)
    requires
        names(value, path),
        path.len() > 0,
    ensures
        goes(
            find_flow(c),
            seq![
                Request::OpenRead(Root::CurrentUser, Key::LocalServer(c)),
                Request::OpenRead(Root::LocalMachine, Key::LocalServer(c)),
            ],
            seq![fault(nf, why), fault(also, why)],
            None,
        ),
        goes(
            find_flow(c),
            seq![
                Request::OpenRead(Root::CurrentUser, Key::LocalServer(c)),
                Request::GetString(Root::CurrentUser, Key::LocalServer(c), ValueName::Default),
                Request::PathExists(path),
            ],
            seq![Reply::Done, Reply::Text(value), Reply::Flag(true)],
            Some(path),
        ),
        goes(
            find_flow(c),
            seq![
                Request::OpenRead(Root::CurrentUser, Key::LocalServer(c)),
                Request::GetString(Root::CurrentUser, Key::LocalServer(c), ValueName::Default),
                Request::OpenRead(Root::LocalMachine, Key::LocalServer(c)),
                Request::GetString(Root::LocalMachine, Key::LocalServer(c), ValueName::Default),
                Request::PathExists(path),
            ],
            seq![
                Reply::Done,
                fault(nf, why),
                Reply::Done,
                Reply::Text(value),
                Reply::Flag(there),
            ],
            if there {
                Some(path)
            } else {
                None
            },
        ),
{
    lemma_names(value, path);
    reveal_with_fuel(goes, 6);
}

// ---------------------------------------------------------------------------
// Windows Terminal
// ---------------------------------------------------------------------------

/// The four channels of Windows Terminal are known, each by its class.
pub proof fn channels_are_known(hosts: Vec<KnownHost>, classes: Vec<String>)
    requires
        call_ensures(known_hosts, (), hosts),
        call_ensures(wt_brand_openconsole_clsids, (), classes),
    ensures
        hosts@.len() == 4,
        classes@.len() == 4,
        forall|i: int|
            0 <= i < 4 ==> (#[trigger] hosts@[i]).console_clsid@ == classes@[i]@,
        hosts@[0].id@ == "wt-release"@,
        hosts@[1].id@ == "wt-preview"@,
        hosts@[2].id@ == "wt-canary"@,
        hosts@[3].id@ == "wt-dev"@,
        classes@[0]@ == "{2EACA947-7F5F-4CFA-BA87-8F7FBEEFBE69}"@,
        classes@[1]@ == "{06EC847C-C0A5-46B8-92CB-7C92F6E35CD5}"@,
        classes@[2]@ == "{A854D02A-F2FE-44A5-BB24-D03F4CF830D4}"@,
        classes@[3]@ == "{1F9F2BF5-5BC3-4F17-B0E6-912413F1F451}"@,
{
    lemma_brand();
    let all = channel_clsids();
    let model = hosts_model(hosts@);
    assert(model.len() == 4);
    assert forall|i: int| 0 <= i < 4 implies #[trigger] model[i] == (
        hosts@[i].id@,
        hosts@[i].console_clsid@,
    ) by {}
    assert(model[0] == all[0] && model[1] == all[1] && model[2] == all[2] && model[3] == all[3]);
    let brands = brand_clsids(all);
    assert(classes.model().len() == 4);
    assert forall|i: int| 0 <= i < 4 implies #[trigger] classes.model()[i] == classes@[i]@ by {}
    assert(classes@[0]@ == brands[0] && classes@[1]@ == brands[1]);
    assert(classes@[2]@ == brands[2] && classes@[3]@ == brands[3]);
}

proof fn lemma_brand()
    ensures
        brand_clsids(channel_clsids()) == seq![
            "{2EACA947-7F5F-4CFA-BA87-8F7FBEEFBE69}"@,
            "{06EC847C-C0A5-46B8-92CB-7C92F6E35CD5}"@,
            "{A854D02A-F2FE-44A5-BB24-D03F4CF830D4}"@,
            "{1F9F2BF5-5BC3-4F17-B0E6-912413F1F451}"@,
        ],
{
    reveal_with_fuel(brand_clsids, 5);
    reveal_strlit("wt-");
    reveal_strlit("wt-release");
    reveal_strlit("wt-preview");
    reveal_strlit("wt-canary");
    reveal_strlit("wt-dev");
    assert("wt-"@ =~= "wt-release"@.subrange(0, 3));
    assert("wt-"@ =~= "wt-preview"@.subrange(0, 3));
    assert("wt-"@ =~= "wt-canary"@.subrange(0, 3));
    assert("wt-"@ =~= "wt-dev"@.subrange(0, 3));
    let all = channel_clsids();
    assert(all.drop_last().last() == all[2]);
    assert(all.drop_last().drop_last().last() == all[1]);
    assert(all.drop_last().drop_last().drop_last().last() == all[0]);
    assert(all.drop_last().drop_last().drop_last().drop_last().len() == 0);
    assert(brand_clsids(all) =~= seq![all[0].1, all[1].1, all[2].1, all[3].1]);
}

/// Windows Terminal counts as installed exactly if one of its channels has a
/// server on disk: in the machine's registry, or in the user's without the
/// marker of this terminal. The question changes nothing.
pub proof fn any_channel_is_enough(
    w: World,
    ask: Flow<String, AnyServer<String, Vec<String>>, bool>,
)
    requires
        call_ensures(is_wt_installed, (), ask),
    ensures
        run(ask.model(), w, 32) == Some(
            (
                {
                    ||| other_host_present(w, "{2EACA947-7F5F-4CFA-BA87-8F7FBEEFBE69}"@)
                    ||| other_host_present(w, "{06EC847C-C0A5-46B8-92CB-7C92F6E35CD5}"@)
                    ||| other_host_present(w, "{A854D02A-F2FE-44A5-BB24-D03F4CF830D4}"@)
                    ||| other_host_present(w, "{1F9F2BF5-5BC3-4F17-B0E6-912413F1F451}"@)
                },
                w,
            ),
        ),
{
    lemma_brand();
    let clsids = brand_clsids(channel_clsids());
    any_server_is_enough(w, clsids);
    let any = exists|i: int| 0 <= i < clsids.len() && other_host_present(w, #[trigger] clsids[i]);
    assert(other_host_present(w, clsids[0]) ==> any);
    assert(other_host_present(w, clsids[1]) ==> any);
    assert(other_host_present(w, clsids[2]) ==> any);
    assert(other_host_present(w, clsids[3]) ==> any);
}

/// A class that is on disk for the machine is served by another host, whatever
/// the user's registry says. What the user's registry names counts unless it
/// carries the marker 1.
pub proof fn marker_tells_hosts_apart(w: World, clsid: Seq<char>, path: Seq<char>)
    ensures
        serves(w, Root::LocalMachine, clsid, path) ==> other_host_present(w, clsid),
        serves(w, Root::CurrentUser, clsid, path) && number_at(
            w.user,
            Key::Clsid(clsid),
            ValueName::Owned,
        ) != Some(1u32) ==> other_host_present(w, clsid),
        serves_not(w, Root::LocalMachine, clsid) && (serves_not(w, Root::CurrentUser, clsid)
            || number_at(w.user, Key::Clsid(clsid), ValueName::Owned) == Some(1u32))
            ==> !other_host_present(w, clsid),
{
    lemma_serves(w, Root::CurrentUser, clsid, path);
    lemma_serves(w, Root::LocalMachine, clsid, path);
}

// ---------------------------------------------------------------------------
// Registering and removing a server
// ---------------------------------------------------------------------------

/// A key is this terminal's exactly if it can be opened and its marker reads 1.
pub proof fn marker_has_to_be_read(
    key: Key<Seq<char>>,
    n: u32,
    nf: bool,
    why: Seq<char>,
    text: Seq<char>,
)
    ensures
        ({
            let ask = seq![
                Request::OpenRead(Root::CurrentUser, key),
                Request::GetDword(Root::CurrentUser, key, ValueName::Owned),
            ];
            &&& goes(ownership_flow(key), ask, seq![Reply::Done, Reply::Number(n)], n == 1)
            &&& goes(ownership_flow(key), ask, seq![Reply::Done, fault(nf, why)], false)
            &&& goes(ownership_flow(key), ask, seq![Reply::Done, Reply::Text(text)], false)
            &&& goes(ownership_flow(key), ask.take(1), seq![fault(nf, why)], false)
        }),
{
    reveal_with_fuel(goes, 3);
}

/// The requests that register an executable for a class.
pub open spec fn server_requests(clsid: Seq<char>, exe: Seq<char>) -> Seq<Request<Seq<char>>> {
    seq![
        Request::Edit(Edit::CreateKey(Key::Clsid(clsid))),
        Request::Edit(
            Edit::SetString(
                Key::Clsid(clsid),
                ValueName::Default,
                "WezTerm Default Terminal Handoff"@,
            ),
        ),
        Request::Edit(Edit::CreateKey(Key::LocalServer(clsid))),
        Request::Edit(
            Edit::SetString(
                Key::LocalServer(clsid),
                ValueName::Default,
                seq!['"'] + exe + seq!['"'],
            ),
        ),
        Request::Edit(Edit::SetDword(Key::Clsid(clsid), ValueName::Owned, 1)),
    ]
}

/// What registering a server fails with, by the request that fails.
pub open spec fn server_error(clsid: Seq<char>, n: int, why: Seq<char>) -> Error<Seq<char>> {
    if n == 0 {
        Error { context: Context::CreateKey(Key::Clsid(clsid)), cause: why }
    } else if n == 1 {
        failed_to(Task::WriteServerName, why)
    } else if n == 2 {
        failed_to(Task::CreateLocalServer, why)
    } else if n == 3 {
        failed_to(Task::WriteLocalServer, why)
    } else {
        failed_to(Task::WriteOwnedMarker, why)
    }
}

/// Registering a server writes its class, its executable in quotes and the marker
/// in this order. The first request that fails is the last, and the error says
/// which it was.
pub proof fn server_is_written_in_order(
    clsid: &str,
    exe: &str,
    begun: Flow<String, ScriptRun<String, Script>, Result<(), Error<String>>>,
    n: int,
    nf: bool,
    why: Seq<char>,
)
    requires
        call_ensures(register_local_server_for_clsid, (clsid, exe), begun),
        0 <= n < 5,
    ensures
        goes(
            begun.model(),
            server_requests(clsid@, exe@),
            seq![Reply::Done, Reply::Done, Reply::Done, Reply::Done, Reply::Done],
            Ok(()),
        ),
        goes(
            begun.model(),
            server_requests(clsid@, exe@).take(n + 1),
            Seq::new(n as nat, |i: int| Reply::<Seq<char>>::Done).push(fault(nf, why)),
            Err(server_error(clsid@, n, why)),
        ),
{
    reveal_with_fuel(goes, 6);
    assert(n == 0 || n == 1 || n == 2 || n == 3 || n == 4);
}

/// Removing a server asks for the marker first. It deletes the server and then
/// the class where the marker reads 1, whatever comes of the deletions, and
/// nothing anywhere else.
pub proof fn server_is_removed_by_its_marker(
    clsid: &str,
    begun: Flow<String, RemoveOwned<String, Script>, bool>,
    n: u32,
    one: Reply<Seq<char>>,
    two: Reply<Seq<char>>,
    nf: bool,
    why: Seq<char>,
)
    requires
        call_ensures(unregister_local_server_for_clsid, (clsid,), begun),
    ensures
        ({
            let c = clsid@;
            let ask = seq![
                Request::OpenRead(Root::CurrentUser, Key::Clsid(c)),
                Request::GetDword(Root::CurrentUser, Key::Clsid(c), ValueName::Owned),
            ];
            let delete = seq![
                Request::Edit(Edit::DeleteChild(Key::LocalServer(c))),
                Request::Edit(Edit::DeleteKey(Key::Clsid(c))),
            ];
            &&& goes(
                begun.model(),
                ask + delete,
                seq![Reply::Done, Reply::Number(1), one, two],
                true,
            )
            &&& n != 1 ==> goes(begun.model(), ask, seq![Reply::Done, Reply::Number(n)], false)
            &&& goes(begun.model(), ask, seq![Reply::Done, fault(nf, why)], false)
            &&& goes(begun.model(), ask.take(1), seq![fault(nf, why)], false)
        }),
{
    reveal_with_fuel(goes, 5);
}

// ---------------------------------------------------------------------------
// The fallback
// ---------------------------------------------------------------------------

/// The requests that register the bundled file.
pub open spec fn fallback_requests(bundled: Seq<char>) -> Seq<Request<Seq<char>>> {
    let clsid = "{2EACA947-7F5F-4CFA-BA87-8F7FBEEFBE69}"@;
    seq![
        Request::Edit(Edit::CreateKey(Key::Clsid(clsid))),
        Request::Edit(
            Edit::SetString(
                Key::Clsid(clsid),
                ValueName::Default,
                "WezTerm-bundled OpenConsole (Microsoft MIT-licensed)"@,
            ),
        ),
        Request::Edit(Edit::SetDword(Key::Clsid(clsid), ValueName::Owned, 1)),
        Request::Edit(Edit::CreateKey(Key::LocalServer(clsid))),
        Request::Edit(
            Edit::SetString(
                Key::LocalServer(clsid),
                ValueName::Default,
                seq!['"'] + bundled + seq!['"'],
            ),
        ),
    ]
}

/// What registering the bundled file fails with, by the request that fails.
pub open spec fn fallback_error(n: int, why: Seq<char>) -> Error<Seq<char>> {
    if n == 0 {
        Error {
            context: Context::CreateKey(Key::Clsid("{2EACA947-7F5F-4CFA-BA87-8F7FBEEFBE69}"@)),
            cause: why,
        }
    } else if n == 1 {
        failed_to(Task::WriteClassName, why)
    } else if n == 2 {
        failed_to(Task::WriteOwnedMarker, why)
    } else if n == 3 {
        failed_to(Task::CreateLocalServer, why)
    } else {
        failed_to(Task::WriteLocalServer, why)
    }
}

/// Registering the bundled file writes the class and the marker before the
/// server, so that whatever is half written is known as this terminal's own. The
/// first request that fails is the last, and the error says which it was.
pub proof fn fallback_is_written_in_order(bundled: Seq<char>, n: int, nf: bool, why: Seq<char>)
    requires
        0 <= n < 5,
    ensures
        goes(
            fallback_write(bundled),
            fallback_requests(bundled),
            seq![Reply::Done, Reply::Done, Reply::Done, Reply::Done, Reply::Done],
            Ok(()),
        ),
        goes(
            fallback_write(bundled),
            fallback_requests(bundled).take(n + 1),
            Seq::new(n as nat, |i: int| Reply::<Seq<char>>::Done).push(fault(nf, why)),
            Err(fallback_error(n, why)),
        ),
{
    reveal_with_fuel(goes, 6);
    assert(n == 0 || n == 1 || n == 2 || n == 3 || n == 4);
}

/// Whether nothing changed but the name and marker of a class and its server.
pub open spec fn differs_only_at_class(w: World, after: World, clsid: Seq<char>) -> bool {
    &&& after == (World { user: after.user, ..w })
    &&& forall|k: Key<Seq<char>>| #![trigger after.user.contains_key(k)]
        k != Key::Clsid(clsid) && k != Key::LocalServer(clsid) ==> (after.user.contains_key(k)
            <==> w.user.contains_key(k)) && (w.user.contains_key(k) ==> after.user[k] == w.user[k])
    &&& forall|k: Key<Seq<char>>, n: ValueName|
        #![trigger text_at(after.user, k, n)]
        #![trigger number_at(after.user, k, n)]
        n != ValueName::Default && !(k == Key::Clsid(clsid) && n == ValueName::Owned) ==> text_at(
            after.user,
            k,
            n,
        ) == text_at(w.user, k, n) && number_at(after.user, k, n) == number_at(w.user, k, n)
}

/// Whether the bundled file is registered for the console class, with the marker.
pub open spec fn bundled_is_registered(after: World, bundled: Seq<char>) -> bool {
    let clsid = "{2EACA947-7F5F-4CFA-BA87-8F7FBEEFBE69}"@;
    &&& text_at(after.user, Key::LocalServer(clsid), ValueName::Default) == Some(
        seq!['"'] + bundled + seq!['"'],
    )
    &&& number_at(after.user, Key::Clsid(clsid), ValueName::Owned) == Some(1u32)
    &&& text_at(after.user, Key::Clsid(clsid), ValueName::Default) == Some(
        "WezTerm-bundled OpenConsole (Microsoft MIT-licensed)"@,
    )
}

/// The bundled file is registered as console host where there is no server, and
/// where this terminal's own leads to another path or is gone. A server that
/// someone else registered for the user stays, on disk or not, and so does one on
/// disk for the machine, and this terminal's own if it leads to the bundled file,
/// in whatever spelling. A marker other than 0 makes a registration this
/// terminal's own.
pub proof fn fallback_fills_a_gap(
    w: World,
    begun: Flow<String, FallbackRun, Result<(), Error<String>>>,
    bundled: Seq<char>,
    path: Seq<char>,
    other: Seq<char>,
)
    requires
        call_ensures(register_openconsole_fallback, (), begun),
        bundled_file(w) == Some(bundled),
    ensures
        ({
            let clsid = "{2EACA947-7F5F-4CFA-BA87-8F7FBEEFBE69}"@;
            let value = text_at(w.user, Key::LocalServer(clsid), ValueName::Default);
            let marker = number_at(w.user, Key::Clsid(clsid), ValueName::Owned);
            let ours = marker is Some && marker->0 != 0;
            let fuel = (17 + 3 * w.ancestors->0) as nat;
            &&& run(begun.model(), w, fuel) matches Some((r, after)) && {
                &&& r is Ok
                // No server for the user, and none on disk for the machine.
                &&& value is None && serves_not(w, Root::LocalMachine, clsid) ==> {
                    &&& bundled_is_registered(after, bundled)
                    &&& differs_only_at_class(w, after, clsid)
                }
                // This terminal's own is gone.
                &&& ours && serves_not(w, Root::CurrentUser, clsid) && serves_not(
                    w,
                    Root::LocalMachine,
                    clsid,
                ) ==> {
                    &&& bundled_is_registered(after, bundled)
                    &&& differs_only_at_class(w, after, clsid)
                }
                // This terminal's own leads elsewhere.
                &&& ours && serves(w, Root::CurrentUser, clsid, path) && path != bundled && !(
                path_equality(path, bundled) && same_ignoring_ascii_case(
                    path_letters(path),
                    path_letters(bundled),
                )) ==> {
                    &&& bundled_is_registered(after, bundled)
                    &&& differs_only_at_class(w, after, clsid)
                }
                // This terminal's own leads to the bundled file.
                &&& ours && serves(w, Root::CurrentUser, clsid, bundled) ==> after == w
                &&& ours && serves(w, Root::CurrentUser, clsid, path) && path_equality(
                    path,
                    bundled,
                ) && same_ignoring_ascii_case(path_letters(path), path_letters(bundled)) ==> after
                    == w
                // Someone else's for the user.
                &&& !ours && w.user.contains_key(Key::Clsid(clsid)) && value is Some && names(
                    value->0,
                    path,
                ) && path.len() > 0 ==> after == w
                // One on disk for the machine.
                &&& !ours && serves(w, Root::LocalMachine, clsid, other) ==> after == w
            }
        }),
{
    let clsid = "{2EACA947-7F5F-4CFA-BA87-8F7FBEEFBE69}"@;
    let value = text_at(w.user, Key::LocalServer(clsid), ValueName::Default);
    fallback_is_registered(w, w.ancestors->0);
    lemma_serves(w, Root::CurrentUser, clsid, path);
    lemma_serves(w, Root::CurrentUser, clsid, bundled);
    lemma_serves(w, Root::LocalMachine, clsid, other);
    if value is Some && names(value->0, path) {
        lemma_names(value->0, path);
    }
    if value is Some && names(value->0, bundled) {
        lemma_names(value->0, bundled);
    }
}

/// Without a bundled file there is nothing to register, and nothing changes.
pub proof fn no_file_no_fallback(
    w: World,
    ancestors: u32,
    begun: Flow<String, FallbackRun, Result<(), Error<String>>>,
)
    requires
        call_ensures(register_openconsole_fallback, (), begun),
        w.ancestors == Some(ancestors) || w.ancestors is None,
        bundled_file(w) is None,
    ensures
        run(begun.model(), w, (17 + 3 * ancestors) as nat) == Some(
            (Ok::<(), Error<Seq<char>>>(()), w),
        ),
{
    fallback_is_registered(w, ancestors);
}

/// The requests that look up what this terminal registered for a class.
pub open spec fn own_requests(c: Seq<char>) -> Seq<Request<Seq<char>>> {
    seq![
        Request::OpenRead(Root::CurrentUser, Key::Clsid(c)),
        Request::GetDword(Root::CurrentUser, Key::Clsid(c), ValueName::Owned),
        Request::OpenRead(Root::CurrentUser, Key::LocalServer(c)),
        Request::GetString(Root::CurrentUser, Key::LocalServer(c), ValueName::Default),
    ]
}

/// What this terminal registered for a class is what the class names, if its
/// marker reads a number other than 0 and its server can be read.
pub proof fn own_server_needs_its_marker(
    clsid: &str,
    begun: Flow<String, ReadOwnedPath<String>, Option<String>>,
    n: u32,
    value: Seq<char>,
    path: Seq<char>,
    nf: bool,
    why: Seq<char>,
)
    requires
        call_ensures(read_wezterm_owned_path, (clsid,), begun),
        names(value, path),
    ensures
        ({
            let ask = own_requests(clsid@);
            &&& n != 0 ==> goes(
                begun.model(),
                ask,
                seq![Reply::Done, Reply::Number(n), Reply::Done, Reply::Text(value)],
                Some(path),
            )
            &&& goes(begun.model(), ask.take(2), seq![Reply::Done, Reply::Number(0)], None)
            &&& goes(begun.model(), ask.take(2), seq![Reply::Done, fault(nf, why)], None)
            &&& goes(begun.model(), ask.take(1), seq![fault(nf, why)], None)
            &&& n != 0 ==> goes(
                begun.model(),
                ask.take(3),
                seq![Reply::Done, Reply::Number(n), fault(nf, why)],
                None,
            )
            &&& n != 0 ==> goes(
                begun.model(),
                ask,
                seq![Reply::Done, Reply::Number(n), Reply::Done, fault(nf, why)],
                None,
            )
        }),
{
    lemma_names(value, path);
    reveal_with_fuel(goes, 5);
}

/// Someone else registered a server for a class exactly if the class can be
/// opened, its marker does not read a number other than 0, and it names a server,
/// on disk or not.
pub proof fn foreign_server_names_a_path(
    clsid: &str,
    begun: Flow<String, FindForeign<String>, bool>,
    n: u32,
    value: Seq<char>,
    path: Seq<char>,
    nf: bool,
    why: Seq<char>,
)
    requires
        call_ensures(foreign_server_is_registered, (clsid,), begun),
        names(value, path),
    ensures
        ({
            let ask = own_requests(clsid@);
            &&& goes(
                begun.model(),
                ask,
                seq![Reply::Done, fault(nf, why), Reply::Done, Reply::Text(value)],
                path.len() > 0,
            )
            &&& goes(
                begun.model(),
                ask,
                seq![Reply::Done, Reply::Number(0), Reply::Done, Reply::Text(value)],
                path.len() > 0,
            )
            &&& goes(begun.model(), ask.take(1), seq![fault(nf, why)], false)
            &&& n != 0 ==> goes(
                begun.model(),
                ask.take(2),
                seq![Reply::Done, Reply::Number(n)],
                false,
            )
            &&& goes(
                begun.model(),
                ask.take(3),
                seq![Reply::Done, fault(nf, why), fault(nf, why)],
                false,
            )
            &&& goes(
                begun.model(),
                ask,
                seq![Reply::Done, fault(nf, why), Reply::Done, fault(nf, why)],
                false,
            )
        }),
{
    lemma_names(value, path);
    reveal_with_fuel(goes, 5);
}

/// Whatever the system answers, the fallback registration goes by three answers:
/// the bundled file, whether the console class has a server on disk, and then
/// whose that is or whether someone else registered one that is not. It writes
/// only where nothing of anyone else's is in the way.
pub proof fn fallback_goes_by_its_answers(
    begun: Flow<String, FallbackRun, Result<(), Error<String>>>,
    q1: Seq<Request<Seq<char>>>,
    r1: Seq<Reply<Seq<char>>>,
    bundled: Seq<char>,
    q2: Seq<Request<Seq<char>>>,
    r2: Seq<Reply<Seq<char>>>,
    found: Option<Seq<char>>,
    q3: Seq<Request<Seq<char>>>,
    r3: Seq<Reply<Seq<char>>>,
    ours: Option<Seq<char>>,
    foreign: bool,
    q4: Seq<Request<Seq<char>>>,
    r4: Seq<Reply<Seq<char>>>,
    written: Result<(), Error<Seq<char>>>,
)
    requires
        call_ensures(register_openconsole_fallback, (), begun),
        goes(fallback_write(bundled), q4, r4, written),
    ensures
        ({
            let clsid = "{2EACA947-7F5F-4CFA-BA87-8F7FBEEFBE69}"@;
            let reaches = goes(resolve_flow(), q1, r1, Some(bundled)) && goes(
                find_flow(clsid),
                q2,
                r2,
                found,
            );
            let owner = found is Some && goes(owned_path_flow(clsid), q3, r3, ours);
            let other = found is None && goes(foreign_flow(clsid), q3, r3, foreign);
            &&& goes(resolve_flow(), q1, r1, None) ==> goes(begun.model(), q1, r1, Ok(()))
            &&& reaches && owner && (ours is None || ours == Some(bundled) || (path_equality(
                ours->0,
                bundled,
            ) && same_ignoring_ascii_case(path_letters(ours->0), path_letters(bundled)))) ==> goes(
                begun.model(),
                q1 + (q2 + q3),
                r1 + (r2 + r3),
                Ok(()),
            )
            &&& reaches && owner && ours is Some && ours != Some(bundled) && !(path_equality(
                ours->0,
                bundled,
            ) && same_ignoring_ascii_case(path_letters(ours->0), path_letters(bundled))) ==> goes(
                begun.model(),
                q1 + (q2 + (q3 + q4)),
                r1 + (r2 + (r3 + r4)),
                written,
            )
            &&& reaches && other && foreign ==> goes(
                begun.model(),
                q1 + (q2 + q3),
                r1 + (r2 + r3),
                Ok(()),
            )
            &&& reaches && other && !foreign ==> goes(
                begun.model(),
                q1 + (q2 + (q3 + q4)),
                r1 + (r2 + (r3 + r4)),
                written,
            )
        }),
{
    let clsid = "{2EACA947-7F5F-4CFA-BA87-8F7FBEEFBE69}"@;
    let start = |m| RegisterFallback::<Seq<char>, Steps>::Resolving(m);
    let then = |bundled: Option<Seq<char>>| fallback_resolved(bundled);
    assert(goes(fallback_resolved(None), seq![], seq![], Ok(())));
    assert(q1 + seq![] =~= q1);
    assert(r1 + seq![] =~= r1);
    if goes(resolve_flow(), q1, r1, None) {
        lemma_goes_bind(resolve_flow(), start, then, q1, r1, None, seq![], seq![], Ok(()));
    }
    assert(q3 + seq![] =~= q3);
    assert(r3 + seq![] =~= r3);
    if goes(resolve_flow(), q1, r1, Some(bundled)) && goes(find_flow(clsid), q2, r2, found) {
        let finding = |find| RegisterFallback::<Seq<char>, Steps>::Finding { bundled, find };
        let after = |existing: Option<Seq<char>>| fallback_found(bundled, existing is Some);
        if found is Some && goes(owned_path_flow(clsid), q3, r3, ours) {
            let reading = |read| RegisterFallback::<Seq<char>, Steps>::Owner { bundled, read };
            let compared = |ours: Option<Seq<char>>| fallback_owned(bundled, ours);
            if ours is None || ours == Some(bundled) || (path_equality(ours->0, bundled)
                && same_ignoring_ascii_case(path_letters(ours->0), path_letters(bundled))) {
                assert(goes(fallback_owned(bundled, ours), seq![], seq![], Ok(())));
                lemma_goes_bind(
                    owned_path_flow(clsid),
                    reading,
                    compared,
                    q3,
                    r3,
                    ours,
                    seq![],
                    seq![],
                    Ok(()),
                );
                lemma_goes_bind(find_flow(clsid), finding, after, q2, r2, found, q3, r3, Ok(()));
                lemma_goes_bind(
                    resolve_flow(),
                    start,
                    then,
                    q1,
                    r1,
                    Some(bundled),
                    q2 + q3,
                    r2 + r3,
                    Ok(()),
                );
            } else {
                lemma_goes_bind(
                    owned_path_flow(clsid),
                    reading,
                    compared,
                    q3,
                    r3,
                    ours,
                    q4,
                    r4,
                    written,
                );
                lemma_goes_bind(
                    find_flow(clsid),
                    finding,
                    after,
                    q2,
                    r2,
                    found,
                    q3 + q4,
                    r3 + r4,
                    written,
                );
                lemma_goes_bind(
                    resolve_flow(),
                    start,
                    then,
                    q1,
                    r1,
                    Some(bundled),
                    q2 + (q3 + q4),
                    r2 + (r3 + r4),
                    written,
                );
            }
        }
        if found is None && goes(foreign_flow(clsid), q3, r3, foreign) {
            let asking = |question| RegisterFallback::<Seq<char>, Steps>::Foreign {
                bundled,
                question,
            };
            let decided = |foreign: bool| fallback_missing(bundled, foreign);
            let q5: Seq<Request<Seq<char>>> = if foreign {
                seq![]
            } else {
                q4
            };
            let r5: Seq<Reply<Seq<char>>> = if foreign {
                seq![]
            } else {
                r4
            };
            let end: Result<(), Error<Seq<char>>> = if foreign {
                Ok(())
            } else {
                written
            };
            assert(goes(fallback_missing(bundled, foreign), q5, r5, end));
            lemma_goes_bind(
                foreign_flow(clsid),
                asking,
                decided,
                q3,
                r3,
                foreign,
                q5,
                r5,
                end,
            );
            lemma_goes_bind(
                find_flow(clsid),
                finding,
                after,
                q2,
                r2,
                found,
                q3 + q5,
                r3 + r5,
                end,
            );
            lemma_goes_bind(
                resolve_flow(),
                start,
                then,
                q1,
                r1,
                Some(bundled),
                q2 + (q3 + q5),
                r2 + (r3 + r5),
                end,
            );
        }
    }
}

/// The search for the bundled file ends with the first file that is found, next
/// to the executable or in the build output at the nearest level, there the debug
/// build before the release build. A file that is not found, for whatever reason,
/// is passed over, and so is a level without build output. Above the last
/// directory there is nothing.
pub proof fn bundled_file_is_searched_upwards(
    level: u32,
    ancestors: u32,
    path: Seq<char>,
    nf: bool,
    why: Seq<char>,
    q: Seq<Request<Seq<char>>>,
    r: Seq<Reply<Seq<char>>>,
    end: Option<Seq<char>>,
)
    requires
        level < ancestors,
        goes(resolve_above((level + 1) as u32, ancestors), q, r, end),
    ensures
        ({
            let up = (level + 1) as u32;
            let target = Request::<Seq<char>>::TargetDir(up);
            let debug = Request::<Seq<char>>::FindBundled(
                BundleFile::Built { level: up, profile: Profile::Debug },
            );
            let release = Request::<Seq<char>>::FindBundled(
                BundleFile::Built { level: up, profile: Profile::Release },
            );
            let here = resolve_above(level, ancestors);
            let none = fault(nf, why);
            &&& goes(
                here,
                seq![target, debug],
                seq![Reply::Flag(true), Reply::Text(path)],
                Some(path),
            )
            &&& goes(
                here,
                seq![target, debug, release],
                seq![Reply::Flag(true), none, Reply::Text(path)],
                Some(path),
            )
            &&& goes(
                here,
                seq![target, debug, release] + q,
                seq![Reply::Flag(true), none, none] + r,
                end,
            )
            &&& goes(here, seq![target] + q, seq![Reply::Flag(false)] + r, end)
        }),
{
    reveal_with_fuel(goes, 4);
    let up = (level + 1) as u32;
    let target = Request::<Seq<char>>::TargetDir(up);
    let debug = Request::<Seq<char>>::FindBundled(
        BundleFile::Built { level: up, profile: Profile::Debug },
    );
    let release = Request::<Seq<char>>::FindBundled(
        BundleFile::Built { level: up, profile: Profile::Release },
    );
    let none = fault(nf, why);
    let qa = seq![target] + q;
    let ra = seq![Reply::Flag(false)] + r;
    assert(qa.skip(1) =~= q);
    assert(ra.skip(1) =~= r);
    let qb = seq![target, debug, release] + q;
    let rb = seq![Reply::Flag(true), none, none] + r;
    assert(qb.skip(1).skip(1).skip(1) =~= q);
    assert(rb.skip(1).skip(1).skip(1) =~= r);
    assert(qb.skip(1)[0] == debug && qb.skip(1).skip(1)[0] == release);
    assert(rb.skip(1)[0] == none && rb.skip(1).skip(1)[0] == none);
}

/// Where the search for the bundled file begins and ends.
pub proof fn bundled_file_is_searched_from_the_executable(
    ancestors: u32,
    path: Seq<char>,
    nf: bool,
    why: Seq<char>,
    q: Seq<Request<Seq<char>>>,
    r: Seq<Reply<Seq<char>>>,
    end: Option<Seq<char>>,
)
    requires
        goes(resolve_above(0, ancestors), q, r, end),
    ensures
        goes(resolve_above(ancestors, ancestors), seq![], seq![], None),
        goes(resolve_flow(), seq![Request::ExeAncestors], seq![fault(nf, why)], None),
        goes(
            resolve_flow(),
            seq![Request::ExeAncestors, Request::FindBundled(BundleFile::Beside)],
            seq![Reply::Number(ancestors), Reply::Text(path)],
            Some(path),
        ),
        goes(
            resolve_flow(),
            seq![Request::ExeAncestors, Request::FindBundled(BundleFile::Beside)] + q,
            seq![Reply::Number(ancestors), fault(nf, why)] + r,
            end,
        ),
{
    reveal_with_fuel(goes, 3);
    let qa = seq![Request::ExeAncestors, Request::FindBundled(BundleFile::Beside)] + q;
    let ra = seq![Reply::Number(ancestors), fault(nf, why)] + r;
    assert(qa.skip(1).skip(1) =~= q);
    assert(ra.skip(1).skip(1) =~= r);
    assert(qa.skip(1)[0] == Request::<Seq<char>>::FindBundled(BundleFile::Beside));
    assert(ra.skip(1)[0] == fault(nf, why));
}

/// Asking whether another host serves a class asks for the marker first. With it
/// only the machine's registry is looked at, without it the user's before it.
pub proof fn other_host_is_asked_by_marker(
    c: Seq<char>,
    q1: Seq<Request<Seq<char>>>,
    r1: Seq<Reply<Seq<char>>>,
    owned: bool,
    q2: Seq<Request<Seq<char>>>,
    r2: Seq<Reply<Seq<char>>>,
    found: Option<Seq<char>>,
)
    requires
        goes(ownership_flow(Key::Clsid(c)), q1, r1, owned),
        owned ==> goes(find_below(Root::LocalMachine, c), q2, r2, found),
        !owned ==> goes(find_flow(c), q2, r2, found),
    ensures
        goes(host_flow(c), q1 + q2, r1 + r2, found is Some),
{
    let search = if owned {
        find_below(Root::LocalMachine, c)
    } else {
        find_flow(c)
    };
    let last = |path: Option<Seq<char>>|
        Flow::<Seq<char>, HostServes<Seq<char>>, bool>::Done(path is Some);
    assert(goes(last(found), seq![], seq![], found is Some));
    lemma_goes_bind(
        search,
        |find| HostServes::<Seq<char>>::Finding(find),
        last,
        q2,
        r2,
        found,
        seq![],
        seq![],
        found is Some,
    );
    assert(q2 + seq![] =~= q2);
    assert(r2 + seq![] =~= r2);
    lemma_goes_bind(
        ownership_flow(Key::Clsid(c)),
        |check| HostServes::Checking { clsid: c, check },
        |owned: bool| host_checked(c, owned),
        q1,
        r1,
        owned,
        q2,
        r2,
        found is Some,
    );
}

/// The first class that another host serves settles the question for all.
pub proof fn first_served_class_settles_it(
    clsids: Seq<Seq<char>>,
    q1: Seq<Request<Seq<char>>>,
    r1: Seq<Reply<Seq<char>>>,
    served: bool,
    q2: Seq<Request<Seq<char>>>,
    r2: Seq<Reply<Seq<char>>>,
    rest: bool,
)
    requires
        clsids.len() > 0,
        goes(host_flow(clsids[0]), q1, r1, served),
        goes(any_server_flow(clsids.skip(1)), q2, r2, rest),
    ensures
        served ==> goes(any_server_flow(clsids), q1, r1, true),
        !served ==> goes(any_server_flow(clsids), q1 + q2, r1 + r2, rest),
        goes(any_server_flow(seq![]), seq![], seq![], false),
{
    let more = clsids.skip(1);
    let wrap = |current| AnyServer { current, rest: more };
    let cont = |found: bool| any_server_after(found, more);
    if served {
        assert(goes(any_server_after(true, more), seq![], seq![], true));
        lemma_goes_bind(
            host_flow(clsids[0]),
            wrap,
            cont,
            q1,
            r1,
            served,
            seq![],
            seq![],
            true,
        );
        assert(q1 + seq![] =~= q1);
        assert(r1 + seq![] =~= r1);
    } else {
        lemma_goes_bind(host_flow(clsids[0]), wrap, cont, q1, r1, served, q2, r2, rest);
    }
}

/// Removing the proxy/stub goes from one removal to the next, whatever comes of
/// each, and then to the class. The in-process server is seen to for itself only
/// where the class is not this terminal's.
pub proof fn proxy_stub_is_removed_piece_by_piece(
    jobs: Seq<Removal<Seq<char>, Steps>>,
    c: Seq<char>,
    q1: Seq<Request<Seq<char>>>,
    r1: Seq<Reply<Seq<char>>>,
    owned: bool,
    q2: Seq<Request<Seq<char>>>,
    r2: Seq<Reply<Seq<char>>>,
    any: bool,
)
    ensures
        jobs.len() > 0 && goes(removal_flow(jobs[0]), q1, r1, any) && goes(
            sweep_flow(jobs.skip(1), c),
            q2,
            r2,
            (),
        ) ==> goes(sweep_flow(jobs, c), q1 + q2, r1 + r2, ()),
        goes(removal_flow(proxy_class_removal(c)), q1, r1, true) ==> goes(
            sweep_flow(seq![], c),
            q1,
            r1,
            (),
        ),
        goes(removal_flow(proxy_class_removal(c)), q1, r1, false) && goes(
            removal_flow(inproc_removal(c)),
            q2,
            r2,
            any,
        ) ==> goes(sweep_flow(seq![], c), q1 + q2, r1 + r2, ()),
{
    let rest = jobs.skip(1);
    if jobs.len() > 0 && goes(removal_flow(jobs[0]), q1, r1, any) && goes(
        sweep_flow(rest, c),
        q2,
        r2,
        (),
    ) {
        lemma_goes_bind(
            removal_flow(jobs[0]),
            |current| RemoveProxyStub::Interfaces { current, rest, clsid: c },
            |owned: bool| sweep_flow(rest, c),
            q1,
            r1,
            any,
            q2,
            r2,
            (),
        );
    }
    let wrap = |current| RemoveProxyStub::<
        Seq<char>,
        Steps,
        Seq<Removal<Seq<char>, Steps>>,
    >::Class { current, clsid: c };
    let cont = |owned: bool| class_after(owned, c);
    let none: Seq<Removal<Seq<char>, Steps>> = seq![];
    assert(none.len() == 0);
    if goes(removal_flow(proxy_class_removal(c)), q1, r1, true) {
        assert(goes(class_after(true, c), seq![], seq![], ()));
        lemma_goes_bind(
            removal_flow(proxy_class_removal(c)),
            wrap,
            cont,
            q1,
            r1,
            true,
            seq![],
            seq![],
            (),
        );
        assert(q1 + seq![] =~= q1);
        assert(r1 + seq![] =~= r1);
    }
    if goes(removal_flow(proxy_class_removal(c)), q1, r1, false) && goes(
        removal_flow(inproc_removal(c)),
        q2,
        r2,
        any,
    ) {
        let last = |owned: bool| Flow::<Seq<char>, ProxyStubState, ()>::Done(());
        assert(goes(last(any), seq![], seq![], ()));
        lemma_goes_bind(
            removal_flow(inproc_removal(c)),
            |current| RemoveProxyStub::<
                Seq<char>,
                Steps,
                Seq<Removal<Seq<char>, Steps>>,
            >::InProc(current),
            last,
            q2,
            r2,
            any,
            seq![],
            seq![],
            (),
        );
        assert(q2 + seq![] =~= q2);
        assert(r2 + seq![] =~= r2);
        lemma_goes_bind(
            removal_flow(proxy_class_removal(c)),
            wrap,
            cont,
            q1,
            r1,
            false,
            q2,
            r2,
            (),
        );
    }
}

} // verus!
