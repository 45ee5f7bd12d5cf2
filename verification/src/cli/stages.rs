//! How the commands are made of their stages, whatever the system answers.

use crate::cli::disable::{
    disable_finish, disable_flow, disable_restored, disable_server, disable_unproxied,
    fallback_removed, remove_fallback_flow, unregister_local_server_for_unpackaged, DisableState,
    Ids, ProxyIds, RemoveFallback, Restore,
};
use crate::cli::enable::{
    enable_backed, enable_captured, enable_flow, enable_proxied, enable_served, proxy_flow,
    proxy_without, self_flow, stage_flow, stage_registered, stage_resolved, EnableRun,
    FallbackStage, ProxyStage,
};
use crate::cli::{Command, CommandState, TerminalHostCommand};
use crate::error::{error_text, Context, Error, Task};
use crate::machine::{goes, lemma_goes_bind, Flow, Request, Resumable, Script, Steps};
use crate::model::Model;
use crate::notice::Notice;
use crate::registration::detect::{any_server_flow, brand_clsids, channel_clsids};
use crate::registration::fallback::{fallback_flow, resolve_flow};
use crate::registration::ownership::{
    proxy_stub_flow, removal_flow, server_removal, RemoveOwned,
};
use crate::registration::selection_laws::{failed_to, fault, pair_requests};
use crate::registration::server_laws::{server_error, server_requests};
use crate::registration::{
    capture_flow, restore_flow, WEZTERM_TERMHOST_FALLBACK_CONSOLE_CLSID,
    WEZTERM_TERMHOST_TERMINAL_CLSID,
};
use crate::registry::{Key, Reply, ValueName};
use vstd::prelude::*;

verus! {

/// What a stage may end with.
pub type Outcome = Result<(), Error<Seq<char>>>;

/// Requests.
pub type Requests = Seq<Request<Seq<char>>>;

/// Replies.
pub type Replies = Seq<Reply<Seq<char>>>;

/// The requests that make this terminal the default.
pub open spec fn takeover_requests() -> Requests {
    pair_requests(
        ValueName::DelegationConsole,
        "{2EACA947-7F5F-4CFA-BA87-8F7FBEEFBE69}"@,
        ValueName::DelegationTerminal,
        "{8B7D4E2A-3F5C-4D1B-9A6E-7C2B5F8D1E4A}"@,
    )
}

// ---------------------------------------------------------------------------
// The stages of enable
// ---------------------------------------------------------------------------

/// This terminal's server is the running executable, under this terminal's class.
/// Without its path nothing is written, and the first edit that fails is the
/// last.
pub proof fn running_executable_is_registered(exe: Seq<char>, n: int, nf: bool, why: Seq<char>)
    requires
        0 <= n < 5,
    ensures
        ({
            let write = server_requests("{8B7D4E2A-3F5C-4D1B-9A6E-7C2B5F8D1E4A}"@, exe);
            &&& goes(
                self_flow(),
                seq![Request::CurrentExe] + write,
                seq![
                    Reply::Text(exe),
                    Reply::Done,
                    Reply::Done,
                    Reply::Done,
                    Reply::Done,
                    Reply::Done,
                ],
                Ok(()),
            )
            &&& goes(
                self_flow(),
                seq![Request::CurrentExe],
                seq![fault(nf, why)],
                Err(failed_to(Task::FindExecutable, why)),
            )
            &&& goes(
                self_flow(),
                seq![Request::CurrentExe] + write.take(n + 1),
                seq![Reply::Text(exe)] + Seq::new(n as nat, |i: int| Reply::<Seq<char>>::Done).push(
                    fault(nf, why),
                ),
                Err(server_error("{8B7D4E2A-3F5C-4D1B-9A6E-7C2B5F8D1E4A}"@, n, why)),
            )
        }),
{
    reveal_with_fuel(goes, 7);
    assert(n == 0 || n == 1 || n == 2 || n == 3 || n == 4);
}

/// The fallback stage registers the bundled console host. A failure is told to
/// the user and goes no further; after a success the user is told if there is no
/// bundled file at all.
pub proof fn fallback_failure_is_told(
    q1: Requests,
    r1: Replies,
    e: Error<Seq<char>>,
    q2: Requests,
    r2: Replies,
    path: Seq<char>,
    any: Reply<Seq<char>>,
)
    ensures
        goes(fallback_flow(), q1, r1, Err(e)) ==> goes(
            stage_flow(),
            q1 + seq![Request::Say(Notice::FallbackSkipped(error_text(e)))],
            r1 + seq![any],
            (),
        ),
        goes(fallback_flow(), q1, r1, Ok(())) && goes(resolve_flow(), q2, r2, Some(path)) ==> goes(
            stage_flow(),
            q1 + q2,
            r1 + r2,
            (),
        ),
        goes(fallback_flow(), q1, r1, Ok(())) && goes(resolve_flow(), q2, r2, None) ==> goes(
            stage_flow(),
            q1 + (q2 + seq![Request::Say(Notice::OpenConsoleMissing)]),
            r1 + (r2 + seq![any]),
            (),
        ),
{
    let wrap = |m| FallbackStage::<Seq<char>, Steps>::Registering(m);
    let cont = |r: Outcome| stage_registered(r);
    if goes(fallback_flow(), q1, r1, Err(e)) {
        let q = seq![Request::Say(Notice::FallbackSkipped(error_text(e)))];
        assert(goes(stage_registered(Err(e)), q, seq![any], ())) by {
            reveal_with_fuel(goes, 2);
        }
        lemma_goes_bind(fallback_flow(), wrap, cont, q1, r1, Err(e), q, seq![any], ());
    }
    let inner = |m| FallbackStage::<Seq<char>, Steps>::Resolving(m);
    let last = |bundled: Option<Seq<char>>| stage_resolved(bundled);
    if goes(fallback_flow(), q1, r1, Ok(())) && goes(resolve_flow(), q2, r2, Some(path)) {
        assert(goes(stage_resolved(Some(path)), seq![], seq![], ()));
        lemma_goes_bind(resolve_flow(), inner, last, q2, r2, Some(path), seq![], seq![], ());
        assert(q2 + seq![] =~= q2);
        assert(r2 + seq![] =~= r2);
        lemma_goes_bind(fallback_flow(), wrap, cont, q1, r1, Ok(()), q2, r2, ());
    }
    if goes(fallback_flow(), q1, r1, Ok(())) && goes(resolve_flow(), q2, r2, None) {
        let q = seq![Request::Say(Notice::OpenConsoleMissing)];
        assert(goes(stage_resolved(None), q, seq![any], ())) by {
            reveal_with_fuel(goes, 2);
        }
        lemma_goes_bind(resolve_flow(), inner, last, q2, r2, None, q, seq![any], ());
        lemma_goes_bind(fallback_flow(), wrap, cont, q1, r1, Ok(()), q2 + q, r2 + seq![any], ());
    }
}

/// The proxy/stub stage registers the bundled library. A failure is told to the
/// user and goes no further. Without a library the user is told, and how depends
/// on whether Windows Terminal brings one.
pub proof fn missing_library_is_told(
    dll: Seq<char>,
    nf: bool,
    why: Seq<char>,
    any: Reply<Seq<char>>,
    q: Requests,
    r: Replies,
    installed: bool,
)
    ensures
        goes(
            proxy_flow(),
            seq![Request::FindProxyStub, Request::RegisterProxyStub(dll)],
            seq![Reply::Text(dll), Reply::Done],
            (),
        ),
        goes(
            proxy_flow(),
            seq![
                Request::FindProxyStub,
                Request::RegisterProxyStub(dll),
                Request::Say(Notice::ProxyStubSkipped(why)),
            ],
            seq![Reply::Text(dll), fault(nf, why), any],
            (),
        ),
        goes(any_server_flow(brand_clsids(channel_clsids())), q, r, installed) ==> goes(
            proxy_flow(),
            seq![Request::FindProxyStub] + (q + seq![
                Request::Say(
                    if installed {
                        Notice::ProxyDllFromWindowsTerminal
                    } else {
                        Notice::ProxyDllMissing
                    },
                ),
            ]),
            seq![fault(nf, why)] + (r + seq![any]),
            (),
        ),
{
    reveal_with_fuel(goes, 4);
    let ask = any_server_flow(brand_clsids(channel_clsids()));
    if goes(ask, q, r, installed) {
        let say = seq![
            Request::Say(
                if installed {
                    Notice::ProxyDllFromWindowsTerminal
                } else {
                    Notice::ProxyDllMissing
                },
            ),
        ];
        assert(goes(proxy_without(installed), say, seq![any], ()));
        lemma_goes_bind(
            ask,
            |m| ProxyStage::<Seq<char>, Seq<Seq<char>>>::Asking(m),
            |installed: bool| proxy_without(installed),
            q,
            r,
            installed,
            say,
            seq![any],
            (),
        );
        let all = seq![Request::FindProxyStub] + (q + say);
        let replies = seq![fault(nf, why)] + (r + seq![any]);
        assert(all.skip(1) =~= q + say);
        assert(replies.skip(1) =~= r + seq![any]);
    }
}

// ---------------------------------------------------------------------------
// Enable
// ---------------------------------------------------------------------------

/// `enable` fails where the current selection cannot be kept or this terminal's
/// server cannot be registered, and asks for nothing more: above all, it does not
/// touch the selection.
pub proof fn enable_stops_before_takeover(
    q1: Requests,
    r1: Replies,
    q2: Requests,
    r2: Replies,
    e: Error<Seq<char>>,
)
    ensures
        goes(capture_flow(), q1, r1, Err(e)) ==> goes(enable_flow(), q1, r1, Err(e)),
        goes(capture_flow(), q1, r1, Ok(())) && goes(self_flow(), q2, r2, Err(e)) ==> goes(
            enable_flow(),
            q1 + q2,
            r1 + r2,
            Err(e),
        ),
{
    let wrap = |m| EnableRun::<Seq<char>, Steps, Seq<Seq<char>>>::Capturing(m);
    let cont = |r: Outcome| enable_captured(r);
    if goes(capture_flow(), q1, r1, Err(e)) {
        assert(goes(enable_captured(Err(e)), seq![], seq![], Err(e)));
        lemma_goes_bind(capture_flow(), wrap, cont, q1, r1, Err(e), seq![], seq![], Err(e));
        assert(q1 + seq![] =~= q1);
        assert(r1 + seq![] =~= r1);
    }
    if goes(capture_flow(), q1, r1, Ok(())) && goes(self_flow(), q2, r2, Err(e)) {
        assert(goes(enable_served(Err(e)), seq![], seq![], Err(e)));
        lemma_goes_bind(
            self_flow(),
            |m| EnableRun::<Seq<char>, Steps, Seq<Seq<char>>>::Server(m),
            |r: Outcome| enable_served(r),
            q2,
            r2,
            Err(e),
            seq![],
            seq![],
            Err(e),
        );
        assert(q2 + seq![] =~= q2);
        assert(r2 + seq![] =~= r2);
        lemma_goes_bind(capture_flow(), wrap, cont, q1, r1, Ok(()), q2, r2, Err(e));
    }
}

/// Whether the four stages before the takeover go well.
pub open spec fn prepared(
    q1: Requests,
    r1: Replies,
    q2: Requests,
    r2: Replies,
    q3: Requests,
    r3: Replies,
    q4: Requests,
    r4: Replies,
) -> bool {
    &&& goes(capture_flow(), q1, r1, Ok(()))
    &&& goes(self_flow(), q2, r2, Ok(()))
    &&& goes(stage_flow(), q3, r3, ())
    &&& goes(proxy_flow(), q4, r4, ())
}

proof fn lemma_prepared(
    q1: Requests,
    r1: Replies,
    q2: Requests,
    r2: Replies,
    q3: Requests,
    r3: Replies,
    q4: Requests,
    r4: Replies,
    q5: Requests,
    r5: Replies,
    result: Outcome,
)
    requires
        prepared(q1, r1, q2, r2, q3, r3, q4, r4),
        goes(enable_proxied(), q5, r5, result),
    ensures
        goes(
            enable_flow(),
            q1 + (q2 + (q3 + (q4 + q5))),
            r1 + (r2 + (r3 + (r4 + r5))),
            result,
        ),
{
    lemma_goes_bind(
        proxy_flow(),
        |m| EnableRun::<Seq<char>, Steps, Seq<Seq<char>>>::Proxy(m),
        |u: ()| enable_proxied(),
        q4,
        r4,
        (),
        q5,
        r5,
        result,
    );
    lemma_goes_bind(
        stage_flow(),
        |m| EnableRun::<Seq<char>, Steps, Seq<Seq<char>>>::Fallback(m),
        |u: ()| enable_backed(),
        q3,
        r3,
        (),
        q4 + q5,
        r4 + r5,
        result,
    );
    lemma_goes_bind(
        self_flow(),
        |m| EnableRun::<Seq<char>, Steps, Seq<Seq<char>>>::Server(m),
        |r: Outcome| enable_served(r),
        q2,
        r2,
        Ok(()),
        q3 + (q4 + q5),
        r3 + (r4 + r5),
        result,
    );
    lemma_goes_bind(
        capture_flow(),
        |m| EnableRun::<Seq<char>, Steps, Seq<Seq<char>>>::Capturing(m),
        |r: Outcome| enable_captured(r),
        q1,
        r1,
        Ok(()),
        q2 + (q3 + (q4 + q5)),
        r2 + (r3 + (r4 + r5)),
        result,
    );
}

/// Once the selection is kept and this terminal's server registered, `enable`
/// makes this terminal the default, whatever comes of the console host and the
/// library, and tells the user. It fails where the takeover cannot be written,
/// with the edit that failed, and then claims nothing.
pub proof fn enable_takes_over_last(
    q1: Requests,
    r1: Replies,
    q2: Requests,
    r2: Replies,
    q3: Requests,
    r3: Replies,
    q4: Requests,
    r4: Replies,
    one: Reply<Seq<char>>,
    two: Reply<Seq<char>>,
    nf: bool,
    why: Seq<char>,
)
    requires
        prepared(q1, r1, q2, r2, q3, r3, q4, r4),
    ensures
        goes(
            enable_flow(),
            q1 + (q2 + (q3 + (q4 + (takeover_requests() + seq![
                Request::Say(Notice::Enabled),
                Request::Say(Notice::ServerRegistered),
            ])))),
            r1 + (r2 + (r3 + (r4 + seq![Reply::Done, Reply::Done, Reply::Done, one, two]))),
            Ok(()),
        ),
        goes(
            enable_flow(),
            q1 + (q2 + (q3 + (q4 + takeover_requests().take(1)))),
            r1 + (r2 + (r3 + (r4 + seq![fault(nf, why)]))),
            Err(Error { context: Context::CreateKey(Key::Startup), cause: why }),
        ),
        goes(
            enable_flow(),
            q1 + (q2 + (q3 + (q4 + takeover_requests().take(2)))),
            r1 + (r2 + (r3 + (r4 + seq![Reply::Done, fault(nf, why)]))),
            Err(failed_to(Task::WriteDelegationConsole, why)),
        ),
        goes(
            enable_flow(),
            q1 + (q2 + (q3 + (q4 + takeover_requests()))),
            r1 + (r2 + (r3 + (r4 + seq![Reply::Done, Reply::Done, fault(nf, why)]))),
            Err(failed_to(Task::WriteDelegationTerminal, why)),
        ),
{
    let all = takeover_requests() + seq![
        Request::Say(Notice::Enabled),
        Request::Say(Notice::ServerRegistered),
    ];
    let done = seq![Reply::Done, Reply::Done, Reply::Done, one, two];
    let e0 = Err(Error { context: Context::CreateKey(Key::Startup), cause: why });
    let e1 = Err(failed_to(Task::WriteDelegationConsole, why));
    let e2 = Err(failed_to(Task::WriteDelegationTerminal, why));
    let f0 = seq![fault(nf, why)];
    let f1 = seq![Reply::Done, fault(nf, why)];
    let f2 = seq![Reply::Done, Reply::Done, fault(nf, why)];
    assert(goes(enable_proxied(), all, done, Ok(()))) by {
        reveal_with_fuel(goes, 6);
    }
    assert(goes(enable_proxied(), takeover_requests().take(1), f0, e0)) by {
        reveal_with_fuel(goes, 2);
    }
    assert(goes(enable_proxied(), takeover_requests().take(2), f1, e1)) by {
        reveal_with_fuel(goes, 3);
    }
    assert(goes(enable_proxied(), takeover_requests(), f2, e2)) by {
        reveal_with_fuel(goes, 4);
    }
    lemma_prepared(q1, r1, q2, r2, q3, r3, q4, r4, all, done, Ok(()));
    lemma_prepared(q1, r1, q2, r2, q3, r3, q4, r4, takeover_requests().take(1), f0, e0);
    lemma_prepared(q1, r1, q2, r2, q3, r3, q4, r4, takeover_requests().take(2), f1, e1);
    lemma_prepared(q1, r1, q2, r2, q3, r3, q4, r4, takeover_requests(), f2, e2);
}

// ---------------------------------------------------------------------------
// Disable
// ---------------------------------------------------------------------------

/// A message, if there is something to tell.
pub open spec fn said_if(condition: bool, notice: Notice<Seq<char>>) -> Requests {
    if condition {
        seq![Request::Say(notice)]
    } else {
        seq![]
    }
}

/// The reply to it.
pub open spec fn heard_if(condition: bool, reply: Reply<Seq<char>>) -> Replies {
    if condition {
        seq![reply]
    } else {
        seq![]
    }
}

/// `disable` restores the selection, removes this terminal's server, the
/// proxy/stub and the console host, and tells the user of each as it came: of the
/// restoration in any case, of the server and the console host if they were
/// there, and at the end whether this terminal was registered. Its result is that
/// of the restoration; whatever else comes does not matter to it.
pub proof fn disable_goes_through_its_stages(
    ids: Ids,
    q1: Requests,
    r1: Replies,
    restore: Restore,
    q2: Requests,
    r2: Replies,
    server: bool,
    q3: Requests,
    r3: Replies,
    q4: Requests,
    r4: Replies,
    host: bool,
    any: Reply<Seq<char>>,
)
    requires
        goes(restore_flow(), q1, r1, restore),
        goes(
            removal_flow(server_removal("{8B7D4E2A-3F5C-4D1B-9A6E-7C2B5F8D1E4A}"@)),
            q2,
            r2,
            server,
        ),
        goes(proxy_stub_flow(ids.iids, ids.clsid), q3, r3, ()),
        goes(
            removal_flow(server_removal("{2EACA947-7F5F-4CFA-BA87-8F7FBEEFBE69}"@)),
            q4,
            r4,
            host,
        ),
    ensures
        goes(
            disable_flow(ids),
            q1 + (seq![
                Request::Say(
                    match restore {
                        Ok(brought_back) => if brought_back {
                            Notice::Restored
                        } else {
                            Notice::LeftAlone
                        },
                        Err(e) => Notice::RestoreFailed(error_text(e)),
                    },
                ),
            ] + (q2 + (said_if(server, Notice::ServerRemoved) + (q3 + ((q4 + said_if(
                host,
                Notice::FallbackRemoved,
            )) + seq![
                Request::Say(
                    if server {
                        Notice::Disabled
                    } else {
                        Notice::NothingToDo
                    },
                ),
            ]))))),
            r1 + (seq![any] + (r2 + (heard_if(server, any) + (r3 + ((r4 + heard_if(host, any))
                + seq![any]))))),
            match restore {
                Ok(_) => Ok(()),
                Err(e) => Err(e),
            },
        ),
{
    let result: Outcome = match restore {
        Ok(_) => Ok(()),
        Err(e) => Err(e),
    };
    let q5 = said_if(host, Notice::FallbackRemoved);
    let r5 = heard_if(host, any);
    assert(goes(fallback_removed(host), q5, r5, ())) by {
        reveal_with_fuel(goes, 2);
    }
    lemma_goes_bind(
        removal_flow(server_removal(WEZTERM_TERMHOST_FALLBACK_CONSOLE_CLSID@)),
        |m| RemoveFallback::<Seq<char>, Steps>::Removing(m),
        |owned: bool| fallback_removed(owned),
        q4,
        r4,
        host,
        q5,
        r5,
        (),
    );
    let q6 = seq![
        Request::Say(
            if server {
                Notice::Disabled
            } else {
                Notice::NothingToDo
            },
        ),
    ];
    assert(goes(disable_finish(server, restore), q6, seq![any], result)) by {
        reveal_with_fuel(goes, 2);
    }
    lemma_goes_bind(
        remove_fallback_flow(),
        |run| DisableState::Fallback { removed: server, restore, run },
        |u: ()| disable_finish(server, restore),
        q4 + q5,
        r4 + r5,
        (),
        q6,
        seq![any],
        result,
    );
    let q7 = (q4 + q5) + q6;
    let r7 = (r4 + r5) + seq![any];
    lemma_goes_bind(
        proxy_stub_flow(ids.iids, ids.clsid),
        |run| DisableState::Proxy { removed: server, restore, run },
        |u: ()| disable_unproxied(server, restore),
        q3,
        r3,
        (),
        q7,
        r7,
        result,
    );
    let q8 = q3 + q7;
    let r8 = r3 + r7;
    let q9 = said_if(server, Notice::ServerRemoved) + q8;
    let r9 = heard_if(server, any) + r8;
    assert(goes(disable_server(ids, server, restore), q9, r9, result)) by {
        if server {
            assert(q9.skip(1) =~= q8);
            assert(r9.skip(1) =~= r8);
        } else {
            assert(q9 =~= q8);
            assert(r9 =~= r8);
        }
    }
    lemma_goes_bind(
        removal_flow(server_removal(WEZTERM_TERMHOST_TERMINAL_CLSID@)),
        |run| DisableState::Server { ids, restore, run },
        |owned: bool| disable_server(ids, owned, restore),
        q2,
        r2,
        server,
        q9,
        r9,
        result,
    );
    let notice = match restore {
        Ok(brought_back) => if brought_back {
            Notice::Restored
        } else {
            Notice::LeftAlone
        },
        Err(e) => Notice::RestoreFailed(error_text(e)),
    };
    let q10 = seq![Request::Say(notice)] + (q2 + q9);
    let r10 = seq![any] + (r2 + r9);
    assert(q10.skip(1) =~= q2 + q9);
    assert(r10.skip(1) =~= r2 + r9);
    assert(goes(disable_restored(ids, restore), q10, r10, result));
    lemma_goes_bind(
        restore_flow(),
        |run| DisableState::Restoring { ids, run },
        |restore: Restore| disable_restored(ids, restore),
        q1,
        r1,
        restore,
        q10,
        r10,
        result,
    );
}

/// Removing this terminal's own server is removing the server of its class.
pub proof fn own_server_is_that_of_its_class(
    begun: Flow<String, RemoveOwned<String, Script>, bool>,
)
    requires
        call_ensures(unregister_local_server_for_unpackaged, (), begun),
    ensures
        begun.model() == removal_flow(server_removal("{8B7D4E2A-3F5C-4D1B-9A6E-7C2B5F8D1E4A}"@)),
{
}

// ---------------------------------------------------------------------------
// The command line
// ---------------------------------------------------------------------------

/// The command that is run is the one that the user asks for.
pub proof fn user_gets_the_command(
    cmd: TerminalHostCommand,
    ids: ProxyIds<String, Vec<String>>,
    begun: Flow<String, Command, Result<(), Error<String>>>,
    q: Requests,
    r: Replies,
    result: Outcome,
)
    requires
        call_ensures(crate::cli::run, (cmd, ids), begun),
    ensures
        cmd.sub is Enable && goes(enable_flow(), q, r, result) ==> goes(
            begun.model(),
            q,
            r,
            result,
        ),
        cmd.sub is Disable && goes(disable_flow(ids.model()), q, r, result) ==> goes(
            begun.model(),
            q,
            r,
            result,
        ),
{
    assert(q + seq![] =~= q);
    assert(r + seq![] =~= r);
    let cont = |r: Outcome| Flow::<Seq<char>, CommandState, Outcome>::Done(r);
    assert(goes(cont(result), seq![], seq![], result));
    if cmd.sub is Enable && goes(enable_flow(), q, r, result) {
        lemma_goes_bind(
            enable_flow(),
            |m| CommandState::Enabling(m),
            cont,
            q,
            r,
            result,
            seq![],
            seq![],
            result,
        );
    }
    if cmd.sub is Disable && goes(disable_flow(ids.model()), q, r, result) {
        lemma_goes_bind(
            disable_flow(ids.model()),
            |m| CommandState::Disabling(m),
            cont,
            q,
            r,
            result,
            seq![],
            seq![],
            result,
        );
    }
}

} // verus!
