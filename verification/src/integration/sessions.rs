//! What a session that was taken over stands for.

use crate::host::{hinted_state, Handle};
use crate::integration::laws::passed_in;
use crate::integration::{
    configured, handed_off, handle_handoff, handoff_child, handoff_master, handoff_pipes,
    handoff_talk, initial_size, raw_handles, reported_pid, session_title,
    signed_startup_coordinate, startup_position, wanted_position, wanted_size, wanted_title,
    GuiPosition, HandedOff, Handoff, HandoffEnd, HandoffError, HandoffHandles, HandoffResult,
    HandoffTalk,
};
use crate::kernel::{Answer, Call, Conversing, Talk};
use crate::model::Model;
use crate::raw_pty::child::{open_child_talk, TermHostChild};
use crate::raw_pty::laws::{all_fit, fits, is_new};
use crate::raw_pty::master::{open_talk, RawHandlesMasterPty};
use crate::raw_pty::objects::{
    booked, copied, lemma_embed_outcome, lemma_open, only_handles, outcome, process_keeps_objects,
    pseudo_terminal_keeps_objects, Ledger, Object,
};
use crate::raw_pty::PtySize;
use crate::types::{
    copy_keeps_fields, startup_info_to_owned, text_units, utf16_text, Startup, TerminalStartupInfo,
    TerminalStartupInfoOwned,
};
use vstd::prelude::*;

verus! {

// ---------------------------------------------------------------------------
// Handles
// ---------------------------------------------------------------------------

/// Whether a session works with what was passed in and with what was passed out
/// for it: `in_handle` and `out_handle` are the console's ends.
pub open spec fn connected(
    session: HandedOff<Seq<char>>,
    handles: HandoffHandles,
    in_handle: Handle,
    out_handle: Handle,
    before: Ledger,
    after: Ledger,
) -> bool {
    let input = before.pipes;
    let output = (before.pipes + 1) as nat;
    // The console reads its input from the first pipe and writes its output to the
    // second; a process that it starts inherits these ends.
    &&& after.objects.contains_key(in_handle) && after.objects[in_handle] == Object::ReadEnd(input)
    &&& after.objects.contains_key(out_handle) && after.objects[out_handle] == Object::WriteEnd(
        output,
    )
    &&& after.inherited.contains(in_handle) && after.inherited.contains(
        out_handle,
    )
    // The terminal has the other ends, for itself.
    &&& session.master.read matches Some(h) && after.objects.contains_key(h) && after.objects[h]
        == Object::ReadEnd(output) && !after.inherited.contains(h)
    &&& after.refused == before.refused ==> session.master.write is Some
    &&& session.master.write matches Some(h) ==> after.objects.contains_key(h) && after.objects[h]
        == Object::WriteEnd(input) && !after.inherited.contains(h)
    // What was passed in is duplicated, each for its own purpose.
    &&& copied(session.master.signal, handles.signal, before, after)
    &&& copied(session.master.reference, handles.reference, before, after)
    &&& copied(session.child.session_handle, handles.server, before, after)
    // The killer is for the first client.
    &&& session.child.killer_handle is Some ==> session.child.client_pid is Some
    &&& session.child.client_pid is Some && after.refused == before.refused
        ==> session.child.killer_handle is Some
    &&& session.child.killer_handle matches Some(h) ==> after.objects.contains_key(h)
        && after.objects[h] == Object::Process(session.child.client_pid->0)
    // Nothing that was there has gone or changed.
    &&& forall|h: Handle| #[trigger]
        before.objects.contains_key(h) ==> after.objects.contains_key(h) && after.objects[h]
            == before.objects[h]
}

/// What a handoff comes to from a point on.
pub open spec fn settles(
    f: HandoffTalk,
    handles: HandoffHandles,
    startup: Startup,
    in_handle: Handle,
    out_handle: Handle,
    pid: Option<u32>,
    size: PtySize,
    before: Ledger,
    now: Ledger,
    answers: Seq<Answer<Seq<char>>>,
) -> bool {
    outcome(f, now, answers) matches Some((end, after)) ==> {
        &&& end is Ok
        &&& connected(end->Ok_0, handles, in_handle, out_handle, before, after)
        &&& end->Ok_0.child.client_pid == pid
        &&& end->Ok_0.master.size == size && end->Ok_0.size == size
        &&& end->Ok_0.title == wanted_title(startup)
        &&& end->Ok_0.position == wanted_position(startup)
        &&& end->Ok_0.window_state == hinted_state(startup.show_window)
        &&& after.pipes == now.pipes
        &&& after.reported == now.reported
        &&& after.published == now.published
        &&& after.publications == now.publications
        &&& after.received == now.received
        &&& after.configured == now.configured
    }
}

proof fn lemma_master_connects(
    handles: HandoffHandles,
    startup: Startup,
    pid: Option<u32>,
    their_read: Handle,
    our_write: Handle,
    our_read: Handle,
    their_write: Handle,
    size: PtySize,
    before: Ledger,
    now: Ledger,
    answers: Seq<Answer<Seq<char>>>,
)
    requires
        passed_in(handles, before.objects.dom()),
        is_new(before.objects.dom(), their_read),
        is_new(before.objects.dom(), our_write),
        is_new(before.objects.dom(), our_read),
        is_new(before.objects.dom(), their_write),
        their_read != our_write,
        their_read != our_read,
        their_read != their_write,
        our_write != our_read,
        our_write != their_write,
        our_read != their_write,
        now.objects == before.objects.insert(their_read, Object::ReadEnd(before.pipes)).insert(
            our_write,
            Object::WriteEnd(before.pipes),
        ).insert(our_read, Object::ReadEnd((before.pipes + 1) as nat)).insert(
            their_write,
            Object::WriteEnd((before.pipes + 1) as nat),
        ),
        now.inherited.contains(their_read),
        now.inherited.contains(their_write),
        !now.inherited.contains(our_read),
        now.refused == before.refused,
        all_fit(
            handoff_master(handles, startup, pid, our_read, our_write, size),
            now.objects.dom(),
            answers,
        ),
    ensures
        settles(
            handoff_master(handles, startup, pid, our_read, our_write, size),
            handles,
            startup,
            their_read,
            their_write,
            pid,
            size,
            before,
            now,
            answers,
        ),
{
    let raw = raw_handles(handles, our_read, our_write);
    let f = open_talk(raw, size);
    let k = lemma_embed_outcome(
        f,
        |open| Handoff::<Seq<char>>::Master { handles, startup, pid, size, open },
        |master: RawHandlesMasterPty| handoff_child(handles, startup, pid, size, master),
        now,
        answers,
    );
    pseudo_terminal_keeps_objects(raw, size, now, answers);
    if outcome(f, now, answers) is Some {
        let (master, mid) = outcome(f, now, answers)->0;
        let rest = answers.skip(k as int);
        let g = open_child_talk(handles.server, pid);
        assert(!mid.objects.contains_key(0)) by {
            lemma_null_stays_free(f, now, answers);
        }
        assert(handles.server != 0 ==> now.objects.contains_key(handles.server));
        assert(handles.signal != 0 ==> now.objects.contains_key(handles.signal));
        assert(handles.reference != 0 ==> now.objects.contains_key(handles.reference));
        let k2 = lemma_embed_outcome(
            g,
            |begin| Handoff::<Seq<char>>::Child { startup, size, master, begin },
            |child: TermHostChild|
                Talk::<Handoff<Seq<char>>, HandoffEnd>::Done(
                    Ok(handed_off(startup, size, master, child)),
                ),
            mid,
            rest,
        );
        process_keeps_objects(handles.server, pid, mid, rest);
        if outcome(g, mid, rest) is Some {
            let (child, after) = outcome(g, mid, rest)->0;
            assert(only_handles(now, set![our_write], mid));
            assert(only_handles(mid, set![], after));
            assert(now.objects.contains_key(their_read));
            assert(now.objects.contains_key(their_write));
            assert(now.objects.contains_key(our_read));
            assert(mid.objects.contains_key(their_read));
            assert(mid.objects.contains_key(their_write));
            assert(mid.objects.contains_key(our_read));
            assert forall|h: Handle| #[trigger] before.objects.contains_key(h) implies
                after.objects.contains_key(h) && after.objects[h] == before.objects[h] by {
                assert(now.objects.contains_key(h));
                assert(mid.objects.contains_key(h));
            }
            if master.write is Some {
                assert(mid.objects.contains_key(master.write->0));
            }
            if master.signal is Some {
                assert(mid.objects.contains_key(master.signal->0));
                assert(before.objects.contains_key(handles.signal));
            }
            if master.reference is Some {
                assert(mid.objects.contains_key(master.reference->0));
                assert(before.objects.contains_key(handles.reference));
            }
            if child.session_handle is Some {
                let h = child.session_handle->0;
                assert(before.objects.contains_key(handles.server));
                assert(!before.objects.contains_key(h)) by {
                    if before.objects.contains_key(h) {
                        assert(now.objects.contains_key(h));
                        assert(mid.objects.contains_key(h));
                    }
                }
            }
        }
    }
}

/// The null handle never refers to anything.
proof fn lemma_null_stays_free<M: Conversing<T>, T>(
    f: Talk<M, T>,
    l: Ledger,
    answers: Seq<Answer<Seq<char>>>,
)
    requires
        !l.objects.contains_key(0),
        all_fit(f, l.objects.dom(), answers),
    ensures
        outcome(f, l, answers) matches Some((t, after)) ==> !after.objects.contains_key(0),
    decreases answers.len(),
{
    if f is Ask && answers.len() > 0 {
        let c = f->Ask_0;
        lemma_open(c, l, answers[0]);
        lemma_null_stays_free(f->Ask_1.next(answers[0]), booked(c, l, answers[0]), answers.skip(1));
    }
}

/// What a handoff comes to as a whole: a session, or an error that says which
/// pipe could not be made.
pub open spec fn concluded(
    end: HandoffEnd,
    handles: HandoffHandles,
    startup: Startup,
    pid: Option<u32>,
    before: Ledger,
    after: Ledger,
) -> bool {
    match end {
        Ok(session) => {
            &&& after.published matches Some((i, o)) && connected(
                session,
                handles,
                i,
                o,
                before,
                after,
            )
            &&& after.pipes == before.pipes + 2
            &&& after.publications == before.publications + 1
            &&& after.received == before.received + 1
            &&& session.child.client_pid == pid
            &&& session.master.size == session.size
            &&& session.size == match after.configured {
                Some((rows, cols)) => wanted_size(startup, rows, cols),
                None => wanted_size(startup, 24, 80),
            }
            &&& session.title == wanted_title(startup)
            &&& session.position == wanted_position(startup)
            &&& session.window_state == hinted_state(startup.show_window)
        },
        Err(e) => {
            &&& after.objects == before.objects
            &&& after.published == before.published
            &&& after.publications == before.publications
            &&& after.received == before.received
            &&& e matches HandoffError::StdinPipe(cause) ==> after.pipes == before.pipes
                && after.no_pipe == Some(cause)
            &&& e matches HandoffError::StdoutPipe(cause) ==> after.pipes == before.pipes + 1
                && after.no_pipe == Some(cause)
        },
    }
}

/// What a handoff comes to from the first pipe on.
pub open spec fn concludes(
    f: HandoffTalk,
    handles: HandoffHandles,
    startup: Startup,
    pid: Option<u32>,
    before: Ledger,
    now: Ledger,
    answers: Seq<Answer<Seq<char>>>,
) -> bool {
    outcome(f, now, answers) matches Some((end, after)) ==> concluded(
        end,
        handles,
        startup,
        pid,
        before,
        after,
    ) && after.reported == before.reported
}

proof fn lemma_publish_connects(
    handles: HandoffHandles,
    startup: Startup,
    pid: Option<u32>,
    their_read: Handle,
    our_write: Handle,
    our_read: Handle,
    their_write: Handle,
    before: Ledger,
    now: Ledger,
    answers: Seq<Answer<Seq<char>>>,
)
    requires
        passed_in(handles, before.objects.dom()),
        before.configured is None,
        is_new(before.objects.dom(), their_read),
        is_new(before.objects.dom(), our_write),
        is_new(before.objects.dom(), our_read),
        is_new(before.objects.dom(), their_write),
        their_read != our_write,
        their_read != our_read,
        their_read != their_write,
        our_write != our_read,
        our_write != their_write,
        our_read != their_write,
        now == (Ledger {
            objects: before.objects.insert(their_read, Object::ReadEnd(before.pipes)).insert(
                our_write,
                Object::WriteEnd(before.pipes),
            ).insert(our_read, Object::ReadEnd((before.pipes + 1) as nat)).insert(
                their_write,
                Object::WriteEnd((before.pipes + 1) as nat),
            ),
            inherited: now.inherited,
            pipes: before.pipes + 2,
            ..before
        }),
        now.inherited.contains(their_read),
        now.inherited.contains(their_write),
        !now.inherited.contains(our_read),
        all_fit(
            Talk::Ask(
                Call::Publish { in_handle: their_read, out_handle: their_write },
                Handoff::Publishing { handles, startup, pid, our_read, our_write },
            ),
            now.objects.dom(),
            answers,
        ),
    ensures
        concludes(
            Talk::Ask(
                Call::Publish { in_handle: their_read, out_handle: their_write },
                Handoff::Publishing { handles, startup, pid, our_read, our_write },
            ),
            handles,
            startup,
            pid,
            before,
            now,
            answers,
        ),
{
    let f0: HandoffTalk = Talk::Ask(
        Call::Publish { in_handle: their_read, out_handle: their_write },
        Handoff::Publishing { handles, startup, pid, our_read, our_write },
    );
    if answers.len() > 0 {
        let a1 = answers.skip(1);
        let f1 = f0->Ask_1.next(answers[0]);
        let l1 = booked(f0->Ask_0, now, answers[0]);
        assert(outcome(f0, now, answers) == outcome(f1, l1, a1));
        if a1.len() > 0 {
            let a2 = a1.skip(1);
            let f2 = f1->Ask_1.next(a1[0]);
            let l2 = booked(f1->Ask_0, l1, a1[0]);
            assert(outcome(f1, l1, a1) == outcome(f2, l2, a2));
            if a2.len() > 0 {
                let a3 = a2.skip(1);
                let f3 = f2->Ask_1.next(a2[0]);
                let l3 = booked(f2->Ask_0, l2, a2[0]);
                assert(outcome(f2, l2, a2) == outcome(f3, l3, a3));
                let size = wanted_size(startup, configured(a2[0]).0, configured(a2[0]).1);
                assert(all_fit(f1, now.objects.dom(), a1));
                assert(all_fit(f2, now.objects.dom(), a2));
                assert(all_fit(f3, now.objects.dom(), a3));
                lemma_master_connects(
                    handles,
                    startup,
                    pid,
                    their_read,
                    our_write,
                    our_read,
                    their_write,
                    size,
                    before,
                    l3,
                    a3,
                );
            }
        }
    }
}

proof fn lemma_pipes_connect(
    handles: HandoffHandles,
    startup: Startup,
    pid: Option<u32>,
    before: Ledger,
    answers: Seq<Answer<Seq<char>>>,
)
    requires
        passed_in(handles, before.objects.dom()),
        before.configured is None,
        all_fit(handoff_pipes(handles, startup, pid), before.objects.dom(), answers),
    ensures
        concludes(
            handoff_pipes(handles, startup, pid),
            handles,
            startup,
            pid,
            before,
            before,
            answers,
        ),
{
    let f0 = handoff_pipes(handles, startup, pid);
    if answers.len() > 0 {
        let a1 = answers.skip(1);
        let f1 = f0->Ask_1.next(answers[0]);
        let l1 = booked(f0->Ask_0, before, answers[0]);
        lemma_open(f0->Ask_0, before, answers[0]);
        assert(outcome(f0, before, answers) == outcome(f1, l1, a1));
        if answers[0] is Pipe && a1.len() > 0 {
            let their_read = answers[0]->read;
            let our_write = answers[0]->write;
            let a2 = a1.skip(1);
            let f2 = f1->Ask_1.next(a1[0]);
            let l2 = booked(f1->Ask_0, l1, a1[0]);
            lemma_open(f1->Ask_0, l1, a1[0]);
            assert(outcome(f1, l1, a1) == outcome(f2, l2, a2));
            assert(all_fit(f1, l1.objects.dom(), a1));
            assert(fits(f1->Ask_0, l1.objects.dom(), a1[0]));
            if a1[0] is Pipe {
                assert forall|h: Handle| !l1.objects.dom().contains(h) implies
                    !before.objects.dom().contains(h) by {}
                lemma_publish_connects(
                    handles,
                    startup,
                    pid,
                    their_read,
                    our_write,
                    a1[0]->read,
                    a1[0]->write,
                    before,
                    l2,
                    a2,
                );
            } else if a2.len() > 0 {
                let f3 = f2->Ask_1.next(a2[0]);
                let l3 = booked(f2->Ask_0, l2, a2[0]);
                let a3 = a2.skip(1);
                assert(outcome(f2, l2, a2) == outcome(f3, l3, a3));
                if a3.len() > 0 {
                    let f4 = f3->Ask_1.next(a3[0]);
                    let l4 = booked(f3->Ask_0, l3, a3[0]);
                    assert(outcome(f3, l3, a3) == outcome(f4, l4, a3.skip(1)));
                    assert(l4.objects =~= before.objects);
                }
            }
        }
    }
}

/// Each handle of a session that was taken over refers to what it is for. The
/// terminal reads what the console writes and writes what it reads, through one
/// pipe each, whose other ends were passed out once and can be inherited. The
/// signal, reference and session handles refer to what the handles of these names
/// refer to that were passed in, and the killer to the first client, by the
/// identifier that was reported for it. All of them are there unless the kernel
/// refuses one. A handoff fails exactly where a pipe cannot be made, and then it
/// says which, and in the system's words.
pub proof fn session_is_connected(
    handles: HandoffHandles,
    startup: Startup,
    l: Ledger,
    answers: Seq<Answer<Seq<char>>>,
)
    requires
        passed_in(handles, l.objects.dom()),
        !l.reported.contains_key(handles.client),
        l.configured is None,
        all_fit(handoff_talk(handles, startup), l.objects.dom(), answers),
    ensures
        outcome(handoff_talk(handles, startup), l, answers) matches Some((end, after)) ==> {
            &&& end is Ok <==> after.pipes == l.pipes + 2
            &&& end matches Ok(session) ==> {
                &&& after.published matches Some((i, o)) && connected(
                    session,
                    handles,
                    i,
                    o,
                    l,
                    after,
                )
                &&& after.publications == l.publications + 1
                &&& after.received == l.received + 1
                &&& session.child.client_pid matches Some(pid) ==> handles.client != 0 && pid != 0
                    && after.reported.contains_key(handles.client)
                    && after.reported[handles.client] == pid
                &&& handles.client != 0 && after.reported.contains_key(handles.client)
                    && after.reported[handles.client] != 0 ==> session.child.client_pid is Some
            }
            &&& end matches Err(e) ==> {
                &&& after.objects == l.objects
                &&& after.published == l.published
                &&& after.publications == l.publications
                &&& after.received == l.received
                &&& after.pipes == l.pipes ==> (e matches HandoffError::StdinPipe(cause)
                    && after.no_pipe == Some(cause))
                &&& after.pipes == l.pipes + 1 ==> (e matches HandoffError::StdoutPipe(cause)
                    && after.no_pipe == Some(cause))
            }
        },
{
    lemma_handoff_concludes(handles, startup, l, answers);
}

proof fn lemma_handoff_concludes(
    handles: HandoffHandles,
    startup: Startup,
    l: Ledger,
    answers: Seq<Answer<Seq<char>>>,
)
    requires
        passed_in(handles, l.objects.dom()),
        !l.reported.contains_key(handles.client),
        l.configured is None,
        all_fit(handoff_talk(handles, startup), l.objects.dom(), answers),
    ensures
        outcome(handoff_talk(handles, startup), l, answers) matches Some((end, after)) ==> {
            let pid = if handles.client != 0 && after.reported.contains_key(handles.client)
                && after.reported[handles.client] != 0 {
                Some(after.reported[handles.client])
            } else {
                None
            };
            concluded(end, handles, startup, pid, l, after)
        },
{
    let f = handoff_talk(handles, startup);
    if handles.client == 0 {
        lemma_pipes_connect(handles, startup, None, l, answers);
    } else if answers.len() > 0 {
        let l1 = booked(f->Ask_0, l, answers[0]);
        let a1 = answers.skip(1);
        let pid = reported_pid(handles.client, answers[0]);
        assert(outcome(f, l, answers) == outcome(handoff_pipes(handles, startup, pid), l1, a1));
        lemma_pipes_connect(handles, startup, pid, l1, a1);
    }
}

// ---------------------------------------------------------------------------
// The window
// ---------------------------------------------------------------------------

/// A session has the position, size, title and window state that Windows asks
/// for, where it does. The position counts if the flag 0x4 is set, and its two
/// numbers are those of the startup information in 32 bits. A cell count that is
/// 0 or that does not fit in 16 bits leaves it to the configuration, and without
/// one the size is 80 by 24. An absent or empty title gives way to the terminal's
/// own, and the window is maximized for the show hint 3 alone.
pub proof fn session_follows_startup_information(
    s: &TerminalStartupInfo,
    startup: TerminalStartupInfoOwned<String>,
    handles: HandoffHandles,
    begun: Talk<Handoff<String>, HandoffResult>,
    l: Ledger,
    answers: Seq<Answer<Seq<char>>>,
)
    requires
        call_ensures(startup_info_to_owned, (s,), startup),
        call_ensures(handle_handoff, (handles, startup), begun),
        passed_in(handles, l.objects.dom()),
        !l.reported.contains_key(handles.client),
        l.configured is None,
        all_fit(begun.model(), l.objects.dom(), answers),
    ensures
        outcome(begun.model(), l, answers) matches Some((Ok(session), after)) ==> {
            &&& s.dwFlags & 0x4 == 0 ==> session.position is None
            &&& s.dwFlags & 0x4 != 0 ==> {
                &&& session.position is Some
                &&& session.position->0.x == s.dwX || session.position->0.x + 0x1_0000_0000 == s.dwX
                &&& session.position->0.y == s.dwY || session.position->0.y + 0x1_0000_0000 == s.dwY
            }
            &&& s.wShowWindow == 3 ==> session.window_state.show_window == 3
            &&& s.wShowWindow != 3 ==> session.window_state.show_window == 0xffff
            &&& 0 < s.dwXCountChars <= 0xffff ==> session.size.cols == s.dwXCountChars
            &&& 0 < s.dwYCountChars <= 0xffff ==> session.size.rows == s.dwYCountChars
            &&& !(0 < s.dwXCountChars <= 0xffff) ==> session.size.cols == match after.configured {
                Some((rows, cols)) => cols,
                None => 80u16,
            }
            &&& !(0 < s.dwYCountChars <= 0xffff) ==> session.size.rows == match after.configured {
                Some((rows, cols)) => rows,
                None => 24u16,
            }
            &&& session.size.pixel_width == 0 && session.size.pixel_height == 0
            &&& session.master.size == session.size
            &&& s.pszTitle is Some && utf16_text(s.pszTitle->0@).len() > 0 ==> session.title
                == utf16_text(s.pszTitle->0@)
            &&& forall|t: Seq<char>|
                s.pszTitle is Some && s.pszTitle->0@ == #[trigger] text_units(t) && t.len() > 0
                    ==> session.title == t
            &&& s.pszTitle is None || s.pszTitle->0@.len() == 0 ==> session.title
                == "WezTerm (termhost)"@
        },
{
    copy_keeps_fields(s, startup);
    lemma_handoff_concludes(handles, startup.model(), l, answers);
    assert(startup.model().title == Some(startup.title->0@));
    if s.pszTitle is Some && s.pszTitle->0@.len() == 0 {
        assert(s.pszTitle->0@ =~= text_units(seq![]));
    }
}

/// The message of a failed handoff tells which pipe could not be made, and ends
/// with the system's own words.
pub proof fn failed_handoff_tells_the_pipe(e: &HandoffError<String>, r: String)
    requires
        call_ensures(HandoffError::<String>::message, (e,), r),
    ensures
        e matches HandoffError::StdinPipe(s) ==> r@ == "create_anon_pipe for ConPTY stdin: "@ + s@,
        e matches HandoffError::StdoutPipe(s) ==> r@ == "create_anon_pipe for ConPTY stdout: "@
            + s@,
{
}

/// A coordinate is the number that 32 bits spell in two's complement: the same
/// below half of the range, and 0x1_0000_0000 less from there on.
pub proof fn coordinate_is_signed(value: u32, r: i32)
    requires
        call_ensures(signed_startup_coordinate, (value,), r),
    ensures
        value < 0x8000_0000 ==> r == value,
        value >= 0x8000_0000 ==> r + 0x1_0000_0000 == value,
{
}

/// Position, size and title by the startup information that is kept.
pub proof fn startup_information_is_heeded(
    startup: &TerminalStartupInfoOwned<String>,
    rows: u16,
    cols: u16,
    position: Option<GuiPosition>,
    size: PtySize,
    title: String,
)
    requires
        call_ensures(startup_position, (startup,), position),
        call_ensures(initial_size, (startup, rows, cols), size),
        call_ensures(session_title, (startup,), title),
    ensures
        position is Some <==> startup.dw_flags & 0x4 != 0,
        position matches Some(p) ==> {
            &&& p.x == startup.position_x || p.x + 0x1_0000_0000 == startup.position_x
            &&& p.y == startup.position_y || p.y + 0x1_0000_0000 == startup.position_y
        },
        startup.width != 0 ==> size.cols == startup.width,
        startup.width == 0 ==> size.cols == cols,
        startup.height != 0 ==> size.rows == startup.height,
        startup.height == 0 ==> size.rows == rows,
        size.pixel_width == 0 && size.pixel_height == 0,
        startup.title is Some && startup.title->0@.len() > 0 ==> title@ == startup.title->0@,
        startup.title is None || startup.title->0@.len() == 0 ==> title@ == "WezTerm (termhost)"@,
{
}

} // verus!
