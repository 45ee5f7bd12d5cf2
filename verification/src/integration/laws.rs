//! What a handoff leaves behind.

use crate::host::Handle;
use crate::integration::{
    configured, handed_off, handoff_child, handoff_master, handoff_pipes, handoff_talk,
    raw_handles, reported_pid, wanted_size, HandedOff, Handoff, HandoffEnd, HandoffHandles,
    HandoffTalk,
};
use crate::kernel::{
    ends_within, lemma_embed_ends, lemma_ends_later, Answer, Call, Conversing, Talk,
};
use crate::raw_pty::child::{open_child_talk, TermHostChild};
use crate::raw_pty::laws::{
    all_fit, calls, delivered, ended, is_new, lemma_embed, lemma_listed, raw_inputs_stay_open,
    session_handle_stays_open, stays_open, table_after, uses_open,
};
use crate::raw_pty::master::{open_talk, RawHandlesMasterPty};
use crate::raw_pty::PtySize;
use crate::types::Startup;
use vstd::prelude::*;

verus! {

/// Whether the handles that Windows passes in are open where they are not null.
pub open spec fn passed_in(handles: HandoffHandles, open: Set<Handle>) -> bool {
    &&& !open.contains(0)
    &&& handles.signal != 0 ==> open.contains(handles.signal)
    &&& handles.reference != 0 ==> open.contains(handles.reference)
    &&& handles.server != 0 ==> open.contains(handles.server)
    &&& handles.client != 0 ==> open.contains(handles.client)
}

/// The handles that are open after a handoff that succeeded: those of before,
/// the two ends that were passed out, and what the session holds.
pub open spec fn accounted_for(
    session: HandedOff<Seq<char>>,
    their_read: Handle,
    their_write: Handle,
    before: Set<Handle>,
    after: Set<Handle>,
) -> bool {
    let out = before.insert(their_read).insert(their_write);
    let with_master = out.union(session.master.held().to_set());
    &&& is_new(before, their_read)
    &&& is_new(before, their_write)
    &&& !session.master.held().contains(their_read)
    &&& !session.master.held().contains(their_write)
    &&& !session.child.held().contains(their_read)
    &&& !session.child.held().contains(their_write)
    &&& after == with_master.union(session.child.held().to_set())
}

/// What a handoff promises from a point on, where `before` was open at its
/// beginning and `their_read` and `their_write` are passed out.
pub open spec fn ends_well(
    f: HandoffTalk,
    their_read: Handle,
    their_write: Handle,
    before: Set<Handle>,
    open: Set<Handle>,
    answers: Seq<Answer<Seq<char>>>,
) -> bool {
    &&& stays_open(f, open, answers)
    &&& ended(f, open, answers) matches Some((end, after)) ==> end is Ok && accounted_for(
        end->Ok_0,
        their_read,
        their_write,
        before,
        after,
    )
}

proof fn lemma_child(
    handles: HandoffHandles,
    startup: Startup,
    pid: Option<u32>,
    size: PtySize,
    master: RawHandlesMasterPty,
    their_read: Handle,
    their_write: Handle,
    before: Set<Handle>,
    open: Set<Handle>,
    answers: Seq<Answer<Seq<char>>>,
)
    requires
        handles.server != 0 ==> open.contains(handles.server),
        is_new(before, their_read),
        is_new(before, their_write),
        !master.held().contains(their_read),
        !master.held().contains(their_write),
        open == before.insert(their_read).insert(their_write).union(master.held().to_set()),
        all_fit(handoff_child(handles, startup, pid, size, master), open, answers),
    ensures
        ends_well(
            handoff_child(handles, startup, pid, size, master),
            their_read,
            their_write,
            before,
            open,
            answers,
        ),
{
    let f = open_child_talk(handles.server, pid);
    let k = lemma_embed(
        f,
        |begin| Handoff::<Seq<char>>::Child { startup, size, master, begin },
        |child: TermHostChild|
            Talk::<Handoff<Seq<char>>, HandoffEnd>::Done(
                Ok(handed_off(startup, size, master, child)),
            ),
        open,
        answers,
    );
    session_handle_stays_open(handles.server, pid, open, answers);
    if ended(f, open, answers) is Some {
        let (child, after) = ended(f, open, answers)->0;
        let held = child.held();
        assert(open.contains(their_read) && open.contains(their_write));
        assert forall|h: Handle| open.contains(h) implies !held.contains(h) by {
            if held.contains(h) {
                assert(held.to_set().contains(h));
                assert(!after.difference(held.to_set()).contains(h));
            }
        }
    }
}

proof fn lemma_master(
    handles: HandoffHandles,
    startup: Startup,
    pid: Option<u32>,
    their_read: Handle,
    our_write: Handle,
    our_read: Handle,
    their_write: Handle,
    size: PtySize,
    before: Set<Handle>,
    open: Set<Handle>,
    answers: Seq<Answer<Seq<char>>>,
)
    requires
        passed_in(handles, before),
        is_new(before, their_read),
        is_new(before, our_write),
        is_new(before, our_read),
        is_new(before, their_write),
        their_read != our_write,
        their_read != our_read,
        their_read != their_write,
        our_write != our_read,
        our_write != their_write,
        our_read != their_write,
        open == before.insert(their_read).insert(our_write).insert(our_read).insert(their_write),
        all_fit(
            handoff_master(handles, startup, pid, our_read, our_write, size),
            open,
            answers,
        ),
    ensures
        ends_well(
            handoff_master(handles, startup, pid, our_read, our_write, size),
            their_read,
            their_write,
            before,
            open,
            answers,
        ),
{
    let raw = raw_handles(handles, our_read, our_write);
    let f = open_talk(raw, size);
    let k = lemma_embed(
        f,
        |open| Handoff::<Seq<char>>::Master { handles, startup, pid, size, open },
        |master: RawHandlesMasterPty| handoff_child(handles, startup, pid, size, master),
        open,
        answers,
    );
    assert(delivered(raw, open));
    raw_inputs_stay_open(raw, size, open, answers);
    if ended(f, open, answers) is Some {
        let (master, after) = ended(f, open, answers)->0;
        let kept = before.insert(their_read).insert(their_write);
        assert forall|h: Handle| after.contains(h) == kept.union(
            master.held().to_set(),
        ).contains(h) by {
            lemma_listed(master, h);
        }
        assert(after =~= kept.union(master.held().to_set()));
        lemma_listed(master, their_read);
        lemma_listed(master, their_write);
        assert(!master.held().to_set().contains(their_read));
        assert(!master.held().to_set().contains(their_write));
        lemma_child(
            handles,
            startup,
            pid,
            size,
            master,
            their_read,
            their_write,
            before,
            after,
            answers.skip(k as int),
        );
    }
}

/// Whether a handoff, from a point on, uses open handles only, gives back what
/// it took if it fails, and accounts for everything if it succeeds.
pub open spec fn leaks_nothing(
    f: HandoffTalk,
    before: Set<Handle>,
    open: Set<Handle>,
    answers: Seq<Answer<Seq<char>>>,
) -> bool {
    &&& stays_open(f, open, answers)
    &&& ended(f, open, answers) matches Some((end, after)) ==> match end {
        Ok(session) => exists|r: Handle, w: Handle|
            accounted_for(session, r, w, before, after),
        Err(_) => after == before,
    }
}

proof fn lemma_step(
    f: HandoffTalk,
    before: Set<Handle>,
    open: Set<Handle>,
    answers: Seq<Answer<Seq<char>>>,
)
    requires
        f is Ask,
        uses_open(f->Ask_0, open),
        answers.len() > 0 ==> leaks_nothing(
            f->Ask_1.next(answers[0]),
            before,
            table_after(f->Ask_0, open, answers[0]),
            answers.skip(1),
        ),
    ensures
        leaks_nothing(f, before, open, answers),
{
}

proof fn lemma_give_back(
    their_read: Handle,
    our_write: Handle,
    cause: Seq<char>,
    before: Set<Handle>,
    answers: Seq<Answer<Seq<char>>>,
)
    requires
        is_new(before, their_read),
        is_new(before, our_write),
        their_read != our_write,
    ensures
        leaks_nothing(
            Talk::Ask(Call::Close(our_write), Handoff::CloseWrite { their_read, cause }),
            before,
            before.insert(their_read).insert(our_write),
            answers,
        ),
{
    let open = before.insert(their_read).insert(our_write);
    let f: HandoffTalk = Talk::Ask(
        Call::Close(our_write),
        Handoff::CloseWrite { their_read, cause },
    );
    assert(open.remove(our_write) =~= before.insert(their_read));
    assert(before.insert(their_read).remove(their_read) =~= before);
    if answers.len() > 0 {
        let g = f->Ask_1.next(answers[0]);
        lemma_step(g, before, before.insert(their_read), answers.skip(1));
    }
    lemma_step(f, before, open, answers);
}

proof fn lemma_published(
    handles: HandoffHandles,
    startup: Startup,
    pid: Option<u32>,
    their_read: Handle,
    our_write: Handle,
    our_read: Handle,
    their_write: Handle,
    before: Set<Handle>,
    open: Set<Handle>,
    answers: Seq<Answer<Seq<char>>>,
)
    requires
        passed_in(handles, before),
        is_new(before, their_read),
        is_new(before, our_write),
        is_new(before, our_read),
        is_new(before, their_write),
        their_read != our_write,
        their_read != our_read,
        their_read != their_write,
        our_write != our_read,
        our_write != their_write,
        our_read != their_write,
        open == before.insert(their_read).insert(our_write).insert(our_read).insert(their_write),
        all_fit(
            Talk::Ask(
                Call::Publish { in_handle: their_read, out_handle: their_write },
                Handoff::Publishing { handles, startup, pid, our_read, our_write },
            ),
            open,
            answers,
        ),
    ensures
        leaks_nothing(
            Talk::Ask(
                Call::Publish { in_handle: their_read, out_handle: their_write },
                Handoff::Publishing { handles, startup, pid, our_read, our_write },
            ),
            before,
            open,
            answers,
        ),
{
    let f0: HandoffTalk = Talk::Ask(
        Call::Publish { in_handle: their_read, out_handle: their_write },
        Handoff::Publishing { handles, startup, pid, our_read, our_write },
    );
    if answers.len() > 0 {
        let a1 = answers.skip(1);
        let f1 = f0->Ask_1.next(answers[0]);
        assert(all_fit(f1, open, a1));
        if a1.len() > 0 {
            let a2 = a1.skip(1);
            let f2 = f1->Ask_1.next(a1[0]);
            assert(all_fit(f2, open, a2));
            if a2.len() > 0 {
                let a3 = a2.skip(1);
                let f3 = f2->Ask_1.next(a2[0]);
                let size = wanted_size(startup, configured(a2[0]).0, configured(a2[0]).1);
                lemma_master(
                    handles,
                    startup,
                    pid,
                    their_read,
                    our_write,
                    our_read,
                    their_write,
                    size,
                    before,
                    open,
                    a3,
                );
                assert(leaks_nothing(f3, before, open, a3));
            }
            lemma_step(f2, before, open, a2);
        }
        lemma_step(f1, before, open, a1);
    }
    lemma_step(f0, before, open, answers);
}

proof fn lemma_pipes(
    handles: HandoffHandles,
    startup: Startup,
    pid: Option<u32>,
    before: Set<Handle>,
    answers: Seq<Answer<Seq<char>>>,
)
    requires
        passed_in(handles, before),
        all_fit(handoff_pipes(handles, startup, pid), before, answers),
    ensures
        leaks_nothing(handoff_pipes(handles, startup, pid), before, before, answers),
{
    let f0 = handoff_pipes(handles, startup, pid);
    if answers.len() > 0 {
        let a1 = answers.skip(1);
        let f1 = f0->Ask_1.next(answers[0]);
        match answers[0] {
            Answer::Pipe { read: their_read, write: our_write } => {
                let o1 = before.insert(their_read).insert(our_write);
                assert(all_fit(f1, o1, a1));
                if a1.len() > 0 {
                    let a2 = a1.skip(1);
                    let f2 = f1->Ask_1.next(a1[0]);
                    match a1[0] {
                        Answer::Pipe { read: our_read, write: their_write } => {
                            lemma_published(
                                handles,
                                startup,
                                pid,
                                their_read,
                                our_write,
                                our_read,
                                their_write,
                                before,
                                o1.insert(our_read).insert(their_write),
                                a2,
                            );
                        },
                        _ => {
                            lemma_give_back(
                                their_read,
                                our_write,
                                a1[0].failure(),
                                before,
                                a2,
                            );
                        },
                    }
                }
                lemma_step(f1, before, o1, a1);
            },
            _ => {},
        }
    }
    lemma_step(f0, before, before, answers);
}

/// A handoff uses no handle that is not open, whatever the kernel answers. If
/// it fails, every handle that it made is closed again. If it succeeds, the two
/// ends that were passed out and what the session holds are all that was added,
/// nothing is held twice, and all that Windows passed in is as open as before.
pub proof fn handoff_leaks_no_handle(
    handles: HandoffHandles,
    startup: Startup,
    open: Set<Handle>,
    answers: Seq<Answer<Seq<char>>>,
)
    requires
        passed_in(handles, open),
        all_fit(handoff_talk(handles, startup), open, answers),
    ensures
        stays_open(handoff_talk(handles, startup), open, answers),
        ended(handoff_talk(handles, startup), open, answers) matches Some((end, after)) ==> {
            &&& open.subset_of(after)
            &&& match end {
                Ok(session) => exists|r: Handle, w: Handle|
                    accounted_for(session, r, w, open, after),
                Err(_) => after == open,
            }
        },
{
    let f = handoff_talk(handles, startup);
    if handles.client == 0 {
        lemma_pipes(handles, startup, None, open, answers);
    } else {
        if answers.len() > 0 {
            lemma_pipes(
                handles,
                startup,
                reported_pid(handles.client, answers[0]),
                open,
                answers.skip(1),
            );
        }
        lemma_step(f, open, open, answers);
    }
    assert(leaks_nothing(f, open, open, answers));
}

// ---------------------------------------------------------------------------
// Publication
// ---------------------------------------------------------------------------

/// Whether nothing is passed out or recorded.
pub open spec fn keeps_quiet(calls: Seq<Call>) -> bool {
    forall|i: int|
        0 <= i < calls.len() ==> !((#[trigger] calls[i]) is Publish) && !(calls[i] is MarkReceived)
}

/// Whether the console's ends are passed out before the call at `i`.
pub open spec fn published_before(calls: Seq<Call>, i: int) -> bool {
    exists|j: int| 0 <= j < i && (#[trigger] calls[j]) is Publish
}

/// Whether a handoff is recorded only after the console's ends were passed out.
pub open spec fn records_in_order(calls: Seq<Call>) -> bool {
    forall|i: int|
        0 <= i < calls.len() && (#[trigger] calls[i]) is MarkReceived ==> published_before(
            calls,
            i,
        )
}

/// A handoff that was recorded.
pub open spec fn settled(f: HandoffTalk) -> bool {
    match f {
        Talk::Ask(c, m) => {
            &&& m is Sizing || m is Master || m is Child
            &&& !(c is Publish) && !(c is MarkReceived)
        },
        Talk::Done(end) => end is Ok,
    }
}

proof fn lemma_settled(f: HandoffTalk, open: Set<Handle>, answers: Seq<Answer<Seq<char>>>)
    requires
        settled(f),
    ensures
        keeps_quiet(calls(f, answers)),
        ended(f, open, answers) matches Some((end, after)) ==> end is Ok,
    decreases answers.len(),
{
    if f is Ask && answers.len() > 0 {
        let g = f->Ask_1.next(answers[0]);
        assert(settled(g));
        lemma_settled(g, table_after(f->Ask_0, open, answers[0]), answers.skip(1));
    }
}

/// What is to be shown of a handoff from a point before publication.
pub open spec fn publishes_first(
    f: HandoffTalk,
    open: Set<Handle>,
    answers: Seq<Answer<Seq<char>>>,
) -> bool {
    &&& records_in_order(calls(f, answers))
    &&& ended(f, open, answers) matches Some((end, after)) ==> (end is Err ==> keeps_quiet(
        calls(f, answers),
    ))
}

proof fn lemma_quiet_step(
    f: HandoffTalk,
    open: Set<Handle>,
    answers: Seq<Answer<Seq<char>>>,
)
    requires
        f is Ask,
        !(f->Ask_0 is Publish),
        !(f->Ask_0 is MarkReceived),
        answers.len() > 0 ==> publishes_first(
            f->Ask_1.next(answers[0]),
            table_after(f->Ask_0, open, answers[0]),
            answers.skip(1),
        ),
    ensures
        publishes_first(f, open, answers),
{
    if answers.len() > 0 {
        let rest = calls(f->Ask_1.next(answers[0]), answers.skip(1));
        let all = calls(f, answers);
        assert(all =~= seq![f->Ask_0] + rest);
        assert forall|i: int|
            0 <= i < all.len() && (#[trigger] all[i]) is MarkReceived implies published_before(
            all,
            i,
        ) by {
            assert(all[i] == rest[i - 1]);
            assert(published_before(rest, i - 1));
            let j = choose|j: int| 0 <= j < i - 1 && (#[trigger] rest[j]) is Publish;
            assert(all[j + 1] is Publish);
        }
        if keeps_quiet(rest) {
            assert forall|i: int| 0 <= i < all.len() implies !((#[trigger] all[i]) is Publish)
                && !(all[i] is MarkReceived) by {
                if i > 0 {
                    assert(all[i] == rest[i - 1]);
                }
            }
        }
    }
}

proof fn lemma_publish(
    handles: HandoffHandles,
    startup: Startup,
    pid: Option<u32>,
    their_read: Handle,
    their_write: Handle,
    our_read: Handle,
    our_write: Handle,
    open: Set<Handle>,
    answers: Seq<Answer<Seq<char>>>,
)
    ensures
        publishes_first(
            Talk::Ask(
                Call::Publish { in_handle: their_read, out_handle: their_write },
                Handoff::Publishing { handles, startup, pid, our_read, our_write },
            ),
            open,
            answers,
        ),
{
    let f0: HandoffTalk = Talk::Ask(
        Call::Publish { in_handle: their_read, out_handle: their_write },
        Handoff::Publishing { handles, startup, pid, our_read, our_write },
    );
    if answers.len() > 0 {
        let a1 = answers.skip(1);
        let f1 = f0->Ask_1.next(answers[0]);
        if a1.len() > 0 {
            let a2 = a1.skip(1);
            let f2 = f1->Ask_1.next(a1[0]);
            lemma_settled(f2, open, a2);
            assert(ended(f1, open, a1) == ended(f2, open, a2));
        } else {
            assert(ended(f1, open, a1) is None);
        }
        assert(ended(f0, open, answers) == ended(f1, open, a1));
    }
    assert(calls(f0, answers)[0] == f0->Ask_0);
    assert forall|i: int|
        0 <= i < calls(f0, answers).len() && (#[trigger] calls(f0, answers)[i]) is MarkReceived
        implies published_before(calls(f0, answers), i) by {
        assert(i > 0);
    }
}

/// A handoff is recorded only after the console's ends were passed out. One
/// that fails neither passes anything out nor is recorded, so that Windows
/// falls back to its own console and the wait for a handoff goes on.
pub proof fn received_means_published(
    handles: HandoffHandles,
    startup: Startup,
    open: Set<Handle>,
    answers: Seq<Answer<Seq<char>>>,
)
    ensures
        records_in_order(calls(handoff_talk(handles, startup), answers)),
        ended(handoff_talk(handles, startup), open, answers) matches Some((end, after)) ==> (
        end is Err ==> keeps_quiet(calls(handoff_talk(handles, startup), answers))),
{
    let f = handoff_talk(handles, startup);
    if handles.client == 0 {
        lemma_pipes_publish(handles, startup, None, open, answers);
    } else {
        if answers.len() > 0 {
            lemma_pipes_publish(
                handles,
                startup,
                reported_pid(handles.client, answers[0]),
                open,
                answers.skip(1),
            );
        }
        lemma_quiet_step(f, open, answers);
    }
    assert(publishes_first(f, open, answers));
}

proof fn lemma_pipes_publish(
    handles: HandoffHandles,
    startup: Startup,
    pid: Option<u32>,
    open: Set<Handle>,
    answers: Seq<Answer<Seq<char>>>,
)
    ensures
        publishes_first(handoff_pipes(handles, startup, pid), open, answers),
{
    let f0 = handoff_pipes(handles, startup, pid);
    if answers.len() > 0 {
        let a1 = answers.skip(1);
        let f1 = f0->Ask_1.next(answers[0]);
        let o1 = table_after(f0->Ask_0, open, answers[0]);
        if answers[0] is Pipe {
            if a1.len() > 0 {
                let a2 = a1.skip(1);
                let f2 = f1->Ask_1.next(a1[0]);
                let o2 = table_after(f1->Ask_0, o1, a1[0]);
                if a1[0] is Pipe {
                    lemma_publish(
                        handles,
                        startup,
                        pid,
                        answers[0]->read,
                        a1[0]->write,
                        a1[0]->read,
                        answers[0]->write,
                        o2,
                        a2,
                    );
                } else {
                    if a2.len() > 0 {
                        let f3 = f2->Ask_1.next(a2[0]);
                        let o3 = table_after(f2->Ask_0, o2, a2[0]);
                        lemma_quiet_step(f3, o3, a2.skip(1));
                    }
                    lemma_quiet_step(f2, o2, a2);
                }
            }
            lemma_quiet_step(f1, o1, a1);
        }
    }
    lemma_quiet_step(f0, open, answers);
}

// ---------------------------------------------------------------------------
// The end
// ---------------------------------------------------------------------------

proof fn lemma_master_ends(
    handles: HandoffHandles,
    startup: Startup,
    pid: Option<u32>,
    our_read: Handle,
    our_write: Handle,
    size: PtySize,
)
    ensures
        ends_within(handoff_master(handles, startup, pid, our_read, our_write, size), 6),
{
    assert(ends_within(open_talk(raw_handles(handles, our_read, our_write), size), 4)) by {
        reveal_with_fuel(ends_within, 5);
    }
    assert forall|master: RawHandlesMasterPty|
        ends_within(#[trigger] handoff_child(handles, startup, pid, size, master), 2) by {
        assert(ends_within(open_child_talk(handles.server, pid), 2)) by {
            reveal_with_fuel(ends_within, 3);
        }
        lemma_embed_ends(
            open_child_talk(handles.server, pid),
            |begin| Handoff::<Seq<char>>::Child { startup, size, master, begin },
            |child: TermHostChild|
                Talk::<Handoff<Seq<char>>, HandoffEnd>::Done(
                    Ok(handed_off(startup, size, master, child)),
                ),
            2,
            0,
        );
    }
    lemma_embed_ends(
        open_talk(raw_handles(handles, our_read, our_write), size),
        |open| Handoff::<Seq<char>>::Master { handles, startup, pid, size, open },
        |master: RawHandlesMasterPty| handoff_child(handles, startup, pid, size, master),
        4,
        2,
    );
}

/// A handoff ends after at most a dozen calls, whatever the kernel answers.
pub proof fn handoff_ends(handles: HandoffHandles, startup: Startup)
    ensures
        ends_within(handoff_talk(handles, startup), 12),
{
    assert forall|pid: Option<u32>, our_read: Handle, our_write: Handle, a: Answer<Seq<char>>|
        ends_within(
            #[trigger] (Handoff::Sizing { handles, startup, pid, our_read, our_write }).next(a),
            6,
        ) by {
        let size = wanted_size(startup, configured(a).0, configured(a).1);
        lemma_master_ends(handles, startup, pid, our_read, our_write, size);
    }
    assert forall|pid: Option<u32>, our_read: Handle, our_write: Handle, a: Answer<Seq<char>>|
        ends_within(
            #[trigger] (Handoff::Marking { handles, startup, pid, our_read, our_write }).next(a),
            7,
        ) by {}
    assert forall|pid: Option<u32>, our_read: Handle, our_write: Handle, a: Answer<Seq<char>>|
        ends_within(
            #[trigger] (Handoff::Publishing { handles, startup, pid, our_read, our_write }).next(a),
            8,
        ) by {}
    assert forall|pid: Option<u32>, their_read: Handle, our_write: Handle, a: Answer<Seq<char>>|
        ends_within(
            #[trigger] (Handoff::Stdout { handles, startup, pid, their_read, our_write }).next(a),
            9,
        ) by {
        reveal_with_fuel(ends_within, 4);
    }
    assert forall|pid: Option<u32>, a: Answer<Seq<char>>|
        ends_within(#[trigger] (Handoff::Stdin { handles, startup, pid }).next(a), 10) by {}
    assert forall|pid: Option<u32>|
        ends_within(#[trigger] handoff_pipes(handles, startup, pid), 11) by {}
    if handles.client == 0 {
        lemma_ends_later(handoff_pipes(handles, startup, None), 11, 12);
    } else {
        let m = Handoff::Client { handles, startup };
        assert forall|a: Answer<Seq<char>>| ends_within(#[trigger] m.next(a), 11) by {}
    }
}

} // verus!
