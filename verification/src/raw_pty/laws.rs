//! What becomes of the handles.

use crate::host::Handle;
use crate::kernel::{embed, Answer, Call, Conversing, Talk};
use crate::raw_pty::child::{
    open_child_talk, wait_close, wait_result, wait_talk, Ended, TryWait, Wait,
};
use crate::raw_pty::master::{
    le_bytes, open_close, open_reference, open_signal, open_talk, resize_packet,
    OpenMaster, RawHandles, RawHandlesMasterPty, PTY_SIGNAL_RESIZE_WINDOW,
};
use crate::raw_pty::{listed, non_null, PtySize};
use vstd::prelude::*;

verus! {

// ---------------------------------------------------------------------------
// The handle table of the process
// ---------------------------------------------------------------------------

/// Whether a handle is new: not null and not open.
pub open spec fn is_new(open: Set<Handle>, h: Handle) -> bool {
    h != 0 && !open.contains(h)
}

/// Whether an answer fits a call: a handle that the kernel makes is new.
pub open spec fn fits(call: Call, open: Set<Handle>, answer: Answer<Seq<char>>) -> bool {
    match call {
        Call::Duplicate(_) | Call::OpenForTermination(_) => match answer {
            Answer::Handle(h) => is_new(open, h),
            _ => true,
        },
        Call::CreatePipe { .. } => match answer {
            Answer::Pipe { read, write } => is_new(open, read) && is_new(open, write) && read
                != write,
            _ => true,
        },
        _ => true,
    }
}

/// The open handles after a call.
pub open spec fn table_after(
    call: Call,
    open: Set<Handle>,
    answer: Answer<Seq<char>>,
) -> Set<Handle> {
    match call {
        Call::Duplicate(_) | Call::OpenForTermination(_) => match answer {
            Answer::Handle(h) => open.insert(h),
            _ => open,
        },
        Call::CreatePipe { .. } => match answer {
            Answer::Pipe { read, write } => open.insert(read).insert(write),
            _ => open,
        },
        Call::Close(h) => open.remove(h),
        _ => open,
    }
}

/// Whether a call uses open handles only.
pub open spec fn uses_open(call: Call, open: Set<Handle>) -> bool {
    match call {
        Call::Duplicate(h) => open.contains(h),
        Call::Close(h) => open.contains(h),
        Call::Terminate(h, _) => open.contains(h),
        Call::Wait(h, _) => open.contains(h),
        Call::ExitCode(h) => open.contains(h),
        Call::ProcessId(h) => open.contains(h),
        Call::Publish { in_handle, out_handle } => open.contains(in_handle) && open.contains(
            out_handle,
        ),
        _ => true,
    }
}

/// Whether the answers fit the calls of an operation.
pub open spec fn all_fit<M: Conversing<T>, T>(
    f: Talk<M, T>,
    open: Set<Handle>,
    answers: Seq<Answer<Seq<char>>>,
) -> bool
    decreases answers.len(),
{
    match f {
        Talk::Done(_) => true,
        Talk::Ask(c, m) => answers.len() > 0 ==> {
            &&& fits(c, open, answers[0])
            &&& all_fit(m.next(answers[0]), table_after(c, open, answers[0]), answers.skip(1))
        },
    }
}

/// Whether an operation uses open handles only, while the answers come in.
pub open spec fn stays_open<M: Conversing<T>, T>(
    f: Talk<M, T>,
    open: Set<Handle>,
    answers: Seq<Answer<Seq<char>>>,
) -> bool
    decreases answers.len(),
{
    match f {
        Talk::Done(_) => true,
        Talk::Ask(c, m) => {
            &&& uses_open(c, open)
            &&& answers.len() > 0 ==> stays_open(
                m.next(answers[0]),
                table_after(c, open, answers[0]),
                answers.skip(1),
            )
        },
    }
}

/// The result of an operation with the handles that are open then. `None` if
/// more answers have to come.
pub open spec fn ended<M: Conversing<T>, T>(
    f: Talk<M, T>,
    open: Set<Handle>,
    answers: Seq<Answer<Seq<char>>>,
) -> Option<(T, Set<Handle>)>
    decreases answers.len(),
{
    match f {
        Talk::Done(t) => Some((t, open)),
        Talk::Ask(c, m) => if answers.len() == 0 {
            None
        } else {
            ended(m.next(answers[0]), table_after(c, open, answers[0]), answers.skip(1))
        },
    }
}

/// What an operation asks for while answers come in.
pub open spec fn calls<M: Conversing<T>, T>(
    f: Talk<M, T>,
    answers: Seq<Answer<Seq<char>>>,
) -> Seq<Call>
    decreases answers.len(),
{
    match f {
        Talk::Done(_) => seq![],
        Talk::Ask(c, m) => if answers.len() == 0 {
            seq![c]
        } else {
            seq![c] + calls(m.next(answers[0]), answers.skip(1))
        },
    }
}

/// A part of an operation goes as it would alone, and its result is handed on.
/// `k` is the number of answers that the part takes.
pub proof fn lemma_embed<M: Conversing<T>, T, C: Conversing<U>, U>(
    f: Talk<M, T>,
    wrap: spec_fn(M) -> C,
    cont: spec_fn(T) -> Talk<C, U>,
    open: Set<Handle>,
    answers: Seq<Answer<Seq<char>>>,
) -> (k: nat)
    requires
        forall|m: M, a: Answer<Seq<char>>| #[trigger]
            wrap(m).next(a) == embed(m.next(a), wrap, cont),
        all_fit(embed(f, wrap, cont), open, answers),
    ensures
        k <= answers.len(),
        all_fit(f, open, answers),
        match ended(f, open, answers) {
            None => {
                &&& ended(embed(f, wrap, cont), open, answers) is None
                &&& stays_open(embed(f, wrap, cont), open, answers) == stays_open(
                    f,
                    open,
                    answers,
                )
            },
            Some((t, after)) => {
                let rest = answers.skip(k as int);
                &&& all_fit(cont(t), after, rest)
                &&& ended(embed(f, wrap, cont), open, answers) == ended(cont(t), after, rest)
                &&& stays_open(embed(f, wrap, cont), open, answers) == (stays_open(
                    f,
                    open,
                    answers,
                ) && stays_open(cont(t), after, rest))
            },
        },
    decreases answers.len(),
{
    match f {
        Talk::Done(t) => {
            assert(answers.skip(0) =~= answers);
            0
        },
        Talk::Ask(c, m) => {
            if answers.len() == 0 {
                0
            } else {
                let f2 = m.next(answers[0]);
                let open2 = table_after(c, open, answers[0]);
                let rest = answers.skip(1);
                assert(wrap(m).next(answers[0]) == embed(f2, wrap, cont));
                let k = lemma_embed(f2, wrap, cont, open2, rest);
                assert(rest.skip(k as int) =~= answers.skip((k + 1) as int));
                k + 1
            }
        },
    }
}

/// The open handles after a list of them was closed.
pub open spec fn all_closed(open: Set<Handle>, handles: Seq<Handle>) -> Set<Handle> {
    open.difference(handles.to_set())
}

// ---------------------------------------------------------------------------
// The pseudo terminal
// ---------------------------------------------------------------------------

/// Whether the handles of a handoff are open where they are not null, and the
/// write handle is none of the others.
pub open spec fn delivered(raw: RawHandles, open: Set<Handle>) -> bool {
    &&& raw.read != 0 ==> open.contains(raw.read)
    &&& raw.write != 0 ==> open.contains(raw.write)
    &&& raw.signal != 0 ==> open.contains(raw.signal)
    &&& raw.reference != 0 ==> open.contains(raw.reference)
    &&& raw.write != 0 ==> raw.write != raw.read && raw.write != raw.signal && raw.write
        != raw.reference
}

/// Whether `h` is a duplicate that was made after `before`.
pub open spec fn made_since(before: Set<Handle>, h: Option<Handle>) -> bool {
    h matches Some(h) ==> is_new(before, h)
}

/// Whether two handles are not the same one.
pub open spec fn apart(a: Option<Handle>, b: Option<Handle>) -> bool {
    a is Some && b is Some ==> a != b
}

/// Where the handles of a pseudo terminal come from: the read handle is the one
/// delivered, the others were made since, each for itself.
pub open spec fn well_founded(
    pty: RawHandlesMasterPty,
    raw: RawHandles,
    before: Set<Handle>,
) -> bool {
    &&& pty.read == non_null(raw.read)
    &&& made_since(before, pty.write)
    &&& made_since(before, pty.signal)
    &&& made_since(before, pty.reference)
    &&& apart(pty.write, pty.signal)
    &&& apart(pty.write, pty.reference)
    &&& apart(pty.signal, pty.reference)
}

/// The handles that a pseudo terminal has had made.
pub open spec fn made(pty: RawHandlesMasterPty) -> Seq<Handle> {
    listed(pty.write) + listed(pty.signal) + listed(pty.reference)
}

/// What holds when a pseudo terminal is complete.
pub open spec fn complete(
    pty: RawHandlesMasterPty,
    raw: RawHandles,
    size: PtySize,
    before: Set<Handle>,
    after: Set<Handle>,
) -> bool {
    &&& pty.size == size
    &&& well_founded(pty, raw, before)
    &&& after == before.remove(raw.write).union(made(pty).to_set())
}

pub proof fn lemma_listed(pty: RawHandlesMasterPty, h: Handle)
    ensures
        made(pty).to_set().contains(h) <==> pty.write == Some(h) || pty.signal == Some(h)
            || pty.reference == Some(h),
        pty.held().to_set().contains(h) <==> made(pty).to_set().contains(h) || pty.read == Some(h),
{
    let s = made(pty);
    let all = pty.held();
    if pty.write == Some(h) {
        assert(s[0] == h && all[0] == h);
    }
    if pty.signal == Some(h) {
        let i = listed(pty.write).len() as int;
        assert(s[i] == h && all[i] == h);
    }
    if pty.reference == Some(h) {
        let i = (listed(pty.write).len() + listed(pty.signal).len()) as int;
        assert(s[i] == h && all[i] == h);
    }
    if pty.read == Some(h) {
        let i = s.len() as int;
        assert(all[i] == h);
    }
}

/// What holds while a pseudo terminal is built.
pub open spec fn in_progress(
    pty: RawHandlesMasterPty,
    raw: RawHandles,
    before: Set<Handle>,
    open: Set<Handle>,
) -> bool {
    &&& delivered(raw, before)
    &&& !before.contains(0)
    &&& well_founded(pty, raw, before)
    &&& forall|h: Handle| #[trigger]
        open.contains(h) <==> before.contains(h) || pty.write == Some(h) || pty.signal == Some(h)
            || pty.reference == Some(h)
}

/// What a construction promises from a point on.
pub open spec fn keeps_promise(
    f: Talk<OpenMaster, RawHandlesMasterPty>,
    raw: RawHandles,
    size: PtySize,
    before: Set<Handle>,
    open: Set<Handle>,
    answers: Seq<Answer<Seq<char>>>,
) -> bool {
    &&& stays_open(f, open, answers)
    &&& ended(f, open, answers) matches Some((pty, after)) ==> complete(
        pty,
        raw,
        size,
        before,
        after,
    )
}

proof fn lemma_close(
    raw: RawHandles,
    pty: RawHandlesMasterPty,
    before: Set<Handle>,
    open: Set<Handle>,
    answers: Seq<Answer<Seq<char>>>,
)
    requires
        in_progress(pty, raw, before, open),
    ensures
        keeps_promise(open_close(raw, pty), raw, pty.size, before, open, answers),
{
    reveal_with_fuel(stays_open, 2);
    reveal_with_fuel(ended, 2);
    let after = if raw.write == 0 {
        open
    } else {
        open.remove(raw.write)
    };
    assert(after =~= before.remove(raw.write).union(made(pty).to_set())) by {
        assert forall|h: Handle| after.contains(h) == before.remove(raw.write).union(
            made(pty).to_set(),
        ).contains(h) by {
            lemma_listed(pty, h);
        }
    }
}

proof fn lemma_reference(
    raw: RawHandles,
    pty: RawHandlesMasterPty,
    before: Set<Handle>,
    open: Set<Handle>,
    answers: Seq<Answer<Seq<char>>>,
)
    requires
        in_progress(pty, raw, before, open),
        pty.reference is None,
        all_fit(open_reference(raw, pty), open, answers),
    ensures
        keeps_promise(open_reference(raw, pty), raw, pty.size, before, open, answers),
{
    if raw.reference == 0 {
        lemma_close(raw, pty, before, open, answers);
    } else if answers.len() > 0 {
        let c = Call::Duplicate(raw.reference);
        let pty2 = RawHandlesMasterPty { reference: answers[0].handle(), ..pty };
        lemma_close(raw, pty2, before, table_after(c, open, answers[0]), answers.skip(1));
    }
}

proof fn lemma_signal(
    raw: RawHandles,
    pty: RawHandlesMasterPty,
    before: Set<Handle>,
    open: Set<Handle>,
    answers: Seq<Answer<Seq<char>>>,
)
    requires
        in_progress(pty, raw, before, open),
        pty.signal is None,
        pty.reference is None,
        all_fit(open_signal(raw, pty), open, answers),
    ensures
        keeps_promise(open_signal(raw, pty), raw, pty.size, before, open, answers),
{
    if raw.signal == 0 {
        lemma_reference(raw, pty, before, open, answers);
    } else if answers.len() > 0 {
        let c = Call::Duplicate(raw.signal);
        let pty2 = RawHandlesMasterPty { signal: answers[0].handle(), ..pty };
        lemma_reference(raw, pty2, before, table_after(c, open, answers[0]), answers.skip(1));
    }
}

/// Building a pseudo terminal uses no handle that is not open, whatever can be
/// duplicated. Once it is built, the raw write handle is closed and nothing
/// else is: the raw signal and reference handles are as open as before, and the
/// pseudo terminal holds duplicates of its own.
pub proof fn raw_inputs_stay_open(
    raw: RawHandles,
    size: PtySize,
    open: Set<Handle>,
    answers: Seq<Answer<Seq<char>>>,
)
    requires
        delivered(raw, open),
        !open.contains(0),
        all_fit(open_talk(raw, size), open, answers),
    ensures
        stays_open(open_talk(raw, size), open, answers),
        ended(open_talk(raw, size), open, answers) matches Some((pty, after)) ==> {
            &&& complete(pty, raw, size, open, after)
            &&& raw.signal != 0 ==> after.contains(raw.signal) && pty.signal != Some(raw.signal)
            &&& raw.reference != 0 ==> after.contains(raw.reference) && pty.reference != Some(
                raw.reference,
            )
            &&& !after.contains(raw.write)
        },
{
    let pty = RawHandlesMasterPty {
        read: non_null(raw.read),
        write: None,
        signal: None,
        reference: None,
        size,
    };
    if raw.write == 0 {
        lemma_signal(raw, pty, open, open, answers);
    } else if answers.len() > 0 {
        let c = Call::Duplicate(raw.write);
        let pty2 = RawHandlesMasterPty { write: answers[0].handle(), ..pty };
        lemma_signal(raw, pty2, open, table_after(c, open, answers[0]), answers.skip(1));
    }
    assert(keeps_promise(open_talk(raw, size), raw, size, open, open, answers));
    if ended(open_talk(raw, size), open, answers) is Some {
        let (pty, after) = ended(open_talk(raw, size), open, answers)->0;
        lemma_listed(pty, raw.write);
    }
}

/// Closing what a pseudo terminal holds closes each of its handles once and
/// leaves no trace: then exactly the raw read and write handles are gone.
pub proof fn closing_leaves_no_handle(
    pty: RawHandlesMasterPty,
    raw: RawHandles,
    size: PtySize,
    before: Set<Handle>,
    after: Set<Handle>,
)
    requires
        delivered(raw, before),
        !before.contains(0),
        complete(pty, raw, size, before, after),
    ensures
        pty.held().no_duplicates(),
        forall|i: int| 0 <= i < pty.held().len() ==> after.contains(#[trigger] pty.held()[i]),
        all_closed(after, pty.held()) == before.remove(raw.read).remove(raw.write),
{
    let held = pty.held();
    assert(all_closed(after, held) =~= before.remove(raw.read).remove(raw.write)) by {
        assert forall|h: Handle| all_closed(after, held).contains(h) == before.remove(
            raw.read,
        ).remove(raw.write).contains(h) by {
            lemma_listed(pty, h);
        }
    }
    assert forall|i: int| 0 <= i < held.len() implies after.contains(#[trigger] held[i]) by {
        lemma_listed(pty, held[i]);
        assert(held.to_set().contains(held[i]));
    }
    assert(held.no_duplicates());
}

/// A resize packet reads back: its three numbers are the identifier, the
/// columns and the rows.
pub proof fn resize_packet_reads_back(size: PtySize)
    ensures
        resize_packet(size).len() == 6,
        resize_packet(size)[0] + 256 * resize_packet(size)[1] == PTY_SIGNAL_RESIZE_WINDOW,
        resize_packet(size)[2] + 256 * resize_packet(size)[3] == size.cols,
        resize_packet(size)[4] + 256 * resize_packet(size)[5] == size.rows,
{
    assert(le_bytes(size.cols)[0] + 256 * le_bytes(size.cols)[1] == size.cols);
    assert(le_bytes(size.rows)[0] + 256 * le_bytes(size.rows)[1] == size.rows);
}

// ---------------------------------------------------------------------------
// The process
// ---------------------------------------------------------------------------

/// Building the process side of a session uses no handle that is not open and
/// closes none: the session handle stays the caller's. What was made is exactly
/// what the value holds.
pub proof fn session_handle_stays_open(
    session: Handle,
    client_pid: Option<u32>,
    open: Set<Handle>,
    answers: Seq<Answer<Seq<char>>>,
)
    requires
        session != 0 ==> open.contains(session),
        all_fit(open_child_talk(session, client_pid), open, answers),
    ensures
        stays_open(open_child_talk(session, client_pid), open, answers),
        ended(open_child_talk(session, client_pid), open, answers) matches Some((child, after))
            ==> {
            &&& child.client_pid == client_pid
            &&& after == open.union(child.held().to_set())
            &&& all_closed(after, child.held()) == open
            &&& child.session_handle != Some(session)
        },
{
    let f = open_child_talk(session, client_pid);
    reveal_with_fuel(all_fit, 3);
    reveal_with_fuel(stays_open, 3);
    reveal_with_fuel(ended, 3);
    if ended(f, open, answers) is Some {
        let (child, after) = ended(f, open, answers)->0;
        let held = child.held();
        assert forall|h: Handle| held.to_set().contains(h) <==> child.session_handle == Some(h)
            || child.killer_handle == Some(h) by {
            if child.session_handle == Some(h) {
                assert(held[0] == h);
            }
            if child.killer_handle == Some(h) {
                assert(held[listed(child.session_handle).len() as int] == h);
            }
        }
        assert(after =~= open.union(held.to_set()));
        assert(all_closed(after, held) =~= open);
    }
}

/// Whether a wait, from a point on, uses open handles only and ends with
/// exactly `open` open.
pub open spec fn tidies_up(
    f: Talk<Wait<Seq<char>>, Ended>,
    now: Set<Handle>,
    open: Set<Handle>,
    answers: Seq<Answer<Seq<char>>>,
) -> bool {
    &&& stays_open(f, now, answers)
    &&& ended(f, now, answers) matches Some((r, after)) ==> after == open
}

proof fn lemma_tidy_step(
    f: Talk<Wait<Seq<char>>, Ended>,
    now: Set<Handle>,
    open: Set<Handle>,
    answers: Seq<Answer<Seq<char>>>,
)
    requires
        f is Ask,
        uses_open(f->Ask_0, now),
        answers.len() > 0 ==> tidies_up(
            f->Ask_1.next(answers[0]),
            table_after(f->Ask_0, now, answers[0]),
            open,
            answers.skip(1),
        ),
    ensures
        tidies_up(f, now, open, answers),
{
}

proof fn lemma_wait_close(
    result: Ended,
    clone: Handle,
    open: Set<Handle>,
    answers: Seq<Answer<Seq<char>>>,
)
    requires
        is_new(open, clone),
    ensures
        tidies_up(wait_close(clone, result), open.insert(clone), open, answers),
{
    assert(open.insert(clone).remove(clone) =~= open);
    lemma_tidy_step(wait_close(clone, result), open.insert(clone), open, answers);
}

proof fn lemma_wait_look(
    look: TryWait,
    session: Handle,
    clone: Handle,
    open: Set<Handle>,
    answers: Seq<Answer<Seq<char>>>,
)
    requires
        open.contains(session),
        is_new(open, clone),
        answers.len() > 0,
        look == TryWait::Polling(session) || look is Code,
    ensures
        tidies_up(
            (Wait::Status { clone, look }).next(answers[0]),
            open.insert(clone),
            open,
            answers.skip(1),
        ),
    decreases answers.len(),
{
    let rest = answers.skip(1);
    let f = (Wait::Status { clone, look }).next(answers[0]);
    match look.next(answers[0]) {
        Talk::Done(found) => {
            lemma_wait_close(wait_result(found), clone, open, rest);
        },
        Talk::Ask(c, next) => {
            if rest.len() > 0 {
                lemma_wait_look(next, session, clone, open, rest);
            }
            lemma_tidy_step(f, open.insert(clone), open, rest);
        },
    }
}

proof fn lemma_wait_blocked(
    session: Handle,
    clone: Handle,
    open: Set<Handle>,
    answers: Seq<Answer<Seq<char>>>,
)
    requires
        open.contains(session),
        is_new(open, clone),
        answers.len() > 0,
    ensures
        tidies_up(
            (Wait::Blocking { session, clone }).next(answers[0]),
            open.insert(clone),
            open,
            answers.skip(1),
        ),
{
    let rest = answers.skip(1);
    let f = (Wait::<Seq<char>>::Blocking { session, clone }).next(answers[0]);
    if f->Ask_0 is Close {
        lemma_wait_close(f->Ask_1->result, clone, open, rest);
    } else {
        if rest.len() > 0 {
            lemma_wait_look(TryWait::Polling(session), session, clone, open, rest);
        }
        lemma_tidy_step(f, open.insert(clone), open, rest);
    }
}

/// Waiting for a session leaves the handles as they were: the duplicate that it
/// blocks on is closed in the end, whatever came of the wait.
pub proof fn wait_leaves_no_handle(
    session: Option<Handle>,
    open: Set<Handle>,
    answers: Seq<Answer<Seq<char>>>,
)
    requires
        session matches Some(h) ==> open.contains(h),
        all_fit(wait_talk(session), open, answers),
    ensures
        stays_open(wait_talk(session), open, answers),
        ended(wait_talk(session), open, answers) matches Some((r, after)) ==> after == open,
{
    if session is Some {
        let f = wait_talk(session);
        if answers.len() > 0 && answers[0].handle() is Some {
            let clone = answers[0].handle()->0;
            let rest = answers.skip(1);
            if rest.len() > 0 {
                lemma_wait_blocked(session->0, clone, open, rest);
            }
            lemma_tidy_step(f->Ask_1.next(answers[0]), open.insert(clone), open, rest);
        }
        lemma_tidy_step(f, open, open, answers);
    }
}

} // verus!
