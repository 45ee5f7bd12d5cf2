//! What the handles refer to, and what the operations on a session do with it.

use crate::host::Handle;
use crate::kernel::{embed, Answer, Call, Conversing, Talk};
use crate::model::Model;
use crate::raw_pty::child::{
    open_child_talk, try_wait_talk, wait_talk, CopyKiller, ExitStatus, TermHostChild,
    TermHostKiller, Terminating, TryWait, Wait,
};
use crate::raw_pty::laws::{all_fit, is_new, table_after};
use crate::raw_pty::master::{
    clone_reader_talk, open_talk, RawHandles, RawHandlesMasterPty, Resizing, WriteOutcome,
};
use crate::raw_pty::{PtyError, PtySize};
use vstd::prelude::*;

verus! {

// ---------------------------------------------------------------------------
// The objects of the kernel
// ---------------------------------------------------------------------------

/// What a handle refers to.
pub enum Object {
    /// Something that was there before.
    Known(int),
    /// The end of a pipe that is read from. Pipes are numbered.
    ReadEnd(nat),
    /// The end of a pipe that is written to.
    WriteEnd(nat),
    /// A process, to be terminated.
    Process(u32),
}

/// The kernel as seen from outside: what each open handle refers to, and what
/// was asked for so far.
pub struct Ledger {
    pub objects: Map<Handle, Object>,
    /// The handles that a child process inherits.
    pub inherited: Set<Handle>,
    /// How many pipes were made.
    pub pipes: nat,
    /// Why the last pipe was not made.
    pub no_pipe: Option<Seq<char>>,
    /// How many handles were asked for and not had.
    pub refused: nat,
    /// The process identifiers that were reported.
    pub reported: Map<Handle, u32>,
    /// The two ends that were passed out, and how often.
    pub published: Option<(Handle, Handle)>,
    pub publications: nat,
    /// How often a handoff was recorded.
    pub received: nat,
    /// The size that is configured, as rows and columns.
    pub configured: Option<(u16, u16)>,
    /// The processes that were terminated, with their exit codes.
    pub terminated: Map<Handle, u32>,
}

/// The ledger after a call. A duplicate refers to what its original refers to.
pub open spec fn booked(call: Call, l: Ledger, answer: Answer<Seq<char>>) -> Ledger {
    match (call, answer) {
        (Call::Duplicate(h), Answer::Handle(d)) => Ledger {
            objects: l.objects.insert(d, l.objects[h]),
            inherited: l.inherited.remove(d),
            ..l
        },
        (Call::Duplicate(_), _) => Ledger { refused: l.refused + 1, ..l },
        (Call::OpenForTermination(pid), Answer::Handle(d)) => Ledger {
            objects: l.objects.insert(d, Object::Process(pid)),
            inherited: l.inherited.remove(d),
            ..l
        },
        (Call::OpenForTermination(_), _) => Ledger { refused: l.refused + 1, ..l },
        (Call::CreatePipe { inherit_read, inherit_write }, Answer::Pipe { read, write }) => Ledger {
            objects: l.objects.insert(read, Object::ReadEnd(l.pipes)).insert(
                write,
                Object::WriteEnd(l.pipes),
            ),
            inherited: {
                let one = if inherit_read {
                    l.inherited.insert(read)
                } else {
                    l.inherited.remove(read)
                };
                if inherit_write {
                    one.insert(write)
                } else {
                    one.remove(write)
                }
            },
            pipes: l.pipes + 1,
            ..l
        },
        (Call::CreatePipe { .. }, _) => Ledger { no_pipe: Some(answer.failure()), ..l },
        (Call::Close(h), _) => Ledger { objects: l.objects.remove(h), ..l },
        (Call::Terminate(h, code), Answer::Done) => Ledger {
            terminated: l.terminated.insert(h, code),
            ..l
        },
        (Call::ProcessId(h), Answer::Code(code)) => Ledger {
            reported: l.reported.insert(h, code),
            ..l
        },
        (Call::Publish { in_handle, out_handle }, _) => Ledger {
            published: Some((in_handle, out_handle)),
            publications: l.publications + 1,
            ..l
        },
        (Call::MarkReceived, _) => Ledger { received: l.received + 1, ..l },
        (Call::ConfiguredSize, Answer::Size { rows, cols }) => Ledger {
            configured: Some((rows, cols)),
            ..l
        },
        _ => l,
    }
}

/// The result of an operation with the ledger then. `None` if more answers have
/// to come.
pub open spec fn outcome<M: Conversing<T>, T>(
    f: Talk<M, T>,
    l: Ledger,
    answers: Seq<Answer<Seq<char>>>,
) -> Option<(T, Ledger)>
    decreases answers.len(),
{
    match f {
        Talk::Done(t) => Some((t, l)),
        Talk::Ask(c, m) => if answers.len() == 0 {
            None
        } else {
            outcome(m.next(answers[0]), booked(c, l, answers[0]), answers.skip(1))
        },
    }
}

/// The open handles are those of which the ledger says what they refer to.
pub proof fn lemma_open(call: Call, l: Ledger, answer: Answer<Seq<char>>)
    ensures
        booked(call, l, answer).objects.dom() == table_after(call, l.objects.dom(), answer),
{
    assert(booked(call, l, answer).objects.dom() =~= table_after(call, l.objects.dom(), answer));
}

/// A part of an operation goes as it would alone, and its result is handed on.
/// `k` is the number of answers that the part takes.
pub proof fn lemma_embed_outcome<M: Conversing<T>, T, C: Conversing<U>, U>(
    f: Talk<M, T>,
    wrap: spec_fn(M) -> C,
    cont: spec_fn(T) -> Talk<C, U>,
    l: Ledger,
    answers: Seq<Answer<Seq<char>>>,
) -> (k: nat)
    requires
        forall|m: M, a: Answer<Seq<char>>| #[trigger]
            wrap(m).next(a) == embed(m.next(a), wrap, cont),
        all_fit(embed(f, wrap, cont), l.objects.dom(), answers),
    ensures
        k <= answers.len(),
        all_fit(f, l.objects.dom(), answers),
        match outcome(f, l, answers) {
            None => outcome(embed(f, wrap, cont), l, answers) is None,
            Some((t, after)) => {
                let rest = answers.skip(k as int);
                &&& all_fit(cont(t), after.objects.dom(), rest)
                &&& outcome(embed(f, wrap, cont), l, answers) == outcome(cont(t), after, rest)
            },
        },
    decreases answers.len(),
{
    match f {
        Talk::Done(t) => {
            assert(answers.skip(0) =~= answers);
            0
        },
        Talk::Ask(c, m) => {
            if answers.len() == 0 {
                0
            } else {
                let f2 = m.next(answers[0]);
                let rest = answers.skip(1);
                lemma_open(c, l, answers[0]);
                assert(wrap(m).next(answers[0]) == embed(f2, wrap, cont));
                let k = lemma_embed_outcome(f2, wrap, cont, booked(c, l, answers[0]), rest);
                assert(rest.skip(k as int) =~= answers.skip((k + 1) as int));
                k + 1
            }
        },
    }
}

/// Whether `copy` is a duplicate of `original`, made since `before`: there is one
/// unless the original is null or something was refused, and it refers to what
/// the original referred to. A child process does not inherit it.
pub open spec fn copied(
    copy: Option<Handle>,
    original: Handle,
    before: Ledger,
    after: Ledger,
) -> bool {
    &&& original == 0 ==> copy is None
    &&& original != 0 && after.refused == before.refused ==> copy is Some
    &&& copy matches Some(h) ==> {
        &&& is_new(before.objects.dom(), h)
        &&& after.objects.contains_key(h)
        &&& after.objects[h] == before.objects[original]
        &&& !after.inherited.contains(h)
    }
}

/// Whether nothing changed but handles: those in `gone` were closed, and some
/// were made or refused.
pub open spec fn only_handles(before: Ledger, gone: Set<Handle>, after: Ledger) -> bool {
    &&& after.refused >= before.refused
    &&& after == (Ledger {
        objects: after.objects,
        inherited: after.inherited,
        refused: after.refused,
        ..before
    })
    &&& forall|h: Handle| #[trigger]
        before.objects.contains_key(h) && !gone.contains(h) ==> after.objects.contains_key(h)
            && after.objects[h] == before.objects[h] && (after.inherited.contains(h)
            <==> before.inherited.contains(h))
}

// ---------------------------------------------------------------------------
// The pseudo terminal
// ---------------------------------------------------------------------------

/// Each handle of a pseudo terminal refers to what the raw handle of its name
/// refers to: the read handle is the raw one itself, the others are duplicates.
/// None is left out that could be had, and only the raw write handle is closed.
pub proof fn pseudo_terminal_keeps_objects(
    raw: RawHandles,
    size: PtySize,
    l: Ledger,
    answers: Seq<Answer<Seq<char>>>,
)
    requires
        raw.read != 0 ==> l.objects.contains_key(raw.read),
        raw.write != 0 ==> l.objects.contains_key(raw.write),
        raw.signal != 0 ==> l.objects.contains_key(raw.signal),
        raw.reference != 0 ==> l.objects.contains_key(raw.reference),
        raw.write != 0 ==> raw.write != raw.signal && raw.write != raw.reference,
        !l.objects.contains_key(0),
        all_fit(open_talk(raw, size), l.objects.dom(), answers),
    ensures
        outcome(open_talk(raw, size), l, answers) matches Some((pty, after)) ==> {
            &&& pty.size == size
            &&& raw.read == 0 ==> pty.read is None
            &&& raw.read != 0 ==> pty.read == Some(raw.read)
            &&& copied(pty.write, raw.write, l, after)
            &&& copied(pty.signal, raw.signal, l, after)
            &&& copied(pty.reference, raw.reference, l, after)
            &&& !after.objects.contains_key(raw.write)
            &&& only_handles(l, set![raw.write], after)
        },
{
    reveal_with_fuel(all_fit, 5);
    reveal_with_fuel(outcome, 5);
}

/// A new size goes to the signal pipe, as the number 8, the columns and the rows
/// in two bytes each, the low one first.
pub proof fn resize_is_signalled(
    pty: &RawHandlesMasterPty,
    size: PtySize,
    r: Result<Resizing, PtyError<String>>,
)
    requires
        call_ensures(RawHandlesMasterPty::resize, (pty, size), r),
    ensures
        r is Ok <==> pty.signal is Some,
        r matches Err(e) ==> e is NoSignalPipe,
        r matches Ok(resizing) ==> {
            &&& Some(resizing.handle) == pty.signal
            &&& resizing.size == size
            &&& resizing.bytes@.len() == 6
            &&& resizing.bytes@[0] == 8
            &&& resizing.bytes@[1] == 0
            &&& resizing.bytes@[2] + 256 * resizing.bytes@[3] == size.cols
            &&& resizing.bytes@[4] + 256 * resizing.bytes@[5] == size.rows
        },
{
    if pty.signal is Some {
        crate::raw_pty::laws::resize_packet_reads_back(size);
    }
}

/// The size is the new one exactly if all six bytes were written. Otherwise it is
/// the old one, and the error tells why. Nothing else changes.
pub proof fn size_follows_the_write(
    pty: &mut RawHandlesMasterPty,
    size: PtySize,
    resizing: Resizing,
    written: WriteOutcome<String>,
    r: Result<(), PtyError<String>>,
    shown: PtySize,
)
    requires
        call_ensures(
            RawHandlesMasterPty::resize,
            (&*old(pty), size),
            Ok::<Resizing, PtyError<String>>(resizing),
        ),
        call_ensures(RawHandlesMasterPty::resized, (pty, resizing, written), r),
        call_ensures(RawHandlesMasterPty::get_size, (&*final(pty),), shown),
    ensures
        r is Ok <==> written == WriteOutcome::<String>::Written(6),
        r is Ok ==> shown == size,
        r is Err ==> shown == old(pty).size,
        written matches WriteOutcome::Written(n) ==> (n != 6 ==> r == Err::<
            (),
            PtyError<String>,
        >(PtyError::ShortWrite { written: n, len: 6 })),
        written matches WriteOutcome::Failed(s) ==> (r matches Err(PtyError::SignalWrite(t)) && t@
            == s@),
        final(pty).read == old(pty).read,
        final(pty).write == old(pty).write,
        final(pty).signal == old(pty).signal,
        final(pty).reference == old(pty).reference,
{
}

/// The writer can be had once: the first time it is the write handle, and after
/// that there is none. The rest of the pseudo terminal stays.
pub proof fn writer_is_taken_once(
    first: &mut RawHandlesMasterPty,
    second: &mut RawHandlesMasterPty,
    r: Result<Handle, PtyError<String>>,
    s: Result<Handle, PtyError<String>>,
)
    requires
        call_ensures(RawHandlesMasterPty::take_writer, (first,), r),
        *old(second) == *final(first),
        call_ensures(RawHandlesMasterPty::take_writer, (second,), s),
    ensures
        r is Ok <==> old(first).write is Some,
        r matches Ok(h) ==> Some(h) == old(first).write,
        r matches Err(e) ==> e is WriterTaken,
        s matches Err(e) && e is WriterTaken,
        final(second).write is None,
        final(second).read == old(first).read,
        final(second).signal == old(first).signal,
        final(second).reference == old(first).reference,
        final(second).size == old(first).size,
{
}

/// A reader reads what the pseudo terminal reads, by a handle of its own.
pub proof fn reader_is_a_duplicate(
    read: Option<Handle>,
    l: Ledger,
    answers: Seq<Answer<Seq<char>>>,
)
    requires
        read matches Some(h) ==> l.objects.contains_key(h) && h != 0,
        all_fit(clone_reader_talk(read), l.objects.dom(), answers),
    ensures
        outcome(clone_reader_talk(read), l, answers) matches Some((r, after)) ==> {
            &&& only_handles(l, set![], after)
            &&& read is None ==> r == Err::<Handle, PtyError<Seq<char>>>(PtyError::ReadHandleTaken)
            &&& read is Some && after.refused == l.refused ==> r is Ok
            &&& r matches Ok(h) ==> read is Some && copied(Some(h), read->0, l, after)
            &&& read is Some && r is Err ==> r->Err_0 == PtyError::<Seq<char>>::System(
                answers[0].failure(),
            )
        },
{
    reveal_with_fuel(all_fit, 2);
    reveal_with_fuel(outcome, 2);
}

/// At its end a pseudo terminal gives up each handle that it has, once, and no
/// other: the writer first, the reader last, and the signal before the reference
/// that keeps the session alive.
pub proof fn pseudo_terminal_gives_up_handles(pty: RawHandlesMasterPty, r: Vec<Handle>)
    requires
        call_ensures(RawHandlesMasterPty::into_handles, (pty,), r),
    ensures
        r@.to_multiset() == {
            let none = vstd::multiset::Multiset::<Handle>::empty();
            let one = |h: Option<Handle>|
                match h {
                    Some(h) => vstd::multiset::Multiset::<Handle>::singleton(h),
                    None => none,
                };
            one(pty.read).add(one(pty.write)).add(one(pty.signal)).add(one(pty.reference))
        },
        pty.write is Some ==> r@[0] == pty.write->0,
        pty.read is Some ==> r@.last() == pty.read->0,
        pty.signal is Some && pty.reference is Some ==> exists|i: int|
            0 <= i < r@.len() - 1 && #[trigger] r@[i] == pty.signal->0 && r@[i + 1]
                == pty.reference->0,
{
    lemma_listed_once(pty.write);
    lemma_listed_once(pty.signal);
    lemma_listed_once(pty.reference);
    lemma_listed_once(pty.read);
    let a = crate::raw_pty::listed(pty.write);
    let b = crate::raw_pty::listed(pty.signal);
    let c = crate::raw_pty::listed(pty.reference);
    let d = crate::raw_pty::listed(pty.read);
    if pty.signal is Some && pty.reference is Some {
        let i = a.len() as int;
        assert(r@[i] == pty.signal->0 && r@[i + 1] == pty.reference->0);
    }
    vstd::seq_lib::lemma_multiset_commutative(a, b);
    vstd::seq_lib::lemma_multiset_commutative(a + b, c);
    vstd::seq_lib::lemma_multiset_commutative(a + b + c, d);
    let none = vstd::multiset::Multiset::<Handle>::empty();
    let one = |h: Option<Handle>|
        match h {
            Some(h) => vstd::multiset::Multiset::<Handle>::singleton(h),
            None => none,
        };
    assert(r@.to_multiset() =~= one(pty.read).add(one(pty.write)).add(one(pty.signal)).add(
        one(pty.reference),
    ));
}

proof fn lemma_listed_once(h: Option<Handle>)
    ensures
        crate::raw_pty::listed(h).to_multiset() == match h {
            Some(h) => vstd::multiset::Multiset::<Handle>::singleton(h),
            None => vstd::multiset::Multiset::<Handle>::empty(),
        },
{
    broadcast use vstd::seq_lib::group_to_multiset_ensures;

    let s = crate::raw_pty::listed(h);
    match h {
        Some(x) => {
            assert(s =~= Seq::<Handle>::empty().push(x));
            assert(s.to_multiset() =~= vstd::multiset::Multiset::<Handle>::singleton(x));
        },
        None => {
            assert(s =~= Seq::<Handle>::empty());
            assert(s.to_multiset() =~= vstd::multiset::Multiset::<Handle>::empty());
        },
    }
}

// ---------------------------------------------------------------------------
// The process
// ---------------------------------------------------------------------------

/// The process side waits for what the session handle refers to, and kills the
/// process with the client's identifier.
pub proof fn process_keeps_objects(
    session: Handle,
    client_pid: Option<u32>,
    l: Ledger,
    answers: Seq<Answer<Seq<char>>>,
)
    requires
        session != 0 ==> l.objects.contains_key(session),
        !l.objects.contains_key(0),
        all_fit(open_child_talk(session, client_pid), l.objects.dom(), answers),
    ensures
        outcome(open_child_talk(session, client_pid), l, answers) matches Some((child, after)) ==> {
            &&& child.client_pid == client_pid
            &&& copied(child.session_handle, session, l, after)
            &&& only_handles(l, set![], after)
            &&& client_pid is None ==> child.killer_handle is None
            &&& client_pid is Some && after.refused == l.refused ==> child.killer_handle is Some
            &&& child.killer_handle matches Some(h) ==> {
                &&& client_pid matches Some(pid) && after.objects.contains_key(h)
                    && after.objects[h] == Object::Process(pid)
                &&& is_new(l.objects.dom(), h)
                &&& child.session_handle != Some(h)
            }
        },
{
    reveal_with_fuel(all_fit, 3);
    reveal_with_fuel(outcome, 3);
}

/// Whether an operation asks for exactly `asked`, is answered `answers`, and then
/// ends with `result`.
pub open spec fn goes<M: Conversing<T>, T>(
    f: Talk<M, T>,
    asked: Seq<Call>,
    answers: Seq<Answer<Seq<char>>>,
    result: T,
) -> bool
    decreases asked.len(),
{
    match f {
        Talk::Done(t) => asked.len() == 0 && answers.len() == 0 && t == result,
        Talk::Ask(c, m) => {
            &&& asked.len() > 0
            &&& answers.len() > 0
            &&& asked[0] == c
            &&& goes(m.next(answers[0]), asked.skip(1), answers.skip(1), result)
        },
    }
}

/// A look at a session that has ended finds its exit code, whatever it is, and
/// counts 0 alone as a success. While the process runs there is nothing to find,
/// and any other answer is an error, in the words of the system. Without a handle
/// nothing is asked.
pub proof fn look_finds_exit_code(
    h: Handle,
    result: u32,
    words: Seq<char>,
    code: u32,
    odd: Answer<Seq<char>>,
)
    ensures
        goes(
            try_wait_talk(Some(h)),
            seq![Call::Wait(h, 0), Call::ExitCode(h)],
            seq![Answer::Waited { result: 0, last_error: words }, Answer::Code(code)],
            Ok(Some(ExitStatus { exit_code: code, success: code == 0 })),
        ),
        !(odd is Code) ==> goes(
            try_wait_talk(Some(h)),
            seq![Call::Wait(h, 0), Call::ExitCode(h)],
            seq![Answer::Waited { result: 0, last_error: words }, odd],
            Err(PtyError::System(odd.failure())),
        ),
        goes(
            try_wait_talk(Some(h)),
            seq![Call::Wait(h, 0)],
            seq![Answer::Waited { result: 258, last_error: words }],
            Ok(None),
        ),
        result != 0 && result != 258 ==> goes(
            try_wait_talk(Some(h)),
            seq![Call::Wait(h, 0)],
            seq![Answer::Waited { result, last_error: words }],
            Err(PtyError::System(words)),
        ),
        !(odd is Waited) ==> goes(
            try_wait_talk(Some(h)),
            seq![Call::Wait(h, 0)],
            seq![odd],
            Err(PtyError::System(odd.failure())),
        ),
        goes(try_wait_talk(None), seq![], seq![], Ok(None)),
{
    reveal_with_fuel(goes, 3);
}

/// A wait blocks without limit on a duplicate of the session handle, which it
/// closes in the end. If the process has ended, it brings its exit code, whatever
/// it is, with 0 alone as a success.
pub proof fn wait_brings_exit_code(
    h: Handle,
    copy: Handle,
    result: u32,
    words: Seq<char>,
    later: Seq<char>,
    code: u32,
)
    requires
        result != 0xffff_ffff,
    ensures
        goes(
            wait_talk(Some(h)),
            seq![
                Call::Duplicate(h),
                Call::Wait(copy, 0xffff_ffff),
                Call::Wait(h, 0),
                Call::ExitCode(h),
                Call::Close(copy),
            ],
            seq![
                Answer::Handle(copy),
                Answer::Waited { result, last_error: words },
                Answer::Waited { result: 0, last_error: later },
                Answer::Code(code),
                Answer::Done,
            ],
            Ok(ExitStatus { exit_code: code, success: code == 0 }),
        ),
{
    reveal_with_fuel(goes, 6);
}

/// A wait that fails says why: there is no handle to wait for, it could not be
/// duplicated, the blocking failed, the process runs on all the same, or it is
/// not known how it ended. A duplicate that was made is closed.
pub proof fn failed_wait_says_why(
    h: Handle,
    copy: Handle,
    result: u32,
    polled: u32,
    words: Seq<char>,
    later: Seq<char>,
    odd: Answer<Seq<char>>,
)
    requires
        result != 0xffff_ffff,
        polled != 0 && polled != 258,
    ensures
        goes(wait_talk(None), seq![], seq![], Err(PtyError::Unwaitable)),
        !(odd is Handle) ==> goes(
            wait_talk(Some(h)),
            seq![Call::Duplicate(h)],
            seq![odd],
            Err(PtyError::WaitDuplicate(odd.failure())),
        ),
        goes(
            wait_talk(Some(h)),
            seq![Call::Duplicate(h), Call::Wait(copy, 0xffff_ffff), Call::Close(copy)],
            seq![
                Answer::Handle(copy),
                Answer::Waited { result: 0xffff_ffff, last_error: words },
                Answer::Done,
            ],
            Err(PtyError::System(words)),
        ),
        !(odd is Waited) ==> goes(
            wait_talk(Some(h)),
            seq![Call::Duplicate(h), Call::Wait(copy, 0xffff_ffff), Call::Close(copy)],
            seq![Answer::Handle(copy), odd, Answer::Done],
            Err(PtyError::System(odd.failure())),
        ),
        goes(
            wait_talk(Some(h)),
            seq![
                Call::Duplicate(h),
                Call::Wait(copy, 0xffff_ffff),
                Call::Wait(h, 0),
                Call::Close(copy),
            ],
            seq![
                Answer::Handle(copy),
                Answer::Waited { result, last_error: words },
                Answer::Waited { result: 258, last_error: later },
                Answer::Done,
            ],
            Err(PtyError::NoExitStatus),
        ),
        goes(
            wait_talk(Some(h)),
            seq![
                Call::Duplicate(h),
                Call::Wait(copy, 0xffff_ffff),
                Call::Wait(h, 0),
                Call::Close(copy),
            ],
            seq![
                Answer::Handle(copy),
                Answer::Waited { result, last_error: words },
                Answer::Waited { result: polled, last_error: later },
                Answer::Done,
            ],
            Err(PtyError::System(later)),
        ),
        !(odd is Code) ==> goes(
            wait_talk(Some(h)),
            seq![
                Call::Duplicate(h),
                Call::Wait(copy, 0xffff_ffff),
                Call::Wait(h, 0),
                Call::ExitCode(h),
                Call::Close(copy),
            ],
            seq![
                Answer::Handle(copy),
                Answer::Waited { result, last_error: words },
                Answer::Waited { result: 0, last_error: words },
                odd,
                Answer::Done,
            ],
            Err(PtyError::System(odd.failure())),
        ),
{
    reveal_with_fuel(goes, 6);
}

/// Killing a session terminates its first client, with exit code 1, and fails as
/// the termination does. A killer that was made from it does the same by a handle
/// of its own. Without a handle there is nothing to do.
pub proof fn killing_terminates_the_client(
    child: &TermHostChild,
    killing: Talk<Terminating, Result<(), PtyError<String>>>,
    copying: Talk<CopyKiller, TermHostKiller>,
    h: Handle,
    copy: Handle,
    words: Seq<char>,
    killer: &TermHostKiller,
    again: Talk<Terminating, Result<(), PtyError<String>>>,
    third: Talk<CopyKiller, TermHostKiller>,
    odd: Answer<Seq<char>>,
)
    requires
        call_ensures(TermHostChild::kill, (child,), killing),
        call_ensures(TermHostChild::clone_killer, (child,), copying),
        killer.handle == Some(copy),
        call_ensures(TermHostKiller::kill, (killer,), again),
        call_ensures(TermHostKiller::clone_killer, (killer,), third),
    ensures
        child.killer_handle == Some(h) ==> {
            &&& !(odd is Failed) ==> goes(
                killing.model(),
                seq![Call::Terminate(h, 1)],
                seq![odd],
                Ok(()),
            )
            &&& goes(
                killing.model(),
                seq![Call::Terminate(h, 1)],
                seq![Answer::Failed(words)],
                Err(PtyError::System(words)),
            )
            &&& goes(copying, seq![Call::Duplicate(h)], seq![Answer::Handle(copy)], *killer)
            &&& !(odd is Handle) ==> goes(
                copying,
                seq![Call::Duplicate(h)],
                seq![odd],
                TermHostKiller { handle: None },
            )
        },
        child.killer_handle is None ==> {
            &&& goes(killing.model(), seq![], seq![], Ok(()))
            &&& goes(copying, seq![], seq![], TermHostKiller { handle: None })
        },
        goes(again.model(), seq![Call::Terminate(copy, 1)], seq![Answer::Done], Ok(())),
        goes(
            third,
            seq![Call::Duplicate(copy)],
            seq![Answer::Handle(h)],
            TermHostKiller { handle: Some(h) },
        ),
{
    reveal_with_fuel(goes, 2);
}

/// The process side tells of the first client and of the handle that is waited
/// for, and looks and waits by that handle.
pub proof fn process_side_is_about_its_handle(
    child: &TermHostChild,
    pid: Option<u32>,
    handle: Option<Handle>,
    look: Talk<TryWait, Result<Option<ExitStatus>, PtyError<String>>>,
    wait: Talk<Wait<String>, Result<ExitStatus, PtyError<String>>>,
)
    requires
        call_ensures(TermHostChild::process_id, (child,), pid),
        call_ensures(TermHostChild::as_raw_handle, (child,), handle),
        call_ensures(TermHostChild::try_wait, (child,), look),
        call_ensures(TermHostChild::wait, (child,), wait),
    ensures
        pid == child.client_pid,
        handle == child.session_handle,
        look.model() == try_wait_talk(handle),
        wait.model() == wait_talk(handle),
{
}

/// At its end the process side gives up each handle that it has, once, and no
/// other: the one that is waited for first.
pub proof fn process_side_gives_up_handles(child: TermHostChild, r: Vec<Handle>)
    requires
        call_ensures(TermHostChild::into_handles, (child,), r),
    ensures
        r@.to_multiset() == {
            let none = vstd::multiset::Multiset::<Handle>::empty();
            let one = |h: Option<Handle>|
                match h {
                    Some(h) => vstd::multiset::Multiset::<Handle>::singleton(h),
                    None => none,
                };
            one(child.session_handle).add(one(child.killer_handle))
        },
        child.session_handle is Some ==> r@[0] == child.session_handle->0,
        child.killer_handle is Some ==> r@.last() == child.killer_handle->0,
{
    lemma_listed_once(child.session_handle);
    lemma_listed_once(child.killer_handle);
    let a = crate::raw_pty::listed(child.session_handle);
    let b = crate::raw_pty::listed(child.killer_handle);
    vstd::seq_lib::lemma_multiset_commutative(a, b);
    let none = vstd::multiset::Multiset::<Handle>::empty();
    let one = |h: Option<Handle>|
        match h {
            Some(h) => vstd::multiset::Multiset::<Handle>::singleton(h),
            None => none,
        };
    assert(r@.to_multiset() =~= one(child.session_handle).add(one(child.killer_handle)));
}

} // verus!
