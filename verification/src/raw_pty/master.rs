//! The terminal's side of a handed-off pseudo terminal.

use crate::host::Handle;
use crate::kernel::{Answer, Call, Conversing, Talk};
use crate::model::Model;
use crate::raw_pty::{checked_handle, list, listed, non_null, PtyError, PtySize};
use vstd::prelude::*;

verus! {

/// The packet identifier of a new window size on the signal pipe.
pub const PTY_SIGNAL_RESIZE_WINDOW: u16 = 8;

/// A pseudo terminal backed by raw handles from the handoff.
///
/// `reference` is a duplicate of the console's reference handle. It is kept for
/// as long as the pseudo terminal lives: it keeps the console session alive.
#[derive(Debug)]
pub struct RawHandlesMasterPty {
    pub read: Option<Handle>,
    pub write: Option<Handle>,
    pub signal: Option<Handle>,
    pub reference: Option<Handle>,
    pub size: PtySize,
}

/// The handles of a handoff; 0 is the null handle.
///
/// `read` and `write` belong to the pseudo terminal from now on. `signal` and
/// `reference` stay the caller's: they are duplicated and never closed.
#[derive(Clone, Copy, Debug, PartialEq, Eq, Structural)]
pub struct RawHandles {
    pub read: Handle,
    pub write: Handle,
    pub signal: Handle,
    pub reference: Handle,
}

/// What the construction of a pseudo terminal waits for.
#[derive(Clone, Copy, Debug, PartialEq, Eq, Structural)]
pub enum OpenStage {
    /// The duplicate of the write handle.
    Write,
    /// The duplicate of the signal handle.
    Signal,
    /// The duplicate of the reference handle.
    Reference,
    /// The raw write handle to be closed.
    CloseWrite,
}

/// The construction of a pseudo terminal, waiting.
#[derive(Debug)]
pub struct OpenMaster {
    pub raw: RawHandles,
    pub pty: RawHandlesMasterPty,
    pub stage: OpenStage,
}

/// The end of the construction: the raw write handle is no longer needed.
pub open spec fn open_close(raw: RawHandles, pty: RawHandlesMasterPty) -> Talk<
    OpenMaster,
    RawHandlesMasterPty,
> {
    if raw.write == 0 {
        Talk::Done(pty)
    } else {
        Talk::Ask(Call::Close(raw.write), OpenMaster { raw, pty, stage: OpenStage::CloseWrite })
    }
}

/// The construction from the reference handle on.
pub open spec fn open_reference(raw: RawHandles, pty: RawHandlesMasterPty) -> Talk<
    OpenMaster,
    RawHandlesMasterPty,
> {
    if raw.reference == 0 {
        open_close(raw, pty)
    } else {
        Talk::Ask(
            Call::Duplicate(raw.reference),
            OpenMaster { raw, pty, stage: OpenStage::Reference },
        )
    }
}

/// The construction from the signal handle on.
pub open spec fn open_signal(raw: RawHandles, pty: RawHandlesMasterPty) -> Talk<
    OpenMaster,
    RawHandlesMasterPty,
> {
    if raw.signal == 0 {
        open_reference(raw, pty)
    } else {
        Talk::Ask(
            Call::Duplicate(raw.signal),
            OpenMaster { raw, pty, stage: OpenStage::Signal },
        )
    }
}

/// The construction from the write handle on.
pub open spec fn open_write(raw: RawHandles, pty: RawHandlesMasterPty) -> Talk<
    OpenMaster,
    RawHandlesMasterPty,
> {
    if raw.write == 0 {
        open_signal(raw, pty)
    } else {
        Talk::Ask(Call::Duplicate(raw.write), OpenMaster { raw, pty, stage: OpenStage::Write })
    }
}

/// The construction of a pseudo terminal. A handle that cannot be duplicated is
/// done without.
pub open spec fn open_talk(raw: RawHandles, size: PtySize) -> Talk<
    OpenMaster,
    RawHandlesMasterPty,
> {
    open_write(
        raw,
        RawHandlesMasterPty {
            read: non_null(raw.read),
            write: None,
            signal: None,
            reference: None,
            size,
        },
    )
}

impl Conversing<RawHandlesMasterPty> for OpenMaster {
    open spec fn next(self, answer: Answer<Seq<char>>) -> Talk<Self, RawHandlesMasterPty> {
        let raw = self.raw;
        match self.stage {
            OpenStage::Write => open_signal(
                raw,
                RawHandlesMasterPty { write: answer.handle(), ..self.pty },
            ),
            OpenStage::Signal => open_reference(
                raw,
                RawHandlesMasterPty { signal: answer.handle(), ..self.pty },
            ),
            OpenStage::Reference => open_close(
                raw,
                RawHandlesMasterPty { reference: answer.handle(), ..self.pty },
            ),
            OpenStage::CloseWrite => Talk::Done(self.pty),
        }
    }
}

fn close_write(raw: RawHandles, pty: RawHandlesMasterPty) -> (r: Talk<
    OpenMaster,
    RawHandlesMasterPty,
>)
    ensures
        r == open_close(raw, pty),
{
    if raw.write == 0 {
        Talk::Done(pty)
    } else {
        Talk::Ask(Call::Close(raw.write), OpenMaster { raw, pty, stage: OpenStage::CloseWrite })
    }
}

fn keep_reference(raw: RawHandles, pty: RawHandlesMasterPty) -> (r: Talk<
    OpenMaster,
    RawHandlesMasterPty,
>)
    ensures
        r == open_reference(raw, pty),
{
    if raw.reference == 0 {
        close_write(raw, pty)
    } else {
        Talk::Ask(
            Call::Duplicate(raw.reference),
            OpenMaster { raw, pty, stage: OpenStage::Reference },
        )
    }
}

fn keep_signal(raw: RawHandles, pty: RawHandlesMasterPty) -> (r: Talk<
    OpenMaster,
    RawHandlesMasterPty,
>)
    ensures
        r == open_signal(raw, pty),
{
    if raw.signal == 0 {
        keep_reference(raw, pty)
    } else {
        Talk::Ask(
            Call::Duplicate(raw.signal),
            OpenMaster { raw, pty, stage: OpenStage::Signal },
        )
    }
}

impl OpenMaster {
    /// Go on with the construction.
    pub fn resume(self, answer: Answer<String>) -> (r: Talk<OpenMaster, RawHandlesMasterPty>)
        ensures
            r == self.next(answer.model()),
    {
        let raw: RawHandles = self.raw;
        let pty: RawHandlesMasterPty = self.pty;
        let got: Option<Handle> = answer.as_handle();
        match self.stage {
            OpenStage::Write => keep_signal(raw, RawHandlesMasterPty { write: got, ..pty }),
            OpenStage::Signal => keep_reference(raw, RawHandlesMasterPty { signal: got, ..pty }),
            OpenStage::Reference => close_write(
                raw,
                RawHandlesMasterPty { reference: got, ..pty },
            ),
            OpenStage::CloseWrite => Talk::Done(pty),
        }
    }
}

// ---------------------------------------------------------------------------
// Resizing
// ---------------------------------------------------------------------------

/// A number in two bytes, the low one first.
pub open spec fn le_bytes(v: u16) -> Seq<u8> {
    seq![(v % 256) as u8, (v / 256) as u8]
}

/// The packet that tells the console of a new size: the identifier, the columns
/// and the rows.
pub open spec fn resize_packet(size: PtySize) -> Seq<u8> {
    le_bytes(PTY_SIGNAL_RESIZE_WINDOW) + le_bytes(size.cols) + le_bytes(size.rows)
}

/// A new size that is about to be written: `bytes` go to `handle`.
#[derive(Debug)]
pub struct Resizing {
    pub handle: Handle,
    pub bytes: [u8; 6],
    pub size: PtySize,
}

/// What came of a write.
#[derive(Debug)]
pub enum WriteOutcome<S> {
    /// So many bytes were written.
    Written(u32),
    /// The write failed, in the system's own words.
    Failed(S),
}

impl<S: Model> Model for WriteOutcome<S> {
    type M = WriteOutcome<S::M>;

    open spec fn model(&self) -> WriteOutcome<S::M> {
        match self {
            WriteOutcome::Written(n) => WriteOutcome::Written(*n),
            WriteOutcome::Failed(s) => WriteOutcome::Failed(s.model()),
        }
    }
}

/// What came of a resize. All six bytes have to be written.
pub open spec fn resize_result(outcome: WriteOutcome<Seq<char>>) -> Result<
    (),
    PtyError<Seq<char>>,
> {
    match outcome {
        WriteOutcome::Failed(s) => Err(PtyError::SignalWrite(s)),
        WriteOutcome::Written(n) => if n == 6 {
            Ok(())
        } else {
            Err(PtyError::ShortWrite { written: n, len: 6 })
        },
    }
}

fn low(v: u16) -> (r: u8)
    ensures
        r == le_bytes(v)[0],
{
    (v % 256) as u8
}

fn high(v: u16) -> (r: u8)
    ensures
        r == le_bytes(v)[1],
{
    (v / 256) as u8
}

// ---------------------------------------------------------------------------
// The pseudo terminal
// ---------------------------------------------------------------------------

/// A duplicate of the read handle, waiting to be made.
#[derive(Clone, Copy, Debug)]
pub struct CloneReader {}

impl Model for CloneReader {
    type M = CloneReader;

    open spec fn model(&self) -> CloneReader {
        *self
    }
}

impl Conversing<Result<Handle, PtyError<Seq<char>>>> for CloneReader {
    open spec fn next(self, answer: Answer<Seq<char>>) -> Talk<
        Self,
        Result<Handle, PtyError<Seq<char>>>,
    > {
        match answer.handle() {
            Some(h) => Talk::Done(Ok(h)),
            None => Talk::Done(Err(PtyError::System(answer.failure()))),
        }
    }
}

impl CloneReader {
    /// Finish the duplicate.
    pub fn resume(self, answer: Answer<String>) -> (r: Talk<
        CloneReader,
        Result<Handle, PtyError<String>>,
    >)
        ensures
            r.model() == self.next(answer.model()),
    {
        match answer.as_handle() {
            Some(h) => Talk::Done(Ok(h)),
            None => Talk::Done(Err(PtyError::System(answer.into_failure()))),
        }
    }
}

/// The duplication of the read handle.
pub open spec fn clone_reader_talk(read: Option<Handle>) -> Talk<
    CloneReader,
    Result<Handle, PtyError<Seq<char>>>,
> {
    match read {
        Some(h) => Talk::Ask(Call::Duplicate(h), CloneReader {  }),
        None => Talk::Done(Err(PtyError::ReadHandleTaken)),
    }
}

impl RawHandlesMasterPty {
    /// The handles that the pseudo terminal holds.
    pub open spec fn held(self) -> Seq<Handle> {
        listed(self.write) + listed(self.signal) + listed(self.reference) + listed(self.read)
    }

    /// Begin the construction of a pseudo terminal. `read` and `write` are
    /// taken over, `signal` and `reference` are duplicated and otherwise left
    /// alone.
    pub fn from_raw_handles(raw: RawHandles, initial_size: PtySize) -> (r: Talk<
        OpenMaster,
        RawHandlesMasterPty,
    >)
        ensures
            r == open_talk(raw, initial_size),
    {
        let pty: RawHandlesMasterPty = RawHandlesMasterPty {
            read: checked_handle(raw.read),
            write: None,
            signal: None,
            reference: None,
            size: initial_size,
        };
        if raw.write == 0 {
            keep_signal(raw, pty)
        } else {
            Talk::Ask(Call::Duplicate(raw.write), OpenMaster { raw, pty, stage: OpenStage::Write })
        }
    }

    /// The duplicate of the signal handle.
    pub fn signal_handle(&self) -> (r: Option<Handle>)
        ensures
            r == self.signal,
    {
        self.signal
    }

    /// The duplicate of the reference handle.
    pub fn reference_handle(&self) -> (r: Option<Handle>)
        ensures
            r == self.reference,
    {
        self.reference
    }

    /// Begin to resize: the packet that has to go to the signal pipe. Fails if
    /// there is no such pipe.
    pub fn resize(&self, size: PtySize) -> (r: Result<Resizing, PtyError<String>>)
        ensures
            self.signal is None ==> r == Err::<Resizing, PtyError<String>>(PtyError::NoSignalPipe),
            self.signal is Some ==> {
                &&& r is Ok
                &&& r->Ok_0.handle == self.signal->0
                &&& r->Ok_0.bytes@ == resize_packet(size)
                &&& r->Ok_0.size == size
            },
    {
        match self.signal {
            None => Err(PtyError::NoSignalPipe),
            Some(handle) => {
                let bytes: [u8; 6] = [
                    low(PTY_SIGNAL_RESIZE_WINDOW),
                    high(PTY_SIGNAL_RESIZE_WINDOW),
                    low(size.cols),
                    high(size.cols),
                    low(size.rows),
                    high(size.rows),
                ];
                assert(bytes@ =~= resize_packet(size));
                Ok(Resizing { handle, bytes, size })
            },
        }
    }

    /// Finish to resize. The size is the new one exactly if the whole packet
    /// was written; otherwise it is still the old one.
    pub fn resized(&mut self, resizing: Resizing, outcome: WriteOutcome<String>) -> (r: Result<
        (),
        PtyError<String>,
    >)
        ensures
            r.model() == resize_result(outcome.model()),
            r is Ok ==> *final(self) == (RawHandlesMasterPty { size: resizing.size, ..*old(self) }),
            r is Err ==> *final(self) == *old(self),
    {
        match outcome {
            WriteOutcome::Failed(s) => Err(PtyError::SignalWrite(s)),
            WriteOutcome::Written(n) => {
                if n == 6 {
                    self.size = resizing.size;
                    Ok(())
                } else {
                    Err(PtyError::ShortWrite { written: n, len: 6 })
                }
            },
        }
    }

    /// The size that the console was last told.
    pub fn get_size(&self) -> (r: PtySize)
        ensures
            r == self.size,
    {
        self.size
    }

    /// Begin to duplicate the read handle, for a reader of its own.
    pub fn try_clone_reader(&self) -> (r: Talk<CloneReader, Result<Handle, PtyError<String>>>)
        ensures
            r.model() == clone_reader_talk(self.read),
    {
        match self.read {
            Some(h) => Talk::Ask(Call::Duplicate(h), CloneReader {  }),
            None => Talk::Done(Err(PtyError::ReadHandleTaken)),
        }
    }

    /// Hand out the write handle. It can be had once.
    pub fn take_writer(&mut self) -> (r: Result<Handle, PtyError<String>>)
        ensures
            old(self).write is Some ==> r == Ok::<Handle, PtyError<String>>(old(self).write->0),
            old(self).write is None ==> r == Err::<Handle, PtyError<String>>(PtyError::WriterTaken),
            *final(self) == (RawHandlesMasterPty { write: None, ..*old(self) }),
    {
        match self.write {
            Some(h) => {
                self.write = None;
                Ok(h)
            },
            None => Err(PtyError::WriterTaken),
        }
    }

    /// End the pseudo terminal: the handles that are to be closed, in order.
    pub fn into_handles(self) -> (r: Vec<Handle>)
        ensures
            r@ == self.held(),
    {
        let mut out: Vec<Handle> = Vec::new();
        list(&mut out, self.write);
        list(&mut out, self.signal);
        list(&mut out, self.reference);
        list(&mut out, self.read);
        assert(out@ =~= self.held());
        out
    }
}

} // verus!
