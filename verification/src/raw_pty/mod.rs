//! The two halves of a handed-off session: the pseudo terminal and the process.

use crate::host::Handle;
use crate::model::Model;
use crate::text::{decimal, decimal_text};
use vstd::prelude::*;

pub mod child;
pub mod laws;
pub mod master;
pub mod objects;

verus! {

/// The size of a pseudo terminal.
#[derive(Clone, Copy, Debug, PartialEq, Eq, Structural)]
pub struct PtySize {
    pub rows: u16,
    pub cols: u16,
    pub pixel_width: u16,
    pub pixel_height: u16,
}

impl Default for PtySize {
    /// The size of a classic terminal.
    fn default() -> (r: Self)
        ensures
            r == (PtySize { rows: 24, cols: 80, pixel_width: 0, pixel_height: 0 }),
    {
        PtySize { rows: 24, cols: 80, pixel_width: 0, pixel_height: 0 }
    }
}

/// Why an operation on a session failed.
#[derive(Debug)]
pub enum PtyError<S> {
    /// There is no pipe to signal a new size through.
    NoSignalPipe,
    /// Writing to that pipe failed.
    SignalWrite(S),
    /// Not all of the packet was written.
    ShortWrite { written: u32, len: u32 },
    ReadHandleTaken,
    WriterTaken,
    /// There is no handle to wait for.
    Unwaitable,
    /// The wait is over, and still there is no exit status.
    NoExitStatus,
    /// Duplicating the handle to wait for failed.
    WaitDuplicate(S),
    /// The system reports an error.
    System(S),
}

impl<S: Model> Model for PtyError<S> {
    type M = PtyError<S::M>;

    open spec fn model(&self) -> PtyError<S::M> {
        match self {
            PtyError::NoSignalPipe => PtyError::NoSignalPipe,
            PtyError::SignalWrite(s) => PtyError::SignalWrite(s.model()),
            PtyError::ShortWrite { written, len } => PtyError::ShortWrite {
                written: *written,
                len: *len,
            },
            PtyError::ReadHandleTaken => PtyError::ReadHandleTaken,
            PtyError::WriterTaken => PtyError::WriterTaken,
            PtyError::Unwaitable => PtyError::Unwaitable,
            PtyError::NoExitStatus => PtyError::NoExitStatus,
            PtyError::WaitDuplicate(s) => PtyError::WaitDuplicate(s.model()),
            PtyError::System(s) => PtyError::System(s.model()),
        }
    }
}

/// The message of an error.
pub open spec fn pty_error_text(e: PtyError<Seq<char>>) -> Seq<char> {
    match e {
        PtyError::NoSignalPipe => "signal pipe handle not available"@,
        PtyError::SignalWrite(s) => "WriteFile to ConPTY signal pipe failed: "@ + s,
        PtyError::ShortWrite { written, len } => "short write to ConPTY signal pipe: wrote "@
            + decimal_text(written as nat) + " of "@ + decimal_text(len as nat) + " bytes"@,
        PtyError::ReadHandleTaken => "read handle already taken"@,
        PtyError::WriterTaken => "writer already taken"@,
        PtyError::Unwaitable => "wait() called with no session handle; child is unwaitable"@,
        PtyError::NoExitStatus => "WaitForSingleObject returned but try_wait found no exit status"@,
        PtyError::WaitDuplicate(s) => "DuplicateHandle for wait() failed: "@ + s,
        PtyError::System(s) => s,
    }
}

impl PtyError<String> {
    /// The message.
    pub fn message(&self) -> (r: String)
        ensures
            r@ == pty_error_text(self.model()),
    {
        match self {
            PtyError::NoSignalPipe => "signal pipe handle not available".to_string(),
            PtyError::SignalWrite(
                s,
            ) => "WriteFile to ConPTY signal pipe failed: ".to_string().concat(s.as_str()),
            PtyError::ShortWrite {
                written,
                len,
            } => "short write to ConPTY signal pipe: wrote ".to_string().concat(
                decimal(*written).as_str(),
            ).concat(" of ").concat(decimal(*len).as_str()).concat(" bytes"),
            PtyError::ReadHandleTaken => "read handle already taken".to_string(),
            PtyError::WriterTaken => "writer already taken".to_string(),
            PtyError::Unwaitable => "wait() called with no session handle; child is unwaitable".to_string(),
            PtyError::NoExitStatus => "WaitForSingleObject returned but try_wait found no exit status".to_string(),
            PtyError::WaitDuplicate(
                s,
            ) => "DuplicateHandle for wait() failed: ".to_string().concat(s.as_str()),
            PtyError::System(s) => s.clone(),
        }
    }
}

/// A handle that is not null.
pub open spec fn non_null(h: Handle) -> Option<Handle> {
    if h == 0 {
        None
    } else {
        Some(h)
    }
}

fn checked_handle(h: Handle) -> (r: Option<Handle>)
    ensures
        r == non_null(h),
{
    if h == 0 {
        None
    } else {
        Some(h)
    }
}

/// A handle as a list.
pub open spec fn listed(h: Option<Handle>) -> Seq<Handle> {
    match h {
        Some(h) => seq![h],
        None => seq![],
    }
}

fn list(out: &mut Vec<Handle>, h: Option<Handle>)
    ensures
        final(out)@ == old(out)@ + listed(h),
{
    match h {
        Some(h) => {
            out.push(h);
            assert(out@ =~= old(out)@ + seq![h]);
        },
        None => {
            assert(out@ =~= old(out)@ + seq![]);
        },
    }
}

/// An error of the system ends with the system's own words, and a short write
/// tells how many of the bytes were written.
pub proof fn error_keeps_the_words(e: &PtyError<String>, r: String)
    requires
        call_ensures(PtyError::<String>::message, (e,), r),
    ensures
        e matches PtyError::SignalWrite(s) ==> r@ == "WriteFile to ConPTY signal pipe failed: "@
            + s@,
        e matches PtyError::ShortWrite { written, len } ==> r@
            == "short write to ConPTY signal pipe: wrote "@ + decimal_text(written as nat)
            + " of "@ + decimal_text(len as nat) + " bytes"@,
        e matches PtyError::WaitDuplicate(s) ==> r@ == "DuplicateHandle for wait() failed: "@ + s@,
        e matches PtyError::System(s) ==> r@ == s@,
{
}

/// Without anything known, a pseudo terminal has 24 rows of 80 columns.
pub proof fn default_size_is_classic(r: PtySize)
    requires
        call_ensures(<PtySize as Default>::default, (), r),
    ensures
        r.rows == 24,
        r.cols == 80,
        r.pixel_width == 0,
        r.pixel_height == 0,
{
}

} // verus!
