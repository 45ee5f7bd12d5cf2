//! The way of a session into a new window.

use crate::integration::GuiPosition;
use crate::model::Model;
use crate::raw_pty::PtySize;
use vstd::prelude::*;

verus! {

/// A step of the attachment. Each can fail.
#[derive(Clone, Copy, Debug, PartialEq, Eq, Structural)]
pub enum AttachStep {
    /// Find the multiplexer. A handoff may arrive before there is one.
    FindMux,
    /// Find its local domain.
    FindLocalDomain,
    /// See that the domain can take panes of others.
    CheckLocalDomain,
    /// Attach the session as a pane.
    AttachPane,
    /// Put the pane into a tab of its own.
    AddTab,
    /// Put the tab into a new window.
    AddToWindow,
}

/// What the attachment asks for.
#[derive(Debug)]
pub enum AttachCall<S> {
    FindMux,
    FindLocalDomain,
    CheckLocalDomain,
    AttachPane { rows: usize, cols: usize, description: S },
    AddTab { rows: usize, cols: usize },
    AddToWindow { position: Option<GuiPosition> },
}

impl<S: Model> Model for AttachCall<S> {
    type M = AttachCall<S::M>;

    open spec fn model(&self) -> AttachCall<S::M> {
        match self {
            AttachCall::FindMux => AttachCall::FindMux,
            AttachCall::FindLocalDomain => AttachCall::FindLocalDomain,
            AttachCall::CheckLocalDomain => AttachCall::CheckLocalDomain,
            AttachCall::AttachPane { rows, cols, description } => AttachCall::AttachPane {
                rows: *rows,
                cols: *cols,
                description: description.model(),
            },
            AttachCall::AddTab { rows, cols } => AttachCall::AddTab { rows: *rows, cols: *cols },
            AttachCall::AddToWindow { position } => AttachCall::AddToWindow {
                position: *position,
            },
        }
    }
}

/// Why a session did not get its window: the step that failed and, where the
/// multiplexer gives one, the reason.
#[derive(Debug)]
pub struct AttachError<S> {
    pub step: AttachStep,
    pub cause: S,
}

impl<S: Model> Model for AttachError<S> {
    type M = AttachError<S::M>;

    open spec fn model(&self) -> AttachError<S::M> {
        AttachError { step: self.step, cause: self.cause.model() }
    }
}

/// The message of an error.
pub open spec fn attach_error_text(e: AttachError<Seq<char>>) -> Seq<char> {
    match e.step {
        AttachStep::FindMux => "Mux not yet initialized when handoff arrived"@,
        AttachStep::FindLocalDomain => "no 'local' domain registered with the mux"@,
        AttachStep::CheckLocalDomain => {
            "the 'local' domain is not a LocalDomain; termhost cannot attach"@
        },
        AttachStep::AttachPane => "LocalDomain::attach_external_pane: "@ + e.cause,
        AttachStep::AddTab => "add_tab_and_active_pane: "@ + e.cause,
        AttachStep::AddToWindow => "add_tab_to_window: "@ + e.cause,
    }
}

impl AttachError<String> {
    /// The message.
    pub fn message(&self) -> (r: String)
        ensures
            r@ == attach_error_text(self.model()),
    {
        match self.step {
            AttachStep::FindMux => "Mux not yet initialized when handoff arrived".to_string(),
            AttachStep::FindLocalDomain => "no 'local' domain registered with the mux".to_string(),
            AttachStep::CheckLocalDomain => {
                "the 'local' domain is not a LocalDomain; termhost cannot attach".to_string()
            },
            AttachStep::AttachPane => "LocalDomain::attach_external_pane: ".to_string().concat(
                self.cause.as_str(),
            ),
            AttachStep::AddTab => "add_tab_and_active_pane: ".to_string().concat(
                self.cause.as_str(),
            ),
            AttachStep::AddToWindow => "add_tab_to_window: ".to_string().concat(
                self.cause.as_str(),
            ),
        }
    }
}

/// An attachment, waiting for a step.
#[derive(Debug)]
pub struct Attach<S> {
    pub step: AttachStep,
    pub title: S,
    pub size: PtySize,
    pub position: Option<GuiPosition>,
}

impl<S: Model> Model for Attach<S> {
    type M = Attach<S::M>;

    open spec fn model(&self) -> Attach<S::M> {
        Attach {
            step: self.step,
            title: self.title.model(),
            size: self.size,
            position: self.position,
        }
    }
}

/// An attachment in progress.
#[derive(Debug)]
pub enum AttachTalk<S> {
    Ask(AttachCall<S>, Attach<S>),
    Done(Result<(), AttachError<S>>),
}

impl<S: Model> Model for AttachTalk<S> {
    type M = AttachTalk<S::M>;

    open spec fn model(&self) -> AttachTalk<S::M> {
        match self {
            AttachTalk::Ask(c, m) => AttachTalk::Ask(c.model(), m.model()),
            AttachTalk::Done(r) => AttachTalk::Done(r.model()),
        }
    }
}

/// What a step asks for.
pub open spec fn call_of(at: Attach<Seq<char>>) -> AttachCall<Seq<char>> {
    let rows = at.size.rows as usize;
    let cols = at.size.cols as usize;
    match at.step {
        AttachStep::FindMux => AttachCall::FindMux,
        AttachStep::FindLocalDomain => AttachCall::FindLocalDomain,
        AttachStep::CheckLocalDomain => AttachCall::CheckLocalDomain,
        AttachStep::AttachPane => AttachCall::AttachPane {
            rows,
            cols,
            description: "termhost handoff: "@ + at.title,
        },
        AttachStep::AddTab => AttachCall::AddTab { rows, cols },
        AttachStep::AddToWindow => AttachCall::AddToWindow { position: at.position },
    }
}

/// An attachment from a step on.
pub open spec fn attach_talk(at: Attach<Seq<char>>) -> AttachTalk<Seq<char>> {
    AttachTalk::Ask(call_of(at), at)
}

/// The step after a step.
pub open spec fn step_after(step: AttachStep) -> Option<AttachStep> {
    match step {
        AttachStep::FindMux => Some(AttachStep::FindLocalDomain),
        AttachStep::FindLocalDomain => Some(AttachStep::CheckLocalDomain),
        AttachStep::CheckLocalDomain => Some(AttachStep::AttachPane),
        AttachStep::AttachPane => Some(AttachStep::AddTab),
        AttachStep::AddTab => Some(AttachStep::AddToWindow),
        AttachStep::AddToWindow => None,
    }
}

/// How an attachment goes on: the first step that fails ends it.
pub open spec fn attach_next(
    at: Attach<Seq<char>>,
    outcome: Result<(), Seq<char>>,
) -> AttachTalk<Seq<char>> {
    match outcome {
        Err(cause) => AttachTalk::Done(Err(AttachError { step: at.step, cause })),
        Ok(_) => match step_after(at.step) {
            Some(step) => attach_talk(Attach { step, ..at }),
            None => AttachTalk::Done(Ok(())),
        },
    }
}

fn ask(at: Attach<String>) -> (r: AttachTalk<String>)
    ensures
        r.model() == attach_talk(at.model()),
{
    let rows: usize = at.size.rows as usize;
    let cols: usize = at.size.cols as usize;
    let call: AttachCall<String> = match at.step {
        AttachStep::FindMux => AttachCall::FindMux,
        AttachStep::FindLocalDomain => AttachCall::FindLocalDomain,
        AttachStep::CheckLocalDomain => AttachCall::CheckLocalDomain,
        AttachStep::AttachPane => AttachCall::AttachPane {
            rows,
            cols,
            description: "termhost handoff: ".to_string().concat(at.title.as_str()),
        },
        AttachStep::AddTab => AttachCall::AddTab { rows, cols },
        AttachStep::AddToWindow => AttachCall::AddToWindow { position: at.position },
    };
    AttachTalk::Ask(call, at)
}

/// Begin to bring a session into a new window.
pub fn attach_pane_to_new_window(
    title: String,
    initial_size: PtySize,
    position: Option<GuiPosition>,
) -> (r: AttachTalk<String>)
    ensures
        r.model() == attach_talk(
            Attach { step: AttachStep::FindMux, title: title@, size: initial_size, position },
        ),
{
    ask(Attach { step: AttachStep::FindMux, title, size: initial_size, position })
}

impl Attach<String> {
    /// Go on after a step.
    pub fn resume(self, outcome: Result<(), String>) -> (r: AttachTalk<String>)
        ensures
            r.model() == attach_next(self.model(), outcome.model()),
    {
        match outcome {
            Err(cause) => AttachTalk::Done(Err(AttachError { step: self.step, cause })),
            Ok(_) => {
                let next: Option<AttachStep> = match self.step {
                    AttachStep::FindMux => Some(AttachStep::FindLocalDomain),
                    AttachStep::FindLocalDomain => Some(AttachStep::CheckLocalDomain),
                    AttachStep::CheckLocalDomain => Some(AttachStep::AttachPane),
                    AttachStep::AttachPane => Some(AttachStep::AddTab),
                    AttachStep::AddTab => Some(AttachStep::AddToWindow),
                    AttachStep::AddToWindow => None,
                };
                match next {
                    Some(step) => ask(Attach { step, ..self }),
                    None => AttachTalk::Done(Ok(())),
                }
            },
        }
    }
}

/// Whether a window with a tab of the default profile has to take the place of
/// the session: its pipes are passed out already, so that Windows will not try
/// again, and the user should see something rather than nothing.
pub fn needs_replacement(attached: &Result<(), AttachError<String>>) -> (r: bool)
    ensures
        r == attached is Err,
{
    attached.is_err()
}

// ---------------------------------------------------------------------------
// Laws
// ---------------------------------------------------------------------------

/// Whether an attachment asks for exactly `asked`, is answered `outcomes`, and
/// then ends with `result`.
pub open spec fn attach_goes(
    f: AttachTalk<Seq<char>>,
    asked: Seq<AttachCall<Seq<char>>>,
    outcomes: Seq<Result<(), Seq<char>>>,
    result: Result<(), AttachError<Seq<char>>>,
) -> bool
    decreases asked.len(),
{
    match f {
        AttachTalk::Done(r) => asked.len() == 0 && outcomes.len() == 0 && r == result,
        AttachTalk::Ask(c, m) => {
            &&& asked.len() > 0
            &&& outcomes.len() > 0
            &&& asked[0] == c
            &&& attach_goes(
                attach_next(m, outcomes[0]),
                asked.skip(1),
                outcomes.skip(1),
                result,
            )
        },
    }
}

/// The calls that bring a session into a new window, in order.
pub open spec fn attach_calls(
    title: Seq<char>,
    size: PtySize,
    position: Option<GuiPosition>,
) -> Seq<AttachCall<Seq<char>>> {
    let rows = size.rows as usize;
    let cols = size.cols as usize;
    seq![
        AttachCall::FindMux,
        AttachCall::FindLocalDomain,
        AttachCall::CheckLocalDomain,
        AttachCall::AttachPane { rows, cols, description: "termhost handoff: "@ + title },
        AttachCall::AddTab { rows, cols },
        AttachCall::AddToWindow { position },
    ]
}

/// A session comes into a new window by six calls: the pane and the tab have its
/// size, the pane its title, and the window its position.
pub proof fn session_gets_its_window(
    title: String,
    size: PtySize,
    position: Option<GuiPosition>,
    begun: AttachTalk<String>,
)
    requires
        call_ensures(attach_pane_to_new_window, (title, size, position), begun),
    ensures
        attach_goes(
            begun.model(),
            attach_calls(title@, size, position),
            seq![Ok(()), Ok(()), Ok(()), Ok(()), Ok(()), Ok(())],
            Ok(()),
        ),
{
    reveal_with_fuel(attach_goes, 7);
}

/// The first call that fails is the last: the error is of that step and in the
/// words of the multiplexer.
pub proof fn first_failure_ends_attachment(
    title: String,
    size: PtySize,
    position: Option<GuiPosition>,
    begun: AttachTalk<String>,
    n: nat,
    cause: Seq<char>,
)
    requires
        call_ensures(attach_pane_to_new_window, (title, size, position), begun),
        n < 6,
    ensures
        attach_goes(
            begun.model(),
            attach_calls(title@, size, position).take(n as int + 1),
            Seq::new(n, |i: int| Ok::<(), Seq<char>>(())).push(Err(cause)),
            Err(
                AttachError {
                    step: seq![
                        AttachStep::FindMux,
                        AttachStep::FindLocalDomain,
                        AttachStep::CheckLocalDomain,
                        AttachStep::AttachPane,
                        AttachStep::AddTab,
                        AttachStep::AddToWindow,
                    ][n as int],
                    cause,
                },
            ),
        ),
{
    reveal_with_fuel(attach_goes, 7);
    assert(n == 0 || n == 1 || n == 2 || n == 3 || n == 4 || n == 5);
}

/// Another window takes the place of a session exactly if the session did not
/// get its own. The message then ends with the words of the multiplexer, for what
/// is asked of it after its domain was found.
pub proof fn failed_session_is_replaced(
    attached: &Result<(), AttachError<String>>,
    replace: bool,
    text: String,
)
    requires
        call_ensures(needs_replacement, (attached,), replace),
        attached matches Err(e) ==> call_ensures(AttachError::<String>::message, (&e,), text),
    ensures
        replace <==> attached is Err,
        attached matches Err(e) ==> {
            &&& e.step is AttachPane ==> text@ == "LocalDomain::attach_external_pane: "@ + e.cause@
            &&& e.step is AddTab ==> text@ == "add_tab_and_active_pane: "@ + e.cause@
            &&& e.step is AddToWindow ==> text@ == "add_tab_to_window: "@ + e.cause@
        },
{
}

} // verus!
