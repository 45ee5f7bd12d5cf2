//! The commands that make this terminal the Windows default, and undo it.

use crate::cli::disable::{
    disable_flow, DisableCommand, DisableRun, Disabling, Ids, ProxyIds,
};
use crate::cli::enable::{enable_flow, EnableCommand, EnableRun, Enabling};
use crate::error::Error;
use crate::machine::{bind, Flow, Resumable, Script, Steps};
use crate::model::Model;
use crate::registration::ownership::{Removal, Removals};
use crate::registry::Reply;
use vstd::prelude::*;

pub mod disable;
pub mod enable;
pub mod endings;
pub mod laws;
pub mod stages;

verus! {

/// What the user asks for.
#[derive(Clone, Copy, Debug, PartialEq, Eq, Structural)]
pub enum TerminalHostSub {
    Enable,
    Disable,
}

/// The command line of the terminal host management.
#[derive(Clone, Copy, Debug)]
pub struct TerminalHostCommand {
    pub sub: TerminalHostSub,
}

/// A command, waiting. `I` is a list of identifiers, `J` a list of removals.
#[derive(Debug)]
pub enum CommandRun<S, L, I, J> {
    Enabling(EnableRun<S, L, I>),
    Disabling(DisableRun<S, L, I, J>),
}

impl<S: Model, L: Model, I: Model, J: Model> Model for CommandRun<S, L, I, J> {
    type M = CommandRun<S::M, L::M, I::M, J::M>;

    open spec fn model(&self) -> CommandRun<S::M, L::M, I::M, J::M> {
        match self {
            CommandRun::Enabling(m) => CommandRun::Enabling(m.model()),
            CommandRun::Disabling(m) => CommandRun::Disabling(m.model()),
        }
    }
}

/// A command as a specification sees it.
pub type CommandState = CommandRun<
    Seq<char>,
    Steps,
    Seq<Seq<char>>,
    Seq<Removal<Seq<char>, Steps>>,
>;

/// The same with what it asks for.
pub type CommandFlow = Flow<Seq<char>, CommandState, Result<(), Error<Seq<char>>>>;

/// The command that the user asks for.
pub open spec fn command_flow(cmd: TerminalHostCommand, ids: Ids) -> CommandFlow {
    match cmd.sub {
        TerminalHostSub::Enable => bind(
            enable_flow(),
            |m| CommandRun::Enabling(m),
            |r: Result<(), Error<Seq<char>>>| Flow::Done(r),
        ),
        TerminalHostSub::Disable => bind(
            disable_flow(ids),
            |m| CommandRun::Disabling(m),
            |r: Result<(), Error<Seq<char>>>| Flow::Done(r),
        ),
    }
}

impl Resumable<Result<(), Error<Seq<char>>>> for CommandState {
    open spec fn next(self, reply: Reply<Seq<char>>) -> CommandFlow {
        match self {
            CommandRun::Enabling(m) => bind(
                m.next(reply),
                |m| CommandRun::Enabling(m),
                |r: Result<(), Error<Seq<char>>>| Flow::Done(r),
            ),
            CommandRun::Disabling(m) => bind(
                m.next(reply),
                |m| CommandRun::Disabling(m),
                |r: Result<(), Error<Seq<char>>>| Flow::Done(r),
            ),
        }
    }
}

/// The run-time type of a command.
pub type Command = CommandRun<String, Script, Vec<String>, Removals>;

fn enabling(f: Flow<String, Enabling, Result<(), Error<String>>>) -> (r: Flow<
    String,
    Command,
    Result<(), Error<String>>,
>)
    ensures
        r.model() == bind(
            f.model(),
            |m| CommandState::Enabling(m),
            |r: Result<(), Error<Seq<char>>>| Flow::Done(r),
        ),
{
    match f {
        Flow::Ask(q, m) => Flow::Ask(q, CommandRun::Enabling(m)),
        Flow::Done(r) => Flow::Done(r),
    }
}

fn disabling(f: Flow<String, Disabling, Result<(), Error<String>>>) -> (r: Flow<
    String,
    Command,
    Result<(), Error<String>>,
>)
    ensures
        r.model() == bind(
            f.model(),
            |m| CommandState::Disabling(m),
            |r: Result<(), Error<Seq<char>>>| Flow::Done(r),
        ),
{
    match f {
        Flow::Ask(q, m) => Flow::Ask(q, CommandRun::Disabling(m)),
        Flow::Done(r) => Flow::Done(r),
    }
}

/// Begin the command that the user asks for. `ids` names what `disable` has to
/// look after.
pub fn run(cmd: TerminalHostCommand, ids: ProxyIds<String, Vec<String>>) -> (r: Flow<
    String,
    Command,
    Result<(), Error<String>>,
>)
    ensures
        r.model() == command_flow(cmd, ids.model()),
{
    match cmd.sub {
        TerminalHostSub::Enable => enabling(EnableCommand::run()),
        TerminalHostSub::Disable => disabling(DisableCommand::run(ids)),
    }
}

impl Command {
    /// Go on with the command.
    pub fn resume(self, reply: Reply<String>) -> (r: Flow<
        String,
        Command,
        Result<(), Error<String>>,
    >)
        ensures
            r.model() == self.model().next(reply.model()),
    {
        match self {
            CommandRun::Enabling(m) => enabling(m.resume(reply)),
            CommandRun::Disabling(m) => disabling(m.resume(reply)),
        }
    }
}

} // verus!
