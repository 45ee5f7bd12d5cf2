//! Why registration failed.

use crate::model::Model;
use crate::registry::{key_path, Key};
use vstd::prelude::*;

verus! {

/// What was being done, for the steps whose description is fixed.
#[derive(Clone, Copy, Debug, PartialEq, Eq, Structural)]
pub enum Task {
    WriteDelegationConsole,
    WriteDelegationTerminal,
    ReadDelegationTerminal,
    ReadDelegation,
    WriteBackupConsole,
    WriteBackupTerminal,
    WriteServerName,
    WriteClassName,
    CreateLocalServer,
    WriteLocalServer,
    WriteOwnedMarker,
    FindExecutable,
}

/// What was being done when a request failed.
#[derive(Debug)]
pub enum Context<S> {
    CreateKey(Key<S>),
    OpenForRead(Key<S>),
    OpenForBackup(Key<S>),
    Doing(Task),
}

impl<S: Model> Model for Context<S> {
    type M = Context<S::M>;

    open spec fn model(&self) -> Context<S::M> {
        match self {
            Context::CreateKey(k) => Context::CreateKey(k.model()),
            Context::OpenForRead(k) => Context::OpenForRead(k.model()),
            Context::OpenForBackup(k) => Context::OpenForBackup(k.model()),
            Context::Doing(t) => Context::Doing(*t),
        }
    }
}

/// A failure that ends the operation.
#[derive(Debug)]
pub struct Error<S> {
    pub context: Context<S>,
    /// The system's own words.
    pub cause: S,
}

impl<S: Model> Model for Error<S> {
    type M = Error<S::M>;

    open spec fn model(&self) -> Error<S::M> {
        Error { context: self.context.model(), cause: self.cause.model() }
    }
}

/// The description of a fixed step.
pub open spec fn task_text(task: Task) -> Seq<char> {
    match task {
        Task::WriteDelegationConsole => "writing DelegationConsole"@,
        Task::WriteDelegationTerminal => "writing DelegationTerminal"@,
        Task::ReadDelegationTerminal => "reading termhost terminal key"@,
        Task::ReadDelegation => "reading termhost keys"@,
        Task::WriteBackupConsole => "writing backup console"@,
        Task::WriteBackupTerminal => "writing backup terminal"@,
        Task::WriteServerName => "writing default value"@,
        Task::WriteClassName => "writing CLSID default value"@,
        Task::CreateLocalServer => "creating LocalServer32"@,
        Task::WriteLocalServer => "writing LocalServer32 value"@,
        Task::WriteOwnedMarker => "writing WezTermOwned marker"@,
        Task::FindExecutable => "determining wezterm-gui.exe path"@,
    }
}

/// The description of what was being done.
pub open spec fn context_text(context: Context<Seq<char>>) -> Seq<char> {
    match context {
        Context::CreateKey(k) => "creating HKCU\\"@ + key_path(k),
        Context::OpenForRead(k) => "opening HKCU\\"@ + key_path(k) + " for read"@,
        Context::OpenForBackup(k) => "opening HKCU\\"@ + key_path(k) + " for backup"@,
        Context::Doing(t) => task_text(t),
    }
}

/// The message of an error.
pub open spec fn error_text(e: Error<Seq<char>>) -> Seq<char> {
    context_text(e.context) + ": "@ + e.cause
}

fn task_description(task: Task) -> (r: &'static str)
    ensures
        r@ == task_text(task),
{
    match task {
        Task::WriteDelegationConsole => "writing DelegationConsole",
        Task::WriteDelegationTerminal => "writing DelegationTerminal",
        Task::ReadDelegationTerminal => "reading termhost terminal key",
        Task::ReadDelegation => "reading termhost keys",
        Task::WriteBackupConsole => "writing backup console",
        Task::WriteBackupTerminal => "writing backup terminal",
        Task::WriteServerName => "writing default value",
        Task::WriteClassName => "writing CLSID default value",
        Task::CreateLocalServer => "creating LocalServer32",
        Task::WriteLocalServer => "writing LocalServer32 value",
        Task::WriteOwnedMarker => "writing WezTermOwned marker",
        Task::FindExecutable => "determining wezterm-gui.exe path",
    }
}

impl Error<String> {
    /// The message: what was being done, and the system's own words.
    pub fn message(&self) -> (r: String)
        ensures
            r@ == error_text(self.model()),
    {
        let what: String = match &self.context {
            Context::CreateKey(k) => "creating HKCU\\".to_string().concat(k.path().as_str()),
            Context::OpenForRead(k) => "opening HKCU\\".to_string().concat(
                k.path().as_str(),
            ).concat(" for read"),
            Context::OpenForBackup(k) => "opening HKCU\\".to_string().concat(
                k.path().as_str(),
            ).concat(" for backup"),
            Context::Doing(t) => task_description(*t).to_string(),
        };
        what.concat(": ").concat(self.cause.as_str())
    }
}

/// The message of an error names the key where there is one, and ends with the
/// system's own words.
pub proof fn message_names_key_and_cause(e: &Error<String>, r: String)
    requires
        call_ensures(Error::<String>::message, (e,), r),
    ensures
        (": "@ + e.cause@).is_suffix_of(r@),
        e.context matches Context::CreateKey(k) ==> r@ == "creating HKCU\\"@ + key_path(k.model())
            + ": "@ + e.cause@,
        e.context matches Context::OpenForRead(k) ==> r@ == "opening HKCU\\"@ + key_path(k.model())
            + " for read"@ + ": "@ + e.cause@,
        e.context matches Context::OpenForBackup(k) ==> r@ == "opening HKCU\\"@ + key_path(
            k.model(),
        ) + " for backup"@ + ": "@ + e.cause@,
{
    let what = context_text(e.context.model());
    assert((": "@ + e.cause@) =~= r@.subrange(what.len() as int, r@.len() as int));
}

} // verus!
