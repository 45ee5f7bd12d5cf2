//! The vocabulary in which the terminal talks to the Windows registry: keys,
//! values, edits, and the answers that come back.
//!
//! Only `HKEY_CURRENT_USER` is ever edited. Touching `HKEY_LOCAL_MACHINE` could
//! clobber registrations that Windows Terminal's installer manages, so an
//! [`Edit`] has no way to name it.

use crate::model::Model;
use vstd::prelude::*;

verus! {

/// The registry root that a key is read from.
#[derive(Clone, Copy, Debug, PartialEq, Eq, Structural)]
pub enum Root {
    CurrentUser,
    LocalMachine,
}

/// The values that the terminal reads and writes.
#[derive(Clone, Copy, Debug, PartialEq, Eq, Structural)]
pub enum ValueName {
    /// The unnamed value of a key.
    Default,
    DelegationConsole,
    DelegationTerminal,
    /// The console that was selected before the terminal took over.
    LastConsole,
    /// The terminal that was selected before this one took over.
    LastTerminal,
    /// Marks entries that this terminal wrote, so that entries of another host
    /// are never clobbered or removed.
    Owned,
}

/// The registry keys that the terminal deals with.
#[derive(Debug)]
pub enum Key<S> {
    /// The key that the console host reads at session startup.
    Startup,
    /// The class of a COM server.
    Clsid(S),
    /// The out-of-process server below a class.
    LocalServer(S),
    /// The in-process server below a class.
    InProcServer(S),
    /// A COM interface.
    Interface(S),
    /// The proxy/stub class below an interface.
    ProxyStub(S),
}

impl<S: Model> Model for Key<S> {
    type M = Key<S::M>;

    open spec fn model(&self) -> Key<S::M> {
        match self {
            Key::Startup => Key::Startup,
            Key::Clsid(s) => Key::Clsid(s.model()),
            Key::LocalServer(s) => Key::LocalServer(s.model()),
            Key::InProcServer(s) => Key::InProcServer(s.model()),
            Key::Interface(s) => Key::Interface(s.model()),
            Key::ProxyStub(s) => Key::ProxyStub(s.model()),
        }
    }
}

/// One change to the registry, below `HKEY_CURRENT_USER`.
#[derive(Debug)]
pub enum Edit<S> {
    /// Create the key unless it exists.
    CreateKey(Key<S>),
    SetString(Key<S>, ValueName, S),
    SetDword(Key<S>, ValueName, u32),
    DeleteValue(Key<S>, ValueName),
    /// Delete the key through its parent, opened for writing.
    DeleteChild(Key<S>),
    /// Delete the key.
    DeleteKey(Key<S>),
}

impl<S: Model> Model for Edit<S> {
    type M = Edit<S::M>;

    open spec fn model(&self) -> Edit<S::M> {
        match self {
            Edit::CreateKey(k) => Edit::CreateKey(k.model()),
            Edit::SetString(k, n, v) => Edit::SetString(k.model(), *n, v.model()),
            Edit::SetDword(k, n, v) => Edit::SetDword(k.model(), *n, *v),
            Edit::DeleteValue(k, n) => Edit::DeleteValue(k.model(), *n),
            Edit::DeleteChild(k) => Edit::DeleteChild(k.model()),
            Edit::DeleteKey(k) => Edit::DeleteKey(k.model()),
        }
    }
}

/// Why a request failed.
#[derive(Debug)]
pub struct Fault<S> {
    /// The key, value or file does not exist.
    pub not_found: bool,
    /// The system's own words.
    pub cause: S,
}

impl<S: Model> Model for Fault<S> {
    type M = Fault<S::M>;

    open spec fn model(&self) -> Fault<S::M> {
        Fault { not_found: self.not_found, cause: self.cause.model() }
    }
}

/// The answer to a request.
#[derive(Debug)]
pub enum Reply<S> {
    /// The request was carried out.
    Done,
    Text(S),
    Number(u32),
    Flag(bool),
    Fault(Fault<S>),
}

impl<S: Model> Model for Reply<S> {
    type M = Reply<S::M>;

    open spec fn model(&self) -> Reply<S::M> {
        match self {
            Reply::Done => Reply::Done,
            Reply::Text(s) => Reply::Text(s.model()),
            Reply::Number(n) => Reply::Number(*n),
            Reply::Flag(b) => Reply::Flag(*b),
            Reply::Fault(f) => Reply::Fault(f.model()),
        }
    }
}

impl Reply<Seq<char>> {
    /// Whether the request was carried out.
    pub open spec fn outcome(self) -> Result<(), Fault<Seq<char>>> {
        match self {
            Reply::Fault(f) => Err(f),
            _ => Ok(()),
        }
    }

    /// The text that was asked for. An answer of another kind is a failure
    /// without a cause.
    pub open spec fn text(self) -> Result<Seq<char>, Fault<Seq<char>>> {
        match self {
            Reply::Text(s) => Ok(s),
            Reply::Fault(f) => Err(f),
            _ => Err(Fault { not_found: false, cause: seq![] }),
        }
    }

    /// The number that was asked for, if one came.
    pub open spec fn number(self) -> Option<u32> {
        match self {
            Reply::Number(n) => Some(n),
            _ => None,
        }
    }

    /// The flag that was asked for; anything else is no.
    pub open spec fn flag(self) -> bool {
        self == Reply::<Seq<char>>::Flag(true)
    }
}

/// See the models of the same names.
impl Reply<String> {
    pub fn into_outcome(self) -> (r: Result<(), Fault<String>>)
        ensures
            r.model() == self.model().outcome(),
    {
        match self {
            Reply::Fault(f) => Err(f),
            _ => Ok(()),
        }
    }

    pub fn into_text(self) -> (r: Result<String, Fault<String>>)
        ensures
            r.model() == self.model().text(),
    {
        match self {
            Reply::Text(s) => Ok(s),
            Reply::Fault(f) => Err(f),
            _ => Err(Fault { not_found: false, cause: String::new() }),
        }
    }

    pub fn as_number(&self) -> (r: Option<u32>)
        ensures
            r == self.model().number(),
    {
        match self {
            Reply::Number(n) => Some(*n),
            _ => None,
        }
    }

    pub fn as_flag(&self) -> (r: bool)
        ensures
            r == self.model().flag(),
    {
        match self {
            Reply::Flag(b) => *b,
            _ => false,
        }
    }
}

/// The key below `HKEY_CURRENT_USER` that the console host reads.
pub const STARTUP_KEY_PATH: &'static str = "Console\\%%Startup";

/// The path of a class.
pub open spec fn clsid_path(clsid: Seq<char>) -> Seq<char> {
    "Software\\Classes\\CLSID\\"@ + clsid
}

/// The path of an interface.
pub open spec fn interface_path(iid: Seq<char>) -> Seq<char> {
    "Software\\Classes\\Interface\\"@ + iid
}

/// The path of a key below its root.
pub open spec fn key_path(key: Key<Seq<char>>) -> Seq<char> {
    match key {
        Key::Startup => STARTUP_KEY_PATH@,
        Key::Clsid(c) => clsid_path(c),
        Key::LocalServer(c) => clsid_path(c) + "\\LocalServer32"@,
        Key::InProcServer(c) => clsid_path(c) + "\\InProcServer32"@,
        Key::Interface(i) => interface_path(i),
        Key::ProxyStub(i) => interface_path(i) + "\\ProxyStubClsid32"@,
    }
}

/// The path of a class.
pub fn clsid_registry_path(clsid: &str) -> (r: String)
    ensures
        r@ == clsid_path(clsid@),
{
    "Software\\Classes\\CLSID\\".to_string().concat(clsid)
}

fn interface_registry_path(iid: &str) -> (r: String)
    ensures
        r@ == interface_path(iid@),
{
    "Software\\Classes\\Interface\\".to_string().concat(iid)
}

impl Key<String> {
    /// The same key once more.
    pub fn copy(&self) -> (r: Key<String>)
        ensures
            r.model() == self.model(),
    {
        match self {
            Key::Startup => Key::Startup,
            Key::Clsid(s) => Key::Clsid(s.clone()),
            Key::LocalServer(s) => Key::LocalServer(s.clone()),
            Key::InProcServer(s) => Key::InProcServer(s.clone()),
            Key::Interface(s) => Key::Interface(s.clone()),
            Key::ProxyStub(s) => Key::ProxyStub(s.clone()),
        }
    }

    /// The path of the key below its root.
    pub fn path(&self) -> (r: String)
        ensures
            r@ == key_path(self.model()),
    {
        match self {
            Key::Startup => STARTUP_KEY_PATH.to_string(),
            Key::Clsid(c) => clsid_registry_path(c.as_str()),
            Key::LocalServer(c) => clsid_registry_path(c.as_str()).concat("\\LocalServer32"),
            Key::InProcServer(c) => clsid_registry_path(c.as_str()).concat("\\InProcServer32"),
            Key::Interface(i) => interface_registry_path(i.as_str()),
            Key::ProxyStub(i) => interface_registry_path(i.as_str()).concat("\\ProxyStubClsid32"),
        }
    }
}

/// The registry's name of a value.
pub open spec fn value_text(name: ValueName) -> Seq<char> {
    match name {
        ValueName::Default => ""@,
        ValueName::DelegationConsole => "DelegationConsole"@,
        ValueName::DelegationTerminal => "DelegationTerminal"@,
        ValueName::LastConsole => "WezTerm_Last_Console"@,
        ValueName::LastTerminal => "WezTerm_Last_Terminal"@,
        ValueName::Owned => "WezTermOwned"@,
    }
}

impl ValueName {
    /// The registry's name of the value.
    pub fn text(&self) -> (r: &'static str)
        ensures
            r@ == value_text(*self),
    {
        match self {
            ValueName::Default => "",
            ValueName::DelegationConsole => "DelegationConsole",
            ValueName::DelegationTerminal => "DelegationTerminal",
            ValueName::LastConsole => "WezTerm_Last_Console",
            ValueName::LastTerminal => "WezTerm_Last_Terminal",
            ValueName::Owned => "WezTermOwned",
        }
    }
}

// ---------------------------------------------------------------------------
// Laws
// ---------------------------------------------------------------------------

/// Each key lies where Windows and COM look for it. A server lies below its
/// class, and a proxy/stub class below its interface.
pub proof fn keys_lie_where_windows_looks(key: &Key<String>, r: String)
    requires
        call_ensures(Key::<String>::path, (key,), r),
    ensures
        key is Startup ==> r@ == "Console\\%%Startup"@,
        key matches Key::Clsid(c) ==> r@ == "Software\\Classes\\CLSID\\"@ + c@,
        key matches Key::LocalServer(c) ==> r@ == "Software\\Classes\\CLSID\\"@ + c@
            + "\\LocalServer32"@,
        key matches Key::InProcServer(c) ==> r@ == "Software\\Classes\\CLSID\\"@ + c@
            + "\\InProcServer32"@,
        key matches Key::Interface(i) ==> r@ == "Software\\Classes\\Interface\\"@ + i@,
        key matches Key::ProxyStub(i) ==> r@ == "Software\\Classes\\Interface\\"@ + i@
            + "\\ProxyStubClsid32"@,
{
}

/// The path of a class is that of its key.
pub proof fn class_path_is_that_of_its_key(
    clsid: &str,
    text: String,
    path: String,
    class: Key<String>,
    r: String,
)
    requires
        text@ == clsid@,
        class == Key::Clsid(text),
        call_ensures(clsid_registry_path, (clsid,), path),
        call_ensures(Key::<String>::path, (&class,), r),
    ensures
        r@ == path@,
{
}

/// A copy of a key is the same key.
pub proof fn copy_is_the_same_key(key: &Key<String>, r: Key<String>)
    requires
        call_ensures(Key::<String>::copy, (key,), r),
    ensures
        key is Startup <==> r is Startup,
        key matches Key::Clsid(c) ==> (r matches Key::Clsid(d) && d@ == c@),
        key matches Key::LocalServer(c) ==> (r matches Key::LocalServer(d) && d@ == c@),
        key matches Key::InProcServer(c) ==> (r matches Key::InProcServer(d) && d@ == c@),
        key matches Key::Interface(c) ==> (r matches Key::Interface(d) && d@ == c@),
        key matches Key::ProxyStub(c) ==> (r matches Key::ProxyStub(d) && d@ == c@),
{
}

/// The values have the names that the console host reads and that the terminal
/// keeps for itself, each its own.
pub proof fn values_have_their_names(a: &ValueName, b: &ValueName, r: &'static str, s: &'static str)
    requires
        call_ensures(ValueName::text, (a,), r),
        call_ensures(ValueName::text, (b,), s),
    ensures
        a is Default ==> r@.len() == 0,
        a is DelegationConsole ==> r@ == "DelegationConsole"@,
        a is DelegationTerminal ==> r@ == "DelegationTerminal"@,
        a is LastConsole ==> r@ == "WezTerm_Last_Console"@,
        a is LastTerminal ==> r@ == "WezTerm_Last_Terminal"@,
        a is Owned ==> r@ == "WezTermOwned"@,
        r@ == s@ ==> *a == *b,
{
    reveal_strlit("");
    reveal_strlit("DelegationConsole");
    reveal_strlit("DelegationTerminal");
    reveal_strlit("WezTerm_Last_Console");
    reveal_strlit("WezTerm_Last_Terminal");
    reveal_strlit("WezTermOwned");
    assert(""@.len() == 0);
    assert("DelegationConsole"@.len() == 17);
    assert("DelegationTerminal"@.len() == 18);
    assert("WezTerm_Last_Console"@.len() == 20);
    assert("WezTerm_Last_Terminal"@.len() == 21);
    assert("WezTermOwned"@.len() == 12);
    if r@ == s@ {
        assert(value_text(*a).len() == value_text(*b).len());
    }
}

/// An answer is taken for what it is: a fault as the failure that it tells of, a
/// text, a number or a flag as itself where one was asked for, and anything else
/// as none.
pub proof fn answers_are_taken_for_what_they_are(
    reply: Reply<String>,
    outcome: Result<(), Fault<String>>,
    text: Result<String, Fault<String>>,
    number: Option<u32>,
    flag: bool,
)
    requires
        call_ensures(Reply::<String>::into_outcome, (reply,), outcome),
        call_ensures(Reply::<String>::into_text, (reply,), text),
        call_ensures(Reply::<String>::as_number, (&reply,), number),
        call_ensures(Reply::<String>::as_flag, (&reply,), flag),
    ensures
        outcome is Err <==> reply is Fault,
        reply matches Reply::Fault(f) ==> {
            &&& outcome->Err_0.not_found == f.not_found && outcome->Err_0.cause@ == f.cause@
            &&& text is Err && text->Err_0.not_found == f.not_found && text->Err_0.cause@
                == f.cause@
        },
        text is Ok <==> reply is Text,
        reply matches Reply::Text(s) ==> text->Ok_0@ == s@,
        text is Err && !(reply is Fault) ==> !text->Err_0.not_found && text->Err_0.cause@.len()
            == 0,
        number is Some <==> reply is Number,
        reply matches Reply::Number(n) ==> number == Some(n),
        flag <==> (reply matches Reply::Flag(b) && b),
{
}

} // verus!
