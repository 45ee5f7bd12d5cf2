//! A model of the system that operations talk to: a registry, files, and what
//! the user was told, without failures other than those that its contents
//! cause. Laws about whole operations are stated over it.

use crate::machine::{bind, script_flow, BundleFile, Flow, Request, Resumable, Steps};
use crate::error::Error;
use crate::notice::Notice;
use crate::registry::{Edit, Fault, Key, Reply, Root, ValueName};
use vstd::prelude::*;

verus! {

/// The contents of a registry value.
pub enum Value {
    Text(Seq<char>),
    Number(u32),
}

/// The contents of a registry root: the keys that exist, with their values.
pub type Hive = Map<Key<Seq<char>>, Map<ValueName, Value>>;

/// The state of the system.
pub struct World {
    pub user: Hive,
    pub machine: Hive,
    /// The files that exist.
    pub files: Set<Seq<char>>,
    /// How many directories lie above that of the running executable.
    pub ancestors: Option<u32>,
    /// The bundled files that exist, with their paths.
    pub bundled: Map<BundleFile, Seq<char>>,
    /// The levels at which there is a directory `target`.
    pub target_dirs: Set<u32>,
    /// The path of the running executable.
    pub exe: Option<Seq<char>>,
    /// The path of the bundled proxy/stub library.
    pub proxy_stub: Option<Seq<char>>,
    /// The proxy/stub library that is registered.
    pub proxy_registered: Option<Seq<char>>,
    /// What the user was told, in order.
    pub said: Seq<Notice<Seq<char>>>,
    /// The words in which the system reports failures.
    pub words: Seq<char>,
}

/// The key above a key, where the terminal deals with that key too.
pub open spec fn parent(key: Key<Seq<char>>) -> Option<Key<Seq<char>>> {
    match key {
        Key::LocalServer(c) => Some(Key::Clsid(c)),
        Key::InProcServer(c) => Some(Key::Clsid(c)),
        Key::ProxyStub(i) => Some(Key::Interface(i)),
        _ => None,
    }
}

/// Whether a key has keys below it.
pub open spec fn has_children(hive: Hive, key: Key<Seq<char>>) -> bool {
    exists|child: Key<Seq<char>>|
        hive.contains_key(child) && #[trigger] parent(child) == Some(key)
}

/// Whether no key is there without the key above it.
pub open spec fn is_tree(hive: Hive) -> bool {
    forall|k: Key<Seq<char>>| #[trigger]
        hive.contains_key(k) ==> (parent(k) matches Some(p) ==> hive.contains_key(p))
}

/// A hive with the key and, where missing, the key above it.
pub open spec fn with_key(hive: Hive, key: Key<Seq<char>>) -> Hive {
    let above = match parent(key) {
        Some(p) => if hive.contains_key(p) {
            hive
        } else {
            hive.insert(p, Map::empty())
        },
        None => hive,
    };
    if above.contains_key(key) {
        above
    } else {
        above.insert(key, Map::empty())
    }
}

/// The text of a value, if the key exists and the value is a text.
pub open spec fn text_at(hive: Hive, key: Key<Seq<char>>, name: ValueName) -> Option<Seq<char>> {
    if hive.contains_key(key) && hive[key].contains_key(name) {
        match hive[key][name] {
            Value::Text(s) => Some(s),
            Value::Number(_) => None,
        }
    } else {
        None
    }
}

/// The number of a value, if the key exists and the value is a number.
pub open spec fn number_at(hive: Hive, key: Key<Seq<char>>, name: ValueName) -> Option<u32> {
    if hive.contains_key(key) && hive[key].contains_key(name) {
        match hive[key][name] {
            Value::Text(_) => None,
            Value::Number(n) => Some(n),
        }
    } else {
        None
    }
}

impl World {
    pub open spec fn hive(self, root: Root) -> Hive {
        match root {
            Root::CurrentUser => self.user,
            Root::LocalMachine => self.machine,
        }
    }

    pub open spec fn missing(self) -> Reply<Seq<char>> {
        Reply::Fault(Fault { not_found: true, cause: self.words })
    }

    pub open spec fn refused(self) -> Reply<Seq<char>> {
        Reply::Fault(Fault { not_found: false, cause: self.words })
    }

    pub open spec fn text_or_missing(self, text: Option<Seq<char>>) -> Reply<Seq<char>> {
        match text {
            Some(s) => Reply::Text(s),
            None => self.missing(),
        }
    }

    /// The answer to an edit.
    pub open spec fn edit_reply(self, edit: Edit<Seq<char>>) -> Reply<Seq<char>> {
        match edit {
            Edit::CreateKey(_) => Reply::Done,
            Edit::SetString(k, _, _) => if self.user.contains_key(k) {
                Reply::Done
            } else {
                self.missing()
            },
            Edit::SetDword(k, _, _) => if self.user.contains_key(k) {
                Reply::Done
            } else {
                self.missing()
            },
            Edit::DeleteValue(k, n) => if self.user.contains_key(k) && self.user[k].contains_key(
                n,
            ) {
                Reply::Done
            } else {
                self.missing()
            },
            Edit::DeleteChild(k) | Edit::DeleteKey(k) => if !self.user.contains_key(k) {
                self.missing()
            } else if has_children(self.user, k) {
                self.refused()
            } else {
                Reply::Done
            },
        }
    }

    /// The registry after an edit.
    pub open spec fn edited(self, edit: Edit<Seq<char>>) -> Hive {
        match edit {
            Edit::CreateKey(k) => with_key(self.user, k),
            Edit::SetString(k, n, v) => if self.user.contains_key(k) {
                self.user.insert(k, self.user[k].insert(n, Value::Text(v)))
            } else {
                self.user
            },
            Edit::SetDword(k, n, v) => if self.user.contains_key(k) {
                self.user.insert(k, self.user[k].insert(n, Value::Number(v)))
            } else {
                self.user
            },
            Edit::DeleteValue(k, n) => if self.user.contains_key(k) {
                self.user.insert(k, self.user[k].remove(n))
            } else {
                self.user
            },
            Edit::DeleteChild(k) | Edit::DeleteKey(k) => if self.user.contains_key(k)
                && !has_children(self.user, k) {
                self.user.remove(k)
            } else {
                self.user
            },
        }
    }

    /// The answer to a request.
    pub open spec fn reply(self, request: Request<Seq<char>>) -> Reply<Seq<char>> {
        match request {
            Request::OpenRead(root, k) => if self.hive(root).contains_key(k) {
                Reply::Done
            } else {
                self.missing()
            },
            Request::GetString(root, k, n) => match text_at(self.hive(root), k, n) {
                Some(s) => Reply::Text(s),
                None => if number_at(self.hive(root), k, n) is Some {
                    self.refused()
                } else {
                    self.missing()
                },
            },
            Request::GetDword(root, k, n) => match number_at(self.hive(root), k, n) {
                Some(v) => Reply::Number(v),
                None => if text_at(self.hive(root), k, n) is Some {
                    self.refused()
                } else {
                    self.missing()
                },
            },
            Request::Edit(e) => self.edit_reply(e),
            Request::PathExists(p) => Reply::Flag(self.files.contains(p)),
            Request::ExeAncestors => match self.ancestors {
                Some(n) => Reply::Number(n),
                None => self.missing(),
            },
            Request::FindBundled(b) => self.text_or_missing(
                if self.bundled.contains_key(b) {
                    Some(self.bundled[b])
                } else {
                    None
                },
            ),
            Request::TargetDir(level) => Reply::Flag(self.target_dirs.contains(level)),
            Request::CurrentExe => self.text_or_missing(self.exe),
            Request::FindProxyStub => self.text_or_missing(self.proxy_stub),
            Request::RegisterProxyStub(_) => Reply::Done,
            Request::Say(_) => Reply::Done,
        }
    }

    /// The system after a request.
    pub open spec fn after(self, request: Request<Seq<char>>) -> World {
        match request {
            Request::Edit(e) => World { user: self.edited(e), ..self },
            Request::RegisterProxyStub(dll) => World { proxy_registered: Some(dll), ..self },
            Request::Say(n) => World { said: self.said.push(n), ..self },
            _ => self,
        }
    }
}

/// Let an operation run against the system for at most `fuel` requests. `None`
/// if it takes more.
pub open spec fn run<M: Resumable<T>, T>(
    f: Flow<Seq<char>, M, T>,
    w: World,
    fuel: nat,
) -> Option<(T, World)>
    decreases fuel,
{
    match f {
        Flow::Done(t) => Some((t, w)),
        Flow::Ask(r, m) => if fuel == 0 {
            None
        } else {
            run(m.next(w.reply(r)), w.after(r), (fuel - 1) as nat)
        },
    }
}

/// No operation touches the machine's registry or any file: whatever it does, it
/// does below `HKEY_CURRENT_USER`.
pub proof fn machine_stays_untouched<M: Resumable<T>, T>(
    f: Flow<Seq<char>, M, T>,
    w: World,
    fuel: nat,
)
    ensures
        run(f, w, fuel) matches Some((t, after)) ==> after.machine == w.machine && after.files
            == w.files,
    decreases fuel,
{
    if f is Ask && fuel > 0 {
        let m = f->Ask_1;
        let r = f->Ask_0;
        machine_stays_untouched(m.next(w.reply(r)), w.after(r), (fuel - 1) as nat);
    }
}

/// An operation that finishes does not care for more fuel.
pub proof fn lemma_more_fuel<M: Resumable<T>, T>(
    f: Flow<Seq<char>, M, T>,
    w: World,
    fuel: nat,
    more: nat,
)
    requires
        run(f, w, fuel) is Some,
        fuel <= more,
    ensures
        run(f, w, more) == run(f, w, fuel),
    decreases fuel,
{
    match f {
        Flow::Done(_) => {},
        Flow::Ask(r, m) => {
            lemma_more_fuel(
                m.next(w.reply(r)),
                w.after(r),
                (fuel - 1) as nat,
                (more - 1) as nat,
            );
        },
    }
}

/// A part of an operation runs as it would alone, and its result is handed on.
pub proof fn lemma_run_bind<M: Resumable<T>, T, C: Resumable<U>, U>(
    f: Flow<Seq<char>, M, T>,
    wrap: spec_fn(M) -> C,
    cont: spec_fn(T) -> Flow<Seq<char>, C, U>,
    w: World,
    fuel: nat,
    more: nat,
)
    requires
        forall|m: M, r: Reply<Seq<char>>| #[trigger]
            wrap(m).next(r) == bind(m.next(r), wrap, cont),
        run(f, w, fuel) is Some,
        run(cont(run(f, w, fuel).unwrap().0), run(f, w, fuel).unwrap().1, more) is Some,
    ensures
        run(bind(f, wrap, cont), w, fuel + more) == run(
            cont(run(f, w, fuel).unwrap().0),
            run(f, w, fuel).unwrap().1,
            more,
        ),
    decreases fuel,
{
    match f {
        Flow::Done(t) => {
            lemma_more_fuel(cont(t), w, more, fuel + more);
        },
        Flow::Ask(r, m) => {
            let f2 = m.next(w.reply(r));
            let w2 = w.after(r);
            lemma_run_bind(f2, wrap, cont, w2, (fuel - 1) as nat, more);
            assert(wrap(m).next(w.reply(r)) == bind(f2, wrap, cont));
        },
    }
}

/// The system after a list of edits.
pub open spec fn after_steps(w: World, steps: Steps) -> World
    decreases steps.len(),
{
    if steps.len() == 0 {
        w
    } else {
        after_steps(w.after(Request::Edit(steps[0].edit)), steps.skip(1))
    }
}

/// Whether no fatal edit of a list fails.
pub open spec fn steps_succeed(w: World, steps: Steps) -> bool
    decreases steps.len(),
{
    if steps.len() == 0 {
        true
    } else {
        &&& steps[0].fatal is None || w.edit_reply(steps[0].edit) == Reply::<Seq<char>>::Done
        &&& steps_succeed(w.after(Request::Edit(steps[0].edit)), steps.skip(1))
    }
}

/// A list of edits none of which fails fatally is carried out to its end.
pub proof fn lemma_run_script(w: World, steps: Steps)
    requires
        steps_succeed(w, steps),
    ensures
        run(script_flow(steps), w, steps.len()) == Some(
            (Ok::<(), Error<Seq<char>>>(()), after_steps(w, steps)),
        ),
    decreases steps.len(),
{
    if steps.len() > 0 {
        lemma_run_script(w.after(Request::Edit(steps[0].edit)), steps.skip(1));
    }
}

} // verus!
