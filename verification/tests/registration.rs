use std::collections::{BTreeMap, BTreeSet};
use termhost::cli::disable::{DisableCommand, ProxyIds};
use termhost::cli::enable::{register_local_server_for_unpackaged, EnableCommand};
use termhost::cli::{run, TerminalHostCommand, TerminalHostSub};
use termhost::error::Error;
use termhost::machine::{BundleFile, Flow, Profile, Request};
use termhost::registration::detect::{
    clsid_server_exists, find_clsid_server_path, is_wt_installed, known_hosts, other_host_serves,
    read_local_server_exe, wt_brand_openconsole_clsids,
};
use termhost::registration::fallback::{
    foreign_server_is_registered, read_wezterm_owned_path, refresh_fallback,
    register_openconsole_fallback, resolve_bundled_openconsole_path,
};
use termhost::registration::ownership::{
    register_local_server_for_clsid, unregister_local_server_for_clsid,
    unregister_proxy_stub_per_user,
};
use termhost::registration::{
    capture_delegation_backup, clear_delegation_backup, current_registration, is_wezterm_default,
    key_is_wezterm_owned, register_termhost, restore_delegation_backup, TermHostRegistration,
    WEZTERM_TERMHOST_FALLBACK_CONSOLE_CLSID, WEZTERM_TERMHOST_TERMINAL_CLSID,
};
use termhost::registry::{clsid_registry_path, Edit, Fault, Key, Reply, Root, ValueName};

const STARTUP_KEY: &str = "Console\\%%Startup";
const DELEGATION_CONSOLE: &str = "DelegationConsole";
const DELEGATION_TERMINAL: &str = "DelegationTerminal";
const LAST_CONSOLE: &str = "WezTerm_Last_Console";
const LAST_TERMINAL: &str = "WezTerm_Last_Terminal";
const OWNED: &str = "WezTermOwned";
const NULL_GUID: &str = "{00000000-0000-0000-0000-000000000000}";

#[derive(Clone, Debug, PartialEq)]
enum Value {
    Text(String),
    Number(u32),
}

type Hive = BTreeMap<String, BTreeMap<String, Value>>;

/// A system in memory.
#[derive(Clone, Debug, Default)]
struct System {
    user: Hive,
    machine: Hive,
    files: BTreeSet<String>,
    ancestors: Option<u32>,
    bundled: Vec<(BundleFile, String)>,
    target_dirs: BTreeSet<u32>,
    exe: Option<String>,
    proxy_stub: Option<String>,
    proxy_registered: Option<String>,
    said: Vec<(bool, String)>,
    /// Requests that are denied, as their first words.
    denied: Vec<String>,
}

fn missing() -> Reply<String> {
    Reply::Fault(Fault { not_found: true, cause: "not found".to_string() })
}

fn denied() -> Reply<String> {
    Reply::Fault(Fault { not_found: false, cause: "access denied".to_string() })
}

impl System {
    fn set(&mut self, key: &str, name: &str, value: Value) {
        create(&mut self.user, key);
        self.user.get_mut(key).expect("key").insert(name.to_string(), value);
    }

    fn set_text(&mut self, key: &str, name: &str, text: &str) {
        self.set(key, name, Value::Text(text.to_string()));
    }

    fn text(&self, key: &str, name: &str) -> Option<String> {
        match self.user.get(key).and_then(|k| k.get(name)) {
            Some(Value::Text(s)) => Some(s.clone()),
            _ => None,
        }
    }

    fn number(&self, key: &str, name: &str) -> Option<u32> {
        match self.user.get(key).and_then(|k| k.get(name)) {
            Some(Value::Number(n)) => Some(*n),
            _ => None,
        }
    }

    fn hive(&self, root: Root) -> &Hive {
        match root {
            Root::CurrentUser => &self.user,
            Root::LocalMachine => &self.machine,
        }
    }

    fn is_denied(&self, what: &str, key: &Key<String>, name: &str) -> bool {
        let line = format!("{} {} {}", what, key.path(), name);
        self.denied.iter().any(|d| line.trim_end().starts_with(d))
    }

    fn delete(&mut self, key: &Key<String>) -> Reply<String> {
        let path = key.path();
        let below = format!("{}\\", path);
        if !self.user.contains_key(&path) {
            missing()
        } else if self.user.keys().any(|k| k.starts_with(&below)) {
            denied()
        } else {
            self.user.remove(&path);
            Reply::Done
        }
    }

    fn edit(&mut self, edit: Edit<String>) -> Reply<String> {
        match edit {
            Edit::CreateKey(k) => {
                if self.is_denied("create", &k, "") {
                    return denied();
                }
                create(&mut self.user, &k.path());
                Reply::Done
            }
            Edit::SetString(k, n, v) => {
                if self.is_denied("set", &k, n.text()) {
                    return denied();
                }
                self.put(&k, n, Value::Text(v))
            }
            Edit::SetDword(k, n, v) => {
                if self.is_denied("set", &k, n.text()) {
                    return denied();
                }
                self.put(&k, n, Value::Number(v))
            }
            Edit::DeleteValue(k, n) => match self.user.get_mut(&k.path()) {
                Some(values) => match values.remove(n.text()) {
                    Some(_) => Reply::Done,
                    None => missing(),
                },
                None => missing(),
            },
            Edit::DeleteChild(k) | Edit::DeleteKey(k) => {
                if self.is_denied("delete", &k, "") {
                    return denied();
                }
                self.delete(&k)
            }
        }
    }

    fn put(&mut self, key: &Key<String>, name: ValueName, value: Value) -> Reply<String> {
        match self.user.get_mut(&key.path()) {
            Some(values) => {
                values.insert(name.text().to_string(), value);
                Reply::Done
            }
            None => missing(),
        }
    }

    fn get(&self, root: Root, key: &Key<String>, name: ValueName) -> Option<&Value> {
        self.hive(root).get(&key.path()).and_then(|k| k.get(name.text()))
    }

    fn answer(&mut self, request: Request<String>) -> Reply<String> {
        match request {
            Request::OpenRead(root, k) => {
                if self.is_denied("open", &k, "") {
                    denied()
                } else if self.hive(root).contains_key(&k.path()) {
                    Reply::Done
                } else {
                    missing()
                }
            }
            Request::GetString(root, k, n) => {
                if self.is_denied("get", &k, n.text()) {
                    return denied();
                }
                match self.get(root, &k, n) {
                    Some(Value::Text(s)) => Reply::Text(s.clone()),
                    Some(Value::Number(_)) => denied(),
                    None => missing(),
                }
            }
            Request::GetDword(root, k, n) => match self.get(root, &k, n) {
                Some(Value::Number(v)) => Reply::Number(*v),
                Some(Value::Text(_)) => denied(),
                None => missing(),
            },
            Request::Edit(e) => self.edit(e),
            Request::PathExists(p) => Reply::Flag(self.files.contains(&p)),
            Request::ExeAncestors => match self.ancestors {
                Some(n) => Reply::Number(n),
                None => missing(),
            },
            Request::FindBundled(file) => {
                match self.bundled.iter().find(|(f, _)| *f == file) {
                    Some((_, path)) => Reply::Text(path.clone()),
                    None => missing(),
                }
            }
            Request::TargetDir(level) => Reply::Flag(self.target_dirs.contains(&level)),
            Request::CurrentExe => match &self.exe {
                Some(p) => Reply::Text(p.clone()),
                None => denied(),
            },
            Request::FindProxyStub => match &self.proxy_stub {
                Some(p) => Reply::Text(p.clone()),
                None => missing(),
            },
            Request::RegisterProxyStub(p) => {
                if self.denied.iter().any(|d| d == "register proxy") {
                    denied()
                } else {
                    self.proxy_registered = Some(p);
                    Reply::Done
                }
            }
            Request::Say(notice) => {
                self.said.push((notice.is_warning(), notice.text()));
                Reply::Done
            }
        }
    }

    fn drive<M, T>(
        &mut self,
        flow: Flow<String, M, T>,
        resume: impl Fn(M, Reply<String>) -> Flow<String, M, T>,
    ) -> T {
        let mut flow = flow;
        loop {
            match flow {
                Flow::Ask(request, m) => {
                    let reply = self.answer(request);
                    flow = resume(m, reply);
                }
                Flow::Done(t) => return t,
            }
        }
    }

    fn capture(&mut self) -> Result<(), String> {
        let r = self.drive(capture_delegation_backup(), |m, r| m.resume(r));
        r.map_err(|e| e.message())
    }

    fn restore(&mut self) -> Result<bool, String> {
        let r = self.drive(restore_delegation_backup(), |m, r| m.resume(r));
        r.map_err(|e| e.message())
    }

    fn register_fallback(&mut self) -> Result<(), String> {
        let r = self.drive(register_openconsole_fallback(), |m, r| m.resume(r));
        r.map_err(|e| e.message())
    }

    fn enable(&mut self) -> Result<(), String> {
        self.drive(EnableCommand::run(), |m, r| m.resume(r)).map_err(|e| e.message())
    }

    fn disable(&mut self) -> Result<(), String> {
        self.drive(DisableCommand::run(ids()), |m, r| m.resume(r)).map_err(|e| e.message())
    }

    fn select(&mut self, console: &str, terminal: &str) {
        self.set_text(STARTUP_KEY, DELEGATION_CONSOLE, console);
        self.set_text(STARTUP_KEY, DELEGATION_TERMINAL, terminal);
    }

    fn select_wezterm(&mut self) {
        self.select(WEZTERM_TERMHOST_FALLBACK_CONSOLE_CLSID, WEZTERM_TERMHOST_TERMINAL_CLSID);
    }

    fn keep(&mut self, console: &str, terminal: &str) {
        self.set_text(STARTUP_KEY, LAST_CONSOLE, console);
        self.set_text(STARTUP_KEY, LAST_TERMINAL, terminal);
    }

    fn selection(&self) -> (Option<String>, Option<String>) {
        (
            self.text(STARTUP_KEY, DELEGATION_CONSOLE),
            self.text(STARTUP_KEY, DELEGATION_TERMINAL),
        )
    }

    fn backup(&self) -> (Option<String>, Option<String>) {
        (self.text(STARTUP_KEY, LAST_CONSOLE), self.text(STARTUP_KEY, LAST_TERMINAL))
    }
}

fn create(hive: &mut Hive, path: &str) {
    let mut at = String::new();
    for part in path.split('\\') {
        if !at.is_empty() {
            at.push('\\');
        }
        at.push_str(part);
        hive.entry(at.clone()).or_default();
    }
}

fn some(s: &str) -> Option<String> {
    Some(s.to_string())
}

fn server_key(clsid: &str) -> String {
    format!("{}\\LocalServer32", clsid_registry_path(clsid))
}

fn ids() -> ProxyIds<String, Vec<String>> {
    ProxyIds {
        iids: vec!["{IID-A}".to_string(), "{IID-B}".to_string()],
        clsid: "{PROXY}".to_string(),
    }
}

fn machine_server(sys: &mut System, clsid: &str, value: &str) {
    let key = server_key(clsid);
    create(&mut sys.machine, &key);
    let values = sys.machine.get_mut(&key).expect("key");
    values.insert(String::new(), Value::Text(value.to_string()));
}

// ---------------------------------------------------------------------------
// Capture
// ---------------------------------------------------------------------------

#[test]
fn capture_skips_when_wezterm_already_default() {
    let mut sys = System::default();
    sys.select_wezterm();
    sys.set_text(STARTUP_KEY, LAST_TERMINAL, "{OLD-VALUE}");

    sys.capture().unwrap();

    let last = sys.text(STARTUP_KEY, LAST_TERMINAL).unwrap();
    assert_eq!(last, "{OLD-VALUE}");
}

#[test]
fn capture_writes_when_other_default() {
    let mut sys = System::default();
    sys.select("{OTHER-CONSOLE}", "{OTHER-TERMINAL}");

    sys.capture().unwrap();

    let console = sys.text(STARTUP_KEY, LAST_CONSOLE).unwrap();
    let terminal = sys.text(STARTUP_KEY, LAST_TERMINAL).unwrap();
    assert_eq!(console, "{OTHER-CONSOLE}");
    assert_eq!(terminal, "{OTHER-TERMINAL}");
}

#[test]
fn capture_writes_null_guid_when_no_default() {
    let mut sys = System::default();
    create(&mut sys.user, STARTUP_KEY);

    sys.capture().unwrap();

    let console = sys.text(STARTUP_KEY, LAST_CONSOLE).unwrap();
    let terminal = sys.text(STARTUP_KEY, LAST_TERMINAL).unwrap();
    assert_eq!(console, "{00000000-0000-0000-0000-000000000000}");
    assert_eq!(terminal, "{00000000-0000-0000-0000-000000000000}");
}

#[test]
fn capture_makes_the_key_where_it_is_missing() {
    let mut sys = System::default();
    sys.capture().unwrap();
    assert_eq!(sys.backup(), (some(NULL_GUID), some(NULL_GUID)));
    assert_eq!(sys.selection(), (None, None));
}

#[test]
fn capture_takes_half_a_selection_for_none() {
    let mut sys = System::default();
    sys.set_text(STARTUP_KEY, DELEGATION_CONSOLE, "{HALF}");
    sys.capture().unwrap();
    assert_eq!(sys.backup(), (some(NULL_GUID), some(NULL_GUID)));
    let mut sys = System::default();
    sys.set_text(STARTUP_KEY, DELEGATION_TERMINAL, "{HALF}");
    sys.capture().unwrap();
    assert_eq!(sys.backup(), (some(NULL_GUID), some(NULL_GUID)));
}

#[test]
fn capture_reports_what_failed() {
    let cases = [
        ("open Console", "opening HKCU\\Console\\%%Startup for read: access denied"),
        ("get Console\\%%Startup DelegationConsole", "reading termhost keys: access denied"),
        (
            "get Console\\%%Startup DelegationTerminal",
            "reading termhost terminal key: access denied",
        ),
        ("create Console", "opening HKCU\\Console\\%%Startup for backup: access denied"),
        ("set Console\\%%Startup WezTerm_Last_C", "writing backup console: access denied"),
        ("set Console\\%%Startup WezTerm_Last_T", "writing backup terminal: access denied"),
    ];
    for (deny, message) in cases {
        let mut sys = System::default();
        sys.select("{A}", "{B}");
        sys.denied.push(deny.to_string());
        assert_eq!(sys.capture(), Err(message.to_string()));
    }
}

#[test]
fn both_values_failing_is_an_error_unless_both_are_missing() {
    let mut sys = System::default();
    create(&mut sys.user, STARTUP_KEY);
    sys.denied.push("get Console\\%%Startup DelegationTerminal".to_string());
    assert_eq!(sys.capture(), Err("reading termhost keys: not found".to_string()));
}

// ---------------------------------------------------------------------------
// Restore
// ---------------------------------------------------------------------------

#[test]
fn restore_happy_path() {
    let mut sys = System::default();
    sys.select_wezterm();
    sys.keep("{PREV-CONSOLE}", "{PREV-TERMINAL}");

    let restored = sys.restore().unwrap();
    assert!(restored);

    let terminal = sys.text(STARTUP_KEY, DELEGATION_TERMINAL).unwrap();
    assert_eq!(terminal, "{PREV-TERMINAL}");
    assert_eq!(sys.text(STARTUP_KEY, DELEGATION_CONSOLE), some("{PREV-CONSOLE}"));
    assert!(sys.text(STARTUP_KEY, LAST_CONSOLE).is_none());
}

#[test]
fn interloper_protection() {
    let mut sys = System::default();
    sys.select("{OTHER-HOST}", "{OTHER-TERMINAL}");
    sys.keep("{SAVED-CONSOLE}", "{SAVED-TERMINAL}");

    let restored = sys.restore().unwrap();
    assert!(!restored);

    let console = sys.text(STARTUP_KEY, DELEGATION_CONSOLE).unwrap();
    assert_eq!(console, "{OTHER-HOST}");
    assert!(sys.text(STARTUP_KEY, LAST_CONSOLE).is_none());
}

#[test]
fn interloper_protection_console_only_changed() {
    let mut sys = System::default();
    sys.select("{OTHER-CONSOLE}", WEZTERM_TERMHOST_TERMINAL_CLSID);
    sys.keep("{SAVED-CONSOLE}", "{SAVED-TERMINAL}");

    let restored = sys.restore().unwrap();
    assert!(!restored);

    let console = sys.text(STARTUP_KEY, DELEGATION_CONSOLE).unwrap();
    assert_eq!(console, "{OTHER-CONSOLE}");
    let terminal = sys.text(STARTUP_KEY, DELEGATION_TERMINAL).unwrap();
    assert_eq!(terminal, WEZTERM_TERMHOST_TERMINAL_CLSID);
}

#[test]
fn missing_backup_restores_null_guid() {
    let mut sys = System::default();
    sys.select_wezterm();

    let restored = sys.restore().unwrap();
    assert!(restored);

    let console = sys.text(STARTUP_KEY, DELEGATION_CONSOLE).unwrap();
    assert_eq!(console, "{00000000-0000-0000-0000-000000000000}");
}

#[test]
fn clear_removes_both_values() {
    let mut sys = System::default();
    sys.keep("{TEST}", "{TEST}");

    let r = sys.drive(clear_delegation_backup(), |m, r| m.resume(r));
    assert!(r.is_ok());

    assert!(sys.text(STARTUP_KEY, LAST_CONSOLE).is_none());
    assert!(sys.text(STARTUP_KEY, LAST_TERMINAL).is_none());
    let again = sys.drive(clear_delegation_backup(), |m, r| m.resume(r));
    assert!(again.is_ok());
}

#[test]
fn restore_takes_the_null_guid_for_what_the_backup_lacks() {
    let mut sys = System::default();
    sys.select_wezterm();
    sys.set_text(STARTUP_KEY, LAST_TERMINAL, "{PREV-TERMINAL}");
    assert_eq!(sys.restore(), Ok(true));
    assert_eq!(sys.selection(), (some(NULL_GUID), some("{PREV-TERMINAL}")));
}

#[test]
fn restore_ignores_the_case_of_identifiers() {
    let mut sys = System::default();
    sys.select(
        &WEZTERM_TERMHOST_FALLBACK_CONSOLE_CLSID.to_lowercase(),
        &WEZTERM_TERMHOST_TERMINAL_CLSID.to_lowercase(),
    );
    sys.keep("{A}", "{B}");
    assert_eq!(sys.restore(), Ok(true));
    assert_eq!(sys.selection(), (some("{A}"), some("{B}")));
}

#[test]
fn restore_reports_what_failed_and_keeps_the_backup() {
    let cases = [
        ("open Console", "opening HKCU\\Console\\%%Startup for read: access denied"),
        ("create Console", "creating HKCU\\Console\\%%Startup: access denied"),
        ("set Console\\%%Startup DelegationC", "writing DelegationConsole: access denied"),
        ("set Console\\%%Startup DelegationT", "writing DelegationTerminal: access denied"),
    ];
    for (deny, message) in cases {
        let mut sys = System::default();
        sys.select_wezterm();
        sys.keep("{A}", "{B}");
        sys.denied.push(deny.to_string());
        assert_eq!(sys.restore(), Err(message.to_string()));
        assert_eq!(sys.backup(), (some("{A}"), some("{B}")));
    }
}

#[test]
fn restore_undoes_takeover() {
    for selected in [false, true] {
        let mut sys = System::default();
        if selected {
            sys.select("{A}", "{B}");
        }
        sys.capture().unwrap();
        let r = sys.drive(register_termhost(), |m, r| m.resume(r));
        assert!(r.is_ok());
        let taken = sys.clone();
        // A second takeover keeps the first backup.
        sys.capture().unwrap();
        assert_eq!(sys.user, taken.user);
        assert_eq!(sys.restore(), Ok(true));
        if selected {
            assert_eq!(sys.selection(), (some("{A}"), some("{B}")));
        } else {
            assert_eq!(sys.selection(), (some(NULL_GUID), some(NULL_GUID)));
        }
        assert_eq!(sys.backup(), (None, None));
    }
}

#[test]
fn registering_selects_this_terminal() {
    let mut sys = System::default();
    let r = sys.drive(register_termhost(), |m, r| m.resume(r));
    assert!(r.is_ok());
    let current = sys.drive(current_registration(), |m, r| m.resume(r));
    let reg: TermHostRegistration<String> = match current {
        Ok(Some(reg)) => reg,
        _ => panic!("nothing registered"),
    };
    assert!(is_wezterm_default(&reg));
    assert_eq!(reg.delegation_console, WEZTERM_TERMHOST_FALLBACK_CONSOLE_CLSID);
    assert_eq!(reg.delegation_terminal, WEZTERM_TERMHOST_TERMINAL_CLSID);
}

#[test]
fn only_the_exact_marker_counts() {
    assert!(key_is_wezterm_owned(Some(1)));
    assert!(!key_is_wezterm_owned(Some(0)));
    assert!(!key_is_wezterm_owned(Some(2)));
    assert!(!key_is_wezterm_owned(None));
}

// ---------------------------------------------------------------------------
// Servers
// ---------------------------------------------------------------------------

#[test]
fn enable_registers_local_server() {
    let mut sys = System::default();
    let clsid = "{00000000-1111-2222-3333-444444444444}";
    let exe_path = "C:\\Program Files\\WezTerm\\wezterm-gui.exe";
    let r = sys.drive(register_local_server_for_clsid(clsid, exe_path), |m, r| m.resume(r));
    assert!(r.is_ok());

    let key = clsid_registry_path(clsid);
    let name = sys.text(&key, "").unwrap();
    assert!(name.contains("WezTerm"));
    assert_eq!(name, "WezTerm Default Terminal Handoff");

    let owned = sys.number(&key, OWNED).unwrap();
    assert_eq!(owned, 1u32);

    let exe = sys.text(&server_key(clsid), "").unwrap();
    assert_eq!(exe, format!("\"{}\"", exe_path));
}

#[test]
fn unregister_local_server_preserves_unowned_clsid() {
    let mut sys = System::default();
    let clsid = "{WEZTERM-TEST-unowned}";
    sys.set_text(&clsid_registry_path(clsid), "", "External Terminal Handoff");
    sys.set_text(&server_key(clsid), "", "\"C:\\external-terminal.exe\"");

    let removed = sys.drive(unregister_local_server_for_clsid(clsid), |m, r| m.resume(r));
    assert!(!removed);

    let value = sys.text(&server_key(clsid), "").unwrap();
    assert_eq!(value, "\"C:\\external-terminal.exe\"");
}

#[test]
fn unregister_local_server_removes_wezterm_owned_clsid() {
    let mut sys = System::default();
    let clsid = "{WEZTERM-TEST-owned}";
    sys.set(&clsid_registry_path(clsid), OWNED, Value::Number(1));
    sys.set_text(&server_key(clsid), "", "\"C:\\wezterm-gui.exe\"");

    let removed = sys.drive(unregister_local_server_for_clsid(clsid), |m, r| m.resume(r));
    assert!(removed);
    assert!(!sys.user.contains_key(&clsid_registry_path(clsid)));
    assert!(!sys.user.contains_key(&server_key(clsid)));
}

#[test]
fn unregistering_undoes_registering() {
    let mut sys = System::default();
    create(&mut sys.user, "Software\\Classes\\CLSID");
    let before = sys.user.clone();
    let r = sys.drive(register_local_server_for_clsid("{X}", "C:\\a b.exe"), |m, r| m.resume(r));
    assert!(r.is_ok());
    assert!(sys.drive(unregister_local_server_for_clsid("{X}"), |m, r| m.resume(r)));
    assert_eq!(sys.user, before);
}

#[test]
fn an_unreadable_entry_is_not_removed() {
    let mut sys = System::default();
    sys.set(&clsid_registry_path("{X}"), OWNED, Value::Number(1));
    let before = sys.user.clone();
    sys.denied.push("open Software\\Classes\\CLSID\\{X}".to_string());
    assert!(!sys.drive(unregister_local_server_for_clsid("{X}"), |m, r| m.resume(r)));
    assert_eq!(sys.user, before);
    sys.denied.clear();
    sys.set(&clsid_registry_path("{X}"), OWNED, Value::Text("1".to_string()));
    assert!(!sys.drive(unregister_local_server_for_clsid("{X}"), |m, r| m.resume(r)));
}

#[test]
fn registering_a_server_reports_what_failed() {
    let class = clsid_registry_path("{X}");
    let server = server_key("{X}");
    let cases = [
        (
            format!("create {}", class),
            "creating HKCU\\Software\\Classes\\CLSID\\{X}: access denied",
        ),
        (format!("create {}", server), "creating LocalServer32: access denied"),
        (format!("set {}", server), "writing LocalServer32 value: access denied"),
        (format!("set {} {}", class, OWNED), "writing WezTermOwned marker: access denied"),
    ];
    for (deny, message) in cases {
        let mut sys = System::default();
        sys.denied.push(deny);
        let r = sys.drive(register_local_server_for_clsid("{X}", "x"), |m, r| m.resume(r));
        assert_eq!(r.map_err(|e: Error<String>| e.message()), Err(message.to_string()));
    }
    let mut sys = System::default();
    sys.denied.push(format!("set {}", class));
    let r = sys.drive(register_local_server_for_clsid("{X}", "x"), |m, r| m.resume(r));
    assert_eq!(
        r.map_err(|e: Error<String>| e.message()),
        Err("writing default value: access denied".to_string())
    );
}

#[test]
fn the_running_executable_has_to_be_known() {
    let mut sys = System::default();
    let r = sys.drive(register_local_server_for_unpackaged(), |m, r| m.resume(r));
    assert_eq!(
        r.map_err(|e| e.message()),
        Err("determining wezterm-gui.exe path: access denied".to_string())
    );
    assert!(sys.user.is_empty());
}

fn proxy_entries(sys: &mut System, owned: &[&str]) -> Vec<String> {
    let keys: Vec<String> = vec![
        "Software\\Classes\\Interface\\{IID-A}".to_string(),
        "Software\\Classes\\Interface\\{IID-A}\\ProxyStubClsid32".to_string(),
        "Software\\Classes\\Interface\\{IID-B}".to_string(),
        "Software\\Classes\\Interface\\{IID-B}\\ProxyStubClsid32".to_string(),
        "Software\\Classes\\CLSID\\{PROXY}".to_string(),
        "Software\\Classes\\CLSID\\{PROXY}\\InProcServer32".to_string(),
    ];
    for key in &keys {
        sys.set_text(key, "", "x");
        if owned.contains(&key.as_str()) {
            sys.set(key, OWNED, Value::Number(1));
        }
    }
    keys
}

fn sweep_proxies(owned: &[&str]) -> Vec<String> {
    let mut sys = System::default();
    let keys = proxy_entries(&mut sys, owned);
    let iids = vec!["{IID-A}".to_string(), "{IID-B}".to_string()];
    sys.drive(unregister_proxy_stub_per_user(&iids, "{PROXY}"), |m, r| m.resume(r));
    keys.into_iter().filter(|k| !sys.user.contains_key(k)).collect()
}

#[test]
fn unmarked_proxy_entries_stay() {
    assert!(sweep_proxies(&[]).is_empty());
}

#[test]
fn marked_proxy_entries_go() {
    let a = "Software\\Classes\\Interface\\{IID-A}";
    let a_stub = "Software\\Classes\\Interface\\{IID-A}\\ProxyStubClsid32";
    let b_stub = "Software\\Classes\\Interface\\{IID-B}\\ProxyStubClsid32";
    let class = "Software\\Classes\\CLSID\\{PROXY}";
    let inproc = "Software\\Classes\\CLSID\\{PROXY}\\InProcServer32";
    assert_eq!(sweep_proxies(&[a, a_stub]), vec![a.to_string(), a_stub.to_string()]);
    assert_eq!(sweep_proxies(&[b_stub]), vec![b_stub.to_string()]);
    // An interface with something below it cannot be deleted.
    assert!(sweep_proxies(&[a]).is_empty());
    // The class takes its server along, but not the other way round.
    assert_eq!(sweep_proxies(&[class]), vec![class.to_string(), inproc.to_string()]);
    assert_eq!(sweep_proxies(&[inproc]), vec![inproc.to_string()]);
}

// ---------------------------------------------------------------------------
// Detection
// ---------------------------------------------------------------------------

#[test]
fn the_four_channels_are_known() {
    let ids: Vec<&str> = known_hosts().iter().map(|h| h.id).collect();
    assert_eq!(ids, vec!["wt-release", "wt-preview", "wt-canary", "wt-dev"]);
    assert_eq!(
        wt_brand_openconsole_clsids(),
        vec![
            "{2EACA947-7F5F-4CFA-BA87-8F7FBEEFBE69}".to_string(),
            "{06EC847C-C0A5-46B8-92CB-7C92F6E35CD5}".to_string(),
            "{A854D02A-F2FE-44A5-BB24-D03F4CF830D4}".to_string(),
            "{1F9F2BF5-5BC3-4F17-B0E6-912413F1F451}".to_string(),
        ]
    );
}

#[test]
fn a_server_is_read_without_quotes_and_arguments() {
    let mut sys = System::default();
    sys.set_text(&server_key("{X}"), "", "\"C:\\a b.exe\" -Embedding");
    let found = sys.drive(read_local_server_exe(Root::CurrentUser, "{X}"), |m, r| m.resume(r));
    assert_eq!(found, some("C:\\a b.exe"));
    let found = sys.drive(read_local_server_exe(Root::LocalMachine, "{X}"), |m, r| m.resume(r));
    assert_eq!(found, None);
    sys.set_text(&server_key("{X}"), "", "  ");
    let found = sys.drive(read_local_server_exe(Root::CurrentUser, "{X}"), |m, r| m.resume(r));
    assert_eq!(found, None);
}

#[test]
fn the_user_s_server_comes_first_if_it_exists() {
    let mut sys = System::default();
    let mut find = |sys: &mut System| sys.drive(find_clsid_server_path("{X}"), |m, r| m.resume(r));
    assert_eq!(find(&mut sys), None);
    sys.set_text(&server_key("{X}"), "", "C:\\user.exe");
    machine_server(&mut sys, "{X}", "C:\\machine.exe");
    assert_eq!(find(&mut sys), None);
    sys.files.insert("C:\\machine.exe".to_string());
    assert_eq!(find(&mut sys), some("C:\\machine.exe"));
    sys.files.insert("C:\\user.exe".to_string());
    assert_eq!(find(&mut sys), some("C:\\user.exe"));
    assert!(sys.drive(clsid_server_exists("{X}"), |m, r| m.resume(r)));
    assert!(!sys.drive(clsid_server_exists("{Y}"), |m, r| m.resume(r)));
}

#[test]
fn any_channel_means_windows_terminal() {
    for clsid in wt_brand_openconsole_clsids() {
        let mut sys = System::default();
        assert!(!sys.drive(is_wt_installed(), |m, r| m.resume(r)));
        machine_server(&mut sys, &clsid, "C:\\OpenConsole.exe");
        assert!(!sys.drive(is_wt_installed(), |m, r| m.resume(r)));
        sys.files.insert("C:\\OpenConsole.exe".to_string());
        assert!(sys.drive(is_wt_installed(), |m, r| m.resume(r)));
    }
}

#[test]
fn own_fallback_is_no_windows_terminal() {
    let installed = |sys: &mut System| sys.drive(is_wt_installed(), |m, r| m.resume(r));
    let clsid = WEZTERM_TERMHOST_FALLBACK_CONSOLE_CLSID;
    let mut sys = with_bundle();
    assert_eq!(sys.register_fallback(), Ok(()));
    assert!(sys.drive(clsid_server_exists(clsid), |m, r| m.resume(r)));
    assert!(!sys.drive(other_host_serves(clsid), |m, r| m.resume(r)));
    assert!(!installed(&mut sys));

    // The machine's registration of the same class still counts.
    machine_server(&mut sys, clsid, "C:\\wt.exe");
    assert!(!installed(&mut sys));
    sys.files.insert("C:\\wt.exe".to_string());
    assert!(sys.drive(other_host_serves(clsid), |m, r| m.resume(r)));
    assert!(installed(&mut sys));

    // So does the user's without the marker.
    let mut sys = with_bundle();
    sys.set_text(&console_server(), "", BUNDLED);
    assert!(installed(&mut sys));
}

// ---------------------------------------------------------------------------
// The fallback
// ---------------------------------------------------------------------------

fn built(level: u32, profile: Profile, path: &str) -> (BundleFile, String) {
    (BundleFile::Built { level, profile }, path.to_string())
}

fn bundled(sys: &mut System) -> Option<String> {
    sys.drive(resolve_bundled_openconsole_path(), |m, r| m.resume(r))
}

#[test]
fn the_nearest_bundled_file_is_found() {
    let mut sys = System::default();
    sys.bundled.push((BundleFile::Beside, "beside".to_string()));
    assert_eq!(bundled(&mut sys), None);
    sys.ancestors = Some(3);
    assert_eq!(bundled(&mut sys), some("beside"));

    sys.bundled = vec![
        built(2, Profile::Release, "release 2"),
        built(3, Profile::Debug, "debug 3"),
        built(3, Profile::Release, "release 3"),
        built(4, Profile::Debug, "debug 4"),
    ];
    assert_eq!(bundled(&mut sys), None);
    sys.target_dirs = BTreeSet::from([4]);
    assert_eq!(bundled(&mut sys), None);
    sys.target_dirs.insert(3);
    assert_eq!(bundled(&mut sys), some("debug 3"));
    sys.target_dirs.insert(2);
    assert_eq!(bundled(&mut sys), some("release 2"));
    sys.target_dirs.insert(1);
    assert_eq!(bundled(&mut sys), some("release 2"));
}

const BUNDLED: &str = "C:\\WezTerm\\OpenConsole.exe";

fn with_bundle() -> System {
    let mut sys = System { ancestors: Some(2), ..System::default() };
    sys.bundled.push((BundleFile::Beside, BUNDLED.to_string()));
    sys.files.insert(BUNDLED.to_string());
    sys
}

fn console_key() -> String {
    clsid_registry_path(WEZTERM_TERMHOST_FALLBACK_CONSOLE_CLSID)
}

fn console_server() -> String {
    server_key(WEZTERM_TERMHOST_FALLBACK_CONSOLE_CLSID)
}

#[test]
fn fallback_is_registered_where_nothing_is() {
    let mut sys = with_bundle();
    assert_eq!(sys.register_fallback(), Ok(()));
    assert_eq!(
        sys.text(&console_key(), ""),
        some("WezTerm-bundled OpenConsole (Microsoft MIT-licensed)")
    );
    assert_eq!(sys.number(&console_key(), OWNED), Some(1));
    assert_eq!(sys.text(&console_server(), ""), some("\"C:\\WezTerm\\OpenConsole.exe\""));

    let once = sys.user.clone();
    assert_eq!(sys.register_fallback(), Ok(()));
    assert_eq!(sys.user, once);
}

#[test]
fn fallback_needs_a_bundled_file() {
    let mut sys = System::default();
    assert_eq!(sys.register_fallback(), Ok(()));
    assert!(sys.user.is_empty());
}

#[test]
fn foreign_server_on_disk_is_left_alone() {
    let mut sys = with_bundle();
    sys.set_text(&console_server(), "", "C:\\wt.exe");
    sys.files.insert("C:\\wt.exe".to_string());
    let before = sys.user.clone();
    assert_eq!(sys.register_fallback(), Ok(()));
    assert_eq!(sys.user, before);

    let mut sys = with_bundle();
    machine_server(&mut sys, WEZTERM_TERMHOST_FALLBACK_CONSOLE_CLSID, "C:\\wt.exe");
    sys.files.insert("C:\\wt.exe".to_string());
    assert_eq!(sys.register_fallback(), Ok(()));
    assert!(sys.user.is_empty());
}

#[test]
fn stale_registration_is_refreshed() {
    let mut sys = with_bundle();
    sys.set_text(&console_server(), "", "\"C:\\old\\OpenConsole.exe\"");
    sys.set(&console_key(), OWNED, Value::Number(1));
    sys.files.insert("C:\\old\\OpenConsole.exe".to_string());
    assert_eq!(sys.register_fallback(), Ok(()));
    assert_eq!(sys.text(&console_server(), ""), some("\"C:\\WezTerm\\OpenConsole.exe\""));
}

#[test]
fn own_server_that_is_gone_is_replaced() {
    let mut sys = with_bundle();
    sys.set_text(&console_server(), "", "C:\\gone.exe");
    sys.set(&console_key(), OWNED, Value::Number(1));
    assert_eq!(sys.register_fallback(), Ok(()));
    assert_eq!(sys.text(&console_server(), ""), some("\"C:\\WezTerm\\OpenConsole.exe\""));
    assert_eq!(sys.number(&console_key(), OWNED), Some(1));
}

#[test]
fn foreign_server_that_is_gone_is_left_alone() {
    for marker in [None, Some(Value::Number(0)), Some(Value::Text("1".to_string()))] {
        let mut sys = with_bundle();
        sys.set_text(&console_server(), "", "C:\\gone.exe");
        if let Some(value) = marker {
            sys.set(&console_key(), OWNED, value);
        }
        let before = sys.user.clone();
        assert_eq!(sys.register_fallback(), Ok(()));
        assert_eq!(sys.user, before);
    }
}

#[test]
fn any_number_but_zero_marks_the_fallback() {
    // On disk and stale, and gone.
    for on_disk in [false, true] {
        let mut sys = with_bundle();
        sys.set_text(&console_server(), "", "C:\\old.exe");
        sys.set(&console_key(), OWNED, Value::Number(2));
        if on_disk {
            sys.files.insert("C:\\old.exe".to_string());
        }
        assert_eq!(sys.register_fallback(), Ok(()));
        assert_eq!(sys.text(&console_server(), ""), some("\"C:\\WezTerm\\OpenConsole.exe\""));
        assert_eq!(sys.number(&console_key(), OWNED), Some(1));
    }
}

#[test]
fn class_without_a_server_is_completed() {
    // The class alone, with an empty server key, and with a server that names
    // nothing.
    for (server, value) in [(false, None), (true, None), (true, Some("  "))] {
        let mut sys = with_bundle();
        sys.set_text(&console_key(), "", "half a registration");
        if server {
            create(&mut sys.user, &console_server());
        }
        if let Some(text) = value {
            sys.set_text(&console_server(), "", text);
        }
        assert_eq!(sys.register_fallback(), Ok(()));
        assert_eq!(sys.text(&console_server(), ""), some("\"C:\\WezTerm\\OpenConsole.exe\""));
        assert_eq!(sys.number(&console_key(), OWNED), Some(1));
    }
}

#[test]
fn interrupted_registration_is_repaired() {
    let mut sys = with_bundle();
    sys.denied.push(format!("set {}", console_key()));
    assert!(sys.register_fallback().is_err());
    assert!(sys.user.contains_key(&console_key()));
    sys.denied.clear();
    assert_eq!(sys.register_fallback(), Ok(()));
    assert_eq!(sys.number(&console_key(), OWNED), Some(1));
    assert_eq!(sys.text(&console_server(), ""), some("\"C:\\WezTerm\\OpenConsole.exe\""));
}

#[test]
fn class_that_cannot_be_read_is_written() {
    let mut sys = with_bundle();
    sys.denied.push(format!("open {}", console_key()));
    let mut refused = sys.clone();
    assert_eq!(sys.register_fallback(), Ok(()));
    assert_eq!(sys.text(&console_server(), ""), some("\"C:\\WezTerm\\OpenConsole.exe\""));

    refused.denied.push(format!("create {}", console_key()));
    assert_eq!(
        refused.register_fallback(),
        Err(format!("creating HKCU\\{}: access denied", console_key()))
    );
}

#[test]
fn foreign_server_is_told_by_marker_and_value() {
    let foreign =
        |sys: &mut System| sys.drive(foreign_server_is_registered("{X}"), |m, r| m.resume(r));
    let key = clsid_registry_path("{X}");
    let mut sys = System::default();
    assert!(!foreign(&mut sys));
    create(&mut sys.user, &key);
    assert!(!foreign(&mut sys));
    sys.set_text(&server_key("{X}"), "", "\"C:\\a b.exe\"");
    assert!(foreign(&mut sys));
    sys.set(&key, OWNED, Value::Number(0));
    assert!(foreign(&mut sys));
    sys.set(&key, OWNED, Value::Number(1));
    assert!(!foreign(&mut sys));
    sys.set(&key, OWNED, Value::Number(2));
    assert!(!foreign(&mut sys));
    sys.set(&key, OWNED, Value::Number(0));
    sys.denied.push(format!("open {}", key));
    assert!(!foreign(&mut sys));
}

#[test]
fn own_registration_is_read_by_its_marker() {
    let mut sys = System::default();
    let read = |sys: &mut System| sys.drive(read_wezterm_owned_path("{X}"), |m, r| m.resume(r));
    assert_eq!(read(&mut sys), None);
    sys.set_text(&server_key("{X}"), "", "\"C:\\a b.exe\" -x");
    assert_eq!(read(&mut sys), None);
    sys.set(&clsid_registry_path("{X}"), OWNED, Value::Number(0));
    assert_eq!(read(&mut sys), None);
    sys.set(&clsid_registry_path("{X}"), OWNED, Value::Number(2));
    assert_eq!(read(&mut sys), some("C:\\a b.exe"));
    sys.set(&clsid_registry_path("{X}"), OWNED, Value::Number(1));
    assert_eq!(read(&mut sys), some("C:\\a b.exe"));
    sys.user.remove(&server_key("{X}"));
    assert_eq!(read(&mut sys), None);
}

/// Whether the registration of a file counts as that of another.
fn counts_as(registered: &str, bundled: &str) -> bool {
    let mut sys = System { ancestors: Some(2), ..System::default() };
    sys.bundled.push((BundleFile::Beside, bundled.to_string()));
    sys.set_text(&console_server(), "", &format!("\"{}\"", registered));
    sys.set(&console_key(), OWNED, Value::Number(1));
    sys.files.insert(registered.to_string());
    let before = sys.user.clone();
    assert_eq!(sys.register_fallback(), Ok(()));
    if sys.user != before {
        assert_eq!(sys.text(&console_server(), ""), Some(format!("\"{}\"", bundled)));
    }
    sys.user == before
}

#[test]
fn paths_are_compared_by_components() {
    assert!(counts_as("C:\\a\\b.exe", "C:\\a\\b.exe"));
    assert!(counts_as("a/b", "a//b"));
    assert!(counts_as("a/./b", "a/b"));
    assert!(!counts_as("a/b", "a/c"));
    assert!(!counts_as("a/b", "a"));
    assert!(!counts_as("a/b", "ab"));
}

#[test]
fn only_a_registration_that_leads_elsewhere_is_refreshed() {
    let mut sys = System::default();
    let r = sys.drive(refresh_fallback("C:\\b.exe".to_string(), true), |m, r| m.resume(r));
    assert!(r.is_ok());
    assert!(sys.user.is_empty());
    let r = sys.drive(refresh_fallback("C:\\b.exe".to_string(), false), |m, r| m.resume(r));
    assert!(r.is_ok());
    assert_eq!(sys.text(&console_server(), ""), some("\"C:\\b.exe\""));
    assert_eq!(sys.number(&console_key(), OWNED), Some(1));
}

#[test]
fn registering_the_fallback_reports_what_failed() {
    let cases = [
        (
            format!("create {}", console_key()),
            format!("creating HKCU\\{}: access denied", console_key()),
        ),
        (format!("set {} W", console_key()), "writing WezTermOwned marker: access denied".into()),
        (format!("create {}", console_server()), "creating LocalServer32: access denied".into()),
        (format!("set {}", console_server()), "writing LocalServer32 value: access denied".into()),
    ];
    for (deny, message) in cases {
        let mut sys = with_bundle();
        sys.denied.push(deny);
        assert_eq!(sys.register_fallback(), Err(message));
    }
    let mut sys = with_bundle();
    sys.denied.push(format!("set {}", console_key()));
    assert_eq!(
        sys.register_fallback(),
        Err("writing CLSID default value: access denied".to_string())
    );
}

// ---------------------------------------------------------------------------
// The commands
// ---------------------------------------------------------------------------

fn ready() -> System {
    let mut sys = with_bundle();
    create(&mut sys.user, "Software\\Classes\\CLSID");
    sys.exe = some("C:\\WezTerm\\wezterm-gui.exe");
    sys.proxy_stub = some("C:\\WezTerm\\OpenConsoleProxy.dll");
    sys
}

const ENABLED: &str = "WezTerm is now the Windows default terminal.\n\
     \n\
     Terminal CLSID : {8B7D4E2A-3F5C-4D1B-9A6E-7C2B5F8D1E4A}\n\
     Console CLSID  : {2EACA947-7F5F-4CFA-BA87-8F7FBEEFBE69} (Microsoft OpenConsole.exe; bundled copy registered as fallback)\n\
     Registry key   : HKCU\\Console\\%%Startup\\DelegationConsole, DelegationTerminal";

const SERVER_REGISTERED: &str = "\nRegistered HKCU\\Software\\Classes\\CLSID\\{8B7D4E2A-3F5C-4D1B-9A6E-7C2B5F8D1E4A}\\LocalServer32 -> wezterm-gui.exe.";

#[test]
fn enable_makes_this_terminal_the_default() {
    let mut sys = ready();
    sys.select("{A}", "{B}");
    assert_eq!(sys.enable(), Ok(()));
    assert_eq!(
        sys.selection(),
        (
            some(WEZTERM_TERMHOST_FALLBACK_CONSOLE_CLSID),
            some(WEZTERM_TERMHOST_TERMINAL_CLSID)
        )
    );
    assert_eq!(sys.backup(), (some("{A}"), some("{B}")));
    assert_eq!(
        sys.text(&server_key(WEZTERM_TERMHOST_TERMINAL_CLSID), ""),
        some("\"C:\\WezTerm\\wezterm-gui.exe\"")
    );
    assert_eq!(sys.text(&console_server(), ""), some("\"C:\\WezTerm\\OpenConsole.exe\""));
    assert_eq!(sys.proxy_registered, some("C:\\WezTerm\\OpenConsoleProxy.dll"));
    assert_eq!(
        sys.said,
        vec![(false, ENABLED.to_string()), (false, SERVER_REGISTERED.to_string())]
    );
}

#[test]
fn enable_goes_on_without_console_host_and_library() {
    let mut sys = System { exe: some("C:\\w.exe"), ..System::default() };
    assert_eq!(sys.enable(), Ok(()));
    assert_eq!(sys.said.len(), 4);
    assert_eq!(
        sys.said[0],
        (
            true,
            "warning: bundled OpenConsole.exe not found. \
             Console launches will crash with 0xc0000142 until \
             OpenConsole.exe is available next to wezterm-gui.exe."
                .to_string()
        )
    );
    assert_eq!(
        sys.said[1],
        (
            true,
            "note: proxy/stub DLL not found next to wezterm-gui.exe; \
             skipping per-user registration. The DLL is bundled in \
             assets/windows/conhost/ and copied by the build."
                .to_string()
        )
    );
    assert_eq!(sys.said[2], (false, ENABLED.to_string()));
}

#[test]
fn enable_relies_on_windows_terminal_where_it_is() {
    let mut sys = ready();
    sys.proxy_stub = None;
    machine_server(&mut sys, "{06EC847C-C0A5-46B8-92CB-7C92F6E35CD5}", "C:\\wt.exe");
    sys.files.insert("C:\\wt.exe".to_string());
    let machine = sys.machine.clone();
    assert_eq!(sys.enable(), Ok(()));
    assert_eq!(sys.machine, machine);
    assert_eq!(
        sys.said[0],
        (
            true,
            "note: proxy/stub DLL not found; relying on Windows Terminal's \
             MSIX-packaged proxy stub. If defterm does not work, install \
             OpenConsoleProxy.dll next to wezterm-gui.exe."
                .to_string()
        )
    );
}

#[test]
fn enable_does_not_rely_on_its_own_console_host() {
    let mut sys = ready();
    sys.proxy_stub = None;
    assert_eq!(sys.enable(), Ok(()));
    assert_eq!(sys.number(&console_key(), OWNED), Some(1));
    assert_eq!(
        sys.said[0],
        (
            true,
            "note: proxy/stub DLL not found next to wezterm-gui.exe; \
             skipping per-user registration. The DLL is bundled in \
             assets/windows/conhost/ and copied by the build."
                .to_string()
        )
    );
}

#[test]
fn foreign_console_host_survives_enable_and_disable() {
    for on_disk in [false, true] {
        let mut sys = ready();
        sys.select("{A}", "{B}");
        sys.set_text(&console_server(), "", "C:\\other.exe");
        if on_disk {
            sys.files.insert("C:\\other.exe".to_string());
        }
        let before = sys.user.clone();
        assert_eq!(sys.enable(), Ok(()));
        assert_eq!(sys.text(&console_server(), ""), some("C:\\other.exe"));
        assert_eq!(sys.disable(), Ok(()));
        assert_eq!(sys.user, before);
    }
}

#[test]
fn enable_tells_what_it_had_to_skip() {
    let mut sys = ready();
    sys.denied.push(format!("create {}", console_key()));
    sys.denied.push("register proxy".to_string());
    assert_eq!(sys.enable(), Ok(()));
    assert_eq!(
        sys.said[0].1,
        format!(
            "warning: OpenConsole fallback registration skipped: \
             creating HKCU\\{}: access denied",
            console_key()
        )
    );
    assert_eq!(sys.said[1].1, "warning: proxy/stub registration skipped: access denied");
    assert_eq!(sys.said[2].1, ENABLED);
}

#[test]
fn enable_fails_without_backup_server_or_selection() {
    let cases = [
        ("set Console\\%%Startup WezTerm_Last_C", "writing backup console: access denied"),
        (
            "create Software\\Classes\\CLSID\\{8B7D4E2A",
            "creating HKCU\\Software\\Classes\\CLSID\\{8B7D4E2A-3F5C-4D1B-9A6E-7C2B5F8D1E4A}: \
             access denied",
        ),
        ("set Console\\%%Startup DelegationT", "writing DelegationTerminal: access denied"),
    ];
    for (deny, message) in cases {
        let mut sys = ready();
        sys.select("{A}", "{B}");
        sys.denied.push(deny.to_string());
        assert_eq!(sys.enable(), Err(message.to_string()));
        assert_eq!(sys.said, vec![]);
        assert_eq!(sys.text(STARTUP_KEY, DELEGATION_TERMINAL), some("{B}"));
    }
}

#[test]
fn disable_undoes_enable() {
    for selected in [false, true] {
        let mut sys = ready();
        sys.proxy_stub = None;
        create(&mut sys.user, STARTUP_KEY);
        if selected {
            sys.select("{A}", "{B}");
        }
        let mut expected = sys.clone();
        if !selected {
            expected.select(NULL_GUID, NULL_GUID);
        }
        assert_eq!(sys.enable(), Ok(()));
        sys.said.clear();
        assert_eq!(sys.disable(), Ok(()));
        assert_eq!(sys.user, expected.user);
        let said: Vec<String> = sys.said.iter().map(|(_, s)| s.clone()).collect();
        assert_eq!(
            said,
            vec![
                "Restored previous default terminal selection.",
                "Removed WezTerm-owned HKCU\\Software\\Classes\\CLSID\\{8B7D4E2A-3F5C-4D1B-9A6E-7C2B5F8D1E4A} entry.",
                "Removed WezTerm-owned OpenConsole fallback (HKCU\\Software\\Classes\\CLSID\\{2EACA947-7F5F-4CFA-BA87-8F7FBEEFBE69}).",
                "WezTerm is no longer registered as the Windows default terminal.",
            ]
        );
        assert!(sys.said.iter().all(|(warning, _)| !warning));
    }
}

#[test]
fn enabling_twice_changes_nothing() {
    let mut sys = ready();
    sys.select("{A}", "{B}");
    assert_eq!(sys.enable(), Ok(()));
    let once = sys.user.clone();
    assert_eq!(sys.enable(), Ok(()));
    assert_eq!(sys.user, once);
    assert_eq!(sys.backup(), (some("{A}"), some("{B}")));
}

#[test]
fn unreadable_selection_is_not_taken_over() {
    let mut sys = ready();
    sys.select("{A}", "{B}");
    sys.keep("{C}", "{D}");
    sys.set(STARTUP_KEY, DELEGATION_TERMINAL, Value::Number(1));
    let before = sys.user.clone();
    let message = "reading termhost terminal key: access denied".to_string();
    assert_eq!(sys.enable(), Err(message.clone()));
    assert_eq!(sys.user, before);
    assert_eq!(sys.restore(), Err(message));
    assert_eq!(sys.user, before);
}

#[test]
fn unreadable_selection_does_not_stop_the_cleanup() {
    let mut sys = ready();
    sys.select("{A}", "{B}");
    assert_eq!(sys.enable(), Ok(()));
    sys.set(STARTUP_KEY, DELEGATION_TERMINAL, Value::Number(1));
    let startup = sys.user[STARTUP_KEY].clone();
    sys.said.clear();
    let message = "reading termhost terminal key: access denied";
    assert_eq!(sys.disable(), Err(message.to_string()));
    assert_eq!(sys.user[STARTUP_KEY], startup);
    assert!(!sys.user.contains_key(&clsid_registry_path(WEZTERM_TERMHOST_TERMINAL_CLSID)));
    assert!(!sys.user.contains_key(&console_key()));
    assert_eq!(
        sys.said[0],
        (
            true,
            format!(
                "warning: delegation restore failed: {message}; continuing with cleanup"
            )
        )
    );

    // An unreadable console is reported by another name.
    sys.set(STARTUP_KEY, DELEGATION_CONSOLE, Value::Number(1));
    assert_eq!(sys.disable(), Err("reading termhost keys: access denied".to_string()));
}

#[test]
fn first_backup_survives_any_number_of_takeovers() {
    let mut sys = System::default();
    sys.select("{A}", "{B}");
    for _ in 0..5 {
        assert_eq!(sys.capture(), Ok(()));
        assert!(sys.drive(register_termhost(), |m, r| m.resume(r)).is_ok());
        assert_eq!(sys.backup(), (some("{A}"), some("{B}")));
    }
    assert_eq!(sys.restore(), Ok(true));
    assert_eq!(sys.selection(), (some("{A}"), some("{B}")));
    assert_eq!(sys.backup(), (None, None));
}

#[test]
fn selection_comes_back_whatever_else_is_registered() {
    let mut sys = ready();
    sys.select("{A}", "{B}");
    sys.keep("{C}", "{D}");
    let class = clsid_registry_path(WEZTERM_TERMHOST_TERMINAL_CLSID);
    sys.set(&class, OWNED, Value::Number(1));
    create(&mut sys.user, &format!("{}\\InProcServer32", class));
    sys.set_text(&console_key(), "", "half a registration");
    assert_eq!(sys.enable(), Ok(()));
    assert_eq!(sys.disable(), Ok(()));
    assert_eq!(sys.selection(), (some("{A}"), some("{B}")));
    assert_eq!(sys.backup(), (None, None));
    assert!(!sys.user.contains_key(&console_key()));
    // The class stays where something else lies below it.
    assert!(sys.user.contains_key(&class));
    assert!(!sys.user.contains_key(&server_key(WEZTERM_TERMHOST_TERMINAL_CLSID)));
}

#[test]
fn marked_interface_stays_above_an_unmarked_stub() {
    let mut sys = System::default();
    for (iid, marked) in [("{IID-A}", false), ("{IID-B}", true)] {
        let interface = format!("Software\\Classes\\Interface\\{}", iid);
        let stub = format!("{}\\ProxyStubClsid32", interface);
        create(&mut sys.user, &stub);
        sys.set(&interface, OWNED, Value::Number(1));
        if marked {
            sys.set(&stub, OWNED, Value::Number(1));
        }
    }
    let ids = ids();
    sys.drive(unregister_proxy_stub_per_user(&ids.iids, &ids.clsid), |m, r| m.resume(r));
    let left = |iid: &str| sys.user.keys().filter(|k| k.contains(iid)).count();
    assert_eq!(left("{IID-A}"), 2);
    assert_eq!(left("{IID-B}"), 0);
}

#[test]
fn switched_selection_survives_disable() {
    let mut sys = ready();
    sys.select("{A}", "{B}");
    assert_eq!(sys.enable(), Ok(()));
    sys.select("{C}", "{D}");
    sys.said.clear();
    assert_eq!(sys.disable(), Ok(()));
    assert_eq!(sys.selection(), (some("{C}"), some("{D}")));
    assert_eq!(sys.backup(), (None, None));
    assert!(!sys.user.contains_key(&clsid_registry_path(WEZTERM_TERMHOST_TERMINAL_CLSID)));
    assert_eq!(
        sys.said[0].1,
        "Current default is not WezTerm; leaving DelegationConsole/DelegationTerminal unchanged."
    );
}

#[test]
fn disable_removes_marked_proxy_entries_only() {
    let mut sys = ready();
    let stub = "Software\\Classes\\Interface\\{IID-B}\\ProxyStubClsid32";
    let keys = proxy_entries(&mut sys, &[stub]);
    assert_eq!(sys.disable(), Ok(()));
    for key in keys {
        assert_eq!(sys.user.contains_key(&key), key != stub);
    }
    let last = sys.said.last().expect("outcome").1.clone();
    assert_eq!(last, "WezTerm was not registered as the default terminal; nothing to do.");
}

#[test]
fn a_failed_restore_does_not_stop_the_cleanup() {
    let mut sys = ready();
    sys.select("{A}", "{B}");
    assert_eq!(sys.enable(), Ok(()));
    sys.said.clear();
    sys.denied.push("set Console\\%%Startup DelegationC".to_string());
    assert_eq!(sys.disable(), Err("writing DelegationConsole: access denied".to_string()));
    assert!(!sys.user.contains_key(&clsid_registry_path(WEZTERM_TERMHOST_TERMINAL_CLSID)));
    assert!(!sys.user.contains_key(&console_key()));
    assert_eq!(sys.backup(), (some("{A}"), some("{B}")));
    assert_eq!(
        sys.said[0],
        (
            true,
            "warning: delegation restore failed: writing DelegationConsole: access denied; \
             continuing with cleanup"
                .to_string()
        )
    );
    let last = sys.said.last().expect("outcome").1.clone();
    assert_eq!(last, "WezTerm is no longer registered as the Windows default terminal.");
}

#[test]
fn commands_are_dispatched() {
    let mut sys = ready();
    sys.select("{A}", "{B}");
    let enable = TerminalHostCommand { sub: TerminalHostSub::Enable };
    let r = sys.drive(run(enable, ids()), |m, r| m.resume(r));
    assert!(r.is_ok());
    assert_eq!(sys.text(STARTUP_KEY, DELEGATION_TERMINAL), some(WEZTERM_TERMHOST_TERMINAL_CLSID));
    let disable = TerminalHostCommand { sub: TerminalHostSub::Disable };
    let r = sys.drive(run(disable, ids()), |m, r| m.resume(r));
    assert!(r.is_ok());
    assert_eq!(sys.selection(), (some("{A}"), some("{B}")));
}
