use termhost::host::{
    apply_pending_window_state, await_handoff, filter_embedding_flags, handoff_deadline, install,
    listener_started, pid_of, scm_launched, set_pending_startup_state, set_scm_launched,
    try_start_listener, AwaitHandoff, Install, InstallEvent, Listener, PendingWindowState,
    SHOW_WINDOW_NONE, SW_SHOWMAXIMIZED,
};
use termhost::once::OnceSlot;
use termhost::types::TerminalStartupInfoOwned;

fn os(s: &str) -> Vec<u16> {
    s.encode_utf16().collect()
}

#[test]
fn filter_embedding_flags_strips_dash_embedding() {
    let argv = vec![os("wezterm-gui"), os("-Embedding"), os("--config-file"), os("foo.lua")];
    let (filtered, scm_launched) = filter_embedding_flags(argv);
    assert_eq!(filtered.len(), 5);
    assert_eq!(filtered[0], os("wezterm-gui"));
    assert_eq!(filtered[1], os("start"));
    assert_eq!(filtered[2], os("--always-new-process"));
    assert_eq!(filtered[3], os("--config-file"));
    assert_eq!(filtered[4], os("foo.lua"));
    assert!(scm_launched);
}

#[test]
fn filter_embedding_flags_strips_slash_embedding() {
    let argv = vec![os("wezterm-gui"), os("/Embedding")];
    let (filtered, scm_launched) = filter_embedding_flags(argv);
    assert_eq!(filtered.len(), 3);
    assert_eq!(filtered[0], os("wezterm-gui"));
    assert_eq!(filtered[1], os("start"));
    assert_eq!(filtered[2], os("--always-new-process"));
    assert!(scm_launched);
}

#[test]
fn filter_embedding_flags_preserves_normal_args() {
    let argv = vec![os("wezterm-gui"), os("start"), os("--class"), os("my-class")];
    let (filtered, scm_launched) = filter_embedding_flags(argv);
    assert_eq!(filtered.len(), 4);
    assert!(!scm_launched);
}

#[test]
fn filter_embedding_flags_preserves_child_embedding_arg() {
    let argv = vec![
        os("wezterm-gui"),
        os("start"),
        os("--"),
        os("some-server.exe"),
        os("-Embedding"),
    ];
    let (filtered, scm_launched) = filter_embedding_flags(argv);
    assert_eq!(filtered.len(), 5);
    assert_eq!(filtered[0], os("wezterm-gui"));
    assert_eq!(filtered[1], os("start"));
    assert_eq!(filtered[2], os("--"));
    assert_eq!(filtered[3], os("some-server.exe"));
    assert_eq!(filtered[4], os("-Embedding"));
    assert!(!scm_launched);
}

#[test]
fn filter_embedding_flags_rejects_near_misses() {
    let argv = vec![
        os("wezterm-gui"),
        os("--embedding"),
        os("-embeddings"),
        os("-Embedding="),
        os("-embedding"),
        os("/embedding"),
    ];
    let (filtered, scm_launched) = filter_embedding_flags(argv);
    assert_eq!(filtered.len(), 6);
    assert!(!scm_launched);
}

#[test]
fn filter_embedding_flags_handles_empty_argv() {
    let argv: Vec<Vec<u16>> = Vec::new();
    let (filtered, scm_launched) = filter_embedding_flags(argv);
    assert!(filtered.is_empty());
    assert!(!scm_launched);
}

#[test]
fn filter_embedding_flags_only_strips_first_real_arg() {
    let argv = vec![
        os("wezterm-gui"),
        os("-Embedding"),
        os("/Embedding"),
        os("-Embedding"),
        os("subcommand"),
    ];
    let (filtered, scm_launched) = filter_embedding_flags(argv);
    assert_eq!(filtered.len(), 6);
    assert_eq!(filtered[0], os("wezterm-gui"));
    assert_eq!(filtered[1], os("start"));
    assert_eq!(filtered[2], os("--always-new-process"));
    assert_eq!(filtered[3], os("/Embedding"));
    assert_eq!(filtered[4], os("-Embedding"));
    assert_eq!(filtered[5], os("subcommand"));
    assert!(scm_launched);
}

#[test]
fn each_near_miss_as_first_argument_is_kept() {
    for miss in ["--embedding", "-embeddings", "-Embedding=", "-embedding", "/embedding", "", "-"] {
        let (filtered, launched) = filter_embedding_flags(vec![os("w"), os(miss), os("x")]);
        assert_eq!(filtered, vec![os("w"), os(miss), os("x")]);
        assert!(!launched);
    }
}

#[test]
fn the_program_name_alone_is_kept() {
    let (filtered, launched) = filter_embedding_flags(vec![os("-Embedding")]);
    assert_eq!(filtered, vec![os("-Embedding")]);
    assert!(!launched);
}

#[test]
fn pending_show_window_stages_maximized_without_flag() {
    let startup = TerminalStartupInfoOwned {
        show_window: SW_SHOWMAXIMIZED,
        ..TerminalStartupInfoOwned::<String>::default()
    };
    let mut pending: Option<PendingWindowState> = None;
    set_pending_startup_state(&mut pending, &startup);
    let state = pending.take().expect("state");
    assert_eq!(state.show_window, SW_SHOWMAXIMIZED);
}

#[test]
fn pending_show_window_cleared_when_not_maximized() {
    let startup = TerminalStartupInfoOwned {
        show_window: 0,
        dw_flags: 0,
        ..TerminalStartupInfoOwned::<String>::default()
    };
    let mut pending: Option<PendingWindowState> = None;
    set_pending_startup_state(&mut pending, &startup);
    let state = pending.take().expect("state");
    assert_eq!(state.show_window, SHOW_WINDOW_NONE);
}

#[test]
fn staged_state_is_applied_once() {
    let mut launched: OnceSlot<bool> = OnceSlot::new();
    let mut pending = Some(PendingWindowState { show_window: SW_SHOWMAXIMIZED });
    let first = apply_pending_window_state(&mut pending, &launched);
    assert!(first.maximize);
    assert!(!first.focus);
    set_scm_launched(&mut launched, true);
    let second = apply_pending_window_state(&mut pending, &launched);
    assert!(!second.maximize);
    assert!(second.focus);
}

#[test]
fn launch_is_recorded_once() {
    let mut slot: OnceSlot<bool> = OnceSlot::new();
    assert!(!scm_launched(&slot));
    set_scm_launched(&mut slot, true);
    set_scm_launched(&mut slot, false);
    assert!(scm_launched(&slot));
}

#[test]
fn listener_starts_once_unless_it_fails() {
    let mut started: OnceSlot<()> = OnceSlot::new();
    assert!(matches!(try_start_listener(&started), Listener::Start));
    let failed: Result<Option<u8>, &str> = listener_started(&mut started, Err("no COM"));
    assert_eq!(failed, Err("no COM"));
    assert!(matches!(try_start_listener(&started), Listener::Start));
    let ok: Result<Option<u8>, &str> = listener_started(&mut started, Ok(7));
    assert_eq!(ok, Ok(Some(7)));
    assert!(matches!(try_start_listener(&started), Listener::Running));
}

#[test]
fn installation_keeps_com_and_listener() {
    let at: Install<u8, u16> = Install::InitializeCom;
    let at = install(at, InstallEvent::ComInitialized(9));
    let at = install(at, InstallEvent::ListenerStarted(Some(4)));
    match at {
        Install::Finished(Some(state)) => {
            assert_eq!(state.handoff, Some(4));
            assert_eq!(state.coinit, 9);
        }
        _ => panic!("not installed"),
    }
}

#[test]
fn a_failed_step_ends_the_installation() {
    let at: Install<u8, u16> = install(Install::InitializeCom, InstallEvent::ComFailed);
    assert!(matches!(at, Install::Finished(None)));
    let at: Install<u8, u16> =
        install(Install::StartListener { coinit: 1 }, InstallEvent::ListenerFailed);
    assert!(matches!(at, Install::Finished(None)));
}

#[test]
fn the_wait_ends_with_a_tab_unless_a_handoff_came() {
    assert_eq!(await_handoff(), AwaitHandoff::Sleep { seconds: 5 });
    assert_eq!(handoff_deadline(false), AwaitHandoff::SpawnFallback);
    assert_eq!(handoff_deadline(true), AwaitHandoff::Finished);
}

#[test]
fn null_handles_and_zero_are_no_process() {
    assert_eq!(pid_of(0, 42), None);
    assert_eq!(pid_of(8, 0), None);
    assert_eq!(pid_of(8, 42), Some(42));
}

#[test]
fn first_offer_stays() {
    let mut slot: OnceSlot<u8> = OnceSlot::new();
    assert_eq!(slot.get(), None);
    assert_eq!(slot.set(1), Ok(()));
    assert_eq!(slot.set(2), Err(2));
    assert_eq!(slot.get(), Some(&1));
}
