use std::collections::BTreeSet;
use termhost::host::{Handle, PendingWindowState, SHOW_WINDOW_NONE, SW_SHOWMAXIMIZED};
use termhost::integration::attach::{
    attach_pane_to_new_window, needs_replacement, AttachCall, AttachTalk,
};
use termhost::integration::{
    handle_handoff, initial_size, session_title, signed_startup_coordinate, startup_position,
    GeometryOrigin, GuiPosition, HandedOff, HandoffHandles, STARTF_USEPOSITION,
};
use termhost::kernel::{Answer, Call, Talk, INFINITE, WAIT_FAILED, WAIT_OBJECT_0, WAIT_TIMEOUT};
use termhost::raw_pty::child::{ExitStatus, TermHostChild};
use termhost::raw_pty::master::{
    RawHandles, RawHandlesMasterPty, WriteOutcome, PTY_SIGNAL_RESIZE_WINDOW,
};
use termhost::raw_pty::{PtyError, PtySize};
use termhost::types::TerminalStartupInfoOwned;

/// A process with its handle table. Every handle refers to an object; duplicates
/// refer to the same one.
struct Kernel {
    open: Vec<(Handle, u32)>,
    next: Handle,
    calls: Vec<Call>,
    refuse_duplicates: bool,
    refuse_processes: bool,
    /// How many pipes can still be made.
    pipes: usize,
    /// Objects that are signalled, with their exit codes.
    exited: Vec<(u32, u32)>,
    terminated: Vec<u32>,
    published: Option<(Handle, Handle)>,
    received: bool,
}

impl Kernel {
    fn new(open: &[Handle]) -> Kernel {
        Kernel {
            open: open.iter().map(|h| (*h, *h as u32)).collect(),
            next: 0x1000,
            calls: Vec::new(),
            refuse_duplicates: false,
            refuse_processes: false,
            pipes: 2,
            exited: Vec::new(),
            terminated: Vec::new(),
            published: None,
            received: false,
        }
    }

    fn object(&self, h: Handle) -> u32 {
        match self.open.iter().find(|(o, _)| *o == h) {
            Some((_, object)) => *object,
            None => panic!("handle {:#x} is not open", h),
        }
    }

    fn make(&mut self, object: u32) -> Handle {
        let h = self.next;
        self.next += 4;
        self.open.push((h, object));
        h
    }

    fn handles(&self) -> BTreeSet<Handle> {
        self.open.iter().map(|(h, _)| *h).collect()
    }

    fn close(&mut self, h: Handle) {
        self.object(h);
        self.open.retain(|(o, _)| *o != h);
    }

    fn answer(&mut self, call: Call) -> Answer<String> {
        self.calls.push(call);
        match call {
            Call::Duplicate(h) => {
                let object = self.object(h);
                if self.refuse_duplicates {
                    Answer::Failed("no duplicates".to_string())
                } else {
                    Answer::Handle(self.make(object))
                }
            }
            Call::Close(h) => {
                self.close(h);
                Answer::Done
            }
            Call::OpenForTermination(pid) => {
                if self.refuse_processes {
                    Answer::Failed("no such process".to_string())
                } else {
                    Answer::Handle(self.make(pid))
                }
            }
            Call::Terminate(h, code) => {
                let object = self.object(h);
                if self.exited.iter().any(|(o, _)| *o == object) {
                    Answer::Failed("access denied".to_string())
                } else {
                    self.exited.push((object, code));
                    self.terminated.push(object);
                    Answer::Done
                }
            }
            Call::Wait(h, limit) => {
                let object = self.object(h);
                let done = self.exited.iter().any(|(o, _)| *o == object);
                let result = if done {
                    WAIT_OBJECT_0
                } else if limit == INFINITE {
                    WAIT_FAILED
                } else {
                    WAIT_TIMEOUT
                };
                Answer::Waited { result, last_error: "wait failed".to_string() }
            }
            Call::ExitCode(h) => {
                let object = self.object(h);
                match self.exited.iter().find(|(o, _)| *o == object) {
                    Some((_, code)) => Answer::Code(*code),
                    None => Answer::Failed("still running".to_string()),
                }
            }
            Call::ProcessId(h) => Answer::Code(self.object(h)),
            Call::CreatePipe { .. } => {
                if self.pipes == 0 {
                    Answer::Failed("no more pipes".to_string())
                } else {
                    self.pipes -= 1;
                    let read = self.make(0);
                    let write = self.make(0);
                    Answer::Pipe { read, write }
                }
            }
            Call::Publish { in_handle, out_handle } => {
                self.object(in_handle);
                self.object(out_handle);
                assert!(!self.received);
                self.published = Some((in_handle, out_handle));
                Answer::Done
            }
            Call::MarkReceived => {
                assert!(self.published.is_some());
                self.received = true;
                Answer::Done
            }
            Call::ConfiguredSize => Answer::Size { rows: 24, cols: 80 },
        }
    }

    fn drive<M, T>(
        &mut self,
        talk: Talk<M, T>,
        resume: impl Fn(M, Answer<String>) -> Talk<M, T>,
    ) -> T {
        let mut talk = talk;
        loop {
            match talk {
                Talk::Ask(call, m) => {
                    let answer = self.answer(call);
                    talk = resume(m, answer);
                }
                Talk::Done(t) => return t,
            }
        }
    }

    fn master(&mut self, raw: RawHandles, size: PtySize) -> RawHandlesMasterPty {
        self.drive(RawHandlesMasterPty::from_raw_handles(raw, size), |m, a| m.resume(a))
    }

    fn child(&mut self, session: Handle, pid: Option<u32>) -> TermHostChild {
        self.drive(TermHostChild::from_raw(session, pid), |m, a| m.resume(a))
    }
}

fn no_handles() -> RawHandles {
    RawHandles { read: 0, write: 0, signal: 0, reference: 0 }
}

#[test]
fn default_size_is_classic() {
    let size = PtySize::default();
    assert_eq!((size.rows, size.cols, size.pixel_width, size.pixel_height), (24, 80, 0, 0));
}

#[test]
fn raw_handles_master_pty_handles_null_inputs() {
    let mut kernel = Kernel::new(&[]);
    let mut pty = kernel.master(no_handles(), PtySize::default());
    assert!(pty.signal_handle().is_none());
    assert!(pty.take_writer().is_err());
    assert!(kernel.calls.is_empty());
}

#[test]
fn from_raw_handles_duplicates_and_retains_reference_handle() {
    let event: Handle = 0x20;
    let mut kernel = Kernel::new(&[event]);
    let pty = kernel.master(RawHandles { reference: event, ..no_handles() }, PtySize::default());

    assert!(
        kernel.handles().contains(&event),
        "raw reference input must still be valid after from_raw_handles returns"
    );
    let retained = pty
        .reference_handle()
        .expect("from_raw_handles must retain a duplicate of the reference handle");
    assert_ne!(
        retained, event,
        "retained reference must be a DuplicateHandle output, not the raw input"
    );
    assert_eq!(kernel.object(retained), kernel.object(event));
}

#[test]
fn resize_writes_correct_signal_packet() {
    let signal_write: Handle = 0x24;
    let mut kernel = Kernel::new(&[signal_write]);
    let mut pty = kernel.master(
        RawHandles { signal: signal_write, ..no_handles() },
        PtySize { rows: 24, cols: 80, pixel_width: 0, pixel_height: 0 },
    );
    // The signal handle was duplicated, so the original is still the caller's.
    kernel.close(signal_write);

    let new_size = PtySize { rows: 40, cols: 120, pixel_width: 0, pixel_height: 0 };
    let resizing = pty.resize(new_size).expect("resize should succeed");
    assert_eq!(kernel.object(resizing.handle), signal_write as u32);
    let buf = resizing.bytes;
    assert_eq!(buf.len(), 6);
    pty.resized(resizing, WriteOutcome::Written(6)).expect("resize should succeed");

    let signal_id = u16::from_le_bytes([buf[0], buf[1]]);
    let cols = u16::from_le_bytes([buf[2], buf[3]]);
    let rows = u16::from_le_bytes([buf[4], buf[5]]);
    assert_eq!(signal_id, PTY_SIGNAL_RESIZE_WINDOW);
    assert_eq!(cols, 120);
    assert_eq!(rows, 40);

    let cached = pty.get_size();
    assert_eq!(cached.rows, 40);
    assert_eq!(cached.cols, 120);
}

#[test]
fn resize_packet_bytes() {
    let mut kernel = Kernel::new(&[0x24]);
    let pty = kernel.master(RawHandles { signal: 0x24, ..no_handles() }, PtySize::default());
    let size = PtySize { rows: 0x1234, cols: 0xabcd, pixel_width: 1, pixel_height: 2 };
    let resizing = pty.resize(size).expect("signal pipe");
    assert_eq!(resizing.bytes, [8, 0, 0xcd, 0xab, 0x34, 0x12]);
}

#[test]
fn resize_fails_gracefully_without_signal_pipe() {
    let mut kernel = Kernel::new(&[]);
    let pty = kernel.master(no_handles(), PtySize::default());
    let result = pty.resize(PtySize { rows: 50, cols: 100, pixel_width: 0, pixel_height: 0 });
    assert!(result.is_err());
    assert_eq!(
        result.err().map(|e| e.message()),
        Some("signal pipe handle not available".to_string())
    );
}

#[test]
fn a_failed_resize_keeps_the_size() {
    let mut kernel = Kernel::new(&[0x24]);
    let mut pty = kernel.master(RawHandles { signal: 0x24, ..no_handles() }, PtySize::default());
    let size = PtySize { rows: 50, cols: 100, pixel_width: 0, pixel_height: 0 };

    let resizing = pty.resize(size).expect("signal pipe");
    let failed = pty.resized(resizing, WriteOutcome::Failed("pipe broken".to_string()));
    assert_eq!(
        failed.err().map(|e| e.message()),
        Some("WriteFile to ConPTY signal pipe failed: pipe broken".to_string())
    );
    assert_eq!(pty.get_size(), PtySize::default());

    let resizing = pty.resize(size).expect("signal pipe");
    let short = pty.resized(resizing, WriteOutcome::Written(4));
    assert_eq!(
        short.err().map(|e| e.message()),
        Some("short write to ConPTY signal pipe: wrote 4 of 6 bytes".to_string())
    );
    assert_eq!(pty.get_size(), PtySize::default());
}

#[test]
fn from_raw_handles_nonnull_write_yields_writer() {
    let write_end: Handle = 0x28;
    let mut kernel = Kernel::new(&[write_end]);
    let mut pty = kernel.master(RawHandles { write: write_end, ..no_handles() }, PtySize::default());

    let writer = pty
        .take_writer()
        .expect("take_writer must succeed when write handle was non-null");
    // The writer is a duplicate that leads to the same pipe.
    assert_ne!(writer, write_end);
    assert_eq!(kernel.object(writer), write_end as u32);
    assert!(!kernel.handles().contains(&write_end));

    assert_eq!(
        pty.take_writer().err().map(|e| e.message()),
        Some("writer already taken".to_string())
    );
}

#[test]
fn readers_are_duplicates() {
    let mut kernel = Kernel::new(&[0x2c]);
    let pty = kernel.master(RawHandles { read: 0x2c, ..no_handles() }, PtySize::default());
    let reader = kernel.drive(pty.try_clone_reader(), |m, a| m.resume(a)).expect("reader");
    assert_ne!(reader, 0x2c);
    assert_eq!(kernel.object(reader), 0x2c);

    kernel.refuse_duplicates = true;
    let failed = kernel.drive(pty.try_clone_reader(), |m, a| m.resume(a));
    assert_eq!(failed.err().map(|e| e.message()), Some("no duplicates".to_string()));

    let none = kernel.master(no_handles(), PtySize::default());
    let failed = kernel.drive(none.try_clone_reader(), |m, a| m.resume(a));
    assert_eq!(failed.err().map(|e| e.message()), Some("read handle already taken".to_string()));
}

#[test]
fn closing_leaves_no_handle_of_the_terminal() {
    for refuse in [false, true] {
        let mut kernel = Kernel::new(&[0x10, 0x14, 0x18, 0x1c]);
        kernel.refuse_duplicates = refuse;
        let raw = RawHandles { read: 0x10, write: 0x14, signal: 0x18, reference: 0x1c };
        let pty = kernel.master(raw, PtySize::default());
        for h in pty.into_handles() {
            kernel.close(h);
        }
        assert_eq!(kernel.handles(), BTreeSet::from([0x18, 0x1c]));
    }
}

#[test]
fn wait_tracks_session_server_instead_of_initial_client() {
    let server: Handle = 0x30;
    let client: u32 = 77;
    let mut kernel = Kernel::new(&[server]);
    let client_pid = Some(client);
    let child = kernel.child(server, client_pid);

    assert_eq!(child.process_id(), client_pid);

    // The client exits; the session goes on.
    kernel.exited.push((client, 0));
    let found = kernel.drive(child.try_wait(), |m, a| m.resume(a)).expect("try_wait");
    assert!(found.is_none());

    // The server is killed.
    kernel.exited.push((server as u32, 1));
    let child_status = kernel.drive(child.wait(), |m, a| m.resume(a)).expect("child wait");
    assert_eq!(child_status.exit_code, 1);
    assert!(!child_status.success);
}

#[test]
fn waiting_leaves_the_handles_as_they_were() {
    let mut kernel = Kernel::new(&[0x30]);
    let child = kernel.child(0x30, Some(77));
    let before = kernel.handles();
    assert_eq!(before.len(), 3);

    // The wait fails while the process runs.
    let failed = kernel.drive(child.wait(), |m, a| m.resume(a));
    assert_eq!(failed.err().map(|e| e.message()), Some("wait failed".to_string()));
    assert_eq!(kernel.handles(), before);

    kernel.exited.push((0x30, 0));
    let status = kernel.drive(child.wait(), |m, a| m.resume(a)).expect("status");
    assert_eq!(status, ExitStatus { exit_code: 0, success: true });
    assert_eq!(kernel.handles(), before);

    kernel.refuse_duplicates = true;
    let failed = kernel.drive(child.wait(), |m, a| m.resume(a));
    assert_eq!(
        failed.err().map(|e| e.message()),
        Some("DuplicateHandle for wait() failed: no duplicates".to_string())
    );
    for h in child.into_handles() {
        kernel.close(h);
    }
    assert_eq!(kernel.handles(), BTreeSet::from([0x30]));
}

#[test]
fn without_a_session_there_is_nothing_to_wait_for() {
    let mut kernel = Kernel::new(&[]);
    let child = kernel.child(0, None);
    assert_eq!(child.as_raw_handle(), None);
    let found = kernel.drive(child.try_wait(), |m, a| m.resume(a)).expect("try_wait");
    assert_eq!(found, None);
    let failed = kernel.drive(child.wait(), |m, a| m.resume(a));
    assert_eq!(
        failed.err().map(|e| e.message()),
        Some("wait() called with no session handle; child is unwaitable".to_string())
    );
    assert!(kernel.calls.is_empty());
}

#[test]
fn a_wait_without_status_is_an_error() {
    let mut kernel = Kernel::new(&[0x30]);
    let child = kernel.child(0x30, None);
    let answers = vec![
        Answer::Handle(0x40),
        Answer::Waited { result: WAIT_OBJECT_0, last_error: String::new() },
        Answer::Waited { result: WAIT_TIMEOUT, last_error: String::new() },
        Answer::Done,
    ];
    let mut talk = child.wait();
    for answer in answers {
        talk = match talk {
            Talk::Ask(_, m) => m.resume(answer),
            Talk::Done(_) => panic!("too early"),
        };
    }
    match talk {
        Talk::Done(Err(e)) => assert_eq!(
            e.message(),
            "WaitForSingleObject returned but try_wait found no exit status"
        ),
        _ => panic!("no error"),
    }
}

#[test]
fn looking_reports_what_the_system_says() {
    let mut kernel = Kernel::new(&[0x30]);
    let child = kernel.child(0x30, None);
    let (call, m) = match child.try_wait() {
        Talk::Ask(call, m) => (call, m),
        Talk::Done(_) => panic!("no handle"),
    };
    assert_eq!(call, Call::Wait(child.as_raw_handle().expect("handle"), 0));
    let failed = m.resume(Answer::Waited { result: WAIT_FAILED, last_error: "bad".to_string() });
    assert!(matches!(failed, Talk::Done(Err(PtyError::System(s))) if s == "bad"));
    let abandoned = m.resume(Answer::Waited { result: 0x80, last_error: "ab".to_string() });
    assert!(matches!(abandoned, Talk::Done(Err(PtyError::System(s))) if s == "ab"));
    let code = match m.resume(Answer::Waited { result: 0, last_error: String::new() }) {
        Talk::Ask(_, m) => m,
        Talk::Done(_) => panic!("exit code is missing"),
    };
    let failed = code.resume(Answer::Failed("no code".to_string()));
    assert!(matches!(failed, Talk::Done(Err(PtyError::System(s))) if s == "no code"));
}

#[test]
fn killing_terminates_the_client() {
    let mut kernel = Kernel::new(&[0x30]);
    let child = kernel.child(0x30, Some(77));
    let killer = kernel.drive(child.clone_killer(), |m, a| m.resume(a));
    let another = kernel.drive(killer.clone_killer(), |m, a| m.resume(a));
    assert_ne!(killer.handle, another.handle);
    assert_ne!(killer.handle, child.killer_handle);
    let killed = kernel.drive(another.kill(), |m, a| m.resume(a));
    assert!(killed.is_ok());
    assert_eq!(kernel.terminated, vec![77]);
    assert_eq!(kernel.exited, vec![(77, 1)]);
    let again = kernel.drive(child.kill(), |m, a| m.resume(a));
    assert_eq!(again.err().map(|e| e.message()), Some("access denied".to_string()));
}

#[test]
fn killing_without_a_handle_is_no_error() {
    let mut kernel = Kernel::new(&[0x30]);
    kernel.refuse_processes = true;
    let child = kernel.child(0x30, Some(77));
    assert_eq!(child.process_id(), Some(77));
    assert!(kernel.drive(child.kill(), |m, a| m.resume(a)).is_ok());
    let killer = kernel.drive(child.clone_killer(), |m, a| m.resume(a));
    assert_eq!(killer.handle, None);
    assert!(kernel.drive(killer.kill(), |m, a| m.resume(a)).is_ok());
    assert!(kernel.terminated.is_empty());
}

#[test]
fn startup_position_ignored_without_flag() {
    let startup = TerminalStartupInfoOwned {
        position_x: 100,
        position_y: 200,
        ..TerminalStartupInfoOwned::<String>::default()
    };

    assert_eq!(startup_position(&startup), None);
}

#[test]
fn startup_position_preserves_signed_screen_coordinates() {
    let startup = TerminalStartupInfoOwned {
        dw_flags: STARTF_USEPOSITION,
        position_x: u32::from_ne_bytes((-100i32).to_ne_bytes()),
        position_y: u32::from_ne_bytes((-50i32).to_ne_bytes()),
        ..TerminalStartupInfoOwned::<String>::default()
    };

    assert_eq!(
        startup_position(&startup),
        Some(GuiPosition {
            x: -100,
            y: -50,
            origin: GeometryOrigin::ScreenCoordinateSystem,
        })
    );
}

#[test]
fn coordinates_are_two_s_complement() {
    for value in [0u32, 1, 0x7fff_ffff, 0x8000_0000, 0xffff_ffff, 0x8000_0001] {
        assert_eq!(signed_startup_coordinate(value), value as i32);
    }
}

#[test]
fn other_flags_do_not_matter_for_the_position() {
    let mut startup = TerminalStartupInfoOwned {
        dw_flags: !STARTF_USEPOSITION,
        position_x: 5,
        position_y: 6,
        ..TerminalStartupInfoOwned::<String>::default()
    };
    assert_eq!(startup_position(&startup), None);
    startup.dw_flags = 0xffff_ffff;
    let origin = GeometryOrigin::ScreenCoordinateSystem;
    assert_eq!(startup_position(&startup), Some(GuiPosition { x: 5, y: 6, origin }));
}

#[test]
fn unspecified_sizes_are_configured_ones() {
    let mut startup = TerminalStartupInfoOwned::<String>::default();
    let size = initial_size(&startup, 30, 90);
    assert_eq!((size.rows, size.cols), (30, 90));
    startup.width = 132;
    let size = initial_size(&startup, 30, 90);
    assert_eq!((size.rows, size.cols), (30, 132));
    startup.height = 43;
    let size = initial_size(&startup, 30, 90);
    assert_eq!((size.rows, size.cols), (43, 132));
    assert_eq!((size.pixel_width, size.pixel_height), (0, 0));
}

#[test]
fn titles_have_a_default() {
    let mut startup = TerminalStartupInfoOwned::<String>::default();
    assert_eq!(session_title(&startup), "WezTerm (termhost)");
    startup.title = Some(String::new());
    assert_eq!(session_title(&startup), "WezTerm (termhost)");
    startup.title = Some("cmd".to_string());
    assert_eq!(session_title(&startup), "cmd");
}

fn delivered() -> HandoffHandles {
    HandoffHandles { signal: 0x10, reference: 0x14, server: 0x18, client: 0x1c }
}

fn take_over(kernel: &mut Kernel) -> Result<HandedOff<String>, String> {
    let startup = TerminalStartupInfoOwned {
        title: Some("cmd.exe".to_string()),
        width: 100,
        dw_flags: STARTF_USEPOSITION,
        position_x: 3,
        position_y: 4,
        show_window: SW_SHOWMAXIMIZED,
        ..TerminalStartupInfoOwned::<String>::default()
    };
    kernel
        .drive(handle_handoff(delivered(), startup), |m, a| m.resume(a))
        .map_err(|e| e.message())
}

#[test]
fn a_handoff_becomes_a_session() {
    let mut kernel = Kernel::new(&[0x10, 0x14, 0x18, 0x1c]);
    let before = kernel.handles();
    let session = take_over(&mut kernel).expect("session");

    assert!(kernel.received);
    let (their_read, their_write) = kernel.published.expect("published");
    assert_eq!(
        kernel.calls[..5],
        [
            Call::ProcessId(0x1c),
            Call::CreatePipe { inherit_read: true, inherit_write: false },
            Call::CreatePipe { inherit_read: false, inherit_write: true },
            Call::Publish { in_handle: their_read, out_handle: their_write },
            Call::MarkReceived,
        ]
    );
    assert_eq!(session.title, "cmd.exe");
    assert_eq!((session.size.rows, session.size.cols), (24, 100));
    assert_eq!(session.master.get_size(), session.size);
    let origin = GeometryOrigin::ScreenCoordinateSystem;
    assert_eq!(session.position, Some(GuiPosition { x: 3, y: 4, origin }));
    assert_eq!(session.window_state, PendingWindowState { show_window: SW_SHOWMAXIMIZED });

    // The session lives as long as the server, and killing means the client.
    let child = session.child;
    assert_eq!(kernel.object(child.as_raw_handle().expect("session")), 0x18);
    assert_eq!(child.process_id(), Some(0x1c));
    assert_eq!(kernel.object(child.killer_handle.expect("killer")), 0x1c);

    // Nothing but the published ends is left once the session is closed.
    for h in session.master.into_handles() {
        kernel.close(h);
    }
    for h in child.into_handles() {
        kernel.close(h);
    }
    let mut after = before;
    after.insert(their_read);
    after.insert(their_write);
    assert_eq!(kernel.handles(), after);
}

#[test]
fn a_failed_handoff_leaves_nothing_behind() {
    for pipes in [0, 1] {
        let mut kernel = Kernel::new(&[0x10, 0x14, 0x18, 0x1c]);
        kernel.pipes = pipes;
        let before = kernel.handles();
        let error = take_over(&mut kernel).err().expect("error");
        let expected = if pipes == 0 {
            "create_anon_pipe for ConPTY stdin: no more pipes"
        } else {
            "create_anon_pipe for ConPTY stdout: no more pipes"
        };
        assert_eq!(error, expected);
        assert!(!kernel.received);
        assert_eq!(kernel.published, None);
        assert_eq!(kernel.handles(), before);
    }
}

#[test]
fn a_handoff_without_handles_works_too() {
    let mut kernel = Kernel::new(&[]);
    let handles = HandoffHandles { signal: 0, reference: 0, server: 0, client: 0 };
    let startup = TerminalStartupInfoOwned::<String>::default();
    let session = kernel
        .drive(handle_handoff(handles, startup), |m, a| m.resume(a))
        .map_err(|e| e.message())
        .expect("session");
    assert_eq!(session.child.process_id(), None);
    assert_eq!(session.child.as_raw_handle(), None);
    assert_eq!(session.master.signal_handle(), None);
    assert_eq!(session.position, None);
    assert_eq!(session.window_state, PendingWindowState { show_window: SHOW_WINDOW_NONE });
    assert_eq!(session.title, "WezTerm (termhost)");
}

fn attach(failing: Option<usize>) -> (Vec<AttachCall<String>>, Result<(), String>, bool) {
    let origin = GeometryOrigin::ScreenCoordinateSystem;
    let size = PtySize { rows: 30, cols: 90, pixel_width: 0, pixel_height: 0 };
    let position = Some(GuiPosition { x: 1, y: 2, origin });
    let mut talk = attach_pane_to_new_window("cmd".to_string(), size, position);
    let mut calls = Vec::new();
    loop {
        talk = match talk {
            AttachTalk::Ask(call, m) => {
                let outcome = if failing == Some(calls.len()) {
                    Err("broken".to_string())
                } else {
                    Ok(())
                };
                calls.push(call);
                m.resume(outcome)
            }
            AttachTalk::Done(result) => {
                let replace = needs_replacement(&result);
                return (calls, result.map_err(|e| e.message()), replace);
            }
        }
    }
}

#[test]
fn a_session_gets_a_window() {
    let (calls, result, replace) = attach(None);
    assert_eq!(result, Ok(()));
    assert!(!replace);
    assert_eq!(calls.len(), 6);
    assert!(matches!(calls[0], AttachCall::FindMux));
    assert!(matches!(calls[1], AttachCall::FindLocalDomain));
    assert!(matches!(calls[2], AttachCall::CheckLocalDomain));
    assert!(matches!(
        &calls[3],
        AttachCall::AttachPane { rows: 30, cols: 90, description }
            if description == "termhost handoff: cmd"
    ));
    assert!(matches!(calls[4], AttachCall::AddTab { rows: 30, cols: 90 }));
    assert!(matches!(
        calls[5],
        AttachCall::AddToWindow { position: Some(GuiPosition { x: 1, y: 2, .. }) }
    ));
}

#[test]
fn the_first_failure_ends_the_attachment() {
    let messages = [
        "Mux not yet initialized when handoff arrived",
        "no 'local' domain registered with the mux",
        "the 'local' domain is not a LocalDomain; termhost cannot attach",
        "LocalDomain::attach_external_pane: broken",
        "add_tab_and_active_pane: broken",
        "add_tab_to_window: broken",
    ];
    for (i, message) in messages.iter().enumerate() {
        let (calls, result, replace) = attach(Some(i));
        assert_eq!(result, Err(message.to_string()));
        assert_eq!(calls.len(), i + 1);
        assert!(replace);
    }
}
