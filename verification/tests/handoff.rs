use termhost::guid::GUID;
use termhost::handoff::establish::{establish_pty_handoff, handoff_result, Establish};
use termhost::handoff::instance::{take_singleton, Instance, InterfaceIds, QueryAnswer};
use termhost::handoff::{set_callback, E_FAIL, E_NOINTERFACE, E_POINTER, E_UNEXPECTED, S_OK};
use termhost::once::OnceSlot;
use termhost::types::{bstr_to_string, startup_info_to_owned, TerminalStartupInfo};

const HANDOFF3: GUID = GUID {
    Data1: 0x6F23DA90,
    Data2: 0x15C5,
    Data3: 0x4203,
    Data4: [0x9D, 0xB0, 0x64, 0xE7, 0x3F, 0x1B, 0x1B, 0x00],
};

const MARKER: GUID = GUID {
    Data1: 0x746E6BC0,
    Data2: 0xAB05,
    Data3: 0x4E38,
    Data4: [0xAB, 0x14, 0x71, 0xE8, 0x67, 0x63, 0x14, 0x1F],
};

const UNKNOWN: GUID = GUID {
    Data1: 0,
    Data2: 0,
    Data3: 0,
    Data4: [0xC0, 0, 0, 0, 0, 0, 0, 0x46],
};

fn ids() -> InterfaceIds {
    InterfaceIds { handoff3: HANDOFF3, marker: MARKER, unknown: UNKNOWN }
}

fn singleton() -> Instance {
    let mut slot: OnceSlot<Instance> = OnceSlot::new();
    take_singleton(&mut slot, 0x1000);
    *slot.get().expect("instance")
}

#[test]
fn startup_size_uses_count_chars_not_pixel_size() {
    let startup = TerminalStartupInfo {
        dwXSize: 1024,
        dwYSize: 768,
        dwXCountChars: 132,
        dwYCountChars: 43,
        ..Default::default()
    };

    let owned = startup_info_to_owned(&startup);

    assert_eq!(owned.width, 132);
    assert_eq!(owned.height, 43);
}

#[test]
fn startup_info_preserves_flags_and_position() {
    let startup = TerminalStartupInfo {
        dwFlags: 0x80,
        dwX: 100,
        dwY: 200,
        ..Default::default()
    };

    let owned = startup_info_to_owned(&startup);

    assert_eq!(owned.dw_flags, 0x80);
    assert_eq!(owned.position_x, 100);
    assert_eq!(owned.position_y, 200);
}

#[test]
fn startup_info_drops_counts_out_of_range() {
    let startup = TerminalStartupInfo {
        dwXCountChars: 0x10000,
        dwYCountChars: 0xffff,
        wShowWindow: 3,
        ..Default::default()
    };
    let owned = startup_info_to_owned(&startup);
    assert_eq!(owned.width, 0);
    assert_eq!(owned.height, 0xffff);
    assert_eq!(owned.show_window, 3);
    assert_eq!(owned.title, Some(String::new()));
}

#[test]
fn null_returns_empty() {
    assert_eq!(bstr_to_string(&None), String::new());
}

#[test]
fn round_trip_ascii() {
    let wide: Vec<u16> = "hello".encode_utf16().collect();
    assert_eq!(bstr_to_string(&Some(wide)), "hello");
}

#[test]
fn round_trip_non_ascii() {
    let wide: Vec<u16> = "héllo 世界".encode_utf16().collect();
    assert_eq!(bstr_to_string(&Some(wide)), "héllo 世界");
}

#[test]
fn round_trip_beyond_the_basic_plane() {
    let wide: Vec<u16> = "a😀b".encode_utf16().collect();
    assert_eq!(wide.len(), 4);
    assert_eq!(bstr_to_string(&Some(wide)), "a😀b");
}

#[test]
fn lone_surrogates_are_replaced() {
    assert_eq!(bstr_to_string(&Some(vec![0x61, 0xd800, 0x62])), "a\u{fffd}b");
    assert_eq!(bstr_to_string(&Some(vec![0xdc00])), "\u{fffd}");
    assert_eq!(bstr_to_string(&Some(vec![0xd800, 0xd800, 0xdc00])), "\u{fffd}\u{10000}");
}

#[test]
fn out_pipe_params_are_populated_by_callee() {
    fn callback(in_out: &mut usize, out_out: &mut usize) -> Result<(), String> {
        *in_out = 0x44;
        *out_out = 0x48;
        Ok(())
    }
    type Callback = fn(&mut usize, &mut usize) -> Result<(), String>;
    let mut slot: OnceSlot<Callback> = OnceSlot::new();
    assert!(set_callback(&mut slot, callback as Callback).is_ok());

    let mut in_handle: usize = 0;
    let mut out_handle: usize = 0;
    let hr = match establish_pty_handoff(&slot, &mut in_handle, &mut out_handle, None) {
        Establish::Return(hr) => hr,
        Establish::Invoke(startup) => {
            assert!(startup.title.is_none());
            let callback = slot.get().expect("callback");
            handoff_result(&callback(&mut in_handle, &mut out_handle))
        }
    };
    assert_eq!(hr, S_OK);
    assert_eq!(in_handle, 0x44);
    assert_eq!(out_handle, 0x48);
    assert!(in_handle != 0);
    assert!(out_handle != 0);
}

#[test]
fn nothing_registered_is_unexpected() {
    let slot: OnceSlot<u8> = OnceSlot::new();
    let mut in_handle: usize = 0x10;
    let mut out_handle: usize = 0x14;
    let startup = TerminalStartupInfo::default();
    match establish_pty_handoff(&slot, &mut in_handle, &mut out_handle, Some(&startup)) {
        Establish::Return(hr) => assert_eq!(hr, E_UNEXPECTED),
        Establish::Invoke(_) => panic!("nothing to call"),
    }
    assert_eq!((in_handle, out_handle), (0, 0));
}

#[test]
fn out_params_are_cleared_before_the_call() {
    let mut slot: OnceSlot<u8> = OnceSlot::new();
    assert_eq!(set_callback(&mut slot, 1), Ok(()));
    assert_eq!(set_callback(&mut slot, 2), Err(2));
    let mut in_handle: usize = 0x10;
    let mut out_handle: usize = 0x14;
    let startup = TerminalStartupInfo {
        pszTitle: Some("cmd".encode_utf16().collect()),
        ..Default::default()
    };
    match establish_pty_handoff(&slot, &mut in_handle, &mut out_handle, Some(&startup)) {
        Establish::Return(_) => panic!("registered"),
        Establish::Invoke(owned) => assert_eq!(owned.title, Some("cmd".to_string())),
    }
    assert_eq!((in_handle, out_handle), (0, 0));
    let failed: Result<(), &str> = Err("no pipes");
    assert_eq!(handoff_result(&failed), E_FAIL);
}

#[test]
fn result_codes_are_those_of_windows() {
    assert_eq!(S_OK, 0);
    assert_eq!(E_NOINTERFACE, 0x80004002u32 as i32);
    assert_eq!(E_POINTER, 0x80004003u32 as i32);
    assert_eq!(E_FAIL, 0x80004005u32 as i32);
    assert_eq!(E_UNEXPECTED, 0x8000FFFFu32 as i32);
}

#[test]
fn take_singleton_returns_non_null() {
    let mut slot: OnceSlot<Instance> = OnceSlot::new();
    assert!(take_singleton(&mut slot, 0x1000) != 0);
}

#[test]
fn take_singleton_is_idempotent() {
    let mut slot: OnceSlot<Instance> = OnceSlot::new();
    let a = take_singleton(&mut slot, 0x1000);
    let b = take_singleton(&mut slot, 0x2000);
    assert_eq!(a, b);
    assert_eq!(slot.get(), Some(&Instance { address: 0x1000, refcount: 1 }));
}

#[test]
fn query_interface_null_iid_yields_e_pointer() {
    let mut this = singleton();
    let answer = this.query_interface(&ids(), None, true);
    assert_eq!(answer.hresult, E_POINTER);
}

#[test]
fn query_interface_null_out_yields_e_pointer() {
    let mut this = singleton();
    let answer = this.query_interface(&ids(), Some(HANDOFF3), false);
    assert_eq!(answer.hresult, E_POINTER);
    assert_eq!(this.refcount, 1);
}

#[test]
fn query_interface_handoff3_yields_this_and_s_ok() {
    let mut this = singleton();
    let answer = this.query_interface(&ids(), Some(HANDOFF3), true);
    assert_eq!(answer.hresult, S_OK);
    assert_eq!(answer.interface, Some(this.address));
}

#[test]
fn query_interface_unknown_iid_yields_e_nointerface() {
    let unknown_iid = GUID {
        Data1: 0xDEADBEEF,
        Data2: 0xBEEF,
        Data3: 0xDEAD,
        Data4: [0, 0, 0, 0, 0, 0, 0, 0],
    };
    let mut this = singleton();
    let answer = this.query_interface(&ids(), Some(unknown_iid), true);
    assert_eq!(answer, QueryAnswer { hresult: E_NOINTERFACE, interface: Some(0) });
    assert_eq!(this.refcount, 1);
}

#[test]
fn references_are_counted() {
    let mut this = singleton();
    for iid in [HANDOFF3, MARKER, UNKNOWN] {
        assert_eq!(this.query_interface(&ids(), Some(iid), true).hresult, S_OK);
    }
    assert_eq!(this.refcount, 4);
    assert_eq!(this.add_ref(), 5);
    assert_eq!(this.release(), 4);
    for expected in [3, 2, 1, 0] {
        assert_eq!(this.release(), expected);
    }
    assert_eq!(this.release(), 0);
    assert_eq!(this.refcount, u32::MAX);
    assert_eq!(this.add_ref(), 0);
    assert_eq!(this.refcount, 0);
}
