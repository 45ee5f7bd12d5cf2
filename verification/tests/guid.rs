use termhost::guid::{guid_eq, guid_to_string, parse_guid, GUID};
use termhost::registration::{
    CLSID_WezTermTerminalHandoff, TERMHOST_LET_WINDOWS_DECIDE,
    WEZTERM_TERMHOST_FALLBACK_CONSOLE_CLSID, WEZTERM_TERMHOST_TERMINAL_CLSID,
};

#[test]
fn parse_wezterm_guid() {
    let g = parse_guid(WEZTERM_TERMHOST_TERMINAL_CLSID).expect("parse wezterm guid");
    let s = guid_to_string(&g);
    assert_eq!(s.to_uppercase(), WEZTERM_TERMHOST_TERMINAL_CLSID.to_uppercase());
}

#[test]
fn parse_microsoft_terminal_guid() {
    let g = parse_guid("{E12CFF52-A866-4C77-9A90-F570A7AA2C6B}").expect("parse ms guid");
    assert_eq!(g.Data1, 0xE12CFF52);
}

#[test]
fn parse_rejects_malformed() {
    assert!(parse_guid("not a guid").is_none());
    assert!(parse_guid("{too-short}").is_none());
    assert!(parse_guid("{XXXXXXXX-0000-0000-0000-000000000000}").is_none());
}

#[test]
fn roundtrip_all_known_clsids() {
    for s in [
        WEZTERM_TERMHOST_TERMINAL_CLSID,
        WEZTERM_TERMHOST_FALLBACK_CONSOLE_CLSID,
        TERMHOST_LET_WINDOWS_DECIDE,
    ] {
        let g = parse_guid(s).unwrap_or_else(|| panic!("parse {}", s));
        let back = guid_to_string(&g);
        assert_eq!(back.to_uppercase(), s.to_uppercase(), "roundtrip {}", s);
    }
}

#[test]
fn const_guids_match_strings() {
    let wez = parse_guid(WEZTERM_TERMHOST_TERMINAL_CLSID).unwrap();
    assert!(wez.Data1 == CLSID_WezTermTerminalHandoff().Data1);
    assert!(wez.Data2 == CLSID_WezTermTerminalHandoff().Data2);
    assert!(wez.Data3 == CLSID_WezTermTerminalHandoff().Data3);
    assert!(wez.Data4 == CLSID_WezTermTerminalHandoff().Data4);
}

#[test]
fn guid_eq_matches_identical_guid() {
    let g = GUID { Data1: 0x12345678, Data2: 0x1234, Data3: 0x1234, Data4: [0xAA; 8] };
    assert!(guid_eq(&g, &g));
}

#[test]
fn guid_eq_rejects_different_guid() {
    let a = GUID { Data1: 1, Data2: 0, Data3: 0, Data4: [0; 8] };
    let b = GUID { Data1: 2, Data2: 0, Data3: 0, Data4: [0; 8] };
    assert!(!guid_eq(&a, &b));
}

#[test]
fn guid_eq_looks_at_every_field() {
    let a = GUID { Data1: 1, Data2: 2, Data3: 3, Data4: [4; 8] };
    assert!(!guid_eq(&a, &GUID { Data2: 9, ..a }));
    assert!(!guid_eq(&a, &GUID { Data3: 9, ..a }));
    let mut tail = [4; 8];
    tail[7] = 5;
    assert!(!guid_eq(&a, &GUID { Data4: tail, ..a }));
}

#[test]
fn parse_reads_every_field() {
    let g = parse_guid("{01234567-89ab-CDEF-0011-223344556677}").unwrap();
    assert_eq!(g.Data1, 0x01234567);
    assert_eq!(g.Data2, 0x89ab);
    assert_eq!(g.Data3, 0xcdef);
    assert_eq!(g.Data4, [0x00, 0x11, 0x22, 0x33, 0x44, 0x55, 0x66, 0x77]);
    assert_eq!(guid_to_string(&g), "{01234567-89AB-CDEF-0011-223344556677}");
}

#[test]
fn parse_is_lenient_where_the_digits_are_clear() {
    // Braces are optional and may be doubled, blanks around are ignored, and a
    // leading plus sign or missing leading zeros of the first fields are read.
    for s in [
        "00000001-0002-0003-0405-060708090a0b",
        "  {00000001-0002-0003-0405-060708090a0b}\t",
        "{{00000001-0002-0003-0405-060708090a0b}}",
        "{1-2-3-0405-060708090a0b}",
        "{+1-+2-+3-0405-060708090a0b}",
    ] {
        let g = parse_guid(s).unwrap_or_else(|| panic!("parse {}", s));
        assert_eq!(g.Data1, 1, "{}", s);
        assert_eq!(g.Data2, 2, "{}", s);
        assert_eq!(g.Data3, 3, "{}", s);
        assert_eq!(g.Data4, [4, 5, 6, 7, 8, 9, 10, 11], "{}", s);
    }
}

#[test]
fn every_spelling_reads_the_same() {
    let upper = "0A1B2C3D-4E5F-6789-ABCD-EF0123456789";
    let lower = upper.to_lowercase();
    for bare in [upper, lower.as_str()] {
        for s in [
            bare.to_string(),
            format!("{{{bare}}}"),
            format!(" \t{bare}\n"),
            format!("\u{a0}{{{bare}}}\u{3000}"),
        ] {
            let g = parse_guid(&s).unwrap_or_else(|| panic!("parse {}", s));
            assert_eq!(guid_to_string(&g), format!("{{{upper}}}"));
        }
    }
}

#[test]
fn parse_rejects_wrong_lengths_and_ranges() {
    for s in [
        "",
        "{}",
        "{00000001-0002-0003-0405}",
        "{00000001-0002-0003-405-060708090a0b}",
        "{00000001-0002-0003-0405-60708090a0b}",
        "{00000001-0002-0003-0405-060708090a0b0c}",
        "{00000001-0002-0003-0405-06070809-a0b}",
        "{100000001-0002-0003-0405-060708090a0b}",
        "{00000001-10002-0003-0405-060708090a0b}",
        "{00000001--0003-0405-060708090a0b}",
        "{-1-0002-0003-0405-060708090a0b}",
        "{00000001-0002-0003-04g5-060708090a0b}",
    ] {
        assert!(parse_guid(s).is_none(), "{}", s);
    }
}

#[test]
fn every_identifier_reads_back() {
    let mut seed: u64 = 0x9e37_79b9_7f4a_7c15;
    for _ in 0..200 {
        let mut bytes = [0u8; 16];
        for b in bytes.iter_mut() {
            seed = seed.wrapping_mul(6364136223846793005).wrapping_add(1442695040888963407);
            *b = (seed >> 56) as u8;
        }
        let mut tail = [0u8; 8];
        tail.copy_from_slice(&bytes[8..]);
        let g = GUID {
            Data1: u32::from_le_bytes([bytes[0], bytes[1], bytes[2], bytes[3]]),
            Data2: u16::from_le_bytes([bytes[4], bytes[5]]),
            Data3: u16::from_le_bytes([bytes[6], bytes[7]]),
            Data4: tail,
        };
        let back = parse_guid(&guid_to_string(&g)).expect("reads back");
        assert!(guid_eq(&g, &back));
    }
}
