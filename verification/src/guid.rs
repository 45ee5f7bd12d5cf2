//! COM identifiers: the 128-bit `GUID`, its registry spelling, and equality.

use crate::text::{
    all_white, ascii_lower, ascii_upper, end_before, first_at, in_class, is_white_space,
    lemma_scan, lemma_scan_back, same_ignoring_ascii_case, scan, trim, trim_end, trim_start,
    trimmed, upper_case, white_space_around_goes, without_leading, without_trailing, CharClass,
};
use vstd::prelude::*;

verus! {

/// A 128-bit COM identifier (CLSID or IID), laid out as Windows lays it out.
#[derive(Clone, Copy, Debug)]
pub struct GUID {
    pub Data1: u32,
    pub Data2: u16,
    pub Data3: u16,
    pub Data4: [u8; 8],
}

/// The value of a [`GUID`].
#[verifier::ext_equal]
pub struct GuidValue {
    pub data1: u32,
    pub data2: u16,
    pub data3: u16,
    pub data4: Seq<u8>,
}

impl View for GUID {
    type V = GuidValue;

    open spec fn view(&self) -> GuidValue {
        GuidValue {
            data1: self.Data1,
            data2: self.Data2,
            data3: self.Data3,
            data4: self.Data4@,
        }
    }
}

/// The value of a hexadecimal digit, either case.
pub open spec fn hex_digit(c: char) -> Option<nat> {
    if '0' <= c <= '9' {
        Some((c as nat - 0x30) as nat)
    } else if 'a' <= c <= 'f' {
        Some((c as nat - 0x57) as nat)
    } else if 'A' <= c <= 'F' {
        Some((c as nat - 0x37) as nat)
    } else {
        None
    }
}

/// Whether every character is a hexadecimal digit.
pub open spec fn all_hex(s: Seq<char>) -> bool {
    forall|i: int| 0 <= i < s.len() ==> hex_digit(#[trigger] s[i]) is Some
}

/// The number spelled by hexadecimal digits, most significant first.
pub open spec fn hex_value(s: Seq<char>) -> nat
    decreases s.len(),
{
    if s.len() == 0 {
        0
    } else {
        hex_value(s.drop_last()) * 16 + hex_digit(s.last()).unwrap_or(0)
    }
}

/// An unsigned hexadecimal number of at most `max`: digits, optionally after
/// one plus sign.
pub open spec fn hex_number(s: Seq<char>, max: nat) -> Option<nat> {
    let digits = if s.len() > 1 && s[0] == '+' {
        s.skip(1)
    } else {
        s
    };
    if digits.len() > 0 && all_hex(digits) && hex_value(digits) <= max {
        Some(hex_value(digits))
    } else {
        None
    }
}

/// `s` cut at the first `n - 1` occurrences of `sep`.
pub open spec fn split_at_most(s: Seq<char>, sep: char, n: nat) -> Seq<Seq<char>>
    decreases n,
{
    let at = first_at(s, 0, CharClass::Exactly(sep), true);
    if n <= 1 || at >= s.len() {
        seq![s]
    } else {
        seq![s.take(at)] + split_at_most(s.skip(at + 1), sep, (n - 1) as nat)
    }
}

/// The byte spelled by the `i`-th pair of characters of `s`.
pub open spec fn hex_pair(s: Seq<char>, i: int) -> Option<nat> {
    hex_number(s.subrange(2 * i, 2 * i + 2), 0xff)
}

/// The identifier spelled by five dash-separated hexadecimal groups between
/// braces. White space around the text and any number of braces are allowed.
pub open spec fn guid_value(text: Seq<char>) -> Option<GuidValue> {
    let bare = trim_end(
        trim_start(trim(text), CharClass::Exactly('{')),
        CharClass::Exactly('}'),
    );
    let parts = split_at_most(bare, '-', 5);
    if parts.len() == 5 && parts[3].len() == 4 && parts[4].len() == 12 {
        let tail = parts[3] + parts[4];
        let data1 = hex_number(parts[0], 0xffff_ffff);
        let data2 = hex_number(parts[1], 0xffff);
        let data3 = hex_number(parts[2], 0xffff);
        if data1 is Some && data2 is Some && data3 is Some && (forall|i: int|
            0 <= i < 8 ==> #[trigger] hex_pair(tail, i) is Some) {
            Some(
                GuidValue {
                    data1: data1->0 as u32,
                    data2: data2->0 as u16,
                    data3: data3->0 as u16,
                    data4: Seq::new(8, |i: int| hex_pair(tail, i)->0 as u8),
                },
            )
        } else {
            None
        }
    } else {
        None
    }
}

/// The upper-case hexadecimal digit of `d`.
pub open spec fn hex_char(d: nat) -> char {
    if d < 10 {
        (d + 0x30) as char
    } else {
        (d + 0x37) as char
    }
}

/// The lowest `digits` hexadecimal digits of `v`.
pub open spec fn hex_text(v: nat, digits: nat) -> Seq<char>
    decreases digits,
{
    if digits == 0 {
        seq![]
    } else {
        hex_text(v / 16, (digits - 1) as nat).push(hex_char(v % 16))
    }
}

/// The first `n` bytes, two digits each.
pub open spec fn bytes_text(bytes: Seq<u8>, n: nat) -> Seq<char>
    decreases n,
{
    if n == 0 {
        seq![]
    } else {
        bytes_text(bytes, (n - 1) as nat) + hex_text(bytes[n - 1] as nat, 2)
    }
}

/// The registry spelling of an identifier.
pub open spec fn guid_text(g: GuidValue) -> Seq<char> {
    seq!['{'] + hex_text(g.data1 as nat, 8) + seq!['-'] + hex_text(g.data2 as nat, 4) + seq!['-']
        + hex_text(g.data3 as nat, 4) + seq!['-'] + bytes_text(g.data4.take(2), 2) + seq!['-']
        + bytes_text(g.data4.skip(2), 6) + seq!['}']
}

/// Whether two identifiers are the same.
pub fn guid_eq(a: &GUID, b: &GUID) -> (r: bool)
    ensures
        r == (a@ == b@),
{
    if a.Data1 != b.Data1 || a.Data2 != b.Data2 || a.Data3 != b.Data3 {
        return false;
    }
    let mut i: usize = 0;
    while i < 8
        invariant
            0 <= i <= 8,
            forall|j: int| 0 <= j < i ==> a.Data4@[j] == b.Data4@[j],
        decreases 8 - i,
    {
        if a.Data4[i] != b.Data4[i] {
            return false;
        }
        i = i + 1;
    }
    assert(a@ =~= b@);
    true
}

proof fn lemma_hex_value_grows(s: Seq<char>, n: int)
    requires
        0 <= n <= s.len(),
    ensures
        hex_value(s.take(n)) <= hex_value(s),
    decreases s.len(),
{
    if n == s.len() {
        assert(s.take(n) =~= s);
    } else {
        assert(s.drop_last().take(n) =~= s.take(n));
        lemma_hex_value_grows(s.drop_last(), n);
    }
}

fn hex_digit_of(c: char) -> (r: Option<u32>)
    ensures
        r is Some == hex_digit(c) is Some,
        r is Some ==> r->0 == hex_digit(c)->0 && r->0 < 16,
{
    let u: u32 = c as u32;
    if '0' <= c && c <= '9' {
        Some(u - 0x30)
    } else if 'a' <= c && c <= 'f' {
        Some(u - 0x57)
    } else if 'A' <= c && c <= 'F' {
        Some(u - 0x37)
    } else {
        None
    }
}

/// Parse an unsigned hexadecimal number of at most `max`.
fn parse_hex(s: &str, max: u32) -> (r: Option<u32>)
    ensures
        r is Some == hex_number(s@, max as nat) is Some,
        r is Some ==> r->0 == hex_number(s@, max as nat)->0,
{
    let len: usize = s.unicode_len();
    let start: usize = if len > 1 && s.get_char(0) == '+' {
        1
    } else {
        0
    };
    let ghost digits = s@.skip(start as int);
    assert(s@.skip(0) =~= s@);
    if start >= len {
        return None;
    }
    let mut value: u64 = 0;
    let mut i: usize = start;
    while i < len
        invariant
            start <= i <= len,
            len == s@.len(),
            start <= 1,
            digits == s@.skip(start as int),
            digits == (if s@.len() > 1 && s@[0] == '+' {
                s@.skip(1)
            } else {
                s@
            }),
            value == hex_value(digits.take(i - start)),
            value <= max,
            forall|j: int| 0 <= j < i - start ==> hex_digit(#[trigger] digits[j]) is Some,
        decreases len - i,
    {
        let ghost k = i - start;
        assert(digits[k] == s@[i as int]);
        match hex_digit_of(s.get_char(i)) {
            None => {
                return None;
            },
            Some(d) => {
                value = value * 16 + d as u64;
            },
        }
        assert(digits.take(k + 1).drop_last() =~= digits.take(k));
        assert(digits.take(k + 1).last() == digits[k]);
        i = i + 1;
        if value > max as u64 {
            proof {
                lemma_hex_value_grows(digits, i - start);
            }
            return None;
        }
    }
    assert(digits.take(len - start) =~= digits);
    Some(value as u32)
}

/// Split at the first occurrence of `sep`.
fn split_once<'a>(s: &'a str, sep: char) -> (r: Option<(&'a str, &'a str)>)
    ensures
        ({
            let at = first_at(s@, 0, CharClass::Exactly(sep), true);
            match r {
                None => at >= s@.len(),
                Some((before, after)) => at < s@.len() && before@ == s@.take(at) && after@
                    == s@.skip(at + 1),
            }
        }),
{
    let at: usize = scan(s, 0, CharClass::Exactly(sep), true);
    let len: usize = s.unicode_len();
    if at >= len {
        return None;
    }
    Some((s.substring_char(0, at), s.substring_char(at + 1, len)))
}

/// Parse the eight bytes spelled by a group of four and a group of twelve
/// digits.
fn parse_tail(high: &str, low: &str) -> (r: Option<[u8; 8]>)
    requires
        high@.len() == 4,
        low@.len() == 12,
    ensures
        r is Some == (forall|i: int| 0 <= i < 8 ==> #[trigger] hex_pair(high@ + low@, i) is Some),
        r is Some ==> forall|i: int|
            0 <= i < 8 ==> #[trigger] r->0@[i] == hex_pair(high@ + low@, i)->0,
{
    let ghost tail = high@ + low@;
    let mut bytes: [u8; 8] = [0, 0, 0, 0, 0, 0, 0, 0];
    let mut i: usize = 0;
    while i < 8
        invariant
            0 <= i <= 8,
            high@.len() == 4,
            low@.len() == 12,
            tail == high@ + low@,
            forall|j: int| 0 <= j < i ==> #[trigger] hex_pair(tail, j) is Some,
            forall|j: int| 0 <= j < i ==> #[trigger] bytes@[j] == hex_pair(tail, j)->0,
        decreases 8 - i,
    {
        let pair: &str = if i < 2 {
            high.substring_char(2 * i, 2 * i + 2)
        } else {
            low.substring_char(2 * i - 4, 2 * i - 2)
        };
        assert(pair@ =~= tail.subrange(2 * i, 2 * i + 2));
        match parse_hex(pair, 0xff) {
            None => {
                assert(hex_pair(tail, i as int) is None);
                return None;
            },
            Some(b) => {
                assert(hex_pair(tail, i as int) is Some);
                bytes[i] = b as u8;
            },
        }
        i = i + 1;
    }
    Some(bytes)
}

/// Parse the registry spelling of an identifier,
/// `{8B7D4E2A-3F5C-4D1B-9A6E-7C2B5F8D1E4A}`.
pub fn parse_guid(s: &str) -> (r: Option<GUID>)
    ensures
        r is Some == guid_value(s@) is Some,
        r is Some ==> r->0@ == guid_value(s@)->0,
{
    let bare: &str = without_trailing(
        without_leading(trimmed(s), CharClass::Exactly('{')),
        CharClass::Exactly('}'),
    );
    let ghost parts = split_at_most(bare@, '-', 5);
    proof {
        reveal_with_fuel(split_at_most, 5);
    }
    let (first, rest): (&str, &str) = match split_once(bare, '-') {
        Some(p) => p,
        None => {
            return None;
        },
    };
    let (second, rest): (&str, &str) = match split_once(rest, '-') {
        Some(p) => p,
        None => {
            return None;
        },
    };
    let (third, rest): (&str, &str) = match split_once(rest, '-') {
        Some(p) => p,
        None => {
            return None;
        },
    };
    let (fourth, fifth): (&str, &str) = match split_once(rest, '-') {
        Some(p) => p,
        None => {
            return None;
        },
    };
    assert(parts =~= seq![first@, second@, third@, fourth@, fifth@]);
    if fourth.unicode_len() != 4 || fifth.unicode_len() != 12 {
        return None;
    }
    let data1: u32 = match parse_hex(first, 0xffff_ffff) {
        Some(v) => v,
        None => {
            return None;
        },
    };
    let data2: u32 = match parse_hex(second, 0xffff) {
        Some(v) => v,
        None => {
            return None;
        },
    };
    let data3: u32 = match parse_hex(third, 0xffff) {
        Some(v) => v,
        None => {
            return None;
        },
    };
    match parse_tail(fourth, fifth) {
        None => None,
        Some(data4) => {
            let g: GUID = GUID {
                Data1: data1,
                Data2: data2 as u16,
                Data3: data3 as u16,
                Data4: data4,
            };
            assert(g@ =~= guid_value(s@)->0);
            Some(g)
        },
    }
}

fn hex_str(d: u32) -> (r: &'static str)
    requires
        d < 16,
    ensures
        r@ == seq![hex_char(d as nat)],
{
    proof {
        reveal_strlit("0");
        reveal_strlit("1");
        reveal_strlit("2");
        reveal_strlit("3");
        reveal_strlit("4");
        reveal_strlit("5");
        reveal_strlit("6");
        reveal_strlit("7");
        reveal_strlit("8");
        reveal_strlit("9");
        reveal_strlit("A");
        reveal_strlit("B");
        reveal_strlit("C");
        reveal_strlit("D");
        reveal_strlit("E");
        reveal_strlit("F");
    }
    let r: &'static str = match d {
        0 => "0",
        1 => "1",
        2 => "2",
        3 => "3",
        4 => "4",
        5 => "5",
        6 => "6",
        7 => "7",
        8 => "8",
        9 => "9",
        10 => "A",
        11 => "B",
        12 => "C",
        13 => "D",
        14 => "E",
        _ => "F",
    };
    assert(r@ =~= seq![hex_char(d as nat)]);
    r
}

fn append_hex(out: &mut String, v: u32, digits: u32)
    ensures
        final(out)@ == old(out)@ + hex_text(v as nat, digits as nat),
    decreases digits,
{
    if digits > 0 {
        append_hex(out, v / 16, digits - 1);
        out.append(hex_str(v % 16));
    }
    assert(out@ =~= old(out)@ + hex_text(v as nat, digits as nat));
}

fn append_bytes(out: &mut String, bytes: &[u8; 8], from: usize, to: usize)
    requires
        from <= to <= 8,
    ensures
        final(out)@ == old(out)@ + bytes_text(
            bytes@.subrange(from as int, to as int),
            (to - from) as nat,
        ),
{
    let ghost part = bytes@.subrange(from as int, to as int);
    let mut i: usize = from;
    assert(out@ =~= old(out)@ + bytes_text(part, 0));
    while i < to
        invariant
            from <= i <= to <= 8,
            part == bytes@.subrange(from as int, to as int),
            out@ == old(out)@ + bytes_text(part, (i - from) as nat),
        decreases to - i,
    {
        append_hex(out, bytes[i] as u32, 2);
        i = i + 1;
        assert(out@ =~= old(out)@ + bytes_text(part, (i - from) as nat));
    }
}

/// The registry spelling of an identifier: upper case, between braces.
pub fn guid_to_string(g: &GUID) -> (r: String)
    ensures
        r@ == guid_text(g@),
{
    proof {
        reveal_strlit("{");
        reveal_strlit("-");
        reveal_strlit("}");
        assert("{"@ =~= seq!['{']);
        assert("-"@ =~= seq!['-']);
        assert("}"@ =~= seq!['}']);
        assert(g.Data4@.subrange(0, 2) =~= g.Data4@.take(2));
        assert(g.Data4@.subrange(2, 8) =~= g.Data4@.skip(2));
    }
    let mut out: String = "{".to_string();
    append_hex(&mut out, g.Data1, 8);
    out.append("-");
    append_hex(&mut out, g.Data2 as u32, 4);
    out.append("-");
    append_hex(&mut out, g.Data3 as u32, 4);
    out.append("-");
    append_bytes(&mut out, &g.Data4, 0, 2);
    out.append("-");
    append_bytes(&mut out, &g.Data4, 2, 8);
    out.append("}");
    assert(out@ =~= guid_text(g@));
    out
}

/// `16` to the power `n`.
spec fn pow16(n: nat) -> nat
    decreases n,
{
    if n == 0 {
        1
    } else {
        16 * pow16((n - 1) as nat)
    }
}

proof fn lemma_hex_char(d: nat)
    requires
        d < 16,
    ensures
        hex_digit(hex_char(d)) == Some(d),
{
}

proof fn lemma_hex_text(v: nat, digits: nat)
    requires
        v < pow16(digits),
    ensures
        hex_text(v, digits).len() == digits,
        all_hex(hex_text(v, digits)),
        hex_value(hex_text(v, digits)) == v,
    decreases digits,
{
    if digits > 0 {
        let shorter = hex_text(v / 16, (digits - 1) as nat);
        lemma_hex_text(v / 16, (digits - 1) as nat);
        lemma_hex_char(v % 16);
        assert(hex_text(v, digits).drop_last() =~= shorter);
    }
}

proof fn lemma_bytes_text(bytes: Seq<u8>, n: nat)
    requires
        n <= bytes.len(),
    ensures
        bytes_text(bytes, n).len() == 2 * n,
        all_hex(bytes_text(bytes, n)),
        forall|i: int|
            0 <= i < n ==> #[trigger] bytes_text(bytes, n).subrange(2 * i, 2 * i + 2) == hex_text(
                bytes[i] as nat,
                2,
            ),
    decreases n,
{
    reveal_with_fuel(pow16, 3);
    if n > 0 {
        let m = (n - 1) as nat;
        lemma_bytes_text(bytes, m);
        lemma_hex_text(bytes[m as int] as nat, 2);
        let t = bytes_text(bytes, n);
        let head = bytes_text(bytes, m);
        let last = hex_text(bytes[m as int] as nat, 2);
        assert(t == head + last);
        assert forall|i: int| 0 <= i < n implies #[trigger] t.subrange(2 * i, 2 * i + 2)
            == hex_text(bytes[i] as nat, 2) by {
            if i < m {
                assert(t.subrange(2 * i, 2 * i + 2) =~= head.subrange(2 * i, 2 * i + 2));
            } else {
                assert(t.subrange(2 * i, 2 * i + 2) =~= last);
            }
        }
        assert forall|i: int| 0 <= i < 2 * n implies hex_digit(#[trigger] t[i]) is Some by {
            if i < 2 * m {
                assert(t[i] == head[i]);
            } else {
                assert(t[i] == last[i - 2 * m]);
            }
        }
    }
}

proof fn lemma_first_dash(a: Seq<char>, rest: Seq<char>, from: int)
    requires
        all_hex(a),
        0 <= from <= a.len(),
    ensures
        first_at(a + seq!['-'] + rest, from, CharClass::Exactly('-'), true) == a.len(),
    decreases a.len() - from,
{
    let s = a + seq!['-'] + rest;
    if from < a.len() {
        assert(s[from] == a[from]);
        lemma_first_dash(a, rest, from + 1);
    } else {
        assert(s[from] == '-');
    }
}

proof fn lemma_split_step(a: Seq<char>, rest: Seq<char>, n: nat)
    requires
        all_hex(a),
        n >= 2,
    ensures
        split_at_most(a + seq!['-'] + rest, '-', n) == seq![a] + split_at_most(
            rest,
            '-',
            (n - 1) as nat,
        ),
{
    let s = a + seq!['-'] + rest;
    lemma_first_dash(a, rest, 0);
    assert(s.take(a.len() as int) =~= a);
    assert(s.skip(a.len() as int + 1) =~= rest);
}

proof fn lemma_hex_bound(s: Seq<char>)
    ensures
        hex_value(s) < pow16(s.len()),
    decreases s.len(),
{
    if s.len() > 0 {
        lemma_hex_bound(s.drop_last());
    }
}

proof fn lemma_hex_number(s: Seq<char>, max: nat)
    requires
        s.len() > 0,
        all_hex(s),
        pow16(s.len()) <= max + 1,
    ensures
        hex_number(s, max) == Some(hex_value(s)),
{
    lemma_hex_bound(s);
    assert(hex_digit(s[0]) is Some);
}

// ---------------------------------------------------------------------------
// Spellings
// ---------------------------------------------------------------------------

/// Whether a text is the spelling of an identifier without braces: groups of
/// eight, four, four, four and twelve hexadecimal digits, with dashes between
/// them.
pub open spec fn is_bare_spelling(s: Seq<char>) -> bool {
    &&& s.len() == 36
    &&& s[8] == '-'
    &&& s[13] == '-'
    &&& s[18] == '-'
    &&& s[23] == '-'
    &&& all_hex(s.subrange(0, 8))
    &&& all_hex(s.subrange(9, 13))
    &&& all_hex(s.subrange(14, 18))
    &&& all_hex(s.subrange(19, 23))
    &&& all_hex(s.subrange(24, 36))
}

/// A spelling between braces.
pub open spec fn braced(s: Seq<char>) -> Seq<char> {
    seq!['{'] + s + seq!['}']
}

/// The identifier that a spelling without braces stands for.
pub open spec fn spelled(s: Seq<char>) -> GuidValue {
    let tail = s.subrange(19, 23) + s.subrange(24, 36);
    GuidValue {
        data1: hex_value(s.subrange(0, 8)) as u32,
        data2: hex_value(s.subrange(9, 13)) as u16,
        data3: hex_value(s.subrange(14, 18)) as u16,
        data4: Seq::new(8, |i: int| hex_value(tail.subrange(2 * i, 2 * i + 2)) as u8),
    }
}

proof fn lemma_braces_go(bare: Seq<char>)
    requires
        is_bare_spelling(bare),
    ensures
        !is_white_space(bare[0]) && !is_white_space(bare.last()),
        trim_end(
            trim_start(bare, CharClass::Exactly('{')),
            CharClass::Exactly('}'),
        ) == bare,
        trim_end(
            trim_start(braced(bare), CharClass::Exactly('{')),
            CharClass::Exactly('}'),
        ) == bare,
{
    assert(bare[0] == bare.subrange(0, 8)[0] && bare[35] == bare.subrange(24, 36)[11]);
    assert(hex_digit(bare[0]) is Some && hex_digit(bare[35]) is Some);
    assert(trim_start(bare, CharClass::Exactly('{')) =~= bare);
    assert(trim_end(bare, CharClass::Exactly('}')) =~= bare);
    let t = braced(bare);
    let open = bare + seq!['}'];
    assert(trim_start(t, CharClass::Exactly('{')) =~= open) by {
        assert(t[0] == '{' && t[1] == bare[0]);
        reveal_with_fuel(first_at, 2);
    }
    assert(trim_end(open, CharClass::Exactly('}')) =~= bare) by {
        assert(open[36] == '}' && open[35] == bare[35]);
        reveal_with_fuel(end_before, 2);
    }
}

proof fn lemma_spelling_reads(text: Seq<char>, bare: Seq<char>)
    requires
        is_bare_spelling(bare),
        trim(text) == bare || trim(text) == braced(bare),
    ensures
        guid_value(text) == Some(spelled(bare)),
{
    reveal_with_fuel(pow16, 9);
    lemma_braces_go(bare);
    let h1 = bare.subrange(0, 8);
    let h2 = bare.subrange(9, 13);
    let h3 = bare.subrange(14, 18);
    let b1 = bare.subrange(19, 23);
    let b2 = bare.subrange(24, 36);
    let tail3 = b1 + seq!['-'] + b2;
    let tail2 = h3 + seq!['-'] + tail3;
    let tail1 = h2 + seq!['-'] + tail2;
    assert(bare =~= h1 + seq!['-'] + tail1);
    lemma_split_step(h1, tail1, 5);
    lemma_split_step(h2, tail2, 4);
    lemma_split_step(h3, tail3, 3);
    lemma_split_step(b1, b2, 2);
    assert(split_at_most(bare, '-', 5) =~= seq![h1, h2, h3, b1, b2]);
    lemma_hex_number(h1, 0xffff_ffff);
    lemma_hex_number(h2, 0xffff);
    lemma_hex_number(h3, 0xffff);
    let tail = b1 + b2;
    assert forall|i: int| 0 <= i < 8 implies #[trigger] hex_pair(tail, i) == Some(
        hex_value(tail.subrange(2 * i, 2 * i + 2)),
    ) by {
        let pair = tail.subrange(2 * i, 2 * i + 2);
        assert forall|j: int| 0 <= j < 2 implies hex_digit(#[trigger] pair[j]) is Some by {
            let k = 2 * i + j;
            if k < 4 {
                assert(pair[j] == b1[k]);
            } else {
                assert(pair[j] == b2[k - 4]);
            }
        }
        lemma_hex_number(pair, 0xff);
    }
    assert(guid_value(text)->0.data4 =~= spelled(bare).data4);
}

/// Every identifier reads back from its registry spelling.
pub proof fn guid_text_reads_back(g: GuidValue)
    requires
        g.data4.len() == 8,
    ensures
        guid_value(guid_text(g)) == Some(g),
{
    reveal_with_fuel(pow16, 9);
    let h1 = hex_text(g.data1 as nat, 8);
    let h2 = hex_text(g.data2 as nat, 4);
    let h3 = hex_text(g.data3 as nat, 4);
    let b1 = bytes_text(g.data4.take(2), 2);
    let b2 = bytes_text(g.data4.skip(2), 6);
    lemma_hex_text(g.data1 as nat, 8);
    lemma_hex_text(g.data2 as nat, 4);
    lemma_hex_text(g.data3 as nat, 4);
    lemma_bytes_text(g.data4.take(2), 2);
    lemma_bytes_text(g.data4.skip(2), 6);
    let dash = seq!['-'];
    let bare = h1 + dash + h2 + dash + h3 + dash + b1 + dash + b2;
    assert(bare.subrange(0, 8) =~= h1);
    assert(bare.subrange(9, 13) =~= h2);
    assert(bare.subrange(14, 18) =~= h3);
    assert(bare.subrange(19, 23) =~= b1);
    assert(bare.subrange(24, 36) =~= b2);
    let t = guid_text(g);
    assert(t =~= braced(bare));
    assert(trim(t) == t) by {
        assert(t =~= Seq::<char>::empty() + t + Seq::<char>::empty());
        white_space_around_goes(seq![], t, seq![]);
    }
    lemma_spelling_reads(t, bare);
    let tail = b1 + b2;
    assert forall|i: int| 0 <= i < 8 implies #[trigger] spelled(bare).data4[i] == g.data4[i] by {
        if i < 2 {
            assert(tail.subrange(2 * i, 2 * i + 2) =~= b1.subrange(2 * i, 2 * i + 2));
            assert(g.data4.take(2)[i] == g.data4[i]);
        } else {
            let k = i - 2;
            assert(tail.subrange(2 * i, 2 * i + 2) =~= b2.subrange(2 * k, 2 * k + 2));
            assert(g.data4.skip(2)[k] == g.data4[i]);
        }
        lemma_hex_text(g.data4[i] as nat, 2);
    }
    assert(spelled(bare) =~= g);
}

proof fn lemma_case_of_digit(a: char, b: char)
    requires
        ascii_lower(a) == ascii_lower(b),
    ensures
        hex_digit(a) == hex_digit(b),
        a == '-' ==> b == '-',
{
}

proof fn lemma_case_of_value(a: Seq<char>, b: Seq<char>)
    requires
        same_ignoring_ascii_case(a, b),
    ensures
        hex_value(a) == hex_value(b),
        all_hex(a) ==> all_hex(b),
    decreases a.len(),
{
    assert forall|i: int| 0 <= i < a.len() implies #[trigger] hex_digit(b[i]) == hex_digit(
        a[i],
    ) by {
        assert(ascii_lower(a[i]) == ascii_lower(b[i]));
        lemma_case_of_digit(a[i], b[i]);
    }
    if a.len() > 0 {
        let n = a.len() - 1;
        assert forall|i: int| 0 <= i < n implies #[trigger] ascii_lower(a.drop_last()[i])
            == ascii_lower(b.drop_last()[i]) by {
            assert(ascii_lower(a[i]) == ascii_lower(b[i]));
        }
        lemma_case_of_value(a.drop_last(), b.drop_last());
        assert(hex_digit(b[n]) == hex_digit(a[n]));
    }
}

proof fn lemma_case_of_part(a: Seq<char>, b: Seq<char>, from: int, to: int)
    requires
        same_ignoring_ascii_case(a, b),
        0 <= from <= to <= a.len(),
    ensures
        same_ignoring_ascii_case(a.subrange(from, to), b.subrange(from, to)),
{
    assert forall|i: int| 0 <= i < to - from implies #[trigger] ascii_lower(
        a.subrange(from, to)[i],
    ) == ascii_lower(b.subrange(from, to)[i]) by {
        assert(ascii_lower(a[from + i]) == ascii_lower(b[from + i]));
    }
}

proof fn lemma_case_of_spelling(a: Seq<char>, b: Seq<char>)
    requires
        is_bare_spelling(a),
        same_ignoring_ascii_case(a, b),
    ensures
        is_bare_spelling(b),
        spelled(b) == spelled(a),
{
    assert forall|i: int| 0 <= i < 36 && a[i] == '-' implies #[trigger] b[i] == '-' by {
        assert(ascii_lower(a[i]) == ascii_lower(b[i]));
        lemma_case_of_digit(a[i], b[i]);
    }
    lemma_case_of_part(a, b, 0, 8);
    lemma_case_of_part(a, b, 9, 13);
    lemma_case_of_part(a, b, 14, 18);
    lemma_case_of_part(a, b, 19, 23);
    lemma_case_of_part(a, b, 24, 36);
    lemma_case_of_value(a.subrange(0, 8), b.subrange(0, 8));
    lemma_case_of_value(a.subrange(9, 13), b.subrange(9, 13));
    lemma_case_of_value(a.subrange(14, 18), b.subrange(14, 18));
    lemma_case_of_value(a.subrange(19, 23), b.subrange(19, 23));
    lemma_case_of_value(a.subrange(24, 36), b.subrange(24, 36));
    let s = a.subrange(19, 23) + a.subrange(24, 36);
    let t = b.subrange(19, 23) + b.subrange(24, 36);
    assert forall|i: int| 0 <= i < 8 implies #[trigger] spelled(b).data4[i] == spelled(
        a,
    ).data4[i] by {
        let from = if i < 2 {
            19 + 2 * i
        } else {
            20 + 2 * i
        };
        assert(s.subrange(2 * i, 2 * i + 2) =~= a.subrange(from, from + 2));
        assert(t.subrange(2 * i, 2 * i + 2) =~= b.subrange(from, from + 2));
        lemma_case_of_part(a, b, from, from + 2);
        lemma_case_of_value(a.subrange(from, from + 2), b.subrange(from, from + 2));
    }
    assert(spelled(b) =~= spelled(a));
}

proof fn lemma_digits_print_back(s: Seq<char>)
    requires
        all_hex(s),
    ensures
        hex_text(hex_value(s), s.len()) == upper_case(s),
    decreases s.len(),
{
    if s.len() > 0 {
        let front = s.drop_last();
        let d = hex_digit(s.last())->0;
        assert(hex_digit(s[s.len() - 1]) is Some);
        lemma_digits_print_back(front);
        assert(hex_value(s) / 16 == hex_value(front) && hex_value(s) % 16 == d);
        assert(hex_char(d) == ascii_upper(s.last()));
        assert(upper_case(s) =~= upper_case(front).push(ascii_upper(s.last())));
    } else {
        assert(upper_case(s) =~= seq![]);
    }
}

proof fn lemma_bytes_print_back(group: Seq<char>, bytes: Seq<u8>, n: nat)
    requires
        all_hex(group),
        2 * n <= group.len(),
        n <= bytes.len(),
        forall|i: int|
            0 <= i < n ==> #[trigger] bytes[i] as nat == hex_value(
                group.subrange(2 * i, 2 * i + 2),
            ),
    ensures
        bytes_text(bytes, n) == upper_case(group.take(2 * n as int)),
    decreases n,
{
    if n > 0 {
        let m = (n - 1) as nat;
        let pair = group.subrange(2 * m as int, 2 * m as int + 2);
        lemma_bytes_print_back(group, bytes, m);
        lemma_digits_print_back(pair);
        assert(bytes[m as int] as nat == hex_value(pair));
        assert(upper_case(group.take(2 * n as int)) =~= upper_case(group.take(2 * m as int))
            + upper_case(pair));
    } else {
        assert(upper_case(group.take(0)) =~= seq![]);
    }
}

proof fn lemma_spelling_prints_back(bare: Seq<char>)
    requires
        is_bare_spelling(bare),
    ensures
        guid_text(spelled(bare)) == braced(upper_case(bare)),
{
    reveal_with_fuel(pow16, 9);
    let g = spelled(bare);
    let h1 = bare.subrange(0, 8);
    let h2 = bare.subrange(9, 13);
    let h3 = bare.subrange(14, 18);
    let b1 = bare.subrange(19, 23);
    let b2 = bare.subrange(24, 36);
    let tail = b1 + b2;
    lemma_hex_bound(h1);
    lemma_hex_bound(h2);
    lemma_hex_bound(h3);
    lemma_digits_print_back(h1);
    lemma_digits_print_back(h2);
    lemma_digits_print_back(h3);
    assert forall|i: int| 0 <= i < 2 implies #[trigger] g.data4.take(2)[i] as nat == hex_value(
        b1.subrange(2 * i, 2 * i + 2),
    ) by {
        assert(tail.subrange(2 * i, 2 * i + 2) =~= b1.subrange(2 * i, 2 * i + 2));
        lemma_hex_bound(b1.subrange(2 * i, 2 * i + 2));
    }
    assert forall|i: int| 0 <= i < 6 implies #[trigger] g.data4.skip(2)[i] as nat == hex_value(
        b2.subrange(2 * i, 2 * i + 2),
    ) by {
        let k = i + 2;
        assert(tail.subrange(2 * k, 2 * k + 2) =~= b2.subrange(2 * i, 2 * i + 2));
        lemma_hex_bound(b2.subrange(2 * i, 2 * i + 2));
    }
    lemma_bytes_print_back(b1, g.data4.take(2), 2);
    lemma_bytes_print_back(b2, g.data4.skip(2), 6);
    assert(b1.take(4) =~= b1);
    assert(b2.take(12) =~= b2);
    assert(guid_text(g) =~= braced(upper_case(bare)));
}

/// Every spelling of an identifier stands for one value: in either case, with or
/// without braces, and with white space around it. That value prints as the
/// spelling in upper case between braces.
pub proof fn spellings_agree(
    bare: Seq<char>,
    other: Seq<char>,
    before: Seq<char>,
    after: Seq<char>,
)
    requires
        is_bare_spelling(bare),
        same_ignoring_ascii_case(bare, other),
        all_white(before),
        all_white(after),
    ensures
        guid_value(bare) == Some(spelled(bare)),
        guid_value(before + other + after) == Some(spelled(bare)),
        guid_value(before + braced(other) + after) == Some(spelled(bare)),
        guid_text(spelled(bare)) == braced(upper_case(bare)),
{
    lemma_braces_go(bare);
    assert(bare =~= Seq::<char>::empty() + bare + Seq::<char>::empty());
    white_space_around_goes(seq![], bare, seq![]);
    lemma_spelling_reads(bare, bare);
    lemma_case_of_spelling(bare, other);
    lemma_braces_go(other);
    white_space_around_goes(before, other, after);
    lemma_spelling_reads(before + other + after, other);
    white_space_around_goes(before, braced(other), after);
    lemma_spelling_reads(before + braced(other) + after, other);
    lemma_spelling_prints_back(bare);
}

/// The sixteen digits have their values, in either case, and nothing else is a
/// digit. In print they are in upper case.
pub proof fn digits_have_their_values(d: int, c: char)
    requires
        0 <= d < 16,
    ensures
        hex_digit("0123456789abcdef"@[d]) == Some(d as nat),
        hex_digit("0123456789ABCDEF"@[d]) == Some(d as nat),
        hex_char(d as nat) == "0123456789ABCDEF"@[d],
        hex_digit(c) is Some ==> "0123456789abcdef"@.contains(c) || "0123456789ABCDEF"@.contains(c),
{
    reveal_strlit("0123456789abcdef");
    reveal_strlit("0123456789ABCDEF");
    let lower = "0123456789abcdef"@;
    let upper = "0123456789ABCDEF"@;
    if hex_digit(c) is Some {
        let v = hex_digit(c)->0 as int;
        assert(lower[v] == c || upper[v] == c);
    }
}

/// Digits are read from the most significant on, and a plus sign before them
/// makes no difference.
pub proof fn number_is_read_by_place(s: Seq<char>, c: char, max: nat)
    requires
        s.len() > 0,
        all_hex(s),
        hex_digit(c) is Some,
    ensures
        hex_number(s, max) == (if hex_value(s) <= max {
            Some(hex_value(s))
        } else {
            None
        }),
        hex_number(seq!['+'] + s, max) == hex_number(s, max),
        hex_value(s.push(c)) == 16 * hex_value(s) + hex_digit(c)->0,
        hex_value(seq![c]) == hex_digit(c)->0,
{
    let signed = seq!['+'] + s;
    assert(signed.skip(1) =~= s);
    assert(hex_digit(s[0]) is Some);
    assert(hex_digit('+') is None);
    assert(s.push(c).drop_last() =~= s);
    assert(seq![c].drop_last() =~= seq![]);
    reveal_with_fuel(hex_value, 2);
    if s.len() > 1 {
        assert(s[0] != '+');
    }
}

/// A text of five groups stands for the identifier whose first three numbers are
/// those of the first three groups and whose bytes are the pairs of the last two,
/// in order. The first three groups may be short; the last two may not.
pub proof fn groups_are_read_in_order(
    a: Seq<char>,
    b: Seq<char>,
    c: Seq<char>,
    d: Seq<char>,
    e: Seq<char>,
    text: &str,
    r: Option<GUID>,
)
    requires
        a.len() > 0 && all_hex(a) && hex_value(a) <= 0xffff_ffff,
        b.len() > 0 && all_hex(b) && hex_value(b) <= 0xffff,
        c.len() > 0 && all_hex(c) && hex_value(c) <= 0xffff,
        all_hex(d),
        e.len() > 0 && all_hex(e),
        text@ == a + seq!['-'] + (b + seq!['-'] + (c + seq!['-'] + (d + seq!['-'] + e))),
        call_ensures(parse_guid, (text,), r),
    ensures
        r is Some <==> d.len() == 4 && e.len() == 12,
        r matches Some(g) ==> {
            &&& g.Data1 == hex_value(a)
            &&& g.Data2 == hex_value(b)
            &&& g.Data3 == hex_value(c)
            &&& forall|i: int| 0 <= i < 2 ==> #[trigger] g.Data4@[i] == hex_value(
                seq![d[2 * i], d[2 * i + 1]],
            )
            &&& forall|i: int| 2 <= i < 8 ==> #[trigger] g.Data4@[i] == hex_value(
                seq![e[2 * (i - 2)], e[2 * (i - 2) + 1]],
            )
        },
{
    let t = text@;
    let de = d + seq!['-'] + e;
    let cde = c + seq!['-'] + de;
    let bcde = b + seq!['-'] + cde;
    assert(hex_digit(a[0]) is Some && hex_digit(e.last()) is Some);
    assert(t[0] == a[0] && t.last() == e.last());
    assert(!is_white_space(a[0]) && !is_white_space(e.last()));
    assert(t =~= Seq::<char>::empty() + t + Seq::<char>::empty());
    white_space_around_goes(seq![], t, seq![]);
    assert(trim_start(t, CharClass::Exactly('{')) =~= t);
    assert(trim_end(t, CharClass::Exactly('}')) =~= t);
    lemma_split_step(a, bcde, 5);
    lemma_split_step(b, cde, 4);
    lemma_split_step(c, de, 3);
    lemma_split_step(d, e, 2);
    assert(split_at_most(t, '-', 5) =~= seq![a, b, c, d, e]);
    number_is_read_by_place(a, 'a', 0xffff_ffff);
    number_is_read_by_place(b, 'a', 0xffff);
    number_is_read_by_place(c, 'a', 0xffff);
    if d.len() == 4 && e.len() == 12 {
        let tail = d + e;
        assert forall|i: int| 0 <= i < 8 implies #[trigger] hex_pair(tail, i) == Some(
            hex_value(tail.subrange(2 * i, 2 * i + 2)),
        ) by {
            let pair = tail.subrange(2 * i, 2 * i + 2);
            assert forall|j: int| 0 <= j < 2 implies hex_digit(#[trigger] pair[j]) is Some by {
                let k = 2 * i + j;
                if k < 4 {
                    assert(pair[j] == d[k]);
                } else {
                    assert(pair[j] == e[k - 4]);
                }
            }
            lemma_hex_bound(pair);
            reveal_with_fuel(pow16, 3);
            number_is_read_by_place(pair, 'a', 0xff);
        }
        let g = r->0;
        assert forall|i: int| 0 <= i < 2 implies #[trigger] g.Data4@[i] == hex_value(
            seq![d[2 * i], d[2 * i + 1]],
        ) by {
            assert(tail.subrange(2 * i, 2 * i + 2) =~= seq![d[2 * i], d[2 * i + 1]]);
            assert(g@.data4[i] == hex_pair(tail, i)->0 as u8);
            assert(hex_pair(tail, i)->0 <= 0xff);
        }
        assert forall|i: int| 2 <= i < 8 implies #[trigger] g.Data4@[i] == hex_value(
            seq![e[2 * (i - 2)], e[2 * (i - 2) + 1]],
        ) by {
            assert(tail.subrange(2 * i, 2 * i + 2) =~= seq![
                e[2 * (i - 2)],
                e[2 * (i - 2) + 1],
            ]);
            assert(g@.data4[i] == hex_pair(tail, i)->0 as u8);
            assert(hex_pair(tail, i)->0 <= 0xff);
        }
    }
}

/// Printing and reading undo each other, up to case: a printed identifier reads
/// as itself.
pub proof fn printed_identifier_is_read(g: &GUID, text: String, line: &str, r: Option<GUID>)
    requires
        call_ensures(guid_to_string, (g,), text),
        line@ == text@,
        call_ensures(parse_guid, (line,), r),
    ensures
        r is Some,
        r->0.Data1 == g.Data1,
        r->0.Data2 == g.Data2,
        r->0.Data3 == g.Data3,
        r->0.Data4@ == g.Data4@,
        text@.len() == 38,
        text@[0] == '{' && text@[37] == '}',
{
    guid_text_reads_back(g@);
    assert(r->0@ == g@);
    lemma_text_len(g@);
}

proof fn lemma_hex_text_len(v: nat, digits: nat)
    ensures
        hex_text(v, digits).len() == digits,
    decreases digits,
{
    if digits > 0 {
        lemma_hex_text_len(v / 16, (digits - 1) as nat);
    }
}

proof fn lemma_text_len(g: GuidValue)
    requires
        g.data4.len() == 8,
    ensures
        guid_text(g).len() == 38,
        guid_text(g)[0] == '{',
        guid_text(g)[37] == '}',
{
    lemma_hex_text_len(g.data1 as nat, 8);
    lemma_hex_text_len(g.data2 as nat, 4);
    lemma_hex_text_len(g.data3 as nat, 4);
    lemma_bytes_text_len(g.data4.take(2), 2);
    lemma_bytes_text_len(g.data4.skip(2), 6);
}

proof fn lemma_bytes_text_len(bytes: Seq<u8>, n: nat)
    ensures
        bytes_text(bytes, n).len() == 2 * n,
    decreases n,
{
    if n > 0 {
        lemma_bytes_text_len(bytes, (n - 1) as nat);
        lemma_hex_text_len(bytes[n - 1] as nat, 2);
    }
}

/// Every character of a text that is cut is the separator or in one of the
/// pieces.
proof fn lemma_split_covers(s: Seq<char>, sep: char, n: nat, i: int)
    requires
        0 <= i < s.len(),
        n >= 1,
    ensures
        s[i] == sep || exists|k: int|
            0 <= k < split_at_most(s, sep, n).len() && #[trigger] split_at_most(
                s,
                sep,
                n,
            )[k].contains(s[i]),
    decreases n,
{
    let at = first_at(s, 0, CharClass::Exactly(sep), true);
    let parts = split_at_most(s, sep, n);
    lemma_scan(s, 0, CharClass::Exactly(sep), true);
    if n <= 1 || at >= s.len() {
        assert(parts[0] == s);
        assert(parts[0].contains(s[i]));
    } else if i < at {
        assert(parts[0] == s.take(at));
        assert(s.take(at)[i] == s[i]);
        assert(parts[0].contains(s[i]));
    } else if i > at {
        let rest = s.skip(at + 1);
        let more = split_at_most(rest, sep, (n - 1) as nat);
        assert(rest[i - at - 1] == s[i]);
        lemma_split_covers(rest, sep, (n - 1) as nat, i - at - 1);
        if s[i] != sep {
            let k = choose|k: int| 0 <= k < more.len() && #[trigger] more[k].contains(s[i]);
            assert(parts[k + 1] == more[k]);
            assert(parts[k + 1].contains(s[i]));
        }
    }
}

proof fn lemma_number_chars(s: Seq<char>, max: nat, c: char)
    requires
        hex_number(s, max) is Some,
        s.contains(c),
    ensures
        c == '+' || hex_digit(c) is Some,
{
    let i = s.index_of(c);
    if s.len() > 1 && s[0] == '+' {
        if i > 0 {
            assert(s.skip(1)[i - 1] == c);
        }
    }
}

/// Whether a character may stand in the spelling of an identifier.
pub open spec fn may_spell(c: char) -> bool {
    c == '{' || c == '}' || c == '-' || c == '+' || is_white_space(c) || hex_digit(c) is Some
}

proof fn lemma_bare_chars(bare: Seq<char>, i: int)
    requires
        0 <= i < bare.len(),
        ({
            let parts = split_at_most(bare, '-', 5);
            &&& parts.len() == 5 && parts[3].len() == 4 && parts[4].len() == 12
            &&& hex_number(parts[0], 0xffff_ffff) is Some
            &&& hex_number(parts[1], 0xffff) is Some
            &&& hex_number(parts[2], 0xffff) is Some
            &&& forall|i: int| 0 <= i < 8 ==> #[trigger] hex_pair(parts[3] + parts[4], i) is Some
        }),
    ensures
        may_spell(bare[i]),
{
    let parts = split_at_most(bare, '-', 5);
    let c = bare[i];
    lemma_split_covers(bare, '-', 5, i);
    if c != '-' {
        let k = choose|k: int| 0 <= k < parts.len() && #[trigger] parts[k].contains(c);
        if k == 0 {
            lemma_number_chars(parts[0], 0xffff_ffff, c);
        } else if k < 3 {
            lemma_number_chars(parts[k], 0xffff, c);
        } else {
            let tail = parts[3] + parts[4];
            let at = parts[k].index_of(c);
            let j = if k == 3 {
                at
            } else {
                at + 4
            };
            assert(tail[j] == c);
            let pair = tail.subrange(2 * (j / 2), 2 * (j / 2) + 2);
            assert(pair[j % 2] == c);
            assert(pair.contains(c));
            assert(hex_pair(tail, j / 2) is Some);
            lemma_number_chars(pair, 0xff, c);
        }
    }
}

/// A text is read as an identifier only if it consists of white space, braces,
/// dashes, plus signs and hexadecimal digits, with four dashes at least.
pub proof fn nothing_else_is_read(text: &str, r: Option<GUID>)
    requires
        call_ensures(parse_guid, (text,), r),
        r is Some,
    ensures
        forall|i: int| 0 <= i < text@.len() ==> may_spell(#[trigger] text@[i]),
        exists|i: int, j: int, k: int, l: int|
            0 <= i < j < k < l < text@.len() && #[trigger] text@[i] == '-' && #[trigger] text@[j]
                == '-' && #[trigger] text@[k] == '-' && #[trigger] text@[l] == '-',
{
    let s = text@;
    let white = CharClass::WhiteSpace;
    let a = first_at(s, 0, white, false);
    let t1 = s.skip(a);
    lemma_scan(s, 0, white, false);
    let b = end_before(t1, t1.len() as int, white);
    let t2 = t1.take(b);
    lemma_scan_back(t1, t1.len() as int, white);
    let c = first_at(t2, 0, CharClass::Exactly('{'), false);
    let t3 = t2.skip(c);
    lemma_scan(t2, 0, CharClass::Exactly('{'), false);
    let d = end_before(t3, t3.len() as int, CharClass::Exactly('}'));
    let bare = t3.take(d);
    lemma_scan_back(t3, t3.len() as int, CharClass::Exactly('}'));
    assert forall|i: int| 0 <= i < s.len() implies may_spell(#[trigger] s[i]) by {
        if i < a {
            assert(in_class(white, s[i]));
        } else if i >= a + b {
            assert(t1[i - a] == s[i]);
        } else if i < a + c {
            assert(t2[i - a] == s[i]);
        } else if i >= a + c + d {
            assert(t3[i - a - c] == s[i]);
        } else {
            assert(bare[i - a - c] == s[i]);
            lemma_bare_chars(bare, i - a - c);
        }
    }
    let dash = CharClass::Exactly('-');
    reveal_with_fuel(split_at_most, 5);
    let p = first_at(bare, 0, dash, true);
    lemma_scan(bare, 0, dash, true);
    let s1 = bare.skip(p + 1);
    let q = first_at(s1, 0, dash, true);
    lemma_scan(s1, 0, dash, true);
    let s2 = s1.skip(q + 1);
    let u = first_at(s2, 0, dash, true);
    lemma_scan(s2, 0, dash, true);
    let s3 = s2.skip(u + 1);
    let v = first_at(s3, 0, dash, true);
    lemma_scan(s3, 0, dash, true);
    let o = a + c;
    assert(s[o + p] == bare[p]);
    assert(s[o + p + 1 + q] == s1[q]);
    assert(s[o + p + 1 + q + 1 + u] == s2[u]);
    assert(s[o + p + 1 + q + 1 + u + 1 + v] == s3[v]);
}

} // verus!
