//! The startup information that Windows passes along with a console session,
//! as it arrives (`TerminalStartupInfo`) and as the terminal keeps it
//! (`TerminalStartupInfoOwned`).

use crate::model::Model;
use vstd::prelude::*;

verus! {

/// `TERMINAL_STARTUP_INFO`: the subset of Windows' `STARTUPINFO` that
/// `ITerminalHandoff3::EstablishPtyHandoff` carries.
///
/// The two strings are BSTRs, COM's length-prefixed UTF-16 strings. They are
/// held here as their code units; `None` stands for a null pointer.
#[derive(Clone, Debug)]
pub struct TerminalStartupInfo {
    pub pszTitle: Option<Vec<u16>>,
    pub pszIconPath: Option<Vec<u16>>,
    pub iconIndex: i32,
    pub dwX: u32,
    pub dwY: u32,
    pub dwXSize: u32,
    pub dwYSize: u32,
    pub dwXCountChars: u32,
    pub dwYCountChars: u32,
    pub dwFillAttribute: u32,
    pub dwFlags: u32,
    pub wShowWindow: u16,
}

impl Default for TerminalStartupInfo {
    fn default() -> (r: Self)
        ensures
            r == (TerminalStartupInfo {
                pszTitle: None,
                pszIconPath: None,
                iconIndex: 0,
                dwX: 0,
                dwY: 0,
                dwXSize: 0,
                dwYSize: 0,
                dwXCountChars: 0,
                dwYCountChars: 0,
                dwFillAttribute: 0,
                dwFlags: 0,
                wShowWindow: 0,
            }),
    {
        TerminalStartupInfo {
            pszTitle: None,
            pszIconPath: None,
            iconIndex: 0,
            dwX: 0,
            dwY: 0,
            dwXSize: 0,
            dwYSize: 0,
            dwXCountChars: 0,
            dwYCountChars: 0,
            dwFillAttribute: 0,
            dwFlags: 0,
            wShowWindow: 0,
        }
    }
}

/// The terminal's own copy of the startup information. `width` and `height`
/// count character cells; 0 means that Windows left them unspecified.
#[derive(Clone, Debug)]
pub struct TerminalStartupInfoOwned<S> {
    pub title: Option<S>,
    pub show_window: u16,
    pub width: u16,
    pub height: u16,
    pub dw_flags: u32,
    pub position_x: u32,
    pub position_y: u32,
}

impl<S: Model> Model for TerminalStartupInfoOwned<S> {
    type M = TerminalStartupInfoOwned<S::M>;

    open spec fn model(&self) -> TerminalStartupInfoOwned<S::M> {
        TerminalStartupInfoOwned {
            title: self.title.model(),
            show_window: self.show_window,
            width: self.width,
            height: self.height,
            dw_flags: self.dw_flags,
            position_x: self.position_x,
            position_y: self.position_y,
        }
    }
}

/// The startup information as a specification sees it.
pub type Startup = TerminalStartupInfoOwned<Seq<char>>;

/// No startup information.
pub open spec fn no_startup() -> Startup {
    TerminalStartupInfoOwned {
        title: None,
        show_window: 0,
        width: 0,
        height: 0,
        dw_flags: 0,
        position_x: 0,
        position_y: 0,
    }
}

impl Default for TerminalStartupInfoOwned<String> {
    fn default() -> (r: Self)
        ensures
            r.model() == no_startup(),
    {
        TerminalStartupInfoOwned {
            title: None,
            show_window: 0,
            width: 0,
            height: 0,
            dw_flags: 0,
            position_x: 0,
            position_y: 0,
        }
    }
}

/// A leading (high) surrogate.
pub open spec fn is_leading(u: u16) -> bool {
    0xd800 <= u <= 0xdbff
}

/// A trailing (low) surrogate.
pub open spec fn is_trailing(u: u16) -> bool {
    0xdc00 <= u <= 0xdfff
}

/// The character that a surrogate pair stands for.
pub open spec fn paired(lead: u16, trail: u16) -> char {
    (0x10000 + (lead - 0xd800) * 0x400 + (trail - 0xdc00)) as char
}

/// The text of UTF-16 code units. A surrogate without its partner becomes
/// U+FFFD.
pub open spec fn utf16_text(units: Seq<u16>) -> Seq<char>
    decreases units.len(),
{
    if units.len() == 0 {
        seq![]
    } else if is_leading(units[0]) && units.len() > 1 && is_trailing(units[1]) {
        seq![paired(units[0], units[1])] + utf16_text(units.skip(2))
    } else if is_leading(units[0]) || is_trailing(units[0]) {
        seq!['\u{fffd}'] + utf16_text(units.skip(1))
    } else {
        seq![units[0] as char] + utf16_text(units.skip(1))
    }
}

/// The UTF-16 code units of one character.
pub open spec fn char_units(c: char) -> Seq<u16> {
    let u = c as u32;
    if u < 0x10000 {
        seq![u as u16]
    } else {
        seq![
            (0xd800 + (u - 0x10000) / 0x400) as u16,
            (0xdc00 + (u - 0x10000) % 0x400) as u16,
        ]
    }
}

/// The UTF-16 code units of a text.
pub open spec fn text_units(s: Seq<char>) -> Seq<u16>
    decreases s.len(),
{
    if s.len() == 0 {
        seq![]
    } else {
        char_units(s[0]) + text_units(s.skip(1))
    }
}

/// The text of a BSTR; a null pointer is the empty text.
pub open spec fn bstr_text(bstr: Option<Vec<u16>>) -> Seq<char> {
    match bstr {
        None => seq![],
        Some(units) => utf16_text(units@),
    }
}

/// A cell count as 16 bits; a count that does not fit is unspecified.
pub open spec fn cell_count(count: u32) -> u16 {
    if count <= 0xffff {
        count as u16
    } else {
        0
    }
}

/// Calls `String::from_utf16_lossy`, which decodes UTF-16 and puts U+FFFD in
/// place of each unpaired surrogate.
#[verifier::external_body]
fn from_utf16_lossy(units: &Vec<u16>) -> (r: String)
    ensures
        r@ == utf16_text(units@),
{
    String::from_utf16_lossy(units)
}

/// Copy a BSTR into an owned string, empty if it is null. Unpaired surrogates
/// become U+FFFD rather than dropping the text.
pub fn bstr_to_string(bstr: &Option<Vec<u16>>) -> (r: String)
    ensures
        r@ == bstr_text(*bstr),
{
    match bstr {
        None => String::new(),
        Some(units) => from_utf16_lossy(units),
    }
}

/// The startup information that is kept. The title is there even if Windows
/// passes none: then it is empty.
pub open spec fn owned_startup(s: TerminalStartupInfo) -> Startup {
    TerminalStartupInfoOwned {
        title: Some(bstr_text(s.pszTitle)),
        show_window: s.wShowWindow,
        width: cell_count(s.dwXCountChars),
        height: cell_count(s.dwYCountChars),
        dw_flags: s.dwFlags,
        position_x: s.dwX,
        position_y: s.dwY,
    }
}

fn cells(count: u32) -> (r: u16)
    ensures
        r == cell_count(count),
{
    if count <= 0xffff {
        count as u16
    } else {
        0
    }
}

/// Copy the startup information. The size comes from the cell counts, not from
/// the pixel sizes; the icon and the fill attribute are dropped.
pub fn startup_info_to_owned(s: &TerminalStartupInfo) -> (r: TerminalStartupInfoOwned<String>)
    ensures
        r.model() == owned_startup(*s),
{
    TerminalStartupInfoOwned {
        title: Some(bstr_to_string(&s.pszTitle)),
        show_window: s.wShowWindow,
        width: cells(s.dwXCountChars),
        height: cells(s.dwYCountChars),
        dw_flags: s.dwFlags,
        position_x: s.dwX,
        position_y: s.dwY,
    }
}

/// Every text survives the way through a BSTR.
pub proof fn bstr_round_trip(s: Seq<char>)
    ensures
        utf16_text(text_units(s)) == s,
    decreases s.len(),
{
    if s.len() > 0 {
        let units = text_units(s);
        let first = char_units(s[0]);
        let rest = text_units(s.skip(1));
        bstr_round_trip(s.skip(1));
        assert(units.skip(first.len() as int) =~= rest);
        let c = s[0];
        let u = c as u32;
        vstd::utf8::char_is_scalar(c);
        if u < 0x10000 {
            assert(units[0] == u);
            assert(!is_leading(units[0]) && !is_trailing(units[0]));
            vstd::utf8::char_u32_cast(c, u);
            assert(units[0] as char == c);
        } else {
            assert(units[0] == first[0]);
            assert(units[1] == first[1]);
            vstd::utf8::char_u32_cast(c, u);
            assert(0x10000 + (units[0] - 0xd800) * 0x400 + (units[1] - 0xdc00) == u);
            assert(paired(units[0], units[1]) == c);
        }
        assert(utf16_text(units) =~= s);
    }
}

/// The copy of the startup information has the fields of the original: flags,
/// show hint and position as they are, cell counts as long as 16 bits hold them,
/// and a title, which is empty if Windows passes none.
pub proof fn copy_keeps_fields(s: &TerminalStartupInfo, r: TerminalStartupInfoOwned<String>)
    requires
        call_ensures(startup_info_to_owned, (s,), r),
    ensures
        r.dw_flags == s.dwFlags,
        r.show_window == s.wShowWindow,
        r.position_x == s.dwX,
        r.position_y == s.dwY,
        s.dwXCountChars <= 0xffff ==> r.width == s.dwXCountChars,
        s.dwXCountChars > 0xffff ==> r.width == 0,
        s.dwYCountChars <= 0xffff ==> r.height == s.dwYCountChars,
        s.dwYCountChars > 0xffff ==> r.height == 0,
        r.title is Some,
        s.pszTitle is None ==> r.title->0@.len() == 0,
        s.pszTitle matches Some(units) ==> r.title->0@ == utf16_text(units@),
        forall|t: Seq<char>|
            s.pszTitle is Some && s.pszTitle->0@ == #[trigger] text_units(t) ==> r.title->0@ == t,
{
    assert(r.model().title == r.title.model());
    assert(r.title.model()->0 == r.title->0@);
    assert forall|t: Seq<char>|
        s.pszTitle is Some && s.pszTitle->0@ == #[trigger] text_units(t) implies r.title->0@
        == t by {
        bstr_round_trip(t);
    }
}

/// Empty startup information has no title, no flags and no sizes, and its copy
/// is that of no startup information but for the title.
pub proof fn empty_startup_asks_for_nothing(
    s: TerminalStartupInfo,
    r: TerminalStartupInfoOwned<String>,
    none: TerminalStartupInfoOwned<String>,
)
    requires
        call_ensures(<TerminalStartupInfo as Default>::default, (), s),
        call_ensures(startup_info_to_owned, (&s,), r),
        call_ensures(<TerminalStartupInfoOwned<String> as Default>::default, (), none),
    ensures
        r.title is Some && r.title->0@.len() == 0,
        none.title is None,
        r.dw_flags == 0 && none.dw_flags == 0,
        r.show_window == 0 && none.show_window == 0,
        r.width == 0 && none.width == 0,
        r.height == 0 && none.height == 0,
        r.position_x == 0 && none.position_x == 0,
        r.position_y == 0 && none.position_y == 0,
{
    copy_keeps_fields(&s, r);
}

/// Two texts in UTF-16 read one after the other, unless the seam is inside a
/// surrogate pair.
pub proof fn lemma_utf16_concat(a: Seq<u16>, b: Seq<u16>)
    requires
        a.len() > 0 && b.len() > 0 ==> !(is_leading(a.last()) && is_trailing(b[0])),
    ensures
        utf16_text(a + b) == utf16_text(a) + utf16_text(b),
    decreases a.len(),
{
    let s = a + b;
    if a.len() == 0 {
        assert(s =~= b);
        assert(utf16_text(a) + utf16_text(b) =~= utf16_text(b));
    } else {
        let n: int = if is_leading(a[0]) && a.len() > 1 && is_trailing(a[1]) {
            2
        } else {
            1
        };
        assert(s.skip(n) =~= a.skip(n) + b);
        lemma_utf16_concat(a.skip(n), b);
        assert(s[0] == a[0]);
        if a.len() > 1 {
            assert(s[1] == a[1]);
        } else if b.len() > 0 {
            assert(s[1] == b[0]);
            assert(a.last() == a[0]);
        }
        assert(utf16_text(s) =~= utf16_text(a) + utf16_text(b));
    }
}

/// The code units of a text neither begin in the middle of a surrogate pair nor
/// end there.
pub proof fn lemma_text_units_whole(s: Seq<char>)
    ensures
        text_units(s).len() > 0 ==> !is_trailing(text_units(s)[0]) && !is_leading(
            text_units(s).last(),
        ),
    decreases s.len(),
{
    if s.len() > 0 {
        let rest = text_units(s.skip(1));
        lemma_text_units_whole(s.skip(1));
        vstd::utf8::char_is_scalar(s[0]);
        let first = char_units(s[0]);
        assert(text_units(s)[0] == first[0]);
        if rest.len() == 0 {
            assert(text_units(s).last() == first.last());
        } else {
            assert(text_units(s).last() == rest.last());
        }
    }
}

/// A surrogate without its partner becomes U+FFFD, and the text on both sides of
/// it stays.
pub proof fn lone_surrogate_is_replaced(before: Seq<char>, unit: u16, after: Seq<char>)
    requires
        0xd800 <= unit <= 0xdfff,
    ensures
        utf16_text(text_units(before) + seq![unit] + text_units(after)) == before + seq![
            '\u{fffd}',
        ] + after,
{
    let a = text_units(before);
    let b = text_units(after);
    lemma_text_units_whole(before);
    lemma_text_units_whole(after);
    bstr_round_trip(before);
    bstr_round_trip(after);
    let u = seq![unit];
    assert(u.skip(1) =~= seq![]);
    assert(utf16_text(u.skip(1)) =~= seq![]);
    assert(utf16_text(u) =~= seq!['\u{fffd}']);
    lemma_utf16_concat(a, u);
    lemma_utf16_concat(a + u, b);
}

} // verus!
