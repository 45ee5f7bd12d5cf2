//! Text primitives: character scans, trimming, ASCII case folding, and the
//! command-line convention of `LocalServer32` values.
//!
//! Specifications speak of a string as its sequence of characters.

use vstd::prelude::*;

verus! {

/// A set of characters that a scan looks for.
#[derive(Clone, Copy)]
pub enum CharClass {
    /// The Unicode `White_Space` property.
    WhiteSpace,
    /// One single character.
    Exactly(char),
}

/// The Unicode `White_Space` property.
pub open spec fn is_white_space(c: char) -> bool {
    let u = c as u32;
    ||| 0x09 <= u <= 0x0d
    ||| u == 0x20
    ||| u == 0x85
    ||| u == 0xa0
    ||| u == 0x1680
    ||| 0x2000 <= u <= 0x200a
    ||| 0x2028 <= u <= 0x2029
    ||| u == 0x202f
    ||| u == 0x205f
    ||| u == 0x3000
}

/// Whether `c` belongs to `class`.
pub open spec fn in_class(class: CharClass, c: char) -> bool {
    match class {
        CharClass::WhiteSpace => is_white_space(c),
        CharClass::Exactly(x) => c == x,
    }
}

/// The first index at or after `from` whose character's membership in `class`
/// equals `want`; the length of `s` if there is none.
pub open spec fn first_at(s: Seq<char>, from: int, class: CharClass, want: bool) -> int
    decreases s.len() - from,
{
    if from < 0 || from >= s.len() {
        s.len() as int
    } else if in_class(class, s[from]) == want {
        from
    } else {
        first_at(s, from + 1, class, want)
    }
}

/// The shortest prefix length at or below `to` such that every character
/// between it and `to` belongs to `class`.
pub open spec fn end_before(s: Seq<char>, to: int, class: CharClass) -> int
    decreases to,
{
    if to <= 0 || to > s.len() {
        0
    } else if in_class(class, s[to - 1]) {
        end_before(s, to - 1, class)
    } else {
        to
    }
}

/// `s` without the leading characters of `class`.
pub open spec fn trim_start(s: Seq<char>, class: CharClass) -> Seq<char> {
    s.skip(first_at(s, 0, class, false))
}

/// `s` without the trailing characters of `class`.
pub open spec fn trim_end(s: Seq<char>, class: CharClass) -> Seq<char> {
    s.take(end_before(s, s.len() as int, class))
}

/// `s` without white space at either end.
pub open spec fn trim(s: Seq<char>) -> Seq<char> {
    trim_end(trim_start(s, CharClass::WhiteSpace), CharClass::WhiteSpace)
}

/// A character's code with `A`-`Z` mapped to `a`-`z`.
pub open spec fn ascii_lower(c: char) -> u32 {
    if 'A' <= c <= 'Z' {
        (c as u32 + 32) as u32
    } else {
        c as u32
    }
}

/// The upper-case form of an ASCII letter; any other character itself.
pub open spec fn ascii_upper(c: char) -> char {
    if 'a' <= c <= 'z' {
        (c as u32 - 32) as char
    } else {
        c
    }
}

/// `s` in upper case.
pub open spec fn upper_case(s: Seq<char>) -> Seq<char> {
    s.map_values(|c: char| ascii_upper(c))
}

/// Whether every character is white space.
pub open spec fn all_white(s: Seq<char>) -> bool {
    forall|i: int| 0 <= i < s.len() ==> is_white_space(#[trigger] s[i])
}

/// Equality of two strings up to the case of ASCII letters.
pub open spec fn same_ignoring_ascii_case(a: Seq<char>, b: Seq<char>) -> bool {
    &&& a.len() == b.len()
    &&& forall|i: int| 0 <= i < a.len() ==> #[trigger] ascii_lower(a[i]) == ascii_lower(b[i])
}

/// `path` between double quotes, as `LocalServer32` values hold it.
pub open spec fn quoted(path: Seq<char>) -> Seq<char> {
    seq!['"'] + path + seq!['"']
}

/// The executable named by a `LocalServer32` value: what stands between the
/// double quotes if the trimmed value starts with a quoted token, else
/// everything up to the first white space.
pub open spec fn exe_token(value: Seq<char>) -> Seq<char> {
    let t = trim(value);
    let close = first_at(t, 1, CharClass::Exactly('"'), true);
    if t.len() > 0 && t[0] == '"' && close < t.len() {
        t.subrange(1, close)
    } else {
        t.take(first_at(t, 0, CharClass::WhiteSpace, true))
    }
}

/// Whether `c` has the Unicode `White_Space` property.
pub fn is_whitespace(c: char) -> (r: bool)
    ensures
        r == is_white_space(c),
{
    let u: u32 = c as u32;
    (0x09 <= u && u <= 0x0d) || u == 0x20 || u == 0x85 || u == 0xa0 || u == 0x1680 || (0x2000 <= u
        && u <= 0x200a) || (0x2028 <= u && u <= 0x2029) || u == 0x202f || u == 0x205f || u == 0x3000
}

fn class_contains(class: CharClass, c: char) -> (r: bool)
    ensures
        r == in_class(class, c),
{
    match class {
        CharClass::WhiteSpace => is_whitespace(c),
        CharClass::Exactly(x) => c == x,
    }
}

/// The index of the first character at or after `from` that is in `class`
/// (`want`) or outside it (`!want`); the length of `s` if there is none.
pub fn scan(s: &str, from: usize, class: CharClass, want: bool) -> (r: usize)
    requires
        from <= s@.len(),
    ensures
        r == first_at(s@, from as int, class, want),
        from <= r <= s@.len(),
{
    let len: usize = s.unicode_len();
    let mut i: usize = from;
    while i < len
        invariant
            from <= i <= len,
            len == s@.len(),
            first_at(s@, from as int, class, want) == first_at(s@, i as int, class, want),
        decreases len - i,
    {
        if class_contains(class, s.get_char(i)) == want {
            return i;
        }
        i = i + 1;
    }
    len
}

/// The end of what is left of `s` when the trailing characters of `class` go.
fn scan_back(s: &str, class: CharClass) -> (r: usize)
    ensures
        r == end_before(s@, s@.len() as int, class),
        r <= s@.len(),
{
    let len: usize = s.unicode_len();
    let mut i: usize = len;
    while i > 0
        invariant
            0 <= i <= len,
            len == s@.len(),
            end_before(s@, len as int, class) == end_before(s@, i as int, class),
        decreases i,
    {
        if !class_contains(class, s.get_char(i - 1)) {
            return i;
        }
        i = i - 1;
    }
    0
}

/// `s` without the leading characters of `class`.
pub fn without_leading<'a>(s: &'a str, class: CharClass) -> (r: &'a str)
    ensures
        r@ == trim_start(s@, class),
{
    let start: usize = scan(s, 0, class, false);
    s.substring_char(start, s.unicode_len())
}

/// `s` without the trailing characters of `class`.
pub fn without_trailing<'a>(s: &'a str, class: CharClass) -> (r: &'a str)
    ensures
        r@ == trim_end(s@, class),
{
    let end: usize = scan_back(s, class);
    s.substring_char(0, end)
}

/// `s` without white space at either end.
pub fn trimmed<'a>(s: &'a str) -> (r: &'a str)
    ensures
        r@ == trim(s@),
{
    without_trailing(without_leading(s, CharClass::WhiteSpace), CharClass::WhiteSpace)
}

/// A number in decimal digits.
pub open spec fn decimal_text(n: nat) -> Seq<char>
    decreases n,
{
    let digit = "0123456789"@[(n % 10) as int];
    if n < 10 {
        seq![digit]
    } else {
        decimal_text(n / 10).push(digit)
    }
}

/// Write a number in decimal digits.
pub fn decimal(n: u32) -> (r: String)
    ensures
        r@ == decimal_text(n as nat),
    decreases n,
{
    proof {
        reveal_strlit("0123456789");
    }
    let last: usize = (n % 10) as usize;
    let mut out: String = if n < 10 {
        String::new()
    } else {
        decimal(n / 10)
    };
    out.append("0123456789".substring_char(last, last + 1));
    assert(out@ =~= decimal_text(n as nat));
    out
}

/// Whether `s` starts with `prefix`.
pub fn starts_with(s: &str, prefix: &str) -> (r: bool)
    ensures
        r == prefix@.is_prefix_of(s@),
{
    let len: usize = prefix.unicode_len();
    if len > s.unicode_len() {
        return false;
    }
    let mut i: usize = 0;
    while i < len
        invariant
            0 <= i <= len <= s@.len(),
            len == prefix@.len(),
            forall|j: int| 0 <= j < i ==> s@[j] == prefix@[j],
        decreases len - i,
    {
        if s.get_char(i) != prefix.get_char(i) {
            assert(s@.subrange(0, len as int)[i as int] != prefix@[i as int]);
            return false;
        }
        i = i + 1;
    }
    assert(prefix@ =~= s@.subrange(0, len as int));
    true
}

fn lower_code(c: char) -> (r: u32)
    ensures
        r == ascii_lower(c),
{
    let u: u32 = c as u32;
    if 'A' <= c && c <= 'Z' {
        u + 32
    } else {
        u
    }
}

/// Whether two strings are equal up to the case of ASCII letters.
pub fn eq_ignore_ascii_case(a: &str, b: &str) -> (r: bool)
    ensures
        r == same_ignoring_ascii_case(a@, b@),
{
    let len: usize = a.unicode_len();
    if len != b.unicode_len() {
        return false;
    }
    let mut i: usize = 0;
    while i < len
        invariant
            0 <= i <= len,
            len == a@.len(),
            len == b@.len(),
            forall|j: int| 0 <= j < i ==> #[trigger] ascii_lower(a@[j]) == ascii_lower(b@[j]),
        decreases len - i,
    {
        if lower_code(a.get_char(i)) != lower_code(b.get_char(i)) {
            assert(ascii_lower(a@[i as int]) != ascii_lower(b@[i as int]));
            return false;
        }
        i = i + 1;
    }
    true
}

/// `path` between double quotes.
pub fn quote(path: &str) -> (r: String)
    ensures
        r@ == quoted(path@),
{
    let r: String = "\"".to_string().concat(path).concat("\"");
    proof {
        reveal_strlit("\"");
        assert("\""@ =~= seq!['"']);
    }
    r
}

/// Extract the executable from a `LocalServer32` value:
/// `"C:\path\with spaces.exe" --args`, `C:\path\no-spaces.exe`, or
/// `C:\path\no-spaces.exe --args`.
pub fn extract_exe_token<'a>(value: &'a str) -> (r: &'a str)
    ensures
        r@ == exe_token(value@),
{
    let t: &'a str = trimmed(value);
    let len: usize = t.unicode_len();
    if len > 0 && t.get_char(0) == '"' {
        let close: usize = scan(t, 1, CharClass::Exactly('"'), true);
        if close < len {
            return t.substring_char(1, close);
        }
    }
    let end: usize = scan(t, 0, CharClass::WhiteSpace, true);
    t.substring_char(0, end)
}

proof fn lemma_first_at_skips(s: Seq<char>, from: int, to: int, class: CharClass, want: bool)
    requires
        0 <= from <= to < s.len(),
        forall|i: int| from <= i < to ==> in_class(class, #[trigger] s[i]) != want,
        in_class(class, s[to]) == want,
    ensures
        first_at(s, from, class, want) == to,
    decreases to - from,
{
    if from < to {
        lemma_first_at_skips(s, from + 1, to, class, want);
    }
}

proof fn lemma_end_before_skips(s: Seq<char>, end: int, to: int, class: CharClass)
    requires
        0 < end <= to <= s.len(),
        forall|i: int| end <= i < to ==> in_class(class, #[trigger] s[i]),
        !in_class(class, s[end - 1]),
    ensures
        end_before(s, to, class) == end,
    decreases to - end,
{
    if end < to {
        lemma_end_before_skips(s, end, to - 1, class);
    }
}

/// Trimming takes away the white space around a text that has none at its own
/// ends, and nothing else.
pub proof fn white_space_around_goes(before: Seq<char>, core: Seq<char>, after: Seq<char>)
    requires
        all_white(before),
        all_white(after),
        core.len() > 0,
        !is_white_space(core[0]),
        !is_white_space(core.last()),
    ensures
        trim(before + core + after) == core,
{
    let s = before + core + after;
    let n = before.len() as int;
    assert(s[n] == core[0]);
    assert forall|i: int| 0 <= i < n implies in_class(CharClass::WhiteSpace, #[trigger] s[i]) by {
        assert(s[i] == before[i]);
    }
    lemma_first_at_skips(s, 0, n, CharClass::WhiteSpace, false);
    let t = core + after;
    assert(s.skip(n) =~= t);
    let end = core.len() as int;
    assert(t[end - 1] == core.last());
    assert forall|i: int| end <= i < t.len() implies in_class(
        CharClass::WhiteSpace,
        #[trigger] t[i],
    ) by {
        assert(t[i] == after[i - end]);
    }
    lemma_end_before_skips(t, end, t.len() as int, CharClass::WhiteSpace);
    assert(t.take(end) =~= core);
}

/// What registration writes, lookup reads back: the executable extracted from
/// a quoted path is the path, for every path without a double quote in it.
pub proof fn quoted_path_reads_back(path: Seq<char>)
    requires
        !path.contains('"'),
    ensures
        exe_token(quoted(path)) == path,
{
    let q = quoted(path);
    let n = q.len() as int;
    assert(q[0] == '"' && q[n - 1] == '"');
    assert(!is_white_space('"'));
    assert(trim_start(q, CharClass::WhiteSpace) =~= q);
    assert(trim(q) =~= q);
    assert forall|i: int| 1 <= i < n - 1 implies !in_class(
        CharClass::Exactly('"'),
        #[trigger] q[i],
    ) by {
        assert(q[i] == path[i - 1]);
    }
    lemma_first_at_skips(q, 1, n - 1, CharClass::Exactly('"'), true);
    assert(q.subrange(1, n - 1) =~= path);
}

/// Comparing up to ASCII case accepts every string against itself, and does
/// not depend on which of the two strings comes first.
pub proof fn ascii_case_is_symmetric(a: Seq<char>, b: Seq<char>)
    ensures
        same_ignoring_ascii_case(a, a),
        same_ignoring_ascii_case(a, b) == same_ignoring_ascii_case(b, a),
{
    if same_ignoring_ascii_case(a, b) {
        assert forall|i: int| 0 <= i < b.len() implies #[trigger] ascii_lower(b[i]) == ascii_lower(
            a[i],
        ) by {
            assert(ascii_lower(a[i]) == ascii_lower(b[i]));
        }
    }
    if same_ignoring_ascii_case(b, a) {
        assert forall|i: int| 0 <= i < a.len() implies #[trigger] ascii_lower(a[i]) == ascii_lower(
            b[i],
        ) by {
            assert(ascii_lower(b[i]) == ascii_lower(a[i]));
        }
    }
}

// ---------------------------------------------------------------------------
// Laws
// ---------------------------------------------------------------------------

/// Two texts are equal up to the case of ASCII letters exactly if they are of one
/// length and each character is the same or the same letter of A to Z in the
/// other case, which is 32 away.
pub proof fn case_is_all_that_may_differ(a: &str, b: &str, r: bool)
    requires
        call_ensures(eq_ignore_ascii_case, (a, b), r),
    ensures
        r <==> a@.len() == b@.len() && forall|i: int|
            0 <= i < a@.len() ==> {
                ||| #[trigger] a@[i] == b@[i]
                ||| 'A' <= a@[i] <= 'Z' && b@[i] as u32 == a@[i] as u32 + 32
                ||| 'A' <= b@[i] <= 'Z' && a@[i] as u32 == b@[i] as u32 + 32
            },
{
    lemma_case(a@, b@);
}

proof fn lemma_case_of_char(x: char, y: char)
    requires
        ascii_lower(x) == ascii_lower(y),
    ensures
        x == y || ('A' <= x <= 'Z' && y as u32 == x as u32 + 32) || ('A' <= y <= 'Z' && x as u32
            == y as u32 + 32),
{
    vstd::utf8::char_is_scalar(x);
    vstd::utf8::char_is_scalar(y);
    if !('A' <= x <= 'Z') && !('A' <= y <= 'Z') {
        vstd::utf8::char_u32_cast(x, x as u32);
        vstd::utf8::char_u32_cast(y, y as u32);
    }
}

/// The same of the texts themselves.
pub proof fn lemma_case(a: Seq<char>, b: Seq<char>)
    ensures
        same_ignoring_ascii_case(a, b) <==> a.len() == b.len() && forall|i: int|
            0 <= i < a.len() ==> {
                ||| #[trigger] a[i] == b[i]
                ||| 'A' <= a[i] <= 'Z' && b[i] as u32 == a[i] as u32 + 32
                ||| 'A' <= b[i] <= 'Z' && a[i] as u32 == b[i] as u32 + 32
            },
{
    if same_ignoring_ascii_case(a, b) {
        assert forall|i: int| 0 <= i < a.len() implies {
            ||| #[trigger] a[i] == b[i]
            ||| 'A' <= a[i] <= 'Z' && b[i] as u32 == a[i] as u32 + 32
            ||| 'A' <= b[i] <= 'Z' && a[i] as u32 == b[i] as u32 + 32
        } by {
            assert(ascii_lower(a[i]) == ascii_lower(b[i]));
            lemma_case_of_char(a[i], b[i]);
        }
    }
    if a.len() == b.len() && (forall|i: int|
        0 <= i < a.len() ==> {
            ||| #[trigger] a[i] == b[i]
            ||| 'A' <= a[i] <= 'Z' && b[i] as u32 == a[i] as u32 + 32
            ||| 'A' <= b[i] <= 'Z' && a[i] as u32 == b[i] as u32 + 32
        }) {
        assert forall|i: int| 0 <= i < a.len() implies #[trigger] ascii_lower(a[i]) == ascii_lower(
            b[i],
        ) by {
            assert(a[i] == a[i]);
        }
    }
}

/// White space is exactly these characters.
pub proof fn white_space_is_unicode(c: char, r: bool)
    requires
        call_ensures(is_whitespace, (c,), r),
    ensures
        r <==> seq![
            '\t',
            '\n',
            '\u{b}',
            '\u{c}',
            '\r',
            ' ',
            '\u{85}',
            '\u{a0}',
            '\u{1680}',
            '\u{2000}',
            '\u{2001}',
            '\u{2002}',
            '\u{2003}',
            '\u{2004}',
            '\u{2005}',
            '\u{2006}',
            '\u{2007}',
            '\u{2008}',
            '\u{2009}',
            '\u{200a}',
            '\u{2028}',
            '\u{2029}',
            '\u{202f}',
            '\u{205f}',
            '\u{3000}',
        ].contains(c),
{
    let all = seq![
        '\t',
        '\n',
        '\u{b}',
        '\u{c}',
        '\r',
        ' ',
        '\u{85}',
        '\u{a0}',
        '\u{1680}',
        '\u{2000}',
        '\u{2001}',
        '\u{2002}',
        '\u{2003}',
        '\u{2004}',
        '\u{2005}',
        '\u{2006}',
        '\u{2007}',
        '\u{2008}',
        '\u{2009}',
        '\u{200a}',
        '\u{2028}',
        '\u{2029}',
        '\u{202f}',
        '\u{205f}',
        '\u{3000}',
    ];
    if is_white_space(c) {
        let u = c as u32;
        let i: int = if u <= 0x0d {
            u - 0x09
        } else if u == 0x20 {
            5
        } else if u == 0x85 {
            6
        } else if u == 0xa0 {
            7
        } else if u == 0x1680 {
            8
        } else if u <= 0x200a {
            u - 0x2000 + 9
        } else if u <= 0x2029 {
            u - 0x2028 + 20
        } else if u == 0x202f {
            22
        } else if u == 0x205f {
            23
        } else {
            24
        };
        assert(all[i] == c);
    }
}

/// The number that decimal digits spell.
pub open spec fn decimal_value(s: Seq<char>) -> int
    decreases s.len(),
{
    if s.len() == 0 {
        0
    } else {
        decimal_value(s.drop_last()) * 10 + (s.last() as int - '0' as int)
    }
}

proof fn lemma_decimal(n: nat)
    ensures
        decimal_value(decimal_text(n)) == n,
        decimal_text(n).len() > 0,
        decimal_text(n)[0] == '0' ==> n == 0,
        forall|i: int|
            0 <= i < decimal_text(n).len() ==> '0' <= #[trigger] decimal_text(n)[i] <= '9',
    decreases n,
{
    reveal_strlit("0123456789");
    let digit = "0123456789"@[(n % 10) as int];
    let s = decimal_text(n);
    assert(digit as int - '0' as int == n % 10);
    if n < 10 {
        assert(s =~= seq![digit]);
        assert(s.drop_last() =~= seq![]);
        assert(decimal_value(s.drop_last()) == 0);
    } else {
        lemma_decimal(n / 10);
        assert(s.drop_last() =~= decimal_text(n / 10));
        assert(s[0] == decimal_text(n / 10)[0]);
    }
}

/// A number reads back from its decimal digits, which begin with 0 only if they
/// are those of 0.
pub proof fn decimal_reads_back(n: u32, r: String)
    requires
        call_ensures(decimal, (n,), r),
    ensures
        decimal_value(r@) == n,
        r@.len() > 0,
        r@[0] == '0' ==> n == 0,
        forall|i: int| 0 <= i < r@.len() ==> '0' <= #[trigger] r@[i] <= '9',
{
    lemma_decimal(n as nat);
}

proof fn lemma_end_before_reaches(s: Seq<char>, k: int, to: int, class: CharClass)
    requires
        0 < k <= to <= s.len(),
        !in_class(class, s[k - 1]),
    ensures
        k <= end_before(s, to, class) <= to,
    decreases to,
{
    if k < to && in_class(class, s[to - 1]) {
        lemma_end_before_reaches(s, k, to - 1, class);
    }
}

proof fn lemma_first_at_none(s: Seq<char>, from: int, class: CharClass, want: bool)
    requires
        0 <= from <= s.len(),
        forall|i: int| from <= i < s.len() ==> in_class(class, #[trigger] s[i]) != want,
    ensures
        first_at(s, from, class, want) == s.len(),
    decreases s.len() - from,
{
    if from < s.len() {
        lemma_first_at_none(s, from + 1, class, want);
    }
}

/// What trimming leaves of a text that is white space, then `core` with no white
/// space at its ends, then anything: it begins with `core` and is a piece of the
/// rest.
proof fn lemma_trim_keeps(before: Seq<char>, core: Seq<char>, rest: Seq<char>)
    requires
        all_white(before),
        core.len() > 0,
        !is_white_space(core[0]),
        !is_white_space(core.last()),
    ensures
        core.len() <= trim(before + core + rest).len() <= core.len() + rest.len(),
        trim(before + core + rest) == (core + rest).take(
            trim(before + core + rest).len() as int,
        ),
{
    let s = before + core + rest;
    let n = before.len() as int;
    assert(s[n] == core[0]);
    assert forall|i: int| 0 <= i < n implies in_class(CharClass::WhiteSpace, #[trigger] s[i]) by {
        assert(s[i] == before[i]);
    }
    lemma_first_at_skips(s, 0, n, CharClass::WhiteSpace, false);
    let t = core + rest;
    assert(s.skip(n) =~= t);
    assert(t[core.len() - 1] == core.last());
    lemma_end_before_reaches(t, core.len() as int, t.len() as int, CharClass::WhiteSpace);
}

/// What a value names that begins with a quoted path.
pub proof fn lemma_quoted_token(before: Seq<char>, path: Seq<char>, rest: Seq<char>)
    requires
        all_white(before),
        !path.contains('"'),
    ensures
        exe_token(before + (seq!['"'] + path + seq!['"']) + rest) == path,
{
    let core = seq!['"'] + path + seq!['"'];
    let n = core.len() as int;
    assert(core[0] == '"' && core[n - 1] == '"');
    assert(!is_white_space('"'));
    lemma_trim_keeps(before, core, rest);
    let t = trim(before + core + rest);
    assert(t[0] == '"');
    assert(t[n - 1] == '"');
    assert forall|i: int| 1 <= i < n - 1 implies !in_class(
        CharClass::Exactly('"'),
        #[trigger] t[i],
    ) by {
        assert(t[i] == path[i - 1]);
    }
    lemma_first_at_skips(t, 1, n - 1, CharClass::Exactly('"'), true);
    assert(t.subrange(1, n - 1) =~= path);
}

/// What a value names that begins with a path without quotes.
pub proof fn lemma_bare_token(before: Seq<char>, path: Seq<char>, rest: Seq<char>)
    requires
        all_white(before),
        path.len() > 0,
        forall|i: int| 0 <= i < path.len() ==> !is_white_space(#[trigger] path[i]),
        rest.len() > 0 ==> is_white_space(rest[0]),
        path[0] != '"' || (!path.skip(1).contains('"') && !rest.contains('"')),
    ensures
        exe_token(before + path + rest) == path,
{
    let n = path.len() as int;
    assert(!is_white_space(path[0]) && !is_white_space(path.last()));
    lemma_trim_keeps(before, path, rest);
    let t = trim(before + path + rest);
    assert(t[0] == path[0]);
    if path[0] == '"' {
        assert forall|i: int| 1 <= i < t.len() implies !in_class(
            CharClass::Exactly('"'),
            #[trigger] t[i],
        ) by {
            if i < n {
                assert(t[i] == path.skip(1)[i - 1]);
            } else {
                assert(t[i] == rest[i - n]);
            }
        }
        lemma_first_at_none(t, 1, CharClass::Exactly('"'), true);
    }
    assert forall|i: int| 0 <= i < n implies !in_class(
        CharClass::WhiteSpace,
        #[trigger] t[i],
    ) by {
        assert(t[i] == path[i]);
    }
    if t.len() > n {
        assert(t[n] == rest[0]);
        lemma_first_at_skips(t, 0, n, CharClass::WhiteSpace, true);
    } else {
        lemma_first_at_none(t, 0, CharClass::WhiteSpace, true);
    }
    assert(t.take(n) =~= path);
}

/// The executable of a command line that begins with a quoted path is that path,
/// whatever it holds but a quote, and whatever follows.
pub proof fn quoted_executable_is_found(
    before: Seq<char>,
    path: Seq<char>,
    rest: Seq<char>,
    value: &str,
    r: &str,
)
    requires
        all_white(before),
        !path.contains('"'),
        value@ == before + (seq!['"'] + path + seq!['"']) + rest,
        call_ensures(extract_exe_token, (value,), r),
    ensures
        r@ == path,
{
    lemma_quoted_token(before, path, rest);
}

/// The executable of a command line without a quoted path is what stands before
/// the first white space, also where a quote is opened and never closed.
pub proof fn bare_executable_is_found(
    before: Seq<char>,
    path: Seq<char>,
    rest: Seq<char>,
    value: &str,
    r: &str,
)
    requires
        all_white(before),
        path.len() > 0,
        forall|i: int| 0 <= i < path.len() ==> !is_white_space(#[trigger] path[i]),
        rest.len() > 0 ==> is_white_space(rest[0]),
        path[0] != '"' || (!path.skip(1).contains('"') && !rest.contains('"')),
        value@ == before + path + rest,
        call_ensures(extract_exe_token, (value,), r),
    ensures
        r@ == path,
{
    lemma_bare_token(before, path, rest);
}

/// What a value of white space names.
pub proof fn lemma_blank_token(value: Seq<char>)
    requires
        all_white(value),
    ensures
        exe_token(value) == Seq::<char>::empty(),
{
    lemma_first_at_none(value, 0, CharClass::WhiteSpace, false);
    assert(trim_start(value, CharClass::WhiteSpace) =~= seq![]);
    assert(trim(value) =~= seq![]);
    assert(exe_token(value) =~= seq![]);
}

/// A command line of white space names no executable.
pub proof fn blank_names_no_executable(value: &str, r: &str)
    requires
        all_white(value@),
        call_ensures(extract_exe_token, (value,), r),
    ensures
        r@.len() == 0,
{
    lemma_blank_token(value@);
}

/// What registration writes for a path is the path between two quotes, and names
/// that path unless it has a quote itself.
pub proof fn quoting_is_undone(path: &str, value: String, line: &str, r: &str)
    requires
        call_ensures(quote, (path,), value),
        line@ == value@,
        call_ensures(extract_exe_token, (line,), r),
    ensures
        !path@.contains('"') ==> r@ == path@,
        value@.len() == path@.len() + 2,
        value@[0] == '"' && value@.last() == '"',
        value@.subrange(1, value@.len() - 1) == path@,
{
    if !path@.contains('"') {
        quoted_path_reads_back(path@);
    }
    assert(value@.subrange(1, value@.len() - 1) =~= path@);
}

/// What a scan passes over, and where it stops.
pub proof fn lemma_scan(s: Seq<char>, from: int, class: CharClass, want: bool)
    requires
        0 <= from <= s.len(),
    ensures
        from <= first_at(s, from, class, want) <= s.len(),
        first_at(s, from, class, want) < s.len() ==> in_class(
            class,
            s[first_at(s, from, class, want)],
        ) == want,
        forall|i: int|
            from <= i < first_at(s, from, class, want) ==> in_class(class, #[trigger] s[i]) != want,
    decreases s.len() - from,
{
    if from < s.len() && in_class(class, s[from]) != want {
        lemma_scan(s, from + 1, class, want);
    }
}

/// What a scan from the end passes over.
pub proof fn lemma_scan_back(s: Seq<char>, to: int, class: CharClass)
    requires
        0 <= to <= s.len(),
    ensures
        0 <= end_before(s, to, class) <= to,
        forall|i: int| end_before(s, to, class) <= i < to ==> in_class(class, #[trigger] s[i]),
    decreases to,
{
    if to > 0 && in_class(class, s[to - 1]) {
        lemma_scan_back(s, to - 1, class);
    }
}

} // verus!
