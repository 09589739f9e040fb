//! The report loader: turns the text of an analysis result into a `Report`,
//! or says exactly why it cannot.
//!
//! Two verdicts are possible besides success, and they are exact: text that
//! is not well-formed JSON (in the sense of `spec_json_valid`) is a parse
//! failure; well-formed text that does not match the report shape is a
//! schema failure. The shape is strict: each object carries exactly the
//! documented fields in their documented order, every feature list is a
//! list of strings, and a crate or dependency name that repeats within one
//! mapping is refused rather than silently collapsed. String escapes are
//! decoded in full, surrogate pairs included; an escape naming a lone
//! UTF-16 surrogate yields no character and therefore no report.
use vstd::prelude::*;

use crate::json::is_digit;
use crate::json::is_hex;
use crate::json::is_hex_char;
use crate::json::json_valid;
use crate::json::skip_ws;
use crate::json::spec_json_valid;
use crate::json::spec_skip_ws;
use crate::model::CrateModel;
use crate::model::DepModel;
use crate::model::Report;
use crate::model::ReportDependencyEntry;
use crate::model::WorkspaceCrate;
use crate::model::spec_crates_view;
use crate::model::spec_deps_view;
use vstd::string::StrSliceExecFns;
use vstd::string::StringExecFns;

verus! {

/// Why a report could not be loaded. The three kinds are distinguishable
/// by the caller; reading the file belongs to the caller, so the loader
/// itself only ever yields the parse and schema kinds.
#[derive(Debug)]
pub enum LoadError {
    /// The input file could not be read. Produced by callers that do the
    /// reading, never by the loader itself.
    IoError,
    /// The text is not well-formed JSON.
    ParseError,
    /// The text is well-formed JSON but does not match the report shape.
    SchemaError,
}

impl LoadError {
    /// A short fixed description of the failure kind.
    pub fn message(&self) -> (r: &'static str)
        ensures
            r@ == match self {
                LoadError::IoError => "the input file could not be read"@,
                LoadError::ParseError => "the input is not well-formed JSON"@,
                LoadError::SchemaError => "the input does not match the report shape"@,
            },
    {
        match self {
            LoadError::IoError => "the input file could not be read",
            LoadError::ParseError => "the input is not well-formed JSON",
            LoadError::SchemaError => "the input does not match the report shape",
        }
    }
}

/// The numeric value of one hexadecimal digit.
pub open spec fn spec_hex_val(c: char) -> int {
    if is_digit(c) {
        c as u32 - '0' as u32
    } else if 'a' as u32 <= c as u32 && c as u32 <= 'f' as u32 {
        c as u32 - 'a' as u32 + 10
    } else {
        c as u32 - 'A' as u32 + 10
    }
}

/// The value of the four hexadecimal digits at `i`.
pub open spec fn spec_hex4(s: Seq<char>, i: int) -> int
    recommends
        0 <= i && i + 4 <= s.len(),
{
    spec_hex_val(s[i]) * 0x1000 + spec_hex_val(s[i + 1]) * 0x100 + spec_hex_val(s[i + 2]) * 0x10
        + spec_hex_val(s[i + 3])
}

/// The decoded content of a string body starting at `i` (just past the
/// opening quote), together with the position past the closing quote.
/// `acc` carries the characters decoded so far.
pub open spec fn spec_string_chars(s: Seq<char>, i: int, acc: Seq<char>) -> Option<
    (Seq<char>, int),
>
    decreases s.len() - i,
{
    if i < 0 || i >= s.len() {
        None
    } else if s[i] == '"' {
        Some((acc, i + 1))
    } else if s[i] == '\\' {
        if s.len() - i < 2 {
            None
        } else {
            let e = s[i + 1];
            if e == '"' || e == '\\' || e == '/' || e == 'b' || e == 'f' || e == 'n' || e == 'r'
                || e == 't' {
                let d = if e == 'b' {
                    '\u{0008}'
                } else if e == 'f' {
                    '\u{000C}'
                } else if e == 'n' {
                    '\n'
                } else if e == 'r' {
                    '\r'
                } else if e == 't' {
                    '\t'
                } else {
                    e
                };
                spec_string_chars(s, i + 2, acc.push(d))
            } else if e == 'u' {
                if s.len() - i < 6 {
                    None
                } else if !(is_hex(s[i + 2]) && is_hex(s[i + 3]) && is_hex(s[i + 4]) && is_hex(
                    s[i + 5],
                )) {
                    None
                } else {
                    let v = spec_hex4(s, i + 2);
                    if 0xD800 <= v && v < 0xDC00 {
                        if s.len() - i < 12 {
                            None
                        } else if s[i + 6] == '\\' && s[i + 7] == 'u' && is_hex(s[i + 8]) && is_hex(
                            s[i + 9],
                        ) && is_hex(s[i + 10]) && is_hex(s[i + 11]) {
                            let w = spec_hex4(s, i + 8);
                            if 0xDC00 <= w && w < 0xE000 {
                                spec_string_chars(
                                    s,
                                    i + 12,
                                    acc.push(
                                        ((0x10000 + (v - 0xD800) * 0x400 + (w
                                            - 0xDC00)) as u32) as char,
                                    ),
                                )
                            } else {
                                None
                            }
                        } else {
                            None
                        }
                    } else if 0xDC00 <= v && v < 0xE000 {
                        None
                    } else {
                        spec_string_chars(s, i + 6, acc.push((v as u32) as char))
                    }
                }
            } else {
                None
            }
        }
    } else if (s[i] as u32) < 0x20 {
        None
    } else {
        spec_string_chars(s, i + 1, acc.push(s[i]))
    }
}

/// The decoded content of the string standing at `i` (on its opening
/// quote), with the position just past it.
pub open spec fn spec_string_at(s: Seq<char>, i: int) -> Option<(Seq<char>, int)> {
    if 0 <= i && i < s.len() && s[i] == '"' {
        spec_string_chars(s, i + 1, Seq::empty())
    } else {
        None
    }
}

/// The position after the exact key `key` standing at `i`, its colon, and
/// any whitespace around them.
pub open spec fn spec_key_colon(s: Seq<char>, i: int, key: Seq<char>) -> Option<int> {
    match spec_string_at(s, i) {
        None => None,
        Some((k, j)) => {
            if k != key || j <= i || j > s.len() {
                None
            } else {
                let p = spec_skip_ws(s, j);
                if p < j || p >= s.len() || s[p] != ':' {
                    None
                } else {
                    Some(spec_skip_ws(s, p + 1))
                }
            }
        },
    }
}

/// The elements of an array of strings, `i` standing on an element's
/// opening quote; `acc` carries the elements already read.
pub open spec fn spec_strings_elems(s: Seq<char>, i: int, acc: Seq<Seq<char>>) -> Option<
    (Seq<Seq<char>>, int),
>
    decreases s.len() - i,
{
    if i < 0 || i >= s.len() {
        None
    } else {
        match spec_string_at(s, i) {
            None => None,
            Some((x, j)) => {
                if j <= i || j > s.len() {
                    None
                } else {
                    let p = spec_skip_ws(s, j);
                    if p < j || p >= s.len() {
                        None
                    } else if s[p] == ',' {
                        let q = spec_skip_ws(s, p + 1);
                        if q <= p || q > s.len() {
                            None
                        } else {
                            spec_strings_elems(s, q, acc.push(x))
                        }
                    } else if s[p] == ']' {
                        Some((acc.push(x), p + 1))
                    } else {
                        None
                    }
                }
            },
        }
    }
}

/// An array of strings standing at `i`, possibly empty.
pub open spec fn spec_strings_at(s: Seq<char>, i: int) -> Option<(Seq<Seq<char>>, int)> {
    if 0 <= i && i < s.len() && s[i] == '[' {
        let j = spec_skip_ws(s, i + 1);
        if j <= i || j > s.len() {
            None
        } else if j < s.len() && s[j] == ']' {
            Some((Seq::empty(), j + 1))
        } else {
            spec_strings_elems(s, j, Seq::empty())
        }
    } else {
        None
    }
}

/// Whether `k` already names an entry of the mapping `m`.
pub open spec fn spec_has_key<T>(m: Seq<(Seq<char>, T)>, k: Seq<char>) -> bool {
    exists|idx: int| 0 <= idx < m.len() && m[idx].0 == k
}

/// A dependency entry object standing at `i`: exactly the three feature
/// lists, in their documented order.
pub open spec fn spec_dep_at(s: Seq<char>, i: int) -> Option<(DepModel, int)> {
    if !(0 <= i && i < s.len() && s[i] == '{') {
        None
    } else {
        let j = spec_skip_ws(s, i + 1);
        match spec_key_colon(s, j, "original_features"@) {
            None => None,
            Some(q1) => match spec_strings_at(s, q1) {
                None => None,
                Some((orig, r1)) => {
                    let p1 = spec_skip_ws(s, r1);
                    if p1 < 0 || p1 >= s.len() || s[p1] != ',' {
                        None
                    } else {
                        match spec_key_colon(
                            s,
                            spec_skip_ws(s, p1 + 1),
                            "successfully_removed_features"@,
                        ) {
                            None => None,
                            Some(q2) => match spec_strings_at(s, q2) {
                                None => None,
                                Some((rem, r2)) => {
                                    let p2 = spec_skip_ws(s, r2);
                                    if p2 < 0 || p2 >= s.len() || s[p2] != ',' {
                                        None
                                    } else {
                                        match spec_key_colon(
                                            s,
                                            spec_skip_ws(s, p2 + 1),
                                            "unsuccessfully_removed_features"@,
                                        ) {
                                            None => None,
                                            Some(q3) => match spec_strings_at(s, q3) {
                                                None => None,
                                                Some((unrem, r3)) => {
                                                    let p3 = spec_skip_ws(s, r3);
                                                    if 0 <= p3 && p3 < s.len() && s[p3] == '}' {
                                                        Some(
                                                            (
                                                                DepModel {
                                                                    original: orig,
                                                                    removed: rem,
                                                                    unremoved: unrem,
                                                                },
                                                                p3 + 1,
                                                            ),
                                                        )
                                                    } else {
                                                        None
                                                    }
                                                },
                                            },
                                        }
                                    }
                                },
                            },
                        }
                    }
                },
            },
        }
    }
}

/// The members of a dependency mapping, `i` standing on a dependency
/// name's opening quote; a repeated name is refused.
pub open spec fn spec_deps_members(
    s: Seq<char>,
    i: int,
    acc: Seq<(Seq<char>, DepModel)>,
) -> Option<(Seq<(Seq<char>, DepModel)>, int)>
    decreases s.len() - i,
{
    if i < 0 || i >= s.len() {
        None
    } else {
        match spec_string_at(s, i) {
            None => None,
            Some((name, j)) => {
                if j <= i || j > s.len() || spec_has_key(acc, name) {
                    None
                } else {
                    let p = spec_skip_ws(s, j);
                    if p < j || p >= s.len() || s[p] != ':' {
                        None
                    } else {
                        let q = spec_skip_ws(s, p + 1);
                        if q <= p || q > s.len() {
                            None
                        } else {
                            match spec_dep_at(s, q) {
                                None => None,
                                Some((d, r)) => {
                                    if r <= q || r > s.len() {
                                        None
                                    } else {
                                        let u = spec_skip_ws(s, r);
                                        if u < r || u >= s.len() {
                                            None
                                        } else if s[u] == ',' {
                                            let t = spec_skip_ws(s, u + 1);
                                            if t <= u || t > s.len() {
                                                None
                                            } else {
                                                spec_deps_members(s, t, acc.push((name, d)))
                                            }
                                        } else if s[u] == '}' {
                                            Some((acc.push((name, d)), u + 1))
                                        } else {
                                            None
                                        }
                                    }
                                },
                            }
                        }
                    }
                }
            },
        }
    }
}

/// A dependency mapping standing at `i`, possibly empty.
pub open spec fn spec_deps_at(s: Seq<char>, i: int) -> Option<(Seq<(Seq<char>, DepModel)>, int)> {
    if !(0 <= i && i < s.len() && s[i] == '{') {
        None
    } else {
        let j = spec_skip_ws(s, i + 1);
        if j <= i || j > s.len() {
            None
        } else if j < s.len() && s[j] == '}' {
            Some((Seq::empty(), j + 1))
        } else {
            spec_deps_members(s, j, Seq::empty())
        }
    }
}

/// A workspace crate object standing at `i`: its path, then its
/// dependency mapping, in their documented order.
pub open spec fn spec_crate_at(s: Seq<char>, i: int) -> Option<(CrateModel, int)> {
    if !(0 <= i && i < s.len() && s[i] == '{') {
        None
    } else {
        let j = spec_skip_ws(s, i + 1);
        match spec_key_colon(s, j, "full_path"@) {
            None => None,
            Some(q1) => match spec_string_at(s, q1) {
                None => None,
                Some((path, r1)) => {
                    let p1 = spec_skip_ws(s, r1);
                    if p1 < 0 || p1 >= s.len() || s[p1] != ',' {
                        None
                    } else {
                        match spec_key_colon(s, spec_skip_ws(s, p1 + 1), "dependencies"@) {
                            None => None,
                            Some(q2) => match spec_deps_at(s, q2) {
                                None => None,
                                Some((deps, r2)) => {
                                    let p2 = spec_skip_ws(s, r2);
                                    if 0 <= p2 && p2 < s.len() && s[p2] == '}' {
                                        Some((CrateModel { path: path, deps: deps }, p2 + 1))
                                    } else {
                                        None
                                    }
                                },
                            },
                        }
                    }
                },
            },
        }
    }
}

/// The members of the top-level crate mapping, `i` standing on a crate
/// name's opening quote; a repeated name is refused.
pub open spec fn spec_crates_members(
    s: Seq<char>,
    i: int,
    acc: Seq<(Seq<char>, CrateModel)>,
) -> Option<(Seq<(Seq<char>, CrateModel)>, int)>
    decreases s.len() - i,
{
    if i < 0 || i >= s.len() {
        None
    } else {
        match spec_string_at(s, i) {
            None => None,
            Some((name, j)) => {
                if j <= i || j > s.len() || spec_has_key(acc, name) {
                    None
                } else {
                    let p = spec_skip_ws(s, j);
                    if p < j || p >= s.len() || s[p] != ':' {
                        None
                    } else {
                        let q = spec_skip_ws(s, p + 1);
                        if q <= p || q > s.len() {
                            None
                        } else {
                            match spec_crate_at(s, q) {
                                None => None,
                                Some((c, r)) => {
                                    if r <= q || r > s.len() {
                                        None
                                    } else {
                                        let u = spec_skip_ws(s, r);
                                        if u < r || u >= s.len() {
                                            None
                                        } else if s[u] == ',' {
                                            let t = spec_skip_ws(s, u + 1);
                                            if t <= u || t > s.len() {
                                                None
                                            } else {
                                                spec_crates_members(s, t, acc.push((name, c)))
                                            }
                                        } else if s[u] == '}' {
                                            Some((acc.push((name, c)), u + 1))
                                        } else {
                                            None
                                        }
                                    }
                                },
                            }
                        }
                    }
                }
            },
        }
    }
}

/// The report carried by the whole text: one top-level mapping from crate
/// name to crate object and nothing after it.
pub open spec fn spec_report_of(s: Seq<char>) -> Option<Seq<(Seq<char>, CrateModel)>> {
    let i = spec_skip_ws(s, 0);
    if !(0 <= i && i < s.len() && s[i] == '{') {
        None
    } else {
        let j = spec_skip_ws(s, i + 1);
        if j <= i || j > s.len() {
            None
        } else if j < s.len() && s[j] == '}' {
            if spec_skip_ws(s, j + 1) == s.len() {
                Some(Seq::empty())
            } else {
                None
            }
        } else {
            match spec_crates_members(s, j, Seq::empty()) {
                None => None,
                Some((cs, e)) => {
                    if 0 <= e && e <= s.len() && spec_skip_ws(s, e) == s.len() {
                        Some(cs)
                    } else {
                        None
                    }
                },
            }
        }
    }
}

/// Relies on char::from_u32: every integer outside the surrogate range and
/// at most 0x10FFFF names a Unicode scalar value, and the resulting char
/// casts back to the same integer.
#[verifier::external_body]
fn char_from_scalar(v: u32) -> (r: char)
    requires
        v < 0xD800 || (0xE000 <= v && v <= 0x10FFFF),
    ensures
        r == ((v as u32) as char),
{
    char::from_u32(v).unwrap_or(' ')
}

/// Relies on String's FromIterator over char: collecting an iterator of
/// characters yields the string of exactly those characters in order.
#[verifier::external_body]
fn chars_to_string(v: &Vec<char>) -> (r: String)
    ensures
        r@ == v@,
{
    v.iter().collect()
}

/// The characters of `s`, one vector slot per char.
pub fn str_to_chars(s: &str) -> (r: Vec<char>)
    ensures
        r@ == s@,
{
    let n = s.unicode_len();
    let mut v: Vec<char> = Vec::new();
    for i in 0..n
        invariant
            n == s@.len(),
            v@ == s@.take(i as int),
    {
        v.push(s.get_char(i));
        proof {
            assert(s@.take(i as int).push(s@[i as int]) =~= s@.take(i as int + 1));
        }
    }
    proof {
        assert(s@.take(n as int) =~= s@);
    }
    v
}

fn hex_val(c: char) -> (r: u32)
    requires
        is_hex(c),
    ensures
        r as int == spec_hex_val(c),
        r < 16,
{
    if c as u32 >= '0' as u32 && c as u32 <= '9' as u32 {
        c as u32 - '0' as u32
    } else if c as u32 >= 'a' as u32 && c as u32 <= 'f' as u32 {
        c as u32 - 'a' as u32 + 10
    } else {
        c as u32 - 'A' as u32 + 10
    }
}

fn hex4(a: &Vec<char>, i: usize) -> (r: u32)
    requires
        i + 4 <= a@.len(),
        is_hex(a@[i as int]),
        is_hex(a@[i as int + 1]),
        is_hex(a@[i as int + 2]),
        is_hex(a@[i as int + 3]),
    ensures
        r as int == spec_hex4(a@, i as int),
        r < 0x10000,
{
    let _vec_len = a.len();
    hex_val(a[i]) * 0x1000 + hex_val(a[i + 1]) * 0x100 + hex_val(a[i + 2]) * 0x10 + hex_val(
        a[i + 3],
    )
}

fn string_chars(a: &Vec<char>, i: usize, acc: Vec<char>) -> (r: Option<(Vec<char>, usize)>)
    requires
        i <= a@.len(),
    ensures
        match r {
            Some(v) => spec_string_chars(a@, i as int, acc@) == Some((v.0@, v.1 as int)) && i < v.1
                <= a@.len(),
            None => spec_string_chars(a@, i as int, acc@) is None,
        },
    decreases a@.len() - i,
{
    if i >= a.len() {
        return None;
    }
    let c = a[i];
    if c == '"' {
        Some((acc, i + 1))
    } else if c == '\\' {
        if a.len() - i < 2 {
            return None;
        }
        let e = a[i + 1];
        if e == '"' || e == '\\' || e == '/' || e == 'b' || e == 'f' || e == 'n' || e == 'r' || e
            == 't' {
            let d = if e == 'b' {
                '\u{0008}'
            } else if e == 'f' {
                '\u{000C}'
            } else if e == 'n' {
                '\n'
            } else if e == 'r' {
                '\r'
            } else if e == 't' {
                '\t'
            } else {
                e
            };
            let mut acc2 = acc;
            acc2.push(d);
            string_chars(a, i + 2, acc2)
        } else if e == 'u' {
            if a.len() - i < 6 {
                return None;
            }
            if !(is_hex_char(a[i + 2]) && is_hex_char(a[i + 3]) && is_hex_char(a[i + 4])
                && is_hex_char(a[i + 5])) {
                return None;
            }
            let v = hex4(a, i + 2);
            if v >= 0xD800 && v < 0xDC00 {
                if a.len() - i < 12 {
                    return None;
                }
                if a[i + 6] == '\\' && a[i + 7] == 'u' && is_hex_char(a[i + 8]) && is_hex_char(
                    a[i + 9],
                ) && is_hex_char(a[i + 10]) && is_hex_char(a[i + 11]) {
                    let w = hex4(a, i + 8);
                    if w >= 0xDC00 && w < 0xE000 {
                        let code = 0x10000 + (v - 0xD800) * 0x400 + (w - 0xDC00);
                        let mut acc2 = acc;
                        acc2.push(char_from_scalar(code));
                        string_chars(a, i + 12, acc2)
                    } else {
                        None
                    }
                } else {
                    None
                }
            } else if v >= 0xDC00 && v < 0xE000 {
                None
            } else {
                let mut acc2 = acc;
                acc2.push(char_from_scalar(v));
                string_chars(a, i + 6, acc2)
            }
        } else {
            None
        }
    } else if (c as u32) < 0x20 {
        None
    } else {
        let mut acc2 = acc;
        acc2.push(c);
        string_chars(a, i + 1, acc2)
    }
}

fn string_at(a: &Vec<char>, i: usize) -> (r: Option<(String, usize)>)
    requires
        i <= a@.len(),
    ensures
        match r {
            Some(v) => spec_string_at(a@, i as int) == Some((v.0@, v.1 as int)) && i < v.1
                <= a@.len(),
            None => spec_string_at(a@, i as int) is None,
        },
{
    if i >= a.len() || a[i] != '"' {
        return None;
    }
    match string_chars(a, i + 1, Vec::new()) {
        None => None,
        Some((v, j)) => Some((chars_to_string(&v), j)),
    }
}

fn key_colon(a: &Vec<char>, i: usize, key: &str) -> (r: Option<usize>)
    requires
        i <= a@.len(),
    ensures
        match r {
            Some(j) => spec_key_colon(a@, i as int, key@) == Some(j as int) && i < j <= a@.len(),
            None => spec_key_colon(a@, i as int, key@) is None,
        },
{
    let (k, j) = match string_at(a, i) {
        None => {
            return None;
        },
        Some(v) => v,
    };
    let key_string = String::from_str(key);
    if !(k == key_string) {
        return None;
    }
    let p = skip_ws(a, j);
    if p >= a.len() || a[p] != ':' {
        return None;
    }
    Some(skip_ws(a, p + 1))
}

fn strings_elems(a: &Vec<char>, i: usize, acc: Vec<String>) -> (r: Option<(Vec<String>, usize)>)
    requires
        i <= a@.len(),
    ensures
        match r {
            Some(v) => spec_strings_elems(a@, i as int, acc.deep_view()) == Some(
                (v.0.deep_view(), v.1 as int),
            ) && i < v.1 <= a@.len(),
            None => spec_strings_elems(a@, i as int, acc.deep_view()) is None,
        },
    decreases a@.len() - i,
{
    if i >= a.len() {
        return None;
    }
    let (x, j) = match string_at(a, i) {
        None => {
            return None;
        },
        Some(v) => v,
    };
    let p = skip_ws(a, j);
    if p >= a.len() {
        return None;
    }
    if a[p] == ',' {
        let q = skip_ws(a, p + 1);
        let ghost old_acc = acc.deep_view();
        let mut acc2 = acc;
        acc2.push(x);
        proof {
            assert(acc2.deep_view() =~= old_acc.push(x@));
        }
        strings_elems(a, q, acc2)
    } else if a[p] == ']' {
        let ghost old_acc = acc.deep_view();
        let mut acc2 = acc;
        acc2.push(x);
        proof {
            assert(acc2.deep_view() =~= old_acc.push(x@));
        }
        Some((acc2, p + 1))
    } else {
        None
    }
}

fn strings_at(a: &Vec<char>, i: usize) -> (r: Option<(Vec<String>, usize)>)
    requires
        i <= a@.len(),
    ensures
        match r {
            Some(v) => spec_strings_at(a@, i as int) == Some((v.0.deep_view(), v.1 as int)) && i
                < v.1 <= a@.len(),
            None => spec_strings_at(a@, i as int) is None,
        },
{
    if i >= a.len() || a[i] != '[' {
        return None;
    }
    let j = skip_ws(a, i + 1);
    if j < a.len() && a[j] == ']' {
        let empty: Vec<String> = Vec::new();
        proof {
            assert(empty.deep_view() =~= Seq::<Seq<char>>::empty());
        }
        Some((empty, j + 1))
    } else {
        let empty: Vec<String> = Vec::new();
        proof {
            assert(empty.deep_view() =~= Seq::<Seq<char>>::empty());
        }
        strings_elems(a, j, empty)
    }
}

fn dep_at(a: &Vec<char>, i: usize) -> (r: Option<(ReportDependencyEntry, usize)>)
    requires
        i <= a@.len(),
    ensures
        match r {
            Some(v) => spec_dep_at(a@, i as int) == Some((v.0@, v.1 as int)) && i < v.1
                <= a@.len(),
            None => spec_dep_at(a@, i as int) is None,
        },
{
    if i >= a.len() || a[i] != '{' {
        return None;
    }
    let j = skip_ws(a, i + 1);
    let q1 = match key_colon(a, j, "original_features") {
        None => {
            return None;
        },
        Some(v) => v,
    };
    let (orig, r1) = match strings_at(a, q1) {
        None => {
            return None;
        },
        Some(v) => v,
    };
    let p1 = skip_ws(a, r1);
    if p1 >= a.len() || a[p1] != ',' {
        return None;
    }
    let q2 = match key_colon(a, skip_ws(a, p1 + 1), "successfully_removed_features") {
        None => {
            return None;
        },
        Some(v) => v,
    };
    let (rem, r2) = match strings_at(a, q2) {
        None => {
            return None;
        },
        Some(v) => v,
    };
    let p2 = skip_ws(a, r2);
    if p2 >= a.len() || a[p2] != ',' {
        return None;
    }
    let q3 = match key_colon(a, skip_ws(a, p2 + 1), "unsuccessfully_removed_features") {
        None => {
            return None;
        },
        Some(v) => v,
    };
    let (unrem, r3) = match strings_at(a, q3) {
        None => {
            return None;
        },
        Some(v) => v,
    };
    let p3 = skip_ws(a, r3);
    if p3 < a.len() && a[p3] == '}' {
        let entry = ReportDependencyEntry {
            original_features: orig,
            successfully_removed_features: rem,
            unsuccessfully_removed_features: unrem,
        };
        Some((entry, p3 + 1))
    } else {
        None
    }
}

fn deps_has_key(v: &Vec<(String, ReportDependencyEntry)>, name: &String) -> (r: bool)
    ensures
        r == spec_has_key(spec_deps_view(v@), name@),
{
    let n = v.len();
    for idx in 0..n
        invariant
            n == v@.len(),
            forall|t: int| 0 <= t < idx ==> spec_deps_view(v@)[t].0 != name@,
    {
        if v[idx].0.eq(name) {
            proof {
                assert(spec_deps_view(v@)[idx as int].0 == name@);
            }
            return true;
        }
    }
    false
}

fn deps_members(a: &Vec<char>, i: usize, acc: Vec<(String, ReportDependencyEntry)>) -> (r: Option<
    (Vec<(String, ReportDependencyEntry)>, usize),
>)
    requires
        i <= a@.len(),
    ensures
        match r {
            Some(v) => spec_deps_members(a@, i as int, spec_deps_view(acc@)) == Some(
                (spec_deps_view(v.0@), v.1 as int),
            ) && i < v.1 <= a@.len(),
            None => spec_deps_members(a@, i as int, spec_deps_view(acc@)) is None,
        },
    decreases a@.len() - i,
{
    if i >= a.len() {
        return None;
    }
    let (name, j) = match string_at(a, i) {
        None => {
            return None;
        },
        Some(v) => v,
    };
    if deps_has_key(&acc, &name) {
        return None;
    }
    let p = skip_ws(a, j);
    if p >= a.len() || a[p] != ':' {
        return None;
    }
    let q = skip_ws(a, p + 1);
    let (d, r) = match dep_at(a, q) {
        None => {
            return None;
        },
        Some(v) => v,
    };
    let u = skip_ws(a, r);
    if u >= a.len() {
        return None;
    }
    if a[u] == ',' {
        let t = skip_ws(a, u + 1);
        let ghost old_acc = spec_deps_view(acc@);
        let mut acc2 = acc;
        acc2.push((name, d));
        proof {
            assert(spec_deps_view(acc2@) =~= old_acc.push((name@, d@)));
        }
        deps_members(a, t, acc2)
    } else if a[u] == '}' {
        let ghost old_acc = spec_deps_view(acc@);
        let mut acc2 = acc;
        acc2.push((name, d));
        proof {
            assert(spec_deps_view(acc2@) =~= old_acc.push((name@, d@)));
        }
        Some((acc2, u + 1))
    } else {
        None
    }
}

fn deps_at(a: &Vec<char>, i: usize) -> (r: Option<(Vec<(String, ReportDependencyEntry)>, usize)>)
    requires
        i <= a@.len(),
    ensures
        match r {
            Some(v) => spec_deps_at(a@, i as int) == Some((spec_deps_view(v.0@), v.1 as int)) && i
                < v.1 <= a@.len(),
            None => spec_deps_at(a@, i as int) is None,
        },
{
    if i >= a.len() || a[i] != '{' {
        return None;
    }
    let j = skip_ws(a, i + 1);
    let empty: Vec<(String, ReportDependencyEntry)> = Vec::new();
    proof {
        assert(spec_deps_view(empty@) =~= Seq::<(Seq<char>, DepModel)>::empty());
    }
    if j < a.len() && a[j] == '}' {
        Some((empty, j + 1))
    } else {
        deps_members(a, j, empty)
    }
}

fn crate_at(a: &Vec<char>, i: usize) -> (r: Option<(WorkspaceCrate, usize)>)
    requires
        i <= a@.len(),
    ensures
        match r {
            Some(v) => spec_crate_at(a@, i as int) == Some((v.0@, v.1 as int)) && i < v.1
                <= a@.len(),
            None => spec_crate_at(a@, i as int) is None,
        },
{
    if i >= a.len() || a[i] != '{' {
        return None;
    }
    let j = skip_ws(a, i + 1);
    let q1 = match key_colon(a, j, "full_path") {
        None => {
            return None;
        },
        Some(v) => v,
    };
    let (path, r1) = match string_at(a, q1) {
        None => {
            return None;
        },
        Some(v) => v,
    };
    let p1 = skip_ws(a, r1);
    if p1 >= a.len() || a[p1] != ',' {
        return None;
    }
    let q2 = match key_colon(a, skip_ws(a, p1 + 1), "dependencies") {
        None => {
            return None;
        },
        Some(v) => v,
    };
    let (deps, r2) = match deps_at(a, q2) {
        None => {
            return None;
        },
        Some(v) => v,
    };
    let p2 = skip_ws(a, r2);
    if p2 < a.len() && a[p2] == '}' {
        let entry = WorkspaceCrate { full_path: path, dependencies: deps };
        Some((entry, p2 + 1))
    } else {
        None
    }
}

fn crates_has_key(v: &Vec<(String, WorkspaceCrate)>, name: &String) -> (r: bool)
    ensures
        r == spec_has_key(spec_crates_view(v@), name@),
{
    let n = v.len();
    for idx in 0..n
        invariant
            n == v@.len(),
            forall|t: int| 0 <= t < idx ==> spec_crates_view(v@)[t].0 != name@,
    {
        if v[idx].0.eq(name) {
            proof {
                assert(spec_crates_view(v@)[idx as int].0 == name@);
            }
            return true;
        }
    }
    false
}

fn crates_members(a: &Vec<char>, i: usize, acc: Vec<(String, WorkspaceCrate)>) -> (r: Option<
    (Vec<(String, WorkspaceCrate)>, usize),
>)
    requires
        i <= a@.len(),
    ensures
        match r {
            Some(v) => spec_crates_members(a@, i as int, spec_crates_view(acc@)) == Some(
                (spec_crates_view(v.0@), v.1 as int),
            ) && i < v.1 <= a@.len(),
            None => spec_crates_members(a@, i as int, spec_crates_view(acc@)) is None,
        },
    decreases a@.len() - i,
{
    if i >= a.len() {
        return None;
    }
    let (name, j) = match string_at(a, i) {
        None => {
            return None;
        },
        Some(v) => v,
    };
    if crates_has_key(&acc, &name) {
        return None;
    }
    let p = skip_ws(a, j);
    if p >= a.len() || a[p] != ':' {
        return None;
    }
    let q = skip_ws(a, p + 1);
    let (c, r) = match crate_at(a, q) {
        None => {
            return None;
        },
        Some(v) => v,
    };
    let u = skip_ws(a, r);
    if u >= a.len() {
        return None;
    }
    if a[u] == ',' {
        let t = skip_ws(a, u + 1);
        let ghost old_acc = spec_crates_view(acc@);
        let mut acc2 = acc;
        acc2.push((name, c));
        proof {
            assert(spec_crates_view(acc2@) =~= old_acc.push((name@, c@)));
        }
        crates_members(a, t, acc2)
    } else if a[u] == '}' {
        let ghost old_acc = spec_crates_view(acc@);
        let mut acc2 = acc;
        acc2.push((name, c));
        proof {
            assert(spec_crates_view(acc2@) =~= old_acc.push((name@, c@)));
        }
        Some((acc2, u + 1))
    } else {
        None
    }
}

fn report_at(a: &Vec<char>) -> (r: Option<Report>)
    ensures
        match r {
            Some(rep) => spec_report_of(a@) == Some(rep@),
            None => spec_report_of(a@) is None,
        },
{
    let i = skip_ws(a, 0);
    if i >= a.len() {
        return None;
    }
    if a[i] != '{' {
        return None;
    }
    let j = skip_ws(a, i + 1);
    let empty: Vec<(String, WorkspaceCrate)> = Vec::new();
    proof {
        assert(spec_crates_view(empty@) =~= Seq::<(Seq<char>, CrateModel)>::empty());
    }
    if j < a.len() && a[j] == '}' {
        if skip_ws(a, j + 1) == a.len() {
            Some(Report { workspace_crates: empty })
        } else {
            None
        }
    } else {
        match crates_members(a, j, empty) {
            None => None,
            Some((cs, e)) => {
                if skip_ws(a, e) == a.len() {
                    Some(Report { workspace_crates: cs })
                } else {
                    None
                }
            },
        }
    }
}

/// Loads a report from the text of an analysis result. Success and each
/// failure are exact: `Ok` holds the report the text carries whenever the
/// text is well-formed JSON of the report shape, `ParseError` comes
/// exactly when the text is not well-formed JSON, and `SchemaError`
/// exactly when it is well-formed but of the wrong shape.
pub fn load_report(text: &str) -> (r: Result<Report, LoadError>)
    ensures
        match r {
            Ok(rep) => spec_json_valid(text@) && spec_report_of(text@) == Some(rep@),
            Err(e) => match e {
                LoadError::ParseError => !spec_json_valid(text@),
                LoadError::SchemaError => spec_json_valid(text@) && spec_report_of(text@) is None,
                LoadError::IoError => false,
            },
        },
{
    let chars = str_to_chars(text);
    if !json_valid(&chars) {
        return Err(LoadError::ParseError);
    }
    match report_at(&chars) {
        Some(rep) => Ok(rep),
        None => Err(LoadError::SchemaError),
    }
}

} // verus!
