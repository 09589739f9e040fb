//! Well-formedness of JSON text, stated as a recursive descent over the
//! character sequence and checked by a scanner that mirrors it.
//!
//! Each `spec_after_*` function gives the position just past one grammar
//! element starting at `i`, or `None` where the text breaks the grammar.
//! The defensive bound checks inside the recursive definitions keep every
//! recursion visibly descending; on positions the functions actually
//! produce they never cut anything off.
use vstd::prelude::*;

verus! {

/// JSON insignificant whitespace.
pub open spec fn is_ws(c: char) -> bool {
    c == ' ' || c == '\t' || c == '\n' || c == '\r'
}

/// An ASCII decimal digit.
pub open spec fn is_digit(c: char) -> bool {
    '0' as u32 <= c as u32 && c as u32 <= '9' as u32
}

/// An ASCII hexadecimal digit, either case.
pub open spec fn is_hex(c: char) -> bool {
    is_digit(c) || ('a' as u32 <= c as u32 && c as u32 <= 'f' as u32) || ('A' as u32 <= c as u32
        && c as u32 <= 'F' as u32)
}

/// The position of the first non-whitespace character at or after `i`.
pub open spec fn spec_skip_ws(s: Seq<char>, i: int) -> int
    decreases s.len() - i,
{
    if 0 <= i && i < s.len() && is_ws(s[i]) {
        spec_skip_ws(s, i + 1)
    } else {
        i
    }
}

/// The position just past a string body that starts at `i` (the opening
/// quote already consumed) and runs to its closing quote. Escapes are the
/// JSON ones: the eight single-character escapes and `\u` with four
/// hexadecimal digits; unescaped control characters are refused.
pub open spec fn spec_after_string_body(s: Seq<char>, i: int) -> Option<int>
    decreases s.len() - i,
{
    if i < 0 || i >= s.len() {
        None
    } else if s[i] == '"' {
        Some(i + 1)
    } else if s[i] == '\\' {
        if s.len() - i < 2 {
            None
        } else {
            let e = s[i + 1];
            if e == '"' || e == '\\' || e == '/' || e == 'b' || e == 'f' || e == 'n' || e == 'r'
                || e == 't' {
                spec_after_string_body(s, i + 2)
            } else if e == 'u' {
                if s.len() - i < 6 {
                    None
                } else if is_hex(s[i + 2]) && is_hex(s[i + 3]) && is_hex(s[i + 4]) && is_hex(
                    s[i + 5],
                ) {
                    spec_after_string_body(s, i + 6)
                } else {
                    None
                }
            } else {
                None
            }
        }
    } else if (s[i] as u32) < 0x20 {
        None
    } else {
        spec_after_string_body(s, i + 1)
    }
}

/// The position just past the run of decimal digits starting at `i`.
pub open spec fn spec_after_digits(s: Seq<char>, i: int) -> int
    decreases s.len() - i,
{
    if 0 <= i && i < s.len() && is_digit(s[i]) {
        spec_after_digits(s, i + 1)
    } else {
        i
    }
}

/// The position just past a JSON number starting at `i`: optional minus,
/// an integer part without leading zeros, an optional fraction, an
/// optional exponent.
pub open spec fn spec_after_number(s: Seq<char>, i: int) -> Option<int> {
    if i < 0 || i >= s.len() {
        None
    } else {
        let start = if s[i] == '-' {
            i + 1
        } else {
            i
        };
        if start >= s.len() || !is_digit(s[start]) {
            None
        } else {
            let int_end = if s[start] == '0' {
                start + 1
            } else {
                spec_after_digits(s, start)
            };
            if int_end < start + 1 || int_end > s.len() {
                None
            } else {
                let frac_end = if int_end < s.len() && s[int_end] == '.' {
                    let d = spec_after_digits(s, int_end + 1);
                    if d > int_end + 1 && d <= s.len() {
                        d
                    } else {
                        -1
                    }
                } else {
                    int_end
                };
                if frac_end < 0 {
                    None
                } else {
                    if frac_end < s.len() && (s[frac_end] == 'e' || s[frac_end] == 'E') {
                        let exp_start = if frac_end + 1 < s.len() && (s[frac_end + 1] == '+' || s[
                            frac_end + 1
                        ] == '-') {
                            frac_end + 2
                        } else {
                            frac_end + 1
                        };
                        let d = spec_after_digits(s, exp_start);
                        if d > exp_start && d <= s.len() {
                            Some(d)
                        } else {
                            None
                        }
                    } else {
                        Some(frac_end)
                    }
                }
            }
        }
    }
}

/// The position just past one JSON value starting at `i`: a string, an
/// object, an array, a number, or one of the literals true, false, null.
pub open spec fn spec_after_value(s: Seq<char>, i: int) -> Option<int>
    decreases s.len() - i, 1int,
{
    if i < 0 || i >= s.len() {
        None
    } else if s[i] == '"' {
        spec_after_string_body(s, i + 1)
    } else if s[i] == '{' {
        let j = spec_skip_ws(s, i + 1);
        if j <= i || j > s.len() {
            None
        } else if j < s.len() && s[j] == '}' {
            Some(j + 1)
        } else {
            spec_after_members(s, j)
        }
    } else if s[i] == '[' {
        let j = spec_skip_ws(s, i + 1);
        if j <= i || j > s.len() {
            None
        } else if j < s.len() && s[j] == ']' {
            Some(j + 1)
        } else {
            spec_after_elements(s, j)
        }
    } else if s[i] == 't' {
        if s.len() - i >= 4 && s[i + 1] == 'r' && s[i + 2] == 'u' && s[i + 3] == 'e' {
            Some(i + 4)
        } else {
            None
        }
    } else if s[i] == 'f' {
        if s.len() - i >= 5 && s[i + 1] == 'a' && s[i + 2] == 'l' && s[i + 3] == 's' && s[i + 4]
            == 'e' {
            Some(i + 5)
        } else {
            None
        }
    } else if s[i] == 'n' {
        if s.len() - i >= 4 && s[i + 1] == 'u' && s[i + 2] == 'l' && s[i + 3] == 'l' {
            Some(i + 4)
        } else {
            None
        }
    } else if s[i] == '-' || is_digit(s[i]) {
        spec_after_number(s, i)
    } else {
        None
    }
}

/// The position just past the members of an object, `i` standing on the
/// first key's opening quote, up to and past the closing brace.
pub open spec fn spec_after_members(s: Seq<char>, i: int) -> Option<int>
    decreases s.len() - i, 2int,
{
    if i < 0 || i >= s.len() || s[i] != '"' {
        None
    } else {
        match spec_after_string_body(s, i + 1) {
            None => None,
            Some(j) => {
                if j <= i || j > s.len() {
                    None
                } else {
                    let k = spec_skip_ws(s, j);
                    if k < j || k >= s.len() || s[k] != ':' {
                        None
                    } else {
                        let m = spec_skip_ws(s, k + 1);
                        if m <= i || m > s.len() {
                            None
                        } else {
                            match spec_after_value(s, m) {
                                None => None,
                                Some(v) => {
                                    if v <= m || v > s.len() {
                                        None
                                    } else {
                                        let p = spec_skip_ws(s, v);
                                        if p < v || p >= s.len() {
                                            None
                                        } else if s[p] == ',' {
                                            let q = spec_skip_ws(s, p + 1);
                                            if q <= p || q > s.len() {
                                                None
                                            } else {
                                                spec_after_members(s, q)
                                            }
                                        } else if s[p] == '}' {
                                            Some(p + 1)
                                        } else {
                                            None
                                        }
                                    }
                                },
                            }
                        }
                    }
                }
            },
        }
    }
}

/// The position just past the elements of an array, `i` standing on the
/// first element, up to and past the closing bracket.
pub open spec fn spec_after_elements(s: Seq<char>, i: int) -> Option<int>
    decreases s.len() - i, 2int,
{
    if i < 0 || i >= s.len() {
        None
    } else {
        match spec_after_value(s, i) {
            None => None,
            Some(v) => {
                if v <= i || v > s.len() {
                    None
                } else {
                    let p = spec_skip_ws(s, v);
                    if p < v || p >= s.len() {
                        None
                    } else if s[p] == ',' {
                        let q = spec_skip_ws(s, p + 1);
                        if q <= p || q > s.len() {
                            None
                        } else {
                            spec_after_elements(s, q)
                        }
                    } else if s[p] == ']' {
                        Some(p + 1)
                    } else {
                        None
                    }
                }
            },
        }
    }
}

/// Well-formed JSON text: optional whitespace, exactly one value,
/// optional whitespace, end of input.
pub open spec fn spec_json_valid(s: Seq<char>) -> bool {
    let i = spec_skip_ws(s, 0);
    match spec_after_value(s, i) {
        None => false,
        Some(j) => j <= s.len() && spec_skip_ws(s, j) == s.len(),
    }
}

pub fn is_ws_char(c: char) -> (r: bool)
    ensures
        r == is_ws(c),
{
    c == ' ' || c == '\t' || c == '\n' || c == '\r'
}

pub fn is_digit_char(c: char) -> (r: bool)
    ensures
        r == is_digit(c),
{
    c as u32 >= '0' as u32 && c as u32 <= '9' as u32
}

pub fn is_hex_char(c: char) -> (r: bool)
    ensures
        r == is_hex(c),
{
    is_digit_char(c) || (c as u32 >= 'a' as u32 && c as u32 <= 'f' as u32) || (c as u32
        >= 'A' as u32 && c as u32 <= 'F' as u32)
}

/// Walks past whitespace, exactly as `spec_skip_ws` states.
pub fn skip_ws(a: &Vec<char>, i: usize) -> (r: usize)
    requires
        i <= a@.len(),
    ensures
        r as int == spec_skip_ws(a@, i as int),
        i <= r <= a@.len(),
{
    let mut j = i;
    while j < a.len() && is_ws_char(a[j])
        invariant
            i <= j <= a@.len(),
            spec_skip_ws(a@, i as int) == spec_skip_ws(a@, j as int),
        decreases a@.len() - j,
    {
        j = j + 1;
    }
    j
}

fn after_string_body(a: &Vec<char>, i: usize) -> (r: Option<usize>)
    requires
        i <= a@.len(),
    ensures
        match r {
            Some(j) => spec_after_string_body(a@, i as int) == Some(j as int) && i < j <= a@.len(),
            None => spec_after_string_body(a@, i as int) is None,
        },
    decreases a@.len() - i,
{
    if i >= a.len() {
        None
    } else if a[i] == '"' {
        Some(i + 1)
    } else if a[i] == '\\' {
        if a.len() - i < 2 {
            None
        } else {
            let e = a[i + 1];
            if e == '"' || e == '\\' || e == '/' || e == 'b' || e == 'f' || e == 'n' || e == 'r'
                || e == 't' {
                after_string_body(a, i + 2)
            } else if e == 'u' {
                if a.len() - i < 6 {
                    None
                } else if is_hex_char(a[i + 2]) && is_hex_char(a[i + 3]) && is_hex_char(a[i + 4])
                    && is_hex_char(a[i + 5]) {
                    after_string_body(a, i + 6)
                } else {
                    None
                }
            } else {
                None
            }
        }
    } else if (a[i] as u32) < 0x20 {
        None
    } else {
        after_string_body(a, i + 1)
    }
}

fn after_digits(a: &Vec<char>, i: usize) -> (r: usize)
    requires
        i <= a@.len(),
    ensures
        r as int == spec_after_digits(a@, i as int),
        i <= r <= a@.len(),
{
    let mut j = i;
    while j < a.len() && is_digit_char(a[j])
        invariant
            i <= j <= a@.len(),
            spec_after_digits(a@, i as int) == spec_after_digits(a@, j as int),
        decreases a@.len() - j,
    {
        j = j + 1;
    }
    j
}

fn after_number(a: &Vec<char>, i: usize) -> (r: Option<usize>)
    requires
        i <= a@.len(),
    ensures
        match r {
            Some(j) => spec_after_number(a@, i as int) == Some(j as int) && i < j <= a@.len(),
            None => spec_after_number(a@, i as int) is None,
        },
{
    if i >= a.len() {
        return None;
    }
    let start = if a[i] == '-' {
        i + 1
    } else {
        i
    };
    if start >= a.len() || !is_digit_char(a[start]) {
        return None;
    }
    let int_end = if a[start] == '0' {
        start + 1
    } else {
        after_digits(a, start)
    };
    if int_end <= start {
        return None;
    }
    let frac_end = if int_end < a.len() && a[int_end] == '.' {
        let d = after_digits(a, int_end + 1);
        if d > int_end + 1 {
            d
        } else {
            return None;
        }
    } else {
        int_end
    };
    if frac_end < a.len() && (a[frac_end] == 'e' || a[frac_end] == 'E') {
        let exp_start = if frac_end + 1 < a.len() && (a[frac_end + 1] == '+' || a[frac_end + 1]
            == '-') {
            frac_end + 2
        } else {
            frac_end + 1
        };
        let d = after_digits(a, exp_start);
        if d > exp_start {
            Some(d)
        } else {
            None
        }
    } else {
        Some(frac_end)
    }
}

fn after_value(a: &Vec<char>, i: usize) -> (r: Option<usize>)
    requires
        i <= a@.len(),
    ensures
        match r {
            Some(j) => spec_after_value(a@, i as int) == Some(j as int) && i < j <= a@.len(),
            None => spec_after_value(a@, i as int) is None,
        },
    decreases a@.len() - i, 1int,
{
    if i >= a.len() {
        None
    } else if a[i] == '"' {
        after_string_body(a, i + 1)
    } else if a[i] == '{' {
        let j = skip_ws(a, i + 1);
        if j < a.len() && a[j] == '}' {
            Some(j + 1)
        } else {
            after_members(a, j)
        }
    } else if a[i] == '[' {
        let j = skip_ws(a, i + 1);
        if j < a.len() && a[j] == ']' {
            Some(j + 1)
        } else {
            after_elements(a, j)
        }
    } else if a[i] == 't' {
        if a.len() - i >= 4 && a[i + 1] == 'r' && a[i + 2] == 'u' && a[i + 3] == 'e' {
            Some(i + 4)
        } else {
            None
        }
    } else if a[i] == 'f' {
        if a.len() - i >= 5 && a[i + 1] == 'a' && a[i + 2] == 'l' && a[i + 3] == 's' && a[i + 4]
            == 'e' {
            Some(i + 5)
        } else {
            None
        }
    } else if a[i] == 'n' {
        if a.len() - i >= 4 && a[i + 1] == 'u' && a[i + 2] == 'l' && a[i + 3] == 'l' {
            Some(i + 4)
        } else {
            None
        }
    } else if a[i] == '-' || is_digit_char(a[i]) {
        after_number(a, i)
    } else {
        None
    }
}

fn after_members(a: &Vec<char>, i: usize) -> (r: Option<usize>)
    requires
        i <= a@.len(),
    ensures
        match r {
            Some(j) => spec_after_members(a@, i as int) == Some(j as int) && i < j <= a@.len(),
            None => spec_after_members(a@, i as int) is None,
        },
    decreases a@.len() - i, 2int,
{
    if i >= a.len() || a[i] != '"' {
        return None;
    }
    let j = match after_string_body(a, i + 1) {
        None => {
            return None;
        },
        Some(j) => j,
    };
    let k = skip_ws(a, j);
    if k >= a.len() || a[k] != ':' {
        return None;
    }
    let m = skip_ws(a, k + 1);
    let v = match after_value(a, m) {
        None => {
            return None;
        },
        Some(v) => v,
    };
    let p = skip_ws(a, v);
    if p >= a.len() {
        None
    } else if a[p] == ',' {
        let q = skip_ws(a, p + 1);
        after_members(a, q)
    } else if a[p] == '}' {
        Some(p + 1)
    } else {
        None
    }
}

fn after_elements(a: &Vec<char>, i: usize) -> (r: Option<usize>)
    requires
        i <= a@.len(),
    ensures
        match r {
            Some(j) => spec_after_elements(a@, i as int) == Some(j as int) && i < j <= a@.len(),
            None => spec_after_elements(a@, i as int) is None,
        },
    decreases a@.len() - i, 2int,
{
    if i >= a.len() {
        return None;
    }
    let v = match after_value(a, i) {
        None => {
            return None;
        },
        Some(v) => v,
    };
    let p = skip_ws(a, v);
    if p >= a.len() {
        None
    } else if a[p] == ',' {
        let q = skip_ws(a, p + 1);
        after_elements(a, q)
    } else if a[p] == ']' {
        Some(p + 1)
    } else {
        None
    }
}

/// Decides whether the characters form well-formed JSON text, exactly as
/// `spec_json_valid` states.
pub fn json_valid(a: &Vec<char>) -> (r: bool)
    ensures
        r == spec_json_valid(a@),
{
    let i = skip_ws(a, 0);
    match after_value(a, i) {
        None => false,
        Some(j) => skip_ws(a, j) == a.len(),
    }
}

} // verus!
