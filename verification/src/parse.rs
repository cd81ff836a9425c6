//! Parsing wire text back into JSON trees.
//!
//! The grammar is defined by the `spec` functions; the executable parser
//! returns exactly what they describe.  Numbers must fit the signed 64-bit
//! range and floating-point forms are rejected: every number this protocol's
//! envelope carries is an integer.

use vstd::prelude::*;
use crate::json::{JsonV, JsonValue, jv_items, jv_fields, lemma_jv_items, lemma_jv_fields, push_char};

verus! {

pub open spec fn is_ws(c: char) -> bool {
    c == ' ' || c == '\n' || c == '\r' || c == '\t'
}

/// Value of a decimal digit character, -1 for any other character.
pub open spec fn digit_val(c: char) -> int {
    if c == '0' {
        0
    } else if c == '1' {
        1
    } else if c == '2' {
        2
    } else if c == '3' {
        3
    } else if c == '4' {
        4
    } else if c == '5' {
        5
    } else if c == '6' {
        6
    } else if c == '7' {
        7
    } else if c == '8' {
        8
    } else if c == '9' {
        9
    } else {
        -1
    }
}

pub open spec fn is_digit(c: char) -> bool {
    digit_val(c) >= 0
}

/// What a backslash escape stands for; None for escapes this dialect
/// does not accept.
pub open spec fn unescape_char(c: char) -> Option<char> {
    if c == '"' {
        Some('"')
    } else if c == '\\' {
        Some('\\')
    } else if c == '/' {
        Some('/')
    } else if c == 'n' {
        Some('\n')
    } else if c == 'r' {
        Some('\r')
    } else if c == 't' {
        Some('\t')
    } else if c == 'b' {
        Some('\u{0008}')
    } else if c == 'f' {
        Some('\u{000c}')
    } else {
        None
    }
}

/// First position at or after `i` holding no whitespace.
pub open spec fn ws_end(s: Seq<char>, i: int) -> int
    decreases s.len() - i,
{
    if 0 <= i < s.len() && is_ws(s[i]) {
        let r = ws_end(s, i + 1);
        if r >= i {
            r
        } else {
            i
        }
    } else {
        i
    }
}

pub proof fn lemma_ws_end(s: Seq<char>, i: int)
    requires
        0 <= i <= s.len(),
    ensures
        i <= ws_end(s, i) <= s.len(),
        forall|k: int| i <= k < ws_end(s, i) ==> is_ws(s[k]),
        ws_end(s, i) < s.len() ==> !is_ws(s[ws_end(s, i)]),
    decreases s.len() - i,
{
    if i < s.len() && is_ws(s[i]) {
        lemma_ws_end(s, i + 1);
    }
}

/// String body after the opening quote: the characters read and the
/// position just past the closing quote.
pub open spec fn parse_string_rest(s: Seq<char>, i: int) -> Option<(Seq<char>, int)>
    decreases s.len() - i,
{
    if !(0 <= i < s.len()) {
        None
    } else if s[i] == '"' {
        Some((Seq::empty(), i + 1))
    } else if s[i] == '\\' {
        if i + 1 < s.len() {
            match unescape_char(s[i + 1]) {
                Some(c) => match parse_string_rest(s, i + 2) {
                    Some((rest, j)) => Some((seq![c] + rest, j)),
                    None => None,
                },
                None => None,
            }
        } else {
            None
        }
    } else {
        match parse_string_rest(s, i + 1) {
            Some((rest, j)) => Some((seq![s[i]] + rest, j)),
            None => None,
        }
    }
}

/// Digits from `i` on, folded onto `acc`; None when the magnitude would
/// leave what a signed 64-bit number can carry (one past the positive
/// maximum, since a leading minus may still negate it).
pub open spec fn parse_digits(s: Seq<char>, i: int, acc: int) -> Option<(int, int)>
    decreases s.len() - i,
{
    if 0 <= i < s.len() && is_digit(s[i]) {
        if acc > (0x8000_0000_0000_0000 - digit_val(s[i])) / 10 {
            None
        } else {
            parse_digits(s, i + 1, acc * 10 + digit_val(s[i]))
        }
    } else {
        Some((acc, i))
    }
}

/// A number: optional minus, digits, and no fraction or exponent tail.
pub open spec fn parse_int(s: Seq<char>, i: int) -> Option<(JsonV, int)> {
    let (neg, d0) = if 0 <= i < s.len() && s[i] == '-' {
        (true, i + 1)
    } else {
        (false, i)
    };
    if 0 <= d0 < s.len() && is_digit(s[d0]) {
        match parse_digits(s, d0 + 1, digit_val(s[d0])) {
            Some((mag, j)) => if j < s.len() && (s[j] == '.' || s[j] == 'e' || s[j] == 'E') {
                None
            } else if !neg && mag > 0x7fff_ffff_ffff_ffff {
                None
            } else {
                Some((JsonV::Int((if neg { -mag } else { mag }) as i64), j))
            },
            None => None,
        }
    } else {
        None
    }
}

/// A JSON value, leading whitespace allowed; the position returned is the
/// first character after the value.
pub open spec fn parse_value(s: Seq<char>, i: int) -> Option<(JsonV, int)>
    decreases s.len() - i, 0int,
{
    if !(0 <= i < s.len()) {
        None
    } else if is_ws(s[i]) {
        parse_value(s, i + 1)
    } else if s[i] == 'n' {
        if s.len() - i >= 4 && s[i + 1] == 'u' && s[i + 2] == 'l' && s[i + 3] == 'l' {
            Some((JsonV::Null, i + 4))
        } else {
            None
        }
    } else if s[i] == 't' {
        if s.len() - i >= 4 && s[i + 1] == 'r' && s[i + 2] == 'u' && s[i + 3] == 'e' {
            Some((JsonV::Bool(true), i + 4))
        } else {
            None
        }
    } else if s[i] == 'f' {
        if s.len() - i >= 5 && s[i + 1] == 'a' && s[i + 2] == 'l' && s[i + 3] == 's' && s[i + 4]
            == 'e' {
            Some((JsonV::Bool(false), i + 5))
        } else {
            None
        }
    } else if s[i] == '"' {
        match parse_string_rest(s, i + 1) {
            Some((str_chars, j)) => Some((JsonV::Str(str_chars), j)),
            None => None,
        }
    } else if s[i] == '[' {
        match parse_items(s, i + 1) {
            Some((items, j)) => Some((JsonV::Arr(items), j)),
            None => None,
        }
    } else if s[i] == '{' {
        match parse_fields(s, i + 1) {
            Some((fields, j)) => Some((JsonV::Obj(fields), j)),
            None => None,
        }
    } else if s[i] == '-' || is_digit(s[i]) {
        parse_int(s, i)
    } else {
        None
    }
}

/// Array body after '[': empty, or a first element followed by the tail.
pub open spec fn parse_items(s: Seq<char>, i: int) -> Option<(Seq<JsonV>, int)>
    decreases s.len() - i, 1int,
{
    if !(0 <= i <= s.len()) {
        None
    } else {
        let a = ws_end(s, i);
        if a < s.len() && s[a] == ']' {
            Some((Seq::empty(), a + 1))
        } else {
            match parse_value(s, i) {
                Some((v, j)) => if j <= i || j > s.len() {
                    None
                } else {
                    match parse_more_items(s, j) {
                        Some((rest, k)) => Some((seq![v] + rest, k)),
                        None => None,
                    }
                },
                None => None,
            }
        }
    }
}

/// Array tail: either ']' or ',' and a further element, repeatedly.
pub open spec fn parse_more_items(s: Seq<char>, i: int) -> Option<(Seq<JsonV>, int)>
    decreases s.len() - i, 1int,
{
    if !(0 <= i <= s.len()) {
        None
    } else {
        let a = ws_end(s, i);
        if a < s.len() && s[a] == ']' {
            Some((Seq::empty(), a + 1))
        } else if a < s.len() && s[a] == ',' {
            match parse_value(s, a + 1) {
                Some((v, j)) => if j <= i || j > s.len() {
                    None
                } else {
                    match parse_more_items(s, j) {
                        Some((rest, k)) => Some((seq![v] + rest, k)),
                        None => None,
                    }
                },
                None => None,
            }
        } else {
            None
        }
    }
}

/// Object body after '{': empty, or a first member followed by the tail.
pub open spec fn parse_fields(s: Seq<char>, i: int) -> Option<(Seq<(Seq<char>, JsonV)>, int)>
    decreases s.len() - i, 1int,
{
    if !(0 <= i <= s.len()) {
        None
    } else {
        let a = ws_end(s, i);
        if a < s.len() && s[a] == '}' {
            Some((Seq::empty(), a + 1))
        } else if a < s.len() && s[a] == '"' {
            match parse_member(s, a) {
                Some((k, v, j)) => if j <= a || j > s.len() {
                    None
                } else {
                    match parse_more_fields(s, j) {
                        Some((rest, m)) => Some((seq![(k, v)] + rest, m)),
                        None => None,
                    }
                },
                None => None,
            }
        } else {
            None
        }
    }
}

/// Object tail: either '}' or ',' and a further member, repeatedly.
pub open spec fn parse_more_fields(s: Seq<char>, i: int) -> Option<(Seq<(Seq<char>, JsonV)>, int)>
    decreases s.len() - i, 1int,
{
    if !(0 <= i <= s.len()) {
        None
    } else {
        let a = ws_end(s, i);
        if a < s.len() && s[a] == '}' {
            Some((Seq::empty(), a + 1))
        } else if a < s.len() && s[a] == ',' {
            let b = ws_end(s, a + 1);
            if b < s.len() && s[b] == '"' {
                match parse_member(s, b) {
                    Some((k, v, j)) => if j <= a + 1 || j > s.len() {
                        None
                    } else {
                        match parse_more_fields(s, j) {
                            Some((rest, m)) => Some((seq![(k, v)] + rest, m)),
                            None => None,
                        }
                    },
                    None => None,
                }
            } else {
                None
            }
        } else {
            None
        }
    }
}

/// One `"key" : value` member, starting at the opening quote of the key.
pub open spec fn parse_member(s: Seq<char>, i: int) -> Option<(Seq<char>, JsonV, int)>
    decreases s.len() - i, 0int,
{
    if !(0 <= i < s.len() && s[i] == '"') {
        None
    } else {
        match parse_string_rest(s, i + 1) {
            Some((k, jk)) => {
                let b = ws_end(s, jk);
                if jk <= i {
                    None
                } else if b < s.len() && s[b] == ':' {
                    match parse_value(s, b + 1) {
                        Some((v, j)) => Some((k, v, j)),
                        None => None,
                    }
                } else {
                    None
                }
            },
            None => None,
        }
    }
}

/// A whole document: one value and nothing but whitespace after it.
pub open spec fn spec_parse(s: Seq<char>) -> Option<JsonV> {
    match parse_value(s, 0) {
        Some((v, j)) => if 0 <= j <= s.len() && ws_end(s, j) == s.len() {
            Some(v)
        } else {
            None
        },
        None => None,
    }
}

fn e_digit_val(c: char) -> (d: i64)
    ensures
        d as int == digit_val(c),
{
    if c == '0' {
        0
    } else if c == '1' {
        1
    } else if c == '2' {
        2
    } else if c == '3' {
        3
    } else if c == '4' {
        4
    } else if c == '5' {
        5
    } else if c == '6' {
        6
    } else if c == '7' {
        7
    } else if c == '8' {
        8
    } else if c == '9' {
        9
    } else {
        -1
    }
}

fn e_is_ws(c: char) -> (b: bool)
    ensures
        b == is_ws(c),
{
    c == ' ' || c == '\n' || c == '\r' || c == '\t'
}

fn e_ws_end(s: &Vec<char>, i: usize) -> (j: usize)
    requires
        i <= s@.len(),
    ensures
        j as int == ws_end(s@, i as int),
        i <= j <= s@.len(),
{
    let mut j = i;
    loop
        invariant
            i <= j <= s@.len(),
            ws_end(s@, j as int) == ws_end(s@, i as int),
        decreases s@.len() - j,
    {
        if j < s.len() && e_is_ws(s[j]) {
            proof {
                lemma_ws_end(s@, j as int + 1);
            }
            j = j + 1;
        } else {
            return j;
        }
    }
}

fn e_string_rest(s: &Vec<char>, i: usize) -> (r: Option<(String, usize)>)
    requires
        i <= s@.len(),
    ensures
        match r {
            Some((out, j)) => parse_string_rest(s@, i as int) == Some((out@, j as int)) && i < j
                <= s@.len(),
            None => parse_string_rest(s@, i as int) is None,
        },
    decreases s@.len() - i,
{
    if i >= s.len() {
        return None;
    }
    let c = s[i];
    if c == '"' {
        return Some((String::new(), i + 1));
    }
    if c == '\\' {
        if i + 1 < s.len() {
            let e = s[i + 1];
            let u: Option<char> = if e == '"' {
                Some('"')
            } else if e == '\\' {
                Some('\\')
            } else if e == '/' {
                Some('/')
            } else if e == 'n' {
                Some('\n')
            } else if e == 'r' {
                Some('\r')
            } else if e == 't' {
                Some('\t')
            } else if e == 'b' {
                Some('\u{0008}')
            } else if e == 'f' {
                Some('\u{000c}')
            } else {
                None
            };
            assert(u == unescape_char(e));
            match u {
                Some(uc) => match e_string_rest(s, i + 2) {
                    Some((rest, j)) => {
                        let mut out = String::new();
                        push_char(&mut out, uc);
                        out.append(rest.as_str());
                        proof {
                            assert(out@ =~= seq![uc] + rest@);
                        }
                        Some((out, j))
                    },
                    None => None,
                },
                None => None,
            }
        } else {
            None
        }
    } else {
        match e_string_rest(s, i + 1) {
            Some((rest, j)) => {
                let mut out = String::new();
                push_char(&mut out, c);
                out.append(rest.as_str());
                proof {
                    assert(out@ =~= seq![c] + rest@);
                }
                Some((out, j))
            },
            None => None,
        }
    }
}

fn e_digits(s: &Vec<char>, i: usize, acc: u64) -> (r: Option<(u64, usize)>)
    requires
        i <= s@.len(),
        acc <= 0x8000_0000_0000_0000,
    ensures
        match r {
            Some((v, j)) => parse_digits(s@, i as int, acc as int) == Some((v as int, j as int))
                && v <= 0x8000_0000_0000_0000 && i <= j <= s@.len(),
            None => parse_digits(s@, i as int, acc as int) is None,
        },
    decreases s@.len() - i,
{
    if i < s.len() {
        let d = e_digit_val(s[i]);
        if d >= 0 {
            let du = d as u64;
            if acc > (0x8000_0000_0000_0000u64 - du) / 10 {
                return None;
            }
            proof {
                assert(acc * 10 + du <= 0x8000_0000_0000_0000) by (nonlinear_arith)
                    requires
                        0 <= du <= 9,
                        acc <= (0x8000_0000_0000_0000 - du) / 10,
                ;
            }
            return e_digits(s, i + 1, acc * 10 + du);
        }
    }
    Some((acc, i))
}

fn e_int(s: &Vec<char>, i: usize) -> (r: Option<(JsonValue, usize)>)
    requires
        i < s@.len(),
        s@[i as int] == '-' || is_digit(s@[i as int]),
    ensures
        match r {
            Some((v, j)) => parse_int(s@, i as int) == Some((v@, j as int)) && i < j <= s@.len(),
            None => parse_int(s@, i as int) is None,
        },
{
    let n = s.len();
    let neg = s[i] == '-';
    let d0 = if neg {
        i + 1
    } else {
        i
    };
    if d0 < n {
        let first = e_digit_val(s[d0]);
        if first >= 0 {
            match e_digits(s, d0 + 1, first as u64) {
                Some((mag, j)) => {
                    if j < s.len() && (s[j] == '.' || s[j] == 'e' || s[j] == 'E') {
                        return None;
                    }
                    if !neg && mag > 0x7fff_ffff_ffff_ffffu64 {
                        return None;
                    }
                    let value: i64 = if neg {
                        if mag == 0x8000_0000_0000_0000u64 {
                            i64::MIN
                        } else {
                            -(mag as i64)
                        }
                    } else {
                        mag as i64
                    };
                    return Some((JsonValue::Int(value), j));
                },
                None => {
                    return None;
                },
            }
        }
    }
    None
}

fn e_value(s: &Vec<char>, i: usize) -> (r: Option<(JsonValue, usize)>)
    requires
        i <= s@.len(),
    ensures
        match r {
            Some((v, j)) => parse_value(s@, i as int) == Some((v@, j as int)) && i < j <= s@.len(),
            None => parse_value(s@, i as int) is None,
        },
    decreases s@.len() - i, 0int,
{
    if i >= s.len() {
        return None;
    }
    let c = s[i];
    if e_is_ws(c) {
        return e_value(s, i + 1);
    }
    if c == 'n' {
        if s.len() - i >= 4 && s[i + 1] == 'u' && s[i + 2] == 'l' && s[i + 3] == 'l' {
            return Some((JsonValue::Null, i + 4));
        }
        return None;
    }
    if c == 't' {
        if s.len() - i >= 4 && s[i + 1] == 'r' && s[i + 2] == 'u' && s[i + 3] == 'e' {
            return Some((JsonValue::Bool(true), i + 4));
        }
        return None;
    }
    if c == 'f' {
        if s.len() - i >= 5 && s[i + 1] == 'a' && s[i + 2] == 'l' && s[i + 3] == 's' && s[i + 4]
            == 'e' {
            return Some((JsonValue::Bool(false), i + 5));
        }
        return None;
    }
    if c == '"' {
        return match e_string_rest(s, i + 1) {
            Some((out, j)) => Some((JsonValue::Str(out), j)),
            None => None,
        };
    }
    if c == '[' {
        return match e_items(s, i + 1) {
            Some((items, j)) => Some((JsonValue::Arr(items), j)),
            None => None,
        };
    }
    if c == '{' {
        return match e_fields(s, i + 1) {
            Some((fields, j)) => Some((JsonValue::Obj(fields), j)),
            None => None,
        };
    }
    let d = e_digit_val(c);
    if c == '-' || d >= 0 {
        return e_int(s, i);
    }
    None
}

fn e_items(s: &Vec<char>, i: usize) -> (r: Option<(Vec<JsonValue>, usize)>)
    requires
        i <= s@.len(),
    ensures
        match r {
            Some((items, j)) => parse_items(s@, i as int) == Some((jv_items(items@), j as int))
                && i < j <= s@.len(),
            None => parse_items(s@, i as int) is None,
        },
    decreases s@.len() - i, 1int,
{
    let a = e_ws_end(s, i);
    if a < s.len() && s[a] == ']' {
        let empty: Vec<JsonValue> = Vec::new();
        proof {
            assert(jv_items(empty@) =~= Seq::<JsonV>::empty());
        }
        return Some((empty, a + 1));
    }
    match e_value(s, i) {
        Some((v, j)) => {
            match e_more_items(s, j) {
                Some((mut rest, k)) => {
                    let ghost restv = rest@;
                    let mut out: Vec<JsonValue> = Vec::new();
                    out.push(v);
                    out.append(&mut rest);
                    proof {
                        lemma_jv_items(out@);
                        lemma_jv_items(restv);
                        assert(jv_items(out@) =~= seq![v@] + jv_items(restv));
                    }
                    Some((out, k))
                },
                None => None,
            }
        },
        None => None,
    }
}

fn e_more_items(s: &Vec<char>, i: usize) -> (r: Option<(Vec<JsonValue>, usize)>)
    requires
        i <= s@.len(),
    ensures
        match r {
            Some((items, j)) => parse_more_items(s@, i as int) == Some(
                (jv_items(items@), j as int),
            ) && i < j <= s@.len(),
            None => parse_more_items(s@, i as int) is None,
        },
    decreases s@.len() - i, 1int,
{
    let a = e_ws_end(s, i);
    if a < s.len() && s[a] == ']' {
        let empty: Vec<JsonValue> = Vec::new();
        proof {
            assert(jv_items(empty@) =~= Seq::<JsonV>::empty());
        }
        return Some((empty, a + 1));
    }
    if a < s.len() && s[a] == ',' {
        match e_value(s, a + 1) {
            Some((v, j)) => {
                match e_more_items(s, j) {
                    Some((mut rest, k)) => {
                        let ghost restv = rest@;
                        let mut out: Vec<JsonValue> = Vec::new();
                        out.push(v);
                        out.append(&mut rest);
                        proof {
                            lemma_jv_items(out@);
                            lemma_jv_items(restv);
                            assert(jv_items(out@) =~= seq![v@] + jv_items(restv));
                        }
                        Some((out, k))
                    },
                    None => None,
                }
            },
            None => None,
        }
    } else {
        None
    }
}

fn e_member(s: &Vec<char>, i: usize) -> (r: Option<(String, JsonValue, usize)>)
    requires
        i <= s@.len(),
    ensures
        match r {
            Some((k, v, j)) => parse_member(s@, i as int) == Some((k@, v@, j as int)) && i < j
                <= s@.len(),
            None => parse_member(s@, i as int) is None,
        },
    decreases s@.len() - i, 0int,
{
    if !(i < s.len() && s[i] == '"') {
        return None;
    }
    match e_string_rest(s, i + 1) {
        Some((k, jk)) => {
            let b = e_ws_end(s, jk);
            if b < s.len() && s[b] == ':' {
                match e_value(s, b + 1) {
                    Some((v, j)) => Some((k, v, j)),
                    None => None,
                }
            } else {
                None
            }
        },
        None => None,
    }
}

fn e_fields(s: &Vec<char>, i: usize) -> (r: Option<(Vec<(String, JsonValue)>, usize)>)
    requires
        i <= s@.len(),
    ensures
        match r {
            Some((fields, j)) => parse_fields(s@, i as int) == Some(
                (jv_fields(fields@), j as int),
            ) && i < j <= s@.len(),
            None => parse_fields(s@, i as int) is None,
        },
    decreases s@.len() - i, 1int,
{
    let a = e_ws_end(s, i);
    if a < s.len() && s[a] == '}' {
        let empty: Vec<(String, JsonValue)> = Vec::new();
        proof {
            assert(jv_fields(empty@) =~= Seq::<(Seq<char>, JsonV)>::empty());
        }
        return Some((empty, a + 1));
    }
    if a < s.len() && s[a] == '"' {
        match e_member(s, a) {
            Some((k, v, j)) => {
                match e_more_fields(s, j) {
                    Some((mut rest, m)) => {
                        let ghost restv = rest@;
                        let ghost kv = k@;
                        let ghost vv = v@;
                        let mut out: Vec<(String, JsonValue)> = Vec::new();
                        out.push((k, v));
                        out.append(&mut rest);
                        proof {
                            lemma_jv_fields(out@);
                            lemma_jv_fields(restv);
                            assert(jv_fields(out@) =~= seq![(kv, vv)] + jv_fields(restv));
                        }
                        Some((out, m))
                    },
                    None => None,
                }
            },
            None => None,
        }
    } else {
        None
    }
}

fn e_more_fields(s: &Vec<char>, i: usize) -> (r: Option<(Vec<(String, JsonValue)>, usize)>)
    requires
        i <= s@.len(),
    ensures
        match r {
            Some((fields, j)) => parse_more_fields(s@, i as int) == Some(
                (jv_fields(fields@), j as int),
            ) && i < j <= s@.len(),
            None => parse_more_fields(s@, i as int) is None,
        },
    decreases s@.len() - i, 1int,
{
    let a = e_ws_end(s, i);
    if a < s.len() && s[a] == '}' {
        let empty: Vec<(String, JsonValue)> = Vec::new();
        proof {
            assert(jv_fields(empty@) =~= Seq::<(Seq<char>, JsonV)>::empty());
        }
        return Some((empty, a + 1));
    }
    if a < s.len() && s[a] == ',' {
        let b = e_ws_end(s, a + 1);
        if b < s.len() && s[b] == '"' {
            match e_member(s, b) {
                Some((k, v, j)) => {
                    match e_more_fields(s, j) {
                        Some((mut rest, m)) => {
                            let ghost restv = rest@;
                            let ghost kv = k@;
                            let ghost vv = v@;
                            let mut out: Vec<(String, JsonValue)> = Vec::new();
                            out.push((k, v));
                            out.append(&mut rest);
                            proof {
                                lemma_jv_fields(out@);
                                lemma_jv_fields(restv);
                                assert(jv_fields(out@) =~= seq![(kv, vv)] + jv_fields(restv));
                            }
                            Some((out, m))
                        },
                        None => None,
                    }
                },
                None => None,
            }
        } else {
            None
        }
    } else {
        None
    }
}

/// The characters of a string slice, in order.
pub fn chars_of(s: &str) -> (r: Vec<char>)
    ensures
        r@ == s@,
{
    let n = s.unicode_len();
    let mut out: Vec<char> = Vec::new();
    let mut i: usize = 0;
    while i < n
        invariant
            i <= n,
            n == s@.len(),
            out@ == s@.take(i as int),
        decreases n - i,
    {
        out.push(s.get_char(i));
        proof {
            assert(s@.take(i as int + 1) =~= s@.take(i as int).push(s@[i as int]));
        }
        i = i + 1;
    }
    proof {
        assert(s@.take(n as int) =~= s@);
    }
    out
}

/// Parse one JSON document from wire text.
pub fn parse_text(text: &str) -> (r: Option<JsonValue>)
    ensures
        match r {
            Some(v) => spec_parse(text@) == Some(v@),
            None => spec_parse(text@) is None,
        },
{
    let s = chars_of(text);
    match e_value(&s, 0) {
        Some((v, j)) => {
            let e = e_ws_end(&s, j);
            if e == s.len() {
                Some(v)
            } else {
                None
            }
        },
        None => None,
    }
}

} // verus!
