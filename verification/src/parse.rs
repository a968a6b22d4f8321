//! A verified JSON parser for one line of text.
//!
//! The grammar is given once as a family of specification functions
//! (`sp_*`), and the executable parser is proved to return exactly what
//! they describe. Objects keep members in source order; numbers keep their
//! exact token text; unknown structure is the caller's concern.

use vstd::prelude::*;

use crate::json::{Json, JsonV, view_json, view_arr, view_obj, lemma_view_arr, lemma_view_obj};

verus! {

/// Whether `c` is JSON whitespace.
pub open spec fn is_ws(c: char) -> bool {
    c == ' ' || c == '\t' || c == '\n' || c == '\r'
}

/// Whether `c` is a decimal digit.
pub open spec fn is_dig(c: char) -> bool {
    '0' <= c && c <= '9'
}

/// The value of a hexadecimal digit character, if it is one.
pub open spec fn hex_val(c: char) -> Option<u32> {
    if '0' <= c && c <= '9' {
        Some((c as u32 - '0' as u32) as u32)
    } else if 'a' <= c && c <= 'f' {
        Some((c as u32 - 'a' as u32 + 10) as u32)
    } else if 'A' <= c && c <= 'F' {
        Some((c as u32 - 'A' as u32 + 10) as u32)
    } else {
        None
    }
}

/// The scalar value of a character.
pub open spec fn code_of(c: char) -> u32 {
    c as u32
}

/// The character whose scalar value is `n`.
pub open spec fn char_of(n: u32) -> char {
    choose|c: char| code_of(c) == n
}

/// Whether `n` is a unicode scalar value, so that a character carries it.
pub open spec fn is_scalar(n: u32) -> bool {
    n < 0xD800 || (0xE000 <= n && n < 0x110000)
}

/// The position of the first non-whitespace character at or after `pos`.
pub open spec fn sp_ws(s: Seq<char>, pos: int) -> int
    decreases s.len() - pos,
{
    if 0 <= pos < s.len() && is_ws(s[pos]) {
        sp_ws(s, pos + 1)
    } else {
        pos
    }
}

/// The position just after the run of decimal digits starting at `pos`.
pub open spec fn sp_digits(s: Seq<char>, pos: int) -> int
    decreases s.len() - pos,
{
    if 0 <= pos < s.len() && is_dig(s[pos]) {
        sp_digits(s, pos + 1)
    } else {
        pos
    }
}

/// The decoded replacement for the escape sequence starting at the
/// backslash at `pos - 1` (so `pos` is at the escape letter), together
/// with the position after it.
pub open spec fn sp_escape(s: Seq<char>, pos: int) -> Option<(Seq<char>, int)> {
    if pos >= s.len() {
        None
    } else if s[pos] == '"' {
        Some((seq!['"'], pos + 1))
    } else if s[pos] == '\\' {
        Some((seq!['\\'], pos + 1))
    } else if s[pos] == '/' {
        Some((seq!['/'], pos + 1))
    } else if s[pos] == 'n' {
        Some((seq!['\n'], pos + 1))
    } else if s[pos] == 't' {
        Some((seq!['\t'], pos + 1))
    } else if s[pos] == 'r' {
        Some((seq!['\r'], pos + 1))
    } else if s[pos] == 'b' {
        Some((seq!['\u{8}'], pos + 1))
    } else if s[pos] == 'f' {
        Some((seq!['\u{c}'], pos + 1))
    } else if s[pos] == 'u' {
        if pos + 5 <= s.len() {
            match (hex_val(s[pos + 1]), hex_val(s[pos + 2]), hex_val(s[pos + 3]), hex_val(
                s[pos + 4],
            )) {
                (Some(a), Some(b), Some(c), Some(d)) => {
                    let n = (a * 4096 + b * 256 + c * 16 + d) as u32;
                    if is_scalar(n) {
                        Some((seq![char_of(n)], pos + 5))
                    } else {
                        None
                    }
                },
                _ => None,
            }
        } else {
            None
        }
    } else {
        None
    }
}

/// The body of a JSON string starting at `pos` (just inside the opening
/// quote): its decoded characters and the position after the closing quote.
pub open spec fn sp_string(s: Seq<char>, pos: int) -> Option<(Seq<char>, int)>
    decreases s.len() - pos,
{
    if pos < 0 || pos >= s.len() {
        None
    } else if s[pos] == '"' {
        Some((Seq::empty(), pos + 1))
    } else if s[pos] == '\\' {
        match sp_escape(s, pos + 1) {
            Some((piece, p2)) => if p2 <= pos {
                None
            } else {
                match sp_string(s, p2) {
                    Some((rest, p3)) => Some((piece + rest, p3)),
                    None => None,
                }
            },
            None => None,
        }
    } else {
        match sp_string(s, pos + 1) {
            Some((rest, p2)) => Some((seq![s[pos]] + rest, p2)),
            None => None,
        }
    }
}

/// The JSON number token starting at `pos`: its exact text and the position
/// after it. Follows the JSON grammar: optional minus sign, an integer part
/// without leading zeros, an optional fraction, an optional exponent.
pub open spec fn sp_number(s: Seq<char>, pos: int) -> Option<(Seq<char>, int)> {
    if pos < 0 || pos >= s.len() {
        None
    } else {
        let p1 = if s[pos] == '-' { pos + 1 } else { pos };
        if p1 >= s.len() || !is_dig(s[p1]) {
            None
        } else {
            let p2 = if s[p1] == '0' { p1 + 1 } else { sp_digits(s, p1) };
            let p3 = if p2 < s.len() && s[p2] == '.' {
                sp_digits(s, p2 + 1)
            } else {
                p2
            };
            if p2 < s.len() && s[p2] == '.' && p3 == p2 + 1 {
                None
            } else {
                let p4 = if p3 < s.len() && (s[p3] == 'e' || s[p3] == 'E') {
                    let ps = if p3 + 1 < s.len() && (s[p3 + 1] == '+' || s[p3 + 1] == '-') {
                        p3 + 2
                    } else {
                        p3 + 1
                    };
                    sp_digits(s, ps)
                } else {
                    p3
                };
                if p3 < s.len() && (s[p3] == 'e' || s[p3] == 'E') {
                    let ps = if p3 + 1 < s.len() && (s[p3 + 1] == '+' || s[p3 + 1] == '-') {
                        p3 + 2
                    } else {
                        p3 + 1
                    };
                    if p4 == ps {
                        None
                    } else {
                        Some((s.subrange(pos, p4), p4))
                    }
                } else {
                    Some((s.subrange(pos, p4), p4))
                }
            }
        }
    }
}

/// The JSON value starting exactly at `pos` (no leading whitespace), and
/// the position after it.
pub open spec fn sp_value(s: Seq<char>, pos: int) -> Option<(JsonV, int)>
    decreases s.len() - pos, 0int,
{
    if pos < 0 || pos >= s.len() {
        None
    } else if s[pos] == '{' {
        let p = sp_ws(s, pos + 1);
        if pos + 1 <= p < s.len() && s[p] == '}' {
            Some((JsonV::Obj(Seq::empty()), p + 1))
        } else {
            match sp_members(s, pos + 1) {
                Some((ms, p2)) => Some((JsonV::Obj(ms), p2)),
                None => None,
            }
        }
    } else if s[pos] == '[' {
        let p = sp_ws(s, pos + 1);
        if pos + 1 <= p < s.len() && s[p] == ']' {
            Some((JsonV::Arr(Seq::empty()), p + 1))
        } else {
            match sp_elems(s, pos + 1) {
                Some((items, p2)) => Some((JsonV::Arr(items), p2)),
                None => None,
            }
        }
    } else if s[pos] == '"' {
        match sp_string(s, pos + 1) {
            Some((t, p2)) => Some((JsonV::Str(t), p2)),
            None => None,
        }
    } else if s[pos] == 't' {
        if pos + 4 <= s.len() && s[pos + 1] == 'r' && s[pos + 2] == 'u' && s[pos + 3] == 'e' {
            Some((JsonV::Bool(true), pos + 4))
        } else {
            None
        }
    } else if s[pos] == 'f' {
        if pos + 5 <= s.len() && s[pos + 1] == 'a' && s[pos + 2] == 'l' && s[pos + 3] == 's'
            && s[pos + 4] == 'e' {
            Some((JsonV::Bool(false), pos + 5))
        } else {
            None
        }
    } else if s[pos] == 'n' {
        if pos + 4 <= s.len() && s[pos + 1] == 'u' && s[pos + 2] == 'l' && s[pos + 3] == 'l' {
            Some((JsonV::Null, pos + 4))
        } else {
            None
        }
    } else if s[pos] == '-' || is_dig(s[pos]) {
        match sp_number(s, pos) {
            Some((t, p2)) => Some((JsonV::Num(t), p2)),
            None => None,
        }
    } else {
        None
    }
}

/// The non-empty element list of an array whose `[` (or the comma after the
/// previous element) ends just before `pos`, and the position after `]`.
pub open spec fn sp_elems(s: Seq<char>, pos: int) -> Option<(Seq<JsonV>, int)>
    decreases s.len() - pos, 1int,
{
    let p = sp_ws(s, pos);
    if p < pos || p >= s.len() {
        None
    } else {
        match sp_value(s, p) {
            Some((v, p2)) => if p2 <= p {
                None
            } else {
                let pw = sp_ws(s, p2);
                if pw < p2 || pw >= s.len() {
                    None
                } else if s[pw] == ',' {
                    match sp_elems(s, pw + 1) {
                        Some((rest, p3)) => Some((seq![v] + rest, p3)),
                        None => None,
                    }
                } else if s[pw] == ']' {
                    Some((seq![v], pw + 1))
                } else {
                    None
                }
            },
            None => None,
        }
    }
}

/// The non-empty member list of an object whose `{` (or the comma after the
/// previous member) ends just before `pos`, and the position after `}`.
pub open spec fn sp_members(s: Seq<char>, pos: int) -> Option<(Seq<(Seq<char>, JsonV)>, int)>
    decreases s.len() - pos, 1int,
{
    let p = sp_ws(s, pos);
    if p < pos || p >= s.len() || s[p] != '"' {
        None
    } else {
        match sp_string(s, p + 1) {
            Some((k, p2)) => if p2 <= p {
                None
            } else {
                let p3 = sp_ws(s, p2);
                if p3 < p2 || p3 >= s.len() || s[p3] != ':' {
                    None
                } else {
                    let p4 = sp_ws(s, p3 + 1);
                    if p4 <= p3 || p4 > s.len() {
                        None
                    } else {
                        match sp_value(s, p4) {
                            Some((v, p5)) => if p5 <= p4 {
                                None
                            } else {
                                let pw = sp_ws(s, p5);
                                if pw < p5 || pw >= s.len() {
                                    None
                                } else if s[pw] == ',' {
                                    match sp_members(s, pw + 1) {
                                        Some((rest, p6)) => Some(
                                            (seq![(k, v)] + rest, p6),
                                        ),
                                        None => None,
                                    }
                                } else if s[pw] == '}' {
                                    Some((seq![(k, v)], pw + 1))
                                } else {
                                    None
                                }
                            },
                            None => None,
                        }
                    }
                }
            },
            None => None,
        }
    }
}

/// The JSON document that the whole of `s` holds: one value, possibly
/// surrounded by whitespace, and nothing else.
pub open spec fn sp_json(s: Seq<char>) -> Option<JsonV> {
    let p = sp_ws(s, 0);
    match sp_value(s, p) {
        Some((v, p2)) => if sp_ws(s, p2) == s.len() {
            Some(v)
        } else {
            None
        },
        None => None,
    }
}

/// Relies on `char::from_u32`: for a unicode scalar value it returns the
/// character with exactly that scalar value.
#[verifier::external_body]
fn char_of_code(n: u32) -> (r: char)
    requires
        is_scalar(n),
    ensures
        r as u32 == n,
{
    match char::from_u32(n) {
        Some(c) => c,
        None => ' ',
    }
}

/// Skip whitespace: the executable form of `sp_ws`.
fn ws(s: &Vec<char>, pos: usize) -> (r: usize)
    requires
        pos <= s@.len(),
    ensures
        r as int == sp_ws(s@, pos as int),
        pos <= r <= s@.len(),
    decreases s@.len() - pos,
{
    if pos < s.len() {
        let c = s[pos];
        if c == ' ' || c == '\t' || c == '\n' || c == '\r' {
            return ws(s, pos + 1);
        }
    }
    pos
}

/// Skip a digit run: the executable form of `sp_digits`.
fn digits(s: &Vec<char>, pos: usize) -> (r: usize)
    requires
        pos <= s@.len(),
    ensures
        r as int == sp_digits(s@, pos as int),
        pos <= r <= s@.len(),
        pos < s@.len() && is_dig(s@[pos as int]) ==> r > pos,
    decreases s@.len() - pos,
{
    if pos < s.len() {
        let c = s[pos];
        if '0' <= c && c <= '9' {
            return digits(s, pos + 1);
        }
    }
    pos
}

/// Read the hexadecimal value of one character, if it has one.
fn hex_digit(c: char) -> (r: Option<u32>)
    ensures
        r == hex_val(c),
{
    if '0' <= c && c <= '9' {
        Some(c as u32 - '0' as u32)
    } else if 'a' <= c && c <= 'f' {
        Some(c as u32 - 'a' as u32 + 10)
    } else if 'A' <= c && c <= 'F' {
        Some(c as u32 - 'A' as u32 + 10)
    } else {
        None
    }
}

/// Parse a string body: the executable form of `sp_string`.
#[verifier::rlimit(80)]
fn p_string(s: &Vec<char>, pos: usize) -> (r: Option<(Vec<char>, usize)>)
    requires
        pos <= s@.len(),
    ensures
        match r {
            Some(tp) => sp_string(s@, pos as int) == Some((tp.0@, tp.1 as int)) && pos < tp.1
                <= s@.len(),
            None => sp_string(s@, pos as int) is None,
        },
    decreases s@.len() - pos,
{
    if pos >= s.len() {
        return None;
    }
    let c = s[pos];
    if c == '"' {
        return Some((Vec::new(), pos + 1));
    }
    if c == '\\' {
        if pos + 1 >= s.len() {
            proof {
                assert(sp_escape(s@, pos + 1) is None);
            }
            return None;
        }
        let e = s[pos + 1];
        let piece: char;
        let p2: usize;
        if e == '"' {
            piece = '"';
            p2 = pos + 2;
        } else if e == '\\' {
            piece = '\\';
            p2 = pos + 2;
        } else if e == '/' {
            piece = '/';
            p2 = pos + 2;
        } else if e == 'n' {
            piece = '\n';
            p2 = pos + 2;
        } else if e == 't' {
            piece = '\t';
            p2 = pos + 2;
        } else if e == 'r' {
            piece = '\r';
            p2 = pos + 2;
        } else if e == 'b' {
            piece = '\u{8}';
            p2 = pos + 2;
        } else if e == 'f' {
            piece = '\u{c}';
            p2 = pos + 2;
        } else if e == 'u' {
            if s.len() - pos < 6 {
                return None;
            }
            let a = hex_digit(s[pos + 2]);
            let b = hex_digit(s[pos + 3]);
            let cc = hex_digit(s[pos + 4]);
            let d = hex_digit(s[pos + 5]);
            match (a, b, cc, d) {
                (Some(a), Some(b), Some(cc), Some(d)) => {
                    let n: u32 = a * 4096 + b * 256 + cc * 16 + d;
                    if n < 0xD800 || (0xE000 <= n && n < 0x110000) {
                        piece = char_of_code(n);
                        p2 = pos + 6;
                        proof {
                            assert(code_of(piece) == n);
                            assert(code_of(char_of(n)) == n);
                            assert(piece == char_of(n));
                        }
                    } else {
                        return None;
                    }
                },
                _ => {
                    return None;
                },
            }
        } else {
            return None;
        }
        proof {
            assert(sp_escape(s@, pos + 1 as int) == Some((seq![piece], p2 as int)));
        }
        match p_string(s, p2) {
            Some((mut rest, p3)) => {
                rest.insert(0, piece);
                proof {
                    assert(rest@ == seq![piece] + rest@.drop_first());
                }
                return Some((rest, p3));
            },
            None => {
                return None;
            },
        }
    }
    match p_string(s, pos + 1) {
        Some((mut rest, p2)) => {
            rest.insert(0, c);
            proof {
                assert(rest@ == seq![c] + rest@.drop_first());
            }
            Some((rest, p2))
        },
        None => None,
    }
}

/// Copy `s[a .. b]` into a fresh vector.
fn copy_range(s: &Vec<char>, a: usize, b: usize) -> (r: Vec<char>)
    requires
        a <= b <= s@.len(),
    ensures
        r@ == s@.subrange(a as int, b as int),
{
    let mut out: Vec<char> = Vec::new();
    let mut i: usize = a;
    while i < b
        invariant
            a <= i <= b <= s@.len(),
            out@ == s@.subrange(a as int, i as int),
        decreases b - i,
    {
        out.push(s[i]);
        i = i + 1;
        proof {
            assert(out@ =~= s@.subrange(a as int, i as int));
        }
    }
    out
}

/// Parse a number token: the executable form of `sp_number`.
fn p_number(s: &Vec<char>, pos: usize) -> (r: Option<(Vec<char>, usize)>)
    requires
        pos < s@.len(),
    ensures
        match r {
            Some(tp) => sp_number(s@, pos as int) == Some((tp.0@, tp.1 as int)) && pos < tp.1
                <= s@.len(),
            None => sp_number(s@, pos as int) is None,
        },
{
    let n = s.len();
    let p1: usize = if s[pos] == '-' {
        pos + 1
    } else {
        pos
    };
    if p1 >= n {
        return None;
    }
    let c1 = s[p1];
    if !('0' <= c1 && c1 <= '9') {
        return None;
    }
    let p2: usize = if c1 == '0' {
        p1 + 1
    } else {
        digits(s, p1)
    };
    let mut p3: usize = p2;
    if p2 < n && s[p2] == '.' {
        p3 = digits(s, p2 + 1);
        if p3 == p2 + 1 {
            return None;
        }
    }
    let mut p4: usize = p3;
    if p3 < n && (s[p3] == 'e' || s[p3] == 'E') {
        let ps: usize = if p3 + 1 < n && (s[p3 + 1] == '+' || s[p3 + 1] == '-') {
            p3 + 2
        } else {
            p3 + 1
        };
        p4 = digits(s, ps);
        if p4 == ps {
            return None;
        }
    }
    let tok = copy_range(s, pos, p4);
    Some((tok, p4))
}

/// Parse one JSON value: the executable form of `sp_value`.
fn p_value(s: &Vec<char>, pos: usize) -> (r: Option<(Json, usize)>)
    requires
        pos <= s@.len(),
    ensures
        match r {
            Some(jp) => sp_value(s@, pos as int) == Some((view_json(jp.0), jp.1 as int)) && pos
                < jp.1 <= s@.len(),
            None => sp_value(s@, pos as int) is None,
        },
    decreases s@.len() - pos, 0int,
{
    if pos >= s.len() {
        return None;
    }
    let c = s[pos];
    if c == '{' {
        let p = ws(s, pos + 1);
        if p < s.len() && s[p] == '}' {
            return Some((Json::Obj(Vec::new()), p + 1));
        }
        match p_members(s, pos + 1) {
            Some((ms, p2)) => Some((Json::Obj(ms), p2)),
            None => None,
        }
    } else if c == '[' {
        let p = ws(s, pos + 1);
        if p < s.len() && s[p] == ']' {
            return Some((Json::Arr(Vec::new()), p + 1));
        }
        match p_elems(s, pos + 1) {
            Some((items, p2)) => Some((Json::Arr(items), p2)),
            None => None,
        }
    } else if c == '"' {
        match p_string(s, pos + 1) {
            Some((t, p2)) => Some((Json::Str(t), p2)),
            None => None,
        }
    } else if c == 't' {
        if s.len() - pos >= 4 && s[pos + 1] == 'r' && s[pos + 2] == 'u' && s[pos + 3] == 'e' {
            Some((Json::Bool(true), pos + 4))
        } else {
            None
        }
    } else if c == 'f' {
        if s.len() - pos >= 5 && s[pos + 1] == 'a' && s[pos + 2] == 'l' && s[pos + 3] == 's' && s[
            pos + 4
        ] == 'e' {
            Some((Json::Bool(false), pos + 5))
        } else {
            None
        }
    } else if c == 'n' {
        if s.len() - pos >= 4 && s[pos + 1] == 'u' && s[pos + 2] == 'l' && s[pos + 3] == 'l' {
            Some((Json::Null, pos + 4))
        } else {
            None
        }
    } else if c == '-' || ('0' <= c && c <= '9') {
        match p_number(s, pos) {
            Some((t, p2)) => Some((Json::Num(t), p2)),
            None => None,
        }
    } else {
        None
    }
}

/// Parse array elements: the executable form of `sp_elems`.
fn p_elems(s: &Vec<char>, pos: usize) -> (r: Option<(Vec<Json>, usize)>)
    requires
        pos <= s@.len(),
    ensures
        match r {
            Some(vp) => sp_elems(s@, pos as int) == Some((view_arr(vp.0@), vp.1 as int)) && pos
                < vp.1 <= s@.len(),
            None => sp_elems(s@, pos as int) is None,
        },
    decreases s@.len() - pos, 1int,
{
    let p = ws(s, pos);
    if p >= s.len() {
        return None;
    }
    match p_value(s, p) {
        Some((v, p2)) => {
            let pw = ws(s, p2);
            if pw >= s.len() {
                return None;
            }
            let d = s[pw];
            if d == ',' {
                match p_elems(s, pw + 1) {
                    Some((mut rest, p3)) => {
                        rest.insert(0, v);
                        proof {
                            broadcast use lemma_view_arr;

                            assert(view_arr(rest@) =~= seq![view_json(rest@[0])] + view_arr(
                                rest@.drop_first(),
                            ));
                        }
                        Some((rest, p3))
                    },
                    None => None,
                }
            } else if d == ']' {
                let mut one: Vec<Json> = Vec::new();
                proof {
                    broadcast use lemma_view_arr;

                }
                one.push(v);
                proof {
                    assert(view_arr(one@) =~= seq![view_json(v)]);
                }
                Some((one, pw + 1))
            } else {
                None
            }
        },
        None => None,
    }
}

/// Parse object members: the executable form of `sp_members`.
fn p_members(s: &Vec<char>, pos: usize) -> (r: Option<(Vec<(Vec<char>, Json)>, usize)>)
    requires
        pos <= s@.len(),
    ensures
        match r {
            Some(vp) => sp_members(s@, pos as int) == Some((view_obj(vp.0@), vp.1 as int)) && pos
                < vp.1 <= s@.len(),
            None => sp_members(s@, pos as int) is None,
        },
    decreases s@.len() - pos, 1int,
{
    let p = ws(s, pos);
    if p >= s.len() {
        return None;
    }
    if s[p] != '"' {
        return None;
    }
    match p_string(s, p + 1) {
        Some((k, p2)) => {
            let p3 = ws(s, p2);
            if p3 >= s.len() {
                return None;
            }
            if s[p3] != ':' {
                return None;
            }
            let p4 = ws(s, p3 + 1);
            match p_value(s, p4) {
                Some((v, p5)) => {
                    let pw = ws(s, p5);
                    if pw >= s.len() {
                        return None;
                    }
                    let d = s[pw];
                    if d == ',' {
                        match p_members(s, pw + 1) {
                            Some((mut rest, p6)) => {
                                rest.insert(0, (k, v));
                                proof {
                                    broadcast use lemma_view_obj;

                                    assert(view_obj(rest@) =~= seq![
                                        (rest@[0].0@, view_json(rest@[0].1)),
                                    ] + view_obj(rest@.drop_first()));
                                }
                                Some((rest, p6))
                            },
                            None => None,
                        }
                    } else if d == '}' {
                        let mut one: Vec<(Vec<char>, Json)> = Vec::new();
                        let ghost kv = (k@, view_json(v));
                        one.push((k, v));
                        proof {
                            broadcast use lemma_view_obj;

                            assert(view_obj(one@) =~= seq![kv]);
                        }
                        Some((one, pw + 1))
                    } else {
                        None
                    }
                },
                None => None,
            }
        },
        None => None,
    }
}

/// Parse a whole line as one JSON document: the executable form of
/// `sp_json`.
pub fn parse_json(s: &Vec<char>) -> (r: Option<Json>)
    ensures
        match r {
            Some(j) => sp_json(s@) == Some(view_json(j)),
            None => sp_json(s@) is None,
        },
{
    let p = ws(s, 0);
    match p_value(s, p) {
        Some((j, p2)) => {
            let pe = ws(s, p2);
            if pe == s.len() {
                Some(j)
            } else {
                None
            }
        },
        None => None,
    }
}

} // verus!
