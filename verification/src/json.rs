//! A small JSON document model and a verified, deterministic serializer.
//!
//! Text is handled as character sequences; the protocol layer converts to
//! `String` only at its outer edges. Numbers keep their exact wire token, so
//! no value is distorted in transit.

use vstd::prelude::*;

use crate::text::push_str_chars;

verus! {

/// One JSON value. Numbers hold their exact wire token text; objects keep
/// their members in insertion order.
pub enum Json {
    Null,
    Bool(bool),
    Num(Vec<char>),
    Str(Vec<char>),
    Arr(Vec<Json>),
    Obj(Vec<(Vec<char>, Json)>),
}

/// The mathematical shape of a JSON value: what contracts speak of.
pub ghost enum JsonV {
    Null,
    Bool(bool),
    Num(Seq<char>),
    Str(Seq<char>),
    Arr(Seq<JsonV>),
    Obj(Seq<(Seq<char>, JsonV)>),
}

/// The abstraction of an executable JSON value.
pub open spec fn view_json(j: Json) -> JsonV
    decreases j,
{
    match j {
        Json::Null => JsonV::Null,
        Json::Bool(b) => JsonV::Bool(b),
        Json::Num(t) => JsonV::Num(t@),
        Json::Str(t) => JsonV::Str(t@),
        Json::Arr(items) => JsonV::Arr(view_arr(items@)),
        Json::Obj(ms) => JsonV::Obj(view_obj(ms@)),
    }
}

/// The abstraction of a sequence of executable JSON values.
pub open spec fn view_arr(s: Seq<Json>) -> Seq<JsonV>
    decreases s,
{
    if s.len() == 0 {
        Seq::empty()
    } else {
        view_arr(s.drop_last()).push(view_json(s.last()))
    }
}

/// The abstraction of a sequence of executable object members.
pub open spec fn view_obj(s: Seq<(Vec<char>, Json)>) -> Seq<(Seq<char>, JsonV)>
    decreases s,
{
    if s.len() == 0 {
        Seq::empty()
    } else {
        view_obj(s.drop_last()).push((s.last().0@, view_json(s.last().1)))
    }
}

/// `view_arr` maps the view of each element, in order.
pub broadcast proof fn lemma_view_arr(s: Seq<Json>)
    ensures
        (#[trigger] view_arr(s)).len() == s.len(),
        forall|i: int| 0 <= i < s.len() ==> view_arr(s)[i] == view_json(s[i]),
    decreases s,
{
    if s.len() > 0 {
        lemma_view_arr(s.drop_last());
    }
}

/// `view_obj` maps the view of each member, in order.
pub broadcast proof fn lemma_view_obj(s: Seq<(Vec<char>, Json)>)
    ensures
        (#[trigger] view_obj(s)).len() == s.len(),
        forall|i: int| 0 <= i < s.len()
            ==> view_obj(s)[i] == (s[i].0@, view_json(s[i].1)),
    decreases s,
{
    if s.len() > 0 {
        lemma_view_obj(s.drop_last());
    }
}

/// The first value bound to `key` among the members `ms`, if any.
pub open spec fn obj_get(ms: Seq<(Seq<char>, JsonV)>, key: Seq<char>) -> Option<JsonV>
    decreases ms.len(),
{
    if ms.len() == 0 {
        None
    } else if ms[0].0 == key {
        Some(ms[0].1)
    } else {
        obj_get(ms.drop_first(), key)
    }
}

/// Whether any member of `ms` is bound to `key`.
pub open spec fn obj_has(ms: Seq<(Seq<char>, JsonV)>, key: Seq<char>) -> bool {
    obj_get(ms, key) is Some
}

/// The hexadecimal digit character for a value below sixteen.
pub open spec fn hex_char(d: nat) -> char {
    if d == 0 { '0' }
    else if d == 1 { '1' }
    else if d == 2 { '2' }
    else if d == 3 { '3' }
    else if d == 4 { '4' }
    else if d == 5 { '5' }
    else if d == 6 { '6' }
    else if d == 7 { '7' }
    else if d == 8 { '8' }
    else if d == 9 { '9' }
    else if d == 10 { 'a' }
    else if d == 11 { 'b' }
    else if d == 12 { 'c' }
    else if d == 13 { 'd' }
    else if d == 14 { 'e' }
    else { 'f' }
}

/// The serialized form of one string character: quotes and backslashes are
/// escaped, control characters take the `\u00XX` form, and every other
/// character stands as itself.
pub open spec fn esc_char(c: char) -> Seq<char> {
    if c == '"' {
        seq!['\\', '"']
    } else if c == '\\' {
        seq!['\\', '\\']
    } else if (c as u32) < 32 {
        seq!['\\', 'u', '0', '0', hex_char((c as nat) / 16), hex_char((c as nat) % 16)]
    } else {
        seq![c]
    }
}

/// The serialized body of a JSON string: each character escaped as needed.
pub open spec fn esc(s: Seq<char>) -> Seq<char>
    decreases s,
{
    if s.len() == 0 {
        Seq::empty()
    } else {
        esc(s.drop_last()) + esc_char(s.last())
    }
}

/// The serialized form of a JSON string: the escaped body in double quotes.
pub open spec fn ser_str(s: Seq<char>) -> Seq<char> {
    seq!['"'] + esc(s) + seq!['"']
}

/// The serialized text of a JSON value: compact, no whitespace, members and
/// items in stored order.
pub open spec fn ser_v(jv: JsonV) -> Seq<char>
    decreases jv,
{
    match jv {
        JsonV::Null => "null"@,
        JsonV::Bool(b) => if b { "true"@ } else { "false"@ },
        JsonV::Num(t) => t,
        JsonV::Str(t) => ser_str(t),
        JsonV::Arr(items) => seq!['['] + ser_items(items) + seq![']'],
        JsonV::Obj(ms) => seq!['{'] + ser_members(ms) + seq!['}'],
    }
}

/// The serialized items of an array, separated by commas.
pub open spec fn ser_items(items: Seq<JsonV>) -> Seq<char>
    decreases items,
{
    if items.len() == 0 {
        Seq::empty()
    } else if items.len() == 1 {
        ser_v(items[0])
    } else {
        ser_items(items.drop_last()) + seq![','] + ser_v(items.last())
    }
}

/// The serialized member list of an object, separated by commas.
pub open spec fn ser_members(ms: Seq<(Seq<char>, JsonV)>) -> Seq<char>
    decreases ms,
{
    if ms.len() == 0 {
        Seq::empty()
    } else if ms.len() == 1 {
        ser_member(ms[0])
    } else {
        ser_members(ms.drop_last()) + seq![','] + ser_member(ms.last())
    }
}

/// The serialized form of one object member: quoted key, colon, value.
pub open spec fn ser_member(m: (Seq<char>, JsonV)) -> Seq<char>
    decreases m,
{
    ser_str(m.0) + seq![':'] + ser_v(m.1)
}

/// Append the escaped form of the single character `c` to `out`.
pub fn push_esc_char(out: &mut Vec<char>, c: char)
    ensures
        final(out)@ == old(out)@ + esc_char(c),
{
    if c == '"' {
        out.push('\\');
        out.push('"');
        proof {
            assert(out@ =~= old(out)@ + esc_char(c));
        }
    } else if c == '\\' {
        out.push('\\');
        out.push('\\');
        proof {
            assert(out@ =~= old(out)@ + esc_char(c));
        }
    } else if (c as u32) < 32 {
        out.push('\\');
        out.push('u');
        out.push('0');
        out.push('0');
        let hi = (c as u32) / 16;
        let lo = (c as u32) % 16;
        let hc: char = if hi == 0 { '0' } else { '1' };
        out.push(hc);
        let lc: char = match lo {
            0 => '0',
            1 => '1',
            2 => '2',
            3 => '3',
            4 => '4',
            5 => '5',
            6 => '6',
            7 => '7',
            8 => '8',
            9 => '9',
            10 => 'a',
            11 => 'b',
            12 => 'c',
            13 => 'd',
            14 => 'e',
            _ => 'f',
        };
        out.push(lc);
        proof {
            assert(hc == hex_char((c as nat) / 16));
            assert(lc == hex_char((c as nat) % 16));
            assert(out@ =~= old(out)@ + esc_char(c));
        }
    } else {
        out.push(c);
        proof {
            assert(out@ =~= old(out)@ + esc_char(c));
        }
    }
}

/// Append every character of `s` to `out`, unchanged.
pub fn push_chars(out: &mut Vec<char>, s: &Vec<char>)
    ensures
        final(out)@ == old(out)@ + s@,
{
    let n = s.len();
    let mut i: usize = 0;
    while i < n
        invariant
            n == s@.len(),
            i <= n,
            out@ == old(out)@ + s@.subrange(0, i as int),
        decreases n - i,
    {
        out.push(s[i]);
        i = i + 1;
        proof {
            assert(out@ =~= old(out)@ + s@.subrange(0, i as int));
        }
    }
    proof {
        assert(s@.subrange(0, n as int) =~= s@);
    }
}

/// Append the escaped body of a string to `out`.
pub fn write_escaped(s: &Vec<char>, out: &mut Vec<char>)
    ensures
        final(out)@ == old(out)@ + esc(s@),
{
    let n = s.len();
    let mut i: usize = 0;
    while i < n
        invariant
            n == s@.len(),
            i <= n,
            out@ == old(out)@ + esc(s@.subrange(0, i as int)),
        decreases n - i,
    {
        push_esc_char(out, s[i]);
        i = i + 1;
        proof {
            let pre = s@.subrange(0, i as int);
            assert(pre.drop_last() =~= s@.subrange(0, i - 1));
            assert(pre.last() == s@[i - 1]);
            assert(out@ == old(out)@ + esc(pre.drop_last()) + esc_char(pre.last()));
            assert(out@ =~= old(out)@ + esc(pre));
        }
    }
    proof {
        assert(s@.subrange(0, n as int) =~= s@);
    }
}

/// Append the serialized form of the string `s` to `out`.
pub fn write_str_lit(s: &Vec<char>, out: &mut Vec<char>)
    ensures
        final(out)@ == old(out)@ + ser_str(s@),
{
    out.push('"');
    write_escaped(s, out);
    out.push('"');
    proof {
        assert(out@ =~= old(out)@ + ser_str(s@));
    }
}

/// Append the serialized text of `j` to `out`.
#[verifier::loop_isolation(false)]
pub fn write_json(j: &Json, out: &mut Vec<char>)
    ensures
        final(out)@ == old(out)@ + ser_v(view_json(*j)),
    decreases *j,
{
    match j {
        Json::Null => {
            push_str_chars(out, "null");
        },
        Json::Bool(b) => {
            if *b {
                push_str_chars(out, "true");
            } else {
                push_str_chars(out, "false");
            }
        },
        Json::Num(t) => {
            push_chars(out, t);
        },
        Json::Str(t) => {
            write_str_lit(t, out);
        },
        Json::Arr(items) => {
            out.push('[');
            let n = items.len();
            let mut i: usize = 0;
            while i < n
                invariant
                    n == items@.len(),
                    i <= n,
                    out@ == old(out)@ + seq!['['] + ser_items(view_arr(items@.subrange(0, i as int))),
                decreases n - i,
            {
                if i > 0 {
                    out.push(',');
                }
                proof {
                    broadcast use lemma_view_arr;
                    broadcast use vstd::std_specs::vec::axiom_vec_index_decreases;

                    assert(*j == Json::Arr(*items));
                    assert(decreases_to!(*j => *items));
                    assert(decreases_to!(*items => (*items)[i as int]));
                    assert(decreases_to!(*j => items@[i as int]));
                }
                write_json(&items[i], out);
                i = i + 1;
                proof {
                    broadcast use lemma_view_arr;

                    let pre = view_arr(items@.subrange(0, i as int));
                    assert(items@.subrange(0, i as int).drop_last()
                        =~= items@.subrange(0, i - 1));
                    assert(pre.drop_last() =~= view_arr(items@.subrange(0, i - 1)));
                    assert(pre.last() == view_json(items@[i - 1]));
                    assert(out@ =~= old(out)@ + seq!['[']
                        + ser_items(view_arr(items@.subrange(0, i as int))));
                }
            }
            out.push(']');
            proof {
                assert(items@.subrange(0, n as int) =~= items@);
                assert(out@ =~= old(out)@ + ser_v(view_json(*j)));
            }
        },
        Json::Obj(ms) => {
            out.push('{');
            let n = ms.len();
            let mut i: usize = 0;
            while i < n
                invariant
                    n == ms@.len(),
                    i <= n,
                    out@ == old(out)@ + seq!['{'] + ser_members(view_obj(ms@.subrange(0, i as int))),
                decreases n - i,
            {
                if i > 0 {
                    out.push(',');
                }
                write_str_lit(&ms[i].0, out);
                out.push(':');
                proof {
                    broadcast use lemma_view_obj;
                    broadcast use vstd::std_specs::vec::axiom_vec_index_decreases;

                    assert(*j == Json::Obj(*ms));
                    assert(decreases_to!(*j => *ms));
                    assert(decreases_to!(*ms => (*ms)[i as int]));
                    assert(decreases_to!((*ms)[i as int] => (*ms)[i as int].1));
                    assert(decreases_to!(*j => ms@[i as int].1));
                }
                write_json(&ms[i].1, out);
                i = i + 1;
                proof {
                    broadcast use lemma_view_obj;

                    let pre = view_obj(ms@.subrange(0, i as int));
                    assert(ms@.subrange(0, i as int).drop_last()
                        =~= ms@.subrange(0, i - 1));
                    assert(pre.drop_last() == view_obj(ms@.subrange(0, i - 1)));
                    let m = (ms@[i - 1].0@, view_json(ms@[i - 1].1));
                    assert(pre.last() == m);
                    assert(ser_member(m) == ser_str(m.0) + seq![':'] + ser_v(m.1));
                    if i == 1 {
                        assert(pre[0] == m);
                        assert(ser_members(pre) == ser_member(m));
                    } else {
                        assert(ser_members(pre)
                            == ser_members(pre.drop_last()) + seq![','] + ser_member(m));
                    }
                    assert(out@ =~= old(out)@ + seq!['{']
                        + ser_members(view_obj(ms@.subrange(0, i as int))));
                }
            }
            out.push('}');
            proof {
                assert(ms@.subrange(0, n as int) =~= ms@);
                assert(out@ =~= old(out)@ + ser_v(view_json(*j)));
            }
        },
    }
}

} // verus!
