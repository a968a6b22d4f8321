//! Decoding of engine reply lines into typed responses.
//!
//! A reply is one JSON object. Dispatch among the five shapes is by a fixed
//! priority: the three discriminator-bearing shapes first (matched on the
//! `action` field's value), then a result (both `moveInfos` and `rootInfo`
//! present), then a progress heartbeat (`turnNumber` and `noResults`
//! present). Unknown extra fields on a recognized shape are ignored; a line
//! matching no shape, or malformed JSON, is a [`DecodeError`] carrying the
//! raw line.

use vstd::prelude::*;

use crate::json::{Json, JsonV, view_json, view_arr, view_obj, obj_get, obj_has, lemma_view_obj, lemma_view_arr};
use crate::parse::{sp_json, parse_json};
use crate::text::{digits_val, all_digits, is_digit, string_of_chars, chars_of_str};
use crate::{
    ActionClearCache, ActionQueryVersion, ActionTerminate, GitHash, GitHashOmitted, GitHashV,
    JsonNumber, KataResponse, KataResponseV, MoveInfo, MoveInfoV, Player, RootInfo, RootInfoV,
};

verus! {

/// The string a JSON value holds, if it is a string.
pub open spec fn as_str(j: JsonV) -> Option<Seq<char>> {
    match j {
        JsonV::Str(t) => Some(t),
        _ => None,
    }
}

/// The number token a JSON value holds, if it is a number.
pub open spec fn as_num(j: JsonV) -> Option<Seq<char>> {
    match j {
        JsonV::Num(t) => Some(t),
        _ => None,
    }
}

/// The boolean a JSON value holds, if it is a boolean.
pub open spec fn as_bool(j: JsonV) -> Option<bool> {
    match j {
        JsonV::Bool(b) => Some(b),
        _ => None,
    }
}

/// The unsigned value of a plain digit token.
pub open spec fn uint_of_token(t: Seq<char>) -> Option<nat> {
    if t.len() > 0 && all_digits(t) {
        Some(digits_val(t))
    } else {
        None
    }
}

/// The `u16` a JSON value holds: a digit-token number in range.
pub open spec fn as_u16(j: JsonV) -> Option<u16> {
    match as_num(j) {
        Some(t) => match uint_of_token(t) {
            Some(v) => if v <= u16::MAX {
                Some(v as u16)
            } else {
                None
            },
            None => None,
        },
        None => None,
    }
}

/// The `u32` a JSON value holds: a digit-token number in range.
pub open spec fn as_u32(j: JsonV) -> Option<u32> {
    match as_num(j) {
        Some(t) => match uint_of_token(t) {
            Some(v) => if v <= u32::MAX {
                Some(v as u32)
            } else {
                None
            },
            None => None,
        },
        None => None,
    }
}

/// The player a JSON value holds: the wire string `"B"` or `"W"`.
pub open spec fn as_player(j: JsonV) -> Option<Player> {
    if j == JsonV::Str("B"@) {
        Some(Player::Black)
    } else if j == JsonV::Str("W"@) {
        Some(Player::White)
    } else {
        None
    }
}

/// The number tokens of an array, from item `i` on; `None` if any item is
/// not a number.
pub open spec fn nums_from(s: Seq<JsonV>, i: int) -> Option<Seq<Seq<char>>>
    decreases s.len() - i,
{
    if i < 0 || i >= s.len() {
        Some(Seq::empty())
    } else {
        match (as_num(s[i]), nums_from(s, i + 1)) {
            (Some(t), Some(rest)) => Some(seq![t] + rest),
            _ => None,
        }
    }
}

/// The strings of an array, from item `i` on.
pub open spec fn strs_from(s: Seq<JsonV>, i: int) -> Option<Seq<Seq<char>>>
    decreases s.len() - i,
{
    if i < 0 || i >= s.len() {
        Some(Seq::empty())
    } else {
        match (as_str(s[i]), strs_from(s, i + 1)) {
            (Some(t), Some(rest)) => Some(seq![t] + rest),
            _ => None,
        }
    }
}

/// The `u32` values of an array, from item `i` on.
pub open spec fn u32s_from(s: Seq<JsonV>, i: int) -> Option<Seq<u32>>
    decreases s.len() - i,
{
    if i < 0 || i >= s.len() {
        Some(Seq::empty())
    } else {
        match (as_u32(s[i]), u32s_from(s, i + 1)) {
            (Some(v), Some(rest)) => Some(seq![v] + rest),
            _ => None,
        }
    }
}

/// A required string member.
pub open spec fn req_str(ms: Seq<(Seq<char>, JsonV)>, key: Seq<char>) -> Option<Seq<char>> {
    match obj_get(ms, key) {
        Some(j) => as_str(j),
        None => None,
    }
}

/// A required boolean member.
pub open spec fn req_bool(ms: Seq<(Seq<char>, JsonV)>, key: Seq<char>) -> Option<bool> {
    match obj_get(ms, key) {
        Some(j) => as_bool(j),
        None => None,
    }
}

/// An optional string member: absent is fine, a non-string value is not.
pub open spec fn opt_str(ms: Seq<(Seq<char>, JsonV)>, key: Seq<char>) -> Option<
    Option<Seq<char>>,
> {
    match obj_get(ms, key) {
        None => Some(None),
        Some(j) => match as_str(j) {
            Some(t) => Some(Some(t)),
            None => None,
        },
    }
}

/// An optional number member.
pub open spec fn opt_num(ms: Seq<(Seq<char>, JsonV)>, key: Seq<char>) -> Option<
    Option<Seq<char>>,
> {
    match obj_get(ms, key) {
        None => Some(None),
        Some(j) => match as_num(j) {
            Some(t) => Some(Some(t)),
            None => None,
        },
    }
}

/// An optional `u16` member.
pub open spec fn opt_u16(ms: Seq<(Seq<char>, JsonV)>, key: Seq<char>) -> Option<Option<u16>> {
    match obj_get(ms, key) {
        None => Some(None),
        Some(j) => match as_u16(j) {
            Some(v) => Some(Some(v)),
            None => None,
        },
    }
}

/// An optional player member.
pub open spec fn opt_player(ms: Seq<(Seq<char>, JsonV)>, key: Seq<char>) -> Option<
    Option<Player>,
> {
    match obj_get(ms, key) {
        None => Some(None),
        Some(j) => match as_player(j) {
            Some(p) => Some(Some(p)),
            None => None,
        },
    }
}

/// An optional array-of-numbers member.
pub open spec fn opt_num_arr(ms: Seq<(Seq<char>, JsonV)>, key: Seq<char>) -> Option<
    Option<Seq<Seq<char>>>,
> {
    match obj_get(ms, key) {
        None => Some(None),
        Some(j) => match j {
            JsonV::Arr(items) => match nums_from(items, 0) {
                Some(ts) => Some(Some(ts)),
                None => None,
            },
            _ => None,
        },
    }
}

/// An optional array-of-`u32` member.
pub open spec fn opt_u32_arr(ms: Seq<(Seq<char>, JsonV)>, key: Seq<char>) -> Option<
    Option<Seq<u32>>,
> {
    match obj_get(ms, key) {
        None => Some(None),
        Some(j) => match j {
            JsonV::Arr(items) => match u32s_from(items, 0) {
                Some(vs) => Some(Some(vs)),
                None => None,
            },
            _ => None,
        },
    }
}

/// A version reply's fields, from its members.
pub open spec fn version_of(ms: Seq<(Seq<char>, JsonV)>) -> Option<KataResponseV> {
    let gh = req_str(ms, "gitHash"@);
    let id = req_str(ms, "id"@);
    let vs = req_str(ms, "version"@);
    if gh is Some && id is Some && vs is Some {
        Some(
            KataResponseV::Version {
                action: ActionQueryVersion::ActionQueryVersion,
                git_hash: if gh->0 == "<omitted>"@ {
                    GitHashV::Omitted
                } else {
                    GitHashV::Included(gh->0)
                },
                id: id->0,
                version: vs->0,
            },
        )
    } else {
        None
    }
}

/// A cache-cleared reply's fields, from its members.
pub open spec fn cache_cleared_of(ms: Seq<(Seq<char>, JsonV)>) -> Option<KataResponseV> {
    match req_str(ms, "id"@) {
        Some(id) => Some(
            KataResponseV::CacheCleared { id: id, action: ActionClearCache::ActionClearCache },
        ),
        None => None,
    }
}

/// A terminate acknowledgment's fields, from its members.
pub open spec fn terminate_ack_of(ms: Seq<(Seq<char>, JsonV)>) -> Option<KataResponseV> {
    let id = req_str(ms, "id"@);
    let tid = req_str(ms, "terminateId"@);
    let tn = opt_u16(ms, "turnNumber"@);
    if id is Some && tid is Some && tn is Some {
        Some(
            KataResponseV::TerminateAck {
                id: id->0,
                action: ActionTerminate::ActionTerminate,
                turn_number: tn->0,
                terminate_id: tid->0,
            },
        )
    } else {
        None
    }
}

/// A progress heartbeat's fields, from its members.
pub open spec fn resultless_of(ms: Seq<(Seq<char>, JsonV)>) -> Option<KataResponseV> {
    let id = req_str(ms, "id"@);
    let ds = req_bool(ms, "isDuringSearch"@);
    let tn = match obj_get(ms, "turnNumber"@) {
        Some(j) => as_u16(j),
        None => None,
    };
    let nr = req_bool(ms, "noResults"@);
    if id is Some && ds is Some && tn is Some && nr is Some {
        Some(
            KataResponseV::Resultless {
                id: id->0,
                is_during_search: ds->0,
                turn_number: tn->0,
                no_results: nr->0,
            },
        )
    } else {
        None
    }
}

/// Root-position analysis, from a JSON value.
pub open spec fn root_info_of(j: JsonV) -> Option<RootInfoV> {
    match j {
        JsonV::Obj(ms) => {
            let wr = match obj_get(ms, "winrate"@) {
                Some(v) => as_num(v),
                None => None,
            };
            let sl = match obj_get(ms, "scoreLead"@) {
                Some(v) => as_num(v),
                None => None,
            };
            let ss = match obj_get(ms, "scoreSelfplay"@) {
                Some(v) => as_num(v),
                None => None,
            };
            let ut = opt_num(ms, "utility"@);
            let vi = match obj_get(ms, "visits"@) {
                Some(v) => as_u32(v),
                None => None,
            };
            let th = opt_str(ms, "thisHash"@);
            let sy = opt_str(ms, "symHash"@);
            let cp = opt_player(ms, "currentPlayer"@);
            if wr is Some && sl is Some && ss is Some && ut is Some && vi is Some && th is Some
                && sy is Some && cp is Some {
                Some(
                    RootInfoV {
                        winrate: wr->0,
                        score_lead: sl->0,
                        score_selfplay: ss->0,
                        utility: ut->0,
                        visits: vi->0,
                        this_hash: th->0,
                        sym_hash: sy->0,
                        current_player: cp->0,
                    },
                )
            } else {
                None
            }
        },
        _ => None,
    }
}

/// One candidate move's analysis, from a JSON value.
pub open spec fn move_info_of(j: JsonV) -> Option<MoveInfoV> {
    match j {
        JsonV::Obj(ms) => {
            let mv = req_str(ms, "move"@);
            let wr = opt_req_num(ms, "winrate"@);
            let vi = match obj_get(ms, "visits"@) {
                Some(v) => as_u32(v),
                None => None,
            };
            let sl = opt_req_num(ms, "scoreLead"@);
            let ss = opt_req_num(ms, "scoreSelfplay"@);
            let sd = opt_req_num(ms, "scoreStdev"@);
            let pr = opt_req_num(ms, "prior"@);
            let ut = opt_req_num(ms, "utility"@);
            let lc = opt_req_num(ms, "lcb"@);
            let ul = opt_req_num(ms, "utilityLcb"@);
            let or = match obj_get(ms, "order"@) {
                Some(v) => as_u16(v),
                None => None,
            };
            let so = opt_str(ms, "isSymmetryOf"@);
            let pv = match obj_get(ms, "pv"@) {
                Some(JsonV::Arr(items)) => strs_from(items, 0),
                _ => None,
            };
            let pvv = opt_u32_arr(ms, "pvVisits"@);
            let pve = opt_u32_arr(ms, "pvEdgeVisits"@);
            let ow = opt_num_arr(ms, "ownership"@);
            let os = opt_num_arr(ms, "ownershipStdev"@);
            if mv is Some && wr is Some && vi is Some && sl is Some && ss is Some && sd is Some
                && pr is Some && ut is Some && lc is Some && ul is Some && or is Some && so is Some
                && pv is Some && pvv is Some && pve is Some && ow is Some && os is Some {
                Some(
                    MoveInfoV {
                        mv: mv->0,
                        winrate: wr->0,
                        visits: vi->0,
                        score_lead: sl->0,
                        score_selfplay: ss->0,
                        score_stdev: sd->0,
                        prior: pr->0,
                        utility: ut->0,
                        lcb: lc->0,
                        utility_lcb: ul->0,
                        order: or->0,
                        is_symmetry_of: so->0,
                        pv: pv->0,
                        pv_visits: pvv->0,
                        pv_edge_visits: pve->0,
                        ownership: ow->0,
                        ownership_stdev: os->0,
                    },
                )
            } else {
                None
            }
        },
        _ => None,
    }
}

/// A required number member (shorthand used by `move_info_of`).
pub open spec fn opt_req_num(ms: Seq<(Seq<char>, JsonV)>, key: Seq<char>) -> Option<Seq<char>> {
    match obj_get(ms, key) {
        Some(j) => as_num(j),
        None => None,
    }
}

/// The move-analysis records of an array, from item `i` on.
pub open spec fn minfos_from(s: Seq<JsonV>, i: int) -> Option<Seq<MoveInfoV>>
    decreases s.len() - i,
{
    if i < 0 || i >= s.len() {
        Some(Seq::empty())
    } else {
        match (move_info_of(s[i]), minfos_from(s, i + 1)) {
            (Some(m), Some(rest)) => Some(seq![m] + rest),
            _ => None,
        }
    }
}

/// A result reply's fields, from its members.
pub open spec fn result_of(ms: Seq<(Seq<char>, JsonV)>) -> Option<KataResponseV> {
    let id = req_str(ms, "id"@);
    let ds = req_bool(ms, "isDuringSearch"@);
    let mi = match obj_get(ms, "moveInfos"@) {
        Some(JsonV::Arr(items)) => minfos_from(items, 0),
        _ => None,
    };
    let ri = match obj_get(ms, "rootInfo"@) {
        Some(j) => root_info_of(j),
        None => None,
    };
    let ow = opt_num_arr(ms, "ownership"@);
    let os = opt_num_arr(ms, "ownershipStdev"@);
    let po = opt_num_arr(ms, "policy"@);
    if id is Some && ds is Some && mi is Some && ri is Some && ow is Some && os is Some && po
        is Some {
        Some(
            KataResponseV::Result {
                id: id->0,
                is_during_search: ds->0,
                move_infos: mi->0,
                root_info: ri->0,
                ownership: ow->0,
                ownership_stdev: os->0,
                policy: po->0,
            },
        )
    } else {
        None
    }
}

/// The response a JSON document holds, by the fixed dispatch priority:
/// `action`-bearing shapes first, then result, then heartbeat.
pub open spec fn response_of_json(jv: JsonV) -> Option<KataResponseV> {
    match jv {
        JsonV::Obj(ms) => {
            match obj_get(ms, "action"@) {
                Some(a) => {
                    if a == JsonV::Str("query_version"@) {
                        version_of(ms)
                    } else if a == JsonV::Str("clear_cache"@) {
                        cache_cleared_of(ms)
                    } else if a == JsonV::Str("terminate"@) {
                        terminate_ack_of(ms)
                    } else {
                        None
                    }
                },
                None => {
                    if obj_has(ms, "moveInfos"@) && obj_has(ms, "rootInfo"@) {
                        result_of(ms)
                    } else if obj_has(ms, "turnNumber"@) && obj_has(ms, "noResults"@) {
                        resultless_of(ms)
                    } else {
                        None
                    }
                },
            }
        },
        _ => None,
    }
}

/// What decoding a whole line yields: parse, then dispatch.
pub open spec fn spec_decode_line(s: Seq<char>) -> Option<KataResponseV> {
    match sp_json(s) {
        Some(jv) => response_of_json(jv),
        None => None,
    }
}

/// The error of a line that is not valid JSON or matches no known reply
/// shape; carries the offending line unchanged.
#[derive(Clone, Debug, PartialEq, Eq)]
pub struct DecodeError {
    pub line: String,
}

/// Whether the characters of `v` spell exactly the string `s`.
fn chars_eq_str(v: &Vec<char>, s: &str) -> (r: bool)
    ensures
        r == (v@ == s@),
{
    let n = s.unicode_len();
    if v.len() != n {
        return false;
    }
    let mut i: usize = 0;
    while i < n
        invariant
            n == s@.len(),
            n == v@.len(),
            i <= n,
            forall|k: int| 0 <= k < i ==> v@[k] == s@[k],
        decreases n - i,
    {
        if v[i] != s.get_char(i) {
            return false;
        }
        i = i + 1;
    }
    proof {
        assert(v@ =~= s@);
    }
    true
}

/// The value bound to `key` among the members from index `i` on.
fn get_from<'a>(ms: &'a Vec<(Vec<char>, Json)>, i: usize, key: &str) -> (r: Option<&'a Json>)
    requires
        i <= ms@.len(),
    ensures
        match r {
            Some(j) => obj_get(view_obj(ms@).skip(i as int), key@) == Some(view_json(*j)),
            None => obj_get(view_obj(ms@).skip(i as int), key@) is None,
        },
    decreases ms@.len() - i,
{
    proof {
        broadcast use lemma_view_obj;

    }
    if i == ms.len() {
        proof {
            assert(view_obj(ms@).skip(i as int) =~= Seq::<(Seq<char>, JsonV)>::empty());
        }
        return None;
    }
    proof {
        assert(view_obj(ms@).skip(i as int)[0] == (ms@[i as int].0@, view_json(ms@[i as int].1)));
        assert(view_obj(ms@).skip(i as int).drop_first() =~= view_obj(ms@).skip(i + 1));
    }
    if chars_eq_str(&ms[i].0, key) {
        Some(&ms[i].1)
    } else {
        get_from(ms, i + 1, key)
    }
}

/// The value bound to `key` in an object's members, if any.
fn get<'a>(ms: &'a Vec<(Vec<char>, Json)>, key: &str) -> (r: Option<&'a Json>)
    ensures
        match r {
            Some(j) => obj_get(view_obj(ms@), key@) == Some(view_json(*j)),
            None => obj_get(view_obj(ms@), key@) is None,
        },
{
    let r = get_from(ms, 0, key);
    proof {
        assert(view_obj(ms@).skip(0) =~= view_obj(ms@));
    }
    r
}

/// `digits_val` grows with the digit string.
proof fn lemma_digits_val_mono(t: Seq<char>, i: int, j: int)
    requires
        0 <= i <= j <= t.len(),
    ensures
        digits_val(t.subrange(0, i)) <= digits_val(t.subrange(0, j)),
    decreases j - i,
{
    if i < j {
        lemma_digits_val_mono(t, i, j - 1);
        let pre = t.subrange(0, j);
        assert(pre.drop_last() =~= t.subrange(0, j - 1));
    }
}

/// Read the unsigned value of a digit token, within `u64` range.
fn token_u64(t: &Vec<char>) -> (r: Option<u64>)
    ensures
        match r {
            Some(v) => uint_of_token(t@) == Some(v as nat),
            None => uint_of_token(t@) is None || (uint_of_token(t@) matches Some(n) && n
                > u64::MAX),
        },
{
    let n = t.len();
    if n == 0 {
        return None;
    }
    let mut acc: u64 = 0;
    let mut i: usize = 0;
    while i < n
        invariant
            n == t@.len(),
            i <= n,
            all_digits(t@.subrange(0, i as int)),
            acc as nat == digits_val(t@.subrange(0, i as int)),
        decreases n - i,
    {
        let c = t[i];
        if !('0' <= c && c <= '9') {
            return None;
        }
        let d: u64 = (c as u32 - '0' as u32) as u64;
        if acc > (u64::MAX - d) / 10 {
            proof {
                let pre = t@.subrange(0, i + 1 as int);
                assert(pre.drop_last() =~= t@.subrange(0, i as int));
                assert(pre.last() == t@[i as int]);
                assert(digits_val(pre) == digits_val(t@.subrange(0, i as int)) * 10 + (
                c as nat - '0' as nat));
                assert(digits_val(pre) > u64::MAX);
                if t@.len() > 0 && all_digits(t@) {
                    lemma_digits_val_mono(t@, i + 1, n as int);
                    assert(t@.subrange(0, n as int) =~= t@);
                    assert(digits_val(t@) > u64::MAX);
                }
            }
            return None;
        }
        acc = acc * 10 + d;
        i = i + 1;
        proof {
            let pre = t@.subrange(0, i as int);
            assert(pre.drop_last() =~= t@.subrange(0, i - 1));
            assert(pre.last() == t@[i - 1]);
            assert(all_digits(pre));
        }
    }
    proof {
        assert(t@.subrange(0, n as int) =~= t@);
    }
    Some(acc)
}

/// Read a `u16` from a JSON value.
fn json_u16(j: &Json) -> (r: Option<u16>)
    ensures
        r == as_u16(view_json(*j)),
{
    match j {
        Json::Num(t) => {
            match token_u64(t) {
                Some(v) => {
                    if v <= 0xFFFF {
                        Some(v as u16)
                    } else {
                        None
                    }
                },
                None => None,
            }
        },
        _ => None,
    }
}

/// Read a `u32` from a JSON value.
fn json_u32(j: &Json) -> (r: Option<u32>)
    ensures
        r == as_u32(view_json(*j)),
{
    match j {
        Json::Num(t) => {
            match token_u64(t) {
                Some(v) => {
                    if v <= 0xFFFF_FFFF {
                        Some(v as u32)
                    } else {
                        None
                    }
                },
                None => None,
            }
        },
        _ => None,
    }
}

/// Read a player code from a JSON value.
fn json_player(j: &Json) -> (r: Option<Player>)
    ensures
        r == as_player(view_json(*j)),
{
    match j {
        Json::Str(t) => {
            if chars_eq_str(t, "B") {
                Some(Player::Black)
            } else if chars_eq_str(t, "W") {
                Some(Player::White)
            } else {
                None
            }
        },
        _ => None,
    }
}

/// Copy a string value out of a JSON value.
fn json_string(j: &Json) -> (r: Option<String>)
    ensures
        match r {
            Some(s) => as_str(view_json(*j)) == Some(s@),
            None => as_str(view_json(*j)) is None,
        },
{
    match j {
        Json::Str(t) => Some(string_of_chars(t)),
        _ => None,
    }
}

/// Copy a number token out of a JSON value.
fn json_number(j: &Json) -> (r: Option<JsonNumber>)
    ensures
        match r {
            Some(v) => as_num(view_json(*j)) == Some(v.text@),
            None => as_num(view_json(*j)) is None,
        },
{
    match j {
        Json::Num(t) => Some(JsonNumber { text: string_of_chars(t) }),
        _ => None,
    }
}

/// Collect the number tokens of an array, from item `i` on.
fn nums_vec(items: &Vec<Json>, i: usize) -> (r: Option<Vec<JsonNumber>>)
    requires
        i <= items@.len(),
    ensures
        match r {
            Some(v) => nums_from(view_arr(items@), i as int) == Some(v.deep_view()),
            None => nums_from(view_arr(items@), i as int) is None,
        },
    decreases items@.len() - i,
{
    proof {
        broadcast use lemma_view_arr;

    }
    if i == items.len() {
        let r: Vec<JsonNumber> = Vec::new();
        proof {
            assert(r.deep_view() =~= Seq::<Seq<char>>::empty());
        }
        return Some(r);
    }
    let t = match json_number(&items[i]) {
        Some(t) => t,
        None => {
            return None;
        },
    };
    let ghost tv = t.text@;
    match nums_vec(items, i + 1) {
        Some(mut rest) => {
            let ghost pre = rest.deep_view();
            rest.insert(0, t);
            proof {
                assert(rest.deep_view() =~= seq![tv] + pre);
            }
            Some(rest)
        },
        None => None,
    }
}

/// Collect the strings of an array, from item `i` on.
fn strs_vec(items: &Vec<Json>, i: usize) -> (r: Option<Vec<String>>)
    requires
        i <= items@.len(),
    ensures
        match r {
            Some(v) => strs_from(view_arr(items@), i as int) == Some(v.deep_view()),
            None => strs_from(view_arr(items@), i as int) is None,
        },
    decreases items@.len() - i,
{
    proof {
        broadcast use lemma_view_arr;

    }
    if i == items.len() {
        let r: Vec<String> = Vec::new();
        proof {
            assert(r.deep_view() =~= Seq::<Seq<char>>::empty());
        }
        return Some(r);
    }
    let t = match json_string(&items[i]) {
        Some(t) => t,
        None => {
            return None;
        },
    };
    let ghost tv = t@;
    match strs_vec(items, i + 1) {
        Some(mut rest) => {
            let ghost pre = rest.deep_view();
            rest.insert(0, t);
            proof {
                assert(rest.deep_view() =~= seq![tv] + pre);
            }
            Some(rest)
        },
        None => None,
    }
}

/// Collect the `u32` values of an array, from item `i` on.
fn u32s_vec(items: &Vec<Json>, i: usize) -> (r: Option<Vec<u32>>)
    requires
        i <= items@.len(),
    ensures
        match r {
            Some(v) => u32s_from(view_arr(items@), i as int) == Some(v.deep_view()),
            None => u32s_from(view_arr(items@), i as int) is None,
        },
    decreases items@.len() - i,
{
    proof {
        broadcast use lemma_view_arr;

    }
    if i == items.len() {
        let r: Vec<u32> = Vec::new();
        proof {
            assert(r.deep_view() =~= Seq::<u32>::empty());
        }
        return Some(r);
    }
    let t = match json_u32(&items[i]) {
        Some(t) => t,
        None => {
            return None;
        },
    };
    let ghost tv = t;
    match u32s_vec(items, i + 1) {
        Some(mut rest) => {
            let ghost pre = rest.deep_view();
            rest.insert(0, t);
            proof {
                assert(rest.deep_view() =~= seq![tv] + pre);
            }
            Some(rest)
        },
        None => None,
    }
}

/// Read an optional number-array member of an object.
fn get_opt_num_arr(ms: &Vec<(Vec<char>, Json)>, key: &str) -> (r: Option<Option<Vec<JsonNumber>>>)
    ensures
        match r {
            Some(o) => opt_num_arr(view_obj(ms@), key@) == Some(o.deep_view()),
            None => opt_num_arr(view_obj(ms@), key@) is None,
        },
{
    match get(ms, key) {
        None => Some(None),
        Some(j) => match j {
            Json::Arr(items) => match nums_vec(items, 0) {
                Some(v) => Some(Some(v)),
                None => None,
            },
            _ => None,
        },
    }
}

/// Read an optional `u32`-array member of an object.
fn get_opt_u32_arr(ms: &Vec<(Vec<char>, Json)>, key: &str) -> (r: Option<Option<Vec<u32>>>)
    ensures
        match r {
            Some(o) => opt_u32_arr(view_obj(ms@), key@) == Some(o.deep_view()),
            None => opt_u32_arr(view_obj(ms@), key@) is None,
        },
{
    match get(ms, key) {
        None => Some(None),
        Some(j) => match j {
            Json::Arr(items) => match u32s_vec(items, 0) {
                Some(v) => Some(Some(v)),
                None => None,
            },
            _ => None,
        },
    }
}

/// Read root-position analysis from a JSON value.
#[verifier::rlimit(100)]
#[verifier::spinoff_prover]
fn root_info_json(j: &Json) -> (r: Option<RootInfo>)
    ensures
        match r {
            Some(v) => root_info_of(view_json(*j)) == Some(v.deep_view()),
            None => root_info_of(view_json(*j)) is None,
        },
{
    let ms = match j {
        Json::Obj(ms) => ms,
        _ => {
            return None;
        },
    };
    let wr = match get(ms, "winrate") {
        Some(v) => match json_number(v) {
            Some(t) => t,
            None => {
                return None;
            },
        },
        None => {
            return None;
        },
    };
    let sl = match get(ms, "scoreLead") {
        Some(v) => match json_number(v) {
            Some(t) => t,
            None => {
                return None;
            },
        },
        None => {
            return None;
        },
    };
    let ss = match get(ms, "scoreSelfplay") {
        Some(v) => match json_number(v) {
            Some(t) => t,
            None => {
                return None;
            },
        },
        None => {
            return None;
        },
    };
    let ut = match get(ms, "utility") {
        None => None,
        Some(v) => match json_number(v) {
            Some(t) => Some(t),
            None => {
                return None;
            },
        },
    };
    let vi = match get(ms, "visits") {
        Some(v) => match json_u32(v) {
            Some(n) => n,
            None => {
                return None;
            },
        },
        None => {
            return None;
        },
    };
    let th = match get(ms, "thisHash") {
        None => None,
        Some(v) => match json_string(v) {
            Some(t) => Some(t),
            None => {
                return None;
            },
        },
    };
    let sy = match get(ms, "symHash") {
        None => None,
        Some(v) => match json_string(v) {
            Some(t) => Some(t),
            None => {
                return None;
            },
        },
    };
    let cp = match get(ms, "currentPlayer") {
        None => None,
        Some(v) => match json_player(v) {
            Some(p) => Some(p),
            None => {
                return None;
            },
        },
    };
    Some(
        RootInfo {
            winrate: wr,
            score_lead: sl,
            score_selfplay: ss,
            utility: ut,
            visits: vi,
            this_hash: th,
            sym_hash: sy,
            current_player: cp,
        },
    )
}

/// Read one candidate move's analysis from a JSON value.
#[verifier::rlimit(100)]
#[verifier::spinoff_prover]
fn move_info_json(j: &Json) -> (r: Option<MoveInfo>)
    ensures
        match r {
            Some(v) => move_info_of(view_json(*j)) == Some(v.deep_view()),
            None => move_info_of(view_json(*j)) is None,
        },
{
    let ms = match j {
        Json::Obj(ms) => ms,
        _ => {
            return None;
        },
    };
    let mv = match get(ms, "move") {
        Some(v) => match json_string(v) {
            Some(t) => t,
            None => {
                return None;
            },
        },
        None => {
            return None;
        },
    };
    let wr = match get(ms, "winrate") {
        Some(v) => match json_number(v) {
            Some(t) => t,
            None => {
                return None;
            },
        },
        None => {
            return None;
        },
    };
    let vi = match get(ms, "visits") {
        Some(v) => match json_u32(v) {
            Some(n) => n,
            None => {
                return None;
            },
        },
        None => {
            return None;
        },
    };
    let sl = match get(ms, "scoreLead") {
        Some(v) => match json_number(v) {
            Some(t) => t,
            None => {
                return None;
            },
        },
        None => {
            return None;
        },
    };
    let ss = match get(ms, "scoreSelfplay") {
        Some(v) => match json_number(v) {
            Some(t) => t,
            None => {
                return None;
            },
        },
        None => {
            return None;
        },
    };
    let sd = match get(ms, "scoreStdev") {
        Some(v) => match json_number(v) {
            Some(t) => t,
            None => {
                return None;
            },
        },
        None => {
            return None;
        },
    };
    let pr = match get(ms, "prior") {
        Some(v) => match json_number(v) {
            Some(t) => t,
            None => {
                return None;
            },
        },
        None => {
            return None;
        },
    };
    let ut = match get(ms, "utility") {
        Some(v) => match json_number(v) {
            Some(t) => t,
            None => {
                return None;
            },
        },
        None => {
            return None;
        },
    };
    let lc = match get(ms, "lcb") {
        Some(v) => match json_number(v) {
            Some(t) => t,
            None => {
                return None;
            },
        },
        None => {
            return None;
        },
    };
    let ul = match get(ms, "utilityLcb") {
        Some(v) => match json_number(v) {
            Some(t) => t,
            None => {
                return None;
            },
        },
        None => {
            return None;
        },
    };
    let or = match get(ms, "order") {
        Some(v) => match json_u16(v) {
            Some(n) => n,
            None => {
                return None;
            },
        },
        None => {
            return None;
        },
    };
    let so = match get(ms, "isSymmetryOf") {
        None => None,
        Some(v) => match json_string(v) {
            Some(t) => Some(t),
            None => {
                return None;
            },
        },
    };
    let pv = match get(ms, "pv") {
        Some(v) => match v {
            Json::Arr(items) => match strs_vec(items, 0) {
                Some(ts) => ts,
                None => {
                    return None;
                },
            },
            _ => {
                return None;
            },
        },
        None => {
            return None;
        },
    };
    let pvv = match get_opt_u32_arr(ms, "pvVisits") {
        Some(o) => o,
        None => {
            return None;
        },
    };
    let pve = match get_opt_u32_arr(ms, "pvEdgeVisits") {
        Some(o) => o,
        None => {
            return None;
        },
    };
    let ow = match get_opt_num_arr(ms, "ownership") {
        Some(o) => o,
        None => {
            return None;
        },
    };
    let os = match get_opt_num_arr(ms, "ownershipStdev") {
        Some(o) => o,
        None => {
            return None;
        },
    };
    Some(
        MoveInfo {
            mv: mv,
            winrate: wr,
            visits: vi,
            score_lead: sl,
            score_selfplay: ss,
            score_stdev: sd,
            prior: pr,
            utility: ut,
            lcb: lc,
            utility_lcb: ul,
            order: or,
            is_symmetry_of: so,
            pv: pv,
            pv_visits: pvv,
            pv_edge_visits: pve,
            ownership: ow,
            ownership_stdev: os,
        },
    )
}

/// Collect the move-analysis records of an array, from item `i` on.
fn minfos_vec(items: &Vec<Json>, i: usize) -> (r: Option<Vec<MoveInfo>>)
    requires
        i <= items@.len(),
    ensures
        match r {
            Some(v) => minfos_from(view_arr(items@), i as int) == Some(v.deep_view()),
            None => minfos_from(view_arr(items@), i as int) is None,
        },
    decreases items@.len() - i,
{
    proof {
        broadcast use lemma_view_arr;

    }
    if i == items.len() {
        let r: Vec<MoveInfo> = Vec::new();
        proof {
            assert(r.deep_view() =~= Seq::<MoveInfoV>::empty());
        }
        return Some(r);
    }
    let m = match move_info_json(&items[i]) {
        Some(m) => m,
        None => {
            return None;
        },
    };
    let ghost mv = m.deep_view();
    match minfos_vec(items, i + 1) {
        Some(mut rest) => {
            let ghost pre = rest.deep_view();
            rest.insert(0, m);
            proof {
                assert(rest.deep_view() =~= seq![mv] + pre);
            }
            Some(rest)
        },
        None => None,
    }
}

/// Decode a parsed JSON document into a response, by the fixed priority.
#[verifier::rlimit(100)]
#[verifier::spinoff_prover]
pub fn decode_json(j: &Json) -> (r: Option<KataResponse>)
    ensures
        match r {
            Some(resp) => response_of_json(view_json(*j)) == Some(resp.deep_view()),
            None => response_of_json(view_json(*j)) is None,
        },
{
    let ms = match j {
        Json::Obj(ms) => ms,
        _ => {
            return None;
        },
    };
    match get(ms, "action") {
        Some(a) => {
            let is_qv = match a {
                Json::Str(t) => chars_eq_str(t, "query_version"),
                _ => false,
            };
            let is_cc = match a {
                Json::Str(t) => chars_eq_str(t, "clear_cache"),
                _ => false,
            };
            let is_tm = match a {
                Json::Str(t) => chars_eq_str(t, "terminate"),
                _ => false,
            };
            if is_qv {
                let gh = match get(ms, "gitHash") {
                    Some(v) => match v {
                        Json::Str(t) => {
                            if chars_eq_str(t, "<omitted>") {
                                GitHash::Omitted(GitHashOmitted::Omitted)
                            } else {
                                GitHash::Included(string_of_chars(t))
                            }
                        },
                        _ => {
                            return None;
                        },
                    },
                    None => {
                        return None;
                    },
                };
                let id = match get(ms, "id") {
                    Some(v) => match json_string(v) {
                        Some(t) => t,
                        None => {
                            return None;
                        },
                    },
                    None => {
                        return None;
                    },
                };
                let vs = match get(ms, "version") {
                    Some(v) => match json_string(v) {
                        Some(t) => t,
                        None => {
                            return None;
                        },
                    },
                    None => {
                        return None;
                    },
                };
                Some(
                    KataResponse::Version {
                        action: ActionQueryVersion::ActionQueryVersion,
                        git_hash: gh,
                        id: id,
                        version: vs,
                    },
                )
            } else if is_cc {
                let id = match get(ms, "id") {
                    Some(v) => match json_string(v) {
                        Some(t) => t,
                        None => {
                            return None;
                        },
                    },
                    None => {
                        return None;
                    },
                };
                Some(
                    KataResponse::CacheCleared {
                        id: id,
                        action: ActionClearCache::ActionClearCache,
                    },
                )
            } else if is_tm {
                let id = match get(ms, "id") {
                    Some(v) => match json_string(v) {
                        Some(t) => t,
                        None => {
                            return None;
                        },
                    },
                    None => {
                        return None;
                    },
                };
                let tid = match get(ms, "terminateId") {
                    Some(v) => match json_string(v) {
                        Some(t) => t,
                        None => {
                            return None;
                        },
                    },
                    None => {
                        return None;
                    },
                };
                let tn = match get(ms, "turnNumber") {
                    None => None,
                    Some(v) => match json_u16(v) {
                        Some(n) => Some(n),
                        None => {
                            return None;
                        },
                    },
                };
                Some(
                    KataResponse::TerminateAck {
                        id: id,
                        action: ActionTerminate::ActionTerminate,
                        turn_number: tn,
                        terminate_id: tid,
                    },
                )
            } else {
                None
            }
        },
        None => {
            let has_mi = match get(ms, "moveInfos") {
                Some(_) => true,
                None => false,
            };
            let has_ri = match get(ms, "rootInfo") {
                Some(_) => true,
                None => false,
            };
            if has_mi && has_ri {
                let id = match get(ms, "id") {
                    Some(v) => match json_string(v) {
                        Some(t) => t,
                        None => {
                            return None;
                        },
                    },
                    None => {
                        return None;
                    },
                };
                let ds = match get(ms, "isDuringSearch") {
                    Some(v) => match v {
                        Json::Bool(b) => *b,
                        _ => {
                            return None;
                        },
                    },
                    None => {
                        return None;
                    },
                };
                let mi = match get(ms, "moveInfos") {
                    Some(v) => match v {
                        Json::Arr(items) => match minfos_vec(items, 0) {
                            Some(v) => v,
                            None => {
                                return None;
                            },
                        },
                        _ => {
                            return None;
                        },
                    },
                    None => {
                        return None;
                    },
                };
                let ri = match get(ms, "rootInfo") {
                    Some(v) => match root_info_json(v) {
                        Some(v) => v,
                        None => {
                            return None;
                        },
                    },
                    None => {
                        return None;
                    },
                };
                let ow = match get_opt_num_arr(ms, "ownership") {
                    Some(o) => o,
                    None => {
                        return None;
                    },
                };
                let os = match get_opt_num_arr(ms, "ownershipStdev") {
                    Some(o) => o,
                    None => {
                        return None;
                    },
                };
                let po = match get_opt_num_arr(ms, "policy") {
                    Some(o) => o,
                    None => {
                        return None;
                    },
                };
                Some(
                    KataResponse::Result {
                        id: id,
                        is_during_search: ds,
                        move_infos: mi,
                        root_info: ri,
                        ownership: ow,
                        ownership_stdev: os,
                        policy: po,
                    },
                )
            } else {
                let has_tn = match get(ms, "turnNumber") {
                    Some(_) => true,
                    None => false,
                };
                let has_nr = match get(ms, "noResults") {
                    Some(_) => true,
                    None => false,
                };
                if has_tn && has_nr {
                    let id = match get(ms, "id") {
                        Some(v) => match json_string(v) {
                            Some(t) => t,
                            None => {
                                return None;
                            },
                        },
                        None => {
                            return None;
                        },
                    };
                    let ds = match get(ms, "isDuringSearch") {
                        Some(v) => match v {
                            Json::Bool(b) => *b,
                            _ => {
                                return None;
                            },
                        },
                        None => {
                            return None;
                        },
                    };
                    let tn = match get(ms, "turnNumber") {
                        Some(v) => match json_u16(v) {
                            Some(n) => n,
                            None => {
                                return None;
                            },
                        },
                        None => {
                            return None;
                        },
                    };
                    let nr = match get(ms, "noResults") {
                        Some(v) => match v {
                            Json::Bool(b) => *b,
                            _ => {
                                return None;
                            },
                        },
                        None => {
                            return None;
                        },
                    };
                    Some(
                        KataResponse::Resultless {
                            id: id,
                            is_during_search: ds,
                            turn_number: tn,
                            no_results: nr,
                        },
                    )
                } else {
                    None
                }
            }
        },
    }
}

/// Decode one line of engine output: parse it as a JSON document and
/// dispatch it to a response shape. A line that fails either step comes
/// back as a [`DecodeError`] carrying the line unchanged; subsequent lines
/// are unaffected.
pub fn decode_line(line: &str) -> (r: Result<KataResponse, DecodeError>)
    ensures
        match r {
            Ok(resp) => spec_decode_line(line@) == Some(resp.deep_view()),
            Err(e) => spec_decode_line(line@) is None && e.line@ == line@,
        },
{
    let cs = chars_of_str(line);
    match parse_json(&cs) {
        Some(j) => match decode_json(&j) {
            Some(resp) => Ok(resp),
            None => Err(DecodeError { line: String::from_str(line) }),
        },
        None => Err(DecodeError { line: String::from_str(line) }),
    }
}

} // verus!
