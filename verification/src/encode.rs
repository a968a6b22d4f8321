//! Encoding of actions into JSON objects and one-line wire text.
//!
//! Field names are lower-camel-case, unset optional fields are omitted
//! entirely, enums render as their fixed wire strings, and a (player,
//! coordinate) pair renders as a two-element array.

use vstd::prelude::*;

use crate::json::{Json, JsonV, view_json, view_arr, view_obj, ser_v, write_json, lemma_view_arr, lemma_view_obj};
use crate::text::{push_str_chars, push_u64, push_i32, dec_str, dec_str_signed, string_of_chars};
use crate::{KataAction, KataActionV, KataQuery, KataQueryV, MoveGroup, MoveGroupV, Player, Rules, WhiteHandicapBonus, JsonNumber};

verus! {

/// The fixed wire string of a player: `"B"` or `"W"`.
pub open spec fn player_code(p: Player) -> Seq<char> {
    match p {
        Player::Black => "B"@,
        Player::White => "W"@,
    }
}

/// The fixed wire string of a rule-set preset: its hyphenated lowercase name.
pub open spec fn rules_code(r: Rules) -> Seq<char> {
    match r {
        Rules::TrompTaylor => "tromp-taylor"@,
        Rules::Chinese => "chinese"@,
        Rules::ChineseOgs => "chinese-ogs"@,
        Rules::ChineseKgs => "chinese-kgs"@,
        Rules::Japanese => "japanese"@,
        Rules::Korean => "korean"@,
        Rules::StoneScoring => "stone-scoring"@,
        Rules::Aga => "aga"@,
        Rules::Bga => "bga"@,
        Rules::NewZealand => "new-zealand"@,
        Rules::AgaButton => "aga-button"@,
    }
}

/// The fixed wire string of a white handicap bonus: `"0"`, `"N"` or `"N-1"`.
pub open spec fn handicap_code(w: WhiteHandicapBonus) -> Seq<char> {
    match w {
        WhiteHandicapBonus::Zero => "0"@,
        WhiteHandicapBonus::N => "N"@,
        WhiteHandicapBonus::NMinusOne => "N-1"@,
    }
}

/// A (player, coordinate) pair as a two-element JSON array.
pub open spec fn pair_jsonv(p: (Player, Seq<char>)) -> JsonV {
    JsonV::Arr(seq![JsonV::Str(player_code(p.0)), JsonV::Str(p.1)])
}

/// A sequence of (player, coordinate) pairs as JSON array items.
pub open spec fn pairs_jsonv(ps: Seq<(Player, Seq<char>)>) -> Seq<JsonV>
    decreases ps,
{
    if ps.len() == 0 {
        Seq::empty()
    } else {
        pairs_jsonv(ps.drop_last()).push(pair_jsonv(ps.last()))
    }
}

/// A sequence of strings as JSON array items.
pub open spec fn strs_jsonv(ss: Seq<Seq<char>>) -> Seq<JsonV>
    decreases ss,
{
    if ss.len() == 0 {
        Seq::empty()
    } else {
        strs_jsonv(ss.drop_last()).push(JsonV::Str(ss.last()))
    }
}

/// A sequence of turn numbers as JSON array items.
pub open spec fn u16s_jsonv(vs: Seq<u16>) -> Seq<JsonV>
    decreases vs,
{
    if vs.len() == 0 {
        Seq::empty()
    } else {
        u16s_jsonv(vs.drop_last()).push(JsonV::Num(dec_str(vs.last() as nat)))
    }
}

/// A sequence of priorities as JSON array items.
pub open spec fn i32s_jsonv(vs: Seq<i32>) -> Seq<JsonV>
    decreases vs,
{
    if vs.len() == 0 {
        Seq::empty()
    } else {
        i32s_jsonv(vs.drop_last()).push(JsonV::Num(dec_str_signed(vs.last() as int)))
    }
}

/// A move-restriction group as a JSON object.
pub open spec fn move_group_jsonv(g: MoveGroupV) -> JsonV {
    JsonV::Obj(
        seq![
            ("player"@, JsonV::Str(player_code(g.player))),
            ("moves"@, JsonV::Arr(strs_jsonv(g.moves))),
            ("untilDepth"@, JsonV::Num(dec_str(g.until_depth as nat))),
        ],
    )
}

/// A sequence of move-restriction groups as JSON array items.
pub open spec fn move_groups_jsonv(gs: Seq<MoveGroupV>) -> Seq<JsonV>
    decreases gs,
{
    if gs.len() == 0 {
        Seq::empty()
    } else {
        move_groups_jsonv(gs.drop_last()).push(move_group_jsonv(gs.last()))
    }
}

/// The leading members of a query object: id, initial stones, moves,
/// rules, initial player, komi, handicap bonus and board sizes.
pub open spec fn query_members_a(q: KataQueryV) -> Seq<(Seq<char>, JsonV)> {
    let ms = seq![("id"@, JsonV::Str(q.id))];
    let ms = match q.initial_stones {
        Some(st) => ms.push(("initialStones"@, JsonV::Arr(pairs_jsonv(st)))),
        None => ms,
    };
    let ms = ms.push(("moves"@, JsonV::Arr(pairs_jsonv(q.moves))));
    let ms = ms.push(("rules"@, JsonV::Str(rules_code(q.rules))));
    let ms = match q.initial_player {
        Some(p) => ms.push(("initialPlayer"@, JsonV::Str(player_code(p)))),
        None => ms,
    };
    let ms = match q.komi {
        Some(t) => ms.push(("komi"@, JsonV::Num(t))),
        None => ms,
    };
    let ms = match q.white_handicap_bonus {
        Some(w) => ms.push(("whiteHandicapBonus"@, JsonV::Str(handicap_code(w)))),
        None => ms,
    };
    let ms = ms.push(("boardXSize"@, JsonV::Num(dec_str(q.board_x_size as nat))));
    let ms = ms.push(("boardYSize"@, JsonV::Num(dec_str(q.board_y_size as nat))));
    ms
}

/// The middle members of a query object: search-shaping parameters and the
/// include flags, appended to `ms`.
pub open spec fn query_members_b(q: KataQueryV, ms: Seq<(Seq<char>, JsonV)>) -> Seq<(Seq<char>, JsonV)> {
    let ms = match q.analyze_turns {
        Some(ts) => ms.push(("analyzeTurns"@, JsonV::Arr(u16s_jsonv(ts)))),
        None => ms,
    };
    let ms = match q.max_visits {
        Some(v) => ms.push(("maxVisits"@, JsonV::Num(dec_str(v as nat)))),
        None => ms,
    };
    let ms = match q.root_policy_temperature {
        Some(t) => ms.push(("rootPolicyTemperature"@, JsonV::Num(t))),
        None => ms,
    };
    let ms = match q.root_fpu_reduction_max {
        Some(t) => ms.push(("rootFpuReductionMax"@, JsonV::Num(t))),
        None => ms,
    };
    let ms = match q.anaysis_pv_len {
        Some(v) => ms.push(("anaysisPvLen"@, JsonV::Num(dec_str(v as nat)))),
        None => ms,
    };
    let ms = match q.include_ownership {
        Some(b) => ms.push(("includeOwnership"@, JsonV::Bool(b))),
        None => ms,
    };
    let ms = match q.inlcude_ownership_stdev {
        Some(b) => ms.push(("inlcudeOwnershipStdev"@, JsonV::Bool(b))),
        None => ms,
    };
    let ms = match q.include_moves_ownership {
        Some(b) => ms.push(("includeMovesOwnership"@, JsonV::Bool(b))),
        None => ms,
    };
    let ms = match q.include_moves_ownership_stdev {
        Some(b) => ms.push(("includeMovesOwnershipStdev"@, JsonV::Bool(b))),
        None => ms,
    };
    let ms = match q.include_policy {
        Some(b) => ms.push(("includePolicy"@, JsonV::Bool(b))),
        None => ms,
    };
    let ms = match q.include_pv_visits {
        Some(b) => ms.push(("includePvVisits"@, JsonV::Bool(b))),
        None => ms,
    };
    ms
}

/// The trailing members of a query object: move restrictions, the settings
/// override, the report interval and priorities, appended to `ms`.
pub open spec fn query_members_c(q: KataQueryV, ms: Seq<(Seq<char>, JsonV)>) -> Seq<(Seq<char>, JsonV)> {
    let ms = match q.avoid_moves {
        Some(gs) => ms.push(("avoidMoves"@, JsonV::Arr(move_groups_jsonv(gs)))),
        None => ms,
    };
    let ms = match q.allow_moves {
        Some(g) => ms.push(("allowMoves"@, JsonV::Arr(seq![move_group_jsonv(g)]))),
        None => ms,
    };
    let ms = match q.override_settings {
        Some(j) => ms.push(("overrideSettings"@, j)),
        None => ms,
    };
    let ms = match q.report_during_search_every {
        Some(t) => ms.push(("reportDuringSearchEvery"@, JsonV::Num(t))),
        None => ms,
    };
    let ms = match q.priority {
        Some(v) => ms.push(("priority"@, JsonV::Num(dec_str_signed(v as int)))),
        None => ms,
    };
    let ms = match q.priorities {
        Some(vs) => ms.push(("priorities"@, JsonV::Arr(i32s_jsonv(vs)))),
        None => ms,
    };
    ms
}

/// The members of the JSON object a query encodes to, in declaration order;
/// an optional field contributes a member exactly when it is set.
pub open spec fn query_members(q: KataQueryV) -> Seq<(Seq<char>, JsonV)> {
    query_members_c(q, query_members_b(q, query_members_a(q)))
}

/// The JSON object an action encodes to: a query flattens its fields into
/// the top level; the control requests carry their id, their fixed
/// discriminator, and (for terminate) the target request's id and the
/// optional turn numbers.
pub open spec fn action_jsonv(a: KataActionV) -> JsonV {
    match a {
        KataActionV::Query { inner } => JsonV::Obj(query_members(inner)),
        KataActionV::QueryVersion { id, action } => JsonV::Obj(
            seq![("id"@, JsonV::Str(id)), ("action"@, JsonV::Str("query_version"@))],
        ),
        KataActionV::ClearCache { id, action } => JsonV::Obj(
            seq![("id"@, JsonV::Str(id)), ("action"@, JsonV::Str("clear_cache"@))],
        ),
        KataActionV::Terminate { id, action, terminate_id, turn_numbers } => {
            let ms = seq![
                ("id"@, JsonV::Str(id)),
                ("action"@, JsonV::Str("terminate"@)),
                ("terminateId"@, JsonV::Str(terminate_id)),
            ];
            match turn_numbers {
                Some(ts) => JsonV::Obj(ms.push(("turnNumbers"@, JsonV::Arr(u16s_jsonv(ts))))),
                None => JsonV::Obj(ms),
            }
        },
    }
}

/// The full wire line of an action: its JSON object followed by a newline.
pub open spec fn action_line(a: KataActionV) -> Seq<char> {
    ser_v(action_jsonv(a)) + seq!['\n']
}

/// The characters of a field-name or wire-string literal.
fn key_chars(s: &str) -> (r: Vec<char>)
    ensures
        r@ == s@,
{
    let mut v: Vec<char> = Vec::new();
    push_str_chars(&mut v, s);
    v
}

/// A library string as a JSON string value.
fn str_json(s: &String) -> (r: Json)
    ensures
        view_json(r) == JsonV::Str(s@),
{
    Json::Str(crate::text::chars_of_str(s.as_str()))
}

/// A player as its wire string.
fn player_json(p: &Player) -> (r: Json)
    ensures
        view_json(r) == JsonV::Str(player_code(*p)),
{
    match p {
        Player::Black => Json::Str(key_chars("B")),
        Player::White => Json::Str(key_chars("W")),
    }
}

/// A number token as a JSON number value.
fn token_json(t: &JsonNumber) -> (r: Json)
    ensures
        view_json(r) == JsonV::Num(t.text@),
{
    Json::Num(crate::text::chars_of_str(t.text.as_str()))
}

/// An unsigned integer as a JSON number value.
fn u64_json(n: u64) -> (r: Json)
    ensures
        view_json(r) == JsonV::Num(dec_str(n as nat)),
{
    let mut v: Vec<char> = Vec::new();
    push_u64(&mut v, n);
    Json::Num(v)
}

/// A signed integer as a JSON number value.
fn i32_json(n: i32) -> (r: Json)
    ensures
        view_json(r) == JsonV::Num(dec_str_signed(n as int)),
{
    let mut v: Vec<char> = Vec::new();
    push_i32(&mut v, n);
    Json::Num(v)
}

/// A list of (player, coordinate) pairs as a JSON array.
fn pairs_json(ps: &Vec<(Player, String)>) -> (r: Json)
    ensures
        view_json(r) == JsonV::Arr(pairs_jsonv(ps.deep_view())),
{
    let mut items: Vec<Json> = Vec::new();
    let n = ps.len();
    let mut i: usize = 0;
    while i < n
        invariant
            n == ps@.len(),
            i <= n,
            view_arr(items@) == pairs_jsonv(ps.deep_view().subrange(0, i as int)),
        decreases n - i,
    {
        let p = player_json(&ps[i].0);
        let c = str_json(&ps[i].1);
        let mut pair: Vec<Json> = Vec::new();
        pair.push(p);
        pair.push(c);
        proof {
            broadcast use lemma_view_arr;

            assert(view_arr(pair@) =~= seq![
                JsonV::Str(player_code(ps@[i as int].0)),
                JsonV::Str(ps@[i as int].1@),
            ]);
        }
        items.push(Json::Arr(pair));
        i = i + 1;
        proof {
            broadcast use lemma_view_arr;

            let pre = ps.deep_view().subrange(0, i as int);
            assert(pre.drop_last() =~= ps.deep_view().subrange(0, i - 1));
            assert(pre.last() == (ps@[i - 1].0, ps@[i - 1].1@));
            assert(view_arr(items@) =~= pairs_jsonv(pre));
        }
    }
    proof {
        assert(ps.deep_view().subrange(0, n as int) =~= ps.deep_view());
    }
    Json::Arr(items)
}

/// A list of strings as a JSON array.
fn strs_json(ss: &Vec<String>) -> (r: Json)
    ensures
        view_json(r) == JsonV::Arr(strs_jsonv(ss.deep_view())),
{
    let mut items: Vec<Json> = Vec::new();
    let n = ss.len();
    let mut i: usize = 0;
    while i < n
        invariant
            n == ss@.len(),
            i <= n,
            view_arr(items@) == strs_jsonv(ss.deep_view().subrange(0, i as int)),
        decreases n - i,
    {
        items.push(str_json(&ss[i]));
        i = i + 1;
        proof {
            broadcast use lemma_view_arr;

            let pre = ss.deep_view().subrange(0, i as int);
            assert(pre.drop_last() =~= ss.deep_view().subrange(0, i - 1));
            assert(pre.last() == ss@[i - 1]@);
            assert(view_arr(items@) =~= strs_jsonv(pre));
        }
    }
    proof {
        assert(ss.deep_view().subrange(0, n as int) =~= ss.deep_view());
    }
    Json::Arr(items)
}

/// A list of turn numbers as a JSON array.
fn u16s_json(vs: &Vec<u16>) -> (r: Json)
    ensures
        view_json(r) == JsonV::Arr(u16s_jsonv(vs.deep_view())),
{
    let mut items: Vec<Json> = Vec::new();
    let n = vs.len();
    let mut i: usize = 0;
    while i < n
        invariant
            n == vs@.len(),
            i <= n,
            view_arr(items@) == u16s_jsonv(vs.deep_view().subrange(0, i as int)),
        decreases n - i,
    {
        items.push(u64_json(vs[i] as u64));
        i = i + 1;
        proof {
            broadcast use lemma_view_arr;

            let pre = vs.deep_view().subrange(0, i as int);
            assert(pre.drop_last() =~= vs.deep_view().subrange(0, i - 1));
            assert(pre.last() == vs@[i - 1]);
            assert(view_arr(items@) =~= u16s_jsonv(pre));
        }
    }
    proof {
        assert(vs.deep_view().subrange(0, n as int) =~= vs.deep_view());
    }
    Json::Arr(items)
}

/// A list of priorities as a JSON array.
fn i32s_json(vs: &Vec<i32>) -> (r: Json)
    ensures
        view_json(r) == JsonV::Arr(i32s_jsonv(vs.deep_view())),
{
    let mut items: Vec<Json> = Vec::new();
    let n = vs.len();
    let mut i: usize = 0;
    while i < n
        invariant
            n == vs@.len(),
            i <= n,
            view_arr(items@) == i32s_jsonv(vs.deep_view().subrange(0, i as int)),
        decreases n - i,
    {
        items.push(i32_json(vs[i]));
        i = i + 1;
        proof {
            broadcast use lemma_view_arr;

            let pre = vs.deep_view().subrange(0, i as int);
            assert(pre.drop_last() =~= vs.deep_view().subrange(0, i - 1));
            assert(pre.last() == vs@[i - 1]);
            assert(view_arr(items@) =~= i32s_jsonv(pre));
        }
    }
    proof {
        assert(vs.deep_view().subrange(0, n as int) =~= vs.deep_view());
    }
    Json::Arr(items)
}

/// A move-restriction group as a JSON object.
fn move_group_json(g: &MoveGroup) -> (r: Json)
    ensures
        view_json(r) == move_group_jsonv(g.deep_view()),
{
    let mut ms: Vec<(Vec<char>, Json)> = Vec::new();
    push_member(&mut ms, key_chars("player"), player_json(&g.player));
    push_member(&mut ms, key_chars("moves"), strs_json(&g.moves));
    push_member(&mut ms, key_chars("untilDepth"), u64_json(g.until_depth as u64));
    proof {
        broadcast use lemma_view_obj;

        assert(view_obj(ms@) =~= seq![
            ("player"@, JsonV::Str(player_code(g.player))),
            ("moves"@, JsonV::Arr(strs_jsonv(g.moves.deep_view()))),
            ("untilDepth"@, JsonV::Num(dec_str(g.until_depth as nat))),
        ]);
    }
    Json::Obj(ms)
}

/// A list of move-restriction groups as a JSON array.
fn move_groups_json(gs: &Vec<MoveGroup>) -> (r: Json)
    ensures
        view_json(r) == JsonV::Arr(move_groups_jsonv(gs.deep_view())),
{
    let mut items: Vec<Json> = Vec::new();
    let n = gs.len();
    let mut i: usize = 0;
    while i < n
        invariant
            n == gs@.len(),
            i <= n,
            view_arr(items@) == move_groups_jsonv(gs.deep_view().subrange(0, i as int)),
        decreases n - i,
    {
        items.push(move_group_json(&gs[i]));
        i = i + 1;
        proof {
            broadcast use lemma_view_arr;

            let pre = gs.deep_view().subrange(0, i as int);
            assert(pre.drop_last() =~= gs.deep_view().subrange(0, i - 1));
            assert(pre.last() == gs@[i - 1].deep_view());
            assert(view_arr(items@) =~= move_groups_jsonv(pre));
        }
    }
    proof {
        assert(gs.deep_view().subrange(0, n as int) =~= gs.deep_view());
    }
    Json::Arr(items)
}

/// Push one member onto an object under construction.
fn push_member(ms: &mut Vec<(Vec<char>, Json)>, k: Vec<char>, v: Json)
    ensures
        view_obj(final(ms)@) == view_obj(old(ms)@).push((k@, view_json(v))),
{
    let ghost kk = k@;
    let ghost vv = view_json(v);
    ms.push((k, v));
    proof {
        assert(ms@.drop_last() =~= old(ms)@);
        assert(ms@.last() == (ms@.last().0, ms@.last().1));
        assert(ms@.last().0@ == kk);
        assert(view_json(ms@.last().1) == vv);
        assert(view_obj(ms@) == view_obj(ms@.drop_last()).push((ms@.last().0@, view_json(ms@.last().1))));
    }
}

/// Build the leading query members.
#[verifier::rlimit(60)]
fn query_json_a(q: &KataQuery) -> (ms: Vec<(Vec<char>, Json)>)
    ensures
        view_obj(ms@) == query_members_a(q.deep_view()),
{
    let ghost qv = q.deep_view();
    let mut ms: Vec<(Vec<char>, Json)> = Vec::new();
    let ghost mut gms: Seq<(Seq<char>, JsonV)> = Seq::empty();

    push_member(&mut ms, key_chars("id"), str_json(&q.id));
    proof {
        gms = seq![("id"@, JsonV::Str(qv.id))];
        assert(view_obj(ms@) == gms);
    }
    match &q.initial_stones {
        Some(st) => {
            push_member(&mut ms, key_chars("initialStones"), pairs_json(st));
            proof {
                gms = gms.push(("initialStones"@, JsonV::Arr(pairs_jsonv(st.deep_view()))));
                assert(view_obj(ms@) == gms);
            }
        },
        None => {},
    }
    push_member(&mut ms, key_chars("moves"), pairs_json(&q.moves));
    proof {
        gms = gms.push(("moves"@, JsonV::Arr(pairs_jsonv(qv.moves))));
        assert(view_obj(ms@) == gms);
    }
    let rules_text: &str = match q.rules {
        Rules::TrompTaylor => "tromp-taylor",
        Rules::Chinese => "chinese",
        Rules::ChineseOgs => "chinese-ogs",
        Rules::ChineseKgs => "chinese-kgs",
        Rules::Japanese => "japanese",
        Rules::Korean => "korean",
        Rules::StoneScoring => "stone-scoring",
        Rules::Aga => "aga",
        Rules::Bga => "bga",
        Rules::NewZealand => "new-zealand",
        Rules::AgaButton => "aga-button",
    };
    push_member(&mut ms, key_chars("rules"), Json::Str(key_chars(rules_text)));
    proof {
        gms = gms.push(("rules"@, JsonV::Str(rules_code(qv.rules))));
        assert(view_obj(ms@) == gms);
    }
    match &q.initial_player {
        Some(p) => {
            push_member(&mut ms, key_chars("initialPlayer"), player_json(p));
            proof {
                gms = gms.push(("initialPlayer"@, JsonV::Str(player_code(*p))));
                assert(view_obj(ms@) == gms);
            }
        },
        None => {},
    }
    match &q.komi {
        Some(t) => {
            push_member(&mut ms, key_chars("komi"), token_json(t));
            proof {
                gms = gms.push(("komi"@, JsonV::Num(t.text@)));
                assert(view_obj(ms@) == gms);
            }
        },
        None => {},
    }
    match &q.white_handicap_bonus {
        Some(w) => {
            let wt: &str = match w {
                WhiteHandicapBonus::Zero => "0",
                WhiteHandicapBonus::N => "N",
                WhiteHandicapBonus::NMinusOne => "N-1",
            };
            push_member(&mut ms, key_chars("whiteHandicapBonus"), Json::Str(key_chars(wt)));
            proof {
                gms = gms.push(("whiteHandicapBonus"@, JsonV::Str(handicap_code(*w))));
                assert(view_obj(ms@) == gms);
            }
        },
        None => {},
    }
    push_member(&mut ms, key_chars("boardXSize"), u64_json(q.board_x_size as u64));
    proof {
        gms = gms.push(("boardXSize"@, JsonV::Num(dec_str(qv.board_x_size as nat))));
        assert(view_obj(ms@) == gms);
    }
    push_member(&mut ms, key_chars("boardYSize"), u64_json(q.board_y_size as u64));
    proof {
        gms = gms.push(("boardYSize"@, JsonV::Num(dec_str(qv.board_y_size as nat))));
        assert(view_obj(ms@) == gms);
    }
    proof {
        assert(gms == query_members_a(qv));
    }
    ms
}

/// Append the middle query members.
#[verifier::rlimit(60)]
fn query_json_b(q: &KataQuery, ms: &mut Vec<(Vec<char>, Json)>)
    ensures
        view_obj(final(ms)@) == query_members_b(q.deep_view(), view_obj(old(ms)@)),
{
    let ghost qv = q.deep_view();
    let ghost mut gms: Seq<(Seq<char>, JsonV)> = view_obj(ms@);
    match &q.analyze_turns {
        Some(ts) => {
            push_member(ms, key_chars("analyzeTurns"), u16s_json(ts));
            proof {
                gms = gms.push(("analyzeTurns"@, JsonV::Arr(u16s_jsonv(ts.deep_view()))));
                assert(view_obj(ms@) == gms);
            }
        },
        None => {},
    }
    match &q.max_visits {
        Some(v) => {
            push_member(ms, key_chars("maxVisits"), u64_json(*v as u64));
            proof {
                gms = gms.push(("maxVisits"@, JsonV::Num(dec_str(*v as nat))));
                assert(view_obj(ms@) == gms);
            }
        },
        None => {},
    }
    match &q.root_policy_temperature {
        Some(t) => {
            push_member(ms, key_chars("rootPolicyTemperature"), token_json(t));
            proof {
                gms = gms.push(("rootPolicyTemperature"@, JsonV::Num(t.text@)));
                assert(view_obj(ms@) == gms);
            }
        },
        None => {},
    }
    match &q.root_fpu_reduction_max {
        Some(t) => {
            push_member(ms, key_chars("rootFpuReductionMax"), token_json(t));
            proof {
                gms = gms.push(("rootFpuReductionMax"@, JsonV::Num(t.text@)));
                assert(view_obj(ms@) == gms);
            }
        },
        None => {},
    }
    match &q.anaysis_pv_len {
        Some(v) => {
            push_member(ms, key_chars("anaysisPvLen"), u64_json(*v as u64));
            proof {
                gms = gms.push(("anaysisPvLen"@, JsonV::Num(dec_str(*v as nat))));
                assert(view_obj(ms@) == gms);
            }
        },
        None => {},
    }
    match &q.include_ownership {
        Some(b) => {
            push_member(ms, key_chars("includeOwnership"), Json::Bool(*b));
            proof {
                gms = gms.push(("includeOwnership"@, JsonV::Bool(*b)));
                assert(view_obj(ms@) == gms);
            }
        },
        None => {},
    }
    match &q.inlcude_ownership_stdev {
        Some(b) => {
            push_member(ms, key_chars("inlcudeOwnershipStdev"), Json::Bool(*b));
            proof {
                gms = gms.push(("inlcudeOwnershipStdev"@, JsonV::Bool(*b)));
                assert(view_obj(ms@) == gms);
            }
        },
        None => {},
    }
    match &q.include_moves_ownership {
        Some(b) => {
            push_member(ms, key_chars("includeMovesOwnership"), Json::Bool(*b));
            proof {
                gms = gms.push(("includeMovesOwnership"@, JsonV::Bool(*b)));
                assert(view_obj(ms@) == gms);
            }
        },
        None => {},
    }
    match &q.include_moves_ownership_stdev {
        Some(b) => {
            push_member(ms, key_chars("includeMovesOwnershipStdev"), Json::Bool(*b));
            proof {
                gms = gms.push(("includeMovesOwnershipStdev"@, JsonV::Bool(*b)));
                assert(view_obj(ms@) == gms);
            }
        },
        None => {},
    }
    match &q.include_policy {
        Some(b) => {
            push_member(ms, key_chars("includePolicy"), Json::Bool(*b));
            proof {
                gms = gms.push(("includePolicy"@, JsonV::Bool(*b)));
                assert(view_obj(ms@) == gms);
            }
        },
        None => {},
    }
    match &q.include_pv_visits {
        Some(b) => {
            push_member(ms, key_chars("includePvVisits"), Json::Bool(*b));
            proof {
                gms = gms.push(("includePvVisits"@, JsonV::Bool(*b)));
                assert(view_obj(ms@) == gms);
            }
        },
        None => {},
    }
    proof {
        assert(gms == query_members_b(qv, view_obj(old(ms)@)));
    }
}

/// Append the trailing query members.
#[verifier::rlimit(60)]
fn query_json_c(q: &KataQuery, ms: &mut Vec<(Vec<char>, Json)>)
    ensures
        view_obj(final(ms)@) == query_members_c(q.deep_view(), view_obj(old(ms)@)),
{
    let ghost qv = q.deep_view();
    let ghost mut gms: Seq<(Seq<char>, JsonV)> = view_obj(ms@);
    match &q.avoid_moves {
        Some(gs) => {
            push_member(ms, key_chars("avoidMoves"), move_groups_json(gs));
            proof {
                gms = gms.push(("avoidMoves"@, JsonV::Arr(move_groups_jsonv(gs.deep_view()))));
                assert(view_obj(ms@) == gms);
            }
        },
        None => {},
    }
    match &q.allow_moves {
        Some(g) => {
            let gj = move_group_json(g);
            let mut one: Vec<Json> = Vec::new();
            one.push(gj);
            proof {
                broadcast use lemma_view_arr;

                assert(view_arr(one@) =~= seq![move_group_jsonv(g.deep_view())]);
            }
            push_member(ms, key_chars("allowMoves"), Json::Arr(one));
            proof {
                gms = gms.push(("allowMoves"@, JsonV::Arr(seq![move_group_jsonv(g.deep_view())])));
                assert(view_obj(ms@) == gms);
            }
        },
        None => {},
    }
    match q.override_settings {
        Some(ref j) => {
            let copy = clone_json(j);
            push_member(ms, key_chars("overrideSettings"), copy);
            proof {
                gms = gms.push(("overrideSettings"@, view_json(*j)));
                assert(view_obj(ms@) == gms);
            }
        },
        None => {},
    }
    match &q.report_during_search_every {
        Some(t) => {
            push_member(ms, key_chars("reportDuringSearchEvery"), token_json(t));
            proof {
                gms = gms.push(("reportDuringSearchEvery"@, JsonV::Num(t.text@)));
                assert(view_obj(ms@) == gms);
            }
        },
        None => {},
    }
    match &q.priority {
        Some(v) => {
            push_member(ms, key_chars("priority"), i32_json(*v));
            proof {
                gms = gms.push(("priority"@, JsonV::Num(dec_str_signed(*v as int))));
                assert(view_obj(ms@) == gms);
            }
        },
        None => {},
    }
    match &q.priorities {
        Some(vs) => {
            push_member(ms, key_chars("priorities"), i32s_json(vs));
            proof {
                gms = gms.push(("priorities"@, JsonV::Arr(i32s_jsonv(vs.deep_view()))));
                assert(view_obj(ms@) == gms);
            }
        },
        None => {},
    }
    proof {
        assert(gms == query_members_c(qv, view_obj(old(ms)@)));
    }
}

/// The JSON object a query encodes to.
pub fn query_json(q: &KataQuery) -> (r: Json)
    ensures
        view_json(r) == JsonV::Obj(query_members(q.deep_view())),
{
    let mut ms = query_json_a(q);
    query_json_b(q, &mut ms);
    query_json_c(q, &mut ms);
    Json::Obj(ms)
}

/// A structural copy of a JSON value.
#[verifier::loop_isolation(false)]
pub fn clone_json(j: &Json) -> (r: Json)
    ensures
        view_json(r) == view_json(*j),
    decreases *j,
{
    match j {
        Json::Null => Json::Null,
        Json::Bool(b) => Json::Bool(*b),
        Json::Num(t) => {
            let mut v: Vec<char> = Vec::new();
            push_chars_vec(&mut v, t);
            Json::Num(v)
        },
        Json::Str(t) => {
            let mut v: Vec<char> = Vec::new();
            push_chars_vec(&mut v, t);
            Json::Str(v)
        },
        Json::Arr(items) => {
            let mut out: Vec<Json> = Vec::new();
            let n = items.len();
            let mut i: usize = 0;
            while i < n
                invariant
                    n == items@.len(),
                    i <= n,
                    out@.len() == i,
                    view_arr(out@) == view_arr(items@.subrange(0, i as int)),
                    *j == Json::Arr(*items),
                decreases n - i,
            {
                proof {
                    broadcast use lemma_view_arr;
                    broadcast use vstd::std_specs::vec::axiom_vec_index_decreases;

                    assert(decreases_to!(*j => *items));
                    assert(decreases_to!(*items => (*items)[i as int]));
                }
                let c = clone_json(&items[i]);
                out.push(c);
                i = i + 1;
                proof {
                    broadcast use lemma_view_arr;

                    let pre = items@.subrange(0, i as int);
                    assert(pre.drop_last() =~= items@.subrange(0, i - 1));
                    assert(view_arr(out@).drop_last() =~= view_arr(out@.drop_last()));
                    assert(view_arr(out@) =~= view_arr(pre));
                }
            }
            proof {
                assert(items@.subrange(0, n as int) =~= items@);
            }
            Json::Arr(out)
        },
        Json::Obj(mems) => {
            let mut out: Vec<(Vec<char>, Json)> = Vec::new();
            let n = mems.len();
            let mut i: usize = 0;
            while i < n
                invariant
                    n == mems@.len(),
                    i <= n,
                    out@.len() == i,
                    view_obj(out@) == view_obj(mems@.subrange(0, i as int)),
                    *j == Json::Obj(*mems),
                decreases n - i,
            {
                proof {
                    broadcast use lemma_view_obj;
                    broadcast use vstd::std_specs::vec::axiom_vec_index_decreases;

                    assert(decreases_to!(*j => *mems));
                    assert(decreases_to!(*mems => (*mems)[i as int]));
                    assert(decreases_to!((*mems)[i as int] => (*mems)[i as int].1));
                }
                let mut k: Vec<char> = Vec::new();
                push_chars_vec(&mut k, &mems[i].0);
                let v = clone_json(&mems[i].1);
                out.push((k, v));
                i = i + 1;
                proof {
                    broadcast use lemma_view_obj;

                    let pre = mems@.subrange(0, i as int);
                    assert(pre.drop_last() =~= mems@.subrange(0, i - 1));
                    assert(view_obj(out@).drop_last() =~= view_obj(out@.drop_last()));
                    assert(view_obj(out@) =~= view_obj(pre));
                }
            }
            proof {
                assert(mems@.subrange(0, n as int) =~= mems@);
            }
            Json::Obj(out)
        },
    }
}

/// Append every character of `s` to `out` (vector form).
fn push_chars_vec(out: &mut Vec<char>, s: &Vec<char>)
    ensures
        final(out)@ == old(out)@ + s@,
{
    crate::json::push_chars(out, s)
}

/// The JSON object an action encodes to.
pub fn encode_action_json(a: &KataAction) -> (r: Json)
    ensures
        view_json(r) == action_jsonv(a.deep_view()),
{
    match a {
        KataAction::Query { inner } => query_json(inner),
        KataAction::QueryVersion { id, action } => {
            let mut ms: Vec<(Vec<char>, Json)> = Vec::new();
            push_member(&mut ms, key_chars("id"), str_json(id));
            push_member(&mut ms, key_chars("action"), Json::Str(key_chars("query_version")));
            proof {
                broadcast use lemma_view_obj;

                assert(view_obj(ms@) =~= seq![
                    ("id"@, JsonV::Str(id@)),
                    ("action"@, JsonV::Str("query_version"@)),
                ]);
            }
            Json::Obj(ms)
        },
        KataAction::ClearCache { id, action } => {
            let mut ms: Vec<(Vec<char>, Json)> = Vec::new();
            push_member(&mut ms, key_chars("id"), str_json(id));
            push_member(&mut ms, key_chars("action"), Json::Str(key_chars("clear_cache")));
            proof {
                broadcast use lemma_view_obj;

                assert(view_obj(ms@) =~= seq![
                    ("id"@, JsonV::Str(id@)),
                    ("action"@, JsonV::Str("clear_cache"@)),
                ]);
            }
            Json::Obj(ms)
        },
        KataAction::Terminate { id, action, terminate_id, turn_numbers } => {
            let mut ms: Vec<(Vec<char>, Json)> = Vec::new();
            push_member(&mut ms, key_chars("id"), str_json(id));
            push_member(&mut ms, key_chars("action"), Json::Str(key_chars("terminate")));
            push_member(&mut ms, key_chars("terminateId"), str_json(terminate_id));
            proof {
                broadcast use lemma_view_obj;

                assert(view_obj(ms@) =~= seq![
                    ("id"@, JsonV::Str(id@)),
                    ("action"@, JsonV::Str("terminate"@)),
                    ("terminateId"@, JsonV::Str(terminate_id@)),
                ]);
            }
            match turn_numbers {
                Some(ts) => {
                    let ghost before = view_obj(ms@);
                    push_member(&mut ms, key_chars("turnNumbers"), u16s_json(ts));
                    proof {
                        broadcast use lemma_view_obj;

                        assert(view_obj(ms@) =~= before.push(
                            ("turnNumbers"@, JsonV::Arr(u16s_jsonv(ts.deep_view()))),
                        ));
                    }
                    Json::Obj(ms)
                },
                None => Json::Obj(ms),
            }
        },
    }
}

/// The full wire line of an action: exactly one JSON object, then `\n`.
pub fn encode_action_line(a: &KataAction) -> (s: String)
    ensures
        s@ == action_line(a.deep_view()),
{
    let j = encode_action_json(a);
    let mut out: Vec<char> = Vec::new();
    write_json(&j, &mut out);
    out.push('\n');
    string_of_chars(&out)
}

} // verus!
