//! The protocol's stated laws, proved once and for all inputs: fixed enum
//! wire strings, omission of unset optional fields, and recovery of an
//! encoded action's fields from its JSON object.

use vstd::prelude::*;

use crate::json::{JsonV, obj_get, obj_has};
use crate::text::{dec_str, digits_val, all_digits, is_digit, digit_char};
use crate::encode::{
    player_code, rules_code, handicap_code, pairs_jsonv, u16s_jsonv, i32s_jsonv, move_group_jsonv,
    move_groups_jsonv, query_members, query_members_a, query_members_b, query_members_c,
    action_jsonv,
};
use crate::decode::{as_u16, req_str};
use crate::{KataActionV, KataQueryV, Player, Rules, WhiteHandicapBonus};

verus! {

/// Looking a key up in an extended member list: an existing binding wins,
/// else the new member answers for its own key.
pub broadcast proof fn lemma_obj_get_push(
    ms: Seq<(Seq<char>, JsonV)>,
    m: (Seq<char>, JsonV),
    key: Seq<char>,
)
    ensures
        #[trigger] obj_get(ms.push(m), key) == (if obj_has(ms, key) {
            obj_get(ms, key)
        } else if m.0 == key {
            Some(m.1)
        } else {
            None
        }),
    decreases ms.len(),
{
    if ms.len() == 0 {
        assert(ms.push(m)[0] == m);
        assert(ms.push(m).drop_first() =~= Seq::<(Seq<char>, JsonV)>::empty());
    } else {
        assert(ms.push(m)[0] == ms[0]);
        assert(ms.push(m).drop_first() =~= ms.drop_first().push(m));
        lemma_obj_get_push(ms.drop_first(), m, key);
    }
}

/// The decimal rendering of a number is a non-empty digit string whose
/// value is the number itself.
pub proof fn lemma_dec_str_value(n: nat)
    ensures
        dec_str(n).len() >= 1,
        all_digits(dec_str(n)),
        digits_val(dec_str(n)) == n,
    decreases n,
{
    if n < 10 {
        assert(is_digit(digit_char(n)));
        assert(dec_str(n) =~= seq![digit_char(n)]);
        assert(dec_str(n).drop_last() =~= Seq::<char>::empty());
        assert(dec_str(n).last() == digit_char(n));
        assert(digits_val(dec_str(n)) == digits_val(Seq::<char>::empty()) * 10 + crate::text::digit_val(
            digit_char(n),
        ));
        assert(crate::text::digit_val(digit_char(n)) == n);
    } else {
        lemma_dec_str_value(n / 10);
        let s = dec_str(n);
        assert(s =~= dec_str(n / 10) + seq![digit_char(n % 10)]);
        assert(s.drop_last() =~= dec_str(n / 10));
        assert(s.last() == digit_char(n % 10));
        assert(is_digit(digit_char(n % 10)));
        assert(forall|i: int| 0 <= i < s.len() ==> is_digit(#[trigger] s[i])) by {
            assert(forall|i: int|
                0 <= i < dec_str(n / 10).len() ==> is_digit(#[trigger] dec_str(n / 10)[i]));
        }
        assert(digits_val(s) == digits_val(dec_str(n / 10)) * 10 + crate::text::digit_val(
            digit_char(n % 10),
        ));
        assert(crate::text::digit_val(digit_char(n % 10)) == n % 10);
        assert(n / 10 * 10 + n % 10 == n);
    }
}

/// A turn number survives its JSON number encoding unchanged.
pub proof fn lemma_u16_round_trip(v: u16)
    ensures
        as_u16(JsonV::Num(dec_str(v as nat))) == Some(v),
{
    lemma_dec_str_value(v as nat);
}

/// Enum values encode to their fixed wire strings, never their identifier
/// text: players to single letters, rule sets to hyphenated lowercase
/// names, handicap bonuses to the three literal forms.
pub proof fn law_enum_wire_strings()
    ensures
        player_code(Player::Black) == "B"@,
        player_code(Player::White) == "W"@,
        rules_code(Rules::TrompTaylor) == "tromp-taylor"@,
        rules_code(Rules::Chinese) == "chinese"@,
        rules_code(Rules::ChineseOgs) == "chinese-ogs"@,
        rules_code(Rules::ChineseKgs) == "chinese-kgs"@,
        rules_code(Rules::Japanese) == "japanese"@,
        rules_code(Rules::Korean) == "korean"@,
        rules_code(Rules::StoneScoring) == "stone-scoring"@,
        rules_code(Rules::Aga) == "aga"@,
        rules_code(Rules::Bga) == "bga"@,
        rules_code(Rules::NewZealand) == "new-zealand"@,
        rules_code(Rules::AgaButton) == "aga-button"@,
        handicap_code(WhiteHandicapBonus::Zero) == "0"@,
        handicap_code(WhiteHandicapBonus::N) == "N"@,
        handicap_code(WhiteHandicapBonus::NMinusOne) == "N-1"@,
{
}


/// The turn numbers held by an encoded turn-number array, read from item
/// `i` on.
pub open spec fn u16s_of_items(s: Seq<JsonV>, i: int) -> Option<Seq<u16>>
    decreases s.len() - i,
{
    if i < 0 || i >= s.len() {
        Some(Seq::empty())
    } else {
        match (as_u16(s[i]), u16s_of_items(s, i + 1)) {
            (Some(v), Some(rest)) => Some(seq![v] + rest),
            _ => None,
        }
    }
}

/// An encoded turn-number array holds, item by item, exactly the numbers
/// it was built from.
pub proof fn lemma_u16s_items(ts: Seq<u16>)
    ensures
        u16s_jsonv(ts).len() == ts.len(),
        forall|k: int| 0 <= k < ts.len() ==> u16s_jsonv(ts)[k] == JsonV::Num(
            dec_str(ts[k] as nat),
        ),
    decreases ts,
{
    if ts.len() > 0 {
        lemma_u16s_items(ts.drop_last());
    }
}

/// Reading a turn-number array back yields the original numbers.
pub proof fn lemma_u16s_round_trip(ts: Seq<u16>, i: int)
    requires
        0 <= i <= ts.len(),
    ensures
        u16s_of_items(u16s_jsonv(ts), i) == Some(ts.skip(i)),
    decreases ts.len() - i,
{
    lemma_u16s_items(ts);
    if i >= ts.len() {
        assert(ts.skip(i) =~= Seq::<u16>::empty());
    } else {
        lemma_u16s_round_trip(ts, i + 1);
        lemma_u16_round_trip(ts[i]);
        assert(ts.skip(i) =~= seq![ts[i]] + ts.skip(i + 1));
    }
}

/// What a control action's encoded object decodes back to: the variant
/// named by the `action` member, with its ids and optional turn numbers.
pub open spec fn control_action_of(jv: JsonV) -> Option<KataActionV> {
    match jv {
        JsonV::Obj(ms) => {
            match obj_get(ms, "action"@) {
                Some(a) => {
                    if a == JsonV::Str("query_version"@) {
                        match req_str(ms, "id"@) {
                            Some(id) => Some(
                                KataActionV::QueryVersion {
                                    id: id,
                                    action: crate::ActionQueryVersion::ActionQueryVersion,
                                },
                            ),
                            None => None,
                        }
                    } else if a == JsonV::Str("clear_cache"@) {
                        match req_str(ms, "id"@) {
                            Some(id) => Some(
                                KataActionV::ClearCache {
                                    id: id,
                                    action: crate::ActionClearCache::ActionClearCache,
                                },
                            ),
                            None => None,
                        }
                    } else if a == JsonV::Str("terminate"@) {
                        let id = req_str(ms, "id"@);
                        let tid = req_str(ms, "terminateId"@);
                        let tns = match obj_get(ms, "turnNumbers"@) {
                            None => Some(None),
                            Some(JsonV::Arr(items)) => match u16s_of_items(items, 0) {
                                Some(ts) => Some(Some(ts)),
                                None => None,
                            },
                            Some(_) => None,
                        };
                        if id is Some && tid is Some && tns is Some {
                            Some(
                                KataActionV::Terminate {
                                    id: id->0,
                                    action: crate::ActionTerminate::ActionTerminate,
                                    terminate_id: tid->0,
                                    turn_numbers: tns->0,
                                },
                            )
                        } else {
                            None
                        }
                    } else {
                        None
                    }
                },
                None => None,
            }
        },
        _ => None,
    }
}

/// The distinct wire key and discriminator strings told apart, once, in a
/// plain context.
proof fn lemma_keys_distinct()
    ensures
        "id"@ != "action"@,
        "terminateId"@ != "action"@,
        "terminateId"@ != "id"@,
        "terminateId"@ != "turnNumbers"@,
        "id"@ != "turnNumbers"@,
        "action"@ != "turnNumbers"@,
        "query_version"@ != "clear_cache"@,
        "query_version"@ != "terminate"@,
        "clear_cache"@ != "terminate"@,
{
    reveal_strlit("id");
    reveal_strlit("action");
    reveal_strlit("terminateId");
    reveal_strlit("turnNumbers");
    reveal_strlit("query_version");
    reveal_strlit("clear_cache");
    reveal_strlit("terminate");
    assert("id"@.len() == 2);
    assert("action"@.len() == 6);
    assert("terminateId"@.len() == 11);
    assert("turnNumbers"@.len() == 11);
    assert("query_version"@.len() == 13);
    assert("clear_cache"@.len() == 11);
    assert("terminate"@.len() == 9);
    assert("terminateId"@[1] == 'e');
    assert("turnNumbers"@[1] == 'u');
    assert(!("id"@ == "action"@));
    assert(!("terminateId"@ == "action"@));
    assert(!("terminateId"@ == "id"@));
    assert(!("terminateId"@ == "turnNumbers"@));
    assert(!("id"@ == "turnNumbers"@));
    assert(!("action"@ == "turnNumbers"@));
    assert(!("query_version"@ == "clear_cache"@));
    assert(!("query_version"@ == "terminate"@));
    assert(!("clear_cache"@ == "terminate"@));
}

/// Round trip for a version query: decoding its encoded object reproduces
/// the action exactly.
#[verifier::rlimit(100)]
#[verifier::spinoff_prover]
pub proof fn law_query_version_round_trip(id: Seq<char>)
    ensures
        control_action_of(
            action_jsonv(
                KataActionV::QueryVersion {
                    id: id,
                    action: crate::ActionQueryVersion::ActionQueryVersion,
                },
            ),
        ) == Some(
            KataActionV::QueryVersion {
                id: id,
                action: crate::ActionQueryVersion::ActionQueryVersion,
            },
        ),
{
    lemma_keys_distinct();
    reveal_strlit("id");
    reveal_strlit("action");
    reveal_strlit("query_version");
    let ms = seq![("id"@, JsonV::Str(id)), ("action"@, JsonV::Str("query_version"@))];
    assert(ms.drop_first() =~= seq![("action"@, JsonV::Str("query_version"@))]);
    assert(obj_get(ms.drop_first(), "action"@) == Some(JsonV::Str("query_version"@)));
    assert(obj_get(ms, "action"@) == Some(JsonV::Str("query_version"@)));
    assert(obj_get(ms, "id"@) == Some(JsonV::Str(id)));
}

/// Round trip for a cache-clear request: decoding its encoded object
/// reproduces the action exactly.
#[verifier::rlimit(100)]
#[verifier::spinoff_prover]
pub proof fn law_clear_cache_round_trip(id: Seq<char>)
    ensures
        control_action_of(
            action_jsonv(
                KataActionV::ClearCache {
                    id: id,
                    action: crate::ActionClearCache::ActionClearCache,
                },
            ),
        ) == Some(
            KataActionV::ClearCache {
                id: id,
                action: crate::ActionClearCache::ActionClearCache,
            },
        ),
{
    lemma_keys_distinct();
    reveal_strlit("id");
    reveal_strlit("action");
    reveal_strlit("clear_cache");
    let ms = seq![("id"@, JsonV::Str(id)), ("action"@, JsonV::Str("clear_cache"@))];
    assert(ms.drop_first() =~= seq![("action"@, JsonV::Str("clear_cache"@))]);
    assert(obj_get(ms.drop_first(), "action"@) == Some(JsonV::Str("clear_cache"@)));
    assert(obj_get(ms, "action"@) == Some(JsonV::Str("clear_cache"@)));
    assert(obj_get(ms, "id"@) == Some(JsonV::Str(id)));
}

/// Round trip for a terminate request: decoding its encoded object
/// reproduces the action, selective turn numbers included.
#[verifier::rlimit(100)]
#[verifier::spinoff_prover]
pub proof fn law_terminate_round_trip(
    id: Seq<char>,
    terminate_id: Seq<char>,
    turn_numbers: Option<Seq<u16>>,
)
    ensures
        control_action_of(
            action_jsonv(
                KataActionV::Terminate {
                    id: id,
                    action: crate::ActionTerminate::ActionTerminate,
                    terminate_id: terminate_id,
                    turn_numbers: turn_numbers,
                },
            ),
        ) == Some(
            KataActionV::Terminate {
                id: id,
                action: crate::ActionTerminate::ActionTerminate,
                terminate_id: terminate_id,
                turn_numbers: turn_numbers,
            },
        ),
{
    lemma_keys_distinct();
    reveal_strlit("id");
    reveal_strlit("action");
    reveal_strlit("terminateId");
    reveal_strlit("turnNumbers");
    reveal_strlit("terminate");
    let base = seq![
        ("id"@, JsonV::Str(id)),
        ("action"@, JsonV::Str("terminate"@)),
        ("terminateId"@, JsonV::Str(terminate_id)),
    ];
    let t2 = seq![("terminateId"@, JsonV::Str(terminate_id))];
    let t1 = seq![
        ("action"@, JsonV::Str("terminate"@)),
        ("terminateId"@, JsonV::Str(terminate_id)),
    ];
    assert(t2.drop_first() =~= Seq::<(Seq<char>, JsonV)>::empty());
    assert(t1.drop_first() =~= t2);
    assert(base.drop_first() =~= t1);
    let e: Seq<(Seq<char>, JsonV)> = Seq::empty();
    assert(obj_get(e, "action"@) is None);
    assert(obj_get(e, "turnNumbers"@) is None);
    assert(obj_get(e, "id"@) is None);
    assert(obj_get(t2, "action"@) is None);
    assert(obj_get(t2, "turnNumbers"@) is None);
    assert(obj_get(t2, "id"@) is None);
    assert(obj_get(t2, "terminateId"@) == Some(JsonV::Str(terminate_id)));
    assert(obj_get(t1, "action"@) == Some(JsonV::Str("terminate"@)));
    assert(obj_get(t1, "terminateId"@) == Some(JsonV::Str(terminate_id)));
    assert(obj_get(t1, "turnNumbers"@) is None);
    assert(obj_get(t1, "id"@) is None);
    assert(obj_get(base, "action"@) == Some(JsonV::Str("terminate"@)));
    assert(obj_get(base, "id"@) == Some(JsonV::Str(id)));
    assert(obj_get(base, "terminateId"@) == Some(JsonV::Str(terminate_id)));
    assert(obj_get(base, "turnNumbers"@) is None);
    match turn_numbers {
        Some(ts) => {
            let m = ("turnNumbers"@, JsonV::Arr(u16s_jsonv(ts)));
            let ms = base.push(m);
            lemma_obj_get_push(base, m, "action"@);
            lemma_obj_get_push(base, m, "id"@);
            lemma_obj_get_push(base, m, "terminateId"@);
            lemma_obj_get_push(base, m, "turnNumbers"@);
            assert(obj_get(ms, "turnNumbers"@) == Some(JsonV::Arr(u16s_jsonv(ts))));
            lemma_u16s_round_trip(ts, 0);
            assert(ts.skip(0) =~= ts);
        },
        None => {},
    }
}


} // verus!
