use kataproto::{
    ActionClearCache, ActionQueryVersion, ActionTerminate, GitHash, GitHashOmitted, JsonNumber,
    KataAction, KataQuery, KataResponse, MoveGroup, Player, QueryBuildError, Rules,
    WhiteHandicapBonus,
};
use kataproto::encode::encode_action_line;
use kataproto::json::Json;
use kataproto::decode::decode_line;

fn num(s: &str) -> JsonNumber {
    JsonNumber { text: s.to_string() }
}

fn minimal_query(id: &str) -> KataQuery {
    KataQuery::builder()
        .id(id.to_string())
        .moves(vec![(Player::Black, "Q16".to_string()), (Player::White, "D4".to_string())])
        .rules(Rules::TrompTaylor)
        .board_x_size(19)
        .board_y_size(19)
        .build()
        .unwrap()
}

fn parsed(line: &str) -> serde_json::Value {
    serde_json::from_str(line.trim_end()).unwrap()
}

#[test]
fn minimal_query_exact_line() {
    let q = minimal_query("q1");
    let line = encode_action_line(&KataAction::Query { inner: q });
    assert_eq!(
        line,
        "{\"id\":\"q1\",\"moves\":[[\"B\",\"Q16\"],[\"W\",\"D4\"]],\"rules\":\"tromp-taylor\",\"boardXSize\":19,\"boardYSize\":19}\n"
    );
}

#[test]
fn unset_optional_fields_are_omitted() {
    let q = minimal_query("q2");
    let line = encode_action_line(&KataAction::Query { inner: q });
    let v = parsed(&line);
    let obj = v.as_object().unwrap();
    assert!(!obj.contains_key("komi"));
    assert!(!obj.contains_key("initialStones"));
    assert!(!obj.contains_key("maxVisits"));
    assert!(!obj.contains_key("analyzeTurns"));
    assert!(!obj.contains_key("overrideSettings"));
    assert!(!obj.contains_key("priority"));
    assert!(obj.contains_key("id"));
    assert!(obj.contains_key("moves"));
    assert!(obj.contains_key("rules"));
    assert!(obj.contains_key("boardXSize"));
    assert!(obj.contains_key("boardYSize"));
}

#[test]
fn present_but_empty_collection_still_appears() {
    let mut b = KataQuery::builder()
        .id("q3".to_string())
        .moves(vec![])
        .rules(Rules::Japanese)
        .board_x_size(9)
        .board_y_size(9);
    b = b.analyze_turns(vec![]);
    let q = b.build().unwrap();
    let line = encode_action_line(&KataAction::Query { inner: q });
    let v = parsed(&line);
    let obj = v.as_object().unwrap();
    assert!(obj.contains_key("analyzeTurns"));
    assert_eq!(obj["analyzeTurns"].as_array().unwrap().len(), 0);
    assert_eq!(obj["moves"].as_array().unwrap().len(), 0);
}

#[test]
fn enum_wire_strings_are_exact() {
    let q = KataQuery::builder()
        .id("q4".to_string())
        .moves(vec![(Player::White, "C3".to_string())])
        .rules(Rules::NewZealand)
        .board_x_size(13)
        .board_y_size(13)
        .initial_player(Player::White)
        .white_handicap_bonus(WhiteHandicapBonus::NMinusOne)
        .build()
        .unwrap();
    let line = encode_action_line(&KataAction::Query { inner: q });
    let v = parsed(&line);
    assert_eq!(v["rules"], "new-zealand");
    assert_eq!(v["initialPlayer"], "W");
    assert_eq!(v["whiteHandicapBonus"], "N-1");
    assert_eq!(v["moves"][0][0], "W");
}

#[test]
fn all_rules_wire_names() {
    let cases = vec![
        (Rules::TrompTaylor, "tromp-taylor"),
        (Rules::Chinese, "chinese"),
        (Rules::ChineseOgs, "chinese-ogs"),
        (Rules::ChineseKgs, "chinese-kgs"),
        (Rules::Japanese, "japanese"),
        (Rules::Korean, "korean"),
        (Rules::StoneScoring, "stone-scoring"),
        (Rules::Aga, "aga"),
        (Rules::Bga, "bga"),
        (Rules::NewZealand, "new-zealand"),
        (Rules::AgaButton, "aga-button"),
    ];
    for (r, name) in cases {
        let q = KataQuery::builder()
            .id("r".to_string())
            .moves(vec![])
            .rules(r)
            .board_x_size(19)
            .board_y_size(19)
            .build()
            .unwrap();
        let line = encode_action_line(&KataAction::Query { inner: q });
        assert_eq!(parsed(&line)["rules"], name);
    }
}

#[test]
fn full_query_round_trip_fields() {
    let q = KataQuery::builder()
        .id("big".to_string())
        .initial_stones(vec![(Player::Black, "D4".to_string())])
        .moves(vec![(Player::White, "Q4".to_string())])
        .rules(Rules::Chinese)
        .initial_player(Player::Black)
        .komi(num("7.5"))
        .white_handicap_bonus(WhiteHandicapBonus::N)
        .board_x_size(19)
        .board_y_size(19)
        .analyze_turns(vec![0, 1, 2])
        .max_visits(1000)
        .root_policy_temperature(num("1.1"))
        .root_fpu_reduction_max(num("0.2"))
        .anaysis_pv_len(15)
        .include_ownership(true)
        .inlcude_ownership_stdev(false)
        .include_moves_ownership(true)
        .include_moves_ownership_stdev(false)
        .include_policy(true)
        .include_pv_visits(true)
        .avoid_moves(vec![MoveGroup {
            player: Player::Black,
            moves: vec!["C3".to_string(), "D4".to_string()],
            until_depth: 5,
        }])
        .allow_moves(MoveGroup {
            player: Player::White,
            moves: vec!["Q16".to_string()],
            until_depth: 2,
        })
        .report_during_search_every(num("0.5"))
        .priority(-3)
        .priorities(vec![1, -2, 3])
        .build()
        .unwrap();
    let line = encode_action_line(&KataAction::Query { inner: q });
    let v = parsed(&line);
    assert_eq!(v["id"], "big");
    assert_eq!(v["initialStones"][0][0], "B");
    assert_eq!(v["initialStones"][0][1], "D4");
    assert_eq!(v["moves"][0][1], "Q4");
    assert_eq!(v["rules"], "chinese");
    assert_eq!(v["initialPlayer"], "B");
    assert_eq!(v["komi"], 7.5);
    assert_eq!(v["whiteHandicapBonus"], "N");
    assert_eq!(v["boardXSize"], 19);
    assert_eq!(v["boardYSize"], 19);
    assert_eq!(v["analyzeTurns"], serde_json::Value::from(vec![0, 1, 2]));
    assert_eq!(v["maxVisits"], 1000);
    assert_eq!(v["rootPolicyTemperature"], 1.1);
    assert_eq!(v["rootFpuReductionMax"], 0.2);
    assert_eq!(v["anaysisPvLen"], 15);
    assert_eq!(v["includeOwnership"], true);
    assert_eq!(v["inlcudeOwnershipStdev"], false);
    assert_eq!(v["includeMovesOwnership"], true);
    assert_eq!(v["includeMovesOwnershipStdev"], false);
    assert_eq!(v["includePolicy"], true);
    assert_eq!(v["includePvVisits"], true);
    assert_eq!(v["avoidMoves"][0]["player"], "B");
    assert_eq!(v["avoidMoves"][0]["moves"][1], "D4");
    assert_eq!(v["avoidMoves"][0]["untilDepth"], 5);
    assert_eq!(v["allowMoves"][0]["player"], "W");
    assert_eq!(v["priority"], -3);
    assert_eq!(v["priorities"], serde_json::Value::from(vec![1, -2, 3]));
    assert_eq!(v["reportDuringSearchEvery"], 0.5);
}

#[test]
fn control_actions_round_trip() {
    let line = encode_action_line(&KataAction::QueryVersion {
        id: "v1".to_string(),
        action: ActionQueryVersion::ActionQueryVersion,
    });
    let v = parsed(&line);
    assert_eq!(v["id"], "v1");
    assert_eq!(v["action"], "query_version");

    let line = encode_action_line(&KataAction::ClearCache {
        id: "c1".to_string(),
        action: ActionClearCache::ActionClearCache,
    });
    let v = parsed(&line);
    assert_eq!(v["action"], "clear_cache");

    let line = encode_action_line(&KataAction::Terminate {
        id: "t1".to_string(),
        action: ActionTerminate::ActionTerminate,
        terminate_id: "q9".to_string(),
        turn_numbers: Some(vec![3, 4]),
    });
    let v = parsed(&line);
    assert_eq!(v["action"], "terminate");
    assert_eq!(v["terminateId"], "q9");
    assert_eq!(v["turnNumbers"], serde_json::Value::from(vec![3, 4]));
    assert!(line.ends_with('\n'));
}

fn build_err(r: Result<KataQuery, QueryBuildError>) -> QueryBuildError {
    match r {
        Ok(_) => panic!("build unexpectedly succeeded"),
        Err(e) => e,
    }
}

#[test]
fn builder_reports_first_missing_field() {
    assert_eq!(build_err(KataQuery::builder().build()), QueryBuildError::MissingId);
    assert_eq!(
        build_err(KataQuery::builder().id("a".to_string()).build()),
        QueryBuildError::MissingMoves
    );
    assert_eq!(
        build_err(KataQuery::builder().id("a".to_string()).moves(vec![]).build()),
        QueryBuildError::MissingRules
    );
    assert_eq!(
        build_err(
            KataQuery::builder().id("a".to_string()).moves(vec![]).rules(Rules::Aga).build(),
        ),
        QueryBuildError::MissingBoardXSize
    );
    assert_eq!(
        build_err(
            KataQuery::builder()
                .id("a".to_string())
                .moves(vec![])
                .rules(Rules::Aga)
                .board_x_size(19)
                .build(),
        ),
        QueryBuildError::MissingBoardYSize
    );
}

#[test]
fn version_reply_with_omitted_hash() {
    let r = decode_line(
        "{\"action\":\"query_version\",\"gitHash\":\"<omitted>\",\"id\":\"q1\",\"version\":\"1.0\"}",
    )
    .unwrap();
    match r {
        KataResponse::Version { git_hash, id, version, .. } => {
            assert_eq!(git_hash, GitHash::Omitted(GitHashOmitted::Omitted));
            assert_eq!(id, "q1");
            assert_eq!(version, "1.0");
        },
        other => panic!("wrong variant: {:?}", other),
    }
}

#[test]
fn version_reply_with_real_hash() {
    let r = decode_line(
        "{\"action\":\"query_version\",\"gitHash\":\"abc123\",\"id\":\"q1\",\"version\":\"1.12\"}",
    )
    .unwrap();
    match r {
        KataResponse::Version { git_hash, .. } => {
            assert_eq!(git_hash, GitHash::Included("abc123".to_string()));
        },
        other => panic!("wrong variant: {:?}", other),
    }
}

#[test]
fn resultless_beats_result_when_no_payload() {
    let r = decode_line(
        "{\"id\":\"a1\",\"isDuringSearch\":false,\"turnNumber\":3,\"noResults\":true}",
    )
    .unwrap();
    match r {
        KataResponse::Resultless { id, is_during_search, turn_number, no_results } => {
            assert_eq!(id, "a1");
            assert!(!is_during_search);
            assert_eq!(turn_number, 3);
            assert!(no_results);
        },
        other => panic!("wrong variant: {:?}", other),
    }
}

#[test]
fn result_reply_with_nested_records() {
    let line = "{\"id\":\"r1\",\"isDuringSearch\":true,\"moveInfos\":[{\"move\":\"Q16\",\"winrate\":0.53,\"visits\":120,\"scoreLead\":1.5,\"scoreSelfplay\":1.7,\"scoreStdev\":10.2,\"prior\":0.2,\"utility\":0.1,\"lcb\":0.5,\"utilityLcb\":0.05,\"order\":0,\"pv\":[\"Q16\",\"D4\"],\"pvVisits\":[100,50]}],\"rootInfo\":{\"winrate\":0.51,\"scoreLead\":0.8,\"scoreSelfplay\":0.9,\"visits\":500,\"currentPlayer\":\"B\"},\"extraField\":42}";
    let r = decode_line(line).unwrap();
    match r {
        KataResponse::Result { id, is_during_search, move_infos, root_info, ownership, ownership_stdev, policy } => {
            assert_eq!(id, "r1");
            assert!(is_during_search);
            assert_eq!(move_infos.len(), 1);
            let m = &move_infos[0];
            assert_eq!(m.mv, "Q16");
            assert_eq!(m.winrate.text, "0.53");
            assert_eq!(m.visits, 120);
            assert_eq!(m.order, 0);
            assert_eq!(m.is_symmetry_of, None);
            assert_eq!(m.pv, vec!["Q16".to_string(), "D4".to_string()]);
            assert_eq!(m.pv_visits, Some(vec![100, 50]));
            assert_eq!(m.pv_edge_visits, None);
            assert_eq!(m.ownership, None);
            assert_eq!(root_info.winrate.text, "0.51");
            assert_eq!(root_info.visits, 500);
            assert_eq!(root_info.current_player, Some(Player::Black));
            assert_eq!(root_info.utility, None);
            assert_eq!(root_info.this_hash, None);
            assert_eq!(ownership, None);
            assert_eq!(ownership_stdev, None);
            assert_eq!(policy, None);
        },
        other => panic!("wrong variant: {:?}", other),
    }
}

#[test]
fn terminate_ack_and_cache_cleared() {
    let r = decode_line(
        "{\"id\":\"t2\",\"action\":\"terminate\",\"terminateId\":\"q7\",\"turnNumber\":5}",
    )
    .unwrap();
    match r {
        KataResponse::TerminateAck { id, turn_number, terminate_id, .. } => {
            assert_eq!(id, "t2");
            assert_eq!(turn_number, Some(5));
            assert_eq!(terminate_id, "q7");
        },
        other => panic!("wrong variant: {:?}", other),
    }
    let r = decode_line("{\"id\":\"c2\",\"action\":\"clear_cache\"}").unwrap();
    match r {
        KataResponse::CacheCleared { id, .. } => assert_eq!(id, "c2"),
        other => panic!("wrong variant: {:?}", other),
    }
}

#[test]
fn malformed_line_keeps_text_and_stream_recovers() {
    let bad = "{\"id\":\"x\",";
    let e = decode_line(bad).unwrap_err();
    assert_eq!(e.line, bad);

    let unknown = "{\"id\":\"x\",\"something\":1}";
    let e = decode_line(unknown).unwrap_err();
    assert_eq!(e.line, unknown);

    let good = "{\"id\":\"c3\",\"action\":\"clear_cache\"}";
    assert!(decode_line(good).is_ok());
}

#[test]
fn string_escapes_survive_both_directions() {
    let q = KataQuery::builder()
        .id("a\"b\\c\n".to_string())
        .moves(vec![])
        .rules(Rules::Korean)
        .board_x_size(5)
        .board_y_size(5)
        .build()
        .unwrap();
    let line = encode_action_line(&KataAction::Query { inner: q });
    let v = parsed(&line);
    assert_eq!(v["id"], "a\"b\\c\n");

    let r = decode_line(
        "{\"id\":\"e\\u0041\\n\\\"\",\"action\":\"clear_cache\"}",
    )
    .unwrap();
    match r {
        KataResponse::CacheCleared { id, .. } => assert_eq!(id, "eA\n\""),
        other => panic!("wrong variant: {:?}", other),
    }
}

#[test]
fn number_tokens_are_kept_verbatim() {
    let q = KataQuery::builder()
        .id("n1".to_string())
        .moves(vec![])
        .rules(Rules::Aga)
        .board_x_size(19)
        .board_y_size(19)
        .komi(num("6.5"))
        .build()
        .unwrap();
    let line = encode_action_line(&KataAction::Query { inner: q });
    assert!(line.contains("\"komi\":6.5"));

    let r = decode_line(
        "{\"id\":\"r2\",\"isDuringSearch\":false,\"moveInfos\":[],\"rootInfo\":{\"winrate\":1e-3,\"scoreLead\":-0.25,\"scoreSelfplay\":0.0,\"visits\":1}}",
    )
    .unwrap();
    match r {
        KataResponse::Result { root_info, move_infos, .. } => {
            assert_eq!(root_info.winrate.text, "1e-3");
            assert_eq!(root_info.score_lead.text, "-0.25");
            assert_eq!(move_infos.len(), 0);
        },
        other => panic!("wrong variant: {:?}", other),
    }
}

#[test]
fn interleaved_lines_correlate_by_id() {
    let lines = vec![
        "{\"id\":\"a\",\"isDuringSearch\":true,\"turnNumber\":0,\"noResults\":true}",
        "{\"id\":\"b\",\"isDuringSearch\":true,\"turnNumber\":1,\"noResults\":true}",
        "{\"id\":\"a\",\"isDuringSearch\":false,\"turnNumber\":2,\"noResults\":true}",
        "{\"id\":\"b\",\"isDuringSearch\":false,\"turnNumber\":3,\"noResults\":true}",
    ];
    let mut a_turns = Vec::new();
    let mut b_turns = Vec::new();
    for l in lines {
        match decode_line(l).unwrap() {
            KataResponse::Resultless { id, turn_number, .. } => {
                if id == "a" {
                    a_turns.push(turn_number);
                } else {
                    b_turns.push(turn_number);
                }
            },
            other => panic!("wrong variant: {:?}", other),
        }
    }
    assert_eq!(a_turns, vec![0, 2]);
    assert_eq!(b_turns, vec![1, 3]);
}

#[test]
fn override_settings_passes_through() {
    let settings = Json::Obj(vec![(
        "maxTime".chars().collect(),
        Json::Num("10".chars().collect()),
    )]);
    let q = KataQuery::builder()
        .id("o1".to_string())
        .moves(vec![])
        .rules(Rules::Bga)
        .board_x_size(19)
        .board_y_size(19)
        .override_settings(settings)
        .build()
        .unwrap();
    let line = encode_action_line(&KataAction::Query { inner: q });
    let v = parsed(&line);
    assert_eq!(v["overrideSettings"]["maxTime"], 10);
}
