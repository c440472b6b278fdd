use lcu::json::{parse_json, Json, JsonNumber};
use lcu::snapshot::{
    i32_from_json, i64_from_json, json_from_i64, json_from_optional_i64, json_from_players,
    json_from_turns, players_from_json, turns_from_json,
};
use lcu::types::{
    ChampSelectAction, ChampSelectBans, ChampSelectPlayer, ChampSelectSession, ChampSelectTimer,
    CurrentSummoner,
};

fn doc(text: &str) -> Json {
    parse_json(text.as_bytes()).unwrap()
}

fn player(cell_id: i64) -> ChampSelectPlayer {
    ChampSelectPlayer {
        cell_id,
        champion_id: 157,
        summoner_id: Some(-5),
        assigned_position: "middle".to_string(),
        spell1_id: None,
        spell2_id: Some(4),
        player_type: "PLAYER".to_string(),
    }
}

fn action(id: i64) -> ChampSelectAction {
    ChampSelectAction {
        id,
        actor_cell_id: 2,
        champion_id: 0,
        completed: true,
        action_type: "ban".to_string(),
        is_ally_action: false,
    }
}

fn session() -> ChampSelectSession {
    ChampSelectSession {
        my_team: vec![player(0), player(1)],
        their_team: vec![player(5)],
        actions: vec![vec![action(1), action(2)], vec![], vec![action(3)]],
        bans: ChampSelectBans {
            my_team_bans: vec![1, -2, i64::MAX],
            their_team_bans: vec![i64::MIN],
            num_bans: -7,
        },
        timer: ChampSelectTimer {
            phase: "BAN_PICK".to_string(),
            adjusted_time_left_in_phase: 29_000,
            total_time_in_phase: 30_000,
        },
        local_player_cell_id: 1,
    }
}

#[test]
fn a_session_that_was_written_reads_back_equal() {
    let written = session();
    assert_eq!(ChampSelectSession::from_json(&written.to_json()), Some(written));
}

#[test]
fn an_empty_session_that_was_written_reads_back_equal() {
    let written = ChampSelectSession {
        my_team: vec![],
        their_team: vec![],
        actions: vec![],
        bans: ChampSelectBans { my_team_bans: vec![], their_team_bans: vec![], num_bans: 0 },
        timer: ChampSelectTimer {
            phase: String::new(),
            adjusted_time_left_in_phase: 0,
            total_time_in_phase: 0,
        },
        local_player_cell_id: i64::MIN,
    };
    assert_eq!(ChampSelectSession::from_json(&written.to_json()), Some(written));
}

#[test]
fn the_parts_of_a_session_read_back_equal() {
    assert_eq!(ChampSelectPlayer::from_json(&player(3).to_json()), Some(player(3)));
    assert_eq!(ChampSelectAction::from_json(&action(3).to_json()), Some(action(3)));
    let bans = session().bans;
    assert_eq!(ChampSelectBans::from_json(&bans.to_json()), Some(bans));
    let timer = session().timer;
    assert_eq!(ChampSelectTimer::from_json(&timer.to_json()), Some(timer));
    let team = session().my_team;
    assert_eq!(players_from_json(&json_from_players(&team)), Some(team));
    let turns = session().actions;
    assert_eq!(turns_from_json(&json_from_turns(&turns)), Some(turns));
}

#[test]
fn a_summoner_that_was_written_reads_back_equal() {
    let written = CurrentSummoner {
        display_name: "Sömeone".to_string(),
        summoner_id: 1,
        puuid: "p-u-u-i-d".to_string(),
        account_id: -2,
        profile_icon_id: 3,
        summoner_level: i64::MAX,
    };
    assert_eq!(CurrentSummoner::from_json(&written.to_json()), Some(written));
}

#[test]
fn a_player_is_written_member_by_member() {
    assert_eq!(
        player(9).to_json(),
        Json::Object(vec![
            ("cellId".to_string(), Json::Number(JsonNumber::PosInt(9))),
            ("championId".to_string(), Json::Number(JsonNumber::PosInt(157))),
            ("summonerId".to_string(), Json::Number(JsonNumber::NegInt(-5))),
            ("assignedPosition".to_string(), Json::String("middle".to_string())),
            ("spell1Id".to_string(), Json::Null),
            ("spell2Id".to_string(), Json::Number(JsonNumber::PosInt(4))),
            ("playerType".to_string(), Json::String("PLAYER".to_string())),
        ])
    );
}

#[test]
fn an_action_is_written_member_by_member() {
    assert_eq!(
        action(7).to_json(),
        Json::Object(vec![
            ("id".to_string(), Json::Number(JsonNumber::PosInt(7))),
            ("actorCellId".to_string(), Json::Number(JsonNumber::PosInt(2))),
            ("championId".to_string(), Json::Number(JsonNumber::PosInt(0))),
            ("completed".to_string(), Json::Bool(true)),
            ("type".to_string(), Json::String("ban".to_string())),
            ("isAllyAction".to_string(), Json::Bool(false)),
        ])
    );
}

#[test]
fn a_session_is_read_from_text() {
    let text = "{\"actions\": [[{\"id\": 1, \"actorCellId\": 0, \"championId\": 266, \"completed\": false, \"type\": \"pick\", \"isAllyAction\": true, \"isInProgress\": true}]], \"bans\": {\"myTeamBans\": [1, 2], \"theirTeamBans\": [], \"numBans\": 10}, \"localPlayerCellId\": 0, \"myTeam\": [{\"cellId\": 0, \"championId\": 266, \"summonerId\": 12345, \"assignedPosition\": \"top\", \"spell1Id\": 4, \"spell2Id\": 12, \"playerType\": \"PLAYER\", \"team\": 1}], \"theirTeam\": [], \"timer\": {\"phase\": \"BAN_PICK\", \"adjustedTimeLeftInPhase\": 25000, \"totalTimeInPhase\": 30000, \"isInfinite\": false}, \"isSpectating\": false}";
    let found = ChampSelectSession::from_json(&doc(text)).unwrap();
    assert_eq!(
        found,
        ChampSelectSession {
            my_team: vec![ChampSelectPlayer {
                cell_id: 0,
                champion_id: 266,
                summoner_id: Some(12345),
                assigned_position: "top".to_string(),
                spell1_id: Some(4),
                spell2_id: Some(12),
                player_type: "PLAYER".to_string(),
            }],
            their_team: vec![],
            actions: vec![vec![ChampSelectAction {
                id: 1,
                actor_cell_id: 0,
                champion_id: 266,
                completed: false,
                action_type: "pick".to_string(),
                is_ally_action: true,
            }]],
            bans: ChampSelectBans {
                my_team_bans: vec![1, 2],
                their_team_bans: vec![],
                num_bans: 10
            },
            timer: ChampSelectTimer {
                phase: "BAN_PICK".to_string(),
                adjusted_time_left_in_phase: 25000,
                total_time_in_phase: 30000,
            },
            local_player_cell_id: 0,
        }
    );
}

#[test]
fn members_that_may_be_missing_have_their_defaults() {
    let p = ChampSelectPlayer::from_json(&doc(
        "{\"cellId\": 1, \"championId\": 2, \"assignedPosition\": \"\"}",
    ))
    .unwrap();
    assert_eq!(p.summoner_id, None);
    assert_eq!(p.spell1_id, None);
    assert_eq!(p.spell2_id, None);
    assert_eq!(p.player_type, "");
    let a = ChampSelectAction::from_json(&doc(
        "{\"id\": 1, \"actorCellId\": 2, \"championId\": 3, \"completed\": true, \"type\": \"pick\"}",
    ))
    .unwrap();
    assert!(!a.is_ally_action);
    let b = ChampSelectBans::from_json(&doc("{\"myTeamBans\": [], \"theirTeamBans\": [5]}"))
        .unwrap();
    assert_eq!(b.num_bans, 0);
    let t = ChampSelectTimer::from_json(&doc("{\"phase\": \"FINALIZATION\"}")).unwrap();
    assert_eq!(t.adjusted_time_left_in_phase, 0);
    assert_eq!(t.total_time_in_phase, 0);
}

#[test]
fn null_stands_for_absence_only_where_a_number_may_be_absent() {
    let p = ChampSelectPlayer::from_json(&doc(
        "{\"cellId\": 1, \"championId\": 2, \"summonerId\": null, \"assignedPosition\": \"x\", \"spell1Id\": null, \"spell2Id\": 7}",
    ))
    .unwrap();
    assert_eq!(p.summoner_id, None);
    assert_eq!(p.spell1_id, None);
    assert_eq!(p.spell2_id, Some(7));
    assert_eq!(
        ChampSelectPlayer::from_json(&doc(
            "{\"cellId\": null, \"championId\": 2, \"assignedPosition\": \"x\"}"
        )),
        None
    );
    assert_eq!(
        ChampSelectPlayer::from_json(&doc(
            "{\"cellId\": 1, \"championId\": 2, \"assignedPosition\": \"x\", \"playerType\": null}"
        )),
        None
    );
    assert_eq!(
        ChampSelectTimer::from_json(&doc("{\"phase\": \"x\", \"totalTimeInPhase\": null}")),
        None
    );
}

#[test]
fn a_member_that_is_needed_must_be_there() {
    let full = "{\"displayName\": \"n\", \"summonerId\": 1, \"puuid\": \"p\", \"accountId\": 2, \"profileIconId\": 3, \"summonerLevel\": 4}";
    assert!(CurrentSummoner::from_json(&doc(full)).is_some());
    for name in
        ["displayName", "summonerId", "puuid", "accountId", "profileIconId", "summonerLevel"]
    {
        let without = full.replace(&format!("\"{name}\""), "\"other\"");
        assert_eq!(CurrentSummoner::from_json(&doc(&without)), None, "{name}");
    }
}

#[test]
fn a_member_of_another_kind_is_rejected() {
    let cases = [
        "{\"cellId\": \"1\", \"championId\": 2, \"assignedPosition\": \"x\"}",
        "{\"cellId\": 1.0, \"championId\": 2, \"assignedPosition\": \"x\"}",
        "{\"cellId\": 1, \"championId\": true, \"assignedPosition\": \"x\"}",
        "{\"cellId\": 1, \"championId\": 2, \"assignedPosition\": 3}",
        "{\"cellId\": 1, \"championId\": 2, \"assignedPosition\": \"x\", \"summonerId\": \"5\"}",
        "{\"cellId\": 1, \"championId\": 2, \"assignedPosition\": \"x\", \"spell1Id\": 1.5}",
        "{\"cellId\": 1, \"championId\": 2, \"assignedPosition\": \"x\", \"playerType\": 0}",
        "{\"cellId\": 9223372036854775808, \"championId\": 2, \"assignedPosition\": \"x\"}",
        "[1, 2, null, \"x\", null, null, \"\"]",
        "null",
        "\"player\"",
    ];
    for case in cases {
        assert_eq!(ChampSelectPlayer::from_json(&doc(case)), None, "{case}");
    }
    assert_eq!(
        ChampSelectAction::from_json(&doc(
            "{\"id\": 1, \"actorCellId\": 2, \"championId\": 3, \"completed\": 1, \"type\": \"pick\"}"
        )),
        None
    );
    assert_eq!(
        ChampSelectAction::from_json(&doc(
            "{\"id\": 1, \"actorCellId\": 2, \"championId\": 3, \"completed\": true, \"type\": \"pick\", \"isAllyAction\": \"no\"}"
        )),
        None
    );
}

#[test]
fn lists_must_be_lists_of_the_right_items() {
    assert_eq!(players_from_json(&doc("[]")), Some(vec![]));
    assert_eq!(players_from_json(&doc("{}")), None);
    assert_eq!(players_from_json(&doc("[{}]")), None);
    assert_eq!(turns_from_json(&doc("[[], []]")), Some(vec![vec![], vec![]]));
    assert_eq!(turns_from_json(&doc("[[], 1]")), None);
    assert_eq!(turns_from_json(&doc("[[{}]]")), None);
    assert_eq!(
        ChampSelectBans::from_json(&doc("{\"myTeamBans\": [1, \"2\"], \"theirTeamBans\": []}")),
        None
    );
    assert_eq!(
        ChampSelectBans::from_json(&doc("{\"myTeamBans\": 1, \"theirTeamBans\": []}")),
        None
    );
}

#[test]
fn the_number_of_bans_is_held_to_32_bits() {
    let bans = |n: &str| {
        ChampSelectBans::from_json(&doc(&format!(
            "{{\"myTeamBans\": [], \"theirTeamBans\": [], \"numBans\": {n}}}"
        )))
        .map(|b| b.num_bans)
    };
    assert_eq!(bans("2147483647"), Some(i32::MAX));
    assert_eq!(bans("-2147483648"), Some(i32::MIN));
    assert_eq!(bans("2147483648"), None);
    assert_eq!(bans("-2147483649"), None);
    assert_eq!(bans("1.0"), None);
}

#[test]
fn whole_numbers_are_read_in_their_ranges() {
    assert_eq!(i64_from_json(&doc("9223372036854775807")), Some(i64::MAX));
    assert_eq!(i64_from_json(&doc("9223372036854775808")), None);
    assert_eq!(i64_from_json(&doc("-9223372036854775808")), Some(i64::MIN));
    assert_eq!(i64_from_json(&doc("0")), Some(0));
    assert_eq!(i64_from_json(&doc("0.0")), None);
    assert_eq!(i64_from_json(&doc("\"0\"")), None);
    assert_eq!(i32_from_json(&doc("-1")), Some(-1));
    assert_eq!(i32_from_json(&doc("4294967296")), None);
}

#[test]
fn whole_numbers_are_written_by_their_sign() {
    assert_eq!(json_from_i64(0), Json::Number(JsonNumber::PosInt(0)));
    assert_eq!(json_from_i64(i64::MAX), Json::Number(JsonNumber::PosInt(i64::MAX as u64)));
    assert_eq!(json_from_i64(-1), Json::Number(JsonNumber::NegInt(-1)));
    assert_eq!(json_from_optional_i64(None), Json::Null);
    assert_eq!(json_from_optional_i64(Some(3)), Json::Number(JsonNumber::PosInt(3)));
}
