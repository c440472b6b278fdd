use lcu::client::{
    auth_header, authority, base_url, basic_auth_value, champion_select_from_body,
    champion_select_from_reply, champion_select_request, current_summoner_from_body,
    current_summoner_from_reply, current_summoner_request, HttpReply, RestRequest,
};
use lcu::error::LcuError;
use lcu::types::{CurrentSummoner, LcuCredentials};

fn creds(port: u16, password: &str) -> LcuCredentials {
    LcuCredentials { port, password: password.to_string(), pid: 1 }
}

fn answered(status: u16, body: &str) -> HttpReply {
    HttpReply::Answered { status, body: body.as_bytes().to_vec() }
}

const SESSION: &str = "{\"myTeam\": [], \"theirTeam\": [], \"actions\": [], \"bans\": {\"myTeamBans\": [], \"theirTeamBans\": []}, \"timer\": {\"phase\": \"PLANNING\"}, \"localPlayerCellId\": 3}";

const SUMMONER: &str = "{\"displayName\": \"Someone\", \"summonerId\": 11, \"puuid\": \"abc-def\", \"accountId\": 22, \"profileIconId\": 33, \"summonerLevel\": 44, \"unknown\": [1, 2]}";

fn summoner() -> CurrentSummoner {
    CurrentSummoner {
        display_name: "Someone".to_string(),
        summoner_id: 11,
        puuid: "abc-def".to_string(),
        account_id: 22,
        profile_icon_id: 33,
        summoner_level: 44,
    }
}

#[test]
fn auth_header_is_basic_and_the_base64_of_riot_and_password() {
    assert_eq!(auth_header(&creds(1, "abc123")), "Basic cmlvdDphYmMxMjM=");
}

#[test]
fn auth_header_encodes_the_bytes_of_the_password() {
    assert_eq!(auth_header(&creds(1, "")), "Basic cmlvdDo=");
    assert_eq!(auth_header(&creds(1, "päss")), "Basic cmlvdDpww6Rzcw==");
}

#[test]
fn basic_auth_value_puts_the_scheme_in_front() {
    assert_eq!(basic_auth_value("cmlvdDo="), "Basic cmlvdDo=");
    assert_eq!(basic_auth_value(""), "Basic ");
}

#[test]
fn base_url_is_the_loopback_address_with_the_port() {
    assert_eq!(base_url(&creds(5678, "x")), "https://127.0.0.1:5678");
    assert_eq!(base_url(&creds(0, "x")), "https://127.0.0.1:0");
    assert_eq!(base_url(&creds(65535, "x")), "https://127.0.0.1:65535");
    assert_eq!(authority(&creds(80, "x")), "127.0.0.1:80");
}

#[test]
fn requests_go_to_their_paths_with_the_authorization() {
    assert_eq!(
        champion_select_request(&creds(5678, "abc123")),
        RestRequest {
            url: "https://127.0.0.1:5678/lol-champ-select/v1/session".to_string(),
            authorization: "Basic cmlvdDphYmMxMjM=".to_string(),
            accept_invalid_certs: true,
        }
    );
    assert_eq!(
        current_summoner_request(&creds(5678, "abc123")),
        RestRequest {
            url: "https://127.0.0.1:5678/lol-summoner/v1/current-summoner".to_string(),
            authorization: "Basic cmlvdDphYmMxMjM=".to_string(),
            accept_invalid_certs: true,
        }
    );
}

#[test]
fn a_request_that_did_not_arrive_is_a_connect_failure() {
    let reply = HttpReply::Unreachable("connection refused".to_string());
    assert_eq!(
        champion_select_from_reply(&reply),
        Err(LcuError::TransportConnectFailed("connection refused".to_string()))
    );
    assert_eq!(
        current_summoner_from_reply(&reply),
        Err(LcuError::TransportConnectFailed("connection refused".to_string()))
    );
}

#[test]
fn a_status_without_success_is_reported_before_the_body_is_read() {
    assert_eq!(
        champion_select_from_reply(&answered(404, SESSION)),
        Err(LcuError::TransportHttpStatus(404))
    );
    assert_eq!(
        champion_select_from_reply(&answered(404, "not json")),
        Err(LcuError::TransportHttpStatus(404))
    );
    assert_eq!(
        current_summoner_from_reply(&answered(500, SUMMONER)),
        Err(LcuError::TransportHttpStatus(500))
    );
}

#[test]
fn success_is_a_status_from_200_to_299() {
    for status in [0u16, 100, 199, 300, 301, 404, 599, 65535] {
        assert_eq!(
            current_summoner_from_reply(&answered(status, SUMMONER)),
            Err(LcuError::TransportHttpStatus(status))
        );
    }
    for status in [200u16, 201, 204, 299] {
        assert_eq!(current_summoner_from_reply(&answered(status, SUMMONER)), Ok(summoner()));
    }
}

#[test]
fn a_body_of_another_shape_is_a_decode_failure() {
    for body in ["", "not json", "[]", "null", "{}", "{\"myTeam\": []}", "[1, 2, 3]"] {
        assert_eq!(
            champion_select_from_reply(&answered(200, body)),
            Err(LcuError::TransportDecodeFailed),
            "{body:?}"
        );
        assert_eq!(
            current_summoner_from_reply(&answered(200, body)),
            Err(LcuError::TransportDecodeFailed),
            "{body:?}"
        );
    }
    assert_eq!(
        champion_select_from_reply(&answered(200, SUMMONER)),
        Err(LcuError::TransportDecodeFailed)
    );
}

#[test]
fn a_body_that_is_no_text_is_a_decode_failure() {
    let reply = HttpReply::Answered { status: 200, body: vec![0xff, 0xfe, 0x00] };
    assert_eq!(champion_select_from_reply(&reply), Err(LcuError::TransportDecodeFailed));
}

#[test]
fn a_successful_answer_gives_the_snapshot() {
    let session = champion_select_from_reply(&answered(200, SESSION)).unwrap();
    assert_eq!(session.local_player_cell_id, 3);
    assert_eq!(session.timer.phase, "PLANNING");
    assert_eq!(current_summoner_from_reply(&answered(200, SUMMONER)), Ok(summoner()));
}

#[test]
fn bodies_are_read_as_the_replies_are() {
    assert_eq!(current_summoner_from_body(SUMMONER.as_bytes()), Ok(summoner()));
    assert_eq!(current_summoner_from_body(b"{}"), Err(LcuError::TransportDecodeFailed));
    assert_eq!(
        champion_select_from_body(SESSION.as_bytes()),
        champion_select_from_reply(&answered(200, SESSION))
    );
    assert_eq!(champion_select_from_body(b"nope"), Err(LcuError::TransportDecodeFailed));
}
