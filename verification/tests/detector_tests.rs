use lcu::detector::{
    credentials_from_captures, detect_from_lockfile, detect_from_wmic, detect_lcu, discover,
    lockfile_paths, parse_lockfile, process_query,
};
use lcu::error::LcuError;
use lcu::types::LcuCredentials;

fn creds(port: u16, password: &str, pid: u32) -> LcuCredentials {
    LcuCredentials { port, password: password.to_string(), pid }
}

fn some(text: &str) -> Option<String> {
    Some(text.to_string())
}

const LISTING: &str = "\r\n\r\nCommandLine=\"C:/Riot Games/League of Legends/LeagueClientUx.exe\" \"--riotclient-auth-token=zzz\" \"--remoting-auth-token=aB3-x_Y9\" \"--app-port=54321\" \"--install-directory=C:\\Riot Games\"\r\nProcessId=9876\r\n\r\n";

#[test]
fn parse_lockfile_reads_port_password_and_process_id() {
    assert_eq!(
        parse_lockfile("LeagueClient:1234:5678:pass:https"),
        Some(creds(5678, "pass", 1234))
    );
}

#[test]
fn parse_lockfile_ignores_name_and_protocol() {
    let a = parse_lockfile("LeagueClient:1234:5678:pass:https");
    let b = parse_lockfile("Other Name:1234:5678:pass:http");
    let c = parse_lockfile(":1234:5678:pass:");
    assert_eq!(a, b);
    assert_eq!(a, c);
}

#[test]
fn parse_lockfile_trims_the_white_space_around_the_line() {
    assert_eq!(
        parse_lockfile("  LeagueClient:1234:5678:pass:https\r\n"),
        Some(creds(5678, "pass", 1234))
    );
    assert_eq!(parse_lockfile("\n:1:2:p:\t"), Some(creds(2, "p", 1)));
}

#[test]
fn parse_lockfile_keeps_the_password_as_it_stands() {
    assert_eq!(parse_lockfile("n:1:2: p w :x"), Some(creds(2, " p w ", 1)));
    assert_eq!(parse_lockfile("n:1:2::x"), Some(creds(2, "", 1)));
    assert_eq!(parse_lockfile("n:1:2:pässwörd\u{1F600}:x"), Some(creds(2, "pässwörd\u{1F600}", 1)));
    assert_eq!(parse_lockfile("n:1:2:+12:x"), Some(creds(2, "+12", 1)));
}

#[test]
fn parse_lockfile_passes_over_fields_after_the_fifth() {
    assert_eq!(parse_lockfile("n:1:2:p:https:more:and:more"), Some(creds(2, "p", 1)));
}

#[test]
fn parse_lockfile_wants_five_fields() {
    assert_eq!(parse_lockfile(""), None);
    assert_eq!(parse_lockfile("   "), None);
    assert_eq!(parse_lockfile("LeagueClient"), None);
    assert_eq!(parse_lockfile("LeagueClient:1234:5678:pass"), None);
    assert_eq!(parse_lockfile("1234:5678:pass:https"), None);
    assert_eq!(parse_lockfile(":::"), None);
}

#[test]
fn parse_lockfile_wants_numbers_for_process_id_and_port() {
    assert_eq!(parse_lockfile("n:abc:5678:pass:https"), None);
    assert_eq!(parse_lockfile("n:1234:abc:pass:https"), None);
    assert_eq!(parse_lockfile("n::5678:pass:https"), None);
    assert_eq!(parse_lockfile("n:1234::pass:https"), None);
    assert_eq!(parse_lockfile("n:-1:5678:pass:https"), None);
    assert_eq!(parse_lockfile("n:12 34:5678:pass:https"), None);
    assert_eq!(parse_lockfile("n:1234: 5678:pass:https"), None);
    assert_eq!(parse_lockfile("n:1234:56.78:pass:https"), None);
}

#[test]
fn parse_lockfile_holds_the_numbers_to_their_widths() {
    assert_eq!(parse_lockfile("n:4294967295:65535:p:x"), Some(creds(65535, "p", 4294967295)));
    assert_eq!(parse_lockfile("n:4294967296:65535:p:x"), None);
    assert_eq!(parse_lockfile("n:4294967295:65536:p:x"), None);
    assert_eq!(parse_lockfile("n:0:0:p:x"), Some(creds(0, "p", 0)));
    assert_eq!(parse_lockfile("n:+7:+8:p:x"), Some(creds(8, "p", 7)));
    assert_eq!(parse_lockfile("n:007:0008:p:x"), Some(creds(8, "p", 7)));
}

#[test]
fn detect_from_lockfile_takes_the_first_file_that_holds_credentials() {
    let files = vec![None, some("garbage"), some("n:1:2:first:x"), some("n:3:4:second:x")];
    assert_eq!(detect_from_lockfile(&files), Some(creds(2, "first", 1)));
}

#[test]
fn detect_from_lockfile_finds_nothing_where_no_file_holds_credentials() {
    assert_eq!(detect_from_lockfile(&vec![]), None);
    assert_eq!(detect_from_lockfile(&vec![None, None, None, None]), None);
    assert_eq!(detect_from_lockfile(&vec![some(""), some("a:b:c:d:e"), None]), None);
}

#[test]
fn detect_from_wmic_reads_the_command_line() {
    assert_eq!(detect_from_wmic(LISTING), Some(creds(54321, "aB3-x_Y9", 9876)));
}

#[test]
fn detect_from_wmic_takes_the_first_occurrence_of_each_marker() {
    let listing = "--app-port=1 --app-port=2 --remoting-auth-token=a --remoting-auth-token=b ProcessId=3 ProcessId=4";
    assert_eq!(detect_from_wmic(listing), Some(creds(1, "a", 3)));
}

#[test]
fn detect_from_wmic_wants_all_three_markers() {
    assert_eq!(detect_from_wmic(""), None);
    assert_eq!(detect_from_wmic("--remoting-auth-token=abc ProcessId=1"), None);
    assert_eq!(detect_from_wmic("--app-port=1 ProcessId=1"), None);
    assert_eq!(detect_from_wmic("--app-port=1 --remoting-auth-token=abc"), None);
    assert_eq!(detect_from_wmic("--app-port= --remoting-auth-token=abc ProcessId=1"), None);
    assert_eq!(detect_from_wmic("--app-port=1 --remoting-auth-token= ProcessId=1"), None);
}

#[test]
fn detect_from_wmic_holds_the_numbers_to_their_widths() {
    assert_eq!(
        detect_from_wmic("--app-port=65535 --remoting-auth-token=t ProcessId=4294967295"),
        Some(creds(65535, "t", 4294967295))
    );
    assert_eq!(detect_from_wmic("--app-port=65536 --remoting-auth-token=t ProcessId=1"), None);
    assert_eq!(
        detect_from_wmic("--app-port=1 --remoting-auth-token=t ProcessId=4294967296"),
        None
    );
}

#[test]
fn detect_from_wmic_stops_the_password_at_the_first_other_character() {
    assert_eq!(
        detect_from_wmic("--app-port=1 --remoting-auth-token=ab-c_d\" ProcessId=2"),
        Some(creds(1, "ab-c_d", 2))
    );
    assert_eq!(
        detect_from_wmic("--app-port=12x --remoting-auth-token=t.u ProcessId=34 "),
        Some(creds(12, "t", 34))
    );
}

#[test]
fn credentials_from_captures_wants_all_three_and_two_numbers() {
    assert_eq!(
        credentials_from_captures(some("5678"), some("pw"), some("1234")),
        Some(creds(5678, "pw", 1234))
    );
    assert_eq!(credentials_from_captures(None, some("pw"), some("1234")), None);
    assert_eq!(credentials_from_captures(some("5678"), None, some("1234")), None);
    assert_eq!(credentials_from_captures(some("5678"), some("pw"), None), None);
    assert_eq!(credentials_from_captures(some("65536"), some("pw"), some("1")), None);
    assert_eq!(credentials_from_captures(some("1"), some("pw"), some("4294967296")), None);
    assert_eq!(credentials_from_captures(some("١٢"), some("pw"), some("1")), None);
    assert_eq!(credentials_from_captures(some("1"), some(""), some("2")), Some(creds(1, "", 2)));
}

#[test]
fn detect_lcu_prefers_the_lockfile() {
    let files = vec![None, some("LeagueClient:1234:5678:pass:https")];
    assert_eq!(detect_lcu(&files, &some(LISTING)), Some(creds(5678, "pass", 1234)));
    assert_eq!(detect_lcu(&files, &None), Some(creds(5678, "pass", 1234)));
}

#[test]
fn detect_lcu_falls_back_to_the_process_listing() {
    let files = vec![None, some("not a lockfile"), None, None];
    assert_eq!(detect_lcu(&files, &some(LISTING)), Some(creds(54321, "aB3-x_Y9", 9876)));
}

#[test]
fn detect_lcu_finds_nothing_where_neither_source_holds_credentials() {
    let files = vec![None, None, None, None];
    assert_eq!(detect_lcu(&files, &None), None);
    assert_eq!(detect_lcu(&files, &some("no markers here")), None);
    assert_eq!(detect_lcu(&vec![], &None), None);
}

#[test]
fn lockfile_paths_are_tried_in_a_fixed_order() {
    assert_eq!(
        lockfile_paths(),
        vec![
            "C:/Riot Games/League of Legends/lockfile",
            "D:/Riot Games/League of Legends/lockfile",
            "C:/Program Files/Riot Games/League of Legends/lockfile",
            "C:/Program Files (x86)/Riot Games/League of Legends/lockfile",
        ]
    );
}

#[test]
fn process_query_asks_for_command_line_and_process_id() {
    let (program, args) = process_query();
    assert_eq!(program, "wmic");
    assert_eq!(
        args,
        vec![
            "process",
            "where",
            "name='LeagueClientUx.exe'",
            "get",
            "CommandLine,ProcessId",
            "/FORMAT:LIST",
        ]
    );
}

#[test]
fn discover_reports_that_nothing_was_found() {
    let files = vec![None, some("not a lockfile")];
    assert_eq!(discover(&files, &None), Err(LcuError::DiscoveryNotFound));
    assert_eq!(discover(&files, &some("no markers")), Err(LcuError::DiscoveryNotFound));
    assert_eq!(discover(&files, &some(LISTING)), Ok(creds(54321, "aB3-x_Y9", 9876)));
    let with_lockfile = vec![some("n:1:2:p:x")];
    assert_eq!(discover(&with_lockfile, &some(LISTING)), Ok(creds(2, "p", 1)));
}
