//! Finding the credentials of a running client: in a lockfile first, and
//! failing that in the command line of its process.

use crate::text::{
    chars_of, decimal_digits, field_bounds, fields, free_of, is_digit, leading_space,
    lemma_decimal_digits, lemma_decimal_round_trip, lemma_fields_len, lemma_fields_prepend,
    lemma_trimmed_around, optional_text, parse_unsigned, trailing_space, trim_bounds, trimmed,
    unsigned_decimal,
};
use crate::error::{LcuError, LcuErrorView};
use crate::types::{optional_view, LcuCredentials, LcuCredentialsView};
use vstd::prelude::*;

verus! {

/// What separates the fields of a lockfile.
pub const FIELD_SEPARATOR: char = ':';

/// The pattern that finds the port in a command line.
pub const PORT_PATTERN: &'static str = r"--app-port=(\d+)";

/// The pattern that finds the password in a command line.
pub const TOKEN_PATTERN: &'static str = r"--remoting-auth-token=([\w_-]+)";

/// The pattern that finds the process id in a process listing.
pub const PID_PATTERN: &'static str = r"ProcessId=(\d+)";

/// The places where a lockfile is looked for, in the order in which they are
/// tried.
pub fn lockfile_paths() -> (paths: Vec<&'static str>)
    ensures
        paths.len() == 4,
        paths[0]@ == "C:/Riot Games/League of Legends/lockfile"@,
        paths[1]@ == "D:/Riot Games/League of Legends/lockfile"@,
        paths[2]@ == "C:/Program Files/Riot Games/League of Legends/lockfile"@,
        paths[3]@ == "C:/Program Files (x86)/Riot Games/League of Legends/lockfile"@,
{
    let mut paths: Vec<&'static str> = Vec::new();
    paths.push("C:/Riot Games/League of Legends/lockfile");
    paths.push("D:/Riot Games/League of Legends/lockfile");
    paths.push("C:/Program Files/Riot Games/League of Legends/lockfile");
    paths.push("C:/Program Files (x86)/Riot Games/League of Legends/lockfile");
    paths
}

/// The program that lists the processes of the client, and its arguments.
pub fn process_query() -> (query: (&'static str, Vec<&'static str>))
    ensures
        query.0@ == "wmic"@,
        query.1.len() == 6,
        query.1[0]@ == "process"@,
        query.1[1]@ == "where"@,
        query.1[2]@ == "name='LeagueClientUx.exe'"@,
        query.1[3]@ == "get"@,
        query.1[4]@ == "CommandLine,ProcessId"@,
        query.1[5]@ == "/FORMAT:LIST"@,
{
    let mut args: Vec<&'static str> = Vec::new();
    args.push("process");
    args.push("where");
    args.push("name='LeagueClientUx.exe'");
    args.push("get");
    args.push("CommandLine,ProcessId");
    args.push("/FORMAT:LIST");
    ("wmic", args)
}

/// The credentials that the text of a lockfile holds.
///
/// Without the white space around it the text is a row of fields with a
/// colon between each two: a name, the process id, the port, the password,
/// the protocol, and whatever may follow. Process id and port are unsigned
/// decimals of 32 and of 16 bits; the password is taken as it stands. A text
/// of fewer than five fields, or with a process id or port that is no such
/// number, holds no credentials.
pub open spec fn lockfile_credentials(contents: Seq<char>) -> Option<LcuCredentialsView> {
    let row = fields(trimmed(contents), FIELD_SEPARATOR);
    if row.len() < 5 {
        None
    } else {
        match (
            unsigned_decimal(row[1], u32::MAX as nat),
            unsigned_decimal(row[2], u16::MAX as nat),
        ) {
            (Some(pid), Some(port)) => Some(
                LcuCredentialsView { port: port as u16, password: row[3], pid: pid as u32 },
            ),
            _ => None,
        }
    }
}

/// Reads the credentials out of the text of a lockfile.
pub fn parse_lockfile(contents: &str) -> (creds: Option<LcuCredentials>)
    ensures
        optional_view(creds) == lockfile_credentials(contents@),
{
    let chars = chars_of(contents);
    let (lo, hi) = trim_bounds(&chars);
    let row = field_bounds(&chars, lo, hi, FIELD_SEPARATOR);
    if row.len() < 5 {
        return None;
    }
    let pid = parse_unsigned(&chars, row[1].0, row[1].1, u32::MAX)?;
    let port = parse_unsigned(&chars, row[2].0, row[2].1, 65535)?;
    let password = String::from_str(contents.substring_char(row[3].0, row[3].1));
    Some(LcuCredentials { port: port as u16, password, pid })
}

/// A line of a lockfile: the five fields with a colon between each two.
pub open spec fn lockfile_line(
    name: Seq<char>,
    pid: u32,
    port: u16,
    password: Seq<char>,
    protocol: Seq<char>,
) -> Seq<char> {
    name + seq![FIELD_SEPARATOR] + decimal_digits(pid as nat) + seq![FIELD_SEPARATOR]
        + decimal_digits(port as nat) + seq![FIELD_SEPARATOR] + password + seq![FIELD_SEPARATOR]
        + protocol
}

/// A line of five fields holds the process id, the port and the password
/// that were written into it, whatever its name and its protocol are. Name
/// and password are free of colons, as fields are.
pub proof fn lemma_lockfile_line(
    name: Seq<char>,
    pid: u32,
    port: u16,
    password: Seq<char>,
    protocol: Seq<char>,
)
    requires
        free_of(name, FIELD_SEPARATOR),
        free_of(password, FIELD_SEPARATOR),
    ensures
        lockfile_credentials(lockfile_line(name, pid, port, password, protocol)) == Some(
            LcuCredentialsView { port, password, pid },
        ),
{
    let sep = FIELD_SEPARATOR;
    let pid_text = decimal_digits(pid as nat);
    let port_text = decimal_digits(port as nat);
    let middle = pid_text + seq![sep] + port_text + seq![sep] + password;
    let line = lockfile_line(name, pid, port, password, protocol);
    assert(line =~= name + seq![sep] + middle + seq![sep] + protocol);
    lemma_trimmed_around(name, sep, middle, sep, protocol);
    let first = name.skip(leading_space(name) as int);
    let last = protocol.take(protocol.len() - trailing_space(protocol));
    let tail3 = password + seq![sep] + last;
    let tail2 = port_text + seq![sep] + tail3;
    let tail1 = pid_text + seq![sep] + tail2;
    assert(trimmed(line) =~= first + seq![sep] + tail1);
    lemma_decimal_digits(pid as nat);
    lemma_decimal_digits(port as nat);
    assert(free_of(pid_text, sep)) by {
        assert forall|i: int| 0 <= i < pid_text.len() implies #[trigger] pid_text[i] != sep by {
            assert(is_digit(pid_text[i]));
        }
    }
    assert(free_of(port_text, sep)) by {
        assert forall|i: int| 0 <= i < port_text.len() implies #[trigger] port_text[i] != sep by {
            assert(is_digit(port_text[i]));
        }
    }
    assert(free_of(first, sep)) by {
        assert forall|i: int| 0 <= i < first.len() implies #[trigger] first[i] != sep by {
            assert(first[i] == name[i + leading_space(name)]);
        }
    }
    lemma_fields_len(last, sep);
    lemma_fields_prepend(password, last, sep);
    lemma_fields_prepend(port_text, tail3, sep);
    lemma_fields_prepend(pid_text, tail2, sep);
    lemma_fields_prepend(first, tail1, sep);
    let row = fields(trimmed(line), sep);
    assert(row =~= seq![first] + (seq![pid_text] + (seq![port_text] + (seq![password] + fields(
        last,
        sep,
    )))));
    assert(row[1] == pid_text);
    assert(row[2] == port_text);
    assert(row[3] == password);
    lemma_decimal_round_trip(pid as nat, u32::MAX as nat);
    lemma_decimal_round_trip(port as nat, u16::MAX as nat);
}

/// A text with fewer than five fields, or with a process id or a port that
/// is no number of its width, holds no credentials.
pub proof fn lemma_lockfile_rejected(contents: Seq<char>)
    requires
        ({
            let row = fields(trimmed(contents), FIELD_SEPARATOR);
            ||| row.len() < 5
            ||| unsigned_decimal(row[1], u32::MAX as nat) is None
            ||| unsigned_decimal(row[2], u16::MAX as nat) is None
        }),
    ensures
        lockfile_credentials(contents) is None,
{
}

/// The credentials of the first text that holds any. `None` stands for a
/// file that could not be read.
pub open spec fn first_lockfile_match(files: Seq<Option<Seq<char>>>) -> Option<
    LcuCredentialsView,
>
    decreases files.len(),
{
    if files.len() == 0 {
        None
    } else {
        match files[0] {
            Some(contents) if lockfile_credentials(contents) is Some => lockfile_credentials(
                contents,
            ),
            _ => first_lockfile_match(files.drop_first()),
        }
    }
}

/// Mathematical value of what was read at the places of the lockfile.
pub open spec fn files_view(files: Seq<Option<String>>) -> Seq<Option<Seq<char>>> {
    Seq::new(
        files.len(),
        |i: int|
            match files[i] {
                Some(contents) => Some(contents@),
                None => None,
            },
    )
}

/// The credentials of the first lockfile that holds any. `files` is what was
/// read at each place, in the order of the places, with `None` for a file
/// that could not be read.
pub fn detect_from_lockfile(files: &Vec<Option<String>>) -> (creds: Option<LcuCredentials>)
    ensures
        optional_view(creds) == first_lockfile_match(files_view(files@)),
{
    let ghost all = files_view(files@);
    assert(all.skip(0) == all);
    let mut i: usize = 0;
    while i < files.len()
        invariant
            i <= files.len(),
            all == files_view(files@),
            first_lockfile_match(all) == first_lockfile_match(all.skip(i as int)),
        decreases files.len() - i,
    {
        assert(all.skip(i as int).drop_first() == all.skip(i + 1));
        assert(all.skip(i as int)[0] == all[i as int]);
        match &files[i] {
            Some(contents) => {
                match parse_lockfile(contents.as_str()) {
                    Some(creds) => {
                        return Some(creds);
                    },
                    None => {},
                }
            },
            None => {},
        }
        i += 1;
    }
    None
}

/// What the first group of `pattern` captured in the leftmost match that
/// `pattern` has in `haystack`, as the crate `regex` finds it. `None` where
/// `pattern` is no regular expression, where it matches nowhere, and where
/// the group took no part in the match.
pub uninterp spec fn regex_first_group(pattern: Seq<char>, haystack: Seq<char>) -> Option<
    Seq<char>,
>;

/// `Regex::new`, `Regex::captures`, `Captures::get` with 1 and
/// `Match::as_str` of the crate `regex`, one after the other: the text that
/// the first group captured in the leftmost match. A pattern that does not
/// compile, a haystack without a match and a group that took no part each
/// give `None`.
#[verifier::external_body]
fn first_group(pattern: &str, haystack: &str) -> (found: Option<String>)
    ensures
        optional_text(found) == regex_first_group(pattern@, haystack@),
{
    match regex::Regex::new(pattern) {
        Ok(re) => re.captures(haystack).and_then(|c| c.get(1)).map(|m| m.as_str().to_string()),
        Err(_) => None,
    }
}

/// The credentials that three captures amount to: all three must be there,
/// the port an unsigned decimal of 16 bits and the process id one of 32.
pub open spec fn captured_credentials(
    port: Option<Seq<char>>,
    token: Option<Seq<char>>,
    pid: Option<Seq<char>>,
) -> Option<LcuCredentialsView> {
    match (port, token, pid) {
        (Some(port_text), Some(password), Some(pid_text)) => match (
            unsigned_decimal(port_text, u16::MAX as nat),
            unsigned_decimal(pid_text, u32::MAX as nat),
        ) {
            (Some(port), Some(pid)) => Some(
                LcuCredentialsView { port: port as u16, password, pid: pid as u32 },
            ),
            _ => None,
        },
        _ => None,
    }
}

/// Reads a text as an unsigned decimal no greater than `max`.
fn parse_number(text: &str, max: u32) -> (value: Option<u32>)
    ensures
        match value {
            Some(n) => unsigned_decimal(text@, max as nat) == Some(n as nat),
            None => unsigned_decimal(text@, max as nat) is None,
        },
{
    let chars = chars_of(text);
    assert(chars@.subrange(0, chars.len() as int) == chars@);
    parse_unsigned(&chars, 0, chars.len(), max)
}

/// The credentials that three captures amount to.
pub fn credentials_from_captures(
    port: Option<String>,
    token: Option<String>,
    pid: Option<String>,
) -> (creds: Option<LcuCredentials>)
    ensures
        optional_view(creds) == captured_credentials(
            optional_text(port),
            optional_text(token),
            optional_text(pid),
        ),
{
    match (port, token, pid) {
        (Some(port_text), Some(password), Some(pid_text)) => {
            let port = parse_number(port_text.as_str(), 65535)?;
            let pid = parse_number(pid_text.as_str(), u32::MAX)?;
            Some(LcuCredentials { port: port as u16, password, pid })
        },
        _ => None,
    }
}

/// The credentials that a process listing holds: what the three patterns
/// capture in it, read as credentials.
pub open spec fn listing_credentials(listing: Seq<char>) -> Option<LcuCredentialsView> {
    captured_credentials(
        regex_first_group(PORT_PATTERN@, listing),
        regex_first_group(TOKEN_PATTERN@, listing),
        regex_first_group(PID_PATTERN@, listing),
    )
}

/// Reads the credentials out of the listing of the client's process: its
/// command line and its process id.
pub fn detect_from_wmic(listing: &str) -> (creds: Option<LcuCredentials>)
    ensures
        optional_view(creds) == listing_credentials(listing@),
{
    let port = first_group(PORT_PATTERN, listing);
    let token = first_group(TOKEN_PATTERN, listing);
    let pid = first_group(PID_PATTERN, listing);
    credentials_from_captures(port, token, pid)
}

/// What discovery finds: the credentials of the first lockfile that holds
/// any, and only where there is none those of the process listing. `None`
/// for the listing stands for a query that gave none.
pub open spec fn discovered(files: Seq<Option<Seq<char>>>, listing: Option<Seq<char>>) -> Option<
    LcuCredentialsView,
> {
    match first_lockfile_match(files) {
        Some(creds) => Some(creds),
        None => match listing {
            Some(text) => listing_credentials(text),
            None => None,
        },
    }
}

/// Finds the credentials of a running client in what was read at the places
/// of the lockfile and in the listing of the client's process.
pub fn detect_lcu(files: &Vec<Option<String>>, listing: &Option<String>) -> (creds: Option<
    LcuCredentials,
>)
    ensures
        optional_view(creds) == discovered(files_view(files@), optional_text(*listing)),
{
    match detect_from_lockfile(files) {
        Some(creds) => Some(creds),
        None => match listing {
            Some(text) => detect_from_wmic(text.as_str()),
            None => None,
        },
    }
}

/// Discovery as a result: the credentials that [`detect_lcu`] finds, or the
/// error that neither source holds any.
pub fn discover(files: &Vec<Option<String>>, listing: &Option<String>) -> (result: Result<
    LcuCredentials,
    LcuError,
>)
    ensures
        match result {
            Ok(c) => discovered(files_view(files@), optional_text(*listing)) == Some(c@),
            Err(e) => e@ == LcuErrorView::DiscoveryNotFound && discovered(
                files_view(files@),
                optional_text(*listing),
            ) is None,
        },
{
    match detect_lcu(files, listing) {
        Some(creds) => Ok(creds),
        None => Err(LcuError::DiscoveryNotFound),
    }
}

/// A lockfile that holds credentials wins over the process listing, whatever
/// the listing holds.
pub proof fn lemma_lockfile_wins(files: Seq<Option<Seq<char>>>, listing: Option<Seq<char>>)
    requires
        first_lockfile_match(files) is Some,
    ensures
        discovered(files, listing) == first_lockfile_match(files),
{
}

/// Among the lockfiles the first that holds credentials wins, whatever
/// stands at the places after it.
pub proof fn lemma_first_lockfile_wins(files: Seq<Option<Seq<char>>>, k: int)
    requires
        0 <= k < files.len(),
        files[k] matches Some(contents) && lockfile_credentials(contents) is Some,
        forall|i: int|
            0 <= i < k ==> ((#[trigger] files[i]) matches Some(contents) ==> lockfile_credentials(
                contents,
            ) is None),
    ensures
        first_lockfile_match(files) == lockfile_credentials(files[k]->0),
    decreases k,
{
    if k > 0 {
        let rest = files.drop_first();
        assert(rest[k - 1] == files[k]);
        assert forall|i: int| 0 <= i < k - 1 implies ((#[trigger] rest[i]) matches Some(
            contents,
        ) ==> lockfile_credentials(contents) is None) by {
            assert(rest[i] == files[i + 1]);
        }
        assert(files[0] matches Some(contents) ==> lockfile_credentials(contents) is None);
        lemma_first_lockfile_wins(rest, k - 1);
    }
}

} // verus!
