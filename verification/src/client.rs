//! One-shot requests against the client: where they go, how they are
//! authorised, and what an answer amounts to.

use crate::error::{LcuError, LcuErrorView};
use crate::json::{json_document, parse_json, JsonView};
use crate::snapshot::{session_of_json, summoner_of_json};
use crate::text::{decimal_digits, decimal_string};
use crate::types::{
    ChampSelectSession, ChampSelectSessionView, CurrentSummoner, CurrentSummonerView,
    LcuCredentials, LcuCredentialsView,
};
use base64::Engine;
use vstd::prelude::*;
use vstd::string::StringSliceAdditionalSpecFns;
use vstd::utf8::encode_utf8;

verus! {

/// The standard base64 text, padded, of `bytes`.
pub uninterp spec fn base64_standard(bytes: Seq<u8>) -> Seq<char>;

/// `Engine::encode` of `base64::engine::general_purpose::STANDARD`: the
/// result is the standard padded base64 text of the input. The call fails
/// only where the length of that text does not fit in `usize`, which no
/// slice is long enough for.
#[verifier::external_body]
fn base64_encode(bytes: &[u8]) -> (text: String)
    ensures
        text@ == base64_standard(bytes@),
{
    base64::engine::general_purpose::STANDARD.encode(bytes)
}

/// The value of the `Authorization` header for `password`: `Basic`, a space,
/// and the base64 text of `riot:` followed by the password.
pub open spec fn auth_header_value(password: Seq<char>) -> Seq<char> {
    "Basic "@ + base64_standard(encode_utf8("riot:"@ + password))
}

/// The value of an `Authorization` header around an encoded credential.
pub fn basic_auth_value(encoded: &str) -> (value: String)
    ensures
        value@ == "Basic "@ + encoded@,
{
    let mut value = String::from_str("Basic ");
    value.append(encoded);
    value
}

/// The value of the `Authorization` header that the client accepts.
pub fn auth_header(creds: &LcuCredentials) -> (value: String)
    ensures
        value@ == auth_header_value(creds.password@),
{
    let mut credential = String::from_str("riot:");
    credential.append(creds.password.as_str());
    let encoded = base64_encode(credential.as_str().as_bytes());
    basic_auth_value(encoded.as_str())
}

/// Host and port of the client, as they stand in an address.
pub open spec fn loopback_authority(port: u16) -> Seq<char> {
    "127.0.0.1:"@ + decimal_digits(port as nat)
}

/// Host and port of the client, as they stand in an address.
pub fn authority(creds: &LcuCredentials) -> (text: String)
    ensures
        text@ == loopback_authority(creds.port),
{
    let mut text = String::from_str("127.0.0.1:");
    text.append(decimal_string(creds.port as u64).as_str());
    text
}

/// The address under which the client answers requests.
pub fn base_url(creds: &LcuCredentials) -> (url: String)
    ensures
        url@ == "https://"@ + loopback_authority(creds.port),
{
    let mut url = String::from_str("https://");
    url.append(authority(creds).as_str());
    url
}

/// A request for a resource of the client: where it goes, how it is
/// authorised, and whether a certificate that cannot be validated is
/// accepted. It is a `GET` without a body, sent over TLS.
#[derive(Debug, PartialEq, Eq)]
pub struct RestRequest {
    pub url: String,
    pub authorization: String,
    pub accept_invalid_certs: bool,
}

/// Mathematical value of [`RestRequest`].
pub struct RestRequestView {
    pub url: Seq<char>,
    pub authorization: Seq<char>,
    pub accept_invalid_certs: bool,
}

impl View for RestRequest {
    type V = RestRequestView;

    open spec fn view(&self) -> RestRequestView {
        RestRequestView {
            url: self.url@,
            authorization: self.authorization@,
            accept_invalid_certs: self.accept_invalid_certs,
        }
    }
}

/// The request for the resource at `path` of the client behind `creds`. The
/// client shows a certificate that it has signed itself, which is accepted.
pub open spec fn request_for(creds: LcuCredentialsView, path: Seq<char>) -> RestRequestView {
    RestRequestView {
        url: "https://"@ + loopback_authority(creds.port) + path,
        authorization: auth_header_value(creds.password),
        accept_invalid_certs: true,
    }
}

/// A certificate that cannot be validated is accepted only from the
/// loopback device: every request that this crate makes goes to
/// `127.0.0.1`.
pub proof fn lemma_request_stays_local(creds: LcuCredentialsView, path: Seq<char>)
    ensures
        ("https://"@ + "127.0.0.1:"@).is_prefix_of(request_for(creds, path).url),
{
    let front = "https://"@ + "127.0.0.1:"@;
    let url = request_for(creds, path).url;
    assert(url =~= front + (decimal_digits(creds.port as nat) + path));
    assert(url.subrange(0, front.len() as int) =~= front);
}

/// The request for the resource at `path`.
fn request(creds: &LcuCredentials, path: &str) -> (r: RestRequest)
    ensures
        r@ == request_for(creds@, path@),
{
    let mut url = base_url(creds);
    url.append(path);
    RestRequest { url, authorization: auth_header(creds), accept_invalid_certs: true }
}

/// The request for the champion select that is under way.
pub fn champion_select_request(creds: &LcuCredentials) -> (r: RestRequest)
    ensures
        r@ == request_for(creds@, "/lol-champ-select/v1/session"@),
{
    request(creds, "/lol-champ-select/v1/session")
}

/// The request for the account that is logged in.
pub fn current_summoner_request(creds: &LcuCredentials) -> (r: RestRequest)
    ensures
        r@ == request_for(creds@, "/lol-summoner/v1/current-summoner"@),
{
    request(creds, "/lol-summoner/v1/current-summoner")
}

/// What came of sending a request.
#[derive(Debug, PartialEq, Eq)]
pub enum HttpReply {
    /// The request did not reach the client; the text says why.
    Unreachable(String),
    /// The client answered with this status and body.
    Answered { status: u16, body: Vec<u8> },
}

/// Mathematical value of [`HttpReply`].
pub enum HttpReplyView {
    Unreachable(Seq<char>),
    Answered { status: u16, body: Seq<u8> },
}

impl View for HttpReply {
    type V = HttpReplyView;

    open spec fn view(&self) -> HttpReplyView {
        match self {
            HttpReply::Unreachable(why) => HttpReplyView::Unreachable(why@),
            HttpReply::Answered { status, body } => HttpReplyView::Answered {
                status: *status,
                body: body@,
            },
        }
    }
}

/// A status that reports success: one from 200 to 299.
pub open spec fn is_success(status: u16) -> bool {
    200 <= status < 300
}

/// What a reply amounts to, where `read` reads the snapshot out of a
/// document. A request that did not arrive and a status that does not report
/// success are errors of their own, and the body is looked at only after
/// both. A body that is no JSON document, or a document that `read` rejects,
/// is a failure to decode.
pub open spec fn reply_result<T>(reply: HttpReplyView, read: spec_fn(JsonView) -> Option<T>)
    -> Result<T, LcuErrorView> {
    match reply {
        HttpReplyView::Unreachable(why) => Err(LcuErrorView::TransportConnectFailed(why)),
        HttpReplyView::Answered { status, body } => {
            if !is_success(status) {
                Err(LcuErrorView::TransportHttpStatus(status))
            } else {
                decoded(json_document(body), read)
            }
        },
    }
}

/// What a parsed body amounts to, where `read` reads the snapshot out of a
/// document.
pub open spec fn decoded<T>(document: Option<JsonView>, read: spec_fn(JsonView) -> Option<T>)
    -> Result<T, LcuErrorView> {
    match document {
        Some(json) => match read(json) {
            Some(snapshot) => Ok(snapshot),
            None => Err(LcuErrorView::TransportDecodeFailed),
        },
        None => Err(LcuErrorView::TransportDecodeFailed),
    }
}

/// The error that keeps the body of a reply from being read: that the
/// request did not arrive, or that the status does not report success.
fn refusal(reply: &HttpReply) -> (error: Option<LcuError>)
    ensures
        match error {
            Some(e) => match reply@ {
                HttpReplyView::Unreachable(why) => e@ == LcuErrorView::TransportConnectFailed(why),
                HttpReplyView::Answered { status, body } => !is_success(status) && e@
                    == LcuErrorView::TransportHttpStatus(status),
            },
            None => reply@ matches HttpReplyView::Answered { status, body } && is_success(status),
        },
{
    match reply {
        HttpReply::Unreachable(why) => Some(LcuError::TransportConnectFailed(why.clone())),
        HttpReply::Answered { status, body } => {
            if 200 <= *status && *status < 300 {
                None
            } else {
                Some(LcuError::TransportHttpStatus(*status))
            }
        },
    }
}

/// The champion select that the body of a successful answer holds.
pub fn champion_select_from_body(body: &[u8]) -> (result: Result<ChampSelectSession, LcuError>)
    ensures
        match result {
            Ok(session) => decoded(json_document(body@), |j: JsonView| session_of_json(j)) == Ok::<
                ChampSelectSessionView,
                LcuErrorView,
            >(session@),
            Err(e) => decoded(json_document(body@), |j: JsonView| session_of_json(j)) == Err::<
                ChampSelectSessionView,
                LcuErrorView,
            >(e@),
        },
{
    match parse_json(body) {
        Some(json) => match ChampSelectSession::from_json(&json) {
            Some(session) => Ok(session),
            None => Err(LcuError::TransportDecodeFailed),
        },
        None => Err(LcuError::TransportDecodeFailed),
    }
}

/// The account that the body of a successful answer holds.
pub fn current_summoner_from_body(body: &[u8]) -> (result: Result<CurrentSummoner, LcuError>)
    ensures
        match result {
            Ok(summoner) => decoded(json_document(body@), |j: JsonView| summoner_of_json(j))
                == Ok::<CurrentSummonerView, LcuErrorView>(summoner@),
            Err(e) => decoded(json_document(body@), |j: JsonView| summoner_of_json(j)) == Err::<
                CurrentSummonerView,
                LcuErrorView,
            >(e@),
        },
{
    match parse_json(body) {
        Some(json) => match CurrentSummoner::from_json(&json) {
            Some(summoner) => Ok(summoner),
            None => Err(LcuError::TransportDecodeFailed),
        },
        None => Err(LcuError::TransportDecodeFailed),
    }
}

/// The champion select that a reply to [`champion_select_request`] holds.
pub fn champion_select_from_reply(reply: &HttpReply) -> (result: Result<
    ChampSelectSession,
    LcuError,
>)
    ensures
        match result {
            Ok(session) => reply_result(reply@, |j: JsonView| session_of_json(j)) == Ok::<
                ChampSelectSessionView,
                LcuErrorView,
            >(session@),
            Err(e) => reply_result(reply@, |j: JsonView| session_of_json(j)) == Err::<
                ChampSelectSessionView,
                LcuErrorView,
            >(e@),
        },
{
    match refusal(reply) {
        Some(error) => Err(error),
        None => match reply {
            HttpReply::Answered { status, body } => champion_select_from_body(body.as_slice()),
            HttpReply::Unreachable(why) => Err(LcuError::TransportConnectFailed(why.clone())),
        },
    }
}

/// The account that a reply to [`current_summoner_request`] holds.
pub fn current_summoner_from_reply(reply: &HttpReply) -> (result: Result<
    CurrentSummoner,
    LcuError,
>)
    ensures
        match result {
            Ok(summoner) => reply_result(reply@, |j: JsonView| summoner_of_json(j)) == Ok::<
                CurrentSummonerView,
                LcuErrorView,
            >(summoner@),
            Err(e) => reply_result(reply@, |j: JsonView| summoner_of_json(j)) == Err::<
                CurrentSummonerView,
                LcuErrorView,
            >(e@),
        },
{
    match refusal(reply) {
        Some(error) => Err(error),
        None => match reply {
            HttpReply::Answered { status, body } => current_summoner_from_body(body.as_slice()),
            HttpReply::Unreachable(why) => Err(LcuError::TransportConnectFailed(why.clone())),
        },
    }
}

/// A status that does not report success is answered with that status,
/// whatever the body holds.
pub proof fn lemma_status_before_body<T>(
    status: u16,
    body: Seq<u8>,
    read: spec_fn(JsonView) -> Option<T>,
)
    requires
        !is_success(status),
    ensures
        reply_result(HttpReplyView::Answered { status, body }, read) == Err::<T, LcuErrorView>(
            LcuErrorView::TransportHttpStatus(status),
        ),
{
}

} // verus!
