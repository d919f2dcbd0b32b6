//! The decisions of pairing and heartbeat: endpoints, request bodies, and how
//! the remote answers are read. The caller sends each request and hands the
//! answer back.

use vstd::prelude::*;
use vstd::string::StringExecFns;
use crate::json::{json_quoted, json_str_member, quote, str_member};
use crate::record::{
    opt_view, present, record_after_claim, text_or_empty, unpaired_view, well_formed,
    PairingRecord, RecordView,
};
use crate::text::{
    decimal, decimal_text, has_prefix, starts_with, strip_trailing_slashes, trim, trimmed,
    without_trailing_slashes,
};

verus! {

/// The REST base of the service on `site`.
pub open spec fn rest_base_of(site: Seq<char>) -> Seq<char> {
    strip_trailing_slashes(site) + "/wp-json/gsdt/v1/phone-transfer"@
}

/// Where a pairing code is claimed.
pub open spec fn claim_url(site: Seq<char>) -> Seq<char> {
    rest_base_of(site) + "/pairing/claim"@
}

/// Where a heartbeat is posted.
pub open spec fn heartbeat_url(site: Seq<char>) -> Seq<char> {
    rest_base_of(site) + "/device/heartbeat"@
}

/// The JSON body of a claim.
pub open spec fn claim_body(code: Seq<char>, device_id: Seq<char>, name: Seq<char>) -> Seq<char> {
    "{\"pairing_code\":"@ + json_quoted(code) + ",\"device_id\":"@ + json_quoted(device_id)
        + ",\"device_name\":"@ + json_quoted(name) + "}"@
}

/// The JSON body of a heartbeat.
pub open spec fn heartbeat_body(device_id: Seq<char>) -> Seq<char> {
    "{\"device_id\":"@ + json_quoted(device_id)
        + ",\"utility_version\":\"0.1.0\",\"status\":\"ready\"}"@
}

/// An HTTP status in the success class.
pub open spec fn is_success(status: u16) -> bool {
    200 <= status && status <= 299
}

/// Why the inputs of a pairing are refused before any request, if they are.
pub open spec fn pair_input_error(site: Seq<char>, code: Seq<char>) -> Option<Seq<char>> {
    if !has_prefix(trimmed(site), "http"@) {
        Some("site must start with http(s)://"@)
    } else if trimmed(code).len() == 0 {
        Some("pairing code empty"@)
    } else {
        None
    }
}

/// The message of a refused claim: the service's own `error` text, or the
/// status and the body.
pub open spec fn remote_message(status: u16, body: Seq<char>) -> Seq<char> {
    match json_str_member(body, "error"@) {
        Some(e) => e,
        None => "pair failed ("@ + decimal(status as nat) + "): "@ + body,
    }
}

/// A successful claim's body names a token and an identifier, both non-empty.
pub open spec fn claim_accepted(body: Seq<char>) -> bool {
    present(json_str_member(body, "device_token"@)) && present(
        json_str_member(body, "device_id"@),
    )
}

/// Whether `r` is due a heartbeat: paired, with a site and a token.
pub open spec fn heartbeat_due(r: RecordView) -> bool {
    r.paired && text_or_empty(r.site).len() > 0 && text_or_empty(r.device_token).len() > 0
}

/// What goes wrong in a pairing or a heartbeat, with its message.
#[derive(Clone, Debug, PartialEq, Eq)]
pub enum PairError {
    /// The caller's input was refused before any request.
    Validation(String),
    /// The remote service could not be reached.
    Network(String),
    /// The service answered with a failure status.
    Remote(String),
    /// The service answered with success but an incomplete payload.
    Protocol(String),
    /// The record could not be written.
    Persistence(String),
}

impl PairError {
    /// The message that the shell shows.
    pub fn message(&self) -> (r: String)
        ensures
            r@ == match self {
                PairError::Validation(m) => m@,
                PairError::Network(m) => m@,
                PairError::Remote(m) => m@,
                PairError::Protocol(m) => m@,
                PairError::Persistence(m) => m@,
            },
    {
        match self {
            PairError::Validation(m) => m.clone(),
            PairError::Network(m) => m.clone(),
            PairError::Remote(m) => m.clone(),
            PairError::Protocol(m) => m.clone(),
            PairError::Persistence(m) => m.clone(),
        }
    }
}

/// The claim to send: its URL and JSON body, and the site it pairs with.
#[derive(Clone, Debug, PartialEq, Eq)]
pub struct ClaimRequest {
    pub site: String,
    pub url: String,
    pub body: String,
}

/// What an accepted claim hands back.
#[derive(Clone, Debug, PartialEq, Eq)]
pub struct Claimed {
    pub device_id: String,
    pub device_token: String,
}

/// The heartbeat to send: its URL, bearer token and JSON body.
#[derive(Clone, Debug, PartialEq, Eq)]
pub struct HeartbeatRequest {
    pub url: String,
    pub token: String,
    pub body: String,
}

/// The REST base for `site`: trailing slashes dropped, the API path appended.
pub fn rest_base(site: &str) -> (r: String)
    ensures
        r@ == rest_base_of(site@),
{
    let mut r = without_trailing_slashes(site);
    r.append("/wp-json/gsdt/v1/phone-transfer");
    r
}

/// Validates the inputs of a pairing and, where they pass, builds the claim.
/// No request is owed where the trimmed site does not begin with `http` or
/// the trimmed code is empty: the result is then a validation error.
pub fn plan_pair(
    site: &str,
    pairing_code: &str,
    device_id: &str,
    device_name: &str,
) -> (r: Result<ClaimRequest, PairError>)
    ensures
        r is Ok <==> pair_input_error(site@, pairing_code@) is None,
        r is Err ==> r->Err_0 is Validation && r->Err_0->Validation_0@ == pair_input_error(
            site@,
            pairing_code@,
        )->Some_0,
        r is Ok ==> r->Ok_0.site@ == trimmed(site@) && r->Ok_0.url@ == claim_url(trimmed(site@))
            && r->Ok_0.body@ == claim_body(trimmed(pairing_code@), device_id@, device_name@),
{
    let site = trim(site);
    if !starts_with(site.as_str(), "http") {
        return Err(PairError::Validation("site must start with http(s)://".to_owned()));
    }
    let code = trim(pairing_code);
    if code.as_str().is_empty() {
        return Err(PairError::Validation("pairing code empty".to_owned()));
    }
    let mut url = rest_base(site.as_str());
    url.append("/pairing/claim");
    let mut body = "{\"pairing_code\":".to_owned();
    body.append(quote(code.as_str()).as_str());
    body.append(",\"device_id\":");
    body.append(quote(device_id).as_str());
    body.append(",\"device_name\":");
    body.append(quote(device_name).as_str());
    body.append("}");
    Ok(ClaimRequest { site, url, body })
}

/// Reads the answer to a claim. A failure status gives a remote error with the
/// service's message; a success status gives the identifier and token where
/// both are present and non-empty, and a protocol error otherwise.
pub fn claim_outcome(status: u16, body: &str) -> (r: Result<Claimed, PairError>)
    ensures
        !is_success(status) ==> r is Err && r->Err_0 is Remote && r->Err_0->Remote_0@
            == remote_message(status, body@),
        is_success(status) ==> (r is Ok <==> claim_accepted(body@)),
        is_success(status) && r is Err ==> r->Err_0 is Protocol && r->Err_0->Protocol_0@
            == "unexpected pairing response"@,
        r is Ok ==> json_str_member(body@, "device_token"@) == Some(r->Ok_0.device_token@)
            && json_str_member(body@, "device_id"@) == Some(r->Ok_0.device_id@),
{
    if !(200 <= status && status <= 299) {
        let message = match str_member(body, "error") {
            Some(e) => e,
            None => {
                let mut m = "pair failed (".to_owned();
                m.append(decimal_text(status).as_str());
                m.append("): ");
                m.append(body);
                m
            },
        };
        return Err(PairError::Remote(message));
    }
    let token = str_member(body, "device_token");
    let id = str_member(body, "device_id");
    match (token, id) {
        (Some(device_token), Some(device_id)) => {
            if device_token.as_str().is_empty() || device_id.as_str().is_empty() {
                Err(PairError::Protocol("unexpected pairing response".to_owned()))
            } else {
                Ok(Claimed { device_id, device_token })
            }
        },
        _ => Err(PairError::Protocol("unexpected pairing response".to_owned())),
    }
}

/// A copy of a string that may be absent, the empty string in its place.
fn text_or_default(o: &Option<String>) -> (r: String)
    ensures
        r@ == text_or_empty(opt_view(*o)),
{
    match o {
        Some(s) => s.clone(),
        None => String::new(),
    }
}

/// The record that an accepted claim for `site` leaves behind.
pub fn paired_record(site: &str, claimed: &Claimed) -> (r: PairingRecord)
    ensures
        r@ == record_after_claim(site@, claimed.device_id@, claimed.device_token@),
{
    PairingRecord {
        site: Some(site.to_owned()),
        device_id: Some(claimed.device_id.clone()),
        device_token: Some(claimed.device_token.clone()),
        paired: true,
    }
}

/// The heartbeat that `record` calls for: none where it is not paired or
/// lacks a site or a token, so that nothing is sent.
pub fn plan_heartbeat(record: &PairingRecord) -> (r: Option<HeartbeatRequest>)
    ensures
        r is Some <==> heartbeat_due(record@),
        r is Some ==> r->Some_0.url@ == heartbeat_url(text_or_empty(record@.site))
            && r->Some_0.token@ == text_or_empty(record@.device_token) && r->Some_0.body@
            == heartbeat_body(text_or_empty(record@.device_id)),
{
    if !record.paired {
        return None;
    }
    let site = text_or_default(&record.site);
    let token = text_or_default(&record.device_token);
    if site.as_str().is_empty() || token.as_str().is_empty() {
        return None;
    }
    let mut url = rest_base(site.as_str());
    url.append("/device/heartbeat");
    let device_id = text_or_default(&record.device_id);
    let mut body = "{\"device_id\":".to_owned();
    body.append(quote(device_id.as_str()).as_str());
    body.append(",\"utility_version\":\"0.1.0\",\"status\":\"ready\"}");
    Some(HeartbeatRequest { url, token, body })
}

/// What a heartbeat reports: whether its answer had a success status.
pub fn heartbeat_reported(status: u16) -> (r: bool)
    ensures
        r == is_success(status),
{
    200 <= status && status <= 299
}

/// After a pairing whose inputs pass and whose claim is accepted, the stored
/// record is well formed, shows the trimmed site as paired, and calls for one
/// heartbeat to that site, under the token received, carrying the identifier
/// received.
pub proof fn heartbeat_follows_pairing(site: Seq<char>, code: Seq<char>, body: Seq<char>)
    requires
        pair_input_error(site, code) is None,
        claim_accepted(body),
    ensures
        ({
            let id = json_str_member(body, "device_id"@)->Some_0;
            let token = json_str_member(body, "device_token"@)->Some_0;
            let rec = record_after_claim(trimmed(site), id, token);
            &&& well_formed(rec)
            &&& rec.site == Some(trimmed(site)) && rec.paired
            &&& heartbeat_due(rec)
            &&& heartbeat_url(text_or_empty(rec.site)) == heartbeat_url(trimmed(site))
            &&& text_or_empty(rec.device_token) == token
            &&& heartbeat_body(text_or_empty(rec.device_id)) == heartbeat_body(id)
        }),
{
    reveal_strlit("http");
    assert(trimmed(site).len() >= 4);
}

/// A machine that was never paired, or whose stored record was missing or
/// unreadable, is due no heartbeat: nothing is sent and `false` is reported.
pub proof fn no_heartbeat_before_pairing()
    ensures
        !heartbeat_due(unpaired_view()),
        well_formed(unpaired_view()),
{
}

} // verus!
