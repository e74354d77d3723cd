//! Per-request planning and outcome classification.
//!
//! [`plan_request`] decides the HTTP action for one (endpoint, payload)
//! pair; [`classify`] maps the transport's answer to one of the four
//! outcome kinds, in a fixed precedence; [`outcome_for`] builds the event
//! the metrics sink consumes.

use vstd::prelude::*;
use vstd::string::StringExecFns;
use crate::config::{Endpoint, Payload};

verus! {

/// Classification of one finished request. Only `Success` is business
/// success; `JsonDecodeError` means the remote was reachable but handed
/// back a malformed body, which callers alert on separately from
/// `Timeout` and `TransportError`.
#[derive(Debug, Clone, Copy, PartialEq, Eq, Structural)]
pub enum OutcomeKind {
    Success,
    JsonDecodeError,
    Timeout,
    TransportError,
}

/// What the transport handed back for one request, before classification:
/// either a transport-level failure, with whether its cause was an
/// exceeded deadline, or the raw response body.
#[derive(Debug, Clone)]
pub enum FetchResult {
    Failure { deadline_exceeded: bool },
    Body { bytes: Vec<u8> },
}

/// Whether the given bytes form one valid JSON document; the answer
/// depends on the bytes alone.
pub uninterp spec fn json_parses(bytes: Seq<u8>) -> bool;

/// Relies on `serde_json::from_slice::<Value>`: deserializing to a generic
/// JSON value returns `Ok` exactly when the input is one well-formed JSON
/// document, a property of the bytes alone.
#[verifier::external_body]
fn body_is_valid_json(bytes: &Vec<u8>) -> (r: bool)
    ensures
        r == json_parses(bytes@),
{
    serde_json::from_slice::<serde_json::Value>(bytes.as_slice()).is_ok()
}

/// The classifier's value on one result, in the required precedence: a
/// deadline-exceeded transport failure is `Timeout`; any other transport
/// failure is `TransportError`; a delivered body is `Success` exactly when
/// it parses as JSON, and `JsonDecodeError` otherwise.
pub open spec fn classification(result: FetchResult) -> OutcomeKind {
    match result {
        FetchResult::Failure { deadline_exceeded } => if deadline_exceeded {
            OutcomeKind::Timeout
        } else {
            OutcomeKind::TransportError
        },
        FetchResult::Body { bytes } => if json_parses(bytes@) {
            OutcomeKind::Success
        } else {
            OutcomeKind::JsonDecodeError
        },
    }
}

/// Total, deterministic classification of one request result.
pub fn classify(result: &FetchResult) -> (k: OutcomeKind)
    ensures
        k == classification(*result),
{
    match result {
        FetchResult::Failure { deadline_exceeded } => {
            if *deadline_exceeded {
                OutcomeKind::Timeout
            } else {
                OutcomeKind::TransportError
            }
        },
        FetchResult::Body { bytes } => {
            if body_is_valid_json(bytes) {
                OutcomeKind::Success
            } else {
                OutcomeKind::JsonDecodeError
            }
        },
    }
}

/// Whether a kind counts as business success, which routes its latency to
/// the success histogram rather than the failure one.
pub fn is_success(k: &OutcomeKind) -> (r: bool)
    ensures
        r == (*k is Success),
{
    match k {
        OutcomeKind::Success => true,
        _ => false,
    }
}

/// The HTTP action one task performs: a GET of `url` when `body` is
/// absent, a POST of `body` to `url` when present, with the bearer
/// credential attached either way when present.
#[derive(Debug, Clone)]
pub struct RequestPlan {
    pub url: String,
    pub body: Option<String>,
    pub bearer_token: Option<String>,
}

/// Decides the single call a task makes: a payload without data means a
/// status probe, a GET of `<url>/status`; a payload with data means a data
/// call, a POST of that body to the endpoint's URL. The endpoint's bearer
/// credential is carried along unchanged.
pub fn plan_request(endpoint: &Endpoint, payload: &Payload) -> (r: RequestPlan)
    ensures
        payload.data is None ==> r.url@ == endpoint.url@ + "/status"@ && r.body is None,
        payload.data matches Some(d) ==> r.url@ == endpoint.url@ && (r.body matches Some(b)
            && b@ == d@),
        endpoint.bearer_token is None ==> r.bearer_token is None,
        endpoint.bearer_token matches Some(t) ==> (r.bearer_token matches Some(u) && u@ == t@),
{
    let url = if payload.data.is_none() {
        endpoint.url.clone().concat("/status")
    } else {
        endpoint.url.clone()
    };
    let body = match &payload.data {
        Some(d) => Some(d.clone()),
        None => None,
    };
    let bearer_token = match &endpoint.bearer_token {
        Some(t) => Some(t.clone()),
        None => None,
    };
    RequestPlan { url, body, bearer_token }
}

/// One per-task event handed to the metrics sink, keyed by endpoint URL
/// and payload name; `elapsed_ns` is the task's wall time in nanoseconds.
#[derive(Debug, Clone)]
pub struct Outcome {
    pub url: String,
    pub name: String,
    pub kind: OutcomeKind,
    pub elapsed_ns: u64,
}

/// Builds the metrics event for one finished task: the endpoint's URL and
/// the payload's name as labels, the classification of the transport's
/// answer, and the elapsed time unchanged.
pub fn outcome_for(endpoint: &Endpoint, payload: &Payload, result: &FetchResult, elapsed_ns: u64) -> (o:
    Outcome)
    ensures
        o.url@ == endpoint.url@,
        o.name@ == payload.name@,
        o.kind == classification(*result),
        o.elapsed_ns == elapsed_ns,
{
    Outcome {
        url: endpoint.url.clone(),
        name: payload.name.clone(),
        kind: classify(result),
        elapsed_ns,
    }
}

} // verus!
