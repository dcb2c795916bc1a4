//! The HTTP adapter's decisions: endpoint URLs, and how a response's status
//! and body become an outcome of `ask` or `health`.
use vstd::prelude::*;

use crate::entities::{AskResult, AskResultView, HealthStatus, HealthStatusView};
use crate::json::{find_member, json_object_members, member, members_view, parse_object, JsonMember, JsonScalar, MemberView};
use crate::ports::{outcome_view, GatewayError, GatewayFault};
use crate::value_objects::{joined, ApiBaseUrl};

verus! {

/// The decimal digit for `d < 10`.
pub open spec fn digit(d: nat) -> char {
    if d == 0 { '0' }
    else if d == 1 { '1' }
    else if d == 2 { '2' }
    else if d == 3 { '3' }
    else if d == 4 { '4' }
    else if d == 5 { '5' }
    else if d == 6 { '6' }
    else if d == 7 { '7' }
    else if d == 8 { '8' }
    else { '9' }
}

/// `n` written in decimal, without leading zeros.
pub open spec fn decimal(n: nat) -> Seq<char>
    decreases n,
{
    if n < 10 {
        seq![digit(n)]
    } else {
        decimal(n / 10).push(digit(n % 10))
    }
}

/// The one-character text of the digit `d`.
fn digit_text(d: u16) -> (r: &'static str)
    requires
        d < 10,
    ensures
        r@ == seq![digit(d as nat)],
{
    proof {
        reveal_strlit("0");
        reveal_strlit("1");
        reveal_strlit("2");
        reveal_strlit("3");
        reveal_strlit("4");
        reveal_strlit("5");
        reveal_strlit("6");
        reveal_strlit("7");
        reveal_strlit("8");
        reveal_strlit("9");
    }
    if d == 0 { "0" }
    else if d == 1 { "1" }
    else if d == 2 { "2" }
    else if d == 3 { "3" }
    else if d == 4 { "4" }
    else if d == 5 { "5" }
    else if d == 6 { "6" }
    else if d == 7 { "7" }
    else if d == 8 { "8" }
    else { "9" }
}

/// Appends `n` in decimal to `out`.
fn push_decimal(n: u16, out: &mut String)
    ensures
        final(out)@ == old(out)@ + decimal(n as nat),
    decreases n,
{
    if n >= 10 {
        push_decimal(n / 10, out);
    }
    out.append(digit_text(n % 10));
    proof {
        if n >= 10 {
            assert(decimal(n as nat) == decimal((n / 10) as nat).push(digit((n % 10) as nat)));
        }
    }
}

/// Whether an HTTP status reports success (`2xx`).
pub open spec fn is_success(status: u16) -> bool {
    200 <= status && status <= 299
}

/// The string value of the member `key`, if it has one.
pub open spec fn text_member(ms: Seq<MemberView>, key: Seq<char>) -> Option<Seq<char>> {
    match member(ms, key) {
        Some(m) => m.1,
        None => None,
    }
}

/// The boolean value of the member `key`, if it has one.
pub open spec fn flag_member(ms: Seq<MemberView>, key: Seq<char>) -> Option<bool> {
    match member(ms, key) {
        Some(m) => m.2,
        None => None,
    }
}

/// The body `{ "answer": string, "source": string, "system_prompt_applied": bool }`.
pub open spec fn answer_body(ms: Seq<MemberView>) -> Option<AskResultView> {
    match (
        text_member(ms, "answer"@),
        text_member(ms, "source"@),
        flag_member(ms, "system_prompt_applied"@),
    ) {
        (Some(a), Some(s), Some(f)) => Some(
            AskResultView { answer: a, source: s, system_prompt_applied: f },
        ),
        _ => None,
    }
}

/// The body `{ "status": string, "version": string, "gigachat_enabled": bool }`.
pub open spec fn health_body(ms: Seq<MemberView>) -> Option<HealthStatusView> {
    match (
        text_member(ms, "status"@),
        text_member(ms, "version"@),
        flag_member(ms, "gigachat_enabled"@),
    ) {
        (Some(s), Some(v), Some(g)) => Some(
            HealthStatusView { status: s, version: v, gigachat_enabled: g },
        ),
        _ => None,
    }
}

/// The body `{ "error": string, "code"?: string }`: its error and its code,
/// where a `null` code counts as an absent one.
pub open spec fn error_body(ms: Seq<MemberView>) -> Option<(Seq<char>, Option<Seq<char>>)> {
    match text_member(ms, "error"@) {
        None => None,
        Some(e) => match member(ms, "code"@) {
            None => Some((e, None)),
            Some(m) => if m.3 {
                Some((e, None))
            } else if m.1 is Some {
                Some((e, m.1))
            } else {
                None
            },
        },
    }
}

/// `"{error} (код: {code})"`, with `unknown` for a missing code.
pub open spec fn api_error_text(error: Seq<char>, code: Option<Seq<char>>) -> Seq<char> {
    error + " (код: "@ + match code {
        Some(c) => c,
        None => "unknown"@,
    } + ")"@
}

/// `"HTTP {status}: {body}"`.
pub open spec fn http_error_text(status: u16, body: Seq<char>) -> Seq<char> {
    "HTTP "@ + decimal(status as nat) + ": "@ + body
}

/// The outcome of `POST /ask` for a response with `status` and `body`, whose
/// body read as a JSON object gives `parsed`. A failure status gives the
/// structured error if the body holds one, else the status and raw body. A
/// success status gives the answer if the body holds one, else the
/// structured error if it holds one, else `InvalidPayload`.
///
/// A body is read as a JSON object whose members are looked up by key: a
/// JSON array in the fields' order is not taken for a record, and of a
/// repeated key the last value counts.
pub open spec fn ask_decision(
    status: u16,
    body: Seq<char>,
    parsed: Option<Seq<MemberView>>,
) -> Result<AskResultView, GatewayFault> {
    let structured = match parsed {
        Some(ms) => error_body(ms),
        None => None,
    };
    let answer = match parsed {
        Some(ms) => answer_body(ms),
        None => None,
    };
    if !is_success(status) {
        match structured {
            Some((e, c)) => Err(GatewayFault::Api(api_error_text(e, c))),
            None => Err(GatewayFault::Api(http_error_text(status, body))),
        }
    } else {
        match answer {
            Some(a) => Ok(a),
            None => match structured {
                Some((e, c)) => Err(GatewayFault::Api(api_error_text(e, c))),
                None => Err(GatewayFault::InvalidPayload),
            },
        }
    }
}

/// The outcome of `GET /health` for a response with `status` and `body`,
/// whose body read as a JSON object gives `parsed`: a failure status gives
/// the status and raw body, with no structured error tried; a success status
/// gives the state if the body holds one, else `InvalidPayload`.
pub open spec fn health_decision(
    status: u16,
    body: Seq<char>,
    parsed: Option<Seq<MemberView>>,
) -> Result<HealthStatusView, GatewayFault> {
    if !is_success(status) {
        Err(GatewayFault::Api(http_error_text(status, body)))
    } else {
        match parsed {
            Some(ms) => match health_body(ms) {
                Some(h) => Ok(h),
                None => Err(GatewayFault::InvalidPayload),
            },
            None => Err(GatewayFault::InvalidPayload),
        }
    }
}

/// The members that a parsed body holds, as views.
pub open spec fn parsed_view(parsed: Option<Vec<JsonMember>>) -> Option<Seq<MemberView>> {
    match parsed {
        Some(ms) => Some(members_view(ms@)),
        None => None,
    }
}

/// The string value of the member `key`, if it has one.
fn text_of(ms: &Vec<JsonMember>, key: &str) -> (r: Option<String>)
    ensures
        match r {
            Some(s) => text_member(members_view(ms@), key@) == Some(s@),
            None => text_member(members_view(ms@), key@) is None,
        },
{
    match find_member(ms, key) {
        Some(m) => match &m.value {
            JsonScalar::Text(s) => Some(s.clone()),
            _ => None,
        },
        None => None,
    }
}

/// The boolean value of the member `key`, if it has one.
fn flag_of(ms: &Vec<JsonMember>, key: &str) -> (r: Option<bool>)
    ensures
        r == flag_member(members_view(ms@), key@),
{
    match find_member(ms, key) {
        Some(m) => match &m.value {
            JsonScalar::Flag(b) => Some(*b),
            _ => None,
        },
        None => None,
    }
}

/// The answer that the body holds, if it holds one.
fn read_answer(ms: &Vec<JsonMember>) -> (r: Option<AskResult>)
    ensures
        match r {
            Some(a) => answer_body(members_view(ms@)) == Some(a@),
            None => answer_body(members_view(ms@)) is None,
        },
{
    let answer = text_of(ms, "answer");
    let source = text_of(ms, "source");
    let flag = flag_of(ms, "system_prompt_applied");
    match (answer, source, flag) {
        (Some(answer), Some(source), Some(system_prompt_applied)) => Some(
            AskResult { answer, source, system_prompt_applied },
        ),
        _ => None,
    }
}

/// The service state that the body holds, if it holds one.
fn read_health(ms: &Vec<JsonMember>) -> (r: Option<HealthStatus>)
    ensures
        match r {
            Some(h) => health_body(members_view(ms@)) == Some(h@),
            None => health_body(members_view(ms@)) is None,
        },
{
    let status = text_of(ms, "status");
    let version = text_of(ms, "version");
    let flag = flag_of(ms, "gigachat_enabled");
    match (status, version, flag) {
        (Some(status), Some(version), Some(gigachat_enabled)) => Some(
            HealthStatus { status, version, gigachat_enabled },
        ),
        _ => None,
    }
}

/// The structured error that the body holds, as `"{error} (код: {code})"`.
fn read_api_error(ms: &Vec<JsonMember>) -> (r: Option<String>)
    ensures
        match r {
            Some(s) => error_body(members_view(ms@)) matches Some((e, c)) && s@ == api_error_text(e, c),
            None => error_body(members_view(ms@)) is None,
        },
{
    let error = match text_of(ms, "error") {
        Some(e) => e,
        None => return None,
    };
    let code = match find_member(ms, "code") {
        None => "unknown".to_string(),
        Some(m) => match &m.value {
            JsonScalar::Null => "unknown".to_string(),
            JsonScalar::Text(c) => c.clone(),
            _ => return None,
        },
    };
    let mut r = error;
    r.append(" (код: ");
    r.append(code.as_str());
    r.append(")");
    Some(r)
}

/// `"HTTP {status}: {body}"`.
fn http_error(status: u16, body: &str) -> (r: String)
    ensures
        r@ == http_error_text(status, body@),
{
    let mut r = "HTTP ".to_string();
    push_decimal(status, &mut r);
    r.append(": ");
    r.append(body);
    r
}

/// An HTTP client of the remote service, rooted at a base URL.
#[derive(Debug, Clone)]
pub struct ApiClient {
    base_url: ApiBaseUrl,
}

impl ApiClient {
    /// The base URL that the client is rooted at.
    pub closed spec fn base(&self) -> Seq<char> {
        self.base_url@
    }

    pub fn new(base_url: ApiBaseUrl) -> (r: Self)
        ensures
            r.base() == base_url@,
    {
        ApiClient { base_url }
    }

    /// The full URL of the endpoint at `path`.
    pub fn endpoint(&self, path: &str) -> (r: String)
        ensures
            r@ == joined(self.base(), path@),
    {
        self.base_url.join(path)
    }

    /// The outcome of `POST /ask` for a response with `status` and `body`,
    /// where `parsed` is the body read as a JSON object.
    pub fn ask_outcome(status: u16, body: &str, parsed: Option<Vec<JsonMember>>) -> (r: Result<
        AskResult,
        GatewayError,
    >)
        ensures
            outcome_view(r) == ask_decision(status, body@, parsed_view(parsed)),
    {
        let (answer, structured) = match &parsed {
            Some(ms) => (read_answer(ms), read_api_error(ms)),
            None => (None, None),
        };
        if !(200 <= status && status <= 299) {
            match structured {
                Some(s) => Err(GatewayError::Api(s)),
                None => Err(GatewayError::Api(http_error(status, body))),
            }
        } else {
            match answer {
                Some(a) => Ok(a),
                None => match structured {
                    Some(s) => Err(GatewayError::Api(s)),
                    None => Err(GatewayError::InvalidPayload),
                },
            }
        }
    }

    /// The outcome of `POST /ask` for a response with `status` and `body`.
    pub fn ask_response(status: u16, body: &str) -> (r: Result<AskResult, GatewayError>)
        ensures
            outcome_view(r) == ask_decision(status, body@, json_object_members(body@)),
    {
        let parsed = parse_object(body);
        Self::ask_outcome(status, body, parsed)
    }

    /// The outcome of `GET /health` for a response with `status` and `body`,
    /// where `parsed` is the body read as a JSON object.
    pub fn health_outcome(status: u16, body: &str, parsed: Option<Vec<JsonMember>>) -> (r: Result<
        HealthStatus,
        GatewayError,
    >)
        ensures
            outcome_view(r) == health_decision(status, body@, parsed_view(parsed)),
    {
        if !(200 <= status && status <= 299) {
            return Err(GatewayError::Api(http_error(status, body)));
        }
        match &parsed {
            Some(ms) => match read_health(ms) {
                Some(h) => Ok(h),
                None => Err(GatewayError::InvalidPayload),
            },
            None => Err(GatewayError::InvalidPayload),
        }
    }

    /// The outcome of `GET /health` for a response with `status` and `body`.
    pub fn health_response(status: u16, body: &str) -> (r: Result<HealthStatus, GatewayError>)
        ensures
            outcome_view(r) == health_decision(status, body@, json_object_members(body@)),
    {
        if !(200 <= status && status <= 299) {
            return Err(GatewayError::Api(http_error(status, body)));
        }
        let parsed = parse_object(body);
        Self::health_outcome(status, body, parsed)
    }
}

} // verus!
