//! The remote API's side of one action: the request that a delete or an edit
//! sends, and what each answer means.
use crate::text::{decimal, decimal_text};
use vstd::prelude::*;

verus! {

/// The common prefix of the remote API's endpoints.
pub const API_PREFIX: &'static str = "https://discord.com/api/v9";

/// Added to the server's `retry_after` hint, so that the retry lands after the limit lifts.
pub const RATE_LIMIT_JITTER_MS: u64 = 100;

/// The wait after a rate-limited answer that gives no `retry_after` hint.
pub const DEFAULT_RETRY_AFTER_MS: u64 = 1000;

/// The HTTP status of a rate-limited answer.
pub const TOO_MANY_REQUESTS: u16 = 429;

#[verifier::external_type_specification]
#[verifier::external_body]
pub struct ExUrl(url::Url);

/// What is done to one message.
#[derive(Debug)]
pub enum Action {
    Delete,
    /// Replace the text; `preserve_attachments` keeps the message's files.
    Edit { content: String, preserve_attachments: bool },
}

/// Why an action failed for good.
#[derive(Debug)]
pub enum FatalError {
    /// The request could not be made or its answer could not be read.
    Transport(String),
    /// The server refused: its status and its `message`, or the whole answer.
    Protocol { status: u16, message: String },
}

/// How one attempt of an action ended.
#[derive(Debug)]
pub enum ActionOutcome {
    Success,
    /// Try again after this many milliseconds.
    RateLimited(u64),
    Fatal(FatalError),
}

/// What the logic reads of an answer's JSON body.
#[derive(Debug)]
pub struct JsonBody {
    /// The `retry_after` field, in milliseconds.
    pub retry_after_ms: Option<u64>,
    /// The `message` field, when it is a string.
    pub message: Option<String>,
    /// The `user.global_name` field, when it is a string.
    pub global_name: Option<String>,
    /// The whole body, as JSON text.
    pub text: String,
}

/// An answer's body, as far as it could be read.
#[derive(Debug)]
pub enum ResponseBody {
    /// Reading it failed; holds the reason.
    Unreadable(String),
    /// It is not JSON; holds the reason.
    Malformed(String),
    Json(JsonBody),
}

pub open spec fn is_success_status(status: u16) -> bool {
    200 <= status < 300
}

/// The wait for a rate-limited answer, from its optional `retry_after` hint.
pub open spec fn retry_wait(retry_after_ms: Option<u64>) -> u64 {
    match retry_after_ms {
        Some(ms) => if ms + RATE_LIMIT_JITTER_MS <= u64::MAX {
            (ms + RATE_LIMIT_JITTER_MS) as u64
        } else {
            u64::MAX
        },
        None => DEFAULT_RETRY_AFTER_MS,
    }
}

/// The wait for a rate-limited answer: the hint with the jitter added (saturating),
/// or the default when there is none.
pub fn retry_delay(retry_after_ms: Option<u64>) -> (r: u64)
    ensures
        r == retry_wait(retry_after_ms),
{
    match retry_after_ms {
        Some(ms) => ms.saturating_add(RATE_LIMIT_JITTER_MS),
        None => DEFAULT_RETRY_AFTER_MS,
    }
}

/// The text that a refusal is reported with: the `message` field, else the whole body.
pub open spec fn refusal_text(j: JsonBody) -> Seq<char> {
    match j.message {
        Some(m) => m@,
        None => j.text@,
    }
}

/// Classifies an answer: any 2xx is a success; a 429 with a JSON body is rate
/// limited; an unreadable or non-JSON body otherwise is a transport failure; any
/// other status is a refusal.
pub fn classify_response(status: u16, body: &ResponseBody) -> (r: ActionOutcome)
    ensures
        is_success_status(status) <==> r is Success,
        !is_success_status(status) ==> match *body {
            ResponseBody::Unreadable(e) => r matches ActionOutcome::Fatal(FatalError::Transport(t))
                && t@ == e@,
            ResponseBody::Malformed(e) => r matches ActionOutcome::Fatal(FatalError::Transport(t))
                && t@ == e@,
            ResponseBody::Json(j) => if status == TOO_MANY_REQUESTS {
                r == ActionOutcome::RateLimited(retry_wait(j.retry_after_ms))
            } else {
                r matches ActionOutcome::Fatal(FatalError::Protocol { status: s, message: m })
                    && s == status && m@ == refusal_text(j)
            },
        },
{
    if 200 <= status && status < 300 {
        return ActionOutcome::Success;
    }
    match body {
        ResponseBody::Unreadable(e) => ActionOutcome::Fatal(FatalError::Transport(e.clone())),
        ResponseBody::Malformed(e) => ActionOutcome::Fatal(FatalError::Transport(e.clone())),
        ResponseBody::Json(j) => {
            if status == TOO_MANY_REQUESTS {
                ActionOutcome::RateLimited(retry_delay(j.retry_after_ms))
            } else {
                let message = match &j.message {
                    Some(m) => m.clone(),
                    None => j.text.clone(),
                };
                ActionOutcome::Fatal(FatalError::Protocol { status, message })
            }
        },
    }
}

/// What a profile lookup does next.
#[derive(Debug)]
pub enum ProfileStep {
    Name(String),
    /// Rate limited: ask again after this many milliseconds.
    Retry(u64),
    /// A success whose body has no `user.global_name` string; holds the body.
    MissingName(String),
    Failed(FatalError),
}

/// Reads a profile answer: a success gives the `user.global_name` string, or
/// `MissingName` with the body; a rate limit asks again; an unreadable or
/// non-JSON body is a transport failure; any other status is a refusal with its
/// status and its `message`, or the whole body.
pub fn profile_step(status: u16, body: &ResponseBody) -> (r: ProfileStep)
    ensures
        match *body {
            ResponseBody::Unreadable(e) => r matches ProfileStep::Failed(FatalError::Transport(t))
                && t@ == e@,
            ResponseBody::Malformed(e) => r matches ProfileStep::Failed(FatalError::Transport(t))
                && t@ == e@,
            ResponseBody::Json(j) => if is_success_status(status) {
                match j.global_name {
                    Some(n) => r matches ProfileStep::Name(m) && m@ == n@,
                    None => r matches ProfileStep::MissingName(t) && t@ == j.text@,
                }
            } else if status == TOO_MANY_REQUESTS {
                r == ProfileStep::Retry(retry_wait(j.retry_after_ms))
            } else {
                r matches ProfileStep::Failed(FatalError::Protocol { status: s, message: m })
                    && s == status && m@ == refusal_text(j)
            },
        },
{
    match body {
        ResponseBody::Unreadable(e) => ProfileStep::Failed(FatalError::Transport(e.clone())),
        ResponseBody::Malformed(e) => ProfileStep::Failed(FatalError::Transport(e.clone())),
        ResponseBody::Json(j) => {
            if 200 <= status && status < 300 {
                match &j.global_name {
                    Some(n) => ProfileStep::Name(n.clone()),
                    None => ProfileStep::MissingName(j.text.clone()),
                }
            } else if status == TOO_MANY_REQUESTS {
                ProfileStep::Retry(retry_delay(j.retry_after_ms))
            } else {
                let message = match &j.message {
                    Some(m) => m.clone(),
                    None => j.text.clone(),
                };
                ProfileStep::Failed(FatalError::Protocol { status, message })
            }
        },
    }
}

/// The endpoint of one message.
pub open spec fn message_endpoint_text(channel_id: u64, message_id: u64) -> Seq<char> {
    API_PREFIX@ + "/channels/"@ + decimal_text(channel_id as nat) + "/messages/"@ + decimal_text(
        message_id as nat,
    )
}

/// The endpoint of a user's profile.
pub open spec fn profile_endpoint_text(user_id: u64) -> Seq<char> {
    API_PREFIX@ + "/users/"@ + decimal_text(user_id as nat) + "/profile"@
}

/// The endpoint of one message, as text.
pub fn message_endpoint(channel_id: u64, message_id: u64) -> (r: String)
    ensures
        r@ == message_endpoint_text(channel_id, message_id),
{
    let mut s = API_PREFIX.to_owned();
    s.append("/channels/");
    let c = decimal(channel_id);
    s.append(c.as_str());
    s.append("/messages/");
    let m = decimal(message_id);
    s.append(m.as_str());
    s
}

/// Whether the URL parser accepts `s`.
pub uninterp spec fn url_accepts(s: Seq<char>) -> bool;

/// A URL, with the text it was parsed from.
pub struct ParsedUrl {
    url: url::Url,
    source: Ghost<Seq<char>>,
}

impl ParsedUrl {
    /// The text that the URL was parsed from.
    pub closed spec fn text(&self) -> Seq<char> {
        self.source@
    }

    pub fn url(&self) -> &url::Url {
        &self.url
    }
}

/// Relies on `url::Url::parse`: succeeds exactly on the texts it accepts, giving the
/// URL of `s`; the error is its reason, with the text.
#[verifier::external_body]
fn parse_url(s: &str) -> (r: Result<ParsedUrl, String>)
    ensures
        r is Ok <==> url_accepts(s@),
        r matches Ok(u) ==> u.text() == s@,
{
    match url::Url::parse(s) {
        Ok(u) => Ok(ParsedUrl { url: u, source: Ghost(s@) }),
        Err(e) => Err(format!("Could not deserialize URL {s:?}: {e}")),
    }
}

/// The URL of a user's profile.
pub fn profile_url(user_id: u64) -> (r: Result<ParsedUrl, String>)
    ensures
        r is Ok <==> url_accepts(profile_endpoint_text(user_id)),
        r matches Ok(u) ==> u.text() == profile_endpoint_text(user_id),
{
    let mut s = API_PREFIX.to_owned();
    s.append("/users/");
    let u = decimal(user_id);
    s.append(u.as_str());
    s.append("/profile");
    parse_url(s.as_str())
}

pub open spec fn hex_digit(d: nat) -> char {
    if d < 10 {
        (('0' as nat) + d) as char
    } else {
        (('a' as nat) + d - 10) as char
    }
}

/// How a JSON string writes one character: a quote, a backslash and the control
/// characters with a short name are escaped by letter; the other characters below
/// U+0020 as `\u00` and two lower-case hex digits; every other character as itself.
pub open spec fn json_escaped(c: char) -> Seq<char> {
    if c == '"' {
        seq!['\\', '"']
    } else if c == '\\' {
        seq!['\\', '\\']
    } else if c == '\u{8}' {
        seq!['\\', 'b']
    } else if c == '\t' {
        seq!['\\', 't']
    } else if c == '\n' {
        seq!['\\', 'n']
    } else if c == '\u{c}' {
        seq!['\\', 'f']
    } else if c == '\r' {
        seq!['\\', 'r']
    } else if (c as nat) < 32 {
        seq!['\\', 'u', '0', '0', hex_digit((c as nat) / 16), hex_digit((c as nat) % 16)]
    } else {
        seq![c]
    }
}

pub open spec fn json_escaped_text(s: Seq<char>) -> Seq<char>
    decreases s.len(),
{
    if s.len() == 0 {
        Seq::<char>::empty()
    } else {
        json_escaped_text(s.drop_last()) + json_escaped(s.last())
    }
}

/// The JSON string literal that writes `s`.
pub open spec fn json_string_of(s: Seq<char>) -> Seq<char> {
    seq!['"'] + json_escaped_text(s) + seq!['"']
}

/// Relies on `serde_json::to_string` on a `str`: the quoted string, escaped as its
/// `ESCAPE` table and `write_char_escape` do. Writing into memory cannot fail, so
/// its error arm is never taken.
#[verifier::external_body]
fn json_string(s: &str) -> (r: String)
    ensures
        r@ == json_string_of(s@),
{
    match serde_json::to_string(s) {
        Ok(t) => t,
        Err(_) => String::new(),
    }
}

/// The JSON body of an edit: the new content, and an empty attachment list unless
/// the attachments are kept.
pub open spec fn edit_body_text(content: Seq<char>, preserve_attachments: bool) -> Seq<char> {
    "{\"content\":"@ + json_string_of(content) + if preserve_attachments {
        "}"@
    } else {
        ",\"attachments\":[]}"@
    }
}

pub fn edit_body(content: &str, preserve_attachments: bool) -> (r: String)
    ensures
        r@ == edit_body_text(content@, preserve_attachments),
{
    let mut s = "{\"content\":".to_owned();
    let quoted = json_string(content);
    s.append(quoted.as_str());
    if preserve_attachments {
        s.append("}");
    } else {
        s.append(",\"attachments\":[]}");
    }
    s
}

#[derive(Clone, Copy, Debug, PartialEq, Eq, Structural)]
pub enum Method {
    Delete,
    Patch,
}

/// A request to send, but for the authorization header.
pub struct Request {
    pub method: Method,
    /// The message's endpoint, parsed.
    pub url: ParsedUrl,
    /// A JSON body, when the request has one.
    pub body: Option<String>,
}

/// The request that deletes a message.
pub fn delete_message(channel_id: u64, message_id: u64) -> (r: Result<Request, String>)
    ensures
        r is Ok <==> url_accepts(message_endpoint_text(channel_id, message_id)),
        r matches Ok(q) ==> q.method == Method::Delete && q.body is None,
        r matches Ok(q) ==> q.url.text() == message_endpoint_text(channel_id, message_id),
{
    let endpoint = message_endpoint(channel_id, message_id);
    let url = parse_url(endpoint.as_str())?;
    Ok(Request { method: Method::Delete, url, body: None })
}

/// The request that replaces a message's content.
pub fn edit_message(channel_id: u64, message_id: u64, content: &str, preserve_attachments: bool) -> (r:
    Result<Request, String>)
    ensures
        r is Ok <==> url_accepts(message_endpoint_text(channel_id, message_id)),
        r matches Ok(q) ==> q.method == Method::Patch && q.body is Some && q.body->Some_0@
            == edit_body_text(content@, preserve_attachments),
        r matches Ok(q) ==> q.url.text() == message_endpoint_text(channel_id, message_id),
{
    let endpoint = message_endpoint(channel_id, message_id);
    let url = parse_url(endpoint.as_str())?;
    let body = edit_body(content, preserve_attachments);
    Ok(Request { method: Method::Patch, url, body: Some(body) })
}

/// The request that performs `action` on a message.
pub fn build_request(action: &Action, channel_id: u64, message_id: u64) -> (r: Result<
    Request,
    String,
>)
    ensures
        r is Ok <==> url_accepts(message_endpoint_text(channel_id, message_id)),
        r matches Ok(q) ==> q.url.text() == message_endpoint_text(channel_id, message_id),
        r matches Ok(q) ==> match *action {
            Action::Delete => q.method == Method::Delete && q.body is None,
            Action::Edit { content, preserve_attachments } => q.method == Method::Patch
                && q.body is Some && q.body->Some_0@ == edit_body_text(
                content@,
                preserve_attachments,
            ),
        },
{
    match action {
        Action::Delete => delete_message(channel_id, message_id),
        Action::Edit { content, preserve_attachments } => edit_message(
            channel_id,
            message_id,
            content.as_str(),
            *preserve_attachments,
        ),
    }
}

} // verus!
