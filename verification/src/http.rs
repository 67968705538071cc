//! The HTTP requests and replies: the headers of every request, and what a reply says.
use reqwest::header::{HeaderMap, HeaderName, HeaderValue};
use serde_json::Value;
use vstd::prelude::*;
use vstd::string::StringExecFns;

use crate::error::{AppError, AppResult, Fault};
use crate::json::{json_of, Json};
use crate::text::{decimal, push_decimal};
use crate::time::TimeSpan;

verus! {

broadcast use vstd::string::group_string_axioms;

pub const USER_AGENT: &'static str = "Mozilla/5.0 (X11; Linux x86_64; rv:124.0) Gecko/20100101 Firefox/124.0";

/// How long a connection that is not used is kept.
pub const POOL_IDLE_SECONDS: u64 = 90;

/// `reqwest::header::HeaderMap`: the headers of a request.
#[verifier::external_type_specification]
#[verifier::external_body]
#[verifier::reject_recursive_types(T)]
pub struct ExHeaderMap<T>(HeaderMap<T>);

/// `reqwest::header::HeaderValue`: what a header says.
#[verifier::external_type_specification]
#[verifier::external_body]
pub struct ExHeaderValue(HeaderValue);

/// What each header of a `HeaderMap` says.
pub uninterp spec fn headers_of(headers: HeaderMap<HeaderValue>) -> Map<Seq<char>, Seq<char>>;

/// Whether a header may say a text: no control characters but the tab.
pub open spec fn valid_header_value(text: Seq<char>) -> bool {
    forall|i: int|
        0 <= i < text.len() ==> (#[trigger] text[i] == '\t' || (text[i] >= ' ' && text[i]
            != '\u{7f}'))
}

/// Whether a text is the name of a header in lower case: letters, digits and hyphens.
pub open spec fn valid_header_name(text: Seq<char>) -> bool {
    &&& 0 < text.len() < 0x1_0000
    &&& forall|i: int|
        0 <= i < text.len() ==> ('a' <= #[trigger] text[i] <= 'z' || '0' <= text[i] <= '9'
            || text[i] == '-')
}

/// No headers at all.
pub open spec fn no_fields() -> Map<Seq<char>, Seq<char>> {
    Map::empty()
}

/// No headers: `HeaderMap::new`.
#[verifier::external_body]
fn no_headers() -> (headers: HeaderMap<HeaderValue>)
    ensures
        headers_of(headers) == no_fields(),
{
    HeaderMap::new()
}

/// Sets a header, in place of one with the same name: `HeaderMap::insert` of what
/// `HeaderValue::from_str` makes of the text, where it makes anything of it.
/// `HeaderName::from_static` panics on a name that is not valid, and `insert` on a map that
/// is full.
#[verifier::external_body]
fn insert_header(headers: &mut HeaderMap<HeaderValue>, name: &'static str, value: &str) -> (result:
    Result<(), String>)
    requires
        valid_header_name(name@),
        headers_of(*old(headers)).dom().finite(),
        headers_of(*old(headers)).dom().len() < 1000,
    ensures
        match result {
            Ok(_) => {
                &&& valid_header_value(value@)
                &&& headers_of(*final(headers)) == headers_of(*old(headers)).insert(name@, value@)
            },
            Err(message) => {
                &&& !valid_header_value(value@)
                &&& message@ == "failed to parse header value"@
                &&& headers_of(*final(headers)) == headers_of(*old(headers))
            },
        },
{
    match HeaderValue::from_str(value) {
        Ok(held) => {
            headers.insert(HeaderName::from_static(name), held);
            Ok(())
        },
        Err(error) => Err(error.to_string()),
    }
}

/// The headers of every request.
pub open spec fn default_fields() -> Seq<(Seq<char>, Seq<char>)> {
    seq![
        ("origin"@, "https://www.qendercore.com"@),
        ("referer"@, "https://www.qendercore.com"@),
        ("accept"@, "application/json"@),
        ("accept-language"@, "en-US,en;q=0.5"@),
        ("cache-control"@, "no-cache"@),
        ("pragma"@, "no-cache"@),
        ("sec-fetch-dest"@, "empty"@),
        ("sec-fetch-mode"@, "cors"@),
        ("sec-fetch-site"@, "same-site"@),
        ("sec-gpc"@, "1"@),
        ("x-qc-client-seq"@, "W.1.1"@),
    ]
}

/// What each header says that a list sets, a later one in place of an earlier one.
pub open spec fn fields_of(list: Seq<(Seq<char>, Seq<char>)>) -> Map<Seq<char>, Seq<char>>
    decreases list.len(),
{
    if list.len() == 0 {
        no_fields()
    } else {
        fields_of(list.drop_last()).insert(list.last().0, list.last().1)
    }
}

/// A list sets no more headers than it is long.
proof fn lemma_fields_size(list: Seq<(Seq<char>, Seq<char>)>)
    ensures
        fields_of(list).dom().finite(),
        fields_of(list).dom().len() <= list.len(),
    decreases list.len(),
{
    if list.len() > 0 {
        lemma_fields_size(list.drop_last());
    }
}

/// Sets a header.
pub fn set_header(headers: &mut HeaderMap<HeaderValue>, name: &'static str, value: &str) -> (result:
    AppResult<()>)
    requires
        valid_header_name(name@),
        headers_of(*old(headers)).dom().finite(),
        headers_of(*old(headers)).dom().len() < 1000,
    ensures
        match result {
            Ok(_) => {
                &&& valid_header_value(value@)
                &&& headers_of(*final(headers)) == headers_of(*old(headers)).insert(name@, value@)
            },
            Err(error) => {
                &&& !valid_header_value(value@)
                &&& error@ == Fault::InvalidConfig(
                    "invalid header value '"@ + value@ + "': "@ + "failed to parse header value"@,
                )
                &&& headers_of(*final(headers)) == headers_of(*old(headers))
            },
        },
{
    match insert_header(headers, name, value) {
        Ok(()) => Ok(()),
        Err(message) => {
            let mut text = "invalid header value '".to_string();
            text.append(value);
            text.append("': ");
            text.append(message.as_str());
            Err(AppError::InvalidConfig(text))
        },
    }
}

fn default_list() -> (list: Vec<(&'static str, &'static str)>)
    ensures
        list.len() == default_fields().len(),
        forall|i: int|
            0 <= i < list.len() ==> (#[trigger] list@[i]).0@ == default_fields()[i].0 && list@[i].1@
                == default_fields()[i].1,
        forall|i: int|
            0 <= i < list.len() ==> valid_header_name((#[trigger] list@[i]).0@)
                && valid_header_value(list@[i].1@),
{
    proof {
        reveal_strlit("origin");
        reveal_strlit("referer");
        reveal_strlit("accept");
        reveal_strlit("accept-language");
        reveal_strlit("cache-control");
        reveal_strlit("pragma");
        reveal_strlit("sec-fetch-dest");
        reveal_strlit("sec-fetch-mode");
        reveal_strlit("sec-fetch-site");
        reveal_strlit("sec-gpc");
        reveal_strlit("x-qc-client-seq");
        reveal_strlit("https://www.qendercore.com");
        reveal_strlit("application/json");
        reveal_strlit("en-US,en;q=0.5");
        reveal_strlit("no-cache");
        reveal_strlit("empty");
        reveal_strlit("cors");
        reveal_strlit("same-site");
        reveal_strlit("1");
        reveal_strlit("W.1.1");
    }
    vec![
        ("origin", "https://www.qendercore.com"),
        ("referer", "https://www.qendercore.com"),
        ("accept", "application/json"),
        ("accept-language", "en-US,en;q=0.5"),
        ("cache-control", "no-cache"),
        ("pragma", "no-cache"),
        ("sec-fetch-dest", "empty"),
        ("sec-fetch-mode", "cors"),
        ("sec-fetch-site", "same-site"),
        ("sec-gpc", "1"),
        ("x-qc-client-seq", "W.1.1"),
    ]
}

/// The headers of every request.
pub fn default_headers() -> (result: AppResult<HeaderMap<HeaderValue>>)
    ensures
        result is Ok,
        headers_of(result->Ok_0) == fields_of(default_fields()),
        headers_of(result->Ok_0).dom().finite(),
        headers_of(result->Ok_0).dom().len() <= default_fields().len(),
{
    let list = default_list();
    let ghost fields = default_fields();
    let mut headers = no_headers();
    let mut next: usize = 0;
    while next < list.len()
        invariant
            next <= list.len(),
            fields == default_fields(),
            list.len() == fields.len(),
            forall|i: int|
                0 <= i < list.len() ==> (#[trigger] list@[i]).0@ == fields[i].0 && list@[i].1@
                    == fields[i].1,
            forall|i: int|
                0 <= i < list.len() ==> valid_header_name((#[trigger] list@[i]).0@)
                    && valid_header_value(list@[i].1@),
            headers_of(headers) == fields_of(fields.take(next as int)),
        decreases list.len() - next,
    {
        proof {
            lemma_fields_size(fields.take(next as int));
            assert(fields.take(next + 1).drop_last() =~= fields.take(next as int));
        }
        let (name, value) = list[next];
        if let Err(error) = set_header(&mut headers, name, value) {
            return Err(error);
        }
        next = next + 1;
    }
    assert(fields.take(next as int) =~= fields);
    proof {
        lemma_fields_size(fields);
    }
    Ok(headers)
}

/// How the HTTP client is set up.
#[derive(Debug)]
pub struct HttpSettings {
    pub user_agent: &'static str,
    pub headers: HeaderMap<HeaderValue>,
    pub timeout: TimeSpan,
    pub pool_idle_timeout: TimeSpan,
}

/// What came back for a request: the document of a successful answer, the status and the
/// text of any other, or why there was no answer that could be read.
#[derive(Debug)]
pub enum Reply {
    Success(Value),
    Failure { status: u16, body: String },
    Broken(AppError),
}

/// How the HTTP standards word a status, by `StatusCode::canonical_reason`.
pub uninterp spec fn reason_phrase(status: u16) -> Option<Seq<char>>;

/// `StatusCode::canonical_reason`, for a number that is a status code.
#[verifier::external_body]
fn canonical_reason(status: u16) -> (reason: Option<&'static str>)
    ensures
        match reason {
            Some(words) => reason_phrase(status) == Some(words@),
            None => reason_phrase(status) is None,
        },
{
    reqwest::StatusCode::from_u16(status).ok().and_then(|code| code.canonical_reason())
}

/// Whether a status is that of a successful answer.
pub fn is_success(status: u16) -> (yes: bool)
    ensures
        yes == (200 <= status < 300),
{
    200 <= status && status < 300
}

/// An answer that is not successful, in words.
pub open spec fn failure_words(status: u16, reason: Option<Seq<char>>, body: Seq<char>) -> Seq<
    char,
> {
    decimal(status as nat) + " "@ + (match reason {
        Some(words) => words,
        None => ""@,
    }) + ": "@ + body
}

/// An answer that is not successful, in words.
pub fn describe_failure(status: u16, reason: Option<&str>, body: &str) -> (words: String)
    ensures
        words@ == failure_words(
            status,
            match reason {
                Some(text) => Some(text@),
                None => None,
            },
            body@,
        ),
{
    let mut words = String::new();
    push_decimal(&mut words, status as u64);
    words.append(" ");
    words.append(
        match reason {
            Some(text) => text,
            None => "",
        },
    );
    words.append(": ");
    words.append(body);
    assert(Seq::<char>::empty() + decimal(status as nat) =~= decimal(status as nat));
    words
}

impl Reply {
    /// The document of the answer, or what went wrong.
    pub open spec fn outcome(self) -> Result<Json, Fault> {
        match self {
            Reply::Success(value) => Ok(json_of(value)),
            Reply::Failure { status, body } => Err(
                Fault::QcoreApi(failure_words(status, reason_phrase(status), body@)),
            ),
            Reply::Broken(error) => Err(error@),
        }
    }
}

/// A result of the service by what it holds.
pub open spec fn json_outcome(result: AppResult<Value>) -> Result<Json, Fault> {
    match result {
        Ok(value) => Ok(json_of(value)),
        Err(error) => Err(error@),
    }
}

/// A result that is a text, by its characters.
pub open spec fn text_outcome(result: AppResult<String>) -> Result<Seq<char>, Fault> {
    match result {
        Ok(text) => Ok(text@),
        Err(error) => Err(error@),
    }
}

/// The document of an answer, or what went wrong.
pub fn handle_response(reply: Reply) -> (result: AppResult<Value>)
    ensures
        json_outcome(result) == reply.outcome(),
{
    match reply {
        Reply::Success(value) => Ok(value),
        Reply::Failure { status, body } => Err(
            AppError::QcoreApi(describe_failure(status, canonical_reason(status), body.as_str())),
        ),
        Reply::Broken(error) => Err(error),
    }
}

/// A result without a value, by its error.
pub open spec fn plain_outcome(result: AppResult<()>) -> Result<(), Fault> {
    match result {
        Ok(_) => Ok(()),
        Err(error) => Err(error@),
    }
}

}
