//! The HTTP side of the SDK: how a request to the API is laid out (URL,
//! query string, headers, JSON body) and what an API response turns into.
//! Sending the request and reading the response, with the timeout kept
//! here, are left to the caller's transport.

use std::time::Duration;

use vstd::prelude::*;

use crate::error::{error_for_status, kind_for_status, local_error, ErrorKind, ErrorView, PaylioError};
use crate::json::{lookup, parse_json, json_parse, JsonValue};
use crate::text::{lemma_trailing_slash_ignored, trim_trailing_slashes, trim_trailing_slashes_str};
use crate::version::VERSION;

verus! {

/// Default base URL for the Paylio API.
pub const DEFAULT_BASE_URL: &'static str = "https://api.paylio.pro/flying/v1";

/// Default request timeout, in seconds.
pub const DEFAULT_TIMEOUT_SECS: u64 = 30;

/// The HTTP methods the API is called with.
#[derive(Debug, Clone, Copy, PartialEq, Eq, Structural)]
pub enum HttpMethod {
    Get,
    Post,
}

/// Options for an HTTP request: query parameters, in the order they are
/// sent and each name at most once, and a JSON body.
#[derive(Debug)]
pub struct RequestOptions {
    pub params: Option<Vec<(String, String)>>,
    pub json_body: Option<JsonValue>,
}

/// A request ready to be sent: method, full URL, headers and JSON body.
#[derive(Debug)]
pub struct PreparedRequest {
    pub method: HttpMethod,
    pub url: String,
    pub headers: Vec<(String, String)>,
    pub json_body: Option<JsonValue>,
}

/// A prepared request with its strings taken as character sequences.
pub struct RequestView {
    pub method: HttpMethod,
    pub url: Seq<char>,
    pub headers: Seq<(Seq<char>, Seq<char>)>,
    pub json_body: Option<JsonValue>,
}

impl View for PreparedRequest {
    type V = RequestView;

    open spec fn view(&self) -> RequestView {
        RequestView {
            method: self.method,
            url: self.url@,
            headers: self.headers.deep_view(),
            json_body: self.json_body,
        }
    }
}

/// `key=value`.
pub open spec fn query_pair(p: (Seq<char>, Seq<char>)) -> Seq<char> {
    p.0 + "="@ + p.1
}

/// The parameters as `key=value` pairs joined by `&`.
pub open spec fn query_string(params: Seq<(Seq<char>, Seq<char>)>) -> Seq<char>
    decreases params.len(),
{
    if params.len() == 0 {
        Seq::empty()
    } else if params.len() == 1 {
        query_pair(params[0])
    } else {
        query_string(params.drop_last()) + "&"@ + query_pair(params.last())
    }
}

/// Whether no parameter name occurs twice.
pub open spec fn distinct_keys(params: Seq<(Seq<char>, Seq<char>)>) -> bool {
    forall|i: int, j: int| 0 <= i < j < params.len() ==> #[trigger] params[i].0 != #[trigger] params[j].0
}

/// The URL of a request: base URL and path, then `?` and the query string
/// where there is at least one parameter.
pub open spec fn request_url(
    base_url: Seq<char>,
    path: Seq<char>,
    params: Option<Seq<(Seq<char>, Seq<char>)>>,
) -> Seq<char> {
    match params {
        Some(ps) => if ps.len() > 0 {
            base_url + path + "?"@ + query_string(ps)
        } else {
            base_url + path
        },
        None => base_url + path,
    }
}

/// The `User-Agent` header's value.
pub open spec fn user_agent() -> Seq<char> {
    "paylio-rust/"@ + VERSION@
}

/// The headers sent with every request.
pub open spec fn request_headers(api_key: Seq<char>) -> Seq<(Seq<char>, Seq<char>)> {
    seq![
        ("X-API-Key"@, api_key),
        ("Content-Type"@, "application/json"@),
        ("Accept"@, "application/json"@),
        ("User-Agent"@, user_agent()),
    ]
}

/// The query parameters of optional request options.
pub open spec fn options_params(opts: Option<RequestOptions>) -> Option<Seq<(Seq<char>, Seq<char>)>> {
    match opts {
        Some(o) => o.params.deep_view(),
        None => None,
    }
}

/// The JSON body of optional request options.
pub open spec fn options_body(opts: Option<RequestOptions>) -> Option<JsonValue> {
    match opts {
        Some(o) => o.json_body,
        None => None,
    }
}

/// The message and error code that an error response's body gives, where
/// `parsed` is the body read as JSON (`None` where it is not JSON).
///
/// Three body formats are recognised: `{"error": {"code": ..., "message": ...}}`,
/// `{"error": "..."}` and `{"detail": "..."}`. Anything else, JSON or not,
/// gives the raw body as message and no code.
pub open spec fn details_of(body: Seq<char>, parsed: Option<JsonValue>) -> (
    Seq<char>,
    Option<Seq<char>>,
) {
    match parsed {
        None => (body, None),
        Some(doc) => match doc.member("error"@) {
            Some(JsonValue::Object(fields)) => (
                match lookup(fields@, "message"@) {
                    Some(JsonValue::Str(m)) => m@,
                    _ => body,
                },
                match lookup(fields@, "code"@) {
                    Some(JsonValue::Str(c)) => Some(c@),
                    _ => None,
                },
            ),
            Some(JsonValue::Str(m)) => (m@, None),
            _ => match doc.member("detail"@) {
                Some(JsonValue::Str(d)) => (d@, None),
                _ => (body, None),
            },
        },
    }
}

/// The message and error code that an error response's body gives.
pub open spec fn error_details(body: Seq<char>) -> (Seq<char>, Option<Seq<char>>) {
    details_of(body, json_parse(body))
}

/// The error that a response with a status outside 200..300 gives.
pub open spec fn response_error(status: u16, body: Seq<char>) -> ErrorView {
    ErrorView {
        kind: kind_for_status(status),
        message: error_details(body).0,
        http_status: Some(status),
        http_body: Some(body),
        code: error_details(body).1,
    }
}

/// Whether a status code is a success (200..300).
pub open spec fn is_success(status: u16) -> bool {
    200 <= status < 300
}

/// Internal HTTP client for making API requests: the key, base URL and
/// timeout that every request is sent with.
pub struct HttpClient {
    api_key: String,
    base_url: String,
    timeout: Duration,
}

/// The key, base URL and timeout that an [`HttpClient`] sends requests with.
pub struct HttpClientView {
    pub api_key: Seq<char>,
    pub base_url: Seq<char>,
    pub timeout: Duration,
}

impl View for HttpClient {
    type V = HttpClientView;

    closed spec fn view(&self) -> HttpClientView {
        HttpClientView { api_key: self.api_key@, base_url: self.base_url@, timeout: self.timeout }
    }
}

/// Appends the parameters to `url` as `key=value` pairs joined by `&`.
fn append_query(url: &mut String, params: &Vec<(String, String)>)
    ensures
        final(url)@ == old(url)@ + query_string(params.deep_view()),
{
    let ghost head = url@;
    let ghost ps = params.deep_view();
    let n = params.len();
    let mut i: usize = 0;
    assert(ps.take(0) =~= Seq::<(Seq<char>, Seq<char>)>::empty());
    while i < n
        invariant
            n == params@.len(),
            ps == params.deep_view(),
            i <= n,
            url@ == head + query_string(ps.take(i as int)),
        decreases n - i,
    {
        if i > 0 {
            url.append("&");
        }
        url.append(params[i].0.as_str());
        url.append("=");
        url.append(params[i].1.as_str());
        proof {
            let t = ps.take(i + 1);
            assert(t.drop_last() =~= ps.take(i as int));
            assert(t.last() == ps[i as int]);
            assert(ps[i as int] == (params@[i as int].0@, params@[i as int].1@));
            assert(url@ =~= head + query_string(t));
        }
        i = i + 1;
    }
    assert(ps.take(n as int) =~= ps);
}

/// A header with an owned name and value.
fn header(name: &str, value: &str) -> (h: (String, String))
    ensures
        h.0@ == name@,
        h.1@ == value@,
{
    (name.to_owned(), value.to_owned())
}

impl HttpClient {
    /// Creates a client that authenticates with `api_key` and sends requests
    /// below `base_url`, whose trailing slashes are dropped.
    pub fn new(api_key: &str, base_url: &str, timeout: Duration) -> (c: Self)
        ensures
            c@ == (HttpClientView {
                api_key: api_key@,
                base_url: trim_trailing_slashes(base_url@),
                timeout,
            }),
    {
        HttpClient {
            api_key: api_key.to_owned(),
            base_url: trim_trailing_slashes_str(base_url),
            timeout,
        }
    }

    /// The API key sent in the `X-API-Key` header.
    pub fn api_key(&self) -> (k: &str)
        ensures
            k@ == self@.api_key,
    {
        self.api_key.as_str()
    }

    /// The base URL that request paths are appended to.
    pub fn base_url(&self) -> (u: &str)
        ensures
            u@ == self@.base_url,
    {
        self.base_url.as_str()
    }

    /// The timeout that each request is sent with.
    pub fn timeout(&self) -> (t: Duration)
        ensures
            t == self@.timeout,
    {
        self.timeout
    }

    /// Lays out a request to `path` (below the base URL) with the given options.
    pub fn prepare(&self, method: HttpMethod, path: &str, opts: Option<RequestOptions>) -> (r:
        PreparedRequest)
        requires
            options_params(opts) matches Some(ps) ==> distinct_keys(ps),
        ensures
            r@ == (RequestView {
                method,
                url: request_url(self@.base_url, path@, options_params(opts)),
                headers: request_headers(self@.api_key),
                json_body: options_body(opts),
            }),
    {
        let ghost params_view = options_params(opts);
        let mut url = self.base_url.clone();
        url.append(path);
        let json_body = match opts {
            Some(o) => {
                match &o.params {
                    Some(params) => {
                        if params.len() > 0 {
                            url.append("?");
                            append_query(&mut url, params);
                        }
                    },
                    None => {},
                }
                o.json_body
            },
            None => None,
        };
        let mut user_agent = "paylio-rust/".to_owned();
        user_agent.append(VERSION);
        let mut headers: Vec<(String, String)> = Vec::new();
        headers.push(header("X-API-Key", self.api_key.as_str()));
        headers.push(header("Content-Type", "application/json"));
        headers.push(header("Accept", "application/json"));
        headers.push(header("User-Agent", user_agent.as_str()));
        let r = PreparedRequest { method, url, headers, json_body };
        assert(r@.headers =~= request_headers(self@.api_key));
        assert(r@.url =~= request_url(self@.base_url, path@, params_view));
        r
    }

    /// What a response with `status` and `body` gives: on success the body,
    /// to be decoded by the caller; otherwise the error it describes.
    pub fn handle_response(&self, status: u16, body: String) -> (r: Result<String, PaylioError>)
        ensures
            (r is Ok) <==> (200 <= status && status < 300),
            is_success(status) ==> r == Ok::<String, PaylioError>(body),
            !is_success(status) ==> (r matches Err(e) && e@ == response_error(status, body@)),
    {
        if 200 <= status && status < 300 {
            Ok(body)
        } else {
            let (message, code) = parse_error_body(body.as_str());
            Err(error_for_status(status, message, Some(body), code))
        }
    }
}

/// The text of `v` where it is a JSON string.
fn string_member(v: Option<&JsonValue>) -> (r: Option<String>)
    ensures
        r.deep_view() == match v {
            Some(JsonValue::Str(s)) => Some(s@),
            _ => None,
        },
{
    match v {
        Some(v) => match v.as_str() {
            Some(s) => Some(s.to_owned()),
            None => None,
        },
        None => None,
    }
}

/// Reads the message and error code out of an error response's body, given
/// the body read as JSON.
pub fn error_details_from(body: &str, parsed: Option<&JsonValue>) -> (r: (String, Option<String>))
    ensures
        r.0@ == details_of(body@, match parsed {
            Some(doc) => Some(*doc),
            None => None,
        }).0,
        r.1.deep_view() == details_of(body@, match parsed {
            Some(doc) => Some(*doc),
            None => None,
        }).1,
{
    match parsed {
        Some(json) => {
            match json.get("error") {
                Some(error_obj) => {
                    if error_obj.is_object() {
                        // Format 1: {"error": {"code": "...", "message": "..."}}
                        let message = match string_member(error_obj.get("message")) {
                            Some(m) => m,
                            None => body.to_owned(),
                        };
                        let code = string_member(error_obj.get("code"));
                        return (message, code);
                    }
                    // Format 2: {"error": "string"}
                    match error_obj.as_str() {
                        Some(msg) => {
                            return (msg.to_owned(), None);
                        },
                        None => {},
                    }
                },
                None => {},
            }
            // Format 3: {"detail": "string"}
            match string_member(json.get("detail")) {
                Some(detail) => (detail, None),
                None => (body.to_owned(), None),
            }
        },
        None => (body.to_owned(), None),
    }
}

/// Reads the message and error code out of an error response's body.
pub fn parse_error_body(body: &str) -> (r: (String, Option<String>))
    ensures
        r.0@ == error_details(body@).0,
        r.1.deep_view() == error_details(body@).1,
{
    let parsed = parse_json(body);
    match &parsed {
        Some(doc) => error_details_from(body, Some(doc)),
        None => error_details_from(body, None),
    }
}

/// The error for a success response whose body does not decode.
pub fn invalid_json_response(status: u16, body: String) -> (e: PaylioError)
    ensures
        e@ == (ErrorView {
            kind: ErrorKind::Api,
            message: "Invalid JSON response: "@ + body@,
            http_status: Some(status),
            http_body: Some(body@),
            code: None,
        }),
{
    let mut message = "Invalid JSON response: ".to_owned();
    message.append(body.as_str());
    PaylioError::Api { message, http_status: Some(status), http_body: Some(body), code: None }
}

/// The error for a request that could not be sent, carrying the transport's
/// description of what went wrong.
pub fn connection_error(detail: String) -> (e: PaylioError)
    ensures
        e@ == local_error(ErrorKind::ApiConnection, detail@),
{
    PaylioError::ApiConnection { message: detail }
}

/// The error for a response whose body could not be read.
pub fn body_read_error(detail: &str) -> (e: PaylioError)
    ensures
        e@ == local_error(ErrorKind::ApiConnection, "Failed to read response body: "@ + detail@),
{
    let mut message = "Failed to read response body: ".to_owned();
    message.append(detail);
    PaylioError::ApiConnection { message }
}

/// A base URL with one more slash at its end gives the same request URL.
pub proof fn lemma_base_url_trailing_slash(
    base_url: Seq<char>,
    path: Seq<char>,
    params: Option<Seq<(Seq<char>, Seq<char>)>>,
)
    ensures
        request_url(trim_trailing_slashes(base_url.push('/')), path, params) == request_url(
            trim_trailing_slashes(base_url),
            path,
            params,
        ),
{
    lemma_trailing_slash_ignored(base_url);
}

/// The error for a response outside 200..300 keeps the response's status and
/// raw body, is never a connection error, and is a generic API error exactly
/// when the status is none of 400, 401, 404 and 429.
pub proof fn lemma_error_response_keeps_status_and_body(status: u16, body: Seq<char>)
    requires
        !is_success(status),
    ensures
        response_error(status, body).http_status == Some(status),
        response_error(status, body).http_body == Some(body),
        !(response_error(status, body).kind is ApiConnection),
        (response_error(status, body).kind is Api) <==> (status != 400 && status != 401 && status
            != 404 && status != 429),
{
}

/// An error response carries a code only where its body is a JSON object
/// whose `error` member is itself an object.
pub proof fn lemma_code_only_from_structured_error(body: Seq<char>)
    requires
        error_details(body).1 is Some,
    ensures
        json_parse(body) matches Some(doc) && doc.member("error"@) matches Some(
            JsonValue::Object(_),
        ),
{
}

/// A body that is not JSON is its own message, with no code.
pub proof fn lemma_unparsable_body_is_message(body: Seq<char>)
    requires
        json_parse(body) is None,
    ensures
        error_details(body) == (body, None::<Seq<char>>),
{
}

/// Exactly the statuses 200 through 299 are successes: a status below 200 or
/// from 300 up is an error, whatever its body.
pub proof fn lemma_success_is_exactly_2xx(status: u16)
    ensures
        is_success(status) <==> (200 <= status && status < 300),
        status >= 300 ==> !is_success(status),
        status < 200 ==> !is_success(status),
{
}

/// Whether `v` is present and a JSON object.
pub open spec fn holds_object(v: Option<JsonValue>) -> bool {
    v matches Some(JsonValue::Object(_))
}

/// Whether `v` is present and a JSON string.
pub open spec fn holds_str(v: Option<JsonValue>) -> bool {
    v matches Some(JsonValue::Str(_))
}

/// The code of an error response is the JSON string in the `code` member of
/// its `error` object, and nothing else: where that object has no string
/// `code` member, or the body is in another format, there is no code.
pub proof fn lemma_code_is_error_objects_code(body: Seq<char>, parsed: Option<JsonValue>)
    ensures
        details_of(body, parsed).1 matches Some(c) ==> (parsed matches Some(doc) && doc.member(
            "error"@,
        ) matches Some(JsonValue::Object(fields)) && lookup(fields@, "code"@) matches Some(
            JsonValue::Str(s),
        ) && s@ == c),
        parsed matches Some(doc) ==> (doc.member("error"@) matches Some(JsonValue::Object(fields))
            ==> (lookup(fields@, "code"@) matches Some(JsonValue::Str(s)) ==> details_of(
            body,
            parsed,
        ).1 == Some(s@))),
        parsed matches Some(doc) ==> (doc.member("error"@) matches Some(JsonValue::Object(fields))
            ==> (!holds_str(lookup(fields@, "code"@)) ==> details_of(body, parsed).1 is None)),
{
}

/// The message of an error response: the string `message` of an `error`
/// object (else the raw body), the string `error` itself, the string `detail`
/// where `error` is neither an object nor a string, and the raw body
/// otherwise, including where the body is not JSON.
pub proof fn lemma_message_by_format(body: Seq<char>, parsed: Option<JsonValue>)
    ensures
        parsed is None ==> details_of(body, parsed) == (body, None::<Seq<char>>),
        parsed matches Some(doc) ==> (doc.member("error"@) matches Some(JsonValue::Object(fields))
            ==> (lookup(fields@, "message"@) matches Some(JsonValue::Str(m)) ==> details_of(
            body,
            parsed,
        ).0 == m@)),
        parsed matches Some(doc) ==> (doc.member("error"@) matches Some(JsonValue::Object(fields))
            ==> (!holds_str(lookup(fields@, "message"@)) ==> details_of(body, parsed).0 == body)),
        parsed matches Some(doc) ==> (doc.member("error"@) matches Some(JsonValue::Str(m))
            ==> details_of(body, parsed) == (m@, None::<Seq<char>>)),
        parsed matches Some(doc) ==> (doc.member("detail"@) matches Some(JsonValue::Str(d)) ==> (
        !holds_object(doc.member("error"@)) && !holds_str(doc.member("error"@)) ==> details_of(
            body,
            parsed,
        ) == (d@, None::<Seq<char>>))),
        parsed matches Some(doc) ==> (!holds_object(doc.member("error"@)) && !holds_str(
            doc.member("error"@),
        ) && !holds_str(doc.member("detail"@)) ==> details_of(body, parsed) == (body, None::<
            Seq<char>,
        >)),
{
}

/// A request's URL starts with the base URL followed by the path, character
/// for character; without query parameters it is exactly that.
pub proof fn lemma_url_keeps_base_and_path(
    base_url: Seq<char>,
    path: Seq<char>,
    params: Option<Seq<(Seq<char>, Seq<char>)>>,
)
    ensures
        request_url(base_url, path, params).len() >= base_url.len() + path.len(),
        request_url(base_url, path, params).subrange(0, (base_url.len() + path.len()) as int) == base_url
            + path,
        forall|i: int|
            0 <= i < path.len() ==> #[trigger] request_url(base_url, path, params)[base_url.len()
                + i] == path[i],
        params is None ==> request_url(base_url, path, params) == base_url + path,
{
    let u = request_url(base_url, path, params);
    let bp = base_url + path;
    assert(u.subrange(0, bp.len() as int) =~= bp);
    assert forall|i: int| 0 <= i < path.len() implies #[trigger] u[base_url.len() + i]
        == path[i] by {
        assert(u[base_url.len() + i] == bp[base_url.len() + i]);
    }
}

/// Every request names four headers, each once: the API key it was given,
/// JSON as content type and as accepted type, and the SDK's user agent.
pub proof fn lemma_request_headers(api_key: Seq<char>)
    ensures
        request_headers(api_key).len() == 4,
        exists|i: int|
            0 <= i < 4 && #[trigger] request_headers(api_key)[i] == ("X-API-Key"@, api_key),
        exists|i: int|
            0 <= i < 4 && #[trigger] request_headers(api_key)[i] == (
                "User-Agent"@,
                "paylio-rust/"@ + VERSION@,
            ),
        exists|i: int|
            0 <= i < 4 && #[trigger] request_headers(api_key)[i] == (
                "Content-Type"@,
                "application/json"@,
            ),
        exists|i: int|
            0 <= i < 4 && #[trigger] request_headers(api_key)[i] == ("Accept"@, "application/json"@),
        distinct_keys(request_headers(api_key)),
{
    let h = request_headers(api_key);
    assert(h[0] == ("X-API-Key"@, api_key));
    assert(h[1] == ("Content-Type"@, "application/json"@));
    assert(h[2] == ("Accept"@, "application/json"@));
    assert(h[3] == ("User-Agent"@, "paylio-rust/"@ + VERSION@));
    reveal_strlit("X-API-Key");
    reveal_strlit("Content-Type");
    reveal_strlit("Accept");
    reveal_strlit("User-Agent");
    assert("X-API-Key"@.len() == 9);
    assert("Content-Type"@.len() == 12);
    assert("Accept"@.len() == 6);
    assert("User-Agent"@.len() == 10);
}

} // verus!
