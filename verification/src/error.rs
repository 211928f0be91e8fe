//! Errors returned by the SDK, one variant per category of failure.

use vstd::prelude::*;

verus! {

/// Error types returned by the Paylio SDK.
///
/// Each variant corresponds to a specific category of API error,
/// mapped from HTTP status codes.
#[derive(Debug, Clone)]
pub enum PaylioError {
    /// Invalid or missing API key (HTTP 401).
    Authentication {
        message: String,
        http_status: Option<u16>,
        http_body: Option<String>,
        code: Option<String>,
    },
    /// Bad request parameters (HTTP 400).
    InvalidRequest {
        message: String,
        http_status: Option<u16>,
        http_body: Option<String>,
        code: Option<String>,
    },
    /// Resource not found (HTTP 404).
    NotFound {
        message: String,
        http_status: Option<u16>,
        http_body: Option<String>,
        code: Option<String>,
    },
    /// Rate limit exceeded (HTTP 429).
    RateLimit {
        message: String,
        http_status: Option<u16>,
        http_body: Option<String>,
        code: Option<String>,
    },
    /// Generic API error (HTTP 5xx or unrecognized status).
    Api {
        message: String,
        http_status: Option<u16>,
        http_body: Option<String>,
        code: Option<String>,
    },
    /// Network or connection error (timeout, DNS failure, etc.).
    ApiConnection { message: String },
}

/// The category of a [`PaylioError`].
pub enum ErrorKind {
    Authentication,
    InvalidRequest,
    NotFound,
    RateLimit,
    Api,
    ApiConnection,
}

/// What an error carries, with its strings taken as character sequences.
pub struct ErrorView {
    pub kind: ErrorKind,
    pub message: Seq<char>,
    pub http_status: Option<u16>,
    pub http_body: Option<Seq<char>>,
    pub code: Option<Seq<char>>,
}

impl View for PaylioError {
    type V = ErrorView;

    open spec fn view(&self) -> ErrorView {
        match self {
            PaylioError::Authentication { message, http_status, http_body, code } => ErrorView {
                kind: ErrorKind::Authentication,
                message: message@,
                http_status: *http_status,
                http_body: http_body.deep_view(),
                code: code.deep_view(),
            },
            PaylioError::InvalidRequest { message, http_status, http_body, code } => ErrorView {
                kind: ErrorKind::InvalidRequest,
                message: message@,
                http_status: *http_status,
                http_body: http_body.deep_view(),
                code: code.deep_view(),
            },
            PaylioError::NotFound { message, http_status, http_body, code } => ErrorView {
                kind: ErrorKind::NotFound,
                message: message@,
                http_status: *http_status,
                http_body: http_body.deep_view(),
                code: code.deep_view(),
            },
            PaylioError::RateLimit { message, http_status, http_body, code } => ErrorView {
                kind: ErrorKind::RateLimit,
                message: message@,
                http_status: *http_status,
                http_body: http_body.deep_view(),
                code: code.deep_view(),
            },
            PaylioError::Api { message, http_status, http_body, code } => ErrorView {
                kind: ErrorKind::Api,
                message: message@,
                http_status: *http_status,
                http_body: http_body.deep_view(),
                code: code.deep_view(),
            },
            PaylioError::ApiConnection { message } => ErrorView {
                kind: ErrorKind::ApiConnection,
                message: message@,
                http_status: None,
                http_body: None,
                code: None,
            },
        }
    }
}

/// The category that an HTTP status code maps to.
pub open spec fn kind_for_status(status: u16) -> ErrorKind {
    if status == 401 {
        ErrorKind::Authentication
    } else if status == 400 {
        ErrorKind::InvalidRequest
    } else if status == 404 {
        ErrorKind::NotFound
    } else if status == 429 {
        ErrorKind::RateLimit
    } else {
        ErrorKind::Api
    }
}

/// The view of an error raised before any request is sent: no status, body or code.
pub open spec fn local_error(kind: ErrorKind, message: Seq<char>) -> ErrorView {
    ErrorView { kind, message, http_status: None, http_body: None, code: None }
}

/// `Some(s@)` for `Some(s)`.
pub open spec fn opt_str_view(s: Option<&str>) -> Option<Seq<char>> {
    match s {
        Some(s) => Some(s@),
        None => None,
    }
}

fn opt_as_str(s: &Option<String>) -> (r: Option<&str>)
    ensures
        opt_str_view(r) == s.deep_view(),
{
    match s {
        Some(s) => Some(s.as_str()),
        None => None,
    }
}

impl PaylioError {
    /// Returns the error message.
    pub fn message(&self) -> (m: &str)
        ensures
            m@ == self@.message,
    {
        match self {
            PaylioError::Authentication { message, .. } => message.as_str(),
            PaylioError::InvalidRequest { message, .. } => message.as_str(),
            PaylioError::NotFound { message, .. } => message.as_str(),
            PaylioError::RateLimit { message, .. } => message.as_str(),
            PaylioError::Api { message, .. } => message.as_str(),
            PaylioError::ApiConnection { message } => message.as_str(),
        }
    }

    /// Returns the error message as an owned string (what the error displays as).
    pub fn to_string(&self) -> (s: String)
        ensures
            s@ == self@.message,
    {
        self.message().to_owned()
    }

    /// Returns the HTTP status code, if available.
    pub fn http_status(&self) -> (s: Option<u16>)
        ensures
            s == self@.http_status,
    {
        match self {
            PaylioError::Authentication { http_status, .. } => *http_status,
            PaylioError::InvalidRequest { http_status, .. } => *http_status,
            PaylioError::NotFound { http_status, .. } => *http_status,
            PaylioError::RateLimit { http_status, .. } => *http_status,
            PaylioError::Api { http_status, .. } => *http_status,
            PaylioError::ApiConnection { .. } => None,
        }
    }

    /// Returns the raw HTTP response body, if available.
    pub fn http_body(&self) -> (b: Option<&str>)
        ensures
            opt_str_view(b) == self@.http_body,
    {
        match self {
            PaylioError::Authentication { http_body, .. } => opt_as_str(http_body),
            PaylioError::InvalidRequest { http_body, .. } => opt_as_str(http_body),
            PaylioError::NotFound { http_body, .. } => opt_as_str(http_body),
            PaylioError::RateLimit { http_body, .. } => opt_as_str(http_body),
            PaylioError::Api { http_body, .. } => opt_as_str(http_body),
            PaylioError::ApiConnection { .. } => None,
        }
    }

    /// Returns the error code from the API response, if available.
    pub fn code(&self) -> (c: Option<&str>)
        ensures
            opt_str_view(c) == self@.code,
    {
        match self {
            PaylioError::Authentication { code, .. } => opt_as_str(code),
            PaylioError::InvalidRequest { code, .. } => opt_as_str(code),
            PaylioError::NotFound { code, .. } => opt_as_str(code),
            PaylioError::RateLimit { code, .. } => opt_as_str(code),
            PaylioError::Api { code, .. } => opt_as_str(code),
            PaylioError::ApiConnection { .. } => None,
        }
    }

    pub fn is_authentication(&self) -> (r: bool)
        ensures
            r == (self@.kind is Authentication),
    {
        match self {
            PaylioError::Authentication { .. } => true,
            _ => false,
        }
    }

    pub fn is_invalid_request(&self) -> (r: bool)
        ensures
            r == (self@.kind is InvalidRequest),
    {
        match self {
            PaylioError::InvalidRequest { .. } => true,
            _ => false,
        }
    }

    pub fn is_not_found(&self) -> (r: bool)
        ensures
            r == (self@.kind is NotFound),
    {
        match self {
            PaylioError::NotFound { .. } => true,
            _ => false,
        }
    }

    pub fn is_rate_limit(&self) -> (r: bool)
        ensures
            r == (self@.kind is RateLimit),
    {
        match self {
            PaylioError::RateLimit { .. } => true,
            _ => false,
        }
    }

    pub fn is_api(&self) -> (r: bool)
        ensures
            r == (self@.kind is Api),
    {
        match self {
            PaylioError::Api { .. } => true,
            _ => false,
        }
    }

    pub fn is_api_connection(&self) -> (r: bool)
        ensures
            r == (self@.kind is ApiConnection),
    {
        match self {
            PaylioError::ApiConnection { .. } => true,
            _ => false,
        }
    }
}

/// Maps an HTTP status code to the appropriate error variant.
pub fn error_for_status(
    status: u16,
    message: String,
    http_body: Option<String>,
    code: Option<String>,
) -> (e: PaylioError)
    ensures
        e@ == (ErrorView {
            kind: kind_for_status(status),
            message: message@,
            http_status: Some(status),
            http_body: http_body.deep_view(),
            code: code.deep_view(),
        }),
{
    let http_status = Some(status);
    match status {
        401 => PaylioError::Authentication { message, http_status, http_body, code },
        400 => PaylioError::InvalidRequest { message, http_status, http_body, code },
        404 => PaylioError::NotFound { message, http_status, http_body, code },
        429 => PaylioError::RateLimit { message, http_status, http_body, code },
        _ => PaylioError::Api { message, http_status, http_body, code },
    }
}

/// Every error falls in exactly one category, so exactly one of the `is_*`
/// predicates holds of it.
pub proof fn lemma_exactly_one_category(e: PaylioError)
    ensures
        (e@.kind is Authentication) as int + (e@.kind is InvalidRequest) as int + (
        e@.kind is NotFound) as int + (e@.kind is RateLimit) as int + (e@.kind is Api) as int + (
        e@.kind is ApiConnection) as int == 1,
{
}

/// A connection error carries no HTTP status, body or code.
pub proof fn lemma_connection_error_has_no_http_details(e: PaylioError)
    requires
        e@.kind is ApiConnection,
    ensures
        e@.http_status is None,
        e@.http_body is None,
        e@.code is None,
{
}

/// Each HTTP status maps to one category: 401 alone to Authentication, 400
/// alone to InvalidRequest, 404 alone to NotFound, 429 alone to RateLimit,
/// every other status to a generic API error, and none to a connection error.
pub proof fn lemma_status_kinds(status: u16)
    ensures
        (kind_for_status(status) is Authentication) <==> status == 401,
        (kind_for_status(status) is InvalidRequest) <==> status == 400,
        (kind_for_status(status) is NotFound) <==> status == 404,
        (kind_for_status(status) is RateLimit) <==> status == 429,
        !(kind_for_status(status) is ApiConnection),
        (kind_for_status(status) is Api) <==> (status != 401 && status != 400 && status != 404
            && status != 429),
{
}

} // verus!
