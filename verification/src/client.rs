//! The client and its builder: configuration checked before any request.

use std::sync::Arc;
use std::time::Duration;

use vstd::prelude::*;

use crate::error::{local_error, ErrorKind, PaylioError};
use crate::http_client::{HttpClient, HttpClientView, DEFAULT_BASE_URL, DEFAULT_TIMEOUT_SECS};
use crate::subscription::SubscriptionService;
use crate::text::{
    is_white_space, lemma_trim_cuts_outer_whitespace, lemma_trim_idempotent, trim, trim_str,
    trim_trailing_slashes,
};

verus! {

/// A client for the Paylio API.
pub struct Client {
    subscriptions: SubscriptionService,
}

impl View for Client {
    type V = HttpClientView;

    closed spec fn view(&self) -> HttpClientView {
        self.subscriptions@
    }
}

/// Builder for configuring a [`Client`].
pub struct ClientBuilder {
    api_key: String,
    base_url: String,
    timeout: Option<Duration>,
}

/// A builder's settings; a timeout of `None` stands for the default one.
pub struct ClientBuilderView {
    pub api_key: Seq<char>,
    pub base_url: Seq<char>,
    pub timeout: Option<Duration>,
}

impl View for ClientBuilder {
    type V = ClientBuilderView;

    closed spec fn view(&self) -> ClientBuilderView {
        ClientBuilderView { api_key: self.api_key@, base_url: self.base_url@, timeout: self.timeout }
    }
}

/// What building a client from `api_key` and `base_url` gives: an
/// authentication error where the key is blank, otherwise a client that
/// sends the trimmed key to the base URL without its trailing slashes, with
/// the builder's timeout where it has one and the default of
/// [`DEFAULT_TIMEOUT_SECS`] seconds otherwise.
pub open spec fn build_outcome(
    r: Result<Client, PaylioError>,
    api_key: Seq<char>,
    base_url: Seq<char>,
    timeout: Option<Duration>,
) -> bool {
    if trim(api_key).len() == 0 {
        r matches Err(e) && e@ == local_error(ErrorKind::Authentication, "API key must not be empty"@)
    } else {
        r matches Ok(c) && c@.api_key == trim(api_key) && c@.base_url == trim_trailing_slashes(
            base_url,
        ) && c@.timeout == match timeout {
            Some(t) => t,
            None => duration_of_secs(DEFAULT_TIMEOUT_SECS),
        }
    }
}

/// The duration of `secs` seconds that `std::time::Duration::from_secs` gives.
pub uninterp spec fn duration_of_secs(secs: u64) -> Duration;

/// A duration of `secs` seconds (`std::time::Duration::from_secs`). Claims
/// only that the result is a function of `secs` (named [`duration_of_secs`]).
#[verifier::external_body]
fn duration_from_secs(secs: u64) -> (d: Duration)
    ensures
        d == duration_of_secs(secs),
{
    Duration::from_secs(secs)
}

impl Client {
    /// Create a new client with the given API key and default settings.
    pub fn new(api_key: &str) -> (r: Result<Self, PaylioError>)
        ensures
            build_outcome(r, api_key@, DEFAULT_BASE_URL@, None),
    {
        ClientBuilder::new(api_key).build()
    }

    /// Create a builder for more advanced configuration.
    pub fn builder(api_key: &str) -> (b: ClientBuilder)
        ensures
            b@ == (ClientBuilderView { api_key: api_key@, base_url: DEFAULT_BASE_URL@, timeout: None }),
    {
        ClientBuilder::new(api_key)
    }

    /// Access the subscription service.
    pub fn subscriptions(&self) -> (s: &SubscriptionService)
        ensures
            s@ == self@,
    {
        &self.subscriptions
    }
}

impl ClientBuilder {
    pub(crate) fn new(api_key: &str) -> (b: Self)
        ensures
            b@ == (ClientBuilderView { api_key: api_key@, base_url: DEFAULT_BASE_URL@, timeout: None }),
    {
        ClientBuilder { api_key: api_key.to_owned(), base_url: DEFAULT_BASE_URL.to_owned(), timeout: None }
    }

    /// Set a custom base URL (e.g., for testing).
    pub fn base_url(self, url: &str) -> (b: Self)
        ensures
            b@ == (ClientBuilderView { base_url: url@, ..self@ }),
    {
        ClientBuilder { base_url: url.to_owned(), ..self }
    }

    /// Set a custom request timeout.
    pub fn timeout(self, timeout: Duration) -> (b: Self)
        ensures
            b@ == (ClientBuilderView { timeout: Some(timeout), ..self@ }),
    {
        ClientBuilder { timeout: Some(timeout), ..self }
    }

    /// Build the client.
    pub fn build(self) -> (r: Result<Client, PaylioError>)
        ensures
            build_outcome(r, self@.api_key, self@.base_url, self@.timeout),
    {
        let trimmed = trim_str(self.api_key.as_str());
        if trimmed.is_empty() {
            return Err(
                PaylioError::Authentication {
                    message: "API key must not be empty".to_owned(),
                    http_status: None,
                    http_body: None,
                    code: None,
                },
            );
        }
        let timeout = match self.timeout {
            Some(t) => t,
            None => duration_from_secs(DEFAULT_TIMEOUT_SECS),
        };
        let http = Arc::new(HttpClient::new(trimmed, self.base_url.as_str(), timeout));
        let subscriptions = SubscriptionService::new(http);
        Ok(Client { subscriptions })
    }
}

/// Whitespace around an API key changes nothing: building with the key and
/// building with its trimmed form succeed or fail together, giving clients
/// with the same key, base URL and timeout, or the same error.
pub proof fn lemma_key_padding_ignored(
    api_key: Seq<char>,
    base_url: Seq<char>,
    timeout: Option<Duration>,
    padded: Result<Client, PaylioError>,
    trimmed: Result<Client, PaylioError>,
)
    requires
        build_outcome(padded, api_key, base_url, timeout),
        build_outcome(trimmed, trim(api_key), base_url, timeout),
    ensures
        (padded is Ok) == (trimmed is Ok),
        padded matches Ok(a) ==> (trimmed matches Ok(b) && a@ == b@),
        padded matches Err(a) ==> (trimmed matches Err(b) && a@ == b@),
{
    lemma_trim_idempotent(api_key);
}

/// Building refuses a key exactly when it is blank (empty or all
/// whitespace), with an authentication error that carries no HTTP details;
/// any other key gives a client that sends the key without its surrounding
/// whitespace, to the base URL without its trailing slashes.
pub proof fn lemma_build_refuses_only_blank_keys(
    r: Result<Client, PaylioError>,
    api_key: Seq<char>,
    base_url: Seq<char>,
    timeout: Option<Duration>,
)
    requires
        build_outcome(r, api_key, base_url, timeout),
    ensures
        (r is Err) <==> forall|k: int| 0 <= k < api_key.len() ==> is_white_space(#[trigger] api_key[k]),
        r matches Ok(c) ==> c@.api_key == trim(api_key) && c@.base_url == trim_trailing_slashes(
            base_url,
        ),
        r matches Err(e) ==> (e@.kind is Authentication) && e@.http_status is None,
{
    lemma_trim_cuts_outer_whitespace(api_key);
}

} // verus!
