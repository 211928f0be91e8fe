//! The subscription endpoints: which request each call sends, and the
//! checks made on its arguments before anything is sent.

use std::sync::Arc;

use vstd::prelude::*;

use crate::error::{local_error, ErrorKind, PaylioError};
use crate::http_client::{
    distinct_keys, query_string, request_headers, request_url, HttpClient, HttpClientView, HttpMethod, PreparedRequest,
    RequestOptions, RequestView,
};
use crate::json::JsonValue;
use crate::text::{decimal, decimal_string, trim, trim_str};

verus! {

/// Options for listing subscription history.
#[derive(Debug, Clone, Default)]
pub struct ListOptions {
    /// Page number (defaults to 1).
    pub page: Option<i64>,
    /// Number of items per page (defaults to 20).
    pub page_size: Option<i64>,
}

/// Options for canceling a subscription.
#[derive(Debug, Clone, Default)]
pub struct CancelOptions {
    /// If true, cancel immediately instead of at the end of the billing period.
    pub cancel_now: bool,
}

/// The page that a listing asks for.
pub open spec fn list_page(opts: Option<&ListOptions>) -> i64 {
    match opts {
        Some(o) => match o.page {
            Some(p) => p,
            None => 1,
        },
        None => 1,
    }
}

/// The page size that a listing asks for.
pub open spec fn list_page_size(opts: Option<&ListOptions>) -> i64 {
    match opts {
        Some(o) => match o.page_size {
            Some(s) => s,
            None => 20,
        },
        None => 20,
    }
}

/// The query parameters of a listing.
pub open spec fn list_params(page: i64, page_size: i64) -> Seq<(Seq<char>, Seq<char>)> {
    seq![("page"@, decimal(page as int)), ("page_size"@, decimal(page_size as int))]
}

/// A listing's two parameter names differ, so the query names each once.
pub proof fn lemma_list_params_distinct(page: i64, page_size: i64)
    ensures
        distinct_keys(list_params(page, page_size)),
{
    reveal_strlit("page");
    reveal_strlit("page_size");
    assert("page"@.len() != "page_size"@.len());
}

/// Whether a cancellation asks to cancel at the end of the billing period.
pub open spec fn cancel_at_period_end(opts: Option<&CancelOptions>) -> bool {
    match opts {
        Some(o) => !o.cancel_now,
        None => true,
    }
}

/// Whether `body` is the JSON object `{"cancel_at_period_end": at_period_end}`.
pub open spec fn is_cancel_body(body: JsonValue, at_period_end: bool) -> bool {
    &&& body matches JsonValue::Object(members)
    &&& members@.len() == 1
    &&& members@[0].0@ == "cancel_at_period_end"@
    &&& members@[0].1 == JsonValue::Bool(at_period_end)
}

/// Service for managing subscriptions.
pub struct SubscriptionService {
    client: Arc<HttpClient>,
}

impl View for SubscriptionService {
    type V = HttpClientView;

    closed spec fn view(&self) -> HttpClientView {
        self.client@
    }
}

impl SubscriptionService {
    pub(crate) fn new(client: Arc<HttpClient>) -> (s: Self)
        ensures
            s@ == client@,
    {
        SubscriptionService { client }
    }

    /// The HTTP client that the service's requests go through.
    pub fn http(&self) -> (c: &HttpClient)
        ensures
            c@ == self@,
    {
        &self.client
    }

    /// The request that retrieves the current subscription of a user.
    pub fn retrieve_request(&self, user_id: &str) -> (r: Result<PreparedRequest, PaylioError>)
        ensures
            trim(user_id@).len() == 0 ==> (r matches Err(e) && e@ == local_error(
                ErrorKind::InvalidRequest,
                "user_id must not be empty"@,
            )),
            trim(user_id@).len() > 0 ==> (r matches Ok(req) && req@ == (RequestView {
                method: HttpMethod::Get,
                url: request_url(self@.base_url, "/subscription/"@ + trim(user_id@), None),
                headers: request_headers(self@.api_key),
                json_body: None,
            })),
    {
        let trimmed = trim_str(user_id);
        if trimmed.is_empty() {
            return Err(
                PaylioError::InvalidRequest {
                    message: "user_id must not be empty".to_owned(),
                    http_status: None,
                    http_body: None,
                    code: None,
                },
            );
        }
        let mut path = "/subscription/".to_owned();
        path.append(trimmed);
        Ok(self.client.prepare(HttpMethod::Get, path.as_str(), None))
    }

    /// The request that lists the subscription history of a user, a page at a time.
    pub fn list_request(&self, user_id: &str, opts: Option<&ListOptions>) -> (r: Result<
        PreparedRequest,
        PaylioError,
    >)
        ensures
            trim(user_id@).len() == 0 ==> (r matches Err(e) && e@ == local_error(
                ErrorKind::InvalidRequest,
                "user_id must not be empty"@,
            )),
            trim(user_id@).len() > 0 ==> (r matches Ok(req) && req@ == (RequestView {
                method: HttpMethod::Get,
                url: request_url(
                    self@.base_url,
                    "/users/"@ + trim(user_id@) + "/subscriptions"@,
                    Some(list_params(list_page(opts), list_page_size(opts))),
                ),
                headers: request_headers(self@.api_key),
                json_body: None,
            })),
    {
        let trimmed = trim_str(user_id);
        if trimmed.is_empty() {
            return Err(
                PaylioError::InvalidRequest {
                    message: "user_id must not be empty".to_owned(),
                    http_status: None,
                    http_body: None,
                    code: None,
                },
            );
        }
        let page = match opts {
            Some(o) => match o.page {
                Some(p) => p,
                None => 1,
            },
            None => 1,
        };
        let page_size = match opts {
            Some(o) => match o.page_size {
                Some(s) => s,
                None => 20,
            },
            None => 20,
        };
        let mut params: Vec<(String, String)> = Vec::new();
        params.push(("page".to_owned(), decimal_string(page)));
        params.push(("page_size".to_owned(), decimal_string(page_size)));
        assert(params.deep_view() =~= list_params(page, page_size));
        proof {
            lemma_list_params_distinct(page, page_size);
        }
        let request_opts = RequestOptions { params: Some(params), json_body: None };
        let mut path = "/users/".to_owned();
        path.append(trimmed);
        path.append("/subscriptions");
        Ok(self.client.prepare(HttpMethod::Get, path.as_str(), Some(request_opts)))
    }

    /// The request that cancels a subscription, at the end of the billing
    /// period unless the options ask to cancel now.
    pub fn cancel_request(&self, subscription_id: &str, opts: Option<&CancelOptions>) -> (r:
        Result<PreparedRequest, PaylioError>)
        ensures
            trim(subscription_id@).len() == 0 ==> (r matches Err(e) && e@ == local_error(
                ErrorKind::InvalidRequest,
                "subscription_id must not be empty"@,
            )),
            trim(subscription_id@).len() > 0 ==> (r matches Ok(req) && req@.method
                == HttpMethod::Post && req@.url == request_url(
                self@.base_url,
                "/subscription/"@ + trim(subscription_id@) + "/cancel"@,
                None,
            ) && req@.headers == request_headers(self@.api_key) && (req@.json_body matches Some(
                body,
            ) && is_cancel_body(body, cancel_at_period_end(opts)))),
    {
        let trimmed = trim_str(subscription_id);
        if trimmed.is_empty() {
            return Err(
                PaylioError::InvalidRequest {
                    message: "subscription_id must not be empty".to_owned(),
                    http_status: None,
                    http_body: None,
                    code: None,
                },
            );
        }
        let at_period_end = match opts {
            Some(o) => !o.cancel_now,
            None => true,
        };
        let mut members: Vec<(String, JsonValue)> = Vec::new();
        members.push(("cancel_at_period_end".to_owned(), JsonValue::Bool(at_period_end)));
        let request_opts = RequestOptions {
            params: None,
            json_body: Some(JsonValue::Object(members)),
        };
        let mut path = "/subscription/".to_owned();
        path.append(trimmed);
        path.append("/cancel");
        Ok(self.client.prepare(HttpMethod::Post, path.as_str(), Some(request_opts)))
    }
}

/// Listing asks for the first page of twenty items unless told otherwise, and
/// canceling takes effect at the end of the billing period unless
/// `cancel_now` is set.
pub proof fn lemma_request_defaults(page: Option<i64>, page_size: Option<i64>, cancel_now: bool)
    ensures
        list_page(None) == 1,
        list_page_size(None) == 20,
        list_page(Some(&ListOptions { page, page_size })) == match page {
            Some(p) => p,
            None => 1,
        },
        list_page_size(Some(&ListOptions { page, page_size })) == match page_size {
            Some(s) => s,
            None => 20,
        },
        cancel_at_period_end(None),
        cancel_at_period_end(Some(&CancelOptions { cancel_now })) == !cancel_now,
{
}

/// A listing's query names the page and then the page size, each as the
/// decimal rendering of the number asked for.
pub proof fn lemma_list_query(page: i64, page_size: i64)
    ensures
        list_params(page, page_size).len() == 2,
        list_params(page, page_size)[0] == ("page"@, decimal(page as int)),
        list_params(page, page_size)[1] == ("page_size"@, decimal(page_size as int)),
        query_string(list_params(page, page_size)) == "page"@ + "="@ + decimal(page as int) + "&"@
            + "page_size"@ + "="@ + decimal(page_size as int),
{
    let ps = list_params(page, page_size);
    assert(ps.drop_last() =~= seq![("page"@, decimal(page as int))]);
    assert(query_string(ps.drop_last()) == "page"@ + "="@ + decimal(page as int));
}

} // verus!
