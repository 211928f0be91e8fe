//! Client library for the Paylio subscription API.
//!
//! The library decides everything about a call: which request it sends
//! (URL, query string, headers, JSON body), which arguments are refused
//! before anything is sent, and what a response turns into. Sending a
//! prepared request and reading the reply is left to the caller.

pub mod client;
pub mod error;
pub mod http_client;
pub mod json;
pub mod resources;
pub mod subscription;
pub mod text;
pub mod version;

pub use client::{Client, ClientBuilder};
pub use error::PaylioError;
pub use resources::{PaginatedList, Period, SubscriptionCancel};
pub use subscription::{CancelOptions, ListOptions, SubscriptionService};
