//! Resources returned by the API that hold no floating-point amounts.

use vstd::prelude::*;

verus! {

/// Subscription time period.
#[derive(Debug, Clone, PartialEq)]
pub struct Period {
    pub start: String,
    pub end: String,
}

/// Result of canceling a subscription.
#[derive(Debug, Clone, PartialEq)]
pub struct SubscriptionCancel {
    pub id: String,
    pub object: String,
    pub success: bool,
    pub cancel_at_period_end: bool,
}

/// A paginated list of items.
#[derive(Debug, Clone, PartialEq)]
pub struct PaginatedList<T> {
    pub items: Vec<T>,
    pub total: i64,
    pub page: i64,
    pub page_size: i64,
    pub total_pages: i64,
}

impl<T> PaginatedList<T> {
    /// Returns true if there are more pages after the current one.
    pub fn has_more(&self) -> (r: bool)
        ensures
            r == (self.page > 0 && self.page < self.total_pages),
    {
        self.page > 0 && self.page < self.total_pages
    }
}

} // verus!
