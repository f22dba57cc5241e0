//! The settings that a session carries for its waits and queries.

use vstd::prelude::*;
use crate::query::element_query::{ElementQuery, QueryView, SelectorView};
use crate::query::element_waiter::{ElementWaiter, WaiterView};
use crate::query::poller::ElementPoller;

verus! {

/// The settings of a session. Waits and queries that are made for the
/// session start out with its poller.
#[derive(Debug, Clone, Copy, PartialEq, Eq)]
pub struct WebDriverConfig {
    pub query_poller: ElementPoller,
}

impl WebDriverConfig {
    /// The settings of a new session: the default poller.
    pub fn new() -> (config: Self)
        ensures
            config.query_poller == ElementPoller::TimeoutWithInterval(20_000_000_000, 500_000_000),
    {
        Self { query_poller: ElementPoller::default() }
    }

    /// Set the default poller of the waits and queries made from now on.
    pub fn set_query_poller(&mut self, poller: ElementPoller)
        ensures
            final(self).query_poller == poller,
    {
        self.query_poller = poller;
    }

    /// A waiter with the poller of the session.
    pub fn wait_until(&self) -> (waiter: ElementWaiter)
        ensures
            waiter@ == (WaiterView {
                poller: self.query_poller,
                message: Seq::empty(),
                ignore_errors: true,
            }),
    {
        ElementWaiter::new(self.query_poller)
    }

    /// A query for the selector `by` with the poller of the session.
    pub fn query(&self, by: String) -> (query: ElementQuery)
        ensures
            query@ == (QueryView {
                poller: self.query_poller,
                selectors: seq![SelectorView { by, filters: Seq::empty() }],
                ignore_errors: true,
                description: Seq::empty(),
            }),
    {
        ElementQuery::new(self.query_poller, by)
    }
}

} // verus!
