//! Advanced query interface featuring filtering and polling options.
//!
//! * [`ElementPoller`] describes how attempts are scheduled, and
//!   [`ElementPollerTicker`] counts them out.
//! * [`conditions`] describes what can be asked of an element and settles
//!   what a reading means, failed reads included.
//! * [`ElementWaiter`] waits until all of its conditions hold on one element.
//! * [`ElementQuery`] looks for elements by several selectors, each with its
//!   filters, and takes the first selector that yields any.

pub mod conditions;
pub mod element_query;
pub mod element_waiter;
pub mod poller;

pub use conditions::ElementPredicate;
pub use conditions::StringMatch;
pub use element_query::ElementQuery;
pub use element_waiter::ElementWaiter;
pub use poller::ElementPoller;
pub use poller::ElementPollerTicker;
