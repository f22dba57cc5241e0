//! Polling and conditional-query engine for driving a remote browser session.
//!
//! The remote session changes on a timeline the client does not control, so every
//! wait and every query is a loop: evaluate, and if that was not enough, ask the
//! poller whether another attempt is due. This crate holds the decisions of that
//! loop as verified state machines. A caller performs what a machine asks for (a
//! remote read, a lookup, a sleep) and hands back what it observed; the machine
//! says what to do next and, in the end, what the outcome is.
//!
//! * [`query`] holds the pollers, the conditions on an element, the waits on
//!   one element and the queries over several selectors.
//! * [`session`] holds the settings that waits and queries start out with.
//! * [`components`], [`webelement`], [`webdrivercommands`] and [`http`] hold
//!   the smaller decisions of a WebDriver client: how a list of options is
//!   gone through, how a text is quoted in a selector, what a reply of the
//!   server means, which window is new.
//! * [`strings`] states what is assumed of the strings of the standard library.

pub mod components;
pub mod http;
pub mod query;
pub mod session;
pub mod strings;
pub mod webdrivercommands;
pub mod webelement;
