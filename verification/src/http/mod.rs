//! What a connection to the WebDriver server is made from.

pub mod connection_sync;
pub mod nulldriver_sync;
pub mod reqwest_sync;
