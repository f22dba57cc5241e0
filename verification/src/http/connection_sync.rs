//! Parameters of a connection.

use vstd::prelude::*;

verus! {

/// What a client is created from: the address of the WebDriver server and, if
/// one is wanted, the timeout of a single request.
#[derive(Debug, Clone)]
pub struct HttpClientCreateParams {
    pub server_url: String,
    pub timeout: Option<core::time::Duration>,
}

} // verus!
