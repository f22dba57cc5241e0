//! A driver that talks to nothing.

use vstd::prelude::*;
use crate::http::connection_sync::HttpClientCreateParams;

verus! {

/// Null driver that satisfies the build but does nothing: it keeps the address
/// it was created for and sends no request.
#[derive(Debug)]
pub struct NullDriverSync {
    url: String,
}

impl NullDriverSync {
    /// The driver for the server that `params` names.
    pub fn create(params: HttpClientCreateParams) -> (driver: Self)
        ensures
            driver.spec_url() == params.server_url@,
    {
        NullDriverSync { url: params.server_url }
    }

    /// The address the driver was created for.
    pub closed spec fn spec_url(&self) -> Seq<char> {
        self.url@
    }

    /// The address the driver was created for.
    pub fn url(&self) -> (url: &str)
        ensures
            url@ == self.spec_url(),
    {
        self.url.as_str()
    }
}

} // verus!
