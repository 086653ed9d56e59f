//! The scrape endpoint: one route serving the whole registry.

use vstd::prelude::*;

use crate::registry::Registry;

use super::Endpoint;

verus! {

/// How one scrape request was answered: the HTTP status and the body.
#[derive(Debug)]
pub struct ScrapeReply {
    pub status: u16,
    pub body: String,
}

/// Answers one scrape from the outcome of serializing the registry: a
/// successful serialization is served as-is with status 200; a failed one
/// is answered 500 with a diagnostic naming the failure — never a partial
/// body. The service goes on either way.
pub fn metrics(serialized: Result<String, String>) -> (r: ScrapeReply)
    ensures
        match serialized {
            Ok(body) => r.status == 200 && r.body@ == body@,
            Err(reason) => r.status == 500 && r.body@ == "Could not collect metrics: "@
                + reason@,
        },
{
    match serialized {
        Ok(body) => ScrapeReply { status: 200, body },
        Err(reason) => {
            let mut body = String::from_str("Could not collect metrics: ");
            body.append(reason.as_str());
            ScrapeReply { status: 500, body }
        },
    }
}

impl Endpoint {
    /// The registry this endpoint serves.
    pub closed spec fn spec_registry(&self) -> Registry {
        self.registry
    }

    /// Creates the endpoint over the registry it will serve.
    pub fn new(registry: Registry) -> (r: Self)
        ensures
            r.spec_registry() == registry,
    {
        Self { registry }
    }

    /// The registry this endpoint serves.
    pub fn registry(&self) -> (r: &Registry)
        ensures
            *r == self.spec_registry(),
    {
        &self.registry
    }

    /// Route under which the endpoint is served.
    pub fn route() -> (r: &'static str)
        ensures
            r@ == "/metrics"@,
    {
        "/metrics"
    }
}

} // verus!
