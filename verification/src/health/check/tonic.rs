//! The upstream gRPC health indicator's identity and reply handling.

use vstd::prelude::*;

use super::Tonic;

verus! {

/// Serving status a gRPC health endpoint can report for a service.
#[derive(Clone, Copy, Debug, PartialEq, Eq, Structural)]
pub enum ServingStatus {
    Unknown,
    Serving,
    NotServing,
    ServiceUnknown,
}

/// Wire name of a serving status, as the health protocol spells it.
pub open spec fn spec_status_name(status: ServingStatus) -> Seq<char> {
    match status {
        ServingStatus::Unknown => "UNKNOWN"@,
        ServingStatus::Serving => "SERVING"@,
        ServingStatus::NotServing => "NOT_SERVING"@,
        ServingStatus::ServiceUnknown => "SERVICE_UNKNOWN"@,
    }
}

/// Reason reported when the remote health endpoint answers with a status
/// other than serving.
pub open spec fn spec_status_reason(status: ServingStatus) -> Seq<char> {
    "grpc health check returned status "@ + spec_status_name(status)
}

impl ServingStatus {
    /// Wire name of this status, as the health protocol spells it.
    pub fn as_str_name(&self) -> (r: &'static str)
        ensures
            r@ == spec_status_name(*self),
    {
        match self {
            ServingStatus::Unknown => "UNKNOWN",
            ServingStatus::Serving => "SERVING",
            ServingStatus::NotServing => "NOT_SERVING",
            ServingStatus::ServiceUnknown => "SERVICE_UNKNOWN",
        }
    }
}

impl Tonic {
    /// The name this indicator reports under.
    pub closed spec fn spec_name(&self) -> Seq<char> {
        self.name@
    }

    /// The service whose serving status is asked about.
    pub closed spec fn spec_service(&self) -> Seq<char> {
        self.service@
    }

    /// Creates an upstream health indicator asking about `service`.
    pub fn new(name: String, service: String) -> (r: Self)
        ensures
            r.spec_name() == name@,
            r.spec_service() == service@,
    {
        Self { name, service }
    }

    /// The name this indicator reports under.
    pub fn name(&self) -> (r: &str)
        ensures
            r@ == self.spec_name(),
    {
        self.name.as_str()
    }

    /// The service whose serving status is asked about.
    pub fn service(&self) -> (r: &str)
        ensures
            r@ == self.spec_service(),
    {
        self.service.as_str()
    }

    /// Interprets the remote reply: a serving answer is healthy; any other
    /// answer is the reason named after its wire status; a transport
    /// failure, already described by the caller, is passed through as the
    /// reason.
    pub fn interpret(reply: Result<ServingStatus, String>) -> (r: Result<(), String>)
        ensures
            match reply {
                Ok(status) => if status is Serving {
                    r is Ok
                } else {
                    r matches Err(m) && m@ == spec_status_reason(status)
                },
                Err(m) => r == Err::<(), String>(m),
            },
    {
        match reply {
            Ok(ServingStatus::Serving) => Ok(()),
            Ok(status) => {
                let mut reason = String::from_str("grpc health check returned status ");
                reason.append(status.as_str_name());
                Err(reason)
            },
            Err(m) => Err(m),
        }
    }
}

impl Clone for Tonic {
    /// Clones the indicator; the copy reports under the same name and asks
    /// about the same service.
    fn clone(&self) -> (r: Self)
        ensures
            r.spec_name() == self.spec_name(),
            r.spec_service() == self.spec_service(),
    {
        Self { name: self.name.clone(), service: self.service.clone() }
    }
}

} // verus!
