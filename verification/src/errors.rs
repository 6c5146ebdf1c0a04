//! The failures a balancer reports to its caller.

use crate::internal::discovery::Service;
use vstd::prelude::*;
use vstd::string::StringExecFns;

verus! {

/// Why a balancer could not answer. Every failure is local to one call.
#[derive(Clone, Copy, Debug, PartialEq, Eq, Structural)]
pub enum Error {
    /// The current topology has no entry for the service.
    UnknownService(Service),
    /// The service is registered, but its list of endpoints is empty.
    EmptyEndpointList(Service),
    /// The balancer has no topology that could be replaced.
    UnsupportedUpdate,
    /// The lock that guards a shared balancer is poisoned.
    AccessFailure,
}

impl Error {
    /// The text of `message`.
    pub open spec fn message_text(self) -> Seq<char> {
        match self {
            Error::UnknownService(service) => "no endpoints for service: '"@ + service.name_text()
                + "'"@,
            Error::EmptyEndpointList(service) => "empty endpoint list for service: "@
                + service.name_text(),
            Error::UnsupportedUpdate => "static balancer no way to update state"@,
            Error::AccessFailure => "poisoned lock: another task failed inside"@,
        }
    }

    /// A description for logs; it names the service where one is involved.
    pub fn message(&self) -> (text: String)
        ensures
            text@ == self.message_text(),
    {
        match self {
            Error::UnknownService(service) => {
                let text = String::from_str("no endpoints for service: '");
                text.concat(service.name()).concat("'")
            },
            Error::EmptyEndpointList(service) => {
                let text = String::from_str("empty endpoint list for service: ");
                text.concat(service.name())
            },
            Error::UnsupportedUpdate => String::from_str("static balancer no way to update state"),
            Error::AccessFailure => String::from_str("poisoned lock: another task failed inside"),
        }
    }
}

} // verus!
