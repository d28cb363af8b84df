//! The one failure the harness reports.

use vstd::prelude::*;
use vstd::string::StringExecFns;

verus! {

/// A dispatch that could not be completed, with the cause in words. A
/// response with an error status is not one of these.
#[derive(Clone, Debug, PartialEq, Eq)]
pub struct DispatchError {
    pub cause: String,
}

impl View for DispatchError {
    type V = Seq<char>;

    open spec fn view(&self) -> Seq<char> {
        self.cause@
    }
}

/// The cause reported when the service's call did not complete; `detail` is
/// the service's own description of its error.
pub open spec fn invocation_cause(detail: Seq<char>) -> Seq<char> {
    "call_service_res failed: "@ + detail
}

/// The cause reported when the payload could not be serialized; `detail` is
/// the serializer's description of its error.
pub open spec fn serialization_cause(detail: Seq<char>) -> Seq<char> {
    "Failed to serialize test data to json: "@ + detail
}

impl DispatchError {
    /// The service's call failed with `detail`.
    pub fn invocation(detail: &str) -> (err: DispatchError)
        ensures
            err@ == invocation_cause(detail@),
    {
        DispatchError { cause: String::from_str("call_service_res failed: ").concat(detail) }
    }

    /// The payload could not be serialized, for the reason `detail`.
    pub fn serialization(detail: &str) -> (err: DispatchError)
        ensures
            err@ == serialization_cause(detail@),
    {
        DispatchError {
            cause: String::from_str("Failed to serialize test data to json: ").concat(detail),
        }
    }

    /// The cause as text.
    pub fn message(&self) -> (text: String)
        ensures
            text@ == self@,
    {
        self.cause.clone()
    }
}

} // verus!
