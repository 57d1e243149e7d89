//! What the adapter reads of a response that the pipeline produced.

use vstd::prelude::*;

verus! {

/// iron's `Response`. The library reads its status and nothing else, and
/// never changes it.
#[verifier::external_type_specification]
#[verifier::external_body]
pub struct ExResponse(iron::Response);

/// iron's `IronError`, with which a handler fails. The library hands it on
/// and looks at nothing in it.
#[verifier::external_type_specification]
#[verifier::external_body]
pub struct ExIronError(iron::IronError);

/// The status of a response, as far as the adapter tells statuses apart.
#[derive(Clone, Copy, Debug, PartialEq, Eq, Structural)]
pub enum ResponseStatus {
    /// No status has been set.
    Unset,
    /// The status is `Unauthorized`.
    Unauthorized,
    /// Any other status.
    Other,
}

/// The status that `response` carries: the case of the field `status` of
/// iron's `Response`, as `read_status` reads it.
pub uninterp spec fn status_of(response: iron::Response) -> ResponseStatus;

/// Reads the public field `status` of iron's `Response`, an
/// `Option<hyper::status::StatusCode>`, and tells its cases apart: `None`,
/// the variant `Unauthorized`, every other variant. The contract names the
/// result and claims no more than that it depends on the response alone.
#[verifier::external_body]
pub(crate) fn read_status(response: &iron::Response) -> (status: ResponseStatus)
    ensures
        status == status_of(*response),
{
    match response.status {
        None => ResponseStatus::Unset,
        Some(iron::status::Status::Unauthorized) => ResponseStatus::Unauthorized,
        Some(_) => ResponseStatus::Other,
    }
}

} // verus!
