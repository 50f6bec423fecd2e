//! The persistence sink as the consumer loop sees it: the outcome of one
//! forward call, the success test on its status, and the error lines the
//! relay logs about it.

use vstd::prelude::*;
use vstd::string::*;
use crate::text::{spec_digits, u16_digits};

verus! {

/// Outcome of one forward call to the persistence sink: either the call
/// reached the server and came back with an HTTP-style status and body, or
/// the transport itself failed and carries a description of the failure.
pub enum SinkResponse {
    Reached { status: u16, body: String },
    TransportError { detail: String },
}

/// Mathematical model of a [`SinkResponse`].
pub enum ResponseModel {
    Reached { status: u16, body: Seq<char> },
    TransportError { detail: Seq<char> },
}

impl View for SinkResponse {
    type V = ResponseModel;

    open spec fn view(&self) -> ResponseModel {
        match self {
            SinkResponse::Reached { status, body } => ResponseModel::Reached {
                status: *status,
                body: body@,
            },
            SinkResponse::TransportError { detail } => ResponseModel::TransportError {
                detail: detail@,
            },
        }
    }
}

/// An HTTP-style status counts as success exactly when it lies in the 2xx range.
pub open spec fn status_is_success(status: u16) -> bool {
    200 <= status < 300
}

/// Tests whether a sink status is a success, as [`status_is_success`] defines it.
pub fn is_success_status(status: u16) -> (r: bool)
    ensures
        r == status_is_success(status),
{
    200 <= status && status < 300
}

/// The line logged when the sink completes a forward call with a
/// non-success status: it names the status and carries the response body.
pub fn status_error_line(status: u16, body: &str) -> (r: String)
    ensures
        r@ == "Error in query status: "@ + spec_digits(status as nat) + " -> "@ + body@,
{
    let mut r = String::from_str("Error in query status: ");
    let digits = u16_digits(status);
    r.append(digits.as_str());
    r.append(" -> ");
    r.append(body);
    proof {
        assert(r@ =~= "Error in query status: "@ + spec_digits(status as nat) + " -> "@
            + body@);
    }
    r
}

/// The line logged when a forward call fails in transport, around the
/// description of the failure.
pub fn transport_error_line(detail: &str) -> (r: String)
    ensures
        r@ == "Error in query: "@ + detail@,
{
    let mut r = String::from_str("Error in query: ");
    r.append(detail);
    r
}

} // verus!
