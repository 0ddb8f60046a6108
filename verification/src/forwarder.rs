//! The forwarded call, from the moment it has come to an end.
//!
//! Making the call is the embedding canister's part: one call of the
//! request's method on the request's canister, with the request's argument
//! bytes and cycles attached, awaited until the reply, the rejection or the
//! timeout is there. It is made once and never repeated. What the call came
//! to is then handed to [`complete`].

use crate::mapper::{map_call_failure, mapped, CallFailure, CallFailureView};
use crate::request::{result_view, ProxyErrorView, ProxyResult, ProxySucceed};
use vstd::prelude::*;

verus! {

/// What a forwarded call came to: the bytes of the reply, or the failure.
pub type CallOutcome = Result<Vec<u8>, CallFailure>;

/// A [`CallOutcome`] as plain data.
pub open spec fn outcome_view(outcome: CallOutcome) -> Result<Seq<u8>, CallFailureView> {
    match outcome {
        Ok(reply) => Ok(reply@),
        Err(failure) => Err(failure@),
    }
}

/// The result of a request whose call came to `outcome`: the bytes of a
/// reply as they are, and for a failure the error it maps to.
pub open spec fn completed(outcome: Result<Seq<u8>, CallFailureView>) -> Result<
    Seq<u8>,
    ProxyErrorView,
> {
    match outcome {
        Ok(reply) => Ok(reply),
        Err(failure) => Err(mapped(failure)),
    }
}

/// Turns the outcome of the forwarded call into the result of the request.
///
/// A reply is passed on byte for byte. A failure becomes the error that
/// [`map_call_failure`] gives for it.
pub fn complete(outcome: CallOutcome) -> (result: ProxyResult)
    ensures
        result_view(result) == completed(outcome_view(outcome)),
{
    match outcome {
        Ok(reply) => Ok(ProxySucceed { result: reply }),
        Err(failure) => Err(map_call_failure(failure)),
    }
}

} // verus!
