//! The handler of a request, up to the call that it asks for.

use crate::forwarder::completed;
use crate::gate::check_caller;
use crate::mapper::CallFailureView;
use crate::request::{ProxyArgs, ProxyError, ProxyErrorView};
use candid::Principal;
use vstd::prelude::*;

verus! {

/// What is to happen next with a request.
#[derive(Debug, PartialEq, Eq)]
pub enum ProxyStep {
    /// Make the call that the request describes, once, and hand what it
    /// comes to to [`complete`](crate::forwarder::complete).
    Forward(ProxyArgs),
    /// Make no call: the request ends with this error.
    Reject(ProxyError),
}

/// The step for a request, given whether its caller is a controller.
pub open spec fn admitted(controller: bool, args: ProxyArgs) -> ProxyStep {
    if controller {
        ProxyStep::Forward(args)
    } else {
        ProxyStep::Reject(ProxyError::UnauthorizedUser)
    }
}

/// The calls that a step asks for, in order.
pub open spec fn calls(step: ProxyStep) -> Seq<ProxyArgs> {
    match step {
        ProxyStep::Forward(args) => seq![args],
        ProxyStep::Reject(_) => Seq::empty(),
    }
}

/// The result of a whole request, as the two steps give it: the error of a
/// rejected request, and for a forwarded one what [`completed`] makes of
/// `outcome`, which is what the call came to.
pub open spec fn request_result(
    controller: bool,
    args: ProxyArgs,
    outcome: Result<Seq<u8>, CallFailureView>,
) -> Result<Seq<u8>, ProxyErrorView> {
    match admitted(controller, args) {
        ProxyStep::Forward(_) => completed(outcome),
        ProxyStep::Reject(error) => Err(error@),
    }
}

/// Handles a request up to the call it asks for.
///
/// Asks `is_controller` about the caller, whether or not the message has
/// passed [`inspect_message`](crate::gate::inspect_message). For a controller
/// the step is to forward the request, unchanged. For anyone else it is to
/// reject it with `UnauthorizedUser`, and no call is asked for.
pub fn proxy<P>(caller: &Principal, is_controller: P, args: ProxyArgs) -> (step: ProxyStep)
    where
        P: Fn(&Principal) -> bool,
    requires
        call_requires(is_controller, (caller,)),
    ensures
        call_ensures(is_controller, (caller,), step is Forward),
        step == admitted(step is Forward, args),
{
    match check_caller(caller, is_controller) {
        Ok(_) => ProxyStep::Forward(args),
        Err(error) => ProxyStep::Reject(error),
    }
}

} // verus!
