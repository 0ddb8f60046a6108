//! Who may use the gateway.
//!
//! There is one rule, that the caller is a controller of the canister, and
//! it is asked in two places. The canister itself cannot list its controllers;
//! it can only ask the system about one principal at a time. So the rule
//! comes in as `is_controller`, a test that the embedding canister hands
//! over, and is asked afresh each time.

use crate::request::ProxyError;
use candid::Principal;
use vstd::prelude::*;

verus! {

/// The check on an ingress message, made before the message is executed.
///
/// Returns whether the message is to be accepted. A message that is not
/// accepted gets no response and runs no code, so that callers who are not
/// controllers cannot spend the canister's cycles. The answer is that of
/// `is_controller` for the caller.
pub fn inspect_message<P>(caller: &Principal, is_controller: P) -> (accept: bool)
    where
        P: Fn(&Principal) -> bool,
    requires
        call_requires(is_controller, (caller,)),
    ensures
        call_ensures(is_controller, (caller,), accept),
{
    is_controller(caller)
}

/// What follows from the answer to "is the caller a controller".
pub open spec fn verdict(controller: bool) -> Result<(), ProxyError> {
    if controller {
        Ok(())
    } else {
        Err(ProxyError::UnauthorizedUser)
    }
}

/// The check inside the handler. Calls from other canisters never pass
/// [`inspect_message`], so the rule is asked again here: `Ok` for a
/// controller, `UnauthorizedUser` for anyone else.
pub fn check_caller<P>(caller: &Principal, is_controller: P) -> (checked: Result<(), ProxyError>)
    where
        P: Fn(&Principal) -> bool,
    requires
        call_requires(is_controller, (caller,)),
    ensures
        call_ensures(is_controller, (caller,), checked is Ok),
        checked == verdict(checked is Ok),
{
    if is_controller(caller) {
        Ok(())
    } else {
        Err(ProxyError::UnauthorizedUser)
    }
}

} // verus!
