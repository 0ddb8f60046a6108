//! What a request holds and what it can come to.

use candid::Principal;
use vstd::prelude::*;

verus! {

/// `candid::Principal`, the identity of a canister or of a user.
///
/// A principal is only carried along here: nothing looks inside one.
#[verifier::external_type_specification]
#[verifier::external_body]
pub struct ExPrincipal(candid::Principal);

/// An amount of cycles.
pub type Cycles = u128;

/// One request: which method of which canister to call, with which argument
/// bytes, and how many cycles to attach.
#[derive(Debug, PartialEq, Eq)]
pub struct ProxyArgs {
    /// The canister to call.
    pub canister_id: Principal,
    /// The method to call on it.
    pub method: String,
    /// The argument, already encoded. It is never inspected.
    pub args: Vec<u8>,
    /// The cycles to attach to the call.
    pub cycles: Cycles,
}

/// A [`ProxyArgs`] with its method name and argument as sequences.
pub struct ProxyArgsView {
    pub canister_id: Principal,
    pub method: Seq<char>,
    pub args: Seq<u8>,
    pub cycles: Cycles,
}

impl View for ProxyArgs {
    type V = ProxyArgsView;

    open spec fn view(&self) -> ProxyArgsView {
        ProxyArgsView {
            canister_id: self.canister_id,
            method: self.method@,
            args: self.args@,
            cycles: self.cycles,
        }
    }
}

impl Clone for ProxyArgs {
    /// A second request for the same call.
    fn clone(&self) -> (copy: Self)
        ensures
            copy@ == self@,
    {
        ProxyArgs {
            canister_id: self.canister_id,
            method: self.method.clone(),
            args: self.args.clone(),
            cycles: self.cycles,
        }
    }
}

/// The reply of a call that went through.
#[derive(Debug, Clone, PartialEq, Eq)]
pub struct ProxySucceed {
    /// The reply's bytes, as the callee sent them.
    pub result: Vec<u8>,
}

/// Why a request did not go through.
#[derive(Debug, Clone, PartialEq, Eq)]
pub enum ProxyError {
    /// The canister's liquid balance does not cover the call.
    InsufficientCycles { available: Cycles, required: Cycles },
    /// The call could not be made, or the callee or the system rejected it.
    CallFailed { reason: String },
    /// The caller is not a controller of the canister.
    UnauthorizedUser,
}

/// A [`ProxyError`] with its text as a sequence of characters.
pub enum ProxyErrorView {
    InsufficientCycles { available: Cycles, required: Cycles },
    CallFailed { reason: Seq<char> },
    UnauthorizedUser,
}

impl View for ProxyError {
    type V = ProxyErrorView;

    open spec fn view(&self) -> ProxyErrorView {
        match *self {
            ProxyError::InsufficientCycles { available, required } => {
                ProxyErrorView::InsufficientCycles { available, required }
            },
            ProxyError::CallFailed { reason } => ProxyErrorView::CallFailed { reason: reason@ },
            ProxyError::UnauthorizedUser => ProxyErrorView::UnauthorizedUser,
        }
    }
}

/// What a request comes to.
pub type ProxyResult = Result<ProxySucceed, ProxyError>;

/// A [`ProxyResult`] as plain data: the reply's bytes, or the error.
pub open spec fn result_view(result: ProxyResult) -> Result<Seq<u8>, ProxyErrorView> {
    match result {
        Ok(reply) => Ok(reply.result@),
        Err(error) => Err(error@),
    }
}

} // verus!
