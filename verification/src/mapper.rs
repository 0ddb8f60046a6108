//! From the failures of an inter-canister call to the errors of a request.
//!
//! The mapping goes in two steps. [`classify`] takes a failure as the
//! transport reports it and gives the reason in this crate's own terms; for a
//! rejection that means putting a name to the reject code.
//! [`CallFailureReason::into_error`] then turns the reason into the error
//! that the requester sees. [`map_call_failure`] does both.

use crate::decimal::{decimal, decimal_string};
use crate::request::{Cycles, ProxyError, ProxyErrorView};
use ic_cdk::call::RejectCode;
use vstd::prelude::*;
use vstd::string::StringExecFns;

verus! {

/// A failed inter-canister call, as the transport reports it: the plain data
/// of an `ic_cdk::call::CallFailed`.
#[derive(Debug, Clone, PartialEq, Eq)]
pub enum CallFailure {
    /// The liquid cycle balance did not cover the call, which was not made.
    InsufficientLiquidCycleBalance { available: Cycles, required: Cycles },
    /// The system refused to start the call.
    CallPerformFailed,
    /// The call was made and rejected, by the callee or by the system.
    CallRejected { raw_reject_code: u32, reject_message: String },
}

/// A [`CallFailure`] with its text as a sequence of characters.
pub enum CallFailureView {
    InsufficientLiquidCycleBalance { available: Cycles, required: Cycles },
    CallPerformFailed,
    CallRejected { raw_reject_code: u32, reject_message: Seq<char> },
}

impl View for CallFailure {
    type V = CallFailureView;

    open spec fn view(&self) -> CallFailureView {
        match *self {
            CallFailure::InsufficientLiquidCycleBalance { available, required } => {
                CallFailureView::InsufficientLiquidCycleBalance { available, required }
            },
            CallFailure::CallPerformFailed => CallFailureView::CallPerformFailed,
            CallFailure::CallRejected { raw_reject_code, reject_message } => {
                CallFailureView::CallRejected { raw_reject_code, reject_message: reject_message@ }
            },
        }
    }
}

/// Why a forwarded call failed.
#[derive(Debug, Clone, PartialEq, Eq)]
pub enum CallFailureReason {
    /// The balance did not cover the call.
    InsufficientBudget { available: Cycles, required: Cycles },
    /// The call could not even be started.
    DispatchFailure,
    /// The call was rejected. `code` is the name of the reject code, or
    /// `"UnrecognizedRejectCode"` where it has none; `raw_code` is the code
    /// itself and `message` the text that came with it.
    Rejected { code: String, raw_code: u32, message: String },
}

/// A [`CallFailureReason`] with its texts as sequences of characters.
pub enum CallFailureReasonView {
    InsufficientBudget { available: Cycles, required: Cycles },
    DispatchFailure,
    Rejected { code: Seq<char>, raw_code: u32, message: Seq<char> },
}

impl View for CallFailureReason {
    type V = CallFailureReasonView;

    open spec fn view(&self) -> CallFailureReasonView {
        match *self {
            CallFailureReason::InsufficientBudget { available, required } => {
                CallFailureReasonView::InsufficientBudget { available, required }
            },
            CallFailureReason::DispatchFailure => CallFailureReasonView::DispatchFailure,
            CallFailureReason::Rejected { code, raw_code, message } => {
                CallFailureReasonView::Rejected { code: code@, raw_code, message: message@ }
            },
        }
    }
}

/// The name of a reject code, for the six codes that have one.
pub open spec fn reject_code_name(raw: u32) -> Option<Seq<char>> {
    if raw == 1 {
        Some("SYS_FATAL"@)
    } else if raw == 2 {
        Some("SYS_TRANSIENT"@)
    } else if raw == 3 {
        Some("DESTINATION_INVALID"@)
    } else if raw == 4 {
        Some("CANISTER_REJECT"@)
    } else if raw == 5 {
        Some("CANISTER_ERROR"@)
    } else if raw == 6 {
        Some("SYS_UNKNOWN"@)
    } else {
        None
    }
}

/// What stands in place of a name for a reject code that has none.
pub open spec fn unrecognized_marker() -> Seq<char> {
    "UnrecognizedRejectCode"@
}

/// The symbolic code of a rejection: the name of the reject code, or the
/// marker.
pub open spec fn symbolic_code(raw: u32) -> Seq<char> {
    match reject_code_name(raw) {
        Some(name) => name,
        None => unrecognized_marker(),
    }
}

/// The reason in this crate's terms for a failure of the transport.
pub open spec fn classified(failure: CallFailureView) -> CallFailureReasonView {
    match failure {
        CallFailureView::InsufficientLiquidCycleBalance { available, required } => {
            CallFailureReasonView::InsufficientBudget { available, required }
        },
        CallFailureView::CallPerformFailed => CallFailureReasonView::DispatchFailure,
        CallFailureView::CallRejected { raw_reject_code, reject_message } => {
            CallFailureReasonView::Rejected {
                code: symbolic_code(raw_reject_code),
                raw_code: raw_reject_code,
                message: reject_message,
            }
        },
    }
}

/// What a requester reads when the call could not be started.
pub open spec fn dispatch_failure_text() -> Seq<char> {
    "call could not be initiated"@
}

/// What a requester reads when the call was rejected.
pub open spec fn rejection_text(code: Seq<char>, raw_code: u32, message: Seq<char>) -> Seq<char> {
    "Call Rejected, reject_code: "@ + code + " ("@ + decimal(raw_code as nat)
        + "), reject_message: "@ + message
}

impl CallFailureReasonView {
    /// The error that a requester sees for this reason.
    pub open spec fn error(self) -> ProxyErrorView {
        match self {
            CallFailureReasonView::InsufficientBudget { available, required } => {
                ProxyErrorView::InsufficientCycles { available, required }
            },
            CallFailureReasonView::DispatchFailure => {
                ProxyErrorView::CallFailed { reason: dispatch_failure_text() }
            },
            CallFailureReasonView::Rejected { code, raw_code, message } => {
                ProxyErrorView::CallFailed { reason: rejection_text(code, raw_code, message) }
            },
        }
    }
}

/// The error that a requester sees for a failure of the transport.
pub open spec fn mapped(failure: CallFailureView) -> ProxyErrorView {
    classified(failure).error()
}

/// Decodes a reject code with `ic_cdk`'s `RejectCode::try_from` and writes the
/// decoded code out with its `Display`.
///
/// `try_from` knows the codes 1 to 6 and fails on every other number;
/// `Display` writes each of the six under the name that [`reject_code_name`]
/// lists. So the result is that name, and `None` where `try_from` fails.
#[verifier::external_body]
fn decode_reject_code(raw: u32) -> (name: Option<String>)
    ensures
        name matches Some(text) ==> reject_code_name(raw) == Some(text@),
        name is None ==> reject_code_name(raw) is None,
{
    match RejectCode::try_from(u64::from(raw)) {
        Ok(code) => Some(code.to_string()),
        Err(_) => None,
    }
}

/// The symbolic code of a rejection with the reject code `raw`.
pub fn name_reject_code(raw: u32) -> (code: String)
    ensures
        code@ == symbolic_code(raw),
{
    match decode_reject_code(raw) {
        Some(name) => name,
        None => String::from_str("UnrecognizedRejectCode"),
    }
}

/// Gives the reason for a failure of the transport. Every failure has one;
/// amounts and the reject message are taken over as they are.
pub fn classify(failure: CallFailure) -> (reason: CallFailureReason)
    ensures
        reason@ == classified(failure@),
{
    match failure {
        CallFailure::InsufficientLiquidCycleBalance { available, required } => {
            CallFailureReason::InsufficientBudget { available, required }
        },
        CallFailure::CallPerformFailed => CallFailureReason::DispatchFailure,
        CallFailure::CallRejected { raw_reject_code, reject_message } => {
            CallFailureReason::Rejected {
                code: name_reject_code(raw_reject_code),
                raw_code: raw_reject_code,
                message: reject_message,
            }
        },
    }
}

impl CallFailureReason {
    /// Turns the reason into the error that the requester sees.
    pub fn into_error(self) -> (error: ProxyError)
        ensures
            error@ == self@.error(),
    {
        match self {
            CallFailureReason::InsufficientBudget { available, required } => {
                ProxyError::InsufficientCycles { available, required }
            },
            CallFailureReason::DispatchFailure => {
                ProxyError::CallFailed { reason: String::from_str("call could not be initiated") }
            },
            CallFailureReason::Rejected { code, raw_code, message } => {
                let mut reason = String::from_str("Call Rejected, reject_code: ");
                reason.append(code.as_str());
                reason.append(" (");
                reason.append(decimal_string(raw_code).as_str());
                reason.append("), reject_message: ");
                reason.append(message.as_str());
                ProxyError::CallFailed { reason }
            },
        }
    }
}

/// Maps a failure of the transport to the error that the requester sees.
pub fn map_call_failure(failure: CallFailure) -> (error: ProxyError)
    ensures
        error@ == mapped(failure@),
{
    classify(failure).into_error()
}

} // verus!
