//! What holds of every request, stated over the functions that the
//! contracts of this crate are written in.

use crate::decimal::decimal;
use crate::forwarder::completed;
use crate::handler::{admitted, calls, request_result, ProxyStep};
use crate::mapper::{
    classified, dispatch_failure_text, mapped, rejection_text, symbolic_code,
    CallFailureReasonView, CallFailureView,
};
use crate::request::{Cycles, ProxyArgs, ProxyError, ProxyErrorView};
use vstd::prelude::*;

verus! {

/// A caller who is not a controller gets `UnauthorizedUser`, whatever the
/// request holds and whatever the call would have come to, and no call is
/// asked for.
pub proof fn law_stranger_is_refused(args: ProxyArgs, outcome: Result<Seq<u8>, CallFailureView>)
    ensures
        admitted(false, args) == ProxyStep::Reject(ProxyError::UnauthorizedUser),
        calls(admitted(false, args)) == Seq::<ProxyArgs>::empty(),
        request_result(false, args, outcome) == Err::<Seq<u8>, ProxyErrorView>(
            ProxyErrorView::UnauthorizedUser,
        ),
{
}

/// A controller's request asks for exactly one call, and the call is the
/// request as it stands: same canister, method, argument bytes and cycles.
/// The result of the request is then what the call comes to, and nothing
/// else decides on it.
pub proof fn law_controller_is_forwarded_once(
    args: ProxyArgs,
    outcome: Result<Seq<u8>, CallFailureView>,
)
    ensures
        admitted(true, args) == ProxyStep::Forward(args),
        calls(admitted(true, args)) == seq![args],
        request_result(true, args, outcome) == completed(outcome),
{
}

/// A controller attaches more cycles than the balance holds, and the
/// transport reports the shortfall: the balance it found, and what the call
/// requires, which is never less than the cycles attached. Then the result is
/// `InsufficientCycles` with the two amounts as reported, and `available` is
/// the lesser one.
pub proof fn law_shortfall_is_reported(args: ProxyArgs, available: Cycles, required: Cycles)
    requires
        args.cycles > available,
        required >= args.cycles,
    ensures
        available < required,
        request_result(
            true,
            args,
            Err(CallFailureView::InsufficientLiquidCycleBalance { available, required }),
        ) == Err::<Seq<u8>, ProxyErrorView>(
            ProxyErrorView::InsufficientCycles { available, required },
        ),
{
}

/// A controller's request whose call is answered comes to the reply's bytes,
/// each of them as the callee sent it.
pub proof fn law_reply_is_passed_through(args: ProxyArgs, reply: Seq<u8>)
    ensures
        request_result(true, args, Ok(reply)) == Ok::<Seq<u8>, ProxyErrorView>(reply),
{
}

/// Every failure of the transport maps to one error, and which one depends on
/// the kind of failure alone: a shortfall to `InsufficientCycles` with the
/// same amounts, a call that could not be started to `CallFailed` with a
/// fixed text, a rejection to `CallFailed` with a text made of the symbolic
/// code, the raw code and the message. None maps to `UnauthorizedUser`.
pub proof fn law_mapping_is_total(args: ProxyArgs, failure: CallFailureView)
    ensures
        match failure {
            CallFailureView::InsufficientLiquidCycleBalance { available, required } => {
                mapped(failure) == (ProxyErrorView::InsufficientCycles { available, required })
            },
            CallFailureView::CallPerformFailed => {
                mapped(failure) == (ProxyErrorView::CallFailed { reason: dispatch_failure_text() })
            },
            CallFailureView::CallRejected { raw_reject_code, reject_message } => {
                mapped(failure) == (ProxyErrorView::CallFailed {
                    reason: rejection_text(
                        symbolic_code(raw_reject_code),
                        raw_reject_code,
                        reject_message,
                    ),
                })
            },
        },
        !(mapped(failure) is UnauthorizedUser),
        request_result(true, args, Err(failure)) == Err::<Seq<u8>, ProxyErrorView>(mapped(failure)),
{
}

/// A rejection with a reject code that has no name is mapped like any other:
/// to `CallFailed`, with the marker where the name would stand.
pub proof fn law_unrecognized_code_is_marked(raw_reject_code: u32, reject_message: Seq<char>)
    requires
        raw_reject_code < 1 || raw_reject_code > 6,
    ensures
        classified(CallFailureView::CallRejected { raw_reject_code, reject_message })
            == (CallFailureReasonView::Rejected {
                code: "UnrecognizedRejectCode"@,
                raw_code: raw_reject_code,
                message: reject_message,
            }),
        mapped(CallFailureView::CallRejected { raw_reject_code, reject_message })
            == (ProxyErrorView::CallFailed {
                reason: "Call Rejected, reject_code: "@ + "UnrecognizedRejectCode"@ + " ("@
                    + decimal(raw_reject_code as nat) + "), reject_message: "@ + reject_message,
            }),
{
}

/// The text of a rejection holds the symbolic code, the raw code in base ten
/// and the message, whole and in this order; the message ends the text.
pub proof fn law_rejection_text_holds_its_parts(code: Seq<char>, raw_code: u32, message: Seq<char>)
    ensures
        ({
            let text = rejection_text(code, raw_code, message);
            let number = decimal(raw_code as nat);
            let at_code: int = 28;
            let at_number: int = at_code + code.len() + 2;
            let at_message: int = at_number + number.len() + 19;
            &&& text.len() == at_message + message.len()
            &&& text.subrange(at_code, at_code + code.len()) == code
            &&& text.subrange(at_number, at_number + number.len()) == number
            &&& text.subrange(at_message, text.len() as int) == message
        }),
{
    reveal_strlit("Call Rejected, reject_code: ");
    reveal_strlit(" (");
    reveal_strlit("), reject_message: ");
    let text = rejection_text(code, raw_code, message);
    let number = decimal(raw_code as nat);
    let at_code: int = 28;
    let at_number: int = at_code + code.len() + 2;
    let at_message: int = at_number + number.len() + 19;
    assert(text.len() == at_message + message.len());
    assert(text.subrange(at_code, at_code + code.len()) =~= code);
    assert(text.subrange(at_number, at_number + number.len()) =~= number);
    assert(text.subrange(at_message, text.len() as int) =~= message);
}

/// Nothing is remembered from one request to the next. A controller's
/// request is forwarded whether or not the same request was forwarded
/// before: issued twice, it asks for two calls, one each time.
pub proof fn law_repeated_request_is_forwarded_again(args: ProxyArgs)
    ensures
        calls(admitted(true, args)) + calls(admitted(true, args)) == seq![args, args],
{
}

} // verus!
