//! From failures of the transport to errors.

use proxy::mapper::name_reject_code;
use proxy::{classify, map_call_failure, CallFailure, CallFailureReason, ProxyError};

fn rejected(raw_reject_code: u32, reject_message: &str) -> CallFailure {
    CallFailure::CallRejected { raw_reject_code, reject_message: reject_message.to_string() }
}

fn reason_of(error: ProxyError) -> String {
    match error {
        ProxyError::CallFailed { reason } => reason,
        other => panic!("not a failed call: {:?}", other),
    }
}

#[test]
fn shortfall_keeps_both_amounts() {
    assert_eq!(
        map_call_failure(CallFailure::InsufficientLiquidCycleBalance {
            available: 10,
            required: 1_000_000
        }),
        ProxyError::InsufficientCycles { available: 10, required: 1_000_000 }
    );
    assert_eq!(
        map_call_failure(CallFailure::InsufficientLiquidCycleBalance {
            available: u128::MAX - 1,
            required: u128::MAX
        }),
        ProxyError::InsufficientCycles { available: u128::MAX - 1, required: u128::MAX }
    );
    // The amounts are not compared or exchanged, whatever they are.
    assert_eq!(
        map_call_failure(CallFailure::InsufficientLiquidCycleBalance { available: 7, required: 3 }),
        ProxyError::InsufficientCycles { available: 7, required: 3 }
    );
}

#[test]
fn dispatch_failure_has_a_fixed_text() {
    assert_eq!(
        map_call_failure(CallFailure::CallPerformFailed),
        ProxyError::CallFailed { reason: "call could not be initiated".to_string() }
    );
    assert_eq!(classify(CallFailure::CallPerformFailed), CallFailureReason::DispatchFailure);
    assert_eq!(
        CallFailureReason::DispatchFailure.into_error(),
        ProxyError::CallFailed { reason: "call could not be initiated".to_string() }
    );
}

#[test]
fn each_reject_code_has_its_name() {
    assert_eq!(name_reject_code(1), "SYS_FATAL");
    assert_eq!(name_reject_code(2), "SYS_TRANSIENT");
    assert_eq!(name_reject_code(3), "DESTINATION_INVALID");
    assert_eq!(name_reject_code(4), "CANISTER_REJECT");
    assert_eq!(name_reject_code(5), "CANISTER_ERROR");
    assert_eq!(name_reject_code(6), "SYS_UNKNOWN");
}

#[test]
fn other_reject_codes_get_the_marker() {
    assert_eq!(name_reject_code(0), "UnrecognizedRejectCode");
    assert_eq!(name_reject_code(7), "UnrecognizedRejectCode");
    assert_eq!(name_reject_code(100), "UnrecognizedRejectCode");
    assert_eq!(name_reject_code(u32::MAX), "UnrecognizedRejectCode");
    for raw in 7..2000 {
        assert_eq!(name_reject_code(raw), "UnrecognizedRejectCode");
    }
}

#[test]
fn names_agree_with_the_transport() {
    for raw in 0..16u32 {
        let theirs = match ic_cdk::call::CallRejected::with_rejection(raw, String::new()).reject_code()
        {
            Ok(code) => code.to_string(),
            Err(_) => "UnrecognizedRejectCode".to_string(),
        };
        assert_eq!(name_reject_code(raw), theirs);
    }
}

#[test]
fn classify_keeps_code_and_message() {
    assert_eq!(
        classify(rejected(3, "no such canister")),
        CallFailureReason::Rejected {
            code: "DESTINATION_INVALID".to_string(),
            raw_code: 3,
            message: "no such canister".to_string()
        }
    );
    assert_eq!(
        classify(rejected(77, "")),
        CallFailureReason::Rejected {
            code: "UnrecognizedRejectCode".to_string(),
            raw_code: 77,
            message: String::new()
        }
    );
    assert_eq!(
        classify(CallFailure::InsufficientLiquidCycleBalance { available: 1, required: 2 }),
        CallFailureReason::InsufficientBudget { available: 1, required: 2 }
    );
}

#[test]
fn rejection_text_is_exact() {
    assert_eq!(
        reason_of(map_call_failure(rejected(5, "busy"))),
        "Call Rejected, reject_code: CANISTER_ERROR (5), reject_message: busy"
    );
    assert_eq!(
        reason_of(map_call_failure(rejected(1, ""))),
        "Call Rejected, reject_code: SYS_FATAL (1), reject_message: "
    );
    assert_eq!(
        reason_of(map_call_failure(rejected(6, "timed out\nafter 300 s"))),
        "Call Rejected, reject_code: SYS_UNKNOWN (6), reject_message: timed out\nafter 300 s"
    );
}

#[test]
fn unrecognized_code_is_marked_not_fatal() {
    assert_eq!(
        reason_of(map_call_failure(rejected(0, "?"))),
        "Call Rejected, reject_code: UnrecognizedRejectCode (0), reject_message: ?"
    );
    assert_eq!(
        reason_of(map_call_failure(rejected(42, "new kind of reject"))),
        "Call Rejected, reject_code: UnrecognizedRejectCode (42), reject_message: new kind of reject"
    );
    assert_eq!(
        reason_of(map_call_failure(rejected(u32::MAX, "x"))),
        "Call Rejected, reject_code: UnrecognizedRejectCode (4294967295), reject_message: x"
    );
}

#[test]
fn rejection_text_agrees_with_format() {
    let messages = ["", "busy", "IC0503: trapped", "caf\u{e9} \u{1F980}", "), reject_message: "];
    for raw in [0u32, 1, 2, 3, 4, 5, 6, 7, 9, 10, 99, 100, 503, 65535, 4294967295] {
        for message in messages {
            let code = name_reject_code(raw);
            let expected =
                format!("Call Rejected, reject_code: {} ({}), reject_message: {}", code, raw, message);
            assert_eq!(reason_of(map_call_failure(rejected(raw, message))), expected);
        }
    }
}

#[test]
fn into_error_writes_what_the_reason_holds() {
    // The text is made of the reason's own fields, whatever they are.
    let reason = CallFailureReason::Rejected {
        code: "SOME_CODE".to_string(),
        raw_code: 1234,
        message: "some message".to_string(),
    };
    assert_eq!(
        reason.into_error(),
        ProxyError::CallFailed {
            reason: "Call Rejected, reject_code: SOME_CODE (1234), reject_message: some message"
                .to_string()
        }
    );
    assert_eq!(
        CallFailureReason::InsufficientBudget { available: 5, required: 6 }.into_error(),
        ProxyError::InsufficientCycles { available: 5, required: 6 }
    );
}

#[test]
fn no_failure_maps_to_unauthorized_user() {
    let failures = vec![
        CallFailure::InsufficientLiquidCycleBalance { available: 0, required: 0 },
        CallFailure::CallPerformFailed,
        rejected(0, "UnauthorizedUser"),
        rejected(4, "UnauthorizedUser"),
    ];
    for failure in failures {
        assert_ne!(map_call_failure(failure), ProxyError::UnauthorizedUser);
    }
}
