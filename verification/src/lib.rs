//! A controllers-only forwarding gateway for a canister.
//!
//! A controller asks the canister to call a method of another canister and to
//! pay for that call out of the canister's own cycles. What comes back is a
//! structured result: the reply's raw bytes, or one of three errors.
//!
//! The crate holds every decision of that path and none of its effects. The
//! embedding canister reads the caller from the system, hands over the test
//! for "is a controller", makes the one inter-canister call that [`proxy`]
//! asks for, and gives the call's outcome to [`complete`].

pub mod decimal;
pub mod forwarder;
pub mod gate;
pub mod handler;
pub mod laws;
pub mod mapper;
pub mod request;

pub use forwarder::{complete, CallOutcome};
pub use gate::{check_caller, inspect_message};
pub use handler::{proxy, ProxyStep};
pub use mapper::{classify, map_call_failure, CallFailure, CallFailureReason};
pub use request::{Cycles, ProxyArgs, ProxyError, ProxyResult, ProxySucceed};
