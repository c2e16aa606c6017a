//! A request bridge between a GUI frontend and a backend message processor.
//!
//! A frontend hands the bridge one message; the bridge forwards it to a
//! processor and turns whatever the processor did into exactly one
//! [`Response`]: the processor's text on success, a human-readable reason on
//! failure. No processor error ever escapes the bridge as a fault.

mod bridge;
mod response;

pub use bridge::{
    chat_api, echo, echo_text, handle, handle_view, into_wire, lemma_deadline_ends_wait,
    lemma_echo_distinct_inputs, lemma_error_becomes_failure, lemma_success_passes_through,
    receipt_length, settle, settle_view, wire_view, BridgeConfig, Wait, DEFAULT_TIMEOUT_MS,
    ECHO_PREFIX,
};
pub use response::{
    failure_reason, reason_of, respond, response_view, ProcessorError, Response,
    INVALID_INPUT_REASON, TIMEOUT_REASON, UNAVAILABLE_REASON,
};
