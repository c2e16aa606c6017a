use vstd::prelude::*;
use vstd::string::StringExecFns;

verus! {

/// Reason given when the processor cannot be reached.
pub const UNAVAILABLE_REASON: &'static str = "processor unavailable";

/// Reason given when the processor did not answer before the deadline.
pub const TIMEOUT_REASON: &'static str = "processor timeout: no reply before the deadline";

/// Reason given when the processor refused the message as malformed.
pub const INVALID_INPUT_REASON: &'static str = "invalid input";

/// What can go wrong on the processor's side of the bridge.
#[derive(Debug)]
pub enum ProcessorError {
    /// The processor could not be reached.
    Unavailable,
    /// The processor did not answer within the configured deadline.
    Timeout,
    /// The processor answered with an explicit failure and this reason.
    Reported(String),
    /// The message was rejected by validation (never raised by the echo processor).
    InvalidInput,
}

/// The single outcome of one request: the processor's text, or why there is none.
#[derive(Debug)]
pub enum Response {
    Success(String),
    Failure(String),
}

impl View for Response {
    /// `Ok(text)` for a success, `Err(reason)` for a failure.
    type V = Result<Seq<char>, Seq<char>>;

    open spec fn view(&self) -> Result<Seq<char>, Seq<char>> {
        match self {
            Response::Success(t) => Ok(t@),
            Response::Failure(m) => Err(m@),
        }
    }
}

/// The human-readable reason that a processor error is reported with.
/// A reason the processor gave itself is passed through verbatim.
pub open spec fn reason_of(e: ProcessorError) -> Seq<char> {
    match e {
        ProcessorError::Unavailable => UNAVAILABLE_REASON@,
        ProcessorError::Timeout => TIMEOUT_REASON@,
        ProcessorError::Reported(r) => r@,
        ProcessorError::InvalidInput => INVALID_INPUT_REASON@,
    }
}

/// The response owed for what the processor did: its text unchanged on
/// success, the error's reason on failure.
pub open spec fn response_view(outcome: Result<String, ProcessorError>) -> Result<Seq<char>, Seq<char>> {
    match outcome {
        Ok(y) => Ok(y@),
        Err(e) => Err(reason_of(e)),
    }
}

/// The reason text for a processor error.
pub fn failure_reason(e: &ProcessorError) -> (r: String)
    ensures
        r@ == reason_of(*e),
{
    match e {
        ProcessorError::Unavailable => String::from_str(UNAVAILABLE_REASON),
        ProcessorError::Timeout => String::from_str(TIMEOUT_REASON),
        ProcessorError::Reported(reason) => reason.clone(),
        ProcessorError::InvalidInput => String::from_str(INVALID_INPUT_REASON),
    }
}

/// Turns what the processor did into the one response the frontend receives.
/// Every error is caught here and becomes a `Failure`.
pub fn respond(outcome: Result<String, ProcessorError>) -> (r: Response)
    ensures
        r@ == response_view(outcome),
{
    match outcome {
        Ok(y) => Response::Success(y),
        Err(e) => Response::Failure(failure_reason(&e)),
    }
}

} // verus!
