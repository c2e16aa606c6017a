use vstd::prelude::*;
use vstd::string::{StrSliceExecFns, StringExecFns};

use crate::response::{reason_of, respond, response_view, ProcessorError, Response};

verus! {

/// The text the echo processor puts in front of every message.
pub const ECHO_PREFIX: &'static str = "Echo from backend: ";

/// How long a request may wait for the processor unless configured otherwise.
pub const DEFAULT_TIMEOUT_MS: u64 = 30000;

/// Settings resolved once at startup.
#[derive(Debug)]
pub struct BridgeConfig {
    /// How long, in milliseconds, a request waits for the processor.
    pub timeout_ms: u64,
    /// Whether a diagnostic logger is attached.
    pub verbose_logging: bool,
}

impl BridgeConfig {
    pub fn new(timeout_ms: u64, verbose_logging: bool) -> (c: BridgeConfig)
        ensures
            c.timeout_ms == timeout_ms,
            c.verbose_logging == verbose_logging,
    {
        BridgeConfig { timeout_ms, verbose_logging }
    }
}

impl Default for BridgeConfig {
    /// The default deadline, with no diagnostic logger.
    fn default() -> (c: BridgeConfig)
        ensures
            c.timeout_ms == DEFAULT_TIMEOUT_MS,
            !c.verbose_logging,
    {
        BridgeConfig { timeout_ms: DEFAULT_TIMEOUT_MS, verbose_logging: false }
    }
}

/// What the echo processor answers to `message`.
pub open spec fn echo_text(message: Seq<char>) -> Seq<char> {
    ECHO_PREFIX@ + message
}

/// The processor this application ships with: it answers every message,
/// the empty one included, with the message behind a fixed prefix, and never fails.
pub fn echo(message: &str) -> (r: Result<String, ProcessorError>)
    ensures
        r matches Ok(y) && y@ == echo_text(message@),
{
    Ok(String::from_str(ECHO_PREFIX).concat(message))
}

/// The response that the bridge owes for `message`.
pub open spec fn handle_view(message: Seq<char>) -> Result<Seq<char>, Seq<char>> {
    Ok(echo_text(message))
}

/// Handles one message from the frontend: forwards it to the echo processor
/// and returns the one response for it. Any message is accepted, the empty one
/// included; the response depends on this message alone.
pub fn handle(message: &str) -> (r: Response)
    ensures
        r@ == handle_view(message@),
{
    respond(echo(message))
}

/// How a result travels back over the frontend call: text or error text.
pub open spec fn wire_view(w: Result<String, String>) -> Result<Seq<char>, Seq<char>> {
    match w {
        Ok(t) => Ok(t@),
        Err(m) => Err(m@),
    }
}

/// Puts a response in the shape that the frontend call returns.
pub fn into_wire(r: Response) -> (w: Result<String, String>)
    ensures
        wire_view(w) == r@,
{
    match r {
        Response::Success(t) => Ok(t),
        Response::Failure(m) => Err(m),
    }
}

/// The command that the frontend invokes with one message.
pub fn chat_api(message: String) -> (w: Result<String, String>)
    ensures
        wire_view(w) == handle_view(message@),
{
    into_wire(handle(message.as_str()))
}

/// What the diagnostic entry for a received message records: its length in
/// characters, never its content.
pub fn receipt_length(message: &str) -> (n: usize)
    ensures
        n == message@.len(),
{
    message.unicode_len()
}

/// Where a request stands while it waits for the processor.
#[derive(Debug)]
pub enum Wait {
    /// No reply yet, and the deadline has not come.
    Pending,
    /// The request is over with this response.
    Done(Response),
}

impl View for Wait {
    /// `None` while pending, else the response's view.
    type V = Option<Result<Seq<char>, Seq<char>>>;

    open spec fn view(&self) -> Option<Result<Seq<char>, Seq<char>>> {
        match self {
            Wait::Pending => None,
            Wait::Done(r) => Some(r@),
        }
    }
}

/// Where a request stands after `elapsed_ms` milliseconds, given the
/// processor's reply if one has come. A reply in time is delivered; once the
/// deadline is reached without one, or a reply comes after it, the request
/// fails with the timeout reason.
pub open spec fn settle_view(
    timeout_ms: u64,
    elapsed_ms: u64,
    reply: Option<Result<String, ProcessorError>>,
) -> Option<Result<Seq<char>, Seq<char>>> {
    match reply {
        Some(o) => if elapsed_ms <= timeout_ms {
            Some(response_view(o))
        } else {
            Some(Err(reason_of(ProcessorError::Timeout)))
        },
        None => if elapsed_ms >= timeout_ms {
            Some(Err(reason_of(ProcessorError::Timeout)))
        } else {
            None
        },
    }
}

/// Decides, at one moment of the wait, whether the request is over and with
/// what response. The caller performs the wait and reports the time and the
/// reply, if any.
pub fn settle(
    config: &BridgeConfig,
    elapsed_ms: u64,
    reply: Option<Result<String, ProcessorError>>,
) -> (w: Wait)
    ensures
        w@ == settle_view(config.timeout_ms, elapsed_ms, reply),
{
    match reply {
        Some(o) => {
            if elapsed_ms <= config.timeout_ms {
                Wait::Done(respond(o))
            } else {
                Wait::Done(respond(Err(ProcessorError::Timeout)))
            }
        },
        None => {
            if elapsed_ms >= config.timeout_ms {
                Wait::Done(respond(Err(ProcessorError::Timeout)))
            } else {
                Wait::Pending
            }
        },
    }
}

/// A processor's text reaches the frontend unchanged.
pub proof fn lemma_success_passes_through(y: String)
    ensures
        response_view(Ok(y)) == Ok::<Seq<char>, Seq<char>>(y@),
{
}

/// A processor error always becomes a failure, never a success, and its
/// reason comes from the error; a reason the processor gave is kept verbatim.
pub proof fn lemma_error_becomes_failure(e: ProcessorError)
    ensures
        response_view(Err(e)) == Err::<Seq<char>, Seq<char>>(reason_of(e)),
        e matches ProcessorError::Reported(m) ==> response_view(Err(e)) == Err::<
            Seq<char>,
            Seq<char>,
        >(m@),
{
}

/// Requests are independent: distinct messages get distinct responses, and
/// each message can be read back from its own response.
pub proof fn lemma_echo_distinct_inputs(x1: Seq<char>, x2: Seq<char>)
    requires
        x1 != x2,
    ensures
        handle_view(x1) != handle_view(x2),
        handle_view(x1) matches Ok(t) && t.skip(ECHO_PREFIX@.len() as int) == x1,
{
    let n = ECHO_PREFIX@.len() as int;
    assert(echo_text(x1).skip(n) =~= x1);
    assert(echo_text(x2).skip(n) =~= x2);
}

/// A request never waits past its deadline: from the deadline on it is over,
/// and after the deadline it fails with the timeout reason, whatever the
/// processor did.
pub proof fn lemma_deadline_ends_wait(
    timeout_ms: u64,
    elapsed_ms: u64,
    reply: Option<Result<String, ProcessorError>>,
)
    requires
        elapsed_ms >= timeout_ms,
    ensures
        settle_view(timeout_ms, elapsed_ms, reply) is Some,
        elapsed_ms > timeout_ms ==> settle_view(timeout_ms, elapsed_ms, reply) == Some(
            Err::<Seq<char>, Seq<char>>(reason_of(ProcessorError::Timeout)),
        ),
{
}

} // verus!
