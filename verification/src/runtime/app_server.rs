//! Request ids, and the answers to server requests.
use crate::debug::{seconds, whole_seconds};
use crate::error::{Error, Result};
use crate::event::RequestId;
use vstd::prelude::*;

verus! {

/// How long one answer to a server request may take, in seconds. Answers share
/// the event loop with the events, so an endless write would stop both.
pub const SERVER_RESPONSE_TIMEOUT_SECS: u64 = 30;

/// How many answers may wait for the event loop. They are rare, so the bound is
/// small and does not follow the capacity of the event streams.
pub const SERVER_RESPONSE_QUEUE_CAPACITY: usize = 32;

/// How long the app-server client may take to shut down, in seconds.
pub const SHUTDOWN_TIMEOUT_SECS: u64 = 10;

/// The JSON-RPC error code of a rejected server request.
pub const REJECTION_CODE: i64 = -32000;

/// The id after `last`.
pub open spec fn id_after(last: i64) -> i64 {
    if last == i64::MAX {
        i64::MIN
    } else {
        (last + 1) as i64
    }
}

/// Allocates request ids, so that no two requests share one.
pub struct RequestIds {
    last: i64,
}

impl View for RequestIds {
    type V = i64;

    closed spec fn view(&self) -> i64 {
        self.last
    }
}

impl RequestIds {
    /// No id has been allocated.
    pub fn new() -> (ids: Self)
        ensures
            ids@ == 0,
    {
        RequestIds { last: 0 }
    }

    /// Allocates the next id.
    pub fn next_request_id(&mut self) -> (id: RequestId)
        ensures
            final(self)@ == id_after(old(self)@),
            id == RequestId::Integer(id_after(old(self)@)),
    {
        self.last = if self.last == i64::MAX { i64::MIN } else { self.last + 1 };
        RequestId::Integer(self.last)
    }
}

/// The `count`th id after `last`.
pub open spec fn nth_id(last: i64, count: nat) -> i64
    decreases count,
{
    if count == 0 {
        last
    } else {
        id_after(nth_id(last, (count - 1) as nat))
    }
}

/// The `n`th request of a runtime has the id `n`, so no two requests share one
/// until the ids run out.
pub proof fn law_request_ids_count_up(n: nat)
    requires
        n <= i64::MAX,
    ensures
        nth_id(0, n) == n,
    decreases n,
{
    if n > 0 {
        law_request_ids_count_up((n - 1) as nat);
    }
}

/// A JSON-RPC error.
pub struct JsonRpcError {
    pub code: i64,
    pub message: String,
    pub data: Option<String>,
}

/// How a server request is answered.
pub enum ServerResponseAction {
    /// With a result, as JSON text.
    Resolve(String),
    /// With an error.
    Reject(JsonRpcError),
}

/// An answer on its way to the app-server.
pub struct ServerResponseCommand {
    pub request_id: RequestId,
    pub action: ServerResponseAction,
    /// When the answer is given up, in milliseconds.
    pub deadline: u64,
}

impl ServerResponseCommand {
    /// The answer gives the result `result` to the request `request_id`. It
    /// was started at the time `now`.
    pub open spec fn is_resolution(self, request_id: RequestId, result: Seq<char>, now: u64) -> bool {
        &&& self.request_id == request_id
        &&& self.action matches ServerResponseAction::Resolve(given) && given@ == result
        &&& self.deadline == now + SERVER_RESPONSE_TIMEOUT_SECS * 1000
    }

    /// Whether the answer is still written at the time `now`.
    pub open spec fn is_due(self, now: u64) -> bool {
        now < self.deadline
    }

    /// The answer refuses the request `request_id`. It was started at the time
    /// `now`.
    pub open spec fn is_rejection(self, request_id: RequestId, message: Seq<char>, now: u64) -> bool {
        &&& self.request_id == request_id
        &&& self.action matches ServerResponseAction::Reject(error) && error.code == REJECTION_CODE && error.message@
            == message && error.data is None
        &&& self.deadline == now + SERVER_RESPONSE_TIMEOUT_SECS * 1000
    }
}

/// From the moment it is started an answer has a fixed time to be written, in
/// the queue and on the wire together, whatever it says.
pub proof fn law_answers_have_a_fixed_time(
    command: ServerResponseCommand,
    request_id: RequestId,
    text: Seq<char>,
    started: u64,
    now: u64,
)
    requires
        command.is_resolution(request_id, text, started) || command.is_rejection(request_id, text, started),
    ensures
        command.is_due(now) <==> now < started + SERVER_RESPONSE_TIMEOUT_SECS * 1000,
{
}

/// What to do with an answer whose turn has come.
pub enum ServerResponseStep {
    /// Give it up.
    Finished(Result<()>),
    /// Write it, until its deadline.
    Write(ServerResponseCommand),
}

/// How writing an answer ended.
pub enum WriteOutcome {
    Finished(std::result::Result<(), String>),
    DeadlinePassed,
}

/// How waiting for an answer to be written ended.
pub enum WaitOutcome {
    /// The event loop takes no more answers.
    QueueClosed,
    /// The event loop has ended and dropped the answer.
    Dropped,
    /// The answer was written, or given up.
    Completed(Result<()>),
    DeadlinePassed,
}

/// How the shutdown of the app-server client ended.
pub enum ShutdownOutcome {
    Finished(std::result::Result<(), String>),
    TimedOut,
}

/// The answer took too long.
pub open spec fn is_response_timeout(result: Result<()>) -> bool {
    result matches Err(Error::ServerRequestResponseTimeout { timeout }) && timeout == whole_seconds(
        SERVER_RESPONSE_TIMEOUT_SECS,
    )
}

/// The error of an answer that took too long.
pub fn server_response_timeout() -> (result: Result<()>)
    ensures
        is_response_timeout(result),
{
    Err(Error::ServerRequestResponseTimeout { timeout: seconds(SERVER_RESPONSE_TIMEOUT_SECS) })
}

/// Starts an answer at the time `now`, in milliseconds.
pub fn send_server_response(request_id: RequestId, action: ServerResponseAction, now: u64) -> (command:
    ServerResponseCommand)
    requires
        now + SERVER_RESPONSE_TIMEOUT_SECS * 1000 <= u64::MAX,
    ensures
        command.request_id == request_id,
        command.action == action,
        command.deadline == now + SERVER_RESPONSE_TIMEOUT_SECS * 1000,
{
    ServerResponseCommand { request_id, action, deadline: now + SERVER_RESPONSE_TIMEOUT_SECS * 1000 }
}

/// Answers a server request with a result, given as JSON text.
pub fn resolve_server_request(request_id: RequestId, result: String, now: u64) -> (command: ServerResponseCommand)
    requires
        now + SERVER_RESPONSE_TIMEOUT_SECS * 1000 <= u64::MAX,
    ensures
        command.is_resolution(request_id, result@, now),
{
    send_server_response(request_id, ServerResponseAction::Resolve(result), now)
}

/// Answers a server request with an empty JSON object.
pub fn approve_server_request(request_id: RequestId, now: u64) -> (command: ServerResponseCommand)
    requires
        now + SERVER_RESPONSE_TIMEOUT_SECS * 1000 <= u64::MAX,
    ensures
        command.is_resolution(request_id, "{}"@, now),
{
    resolve_server_request(request_id, "{}".to_owned(), now)
}

/// Answers a server request with a refusal.
pub fn reject_server_request(request_id: RequestId, message: String, now: u64) -> (command: ServerResponseCommand)
    requires
        now + SERVER_RESPONSE_TIMEOUT_SECS * 1000 <= u64::MAX,
    ensures
        command.is_rejection(request_id, message@, now),
{
    send_server_response(
        request_id,
        ServerResponseAction::Reject(JsonRpcError { code: REJECTION_CODE, message, data: None }),
        now,
    )
}

/// Decides at the time `now` whether an answer is still written.
pub fn handle_response(response: ServerResponseCommand, now: u64) -> (step: ServerResponseStep)
    ensures
        if response.is_due(now) {
            step == ServerResponseStep::Write(response)
        } else {
            step matches ServerResponseStep::Finished(result) && is_response_timeout(result)
        },
{
    if now >= response.deadline {
        ServerResponseStep::Finished(server_response_timeout())
    } else {
        ServerResponseStep::Write(response)
    }
}

/// What becomes of an answer that was written until its deadline.
pub fn with_server_response_deadline(outcome: WriteOutcome) -> (result: Result<()>)
    ensures
        match outcome {
            WriteOutcome::Finished(Ok(())) => result is Ok,
            WriteOutcome::Finished(Err(source)) => result == Err::<(), Error>(Error::Approval(source)),
            WriteOutcome::DeadlinePassed => is_response_timeout(result),
        },
{
    match outcome {
        WriteOutcome::Finished(Ok(())) => Ok(()),
        WriteOutcome::Finished(Err(source)) => Err(Error::Approval(source)),
        WriteOutcome::DeadlinePassed => server_response_timeout(),
    }
}

/// What the caller learns of an answer it has waited for.
pub fn server_response_result(outcome: WaitOutcome) -> (result: Result<()>)
    ensures
        match outcome {
            WaitOutcome::QueueClosed | WaitOutcome::Dropped => result == Err::<(), Error>(Error::RuntimeClosed),
            WaitOutcome::Completed(completed) => result == completed,
            WaitOutcome::DeadlinePassed => is_response_timeout(result),
        },
{
    match outcome {
        WaitOutcome::QueueClosed | WaitOutcome::Dropped => Err(Error::RuntimeClosed),
        WaitOutcome::Completed(completed) => completed,
        WaitOutcome::DeadlinePassed => server_response_timeout(),
    }
}

/// What becomes of the shutdown of the app-server client.
pub fn client_shutdown_result(outcome: ShutdownOutcome) -> (result: Result<()>)
    ensures
        match outcome {
            ShutdownOutcome::Finished(Ok(())) => result is Ok,
            ShutdownOutcome::Finished(Err(source)) => result == Err::<(), Error>(Error::RuntimeShutdown(source)),
            ShutdownOutcome::TimedOut => result matches Err(Error::RuntimeShutdownTimeout { timeout }) && timeout
                == whole_seconds(SHUTDOWN_TIMEOUT_SECS),
        },
{
    match outcome {
        ShutdownOutcome::Finished(Ok(())) => Ok(()),
        ShutdownOutcome::Finished(Err(source)) => Err(Error::RuntimeShutdown(source)),
        ShutdownOutcome::TimedOut => Err(Error::RuntimeShutdownTimeout { timeout: seconds(SHUTDOWN_TIMEOUT_SECS) }),
    }
}

} // verus!
