//! Errors of the SDK.
use crate::debug::{duration_text, write_duration};
use crate::thread::Thread;
use std::time::Duration;
use vstd::prelude::*;
use vstd::string::StringExecFns;

verus! {

/// SDK result type.
pub type Result<T> = std::result::Result<T, Error>;

/// Errors surfaced by the SDK boundary. An error that comes from outside is
/// kept as its text.
#[allow(inconsistent_fields)]
pub enum Error {
    /// Codex configuration could not be loaded or validated.
    Config { source: String },
    /// The Codex runtime failed to start or connect.
    RuntimeStart { source: String },
    /// In-process startup was attempted without Codex helper dispatch paths.
    Arg0DispatchRequired,
    /// The Codex runtime task failed while shutting down.
    RuntimeTask(String),
    /// The runtime or event channel has closed.
    RuntimeClosed,
    /// The single event stream owned by a thread has already been taken.
    ThreadEventStreamTaken { thread_id: String },
    /// Another resume or unarchive request already owns this thread lifecycle.
    ThreadLifecycleInProgress { thread_id: String },
    /// A temporary thread was created, but its first turn did not start.
    TemporaryTurnStart {
        /// Created thread id, retained so the caller can inspect or clean it up.
        thread_id: String,
        /// Created thread and its still-attached event stream.
        thread: Thread,
        /// Turn-start failure.
        source: Box<Error>,
    },
    /// The single runtime-level event stream has already been taken.
    CodexEventStreamTaken,
    /// A thread lifecycle request or response used an invalid Codex thread id.
    InvalidThreadId { thread_id: String },
    /// The app-server client did not finish shutting down in time.
    RuntimeShutdownTimeout { timeout: Duration },
    /// The app-server client failed while shutting down.
    RuntimeShutdown(String),
    /// A previous shutdown attempt completed with an error.
    RuntimeShutdownFailed { message: String },
    /// A Codex app-server protocol request failed.
    Protocol(String),
    /// Resolving or rejecting a server request failed.
    Approval(String),
    /// Resolving or rejecting a server request exceeded its bounded wait.
    ServerRequestResponseTimeout { timeout: Duration },
    /// Observability or OpenTelemetry setup failed.
    Observability { source: String },
    /// Filesystem or process I/O failed.
    Io(String),
    /// JSON serialization or deserialization failed.
    Serde(String),
}

impl Error {
    /// What the error says to people.
    pub open spec fn text(self) -> Seq<char>
        decreases self,
    {
        match self {
            Error::Config { source } => "failed to load Codex config: "@ + source@,
            Error::RuntimeStart { source } => "failed to start Codex runtime: "@ + source@,
            Error::Arg0DispatchRequired => "in-process Codex startup requires helper paths from run_main; use CodexMain::builder or provide arg0_paths explicitly"@,
            Error::RuntimeTask(source) => "Codex runtime task failed: "@ + source@,
            Error::RuntimeClosed => "Codex runtime is closed"@,
            Error::ThreadEventStreamTaken { thread_id } => "event stream for thread "@ + thread_id@
                + " has already been taken"@,
            Error::ThreadLifecycleInProgress { thread_id } => "a lifecycle request for thread "@ + thread_id@
                + " is already in progress"@,
            Error::TemporaryTurnStart { thread_id, source, .. } => "failed to start a turn after temporary thread "@
                + thread_id@ + " was created: "@ + source.text(),
            Error::CodexEventStreamTaken => "Codex runtime event stream has already been taken"@,
            Error::InvalidThreadId { thread_id } => "invalid Codex thread id: "@ + thread_id@,
            Error::RuntimeShutdownTimeout { timeout } => "Codex runtime shutdown timed out after "@ + duration_text(
                timeout,
            ),
            Error::RuntimeShutdown(source) => "failed to shut down Codex runtime: "@ + source@,
            Error::RuntimeShutdownFailed { message } => "Codex runtime shutdown previously failed: "@ + message@,
            Error::Protocol(source) => "Codex protocol error: "@ + source@,
            Error::Approval(source) => "approval request failed: "@ + source@,
            Error::ServerRequestResponseTimeout { timeout } => "server request response timed out after "@
                + duration_text(timeout),
            Error::Observability { source } => "observability setup failed: "@ + source@,
            Error::Io(source) => source@,
            Error::Serde(source) => source@,
        }
    }

    /// What the error says to people.
    pub fn message(&self) -> (message: String)
        ensures
            message@ == self.text(),
        decreases self,
    {
        match self {
            Error::Config { source } => joined("failed to load Codex config: ", source),
            Error::RuntimeStart { source } => joined("failed to start Codex runtime: ", source),
            Error::Arg0DispatchRequired => "in-process Codex startup requires helper paths from run_main; use CodexMain::builder or provide arg0_paths explicitly".to_owned(),
            Error::RuntimeTask(source) => joined("Codex runtime task failed: ", source),
            Error::RuntimeClosed => "Codex runtime is closed".to_owned(),
            Error::ThreadEventStreamTaken { thread_id } => joined("event stream for thread ", thread_id).concat(
                " has already been taken",
            ),
            Error::ThreadLifecycleInProgress { thread_id } => joined(
                "a lifecycle request for thread ",
                thread_id,
            ).concat(" is already in progress"),
            Error::TemporaryTurnStart { thread_id, source, .. } => {
                let front = joined("failed to start a turn after temporary thread ", thread_id).concat(
                    " was created: ",
                );
                let rest = source.message();
                front.concat(rest.as_str())
            },
            Error::CodexEventStreamTaken => "Codex runtime event stream has already been taken".to_owned(),
            Error::InvalidThreadId { thread_id } => joined("invalid Codex thread id: ", thread_id),
            Error::RuntimeShutdownTimeout { timeout } => joined(
                "Codex runtime shutdown timed out after ",
                &write_duration(timeout),
            ),
            Error::RuntimeShutdown(source) => joined("failed to shut down Codex runtime: ", source),
            Error::RuntimeShutdownFailed { message } => joined("Codex runtime shutdown previously failed: ", message),
            Error::Protocol(source) => joined("Codex protocol error: ", source),
            Error::Approval(source) => joined("approval request failed: ", source),
            Error::ServerRequestResponseTimeout { timeout } => joined(
                "server request response timed out after ",
                &write_duration(timeout),
            ),
            Error::Observability { source } => joined("observability setup failed: ", source),
            Error::Io(source) => source.clone(),
            Error::Serde(source) => source.clone(),
        }
    }

    /// The temporary thread retained after a partial turn-start failure.
    pub fn temporary_thread(&self) -> (retained: Option<&Thread>)
        ensures
            match retained {
                Some(retained) => self matches Error::TemporaryTurnStart { thread, .. } && *retained == thread,
                None => !(self is TemporaryTurnStart),
            },
    {
        match self {
            Error::TemporaryTurnStart { thread, .. } => Some(thread),
            _ => None,
        }
    }

    /// Consumes a partial turn-start failure into its thread and root error.
    pub fn into_temporary_turn_failure(self) -> (failure: Option<(Thread, Error)>)
        ensures
            match failure {
                Some(failure) => self matches Error::TemporaryTurnStart { thread, source, .. } && failure == (
                    thread,
                    *source,
                ),
                None => !(self is TemporaryTurnStart),
            },
    {
        match self {
            Error::TemporaryTurnStart { thread, source, .. } => Some((thread, *source)),
            _ => None,
        }
    }
}

/// `front` and then `back`.
fn joined(front: &str, back: &String) -> (text: String)
    ensures
        text@ == front@ + back@,
{
    front.to_owned().concat(back.as_str())
}

} // verus!
