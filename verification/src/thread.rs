//! Reusable conversation threads.
use crate::client::{stream_received, Codex, CodexModel, PendingArchive, PendingThread};
use crate::debug::{field, field_models, quoted, struct_text, text_field, write_struct};
use crate::error::{Error, Result};
use crate::event::{AppServerEvent, RequestId};
use crate::path::{cwd_to_string, lossy_path_text};
use crate::protocol::{
    AskForApproval, ClientRequest, Personality, SandboxMode, ThreadForkParams, ThreadSource, ThreadStartModel,
    ThreadStartParams, TurnStartModel, TurnStartParams,
};
use crate::runtime::app_server::{self, ServerResponseCommand, SERVER_RESPONSE_TIMEOUT_SECS};
use crate::runtime::events::EventReceiver;
use crate::runtime::mailbox::TryRecvError;
use crate::thread_defaults::EnvironmentAccess;
use crate::turn::{IntoTurnInput, TurnBuilder};
use crate::types::ThreadId;
use std::path::PathBuf;
use vstd::prelude::*;

verus! {

/// Reusable Codex conversation thread.
///
/// A thread keeps Codex context across turns. Callers must not start
/// overlapping turns for the same thread id; the SDK does not serialize them.
/// Clones of a thread share its one event stream.
pub struct Thread {
    id: ThreadId,
    stream: usize,
}

/// What a [`Thread`] stands for: its id, and which of the attached streams is
/// its own.
pub struct ThreadModel {
    pub id: Seq<char>,
    pub stream: int,
}

impl View for Thread {
    type V = ThreadModel;

    closed spec fn view(&self) -> ThreadModel {
        ThreadModel { id: self.id@, stream: self.stream as int }
    }
}

impl Clone for Thread {
    fn clone(&self) -> (copy: Self)
        ensures
            copy == *self,
    {
        Thread { id: self.id.clone(), stream: self.stream }
    }
}

/// What taking the stream of a thread does.
pub open spec fn stream_taken(
    before: CodexModel,
    after: CodexModel,
    taken: Result<ThreadEventStream>,
    thread: Thread,
) -> bool {
    let stream = thread@.stream;
    if 0 <= stream < before.streams.len() && before.streams[stream] is Some {
        taken matches Ok(events) && events.owner() == thread && before.streams[stream] == Some(events.slot()) && after
            == before.without_stream(stream)
    } else {
        taken matches Err(Error::ThreadEventStreamTaken { thread_id }) && thread_id@ == thread@.id && after == before
    }
}

impl Thread {
    pub(crate) fn from_id(id: ThreadId, stream: usize) -> (thread: Self)
        ensures
            thread@ == (ThreadModel { id: id@, stream: stream as int }),
    {
        Thread { id, stream }
    }

    /// Codex-assigned thread id.
    pub fn id(&self) -> (id: &str)
        ensures
            id@ == self@.id,
    {
        self.id.as_str()
    }

    /// What the debug form of a handle says.
    pub open spec fn debug(self) -> Seq<char> {
        struct_text("Thread"@, seq![field("id"@, quoted(self@.id))], true)
    }

    /// The debug form of a handle: its id and no more.
    pub fn debug_text(&self) -> (text: String)
        ensures
            text@ == self.debug(),
    {
        let fields = vec![text_field("id", self.id())];
        assert(field_models(fields@) =~= seq![field("id"@, quoted(self@.id))]);
        write_struct("Thread", fields, true)
    }

    /// Takes this thread's long-lived event stream, which spans all of its
    /// turns. It can be taken once, from any clone.
    pub fn event_stream(&self, codex: &mut Codex) -> (taken: Result<ThreadEventStream>)
        requires
            old(codex).wf(),
        ensures
            final(codex).wf(),
            stream_taken(old(codex)@, final(codex)@, taken, *self),
    {
        match codex.take_stream(self.stream) {
            Some(event_rx) => Ok(ThreadEventStream { thread: self.clone(), event_rx }),
            None => Err(Error::ThreadEventStreamTaken { thread_id: self.id.clone() }),
        }
    }

    /// Drops the last clone of a thread: a stream that nobody has taken is
    /// given back.
    pub fn release(self, codex: &mut Codex)
        requires
            old(codex).wf(),
        ensures
            final(codex).wf(),
            ({
                let before = old(codex)@;
                let stream = self@.stream;
                if 0 <= stream < before.streams.len() && before.streams[stream] is Some {
                    let untaken = before.without_stream(stream);
                    final(codex)@ == untaken.with_events(
                        untaken.runtime.events.release(before.streams[stream]->0),
                    )
                } else {
                    final(codex)@ == before
                }
            }),
    {
        match codex.take_stream(self.stream) {
            Some(event_rx) => codex.release(event_rx),
            None => {},
        }
    }

    /// Starts building a turn from user input.
    ///
    /// Do not start it while another turn for this thread id is active.
    pub fn turn<I: IntoTurnInput>(&self, input: I) -> (builder: TurnBuilder)
        ensures
            builder.thread == *self,
            builder.params@ == (TurnStartModel { input: input.turn_input(), ..TurnStartModel::empty() }),
    {
        TurnBuilder::new(self.clone(), input)
    }

    /// Starts building a turn from native `turn/start` parameters.
    ///
    /// Do not start it while another turn for this thread id is active.
    pub fn turn_params(&self, params: TurnStartParams) -> (builder: TurnBuilder)
        ensures
            builder.thread == *self,
            builder.params == params,
    {
        TurnBuilder::from_params(self.clone(), params)
    }

    /// Reads this thread from Codex state.
    pub fn read(&self, codex: &mut Codex, include_turns: bool) -> (request: ClientRequest)
        ensures
            request matches ClientRequest::ThreadRead { request_id, thread_id, include_turns: turns } && request_id
                == old(codex)@.next_id() && thread_id@ == self@.id && turns == include_turns,
            final(codex)@ == old(codex)@.requested(),
    {
        ClientRequest::ThreadRead { request_id: codex.next_request_id(), thread_id: self.id.clone(), include_turns }
    }

    /// Updates this thread's display name.
    pub fn set_name(&self, codex: &mut Codex, name: String) -> (request: ClientRequest)
        ensures
            request matches ClientRequest::ThreadSetName { request_id, thread_id, name: new_name } && request_id
                == old(codex)@.next_id() && thread_id@ == self@.id && new_name == name,
            final(codex)@ == old(codex)@.requested(),
    {
        ClientRequest::ThreadSetName { request_id: codex.next_request_id(), thread_id: self.id.clone(), name }
    }

    /// Starts compaction for this thread.
    pub fn compact(&self, codex: &mut Codex) -> (request: ClientRequest)
        ensures
            request matches ClientRequest::ThreadCompactStart { request_id, thread_id } && request_id
                == old(codex)@.next_id() && thread_id@ == self@.id,
            final(codex)@ == old(codex)@.requested(),
    {
        ClientRequest::ThreadCompactStart { request_id: codex.next_request_id(), thread_id: self.id.clone() }
    }

    /// Forks this thread into a new reusable thread.
    pub fn fork(&self, codex: &mut Codex) -> (started: (ClientRequest, PendingThread))
        ensures
            started.0 matches ClientRequest::ThreadFork { request_id, params } && request_id == old(codex)@.next_id()
                && params.thread_id@ == self@.id && params.thread_source == Some(ThreadSource::User) && params.extra
                is None,
            final(codex)@ == old(codex)@.requested(),
    {
        codex.fork_thread(self.id.clone())
    }

    /// Forks this thread using native `thread/fork` parameters. The thread id
    /// is always this thread's.
    pub fn fork_params(&self, codex: &mut Codex, params: ThreadForkParams) -> (started: (
        ClientRequest,
        PendingThread,
    ))
        ensures
            started.0 matches ClientRequest::ThreadFork { request_id, params: sent } && request_id
                == old(codex)@.next_id() && sent.thread_id@ == self@.id && sent.extra == params.extra
                && sent.thread_source == (if params.thread_source is None {
                Some(ThreadSource::User)
            } else {
                params.thread_source
            }),
            final(codex)@ == old(codex)@.requested(),
    {
        let params = ThreadForkParams {
            thread_id: self.id.clone(),
            thread_source: params.thread_source,
            extra: params.extra,
        };
        codex.fork_thread_params(params)
    }

    /// Archives this thread. Once the response has been taken in, the thread's
    /// stream ends with the notification that it was archived.
    pub fn archive(&self, codex: &mut Codex) -> (started: (ClientRequest, PendingArchive))
        ensures
            started.0 matches ClientRequest::ThreadArchive { request_id, thread_id } && request_id
                == old(codex)@.next_id() && thread_id@ == self@.id,
            started.1@ == self@.id,
            final(codex)@ == old(codex)@.requested(),
    {
        codex.archive_thread(self.id.clone())
    }
}

/// Long-lived stream of events for one [`Thread`].
///
/// It yields only requests and notifications of this thread, and the end of
/// the connection before it ends.
pub struct ThreadEventStream {
    thread: Thread,
    event_rx: EventReceiver,
}

impl ThreadEventStream {
    /// The thread whose events the stream yields.
    pub closed spec fn owner(self) -> Thread {
        self.thread
    }

    /// The attachment that serves the stream.
    pub closed spec fn slot(self) -> usize {
        self.event_rx.slot()
    }

    /// Thread whose events this stream yields.
    pub fn thread(&self) -> (thread: &Thread)
        ensures
            *thread == self.owner(),
    {
        &self.thread
    }

    /// Thread id this stream belongs to.
    pub fn thread_id(&self) -> (id: &str)
        ensures
            id@ == self.owner()@.id,
    {
        self.thread.id()
    }

    /// Takes the next event.
    pub fn try_recv(&self, codex: &mut Codex) -> (received: std::result::Result<AppServerEvent, TryRecvError>)
        requires
            old(codex).wf(),
        ensures
            final(codex).wf(),
            final(codex)@ == old(codex)@.with_events(old(codex)@.runtime.events.recv(self.slot())),
            stream_received(old(codex)@, received, self.slot()),
    {
        codex.try_recv(&self.event_rx)
    }

    /// Answers a server request with a result, given as JSON text, at the time
    /// `now` in milliseconds.
    pub fn resolve_server_request(&self, request_id: RequestId, result: String, now: u64) -> (command:
        ServerResponseCommand)
        requires
            now + SERVER_RESPONSE_TIMEOUT_SECS * 1000 <= u64::MAX,
        ensures
            command.is_resolution(request_id, result@, now),
    {
        app_server::resolve_server_request(request_id, result, now)
    }

    /// Answers a server request with an empty JSON object.
    pub fn approve_server_request(&self, request_id: RequestId, now: u64) -> (command: ServerResponseCommand)
        requires
            now + SERVER_RESPONSE_TIMEOUT_SECS * 1000 <= u64::MAX,
        ensures
            command.is_resolution(request_id, "{}"@, now),
    {
        app_server::approve_server_request(request_id, now)
    }

    /// Answers a server request with a refusal.
    pub fn reject_server_request(&self, request_id: RequestId, message: String, now: u64) -> (command:
        ServerResponseCommand)
        requires
            now + SERVER_RESPONSE_TIMEOUT_SECS * 1000 <= u64::MAX,
        ensures
            command.is_rejection(request_id, message@, now),
    {
        app_server::reject_server_request(request_id, message, now)
    }

    /// Gives the stream back. An active turn is not interrupted.
    pub fn release(self, codex: &mut Codex)
        requires
            old(codex).wf(),
        ensures
            final(codex).wf(),
            final(codex)@ == old(codex)@.with_events(old(codex)@.runtime.events.release(self.slot())),
    {
        codex.release(self.event_rx)
    }
}

/// Clones of a thread share one stream: once it is taken, every clone reports
/// that.
pub proof fn law_thread_streams_are_taken_once(
    before: CodexModel,
    between: CodexModel,
    after: CodexModel,
    thread: Thread,
    first: Result<ThreadEventStream>,
    second: Result<ThreadEventStream>,
)
    requires
        stream_taken(before, between, first, thread),
        stream_taken(between, after, second, thread),
    ensures
        second matches Err(Error::ThreadEventStreamTaken { thread_id }) && thread_id@ == thread@.id,
        after == between,
{
}

/// Builder for creating a [`Thread`].
pub struct ThreadBuilder {
    /// Native parameters sent with `thread/start`.
    pub params: ThreadStartParams,
}

impl ThreadBuilder {
    /// A builder with the runtime's defaults.
    pub fn new(codex: &Codex) -> (builder: Self)
        ensures
            builder.params@ == codex@.default_thread_params,
    {
        ThreadBuilder { params: codex.default_thread_params().clone() }
    }

    /// Replaces the native `thread/start` parameters.
    pub fn params(self, params: ThreadStartParams) -> (builder: Self)
        ensures
            builder.params == params,
    {
        ThreadBuilder { params }
    }

    /// Sets the thread working directory.
    pub fn cwd(self, cwd: PathBuf) -> (builder: Self)
        ensures
            builder.params@ == (ThreadStartModel { cwd: Some(lossy_path_text(cwd)), ..self.params@ }),
    {
        ThreadBuilder { params: ThreadStartParams { cwd: Some(cwd_to_string(&cwd)), ..self.params } }
    }

    /// Sets the thread default model.
    pub fn model(self, model: String) -> (builder: Self)
        ensures
            builder.params@ == (ThreadStartModel { model: Some(model@), ..self.params@ }),
    {
        ThreadBuilder { params: ThreadStartParams { model: Some(model), ..self.params } }
    }

    /// Sets the thread default model provider.
    pub fn model_provider(self, model_provider: String) -> (builder: Self)
        ensures
            builder.params@ == (ThreadStartModel { model_provider: Some(model_provider@), ..self.params@ }),
    {
        ThreadBuilder { params: ThreadStartParams { model_provider: Some(model_provider), ..self.params } }
    }

    /// Sets the thread default service tier.
    pub fn service_tier(self, service_tier: String) -> (builder: Self)
        ensures
            builder.params@ == (ThreadStartModel { service_tier: Some(Some(service_tier@)), ..self.params@ }),
    {
        ThreadBuilder { params: ThreadStartParams { service_tier: Some(Some(service_tier)), ..self.params } }
    }

    /// Clears the thread default service tier.
    pub fn clear_service_tier(self) -> (builder: Self)
        ensures
            builder.params@ == (ThreadStartModel { service_tier: Some(None), ..self.params@ }),
    {
        ThreadBuilder { params: ThreadStartParams { service_tier: Some(None), ..self.params } }
    }

    /// Sets the thread default model personality.
    pub fn personality(self, personality: Personality) -> (builder: Self)
        ensures
            builder.params@ == (ThreadStartModel { personality: Some(personality), ..self.params@ }),
    {
        ThreadBuilder { params: ThreadStartParams { personality: Some(personality), ..self.params } }
    }

    /// Replaces Codex's native base instructions for this thread. An empty text
    /// disables them.
    pub fn base_instructions(self, instructions: String) -> (builder: Self)
        ensures
            builder.params@ == (ThreadStartModel { base_instructions: Some(instructions@), ..self.params@ }),
    {
        ThreadBuilder { params: ThreadStartParams { base_instructions: Some(instructions), ..self.params } }
    }

    /// Adds developer instructions for this thread.
    pub fn developer_instructions(self, instructions: String) -> (builder: Self)
        ensures
            builder.params@ == (ThreadStartModel { developer_instructions: Some(instructions@), ..self.params@ }),
    {
        ThreadBuilder { params: ThreadStartParams { developer_instructions: Some(instructions), ..self.params } }
    }

    /// Sets the thread default approval policy.
    pub fn approval_policy(self, approval_policy: AskForApproval) -> (builder: Self)
        ensures
            builder.params@ == (ThreadStartModel { approval_policy: Some(approval_policy), ..self.params@ }),
    {
        ThreadBuilder { params: ThreadStartParams { approval_policy: Some(approval_policy), ..self.params } }
    }

    /// Sets the thread default sandbox.
    pub fn sandbox(self, sandbox: SandboxMode) -> (builder: Self)
        ensures
            builder.params@ == (ThreadStartModel { sandbox: Some(sandbox), ..self.params@ }),
    {
        ThreadBuilder { params: ThreadStartParams { sandbox: Some(sandbox), ..self.params } }
    }

    /// Selects the thread's execution environments.
    pub fn environment_access(self, access: EnvironmentAccess) -> (builder: Self)
        ensures
            builder.params@ == (ThreadStartModel { environments: access.sent(), ..self.params@ }),
    {
        let mut params = self.params;
        access.apply_to_thread(&mut params);
        ThreadBuilder { params }
    }

    /// Sets whether Codex should store this thread as ephemeral state.
    pub fn ephemeral(self, ephemeral: bool) -> (builder: Self)
        ensures
            builder.params@ == (ThreadStartModel { ephemeral: Some(ephemeral), ..self.params@ }),
    {
        ThreadBuilder { params: ThreadStartParams { ephemeral: Some(ephemeral), ..self.params } }
    }

    /// Creates the thread in the Codex runtime. Without a thread source it is
    /// the user's.
    pub fn start(self, codex: &mut Codex) -> (started: (ClientRequest, PendingThread))
        ensures
            started.0 matches ClientRequest::ThreadStart { request_id, params } && request_id == old(codex)@.next_id()
                && params@ == user_thread(self.params@),
            final(codex)@ == old(codex)@.requested(),
    {
        let mut params = self.params;
        if params.thread_source.is_none() {
            params.thread_source = Some(ThreadSource::User);
        }
        (ClientRequest::ThreadStart { request_id: codex.next_request_id(), params }, PendingThread {  })
    }
}

/// `params`, with the user as the thread source where there is none.
pub open spec fn user_thread(params: ThreadStartModel) -> ThreadStartModel {
    if params.thread_source is None {
        ThreadStartModel { thread_source: Some(ThreadSource::User), ..params }
    } else {
        params
    }
}

} // verus!
