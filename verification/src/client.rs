//! The shared state of a connected Codex runtime, and the requests it makes.
//!
//! A request that needs its response comes in two parts: the first gives the
//! request to send, and what it leaves takes the response.
use crate::error::{Error, Result};
use crate::event::{AppServerEvent, RequestId};
use crate::protocol::{
    ClientRequest, GetAccountParams, ModelListParams, ThreadForkParams, ThreadListParams, ThreadResumeParams,
    ThreadSource, ThreadStartModel, ThreadStartParams, TurnStartModel, TurnStartParams,
};
use crate::runtime::app_server::{self, id_after, ServerResponseCommand, SERVER_RESPONSE_TIMEOUT_SECS};
use crate::runtime::events::{
    archive_completed, is_invalid_id, parse_thread_id, refused_with, EventReceiver, ThreadEventReservation,
};
use crate::runtime::mailbox::TryRecvError;
use crate::runtime::route_model::{AttachRefusal, RouterModel, ThreadAttachmentKind};
use crate::runtime::shutdown::{task_result, ShutdownStep};
use crate::runtime::start::{RuntimeHandle, RuntimeModel};
use crate::thread::{Thread, ThreadBuilder};
use crate::thread_id::canonical_thread_id;
use crate::turn::{CodexTurnBuilder, IntoTurnInput};
use crate::types::ThreadId;
use vstd::prelude::*;

verus! {

/// What a [`Codex`] stands for.
#[verifier::ext_equal]
pub struct CodexModel {
    pub runtime: RuntimeModel,
    pub default_thread_params: ThreadStartModel,
    /// The stream of each thread attached so far, where nobody has taken it.
    pub streams: Seq<Option<usize>>,
}

impl CodexModel {
    /// A runtime without threads.
    pub open spec fn started(runtime: RuntimeModel, default_thread_params: ThreadStartModel) -> Self {
        CodexModel { runtime, default_thread_params, streams: Seq::empty() }
    }

    /// The id of the next request.
    pub open spec fn next_id(self) -> RequestId {
        RequestId::Integer(id_after(self.runtime.last_id))
    }

    /// The state after one more request.
    pub open spec fn requested(self) -> Self {
        CodexModel { runtime: RuntimeModel { last_id: id_after(self.runtime.last_id), ..self.runtime }, ..self }
    }

    /// The state with other routes.
    pub open spec fn with_events(self, events: RouterModel) -> Self {
        CodexModel { runtime: RuntimeModel { events, ..self.runtime }, ..self }
    }

    /// The state with one more thread, whose stream is `slot`.
    pub open spec fn with_stream(self, slot: usize) -> Self {
        CodexModel { streams: self.streams.push(Some(slot)), ..self }
    }

    /// The state after the stream of a thread has been taken.
    pub open spec fn without_stream(self, stream: int) -> Self {
        CodexModel { streams: self.streams.update(stream, None), ..self }
    }
}

/// What attaching the thread that `text` names, with the canonical id `id`,
/// does.
pub open spec fn parsed_thread_attached(
    before: CodexModel,
    after: CodexModel,
    attached: Result<Thread>,
    text: Seq<char>,
    id: Seq<char>,
) -> bool {
    match before.runtime.events.attach_refusal(id) {
        Some(refusal) => attached matches Err(error) && refused_with(error, refusal, id) && after == before,
        None => attached matches Ok(thread) && thread@.id == text && thread@.stream == before.streams.len() && exists|
            slot: usize,
        |
            !before.runtime.events.attachments.contains_key(slot) && after == #[trigger] before.with_events(
                before.runtime.events.take_thread(id, slot),
            ).with_stream(slot),
    }
}

/// What attaching the thread that `text` names does.
pub open spec fn thread_attached(
    before: CodexModel,
    after: CodexModel,
    attached: Result<Thread>,
    text: Seq<char>,
) -> bool {
    match canonical_thread_id(text) {
        Some(id) => parsed_thread_attached(before, after, attached, text, id),
        None => attached matches Err(error) && is_invalid_id(error, text) && after == before,
    }
}

/// What attaching a reserved thread does. The app-server calls it `text`.
pub open spec fn thread_reattached(
    before: CodexModel,
    after: CodexModel,
    attached: Result<Thread>,
    text: Seq<char>,
    reservation: ThreadEventReservation,
) -> bool {
    let events = before.runtime.events;
    let id = reservation.thread_id();
    let generation = reservation.generation();
    if events.closed {
        attached matches Err(error) && error is RuntimeClosed && after == before
    } else if events.holds_reservation(id, generation) {
        attached matches Ok(thread) && thread@.id == text && thread@.stream == before.streams.len() && exists|
            slot: usize,
        |
            !events.attachments.contains_key(slot) && after == #[trigger] before.with_events(
                events.claim(id, generation, slot),
            ).with_stream(slot)
    } else {
        attached matches Err(error) && refused_with(error, AttachRefusal::LifecycleInProgress, id) && after
            == before.with_events(events.touch(id))
    }
}

/// Shared state of a connected Codex runtime and its default thread options.
pub struct Codex {
    runtime: RuntimeHandle,
    default_thread_params: ThreadStartParams,
    streams: Vec<Option<EventReceiver>>,
}

/// The slots of streams that nobody has taken.
spec fn untaken(streams: Seq<Option<EventReceiver>>) -> Seq<Option<usize>> {
    streams.map_values(
        |stream: Option<EventReceiver>|
            match stream {
                Some(receiver) => Some(receiver.slot()),
                None => None,
            },
    )
}

impl View for Codex {
    type V = CodexModel;

    closed spec fn view(&self) -> CodexModel {
        CodexModel {
            runtime: self.runtime@,
            default_thread_params: self.default_thread_params@,
            streams: untaken(self.streams@),
        }
    }
}

impl Codex {
    /// The state is in order.
    pub open spec fn wf(self) -> bool {
        self@.runtime.events.wf()
    }

    /// The state of a runtime that has just been started.
    pub fn from_runtime(runtime: RuntimeHandle, default_thread_params: ThreadStartParams) -> (codex: Self)
        requires
            runtime.wf(),
        ensures
            codex.wf(),
            codex@ == CodexModel::started(runtime@, default_thread_params@),
    {
        let codex = Codex { runtime, default_thread_params, streams: Vec::new() };
        assert(codex@.streams =~= Seq::<Option<usize>>::empty());
        codex
    }

    /// The runtime connection.
    pub fn runtime_mut(&mut self) -> (runtime: &mut RuntimeHandle)
        ensures
            runtime@ == old(self)@.runtime,
            final(self)@ == (CodexModel { runtime: final(runtime)@, ..old(self)@ }),
    {
        &mut self.runtime
    }

    /// Native defaults copied into new thread builders.
    pub fn default_thread_params(&self) -> (params: &ThreadStartParams)
        ensures
            params@ == self@.default_thread_params,
    {
        &self.default_thread_params
    }

    /// Allocates a request id. Ids chosen otherwise may collide with those of
    /// the SDK's own requests.
    pub fn next_request_id(&mut self) -> (id: RequestId)
        ensures
            id == old(self)@.next_id(),
            final(self)@ == old(self)@.requested(),
    {
        self.runtime.next_request_id()
    }

    /// Starts building a reusable Codex thread.
    pub fn thread(&self) -> (builder: ThreadBuilder)
        ensures
            builder.params@ == self@.default_thread_params,
    {
        ThreadBuilder::new(self)
    }

    /// Starts building a turn in a temporary thread.
    pub fn turn<I: IntoTurnInput>(&self, input: I) -> (builder: CodexTurnBuilder)
        ensures
            builder.thread_params@ == self@.default_thread_params,
            builder.turn_params@ == (TurnStartModel { input: input.turn_input(), ..TurnStartModel::empty() }),
    {
        CodexTurnBuilder::new(self, input)
    }

    /// Starts building a turn from native `turn/start` parameters in a
    /// temporary thread.
    pub fn turn_params(&self, params: TurnStartParams) -> (builder: CodexTurnBuilder)
        ensures
            builder.thread_params@ == self@.default_thread_params,
            builder.turn_params == params,
    {
        CodexTurnBuilder::from_params(self, params)
    }

    /// Takes the runtime's stream of events that belong to no thread. It can be
    /// taken once.
    pub fn event_stream(&mut self) -> (taken: Result<CodexEventStream>)
        requires
            old(self).wf(),
        ensures
            final(self).wf(),
            if old(self)@.runtime.events.closed {
                taken matches Err(error) && error is RuntimeClosed && final(self)@ == old(self)@
            } else if !(old(self)@.runtime.events.runtime is Pending) {
                taken matches Err(error) && error is CodexEventStreamTaken && final(self)@ == old(self)@
            } else {
                taken matches Ok(stream) && !old(self)@.runtime.events.attachments.contains_key(stream.slot())
                    && final(self)@ == old(self)@.with_events(old(self)@.runtime.events.take_runtime(stream.slot()))
            },
    {
        match self.runtime.events_mut().take_runtime() {
            Ok(event_rx) => Ok(CodexEventStream { event_rx }),
            Err(error) => Err(error),
        }
    }

    /// Answers a server request with a result, given as JSON text, at the time
    /// `now` in milliseconds.
    pub fn resolve_server_request(&self, request_id: RequestId, result: String, now: u64) -> (command:
        ServerResponseCommand)
        requires
            now + SERVER_RESPONSE_TIMEOUT_SECS * 1000 <= u64::MAX,
        ensures
            command.is_resolution(request_id, result@, now),
    {
        self.runtime.resolve_server_request(request_id, result, now)
    }

    /// Answers a server request with an empty JSON object.
    pub fn approve_server_request(&self, request_id: RequestId, now: u64) -> (command: ServerResponseCommand)
        requires
            now + SERVER_RESPONSE_TIMEOUT_SECS * 1000 <= u64::MAX,
        ensures
            command.is_resolution(request_id, "{}"@, now),
    {
        self.resolve_server_request(request_id, "{}".to_owned(), now)
    }

    /// Answers a server request with a refusal.
    pub fn reject_server_request(&self, request_id: RequestId, message: String, now: u64) -> (command:
        ServerResponseCommand)
        requires
            now + SERVER_RESPONSE_TIMEOUT_SECS * 1000 <= u64::MAX,
        ensures
            command.is_rejection(request_id, message@, now),
    {
        self.runtime.reject_server_request(request_id, message, now)
    }

    /// A caller asks for the shutdown of the runtime connection.
    pub fn shutdown(&mut self) -> (step: ShutdownStep)
        ensures
            old(self)@.runtime.shutdown.is_step(step),
            final(self)@ == (CodexModel {
                runtime: RuntimeModel { shutdown: old(self)@.runtime.shutdown.begun(), ..old(self)@.runtime },
                ..old(self)@
            }),
    {
        self.runtime.shutdown()
    }

    /// A caller has seen the end of the event loop.
    pub fn complete_shutdown(&mut self, joined: std::result::Result<Result<()>, String>) -> (result: Result<()>)
        ensures
            result == task_result(joined),
            final(self)@ == (CodexModel {
                runtime: RuntimeModel {
                    shutdown: old(self)@.runtime.shutdown.completed(result),
                    ..old(self)@.runtime
                },
                ..old(self)@
            }),
    {
        self.runtime.complete_shutdown(joined)
    }

    /// Lists available Codex models that are not hidden.
    pub fn models(&mut self) -> (request: ClientRequest)
        ensures
            request == (ClientRequest::ModelList {
                request_id: old(self)@.next_id(),
                params: ModelListParams { include_hidden: Some(false), cursor: None, limit: None },
            }),
            final(self)@ == old(self)@.requested(),
    {
        self.models_params(ModelListParams { include_hidden: Some(false), cursor: None, limit: None })
    }

    /// Lists available Codex models.
    pub fn models_params(&mut self, params: ModelListParams) -> (request: ClientRequest)
        ensures
            request == (ClientRequest::ModelList { request_id: old(self)@.next_id(), params }),
            final(self)@ == old(self)@.requested(),
    {
        ClientRequest::ModelList { request_id: self.next_request_id(), params }
    }

    /// Reads the current account state without forcing a token refresh.
    pub fn account(&mut self) -> (request: ClientRequest)
        ensures
            request == (ClientRequest::GetAccount {
                request_id: old(self)@.next_id(),
                params: GetAccountParams { refresh_token: false },
            }),
            final(self)@ == old(self)@.requested(),
    {
        self.account_params(GetAccountParams { refresh_token: false })
    }

    /// Reads the current account state.
    pub fn account_params(&mut self, params: GetAccountParams) -> (request: ClientRequest)
        ensures
            request == (ClientRequest::GetAccount { request_id: old(self)@.next_id(), params }),
            final(self)@ == old(self)@.requested(),
    {
        ClientRequest::GetAccount { request_id: self.next_request_id(), params }
    }

    /// Lists saved threads.
    pub fn list_threads(&mut self) -> (request: ClientRequest)
        ensures
            request matches ClientRequest::ThreadList { request_id, params } && request_id == old(self)@.next_id()
                && params == unfiltered_threads(),
            final(self)@ == old(self)@.requested(),
    {
        self.list_threads_params(default_thread_list_params())
    }

    /// Lists saved threads.
    pub fn list_threads_params(&mut self, params: ThreadListParams) -> (request: ClientRequest)
        ensures
            request == (ClientRequest::ThreadList { request_id: old(self)@.next_id(), params }),
            final(self)@ == old(self)@.requested(),
    {
        ClientRequest::ThreadList { request_id: self.next_request_id(), params }
    }

    /// Forks a saved thread.
    pub fn fork_thread(&mut self, thread_id: String) -> (started: (ClientRequest, PendingThread))
        ensures
            started.0 == (ClientRequest::ThreadFork {
                request_id: old(self)@.next_id(),
                params: ThreadForkParams { thread_id, thread_source: Some(ThreadSource::User), extra: None },
            }),
            final(self)@ == old(self)@.requested(),
    {
        self.fork_thread_params(ThreadForkParams { thread_id, thread_source: None, extra: None })
    }

    /// Forks a saved thread. Without a thread source the fork is the user's.
    pub fn fork_thread_params(&mut self, params: ThreadForkParams) -> (started: (ClientRequest, PendingThread))
        ensures
            started.0 == (ClientRequest::ThreadFork {
                request_id: old(self)@.next_id(),
                params: ThreadForkParams {
                    thread_source: if params.thread_source is None {
                        Some(ThreadSource::User)
                    } else {
                        params.thread_source
                    },
                    ..params
                },
            }),
            final(self)@ == old(self)@.requested(),
    {
        let thread_source = match params.thread_source {
            Some(source) => Some(source),
            None => Some(ThreadSource::User),
        };
        let params = ThreadForkParams { thread_id: params.thread_id, thread_source, extra: params.extra };
        (ClientRequest::ThreadFork { request_id: self.next_request_id(), params }, PendingThread {  })
    }

    /// Archives a saved thread.
    pub fn archive_thread(&mut self, thread_id: String) -> (started: (ClientRequest, PendingArchive))
        ensures
            started.0 == (ClientRequest::ThreadArchive { request_id: old(self)@.next_id(), thread_id }),
            started.1@ == thread_id@,
            final(self)@ == old(self)@.requested(),
    {
        let request = ClientRequest::ThreadArchive {
            request_id: self.next_request_id(),
            thread_id: thread_id.clone(),
        };
        (request, PendingArchive { thread_id })
    }

    /// Resumes a saved thread.
    pub fn resume_thread(&mut self, thread_id: String) -> (started: Result<(ClientRequest, PendingReattachment)>)
        requires
            old(self).wf(),
        ensures
            final(self).wf(),
            reattachment_started(old(self)@, final(self)@, started, thread_id@, ThreadAttachmentKind::Resume),
            started matches Ok(pair) ==> pair.0 == (ClientRequest::ThreadResume {
                request_id: old(self)@.next_id(),
                params: ThreadResumeParams { thread_id, extra: None },
            }),
    {
        self.resume_thread_params(ThreadResumeParams { thread_id, extra: None })
    }

    /// Resumes a saved thread. While the request is on its way nobody else can
    /// attach the thread.
    pub fn resume_thread_params(&mut self, params: ThreadResumeParams) -> (started: Result<
        (ClientRequest, PendingReattachment),
    >)
        requires
            old(self).wf(),
        ensures
            final(self).wf(),
            reattachment_started(old(self)@, final(self)@, started, params.thread_id@, ThreadAttachmentKind::Resume),
            started matches Ok(pair) ==> pair.0 == (ClientRequest::ThreadResume {
                request_id: old(self)@.next_id(),
                params,
            }),
    {
        let requested_thread_id = params.thread_id.clone();
        match self.runtime.events_mut().prepare_thread(requested_thread_id.as_str(), ThreadAttachmentKind::Resume) {
            Ok(reservation) => {
                let request = ClientRequest::ThreadResume { request_id: self.next_request_id(), params };
                Ok((request, PendingReattachment { requested_thread_id, reservation }))
            },
            Err(error) => Err(error),
        }
    }

    /// Restores an archived thread. While the request is on its way nobody else
    /// can attach the thread.
    pub fn unarchive_thread(&mut self, thread_id: String) -> (started: Result<(ClientRequest, PendingReattachment)>)
        requires
            old(self).wf(),
        ensures
            final(self).wf(),
            reattachment_started(old(self)@, final(self)@, started, thread_id@, ThreadAttachmentKind::Unarchive),
            started matches Ok(pair) ==> pair.0 == (ClientRequest::ThreadUnarchive {
                request_id: old(self)@.next_id(),
                thread_id,
            }),
    {
        match self.runtime.events_mut().prepare_thread(thread_id.as_str(), ThreadAttachmentKind::Unarchive) {
            Ok(reservation) => {
                let request = ClientRequest::ThreadUnarchive {
                    request_id: self.next_request_id(),
                    thread_id: thread_id.clone(),
                };
                Ok((request, PendingReattachment { requested_thread_id: thread_id, reservation }))
            },
            Err(error) => Err(error),
        }
    }

    /// Attaches the thread that the app-server calls `thread_id`.
    pub fn attach_thread(&mut self, thread_id: ThreadId) -> (attached: Result<Thread>)
        requires
            old(self).wf(),
        ensures
            final(self).wf(),
            thread_attached(old(self)@, final(self)@, attached, thread_id@),
    {
        match parse_thread_id(thread_id.as_str()) {
            Ok(id) => self.attach_parsed_thread(thread_id, id),
            Err(error) => Err(error),
        }
    }

    /// Attaches the thread that the app-server calls `thread_id` and whose
    /// canonical id is `id`.
    pub fn attach_parsed_thread(&mut self, thread_id: ThreadId, id: String) -> (attached: Result<Thread>)
        requires
            old(self).wf(),
        ensures
            final(self).wf(),
            parsed_thread_attached(old(self)@, final(self)@, attached, thread_id@, id@),
    {
        match self.runtime.events_mut().take_parsed_thread(id) {
            Ok(event_rx) => {
                let ghost slot = event_rx.slot();
                let thread = self.adopt(thread_id, event_rx);
                assert(self@ == old(self)@.with_events(old(self)@.runtime.events.take_thread(id@, slot)).with_stream(
                    slot,
                ));
                Ok(thread)
            },
            Err(error) => Err(error),
        }
    }

    /// Keeps the stream of a thread until it is taken.
    fn adopt(&mut self, thread_id: ThreadId, event_rx: EventReceiver) -> (thread: Thread)
        ensures
            thread@.id == thread_id@,
            thread@.stream == old(self)@.streams.len(),
            final(self)@ == old(self)@.with_stream(event_rx.slot()),
    {
        let stream = self.streams.len();
        self.streams.push(Some(event_rx));
        assert(self@.streams =~= old(self)@.streams.push(Some(event_rx.slot())));
        Thread::from_id(thread_id, stream)
    }

    /// Takes the stream of a thread, where nobody has taken it.
    pub(crate) fn take_stream(&mut self, stream: usize) -> (taken: Option<EventReceiver>)
        ensures
            match taken {
                Some(event_rx) => stream < old(self)@.streams.len() && old(self)@.streams[stream as int] == Some(
                    event_rx.slot(),
                ) && final(self)@ == old(self)@.without_stream(stream as int),
                None => (stream < old(self)@.streams.len() ==> old(self)@.streams[stream as int] is None)
                    && final(self)@ == old(self)@,
            },
    {
        if stream >= self.streams.len() {
            return None;
        }
        let ghost before = self.streams@;
        let mut taken: Option<EventReceiver> = None;
        std::mem::swap(&mut self.streams[stream], &mut taken);
        proof {
            assert(untaken(before)[stream as int] == old(self)@.streams[stream as int]);
            assert(self@.streams =~= old(self)@.streams.update(stream as int, None));
            if taken is None {
                assert(self@.streams =~= old(self)@.streams);
            }
        }
        taken
    }

    /// Takes the next event of a stream.
    pub(crate) fn try_recv(&mut self, receiver: &EventReceiver) -> (received: std::result::Result<
        AppServerEvent,
        TryRecvError,
    >)
        requires
            old(self).wf(),
        ensures
            final(self).wf(),
            final(self)@ == old(self)@.with_events(old(self)@.runtime.events.recv(receiver.slot())),
            stream_received(old(self)@, received, receiver.slot()),
    {
        self.runtime.events_mut().try_recv(receiver)
    }

    /// Gives a stream back.
    pub(crate) fn release(&mut self, receiver: EventReceiver)
        requires
            old(self).wf(),
        ensures
            final(self).wf(),
            final(self)@ == old(self)@.with_events(old(self)@.runtime.events.release(receiver.slot())),
    {
        self.runtime.events_mut().release(receiver)
    }
}

/// What the stream `slot` gives.
pub open spec fn stream_received(
    codex: CodexModel,
    received: std::result::Result<AppServerEvent, TryRecvError>,
    slot: usize,
) -> bool {
    received == (if codex.runtime.events.attachments.contains_key(slot) {
        codex.runtime.events.attachments[slot].mailbox.received()
    } else {
        Err(TryRecvError::Disconnected)
    })
}

/// Long-lived stream of events that belong to no thread.
pub struct CodexEventStream {
    event_rx: EventReceiver,
}

impl CodexEventStream {
    /// The attachment that serves the stream.
    pub closed spec fn slot(self) -> usize {
        self.event_rx.slot()
    }

    /// Takes the next event.
    pub fn try_recv(&self, codex: &mut Codex) -> (received: std::result::Result<AppServerEvent, TryRecvError>)
        requires
            old(codex).wf(),
        ensures
            final(codex).wf(),
            final(codex)@ == old(codex)@.with_events(old(codex)@.runtime.events.recv(self.slot())),
            stream_received(old(codex)@, received, self.slot()),
    {
        codex.try_recv(&self.event_rx)
    }

    /// Answers a server request with a result, given as JSON text, at the time
    /// `now` in milliseconds.
    pub fn resolve_server_request(&self, request_id: RequestId, result: String, now: u64) -> (command:
        ServerResponseCommand)
        requires
            now + SERVER_RESPONSE_TIMEOUT_SECS * 1000 <= u64::MAX,
        ensures
            command.is_resolution(request_id, result@, now),
    {
        app_server::resolve_server_request(request_id, result, now)
    }

    /// Answers a server request with an empty JSON object.
    pub fn approve_server_request(&self, request_id: RequestId, now: u64) -> (command: ServerResponseCommand)
        requires
            now + SERVER_RESPONSE_TIMEOUT_SECS * 1000 <= u64::MAX,
        ensures
            command.is_resolution(request_id, "{}"@, now),
    {
        app_server::approve_server_request(request_id, now)
    }

    /// Answers a server request with a refusal.
    pub fn reject_server_request(&self, request_id: RequestId, message: String, now: u64) -> (command:
        ServerResponseCommand)
        requires
            now + SERVER_RESPONSE_TIMEOUT_SECS * 1000 <= u64::MAX,
        ensures
            command.is_rejection(request_id, message@, now),
    {
        app_server::reject_server_request(request_id, message, now)
    }

    /// Gives the stream back. Nobody can take it again.
    pub fn release(self, codex: &mut Codex)
        requires
            old(codex).wf(),
        ensures
            final(codex).wf(),
            final(codex)@ == old(codex)@.with_events(old(codex)@.runtime.events.release(self.slot())),
    {
        codex.release(self.event_rx)
    }
}

/// A `thread/start` or `thread/fork` request on its way.
pub struct PendingThread {}

impl PendingThread {
    /// Attaches the thread that the app-server has made.
    pub fn finish(self, codex: &mut Codex, response: Result<ThreadId>) -> (thread: Result<Thread>)
        requires
            old(codex).wf(),
        ensures
            final(codex).wf(),
            match response {
                Ok(thread_id) => thread_attached(old(codex)@, final(codex)@, thread, thread_id@),
                Err(error) => thread == Err::<Thread, Error>(error) && final(codex)@ == old(codex)@,
            },
    {
        match response {
            Ok(thread_id) => codex.attach_thread(thread_id),
            Err(error) => Err(error),
        }
    }
}

/// A `thread/archive` request on its way.
pub struct PendingArchive {
    thread_id: String,
}

impl View for PendingArchive {
    type V = Seq<char>;

    closed spec fn view(&self) -> Seq<char> {
        self.thread_id@
    }
}

impl PendingArchive {
    /// Ends the thread's stream once the app-server has archived it. The
    /// response is passed on.
    pub fn finish(self, codex: &mut Codex, response: Result<String>) -> (archived: Result<String>)
        requires
            old(codex).wf(),
        ensures
            final(codex).wf(),
            match response {
                Err(error) => archived == Err::<String, Error>(error) && final(codex)@ == old(codex)@,
                Ok(body) => match canonical_thread_id(self@) {
                    Some(id) => archived == Ok::<String, Error>(body) && archive_completed(
                        old(codex)@.runtime.events,
                        final(codex)@.runtime.events,
                        id,
                    ) && final(codex)@ == old(codex)@.with_events(final(codex)@.runtime.events),
                    None => archived matches Err(error) && is_invalid_id(error, self@) && final(codex)@
                        == old(codex)@,
                },
            },
    {
        match response {
            Ok(body) => match codex.runtime.events_mut().complete_archive(self.thread_id.as_str()) {
                Ok(()) => Ok(body),
                Err(error) => Err(error),
            },
            Err(error) => Err(error),
        }
    }
}

/// A `thread/resume` or `thread/unarchive` request on its way.
pub struct PendingReattachment {
    requested_thread_id: String,
    reservation: ThreadEventReservation,
}

/// What starting to resume or unarchive the thread that `text` names does.
pub open spec fn reattachment_started(
    before: CodexModel,
    after: CodexModel,
    started: Result<(ClientRequest, PendingReattachment)>,
    text: Seq<char>,
    kind: ThreadAttachmentKind,
) -> bool {
    match canonical_thread_id(text) {
        Some(id) => match before.runtime.events.attach_refusal(id) {
            Some(refusal) => started matches Err(error) && refused_with(error, refusal, id) && after == before,
            None => {
                &&& started matches Ok(pair)
                &&& pair.1.requested() == text
                &&& pair.1.reserved().thread_id() == id
                &&& pair.1.reserved().generation() == before.runtime.events.next_generation
                &&& after == before.with_events(before.runtime.events.reserve(id, kind)).requested()
            },
        },
        None => started matches Err(error) && is_invalid_id(error, text) && after == before,
    }
}

impl PendingReattachment {
    /// The thread id that was asked for.
    pub closed spec fn requested(self) -> Seq<char> {
        self.requested_thread_id@
    }

    /// The reservation of that thread.
    pub closed spec fn reserved(self) -> ThreadEventReservation {
        self.reservation
    }

    /// Attaches the thread once the app-server has loaded it. A failure gives
    /// the reservation up, and so does a response that names another thread:
    /// that one is attached.
    pub fn finish(self, codex: &mut Codex, response: Result<ThreadId>) -> (thread: Result<Thread>)
        requires
            old(codex).wf(),
        ensures
            final(codex).wf(),
            ({
                let before = old(codex)@;
                let events = before.runtime.events;
                let given_up = before.with_events(
                    events.cancel(self.reserved().thread_id(), self.reserved().generation()),
                );
                match response {
                    Err(error) => thread == Err::<Thread, Error>(error) && final(codex)@ == given_up,
                    Ok(thread_id) => if thread_id@ == self.requested() {
                        thread_reattached(before, final(codex)@, thread, thread_id@, self.reserved())
                    } else {
                        thread_attached(given_up, final(codex)@, thread, thread_id@)
                    },
                }
            }),
    {
        match response {
            Ok(thread_id) => {
                if thread_id != self.requested_thread_id {
                    self.reservation.cancel(codex.runtime.events_mut());
                    return codex.attach_thread(thread_id);
                }
                match self.reservation.claim(codex.runtime.events_mut()) {
                    Ok(event_rx) => {
                        let ghost slot = event_rx.slot();
                        let ghost before = old(codex)@;
                        let thread = codex.adopt(thread_id, event_rx);
                        assert(codex@ == before.with_events(
                            before.runtime.events.claim(
                                self.reserved().thread_id(),
                                self.reserved().generation(),
                                slot,
                            ),
                        ).with_stream(slot));
                        Ok(thread)
                    },
                    Err(error) => Err(error),
                }
            },
            Err(error) => {
                self.reservation.cancel(codex.runtime.events_mut());
                Err(error)
            },
        }
    }

    /// Gives the request up: its response is not waited for.
    pub fn abandon(self, codex: &mut Codex)
        requires
            old(codex).wf(),
        ensures
            final(codex).wf(),
            final(codex)@ == old(codex)@.with_events(
                old(codex)@.runtime.events.cancel(self.reserved().thread_id(), self.reserved().generation()),
            ),
    {
        self.reservation.cancel(codex.runtime.events_mut());
    }
}

/// Every saved thread.
pub open spec fn unfiltered_threads() -> ThreadListParams {
    ThreadListParams {
        cursor: None,
        limit: None,
        sort_key: None,
        sort_direction: None,
        model_providers: None,
        source_kinds: None,
        archived: None,
        cwd: None,
        use_state_db_only: false,
        search_term: None,
        parent_thread_id: None,
        ancestor_thread_id: None,
    }
}

/// Every saved thread.
pub fn default_thread_list_params() -> (params: ThreadListParams)
    ensures
        params == unfiltered_threads(),
{
    ThreadListParams {
        cursor: None,
        limit: None,
        sort_key: None,
        sort_direction: None,
        model_providers: None,
        source_kinds: None,
        archived: None,
        cwd: None,
        use_state_db_only: false,
        search_term: None,
        parent_thread_id: None,
        ancestor_thread_id: None,
    }
}

} // verus!
