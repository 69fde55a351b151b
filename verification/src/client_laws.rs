//! What the client asks the app-server for, and what it makes of the replies.
use crate::client::{
    default_thread_list_params, Codex, CodexEventStream, PendingArchive, PendingReattachment, PendingThread,
};
use crate::error::{Error, Result};
use crate::event::{AppServerEvent, RequestId};
use crate::protocol::{
    input_model, AskForApproval, ClientRequest, SandboxMode, SandboxPolicy, ThreadForkParams,
    ThreadListParams, ThreadSource, ThreadStartModel, TurnStartModel, UserInput, UserInputModel,
};
use crate::runtime::app_server::{ServerResponseAction, ServerResponseCommand};
use crate::runtime::mailbox::TryRecvError;
use crate::runtime::owner_laws::{is_owned, is_reserved};
use crate::runtime::route_lemmas::{lemma_owned_route_is_open, lemma_place_frame};
use crate::runtime::route_model::{AttachmentPhase, OwnerModel, ThreadRouteModel};
use crate::runtime::shutdown::ShutdownStep;
use crate::text::texts;
use crate::thread::{Thread, ThreadBuilder, ThreadEventStream};
use crate::thread_id::canonical_thread_id;
use crate::turn::{
    sandbox_policy_from_mode, text_input, CodexTurnBuilder, IntoTurnInput, PendingTemporaryThread,
    PendingTemporaryTurn, PendingTurn, TurnBuilder, TurnHandle,
};
use crate::types::{ThreadId, TurnId};
use vstd::prelude::*;

verus! {

/// Each request has an id of its own: the one after the last. Nothing else of
/// the client changes by it.
pub proof fn law_client_requests_count_up(codex: &mut Codex, id: RequestId)
    requires
        call_ensures(Codex::next_request_id, (codex,), id),
    ensures
        id == RequestId::Integer(final(codex)@.runtime.last_id),
        final(codex)@.runtime.last_id != old(codex)@.runtime.last_id,
        old(codex)@.runtime.last_id < i64::MAX ==> final(codex)@.runtime.last_id == old(codex)@.runtime.last_id + 1,
        final(codex)@.runtime.events == old(codex)@.runtime.events,
        final(codex)@.runtime.shutdown == old(codex)@.runtime.shutdown,
        final(codex)@.streams == old(codex)@.streams,
        final(codex)@.default_thread_params == old(codex)@.default_thread_params,
{
}

/// The list of models leaves hidden ones out, and the account is read without
/// a fresh token.
pub proof fn law_plain_lists_ask_for_no_more(
    models_codex: &mut Codex,
    models: ClientRequest,
    account_codex: &mut Codex,
    account: ClientRequest,
)
    requires
        call_ensures(Codex::models, (models_codex,), models),
        call_ensures(Codex::account, (account_codex,), account),
    ensures
        models matches ClientRequest::ModelList { request_id, params } && request_id == RequestId::Integer(
            final(models_codex)@.runtime.last_id,
        ) && params.include_hidden == Some(false) && params.cursor is None && params.limit is None,
        account matches ClientRequest::GetAccount { request_id, params } && request_id == RequestId::Integer(
            final(account_codex)@.runtime.last_id,
        ) && !params.refresh_token,
{
}

/// The list of threads is that of all saved threads: nothing is filtered.
pub proof fn law_all_threads_are_listed(params: ThreadListParams)
    requires
        call_ensures(default_thread_list_params, (), params),
    ensures
        params.cursor is None,
        params.limit is None,
        params.sort_key is None,
        params.sort_direction is None,
        params.model_providers is None,
        params.source_kinds is None,
        params.archived is None,
        params.cwd is None,
        !params.use_state_db_only,
        params.search_term is None,
        params.parent_thread_id is None,
        params.ancestor_thread_id is None,
{
}

/// A list of threads is asked for with those parameters.
pub proof fn law_thread_lists_are_unfiltered(codex: &mut Codex, request: ClientRequest, params: ThreadListParams)
    requires
        call_ensures(Codex::list_threads, (codex,), request),
        call_ensures(default_thread_list_params, (), params),
    ensures
        request matches ClientRequest::ThreadList { request_id, params: sent } && request_id == RequestId::Integer(
            final(codex)@.runtime.last_id,
        ) && sent == params,
{
}

/// A fork is of the thread that was named, and is the user's unless the
/// application says whose it is.
pub proof fn law_forks_are_the_users(
    codex: &mut Codex,
    params: ThreadForkParams,
    started: (ClientRequest, PendingThread),
)
    requires
        call_ensures(Codex::fork_thread_params, (codex, params), started),
    ensures
        started.0 matches ClientRequest::ThreadFork { request_id, params: sent } && {
            &&& request_id == RequestId::Integer(final(codex)@.runtime.last_id)
            &&& sent.thread_id@ == params.thread_id@
            &&& sent.extra == params.extra
            &&& params.thread_source is None ==> sent.thread_source == Some(ThreadSource::User)
            &&& params.thread_source is Some ==> sent.thread_source == params.thread_source
        },
{
}

/// A thread that forks itself forks itself, whatever id the parameters hold.
pub proof fn law_threads_fork_themselves(
    thread: Thread,
    codex: &mut Codex,
    params: ThreadForkParams,
    started: (ClientRequest, PendingThread),
)
    requires
        call_ensures(Thread::fork_params, (&thread, codex, params), started),
    ensures
        started.0 matches ClientRequest::ThreadFork { request_id, params: sent } && {
            &&& request_id == RequestId::Integer(final(codex)@.runtime.last_id)
            &&& sent.thread_id@ == thread@.id
            &&& sent.extra == params.extra
            &&& params.thread_source is None ==> sent.thread_source == Some(ThreadSource::User)
            &&& params.thread_source is Some ==> sent.thread_source == params.thread_source
        },
{
}

/// What is asked of a thread names that thread.
pub proof fn law_thread_requests_name_their_thread(
    thread: Thread,
    name: String,
    turns: bool,
    read_codex: &mut Codex,
    read: ClientRequest,
    name_codex: &mut Codex,
    named: ClientRequest,
    compact_codex: &mut Codex,
    compacted: ClientRequest,
    archive_codex: &mut Codex,
    archived: (ClientRequest, PendingArchive),
)
    requires
        call_ensures(Thread::read, (&thread, read_codex, turns), read),
        call_ensures(Thread::set_name, (&thread, name_codex, name), named),
        call_ensures(Thread::compact, (&thread, compact_codex), compacted),
        call_ensures(Thread::archive, (&thread, archive_codex), archived),
    ensures
        read matches ClientRequest::ThreadRead { request_id, thread_id, include_turns } && thread_id@ == thread@.id
            && include_turns == turns && request_id == RequestId::Integer(final(read_codex)@.runtime.last_id),
        named matches ClientRequest::ThreadSetName { request_id, thread_id, name: sent } && thread_id@ == thread@.id
            && sent@ == name@ && request_id == RequestId::Integer(final(name_codex)@.runtime.last_id),
        compacted matches ClientRequest::ThreadCompactStart { request_id, thread_id } && thread_id@ == thread@.id
            && request_id == RequestId::Integer(final(compact_codex)@.runtime.last_id),
        archived.0 matches ClientRequest::ThreadArchive { request_id, thread_id } && thread_id@ == thread@.id
            && request_id == RequestId::Integer(final(archive_codex)@.runtime.last_id),
        archived.1@ == thread@.id,
{
}

/// A new thread is asked for with the parameters that were set, and is the
/// user's where they do not say whose it is.
pub proof fn law_new_threads_are_the_users(
    builder: ThreadBuilder,
    codex: &mut Codex,
    started: (ClientRequest, PendingThread),
)
    requires
        call_ensures(ThreadBuilder::start, (builder, codex), started),
    ensures
        started.0 matches ClientRequest::ThreadStart { request_id, params } && {
            &&& request_id == RequestId::Integer(final(codex)@.runtime.last_id)
            &&& builder.params@.thread_source is None ==> params@ == (ThreadStartModel {
                thread_source: Some(ThreadSource::User),
                ..builder.params@
            })
            &&& builder.params@.thread_source is Some ==> params@ == builder.params@
        },
        final(codex)@.streams == old(codex)@.streams,
        final(codex)@.runtime.events == old(codex)@.runtime.events,
{
}

/// A thread builder and a builder of a temporary turn start with the defaults
/// of the client.
pub proof fn law_builders_copy_the_clients_defaults(
    codex: Codex,
    thread: ThreadBuilder,
    text: String,
    turn: CodexTurnBuilder,
)
    requires
        call_ensures(Codex::thread, (&codex,), thread),
        call_ensures(Codex::turn::<String>, (&codex, text), turn),
    ensures
        thread.params@ == codex@.default_thread_params,
        turn.thread_params@ == codex@.default_thread_params,
        turn.turn_params@.input.len() == 1,
        turn.turn_params@.input[0] matches UserInputModel::Text { text: sent, text_elements } && sent == text@
            && text_elements.len() == 0,
{
}

/// A text is one prompt without further elements.
pub proof fn law_texts_are_one_prompt(text: String, input: Vec<UserInput>)
    requires
        call_ensures(text_input, (text,), input),
    ensures
        input@.len() == 1,
        input@[0] matches UserInput::Text { text: sent, text_elements } && sent@ == text@ && text_elements@.len() == 0,
{
    let model = input_model(input@);
    assert(model.len() == input@.len());
    assert(model[0] == input@[0]@);
    if let UserInput::Text { text: sent, text_elements } = input@[0] {
        assert(texts(text_elements@).len() == text_elements@.len());
    }
}

/// Texts of every kind are the same prompt, and items are sent as they are, in
/// their order.
pub proof fn law_inputs_keep_their_items(text: String, slice: &str, item: UserInput, list: Vec<UserInput>, i: int)
    ensures
        text.turn_input().len() == 1,
        text.turn_input()[0] == (UserInputModel::Text { text: text@, text_elements: Seq::empty() }),
        (&text).turn_input() == text.turn_input(),
        slice.turn_input() == seq![UserInputModel::Text { text: slice@, text_elements: Seq::empty() }],
        item.turn_input() == seq![item@],
        list.turn_input().len() == list@.len(),
        0 <= i < list@.len() ==> list.turn_input()[i] == list@[i]@,
{
}

/// A plain sandbox policy is that of its mode. It names no further roots, and
/// allows the network only where nothing is off limits.
pub proof fn law_plain_policies_allow_no_network(mode: SandboxMode, policy: SandboxPolicy)
    requires
        call_ensures(sandbox_policy_from_mode, (mode,), policy),
    ensures
        mode == SandboxMode::ReadOnly ==> policy == (SandboxPolicy::ReadOnly { network_access: false }),
        mode == SandboxMode::WorkspaceWrite ==> (policy matches SandboxPolicy::WorkspaceWrite {
            writable_roots,
            network_access,
            exclude_tmpdir_env_var,
            exclude_slash_tmp,
        } && writable_roots@.len() == 0 && !network_access && !exclude_tmpdir_env_var && !exclude_slash_tmp),
        mode == SandboxMode::DangerFullAccess ==> policy is DangerFullAccess,
{
    if let SandboxPolicy::WorkspaceWrite { writable_roots, .. } = policy {
        assert(texts(writable_roots@).len() == writable_roots@.len());
    }
}

/// A sandbox mode of a turn is its plain policy, for the turn and, in a
/// temporary thread, as the mode of the thread.
pub proof fn law_sandbox_modes_become_policies(
    mode: SandboxMode,
    policy: SandboxPolicy,
    builder: TurnBuilder,
    after: TurnBuilder,
    temporary: CodexTurnBuilder,
    temporary_after: CodexTurnBuilder,
)
    requires
        call_ensures(sandbox_policy_from_mode, (mode,), policy),
        call_ensures(TurnBuilder::sandbox, (builder, mode), after),
        call_ensures(CodexTurnBuilder::sandbox, (temporary, mode), temporary_after),
    ensures
        after.params@.sandbox_policy == Some(policy@),
        temporary_after.turn_params@.sandbox_policy == Some(policy@),
        temporary_after.thread_params@.sandbox == Some(mode),
        after.thread == builder.thread,
{
}

/// An approval policy of a temporary turn counts for its thread too.
pub proof fn law_approval_policies_count_for_both(
    policy: AskForApproval,
    builder: CodexTurnBuilder,
    after: CodexTurnBuilder,
)
    requires
        call_ensures(CodexTurnBuilder::approval_policy, (builder, policy), after),
    ensures
        after.thread_params@ == (ThreadStartModel { approval_policy: Some(policy), ..builder.thread_params@ }),
        after.turn_params@ == (TurnStartModel { approval_policy: Some(policy), ..builder.turn_params@ }),
{
}

/// A turn is started in its thread, with the parameters that were set.
pub proof fn law_turns_start_in_their_thread(
    builder: TurnBuilder,
    codex: &mut Codex,
    started: (ClientRequest, PendingTurn),
)
    requires
        call_ensures(TurnBuilder::start, (builder, codex), started),
    ensures
        started.0 matches ClientRequest::TurnStart { request_id, params } && request_id == RequestId::Integer(
            final(codex)@.runtime.last_id,
        ) && params@ == (TurnStartModel { thread_id: builder.thread@.id, ..builder.params@ }),
        started.1.thread == builder.thread,
{
}

/// A started turn is known by the id that the app-server gave it, and a
/// failure is passed on. In a temporary thread a failure keeps the thread.
pub proof fn law_turns_are_known_by_their_id(
    pending: PendingTurn,
    temporary: PendingTemporaryTurn,
    response: Result<TurnId>,
    handle: Result<TurnHandle>,
    temporary_handle: Result<TurnHandle>,
)
    requires
        call_ensures(PendingTurn::finish, (pending, response), handle),
        call_ensures(PendingTemporaryTurn::finish, (temporary, response), temporary_handle),
    ensures
        response matches Ok(id) ==> (handle matches Ok(turn) && turn@.turn_id == id@ && turn@.thread
            == pending.thread),
        response matches Err(error) ==> (handle matches Err(told) && told == error),
        response matches Ok(id) ==> (temporary_handle matches Ok(turn) && turn@.turn_id == id@ && turn@.thread
            == temporary.thread),
        response matches Err(error) ==> (temporary_handle matches Err(
            Error::TemporaryTurnStart { thread_id, thread, source },
        ) && thread_id@ == temporary.thread@.id && thread == temporary.thread && *source == error),
{
}

/// A turn is steered and interrupted under its own id, in its own thread.
pub proof fn law_turn_requests_name_their_turn(
    turn: TurnHandle,
    text: String,
    steer_codex: &mut Codex,
    steered: ClientRequest,
    stop_codex: &mut Codex,
    stopped: ClientRequest,
)
    requires
        call_ensures(TurnHandle::steer::<String>, (&turn, steer_codex, text), steered),
        call_ensures(TurnHandle::interrupt, (&turn, stop_codex), stopped),
    ensures
        steered matches ClientRequest::TurnSteer { request_id, thread_id, input, expected_turn_id } && request_id
            == RequestId::Integer(final(steer_codex)@.runtime.last_id) && thread_id@ == turn@.thread@.id
            && expected_turn_id@ == turn@.turn_id && input_model(input@) == seq![
            UserInputModel::Text { text: text@, text_elements: Seq::empty() },
        ],
        stopped matches ClientRequest::TurnInterrupt { request_id, thread_id, turn_id } && request_id
            == RequestId::Integer(final(stop_codex)@.runtime.last_id) && thread_id@ == turn@.thread@.id && turn_id@
            == turn@.turn_id,
{
}

/// A temporary turn asks for its thread first and keeps the turn for later.
pub proof fn law_temporary_turns_ask_for_a_thread(
    builder: CodexTurnBuilder,
    codex: &mut Codex,
    started: (ClientRequest, PendingTemporaryThread),
)
    requires
        call_ensures(CodexTurnBuilder::start, (builder, codex), started),
    ensures
        started.0 matches ClientRequest::ThreadStart { request_id, params } && {
            &&& request_id == RequestId::Integer(final(codex)@.runtime.last_id)
            &&& builder.thread_params@.thread_source is None ==> params@ == (ThreadStartModel {
                thread_source: Some(ThreadSource::User),
                ..builder.thread_params@
            })
            &&& builder.thread_params@.thread_source is Some ==> params@ == builder.thread_params@
        },
        started.1.turn_params == builder.turn_params,
{
}

/// A thread that the app-server has made is attached under the id that it gave
/// it. It gets a stream of its own that serves that thread. A response that is
/// an error is passed on, and one whose id is none is refused.
pub proof fn law_made_threads_are_attached(
    pending: PendingThread,
    codex: &mut Codex,
    response: Result<ThreadId>,
    thread: Result<Thread>,
)
    requires
        codex.wf(),
        call_ensures(PendingThread::finish, (pending, codex, response), thread),
    ensures
        response matches Err(error) ==> (thread matches Err(told) && told == error),
        response matches Ok(text) ==> ({
            let before = old(codex)@.runtime.events;
            let after = final(codex)@.runtime.events;
            &&& canonical_thread_id(text@) is None ==> (thread matches Err(Error::InvalidThreadId { thread_id })
                && thread_id@ == text@)
            &&& canonical_thread_id(text@) matches Some(id) ==> {
                &&& before.closed ==> (thread matches Err(told) && told is RuntimeClosed)
                &&& !before.closed && is_owned(before, id) ==> (thread matches Err(
                    Error::ThreadEventStreamTaken { thread_id },
                ) && thread_id@ == id)
                &&& !before.closed && is_reserved(before, id) ==> (thread matches Err(
                    Error::ThreadLifecycleInProgress { thread_id },
                ) && thread_id@ == id)
                &&& !before.closed && !is_owned(before, id) && !is_reserved(before, id) ==> thread is Ok
                &&& thread matches Ok(made) ==> {
                    &&& made@.id == text@
                    &&& made@.stream == old(codex)@.streams.len()
                    &&& final(codex)@.streams.len() == old(codex)@.streams.len() + 1
                    &&& final(codex)@.streams.last() matches Some(slot) && after.attachments.contains_key(slot)
                        && after.attachments[slot].owner == OwnerModel::Thread(id) && !before.attachments.contains_key(
                        slot,
                    )
                }
            }
        }),
        thread is Err ==> final(codex)@ == old(codex)@,
        final(codex)@.default_thread_params == old(codex)@.default_thread_params,
{
    if let Ok(text) = response {
        if let Ok(made) = thread {
            let id = canonical_thread_id(text@)->0;
            let m = codex@.runtime.events;
            let slot = choose|slot: usize|
                !m.attachments.contains_key(slot) && final(codex)@ == #[trigger] codex@.with_events(
                    m.take_thread(id, slot),
                ).with_stream(slot);
            assert(final(codex)@.streams.last() == Some(slot));
            lemma_place_frame(m, id, ThreadRouteModel::Terminated);
            lemma_place_frame(
                m,
                id,
                ThreadRouteModel::Active { generation: m.next_generation, slot, phase: AttachmentPhase::Ready },
            );
        }
    }
}

/// The turn of a temporary thread is started in the thread that the app-server
/// has made, with the parameters that were kept for it.
pub proof fn law_temporary_turns_start_in_the_made_thread(
    pending: PendingTemporaryThread,
    codex: &mut Codex,
    response: Result<ThreadId>,
    started: Result<(ClientRequest, PendingTemporaryTurn)>,
)
    requires
        codex.wf(),
        call_ensures(PendingTemporaryThread::thread_started, (pending, codex, response), started),
    ensures
        response matches Err(error) ==> (started matches Err(told) && told == error),
        started matches Ok(pair) ==> {
            &&& response matches Ok(text)
            &&& pair.1.thread@.id == text@
            &&& pair.0 matches ClientRequest::TurnStart { request_id, params }
            &&& request_id == RequestId::Integer(final(codex)@.runtime.last_id)
            &&& params@ == (TurnStartModel { thread_id: text@, ..pending.turn_params@ })
        },
{
}

/// A thread's stream is given out once, to whoever asks first, and is the one
/// that serves the thread. Everybody else is told that it is taken.
pub proof fn law_thread_streams_go_to_the_first(
    thread: Thread,
    codex: &mut Codex,
    taken: Result<ThreadEventStream>,
)
    requires
        codex.wf(),
        call_ensures(Thread::event_stream, (&thread, codex), taken),
    ensures
        ({
            let stream = thread@.stream;
            let streams = old(codex)@.streams;
            let free = 0 <= stream < streams.len() && streams[stream] is Some;
            &&& taken is Ok <==> free
            &&& taken matches Ok(events) ==> {
                &&& events.owner() == thread
                &&& streams[stream] == Some(events.slot())
                &&& final(codex)@.streams.len() == streams.len()
                &&& final(codex)@.streams[stream] is None
                &&& forall|other: int|
                    0 <= other < streams.len() && other != stream ==> #[trigger] final(codex)@.streams[other]
                        == streams[other]
            }
            &&& taken matches Err(error) ==> (error matches Error::ThreadEventStreamTaken { thread_id } && thread_id@
                == thread@.id) && final(codex)@ == old(codex)@
            &&& final(codex)@.runtime == old(codex)@.runtime
        }),
{
}

/// A stream gives its owner the oldest event of the attachment that serves it.
/// Once it was given back it has ended.
pub proof fn law_streams_give_their_own_events(
    stream: ThreadEventStream,
    codex: &mut Codex,
    received: std::result::Result<AppServerEvent, TryRecvError>,
    runtime_stream: CodexEventStream,
    runtime_codex: &mut Codex,
    runtime_received: std::result::Result<AppServerEvent, TryRecvError>,
)
    requires
        codex.wf(),
        runtime_codex.wf(),
        call_ensures(ThreadEventStream::try_recv, (&stream, codex), received),
        call_ensures(CodexEventStream::try_recv, (&runtime_stream, runtime_codex), runtime_received),
    ensures
        ({
            let events = old(codex)@.runtime.events;
            let backlog = events.attachments[stream.slot()].mailbox.backlog();
            &&& !events.attachments.contains_key(stream.slot()) ==> (received matches Err(error) && error
                is Disconnected)
            &&& events.attachments.contains_key(stream.slot()) && backlog.len() > 0 ==> received == Ok::<
                AppServerEvent,
                TryRecvError,
            >(backlog[0])
        }),
        ({
            let events = old(runtime_codex)@.runtime.events;
            let backlog = events.attachments[runtime_stream.slot()].mailbox.backlog();
            &&& !events.attachments.contains_key(runtime_stream.slot()) ==> (runtime_received matches Err(error)
                && error is Disconnected)
            &&& events.attachments.contains_key(runtime_stream.slot()) && backlog.len() > 0 ==> runtime_received
                == Ok::<AppServerEvent, TryRecvError>(backlog[0])
        }),
{
}

/// The client's own stream is given out once.
pub proof fn law_client_stream_goes_to_the_first(codex: &mut Codex, taken: Result<CodexEventStream>)
    requires
        codex.wf(),
        call_ensures(Codex::event_stream, (codex,), taken),
    ensures
        ({
            let before = old(codex)@.runtime.events;
            let after = final(codex)@.runtime.events;
            &&& before.closed ==> (taken matches Err(error) && error is RuntimeClosed)
            &&& !before.closed && !(before.runtime is Pending) ==> (taken matches Err(error) && error
                is CodexEventStreamTaken)
            &&& !before.closed && before.runtime is Pending ==> (taken matches Ok(stream) && after.runtime is Active
                && after.runtime->Active_slot == stream.slot() && after.attachments.contains_key(stream.slot())
                && after.attachments[stream.slot()].owner == OwnerModel::Runtime)
            &&& taken is Err ==> final(codex)@ == old(codex)@
            &&& final(codex)@.streams == old(codex)@.streams
        }),
{
}

/// While a thread is resumed or unarchived nobody else can attach it. An
/// unarchive waits for the notification that the thread is back.
pub proof fn law_reattachments_reserve_their_thread(
    thread_id: String,
    resume_codex: &mut Codex,
    resumed: Result<(ClientRequest, PendingReattachment)>,
    unarchive_codex: &mut Codex,
    unarchived: Result<(ClientRequest, PendingReattachment)>,
)
    requires
        resume_codex.wf(),
        unarchive_codex.wf(),
        call_ensures(Codex::resume_thread, (resume_codex, thread_id), resumed),
        call_ensures(Codex::unarchive_thread, (unarchive_codex, thread_id), unarchived),
    ensures
        canonical_thread_id(thread_id@) is None ==> (resumed matches Err(Error::InvalidThreadId { thread_id: told })
            && told@ == thread_id@),
        canonical_thread_id(thread_id@) is None ==> (unarchived matches Err(
            Error::InvalidThreadId { thread_id: told },
        ) && told@ == thread_id@),
        resumed matches Ok(pair) ==> {
            let id = canonical_thread_id(thread_id@)->0;
            let after = final(resume_codex)@.runtime.events;
            &&& canonical_thread_id(thread_id@) is Some
            &&& pair.0 matches ClientRequest::ThreadResume { request_id, params }
            &&& request_id == RequestId::Integer(final(resume_codex)@.runtime.last_id)
            &&& params.thread_id@ == thread_id@
            &&& params.extra is None
            &&& pair.1.requested() == thread_id@
            &&& pair.1.reserved().thread_id() == id
            &&& is_reserved(after, id)
            &&& after.threads[id]->Reserved_generation == pair.1.reserved().generation()
            &&& after.threads[id]->Reserved_phase == AttachmentPhase::Ready
        },
        unarchived matches Ok(pair) ==> {
            let id = canonical_thread_id(thread_id@)->0;
            let after = final(unarchive_codex)@.runtime.events;
            &&& canonical_thread_id(thread_id@) is Some
            &&& pair.0 matches ClientRequest::ThreadUnarchive { request_id, thread_id: asked }
            &&& request_id == RequestId::Integer(final(unarchive_codex)@.runtime.last_id)
            &&& asked@ == thread_id@
            &&& pair.1.requested() == thread_id@
            &&& pair.1.reserved().thread_id() == id
            &&& is_reserved(after, id)
            &&& after.threads[id]->Reserved_generation == pair.1.reserved().generation()
            &&& after.threads[id]->Reserved_phase == AttachmentPhase::AwaitingUnarchive
        },
        resumed is Err ==> final(resume_codex)@ == old(resume_codex)@,
        unarchived is Err ==> final(unarchive_codex)@ == old(unarchive_codex)@,
{
    if canonical_thread_id(thread_id@) is Some {
        let id = canonical_thread_id(thread_id@)->0;
        let m = resume_codex@.runtime.events;
        if resumed is Ok {
            lemma_place_frame(
                m,
                id,
                ThreadRouteModel::Reserved {
                    generation: m.next_generation,
                    pending: m.reservable(id),
                    phase: AttachmentPhase::Ready,
                },
            );
        }
        let n = unarchive_codex@.runtime.events;
        if unarchived is Ok {
            lemma_place_frame(
                n,
                id,
                ThreadRouteModel::Reserved {
                    generation: n.next_generation,
                    pending: n.reservable(id),
                    phase: AttachmentPhase::AwaitingUnarchive,
                },
            );
        }
    }
}

/// A reattached thread gets the reserved stream with what came meanwhile. A
/// failure is passed on, and gives the reservation up.
pub proof fn law_reattached_threads_get_the_reserved_stream(
    pending: PendingReattachment,
    codex: &mut Codex,
    response: Result<ThreadId>,
    thread: Result<Thread>,
)
    requires
        codex.wf(),
        is_reserved(codex@.runtime.events, pending.reserved().thread_id()),
        codex@.runtime.events.threads[pending.reserved().thread_id()]->Reserved_generation
            == pending.reserved().generation(),
        response is Ok ==> response->Ok_0@ == pending.requested(),
        call_ensures(PendingReattachment::finish, (pending, codex, response), thread),
    ensures
        ({
            let id = pending.reserved().thread_id();
            let before = old(codex)@.runtime.events;
            let after = final(codex)@.runtime.events;
            &&& response matches Err(error) ==> (thread matches Err(told) && told == error)
                && after.threads.contains_key(id) && after.threads[id] is Detached && final(codex)@.streams
                == old(codex)@.streams
            &&& response is Ok ==> {
                &&& thread matches Ok(made)
                &&& made@.id == pending.requested()
                &&& made@.stream == old(codex)@.streams.len()
                &&& final(codex)@.streams.len() == old(codex)@.streams.len() + 1
                &&& final(codex)@.streams.last() matches Some(slot)
                &&& is_owned(after, id)
                &&& after.threads[id]->Active_slot == slot
                &&& after.attachments[slot].owner == OwnerModel::Thread(id)
                &&& after.attachments[slot].mailbox.backlog() == before.threads[id]->Reserved_pending.replay()
            }
        }),
{
    let id = pending.reserved().thread_id();
    let generation = pending.reserved().generation();
    let m = codex@.runtime.events;
    lemma_owned_route_is_open(m, id);
    lemma_place_frame(m, id, ThreadRouteModel::Detached);
    if response is Ok {
        let slot = choose|slot: usize|
            !m.attachments.contains_key(slot) && final(codex)@ == #[trigger] codex@.with_events(
                m.claim(id, generation, slot),
            ).with_stream(slot);
        assert(final(codex)@.streams.last() == Some(slot));
        lemma_place_frame(
            m,
            id,
            ThreadRouteModel::Active { generation, slot, phase: m.threads[id]->Reserved_phase },
        );
        let mailbox = final(codex)@.runtime.events.attachments[slot].mailbox;
        assert(mailbox.backlog() =~= mailbox.replay);
    }
}

/// Giving a reattachment up gives its reservation up.
pub proof fn law_abandoned_reattachments_free_their_thread(pending: PendingReattachment, codex: &mut Codex)
    requires
        codex.wf(),
        is_reserved(codex@.runtime.events, pending.reserved().thread_id()),
        codex@.runtime.events.threads[pending.reserved().thread_id()]->Reserved_generation
            == pending.reserved().generation(),
        call_ensures(PendingReattachment::abandon, (pending, codex), ()),
    ensures
        final(codex)@.runtime.events.threads.contains_key(pending.reserved().thread_id()),
        final(codex)@.runtime.events.threads[pending.reserved().thread_id()] is Detached,
        final(codex)@.streams == old(codex)@.streams,
{
    let id = pending.reserved().thread_id();
    lemma_owned_route_is_open(codex@.runtime.events, id);
    lemma_place_frame(codex@.runtime.events, id, ThreadRouteModel::Detached);
}

/// The response to an archive request is passed on, and a thread with an owner
/// has ended by then. A failure changes nothing.
pub proof fn law_archived_threads_have_ended(
    pending: PendingArchive,
    codex: &mut Codex,
    response: Result<String>,
    archived: Result<String>,
)
    requires
        codex.wf(),
        call_ensures(PendingArchive::finish, (pending, codex, response), archived),
    ensures
        response matches Err(error) ==> (archived matches Err(told) && told == error) && final(codex)@ == old(codex)@,
        response is Ok && canonical_thread_id(pending@) is None ==> (archived matches Err(
            Error::InvalidThreadId { thread_id },
        ) && thread_id@ == pending@),
        response is Ok && canonical_thread_id(pending@) is Some ==> archived == response,
        response is Ok && canonical_thread_id(pending@) is Some && !old(codex)@.runtime.events.closed && is_owned(
            old(codex)@.runtime.events,
            canonical_thread_id(pending@)->0,
        ) ==> final(codex)@.runtime.events.threads[canonical_thread_id(pending@)->0] is Terminated,
        final(codex)@.streams == old(codex)@.streams,
{
    if canonical_thread_id(pending@) is Some {
        let id = canonical_thread_id(pending@)->0;
        let m = codex@.runtime.events;
        if !m.closed {
            lemma_place_frame(m, id, ThreadRouteModel::Terminated);
        }
    }
}

/// Whoever answers a server request gives the same answer: the result that was
/// given, an empty object, or a refusal with the message that was given. Each
/// has thirty seconds.
pub proof fn law_answers_are_the_same_from_everywhere(
    codex: Codex,
    own: CodexEventStream,
    stream: ThreadEventStream,
    request_id: RequestId,
    text: String,
    now: u64,
    resolved: Seq<ServerResponseCommand>,
    approved: Seq<ServerResponseCommand>,
    rejected: Seq<ServerResponseCommand>,
    i: int,
)
    requires
        now + 30_000 <= u64::MAX,
        resolved.len() == 3,
        approved.len() == 3,
        rejected.len() == 3,
        call_ensures(Codex::resolve_server_request, (&codex, request_id, text, now), resolved[0]),
        call_ensures(CodexEventStream::resolve_server_request, (&own, request_id, text, now), resolved[1]),
        call_ensures(ThreadEventStream::resolve_server_request, (&stream, request_id, text, now), resolved[2]),
        call_ensures(Codex::approve_server_request, (&codex, request_id, now), approved[0]),
        call_ensures(CodexEventStream::approve_server_request, (&own, request_id, now), approved[1]),
        call_ensures(ThreadEventStream::approve_server_request, (&stream, request_id, now), approved[2]),
        call_ensures(Codex::reject_server_request, (&codex, request_id, text, now), rejected[0]),
        call_ensures(CodexEventStream::reject_server_request, (&own, request_id, text, now), rejected[1]),
        call_ensures(ThreadEventStream::reject_server_request, (&stream, request_id, text, now), rejected[2]),
        0 <= i < 3,
    ensures
        resolved[i].request_id == request_id,
        resolved[i].action matches ServerResponseAction::Resolve(given) && given@ == text@,
        resolved[i].deadline == now + 30_000,
        approved[i].request_id == request_id,
        approved[i].action matches ServerResponseAction::Resolve(given) && given@ == "{}"@,
        approved[i].deadline == now + 30_000,
        rejected[i].request_id == request_id,
        rejected[i].action matches ServerResponseAction::Reject(error) && error.code == -32000 && error.message@ == text@
            && error.data is None,
        rejected[i].deadline == now + 30_000,
{
}

/// The shutdown of a client is that of its runtime: the first caller tells the
/// event loop to stop, and the end of the loop is what is returned.
pub proof fn law_client_shutdown_is_that_of_the_runtime(
    codex: &mut Codex,
    step: ShutdownStep,
    ended: &mut Codex,
    joined: std::result::Result<Result<()>, String>,
    result: Result<()>,
)
    requires
        call_ensures(Codex::shutdown, (codex,), step),
        call_ensures(Codex::complete_shutdown, (ended, joined), result),
    ensures
        old(codex)@.runtime.shutdown.task ==> step == (ShutdownStep::Wait {
            signal: old(codex)@.runtime.shutdown.signal,
        }),
        !final(codex)@.runtime.shutdown.signal,
        final(codex)@.runtime.events == old(codex)@.runtime.events,
        final(codex)@.streams == old(codex)@.streams,
        joined matches Ok(end) ==> result == end,
        joined matches Err(source) ==> (result matches Err(Error::RuntimeTask(told)) && told == source),
        !final(ended)@.runtime.shutdown.task,
        final(ended)@.runtime.events == old(ended)@.runtime.events,
{
}

/// A turn of a thread starts with its input and leaves everything else to the
/// thread.
pub proof fn law_turns_start_with_their_input(thread: Thread, text: String, builder: TurnBuilder)
    requires
        call_ensures(Thread::turn::<String>, (&thread, text), builder),
    ensures
        builder.thread == thread,
        builder.params@.input == seq![UserInputModel::Text { text: text@, text_elements: Seq::empty() }],
        builder.params@.cwd is None,
        builder.params@.model is None,
        builder.params@.service_tier is None,
        builder.params@.personality is None,
        builder.params@.approval_policy is None,
        builder.params@.sandbox_policy is None,
        builder.params@.effort is None,
        builder.params@.summary is None,
        builder.params@.output_schema is None,
        builder.params@.environments is None,
        builder.params@.extra is None,
{
}

} // verus!
