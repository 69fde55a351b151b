use codex_protocol::ConversationId;
use codex_sdk::builder::PendingRuntime;
use codex_sdk::client::default_thread_list_params;
use codex_sdk::error::Error;
use codex_sdk::event::{
    AppServerEvent, OptionalThreadParams, RequestId, ServerNotification, ThreadIdParams, TurnCompletedParams,
};
use codex_sdk::protocol::{
    AskForApproval, ClientRequest, Personality, ReasoningEffort, ReasoningSummary, SandboxMode, SandboxPolicy,
    ThreadForkParams, ThreadResumeParams, ThreadSource, ThreadStartParams, TurnStartParams, UserInput,
};
use codex_sdk::runtime::mailbox::TryRecvError;
use codex_sdk::thread_defaults::EnvironmentAccess;
use codex_sdk::{Codex, Thread};
use std::path::PathBuf;

fn new_id() -> String {
    ConversationId::new().to_string()
}

fn connected() -> Codex {
    PendingRuntime {
        event_stream_capacity: 4,
        default_thread_params: ThreadStartParams {
            cwd: Some("/work".to_string()),
            model: Some("model-a".to_string()),
            ..ThreadStartParams::default()
        },
    }
    .connected()
}

fn attach(codex: &mut Codex, id: &str) -> Thread {
    match codex.attach_thread(id.to_string()) {
        Ok(thread) => thread,
        Err(error) => panic!("thread should attach: {}", error.message()),
    }
}

fn turn_completed(thread_id: &str, turn_id: &str) -> AppServerEvent {
    AppServerEvent::ServerNotification(ServerNotification::TurnCompleted(TurnCompletedParams {
        thread_id: thread_id.to_string(),
        turn_id: turn_id.to_string(),
        body: "{}".to_string(),
    }))
}

fn turn_id(event: Result<AppServerEvent, TryRecvError>) -> Option<String> {
    match event {
        Ok(AppServerEvent::ServerNotification(ServerNotification::TurnCompleted(completed))) => {
            Some(completed.turn_id)
        }
        _ => None,
    }
}

fn route(codex: &mut Codex, event: AppServerEvent) {
    codex.runtime_mut().events_mut().route(event);
}

#[test]
fn requests_are_numbered_from_one() {
    let mut codex = connected();
    assert!(matches!(codex.next_request_id(), RequestId::Integer(1)));
    assert!(matches!(
        codex.models(),
        ClientRequest::ModelList { request_id: RequestId::Integer(2), params } if params.include_hidden == Some(false)
    ));
    assert!(matches!(
        codex.account(),
        ClientRequest::GetAccount { request_id: RequestId::Integer(3), params } if !params.refresh_token
    ));
    assert!(matches!(codex.list_threads(), ClientRequest::ThreadList { request_id: RequestId::Integer(4), .. }));
}

#[test]
fn thread_lists_are_unfiltered_by_default() {
    let params = default_thread_list_params();
    assert_eq!(params.cursor, None);
    assert_eq!(params.limit, None);
    assert_eq!(params.archived, None);
    assert!(!params.use_state_db_only);
}

#[test]
fn threads_start_with_the_defaults_of_the_runtime() {
    let mut codex = connected();
    let (request, pending) = codex
        .thread()
        .model("model-b".to_string())
        .sandbox(SandboxMode::ReadOnly)
        .environment_access(EnvironmentAccess::Disabled)
        .start(&mut codex);
    match request {
        ClientRequest::ThreadStart { params, .. } => {
            assert_eq!(params.cwd.as_deref(), Some("/work"));
            assert_eq!(params.model.as_deref(), Some("model-b"));
            assert_eq!(params.sandbox, Some(SandboxMode::ReadOnly));
            assert_eq!(params.environments, Some(Vec::new()));
        }
        _ => panic!("a thread starts with thread/start"),
    }
    let id = new_id();
    match pending.finish(&mut codex, Ok(id.clone())) {
        Ok(thread) => assert_eq!(thread.id(), id),
        Err(error) => panic!("thread should attach: {}", error.message()),
    }
}

#[test]
fn events_before_the_response_are_replayed() {
    let mut codex = connected();
    let id = new_id();
    let (_, pending) = codex.thread().start(&mut codex);
    route(&mut codex, turn_completed(&id, "early"));
    let thread = match pending.finish(&mut codex, Ok(id)) {
        Ok(thread) => thread,
        Err(error) => panic!("thread should attach: {}", error.message()),
    };
    let stream = match thread.event_stream(&mut codex) {
        Ok(stream) => stream,
        Err(error) => panic!("stream should be free: {}", error.message()),
    };
    assert_eq!(turn_id(stream.try_recv(&mut codex)).as_deref(), Some("early"));
    assert!(matches!(stream.try_recv(&mut codex), Err(TryRecvError::Empty)));
}

#[test]
fn a_thread_stream_is_taken_once_from_any_clone() {
    let mut codex = connected();
    let thread = attach(&mut codex, &new_id());
    let copy = thread.clone();
    let stream = copy.event_stream(&mut codex);
    assert!(stream.is_ok());
    assert!(matches!(
        thread.event_stream(&mut codex),
        Err(Error::ThreadEventStreamTaken { thread_id }) if thread_id == thread.id()
    ));
}

#[test]
fn a_released_thread_can_be_attached_again() {
    let mut codex = connected();
    let id = new_id();
    let thread = attach(&mut codex, &id);
    assert!(matches!(codex.attach_thread(id.clone()), Err(Error::ThreadEventStreamTaken { .. })));
    thread.release(&mut codex);
    assert_eq!(attach(&mut codex, &id).id(), id);
}

#[test]
fn a_failed_start_attaches_nothing() {
    let mut codex = connected();
    let (_, pending) = codex.thread().start(&mut codex);
    assert!(matches!(
        pending.finish(&mut codex, Err(Error::Protocol("refused".to_string()))),
        Err(Error::Protocol(text)) if text == "refused"
    ));
    let (_, pending) = codex.thread().start(&mut codex);
    assert!(matches!(
        pending.finish(&mut codex, Ok("nonsense".to_string())),
        Err(Error::InvalidThreadId { thread_id }) if thread_id == "nonsense"
    ));
}

#[test]
fn thread_requests_name_their_thread() {
    let mut codex = connected();
    let id = new_id();
    let thread = attach(&mut codex, &id);
    assert!(matches!(
        thread.read(&mut codex, true),
        ClientRequest::ThreadRead { thread_id, include_turns: true, .. } if thread_id == id
    ));
    assert!(matches!(
        thread.set_name(&mut codex, "name".to_string()),
        ClientRequest::ThreadSetName { thread_id, name, .. } if thread_id == id && name == "name"
    ));
    assert!(matches!(
        thread.compact(&mut codex),
        ClientRequest::ThreadCompactStart { thread_id, .. } if thread_id == id
    ));
    assert!(matches!(
        thread.fork(&mut codex).0,
        ClientRequest::ThreadFork { params, .. } if params.thread_id == id
    ));
    let foreign = ThreadForkParams { thread_id: "other".to_string(), thread_source: None, extra: None };
    assert!(matches!(
        thread.fork_params(&mut codex, foreign).0,
        ClientRequest::ThreadFork { params, .. } if params.thread_id == id
    ));
    assert!(matches!(
        thread.archive(&mut codex).0,
        ClientRequest::ThreadArchive { thread_id, .. } if thread_id == id
    ));
}

#[test]
fn forks_come_from_the_user() {
    let mut codex = connected();
    assert!(matches!(
        codex.fork_thread("thread".to_string()).0,
        ClientRequest::ThreadFork { params, .. }
            if params.thread_id == "thread" && params.thread_source == Some(ThreadSource::User)
    ));
}

#[test]
fn archiving_ends_the_stream_at_the_response() {
    let mut codex = connected();
    let id = new_id();
    let thread = attach(&mut codex, &id);
    let stream = match thread.event_stream(&mut codex) {
        Ok(stream) => stream,
        Err(error) => panic!("stream should be free: {}", error.message()),
    };
    assert_eq!(stream.thread_id(), id);
    let (_, pending) = codex.archive_thread(id.clone());
    assert!(matches!(pending.finish(&mut codex, Ok("{}".to_string())), Ok(body) if body == "{}"));
    assert!(matches!(
        stream.try_recv(&mut codex),
        Ok(AppServerEvent::ServerNotification(ServerNotification::ThreadArchived(ThreadIdParams { thread_id })))
            if thread_id == id
    ));
    assert!(matches!(stream.try_recv(&mut codex), Err(TryRecvError::Disconnected)));
}

#[test]
fn a_failed_archive_leaves_the_stream_open() {
    let mut codex = connected();
    let id = new_id();
    let thread = attach(&mut codex, &id);
    let stream = match thread.event_stream(&mut codex) {
        Ok(stream) => stream,
        Err(error) => panic!("stream should be free: {}", error.message()),
    };
    let (_, pending) = thread.archive(&mut codex);
    assert!(pending.finish(&mut codex, Err(Error::Protocol("no".to_string()))).is_err());
    assert!(matches!(stream.try_recv(&mut codex), Err(TryRecvError::Empty)));
}

#[test]
fn resuming_reserves_the_thread_until_the_response() {
    let mut codex = connected();
    let id = new_id();
    let (request, pending) = match codex.resume_thread(id.clone()) {
        Ok(started) => started,
        Err(error) => panic!("resume should start: {}", error.message()),
    };
    assert!(matches!(request, ClientRequest::ThreadResume { params, .. } if params.thread_id == id));
    assert!(matches!(codex.unarchive_thread(id.clone()), Err(Error::ThreadLifecycleInProgress { .. })));
    route(&mut codex, turn_completed(&id, "during"));
    let thread = match pending.finish(&mut codex, Ok(id.clone())) {
        Ok(thread) => thread,
        Err(error) => panic!("thread should attach: {}", error.message()),
    };
    let stream = match thread.event_stream(&mut codex) {
        Ok(stream) => stream,
        Err(error) => panic!("stream should be free: {}", error.message()),
    };
    assert_eq!(turn_id(stream.try_recv(&mut codex)).as_deref(), Some("during"));
}

#[test]
fn an_abandoned_resume_frees_the_thread() {
    let mut codex = connected();
    let id = new_id();
    let params = || ThreadResumeParams { thread_id: String::new(), extra: None };
    let (_, pending) = match codex.resume_thread_params(ThreadResumeParams { thread_id: id.clone(), ..params() }) {
        Ok(started) => started,
        Err(error) => panic!("resume should start: {}", error.message()),
    };
    pending.abandon(&mut codex);
    let (_, pending) = match codex.unarchive_thread(id.clone()) {
        Ok(started) => started,
        Err(error) => panic!("unarchive should start: {}", error.message()),
    };
    assert!(pending.finish(&mut codex, Err(Error::RuntimeClosed)).is_err());
    assert!(codex.resume_thread(id).is_ok());
    assert!(matches!(
        codex.resume_thread("nonsense".to_string()),
        Err(Error::InvalidThreadId { .. })
    ));
}

#[test]
fn turns_start_on_their_thread() {
    let mut codex = connected();
    let id = new_id();
    let thread = attach(&mut codex, &id);
    let (request, pending) = thread
        .turn("hello")
        .cwd(PathBuf::from("/project"))
        .model("model-b".to_string())
        .clear_service_tier()
        .personality(Personality::Friendly)
        .approval_policy(AskForApproval::Never)
        .sandbox(SandboxMode::ReadOnly)
        .effort(ReasoningEffort::High)
        .summary(ReasoningSummary::Concise)
        .output_schema("{\"type\":\"object\"}".to_string())
        .start(&mut codex);
    match request {
        ClientRequest::TurnStart { params, .. } => {
            assert_eq!(params.thread_id, id);
            assert_eq!(
                params.input,
                vec![UserInput::Text { text: "hello".to_string(), text_elements: Vec::new() }]
            );
            assert_eq!(params.cwd, Some(PathBuf::from("/project")));
            assert_eq!(params.service_tier, Some(None));
            assert_eq!(params.sandbox_policy, Some(SandboxPolicy::ReadOnly { network_access: false }));
            assert_eq!(params.effort, Some(ReasoningEffort::High));
            assert_eq!(params.summary, Some(ReasoningSummary::Concise));
            assert_eq!(params.output_schema.as_deref(), Some("{\"type\":\"object\"}"));
        }
        _ => panic!("a turn starts with turn/start"),
    }
    let handle = match pending.finish(Ok("turn-1".to_string())) {
        Ok(handle) => handle,
        Err(error) => panic!("turn should start: {}", error.message()),
    };
    assert_eq!(handle.turn_id(), "turn-1");
    assert_eq!(handle.thread_id(), id);
    assert!(matches!(
        handle.steer(&mut codex, "more"),
        ClientRequest::TurnSteer { thread_id, input, expected_turn_id, .. }
            if thread_id == id && input.len() == 1 && expected_turn_id == "turn-1"
    ));
    assert!(matches!(
        handle.interrupt(&mut codex),
        ClientRequest::TurnInterrupt { thread_id, turn_id, .. } if thread_id == id && turn_id == "turn-1"
    ));
}

#[test]
fn native_turn_parameters_are_sent_to_the_thread() {
    let mut codex = connected();
    let id = new_id();
    let thread = attach(&mut codex, &id);
    let params = TurnStartParams { thread_id: "other".to_string(), ..TurnStartParams::default() };
    let (request, _) = thread.turn_params(params).start(&mut codex);
    assert!(matches!(request, ClientRequest::TurnStart { params, .. } if params.thread_id == id));
}

#[test]
fn a_temporary_thread_survives_a_turn_that_does_not_start() {
    let mut codex = connected();
    let id = new_id();
    let (request, pending) = codex.turn("hello").start(&mut codex);
    assert!(matches!(
        request,
        ClientRequest::ThreadStart { params, .. } if params.model.as_deref() == Some("model-a")
    ));
    let (request, pending) = match pending.thread_started(&mut codex, Ok(id.clone())) {
        Ok(started) => started,
        Err(error) => panic!("turn should be sent: {}", error.message()),
    };
    assert!(matches!(request, ClientRequest::TurnStart { params, .. } if params.thread_id == id));
    let error = match pending.finish(Err(Error::Protocol("busy".to_string()))) {
        Ok(_) => panic!("the turn did not start"),
        Err(error) => error,
    };
    assert_eq!(
        error.message(),
        format!("failed to start a turn after temporary thread {id} was created: Codex protocol error: busy")
    );
    assert_eq!(error.temporary_thread().map(|thread| thread.id().to_string()), Some(id.clone()));
    let (thread, source) = match error.into_temporary_turn_failure() {
        Some(failure) => failure,
        None => panic!("the thread is kept"),
    };
    assert!(matches!(source, Error::Protocol(text) if text == "busy"));
    assert!(thread.event_stream(&mut codex).is_ok());
}

#[test]
fn a_temporary_turn_hands_out_its_thread() {
    let mut codex = connected();
    let id = new_id();
    let (_, pending) = codex.turn("hello").environment_access(EnvironmentAccess::Disabled).start(&mut codex);
    let (_, pending) = match pending.thread_started(&mut codex, Ok(id.clone())) {
        Ok(started) => started,
        Err(error) => panic!("turn should be sent: {}", error.message()),
    };
    match pending.finish(Ok("turn-1".to_string())) {
        Ok(handle) => assert_eq!(handle.thread().id(), id),
        Err(error) => panic!("turn should start: {}", error.message()),
    }
    assert!(Error::RuntimeClosed.temporary_thread().is_none());
    assert!(Error::RuntimeClosed.into_temporary_turn_failure().is_none());
}

#[test]
fn the_runtime_stream_is_taken_once() {
    let mut codex = connected();
    let stream = match codex.event_stream() {
        Ok(stream) => stream,
        Err(error) => panic!("stream should be free: {}", error.message()),
    };
    route(
        &mut codex,
        AppServerEvent::ServerNotification(ServerNotification::Warning(OptionalThreadParams {
            thread_id: None,
            body: "runtime warning".to_string(),
        })),
    );
    assert!(matches!(
        stream.try_recv(&mut codex),
        Ok(AppServerEvent::ServerNotification(ServerNotification::Warning(_)))
    ));
    assert!(matches!(codex.event_stream(), Err(Error::CodexEventStreamTaken)));
    stream.release(&mut codex);
    assert!(matches!(codex.event_stream(), Err(Error::CodexEventStreamTaken)));
}

#[test]
fn a_response_that_names_another_thread_attaches_that_one() {
    let mut codex = connected();
    let asked = new_id();
    let answered = new_id();
    let (_, pending) = match codex.resume_thread(asked.clone()) {
        Ok(started) => started,
        Err(error) => panic!("resume should start: {}", error.message()),
    };
    match pending.finish(&mut codex, Ok(answered.clone())) {
        Ok(thread) => assert_eq!(thread.id(), answered),
        Err(error) => panic!("thread should attach: {}", error.message()),
    }
    assert!(codex.resume_thread(asked).is_ok());
    assert!(matches!(codex.resume_thread(answered), Err(Error::ThreadEventStreamTaken { .. })));
}

#[test]
fn a_refused_resume_uses_no_request_id() {
    let mut codex = connected();
    assert!(codex.resume_thread("nonsense".to_string()).is_err());
    assert!(matches!(codex.next_request_id(), RequestId::Integer(1)));
}

#[test]
fn the_debug_text_of_a_thread_is_its_id() {
    let mut codex = connected();
    let id = new_id();
    let thread = attach(&mut codex, &id);
    assert_eq!(thread.debug_text(), format!("Thread {{ id: \"{id}\", .. }}"));
}
