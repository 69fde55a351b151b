use codex_sdk::builder::PendingRuntime;
use codex_sdk::error::Error;
use codex_sdk::event::{AppServerEvent, OptionalThreadParams, RequestId, ServerNotification};
use codex_sdk::protocol::ThreadStartParams;
use codex_sdk::runtime::app_server::{
    approve_server_request, client_shutdown_result, handle_response, reject_server_request, server_response_result,
    server_response_timeout, with_server_response_deadline, ServerResponseAction, ServerResponseStep,
    ShutdownOutcome, WaitOutcome, WriteOutcome,
};
use codex_sdk::runtime::events::EventRouter;
use codex_sdk::runtime::mailbox::TryRecvError;
use codex_sdk::runtime::shutdown::{event_loop_step, LoopInput, RuntimeShutdown, ShutdownStep};
use codex_sdk::warmup::{WarmupReply, WarmupResponse};
use codex_sdk::{Codex, WarmupResult};
use std::path::PathBuf;
use std::time::Duration;

fn connected() -> Codex {
    PendingRuntime {
        event_stream_capacity: 4,
        default_thread_params: ThreadStartParams {
            cwd: Some("/work".to_string()),
            ..ThreadStartParams::default()
        },
    }
    .connected()
}

#[test]
fn server_response_deadline_bounds_the_entire_write() {
    let result = with_server_response_deadline(WriteOutcome::DeadlinePassed);

    assert!(matches!(result, Err(Error::ServerRequestResponseTimeout { .. })));
}

#[test]
fn shutdown_can_resume_after_waiter_is_cancelled() {
    let mut shutdown = RuntimeShutdown::new();

    // The first waiter signals the event loop and stops waiting.
    assert!(matches!(shutdown.begin(), ShutdownStep::Wait { signal: true }));

    // The second one waits for the same end.
    assert!(matches!(shutdown.begin(), ShutdownStep::Wait { signal: false }));
    assert!(shutdown.complete(Ok(Ok(()))).is_ok());

    assert!(matches!(shutdown.begin(), ShutdownStep::Done(Ok(()))));
}

#[test]
fn shutdown_failure_remains_visible_to_later_callers() {
    let mut shutdown = RuntimeShutdown::new();

    assert!(matches!(shutdown.begin(), ShutdownStep::Wait { .. }));
    assert!(matches!(shutdown.complete(Ok(Err(Error::RuntimeClosed))), Err(Error::RuntimeClosed)));
    assert!(matches!(
        shutdown.begin(),
        ShutdownStep::Done(Err(Error::RuntimeShutdownFailed { message })) if message == "Codex runtime is closed"
    ));
}

#[test]
fn sdk_error_remains_send_and_sync() {
    fn assert_send_sync<T: Send + Sync>() {}

    assert_send_sync::<Error>();
}

#[test]
fn a_task_that_fails_to_join_is_reported() {
    let mut codex = connected();
    assert!(matches!(codex.shutdown(), ShutdownStep::Wait { signal: true }));
    assert!(matches!(
        codex.complete_shutdown(Err("cancelled".to_string())),
        Err(Error::RuntimeTask(text)) if text == "cancelled"
    ));
    assert!(matches!(
        codex.shutdown(),
        ShutdownStep::Done(Err(Error::RuntimeShutdownFailed { message }))
            if message == "Codex runtime task failed: cancelled"
    ));
}

#[test]
fn answers_are_given_up_at_their_deadline() {
    let codex = connected();
    let command = codex.resolve_server_request(RequestId::Integer(5), "{\"a\":1}".to_string(), 1_000);
    assert_eq!(command.deadline, 31_000);
    let command = match handle_response(command, 30_999) {
        ServerResponseStep::Write(command) => command,
        ServerResponseStep::Finished(_) => panic!("there is time left"),
    };
    assert!(matches!(&command.action, ServerResponseAction::Resolve(result) if result == "{\"a\":1}"));
    assert!(matches!(
        handle_response(command, 31_000),
        ServerResponseStep::Finished(Err(Error::ServerRequestResponseTimeout { timeout }))
            if timeout == Duration::from_secs(30)
    ));
}

#[test]
fn approvals_and_rejections_have_their_payload() {
    let command = approve_server_request(RequestId::String("id".to_string()), 0);
    assert!(matches!(command.action, ServerResponseAction::Resolve(result) if result == "{}"));
    assert!(matches!(command.request_id, RequestId::String(id) if id == "id"));
    let command = reject_server_request(RequestId::Integer(1), "not now".to_string(), 0);
    assert!(matches!(
        command.action,
        ServerResponseAction::Reject(error)
            if error.code == -32000 && error.message == "not now" && error.data.is_none()
    ));
    let codex = connected();
    let command = codex.approve_server_request(RequestId::Integer(2), 7);
    assert!(matches!(command.action, ServerResponseAction::Resolve(result) if result == "{}"));
    assert_eq!(command.deadline, 30_007);
    let command = codex.reject_server_request(RequestId::Integer(3), "no".to_string(), 7);
    assert!(matches!(command.action, ServerResponseAction::Reject(error) if error.message == "no"));
}

#[test]
fn every_outcome_of_an_answer_has_its_result() {
    assert!(with_server_response_deadline(WriteOutcome::Finished(Ok(()))).is_ok());
    assert!(matches!(
        with_server_response_deadline(WriteOutcome::Finished(Err("broken pipe".to_string()))),
        Err(Error::Approval(text)) if text == "broken pipe"
    ));
    assert!(matches!(server_response_result(WaitOutcome::QueueClosed), Err(Error::RuntimeClosed)));
    assert!(matches!(server_response_result(WaitOutcome::Dropped), Err(Error::RuntimeClosed)));
    assert!(server_response_result(WaitOutcome::Completed(Ok(()))).is_ok());
    assert!(matches!(
        server_response_result(WaitOutcome::DeadlinePassed),
        Err(Error::ServerRequestResponseTimeout { .. })
    ));
    assert!(server_response_timeout().is_err());
    assert!(client_shutdown_result(ShutdownOutcome::Finished(Ok(()))).is_ok());
    assert!(matches!(
        client_shutdown_result(ShutdownOutcome::Finished(Err("io".to_string()))),
        Err(Error::RuntimeShutdown(text)) if text == "io"
    ));
    assert!(matches!(
        client_shutdown_result(ShutdownOutcome::TimedOut),
        Err(Error::RuntimeShutdownTimeout { timeout }) if timeout == Duration::from_secs(10)
    ));
}

fn disconnect_text(event: Result<AppServerEvent, TryRecvError>) -> Option<String> {
    match event {
        Ok(AppServerEvent::Disconnected { message }) => Some(message),
        _ => None,
    }
}

#[test]
fn the_event_loop_ends_with_its_connection() {
    let mut events = EventRouter::new(4);
    let runtime = match events.take_runtime() {
        Ok(runtime) => runtime,
        Err(error) => panic!("runtime stream should attach: {}", error.message()),
    };
    let warning = AppServerEvent::ServerNotification(ServerNotification::Warning(OptionalThreadParams {
        thread_id: None,
        body: "warning".to_string(),
    }));
    assert!(event_loop_step(&mut events, LoopInput::Event(warning)));
    assert!(!event_loop_step(&mut events, LoopInput::Ended));
    assert!(events.try_recv(&runtime).is_ok());
    assert_eq!(
        disconnect_text(events.try_recv(&runtime)).as_deref(),
        Some("Codex app-server event stream closed")
    );

    let mut events = EventRouter::new(4);
    let runtime = match events.take_runtime() {
        Ok(runtime) => runtime,
        Err(error) => panic!("runtime stream should attach: {}", error.message()),
    };
    assert!(!event_loop_step(&mut events, LoopInput::Shutdown));
    assert_eq!(
        disconnect_text(events.try_recv(&runtime)).as_deref(),
        Some("Codex app-server runtime shut down")
    );

    let mut events = EventRouter::new(4);
    let lost = AppServerEvent::Disconnected { message: "lost".to_string() };
    assert!(!event_loop_step(&mut events, LoopInput::Event(lost)));
    assert!(matches!(events.take_runtime(), Err(Error::RuntimeClosed)));
}

#[test]
fn errors_say_what_went_wrong() {
    assert_eq!(Error::Config { source: "bad".to_string() }.message(), "failed to load Codex config: bad");
    assert_eq!(
        Error::RuntimeStart { source: "x".to_string() }.message(),
        "failed to start Codex runtime: x"
    );
    assert_eq!(
        Error::Arg0DispatchRequired.message(),
        "in-process Codex startup requires helper paths from run_main; use CodexMain::builder or provide arg0_paths explicitly"
    );
    assert_eq!(
        Error::ThreadEventStreamTaken { thread_id: "t".to_string() }.message(),
        "event stream for thread t has already been taken"
    );
    assert_eq!(
        Error::ThreadLifecycleInProgress { thread_id: "t".to_string() }.message(),
        "a lifecycle request for thread t is already in progress"
    );
    assert_eq!(
        Error::CodexEventStreamTaken.message(),
        "Codex runtime event stream has already been taken"
    );
    assert_eq!(Error::InvalidThreadId { thread_id: "t".to_string() }.message(), "invalid Codex thread id: t");
    assert_eq!(
        Error::RuntimeShutdownTimeout { timeout: Duration::from_secs(10) }.message(),
        "Codex runtime shutdown timed out after 10s"
    );
    assert_eq!(
        Error::ServerRequestResponseTimeout { timeout: Duration::from_millis(1500) }.message(),
        "server request response timed out after 1.5s"
    );
    assert_eq!(
        Error::Observability { source: "o".to_string() }.message(),
        "observability setup failed: o"
    );
    assert_eq!(Error::Io("io".to_string()).message(), "io");
    assert_eq!(Error::Serde("json".to_string()).message(), "json");
}

#[test]
fn warmup_takes_its_steps_in_order() {
    let mut codex = connected();
    let mut run = codex.warmup().apps(true).account(false).send(&codex);
    let mut methods: Vec<&'static str> = Vec::new();
    let mut replies: Vec<WarmupReply> = vec![
        WarmupReply::Answered(Ok(WarmupResponse::Models(3))),
        WarmupReply::Answered(Ok(WarmupResponse::Skills(vec![2, 5]))),
        WarmupReply::TimedOut,
        WarmupReply::Answered(Ok(WarmupResponse::ConfigRequirements(true))),
        WarmupReply::Answered(Err(Error::RuntimeClosed)),
        WarmupReply::Answered(Ok(WarmupResponse::Apps(1))),
    ];
    replies.reverse();
    while let Some(request) = run.next_request(&mut codex) {
        methods.push(match request {
            codex_sdk::protocol::ClientRequest::ModelList { params, .. } => {
                assert_eq!(params.include_hidden, Some(true));
                "models"
            }
            codex_sdk::protocol::ClientRequest::SkillsList { cwds, force_reload, .. } => {
                assert_eq!(cwds, vec!["/work".to_string()]);
                assert!(!force_reload);
                "skills"
            }
            codex_sdk::protocol::ClientRequest::PermissionProfileList { cwd, .. } => {
                assert_eq!(cwd.as_deref(), Some("/work"));
                "profiles"
            }
            codex_sdk::protocol::ClientRequest::ConfigRequirementsRead { .. } => "requirements",
            codex_sdk::protocol::ClientRequest::McpServerStatusList { .. } => "mcp",
            codex_sdk::protocol::ClientRequest::AppsList { force_refetch, .. } => {
                assert!(!force_refetch);
                "apps"
            }
            _ => "other",
        });
        match replies.pop() {
            Some(reply) => run.record(reply),
            None => panic!("one reply for each step"),
        }
    }
    assert_eq!(methods, vec!["models", "skills", "profiles", "requirements", "mcp", "apps"]);
    let result: WarmupResult = run.into_result();
    assert_eq!(result.models, Some(3));
    assert_eq!(result.skills, Some(7));
    assert_eq!(result.permission_profiles, None);
    assert_eq!(result.config_requirements, Some(true));
    assert_eq!(result.account, None);
    assert_eq!(result.mcp_servers, None);
    assert_eq!(result.apps, Some(1));
    assert!(!result.is_complete());
    assert_eq!(result.failures.len(), 2);
    assert_eq!(result.failures[0].step, "permissionProfile/list");
    assert_eq!(result.failures[0].error, "warmup request timed out after 30s");
    assert_eq!(result.failures[1].step, "mcpServerStatus/list");
    assert_eq!(result.failures[1].error, "Codex runtime is closed");
}

#[test]
fn warmup_options_choose_directory_and_steps() {
    let mut codex = connected();
    let builder = codex
        .warmup()
        .models(false)
        .cwd(PathBuf::from("/project"))
        .force_reload_skills(true)
        .permission_profiles(false)
        .config_requirements(false)
        .account(false)
        .mcp_status(false)
        .step_timeout(Duration::from_secs(1));
    assert_eq!(builder.targets.step_timeout, Duration::from_secs(1));
    let mut run = builder.send(&codex);
    assert!(matches!(
        run.next_request(&mut codex),
        Some(codex_sdk::protocol::ClientRequest::SkillsList { cwds, force_reload: true, .. })
            if cwds == vec!["/project".to_string()]
    ));
    assert_eq!(run.step_timeout(), Duration::from_secs(1));
    run.record(WarmupReply::Answered(Ok(WarmupResponse::Skills(Vec::new()))));
    assert!(run.next_request(&mut codex).is_none());
    let result = run.into_result();
    assert!(result.is_complete());
    assert_eq!(result.skills, Some(0));
    assert_eq!(codex.warmup().targets.step_timeout, Duration::from_secs(30));
}

#[test]
fn a_step_that_times_out_is_recorded_with_the_time_it_had() {
    let mut codex = connected();
    let mut run = codex.warmup().step_timeout(Duration::from_millis(1500)).send(&codex);
    assert_eq!(run.step_timeout(), Duration::from_millis(1500));
    let mut steps = 0;
    while run.next_request(&mut codex).is_some() {
        run.record(WarmupReply::TimedOut);
        steps += 1;
        assert_eq!(run.step_timeout(), Duration::from_millis(1500));
    }
    let result = run.into_result();
    assert_eq!(steps, 6);
    assert_eq!(format!("{:?}", result.clone()), format!("{result:?}"));
    assert!(format!("{result:?}").starts_with(
        "WarmupResult { models: None, skills: None, permission_profiles: None, config_requirements: None, account: None, mcp_servers: None, apps: None, failures: [WarmupFailure { step: \"model/list\", error: "
    ));
    let named: Vec<&str> = result.failures.iter().map(|failure| failure.step).collect();
    assert_eq!(
        named,
        vec![
            "model/list",
            "skills/list",
            "permissionProfile/list",
            "configRequirements/read",
            "account/read",
            "mcpServerStatus/list"
        ]
    );
    assert!(result.failures.iter().all(|failure| failure.error == "warmup request timed out after 1.5s"));
    assert_eq!(result.models, None);
}
