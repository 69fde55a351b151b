//! What requests, answers and shutdown come to.
use crate::config::Config;
use crate::debug::whole_seconds;
use crate::error::{Error, Result};
use crate::event::{target_of, AppServerEvent, RequestId};
use crate::runtime::app_server::{
    approve_server_request, client_shutdown_result, handle_response, reject_server_request, resolve_server_request,
    send_server_response, server_response_result, server_response_timeout, with_server_response_deadline, RequestIds,
    ServerResponseAction, ServerResponseCommand, ServerResponseStep, ShutdownOutcome, WaitOutcome, WriteOutcome,
};
use crate::runtime::events::EventRouter;
use crate::runtime::mailbox_laws::law_terminal_event_is_last;
use crate::runtime::route_model::OwnerModel;
use crate::runtime::shutdown::{event_loop_step, LoopInput, RuntimeShutdown, ShutdownStep};
use crate::runtime::start::{
    config_warnings, raise_to_one, sdk_in_process_client_start_args, ConfigWarning, InProcessClientStartArgs,
    RuntimeHandle,
};
use crate::types::{Arg0DispatchPaths, ClientInfo};
use vstd::prelude::*;

verus! {

/// Each request has the id after the one before, so two in a row never share
/// one.
pub proof fn law_requests_have_ids_of_their_own(ids: &mut RequestIds, id: RequestId)
    requires
        call_ensures(RequestIds::next_request_id, (ids,), id),
    ensures
        id == RequestId::Integer(final(ids)@),
        final(ids)@ != old(ids)@,
        old(ids)@ < i64::MAX ==> final(ids)@ == old(ids)@ + 1,
        old(ids)@ == i64::MAX ==> final(ids)@ == i64::MIN,
{
}

/// The first request of a runtime has the id one.
pub proof fn law_first_request_has_id_one(ids: RequestIds)
    requires
        call_ensures(RequestIds::new, (), ids),
    ensures
        ids@ == 0,
{
}

/// An answer goes to the request it answers, says what it was given, and has
/// thirty seconds.
pub proof fn law_answers_say_what_they_were_given(
    request_id: RequestId,
    result: String,
    action: ServerResponseAction,
    now: u64,
    sent: ServerResponseCommand,
    resolved: ServerResponseCommand,
)
    requires
        now + 30_000 <= u64::MAX,
        call_ensures(send_server_response, (request_id, action, now), sent),
        call_ensures(resolve_server_request, (request_id, result, now), resolved),
    ensures
        sent.request_id == request_id,
        sent.action == action,
        sent.deadline == now + 30_000,
        resolved.request_id == request_id,
        resolved.action matches ServerResponseAction::Resolve(given) && given@ == result@,
        resolved.deadline == now + 30_000,
{
}

/// An approval is an empty JSON object.
pub proof fn law_approvals_are_empty_objects(request_id: RequestId, now: u64, command: ServerResponseCommand)
    requires
        now + 30_000 <= u64::MAX,
        call_ensures(approve_server_request, (request_id, now), command),
    ensures
        command.request_id == request_id,
        command.action matches ServerResponseAction::Resolve(given) && given@ == "{}"@,
        command.deadline == now + 30_000,
{
}

/// A refusal is a JSON-RPC error with the server's own code and the message
/// that was given.
pub proof fn law_refusals_carry_their_message(
    request_id: RequestId,
    message: String,
    now: u64,
    command: ServerResponseCommand,
)
    requires
        now + 30_000 <= u64::MAX,
        call_ensures(reject_server_request, (request_id, message, now), command),
    ensures
        command.request_id == request_id,
        command.action matches ServerResponseAction::Reject(error) && error.code == -32000 && error.message@ == message@
            && error.data is None,
        command.deadline == now + 30_000,
{
}

/// An answer whose time is up is not written any more. Any other is.
pub proof fn law_late_answers_are_given_up(response: ServerResponseCommand, now: u64, step: ServerResponseStep)
    requires
        call_ensures(handle_response, (response, now), step),
    ensures
        now < response.deadline ==> step == ServerResponseStep::Write(response),
        now >= response.deadline ==> (step matches ServerResponseStep::Finished(
            Err(Error::ServerRequestResponseTimeout { timeout }),
        ) && timeout == whole_seconds(30)),
{
}

/// The caller learns how the answer ended: that it was written, why it could
/// not be, that its thirty seconds are up, or that the runtime is closed.
pub proof fn law_callers_learn_how_answers_end(
    wrote: WriteOutcome,
    written: Result<()>,
    waited: WaitOutcome,
    result: Result<()>,
    late: Result<()>,
)
    requires
        call_ensures(with_server_response_deadline, (wrote,), written),
        call_ensures(server_response_result, (waited,), result),
        call_ensures(server_response_timeout, (), late),
    ensures
        wrote matches WriteOutcome::Finished(Ok(())) ==> written is Ok,
        wrote matches WriteOutcome::Finished(Err(source)) ==> (written matches Err(Error::Approval(told)) && told
            == source),
        wrote is DeadlinePassed ==> (written matches Err(Error::ServerRequestResponseTimeout { timeout }) && timeout
            == whole_seconds(30)),
        waited is QueueClosed ==> (result matches Err(error) && error is RuntimeClosed),
        waited is Dropped ==> (result matches Err(error) && error is RuntimeClosed),
        waited matches WaitOutcome::Completed(completed) ==> result == completed,
        waited is DeadlinePassed ==> (result matches Err(Error::ServerRequestResponseTimeout { timeout }) && timeout
            == whole_seconds(30)),
        late matches Err(Error::ServerRequestResponseTimeout { timeout }) && timeout == whole_seconds(30),
{
}

/// The app-server client has ten seconds to shut down.
pub proof fn law_client_shutdown_has_ten_seconds(outcome: ShutdownOutcome, result: Result<()>)
    requires
        call_ensures(client_shutdown_result, (outcome,), result),
    ensures
        outcome matches ShutdownOutcome::Finished(Ok(())) ==> result is Ok,
        outcome matches ShutdownOutcome::Finished(Err(source)) ==> (result matches Err(Error::RuntimeShutdown(told))
            && told == source),
        outcome is TimedOut ==> (result matches Err(Error::RuntimeShutdownTimeout { timeout }) && timeout
            == whole_seconds(10)),
{
}

/// The first caller of shutdown tells the event loop to stop. While the loop
/// has not ended, every other caller only waits.
pub proof fn law_event_loop_is_told_once(
    fresh: RuntimeShutdown,
    shutdown: &mut RuntimeShutdown,
    step: ShutdownStep,
)
    requires
        call_ensures(RuntimeShutdown::new, (), fresh),
        call_ensures(RuntimeShutdown::begin, (shutdown,), step),
    ensures
        fresh@.signal && fresh@.task && fresh@.failure is None,
        old(shutdown)@.task ==> step == (ShutdownStep::Wait { signal: old(shutdown)@.signal }),
        !final(shutdown)@.signal,
        final(shutdown)@.task == old(shutdown)@.task,
        final(shutdown)@.failure == old(shutdown)@.failure,
{
}

/// Once the event loop has ended, shutdown is done at once: it succeeds, or
/// tells again what went wrong.
pub proof fn law_finished_shutdowns_tell_their_end(shutdown: &mut RuntimeShutdown, step: ShutdownStep)
    requires
        !shutdown@.task,
        call_ensures(RuntimeShutdown::begin, (shutdown,), step),
    ensures
        old(shutdown)@.failure is None ==> step == ShutdownStep::Done(Ok(())),
        old(shutdown)@.failure matches Some(text) ==> (step matches ShutdownStep::Done(
            Err(Error::RuntimeShutdownFailed { message }),
        ) && message@ == text),
{
}

/// The end of the event loop is what shutdown returns. A task that did not run
/// to its end is an error, and every error is kept for later callers.
pub proof fn law_end_of_the_loop_is_returned(
    shutdown: &mut RuntimeShutdown,
    joined: std::result::Result<Result<()>, String>,
    result: Result<()>,
)
    requires
        call_ensures(RuntimeShutdown::complete, (shutdown, joined), result),
    ensures
        joined matches Ok(ended) ==> result == ended,
        joined matches Err(source) ==> (result matches Err(Error::RuntimeTask(told)) && told == source),
        !final(shutdown)@.task,
        result is Ok ==> final(shutdown)@.failure == old(shutdown)@.failure,
        result matches Err(error) ==> final(shutdown)@.failure == Some(error.text()),
        final(shutdown)@.signal == old(shutdown)@.signal,
{
}

/// The event loop goes on with every event but the end of the connection, and
/// ends with a shutdown and with the end of the events. It leaves a closed
/// router then.
pub proof fn law_event_loop_ends_with_the_connection(events: &mut EventRouter, input: LoopInput, goes_on: bool)
    requires
        events.wf(),
        input is Event ==> events@.blocked is None,
        call_ensures(event_loop_step, (events, input), goes_on),
    ensures
        input is Shutdown ==> !goes_on,
        input is Ended ==> !goes_on,
        input matches LoopInput::Event(event) ==> goes_on == !(event is Disconnected),
        input is Event && !(input->Event_0 is Disconnected) && !(input->Event_0 is Lagged) ==> final(events)@
            == old(events)@.route_to(target_of(input->Event_0), input->Event_0),
        !goes_on ==> final(events)@.closed,
{
}

/// When the loop ends, every stream that owns a route is told why: its last
/// event says that the runtime was shut down, or that the app-server sends no
/// more.
pub proof fn law_owners_are_told_why_the_loop_ends(events: &mut EventRouter, input: LoopInput, goes_on: bool, slot: usize)
    requires
        events.wf(),
        !events@.closed,
        events@.blocked is None,
        events@.attachments.contains_key(slot),
        events@.serves(events@.attachments[slot].owner, slot),
        !(input is Event),
        call_ensures(event_loop_step, (events, input), goes_on),
    ensures
        ({
            let mailbox = final(events)@.attachments[slot].mailbox;
            &&& final(events)@.attachments.contains_key(slot)
            &&& mailbox.closed
            &&& mailbox.backlog().len() > 0
            &&& mailbox.backlog().last() matches AppServerEvent::Disconnected { message } && {
                &&& input is Shutdown ==> message@ == "Codex app-server runtime shut down"@
                &&& input is Ended ==> message@ == "Codex app-server event stream closed"@
            }
        }),
{
    let m = events@;
    let text = if input is Shutdown {
        "Codex app-server runtime shut down"@
    } else {
        "Codex app-server event stream closed"@
    };
    let message = choose|message: String|
        message@ == text && final(events)@ == #[trigger] m.close(AppServerEvent::Disconnected { message });
    assert(m.attachment_wf(slot));
    if let OwnerModel::Thread(id) = m.attachments[slot].owner {
        assert(m.thread_wf(id));
    }
    law_terminal_event_is_last(m.attachments[slot].mailbox, AppServerEvent::Disconnected { message });
}

/// A capacity of zero counts as one, and any other as it is.
pub proof fn law_capacities_are_raised_to_one(capacity: usize, raised: usize)
    requires
        call_ensures(raise_to_one, (capacity,), raised),
    ensures
        capacity == 0 ==> raised == 1,
        capacity > 0 ==> raised == capacity,
{
}

/// Each warning of the configuration is passed on, in order, as it is.
pub proof fn law_warnings_are_passed_on(config: Config, warnings: Vec<ConfigWarning>, i: int)
    requires
        call_ensures(config_warnings, (&config,), warnings),
    ensures
        warnings@.len() == config.startup_warnings@.len(),
        0 <= i < warnings@.len() ==> warnings@[i].summary@ == config.startup_warnings@[i]@ && warnings@[i].details
            is None && warnings@[i].path is None && warnings@[i].range is None,
{
}

/// The embedded app-server is started under the application's name and
/// version, with its configuration and nothing beside it.
pub proof fn law_app_server_starts_as_the_application(
    arg0_paths: Arg0DispatchPaths,
    config: Config,
    client_info: ClientInfo,
    capacity: usize,
    args: InProcessClientStartArgs,
)
    requires
        call_ensures(sdk_in_process_client_start_args, (arg0_paths, config, client_info, capacity), args),
    ensures
        args.arg0_paths == arg0_paths,
        args.config == config,
        args.client_name@ == client_info.name@,
        args.session_source@ == client_info.name@,
        args.client_version@ == client_info.version@,
        args.cli_overrides@.len() == 0,
        args.opt_out_notification_methods@.len() == 0,
        !args.strict_config,
        args.enable_codex_api_key_env,
        args.experimental_api,
        !args.mcp_server_openai_form_elicitation,
        capacity > 0 ==> args.channel_capacity == capacity,
        capacity == 0 ==> args.channel_capacity == 1,
        args.config_warnings@.len() == config.startup_warnings@.len(),
{
}

/// A runtime that has just been connected has used no request id, runs, and
/// has a router that has seen nothing.
pub proof fn law_new_runtimes_run(capacity: usize, runtime: RuntimeHandle)
    requires
        call_ensures(RuntimeHandle::start_with_client, (capacity,), runtime),
    ensures
        runtime@.last_id == 0,
        runtime@.shutdown.signal,
        runtime@.shutdown.task,
        runtime@.shutdown.failure is None,
        capacity > 0 ==> runtime@.events.stream_capacity == capacity,
        capacity == 0 ==> runtime@.events.stream_capacity == 1,
        runtime@.events.runtime is Pending,
        !runtime@.events.closed,
{
}

/// Asking a runtime for an id or for shutdown changes nothing else of it.
pub proof fn law_runtime_requests_leave_the_rest_alone(
    runtime: &mut RuntimeHandle,
    id: RequestId,
    stopped: &mut RuntimeHandle,
    step: ShutdownStep,
)
    requires
        call_ensures(RuntimeHandle::next_request_id, (runtime,), id),
        call_ensures(RuntimeHandle::shutdown, (stopped,), step),
    ensures
        id == RequestId::Integer(final(runtime)@.last_id),
        final(runtime)@.last_id != old(runtime)@.last_id,
        final(runtime)@.events == old(runtime)@.events,
        final(runtime)@.shutdown == old(runtime)@.shutdown,
        final(stopped)@.events == old(stopped)@.events,
        final(stopped)@.last_id == old(stopped)@.last_id,
        !final(stopped)@.shutdown.signal,
        old(stopped)@.shutdown.task ==> step == (ShutdownStep::Wait { signal: old(stopped)@.shutdown.signal }),
{
}

} // verus!
