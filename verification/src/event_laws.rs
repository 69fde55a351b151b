//! What every app-server event says of the stream it belongs to.
use crate::event::{
    ends_stream, event_requires_delivery, event_target, is_archive, is_unarchive, notification_target,
    request_target, requires_delivery, target_of, thread_event_terminates_stream, AppServerEvent, EventTarget,
    OptionalThreadParams, RequestId, RuntimeParams, ServerNotification, ServerRequest, TargetModel, ThreadIdParams,
    ThreadParams, TurnCompletedParams,
};
use crate::runtime::mailbox::lag_marker;
use crate::runtime::route_laws::law_owned_threads_receive_their_events;
use crate::runtime::route_model::RouterModel;
use crate::thread_id::canonical_thread_id;
use vstd::prelude::*;

verus! {

/// The target of a notification.
pub open spec fn notified(notification: ServerNotification) -> TargetModel {
    target_of(AppServerEvent::ServerNotification(notification))
}

/// A notification that names a thread belongs to that thread, whatever it
/// says.
pub proof fn law_thread_notifications_belong_to_their_thread(params: ThreadParams, id: Seq<char>)
    requires
        canonical_thread_id(params.thread_id@) == Some(id),
    ensures
        notified(ServerNotification::Error(params)) == TargetModel::Thread(id),
        notified(ServerNotification::ThreadStarted(params)) == TargetModel::Thread(id),
        notified(ServerNotification::ThreadStatusChanged(params)) == TargetModel::Thread(id),
        notified(ServerNotification::ThreadNameUpdated(params)) == TargetModel::Thread(id),
        notified(ServerNotification::ThreadGoalUpdated(params)) == TargetModel::Thread(id),
        notified(ServerNotification::ThreadGoalCleared(params)) == TargetModel::Thread(id),
        notified(ServerNotification::ThreadSettingsUpdated(params)) == TargetModel::Thread(id),
        notified(ServerNotification::ThreadTokenUsageUpdated(params)) == TargetModel::Thread(id),
        notified(ServerNotification::TurnStarted(params)) == TargetModel::Thread(id),
        notified(ServerNotification::HookStarted(params)) == TargetModel::Thread(id),
        notified(ServerNotification::HookCompleted(params)) == TargetModel::Thread(id),
        notified(ServerNotification::TurnDiffUpdated(params)) == TargetModel::Thread(id),
        notified(ServerNotification::TurnPlanUpdated(params)) == TargetModel::Thread(id),
        notified(ServerNotification::ItemStarted(params)) == TargetModel::Thread(id),
        notified(ServerNotification::ItemGuardianApprovalReviewStarted(params)) == TargetModel::Thread(id),
        notified(ServerNotification::ItemGuardianApprovalReviewCompleted(params)) == TargetModel::Thread(id),
        notified(ServerNotification::ItemCompleted(params)) == TargetModel::Thread(id),
        notified(ServerNotification::RawResponseItemCompleted(params)) == TargetModel::Thread(id),
        notified(ServerNotification::AgentMessageDelta(params)) == TargetModel::Thread(id),
        notified(ServerNotification::PlanDelta(params)) == TargetModel::Thread(id),
        notified(ServerNotification::CommandExecutionOutputDelta(params)) == TargetModel::Thread(id),
        notified(ServerNotification::TerminalInteraction(params)) == TargetModel::Thread(id),
        notified(ServerNotification::FileChangeOutputDelta(params)) == TargetModel::Thread(id),
        notified(ServerNotification::FileChangePatchUpdated(params)) == TargetModel::Thread(id),
        notified(ServerNotification::ServerRequestResolved(params)) == TargetModel::Thread(id),
        notified(ServerNotification::McpToolCallProgress(params)) == TargetModel::Thread(id),
        notified(ServerNotification::ReasoningSummaryTextDelta(params)) == TargetModel::Thread(id),
        notified(ServerNotification::ReasoningSummaryPartAdded(params)) == TargetModel::Thread(id),
        notified(ServerNotification::ReasoningTextDelta(params)) == TargetModel::Thread(id),
        notified(ServerNotification::ContextCompacted(params)) == TargetModel::Thread(id),
        notified(ServerNotification::ModelRerouted(params)) == TargetModel::Thread(id),
        notified(ServerNotification::ModelVerification(params)) == TargetModel::Thread(id),
        notified(ServerNotification::TurnModerationMetadata(params)) == TargetModel::Thread(id),
        notified(ServerNotification::ModelSafetyBufferingUpdated(params)) == TargetModel::Thread(id),
        notified(ServerNotification::GuardianWarning(params)) == TargetModel::Thread(id),
        notified(ServerNotification::ThreadRealtimeStarted(params)) == TargetModel::Thread(id),
        notified(ServerNotification::ThreadRealtimeItemAdded(params)) == TargetModel::Thread(id),
        notified(ServerNotification::ThreadRealtimeTranscriptDelta(params)) == TargetModel::Thread(id),
        notified(ServerNotification::ThreadRealtimeTranscriptDone(params)) == TargetModel::Thread(id),
        notified(ServerNotification::ThreadRealtimeOutputAudioDelta(params)) == TargetModel::Thread(id),
        notified(ServerNotification::ThreadRealtimeSdp(params)) == TargetModel::Thread(id),
        notified(ServerNotification::ThreadRealtimeError(params)) == TargetModel::Thread(id),
        notified(ServerNotification::ThreadRealtimeClosed(params)) == TargetModel::Thread(id),
{
}

/// A notification about the life of a thread belongs to that thread.
pub proof fn law_lifecycle_notifications_belong_to_their_thread(
    params: ThreadIdParams,
    completed: TurnCompletedParams,
    id: Seq<char>,
)
    ensures
        canonical_thread_id(params.thread_id@) == Some(id) ==> {
            &&& notified(ServerNotification::ThreadArchived(params)) == TargetModel::Thread(id)
            &&& notified(ServerNotification::ThreadDeleted(params)) == TargetModel::Thread(id)
            &&& notified(ServerNotification::ThreadUnarchived(params)) == TargetModel::Thread(id)
            &&& notified(ServerNotification::ThreadClosed(params)) == TargetModel::Thread(id)
        },
        canonical_thread_id(completed.thread_id@) == Some(id) ==> notified(ServerNotification::TurnCompleted(completed))
            == TargetModel::Thread(id),
{
}

/// A notification that may name a thread belongs to the thread it names, and
/// to the runtime where it names none.
pub proof fn law_optional_notifications_follow_their_id(params: OptionalThreadParams, id: Seq<char>)
    ensures
        params.thread_id matches Some(text) ==> (canonical_thread_id(text@) == Some(id) ==> {
            &&& notified(ServerNotification::Warning(params)) == TargetModel::Thread(id)
            &&& notified(ServerNotification::McpServerStatusUpdated(params)) == TargetModel::Thread(id)
        }),
        params.thread_id is None ==> {
            &&& notified(ServerNotification::Warning(params)) == TargetModel::Runtime
            &&& notified(ServerNotification::McpServerStatusUpdated(params)) == TargetModel::Runtime
        },
{
}

/// A notification that has no place for a thread id belongs to the runtime.
pub proof fn law_runtime_notifications_belong_to_the_runtime(params: RuntimeParams)
    ensures
        notified(ServerNotification::SkillsChanged(params)) == TargetModel::Runtime,
        notified(ServerNotification::McpServerOauthLoginCompleted(params)) == TargetModel::Runtime,
        notified(ServerNotification::AccountUpdated(params)) == TargetModel::Runtime,
        notified(ServerNotification::AccountRateLimitsUpdated(params)) == TargetModel::Runtime,
        notified(ServerNotification::AppListUpdated(params)) == TargetModel::Runtime,
        notified(ServerNotification::RemoteControlStatusChanged(params)) == TargetModel::Runtime,
        notified(ServerNotification::ExternalAgentConfigImportProgress(params)) == TargetModel::Runtime,
        notified(ServerNotification::ExternalAgentConfigImportCompleted(params)) == TargetModel::Runtime,
        notified(ServerNotification::DeprecationNotice(params)) == TargetModel::Runtime,
        notified(ServerNotification::ConfigWarning(params)) == TargetModel::Runtime,
        notified(ServerNotification::FuzzyFileSearchSessionUpdated(params)) == TargetModel::Runtime,
        notified(ServerNotification::FuzzyFileSearchSessionCompleted(params)) == TargetModel::Runtime,
        notified(ServerNotification::CommandExecOutputDelta(params)) == TargetModel::Runtime,
        notified(ServerNotification::ProcessOutputDelta(params)) == TargetModel::Runtime,
        notified(ServerNotification::ProcessExited(params)) == TargetModel::Runtime,
        notified(ServerNotification::FsChanged(params)) == TargetModel::Runtime,
        notified(ServerNotification::WindowsWorldWritableWarning(params)) == TargetModel::Runtime,
        notified(ServerNotification::WindowsSandboxSetupCompleted(params)) == TargetModel::Runtime,
        notified(ServerNotification::AccountLoginCompleted(params)) == TargetModel::Runtime,
{
}

/// A notification that names a thread by an id that nobody can read belongs to
/// no stream at all, not even to the runtime's.
pub proof fn law_unreadable_notifications_belong_nowhere(
    params: ThreadParams,
    lifecycle: ThreadIdParams,
    completed: TurnCompletedParams,
    optional: OptionalThreadParams,
)
    ensures
        canonical_thread_id(params.thread_id@) is None ==> {
            &&& notified(ServerNotification::Error(params)) == TargetModel::InvalidThread
            &&& notified(ServerNotification::ThreadStarted(params)) == TargetModel::InvalidThread
            &&& notified(ServerNotification::ThreadStatusChanged(params)) == TargetModel::InvalidThread
            &&& notified(ServerNotification::ThreadNameUpdated(params)) == TargetModel::InvalidThread
            &&& notified(ServerNotification::ThreadGoalUpdated(params)) == TargetModel::InvalidThread
            &&& notified(ServerNotification::ThreadGoalCleared(params)) == TargetModel::InvalidThread
            &&& notified(ServerNotification::ThreadSettingsUpdated(params)) == TargetModel::InvalidThread
            &&& notified(ServerNotification::ThreadTokenUsageUpdated(params)) == TargetModel::InvalidThread
            &&& notified(ServerNotification::TurnStarted(params)) == TargetModel::InvalidThread
            &&& notified(ServerNotification::HookStarted(params)) == TargetModel::InvalidThread
            &&& notified(ServerNotification::HookCompleted(params)) == TargetModel::InvalidThread
            &&& notified(ServerNotification::TurnDiffUpdated(params)) == TargetModel::InvalidThread
            &&& notified(ServerNotification::TurnPlanUpdated(params)) == TargetModel::InvalidThread
            &&& notified(ServerNotification::ItemStarted(params)) == TargetModel::InvalidThread
            &&& notified(ServerNotification::ItemGuardianApprovalReviewStarted(params)) == TargetModel::InvalidThread
            &&& notified(ServerNotification::ItemGuardianApprovalReviewCompleted(params)) == TargetModel::InvalidThread
            &&& notified(ServerNotification::ItemCompleted(params)) == TargetModel::InvalidThread
            &&& notified(ServerNotification::RawResponseItemCompleted(params)) == TargetModel::InvalidThread
            &&& notified(ServerNotification::AgentMessageDelta(params)) == TargetModel::InvalidThread
            &&& notified(ServerNotification::PlanDelta(params)) == TargetModel::InvalidThread
            &&& notified(ServerNotification::CommandExecutionOutputDelta(params)) == TargetModel::InvalidThread
            &&& notified(ServerNotification::TerminalInteraction(params)) == TargetModel::InvalidThread
            &&& notified(ServerNotification::FileChangeOutputDelta(params)) == TargetModel::InvalidThread
            &&& notified(ServerNotification::FileChangePatchUpdated(params)) == TargetModel::InvalidThread
            &&& notified(ServerNotification::ServerRequestResolved(params)) == TargetModel::InvalidThread
            &&& notified(ServerNotification::McpToolCallProgress(params)) == TargetModel::InvalidThread
            &&& notified(ServerNotification::ReasoningSummaryTextDelta(params)) == TargetModel::InvalidThread
            &&& notified(ServerNotification::ReasoningSummaryPartAdded(params)) == TargetModel::InvalidThread
            &&& notified(ServerNotification::ReasoningTextDelta(params)) == TargetModel::InvalidThread
            &&& notified(ServerNotification::ContextCompacted(params)) == TargetModel::InvalidThread
            &&& notified(ServerNotification::ModelRerouted(params)) == TargetModel::InvalidThread
            &&& notified(ServerNotification::ModelVerification(params)) == TargetModel::InvalidThread
            &&& notified(ServerNotification::TurnModerationMetadata(params)) == TargetModel::InvalidThread
            &&& notified(ServerNotification::ModelSafetyBufferingUpdated(params)) == TargetModel::InvalidThread
            &&& notified(ServerNotification::GuardianWarning(params)) == TargetModel::InvalidThread
            &&& notified(ServerNotification::ThreadRealtimeStarted(params)) == TargetModel::InvalidThread
            &&& notified(ServerNotification::ThreadRealtimeItemAdded(params)) == TargetModel::InvalidThread
            &&& notified(ServerNotification::ThreadRealtimeTranscriptDelta(params)) == TargetModel::InvalidThread
            &&& notified(ServerNotification::ThreadRealtimeTranscriptDone(params)) == TargetModel::InvalidThread
            &&& notified(ServerNotification::ThreadRealtimeOutputAudioDelta(params)) == TargetModel::InvalidThread
            &&& notified(ServerNotification::ThreadRealtimeSdp(params)) == TargetModel::InvalidThread
            &&& notified(ServerNotification::ThreadRealtimeError(params)) == TargetModel::InvalidThread
            &&& notified(ServerNotification::ThreadRealtimeClosed(params)) == TargetModel::InvalidThread
        },
        canonical_thread_id(lifecycle.thread_id@) is None ==> {
            &&& notified(ServerNotification::ThreadArchived(lifecycle)) == TargetModel::InvalidThread
            &&& notified(ServerNotification::ThreadDeleted(lifecycle)) == TargetModel::InvalidThread
            &&& notified(ServerNotification::ThreadUnarchived(lifecycle)) == TargetModel::InvalidThread
            &&& notified(ServerNotification::ThreadClosed(lifecycle)) == TargetModel::InvalidThread
        },
        canonical_thread_id(completed.thread_id@) is None ==> notified(ServerNotification::TurnCompleted(completed))
            == TargetModel::InvalidThread,
        optional.thread_id matches Some(text) ==> (canonical_thread_id(text@) is None ==> {
            &&& notified(ServerNotification::Warning(optional)) == TargetModel::InvalidThread
            &&& notified(ServerNotification::McpServerStatusUpdated(optional)) == TargetModel::InvalidThread
        }),
{
}

/// The target of a server request.
pub open spec fn asked(request: ServerRequest) -> TargetModel {
    target_of(AppServerEvent::ServerRequest(request))
}

/// A server request that names a thread belongs to that thread, and to no
/// stream where nobody can read the id. One that has no place for a thread id
/// belongs to the runtime.
pub proof fn law_requests_belong_to_their_thread(
    request_id: RequestId,
    params: ThreadParams,
    runtime: RuntimeParams,
    id: Seq<char>,
)
    ensures
        canonical_thread_id(params.thread_id@) == Some(id) ==> {
            &&& asked(ServerRequest::CommandExecutionRequestApproval { request_id, params }) == TargetModel::Thread(id)
            &&& asked(ServerRequest::FileChangeRequestApproval { request_id, params }) == TargetModel::Thread(id)
            &&& asked(ServerRequest::ToolRequestUserInput { request_id, params }) == TargetModel::Thread(id)
            &&& asked(ServerRequest::McpServerElicitationRequest { request_id, params }) == TargetModel::Thread(id)
            &&& asked(ServerRequest::PermissionsRequestApproval { request_id, params }) == TargetModel::Thread(id)
            &&& asked(ServerRequest::DynamicToolCall { request_id, params }) == TargetModel::Thread(id)
            &&& asked(ServerRequest::CurrentTimeRead { request_id, params }) == TargetModel::Thread(id)
        },
        canonical_thread_id(params.thread_id@) is None ==> {
            &&& asked(ServerRequest::CommandExecutionRequestApproval { request_id, params }) == TargetModel::InvalidThread
            &&& asked(ServerRequest::FileChangeRequestApproval { request_id, params }) == TargetModel::InvalidThread
            &&& asked(ServerRequest::ToolRequestUserInput { request_id, params }) == TargetModel::InvalidThread
            &&& asked(ServerRequest::McpServerElicitationRequest { request_id, params }) == TargetModel::InvalidThread
            &&& asked(ServerRequest::PermissionsRequestApproval { request_id, params }) == TargetModel::InvalidThread
            &&& asked(ServerRequest::DynamicToolCall { request_id, params }) == TargetModel::InvalidThread
            &&& asked(ServerRequest::CurrentTimeRead { request_id, params }) == TargetModel::InvalidThread
        },
        asked(ServerRequest::ChatgptAuthTokensRefresh { request_id, params: runtime }) == TargetModel::Runtime,
        asked(ServerRequest::AttestationGenerate { request_id, params: runtime }) == TargetModel::Runtime,
        asked(ServerRequest::ApplyPatchApproval { request_id, params: runtime }) == TargetModel::Runtime,
        asked(ServerRequest::ExecCommandApproval { request_id, params: runtime }) == TargetModel::Runtime,
{
}

/// The delivery of a notification.
pub open spec fn must_arrive(notification: ServerNotification) -> bool {
    requires_delivery(AppServerEvent::ServerNotification(notification))
}

/// What carries the transcript or a completion must arrive, and so must every
/// server request, every report of lost events and the end of the connection.
pub proof fn law_transcript_and_completions_must_arrive(
    params: ThreadParams,
    completed: TurnCompletedParams,
    runtime: RuntimeParams,
    request: ServerRequest,
    skipped: usize,
    message: String,
)
    ensures
        must_arrive(ServerNotification::TurnCompleted(completed)),
        must_arrive(ServerNotification::ThreadSettingsUpdated(params)),
        must_arrive(ServerNotification::ItemCompleted(params)),
        must_arrive(ServerNotification::ExternalAgentConfigImportCompleted(runtime)),
        must_arrive(ServerNotification::AgentMessageDelta(params)),
        must_arrive(ServerNotification::PlanDelta(params)),
        must_arrive(ServerNotification::ReasoningSummaryTextDelta(params)),
        must_arrive(ServerNotification::ReasoningTextDelta(params)),
        requires_delivery(AppServerEvent::ServerRequest(request)),
        requires_delivery(AppServerEvent::Lagged { skipped }),
        requires_delivery(AppServerEvent::Disconnected { message }),
{
}

/// Progress and state may be skipped: no stream waits for an owner who does
/// not read.
pub proof fn law_progress_may_be_skipped(
    params: ThreadParams,
    lifecycle: ThreadIdParams,
    optional: OptionalThreadParams,
    runtime: RuntimeParams,
)
    ensures
        !must_arrive(ServerNotification::Error(params)),
        !must_arrive(ServerNotification::ThreadStarted(params)),
        !must_arrive(ServerNotification::ThreadStatusChanged(params)),
        !must_arrive(ServerNotification::ThreadNameUpdated(params)),
        !must_arrive(ServerNotification::ThreadGoalUpdated(params)),
        !must_arrive(ServerNotification::ThreadGoalCleared(params)),
        !must_arrive(ServerNotification::ThreadTokenUsageUpdated(params)),
        !must_arrive(ServerNotification::TurnStarted(params)),
        !must_arrive(ServerNotification::HookStarted(params)),
        !must_arrive(ServerNotification::HookCompleted(params)),
        !must_arrive(ServerNotification::TurnDiffUpdated(params)),
        !must_arrive(ServerNotification::TurnPlanUpdated(params)),
        !must_arrive(ServerNotification::ItemStarted(params)),
        !must_arrive(ServerNotification::ItemGuardianApprovalReviewStarted(params)),
        !must_arrive(ServerNotification::ItemGuardianApprovalReviewCompleted(params)),
        !must_arrive(ServerNotification::RawResponseItemCompleted(params)),
        !must_arrive(ServerNotification::CommandExecutionOutputDelta(params)),
        !must_arrive(ServerNotification::TerminalInteraction(params)),
        !must_arrive(ServerNotification::FileChangeOutputDelta(params)),
        !must_arrive(ServerNotification::FileChangePatchUpdated(params)),
        !must_arrive(ServerNotification::ServerRequestResolved(params)),
        !must_arrive(ServerNotification::McpToolCallProgress(params)),
        !must_arrive(ServerNotification::ReasoningSummaryPartAdded(params)),
        !must_arrive(ServerNotification::ContextCompacted(params)),
        !must_arrive(ServerNotification::ModelRerouted(params)),
        !must_arrive(ServerNotification::ModelVerification(params)),
        !must_arrive(ServerNotification::TurnModerationMetadata(params)),
        !must_arrive(ServerNotification::ModelSafetyBufferingUpdated(params)),
        !must_arrive(ServerNotification::GuardianWarning(params)),
        !must_arrive(ServerNotification::ThreadRealtimeStarted(params)),
        !must_arrive(ServerNotification::ThreadRealtimeItemAdded(params)),
        !must_arrive(ServerNotification::ThreadRealtimeTranscriptDelta(params)),
        !must_arrive(ServerNotification::ThreadRealtimeTranscriptDone(params)),
        !must_arrive(ServerNotification::ThreadRealtimeOutputAudioDelta(params)),
        !must_arrive(ServerNotification::ThreadRealtimeSdp(params)),
        !must_arrive(ServerNotification::ThreadRealtimeError(params)),
        !must_arrive(ServerNotification::ThreadRealtimeClosed(params)),
        !must_arrive(ServerNotification::ThreadArchived(lifecycle)),
        !must_arrive(ServerNotification::ThreadDeleted(lifecycle)),
        !must_arrive(ServerNotification::ThreadUnarchived(lifecycle)),
        !must_arrive(ServerNotification::ThreadClosed(lifecycle)),
        !must_arrive(ServerNotification::Warning(optional)),
        !must_arrive(ServerNotification::McpServerStatusUpdated(optional)),
        !must_arrive(ServerNotification::SkillsChanged(runtime)),
        !must_arrive(ServerNotification::McpServerOauthLoginCompleted(runtime)),
        !must_arrive(ServerNotification::AccountUpdated(runtime)),
        !must_arrive(ServerNotification::AccountRateLimitsUpdated(runtime)),
        !must_arrive(ServerNotification::AppListUpdated(runtime)),
        !must_arrive(ServerNotification::RemoteControlStatusChanged(runtime)),
        !must_arrive(ServerNotification::ExternalAgentConfigImportProgress(runtime)),
        !must_arrive(ServerNotification::DeprecationNotice(runtime)),
        !must_arrive(ServerNotification::ConfigWarning(runtime)),
        !must_arrive(ServerNotification::FuzzyFileSearchSessionUpdated(runtime)),
        !must_arrive(ServerNotification::FuzzyFileSearchSessionCompleted(runtime)),
        !must_arrive(ServerNotification::CommandExecOutputDelta(runtime)),
        !must_arrive(ServerNotification::ProcessOutputDelta(runtime)),
        !must_arrive(ServerNotification::ProcessExited(runtime)),
        !must_arrive(ServerNotification::FsChanged(runtime)),
        !must_arrive(ServerNotification::WindowsWorldWritableWarning(runtime)),
        !must_arrive(ServerNotification::WindowsSandboxSetupCompleted(runtime)),
        !must_arrive(ServerNotification::AccountLoginCompleted(runtime)),
{
}

/// Whether a notification ends its thread's stream.
pub open spec fn ends(notification: ServerNotification) -> bool {
    ends_stream(AppServerEvent::ServerNotification(notification))
}

/// A thread's stream ends when the thread is archived, deleted or closed. Only
/// the first is an archive, and only its reversal an unarchive, which ends
/// nothing.
pub proof fn law_streams_end_with_their_thread(params: ThreadIdParams)
    ensures
        ends(ServerNotification::ThreadArchived(params)),
        ends(ServerNotification::ThreadDeleted(params)),
        ends(ServerNotification::ThreadClosed(params)),
        !ends(ServerNotification::ThreadUnarchived(params)),
        is_archive(AppServerEvent::ServerNotification(ServerNotification::ThreadArchived(params))),
        !is_archive(AppServerEvent::ServerNotification(ServerNotification::ThreadDeleted(params))),
        !is_archive(AppServerEvent::ServerNotification(ServerNotification::ThreadClosed(params))),
        !is_archive(AppServerEvent::ServerNotification(ServerNotification::ThreadUnarchived(params))),
        is_unarchive(AppServerEvent::ServerNotification(ServerNotification::ThreadUnarchived(params))),
        !is_unarchive(AppServerEvent::ServerNotification(ServerNotification::ThreadArchived(params))),
        !is_unarchive(AppServerEvent::ServerNotification(ServerNotification::ThreadDeleted(params))),
        !is_unarchive(AppServerEvent::ServerNotification(ServerNotification::ThreadClosed(params))),
{
}

/// Nothing else ends a thread's stream, archives it or takes it out of the
/// archive: no other notification, no server request and no report of lost
/// events.
pub proof fn law_streams_outlive_ordinary_events(
    params: ThreadParams,
    completed: TurnCompletedParams,
    optional: OptionalThreadParams,
    runtime: RuntimeParams,
    request: ServerRequest,
    skipped: usize,
)
    ensures
        !ends(ServerNotification::Error(params)),
        !ends(ServerNotification::ThreadStarted(params)),
        !ends(ServerNotification::ThreadStatusChanged(params)),
        !ends(ServerNotification::ThreadNameUpdated(params)),
        !ends(ServerNotification::ThreadGoalUpdated(params)),
        !ends(ServerNotification::ThreadGoalCleared(params)),
        !ends(ServerNotification::ThreadSettingsUpdated(params)),
        !ends(ServerNotification::ThreadTokenUsageUpdated(params)),
        !ends(ServerNotification::TurnStarted(params)),
        !ends(ServerNotification::HookStarted(params)),
        !ends(ServerNotification::HookCompleted(params)),
        !ends(ServerNotification::TurnDiffUpdated(params)),
        !ends(ServerNotification::TurnPlanUpdated(params)),
        !ends(ServerNotification::ItemStarted(params)),
        !ends(ServerNotification::ItemGuardianApprovalReviewStarted(params)),
        !ends(ServerNotification::ItemGuardianApprovalReviewCompleted(params)),
        !ends(ServerNotification::ItemCompleted(params)),
        !ends(ServerNotification::RawResponseItemCompleted(params)),
        !ends(ServerNotification::AgentMessageDelta(params)),
        !ends(ServerNotification::PlanDelta(params)),
        !ends(ServerNotification::CommandExecutionOutputDelta(params)),
        !ends(ServerNotification::TerminalInteraction(params)),
        !ends(ServerNotification::FileChangeOutputDelta(params)),
        !ends(ServerNotification::FileChangePatchUpdated(params)),
        !ends(ServerNotification::ServerRequestResolved(params)),
        !ends(ServerNotification::McpToolCallProgress(params)),
        !ends(ServerNotification::ReasoningSummaryTextDelta(params)),
        !ends(ServerNotification::ReasoningSummaryPartAdded(params)),
        !ends(ServerNotification::ReasoningTextDelta(params)),
        !ends(ServerNotification::ContextCompacted(params)),
        !ends(ServerNotification::ModelRerouted(params)),
        !ends(ServerNotification::ModelVerification(params)),
        !ends(ServerNotification::TurnModerationMetadata(params)),
        !ends(ServerNotification::ModelSafetyBufferingUpdated(params)),
        !ends(ServerNotification::GuardianWarning(params)),
        !ends(ServerNotification::ThreadRealtimeStarted(params)),
        !ends(ServerNotification::ThreadRealtimeItemAdded(params)),
        !ends(ServerNotification::ThreadRealtimeTranscriptDelta(params)),
        !ends(ServerNotification::ThreadRealtimeTranscriptDone(params)),
        !ends(ServerNotification::ThreadRealtimeOutputAudioDelta(params)),
        !ends(ServerNotification::ThreadRealtimeSdp(params)),
        !ends(ServerNotification::ThreadRealtimeError(params)),
        !ends(ServerNotification::ThreadRealtimeClosed(params)),
        !ends(ServerNotification::Warning(optional)),
        !ends(ServerNotification::McpServerStatusUpdated(optional)),
        !ends(ServerNotification::SkillsChanged(runtime)),
        !ends(ServerNotification::McpServerOauthLoginCompleted(runtime)),
        !ends(ServerNotification::AccountUpdated(runtime)),
        !ends(ServerNotification::AccountRateLimitsUpdated(runtime)),
        !ends(ServerNotification::AppListUpdated(runtime)),
        !ends(ServerNotification::RemoteControlStatusChanged(runtime)),
        !ends(ServerNotification::ExternalAgentConfigImportProgress(runtime)),
        !ends(ServerNotification::ExternalAgentConfigImportCompleted(runtime)),
        !ends(ServerNotification::DeprecationNotice(runtime)),
        !ends(ServerNotification::ConfigWarning(runtime)),
        !ends(ServerNotification::FuzzyFileSearchSessionUpdated(runtime)),
        !ends(ServerNotification::FuzzyFileSearchSessionCompleted(runtime)),
        !ends(ServerNotification::CommandExecOutputDelta(runtime)),
        !ends(ServerNotification::ProcessOutputDelta(runtime)),
        !ends(ServerNotification::ProcessExited(runtime)),
        !ends(ServerNotification::FsChanged(runtime)),
        !ends(ServerNotification::WindowsWorldWritableWarning(runtime)),
        !ends(ServerNotification::WindowsSandboxSetupCompleted(runtime)),
        !ends(ServerNotification::AccountLoginCompleted(runtime)),
        !ends(ServerNotification::TurnCompleted(completed)),
        !ends_stream(AppServerEvent::ServerRequest(request)),
        !ends_stream(AppServerEvent::Lagged { skipped }),
        forall|event: AppServerEvent| is_archive(event) ==> #[trigger] ends_stream(event),
        forall|event: AppServerEvent| #[trigger] is_unarchive(event) ==> !ends_stream(event),
{
}

/// What carries the transcript or a completion of an owned thread joins the
/// stream of its owner, after a marker for what was lost before it, however
/// full the stream is.
pub proof fn law_transcripts_reach_their_owner(m: RouterModel, params: ThreadParams, id: Seq<char>)
    requires
        m.wf(),
        m.blocked is None,
        !m.closed,
        canonical_thread_id(params.thread_id@) == Some(id),
        m.threads.contains_key(id),
        m.threads[id] is Active,
    ensures
        ({
            let slot = m.threads[id]->Active_slot;
            let before = m.attachments[slot].mailbox;
            let joins = |event: AppServerEvent|
                m.route_to(target_of(event), event).attachments[slot].mailbox.backlog() == before.backlog() + lag_marker(
                    before.skipped,
                ) + seq![event];
            &&& joins(AppServerEvent::ServerNotification(ServerNotification::AgentMessageDelta(params)))
            &&& joins(AppServerEvent::ServerNotification(ServerNotification::PlanDelta(params)))
            &&& joins(AppServerEvent::ServerNotification(ServerNotification::ReasoningSummaryTextDelta(params)))
            &&& joins(AppServerEvent::ServerNotification(ServerNotification::ReasoningTextDelta(params)))
            &&& joins(AppServerEvent::ServerNotification(ServerNotification::ItemCompleted(params)))
            &&& joins(AppServerEvent::ServerNotification(ServerNotification::ThreadSettingsUpdated(params)))
        }),
{
    law_thread_notifications_belong_to_their_thread(params, id);
    let note = |notification: ServerNotification| AppServerEvent::ServerNotification(notification);
    law_owned_threads_receive_their_events(m, id, note(ServerNotification::AgentMessageDelta(params)));
    law_owned_threads_receive_their_events(m, id, note(ServerNotification::PlanDelta(params)));
    law_owned_threads_receive_their_events(m, id, note(ServerNotification::ReasoningSummaryTextDelta(params)));
    law_owned_threads_receive_their_events(m, id, note(ServerNotification::ReasoningTextDelta(params)));
    law_owned_threads_receive_their_events(m, id, note(ServerNotification::ItemCompleted(params)));
    law_owned_threads_receive_their_events(m, id, note(ServerNotification::ThreadSettingsUpdated(params)));
}

/// What the library finds out about an event is what holds of it.
pub proof fn law_findings_about_events_are_true(
    event: AppServerEvent,
    notification: ServerNotification,
    request: ServerRequest,
    target: EventTarget,
    notified_target: EventTarget,
    asked_target: EventTarget,
    required: bool,
    terminal: bool,
)
    requires
        call_ensures(event_target, (&event,), target),
        call_ensures(notification_target, (&notification,), notified_target),
        call_ensures(request_target, (&request,), asked_target),
        call_ensures(event_requires_delivery, (&event,), required),
        call_ensures(thread_event_terminates_stream, (&event,), terminal),
    ensures
        target@ == target_of(event),
        notified_target@ == notified(notification),
        asked_target@ == asked(request),
        required == requires_delivery(event),
        terminal == ends_stream(event),
{
}

} // verus!
