//! App-server events and the route each one belongs to.
use crate::thread_id::{canonical_thread_id, parse_native_thread_id};
use vstd::prelude::*;

verus! {

/// Identifier of a JSON-RPC request.
pub enum RequestId {
    String(String),
    Integer(i64),
}

/// Parameters of a message that belongs to one thread. The native parameters
/// are carried as JSON text and not read here.
pub struct ThreadParams {
    pub thread_id: String,
    pub body: String,
}

/// Parameters of a lifecycle notification, which names its thread only.
pub struct ThreadIdParams {
    pub thread_id: String,
}

/// Parameters of a message that may or may not belong to a thread.
pub struct OptionalThreadParams {
    pub thread_id: Option<String>,
    pub body: String,
}

/// Parameters of a message that belongs to no thread.
pub struct RuntimeParams {
    pub body: String,
}

/// Parameters of the notification that ends a turn.
pub struct TurnCompletedParams {
    pub thread_id: String,
    pub turn_id: String,
    pub body: String,
}

/// A request that the app-server expects the client to answer.
#[allow(inconsistent_fields)]
pub enum ServerRequest {
    CommandExecutionRequestApproval { request_id: RequestId, params: ThreadParams },
    FileChangeRequestApproval { request_id: RequestId, params: ThreadParams },
    ToolRequestUserInput { request_id: RequestId, params: ThreadParams },
    McpServerElicitationRequest { request_id: RequestId, params: ThreadParams },
    PermissionsRequestApproval { request_id: RequestId, params: ThreadParams },
    DynamicToolCall { request_id: RequestId, params: ThreadParams },
    CurrentTimeRead { request_id: RequestId, params: ThreadParams },
    ChatgptAuthTokensRefresh { request_id: RequestId, params: RuntimeParams },
    AttestationGenerate { request_id: RequestId, params: RuntimeParams },
    ApplyPatchApproval { request_id: RequestId, params: RuntimeParams },
    ExecCommandApproval { request_id: RequestId, params: RuntimeParams },
}

/// A notification sent by the app-server.
pub enum ServerNotification {
    Error(ThreadParams),
    ThreadStarted(ThreadParams),
    ThreadStatusChanged(ThreadParams),
    ThreadArchived(ThreadIdParams),
    ThreadDeleted(ThreadIdParams),
    ThreadUnarchived(ThreadIdParams),
    ThreadClosed(ThreadIdParams),
    ThreadNameUpdated(ThreadParams),
    ThreadGoalUpdated(ThreadParams),
    ThreadGoalCleared(ThreadParams),
    ThreadSettingsUpdated(ThreadParams),
    ThreadTokenUsageUpdated(ThreadParams),
    TurnStarted(ThreadParams),
    HookStarted(ThreadParams),
    TurnCompleted(TurnCompletedParams),
    HookCompleted(ThreadParams),
    TurnDiffUpdated(ThreadParams),
    TurnPlanUpdated(ThreadParams),
    ItemStarted(ThreadParams),
    ItemGuardianApprovalReviewStarted(ThreadParams),
    ItemGuardianApprovalReviewCompleted(ThreadParams),
    ItemCompleted(ThreadParams),
    RawResponseItemCompleted(ThreadParams),
    AgentMessageDelta(ThreadParams),
    PlanDelta(ThreadParams),
    CommandExecutionOutputDelta(ThreadParams),
    TerminalInteraction(ThreadParams),
    FileChangeOutputDelta(ThreadParams),
    FileChangePatchUpdated(ThreadParams),
    ServerRequestResolved(ThreadParams),
    McpToolCallProgress(ThreadParams),
    ReasoningSummaryTextDelta(ThreadParams),
    ReasoningSummaryPartAdded(ThreadParams),
    ReasoningTextDelta(ThreadParams),
    ContextCompacted(ThreadParams),
    ModelRerouted(ThreadParams),
    ModelVerification(ThreadParams),
    TurnModerationMetadata(ThreadParams),
    ModelSafetyBufferingUpdated(ThreadParams),
    Warning(OptionalThreadParams),
    GuardianWarning(ThreadParams),
    McpServerStatusUpdated(OptionalThreadParams),
    ThreadRealtimeStarted(ThreadParams),
    ThreadRealtimeItemAdded(ThreadParams),
    ThreadRealtimeTranscriptDelta(ThreadParams),
    ThreadRealtimeTranscriptDone(ThreadParams),
    ThreadRealtimeOutputAudioDelta(ThreadParams),
    ThreadRealtimeSdp(ThreadParams),
    ThreadRealtimeError(ThreadParams),
    ThreadRealtimeClosed(ThreadParams),
    SkillsChanged(RuntimeParams),
    McpServerOauthLoginCompleted(RuntimeParams),
    AccountUpdated(RuntimeParams),
    AccountRateLimitsUpdated(RuntimeParams),
    AppListUpdated(RuntimeParams),
    RemoteControlStatusChanged(RuntimeParams),
    ExternalAgentConfigImportProgress(RuntimeParams),
    ExternalAgentConfigImportCompleted(RuntimeParams),
    DeprecationNotice(RuntimeParams),
    ConfigWarning(RuntimeParams),
    FuzzyFileSearchSessionUpdated(RuntimeParams),
    FuzzyFileSearchSessionCompleted(RuntimeParams),
    CommandExecOutputDelta(RuntimeParams),
    ProcessOutputDelta(RuntimeParams),
    ProcessExited(RuntimeParams),
    FsChanged(RuntimeParams),
    WindowsWorldWritableWarning(RuntimeParams),
    WindowsSandboxSetupCompleted(RuntimeParams),
    AccountLoginCompleted(RuntimeParams),
}

/// One element of the app-server event stream.
pub enum AppServerEvent {
    ServerRequest(ServerRequest),
    ServerNotification(ServerNotification),
    Lagged { skipped: usize },
    Disconnected { message: String },
}

/// Where an event is delivered.
pub enum EventTarget {
    Thread(String),
    InvalidThread,
    Runtime,
}

/// What an [`EventTarget`] stands for: a thread is its canonical id.
pub enum TargetModel {
    Thread(Seq<char>),
    InvalidThread,
    Runtime,
}

impl View for EventTarget {
    type V = TargetModel;

    open spec fn view(&self) -> TargetModel {
        match *self {
            EventTarget::Thread(id) => TargetModel::Thread(id@),
            EventTarget::InvalidThread => TargetModel::InvalidThread,
            EventTarget::Runtime => TargetModel::Runtime,
        }
    }
}

/// The thread id that a request names.
pub open spec fn request_thread(request: ServerRequest) -> Option<Seq<char>> {
    match request {
        ServerRequest::CommandExecutionRequestApproval { params, .. }
        | ServerRequest::FileChangeRequestApproval { params, .. }
        | ServerRequest::ToolRequestUserInput { params, .. }
        | ServerRequest::McpServerElicitationRequest { params, .. }
        | ServerRequest::PermissionsRequestApproval { params, .. }
        | ServerRequest::DynamicToolCall { params, .. }
        | ServerRequest::CurrentTimeRead { params, .. } => Some(params.thread_id@),
        ServerRequest::ChatgptAuthTokensRefresh { .. }
        | ServerRequest::AttestationGenerate { .. }
        | ServerRequest::ApplyPatchApproval { .. }
        | ServerRequest::ExecCommandApproval { .. } => None,
    }
}

/// The thread id that a notification names.
pub open spec fn notification_thread(notification: ServerNotification) -> Option<Seq<char>> {
    match notification {
        ServerNotification::Error(params)
        | ServerNotification::ThreadStarted(params)
        | ServerNotification::ThreadStatusChanged(params)
        | ServerNotification::ThreadNameUpdated(params)
        | ServerNotification::ThreadGoalUpdated(params)
        | ServerNotification::ThreadGoalCleared(params)
        | ServerNotification::ThreadSettingsUpdated(params)
        | ServerNotification::ThreadTokenUsageUpdated(params)
        | ServerNotification::TurnStarted(params)
        | ServerNotification::HookStarted(params)
        | ServerNotification::HookCompleted(params)
        | ServerNotification::TurnDiffUpdated(params)
        | ServerNotification::TurnPlanUpdated(params)
        | ServerNotification::ItemStarted(params)
        | ServerNotification::ItemGuardianApprovalReviewStarted(params)
        | ServerNotification::ItemGuardianApprovalReviewCompleted(params)
        | ServerNotification::ItemCompleted(params)
        | ServerNotification::RawResponseItemCompleted(params)
        | ServerNotification::AgentMessageDelta(params)
        | ServerNotification::PlanDelta(params)
        | ServerNotification::CommandExecutionOutputDelta(params)
        | ServerNotification::TerminalInteraction(params)
        | ServerNotification::FileChangeOutputDelta(params)
        | ServerNotification::FileChangePatchUpdated(params)
        | ServerNotification::ServerRequestResolved(params)
        | ServerNotification::McpToolCallProgress(params)
        | ServerNotification::ReasoningSummaryTextDelta(params)
        | ServerNotification::ReasoningSummaryPartAdded(params)
        | ServerNotification::ReasoningTextDelta(params)
        | ServerNotification::ContextCompacted(params)
        | ServerNotification::ModelRerouted(params)
        | ServerNotification::ModelVerification(params)
        | ServerNotification::TurnModerationMetadata(params)
        | ServerNotification::ModelSafetyBufferingUpdated(params)
        | ServerNotification::GuardianWarning(params)
        | ServerNotification::ThreadRealtimeStarted(params)
        | ServerNotification::ThreadRealtimeItemAdded(params)
        | ServerNotification::ThreadRealtimeTranscriptDelta(params)
        | ServerNotification::ThreadRealtimeTranscriptDone(params)
        | ServerNotification::ThreadRealtimeOutputAudioDelta(params)
        | ServerNotification::ThreadRealtimeSdp(params)
        | ServerNotification::ThreadRealtimeError(params)
        | ServerNotification::ThreadRealtimeClosed(params) => Some(params.thread_id@),
        ServerNotification::ThreadArchived(params)
        | ServerNotification::ThreadDeleted(params)
        | ServerNotification::ThreadUnarchived(params)
        | ServerNotification::ThreadClosed(params) => Some(params.thread_id@),
        ServerNotification::TurnCompleted(params) => Some(params.thread_id@),
        ServerNotification::Warning(params)
        | ServerNotification::McpServerStatusUpdated(params) => match params.thread_id {
            Some(id) => Some(id@),
            None => None,
        },
        ServerNotification::SkillsChanged(_)
        | ServerNotification::McpServerOauthLoginCompleted(_)
        | ServerNotification::AccountUpdated(_)
        | ServerNotification::AccountRateLimitsUpdated(_)
        | ServerNotification::AppListUpdated(_)
        | ServerNotification::RemoteControlStatusChanged(_)
        | ServerNotification::ExternalAgentConfigImportProgress(_)
        | ServerNotification::ExternalAgentConfigImportCompleted(_)
        | ServerNotification::DeprecationNotice(_)
        | ServerNotification::ConfigWarning(_)
        | ServerNotification::FuzzyFileSearchSessionUpdated(_)
        | ServerNotification::FuzzyFileSearchSessionCompleted(_)
        | ServerNotification::CommandExecOutputDelta(_)
        | ServerNotification::ProcessOutputDelta(_)
        | ServerNotification::ProcessExited(_)
        | ServerNotification::FsChanged(_)
        | ServerNotification::WindowsWorldWritableWarning(_)
        | ServerNotification::WindowsSandboxSetupCompleted(_)
        | ServerNotification::AccountLoginCompleted(_) => None,
    }
}

/// The route of a message that names `thread`: no id means the runtime
/// stream, and an id that does not parse means no stream at all.
pub open spec fn addressed_target(thread: Option<Seq<char>>) -> TargetModel {
    match thread {
        None => TargetModel::Runtime,
        Some(text) => parsed_target(canonical_thread_id(text)),
    }
}

/// The route of a message whose thread id parsed to `parsed`.
pub open spec fn parsed_target(parsed: Option<Seq<char>>) -> TargetModel {
    match parsed {
        Some(id) => TargetModel::Thread(id),
        None => TargetModel::InvalidThread,
    }
}

/// The route that an event belongs to.
pub open spec fn target_of(event: AppServerEvent) -> TargetModel {
    match event {
        AppServerEvent::ServerRequest(request) => addressed_target(request_thread(request)),
        AppServerEvent::ServerNotification(notification) => addressed_target(
            notification_thread(notification),
        ),
        AppServerEvent::Lagged { .. } | AppServerEvent::Disconnected { .. } => TargetModel::Runtime,
    }
}

/// The route that an event belongs to.
pub fn event_target(event: &AppServerEvent) -> (target: EventTarget)
    ensures
        target@ == target_of(*event),
{
    match event {
        AppServerEvent::ServerRequest(request) => request_target(request),
        AppServerEvent::ServerNotification(notification) => notification_target(notification),
        AppServerEvent::Lagged { .. } | AppServerEvent::Disconnected { .. } => EventTarget::Runtime,
    }
}

/// The route of a server request.
pub fn request_target(request: &ServerRequest) -> (target: EventTarget)
    ensures
        target@ == addressed_target(request_thread(*request)),
{
    let thread_id: Option<&str> = match request {
        ServerRequest::CommandExecutionRequestApproval { params, .. }
        | ServerRequest::FileChangeRequestApproval { params, .. }
        | ServerRequest::ToolRequestUserInput { params, .. }
        | ServerRequest::McpServerElicitationRequest { params, .. }
        | ServerRequest::PermissionsRequestApproval { params, .. }
        | ServerRequest::DynamicToolCall { params, .. }
        | ServerRequest::CurrentTimeRead { params, .. } => Some(params.thread_id.as_str()),
        ServerRequest::ChatgptAuthTokensRefresh { .. }
        | ServerRequest::AttestationGenerate { .. }
        | ServerRequest::ApplyPatchApproval { .. }
        | ServerRequest::ExecCommandApproval { .. } => None,
    };
    target_from_thread_id(thread_id)
}

/// The route of a server notification.
pub fn notification_target(notification: &ServerNotification) -> (target: EventTarget)
    ensures
        target@ == addressed_target(notification_thread(*notification)),
{
    let thread_id: Option<&str> = match notification {
        ServerNotification::Error(params)
        | ServerNotification::ThreadStarted(params)
        | ServerNotification::ThreadStatusChanged(params)
        | ServerNotification::ThreadNameUpdated(params)
        | ServerNotification::ThreadGoalUpdated(params)
        | ServerNotification::ThreadGoalCleared(params)
        | ServerNotification::ThreadSettingsUpdated(params)
        | ServerNotification::ThreadTokenUsageUpdated(params)
        | ServerNotification::TurnStarted(params)
        | ServerNotification::HookStarted(params)
        | ServerNotification::HookCompleted(params)
        | ServerNotification::TurnDiffUpdated(params)
        | ServerNotification::TurnPlanUpdated(params)
        | ServerNotification::ItemStarted(params)
        | ServerNotification::ItemGuardianApprovalReviewStarted(params)
        | ServerNotification::ItemGuardianApprovalReviewCompleted(params)
        | ServerNotification::ItemCompleted(params)
        | ServerNotification::RawResponseItemCompleted(params)
        | ServerNotification::AgentMessageDelta(params)
        | ServerNotification::PlanDelta(params)
        | ServerNotification::CommandExecutionOutputDelta(params)
        | ServerNotification::TerminalInteraction(params)
        | ServerNotification::FileChangeOutputDelta(params)
        | ServerNotification::FileChangePatchUpdated(params)
        | ServerNotification::ServerRequestResolved(params)
        | ServerNotification::McpToolCallProgress(params)
        | ServerNotification::ReasoningSummaryTextDelta(params)
        | ServerNotification::ReasoningSummaryPartAdded(params)
        | ServerNotification::ReasoningTextDelta(params)
        | ServerNotification::ContextCompacted(params)
        | ServerNotification::ModelRerouted(params)
        | ServerNotification::ModelVerification(params)
        | ServerNotification::TurnModerationMetadata(params)
        | ServerNotification::ModelSafetyBufferingUpdated(params)
        | ServerNotification::GuardianWarning(params)
        | ServerNotification::ThreadRealtimeStarted(params)
        | ServerNotification::ThreadRealtimeItemAdded(params)
        | ServerNotification::ThreadRealtimeTranscriptDelta(params)
        | ServerNotification::ThreadRealtimeTranscriptDone(params)
        | ServerNotification::ThreadRealtimeOutputAudioDelta(params)
        | ServerNotification::ThreadRealtimeSdp(params)
        | ServerNotification::ThreadRealtimeError(params)
        | ServerNotification::ThreadRealtimeClosed(params) => Some(params.thread_id.as_str()),
        ServerNotification::ThreadArchived(params)
        | ServerNotification::ThreadDeleted(params)
        | ServerNotification::ThreadUnarchived(params)
        | ServerNotification::ThreadClosed(params) => Some(params.thread_id.as_str()),
        ServerNotification::TurnCompleted(params) => Some(params.thread_id.as_str()),
        ServerNotification::Warning(params)
        | ServerNotification::McpServerStatusUpdated(params) => match &params.thread_id {
            Some(id) => Some(id.as_str()),
            None => None,
        },
        ServerNotification::SkillsChanged(_)
        | ServerNotification::McpServerOauthLoginCompleted(_)
        | ServerNotification::AccountUpdated(_)
        | ServerNotification::AccountRateLimitsUpdated(_)
        | ServerNotification::AppListUpdated(_)
        | ServerNotification::RemoteControlStatusChanged(_)
        | ServerNotification::ExternalAgentConfigImportProgress(_)
        | ServerNotification::ExternalAgentConfigImportCompleted(_)
        | ServerNotification::DeprecationNotice(_)
        | ServerNotification::ConfigWarning(_)
        | ServerNotification::FuzzyFileSearchSessionUpdated(_)
        | ServerNotification::FuzzyFileSearchSessionCompleted(_)
        | ServerNotification::CommandExecOutputDelta(_)
        | ServerNotification::ProcessOutputDelta(_)
        | ServerNotification::ProcessExited(_)
        | ServerNotification::FsChanged(_)
        | ServerNotification::WindowsWorldWritableWarning(_)
        | ServerNotification::WindowsSandboxSetupCompleted(_)
        | ServerNotification::AccountLoginCompleted(_) => None,
    };
    target_from_thread_id(thread_id)
}

/// The route of a message that names `thread_id`.
pub fn target_from_thread_id(thread_id: Option<&str>) -> (target: EventTarget)
    ensures
        target@ == addressed_target(
            match thread_id {
                Some(text) => Some(text@),
                None => None,
            },
        ),
{
    match thread_id {
        Some(text) => target_from_parsed(parse_native_thread_id(text)),
        None => EventTarget::Runtime,
    }
}

/// The route of a message whose thread id parsed to `parsed`.
pub fn target_from_parsed(parsed: Option<String>) -> (target: EventTarget)
    ensures
        target@ == parsed_target(
            match parsed {
                Some(id) => Some(id@),
                None => None,
            },
        ),
{
    match parsed {
        Some(id) => EventTarget::Thread(id),
        None => EventTarget::InvalidThread,
    }
}

/// Whether the event must reach its stream.
pub open spec fn requires_delivery(event: AppServerEvent) -> bool {
    match event {
        AppServerEvent::ServerNotification(notification) => {
            ||| notification is TurnCompleted
            ||| notification is ThreadSettingsUpdated
            ||| notification is ItemCompleted
            ||| notification is ExternalAgentConfigImportCompleted
            ||| notification is AgentMessageDelta
            ||| notification is PlanDelta
            ||| notification is ReasoningSummaryTextDelta
            ||| notification is ReasoningTextDelta
        },
        _ => true,
    }
}

/// Whether the event must reach its stream. Requests, lag markers and the end
/// of the connection always must; of the notifications, those that carry the
/// transcript or a completion.
pub fn event_requires_delivery(event: &AppServerEvent) -> (required: bool)
    ensures
        required == requires_delivery(*event),
{
    match event {
        AppServerEvent::ServerRequest(_) | AppServerEvent::Lagged { .. } => true,
        AppServerEvent::ServerNotification(notification) => match notification {
            ServerNotification::TurnCompleted(_)
            | ServerNotification::ThreadSettingsUpdated(_)
            | ServerNotification::ItemCompleted(_)
            | ServerNotification::ExternalAgentConfigImportCompleted(_)
            | ServerNotification::AgentMessageDelta(_)
            | ServerNotification::PlanDelta(_)
            | ServerNotification::ReasoningSummaryTextDelta(_)
            | ServerNotification::ReasoningTextDelta(_) => true,
            _ => false,
        },
        AppServerEvent::Disconnected { .. } => true,
    }
}

/// Whether the event says that its thread was archived.
pub open spec fn is_archive(event: AppServerEvent) -> bool {
    event matches AppServerEvent::ServerNotification(notification) && notification is ThreadArchived
}

/// Whether the event says that its thread was taken out of the archive.
pub open spec fn is_unarchive(event: AppServerEvent) -> bool {
    event matches AppServerEvent::ServerNotification(notification) && notification is ThreadUnarchived
}

/// Whether the event ends its thread's stream.
pub open spec fn ends_stream(event: AppServerEvent) -> bool {
    event matches AppServerEvent::ServerNotification(notification) && (notification is ThreadArchived
        || notification is ThreadDeleted || notification is ThreadClosed)
}

/// Whether the event ends its thread's stream.
pub fn thread_event_terminates_stream(event: &AppServerEvent) -> (ends: bool)
    ensures
        ends == ends_stream(*event),
{
    match event {
        AppServerEvent::ServerNotification(
            ServerNotification::ThreadArchived(_)
            | ServerNotification::ThreadDeleted(_)
            | ServerNotification::ThreadClosed(_),
        ) => true,
        _ => false,
    }
}

/// Whether the event says that its thread was archived.
pub(crate) fn event_is_archive(event: &AppServerEvent) -> (archive: bool)
    ensures
        archive == is_archive(*event),
{
    match event {
        AppServerEvent::ServerNotification(ServerNotification::ThreadArchived(_)) => true,
        _ => false,
    }
}

/// Whether the event says that its thread was taken out of the archive.
pub(crate) fn event_is_unarchive(event: &AppServerEvent) -> (unarchive: bool)
    ensures
        unarchive == is_unarchive(*event),
{
    match event {
        AppServerEvent::ServerNotification(ServerNotification::ThreadUnarchived(_)) => true,
        _ => false,
    }
}

} // verus!
