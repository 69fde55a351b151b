//! What errors and debug texts say to people.
use crate::builder::{CodexBuilder, CodexRemoteBuilder, RemoteEndpointConfig};
use crate::debug::{duration_text, fields_text, optional_of, quoted, quoted_path, struct_text, FieldModel};
use crate::error::Error;
use crate::observability::{ObservabilityBuilder, OtelExporter};
use crate::protocol::{AskForApproval, Personality, ReasoningEffort, ReasoningSummary, SandboxMode};
use crate::text::{bool_text, decimal_text};
use crate::thread::Thread;
use crate::warmup::WarmupStepError;
use vstd::prelude::*;

verus! {

/// An error says what failed, and then what it was told of the cause.
pub proof fn law_errors_say_what_failed(error: Error, message: String)
    requires
        call_ensures(Error::message, (&error,), message),
    ensures
        error matches Error::Config { source } ==> message@ == "failed to load Codex config: "@ + source@,
        error matches Error::RuntimeStart { source } ==> message@ == "failed to start Codex runtime: "@ + source@,
        error matches Error::RuntimeTask(source) ==> message@ == "Codex runtime task failed: "@ + source@,
        error matches Error::InvalidThreadId { thread_id } ==> message@ == "invalid Codex thread id: "@ + thread_id@,
        error matches Error::RuntimeShutdown(source) ==> message@ == "failed to shut down Codex runtime: "@ + source@,
        error matches Error::RuntimeShutdownFailed { message: told } ==> message@ == "Codex runtime shutdown previously failed: "@ + told@,
        error matches Error::Protocol(source) ==> message@ == "Codex protocol error: "@ + source@,
        error matches Error::Approval(source) ==> message@ == "approval request failed: "@ + source@,
        error matches Error::Observability { source } ==> message@ == "observability setup failed: "@ + source@,
        error matches Error::RuntimeShutdownTimeout { timeout } ==> message@ == "Codex runtime shutdown timed out after "@ + duration_text(timeout),
        error matches Error::ServerRequestResponseTimeout { timeout } ==> message@ == "server request response timed out after "@ + duration_text(timeout),
        error matches Error::ThreadEventStreamTaken { thread_id } ==> message@ == "event stream for thread "@
            + thread_id@ + " has already been taken"@,
        error matches Error::ThreadLifecycleInProgress { thread_id } ==> message@ == "a lifecycle request for thread "@
            + thread_id@ + " is already in progress"@,
        error is RuntimeClosed ==> message@ == "Codex runtime is closed"@,
        error is CodexEventStreamTaken ==> message@ == "Codex runtime event stream has already been taken"@,
        error is Arg0DispatchRequired ==> message@
            == "in-process Codex startup requires helper paths from run_main; use CodexMain::builder or provide arg0_paths explicitly"@,
        error matches Error::Io(source) ==> message@ == source@,
        error matches Error::Serde(source) ==> message@ == source@,
{
}

/// The failure of a temporary turn names the thread, and then says what the
/// failure itself says.
pub proof fn law_temporary_failures_say_their_cause(error: Error, message: String, cause: String)
    requires
        error is TemporaryTurnStart,
        call_ensures(Error::message, (&error,), message),
        call_ensures(Error::message, (&*error->TemporaryTurnStart_source,), cause),
    ensures
        message@ == "failed to start a turn after temporary thread "@ + error->TemporaryTurnStart_thread_id@
            + " was created: "@ + cause@,
{
}

/// The failure of a temporary turn gives back the thread and the cause, and no
/// other error has either.
pub proof fn law_temporary_failures_give_back_their_thread(
    error: Error,
    retained: Option<&Thread>,
    failure: Option<(Thread, Error)>,
)
    requires
        call_ensures(Error::temporary_thread, (&error,), retained),
        call_ensures(Error::into_temporary_turn_failure, (error,), failure),
    ensures
        retained is Some <==> error is TemporaryTurnStart,
        failure is Some <==> error is TemporaryTurnStart,
        error matches Error::TemporaryTurnStart { thread, source, .. } ==> *retained->0 == thread && failure->0 == (
            thread,
            *source,
        ),
{
}

/// A warmup step that failed says what its error says, and one that timed out
/// how long it had.
pub proof fn law_failed_steps_say_why(error: WarmupStepError, message: String)
    requires
        call_ensures(WarmupStepError::message, (&error,), message),
    ensures
        error matches WarmupStepError::Request(cause) ==> message@ == cause.text(),
        error matches WarmupStepError::Timeout(timeout) ==> message@ == "warmup request timed out after "@
            + duration_text(timeout),
{
}

/// `text` holds the field `name` with the value `value`.
pub open spec fn shows(text: Seq<char>, name: Seq<char>, value: Seq<char>) -> bool {
    exists|before: Seq<char>, after: Seq<char>| text == #[trigger] (before + name + ": "@ + value + after)
}

proof fn lemma_fields_shown(fields: Seq<FieldModel>, i: int)
    requires
        0 <= i < fields.len(),
    ensures
        shows(fields_text(fields), fields[i].name, fields[i].value),
    decreases fields.len(),
{
    let text = fields_text(fields);
    let last = fields.len() - 1;
    let front = if fields.len() == 1 {
        Seq::empty()
    } else {
        fields_text(fields.drop_last()) + ", "@
    };
    if i == last {
        assert(text =~= front + fields[i].name + ": "@ + fields[i].value + Seq::<char>::empty());
    } else {
        lemma_fields_shown(fields.drop_last(), i);
        let shorter = fields_text(fields.drop_last());
        let name = fields[i].name;
        let value = fields[i].value;
        let (before, after) = choose|before: Seq<char>, after: Seq<char>|
            shorter == #[trigger] (before + name + ": "@ + value + after);
        let rest = after + ", "@ + fields.last().name + ": "@ + fields.last().value;
        assert(text =~= before + name + ": "@ + value + rest);
    }
}

/// The debug text of a struct begins with its name and shows every field with
/// its value.
pub proof fn law_debug_texts_show_every_field(name: Seq<char>, fields: Seq<FieldModel>, open: bool, i: int)
    requires
        0 <= i < fields.len(),
    ensures
        shows(struct_text(name, fields, open), fields[i].name, fields[i].value),
        name.is_prefix_of(struct_text(name, fields, open)),
{
    lemma_fields_shown(fields, i);
    let inner = fields_text(fields);
    let text = struct_text(name, fields, open);
    let field_name = fields[i].name;
    let value = fields[i].value;
    let (before, after) = choose|before: Seq<char>, after: Seq<char>|
        inner == #[trigger] (before + field_name + ": "@ + value + after);
    let end = if open {
        ", .. }"@
    } else {
        " }"@
    };
    assert(text =~= (name + " { "@ + before) + field_name + ": "@ + value + (after + end));
}

/// What an optional value that reads `inner` is written as.
pub proof fn law_optional_values_say_whether_they_are_there(inner: Option<Seq<char>>)
    ensures
        inner is None ==> optional_of(inner) == "None"@,
        inner matches Some(text) ==> optional_of(inner) == "Some("@ + text + ")"@,
{
}

/// The debug text of a builder shows its settings.
pub proof fn law_builders_show_their_settings(builder: CodexBuilder, default_capacity: usize, text: String)
    requires
        call_ensures(CodexBuilder::debug_text, (&builder, default_capacity), text),
    ensures
        builder.codex_home is None ==> shows(text@, "codex_home"@, "None"@),
        builder.codex_home is Some ==> shows(text@, "codex_home"@, "Some("@ + quoted_path(builder.codex_home->0) + ")"@),
        builder.cwd is None ==> shows(text@, "cwd"@, "None"@),
        builder.cwd is Some ==> shows(text@, "cwd"@, "Some("@ + quoted_path(builder.cwd->0) + ")"@),
        builder.model is None ==> shows(text@, "model"@, "None"@),
        builder.model is Some ==> shows(text@, "model"@, "Some("@ + quoted(builder.model->0@) + ")"@),
        builder.model_provider is None ==> shows(text@, "model_provider"@, "None"@),
        builder.model_provider is Some ==> shows(text@, "model_provider"@, "Some("@ + quoted(builder.model_provider->0@) + ")"@),
        builder.base_instructions is None ==> shows(text@, "base_instructions"@, "None"@),
        builder.base_instructions is Some ==> shows(text@, "base_instructions"@, "Some("@ + quoted(builder.base_instructions->0@) + ")"@),
        builder.developer_instructions is None ==> shows(text@, "developer_instructions"@, "None"@),
        builder.developer_instructions is Some ==> shows(text@, "developer_instructions"@, "Some("@ + quoted(builder.developer_instructions->0@) + ")"@),
        builder.sandbox is None ==> shows(text@, "sandbox"@, "None"@),
        builder.sandbox is Some ==> shows(text@, "sandbox"@, "Some("@ + builder.sandbox->0.variant() + ")"@),
        builder.approval_policy is None ==> shows(text@, "approval_policy"@, "None"@),
        builder.approval_policy is Some ==> shows(text@, "approval_policy"@, "Some("@ + builder.approval_policy->0.debug() + ")"@),
        builder.personality is None ==> shows(text@, "personality"@, "None"@),
        builder.personality is Some ==> shows(text@, "personality"@, "Some("@ + builder.personality->0.variant() + ")"@),
        builder.reasoning_effort is None ==> shows(text@, "reasoning_effort"@, "None"@),
        builder.reasoning_effort is Some ==> shows(text@, "reasoning_effort"@, "Some("@ + builder.reasoning_effort->0.debug() + ")"@),
        builder.reasoning_summary is None ==> shows(text@, "reasoning_summary"@, "None"@),
        builder.reasoning_summary is Some ==> shows(text@, "reasoning_summary"@, "Some("@ + builder.reasoning_summary->0.variant() + ")"@),
        builder.ephemeral ==> shows(text@, "ephemeral"@, "true"@),
        !builder.ephemeral ==> shows(text@, "ephemeral"@, "false"@),
{
    let fields = builder.debug_fields(default_capacity);
    law_debug_texts_show_every_field("CodexBuilder"@, fields, false, 1);
    law_debug_texts_show_every_field("CodexBuilder"@, fields, false, 2);
    law_debug_texts_show_every_field("CodexBuilder"@, fields, false, 3);
    law_debug_texts_show_every_field("CodexBuilder"@, fields, false, 4);
    law_debug_texts_show_every_field("CodexBuilder"@, fields, false, 6);
    law_debug_texts_show_every_field("CodexBuilder"@, fields, false, 7);
    law_debug_texts_show_every_field("CodexBuilder"@, fields, false, 8);
    law_debug_texts_show_every_field("CodexBuilder"@, fields, false, 9);
    law_debug_texts_show_every_field("CodexBuilder"@, fields, false, 10);
    law_debug_texts_show_every_field("CodexBuilder"@, fields, false, 12);
    law_debug_texts_show_every_field("CodexBuilder"@, fields, false, 13);
    law_debug_texts_show_every_field("CodexBuilder"@, fields, false, 14);
}

/// The debug text of a remote builder shows how it connects and whether a
/// token was set.
pub proof fn law_remote_builders_show_their_transport(
    builder: CodexRemoteBuilder,
    default_capacity: usize,
    text: String,
)
    requires
        call_ensures(CodexRemoteBuilder::debug_text, (&builder, default_capacity), text),
    ensures
        builder.endpoint is WebSocket ==> shows(text@, "transport"@, quoted("websocket"@)),
        builder.endpoint is UnixSocket ==> shows(text@, "transport"@, quoted("unix_socket"@)),
        (builder.endpoint matches RemoteEndpointConfig::WebSocket { auth_token, .. } && auth_token is Some) ==> shows(
            text@,
            "auth_configured"@,
            "true"@,
        ),
        !(builder.endpoint matches RemoteEndpointConfig::WebSocket { auth_token, .. } && auth_token is Some) ==> shows(
            text@,
            "auth_configured"@,
            "false"@,
        ),
        builder.channels.app_server matches Some(capacity) ==> shows(
            text@,
            "app_server_channel_capacity"@,
            decimal_text(capacity as nat),
        ),
        builder.channels.app_server is None ==> shows(
            text@,
            "app_server_channel_capacity"@,
            decimal_text(default_capacity as nat),
        ),
        builder.channels.event_stream matches Some(capacity) ==> shows(
            text@,
            "event_stream_capacity"@,
            decimal_text(capacity as nat),
        ),
        builder.channels.event_stream is None ==> shows(
            text@,
            "event_stream_capacity"@,
            decimal_text(default_capacity as nat),
        ),
{
    let fields = builder.debug_fields(default_capacity);
    law_debug_texts_show_every_field("CodexRemoteBuilder"@, fields, true, 0);
    law_debug_texts_show_every_field("CodexRemoteBuilder"@, fields, true, 1);
    law_debug_texts_show_every_field("CodexRemoteBuilder"@, fields, true, 4);
    law_debug_texts_show_every_field("CodexRemoteBuilder"@, fields, true, 5);
}

/// The name of the kind of an exporter.
pub open spec fn kind_of(exporter: OtelExporter) -> Seq<char> {
    match exporter {
        OtelExporter::Disabled => "none"@,
        OtelExporter::Statsig => "statsig"@,
        OtelExporter::OtlpGrpc { .. } => "otlp_grpc"@,
        OtelExporter::OtlpHttp { .. } => "otlp_http"@,
    }
}

/// The debug text of telemetry settings shows what they are called and where
/// each signal goes.
pub proof fn law_observability_shows_its_settings(builder: ObservabilityBuilder, text: String)
    requires
        call_ensures(ObservabilityBuilder::debug_text, (&builder,), text),
    ensures
        shows(text@, "environment"@, quoted(builder.settings.environment@)),
        shows(text@, "service_name"@, quoted(builder.settings.service_name@)),
        shows(text@, "service_version"@, quoted(builder.settings.service_version@)),
        shows(text@, "logs_exporter"@, quoted(kind_of(builder.settings.exporter))),
        shows(text@, "traces_exporter"@, quoted(kind_of(builder.settings.trace_exporter))),
        shows(text@, "metrics_exporter"@, quoted(kind_of(builder.settings.metrics_exporter))),
        builder.settings.runtime_metrics ==> shows(text@, "runtime_metrics"@, "true"@),
        !builder.settings.runtime_metrics ==> shows(text@, "runtime_metrics"@, "false"@),
        builder.install_subscriber ==> shows(text@, "install_subscriber"@, "true"@),
        !builder.install_subscriber ==> shows(text@, "install_subscriber"@, "false"@),
        builder.fmt_layer ==> shows(text@, "fmt_layer"@, "true"@),
        !builder.fmt_layer ==> shows(text@, "fmt_layer"@, "false"@),
        shows(text@, "span_attribute_count"@, decimal_text(builder.settings.span_attributes.keys().len())),
        shows(text@, "tracestate_count"@, decimal_text(builder.settings.tracestate.keys().len())),
{
    let fields = builder@.debug_fields(
        builder.settings.span_attributes.keys().len(),
        builder.settings.tracestate.keys().len(),
        builder.env_filter,
    );
    law_debug_texts_show_every_field("ObservabilityBuilder"@, fields, false, 0);
    law_debug_texts_show_every_field("ObservabilityBuilder"@, fields, false, 1);
    law_debug_texts_show_every_field("ObservabilityBuilder"@, fields, false, 2);
    law_debug_texts_show_every_field("ObservabilityBuilder"@, fields, false, 3);
    law_debug_texts_show_every_field("ObservabilityBuilder"@, fields, false, 4);
    law_debug_texts_show_every_field("ObservabilityBuilder"@, fields, false, 5);
    law_debug_texts_show_every_field("ObservabilityBuilder"@, fields, false, 6);
    law_debug_texts_show_every_field("ObservabilityBuilder"@, fields, false, 7);
    law_debug_texts_show_every_field("ObservabilityBuilder"@, fields, false, 8);
    law_debug_texts_show_every_field("ObservabilityBuilder"@, fields, false, 10);
    law_debug_texts_show_every_field("ObservabilityBuilder"@, fields, false, 11);
}

/// The debug text of a thread shows its id.
pub proof fn law_threads_show_their_id(thread: Thread, text: String)
    requires
        call_ensures(Thread::debug_text, (&thread,), text),
    ensures
        shows(text@, "id"@, quoted(thread@.id)),
{
    law_debug_texts_show_every_field("Thread"@, seq![FieldModel { name: "id"@, value: quoted(thread@.id) }], true, 0);
}

/// Choices are named in debug texts as they are in code.
pub proof fn law_choices_are_named_as_in_code(
    effort: ReasoningEffort,
    summary: ReasoningSummary,
    personality: Personality,
    sandbox: SandboxMode,
    policy: AskForApproval,
)
    ensures
        effort is Off ==> effort.debug() == "None"@,
        effort is Minimal ==> effort.debug() == "Minimal"@,
        effort is Low ==> effort.debug() == "Low"@,
        effort is Medium ==> effort.debug() == "Medium"@,
        effort is High ==> effort.debug() == "High"@,
        effort is XHigh ==> effort.debug() == "XHigh"@,
        summary is Auto ==> summary.variant() == "Auto"@,
        summary is Concise ==> summary.variant() == "Concise"@,
        summary is Detailed ==> summary.variant() == "Detailed"@,
        summary is Off ==> summary.variant() == "None"@,
        personality is Off ==> personality.variant() == "None"@,
        personality is Friendly ==> personality.variant() == "Friendly"@,
        personality is Pragmatic ==> personality.variant() == "Pragmatic"@,
        sandbox is ReadOnly ==> sandbox.variant() == "ReadOnly"@,
        sandbox is WorkspaceWrite ==> sandbox.variant() == "WorkspaceWrite"@,
        sandbox is DangerFullAccess ==> sandbox.variant() == "DangerFullAccess"@,
        policy is UnlessTrusted ==> policy.debug() == "UnlessTrusted"@,
        policy is OnFailure ==> policy.debug() == "OnFailure"@,
        policy is OnRequest ==> policy.debug() == "OnRequest"@,
        policy is Never ==> policy.debug() == "Never"@,
{
}

/// The debug text of a granular policy shows what Codex may ask for.
pub proof fn law_granular_policies_show_their_switches(policy: AskForApproval, text: String)
    requires
        policy is Granular,
        call_ensures(AskForApproval::debug_text, (&policy,), text),
    ensures
        policy->sandbox_approval ==> shows(text@, "sandbox_approval"@, "true"@),
        !policy->sandbox_approval ==> shows(text@, "sandbox_approval"@, "false"@),
        policy->rules ==> shows(text@, "rules"@, "true"@),
        !policy->rules ==> shows(text@, "rules"@, "false"@),
        policy->mcp_elicitations ==> shows(text@, "mcp_elicitations"@, "true"@),
        !policy->mcp_elicitations ==> shows(text@, "mcp_elicitations"@, "false"@),
        policy->request_permissions ==> shows(text@, "request_permissions"@, "true"@),
        !policy->request_permissions ==> shows(text@, "request_permissions"@, "false"@),
        policy->skill_approval ==> shows(text@, "skill_approval"@, "true"@),
        !policy->skill_approval ==> shows(text@, "skill_approval"@, "false"@),
{
    if let AskForApproval::Granular {
        sandbox_approval,
        rules,
        mcp_elicitations,
        request_permissions,
        skill_approval,
    } = policy {
        let fields = seq![
            FieldModel { name: "sandbox_approval"@, value: bool_text(sandbox_approval) },
            FieldModel { name: "rules"@, value: bool_text(rules) },
            FieldModel { name: "mcp_elicitations"@, value: bool_text(mcp_elicitations) },
            FieldModel { name: "request_permissions"@, value: bool_text(request_permissions) },
            FieldModel { name: "skill_approval"@, value: bool_text(skill_approval) },
        ];
        law_debug_texts_show_every_field("Granular"@, fields, false, 0);
        law_debug_texts_show_every_field("Granular"@, fields, false, 1);
        law_debug_texts_show_every_field("Granular"@, fields, false, 2);
        law_debug_texts_show_every_field("Granular"@, fields, false, 3);
        law_debug_texts_show_every_field("Granular"@, fields, false, 4);
    }
}

} // verus!
