//! What is set on a builder stays set.
use crate::builder::{CodexBuilder, CodexRemoteBuilder, CodexWithConfigBuilder};
use crate::observability::{ObservabilityBuilder, OtelExporter};
use crate::path::lossy_path_text;
use crate::protocol::{
    AskForApproval, Personality, ReasoningEffort, ReasoningSummary, SandboxMode, SandboxPolicy,
    TurnEnvironmentParams, UserInputModel,
};
use crate::text::optional_text;
use crate::thread::ThreadBuilder;
use crate::thread_defaults::EnvironmentAccess;
use crate::turn::{CodexTurnBuilder, TurnBuilder};
use crate::types::Arg0DispatchPaths;
use crate::warmup::WarmupBuilder;
use std::path::PathBuf;
use std::time::Duration;
use vstd::prelude::*;

verus! {

/// What a choice of environments is sent as.
pub open spec fn is_choice(
    sent: Option<Seq<TurnEnvironmentParams>>,
    access: EnvironmentAccess,
) -> bool {
    &&& access is Inherit ==> sent is None
    &&& access is Disabled ==> (sent matches Some(list) && list.len() == 0)
    &&& access matches EnvironmentAccess::Selected(environments) ==> (sent matches Some(list) && list
        == environments@)
}

/// The settings of a new thread stay set, each as it was given.
pub proof fn law_thread_settings_stay_set(
    steps: Seq<ThreadBuilder>,
    cwd: PathBuf,
    model: String,
    provider: String,
    tier: String,
    personality: Personality,
    base: String,
    developer: String,
    policy: AskForApproval,
    sandbox: SandboxMode,
    ephemeral: bool,
)
    requires
        steps.len() == 11,
        call_ensures(ThreadBuilder::cwd, (steps[0], cwd), steps[1]),
        call_ensures(ThreadBuilder::model, (steps[1], model), steps[2]),
        call_ensures(ThreadBuilder::model_provider, (steps[2], provider), steps[3]),
        call_ensures(ThreadBuilder::service_tier, (steps[3], tier), steps[4]),
        call_ensures(ThreadBuilder::personality, (steps[4], personality), steps[5]),
        call_ensures(ThreadBuilder::base_instructions, (steps[5], base), steps[6]),
        call_ensures(ThreadBuilder::developer_instructions, (steps[6], developer), steps[7]),
        call_ensures(ThreadBuilder::approval_policy, (steps[7], policy), steps[8]),
        call_ensures(ThreadBuilder::sandbox, (steps[8], sandbox), steps[9]),
        call_ensures(ThreadBuilder::ephemeral, (steps[9], ephemeral), steps[10]),
    ensures
        steps[10].params@.cwd == Some(lossy_path_text(cwd)),
        steps[10].params@.model == Some(model@),
        steps[10].params@.model_provider == Some(provider@),
        steps[10].params@.service_tier == Some(Some(tier@)),
        steps[10].params@.personality == Some(personality),
        steps[10].params@.base_instructions == Some(base@),
        steps[10].params@.developer_instructions == Some(developer@),
        steps[10].params@.approval_policy == Some(policy),
        steps[10].params@.sandbox == Some(sandbox),
        steps[10].params@.ephemeral == Some(ephemeral),
        steps[10].params@.runtime_workspace_roots == steps[0].params@.runtime_workspace_roots,
        steps[10].params@.approvals_reviewer == steps[0].params@.approvals_reviewer,
        steps[10].params@.permissions == steps[0].params@.permissions,
        steps[10].params@.config == steps[0].params@.config,
        steps[10].params@.thread_source == steps[0].params@.thread_source,
        steps[10].params@.environments == steps[0].params@.environments,
        steps[10].params@.extra == steps[0].params@.extra,
{
}

/// The settings of a new thread stay set, each as it was given, in the other order too.
pub proof fn law_thread_settings_stay_set_in_the_other_order(
    steps: Seq<ThreadBuilder>,
    cwd: PathBuf,
    model: String,
    provider: String,
    tier: String,
    personality: Personality,
    base: String,
    developer: String,
    policy: AskForApproval,
    sandbox: SandboxMode,
    ephemeral: bool,
)
    requires
        steps.len() == 11,
        call_ensures(ThreadBuilder::ephemeral, (steps[0], ephemeral), steps[1]),
        call_ensures(ThreadBuilder::sandbox, (steps[1], sandbox), steps[2]),
        call_ensures(ThreadBuilder::approval_policy, (steps[2], policy), steps[3]),
        call_ensures(ThreadBuilder::developer_instructions, (steps[3], developer), steps[4]),
        call_ensures(ThreadBuilder::base_instructions, (steps[4], base), steps[5]),
        call_ensures(ThreadBuilder::personality, (steps[5], personality), steps[6]),
        call_ensures(ThreadBuilder::service_tier, (steps[6], tier), steps[7]),
        call_ensures(ThreadBuilder::model_provider, (steps[7], provider), steps[8]),
        call_ensures(ThreadBuilder::model, (steps[8], model), steps[9]),
        call_ensures(ThreadBuilder::cwd, (steps[9], cwd), steps[10]),
    ensures
        steps[10].params@.cwd == Some(lossy_path_text(cwd)),
        steps[10].params@.model == Some(model@),
        steps[10].params@.model_provider == Some(provider@),
        steps[10].params@.service_tier == Some(Some(tier@)),
        steps[10].params@.personality == Some(personality),
        steps[10].params@.base_instructions == Some(base@),
        steps[10].params@.developer_instructions == Some(developer@),
        steps[10].params@.approval_policy == Some(policy),
        steps[10].params@.sandbox == Some(sandbox),
        steps[10].params@.ephemeral == Some(ephemeral),
        steps[10].params@.runtime_workspace_roots == steps[0].params@.runtime_workspace_roots,
        steps[10].params@.approvals_reviewer == steps[0].params@.approvals_reviewer,
        steps[10].params@.permissions == steps[0].params@.permissions,
        steps[10].params@.config == steps[0].params@.config,
        steps[10].params@.thread_source == steps[0].params@.thread_source,
        steps[10].params@.environments == steps[0].params@.environments,
        steps[10].params@.extra == steps[0].params@.extra,
{
}

/// The settings of a turn stay set, each as it was given.
pub proof fn law_turn_settings_stay_set(
    steps: Seq<TurnBuilder>,
    cwd: PathBuf,
    model: String,
    tier: String,
    personality: Personality,
    approval: AskForApproval,
    policy: SandboxPolicy,
    effort: ReasoningEffort,
    summary: ReasoningSummary,
    text: String,
    schema: String,
)
    requires
        steps.len() == 11,
        call_ensures(TurnBuilder::cwd, (steps[0], cwd), steps[1]),
        call_ensures(TurnBuilder::model, (steps[1], model), steps[2]),
        call_ensures(TurnBuilder::service_tier, (steps[2], tier), steps[3]),
        call_ensures(TurnBuilder::personality, (steps[3], personality), steps[4]),
        call_ensures(TurnBuilder::approval_policy, (steps[4], approval), steps[5]),
        call_ensures(TurnBuilder::sandbox_policy, (steps[5], policy), steps[6]),
        call_ensures(TurnBuilder::effort, (steps[6], effort), steps[7]),
        call_ensures(TurnBuilder::reasoning_summary, (steps[7], summary), steps[8]),
        call_ensures(TurnBuilder::input_text, (steps[8], text), steps[9]),
        call_ensures(TurnBuilder::output_schema, (steps[9], schema), steps[10]),
    ensures
        steps[10].params@.cwd == Some(cwd),
        steps[10].params@.model == Some(model@),
        steps[10].params@.service_tier == Some(Some(tier@)),
        steps[10].params@.personality == Some(personality),
        steps[10].params@.approval_policy == Some(approval),
        steps[10].params@.sandbox_policy == Some(policy@),
        steps[10].params@.effort == Some(effort),
        steps[10].params@.summary == Some(summary),
        steps[10].params@.input == seq![UserInputModel::Text { text: text@, text_elements: Seq::empty() }],
        steps[10].params@.output_schema == Some(schema@),
        steps[10].params@.environments == steps[0].params@.environments,
        steps[10].params@.extra == steps[0].params@.extra,
        steps[10].thread == steps[0].thread,
{
}

/// The settings of a turn stay set, each as it was given, in the other order too.
pub proof fn law_turn_settings_stay_set_in_the_other_order(
    steps: Seq<TurnBuilder>,
    cwd: PathBuf,
    model: String,
    tier: String,
    personality: Personality,
    approval: AskForApproval,
    policy: SandboxPolicy,
    effort: ReasoningEffort,
    summary: ReasoningSummary,
    text: String,
    schema: String,
)
    requires
        steps.len() == 11,
        call_ensures(TurnBuilder::output_schema, (steps[0], schema), steps[1]),
        call_ensures(TurnBuilder::input_text, (steps[1], text), steps[2]),
        call_ensures(TurnBuilder::reasoning_summary, (steps[2], summary), steps[3]),
        call_ensures(TurnBuilder::effort, (steps[3], effort), steps[4]),
        call_ensures(TurnBuilder::sandbox_policy, (steps[4], policy), steps[5]),
        call_ensures(TurnBuilder::approval_policy, (steps[5], approval), steps[6]),
        call_ensures(TurnBuilder::personality, (steps[6], personality), steps[7]),
        call_ensures(TurnBuilder::service_tier, (steps[7], tier), steps[8]),
        call_ensures(TurnBuilder::model, (steps[8], model), steps[9]),
        call_ensures(TurnBuilder::cwd, (steps[9], cwd), steps[10]),
    ensures
        steps[10].params@.cwd == Some(cwd),
        steps[10].params@.model == Some(model@),
        steps[10].params@.service_tier == Some(Some(tier@)),
        steps[10].params@.personality == Some(personality),
        steps[10].params@.approval_policy == Some(approval),
        steps[10].params@.sandbox_policy == Some(policy@),
        steps[10].params@.effort == Some(effort),
        steps[10].params@.summary == Some(summary),
        steps[10].params@.input == seq![UserInputModel::Text { text: text@, text_elements: Seq::empty() }],
        steps[10].params@.output_schema == Some(schema@),
        steps[10].params@.environments == steps[0].params@.environments,
        steps[10].params@.extra == steps[0].params@.extra,
        steps[10].thread == steps[0].thread,
{
}

/// The settings of a temporary turn stay set, each as it was given, for its
/// thread and for the turn where both have them.
pub proof fn law_temporary_turn_settings_stay_set(
    steps: Seq<CodexTurnBuilder>,
    cwd: PathBuf,
    model: String,
    provider: String,
    tier: String,
    personality: Personality,
    base: String,
    developer: String,
    approval: AskForApproval,
    policy: SandboxPolicy,
    effort: ReasoningEffort,
    summary: ReasoningSummary,
    text: String,
    schema: String,
)
    requires
        steps.len() == 14,
        call_ensures(CodexTurnBuilder::cwd, (steps[0], cwd), steps[1]),
        call_ensures(CodexTurnBuilder::model, (steps[1], model), steps[2]),
        call_ensures(CodexTurnBuilder::model_provider, (steps[2], provider), steps[3]),
        call_ensures(CodexTurnBuilder::service_tier, (steps[3], tier), steps[4]),
        call_ensures(CodexTurnBuilder::personality, (steps[4], personality), steps[5]),
        call_ensures(CodexTurnBuilder::base_instructions, (steps[5], base), steps[6]),
        call_ensures(CodexTurnBuilder::developer_instructions, (steps[6], developer), steps[7]),
        call_ensures(CodexTurnBuilder::approval_policy, (steps[7], approval), steps[8]),
        call_ensures(CodexTurnBuilder::sandbox_policy, (steps[8], policy), steps[9]),
        call_ensures(CodexTurnBuilder::effort, (steps[9], effort), steps[10]),
        call_ensures(CodexTurnBuilder::reasoning_summary, (steps[10], summary), steps[11]),
        call_ensures(CodexTurnBuilder::input_text, (steps[11], text), steps[12]),
        call_ensures(CodexTurnBuilder::output_schema, (steps[12], schema), steps[13]),
    ensures
        steps[13].thread_params@.cwd == Some(lossy_path_text(cwd)),
        steps[13].turn_params@.cwd == Some(cwd),
        steps[13].thread_params@.model == Some(model@),
        steps[13].turn_params@.model == Some(model@),
        steps[13].thread_params@.model_provider == Some(provider@),
        steps[13].thread_params@.service_tier == Some(Some(tier@)),
        steps[13].turn_params@.service_tier == Some(Some(tier@)),
        steps[13].thread_params@.personality == Some(personality),
        steps[13].turn_params@.personality == Some(personality),
        steps[13].thread_params@.base_instructions == Some(base@),
        steps[13].thread_params@.developer_instructions == Some(developer@),
        steps[13].thread_params@.approval_policy == Some(approval),
        steps[13].turn_params@.approval_policy == Some(approval),
        steps[13].turn_params@.sandbox_policy == Some(policy@),
        steps[13].turn_params@.effort == Some(effort),
        steps[13].turn_params@.summary == Some(summary),
        steps[13].turn_params@.input == seq![UserInputModel::Text { text: text@, text_elements: Seq::empty() }],
        steps[13].turn_params@.output_schema == Some(schema@),
        steps[13].thread_params@.runtime_workspace_roots == steps[0].thread_params@.runtime_workspace_roots,
        steps[13].thread_params@.approvals_reviewer == steps[0].thread_params@.approvals_reviewer,
        steps[13].thread_params@.permissions == steps[0].thread_params@.permissions,
        steps[13].thread_params@.config == steps[0].thread_params@.config,
        steps[13].thread_params@.thread_source == steps[0].thread_params@.thread_source,
        steps[13].thread_params@.environments == steps[0].thread_params@.environments,
        steps[13].thread_params@.extra == steps[0].thread_params@.extra,
        steps[13].thread_params@.sandbox == steps[0].thread_params@.sandbox,
        steps[13].thread_params@.ephemeral == steps[0].thread_params@.ephemeral,
        steps[13].turn_params@.environments == steps[0].turn_params@.environments,
        steps[13].turn_params@.extra == steps[0].turn_params@.extra,
{
}

/// The settings of a temporary turn stay set, each as it was given, for its
/// thread and for the turn where both have them, in the other
/// order too.
pub proof fn law_temporary_turn_settings_stay_set_in_the_other_order(
    steps: Seq<CodexTurnBuilder>,
    cwd: PathBuf,
    model: String,
    provider: String,
    tier: String,
    personality: Personality,
    base: String,
    developer: String,
    approval: AskForApproval,
    policy: SandboxPolicy,
    effort: ReasoningEffort,
    summary: ReasoningSummary,
    text: String,
    schema: String,
)
    requires
        steps.len() == 14,
        call_ensures(CodexTurnBuilder::output_schema, (steps[0], schema), steps[1]),
        call_ensures(CodexTurnBuilder::input_text, (steps[1], text), steps[2]),
        call_ensures(CodexTurnBuilder::reasoning_summary, (steps[2], summary), steps[3]),
        call_ensures(CodexTurnBuilder::effort, (steps[3], effort), steps[4]),
        call_ensures(CodexTurnBuilder::sandbox_policy, (steps[4], policy), steps[5]),
        call_ensures(CodexTurnBuilder::approval_policy, (steps[5], approval), steps[6]),
        call_ensures(CodexTurnBuilder::developer_instructions, (steps[6], developer), steps[7]),
        call_ensures(CodexTurnBuilder::base_instructions, (steps[7], base), steps[8]),
        call_ensures(CodexTurnBuilder::personality, (steps[8], personality), steps[9]),
        call_ensures(CodexTurnBuilder::service_tier, (steps[9], tier), steps[10]),
        call_ensures(CodexTurnBuilder::model_provider, (steps[10], provider), steps[11]),
        call_ensures(CodexTurnBuilder::model, (steps[11], model), steps[12]),
        call_ensures(CodexTurnBuilder::cwd, (steps[12], cwd), steps[13]),
    ensures
        steps[13].thread_params@.cwd == Some(lossy_path_text(cwd)),
        steps[13].turn_params@.cwd == Some(cwd),
        steps[13].thread_params@.model == Some(model@),
        steps[13].turn_params@.model == Some(model@),
        steps[13].thread_params@.model_provider == Some(provider@),
        steps[13].thread_params@.service_tier == Some(Some(tier@)),
        steps[13].turn_params@.service_tier == Some(Some(tier@)),
        steps[13].thread_params@.personality == Some(personality),
        steps[13].turn_params@.personality == Some(personality),
        steps[13].thread_params@.base_instructions == Some(base@),
        steps[13].thread_params@.developer_instructions == Some(developer@),
        steps[13].thread_params@.approval_policy == Some(approval),
        steps[13].turn_params@.approval_policy == Some(approval),
        steps[13].turn_params@.sandbox_policy == Some(policy@),
        steps[13].turn_params@.effort == Some(effort),
        steps[13].turn_params@.summary == Some(summary),
        steps[13].turn_params@.input == seq![UserInputModel::Text { text: text@, text_elements: Seq::empty() }],
        steps[13].turn_params@.output_schema == Some(schema@),
        steps[13].thread_params@.runtime_workspace_roots == steps[0].thread_params@.runtime_workspace_roots,
        steps[13].thread_params@.approvals_reviewer == steps[0].thread_params@.approvals_reviewer,
        steps[13].thread_params@.permissions == steps[0].thread_params@.permissions,
        steps[13].thread_params@.config == steps[0].thread_params@.config,
        steps[13].thread_params@.thread_source == steps[0].thread_params@.thread_source,
        steps[13].thread_params@.environments == steps[0].thread_params@.environments,
        steps[13].thread_params@.extra == steps[0].thread_params@.extra,
        steps[13].thread_params@.sandbox == steps[0].thread_params@.sandbox,
        steps[13].thread_params@.ephemeral == steps[0].thread_params@.ephemeral,
        steps[13].turn_params@.environments == steps[0].turn_params@.environments,
        steps[13].turn_params@.extra == steps[0].turn_params@.extra,
{
}

/// The settings of a runtime stay set, each as it was given.
pub proof fn law_runtime_settings_stay_set(
    steps: Seq<CodexBuilder>,
    paths: Arg0DispatchPaths,
    name: String,
    version: String,
    home: PathBuf,
    cwd: PathBuf,
    model: String,
    provider: String,
    tier: String,
    effort: ReasoningEffort,
    summary: ReasoningSummary,
    personality: Personality,
    base: String,
    developer: String,
    policy: AskForApproval,
    sandbox: SandboxMode,
    ephemeral: bool,
)
    requires
        steps.len() == 17,
        call_ensures(CodexBuilder::arg0_paths, (steps[0], paths), steps[1]),
        call_ensures(CodexBuilder::client_name, (steps[1], name), steps[2]),
        call_ensures(CodexBuilder::client_version, (steps[2], version), steps[3]),
        call_ensures(CodexBuilder::codex_home, (steps[3], home), steps[4]),
        call_ensures(CodexBuilder::cwd, (steps[4], cwd), steps[5]),
        call_ensures(CodexBuilder::model, (steps[5], model), steps[6]),
        call_ensures(CodexBuilder::model_provider, (steps[6], provider), steps[7]),
        call_ensures(CodexBuilder::service_tier, (steps[7], tier), steps[8]),
        call_ensures(CodexBuilder::reasoning_effort, (steps[8], effort), steps[9]),
        call_ensures(CodexBuilder::reasoning_summary, (steps[9], summary), steps[10]),
        call_ensures(CodexBuilder::personality, (steps[10], personality), steps[11]),
        call_ensures(CodexBuilder::base_instructions, (steps[11], base), steps[12]),
        call_ensures(CodexBuilder::developer_instructions, (steps[12], developer), steps[13]),
        call_ensures(CodexBuilder::default_approval_policy, (steps[13], policy), steps[14]),
        call_ensures(CodexBuilder::default_sandbox, (steps[14], sandbox), steps[15]),
        call_ensures(CodexBuilder::ephemeral, (steps[15], ephemeral), steps[16]),
    ensures
        steps[16].runtime.arg0_paths == Some(paths),
        steps[16].runtime.client_info.name == name,
        steps[16].runtime.client_info.version == version,
        steps[16].codex_home == Some(home),
        steps[16].cwd == Some(cwd),
        steps[16].model == Some(model),
        steps[16].model_provider == Some(provider),
        steps[16].service_tier == Some(Some(tier)),
        steps[16].reasoning_effort == Some(effort),
        steps[16].reasoning_summary == Some(summary),
        steps[16].personality == Some(personality),
        steps[16].base_instructions == Some(base),
        steps[16].developer_instructions == Some(developer),
        steps[16].approval_policy == Some(policy),
        steps[16].sandbox == Some(sandbox),
        steps[16].ephemeral == ephemeral,
        steps[16].runtime.channels == steps[0].runtime.channels,
        steps[16].thread_defaults == steps[0].thread_defaults,
{
}

/// The settings of a runtime stay set, each as it was given, in the other order too.
pub proof fn law_runtime_settings_stay_set_in_the_other_order(
    steps: Seq<CodexBuilder>,
    paths: Arg0DispatchPaths,
    name: String,
    version: String,
    home: PathBuf,
    cwd: PathBuf,
    model: String,
    provider: String,
    tier: String,
    effort: ReasoningEffort,
    summary: ReasoningSummary,
    personality: Personality,
    base: String,
    developer: String,
    policy: AskForApproval,
    sandbox: SandboxMode,
    ephemeral: bool,
)
    requires
        steps.len() == 17,
        call_ensures(CodexBuilder::ephemeral, (steps[0], ephemeral), steps[1]),
        call_ensures(CodexBuilder::default_sandbox, (steps[1], sandbox), steps[2]),
        call_ensures(CodexBuilder::default_approval_policy, (steps[2], policy), steps[3]),
        call_ensures(CodexBuilder::developer_instructions, (steps[3], developer), steps[4]),
        call_ensures(CodexBuilder::base_instructions, (steps[4], base), steps[5]),
        call_ensures(CodexBuilder::personality, (steps[5], personality), steps[6]),
        call_ensures(CodexBuilder::reasoning_summary, (steps[6], summary), steps[7]),
        call_ensures(CodexBuilder::reasoning_effort, (steps[7], effort), steps[8]),
        call_ensures(CodexBuilder::service_tier, (steps[8], tier), steps[9]),
        call_ensures(CodexBuilder::model_provider, (steps[9], provider), steps[10]),
        call_ensures(CodexBuilder::model, (steps[10], model), steps[11]),
        call_ensures(CodexBuilder::cwd, (steps[11], cwd), steps[12]),
        call_ensures(CodexBuilder::codex_home, (steps[12], home), steps[13]),
        call_ensures(CodexBuilder::client_version, (steps[13], version), steps[14]),
        call_ensures(CodexBuilder::client_name, (steps[14], name), steps[15]),
        call_ensures(CodexBuilder::arg0_paths, (steps[15], paths), steps[16]),
    ensures
        steps[16].runtime.arg0_paths == Some(paths),
        steps[16].runtime.client_info.name == name,
        steps[16].runtime.client_info.version == version,
        steps[16].codex_home == Some(home),
        steps[16].cwd == Some(cwd),
        steps[16].model == Some(model),
        steps[16].model_provider == Some(provider),
        steps[16].service_tier == Some(Some(tier)),
        steps[16].reasoning_effort == Some(effort),
        steps[16].reasoning_summary == Some(summary),
        steps[16].personality == Some(personality),
        steps[16].base_instructions == Some(base),
        steps[16].developer_instructions == Some(developer),
        steps[16].approval_policy == Some(policy),
        steps[16].sandbox == Some(sandbox),
        steps[16].ephemeral == ephemeral,
        steps[16].runtime.channels == steps[0].runtime.channels,
        steps[16].thread_defaults == steps[0].thread_defaults,
{
}

/// The settings beside a configuration stay set, each as it was given.
pub proof fn law_settings_beside_a_configuration_stay_set(
    steps: Seq<CodexWithConfigBuilder>,
    paths: Arg0DispatchPaths,
    name: String,
    version: String,
)
    requires
        steps.len() == 4,
        call_ensures(CodexWithConfigBuilder::arg0_paths, (steps[0], paths), steps[1]),
        call_ensures(CodexWithConfigBuilder::client_name, (steps[1], name), steps[2]),
        call_ensures(CodexWithConfigBuilder::client_version, (steps[2], version), steps[3]),
    ensures
        steps[3].runtime.arg0_paths == Some(paths),
        steps[3].runtime.client_info.name == name,
        steps[3].runtime.client_info.version == version,
        steps[3].config == steps[0].config,
        steps[3].runtime.channels == steps[0].runtime.channels,
        steps[3].thread_defaults == steps[0].thread_defaults,
{
}

/// The settings beside a configuration stay set, each as it was given, in the other order too.
pub proof fn law_settings_beside_a_configuration_stay_set_in_the_other_order(
    steps: Seq<CodexWithConfigBuilder>,
    paths: Arg0DispatchPaths,
    name: String,
    version: String,
)
    requires
        steps.len() == 4,
        call_ensures(CodexWithConfigBuilder::client_version, (steps[0], version), steps[1]),
        call_ensures(CodexWithConfigBuilder::client_name, (steps[1], name), steps[2]),
        call_ensures(CodexWithConfigBuilder::arg0_paths, (steps[2], paths), steps[3]),
    ensures
        steps[3].runtime.arg0_paths == Some(paths),
        steps[3].runtime.client_info.name == name,
        steps[3].runtime.client_info.version == version,
        steps[3].config == steps[0].config,
        steps[3].runtime.channels == steps[0].runtime.channels,
        steps[3].thread_defaults == steps[0].thread_defaults,
{
}

/// The settings of a remote connection stay set, each as it was given.
pub proof fn law_remote_settings_stay_set(
    steps: Seq<CodexRemoteBuilder>,
    name: String,
    version: String,
)
    requires
        steps.len() == 3,
        call_ensures(CodexRemoteBuilder::client_name, (steps[0], name), steps[1]),
        call_ensures(CodexRemoteBuilder::client_version, (steps[1], version), steps[2]),
    ensures
        steps[2].client_info.name == name,
        steps[2].client_info.version == version,
        steps[2].endpoint == steps[0].endpoint,
        steps[2].channels == steps[0].channels,
        steps[2].thread_defaults == steps[0].thread_defaults,
{
}

/// The settings of a remote connection stay set, each as it was given, in the other order too.
pub proof fn law_remote_settings_stay_set_in_the_other_order(
    steps: Seq<CodexRemoteBuilder>,
    name: String,
    version: String,
)
    requires
        steps.len() == 3,
        call_ensures(CodexRemoteBuilder::client_version, (steps[0], version), steps[1]),
        call_ensures(CodexRemoteBuilder::client_name, (steps[1], name), steps[2]),
    ensures
        steps[2].client_info.name == name,
        steps[2].client_info.version == version,
        steps[2].endpoint == steps[0].endpoint,
        steps[2].channels == steps[0].channels,
        steps[2].thread_defaults == steps[0].thread_defaults,
{
}

/// The settings of a warmup stay set, each as it was given.
pub proof fn law_warmup_settings_stay_set(
    steps: Seq<WarmupBuilder>,
    models: bool,
    skills: bool,
    reload: bool,
    profiles: bool,
    requirements: bool,
    account: bool,
    servers: bool,
    apps: bool,
    timeout: Duration,
    cwd: PathBuf,
    model: String,
    provider: String,
)
    requires
        steps.len() == 13,
        call_ensures(WarmupBuilder::models, (steps[0], models), steps[1]),
        call_ensures(WarmupBuilder::skills, (steps[1], skills), steps[2]),
        call_ensures(WarmupBuilder::force_reload_skills, (steps[2], reload), steps[3]),
        call_ensures(WarmupBuilder::permission_profiles, (steps[3], profiles), steps[4]),
        call_ensures(WarmupBuilder::config_requirements, (steps[4], requirements), steps[5]),
        call_ensures(WarmupBuilder::account, (steps[5], account), steps[6]),
        call_ensures(WarmupBuilder::mcp_status, (steps[6], servers), steps[7]),
        call_ensures(WarmupBuilder::apps, (steps[7], apps), steps[8]),
        call_ensures(WarmupBuilder::step_timeout, (steps[8], timeout), steps[9]),
        call_ensures(WarmupBuilder::cwd, (steps[9], cwd), steps[10]),
        call_ensures(WarmupBuilder::model, (steps[10], model), steps[11]),
        call_ensures(WarmupBuilder::model_provider, (steps[11], provider), steps[12]),
    ensures
        steps[12].targets.models == models,
        steps[12].targets.skills == skills,
        steps[12].targets.force_reload_skills == reload,
        steps[12].targets.permission_profiles == profiles,
        steps[12].targets.config_requirements == requirements,
        steps[12].targets.account == account,
        steps[12].targets.mcp_status == servers,
        steps[12].targets.apps == apps,
        steps[12].targets.step_timeout == timeout,
        steps[12].targets.thread_params@.cwd == Some(lossy_path_text(cwd)),
        steps[12].targets.thread_params@.model == Some(model@),
        steps[12].targets.thread_params@.model_provider == Some(provider@),
{
}

/// The settings of a warmup stay set, each as it was given, in the other order too.
pub proof fn law_warmup_settings_stay_set_in_the_other_order(
    steps: Seq<WarmupBuilder>,
    models: bool,
    skills: bool,
    reload: bool,
    profiles: bool,
    requirements: bool,
    account: bool,
    servers: bool,
    apps: bool,
    timeout: Duration,
    cwd: PathBuf,
    model: String,
    provider: String,
)
    requires
        steps.len() == 13,
        call_ensures(WarmupBuilder::model_provider, (steps[0], provider), steps[1]),
        call_ensures(WarmupBuilder::model, (steps[1], model), steps[2]),
        call_ensures(WarmupBuilder::cwd, (steps[2], cwd), steps[3]),
        call_ensures(WarmupBuilder::step_timeout, (steps[3], timeout), steps[4]),
        call_ensures(WarmupBuilder::apps, (steps[4], apps), steps[5]),
        call_ensures(WarmupBuilder::mcp_status, (steps[5], servers), steps[6]),
        call_ensures(WarmupBuilder::account, (steps[6], account), steps[7]),
        call_ensures(WarmupBuilder::config_requirements, (steps[7], requirements), steps[8]),
        call_ensures(WarmupBuilder::permission_profiles, (steps[8], profiles), steps[9]),
        call_ensures(WarmupBuilder::force_reload_skills, (steps[9], reload), steps[10]),
        call_ensures(WarmupBuilder::skills, (steps[10], skills), steps[11]),
        call_ensures(WarmupBuilder::models, (steps[11], models), steps[12]),
    ensures
        steps[12].targets.models == models,
        steps[12].targets.skills == skills,
        steps[12].targets.force_reload_skills == reload,
        steps[12].targets.permission_profiles == profiles,
        steps[12].targets.config_requirements == requirements,
        steps[12].targets.account == account,
        steps[12].targets.mcp_status == servers,
        steps[12].targets.apps == apps,
        steps[12].targets.step_timeout == timeout,
        steps[12].targets.thread_params@.cwd == Some(lossy_path_text(cwd)),
        steps[12].targets.thread_params@.model == Some(model@),
        steps[12].targets.thread_params@.model_provider == Some(provider@),
{
}

/// The settings of telemetry stay set, each as it was given.
pub proof fn law_telemetry_settings_stay_set(
    steps: Seq<ObservabilityBuilder>,
    environment: String,
    name: String,
    version: String,
    home: PathBuf,
    logs: OtelExporter,
    traces: OtelExporter,
    metrics: OtelExporter,
    enabled: bool,
    filter: String,
    install: bool,
    layer: bool,
)
    requires
        steps.len() == 12,
        call_ensures(ObservabilityBuilder::environment, (steps[0], environment), steps[1]),
        call_ensures(ObservabilityBuilder::service_name, (steps[1], name), steps[2]),
        call_ensures(ObservabilityBuilder::service_version, (steps[2], version), steps[3]),
        call_ensures(ObservabilityBuilder::codex_home, (steps[3], home), steps[4]),
        call_ensures(ObservabilityBuilder::logs_exporter, (steps[4], logs), steps[5]),
        call_ensures(ObservabilityBuilder::traces_exporter, (steps[5], traces), steps[6]),
        call_ensures(ObservabilityBuilder::metrics_exporter, (steps[6], metrics), steps[7]),
        call_ensures(ObservabilityBuilder::runtime_metrics, (steps[7], enabled), steps[8]),
        call_ensures(ObservabilityBuilder::env_filter, (steps[8], filter), steps[9]),
        call_ensures(ObservabilityBuilder::install_subscriber, (steps[9], install), steps[10]),
        call_ensures(ObservabilityBuilder::fmt_layer, (steps[10], layer), steps[11]),
    ensures
        steps[11].settings.environment@ == environment@,
        steps[11].settings.service_name@ == name@,
        steps[11].settings.service_version@ == version@,
        steps[11].settings.codex_home == home,
        steps[11].settings.exporter@ == logs@,
        steps[11].settings.trace_exporter@ == traces@,
        steps[11].settings.metrics_exporter@ == metrics@,
        steps[11].settings.runtime_metrics == enabled,
        steps[11]@.env_filter == Some(filter@),
        steps[11].install_subscriber == install,
        steps[11].fmt_layer == layer,
        steps[11]@.settings.span_attributes == steps[0]@.settings.span_attributes,
        steps[11]@.settings.tracestate == steps[0]@.settings.tracestate,
{
}

/// The settings of telemetry stay set, each as it was given, in the other order too.
pub proof fn law_telemetry_settings_stay_set_in_the_other_order(
    steps: Seq<ObservabilityBuilder>,
    environment: String,
    name: String,
    version: String,
    home: PathBuf,
    logs: OtelExporter,
    traces: OtelExporter,
    metrics: OtelExporter,
    enabled: bool,
    filter: String,
    install: bool,
    layer: bool,
)
    requires
        steps.len() == 12,
        call_ensures(ObservabilityBuilder::fmt_layer, (steps[0], layer), steps[1]),
        call_ensures(ObservabilityBuilder::install_subscriber, (steps[1], install), steps[2]),
        call_ensures(ObservabilityBuilder::env_filter, (steps[2], filter), steps[3]),
        call_ensures(ObservabilityBuilder::runtime_metrics, (steps[3], enabled), steps[4]),
        call_ensures(ObservabilityBuilder::metrics_exporter, (steps[4], metrics), steps[5]),
        call_ensures(ObservabilityBuilder::traces_exporter, (steps[5], traces), steps[6]),
        call_ensures(ObservabilityBuilder::logs_exporter, (steps[6], logs), steps[7]),
        call_ensures(ObservabilityBuilder::codex_home, (steps[7], home), steps[8]),
        call_ensures(ObservabilityBuilder::service_version, (steps[8], version), steps[9]),
        call_ensures(ObservabilityBuilder::service_name, (steps[9], name), steps[10]),
        call_ensures(ObservabilityBuilder::environment, (steps[10], environment), steps[11]),
    ensures
        steps[11].settings.environment@ == environment@,
        steps[11].settings.service_name@ == name@,
        steps[11].settings.service_version@ == version@,
        steps[11].settings.codex_home == home,
        steps[11].settings.exporter@ == logs@,
        steps[11].settings.trace_exporter@ == traces@,
        steps[11].settings.metrics_exporter@ == metrics@,
        steps[11].settings.runtime_metrics == enabled,
        steps[11]@.env_filter == Some(filter@),
        steps[11].install_subscriber == install,
        steps[11].fmt_layer == layer,
        steps[11]@.settings.span_attributes == steps[0]@.settings.span_attributes,
        steps[11]@.settings.tracestate == steps[0]@.settings.tracestate,
{
}

/// A service tier that is cleared is sent as cleared, which is not the same as
/// one that is not sent.
pub proof fn law_cleared_tiers_are_sent(
    thread: ThreadBuilder,
    thread_after: ThreadBuilder,
    turn: TurnBuilder,
    turn_after: TurnBuilder,
    temporary: CodexTurnBuilder,
    temporary_after: CodexTurnBuilder,
    runtime: CodexBuilder,
    runtime_after: CodexBuilder,
)
    requires
        call_ensures(ThreadBuilder::clear_service_tier, (thread,), thread_after),
        call_ensures(TurnBuilder::clear_service_tier, (turn,), turn_after),
        call_ensures(CodexTurnBuilder::clear_service_tier, (temporary,), temporary_after),
        call_ensures(CodexBuilder::clear_service_tier, (runtime,), runtime_after),
    ensures
        thread_after.params@.service_tier matches Some(tier) && tier is None,
        turn_after.params@.service_tier matches Some(tier) && tier is None,
        temporary_after.thread_params@.service_tier matches Some(tier) && tier is None,
        temporary_after.turn_params@.service_tier matches Some(tier) && tier is None,
        runtime_after.service_tier matches Some(tier) && tier is None,
{
}

/// A choice of environments is sent as it is, with everything else as it was.
pub proof fn law_choices_of_environments_are_sent(
    access: EnvironmentAccess,
    thread: ThreadBuilder,
    thread_after: ThreadBuilder,
    turn: TurnBuilder,
    turn_after: TurnBuilder,
    temporary: CodexTurnBuilder,
    temporary_after: CodexTurnBuilder,
)
    requires
        call_ensures(ThreadBuilder::environment_access, (thread, access), thread_after),
        call_ensures(TurnBuilder::environment_access, (turn, access), turn_after),
        call_ensures(CodexTurnBuilder::environment_access, (temporary, access), temporary_after),
    ensures
        is_choice(thread_after.params@.environments, access),
        is_choice(turn_after.params@.environments, access),
        is_choice(temporary_after.thread_params@.environments, access),
        is_choice(temporary_after.turn_params@.environments, access),
        turn_after.thread == turn.thread,
        thread_after.params@.model == thread.params@.model,
        thread_after.params@.ephemeral == thread.params@.ephemeral,
        thread_after.params@.sandbox == thread.params@.sandbox,
        turn_after.params@.input == turn.params@.input,
{
}

/// No filter is no filter, and an attribute of spans is kept with the others.
pub proof fn law_filters_and_attributes_are_kept(
    builder: ObservabilityBuilder,
    unfiltered: ObservabilityBuilder,
    key: String,
    value: String,
    attributed: ObservabilityBuilder,
    other: Seq<char>,
)
    requires
        call_ensures(ObservabilityBuilder::no_env_filter, (builder,), unfiltered),
        call_ensures(ObservabilityBuilder::span_attribute, (builder, key, value), attributed),
    ensures
        optional_text(unfiltered.env_filter) is None,
        attributed@.settings.span_attributes.contains_key(key@),
        attributed@.settings.span_attributes[key@] == value@,
        other != key@ ==> attributed@.settings.span_attributes.contains_key(other)
            == builder@.settings.span_attributes.contains_key(other),
        other != key@ && builder@.settings.span_attributes.contains_key(other)
            ==> attributed@.settings.span_attributes[other] == builder@.settings.span_attributes[other],
{
}

} // verus!
