//! What the defaults of new threads say, value by value.
use crate::config::Config;
use crate::protocol::{
    config_model, ConfigMap, ConfigModel, ConfigValueModel, Personality, ReasoningEffort,
    ReasoningSummary, SandboxMode, ThreadSource, ThreadStartModel, ThreadStartParams, TurnEnvironmentParams,
};
use crate::text::texts;
use crate::thread_defaults::{
    apply_all, lemma_listed_keys, merged, minimal_prompt_context_config_overrides, minimal_tool_config_overrides,
    minimal_tool_keys, prompt_context_keys, pure_chat, thread_config_snapshot, thread_defaults_snapshot,
    thread_permissions_from_config, with_patch, EnvironmentAccess, OperationModel,
};
use vstd::prelude::*;

verus! {

/// `text` is what `optional` holds.
pub open spec fn holds_text(optional: Option<String>, text: Seq<char>) -> bool {
    optional matches Some(held) && held@ == text
}

/// Both texts are missing, or both are there and the same.
pub open spec fn same_optional_text(one: Option<String>, other: Option<String>) -> bool {
    (one is None && other is None) || (one is Some && other is Some && one->0@ == other->0@)
}

/// New threads start with what the configuration says: each resolved value is
/// sent, and nothing but the environments is left for the app-server to fill
/// in.
pub proof fn law_snapshots_forward_every_value(config: Config, params: ThreadStartParams)
    requires
        call_ensures(thread_defaults_snapshot, (&config,), params),
    ensures
        params.ephemeral == Some(config.ephemeral),
        params.approval_policy == Some(config.approval_policy),
        params.personality == config.personality,
        params.thread_source == Some(ThreadSource::User),
        params.environments is None,
        params.extra is None,
        holds_text(params.cwd, config.cwd@),
        holds_text(params.model_provider, config.model_provider_id@),
        holds_text(params.approvals_reviewer, config.approvals_reviewer@),
        same_optional_text(params.model, config.model),
        same_optional_text(params.base_instructions, config.base_instructions),
        same_optional_text(params.developer_instructions, config.developer_instructions),
        params.service_tier matches Some(tier) && same_optional_text(tier, config.service_tier),
        config.workspace_roots@.len() == 0 ==> params.runtime_workspace_roots is None,
        config.workspace_roots@.len() > 0 ==> (params.runtime_workspace_roots matches Some(roots) && texts(roots@)
            == texts(config.workspace_roots@)),
        params.config is Some,
{
}

/// Two configurations whose snapshots agree agree in every value that a
/// snapshot forwards.
pub proof fn law_snapshots_tell_configurations_apart(
    one: Config,
    other: Config,
    first: ThreadStartParams,
    second: ThreadStartParams,
)
    requires
        call_ensures(thread_defaults_snapshot, (&one,), first),
        call_ensures(thread_defaults_snapshot, (&other,), second),
        first@ == second@,
    ensures
        one.ephemeral == other.ephemeral,
        one.approval_policy == other.approval_policy,
        one.personality == other.personality,
        one.cwd@ == other.cwd@,
        one.model_provider_id@ == other.model_provider_id@,
        one.approvals_reviewer@ == other.approvals_reviewer@,
        same_optional_text(one.model, other.model),
        same_optional_text(one.service_tier, other.service_tier),
        same_optional_text(one.base_instructions, other.base_instructions),
        same_optional_text(one.developer_instructions, other.developer_instructions),
        one.include_permissions_instructions == other.include_permissions_instructions,
        one.include_apps_instructions == other.include_apps_instructions,
        one.include_collaboration_mode_instructions == other.include_collaboration_mode_instructions,
        one.include_environment_context == other.include_environment_context,
        one.include_skill_instructions == other.include_skill_instructions,
{
    lemma_snapshot_keys();
    let taken = config_model(first.config->0);
    assert(taken == config_model(second.config->0));
    assert(taken["include_permissions_instructions"@] == ConfigValueModel::Bool(one.include_permissions_instructions));
    assert(taken["include_apps_instructions"@] == ConfigValueModel::Bool(one.include_apps_instructions));
    assert(taken["include_collaboration_mode_instructions"@] == ConfigValueModel::Bool(one.include_collaboration_mode_instructions));
    assert(taken["include_environment_context"@] == ConfigValueModel::Bool(one.include_environment_context));
    assert(taken["skills.include_instructions"@] == ConfigValueModel::Bool(one.include_skill_instructions));
}

/// The keys of a configuration snapshot differ.
proof fn lemma_snapshot_keys()
    ensures
        "include_permissions_instructions"@ != "include_apps_instructions"@,
        "include_permissions_instructions"@ != "include_collaboration_mode_instructions"@,
        "include_permissions_instructions"@ != "include_environment_context"@,
        "include_permissions_instructions"@ != "skills.include_instructions"@,
        "include_permissions_instructions"@ != "model_reasoning_effort"@,
        "include_permissions_instructions"@ != "model_reasoning_summary"@,
        "include_apps_instructions"@ != "include_collaboration_mode_instructions"@,
        "include_apps_instructions"@ != "include_environment_context"@,
        "include_apps_instructions"@ != "skills.include_instructions"@,
        "include_apps_instructions"@ != "model_reasoning_effort"@,
        "include_apps_instructions"@ != "model_reasoning_summary"@,
        "include_collaboration_mode_instructions"@ != "include_environment_context"@,
        "include_collaboration_mode_instructions"@ != "skills.include_instructions"@,
        "include_collaboration_mode_instructions"@ != "model_reasoning_effort"@,
        "include_collaboration_mode_instructions"@ != "model_reasoning_summary"@,
        "include_environment_context"@ != "skills.include_instructions"@,
        "include_environment_context"@ != "model_reasoning_effort"@,
        "include_environment_context"@ != "model_reasoning_summary"@,
        "skills.include_instructions"@ != "model_reasoning_effort"@,
        "skills.include_instructions"@ != "model_reasoning_summary"@,
        "model_reasoning_effort"@ != "model_reasoning_summary"@,
{
    reveal_strlit("include_permissions_instructions");
    reveal_strlit("include_apps_instructions");
    reveal_strlit("include_collaboration_mode_instructions");
    reveal_strlit("include_environment_context");
    reveal_strlit("skills.include_instructions");
    reveal_strlit("model_reasoning_effort");
    reveal_strlit("model_reasoning_summary");
    assert("include_permissions_instructions"@.len() == 32);
    assert("include_apps_instructions"@.len() == 25);
    assert("include_collaboration_mode_instructions"@.len() == 39);
    assert("include_environment_context"@.len() == 27);
    assert("skills.include_instructions"@.len() == 27);
    assert("model_reasoning_effort"@.len() == 22);
    assert("model_reasoning_summary"@.len() == 23);
    assert("include_environment_context"@[0] == 'i');
    assert("skills.include_instructions"@[0] == 's');
}

/// Each prompt-context switch of the configuration is sent under its own key,
/// and so are the reasoning effort and summary where they are set. Nothing
/// else is sent.
pub proof fn law_switches_are_sent_under_their_keys(config: Config, overrides: ConfigMap)
    requires
        call_ensures(thread_config_snapshot, (&config,), overrides),
    ensures
        ({
            let sent = config_model(overrides);
            &&& sent.contains_key("include_permissions_instructions"@) && sent["include_permissions_instructions"@] == ConfigValueModel::Bool(
                config.include_permissions_instructions,
            )
            &&& sent.contains_key("include_apps_instructions"@) && sent["include_apps_instructions"@] == ConfigValueModel::Bool(
                config.include_apps_instructions,
            )
            &&& sent.contains_key("include_collaboration_mode_instructions"@) && sent["include_collaboration_mode_instructions"@] == ConfigValueModel::Bool(
                config.include_collaboration_mode_instructions,
            )
            &&& sent.contains_key("include_environment_context"@) && sent["include_environment_context"@] == ConfigValueModel::Bool(
                config.include_environment_context,
            )
            &&& sent.contains_key("skills.include_instructions"@) && sent["skills.include_instructions"@] == ConfigValueModel::Bool(
                config.include_skill_instructions,
            )
            &&& sent.contains_key("model_reasoning_effort"@) == (config.model_reasoning_effort is Some)
            &&& config.model_reasoning_effort matches Some(effort) ==> sent["model_reasoning_effort"@]
                == ConfigValueModel::Text(effort.name())
            &&& sent.contains_key("model_reasoning_summary"@) == (config.model_reasoning_summary is Some)
            &&& config.model_reasoning_summary matches Some(summary) ==> sent["model_reasoning_summary"@]
                == ConfigValueModel::Text(summary.name())
            &&& forall|key: Seq<char>| #[trigger]
                sent.contains_key(key) ==> {
                    ||| key == "include_permissions_instructions"@
                    ||| key == "include_apps_instructions"@
                    ||| key == "include_collaboration_mode_instructions"@
                    ||| key == "include_environment_context"@
                    ||| key == "skills.include_instructions"@
                    ||| key == "model_reasoning_effort"@
                    ||| key == "model_reasoning_summary"@
                }
        }),
{
    lemma_snapshot_keys();
}

/// What the configuration snapshot sends is part of the defaults.
pub proof fn law_switches_are_part_of_the_defaults(config: Config, params: ThreadStartParams, overrides: ConfigMap)
    requires
        call_ensures(thread_defaults_snapshot, (&config,), params),
        call_ensures(thread_config_snapshot, (&config,), overrides),
    ensures
        params.config matches Some(sent) && config_model(sent) == config_model(overrides),
{
}

/// Every effort, summary and personality has the name that Codex
/// configuration gives it.
pub proof fn law_choices_have_their_names(effort: ReasoningEffort, summary: ReasoningSummary, personality: Personality)
    ensures
        effort is Off ==> effort.name() == "none"@,
        effort is Minimal ==> effort.name() == "minimal"@,
        effort is Low ==> effort.name() == "low"@,
        effort is Medium ==> effort.name() == "medium"@,
        effort is High ==> effort.name() == "high"@,
        effort is XHigh ==> effort.name() == "xhigh"@,
        effort matches ReasoningEffort::Other { name } ==> effort.name() == name@,
        summary is Auto ==> summary.name() == "auto"@,
        summary is Concise ==> summary.name() == "concise"@,
        summary is Detailed ==> summary.name() == "detailed"@,
        summary is Off ==> summary.name() == "none"@,
        personality is Off ==> personality.name() == "none"@,
        personality is Friendly ==> personality.name() == "friendly"@,
        personality is Pragmatic ==> personality.name() == "pragmatic"@,
{
}

/// A permission profile that was asked for takes the place of the sandbox
/// mode. Otherwise the sandbox that the configuration selects is sent, unless
/// the sandbox is somebody else's.
pub proof fn law_permissions_come_from_one_source(config: Config, permissions: (Option<SandboxMode>, Option<String>))
    requires
        call_ensures(thread_permissions_from_config, (&config,), permissions),
    ensures
        permissions.0 is None || permissions.1 is None,
        config.explicit_permission_profile_mode && config.active_permission_profile is Some ==> permissions.0 is None
            && same_optional_text(permissions.1, config.active_permission_profile),
        !config.explicit_permission_profile_mode || config.active_permission_profile is None ==> {
            &&& permissions.1 is None
            &&& config.legacy_sandbox_policy is ReadOnly ==> permissions.0 == Some(SandboxMode::ReadOnly)
            &&& config.legacy_sandbox_policy is WorkspaceWrite ==> permissions.0 == Some(SandboxMode::WorkspaceWrite)
            &&& config.legacy_sandbox_policy is DangerFullAccess ==> permissions.0 == Some(
                SandboxMode::DangerFullAccess,
            )
            &&& config.legacy_sandbox_policy is ExternalSandbox ==> permissions.0 is None
        },
{
}

/// The permissions of a configuration are part of the defaults.
pub proof fn law_permissions_are_part_of_the_defaults(
    config: Config,
    params: ThreadStartParams,
    permissions: (Option<SandboxMode>, Option<String>),
)
    requires
        call_ensures(thread_defaults_snapshot, (&config,), params),
        call_ensures(thread_permissions_from_config, (&config,), permissions),
    ensures
        params.sandbox == permissions.0,
        same_optional_text(params.permissions, permissions.1),
{
}

/// `key` is switched off in `config`.
pub open spec fn is_off(config: ConfigModel, key: Seq<char>) -> bool {
    config.contains_key(key) && config[key] == ConfigValueModel::Bool(false)
}

/// Minimal tools are all configurable tool families switched off, and web
/// search with them. Nothing else is touched.
pub proof fn law_minimal_tools_switch_every_family_off(config: ConfigMap)
    requires
        call_ensures(minimal_tool_config_overrides, (), config),
    ensures
        ({
            let off = config_model(config);
            &&& is_off(off, "features.apps"@)
            &&& is_off(off, "features.plugins"@)
            &&& is_off(off, "features.tool_suggest"@)
            &&& is_off(off, "features.shell_tool"@)
            &&& is_off(off, "features.code_mode"@)
            &&& is_off(off, "features.code_mode_only"@)
            &&& is_off(off, "features.multi_agent"@)
            &&& is_off(off, "features.multi_agent_v2"@)
            &&& is_off(off, "features.enable_fanout"@)
            &&& is_off(off, "features.image_generation"@)
            &&& is_off(off, "features.memories"@)
            &&& is_off(off, "features.goals"@)
            &&& is_off(off, "features.deferred_executor"@)
            &&& is_off(off, "features.request_permissions_tool"@)
            &&& is_off(off, "features.token_budget"@)
            &&& is_off(off, "features.current_time_reminder"@)
            &&& is_off(off, "features.standalone_web_search"@)
            &&& is_off(off, "orchestrator.skills.enabled"@)
            &&& is_off(off, "orchestrator.mcp.enabled"@)
            &&& is_off(off, "tools.experimental_request_user_input.enabled"@)
            &&& off.contains_key("web_search"@) && off["web_search"@] == ConfigValueModel::Text("disabled"@)
            &&& forall|key: Seq<char>| #[trigger]
                off.contains_key(key) ==> key == "web_search"@ || minimal_tool_keys().contains(key)
            &&& minimal_tool_keys().len() == 20
        }),
{
    let keys = minimal_tool_keys();
    assert(keys[0] == "features.apps"@);
    lemma_listed_keys("features.apps"@);
    assert(keys[1] == "features.plugins"@);
    lemma_listed_keys("features.plugins"@);
    assert(keys[2] == "features.tool_suggest"@);
    lemma_listed_keys("features.tool_suggest"@);
    assert(keys[3] == "features.shell_tool"@);
    lemma_listed_keys("features.shell_tool"@);
    assert(keys[4] == "features.code_mode"@);
    lemma_listed_keys("features.code_mode"@);
    assert(keys[5] == "features.code_mode_only"@);
    lemma_listed_keys("features.code_mode_only"@);
    assert(keys[6] == "features.multi_agent"@);
    lemma_listed_keys("features.multi_agent"@);
    assert(keys[7] == "features.multi_agent_v2"@);
    lemma_listed_keys("features.multi_agent_v2"@);
    assert(keys[8] == "features.enable_fanout"@);
    lemma_listed_keys("features.enable_fanout"@);
    assert(keys[9] == "features.image_generation"@);
    lemma_listed_keys("features.image_generation"@);
    assert(keys[10] == "features.memories"@);
    lemma_listed_keys("features.memories"@);
    assert(keys[11] == "features.goals"@);
    lemma_listed_keys("features.goals"@);
    assert(keys[12] == "features.deferred_executor"@);
    lemma_listed_keys("features.deferred_executor"@);
    assert(keys[13] == "features.request_permissions_tool"@);
    lemma_listed_keys("features.request_permissions_tool"@);
    assert(keys[14] == "features.token_budget"@);
    lemma_listed_keys("features.token_budget"@);
    assert(keys[15] == "features.current_time_reminder"@);
    lemma_listed_keys("features.current_time_reminder"@);
    assert(keys[16] == "features.standalone_web_search"@);
    lemma_listed_keys("features.standalone_web_search"@);
    assert(keys[17] == "orchestrator.skills.enabled"@);
    lemma_listed_keys("orchestrator.skills.enabled"@);
    assert(keys[18] == "orchestrator.mcp.enabled"@);
    lemma_listed_keys("orchestrator.mcp.enabled"@);
    assert(keys[19] == "tools.experimental_request_user_input.enabled"@);
    lemma_listed_keys("tools.experimental_request_user_input.enabled"@);
}

/// A minimal prompt context is every optional context block switched off, and
/// nothing else.
pub proof fn law_minimal_context_switches_every_block_off(config: ConfigMap)
    requires
        call_ensures(minimal_prompt_context_config_overrides, (), config),
    ensures
        ({
            let off = config_model(config);
            &&& is_off(off, "include_permissions_instructions"@)
            &&& is_off(off, "include_apps_instructions"@)
            &&& is_off(off, "include_collaboration_mode_instructions"@)
            &&& is_off(off, "include_environment_context"@)
            &&& is_off(off, "skills.include_instructions"@)
            &&& forall|key: Seq<char>| #[trigger]
                off.contains_key(key) ==> {
                    ||| key == "include_permissions_instructions"@
                    ||| key == "include_apps_instructions"@
                    ||| key == "include_collaboration_mode_instructions"@
                    ||| key == "include_environment_context"@
                    ||| key == "skills.include_instructions"@
                }
        }),
{
    let keys = prompt_context_keys();
    assert(keys[0] == "include_permissions_instructions"@);
    assert(keys[1] == "include_apps_instructions"@);
    assert(keys[2] == "include_collaboration_mode_instructions"@);
    assert(keys[3] == "include_environment_context"@);
    assert(keys[4] == "skills.include_instructions"@);
}

/// The chat profile asks for no project documents, no web search and no
/// environments, and switches off every tool family and context block.
pub proof fn law_chat_profile_is_bare(key: Seq<char>)
    ensures
        prompt_context_keys().contains(key) || minimal_tool_keys().contains(key) ==> is_off(pure_chat(), key),
        pure_chat().contains_key("project_doc_max_bytes"@),
        pure_chat()["project_doc_max_bytes"@] == ConfigValueModel::Integer(0),
        pure_chat().contains_key("web_search"@),
        pure_chat()["web_search"@] == ConfigValueModel::Text("disabled"@),
{
    let keys = minimal_tool_keys();
    assert(keys[0] == "features.apps"@);
    lemma_listed_keys("features.apps"@);
    if prompt_context_keys().contains(key) || minimal_tool_keys().contains(key) {
        lemma_listed_keys(key);
    }
}

/// A patch of the configuration sets its own keys, keeps every other key and
/// every other parameter, and where it is empty changes nothing.
pub proof fn law_patches_set_their_own_keys(params: ThreadStartModel, patch: ConfigModel, key: Seq<char>)
    ensures
        ({
            let after = merged(params, patch);
            let before: ConfigModel = match params.config {
                Some(config) => config,
                None => Map::empty(),
            };
            &&& patch.contains_key(key) ==> (after.config matches Some(config) && config.contains_key(key)
                && config[key] == patch[key])
            &&& !patch.contains_key(key) && before.contains_key(key) ==> (after.config matches Some(config)
                && config.contains_key(key) && config[key] == before[key])
            &&& !patch.contains_key(key) && !before.contains_key(key) ==> (after.config matches Some(config)
                ==> !config.contains_key(key))
            &&& patch.dom().is_empty() ==> after == params
            &&& after == (ThreadStartModel { config: after.config, ..params })
        }),
{
    if patch.contains_key(key) {
        assert(patch.dom().contains(key));
    }
}

/// Replaced defaults are the replacement, whatever they were, and patches and
/// choices of environments apply to what was there.
pub proof fn law_each_change_does_what_it_says(
    params: ThreadStartModel,
    replacement: ThreadStartModel,
    environments: Option<Seq<TurnEnvironmentParams>>,
)
    ensures
        apply_all(Seq::empty(), params) == params,
        OperationModel::Replace(replacement).apply(params) == replacement,
        OperationModel::SetEnvironment(environments).apply(params).environments == environments,
        OperationModel::SetEnvironment(environments).apply(params) == (ThreadStartModel {
            environments,
            ..params
        }),
{
}

/// An empty patch is no change, and any other is the last one.
pub proof fn law_empty_patches_are_no_change(operations: Seq<OperationModel>, patch: ConfigModel, key: Seq<char>)
    ensures
        with_patch(operations, Map::empty()) == operations,
        patch.contains_key(key) ==> with_patch(operations, patch) == operations.push(OperationModel::MergeConfig(patch)),
{
    assert(Map::<Seq<char>, ConfigValueModel>::empty().dom() =~= Set::empty());
    if patch.contains_key(key) {
        assert(patch.dom().contains(key));
    }
}

/// A choice of environments is sent as it is: nothing, an empty list, or the
/// selected environments in their order.
pub proof fn law_chosen_environments_are_sent(access: EnvironmentAccess, value: Option<Vec<TurnEnvironmentParams>>)
    requires
        call_ensures(EnvironmentAccess::into_protocol_value, (access,), value),
    ensures
        access is Inherit ==> value is None,
        access is Disabled ==> (value matches Some(list) && list@.len() == 0),
        access matches EnvironmentAccess::Selected(environments) ==> (value matches Some(list) && list@
            == environments@),
{
}

} // verus!
