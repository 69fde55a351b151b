//! What builders start runtimes with.
use crate::builder::{
    remote_default_thread_params, start_with_config, ChannelCapacities, CodexBuilder, CodexRemoteBuilder,
    CodexWithConfigBuilder, ConfigBuildOptions, ConfigOverrides, PendingConfig, PendingRuntime, RemoteAppServerConnectArgs,
    RemoteEndpointConfig, RuntimeOptions,
};
use crate::client::Codex;
use crate::config::Config;
use crate::defaults_laws::is_off;
use crate::entry::CodexMain;
use crate::error::Result;
use crate::protocol::{config_model, ConfigMap, ConfigModel, ConfigValueModel, ThreadSource, ThreadStartModel, ThreadStartParams};
use crate::runtime::start::InProcessClientStartArgs;
use crate::thread_defaults::{
    apply_all, law_changes_apply_in_order, law_later_overrides_win, lemma_listed_keys, minimal_prompt_context,
    minimal_tool_keys, minimal_tools, prompt_context_keys, pure_chat, EnvironmentAccess, OperationModel, ThreadDefaultsOverrides,
};
use crate::types::Arg0DispatchPaths;
use std::path::PathBuf;
use vstd::prelude::*;

verus! {

/// Without other settings an application reports the SDK's name and version,
/// new threads are ephemeral, and everything else is left to the
/// configuration.
pub proof fn law_builders_have_their_defaults(builder: CodexBuilder)
    requires
        call_ensures(Codex::builder, (), builder),
    ensures
        builder.ephemeral,
        builder.runtime.client_info.name@ == "codex-sdk-rs"@,
        builder.runtime.client_info.version@ == "0.1.0"@,
        builder.runtime.arg0_paths is None,
        builder.runtime.channels.app_server is None,
        builder.runtime.channels.event_stream is None,
        builder.codex_home is None,
        builder.cwd is None,
        builder.model is None,
        builder.model_provider is None,
        builder.service_tier is None,
        builder.reasoning_effort is None,
        builder.reasoning_summary is None,
        builder.personality is None,
        builder.base_instructions is None,
        builder.developer_instructions is None,
        builder.approval_policy is None,
        builder.sandbox is None,
        builder.thread_defaults@.len() == 0,
{
}

/// A builder that a program makes knows the helper paths of the program.
pub proof fn law_programs_know_their_helpers(
    main: CodexMain,
    config: Config,
    builder: CodexBuilder,
    with_config: CodexWithConfigBuilder,
    paths: Arg0DispatchPaths,
)
    requires
        call_ensures(CodexMain::builder, (&main,), builder),
        call_ensures(CodexMain::builder_with_config, (&main, config), with_config),
        call_ensures(CodexMain::arg0_paths, (&main,), &paths),
    ensures
        builder.runtime.arg0_paths == Some(paths),
        with_config.runtime.arg0_paths == Some(paths),
        with_config.config == config,
        with_config.thread_defaults@.len() == 0,
        builder.ephemeral,
{
}

/// `used` is `set`, or else `fallback`, and at least one.
pub open spec fn is_capacity(used: usize, set: Option<usize>, fallback: usize) -> bool {
    let asked = match set {
        Some(capacity) => capacity,
        None => fallback,
    };
    used == (if asked == 0 {
        1
    } else {
        asked
    })
}

/// A runtime is started with the resolved configuration, the helper paths and
/// the application's name and version. The two capacities are chosen apart
/// from each other. Without helper paths nothing is started.
pub proof fn law_runtimes_start_as_they_were_set(
    builder: CodexWithConfigBuilder,
    default_capacity: usize,
    started: Result<(InProcessClientStartArgs, PendingRuntime)>,
)
    requires
        call_ensures(CodexWithConfigBuilder::start, (builder, default_capacity), started),
    ensures
        builder.runtime.arg0_paths is None ==> (started matches Err(error) && error is Arg0DispatchRequired),
        builder.runtime.arg0_paths matches Some(paths) ==> {
            &&& started matches Ok(start)
            &&& start.0.arg0_paths == paths
            &&& start.0.config == builder.config
            &&& start.0.client_name@ == builder.runtime.client_info.name@
            &&& start.0.session_source@ == builder.runtime.client_info.name@
            &&& start.0.client_version@ == builder.runtime.client_info.version@
            &&& is_capacity(start.0.channel_capacity, builder.runtime.channels.app_server, default_capacity)
            &&& is_capacity(
                start.1.event_stream_capacity,
                builder.runtime.channels.event_stream,
                default_capacity,
            )
        },
{
}

/// The defaults of new threads are the values of the resolved configuration
/// where the application changes none of them.
pub proof fn law_new_threads_follow_the_configuration(
    builder: CodexWithConfigBuilder,
    default_capacity: usize,
    started: (InProcessClientStartArgs, PendingRuntime),
)
    requires
        builder.thread_defaults@.len() == 0,
        call_ensures(CodexWithConfigBuilder::start, (builder, default_capacity), Ok(started)),
    ensures
        ({
            let config = builder.config;
            let params = started.1.default_thread_params@;
            &&& params.ephemeral == Some(config.ephemeral)
            &&& params.approval_policy == Some(config.approval_policy)
            &&& params.personality == config.personality
            &&& params.cwd == Some(config.cwd@)
            &&& params.model_provider == Some(config.model_provider_id@)
            &&& params.approvals_reviewer == Some(config.approvals_reviewer@)
            &&& params.model == (match config.model {
                Some(model) => Some(model@),
                None => None,
            })
            &&& params.base_instructions == (match config.base_instructions {
                Some(text) => Some(text@),
                None => None,
            })
            &&& params.developer_instructions == (match config.developer_instructions {
                Some(text) => Some(text@),
                None => None,
            })
            &&& params.thread_source == Some(ThreadSource::User)
            &&& params.environments is None
        }),
{
}

/// What the application changes applies to those defaults, one change after
/// the other.
pub proof fn law_changes_apply_to_the_configuration(
    plain: CodexWithConfigBuilder,
    changed: CodexWithConfigBuilder,
    default_capacity: usize,
    first: (InProcessClientStartArgs, PendingRuntime),
    second: (InProcessClientStartArgs, PendingRuntime),
)
    requires
        plain.thread_defaults@.len() == 0,
        changed.config == plain.config,
        call_ensures(CodexWithConfigBuilder::start, (plain, default_capacity), Ok(first)),
        call_ensures(CodexWithConfigBuilder::start, (changed, default_capacity), Ok(second)),
    ensures
        second.1.default_thread_params@ == apply_all(changed.thread_defaults@, first.1.default_thread_params@),
{
}

/// What `before` holds, with the keys of the patch on top.
proof fn lemma_merged_last(changes: Seq<OperationModel>, patch: ConfigModel, start: ThreadStartModel, key: Seq<char>)
    requires
        patch.contains_key(key),
    ensures
        apply_all(changes.push(OperationModel::MergeConfig(patch)), start).config matches Some(config)
            && config.contains_key(key) && config[key] == patch[key],
{
    law_changes_apply_in_order(changes, OperationModel::MergeConfig(patch), start);
    assert(patch.dom().contains(key));
}

/// Each switch of the prompt context sets its own key in the defaults of new
/// threads, whatever was set before.
pub proof fn law_switches_set_their_own_keys(
    builder: CodexBuilder,
    enabled: bool,
    permissions: CodexBuilder,
    apps: CodexBuilder,
    modes: CodexBuilder,
    environment: CodexBuilder,
    skills: CodexBuilder,
    start: ThreadStartModel,
)
    requires
        call_ensures(CodexBuilder::include_permissions_instructions, (builder, enabled), permissions),
        call_ensures(CodexBuilder::include_apps_instructions, (builder, enabled), apps),
        call_ensures(CodexBuilder::include_collaboration_mode_instructions, (builder, enabled), modes),
        call_ensures(CodexBuilder::include_environment_context, (builder, enabled), environment),
        call_ensures(CodexBuilder::include_skill_instructions, (builder, enabled), skills),
    ensures
        switched(permissions, start, "include_permissions_instructions"@, enabled),
        switched(apps, start, "include_apps_instructions"@, enabled),
        switched(modes, start, "include_collaboration_mode_instructions"@, enabled),
        switched(environment, start, "include_environment_context"@, enabled),
        switched(skills, start, "skills.include_instructions"@, enabled),
{
    let value = ConfigValueModel::Bool(enabled);
    let changes = builder.thread_defaults@;
    lemma_merged_last(
        changes,
        Map::empty().insert("include_permissions_instructions"@, value),
        start,
        "include_permissions_instructions"@,
    );
    lemma_merged_last(
        changes,
        Map::empty().insert("include_apps_instructions"@, value),
        start,
        "include_apps_instructions"@,
    );
    lemma_merged_last(
        changes,
        Map::empty().insert("include_collaboration_mode_instructions"@, value),
        start,
        "include_collaboration_mode_instructions"@,
    );
    lemma_merged_last(
        changes,
        Map::empty().insert("include_environment_context"@, value),
        start,
        "include_environment_context"@,
    );
    lemma_merged_last(
        changes,
        Map::empty().insert("skills.include_instructions"@, value),
        start,
        "skills.include_instructions"@,
    );
}

/// The last change of `builder` gives `key` the truth value `enabled`.
pub open spec fn switched(builder: CodexBuilder, start: ThreadStartModel, key: Seq<char>, enabled: bool) -> bool {
    apply_all(builder.thread_defaults@, start).config matches Some(config) && config.contains_key(key) && config[key]
        == ConfigValueModel::Bool(enabled)
}

/// The profiles switch off what they promise in the defaults of new threads,
/// whatever was set before, and the chat profile takes away environments and
/// project documents too.
pub proof fn law_profiles_switch_off_what_they_promise(
    builder: CodexBuilder,
    context: CodexBuilder,
    tools: CodexBuilder,
    chat: CodexBuilder,
    start: ThreadStartModel,
    key: Seq<char>,
)
    requires
        call_ensures(CodexBuilder::minimal_prompt_context, (builder,), context),
        call_ensures(CodexBuilder::minimal_tools, (builder,), tools),
        call_ensures(CodexBuilder::pure_chat_profile, (builder,), chat),
    ensures
        ({
            let with_context = apply_all(context.thread_defaults@, start);
            let with_tools = apply_all(tools.thread_defaults@, start);
            let with_chat = apply_all(chat.thread_defaults@, start);
            &&& prompt_context_keys().contains(key) ==> with_context.config is Some && is_off(
                with_context.config->0,
                key,
            )
            &&& minimal_tool_keys().contains(key) ==> with_tools.config is Some && is_off(with_tools.config->0, key)
            &&& with_tools.config matches Some(config) && config.contains_key("web_search"@) && config["web_search"@]
                == ConfigValueModel::Text("disabled"@)
            &&& prompt_context_keys().contains(key) || minimal_tool_keys().contains(key) ==> with_chat.config is Some
                && is_off(with_chat.config->0, key)
            &&& with_chat.config matches Some(config) && config.contains_key("web_search"@) && config["web_search"@]
                == ConfigValueModel::Text("disabled"@) && config.contains_key("project_doc_max_bytes"@)
                && config["project_doc_max_bytes"@] == ConfigValueModel::Integer(0)
            &&& with_chat.environments matches Some(list) && list.len() == 0
        }),
{
    let changes = builder.thread_defaults@;
    law_changes_apply_in_order(changes, OperationModel::MergeConfig(minimal_prompt_context()), start);
    law_changes_apply_in_order(changes, OperationModel::MergeConfig(minimal_tools()), start);
    law_changes_apply_in_order(changes, OperationModel::MergeConfig(pure_chat()), start);
    law_changes_apply_in_order(
        changes.push(OperationModel::MergeConfig(pure_chat())),
        OperationModel::SetEnvironment(Some(Seq::empty())),
        start,
    );
    assert(minimal_tool_keys()[0] == "features.apps"@);
    lemma_listed_keys("features.apps"@);
    assert(prompt_context_keys()[0] == "include_permissions_instructions"@);
    lemma_listed_keys("include_permissions_instructions"@);
    if prompt_context_keys().contains(key) || minimal_tool_keys().contains(key) {
        lemma_listed_keys(key);
    }
    lemma_profiles(key);
}

/// The patches of the profiles hold what they promise.
proof fn lemma_profiles(key: Seq<char>)
    ensures
        minimal_tools().dom().contains("web_search"@),
        minimal_prompt_context().dom().contains("include_permissions_instructions"@),
        pure_chat().dom().contains("web_search"@),
        minimal_tool_keys().contains(key) ==> minimal_tools().dom().contains(key),
        prompt_context_keys().contains(key) ==> minimal_prompt_context().dom().contains(key),
{
    assert(prompt_context_keys()[0] == "include_permissions_instructions"@);
}

/// A choice of environments counts for new threads, whatever was chosen
/// before.
pub proof fn law_last_choice_of_environments_counts(
    builder: CodexBuilder,
    access: EnvironmentAccess,
    after: CodexBuilder,
    start: ThreadStartModel,
)
    requires
        call_ensures(CodexBuilder::default_environment_access, (builder, access), after),
    ensures
        ({
            let params = apply_all(after.thread_defaults@, start);
            &&& access is Inherit ==> params.environments is None
            &&& access is Disabled ==> (params.environments matches Some(list) && list.len() == 0)
            &&& access matches EnvironmentAccess::Selected(environments) ==> (params.environments matches Some(list)
                && list == environments@)
        }),
{
    law_changes_apply_in_order(builder.thread_defaults@, OperationModel::SetEnvironment(access.sent()), start);
}

/// Replaced defaults of new threads are the replacement.
pub proof fn law_replaced_defaults_are_the_replacement(
    builder: CodexWithConfigBuilder,
    params: ThreadStartParams,
    after: CodexWithConfigBuilder,
    remote: CodexRemoteBuilder,
    remote_after: CodexRemoteBuilder,
    start: ThreadStartModel,
)
    requires
        call_ensures(CodexWithConfigBuilder::default_thread_params, (builder, params), after),
        call_ensures(CodexRemoteBuilder::default_thread_params, (remote, params), remote_after),
    ensures
        apply_all(after.thread_defaults@, start) == params@,
        apply_all(remote_after.thread_defaults@, start) == params@,
{
    law_changes_apply_in_order(builder.thread_defaults@, OperationModel::Replace(params@), start);
    law_changes_apply_in_order(remote.thread_defaults@, OperationModel::Replace(params@), start);
}

/// Everything that is set on a builder reaches the configuration: as an
/// override that Codex lays over its files, or in the configuration that Codex
/// has built. What is not set is left to the files, but for the working
/// directory and whether threads are ephemeral.
pub proof fn law_settings_reach_the_configuration(
    builder: CodexBuilder,
    pending: PendingConfig,
    current: PathBuf,
    found: PathBuf,
    overrides: ConfigOverrides,
    home: PathBuf,
)
    requires
        call_ensures(CodexBuilder::start, (builder,), Ok(pending)),
        call_ensures(ConfigBuildOptions::overrides, (&pending.options, &pending.arg0_paths, current), overrides),
        call_ensures(ConfigBuildOptions::home, (&pending.options, found), home),
    ensures
        overrides.model == builder.model,
        overrides.model_provider == builder.model_provider,
        overrides.service_tier == builder.service_tier,
        overrides.base_instructions == builder.base_instructions,
        overrides.developer_instructions == builder.developer_instructions,
        overrides.personality == builder.personality,
        overrides.approval_policy == builder.approval_policy,
        overrides.sandbox_mode == builder.sandbox,
        overrides.ephemeral == Some(builder.ephemeral),
        builder.cwd matches Some(cwd) ==> overrides.cwd == Some(cwd),
        builder.cwd is None ==> overrides.cwd == Some(current),
        builder.codex_home matches Some(own) ==> home == own,
        builder.codex_home is None ==> home == found,
        builder.runtime.arg0_paths == Some(pending.arg0_paths),
        overrides.codex_self_exe == pending.arg0_paths.codex_self_exe,
        overrides.codex_linux_sandbox_exe == pending.arg0_paths.codex_linux_sandbox_exe,
        overrides.main_execve_wrapper_exe == pending.arg0_paths.main_execve_wrapper_exe,
        pending.thread_defaults == builder.thread_defaults,
        pending.runtime.client_info == builder.runtime.client_info,
        pending.runtime.channels == builder.runtime.channels,
        pending.options.reasoning_effort == builder.reasoning_effort,
        pending.options.reasoning_summary == builder.reasoning_summary,
{
}

/// The reasoning that was asked for replaces that of the configuration, and
/// nothing else of it changes.
pub proof fn law_reasoning_comes_over_the_configuration(
    options: ConfigBuildOptions,
    config: Config,
    adjusted: Config,
)
    requires
        call_ensures(ConfigBuildOptions::adjust, (&options, config), adjusted),
    ensures
        options.reasoning_effort is Some ==> adjusted.model_reasoning_effort == options.reasoning_effort,
        options.reasoning_effort is None ==> adjusted.model_reasoning_effort == config.model_reasoning_effort,
        options.reasoning_summary is Some ==> adjusted.model_reasoning_summary == options.reasoning_summary,
        options.reasoning_summary is None ==> adjusted.model_reasoning_summary == config.model_reasoning_summary,
        adjusted == (Config {
            model_reasoning_effort: adjusted.model_reasoning_effort,
            model_reasoning_summary: adjusted.model_reasoning_summary,
            ..config
        }),
{
}

/// A runtime whose configuration Codex has built starts with that
/// configuration, and with what was set beside it.
pub proof fn law_built_configurations_are_used(
    pending: PendingConfig,
    config: Config,
    default_capacity: usize,
    adjusted: Config,
    started: (InProcessClientStartArgs, PendingRuntime),
)
    requires
        call_ensures(PendingConfig::finish, (pending, config, default_capacity), started),
        call_ensures(ConfigBuildOptions::adjust, (&pending.options, config), adjusted),
    ensures
        started.0.config == adjusted,
        started.0.arg0_paths == pending.arg0_paths,
        started.0.client_name@ == pending.runtime.client_info.name@,
        started.0.client_version@ == pending.runtime.client_info.version@,
        is_capacity(started.0.channel_capacity, pending.runtime.channels.app_server, default_capacity),
        is_capacity(started.1.event_stream_capacity, pending.runtime.channels.event_stream, default_capacity),
        pending.thread_defaults@.len() == 0 ==> started.1.default_thread_params@.ephemeral == Some(config.ephemeral)
            && started.1.default_thread_params@.cwd == Some(config.cwd@),
{
}

/// Without helper paths a builder starts nothing.
pub proof fn law_builders_need_helper_paths(builder: CodexBuilder, started: Result<PendingConfig>)
    requires
        call_ensures(CodexBuilder::start, (builder,), started),
    ensures
        started is Ok <==> builder.runtime.arg0_paths is Some,
        started matches Err(error) ==> error is Arg0DispatchRequired,
{
}

/// Threads on a remote app-server are the user's and ephemeral where the
/// application says nothing else. The rest is left to the app-server.
pub proof fn law_remote_threads_have_their_defaults(params: ThreadStartParams)
    requires
        call_ensures(remote_default_thread_params, (), params),
    ensures
        params@.ephemeral == Some(true),
        params@.thread_source == Some(ThreadSource::User),
        params@ == (ThreadStartModel {
            ephemeral: params@.ephemeral,
            thread_source: params@.thread_source,
            cwd: None,
            model: None,
            model_provider: None,
            service_tier: None,
            runtime_workspace_roots: None,
            approval_policy: None,
            approvals_reviewer: None,
            sandbox: None,
            permissions: None,
            config: None,
            personality: None,
            base_instructions: None,
            developer_instructions: None,
            environments: None,
            extra: None,
        }),
{
}

/// A remote app-server is connected at the address that was set, under the
/// application's name and version, with capacities chosen apart from each
/// other.
pub proof fn law_remote_connections_start_as_they_were_set(
    builder: CodexRemoteBuilder,
    default_capacity: usize,
    started: (RemoteAppServerConnectArgs, PendingRuntime),
    defaults: ThreadStartParams,
)
    requires
        call_ensures(CodexRemoteBuilder::start, (builder, default_capacity), started),
        call_ensures(remote_default_thread_params, (), defaults),
    ensures
        started.0.endpoint == builder.endpoint,
        started.0.client_name@ == builder.client_info.name@,
        started.0.client_version@ == builder.client_info.version@,
        started.0.experimental_api,
        !started.0.mcp_server_openai_form_elicitation,
        started.0.opt_out_notification_methods@.len() == 0,
        is_capacity(started.0.channel_capacity, builder.channels.app_server, default_capacity),
        is_capacity(started.1.event_stream_capacity, builder.channels.event_stream, default_capacity),
        started.1.default_thread_params@ == apply_all(builder.thread_defaults@, defaults@),
{
}

/// A remote builder connects to the address that it was made for, under the
/// SDK's name and version where the application sets none.
pub proof fn law_remote_builders_keep_their_address(
    url: String,
    path: PathBuf,
    websocket: CodexRemoteBuilder,
    unix_socket: CodexRemoteBuilder,
)
    requires
        call_ensures(Codex::remote_websocket, (url,), websocket),
        call_ensures(Codex::remote_unix_socket, (path,), unix_socket),
    ensures
        websocket.endpoint == (RemoteEndpointConfig::WebSocket { websocket_url: url, auth_token: None }),
        unix_socket.endpoint == (RemoteEndpointConfig::UnixSocket { socket_path: path }),
        websocket.client_info.name@ == "codex-sdk-rs"@,
        websocket.client_info.version@ == "0.1.0"@,
        unix_socket.client_info.name@ == "codex-sdk-rs"@,
        unix_socket.client_info.version@ == "0.1.0"@,
        websocket.thread_defaults@.len() == 0,
        unix_socket.thread_defaults@.len() == 0,
        websocket.channels.app_server is None && websocket.channels.event_stream is None,
        unix_socket.channels.app_server is None && unix_socket.channels.event_stream is None,
{
}

/// A token joins the address of a WebSocket and leaves a Unix socket as it is.
pub proof fn law_tokens_are_for_websockets(builder: CodexRemoteBuilder, token: String, after: CodexRemoteBuilder)
    requires
        call_ensures(CodexRemoteBuilder::auth_token, (builder, token), after),
    ensures
        builder.endpoint matches RemoteEndpointConfig::WebSocket { websocket_url, auth_token } ==> after.endpoint == (
        RemoteEndpointConfig::WebSocket { websocket_url, auth_token: Some(token) }),
        builder.endpoint is UnixSocket ==> after.endpoint == builder.endpoint,
        after == (CodexRemoteBuilder { endpoint: after.endpoint, ..builder }),
{
}

/// Setting both capacities sets each to what was asked for, and at least one.
pub proof fn law_one_setting_sets_both_capacities(channels: &mut ChannelCapacities, capacity: usize)
    requires
        call_ensures(ChannelCapacities::set_all, (channels, capacity), ()),
    ensures
        capacity > 0 ==> final(channels).app_server == Some(capacity) && final(channels).event_stream == Some(capacity),
        capacity == 0 ==> final(channels).app_server == Some(1usize) && final(channels).event_stream == Some(1usize),
{
}

/// The capacity of the app-server connection and that of the streams are set
/// apart from each other.
pub proof fn law_capacities_are_set_apart(
    builder: CodexBuilder,
    capacity: usize,
    upstream: CodexBuilder,
    streams: CodexBuilder,
)
    requires
        call_ensures(CodexBuilder::app_server_channel_capacity, (builder, capacity), upstream),
        call_ensures(CodexBuilder::event_stream_capacity, (builder, capacity), streams),
    ensures
        upstream.runtime.channels.app_server matches Some(set) && is_capacity(set, Some(capacity), 1),
        upstream.runtime.channels.event_stream == builder.runtime.channels.event_stream,
        streams.runtime.channels.event_stream matches Some(set) && is_capacity(set, Some(capacity), 1),
        streams.runtime.channels.app_server == builder.runtime.channels.app_server,
{
}

/// A connected runtime has the defaults of new threads that it was started
/// with, and no thread yet.
pub proof fn law_connected_runtimes_keep_their_defaults(pending: PendingRuntime, codex: Codex)
    requires
        call_ensures(PendingRuntime::connected, (pending,), codex),
    ensures
        codex@.default_thread_params == pending.default_thread_params@,
        codex@.streams.len() == 0,
        codex@.runtime.last_id == 0,
        pending.event_stream_capacity > 0 ==> codex@.runtime.events.stream_capacity == pending.event_stream_capacity,
        !codex@.runtime.events.closed,
{
}

/// The same holds of a runtime that is started from a configuration directly.
pub proof fn law_direct_starts_are_the_same(
    config: Config,
    runtime: RuntimeOptions,
    thread_defaults: ThreadDefaultsOverrides,
    default_capacity: usize,
    started: Result<(InProcessClientStartArgs, PendingRuntime)>,
)
    requires
        call_ensures(start_with_config, (config, runtime, thread_defaults, default_capacity), started),
    ensures
        started is Ok <==> runtime.arg0_paths is Some,
        started matches Err(error) ==> error is Arg0DispatchRequired,
        started matches Ok(start) ==> start.0.config == config && Some(start.0.arg0_paths) == runtime.arg0_paths
            && start.0.client_name@ == runtime.client_info.name@,
{
}

/// A builder with a configuration changes the defaults of new threads as one
/// without does.
pub proof fn law_builders_change_defaults_alike(
    builder: CodexBuilder,
    with_config: CodexWithConfigBuilder,
    access: EnvironmentAccess,
    overrides: ConfigMap,
    changed: Seq<CodexBuilder>,
    changed_alike: Seq<CodexWithConfigBuilder>,
    i: int,
)
    requires
        builder.thread_defaults@ == with_config.thread_defaults@,
        changed.len() == 5,
        changed_alike.len() == 5,
        call_ensures(CodexBuilder::minimal_prompt_context, (builder,), changed[0]),
        call_ensures(CodexBuilder::minimal_tools, (builder,), changed[1]),
        call_ensures(CodexBuilder::pure_chat_profile, (builder,), changed[2]),
        call_ensures(CodexBuilder::default_environment_access, (builder, access), changed[3]),
        call_ensures(CodexBuilder::default_thread_config_overrides, (builder, overrides), changed[4]),
        call_ensures(CodexWithConfigBuilder::minimal_prompt_context, (with_config,), changed_alike[0]),
        call_ensures(CodexWithConfigBuilder::minimal_tools, (with_config,), changed_alike[1]),
        call_ensures(CodexWithConfigBuilder::pure_chat_profile, (with_config,), changed_alike[2]),
        call_ensures(CodexWithConfigBuilder::default_environment_access, (with_config, access), changed_alike[3]),
        call_ensures(
            CodexWithConfigBuilder::default_thread_config_overrides,
            (with_config, overrides),
            changed_alike[4],
        ),
        0 <= i < 5,
    ensures
        changed[i].thread_defaults@ == changed_alike[i].thread_defaults@,
        changed_alike[i].config == with_config.config,
        changed_alike[i].runtime == with_config.runtime,
        changed[i].runtime == builder.runtime,
        changed[i].ephemeral == builder.ephemeral,
{
}

/// An override of the configuration counts for new threads, whatever was set
/// before, and leaves every other key and parameter alone.
pub proof fn law_overrides_count_for_new_threads(
    builder: CodexBuilder,
    overrides: ConfigMap,
    after: CodexBuilder,
    start: ThreadStartModel,
    key: Seq<char>,
    other: Seq<char>,
)
    requires
        call_ensures(CodexBuilder::default_thread_config_overrides, (builder, overrides), after),
        config_model(overrides).contains_key(key),
        !config_model(overrides).contains_key(other),
    ensures
        ({
            let params = apply_all(after.thread_defaults@, start);
            let before = apply_all(builder.thread_defaults@, start);
            &&& params.config matches Some(config) && config.contains_key(key) && config[key] == config_model(
                overrides,
            )[key]
            &&& before.config is Some && before.config->0.contains_key(other) ==> params.config->0.contains_key(other)
                && params.config->0[other] == before.config->0[other]
            &&& params == (ThreadStartModel { config: params.config, ..before })
        }),
{
    law_later_overrides_win(builder.thread_defaults@, config_model(overrides), start, key);
}

/// The capacities of a runtime with a configuration and of a remote connection
/// are set as those of any runtime are.
pub proof fn law_capacities_are_set_alike(
    builder: CodexBuilder,
    with_config: CodexWithConfigBuilder,
    remote: CodexRemoteBuilder,
    capacity: usize,
    set: Seq<CodexBuilder>,
    set_alike: Seq<CodexWithConfigBuilder>,
    set_remote: Seq<CodexRemoteBuilder>,
    i: int,
)
    requires
        builder.runtime.channels == with_config.runtime.channels,
        builder.runtime.channels == remote.channels,
        set.len() == 3,
        set_alike.len() == 3,
        set_remote.len() == 3,
        call_ensures(CodexBuilder::channel_capacity, (builder, capacity), set[0]),
        call_ensures(CodexBuilder::app_server_channel_capacity, (builder, capacity), set[1]),
        call_ensures(CodexBuilder::event_stream_capacity, (builder, capacity), set[2]),
        call_ensures(CodexWithConfigBuilder::channel_capacity, (with_config, capacity), set_alike[0]),
        call_ensures(CodexWithConfigBuilder::app_server_channel_capacity, (with_config, capacity), set_alike[1]),
        call_ensures(CodexWithConfigBuilder::event_stream_capacity, (with_config, capacity), set_alike[2]),
        call_ensures(CodexRemoteBuilder::channel_capacity, (remote, capacity), set_remote[0]),
        call_ensures(CodexRemoteBuilder::app_server_channel_capacity, (remote, capacity), set_remote[1]),
        call_ensures(CodexRemoteBuilder::event_stream_capacity, (remote, capacity), set_remote[2]),
        0 <= i < 3,
    ensures
        set_alike[i].runtime.channels == set[i].runtime.channels,
        set_remote[i].channels == set[i].runtime.channels,
        set[0].runtime.channels.app_server matches Some(used) && is_capacity(used, Some(capacity), 1),
        set[0].runtime.channels.event_stream matches Some(used) && is_capacity(used, Some(capacity), 1),
        set_alike[i].config == with_config.config,
        set_remote[i].endpoint == remote.endpoint,
{
}

} // verus!
