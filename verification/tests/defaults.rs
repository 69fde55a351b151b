use codex_sdk::builder::{ChannelCapacities, ConfigBuildOptions, RuntimeOptions};
use codex_sdk::config::{Config, LegacySandboxPolicy};
use codex_sdk::error::Error;
use codex_sdk::protocol::{
    AskForApproval, ConfigValue, Personality, ReasoningEffort, ReasoningSummary, SandboxMode, ThreadStartParams,
    TurnEnvironmentParams, TurnStartParams,
};
use codex_sdk::text_map::TextMap;
use codex_sdk::thread_defaults::{
    merge_thread_config_overrides, minimal_prompt_context_config_overrides, minimal_tool_config_overrides,
    thread_config_snapshot, thread_defaults_snapshot, thread_permissions_from_config, EnvironmentAccess,
    ThreadDefaultsOverrides,
};
use codex_sdk::types::Arg0DispatchPaths;
use codex_sdk::{Codex, CodexMain};
use std::path::PathBuf;

fn config_of(entries: Vec<(&str, ConfigValue)>) -> TextMap<ConfigValue> {
    let mut config: TextMap<ConfigValue> = TextMap::new();
    for (key, value) in entries {
        let _ = config.insert(key.to_string(), value);
    }
    config
}

fn entry(params: &ThreadStartParams, key: &str) -> Option<String> {
    match &params.config {
        Some(config) => config.get(key).map(|value| format!("{value:?}")),
        None => None,
    }
}

fn text(value: &str) -> Option<String> {
    Some(value.to_string())
}

fn resolved_config() -> Config {
    Config {
        cwd: "/work".to_string(),
        model: text("model-a"),
        model_provider_id: "provider-a".to_string(),
        service_tier: text("default"),
        workspace_roots: vec!["/work".to_string()],
        approval_policy: AskForApproval::OnRequest,
        approvals_reviewer: "user".to_string(),
        explicit_permission_profile_mode: false,
        active_permission_profile: None,
        legacy_sandbox_policy: LegacySandboxPolicy::WorkspaceWrite,
        personality: Some(Personality::Pragmatic),
        include_permissions_instructions: true,
        include_apps_instructions: true,
        include_collaboration_mode_instructions: true,
        include_environment_context: true,
        include_skill_instructions: true,
        model_reasoning_effort: None,
        model_reasoning_summary: None,
        base_instructions: None,
        developer_instructions: None,
        ephemeral: true,
        startup_warnings: vec!["first warning".to_string(), "second warning".to_string()],
    }
}

fn build_options() -> ConfigBuildOptions {
    ConfigBuildOptions {
        codex_home: Some(PathBuf::from("/home/codex")),
        cwd: Some(PathBuf::from("/work")),
        model: None,
        model_provider: None,
        service_tier: None,
        reasoning_effort: None,
        reasoning_summary: None,
        personality: None,
        base_instructions: None,
        developer_instructions: None,
        approval_policy: None,
        sandbox: None,
        ephemeral: true,
    }
}

fn helper_paths() -> Arg0DispatchPaths {
    Arg0DispatchPaths {
        codex_self_exe: Some(PathBuf::from("/bin/codex")),
        codex_linux_sandbox_exe: None,
        main_execve_wrapper_exe: None,
    }
}

#[test]
fn remote_builder_debug_redacts_endpoint_and_auth_token() {
    let builder = Codex::remote_websocket("wss://example.test/app-server?credential=url-secret".to_string())
        .auth_token("bearer-secret".to_string());

    let debug = builder.debug_text(128);
    assert!(debug.contains("auth_configured: true"));
    assert!(!debug.contains("url-secret"));
    assert!(!debug.contains("bearer-secret"));
}

#[test]
fn builder_debug_redacts_native_thread_config_values() {
    let builder = Codex::builder().default_thread_config_overrides(config_of(vec![(
        "example.token",
        ConfigValue::Text("thread-secret".to_string()),
    )]));

    let debug = builder.debug_text(128);
    assert!(debug.contains("MergeConfig"));
    assert!(debug.contains("count: 1"));
    assert!(!debug.contains("thread-secret"));
}

#[test]
fn minimal_tools_sets_documented_native_overrides() {
    let builder = Codex::builder().minimal_tools();
    let params = builder.thread_defaults.apply(ThreadStartParams::default());

    let overrides = match &params.config {
        Some(overrides) => overrides,
        None => panic!("minimal tool config"),
    };
    for key in [
        "features.apps",
        "features.plugins",
        "features.shell_tool",
        "features.multi_agent",
        "features.image_generation",
        "features.memories",
        "features.goals",
        "orchestrator.skills.enabled",
        "orchestrator.mcp.enabled",
        "tools.experimental_request_user_input.enabled",
    ] {
        assert_eq!(overrides.get(key), Some(&ConfigValue::Bool(false)), "unexpected override for {key}");
    }
    assert_eq!(overrides.get("web_search"), Some(&ConfigValue::Text("disabled".to_string())));
    assert_eq!(params.environments, None);
}

#[test]
fn later_native_overrides_can_customize_minimal_tools() {
    let builder = Codex::builder()
        .minimal_tools()
        .default_thread_config_overrides(config_of(vec![("features.image_generation", ConfigValue::Bool(true))]));

    let params = builder.thread_defaults.apply(ThreadStartParams::default());
    assert_eq!(
        params.config.as_ref().and_then(|config| config.get("features.image_generation")),
        Some(&ConfigValue::Bool(true))
    );
}

#[test]
fn pure_chat_profile_disables_prompt_context_project_docs_tools_and_environment() {
    let builder = Codex::builder().pure_chat_profile();
    let params = builder.thread_defaults.apply(ThreadStartParams::default());

    assert_eq!(params.environments, Some(Vec::new()));
    let config = match params.config {
        Some(config) => config,
        None => panic!("pure chat config"),
    };
    assert_eq!(config.get("include_apps_instructions"), Some(&ConfigValue::Bool(false)));
    assert_eq!(config.get("features.plugins"), Some(&ConfigValue::Bool(false)));
    assert_eq!(config.get("project_doc_max_bytes"), Some(&ConfigValue::Integer(0)));
}

#[test]
fn later_builder_calls_can_customize_the_pure_chat_profile() {
    let builder = Codex::builder()
        .pure_chat_profile()
        .include_apps_instructions(true)
        .default_thread_config_overrides(config_of(vec![("project_doc_max_bytes", ConfigValue::Integer(1024))]))
        .default_environment_access(EnvironmentAccess::Inherit);
    let params = builder.thread_defaults.apply(ThreadStartParams::default());

    assert_eq!(params.environments, None);
    assert_eq!(
        params.config.as_ref().and_then(|config| config.get("include_apps_instructions")),
        Some(&ConfigValue::Bool(true))
    );
    assert_eq!(
        params.config.as_ref().and_then(|config| config.get("project_doc_max_bytes")),
        Some(&ConfigValue::Integer(1024))
    );
}

#[test]
fn in_process_runtime_requires_arg0_dispatch_paths() {
    let mut options = RuntimeOptions::default();
    assert!(matches!(options.take_arg0_paths(), Err(Error::Arg0DispatchRequired)));
}

#[test]
fn channel_capacities_can_be_tuned_together_or_independently() {
    let builder = Codex::builder().channel_capacity(64).app_server_channel_capacity(128).event_stream_capacity(16);

    assert_eq!(builder.runtime.channels.app_server, Some(128));
    assert_eq!(builder.runtime.channels.event_stream, Some(16));
}

#[test]
fn explicit_thread_config_overrides_replace_derived_values() {
    let mut params = ThreadStartParams {
        config: Some(config_of(vec![("features.plugins", ConfigValue::Bool(true))])),
        ..ThreadStartParams::default()
    };

    merge_thread_config_overrides(
        &mut params,
        config_of(vec![
            ("features.plugins", ConfigValue::Bool(false)),
            ("project_doc_max_bytes", ConfigValue::Integer(0)),
        ]),
    );

    let config = match params.config {
        Some(config) => config,
        None => panic!("merged config"),
    };
    assert_eq!(config.get("features.plugins"), Some(&ConfigValue::Bool(false)));
    assert_eq!(config.get("project_doc_max_bytes"), Some(&ConfigValue::Integer(0)));
}

#[test]
fn native_sandbox_and_approval_are_inherited_without_builder_overrides() {
    let native = Config {
        approval_policy: AskForApproval::Never,
        legacy_sandbox_policy: LegacySandboxPolicy::ReadOnly,
        ..resolved_config()
    };
    let options = build_options();
    let overrides = options.overrides(&helper_paths(), PathBuf::from("/elsewhere"));
    assert_eq!(overrides.approval_policy, None);
    assert_eq!(overrides.sandbox_mode, None);

    let config = options.adjust(native);
    let params = thread_defaults_snapshot(&config);

    assert_eq!(params.approval_policy, Some(AskForApproval::Never));
    assert_eq!(params.sandbox, Some(SandboxMode::ReadOnly));
}

#[test]
fn runtime_defaults_are_forwarded_to_native_thread_params() {
    let mut options = build_options();
    options.service_tier = Some(None);
    options.reasoning_effort = Some(ReasoningEffort::High);
    options.reasoning_summary = Some(ReasoningSummary::Detailed);
    options.base_instructions = text("test base");
    options.developer_instructions = text("test developer");
    options.approval_policy = Some(AskForApproval::Never);
    options.sandbox = Some(SandboxMode::ReadOnly);

    let overrides = options.overrides(&helper_paths(), PathBuf::from("/elsewhere"));
    assert_eq!(overrides.service_tier, Some(None));
    assert_eq!(overrides.approval_policy, Some(AskForApproval::Never));
    assert_eq!(overrides.sandbox_mode, Some(SandboxMode::ReadOnly));
    assert_eq!(overrides.base_instructions, text("test base"));
    assert_eq!(overrides.developer_instructions, text("test developer"));

    // What the native configuration loader makes of those overrides.
    let native = Config {
        service_tier: text("default"),
        approval_policy: AskForApproval::Never,
        legacy_sandbox_policy: LegacySandboxPolicy::ReadOnly,
        base_instructions: text("test base"),
        developer_instructions: text("test developer"),
        ..resolved_config()
    };
    let mut config = options.adjust(native);

    config.include_permissions_instructions = false;
    config.include_apps_instructions = false;
    config.include_collaboration_mode_instructions = false;
    config.include_environment_context = false;
    config.include_skill_instructions = false;

    let params = thread_defaults_snapshot(&config);
    assert_eq!(params.service_tier, Some(Some("default".to_string())));
    assert_eq!(params.sandbox, Some(SandboxMode::ReadOnly));
    assert_eq!(params.approval_policy, Some(AskForApproval::Never));
    assert_eq!(params.base_instructions.as_deref(), Some("test base"));
    assert_eq!(params.developer_instructions.as_deref(), Some("test developer"));

    let overrides = match params.config {
        Some(overrides) => overrides,
        None => panic!("thread config overrides"),
    };
    assert_eq!(overrides.len(), 7);
    for key in [
        "include_permissions_instructions",
        "include_apps_instructions",
        "include_collaboration_mode_instructions",
        "include_environment_context",
        "skills.include_instructions",
    ] {
        assert_eq!(overrides.get(key), Some(&ConfigValue::Bool(false)));
    }
    assert_eq!(overrides.get("model_reasoning_effort"), Some(&ConfigValue::Text("high".to_string())));
    assert_eq!(overrides.get("model_reasoning_summary"), Some(&ConfigValue::Text("detailed".to_string())));

    // A resolved configuration can also clear the tier; that is not the same as
    // leaving it out.
    config.service_tier = None;
    let cleared = thread_defaults_snapshot(&config);
    assert_eq!(cleared.service_tier, Some(None));
}

#[test]
fn environment_access_preserves_protocol_tristate() {
    let mut params = ThreadStartParams::default();
    EnvironmentAccess::Disabled.apply_to_thread(&mut params);
    assert_eq!(params.environments, Some(Vec::new()));

    EnvironmentAccess::Inherit.apply_to_thread(&mut params);
    assert_eq!(params.environments, None);
}

#[test]
fn thread_default_operations_follow_builder_order() {
    let mut defaults = ThreadDefaultsOverrides::default();
    defaults.set_environment_access(EnvironmentAccess::Disabled);
    defaults.replace(ThreadStartParams::default());
    assert_eq!(defaults.apply(ThreadStartParams::default()).environments, None);

    let mut defaults = ThreadDefaultsOverrides::default();
    defaults.replace(ThreadStartParams::default());
    defaults.set_environment_access(EnvironmentAccess::Disabled);
    assert_eq!(defaults.apply(ThreadStartParams::default()).environments, Some(Vec::new()));
}

#[test]
fn debug_output_redacts_config_and_native_params() {
    let mut defaults = ThreadDefaultsOverrides::default();
    defaults.merge_config(config_of(vec![("example.token", ConfigValue::Text("thread-secret".to_string()))]));
    defaults.replace(ThreadStartParams {
        developer_instructions: text("instruction-secret"),
        ..ThreadStartParams::default()
    });

    let debug = defaults.debug_text();
    assert!(debug.contains("MergeConfig"));
    assert!(debug.contains("count: 1"));
    assert!(!debug.contains("thread-secret"));
    assert!(!debug.contains("instruction-secret"));
}

#[test]
fn debug_text_of_thread_defaults_is_exact() {
    let mut defaults = ThreadDefaultsOverrides::default();
    assert_eq!(defaults.debug_text(), "ThreadDefaultsOverrides { operations: [] }");
    defaults.merge_config(config_of(vec![("a", ConfigValue::Bool(true)), ("b", ConfigValue::Bool(true))]));
    defaults.set_environment_access(EnvironmentAccess::Disabled);
    defaults.replace(ThreadStartParams::default());
    assert_eq!(
        defaults.debug_text(),
        "ThreadDefaultsOverrides { operations: [MergeConfig { count: 2 }, SetEnvironment(Disabled), Replace(<redacted>)] }"
    );
}

#[test]
fn debug_text_of_a_remote_builder_is_exact() {
    assert_eq!(
        Codex::remote_websocket("wss://example.test".to_string()).event_stream_capacity(3).debug_text(128),
        "CodexRemoteBuilder { transport: \"websocket\", auth_configured: false, client_info: ClientInfo { name: \"codex-sdk-rs\", version: \"0.1.0\" }, thread_defaults: ThreadDefaultsOverrides { operations: [] }, app_server_channel_capacity: 128, event_stream_capacity: 3, .. }"
    );
}

#[test]
fn selected_environments_reach_threads_and_turns() {
    let selected = || {
        EnvironmentAccess::Selected(vec![TurnEnvironmentParams {
            environment_id: "env-1".to_string(),
            cwd: "/work".to_string(),
        }])
    };
    let mut thread = ThreadStartParams::default();
    selected().apply_to_thread(&mut thread);
    let mut turn = TurnStartParams::default();
    selected().apply_to_turn(&mut turn);
    assert_eq!(thread.environments, selected().into_protocol_value());
    assert_eq!(turn.environments, thread.environments);
    assert_eq!(thread.environments.map(|list| list.len()), Some(1));
}

#[test]
fn a_later_environment_choice_replaces_an_earlier_one() {
    let builder = Codex::builder()
        .default_environment_access(EnvironmentAccess::Disabled)
        .default_environment_access(EnvironmentAccess::Inherit);
    assert_eq!(builder.thread_defaults.apply(ThreadStartParams::default()).environments, None);
}

#[test]
fn replaced_parameters_forget_earlier_changes() {
    let mut defaults = ThreadDefaultsOverrides::default();
    defaults.minimize_tools();
    defaults.replace(ThreadStartParams { model: text("model-b"), ..ThreadStartParams::default() });
    let params = defaults.apply(ThreadStartParams::default());
    assert!(params.config.is_none());
    assert_eq!(params.model, text("model-b"));
}

#[test]
fn prompt_context_switches_set_their_documented_keys() {
    let builder = Codex::builder()
        .include_permissions_instructions(false)
        .include_collaboration_mode_instructions(true)
        .include_environment_context(false)
        .include_skill_instructions(true);
    let params = builder.thread_defaults.apply(ThreadStartParams::default());
    assert_eq!(entry(&params, "include_permissions_instructions").as_deref(), Some("Bool(false)"));
    assert_eq!(entry(&params, "include_collaboration_mode_instructions").as_deref(), Some("Bool(true)"));
    assert_eq!(entry(&params, "include_environment_context").as_deref(), Some("Bool(false)"));
    assert_eq!(entry(&params, "skills.include_instructions").as_deref(), Some("Bool(true)"));
    assert_eq!(entry(&params, "include_apps_instructions"), None);
}

#[test]
fn minimal_profiles_switch_everything_off() {
    let tools = minimal_tool_config_overrides();
    for i in 0..tools.len() {
        let off = [ConfigValue::Bool(false), ConfigValue::Text("disabled".to_string())];
        assert!(off.contains(tools.value_at(i)), "unexpected value for {}", tools.key_at(i));
    }
    let context = minimal_prompt_context_config_overrides();
    assert_eq!(context.get("include_environment_context"), Some(&ConfigValue::Bool(false)));
    assert_eq!(context.get("skills.include_instructions"), Some(&ConfigValue::Bool(false)));
}

#[test]
fn permission_profiles_take_the_place_of_the_sandbox() {
    let by_profile = Config {
        explicit_permission_profile_mode: true,
        active_permission_profile: text("profile-a"),
        ..resolved_config()
    };
    assert_eq!(thread_permissions_from_config(&by_profile), (None, text("profile-a")));
    assert_eq!(
        thread_permissions_from_config(&resolved_config()),
        (Some(SandboxMode::WorkspaceWrite), None)
    );
    let danger =
        Config { legacy_sandbox_policy: LegacySandboxPolicy::DangerFullAccess, ..resolved_config() };
    assert_eq!(thread_permissions_from_config(&danger).0, Some(SandboxMode::DangerFullAccess));
}

#[test]
fn snapshots_carry_the_resolved_configuration() {
    let config = resolved_config();
    let params = thread_defaults_snapshot(&config);
    assert_eq!(params.cwd, text("/work"));
    assert_eq!(params.model, text("model-a"));
    assert_eq!(params.model_provider, text("provider-a"));
    assert_eq!(params.runtime_workspace_roots, Some(vec!["/work".to_string()]));
    assert_eq!(params.personality, Some(Personality::Pragmatic));
    assert_eq!(params.ephemeral, Some(true));
    assert_eq!(thread_config_snapshot(&config).len(), 5);
}

#[test]
fn in_process_start_hands_the_app_server_everything() {
    let main = CodexMain { arg0_paths: helper_paths() };
    assert_eq!(main.arg0_paths().codex_self_exe, Some(PathBuf::from("/bin/codex")));
    let started = main
        .builder_with_config(resolved_config())
        .client_name("my-app".to_string())
        .client_version("9.9".to_string())
        .app_server_channel_capacity(0)
        .start(256);
    let (args, pending) = match started {
        Ok(started) => started,
        Err(error) => panic!("startup: {}", error.message()),
    };
    assert_eq!(args.session_source, "my-app");
    assert_eq!(args.client_name, "my-app");
    assert_eq!(args.client_version, "9.9");
    assert_eq!(args.channel_capacity, 1);
    assert_eq!(args.config_warnings.len(), 2);
    assert_eq!(args.config_warnings[1].summary, "second warning");
    assert!(args.experimental_api);
    assert!(args.enable_codex_api_key_env);
    assert!(!args.strict_config);
    assert_eq!(args.arg0_paths.codex_self_exe, Some(PathBuf::from("/bin/codex")));
    assert_eq!(pending.event_stream_capacity, 256);
    assert_eq!(pending.default_thread_params.model, text("model-a"));
}

#[test]
fn builders_without_helper_paths_are_refused() {
    assert!(matches!(Codex::builder().start(), Err(Error::Arg0DispatchRequired)));
    assert!(matches!(
        Codex::builder_with_config(resolved_config()).start(256),
        Err(Error::Arg0DispatchRequired)
    ));
}

#[test]
fn configuration_options_follow_the_builder() {
    let main = CodexMain { arg0_paths: helper_paths() };
    let started = main
        .builder()
        .cwd(PathBuf::from("/project"))
        .model("model-b".to_string())
        .reasoning_effort(ReasoningEffort::Low)
        .ephemeral(false)
        .start();
    let pending = match started {
        Ok(pending) => pending,
        Err(error) => panic!("startup: {}", error.message()),
    };
    let overrides = pending.options.overrides(&pending.arg0_paths, PathBuf::from("/current"));
    assert_eq!(overrides.cwd, Some(PathBuf::from("/project")));
    assert_eq!(overrides.model, text("model-b"));
    assert_eq!(overrides.codex_self_exe, Some(PathBuf::from("/bin/codex")));
    assert_eq!(overrides.ephemeral, Some(false));
    assert_eq!(pending.options.home(PathBuf::from("/found")), PathBuf::from("/found"));

    let config = pending.options.adjust(resolved_config());
    assert_eq!(config.model_reasoning_effort, Some(ReasoningEffort::Low));
    let (_, runtime) = pending.finish(config, 64);
    assert_eq!(runtime.event_stream_capacity, 64);
    assert_eq!(entry(&runtime.default_thread_params, "model_reasoning_effort").as_deref(), Some("Text(\"low\")"));
}

#[test]
fn the_working_directory_defaults_to_the_current_one() {
    let mut options = build_options();
    options.cwd = None;
    options.codex_home = None;
    let overrides = options.overrides(&helper_paths(), PathBuf::from("/current"));
    assert_eq!(overrides.cwd, Some(PathBuf::from("/current")));
    let named = build_options();
    assert_eq!(named.home(PathBuf::from("/found")), PathBuf::from("/home/codex"));
}

#[test]
fn remote_connections_carry_endpoint_and_defaults() {
    let (args, pending) = Codex::remote_unix_socket(PathBuf::from("/run/codex.sock"))
        .channel_capacity(0)
        .start(256);
    assert_eq!(args.channel_capacity, 1);
    assert_eq!(pending.event_stream_capacity, 1);
    assert_eq!(args.client_name, "codex-sdk-rs");
    let debug = Codex::remote_unix_socket(PathBuf::from("/run/secret.sock")).debug_text(128);
    assert!(debug.contains("auth_configured: false"));
    assert!(!debug.contains("secret.sock"));
}

#[test]
fn capacities_are_set_together() {
    let mut capacities = ChannelCapacities::default();
    assert_eq!(capacities.app_server, None);
    capacities.set_all(12);
    assert_eq!(capacities.app_server, Some(12));
    assert_eq!(capacities.event_stream, Some(12));
}

#[test]
fn debug_text_of_a_builder_is_exact() {
    let builder = Codex::builder()
        .cwd(PathBuf::from("/a\"b"))
        .model("m".to_string())
        .clear_service_tier()
        .reasoning_effort(ReasoningEffort::High)
        .default_approval_policy(AskForApproval::Never)
        .default_sandbox(SandboxMode::ReadOnly);
    assert_eq!(
        builder.debug_text(128),
        "CodexBuilder { runtime: RuntimeOptions { arg0_paths: None, client_info: ClientInfo { name: \"codex-sdk-rs\", version: \"0.1.0\" }, channels: ChannelCapacities { app_server: 128, event_stream: 128 } }, codex_home: None, cwd: Some(\"/a\\\"b\"), model: Some(\"m\"), model_provider: None, service_tier: Some(None), reasoning_effort: Some(High), reasoning_summary: None, personality: None, base_instructions: None, developer_instructions: None, thread_defaults: ThreadDefaultsOverrides { operations: [] }, approval_policy: Some(Never), sandbox: Some(ReadOnly), ephemeral: true }"
    );
}

#[test]
fn a_builder_writes_switched_off_options_as_none() {
    let debug = Codex::builder()
        .reasoning_effort(ReasoningEffort::Off)
        .reasoning_summary(ReasoningSummary::Off)
        .personality(Personality::Off)
        .debug_text(128);
    assert!(debug.contains("reasoning_effort: Some(None), reasoning_summary: Some(None), personality: Some(None)"));
}

#[test]
fn a_builder_writes_the_categories_of_a_granular_policy() {
    let policy = AskForApproval::Granular {
        sandbox_approval: false,
        rules: true,
        mcp_elicitations: false,
        request_permissions: true,
        skill_approval: false,
    };
    let debug = Codex::builder().default_approval_policy(policy).debug_text(128);
    assert!(debug.contains(&format!("approval_policy: Some({policy:?})")));
    assert!(debug.contains("Some(Granular { sandbox_approval: false, rules: true, "));
}

#[test]
fn an_effort_that_only_the_model_knows_is_kept() {
    let effort = ReasoningEffort::Other { name: "max".to_string() };
    let mut config = resolved_config();
    config.model_reasoning_effort = Some(effort);
    let overrides = thread_config_snapshot(&config);
    assert_eq!(overrides.get("model_reasoning_effort"), Some(&ConfigValue::Text("max".to_string())));
}

#[test]
fn builders_can_be_cloned() {
    let builder = Codex::builder()
        .model("m".to_string())
        .reasoning_effort(ReasoningEffort::Other { name: "max".to_string() })
        .default_thread_config_overrides(config_of(vec![("a", ConfigValue::Bool(true))]))
        .default_environment_access(EnvironmentAccess::Selected(vec![TurnEnvironmentParams {
            environment_id: "e".to_string(),
            cwd: "/e".to_string(),
        }]));
    assert_eq!(builder.clone().debug_text(128), builder.debug_text(128));
    assert_eq!(builder.clone().model("n".to_string()).model.as_deref(), Some("n"));
    assert_eq!(builder.model.as_deref(), Some("m"));

    let remote = Codex::remote_websocket("wss://a.test".to_string()).auth_token("t".to_string());
    assert_eq!(remote.clone().debug_text(128), remote.debug_text(128));

    let with_config = Codex::builder_with_config(resolved_config());
    assert_eq!(with_config.clone().config.cwd, with_config.config.cwd);
    assert_eq!(with_config.clone().config.workspace_roots, with_config.config.workspace_roots);
}

#[test]
fn environment_access_is_inherited_by_default() {
    assert_eq!(EnvironmentAccess::default(), EnvironmentAccess::Inherit);
    assert_eq!(EnvironmentAccess::Disabled.clone(), EnvironmentAccess::Disabled);
}

#[test]
fn a_program_start_can_be_cloned_and_written() {
    let main = CodexMain {
        arg0_paths: Arg0DispatchPaths {
            codex_self_exe: Some(PathBuf::from("/bin/codex")),
            codex_linux_sandbox_exe: None,
            main_execve_wrapper_exe: None,
        },
    };
    assert_eq!(
        format!("{:?}", main.clone()),
        "CodexMain { arg0_paths: Arg0DispatchPaths { codex_self_exe: Some(\"/bin/codex\"), codex_linux_sandbox_exe: None, main_execve_wrapper_exe: None } }"
    );
}
