//! Builders for the shared runtime.
use crate::client::{Codex, CodexModel};
use crate::config::Config;
use crate::debug::{
    bool_field, field, field_models, optional_of, optional_quoted, quote_optional, quote_path, quoted, quoted_path,
    struct_text, text_field, write_optional, write_struct, DebugField,
};
use crate::error::{Error, Result};
use crate::protocol::{
    config_model, copy_effort, copy_tier, AskForApproval, ConfigMap, ConfigValueModel, Personality, ReasoningEffort,
    ReasoningSummary, SandboxMode, ThreadSource, ThreadStartModel, ThreadStartParams,
};
use crate::runtime::live_queue::MAX_QUEUE_CAPACITY;
use crate::runtime::start::{
    at_least_one, is_warning_of, raise_to_one, sdk_in_process_client_start_args, InProcessClientStartArgs,
    RuntimeHandle, RuntimeModel,
};
use crate::text::{bool_text, copy_optional, decimal, decimal_text};
use crate::thread_defaults::{
    apply_all, defaults_snapshot, minimal_prompt_context, minimal_tools, pure_chat, thread_defaults_snapshot,
    with_patch, EnvironmentAccess, OperationModel, ThreadDefaultsOverrides, INCLUDE_APPS_INSTRUCTIONS_CONFIG_KEY,
    INCLUDE_COLLABORATION_MODE_INSTRUCTIONS_CONFIG_KEY, INCLUDE_ENVIRONMENT_CONTEXT_CONFIG_KEY,
    INCLUDE_PERMISSIONS_INSTRUCTIONS_CONFIG_KEY, INCLUDE_SKILL_INSTRUCTIONS_CONFIG_KEY,
};
use crate::types::{copy_optional_path, Arg0DispatchPaths, ClientInfo, SDK_NAME, SDK_VERSION};
use std::path::PathBuf;
use vstd::prelude::*;

verus! {

/// Independent capacities for the upstream connection and the SDK's streams.
/// What is not set follows the app-server client's own default.
#[derive(Clone, Copy, PartialEq, Eq, Structural, Debug)]
pub struct ChannelCapacities {
    pub app_server: Option<usize>,
    pub event_stream: Option<usize>,
}

impl Default for ChannelCapacities {
    fn default() -> (channels: Self)
        ensures
            channels == (ChannelCapacities { app_server: None, event_stream: None }),
    {
        ChannelCapacities { app_server: None, event_stream: None }
    }
}

impl ChannelCapacities {
    /// Sets both capacities, to at least one.
    pub fn set_all(&mut self, capacity: usize)
        ensures
            *final(self) == (ChannelCapacities {
                app_server: Some(at_least_one(capacity)),
                event_stream: Some(at_least_one(capacity)),
            }),
    {
        let capacity = raise_to_one(capacity);
        self.app_server = Some(capacity);
        self.event_stream = Some(capacity);
    }

    /// The debug text of the capacities. What is not set is `default_capacity`.
    pub open spec fn debug(self, default_capacity: usize) -> Seq<char> {
        struct_text(
            "ChannelCapacities"@,
            seq![
                field("app_server"@, capacity_debug(self.app_server, default_capacity)),
                field("event_stream"@, capacity_debug(self.event_stream, default_capacity)),
            ],
            false,
        )
    }

    /// The debug text of the capacities. What is not set is `default_capacity`.
    pub fn debug_text(&self, default_capacity: usize) -> (text: String)
        ensures
            text@ == self.debug(default_capacity),
    {
        let fields: Vec<DebugField> = vec![
            DebugField {
                name: "app_server",
                value: write_capacity(self.app_server, default_capacity),
            },
            DebugField {
                name: "event_stream",
                value: write_capacity(self.event_stream, default_capacity),
            },
        ];
        assert(field_models(fields@) =~= seq![
            field("app_server"@, capacity_debug(self.app_server, default_capacity)),
            field("event_stream"@, capacity_debug(self.event_stream, default_capacity)),
        ]);
        write_struct("ChannelCapacities", fields, false)
    }
}

/// The debug text of a capacity, which is `fallback` where it is not set.
pub open spec fn capacity_debug(capacity: Option<usize>, fallback: usize) -> Seq<char> {
    match capacity {
        Some(capacity) => decimal_text(capacity as nat),
        None => decimal_text(fallback as nat),
    }
}

fn write_capacity(capacity: Option<usize>, fallback: usize) -> (text: String)
    ensures
        text@ == capacity_debug(capacity, fallback),
{
    match capacity {
        Some(capacity) => decimal(capacity),
        None => decimal(fallback),
    }
}

/// `capacity`, or `fallback` where it is not set, and at least one.
pub open spec fn capacity_or(capacity: Option<usize>, fallback: usize) -> usize {
    match capacity {
        Some(capacity) => at_least_one(capacity),
        None => at_least_one(fallback),
    }
}

fn choose_capacity(capacity: Option<usize>, fallback: usize) -> (chosen: usize)
    ensures
        chosen == capacity_or(capacity, fallback),
{
    match capacity {
        Some(capacity) => raise_to_one(capacity),
        None => raise_to_one(fallback),
    }
}

/// The debug text of client metadata.
pub open spec fn client_debug(info: ClientInfo) -> Seq<char> {
    struct_text(
        "ClientInfo"@,
        seq![field("name"@, quoted(info.name@)), field("version"@, quoted(info.version@))],
        false,
    )
}

fn write_client(info: &ClientInfo) -> (text: String)
    ensures
        text@ == client_debug(*info),
{
    let fields: Vec<DebugField> = vec![
        text_field("name", info.name.as_str()),
        text_field("version", info.version.as_str()),
    ];
    assert(field_models(fields@) =~= seq![
        field("name"@, quoted(info.name@)),
        field("version"@, quoted(info.version@)),
    ]);
    write_struct("ClientInfo", fields, false)
}

/// The debug text of an optional path.
pub open spec fn path_debug(path: Option<PathBuf>) -> Seq<char> {
    optional_of(
        match path {
            Some(path) => Some(quoted_path(path)),
            None => None,
        },
    )
}

fn write_path(path: &Option<PathBuf>) -> (text: String)
    ensures
        text@ == path_debug(*path),
{
    match path {
        Some(path) => write_optional(Some(quote_path(path))),
        None => write_optional(None),
    }
}

/// The debug text of helper paths.
pub open spec fn arg0_debug(paths: Arg0DispatchPaths) -> Seq<char> {
    struct_text(
        "Arg0DispatchPaths"@,
        seq![
            field("codex_self_exe"@, path_debug(paths.codex_self_exe)),
            field("codex_linux_sandbox_exe"@, path_debug(paths.codex_linux_sandbox_exe)),
            field("main_execve_wrapper_exe"@, path_debug(paths.main_execve_wrapper_exe)),
        ],
        false,
    )
}

fn write_arg0(paths: &Arg0DispatchPaths) -> (text: String)
    ensures
        text@ == arg0_debug(*paths),
{
    let fields: Vec<DebugField> = vec![
        DebugField { name: "codex_self_exe", value: write_path(&paths.codex_self_exe) },
        DebugField { name: "codex_linux_sandbox_exe", value: write_path(&paths.codex_linux_sandbox_exe) },
        DebugField { name: "main_execve_wrapper_exe", value: write_path(&paths.main_execve_wrapper_exe) },
    ];
    assert(field_models(fields@) =~= seq![
        field("codex_self_exe"@, path_debug(paths.codex_self_exe)),
        field("codex_linux_sandbox_exe"@, path_debug(paths.codex_linux_sandbox_exe)),
        field("main_execve_wrapper_exe"@, path_debug(paths.main_execve_wrapper_exe)),
    ]);
    write_struct("Arg0DispatchPaths", fields, false)
}

/// The debug text of optional helper paths.
pub open spec fn optional_arg0(paths: Option<Arg0DispatchPaths>) -> Seq<char> {
    optional_of(
        match paths {
            Some(paths) => Some(arg0_debug(paths)),
            None => None,
        },
    )
}

fn write_optional_arg0(paths: &Option<Arg0DispatchPaths>) -> (text: String)
    ensures
        text@ == optional_arg0(*paths),
{
    match paths {
        Some(paths) => write_optional(Some(write_arg0(paths))),
        None => write_optional(None),
    }
}

/// Runtime startup options that are not part of Codex configuration.
pub struct RuntimeOptions {
    /// Helper executable paths.
    pub arg0_paths: Option<Arg0DispatchPaths>,
    /// Client metadata reported to Codex.
    pub client_info: ClientInfo,
    /// Capacities for the upstream connection and the SDK's streams.
    pub channels: ChannelCapacities,
}

impl Default for RuntimeOptions {
    fn default() -> (options: Self)
        ensures
            options.arg0_paths is None,
            options.client_info.name@ == SDK_NAME@,
            options.client_info.version@ == SDK_VERSION@,
            options.channels == (ChannelCapacities { app_server: None, event_stream: None }),
    {
        RuntimeOptions {
            arg0_paths: None,
            client_info: ClientInfo::default(),
            channels: ChannelCapacities::default(),
        }
    }
}

impl Clone for RuntimeOptions {
    fn clone(&self) -> (copy: Self)
        ensures
            copy == *self,
    {
        RuntimeOptions {
            arg0_paths: match &self.arg0_paths {
                Some(paths) => Some(paths.clone()),
                None => None,
            },
            client_info: self.client_info.clone(),
            channels: self.channels,
        }
    }
}

impl RuntimeOptions {
    /// Takes the helper paths, without which there is no in-process runtime.
    pub fn take_arg0_paths(&mut self) -> (paths: Result<Arg0DispatchPaths>)
        ensures
            *final(self) == (RuntimeOptions { arg0_paths: None, ..*old(self) }),
            match old(self).arg0_paths {
                Some(arg0_paths) => paths == Ok::<Arg0DispatchPaths, Error>(arg0_paths),
                None => paths == Err::<Arg0DispatchPaths, Error>(Error::Arg0DispatchRequired),
            },
    {
        match self.arg0_paths.take() {
            Some(arg0_paths) => Ok(arg0_paths),
            None => Err(Error::Arg0DispatchRequired),
        }
    }

    /// The debug text of the options.
    pub open spec fn debug(self, default_capacity: usize) -> Seq<char> {
        struct_text(
            "RuntimeOptions"@,
            seq![
                field("arg0_paths"@, optional_arg0(self.arg0_paths)),
                field("client_info"@, client_debug(self.client_info)),
                field("channels"@, self.channels.debug(default_capacity)),
            ],
            false,
        )
    }

    /// The debug text of the options.
    pub fn debug_text(&self, default_capacity: usize) -> (text: String)
        ensures
            text@ == self.debug(default_capacity),
    {
        let fields: Vec<DebugField> = vec![
            DebugField { name: "arg0_paths", value: write_optional_arg0(&self.arg0_paths) },
            DebugField { name: "client_info", value: write_client(&self.client_info) },
            DebugField { name: "channels", value: self.channels.debug_text(default_capacity) },
        ];
        assert(field_models(fields@) =~= seq![
            field("arg0_paths"@, optional_arg0(self.arg0_paths)),
            field("client_info"@, client_debug(self.client_info)),
            field("channels"@, self.channels.debug(default_capacity)),
        ]);
        write_struct("RuntimeOptions", fields, false)
    }
}

/// A runtime that is being connected: what becomes its state.
pub struct PendingRuntime {
    pub event_stream_capacity: usize,
    pub default_thread_params: ThreadStartParams,
}

impl PendingRuntime {
    /// The state of the runtime once it is connected.
    pub fn connected(self) -> (codex: Codex)
        requires
            self.event_stream_capacity <= MAX_QUEUE_CAPACITY,
        ensures
            codex.wf(),
            codex@ == CodexModel::started(
                RuntimeModel::connected(self.event_stream_capacity),
                self.default_thread_params@,
            ),
    {
        Codex::from_runtime(
            RuntimeHandle::start_with_client(self.event_stream_capacity),
            self.default_thread_params,
        )
    }
}

/// What an in-process runtime is started with.
pub open spec fn is_start_of(
    started: (InProcessClientStartArgs, PendingRuntime),
    config: Config,
    runtime: RuntimeOptions,
    arg0_paths: Arg0DispatchPaths,
    thread_defaults: Seq<OperationModel>,
    default_capacity: usize,
) -> bool {
    let args = started.0;
    &&& args.arg0_paths == arg0_paths
    &&& args.config == config
    &&& args.cli_overrides@.len() == 0
    &&& !args.strict_config
    &&& args.config_warnings@.len() == config.startup_warnings@.len()
    &&& forall|i: int|
        0 <= i < args.config_warnings@.len() ==> is_warning_of(
            #[trigger] args.config_warnings@[i],
            config.startup_warnings@[i],
        )
    &&& args.session_source == runtime.client_info.name
    &&& args.enable_codex_api_key_env
    &&& args.client_name == runtime.client_info.name
    &&& args.client_version == runtime.client_info.version
    &&& args.experimental_api
    &&& !args.mcp_server_openai_form_elicitation
    &&& args.opt_out_notification_methods@.len() == 0
    &&& args.channel_capacity == capacity_or(runtime.channels.app_server, default_capacity)
    &&& started.1.event_stream_capacity == capacity_or(runtime.channels.event_stream, default_capacity)
    &&& started.1.default_thread_params@ == apply_all(thread_defaults, defaults_snapshot(config))
}

/// Starts an in-process runtime from a resolved configuration.
/// `default_capacity` is the app-server client's own channel capacity.
pub fn start_with_config(
    config: Config,
    runtime: RuntimeOptions,
    thread_defaults: ThreadDefaultsOverrides,
    default_capacity: usize,
) -> (started: Result<(InProcessClientStartArgs, PendingRuntime)>)
    ensures
        match runtime.arg0_paths {
            Some(arg0_paths) => started matches Ok(start) && is_start_of(
                start,
                config,
                runtime,
                arg0_paths,
                thread_defaults@,
                default_capacity,
            ),
            None => started == Err::<(InProcessClientStartArgs, PendingRuntime), Error>(Error::Arg0DispatchRequired),
        },
{
    let mut runtime = runtime;
    match runtime.take_arg0_paths() {
        Ok(arg0_paths) => Ok(
            start_with_config_and_paths(config, runtime, arg0_paths, thread_defaults, default_capacity),
        ),
        Err(error) => Err(error),
    }
}

/// Starts an in-process runtime from a resolved configuration.
pub fn start_with_config_and_paths(
    config: Config,
    runtime: RuntimeOptions,
    arg0_paths: Arg0DispatchPaths,
    thread_defaults: ThreadDefaultsOverrides,
    default_capacity: usize,
) -> (started: (InProcessClientStartArgs, PendingRuntime))
    ensures
        is_start_of(started, config, runtime, arg0_paths, thread_defaults@, default_capacity),
{
    let default_thread_params = thread_defaults.apply(thread_defaults_snapshot(&config));
    let args = sdk_in_process_client_start_args(
        arg0_paths,
        config,
        runtime.client_info,
        choose_capacity(runtime.channels.app_server, default_capacity),
    );
    let event_stream_capacity = choose_capacity(runtime.channels.event_stream, default_capacity);
    (args, PendingRuntime { event_stream_capacity, default_thread_params })
}

impl Codex {
    /// Starts building a Codex runtime.
    pub fn builder() -> (builder: CodexBuilder)
        ensures
            builder.is_default(),
    {
        CodexBuilder::default()
    }

    /// Starts building a Codex runtime from a fully resolved native
    /// configuration.
    pub fn builder_with_config(config: Config) -> (builder: CodexWithConfigBuilder)
        ensures
            builder.config == config,
            builder.runtime.arg0_paths is None,
            builder.runtime.client_info.name@ == SDK_NAME@,
            builder.runtime.client_info.version@ == SDK_VERSION@,
            builder.runtime.channels == (ChannelCapacities { app_server: None, event_stream: None }),
            builder.thread_defaults@ == Seq::<OperationModel>::empty(),
    {
        CodexWithConfigBuilder::new(config)
    }

    /// Starts building a client connected to a remote WebSocket app-server.
    pub fn remote_websocket(websocket_url: String) -> (builder: CodexRemoteBuilder)
        ensures
            builder.endpoint == (RemoteEndpointConfig::WebSocket { websocket_url, auth_token: None }),
            builder.is_plain(),
    {
        CodexRemoteBuilder::websocket(websocket_url)
    }

    /// Starts building a client connected to a remote Unix-socket app-server.
    pub fn remote_unix_socket(socket_path: PathBuf) -> (builder: CodexRemoteBuilder)
        ensures
            builder.endpoint == (RemoteEndpointConfig::UnixSocket { socket_path }),
            builder.is_plain(),
    {
        CodexRemoteBuilder::unix_socket(socket_path)
    }
}

/// Builder for the shared runtime and its default thread options. What is set
/// here becomes the default of new threads.
pub struct CodexBuilder {
    pub runtime: RuntimeOptions,
    /// Codex home directory for configuration, auth, logs, and state.
    pub codex_home: Option<PathBuf>,
    /// Default working directory for the runtime and new threads.
    pub cwd: Option<PathBuf>,
    pub model: Option<String>,
    pub model_provider: Option<String>,
    pub service_tier: Option<Option<String>>,
    pub reasoning_effort: Option<ReasoningEffort>,
    pub reasoning_summary: Option<ReasoningSummary>,
    pub personality: Option<Personality>,
    pub base_instructions: Option<String>,
    pub developer_instructions: Option<String>,
    /// Ordered native changes of every new thread's defaults.
    pub thread_defaults: ThreadDefaultsOverrides,
    pub approval_policy: Option<AskForApproval>,
    pub sandbox: Option<SandboxMode>,
    /// Whether new threads are ephemeral by default.
    pub ephemeral: bool,
}

impl Default for CodexBuilder {
    fn default() -> (builder: Self)
        ensures
            builder.is_default(),
    {
        CodexBuilder {
            runtime: RuntimeOptions::default(),
            codex_home: None,
            cwd: None,
            model: None,
            model_provider: None,
            service_tier: None,
            reasoning_effort: None,
            reasoning_summary: None,
            personality: None,
            base_instructions: None,
            developer_instructions: None,
            thread_defaults: ThreadDefaultsOverrides::default(),
            approval_policy: None,
            sandbox: None,
            ephemeral: true,
        }
    }
}

impl Clone for CodexBuilder {
    fn clone(&self) -> (copy: Self)
        ensures
            copy == (CodexBuilder { thread_defaults: copy.thread_defaults, ..*self }),
            copy.thread_defaults@ == self.thread_defaults@,
            copy.thread_defaults.debug() == self.thread_defaults.debug(),
    {
        CodexBuilder {
            runtime: self.runtime.clone(),
            codex_home: copy_optional_path(&self.codex_home),
            cwd: copy_optional_path(&self.cwd),
            model: copy_optional(&self.model),
            model_provider: copy_optional(&self.model_provider),
            service_tier: copy_tier(&self.service_tier),
            reasoning_effort: copy_effort(&self.reasoning_effort),
            reasoning_summary: self.reasoning_summary,
            personality: self.personality,
            base_instructions: copy_optional(&self.base_instructions),
            developer_instructions: copy_optional(&self.developer_instructions),
            thread_defaults: self.thread_defaults.clone(),
            approval_policy: self.approval_policy,
            sandbox: self.sandbox,
            ephemeral: self.ephemeral,
        }
    }
}

impl CodexBuilder {
    /// Nothing was set.
    pub open spec fn is_default(self) -> bool {
        &&& self.runtime.arg0_paths is None
        &&& self.runtime.client_info.name@ == SDK_NAME@
        &&& self.runtime.client_info.version@ == SDK_VERSION@
        &&& self.runtime.channels == (ChannelCapacities { app_server: None, event_stream: None })
        &&& self.codex_home is None
        &&& self.cwd is None
        &&& self.model is None
        &&& self.model_provider is None
        &&& self.service_tier is None
        &&& self.reasoning_effort is None
        &&& self.reasoning_summary is None
        &&& self.personality is None
        &&& self.base_instructions is None
        &&& self.developer_instructions is None
        &&& self.thread_defaults@ == Seq::<OperationModel>::empty()
        &&& self.approval_policy is None
        &&& self.sandbox is None
        &&& self.ephemeral
    }

    /// Provides helper executable paths.
    pub fn arg0_paths(self, arg0_paths: Arg0DispatchPaths) -> (builder: Self)
        ensures
            builder == (CodexBuilder {
                runtime: RuntimeOptions { arg0_paths: Some(arg0_paths), ..self.runtime },
                ..self
            }),
    {
        CodexBuilder { runtime: RuntimeOptions { arg0_paths: Some(arg0_paths), ..self.runtime }, ..self }
    }

    /// Sets the client name reported to Codex.
    pub fn client_name(self, name: String) -> (builder: Self)
        ensures
            builder == (CodexBuilder {
                runtime: RuntimeOptions {
                    client_info: ClientInfo { name, ..self.runtime.client_info },
                    ..self.runtime
                },
                ..self
            }),
    {
        CodexBuilder {
            runtime: RuntimeOptions { client_info: ClientInfo { name, ..self.runtime.client_info }, ..self.runtime },
            ..self
        }
    }

    /// Sets the client version reported to Codex.
    pub fn client_version(self, version: String) -> (builder: Self)
        ensures
            builder == (CodexBuilder {
                runtime: RuntimeOptions {
                    client_info: ClientInfo { version, ..self.runtime.client_info },
                    ..self.runtime
                },
                ..self
            }),
    {
        CodexBuilder {
            runtime: RuntimeOptions {
                client_info: ClientInfo { version, ..self.runtime.client_info },
                ..self.runtime
            },
            ..self
        }
    }

    /// Sets both the app-server and the event-stream queue capacities, to at
    /// least one. Transcript, completion, and server-request events wait when a
    /// queue is full; other events may be replaced by a lag marker.
    pub fn channel_capacity(self, capacity: usize) -> (builder: Self)
        ensures
            builder == (CodexBuilder {
                runtime: RuntimeOptions {
                    channels: ChannelCapacities {
                        app_server: Some(at_least_one(capacity)),
                        event_stream: Some(at_least_one(capacity)),
                    },
                    ..self.runtime
                },
                ..self
            }),
    {
        let mut channels = self.runtime.channels;
        channels.set_all(capacity);
        CodexBuilder { runtime: RuntimeOptions { channels, ..self.runtime }, ..self }
    }

    /// Sets the upstream client's queue capacity, to at least one.
    pub fn app_server_channel_capacity(self, capacity: usize) -> (builder: Self)
        ensures
            builder == (CodexBuilder {
                runtime: RuntimeOptions {
                    channels: ChannelCapacities { app_server: Some(at_least_one(capacity)), ..self.runtime.channels },
                    ..self.runtime
                },
                ..self
            }),
    {
        let mut channels = self.runtime.channels;
        channels.app_server = Some(raise_to_one(capacity));
        CodexBuilder { runtime: RuntimeOptions { channels, ..self.runtime }, ..self }
    }

    /// Sets the capacity of each event stream's queue, to at least one.
    pub fn event_stream_capacity(self, capacity: usize) -> (builder: Self)
        ensures
            builder == (CodexBuilder {
                runtime: RuntimeOptions {
                    channels: ChannelCapacities {
                        event_stream: Some(at_least_one(capacity)),
                        ..self.runtime.channels
                    },
                    ..self.runtime
                },
                ..self
            }),
    {
        let mut channels = self.runtime.channels;
        channels.event_stream = Some(raise_to_one(capacity));
        CodexBuilder { runtime: RuntimeOptions { channels, ..self.runtime }, ..self }
    }

    /// Sets the Codex home directory used for configuration, auth, logs, and state.
    pub fn codex_home(self, codex_home: PathBuf) -> (builder: Self)
        ensures
            builder == (CodexBuilder { codex_home: Some(codex_home), ..self }),
    {
        CodexBuilder { codex_home: Some(codex_home), ..self }
    }

    /// Sets the default working directory for new threads.
    pub fn cwd(self, cwd: PathBuf) -> (builder: Self)
        ensures
            builder == (CodexBuilder { cwd: Some(cwd), ..self }),
    {
        CodexBuilder { cwd: Some(cwd), ..self }
    }

    /// Sets the default model for new threads.
    pub fn model(self, model: String) -> (builder: Self)
        ensures
            builder == (CodexBuilder { model: Some(model), ..self }),
    {
        CodexBuilder { model: Some(model), ..self }
    }

    /// Sets the default model provider for new threads.
    pub fn model_provider(self, model_provider: String) -> (builder: Self)
        ensures
            builder == (CodexBuilder { model_provider: Some(model_provider), ..self }),
    {
        CodexBuilder { model_provider: Some(model_provider), ..self }
    }

    /// Sets the default service tier for new threads.
    pub fn service_tier(self, service_tier: String) -> (builder: Self)
        ensures
            builder == (CodexBuilder { service_tier: Some(Some(service_tier)), ..self }),
    {
        CodexBuilder { service_tier: Some(Some(service_tier)), ..self }
    }

    /// Clears any configured default service tier for new threads.
    pub fn clear_service_tier(self) -> (builder: Self)
        ensures
            builder == (CodexBuilder { service_tier: Some(None), ..self }),
    {
        CodexBuilder { service_tier: Some(None), ..self }
    }

    /// Sets the default reasoning effort for model requests.
    pub fn reasoning_effort(self, effort: ReasoningEffort) -> (builder: Self)
        ensures
            builder == (CodexBuilder { reasoning_effort: Some(effort), ..self }),
    {
        CodexBuilder { reasoning_effort: Some(effort), ..self }
    }

    /// Sets the default reasoning summary behavior for model requests.
    pub fn reasoning_summary(self, summary: ReasoningSummary) -> (builder: Self)
        ensures
            builder == (CodexBuilder { reasoning_summary: Some(summary), ..self }),
    {
        CodexBuilder { reasoning_summary: Some(summary), ..self }
    }

    /// Sets the default model personality for new threads.
    pub fn personality(self, personality: Personality) -> (builder: Self)
        ensures
            builder == (CodexBuilder { personality: Some(personality), ..self }),
    {
        CodexBuilder { personality: Some(personality), ..self }
    }

    /// Replaces Codex's native base instructions for new threads. An empty text
    /// disables them.
    pub fn base_instructions(self, instructions: String) -> (builder: Self)
        ensures
            builder == (CodexBuilder { base_instructions: Some(instructions), ..self }),
    {
        CodexBuilder { base_instructions: Some(instructions), ..self }
    }

    /// Adds developer instructions to new threads.
    pub fn developer_instructions(self, instructions: String) -> (builder: Self)
        ensures
            builder == (CodexBuilder { developer_instructions: Some(instructions), ..self }),
    {
        CodexBuilder { developer_instructions: Some(instructions), ..self }
    }

    /// Disables optional model-visible context blocks for small-token sessions.
    pub fn minimal_prompt_context(self) -> (builder: Self)
        ensures
            builder == (CodexBuilder { thread_defaults: builder.thread_defaults, ..self }),
            builder.thread_defaults@ == self.thread_defaults@.push(
                OperationModel::MergeConfig(minimal_prompt_context()),
            ),
    {
        let mut thread_defaults = self.thread_defaults;
        thread_defaults.minimize_prompt_context();
        CodexBuilder { thread_defaults, ..self }
    }

    /// Disables the configurable tool families used by a normal Codex agent. Other
    /// tools can remain.
    pub fn minimal_tools(self) -> (builder: Self)
        ensures
            builder == (CodexBuilder { thread_defaults: builder.thread_defaults, ..self }),
            builder.thread_defaults@ == self.thread_defaults@.push(OperationModel::MergeConfig(minimal_tools())),
    {
        let mut thread_defaults = self.thread_defaults;
        thread_defaults.minimize_tools();
        CodexBuilder { thread_defaults, ..self }
    }

    /// Configures new threads for a small-token, chat-oriented session.
    pub fn pure_chat_profile(self) -> (builder: Self)
        ensures
            builder == (CodexBuilder { thread_defaults: builder.thread_defaults, ..self }),
            builder.thread_defaults@ == self.thread_defaults@.push(OperationModel::MergeConfig(pure_chat())).push(
                OperationModel::SetEnvironment(Some(Seq::empty())),
            ),
    {
        let mut thread_defaults = self.thread_defaults;
        thread_defaults.configure_pure_chat();
        CodexBuilder { thread_defaults, ..self }
    }

    /// Selects the default execution-environment behavior for new threads.
    pub fn default_environment_access(self, access: EnvironmentAccess) -> (builder: Self)
        ensures
            builder == (CodexBuilder { thread_defaults: builder.thread_defaults, ..self }),
            builder.thread_defaults@ == self.thread_defaults@.push(OperationModel::SetEnvironment(access.sent())),
    {
        let mut thread_defaults = self.thread_defaults;
        thread_defaults.set_environment_access(access);
        CodexBuilder { thread_defaults, ..self }
    }

    /// Merges native configuration overrides into every new thread's defaults. Keys
    /// are dotted paths.
    pub fn default_thread_config_overrides(self, overrides: ConfigMap) -> (builder: Self)
        ensures
            builder == (CodexBuilder { thread_defaults: builder.thread_defaults, ..self }),
            builder.thread_defaults@ == with_patch(self.thread_defaults@, config_model(overrides)),
    {
        let mut thread_defaults = self.thread_defaults;
        thread_defaults.merge_config(overrides);
        CodexBuilder { thread_defaults, ..self }
    }

    /// Chooses whether to put permission/sandbox guidance in model context.
    pub fn include_permissions_instructions(self, enabled: bool) -> (builder: Self)
        ensures
            builder == (CodexBuilder { thread_defaults: builder.thread_defaults, ..self }),
            builder.thread_defaults@ == self.thread_defaults@.push(
                OperationModel::MergeConfig(
                    Map::empty().insert(INCLUDE_PERMISSIONS_INSTRUCTIONS_CONFIG_KEY@, ConfigValueModel::Bool(enabled)),
                ),
            ),
    {
        let mut thread_defaults = self.thread_defaults;
        thread_defaults.set_prompt_context(INCLUDE_PERMISSIONS_INSTRUCTIONS_CONFIG_KEY, enabled);
        CodexBuilder { thread_defaults, ..self }
    }

    /// Chooses whether to put app/connector guidance in model context.
    pub fn include_apps_instructions(self, enabled: bool) -> (builder: Self)
        ensures
            builder == (CodexBuilder { thread_defaults: builder.thread_defaults, ..self }),
            builder.thread_defaults@ == self.thread_defaults@.push(
                OperationModel::MergeConfig(
                    Map::empty().insert(INCLUDE_APPS_INSTRUCTIONS_CONFIG_KEY@, ConfigValueModel::Bool(enabled)),
                ),
            ),
    {
        let mut thread_defaults = self.thread_defaults;
        thread_defaults.set_prompt_context(INCLUDE_APPS_INSTRUCTIONS_CONFIG_KEY, enabled);
        CodexBuilder { thread_defaults, ..self }
    }

    /// Chooses whether to put collaboration-mode guidance in model context.
    pub fn include_collaboration_mode_instructions(self, enabled: bool) -> (builder: Self)
        ensures
            builder == (CodexBuilder { thread_defaults: builder.thread_defaults, ..self }),
            builder.thread_defaults@ == self.thread_defaults@.push(
                OperationModel::MergeConfig(
                    Map::empty().insert(INCLUDE_COLLABORATION_MODE_INSTRUCTIONS_CONFIG_KEY@, ConfigValueModel::Bool(enabled)),
                ),
            ),
    {
        let mut thread_defaults = self.thread_defaults;
        thread_defaults.set_prompt_context(INCLUDE_COLLABORATION_MODE_INSTRUCTIONS_CONFIG_KEY, enabled);
        CodexBuilder { thread_defaults, ..self }
    }

    /// Chooses whether to put environment metadata in model context.
    pub fn include_environment_context(self, enabled: bool) -> (builder: Self)
        ensures
            builder == (CodexBuilder { thread_defaults: builder.thread_defaults, ..self }),
            builder.thread_defaults@ == self.thread_defaults@.push(
                OperationModel::MergeConfig(
                    Map::empty().insert(INCLUDE_ENVIRONMENT_CONTEXT_CONFIG_KEY@, ConfigValueModel::Bool(enabled)),
                ),
            ),
    {
        let mut thread_defaults = self.thread_defaults;
        thread_defaults.set_prompt_context(INCLUDE_ENVIRONMENT_CONTEXT_CONFIG_KEY, enabled);
        CodexBuilder { thread_defaults, ..self }
    }

    /// Chooses whether to put available skill instructions in model context.
    pub fn include_skill_instructions(self, enabled: bool) -> (builder: Self)
        ensures
            builder == (CodexBuilder { thread_defaults: builder.thread_defaults, ..self }),
            builder.thread_defaults@ == self.thread_defaults@.push(
                OperationModel::MergeConfig(
                    Map::empty().insert(INCLUDE_SKILL_INSTRUCTIONS_CONFIG_KEY@, ConfigValueModel::Bool(enabled)),
                ),
            ),
    {
        let mut thread_defaults = self.thread_defaults;
        thread_defaults.set_prompt_context(INCLUDE_SKILL_INSTRUCTIONS_CONFIG_KEY, enabled);
        CodexBuilder { thread_defaults, ..self }
    }

    /// Overrides the approval policy for new threads and turns.
    pub fn default_approval_policy(self, approval_policy: AskForApproval) -> (builder: Self)
        ensures
            builder == (CodexBuilder { approval_policy: Some(approval_policy), ..self }),
    {
        CodexBuilder { approval_policy: Some(approval_policy), ..self }
    }

    /// Overrides the sandbox for new threads.
    pub fn default_sandbox(self, sandbox: SandboxMode) -> (builder: Self)
        ensures
            builder == (CodexBuilder { sandbox: Some(sandbox), ..self }),
    {
        CodexBuilder { sandbox: Some(sandbox), ..self }
    }

    /// Sets whether new threads are ephemeral by default.
    pub fn ephemeral(self, ephemeral: bool) -> (builder: Self)
        ensures
            builder == (CodexBuilder { ephemeral: ephemeral, ..self }),
    {
        CodexBuilder { ephemeral: ephemeral, ..self }
    }

    /// Starts the in-process runtime: first its configuration is built.
    pub fn start(self) -> (started: Result<PendingConfig>)
        ensures
            match self.runtime.arg0_paths {
                Some(arg0_paths) => {
                    &&& started matches Ok(pending)
                    &&& pending.arg0_paths == arg0_paths
                    &&& pending.runtime == (RuntimeOptions { arg0_paths: None, ..self.runtime })
                    &&& pending.thread_defaults == self.thread_defaults
                    &&& pending.options == (ConfigBuildOptions {
                        codex_home: self.codex_home,
                        cwd: self.cwd,
                        model: self.model,
                        model_provider: self.model_provider,
                        service_tier: self.service_tier,
                        reasoning_effort: self.reasoning_effort,
                        reasoning_summary: self.reasoning_summary,
                        personality: self.personality,
                        base_instructions: self.base_instructions,
                        developer_instructions: self.developer_instructions,
                        approval_policy: self.approval_policy,
                        sandbox: self.sandbox,
                        ephemeral: self.ephemeral,
                    })
                },
                None => started == Err::<PendingConfig, Error>(Error::Arg0DispatchRequired),
            },
    {
        let mut runtime = self.runtime;
        match runtime.take_arg0_paths() {
            Ok(arg0_paths) => Ok(
                PendingConfig {
                    arg0_paths,
                    options: ConfigBuildOptions {
                        codex_home: self.codex_home,
                        cwd: self.cwd,
                        model: self.model,
                        model_provider: self.model_provider,
                        service_tier: self.service_tier,
                        reasoning_effort: self.reasoning_effort,
                        reasoning_summary: self.reasoning_summary,
                        personality: self.personality,
                        base_instructions: self.base_instructions,
                        developer_instructions: self.developer_instructions,
                        approval_policy: self.approval_policy,
                        sandbox: self.sandbox,
                        ephemeral: self.ephemeral,
                    },
                    runtime,
                    thread_defaults: self.thread_defaults,
                },
            ),
            Err(error) => Err(error),
        }
    }

    /// The fields of the debug text.
    pub open spec fn debug_fields(self, default_capacity: usize) -> Seq<crate::debug::FieldModel> {
        seq![
            field("runtime"@, self.runtime.debug(default_capacity)),
            field("codex_home"@, path_debug(self.codex_home)),
            field("cwd"@, path_debug(self.cwd)),
            field("model"@, optional_quoted(self.model)),
            field("model_provider"@, optional_quoted(self.model_provider)),
            field("service_tier"@, tier_debug(self.service_tier)),
            field(
                "reasoning_effort"@,
                optional_of(
                    match self.reasoning_effort {
                        Some(effort) => Some(effort.debug()),
                        None => None,
                    },
                ),
            ),
            field(
                "reasoning_summary"@,
                optional_of(
                    match self.reasoning_summary {
                        Some(summary) => Some(summary.variant()),
                        None => None,
                    },
                ),
            ),
            field(
                "personality"@,
                optional_of(
                    match self.personality {
                        Some(personality) => Some(personality.variant()),
                        None => None,
                    },
                ),
            ),
            field("base_instructions"@, optional_quoted(self.base_instructions)),
            field("developer_instructions"@, optional_quoted(self.developer_instructions)),
            field("thread_defaults"@, self.thread_defaults.debug()),
            field(
                "approval_policy"@,
                optional_of(
                    match self.approval_policy {
                        Some(policy) => Some(policy.debug()),
                        None => None,
                    },
                ),
            ),
            field(
                "sandbox"@,
                optional_of(
                    match self.sandbox {
                        Some(sandbox) => Some(sandbox.variant()),
                        None => None,
                    },
                ),
            ),
            field("ephemeral"@, bool_text(self.ephemeral)),
        ]
    }

    /// The debug text of the builder. Of the thread defaults it says how much
    /// was changed, not what.
    pub fn debug_text(&self, default_capacity: usize) -> (text: String)
        ensures
            text@ == struct_text("CodexBuilder"@, self.debug_fields(default_capacity), false),
    {
        let effort = match &self.reasoning_effort {
            Some(effort) => write_optional(Some(effort.debug_text())),
            None => write_optional(None),
        };
        let summary = match &self.reasoning_summary {
            Some(summary) => write_optional(Some(summary.variant_name().to_owned())),
            None => write_optional(None),
        };
        let personality = match &self.personality {
            Some(personality) => write_optional(Some(personality.variant_name().to_owned())),
            None => write_optional(None),
        };
        let approval = match &self.approval_policy {
            Some(policy) => write_optional(Some(policy.debug_text())),
            None => write_optional(None),
        };
        let sandbox = match &self.sandbox {
            Some(sandbox) => write_optional(Some(sandbox.variant_name().to_owned())),
            None => write_optional(None),
        };
        let fields: Vec<DebugField> = vec![
            DebugField { name: "runtime", value: self.runtime.debug_text(default_capacity) },
            DebugField { name: "codex_home", value: write_path(&self.codex_home) },
            DebugField { name: "cwd", value: write_path(&self.cwd) },
            DebugField { name: "model", value: quote_optional(&self.model) },
            DebugField { name: "model_provider", value: quote_optional(&self.model_provider) },
            DebugField { name: "service_tier", value: write_tier(&self.service_tier) },
            DebugField { name: "reasoning_effort", value: effort },
            DebugField { name: "reasoning_summary", value: summary },
            DebugField { name: "personality", value: personality },
            DebugField { name: "base_instructions", value: quote_optional(&self.base_instructions) },
            DebugField { name: "developer_instructions", value: quote_optional(&self.developer_instructions) },
            DebugField { name: "thread_defaults", value: self.thread_defaults.debug_text() },
            DebugField { name: "approval_policy", value: approval },
            DebugField { name: "sandbox", value: sandbox },
            bool_field("ephemeral", self.ephemeral),
        ];
        assert(field_models(fields@) =~= self.debug_fields(default_capacity));
        write_struct("CodexBuilder", fields, false)
    }
}

/// The debug text of a service tier override.
pub open spec fn tier_debug(tier: Option<Option<String>>) -> Seq<char> {
    optional_of(
        match tier {
            Some(tier) => Some(optional_quoted(tier)),
            None => None,
        },
    )
}

fn write_tier(tier: &Option<Option<String>>) -> (text: String)
    ensures
        text@ == tier_debug(*tier),
{
    match tier {
        Some(tier) => write_optional(Some(quote_optional(tier))),
        None => write_optional(None),
    }
}

/// What a configuration is built from. Without a home directory Codex looks
/// for one, and without a working directory the process's own is used.
pub struct ConfigBuildOptions {
    pub codex_home: Option<PathBuf>,
    pub cwd: Option<PathBuf>,
    pub model: Option<String>,
    pub model_provider: Option<String>,
    pub service_tier: Option<Option<String>>,
    pub reasoning_effort: Option<ReasoningEffort>,
    pub reasoning_summary: Option<ReasoningSummary>,
    pub personality: Option<Personality>,
    pub base_instructions: Option<String>,
    pub developer_instructions: Option<String>,
    pub approval_policy: Option<AskForApproval>,
    pub sandbox: Option<SandboxMode>,
    pub ephemeral: bool,
}

/// Overrides that Codex lays over its configuration files.
pub struct ConfigOverrides {
    pub cwd: Option<PathBuf>,
    pub model: Option<String>,
    pub model_provider: Option<String>,
    pub service_tier: Option<Option<String>>,
    pub base_instructions: Option<String>,
    pub developer_instructions: Option<String>,
    pub personality: Option<Personality>,
    pub approval_policy: Option<AskForApproval>,
    pub sandbox_mode: Option<SandboxMode>,
    pub codex_self_exe: Option<PathBuf>,
    pub codex_linux_sandbox_exe: Option<PathBuf>,
    pub main_execve_wrapper_exe: Option<PathBuf>,
    pub ephemeral: Option<bool>,
}

impl ConfigBuildOptions {
    /// The home directory, where `found` is the one that Codex has found.
    pub fn home(&self, found: PathBuf) -> (home: PathBuf)
        ensures
            home == (match self.codex_home {
                Some(codex_home) => codex_home,
                None => found,
            }),
    {
        match &self.codex_home {
            Some(codex_home) => codex_home.clone(),
            None => found,
        }
    }

    /// The overrides to build a configuration with, where `current` is the
    /// process's working directory.
    pub fn overrides(&self, arg0_paths: &Arg0DispatchPaths, current: PathBuf) -> (overrides: ConfigOverrides)
        ensures
            overrides == (ConfigOverrides {
                cwd: Some(
                    match self.cwd {
                        Some(cwd) => cwd,
                        None => current,
                    },
                ),
                model: self.model,
                model_provider: self.model_provider,
                service_tier: self.service_tier,
                base_instructions: self.base_instructions,
                developer_instructions: self.developer_instructions,
                personality: self.personality,
                approval_policy: self.approval_policy,
                sandbox_mode: self.sandbox,
                codex_self_exe: arg0_paths.codex_self_exe,
                codex_linux_sandbox_exe: arg0_paths.codex_linux_sandbox_exe,
                main_execve_wrapper_exe: arg0_paths.main_execve_wrapper_exe,
                ephemeral: Some(self.ephemeral),
            }),
    {
        let cwd = match &self.cwd {
            Some(cwd) => cwd.clone(),
            None => current,
        };
        ConfigOverrides {
            cwd: Some(cwd),
            model: copy_optional(&self.model),
            model_provider: copy_optional(&self.model_provider),
            service_tier: copy_tier(&self.service_tier),
            base_instructions: copy_optional(&self.base_instructions),
            developer_instructions: copy_optional(&self.developer_instructions),
            personality: self.personality,
            approval_policy: self.approval_policy,
            sandbox_mode: self.sandbox,
            codex_self_exe: copy_optional_path(&arg0_paths.codex_self_exe),
            codex_linux_sandbox_exe: copy_optional_path(&arg0_paths.codex_linux_sandbox_exe),
            main_execve_wrapper_exe: copy_optional_path(&arg0_paths.main_execve_wrapper_exe),
            ephemeral: Some(self.ephemeral),
        }
    }

    /// The configuration that Codex has built, with the reasoning that was
    /// asked for.
    pub open spec fn adjusted(self, config: Config) -> Config {
        Config {
            model_reasoning_effort: if self.reasoning_effort is Some {
                self.reasoning_effort
            } else {
                config.model_reasoning_effort
            },
            model_reasoning_summary: if self.reasoning_summary is Some {
                self.reasoning_summary
            } else {
                config.model_reasoning_summary
            },
            ..config
        }
    }

    /// The configuration that Codex has built, with the reasoning that was
    /// asked for.
    pub fn adjust(&self, config: Config) -> (adjusted: Config)
        ensures
            adjusted == self.adjusted(config),
    {
        let mut config = config;
        if let Some(effort) = &self.reasoning_effort {
            config.model_reasoning_effort = Some(effort.clone());
        }
        if let Some(summary) = self.reasoning_summary {
            config.model_reasoning_summary = Some(summary);
        }
        config
    }
}

/// A runtime whose configuration is being built.
pub struct PendingConfig {
    pub arg0_paths: Arg0DispatchPaths,
    pub options: ConfigBuildOptions,
    pub runtime: RuntimeOptions,
    pub thread_defaults: ThreadDefaultsOverrides,
}

impl PendingConfig {
    /// Starts the runtime with the configuration that Codex has built.
    pub fn finish(self, config: Config, default_capacity: usize) -> (started: (
        InProcessClientStartArgs,
        PendingRuntime,
    ))
        ensures
            is_start_of(
                started,
                self.options.adjusted(config),
                self.runtime,
                self.arg0_paths,
                self.thread_defaults@,
                default_capacity,
            ),
    {
        let config = self.options.adjust(config);
        start_with_config_and_paths(config, self.runtime, self.arg0_paths, self.thread_defaults, default_capacity)
    }
}

/// Builder for starting the SDK from a caller-supplied native configuration.
pub struct CodexWithConfigBuilder {
    /// Fully resolved native configuration.
    pub config: Config,
    pub runtime: RuntimeOptions,
    /// Ordered native changes of the configuration's snapshot.
    pub thread_defaults: ThreadDefaultsOverrides,
}

impl Clone for CodexWithConfigBuilder {
    fn clone(&self) -> (copy: Self)
        ensures
            copy.config == (Config {
                workspace_roots: copy.config.workspace_roots,
                startup_warnings: copy.config.startup_warnings,
                ..self.config
            }),
            copy.config.workspace_roots@ == self.config.workspace_roots@,
            copy.config.startup_warnings@ == self.config.startup_warnings@,
            copy.runtime == self.runtime,
            copy.thread_defaults@ == self.thread_defaults@,
            copy.thread_defaults.debug() == self.thread_defaults.debug(),
    {
        CodexWithConfigBuilder {
            config: self.config.clone(),
            runtime: self.runtime.clone(),
            thread_defaults: self.thread_defaults.clone(),
        }
    }
}

impl CodexWithConfigBuilder {
    /// A builder in which only the configuration is set.
    pub fn new(config: Config) -> (builder: Self)
        ensures
            builder.config == config,
            builder.runtime.arg0_paths is None,
            builder.runtime.client_info.name@ == SDK_NAME@,
            builder.runtime.client_info.version@ == SDK_VERSION@,
            builder.runtime.channels == (ChannelCapacities { app_server: None, event_stream: None }),
            builder.thread_defaults@ == Seq::<OperationModel>::empty(),
    {
        CodexWithConfigBuilder {
            config,
            runtime: RuntimeOptions::default(),
            thread_defaults: ThreadDefaultsOverrides::default(),
        }
    }

    /// Provides helper executable paths.
    pub fn arg0_paths(self, arg0_paths: Arg0DispatchPaths) -> (builder: Self)
        ensures
            builder == (CodexWithConfigBuilder {
                runtime: RuntimeOptions { arg0_paths: Some(arg0_paths), ..self.runtime },
                ..self
            }),
    {
        CodexWithConfigBuilder { runtime: RuntimeOptions { arg0_paths: Some(arg0_paths), ..self.runtime }, ..self }
    }

    /// Sets the client name reported to Codex.
    pub fn client_name(self, name: String) -> (builder: Self)
        ensures
            builder == (CodexWithConfigBuilder {
                runtime: RuntimeOptions {
                    client_info: ClientInfo { name, ..self.runtime.client_info },
                    ..self.runtime
                },
                ..self
            }),
    {
        CodexWithConfigBuilder {
            runtime: RuntimeOptions { client_info: ClientInfo { name, ..self.runtime.client_info }, ..self.runtime },
            ..self
        }
    }

    /// Sets the client version reported to Codex.
    pub fn client_version(self, version: String) -> (builder: Self)
        ensures
            builder == (CodexWithConfigBuilder {
                runtime: RuntimeOptions {
                    client_info: ClientInfo { version, ..self.runtime.client_info },
                    ..self.runtime
                },
                ..self
            }),
    {
        CodexWithConfigBuilder {
            runtime: RuntimeOptions {
                client_info: ClientInfo { version, ..self.runtime.client_info },
                ..self.runtime
            },
            ..self
        }
    }

    /// Sets both the app-server and the event-stream queue capacities, to at
    /// least one. Transcript, completion, and server-request events wait when a
    /// queue is full; other events may be replaced by a lag marker.
    pub fn channel_capacity(self, capacity: usize) -> (builder: Self)
        ensures
            builder == (CodexWithConfigBuilder {
                runtime: RuntimeOptions {
                    channels: ChannelCapacities {
                        app_server: Some(at_least_one(capacity)),
                        event_stream: Some(at_least_one(capacity)),
                    },
                    ..self.runtime
                },
                ..self
            }),
    {
        let mut channels = self.runtime.channels;
        channels.set_all(capacity);
        CodexWithConfigBuilder { runtime: RuntimeOptions { channels, ..self.runtime }, ..self }
    }

    /// Sets the upstream client's queue capacity, to at least one.
    pub fn app_server_channel_capacity(self, capacity: usize) -> (builder: Self)
        ensures
            builder == (CodexWithConfigBuilder {
                runtime: RuntimeOptions {
                    channels: ChannelCapacities { app_server: Some(at_least_one(capacity)), ..self.runtime.channels },
                    ..self.runtime
                },
                ..self
            }),
    {
        let mut channels = self.runtime.channels;
        channels.app_server = Some(raise_to_one(capacity));
        CodexWithConfigBuilder { runtime: RuntimeOptions { channels, ..self.runtime }, ..self }
    }

    /// Sets the capacity of each event stream's queue, to at least one.
    pub fn event_stream_capacity(self, capacity: usize) -> (builder: Self)
        ensures
            builder == (CodexWithConfigBuilder {
                runtime: RuntimeOptions {
                    channels: ChannelCapacities {
                        event_stream: Some(at_least_one(capacity)),
                        ..self.runtime.channels
                    },
                    ..self.runtime
                },
                ..self
            }),
    {
        let mut channels = self.runtime.channels;
        channels.event_stream = Some(raise_to_one(capacity));
        CodexWithConfigBuilder { runtime: RuntimeOptions { channels, ..self.runtime }, ..self }
    }

    /// Replaces the native defaults copied into new thread builders.
    pub fn default_thread_params(self, params: ThreadStartParams) -> (builder: Self)
        ensures
            builder == (CodexWithConfigBuilder { thread_defaults: builder.thread_defaults, ..self }),
            builder.thread_defaults@ == self.thread_defaults@.push(OperationModel::Replace(params@)),
    {
        let mut thread_defaults = self.thread_defaults;
        thread_defaults.replace(params);
        CodexWithConfigBuilder { thread_defaults, ..self }
    }

    /// Disables optional model-visible context blocks for small-token sessions.
    pub fn minimal_prompt_context(self) -> (builder: Self)
        ensures
            builder == (CodexWithConfigBuilder { thread_defaults: builder.thread_defaults, ..self }),
            builder.thread_defaults@ == self.thread_defaults@.push(
                OperationModel::MergeConfig(minimal_prompt_context()),
            ),
    {
        let mut thread_defaults = self.thread_defaults;
        thread_defaults.minimize_prompt_context();
        CodexWithConfigBuilder { thread_defaults, ..self }
    }

    /// Disables the configurable tool families used by a normal Codex agent. Other
    /// tools can remain.
    pub fn minimal_tools(self) -> (builder: Self)
        ensures
            builder == (CodexWithConfigBuilder { thread_defaults: builder.thread_defaults, ..self }),
            builder.thread_defaults@ == self.thread_defaults@.push(OperationModel::MergeConfig(minimal_tools())),
    {
        let mut thread_defaults = self.thread_defaults;
        thread_defaults.minimize_tools();
        CodexWithConfigBuilder { thread_defaults, ..self }
    }

    /// Configures new threads for a small-token, chat-oriented session.
    pub fn pure_chat_profile(self) -> (builder: Self)
        ensures
            builder == (CodexWithConfigBuilder { thread_defaults: builder.thread_defaults, ..self }),
            builder.thread_defaults@ == self.thread_defaults@.push(OperationModel::MergeConfig(pure_chat())).push(
                OperationModel::SetEnvironment(Some(Seq::empty())),
            ),
    {
        let mut thread_defaults = self.thread_defaults;
        thread_defaults.configure_pure_chat();
        CodexWithConfigBuilder { thread_defaults, ..self }
    }

    /// Selects the default execution-environment behavior for new threads.
    pub fn default_environment_access(self, access: EnvironmentAccess) -> (builder: Self)
        ensures
            builder == (CodexWithConfigBuilder { thread_defaults: builder.thread_defaults, ..self }),
            builder.thread_defaults@ == self.thread_defaults@.push(OperationModel::SetEnvironment(access.sent())),
    {
        let mut thread_defaults = self.thread_defaults;
        thread_defaults.set_environment_access(access);
        CodexWithConfigBuilder { thread_defaults, ..self }
    }

    /// Merges native configuration overrides into every new thread's defaults. Keys
    /// are dotted paths.
    pub fn default_thread_config_overrides(self, overrides: ConfigMap) -> (builder: Self)
        ensures
            builder == (CodexWithConfigBuilder { thread_defaults: builder.thread_defaults, ..self }),
            builder.thread_defaults@ == with_patch(self.thread_defaults@, config_model(overrides)),
    {
        let mut thread_defaults = self.thread_defaults;
        thread_defaults.merge_config(overrides);
        CodexWithConfigBuilder { thread_defaults, ..self }
    }

    /// Starts the in-process runtime. `default_capacity` is the app-server
    /// client's own channel capacity.
    pub fn start(self, default_capacity: usize) -> (started: Result<(InProcessClientStartArgs, PendingRuntime)>)
        ensures
            match self.runtime.arg0_paths {
                Some(arg0_paths) => started matches Ok(start) && is_start_of(
                    start,
                    self.config,
                    self.runtime,
                    arg0_paths,
                    self.thread_defaults@,
                    default_capacity,
                ),
                None => started == Err::<(InProcessClientStartArgs, PendingRuntime), Error>(
                    Error::Arg0DispatchRequired,
                ),
            },
    {
        start_with_config(self.config, self.runtime, self.thread_defaults, default_capacity)
    }
}

/// Where a remote app-server listens.
pub enum RemoteEndpointConfig {
    WebSocket { websocket_url: String, auth_token: Option<String> },
    UnixSocket { socket_path: PathBuf },
}

impl Clone for RemoteEndpointConfig {
    fn clone(&self) -> (copy: Self)
        ensures
            copy == *self,
    {
        match self {
            RemoteEndpointConfig::WebSocket { websocket_url, auth_token } => RemoteEndpointConfig::WebSocket {
                websocket_url: websocket_url.clone(),
                auth_token: copy_optional(auth_token),
            },
            RemoteEndpointConfig::UnixSocket { socket_path } => RemoteEndpointConfig::UnixSocket {
                socket_path: socket_path.clone(),
            },
        }
    }
}

/// What a remote app-server is connected with.
pub struct RemoteAppServerConnectArgs {
    pub endpoint: RemoteEndpointConfig,
    pub client_name: String,
    pub client_version: String,
    pub experimental_api: bool,
    pub mcp_server_openai_form_elicitation: bool,
    pub opt_out_notification_methods: Vec<String>,
    pub channel_capacity: usize,
}

/// Builder for connecting to an already-running remote app-server, which owns
/// its configuration.
pub struct CodexRemoteBuilder {
    pub endpoint: RemoteEndpointConfig,
    pub client_info: ClientInfo,
    pub channels: ChannelCapacities,
    /// Ordered changes of new thread defaults.
    pub thread_defaults: ThreadDefaultsOverrides,
}

impl Clone for CodexRemoteBuilder {
    fn clone(&self) -> (copy: Self)
        ensures
            copy == (CodexRemoteBuilder { thread_defaults: copy.thread_defaults, ..*self }),
            copy.thread_defaults@ == self.thread_defaults@,
            copy.thread_defaults.debug() == self.thread_defaults.debug(),
    {
        CodexRemoteBuilder {
            endpoint: self.endpoint.clone(),
            client_info: self.client_info.clone(),
            channels: self.channels,
            thread_defaults: self.thread_defaults.clone(),
        }
    }
}

/// The defaults of threads on a remote app-server.
pub open spec fn remote_defaults() -> ThreadStartModel {
    ThreadStartModel {
        ephemeral: Some(true),
        thread_source: Some(ThreadSource::User),
        ..ThreadStartModel::empty()
    }
}

/// The defaults of threads on a remote app-server.
pub fn remote_default_thread_params() -> (params: ThreadStartParams)
    ensures
        params@ == remote_defaults(),
{
    let mut params: ThreadStartParams = ThreadStartParams::default();
    params.ephemeral = Some(true);
    params.thread_source = Some(ThreadSource::User);
    params
}

impl CodexRemoteBuilder {
    /// Only the endpoint was set.
    pub open spec fn is_plain(self) -> bool {
        &&& self.client_info.name@ == SDK_NAME@
        &&& self.client_info.version@ == SDK_VERSION@
        &&& self.channels == (ChannelCapacities { app_server: None, event_stream: None })
        &&& self.thread_defaults@ == Seq::<OperationModel>::empty()
    }

    /// A builder for a WebSocket app-server.
    pub fn websocket(websocket_url: String) -> (builder: Self)
        ensures
            builder.endpoint == (RemoteEndpointConfig::WebSocket { websocket_url, auth_token: None }),
            builder.is_plain(),
    {
        CodexRemoteBuilder {
            endpoint: RemoteEndpointConfig::WebSocket { websocket_url, auth_token: None },
            client_info: ClientInfo::default(),
            channels: ChannelCapacities::default(),
            thread_defaults: ThreadDefaultsOverrides::default(),
        }
    }

    /// A builder for a Unix-socket app-server.
    pub fn unix_socket(socket_path: PathBuf) -> (builder: Self)
        ensures
            builder.endpoint == (RemoteEndpointConfig::UnixSocket { socket_path }),
            builder.is_plain(),
    {
        CodexRemoteBuilder {
            endpoint: RemoteEndpointConfig::UnixSocket { socket_path },
            client_info: ClientInfo::default(),
            channels: ChannelCapacities::default(),
            thread_defaults: ThreadDefaultsOverrides::default(),
        }
    }

    /// Sets a bearer auth token for a WebSocket app-server. It means nothing
    /// for a Unix socket.
    pub fn auth_token(self, auth_token: String) -> (builder: Self)
        ensures
            builder == (CodexRemoteBuilder {
                endpoint: match self.endpoint {
                    RemoteEndpointConfig::WebSocket { websocket_url, .. } => RemoteEndpointConfig::WebSocket {
                        websocket_url,
                        auth_token: Some(auth_token),
                    },
                    RemoteEndpointConfig::UnixSocket { .. } => self.endpoint,
                },
                ..self
            }),
    {
        let endpoint = match self.endpoint {
            RemoteEndpointConfig::WebSocket { websocket_url, .. } => RemoteEndpointConfig::WebSocket {
                websocket_url,
                auth_token: Some(auth_token),
            },
            endpoint => endpoint,
        };
        CodexRemoteBuilder {
            endpoint,
            client_info: self.client_info,
            channels: self.channels,
            thread_defaults: self.thread_defaults,
        }
    }

    /// Sets the client name reported to Codex.
    pub fn client_name(self, name: String) -> (builder: Self)
        ensures
            builder == (CodexRemoteBuilder { client_info: ClientInfo { name, ..self.client_info }, ..self }),
    {
        CodexRemoteBuilder { client_info: ClientInfo { name, ..self.client_info }, ..self }
    }

    /// Sets the client version reported to Codex.
    pub fn client_version(self, version: String) -> (builder: Self)
        ensures
            builder == (CodexRemoteBuilder { client_info: ClientInfo { version, ..self.client_info }, ..self }),
    {
        CodexRemoteBuilder { client_info: ClientInfo { version, ..self.client_info }, ..self }
    }

    /// Sets both the app-server and the event-stream queue capacities, to at
    /// least one. Transcript, completion, and server-request events wait when a
    /// queue is full; other events may be replaced by a lag marker.
    pub fn channel_capacity(self, capacity: usize) -> (builder: Self)
        ensures
            builder == (CodexRemoteBuilder {
                channels: ChannelCapacities {
                    app_server: Some(at_least_one(capacity)),
                    event_stream: Some(at_least_one(capacity)),
                },
                ..self
            }),
    {
        let mut channels = self.channels;
        channels.set_all(capacity);
        CodexRemoteBuilder { channels, ..self }
    }

    /// Sets the upstream client's queue capacity, to at least one.
    pub fn app_server_channel_capacity(self, capacity: usize) -> (builder: Self)
        ensures
            builder == (CodexRemoteBuilder {
                channels: ChannelCapacities { app_server: Some(at_least_one(capacity)), ..self.channels },
                ..self
            }),
    {
        let mut channels = self.channels;
        channels.app_server = Some(raise_to_one(capacity));
        CodexRemoteBuilder { channels, ..self }
    }

    /// Sets the capacity of each event stream's queue, to at least one.
    pub fn event_stream_capacity(self, capacity: usize) -> (builder: Self)
        ensures
            builder == (CodexRemoteBuilder {
                channels: ChannelCapacities { event_stream: Some(at_least_one(capacity)), ..self.channels },
                ..self
            }),
    {
        let mut channels = self.channels;
        channels.event_stream = Some(raise_to_one(capacity));
        CodexRemoteBuilder { channels, ..self }
    }

    /// Replaces default parameters copied into new thread builders.
    pub fn default_thread_params(self, params: ThreadStartParams) -> (builder: Self)
        ensures
            builder == (CodexRemoteBuilder { thread_defaults: builder.thread_defaults, ..self }),
            builder.thread_defaults@ == self.thread_defaults@.push(OperationModel::Replace(params@)),
    {
        let mut thread_defaults = self.thread_defaults;
        thread_defaults.replace(params);
        CodexRemoteBuilder { thread_defaults, ..self }
    }

    /// Connects to the remote app-server. `default_capacity` is the app-server
    /// client's own channel capacity.
    pub fn start(self, default_capacity: usize) -> (started: (RemoteAppServerConnectArgs, PendingRuntime))
        ensures
            started.0.endpoint == self.endpoint,
            started.0.client_name == self.client_info.name,
            started.0.client_version == self.client_info.version,
            started.0.experimental_api,
            !started.0.mcp_server_openai_form_elicitation,
            started.0.opt_out_notification_methods@.len() == 0,
            started.0.channel_capacity == capacity_or(self.channels.app_server, default_capacity),
            started.1.event_stream_capacity == capacity_or(self.channels.event_stream, default_capacity),
            started.1.default_thread_params@ == apply_all(self.thread_defaults@, remote_defaults()),
    {
        let args = RemoteAppServerConnectArgs {
            endpoint: self.endpoint,
            client_name: self.client_info.name,
            client_version: self.client_info.version,
            experimental_api: true,
            mcp_server_openai_form_elicitation: false,
            opt_out_notification_methods: Vec::new(),
            channel_capacity: choose_capacity(self.channels.app_server, default_capacity),
        };
        let default_thread_params = self.thread_defaults.apply(remote_default_thread_params());
        let event_stream_capacity = choose_capacity(self.channels.event_stream, default_capacity);
        (args, PendingRuntime { event_stream_capacity, default_thread_params })
    }

    /// The name of the transport.
    pub open spec fn transport(self) -> Seq<char> {
        match self.endpoint {
            RemoteEndpointConfig::WebSocket { .. } => "websocket"@,
            RemoteEndpointConfig::UnixSocket { .. } => "unix_socket"@,
        }
    }

    /// Whether an auth token was set.
    pub open spec fn has_auth(self) -> bool {
        match self.endpoint {
            RemoteEndpointConfig::WebSocket { auth_token, .. } => auth_token is Some,
            RemoteEndpointConfig::UnixSocket { .. } => false,
        }
    }

    /// The fields of the debug text.
    pub open spec fn debug_fields(self, default_capacity: usize) -> Seq<crate::debug::FieldModel> {
        seq![
            field("transport"@, quoted(self.transport())),
            field("auth_configured"@, bool_text(self.has_auth())),
            field("client_info"@, client_debug(self.client_info)),
            field("thread_defaults"@, self.thread_defaults.debug()),
            field("app_server_channel_capacity"@, capacity_debug(self.channels.app_server, default_capacity)),
            field("event_stream_capacity"@, capacity_debug(self.channels.event_stream, default_capacity)),
        ]
    }

    /// The debug text of the builder. Of the endpoint it tells the transport,
    /// and of the auth token whether there is one.
    pub fn debug_text(&self, default_capacity: usize) -> (text: String)
        ensures
            text@ == struct_text("CodexRemoteBuilder"@, self.debug_fields(default_capacity), true),
    {
        let (transport, auth_configured) = match &self.endpoint {
            RemoteEndpointConfig::WebSocket { auth_token, .. } => ("websocket", auth_token.is_some()),
            RemoteEndpointConfig::UnixSocket { .. } => ("unix_socket", false),
        };
        let fields: Vec<DebugField> = vec![
            text_field("transport", transport),
            bool_field("auth_configured", auth_configured),
            DebugField { name: "client_info", value: write_client(&self.client_info) },
            DebugField { name: "thread_defaults", value: self.thread_defaults.debug_text() },
            DebugField {
                name: "app_server_channel_capacity",
                value: write_capacity(self.channels.app_server, default_capacity),
            },
            DebugField {
                name: "event_stream_capacity",
                value: write_capacity(self.channels.event_stream, default_capacity),
            },
        ];
        assert(field_models(fields@) =~= self.debug_fields(default_capacity));
        write_struct("CodexRemoteBuilder", fields, true)
    }
}

/// The debug text of a remote builder tells neither the address nor the token:
/// builders that differ in nothing else have the same text.
pub proof fn law_remote_debug_text_tells_no_secret(
    one: CodexRemoteBuilder,
    other: CodexRemoteBuilder,
    default_capacity: usize,
)
    requires
        one.transport() == other.transport(),
        one.has_auth() == other.has_auth(),
        one == (CodexRemoteBuilder { endpoint: one.endpoint, ..other }),
    ensures
        one.debug_fields(default_capacity) == other.debug_fields(default_capacity),
{
}

/// A capacity is never zero, whatever was set.
pub proof fn law_capacities_are_positive(capacity: Option<usize>, fallback: usize)
    ensures
        capacity_or(capacity, fallback) >= 1,
        capacity matches Some(set) && set >= 1 ==> capacity_or(capacity, fallback) == capacity->0,
{
}

} // verus!
