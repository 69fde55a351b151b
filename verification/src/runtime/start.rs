//! Startup of the runtime.
use crate::config::Config;
use crate::error::Result;
use crate::event::RequestId;
use crate::runtime::app_server::{
    self, id_after, RequestIds, ServerResponseCommand, SERVER_RESPONSE_TIMEOUT_SECS,
};
use crate::runtime::events::EventRouter;
use crate::runtime::live_queue::MAX_QUEUE_CAPACITY;
use crate::runtime::route_model::RouterModel;
use crate::runtime::shutdown::{task_result, RuntimeShutdown, ShutdownModel, ShutdownStep};
use crate::types::{Arg0DispatchPaths, ClientInfo};
use vstd::prelude::*;

verus! {

/// A warning about the configuration, for the app-server to pass on.
pub struct ConfigWarning {
    pub summary: String,
    pub details: Option<String>,
    pub path: Option<String>,
    pub range: Option<String>,
}

/// What the embedded app-server is started with. Everything here that the
/// application does not choose has the one value that fits embedding.
pub struct InProcessClientStartArgs {
    pub arg0_paths: Arg0DispatchPaths,
    pub config: Config,
    pub cli_overrides: Vec<String>,
    pub strict_config: bool,
    pub config_warnings: Vec<ConfigWarning>,
    /// The name of the custom session source.
    pub session_source: String,
    pub enable_codex_api_key_env: bool,
    pub client_name: String,
    pub client_version: String,
    pub experimental_api: bool,
    pub mcp_server_openai_form_elicitation: bool,
    pub opt_out_notification_methods: Vec<String>,
    pub channel_capacity: usize,
}

/// `capacity`, or one where it is zero.
pub open spec fn at_least_one(capacity: usize) -> usize {
    if capacity == 0 {
        1
    } else {
        capacity
    }
}

/// `capacity`, or one where it is zero.
pub fn raise_to_one(capacity: usize) -> (raised: usize)
    ensures
        raised == at_least_one(capacity),
{
    if capacity == 0 {
        1
    } else {
        capacity
    }
}

/// What `warning` becomes.
pub open spec fn is_warning_of(warning: ConfigWarning, text: String) -> bool {
    warning == (ConfigWarning { summary: text, details: None, path: None, range: None })
}

/// Turns the warnings of a configuration into notifications.
pub fn config_warnings(config: &Config) -> (warnings: Vec<ConfigWarning>)
    ensures
        warnings@.len() == config.startup_warnings@.len(),
        forall|i: int|
            0 <= i < warnings@.len() ==> is_warning_of(#[trigger] warnings@[i], config.startup_warnings@[i]),
{
    let mut warnings: Vec<ConfigWarning> = Vec::new();
    let mut i: usize = 0;
    while i < config.startup_warnings.len()
        invariant
            i <= config.startup_warnings@.len(),
            warnings@.len() == i,
            forall|j: int| 0 <= j < i ==> is_warning_of(#[trigger] warnings@[j], config.startup_warnings@[j]),
        decreases config.startup_warnings@.len() - i,
    {
        warnings.push(
            ConfigWarning { summary: config.startup_warnings[i].clone(), details: None, path: None, range: None },
        );
        i += 1;
    }
    warnings
}

/// Builds the startup arguments of the embedded app-server.
pub fn sdk_in_process_client_start_args(
    arg0_paths: Arg0DispatchPaths,
    config: Config,
    client_info: ClientInfo,
    app_server_channel_capacity: usize,
) -> (args: InProcessClientStartArgs)
    ensures
        args.arg0_paths == arg0_paths,
        args.config == config,
        args.cli_overrides@.len() == 0,
        !args.strict_config,
        args.config_warnings@.len() == config.startup_warnings@.len(),
        forall|i: int|
            0 <= i < args.config_warnings@.len() ==> is_warning_of(
                #[trigger] args.config_warnings@[i],
                config.startup_warnings@[i],
            ),
        args.session_source == client_info.name,
        args.enable_codex_api_key_env,
        args.client_name == client_info.name,
        args.client_version == client_info.version,
        args.experimental_api,
        !args.mcp_server_openai_form_elicitation,
        args.opt_out_notification_methods@.len() == 0,
        args.channel_capacity == at_least_one(app_server_channel_capacity),
{
    let config_warnings = config_warnings(&config);
    let client_name = client_info.name;
    InProcessClientStartArgs {
        arg0_paths,
        config,
        cli_overrides: Vec::new(),
        strict_config: false,
        config_warnings,
        session_source: client_name.clone(),
        enable_codex_api_key_env: true,
        client_name,
        client_version: client_info.version,
        experimental_api: true,
        mcp_server_openai_form_elicitation: false,
        opt_out_notification_methods: Vec::new(),
        channel_capacity: raise_to_one(app_server_channel_capacity),
    }
}

/// What a [`RuntimeHandle`] stands for.
#[verifier::ext_equal]
pub struct RuntimeModel {
    pub events: RouterModel,
    /// The request id that was allocated last.
    pub last_id: i64,
    pub shutdown: ShutdownModel,
}

impl RuntimeModel {
    /// A runtime that has just been connected.
    pub open spec fn connected(event_stream_capacity: usize) -> Self {
        RuntimeModel {
            events: RouterModel::fresh(at_least_one(event_stream_capacity) as nat),
            last_id: 0,
            shutdown: ShutdownModel::running(),
        }
    }
}

/// The state of a connected runtime.
pub struct RuntimeHandle {
    /// Routes app-server events to their single owning stream.
    events: EventRouter,
    request_ids: RequestIds,
    shutdown: RuntimeShutdown,
}

impl View for RuntimeHandle {
    type V = RuntimeModel;

    closed spec fn view(&self) -> RuntimeModel {
        RuntimeModel { events: self.events@, last_id: self.request_ids@, shutdown: self.shutdown@ }
    }
}

impl RuntimeHandle {
    /// The state of the runtime is in order.
    pub open spec fn wf(self) -> bool {
        self@.events.wf()
    }

    /// The state of a runtime that has just been connected.
    pub fn start_with_client(event_stream_capacity: usize) -> (runtime: Self)
        requires
            event_stream_capacity <= MAX_QUEUE_CAPACITY,
        ensures
            runtime.wf(),
            runtime@ == RuntimeModel::connected(event_stream_capacity),
    {
        RuntimeHandle {
            events: EventRouter::new(event_stream_capacity),
            request_ids: RequestIds::new(),
            shutdown: RuntimeShutdown::new(),
        }
    }

    /// The event router.
    pub fn events_mut(&mut self) -> (events: &mut EventRouter)
        ensures
            events@ == old(self)@.events,
            final(self)@ == (RuntimeModel { events: final(events)@, ..old(self)@ }),
    {
        &mut self.events
    }

    /// Allocates a request id.
    pub fn next_request_id(&mut self) -> (id: RequestId)
        ensures
            id == RequestId::Integer(id_after(old(self)@.last_id)),
            final(self)@ == (RuntimeModel { last_id: id_after(old(self)@.last_id), ..old(self)@ }),
    {
        self.request_ids.next_request_id()
    }

    /// Answers a server request with a result, given as JSON text, at the time
    /// `now` in milliseconds.
    pub fn resolve_server_request(&self, request_id: RequestId, result: String, now: u64) -> (command:
        ServerResponseCommand)
        requires
            now + SERVER_RESPONSE_TIMEOUT_SECS * 1000 <= u64::MAX,
        ensures
            command.is_resolution(request_id, result@, now),
    {
        app_server::resolve_server_request(request_id, result, now)
    }

    /// Answers a server request with a refusal.
    pub fn reject_server_request(&self, request_id: RequestId, message: String, now: u64) -> (command:
        ServerResponseCommand)
        requires
            now + SERVER_RESPONSE_TIMEOUT_SECS * 1000 <= u64::MAX,
        ensures
            command.is_rejection(request_id, message@, now),
    {
        app_server::reject_server_request(request_id, message, now)
    }

    /// A caller asks for shutdown.
    pub fn shutdown(&mut self) -> (step: ShutdownStep)
        ensures
            old(self)@.shutdown.is_step(step),
            final(self)@ == (RuntimeModel { shutdown: old(self)@.shutdown.begun(), ..old(self)@ }),
    {
        self.shutdown.begin()
    }

    /// A caller has seen the end of the event loop.
    pub fn complete_shutdown(&mut self, joined: std::result::Result<Result<()>, String>) -> (result: Result<()>)
        ensures
            result == task_result(joined),
            final(self)@ == (RuntimeModel { shutdown: old(self)@.shutdown.completed(result), ..old(self)@ }),
    {
        self.shutdown.complete(joined)
    }
}

} // verus!
