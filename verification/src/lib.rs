//! Synchronous core of an SDK for embedding Codex.

pub mod builder;
pub mod builder_laws;
pub mod client;
pub mod client_laws;
pub mod config;
pub mod debug;
pub mod defaults_laws;
pub mod entry;
pub mod error;
pub mod event;
pub mod event_laws;
pub mod message_laws;
pub mod observability;
pub mod observability_laws;
pub mod path;
pub mod protocol;
pub mod runtime;
pub mod setting_laws;
pub mod text;
pub mod text_laws;
pub mod text_map;
pub mod thread;
pub mod thread_defaults;
pub mod thread_id;
pub mod turn;
pub mod types;
pub mod warmup;
pub mod warmup_laws;

pub use builder::{CodexBuilder, CodexRemoteBuilder, CodexWithConfigBuilder};
pub use client::{Codex, CodexEventStream};
pub use config::Config;
pub use entry::CodexMain;
pub use error::{Error, Result};
pub use event::{AppServerEvent, RequestId, ServerNotification, ServerRequest};
pub use observability::{
    Observability, ObservabilityBuilder, ObservabilityGuard, OtelExporter, OtelHttpProtocol, OtelSettings,
    OtelTlsConfig,
};
pub use protocol::{
    AskForApproval, GetAccountParams, ModelListParams, Personality, ReasoningEffort, ReasoningSummary, SandboxMode,
    SandboxPolicy, ThreadForkParams, ThreadListParams, ThreadResumeParams, ThreadStartParams, TurnStartParams,
    UserInput,
};
pub use thread::{Thread, ThreadBuilder, ThreadEventStream};
pub use thread_defaults::EnvironmentAccess;
pub use turn::{CodexTurnBuilder, IntoTurnInput, TurnBuilder, TurnHandle};
pub use types::{ThreadId, TurnId};
pub use warmup::{WarmupBuilder, WarmupFailure, WarmupResult, WarmupTargets};
