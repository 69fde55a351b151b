//! Entry point of a Codex-aware program.
use crate::builder::{CodexBuilder, CodexWithConfigBuilder, RuntimeOptions};
use crate::client::Codex;
use crate::config::Config;
use crate::thread_defaults::OperationModel;
use crate::types::{Arg0DispatchPaths, SDK_NAME, SDK_VERSION};
use vstd::prelude::*;

verus! {

/// What a Codex-aware program starts with.
#[derive(Debug)]
pub struct CodexMain {
    pub arg0_paths: Arg0DispatchPaths,
}

impl Clone for CodexMain {
    fn clone(&self) -> (copy: Self)
        ensures
            copy == *self,
    {
        CodexMain { arg0_paths: self.arg0_paths.clone() }
    }
}

impl CodexMain {
    /// A [`CodexBuilder`] wired to the helper paths of the program.
    pub fn builder(&self) -> (builder: CodexBuilder)
        ensures
            builder.runtime.arg0_paths == Some(self.arg0_paths),
            (CodexBuilder { runtime: RuntimeOptions { arg0_paths: None, ..builder.runtime }, ..builder }).is_default(),
    {
        Codex::builder().arg0_paths(self.arg0_paths.clone())
    }

    /// A builder for a resolved configuration, wired to the helper paths of
    /// the program.
    pub fn builder_with_config(&self, config: Config) -> (builder: CodexWithConfigBuilder)
        ensures
            builder.config == config,
            builder.runtime.arg0_paths == Some(self.arg0_paths),
            builder.runtime.client_info.name@ == SDK_NAME@,
            builder.runtime.client_info.version@ == SDK_VERSION@,
            builder.runtime.channels.app_server is None,
            builder.runtime.channels.event_stream is None,
            builder.thread_defaults@ == Seq::<OperationModel>::empty(),
    {
        Codex::builder_with_config(config).arg0_paths(self.arg0_paths.clone())
    }

    /// Helper executable paths that Codex uses for shell, patch, and sandbox
    /// entry points.
    pub fn arg0_paths(&self) -> (paths: &Arg0DispatchPaths)
        ensures
            *paths == self.arg0_paths,
    {
        &self.arg0_paths
    }
}

} // verus!
