//! Identifiers and client metadata.
use std::path::PathBuf;
use vstd::prelude::*;

verus! {

/// Identifier assigned by the Codex app-server to a conversation thread.
pub type ThreadId = String;

/// Identifier assigned by the Codex app-server to a single turn.
pub type TurnId = String;

/// The version of this SDK.
pub const SDK_VERSION: &'static str = "0.1.0";

/// The name that the SDK reports where the application sets none.
pub const SDK_NAME: &'static str = "codex-sdk-rs";

/// Metadata used to identify this SDK client to the Codex runtime.
pub struct ClientInfo {
    /// Human-readable application name reported to Codex.
    pub name: String,
    /// Application or SDK version reported alongside the name.
    pub version: String,
}

impl Default for ClientInfo {
    fn default() -> (info: Self)
        ensures
            info.name@ == SDK_NAME@,
            info.version@ == SDK_VERSION@,
    {
        ClientInfo { name: SDK_NAME.to_owned(), version: SDK_VERSION.to_owned() }
    }
}

impl Clone for ClientInfo {
    fn clone(&self) -> (copy: Self)
        ensures
            copy == *self,
    {
        ClientInfo { name: self.name.clone(), version: self.version.clone() }
    }
}

/// Helper executable paths that Codex needs for in-process startup.
#[derive(Debug)]
pub struct Arg0DispatchPaths {
    pub codex_self_exe: Option<PathBuf>,
    pub codex_linux_sandbox_exe: Option<PathBuf>,
    pub main_execve_wrapper_exe: Option<PathBuf>,
}

/// A copy of an optional path.
pub(crate) fn copy_optional_path(path: &Option<PathBuf>) -> (copy: Option<PathBuf>)
    ensures
        copy == *path,
{
    match path {
        Some(path) => Some(path.clone()),
        None => None,
    }
}

impl Clone for Arg0DispatchPaths {
    fn clone(&self) -> (copy: Self)
        ensures
            copy == *self,
    {
        Arg0DispatchPaths {
            codex_self_exe: copy_optional_path(&self.codex_self_exe),
            codex_linux_sandbox_exe: copy_optional_path(&self.codex_linux_sandbox_exe),
            main_execve_wrapper_exe: copy_optional_path(&self.main_execve_wrapper_exe),
        }
    }
}

} // verus!
