//! The parts of a resolved Codex configuration that the SDK reads.
use crate::protocol::{copy_effort, AskForApproval, Personality, ReasoningEffort, ReasoningSummary};
use crate::text::{copy_optional, copy_texts};
use vstd::prelude::*;

verus! {

/// The sandbox that a configuration selects without a permission profile.
#[derive(Clone, Copy, PartialEq, Eq, Structural, Debug)]
pub enum LegacySandboxPolicy {
    ReadOnly,
    WorkspaceWrite,
    DangerFullAccess,
    ExternalSandbox,
}

/// A resolved Codex configuration.
pub struct Config {
    /// The working directory, as text.
    pub cwd: String,
    pub model: Option<String>,
    pub model_provider_id: String,
    pub service_tier: Option<String>,
    /// The workspace roots that the user sees.
    pub workspace_roots: Vec<String>,
    pub approval_policy: AskForApproval,
    pub approvals_reviewer: String,
    /// Whether permissions come from a profile that was asked for.
    pub explicit_permission_profile_mode: bool,
    /// The id of the permission profile in force.
    pub active_permission_profile: Option<String>,
    pub legacy_sandbox_policy: LegacySandboxPolicy,
    pub personality: Option<Personality>,
    pub include_permissions_instructions: bool,
    pub include_apps_instructions: bool,
    pub include_collaboration_mode_instructions: bool,
    pub include_environment_context: bool,
    pub include_skill_instructions: bool,
    pub model_reasoning_effort: Option<ReasoningEffort>,
    pub model_reasoning_summary: Option<ReasoningSummary>,
    pub base_instructions: Option<String>,
    pub developer_instructions: Option<String>,
    pub ephemeral: bool,
    /// Warnings from loading the configuration.
    pub startup_warnings: Vec<String>,
}

impl Clone for Config {
    fn clone(&self) -> (copy: Self)
        ensures
            copy == (Config {
                workspace_roots: copy.workspace_roots,
                startup_warnings: copy.startup_warnings,
                ..*self
            }),
            copy.workspace_roots@ == self.workspace_roots@,
            copy.startup_warnings@ == self.startup_warnings@,
    {
        Config {
            cwd: self.cwd.clone(),
            model: copy_optional(&self.model),
            model_provider_id: self.model_provider_id.clone(),
            service_tier: copy_optional(&self.service_tier),
            workspace_roots: copy_texts(&self.workspace_roots),
            approval_policy: self.approval_policy,
            approvals_reviewer: self.approvals_reviewer.clone(),
            explicit_permission_profile_mode: self.explicit_permission_profile_mode,
            active_permission_profile: copy_optional(&self.active_permission_profile),
            legacy_sandbox_policy: self.legacy_sandbox_policy,
            personality: self.personality,
            include_permissions_instructions: self.include_permissions_instructions,
            include_apps_instructions: self.include_apps_instructions,
            include_collaboration_mode_instructions: self.include_collaboration_mode_instructions,
            include_environment_context: self.include_environment_context,
            include_skill_instructions: self.include_skill_instructions,
            model_reasoning_effort: copy_effort(&self.model_reasoning_effort),
            model_reasoning_summary: self.model_reasoning_summary,
            base_instructions: copy_optional(&self.base_instructions),
            developer_instructions: copy_optional(&self.developer_instructions),
            ephemeral: self.ephemeral,
            startup_warnings: copy_texts(&self.startup_warnings),
        }
    }
}

} // verus!
