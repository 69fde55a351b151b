//! The app-server requests that the SDK sends, and the native parameters it
//! reads or fills in. Native parameters without a field here are carried as
//! JSON text in a field `extra`.
use crate::debug::{bool_field, field, field_models, quoted, struct_text, text_field, write_struct, DebugField};
use crate::event::RequestId;
use crate::text::{bool_text, copy_optional, copy_texts, optional_text, texts};
use crate::text_map::TextMap;
use std::path::PathBuf;
use vstd::prelude::*;

verus! {

/// How much of the file system a thread may write to.
#[derive(Clone, Copy, PartialEq, Eq, Structural, Debug)]
pub enum SandboxMode {
    ReadOnly,
    WorkspaceWrite,
    DangerFullAccess,
}

/// The exact sandbox policy of a turn.
#[derive(PartialEq, Eq, Debug)]
pub enum SandboxPolicy {
    DangerFullAccess,
    ReadOnly { network_access: bool },
    WorkspaceWrite {
        writable_roots: Vec<String>,
        network_access: bool,
        exclude_tmpdir_env_var: bool,
        exclude_slash_tmp: bool,
    },
    ExternalSandbox { extra: String },
}

/// When Codex asks for approval.
#[derive(Clone, Copy, PartialEq, Eq, Structural, Debug)]
pub enum AskForApproval {
    UnlessTrusted,
    OnFailure,
    OnRequest,
    Never,
    /// For each category of approval, whether Codex may ask.
    Granular {
        sandbox_approval: bool,
        rules: bool,
        mcp_elicitations: bool,
        request_permissions: bool,
        skill_approval: bool,
    },
}

/// The personality of the model.
#[derive(Clone, Copy, PartialEq, Eq, Structural, Debug)]
pub enum Personality {
    Off,
    Friendly,
    Pragmatic,
}

/// How much the model reasons.
#[derive(PartialEq, Eq, Debug)]
pub enum ReasoningEffort {
    Off,
    Minimal,
    Low,
    Medium,
    High,
    XHigh,
    /// An effort that only the model knows.
    Other { name: String },
}

impl Clone for ReasoningEffort {
    fn clone(&self) -> (copy: Self)
        ensures
            copy == *self,
    {
        match self {
            ReasoningEffort::Off => ReasoningEffort::Off,
            ReasoningEffort::Minimal => ReasoningEffort::Minimal,
            ReasoningEffort::Low => ReasoningEffort::Low,
            ReasoningEffort::Medium => ReasoningEffort::Medium,
            ReasoningEffort::High => ReasoningEffort::High,
            ReasoningEffort::XHigh => ReasoningEffort::XHigh,
            ReasoningEffort::Other { name } => ReasoningEffort::Other { name: name.clone() },
        }
    }
}

/// A copy of an optional effort.
pub(crate) fn copy_effort(effort: &Option<ReasoningEffort>) -> (copy: Option<ReasoningEffort>)
    ensures
        copy == *effort,
{
    match effort {
        Some(effort) => Some(effort.clone()),
        None => None,
    }
}

/// How the model summarises its reasoning.
#[derive(Clone, Copy, PartialEq, Eq, Structural, Debug)]
pub enum ReasoningSummary {
    Auto,
    Concise,
    Detailed,
    Off,
}

impl Personality {
    /// The name of the personality in Codex configuration.
    pub open spec fn name(self) -> Seq<char> {
        match self {
            Personality::Off => "none"@,
            Personality::Friendly => "friendly"@,
            Personality::Pragmatic => "pragmatic"@,
        }
    }

    /// The name of the personality in Codex configuration.
    pub fn as_str(&self) -> (name: &'static str)
        ensures
            name@ == self.name(),
    {
        match self {
            Personality::Off => "none",
            Personality::Friendly => "friendly",
            Personality::Pragmatic => "pragmatic",
        }
    }
}

impl ReasoningEffort {
    /// The name of the effort in Codex configuration.
    pub open spec fn name(self) -> Seq<char> {
        match self {
            ReasoningEffort::Off => "none"@,
            ReasoningEffort::Minimal => "minimal"@,
            ReasoningEffort::Low => "low"@,
            ReasoningEffort::Medium => "medium"@,
            ReasoningEffort::High => "high"@,
            ReasoningEffort::XHigh => "xhigh"@,
            ReasoningEffort::Other { name } => name@,
        }
    }

    /// The name of the effort in Codex configuration.
    pub fn as_str(&self) -> (name: &str)
        ensures
            name@ == self.name(),
    {
        match self {
            ReasoningEffort::Off => "none",
            ReasoningEffort::Minimal => "minimal",
            ReasoningEffort::Low => "low",
            ReasoningEffort::Medium => "medium",
            ReasoningEffort::High => "high",
            ReasoningEffort::XHigh => "xhigh",
            ReasoningEffort::Other { name } => name.as_str(),
        }
    }
}

impl ReasoningSummary {
    /// The name of the summary behaviour in Codex configuration.
    pub open spec fn name(self) -> Seq<char> {
        match self {
            ReasoningSummary::Auto => "auto"@,
            ReasoningSummary::Concise => "concise"@,
            ReasoningSummary::Detailed => "detailed"@,
            ReasoningSummary::Off => "none"@,
        }
    }

    /// The name of the summary behaviour in Codex configuration.
    pub fn as_str(&self) -> (name: &'static str)
        ensures
            name@ == self.name(),
    {
        match self {
            ReasoningSummary::Auto => "auto",
            ReasoningSummary::Concise => "concise",
            ReasoningSummary::Detailed => "detailed",
            ReasoningSummary::Off => "none",
        }
    }
}

impl SandboxMode {
    /// The name of the variant.
    pub open spec fn variant(self) -> Seq<char> {
        match self {
            SandboxMode::ReadOnly => "ReadOnly"@,
            SandboxMode::WorkspaceWrite => "WorkspaceWrite"@,
            SandboxMode::DangerFullAccess => "DangerFullAccess"@,
        }
    }

    /// The name of the variant.
    pub fn variant_name(&self) -> (name: &'static str)
        ensures
            name@ == self.variant(),
    {
        match self {
            SandboxMode::ReadOnly => "ReadOnly",
            SandboxMode::WorkspaceWrite => "WorkspaceWrite",
            SandboxMode::DangerFullAccess => "DangerFullAccess",
        }
    }
}

impl Personality {
    /// The debug text of the personality.
    pub open spec fn variant(self) -> Seq<char> {
        match self {
            Personality::Off => "None"@,
            Personality::Friendly => "Friendly"@,
            Personality::Pragmatic => "Pragmatic"@,
        }
    }

    /// The debug text of the personality.
    pub fn variant_name(&self) -> (name: &'static str)
        ensures
            name@ == self.variant(),
    {
        match self {
            Personality::Off => "None",
            Personality::Friendly => "Friendly",
            Personality::Pragmatic => "Pragmatic",
        }
    }
}

impl ReasoningEffort {
    /// The debug text of the effort.
    pub open spec fn debug(self) -> Seq<char> {
        match self {
            ReasoningEffort::Off => "None"@,
            ReasoningEffort::Minimal => "Minimal"@,
            ReasoningEffort::Low => "Low"@,
            ReasoningEffort::Medium => "Medium"@,
            ReasoningEffort::High => "High"@,
            ReasoningEffort::XHigh => "XHigh"@,
            ReasoningEffort::Other { name } => struct_text("Other"@, seq![field("name"@, quoted(name@))], false),
        }
    }

    /// The debug text of the effort.
    pub fn debug_text(&self) -> (text: String)
        ensures
            text@ == self.debug(),
    {
        match self {
            ReasoningEffort::Off => "None".to_owned(),
            ReasoningEffort::Minimal => "Minimal".to_owned(),
            ReasoningEffort::Low => "Low".to_owned(),
            ReasoningEffort::Medium => "Medium".to_owned(),
            ReasoningEffort::High => "High".to_owned(),
            ReasoningEffort::XHigh => "XHigh".to_owned(),
            ReasoningEffort::Other { name } => {
                let fields: Vec<DebugField> = vec![text_field("name", name.as_str())];
                assert(field_models(fields@) =~= seq![field("name"@, quoted(name@))]);
                write_struct("Other", fields, false)
            },
        }
    }
}

impl ReasoningSummary {
    /// The debug text of the summary behaviour.
    pub open spec fn variant(self) -> Seq<char> {
        match self {
            ReasoningSummary::Auto => "Auto"@,
            ReasoningSummary::Concise => "Concise"@,
            ReasoningSummary::Detailed => "Detailed"@,
            ReasoningSummary::Off => "None"@,
        }
    }

    /// The debug text of the summary behaviour.
    pub fn variant_name(&self) -> (name: &'static str)
        ensures
            name@ == self.variant(),
    {
        match self {
            ReasoningSummary::Auto => "Auto",
            ReasoningSummary::Concise => "Concise",
            ReasoningSummary::Detailed => "Detailed",
            ReasoningSummary::Off => "None",
        }
    }
}

impl AskForApproval {
    /// The debug text of the policy.
    pub open spec fn debug(self) -> Seq<char> {
        match self {
            AskForApproval::UnlessTrusted => "UnlessTrusted"@,
            AskForApproval::OnFailure => "OnFailure"@,
            AskForApproval::OnRequest => "OnRequest"@,
            AskForApproval::Never => "Never"@,
            AskForApproval::Granular {
                sandbox_approval,
                rules,
                mcp_elicitations,
                request_permissions,
                skill_approval,
            } => struct_text(
                "Granular"@,
                seq![
                    field("sandbox_approval"@, bool_text(sandbox_approval)),
                    field("rules"@, bool_text(rules)),
                    field("mcp_elicitations"@, bool_text(mcp_elicitations)),
                    field("request_permissions"@, bool_text(request_permissions)),
                    field("skill_approval"@, bool_text(skill_approval)),
                ],
                false,
            ),
        }
    }

    /// The debug text of the policy.
    pub fn debug_text(&self) -> (text: String)
        ensures
            text@ == self.debug(),
    {
        match self {
            AskForApproval::UnlessTrusted => "UnlessTrusted".to_owned(),
            AskForApproval::OnFailure => "OnFailure".to_owned(),
            AskForApproval::OnRequest => "OnRequest".to_owned(),
            AskForApproval::Never => "Never".to_owned(),
            AskForApproval::Granular {
                sandbox_approval,
                rules,
                mcp_elicitations,
                request_permissions,
                skill_approval,
            } => {
                let fields: Vec<DebugField> = vec![
                    bool_field("sandbox_approval", *sandbox_approval),
                    bool_field("rules", *rules),
                    bool_field("mcp_elicitations", *mcp_elicitations),
                    bool_field("request_permissions", *request_permissions),
                    bool_field("skill_approval", *skill_approval),
                ];
                assert(field_models(fields@) =~= seq![
                    field("sandbox_approval"@, bool_text(*sandbox_approval)),
                    field("rules"@, bool_text(*rules)),
                    field("mcp_elicitations"@, bool_text(*mcp_elicitations)),
                    field("request_permissions"@, bool_text(*request_permissions)),
                    field("skill_approval"@, bool_text(*skill_approval)),
                ]);
                write_struct("Granular", fields, false)
            },
        }
    }
}

/// Who a thread was made for.
#[derive(PartialEq, Eq, Debug)]
pub enum ThreadSource {
    User,
    Other { name: String },
}

impl Clone for ThreadSource {
    fn clone(&self) -> (copy: Self)
        ensures
            copy == *self,
    {
        match self {
            ThreadSource::User => ThreadSource::User,
            ThreadSource::Other { name } => ThreadSource::Other { name: name.clone() },
        }
    }
}

/// One execution environment: its id and the working directory in it.
#[derive(PartialEq, Eq, Debug)]
pub struct TurnEnvironmentParams {
    pub environment_id: String,
    pub cwd: String,
}

impl Clone for TurnEnvironmentParams {
    fn clone(&self) -> (copy: Self)
        ensures
            copy == *self,
    {
        TurnEnvironmentParams { environment_id: self.environment_id.clone(), cwd: self.cwd.clone() }
    }
}

/// A value of Codex configuration. Values that the SDK does not make itself are
/// carried as JSON text.
#[derive(PartialEq, Eq, Debug)]
pub enum ConfigValue {
    Bool(bool),
    Integer(i64),
    Text(String),
    Json(String),
}

/// What a [`ConfigValue`] stands for.
pub enum ConfigValueModel {
    Bool(bool),
    Integer(i64),
    Text(Seq<char>),
    Json(Seq<char>),
}

impl View for ConfigValue {
    type V = ConfigValueModel;

    open spec fn view(&self) -> ConfigValueModel {
        match *self {
            ConfigValue::Bool(value) => ConfigValueModel::Bool(value),
            ConfigValue::Integer(value) => ConfigValueModel::Integer(value),
            ConfigValue::Text(value) => ConfigValueModel::Text(value@),
            ConfigValue::Json(value) => ConfigValueModel::Json(value@),
        }
    }
}

impl Clone for ConfigValue {
    fn clone(&self) -> (copy: Self)
        ensures
            copy == *self,
    {
        match self {
            ConfigValue::Bool(value) => ConfigValue::Bool(*value),
            ConfigValue::Integer(value) => ConfigValue::Integer(*value),
            ConfigValue::Text(value) => ConfigValue::Text(value.clone()),
            ConfigValue::Json(value) => ConfigValue::Json(value.clone()),
        }
    }
}

/// Configuration by dotted path.
pub type ConfigMap = TextMap<ConfigValue>;

/// What a [`ConfigMap`] stands for.
pub type ConfigModel = Map<Seq<char>, ConfigValueModel>;

/// What a configuration map stands for.
pub open spec fn config_model(config: ConfigMap) -> ConfigModel {
    config@.map_values(|value: ConfigValue| value@)
}

/// What an optional configuration map stands for.
pub open spec fn optional_config(config: Option<ConfigMap>) -> Option<ConfigModel> {
    match config {
        Some(config) => Some(config_model(config)),
        None => None,
    }
}

/// What an optional list of environments stands for.
pub open spec fn optional_environments(environments: Option<Vec<TurnEnvironmentParams>>) -> Option<
    Seq<TurnEnvironmentParams>,
> {
    match environments {
        Some(environments) => Some(environments@),
        None => None,
    }
}

/// What an optional list of texts stands for.
pub open spec fn optional_texts(list: Option<Vec<String>>) -> Option<Seq<Seq<char>>> {
    match list {
        Some(list) => Some(texts(list@)),
        None => None,
    }
}

/// What a service tier override stands for: not sent, cleared, or set.
pub open spec fn tier_override(tier: Option<Option<String>>) -> Option<Option<Seq<char>>> {
    match tier {
        Some(tier) => Some(optional_text(tier)),
        None => None,
    }
}

/// A copy of a service tier override.
pub(crate) fn copy_tier(tier: &Option<Option<String>>) -> (copy: Option<Option<String>>)
    ensures
        copy == *tier,
{
    match tier {
        Some(tier) => Some(copy_optional(tier)),
        None => None,
    }
}

/// A copy of a list of environments.
pub(crate) fn copy_environments(list: &Vec<TurnEnvironmentParams>) -> (copy: Vec<TurnEnvironmentParams>)
    ensures
        copy@ == list@,
{
    let mut copy: Vec<TurnEnvironmentParams> = Vec::new();
    let mut i: usize = 0;
    while i < list.len()
        invariant
            i <= list@.len(),
            copy@ == list@.take(i as int),
        decreases list@.len() - i,
    {
        copy.push(list[i].clone());
        assert(copy@ =~= list@.take(i + 1));
        i += 1;
    }
    assert(list@.take(i as int) =~= list@);
    copy
}

/// A copy of a configuration map.
pub(crate) fn copy_config(config: &ConfigMap) -> (copy: ConfigMap)
    ensures
        config_model(copy) == config_model(*config),
        copy.keys() == config.keys(),
{
    let copy = config.clone();
    assert(config_model(copy) =~= config_model(*config));
    copy
}

/// Parameters of `thread/start`.
pub struct ThreadStartParams {
    pub cwd: Option<String>,
    pub model: Option<String>,
    pub model_provider: Option<String>,
    pub service_tier: Option<Option<String>>,
    pub runtime_workspace_roots: Option<Vec<String>>,
    pub approval_policy: Option<AskForApproval>,
    pub approvals_reviewer: Option<String>,
    pub sandbox: Option<SandboxMode>,
    pub permissions: Option<String>,
    pub personality: Option<Personality>,
    pub config: Option<ConfigMap>,
    pub base_instructions: Option<String>,
    pub developer_instructions: Option<String>,
    pub ephemeral: Option<bool>,
    pub thread_source: Option<ThreadSource>,
    pub environments: Option<Vec<TurnEnvironmentParams>>,
    pub extra: Option<String>,
}

/// What [`ThreadStartParams`] stand for.
#[verifier::ext_equal]
pub struct ThreadStartModel {
    pub cwd: Option<Seq<char>>,
    pub model: Option<Seq<char>>,
    pub model_provider: Option<Seq<char>>,
    pub service_tier: Option<Option<Seq<char>>>,
    pub runtime_workspace_roots: Option<Seq<Seq<char>>>,
    pub approval_policy: Option<AskForApproval>,
    pub approvals_reviewer: Option<Seq<char>>,
    pub sandbox: Option<SandboxMode>,
    pub permissions: Option<Seq<char>>,
    pub personality: Option<Personality>,
    pub config: Option<ConfigModel>,
    pub base_instructions: Option<Seq<char>>,
    pub developer_instructions: Option<Seq<char>>,
    pub ephemeral: Option<bool>,
    pub thread_source: Option<ThreadSource>,
    pub environments: Option<Seq<TurnEnvironmentParams>>,
    pub extra: Option<Seq<char>>,
}

impl ThreadStartModel {
    /// Nothing is sent.
    pub open spec fn empty() -> Self {
        ThreadStartModel {
            cwd: None,
            model: None,
            model_provider: None,
            service_tier: None,
            runtime_workspace_roots: None,
            approval_policy: None,
            approvals_reviewer: None,
            sandbox: None,
            permissions: None,
            personality: None,
            config: None,
            base_instructions: None,
            developer_instructions: None,
            ephemeral: None,
            thread_source: None,
            environments: None,
            extra: None,
        }
    }
}

impl View for ThreadStartParams {
    type V = ThreadStartModel;

    open spec fn view(&self) -> ThreadStartModel {
        ThreadStartModel {
            cwd: optional_text(self.cwd),
            model: optional_text(self.model),
            model_provider: optional_text(self.model_provider),
            service_tier: tier_override(self.service_tier),
            runtime_workspace_roots: optional_texts(self.runtime_workspace_roots),
            approval_policy: self.approval_policy,
            approvals_reviewer: optional_text(self.approvals_reviewer),
            sandbox: self.sandbox,
            permissions: optional_text(self.permissions),
            personality: self.personality,
            config: optional_config(self.config),
            base_instructions: optional_text(self.base_instructions),
            developer_instructions: optional_text(self.developer_instructions),
            ephemeral: self.ephemeral,
            thread_source: self.thread_source,
            environments: optional_environments(self.environments),
            extra: optional_text(self.extra),
        }
    }
}

impl Default for ThreadStartParams {
    fn default() -> (params: Self)
        ensures
            params@ == ThreadStartModel::empty(),
    {
        ThreadStartParams {
            cwd: None,
            model: None,
            model_provider: None,
            service_tier: None,
            runtime_workspace_roots: None,
            approval_policy: None,
            approvals_reviewer: None,
            sandbox: None,
            permissions: None,
            personality: None,
            config: None,
            base_instructions: None,
            developer_instructions: None,
            ephemeral: None,
            thread_source: None,
            environments: None,
            extra: None,
        }
    }
}

impl Clone for ThreadStartParams {
    fn clone(&self) -> (copy: Self)
        ensures
            copy@ == self@,
    {
        let runtime_workspace_roots = match &self.runtime_workspace_roots {
            Some(roots) => Some(copy_texts(roots)),
            None => None,
        };
        let config = match &self.config {
            Some(config) => Some(copy_config(config)),
            None => None,
        };
        let environments = match &self.environments {
            Some(environments) => Some(copy_environments(environments)),
            None => None,
        };
        let thread_source = match &self.thread_source {
            Some(source) => Some(source.clone()),
            None => None,
        };
        ThreadStartParams {
            cwd: copy_optional(&self.cwd),
            model: copy_optional(&self.model),
            model_provider: copy_optional(&self.model_provider),
            service_tier: copy_tier(&self.service_tier),
            runtime_workspace_roots,
            approval_policy: self.approval_policy,
            approvals_reviewer: copy_optional(&self.approvals_reviewer),
            sandbox: self.sandbox,
            permissions: copy_optional(&self.permissions),
            personality: self.personality,
            config,
            base_instructions: copy_optional(&self.base_instructions),
            developer_instructions: copy_optional(&self.developer_instructions),
            ephemeral: self.ephemeral,
            thread_source,
            environments,
            extra: copy_optional(&self.extra),
        }
    }
}

/// One item of user input.
#[derive(PartialEq, Eq, Debug)]
pub enum UserInput {
    Text { text: String, text_elements: Vec<String> },
    Image { url: String },
    LocalImage { detail: Option<String>, path: PathBuf },
    Other { extra: String },
}

/// What a [`UserInput`] stands for.
pub enum UserInputModel {
    Text { text: Seq<char>, text_elements: Seq<Seq<char>> },
    Image { url: Seq<char> },
    LocalImage { detail: Option<Seq<char>>, path: PathBuf },
    Other { extra: Seq<char> },
}

impl View for UserInput {
    type V = UserInputModel;

    open spec fn view(&self) -> UserInputModel {
        match *self {
            UserInput::Text { text, text_elements } => UserInputModel::Text {
                text: text@,
                text_elements: texts(text_elements@),
            },
            UserInput::Image { url } => UserInputModel::Image { url: url@ },
            UserInput::LocalImage { detail, path } => UserInputModel::LocalImage {
                detail: optional_text(detail),
                path,
            },
            UserInput::Other { extra } => UserInputModel::Other { extra: extra@ },
        }
    }
}

/// What a list of user input stands for.
pub open spec fn input_model(input: Seq<UserInput>) -> Seq<UserInputModel> {
    input.map_values(|item: UserInput| item@)
}

/// Parameters of `turn/start`.
pub struct TurnStartParams {
    pub thread_id: String,
    pub input: Vec<UserInput>,
    pub cwd: Option<PathBuf>,
    pub model: Option<String>,
    pub service_tier: Option<Option<String>>,
    pub personality: Option<Personality>,
    pub approval_policy: Option<AskForApproval>,
    pub sandbox_policy: Option<SandboxPolicy>,
    pub effort: Option<ReasoningEffort>,
    pub summary: Option<ReasoningSummary>,
    pub output_schema: Option<String>,
    pub environments: Option<Vec<TurnEnvironmentParams>>,
    pub extra: Option<String>,
}

/// What [`TurnStartParams`] stand for.
#[verifier::ext_equal]
pub struct TurnStartModel {
    pub thread_id: Seq<char>,
    pub input: Seq<UserInputModel>,
    pub cwd: Option<PathBuf>,
    pub model: Option<Seq<char>>,
    pub service_tier: Option<Option<Seq<char>>>,
    pub personality: Option<Personality>,
    pub approval_policy: Option<AskForApproval>,
    pub sandbox_policy: Option<SandboxPolicyModel>,
    pub effort: Option<ReasoningEffort>,
    pub summary: Option<ReasoningSummary>,
    pub output_schema: Option<Seq<char>>,
    pub environments: Option<Seq<TurnEnvironmentParams>>,
    pub extra: Option<Seq<char>>,
}

/// What a [`SandboxPolicy`] stands for.
pub enum SandboxPolicyModel {
    DangerFullAccess,
    ReadOnly { network_access: bool },
    WorkspaceWrite {
        writable_roots: Seq<Seq<char>>,
        network_access: bool,
        exclude_tmpdir_env_var: bool,
        exclude_slash_tmp: bool,
    },
    ExternalSandbox { extra: Seq<char> },
}

impl View for SandboxPolicy {
    type V = SandboxPolicyModel;

    open spec fn view(&self) -> SandboxPolicyModel {
        match *self {
            SandboxPolicy::DangerFullAccess => SandboxPolicyModel::DangerFullAccess,
            SandboxPolicy::ReadOnly { network_access } => SandboxPolicyModel::ReadOnly { network_access },
            SandboxPolicy::WorkspaceWrite {
                writable_roots,
                network_access,
                exclude_tmpdir_env_var,
                exclude_slash_tmp,
            } => SandboxPolicyModel::WorkspaceWrite {
                writable_roots: texts(writable_roots@),
                network_access,
                exclude_tmpdir_env_var,
                exclude_slash_tmp,
            },
            SandboxPolicy::ExternalSandbox { extra } => SandboxPolicyModel::ExternalSandbox { extra: extra@ },
        }
    }
}

/// What an optional sandbox policy stands for.
pub open spec fn optional_policy(policy: Option<SandboxPolicy>) -> Option<SandboxPolicyModel> {
    match policy {
        Some(policy) => Some(policy@),
        None => None,
    }
}

impl TurnStartModel {
    /// A turn without input and without overrides, of no thread yet.
    pub open spec fn empty() -> Self {
        TurnStartModel {
            thread_id: Seq::empty(),
            input: Seq::empty(),
            cwd: None,
            model: None,
            service_tier: None,
            personality: None,
            approval_policy: None,
            sandbox_policy: None,
            effort: None,
            summary: None,
            output_schema: None,
            environments: None,
            extra: None,
        }
    }
}

impl View for TurnStartParams {
    type V = TurnStartModel;

    open spec fn view(&self) -> TurnStartModel {
        TurnStartModel {
            thread_id: self.thread_id@,
            input: input_model(self.input@),
            cwd: self.cwd,
            model: optional_text(self.model),
            service_tier: tier_override(self.service_tier),
            personality: self.personality,
            approval_policy: self.approval_policy,
            sandbox_policy: optional_policy(self.sandbox_policy),
            effort: self.effort,
            summary: self.summary,
            output_schema: optional_text(self.output_schema),
            environments: optional_environments(self.environments),
            extra: optional_text(self.extra),
        }
    }
}

impl Default for TurnStartParams {
    fn default() -> (params: Self)
        ensures
            params@ == TurnStartModel::empty(),
    {
        let params = TurnStartParams {
            thread_id: String::new(),
            input: Vec::new(),
            cwd: None,
            model: None,
            service_tier: None,
            personality: None,
            approval_policy: None,
            sandbox_policy: None,
            effort: None,
            summary: None,
            output_schema: None,
            environments: None,
            extra: None,
        };
        assert(params@.input =~= Seq::<UserInputModel>::empty());
        params
    }
}

/// Parameters of `thread/resume`.
pub struct ThreadResumeParams {
    pub thread_id: String,
    pub extra: Option<String>,
}

/// Parameters of `thread/fork`.
pub struct ThreadForkParams {
    pub thread_id: String,
    pub thread_source: Option<ThreadSource>,
    pub extra: Option<String>,
}

/// Parameters of `thread/list`.
pub struct ThreadListParams {
    pub cursor: Option<String>,
    pub limit: Option<u32>,
    pub sort_key: Option<String>,
    pub sort_direction: Option<String>,
    pub model_providers: Option<Vec<String>>,
    pub source_kinds: Option<Vec<String>>,
    pub archived: Option<bool>,
    pub cwd: Option<String>,
    pub use_state_db_only: bool,
    pub search_term: Option<String>,
    pub parent_thread_id: Option<String>,
    pub ancestor_thread_id: Option<String>,
}

/// Parameters of `model/list`.
pub struct ModelListParams {
    pub include_hidden: Option<bool>,
    pub cursor: Option<String>,
    pub limit: Option<u32>,
}

/// Parameters of `account/read`.
pub struct GetAccountParams {
    pub refresh_token: bool,
}

/// How much `mcpServerStatus/list` reports.
#[derive(Clone, Copy, PartialEq, Eq, Structural, Debug)]
pub enum McpServerStatusDetail {
    Full,
    ToolsAndAuthOnly,
}

/// A request to the app-server.
#[allow(inconsistent_fields)]
pub enum ClientRequest {
    ModelList { request_id: RequestId, params: ModelListParams },
    GetAccount { request_id: RequestId, params: GetAccountParams },
    ThreadStart { request_id: RequestId, params: ThreadStartParams },
    ThreadResume { request_id: RequestId, params: ThreadResumeParams },
    ThreadFork { request_id: RequestId, params: ThreadForkParams },
    ThreadList { request_id: RequestId, params: ThreadListParams },
    ThreadArchive { request_id: RequestId, thread_id: String },
    ThreadUnarchive { request_id: RequestId, thread_id: String },
    ThreadRead { request_id: RequestId, thread_id: String, include_turns: bool },
    ThreadSetName { request_id: RequestId, thread_id: String, name: String },
    ThreadCompactStart { request_id: RequestId, thread_id: String },
    TurnStart { request_id: RequestId, params: TurnStartParams },
    TurnSteer { request_id: RequestId, thread_id: String, input: Vec<UserInput>, expected_turn_id: String },
    TurnInterrupt { request_id: RequestId, thread_id: String, turn_id: String },
    SkillsList { request_id: RequestId, cwds: Vec<String>, force_reload: bool },
    PermissionProfileList {
        request_id: RequestId,
        cursor: Option<String>,
        limit: Option<u32>,
        cwd: Option<String>,
    },
    ConfigRequirementsRead { request_id: RequestId },
    McpServerStatusList {
        request_id: RequestId,
        cursor: Option<String>,
        limit: Option<u32>,
        detail: Option<McpServerStatusDetail>,
        thread_id: Option<String>,
    },
    AppsList {
        request_id: RequestId,
        cursor: Option<String>,
        limit: Option<u32>,
        thread_id: Option<String>,
        force_refetch: bool,
    },
}

} // verus!
