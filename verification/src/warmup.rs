//! Warmup of the app-server connection.
//!
//! A warmup sends idempotent inventory and configuration requests through an
//! already-started app-server. It creates no thread, so an application can hide
//! cold-start cost before the first session that a user sees. A step that fails
//! is recorded and does not stop the others.
use crate::client::{Codex, CodexModel};
use crate::debug::{duration_text, seconds, whole_seconds, write_duration};
use crate::error::Error;
use crate::path::{cwd_to_string, lossy_path_text};
use crate::protocol::{
    ClientRequest, GetAccountParams, McpServerStatusDetail, ModelListParams, ThreadStartModel, ThreadStartParams,
};
use crate::text::{copy_optional, optional_text, texts};
use std::path::PathBuf;
use std::time::Duration;
use vstd::prelude::*;
use vstd::string::StringExecFns;

verus! {

/// How long one warmup request may take where nothing else was set, in
/// seconds.
pub const DEFAULT_STEP_TIMEOUT_SECS: u64 = 30;

/// One request of a warmup.
#[derive(Clone, Copy, PartialEq, Eq, Structural, Debug)]
pub enum WarmupStep {
    Models,
    Skills,
    PermissionProfiles,
    ConfigRequirements,
    Account,
    McpStatus,
    Apps,
}

impl WarmupStep {
    /// The app-server method of the step.
    pub open spec fn method(self) -> Seq<char> {
        match self {
            WarmupStep::Models => "model/list"@,
            WarmupStep::Skills => "skills/list"@,
            WarmupStep::PermissionProfiles => "permissionProfile/list"@,
            WarmupStep::ConfigRequirements => "configRequirements/read"@,
            WarmupStep::Account => "account/read"@,
            WarmupStep::McpStatus => "mcpServerStatus/list"@,
            WarmupStep::Apps => "app/list"@,
        }
    }

    /// The app-server method of the step.
    pub fn method_name(self) -> (name: &'static str)
        ensures
            name@ == self.method(),
    {
        match self {
            WarmupStep::Models => "model/list",
            WarmupStep::Skills => "skills/list",
            WarmupStep::PermissionProfiles => "permissionProfile/list",
            WarmupStep::ConfigRequirements => "configRequirements/read",
            WarmupStep::Account => "account/read",
            WarmupStep::McpStatus => "mcpServerStatus/list",
            WarmupStep::Apps => "app/list",
        }
    }
}

/// What to warm, and how.
pub struct WarmupTargets {
    pub thread_params: ThreadStartParams,
    pub models: bool,
    pub skills: bool,
    pub force_reload_skills: bool,
    pub permission_profiles: bool,
    pub config_requirements: bool,
    pub account: bool,
    pub mcp_status: bool,
    pub apps: bool,
    /// How long one request may take.
    pub step_timeout: Duration,
}

impl WarmupTargets {
    /// Whether a step is taken.
    pub open spec fn enables(self, step: WarmupStep) -> bool {
        match step {
            WarmupStep::Models => self.models,
            WarmupStep::Skills => self.skills,
            WarmupStep::PermissionProfiles => self.permission_profiles,
            WarmupStep::ConfigRequirements => self.config_requirements,
            WarmupStep::Account => self.account,
            WarmupStep::McpStatus => self.mcp_status,
            WarmupStep::Apps => self.apps,
        }
    }

    /// The steps to take, in order.
    pub open spec fn steps(self) -> Seq<WarmupStep> {
        all_steps().filter(|step: WarmupStep| self.enables(step))
    }

    /// Whether a step is taken.
    pub fn is_enabled(&self, step: WarmupStep) -> (enabled: bool)
        ensures
            enabled == self.enables(step),
    {
        match step {
            WarmupStep::Models => self.models,
            WarmupStep::Skills => self.skills,
            WarmupStep::PermissionProfiles => self.permission_profiles,
            WarmupStep::ConfigRequirements => self.config_requirements,
            WarmupStep::Account => self.account,
            WarmupStep::McpStatus => self.mcp_status,
            WarmupStep::Apps => self.apps,
        }
    }
}

/// All steps, in the order in which they are taken.
pub open spec fn all_steps() -> Seq<WarmupStep> {
    seq![
        WarmupStep::Models,
        WarmupStep::Skills,
        WarmupStep::PermissionProfiles,
        WarmupStep::ConfigRequirements,
        WarmupStep::Account,
        WarmupStep::McpStatus,
        WarmupStep::Apps,
    ]
}

impl Default for WarmupTargets {
    fn default() -> (targets: Self)
        ensures
            targets.thread_params@ == ThreadStartModel::empty(),
            targets.models,
            targets.skills,
            !targets.force_reload_skills,
            targets.permission_profiles,
            targets.config_requirements,
            targets.account,
            targets.mcp_status,
            !targets.apps,
            targets.step_timeout == whole_seconds(DEFAULT_STEP_TIMEOUT_SECS),
    {
        WarmupTargets {
            thread_params: ThreadStartParams::default(),
            models: true,
            skills: true,
            force_reload_skills: false,
            permission_profiles: true,
            config_requirements: true,
            account: true,
            mcp_status: true,
            apps: false,
            step_timeout: seconds(DEFAULT_STEP_TIMEOUT_SECS),
        }
    }
}

/// Summary of caches and inventories touched by a warmup run.
///
/// Each field is `None` when the matching step was disabled or failed, and
/// `Some` when its request completed successfully.
#[derive(Debug)]
pub struct WarmupResult {
    /// Number of models returned by `model/list`.
    pub models: Option<usize>,
    /// Number of skills returned by `skills/list` across all warmed cwds.
    pub skills: Option<usize>,
    /// Number of permission profiles returned by `permissionProfile/list`.
    pub permission_profiles: Option<usize>,
    /// Whether `configRequirements/read` found configured requirements.
    pub config_requirements: Option<bool>,
    /// Whether `account/read` returned an account.
    pub account: Option<bool>,
    /// Number of MCP servers returned by `mcpServerStatus/list`.
    pub mcp_servers: Option<usize>,
    /// Number of apps returned by `app/list`.
    pub apps: Option<usize>,
    /// Best-effort warmup steps that failed.
    pub failures: Vec<WarmupFailure>,
}

/// A non-fatal failure from one warmup step.
#[derive(Debug)]
pub struct WarmupFailure {
    /// App-server method or logical step that failed.
    pub step: &'static str,
    /// Human-readable error returned by the app-server protocol layer.
    pub error: String,
}

/// What a [`WarmupFailure`] stands for.
pub struct FailureModel {
    pub step: Seq<char>,
    pub error: Seq<char>,
}

impl View for WarmupFailure {
    type V = FailureModel;

    open spec fn view(&self) -> FailureModel {
        FailureModel { step: self.step@, error: self.error@ }
    }
}

impl Clone for WarmupFailure {
    fn clone(&self) -> (copy: Self)
        ensures
            copy == *self,
    {
        WarmupFailure { step: self.step, error: self.error.clone() }
    }
}

/// What a [`WarmupResult`] stands for.
#[verifier::ext_equal]
pub struct ResultModel {
    pub models: Option<usize>,
    pub skills: Option<usize>,
    pub permission_profiles: Option<usize>,
    pub config_requirements: Option<bool>,
    pub account: Option<bool>,
    pub mcp_servers: Option<usize>,
    pub apps: Option<usize>,
    pub failures: Seq<FailureModel>,
}

impl View for WarmupResult {
    type V = ResultModel;

    open spec fn view(&self) -> ResultModel {
        ResultModel {
            models: self.models,
            skills: self.skills,
            permission_profiles: self.permission_profiles,
            config_requirements: self.config_requirements,
            account: self.account,
            mcp_servers: self.mcp_servers,
            apps: self.apps,
            failures: self.failures@.map_values(|failure: WarmupFailure| failure@),
        }
    }
}

/// What the response to a step says.
pub enum WarmupResponse {
    /// The number of models.
    Models(usize),
    /// The number of skills in each warmed directory.
    Skills(Vec<usize>),
    /// The number of permission profiles.
    PermissionProfiles(usize),
    /// Whether there are requirements.
    ConfigRequirements(bool),
    /// Whether there is an account.
    Account(bool),
    /// The number of MCP servers.
    McpStatus(usize),
    /// The number of apps.
    Apps(usize),
}

/// Why a step failed.
pub enum WarmupStepError {
    Request(Error),
    Timeout(Duration),
}

impl WarmupStepError {
    /// What the error says to people.
    pub open spec fn text(self) -> Seq<char> {
        match self {
            WarmupStepError::Request(error) => error.text(),
            WarmupStepError::Timeout(timeout) => "warmup request timed out after "@ + duration_text(timeout),
        }
    }

    /// What the error says to people.
    pub fn message(&self) -> (message: String)
        ensures
            message@ == self.text(),
    {
        match self {
            WarmupStepError::Request(error) => error.message(),
            WarmupStepError::Timeout(timeout) => "warmup request timed out after ".to_owned().concat(
                write_duration(timeout).as_str(),
            ),
        }
    }
}

/// What came back for the request of a step.
pub enum WarmupReply {
    /// The request came to an end in time.
    Answered(std::result::Result<WarmupResponse, Error>),
    /// Nothing came back in the time that a step may take.
    TimedOut,
}

impl WarmupReply {
    /// What became of the step, where a step may take `timeout`.
    pub open spec fn outcome(self, timeout: Duration) -> std::result::Result<WarmupResponse, WarmupStepError> {
        match self {
            WarmupReply::Answered(Ok(response)) => Ok(response),
            WarmupReply::Answered(Err(error)) => Err(WarmupStepError::Request(error)),
            WarmupReply::TimedOut => Err(WarmupStepError::Timeout(timeout)),
        }
    }

    /// What became of the step, where a step may take `timeout`.
    pub fn into_outcome(self, timeout: Duration) -> (outcome: std::result::Result<WarmupResponse, WarmupStepError>)
        ensures
            outcome == self.outcome(timeout),
    {
        match self {
            WarmupReply::Answered(Ok(response)) => Ok(response),
            WarmupReply::Answered(Err(error)) => Err(WarmupStepError::Request(error)),
            WarmupReply::TimedOut => Err(WarmupStepError::Timeout(timeout)),
        }
    }
}

/// The sum of `counts`.
pub open spec fn total(counts: Seq<usize>) -> nat
    decreases counts.len(),
{
    if counts.len() == 0 {
        0
    } else {
        total(counts.drop_last()) + counts.last() as nat
    }
}

/// A part of a list sums up to no more than the list.
proof fn lemma_total_grows(counts: Seq<usize>, i: int)
    requires
        0 <= i <= counts.len(),
    ensures
        total(counts.take(i)) <= total(counts),
    decreases counts.len() - i,
{
    if i < counts.len() {
        lemma_total_grows(counts, i + 1);
        assert(counts.take(i + 1).drop_last() =~= counts.take(i));
    } else {
        assert(counts.take(i) =~= counts);
    }
}

/// The sum of `counts`.
fn sum(counts: &Vec<usize>) -> (sum: usize)
    requires
        total(counts@) <= usize::MAX,
    ensures
        sum == total(counts@),
{
    let mut sum: usize = 0;
    let mut i: usize = 0;
    while i < counts.len()
        invariant
            i <= counts@.len(),
            sum == total(counts@.take(i as int)),
            total(counts@) <= usize::MAX,
        decreases counts@.len() - i,
    {
        proof {
            lemma_total_grows(counts@, i + 1);
            assert(counts@.take(i + 1).drop_last() =~= counts@.take(i as int));
        }
        sum = sum + counts[i];
        i += 1;
    }
    assert(counts@.take(i as int) =~= counts@);
    sum
}

impl WarmupResponse {
    /// The step that the response belongs to.
    pub open spec fn step(self) -> WarmupStep {
        match self {
            WarmupResponse::Models(_) => WarmupStep::Models,
            WarmupResponse::Skills(_) => WarmupStep::Skills,
            WarmupResponse::PermissionProfiles(_) => WarmupStep::PermissionProfiles,
            WarmupResponse::ConfigRequirements(_) => WarmupStep::ConfigRequirements,
            WarmupResponse::Account(_) => WarmupStep::Account,
            WarmupResponse::McpStatus(_) => WarmupStep::McpStatus,
            WarmupResponse::Apps(_) => WarmupStep::Apps,
        }
    }

    /// What the response says can be counted.
    pub open spec fn countable(self) -> bool {
        self matches WarmupResponse::Skills(counts) ==> total(counts@) <= usize::MAX
    }
}

impl ResultModel {
    /// No step has been taken.
    pub open spec fn empty() -> Self {
        ResultModel {
            models: None,
            skills: None,
            permission_profiles: None,
            config_requirements: None,
            account: None,
            mcp_servers: None,
            apps: None,
            failures: Seq::empty(),
        }
    }

    /// Whether a step completed successfully.
    pub open spec fn has(self, step: WarmupStep) -> bool {
        match step {
            WarmupStep::Models => self.models is Some,
            WarmupStep::Skills => self.skills is Some,
            WarmupStep::PermissionProfiles => self.permission_profiles is Some,
            WarmupStep::ConfigRequirements => self.config_requirements is Some,
            WarmupStep::Account => self.account is Some,
            WarmupStep::McpStatus => self.mcp_servers is Some,
            WarmupStep::Apps => self.apps is Some,
        }
    }

    /// The result after a step that succeeded.
    pub open spec fn succeeded(self, response: WarmupResponse) -> Self {
        match response {
            WarmupResponse::Models(value) => ResultModel { models: Some(value), ..self },
            WarmupResponse::Skills(value) => ResultModel { skills: Some(total(value@) as usize), ..self },
            WarmupResponse::PermissionProfiles(value) => ResultModel { permission_profiles: Some(value), ..self },
            WarmupResponse::ConfigRequirements(value) => ResultModel { config_requirements: Some(value), ..self },
            WarmupResponse::Account(value) => ResultModel { account: Some(value), ..self },
            WarmupResponse::McpStatus(value) => ResultModel { mcp_servers: Some(value), ..self },
            WarmupResponse::Apps(value) => ResultModel { apps: Some(value), ..self },
        }
    }

    /// The result after a step that failed.
    pub open spec fn failed(self, step: WarmupStep, error: Seq<char>) -> Self {
        ResultModel { failures: self.failures.push(FailureModel { step: step.method(), error }), ..self }
    }

    /// The result after a step.
    pub open spec fn recorded(
        self,
        step: WarmupStep,
        outcome: std::result::Result<WarmupResponse, WarmupStepError>,
    ) -> Self {
        match outcome {
            Ok(response) => self.succeeded(response),
            Err(error) => self.failed(step, error.text()),
        }
    }
}

impl Clone for WarmupResult {
    fn clone(&self) -> (copy: Self)
        ensures
            copy@ == self@,
    {
        let mut failures: Vec<WarmupFailure> = Vec::new();
        let mut i: usize = 0;
        while i < self.failures.len()
            invariant
                i <= self.failures@.len(),
                failures@ == self.failures@.take(i as int),
            decreases self.failures@.len() - i,
        {
            failures.push(self.failures[i].clone());
            assert(failures@ =~= self.failures@.take(i + 1));
            i += 1;
        }
        assert(self.failures@.take(i as int) =~= self.failures@);
        WarmupResult {
            models: self.models,
            skills: self.skills,
            permission_profiles: self.permission_profiles,
            config_requirements: self.config_requirements,
            account: self.account,
            mcp_servers: self.mcp_servers,
            apps: self.apps,
            failures,
        }
    }
}

impl Default for WarmupResult {
    fn default() -> (result: Self)
        ensures
            result@ == ResultModel::empty(),
    {
        let result = WarmupResult {
            models: None,
            skills: None,
            permission_profiles: None,
            config_requirements: None,
            account: None,
            mcp_servers: None,
            apps: None,
            failures: Vec::new(),
        };
        assert(result@.failures =~= Seq::<FailureModel>::empty());
        result
    }
}

impl WarmupResult {
    /// Whether every enabled warmup step completed successfully.
    pub fn is_complete(&self) -> (complete: bool)
        ensures
            complete == (self@.failures.len() == 0),
    {
        self.failures.len() == 0
    }

    /// Records a step that failed.
    pub fn push_failure(&mut self, step: &'static str, error: String)
        ensures
            final(self)@ == (ResultModel {
                failures: old(self)@.failures.push(FailureModel { step: step@, error: error@ }),
                ..old(self)@
            }),
    {
        self.failures.push(WarmupFailure { step, error });
        assert(self@.failures =~= old(self)@.failures.push(FailureModel { step: step@, error: error@ }));
    }
}

/// Builder for warming app-server caches without creating a thread.
///
/// It warms the model catalog, skills, permission profiles, managed
/// configuration requirements, account lookup, and MCP server status; app
/// listing can be switched on.
pub struct WarmupBuilder {
    pub targets: WarmupTargets,
}

impl WarmupBuilder {
    /// A builder with the default targets.
    pub fn new() -> (builder: Self)
        ensures
            builder.targets.thread_params@ == ThreadStartModel::empty(),
            builder.targets.models,
            builder.targets.skills,
            !builder.targets.force_reload_skills,
            builder.targets.permission_profiles,
            builder.targets.config_requirements,
            builder.targets.account,
            builder.targets.mcp_status,
            !builder.targets.apps,
            builder.targets.step_timeout == whole_seconds(DEFAULT_STEP_TIMEOUT_SECS),
    {
        WarmupBuilder { targets: WarmupTargets::default() }
    }

    /// Replaces the native `thread/start` parameters that tell which directory
    /// to warm.
    pub fn thread_params(self, params: ThreadStartParams) -> (builder: Self)
        ensures
            builder == (WarmupBuilder { targets: WarmupTargets { thread_params: params, ..self.targets } }),
    {
        WarmupBuilder { targets: WarmupTargets { thread_params: params, ..self.targets } }
    }

    /// Sets the directory to warm. The one that the first session will use
    /// gives the closest match.
    pub fn cwd(self, cwd: PathBuf) -> (builder: Self)
        ensures
            builder == (WarmupBuilder {
                targets: WarmupTargets { thread_params: builder.targets.thread_params, ..self.targets },
            }),
            builder.targets.thread_params@ == (ThreadStartModel {
                cwd: Some(lossy_path_text(cwd)),
                ..self.targets.thread_params@
            }),
    {
        let thread_params = ThreadStartParams { cwd: Some(cwd_to_string(&cwd)), ..self.targets.thread_params };
        WarmupBuilder { targets: WarmupTargets { thread_params, ..self.targets } }
    }

    /// Sets the model associated with the warmup target.
    pub fn model(self, model: String) -> (builder: Self)
        ensures
            builder == (WarmupBuilder {
                targets: WarmupTargets { thread_params: builder.targets.thread_params, ..self.targets },
            }),
            builder.targets.thread_params@ == (ThreadStartModel {
                model: Some(model@),
                ..self.targets.thread_params@
            }),
    {
        let thread_params = ThreadStartParams { model: Some(model), ..self.targets.thread_params };
        WarmupBuilder { targets: WarmupTargets { thread_params, ..self.targets } }
    }

    /// Sets the model provider associated with the warmup target.
    pub fn model_provider(self, model_provider: String) -> (builder: Self)
        ensures
            builder == (WarmupBuilder {
                targets: WarmupTargets { thread_params: builder.targets.thread_params, ..self.targets },
            }),
            builder.targets.thread_params@ == (ThreadStartModel {
                model_provider: Some(model_provider@),
                ..self.targets.thread_params@
            }),
    {
        let thread_params = ThreadStartParams { model_provider: Some(model_provider), ..self.targets.thread_params };
        WarmupBuilder { targets: WarmupTargets { thread_params, ..self.targets } }
    }

    /// Enables or disables model catalog warmup.
    pub fn models(self, enabled: bool) -> (builder: Self)
        ensures
            builder == (WarmupBuilder { targets: WarmupTargets { models: enabled, ..self.targets } }),
    {
        WarmupBuilder { targets: WarmupTargets { models: enabled, ..self.targets } }
    }

    /// Enables or disables skills warmup.
    pub fn skills(self, enabled: bool) -> (builder: Self)
        ensures
            builder == (WarmupBuilder { targets: WarmupTargets { skills: enabled, ..self.targets } }),
    {
        WarmupBuilder { targets: WarmupTargets { skills: enabled, ..self.targets } }
    }

    /// Forces the skills request to bypass cached skill state.
    pub fn force_reload_skills(self, enabled: bool) -> (builder: Self)
        ensures
            builder == (WarmupBuilder { targets: WarmupTargets { force_reload_skills: enabled, ..self.targets } }),
    {
        WarmupBuilder { targets: WarmupTargets { force_reload_skills: enabled, ..self.targets } }
    }

    /// Enables or disables permission profile warmup.
    pub fn permission_profiles(self, enabled: bool) -> (builder: Self)
        ensures
            builder == (WarmupBuilder { targets: WarmupTargets { permission_profiles: enabled, ..self.targets } }),
    {
        WarmupBuilder { targets: WarmupTargets { permission_profiles: enabled, ..self.targets } }
    }

    /// Enables or disables configuration requirements warmup.
    pub fn config_requirements(self, enabled: bool) -> (builder: Self)
        ensures
            builder == (WarmupBuilder { targets: WarmupTargets { config_requirements: enabled, ..self.targets } }),
    {
        WarmupBuilder { targets: WarmupTargets { config_requirements: enabled, ..self.targets } }
    }

    /// Enables or disables account warmup.
    pub fn account(self, enabled: bool) -> (builder: Self)
        ensures
            builder == (WarmupBuilder { targets: WarmupTargets { account: enabled, ..self.targets } }),
    {
        WarmupBuilder { targets: WarmupTargets { account: enabled, ..self.targets } }
    }

    /// Enables or disables MCP status warmup.
    pub fn mcp_status(self, enabled: bool) -> (builder: Self)
        ensures
            builder == (WarmupBuilder { targets: WarmupTargets { mcp_status: enabled, ..self.targets } }),
    {
        WarmupBuilder { targets: WarmupTargets { mcp_status: enabled, ..self.targets } }
    }

    /// Enables or disables app listing warmup.
    pub fn apps(self, enabled: bool) -> (builder: Self)
        ensures
            builder == (WarmupBuilder { targets: WarmupTargets { apps: enabled, ..self.targets } }),
    {
        WarmupBuilder { targets: WarmupTargets { apps: enabled, ..self.targets } }
    }

    /// Sets how long each request may take.
    pub fn step_timeout(self, timeout: Duration) -> (builder: Self)
        ensures
            builder == (WarmupBuilder { targets: WarmupTargets { step_timeout: timeout, ..self.targets } }),
    {
        WarmupBuilder { targets: WarmupTargets { step_timeout: timeout, ..self.targets } }
    }

    /// Starts the warmup. Its steps are taken one after the other.
    pub fn send(self, codex: &Codex) -> (run: WarmupRun)
        ensures
            run@ == RunModel::started(self.targets, codex@),
            run@.step_timeout == self.targets.step_timeout,
    {
        let cwd = self.take_effective_cwd(codex);
        let mut steps: Vec<WarmupStep> = Vec::new();
        let all: Vec<WarmupStep> = vec![
            WarmupStep::Models,
            WarmupStep::Skills,
            WarmupStep::PermissionProfiles,
            WarmupStep::ConfigRequirements,
            WarmupStep::Account,
            WarmupStep::McpStatus,
            WarmupStep::Apps,
        ];
        assert(all@ =~= all_steps());
        let mut i: usize = 0;
        proof {
            reveal(Seq::filter);
            assert(all@.take(0) =~= Seq::<WarmupStep>::empty());
            assert(steps@ =~= all@.take(0).filter(|step: WarmupStep| self.targets.enables(step)));
        }
        while i < all.len()
            invariant
                i <= all@.len(),
                steps@ == all@.take(i as int).filter(|step: WarmupStep| self.targets.enables(step)),
            decreases all@.len() - i,
        {
            proof {
                reveal(Seq::filter);
                assert(all@.take(i + 1).drop_last() =~= all@.take(i as int));
            }
            if self.targets.is_enabled(all[i]) {
                steps.push(all[i]);
            }
            i += 1;
        }
        assert(all@.take(i as int) =~= all@);
        WarmupRun {
            cwd,
            force_reload_skills: self.targets.force_reload_skills,
            step_timeout: self.targets.step_timeout,
            steps,
            result: WarmupResult::default(),
        }
    }

    /// The directory to warm: the one that was set, or else the default of new
    /// threads.
    fn take_effective_cwd(&self, codex: &Codex) -> (cwd: Option<String>)
        ensures
            optional_text(cwd) == effective_cwd(self.targets, codex@),
    {
        match &self.targets.thread_params.cwd {
            Some(cwd) => Some(cwd.clone()),
            None => copy_optional(&codex.default_thread_params().cwd),
        }
    }
}

/// The directory to warm: the one that was set, or else the default of new
/// threads.
pub open spec fn effective_cwd(targets: WarmupTargets, codex: CodexModel) -> Option<Seq<char>> {
    match targets.thread_params@.cwd {
        Some(cwd) => Some(cwd),
        None => codex.default_thread_params.cwd,
    }
}

impl Codex {
    /// Warms app-server caches and inventories without creating a thread.
    pub fn warmup(&self) -> (builder: WarmupBuilder)
        ensures
            builder.targets.thread_params@ == ThreadStartModel::empty(),
            builder.targets.models,
            builder.targets.skills,
            !builder.targets.force_reload_skills,
            builder.targets.permission_profiles,
            builder.targets.config_requirements,
            builder.targets.account,
            builder.targets.mcp_status,
            !builder.targets.apps,
            builder.targets.step_timeout == whole_seconds(DEFAULT_STEP_TIMEOUT_SECS),
    {
        WarmupBuilder::new()
    }
}

/// What a [`WarmupRun`] stands for.
#[verifier::ext_equal]
pub struct RunModel {
    /// The directory to warm.
    pub cwd: Option<Seq<char>>,
    pub force_reload_skills: bool,
    /// How long each step may take.
    pub step_timeout: Duration,
    /// The steps still to take.
    pub steps: Seq<WarmupStep>,
    /// What the steps taken so far have found.
    pub result: ResultModel,
}

impl RunModel {
    /// A warmup that has just started.
    pub open spec fn started(targets: WarmupTargets, codex: CodexModel) -> Self {
        RunModel {
            cwd: effective_cwd(targets, codex),
            force_reload_skills: targets.force_reload_skills,
            step_timeout: targets.step_timeout,
            steps: targets.steps(),
            result: ResultModel::empty(),
        }
    }

    /// The warmup after its next step, for whose request `reply` came back.
    pub open spec fn recorded(self, reply: WarmupReply) -> Self {
        RunModel {
            steps: self.steps.drop_first(),
            result: self.result.recorded(self.steps[0], reply.outcome(self.step_timeout)),
            ..self
        }
    }

    /// Whether `request` is the request of `step`.
    pub open spec fn is_request(self, request: ClientRequest, step: WarmupStep, codex: CodexModel) -> bool {
        match step {
            WarmupStep::Models => request == (ClientRequest::ModelList {
                request_id: codex.next_id(),
                params: ModelListParams { include_hidden: Some(true), cursor: None, limit: None },
            }),
            WarmupStep::Skills => request matches ClientRequest::SkillsList { request_id, cwds, force_reload }
                && request_id == codex.next_id() && force_reload == self.force_reload_skills && texts(cwds@) == (
            match self.cwd {
                Some(cwd) => seq![cwd],
                None => Seq::empty(),
            }),
            WarmupStep::PermissionProfiles => request matches ClientRequest::PermissionProfileList {
                request_id,
                cursor,
                limit,
                cwd,
            } && request_id == codex.next_id() && cursor is None && limit is None && optional_text(cwd) == self.cwd,
            WarmupStep::ConfigRequirements => request == (ClientRequest::ConfigRequirementsRead {
                request_id: codex.next_id(),
            }),
            WarmupStep::Account => request == (ClientRequest::GetAccount {
                request_id: codex.next_id(),
                params: GetAccountParams { refresh_token: false },
            }),
            WarmupStep::McpStatus => request == (ClientRequest::McpServerStatusList {
                request_id: codex.next_id(),
                cursor: None,
                limit: None,
                detail: Some(McpServerStatusDetail::ToolsAndAuthOnly),
                thread_id: None,
            }),
            WarmupStep::Apps => request == (ClientRequest::AppsList {
                request_id: codex.next_id(),
                cursor: None,
                limit: None,
                thread_id: None,
                force_refetch: false,
            }),
        }
    }
}

/// A warmup under way.
pub struct WarmupRun {
    cwd: Option<String>,
    force_reload_skills: bool,
    step_timeout: Duration,
    steps: Vec<WarmupStep>,
    result: WarmupResult,
}

impl View for WarmupRun {
    type V = RunModel;

    closed spec fn view(&self) -> RunModel {
        RunModel {
            cwd: optional_text(self.cwd),
            force_reload_skills: self.force_reload_skills,
            step_timeout: self.step_timeout,
            steps: self.steps@,
            result: self.result@,
        }
    }
}

impl WarmupRun {
    /// The request of the next step, where one is left.
    pub fn next_request(&self, codex: &mut Codex) -> (request: Option<ClientRequest>)
        ensures
            match request {
                Some(request) => self@.steps.len() > 0 && self@.is_request(request, self@.steps[0], old(codex)@)
                    && final(codex)@ == old(codex)@.requested(),
                None => self@.steps.len() == 0 && final(codex)@ == old(codex)@,
            },
    {
        if self.steps.len() == 0 {
            return None;
        }
        let request = match self.steps[0] {
            WarmupStep::Models => codex.models_params(
                ModelListParams { include_hidden: Some(true), cursor: None, limit: None },
            ),
            WarmupStep::Skills => {
                let mut cwds: Vec<String> = Vec::new();
                if let Some(cwd) = &self.cwd {
                    cwds.push(cwd.clone());
                }
                assert(texts(cwds@) =~= match self@.cwd {
                    Some(cwd) => seq![cwd],
                    None => Seq::<Seq<char>>::empty(),
                });
                ClientRequest::SkillsList {
                    request_id: codex.next_request_id(),
                    cwds,
                    force_reload: self.force_reload_skills,
                }
            },
            WarmupStep::PermissionProfiles => ClientRequest::PermissionProfileList {
                request_id: codex.next_request_id(),
                cursor: None,
                limit: None,
                cwd: copy_optional(&self.cwd),
            },
            WarmupStep::ConfigRequirements => ClientRequest::ConfigRequirementsRead {
                request_id: codex.next_request_id(),
            },
            WarmupStep::Account => codex.account_params(GetAccountParams { refresh_token: false }),
            WarmupStep::McpStatus => ClientRequest::McpServerStatusList {
                request_id: codex.next_request_id(),
                cursor: None,
                limit: None,
                detail: Some(McpServerStatusDetail::ToolsAndAuthOnly),
                thread_id: None,
            },
            WarmupStep::Apps => ClientRequest::AppsList {
                request_id: codex.next_request_id(),
                cursor: None,
                limit: None,
                thread_id: None,
                force_refetch: false,
            },
        };
        Some(request)
    }

    /// How long the request of a step may take.
    pub fn step_timeout(&self) -> (timeout: Duration)
        ensures
            timeout == self@.step_timeout,
    {
        self.step_timeout
    }

    /// Records what came back for the request of the next step. A request that
    /// timed out is recorded with the time that it had.
    pub fn record(&mut self, reply: WarmupReply)
        requires
            old(self)@.steps.len() > 0,
            reply matches WarmupReply::Answered(Ok(response)) ==> response.step() == old(self)@.steps[0]
                && response.countable(),
        ensures
            final(self)@ == old(self)@.recorded(reply),
    {
        let step = self.steps.remove(0);
        assert(self.steps@ =~= old(self)@.steps.drop_first());
        match reply.into_outcome(self.step_timeout) {
            Ok(response) => match response {
                WarmupResponse::Models(value) => self.result.models = Some(value),
                WarmupResponse::Skills(value) => self.result.skills = Some(sum(&value)),
                WarmupResponse::PermissionProfiles(value) => self.result.permission_profiles = Some(value),
                WarmupResponse::ConfigRequirements(value) => self.result.config_requirements = Some(value),
                WarmupResponse::Account(value) => self.result.account = Some(value),
                WarmupResponse::McpStatus(value) => self.result.mcp_servers = Some(value),
                WarmupResponse::Apps(value) => self.result.apps = Some(value),
            },
            Err(error) => self.result.push_failure(step.method_name(), error.message()),
        }
        assert(self@ =~= old(self)@.recorded(reply));
    }

    /// What the warmup has found.
    pub fn into_result(self) -> (result: WarmupResult)
        ensures
            result@ == self@.result,
    {
        self.result
    }
}

/// The result after the steps `steps` with the outcomes `outcomes`.
pub open spec fn record_all(
    result: ResultModel,
    steps: Seq<WarmupStep>,
    outcomes: Seq<std::result::Result<WarmupResponse, WarmupStepError>>,
) -> ResultModel
    decreases steps.len(),
{
    if steps.len() == 0 {
        result
    } else {
        record_all(result, steps.drop_last(), outcomes.drop_last()).recorded(steps.last(), outcomes.last())
    }
}

/// What became of steps for whose requests `replies` came back, where a step
/// may take `timeout`.
pub open spec fn outcomes_of(
    replies: Seq<WarmupReply>,
    timeout: Duration,
) -> Seq<std::result::Result<WarmupResponse, WarmupStepError>> {
    replies.map_values(|reply: WarmupReply| reply.outcome(timeout))
}

/// A warmup after several of its steps, for whose requests `replies` came back.
pub open spec fn run_after(run: RunModel, replies: Seq<WarmupReply>) -> RunModel
    decreases replies.len(),
{
    if replies.len() == 0 {
        run
    } else {
        run_after(run, replies.drop_last()).recorded(replies.last())
    }
}

/// A warmup takes its steps in order, whatever becomes of them, gives each the
/// same time, and its result is what they have found.
pub proof fn law_no_outcome_stops_the_steps(run: RunModel, replies: Seq<WarmupReply>)
    requires
        replies.len() <= run.steps.len(),
    ensures
        ({
            let count = replies.len() as int;
            let after = run_after(run, replies);
            let outcomes = outcomes_of(replies, run.step_timeout);
            &&& after.steps == run.steps.skip(count)
            &&& after.result == record_all(run.result, run.steps.take(count), outcomes)
            &&& after.cwd == run.cwd
            &&& after.force_reload_skills == run.force_reload_skills
            &&& after.step_timeout == run.step_timeout
        }),
    decreases replies.len(),
{
    let count = replies.len() as int;
    if count == 0 {
        assert(run.steps.skip(0) =~= run.steps);
    } else {
        law_no_outcome_stops_the_steps(run, replies.drop_last());
        assert(run.steps.skip(count - 1).drop_first() =~= run.steps.skip(count));
        assert(run.steps.take(count).drop_last() =~= run.steps.take(count - 1));
        assert(outcomes_of(replies, run.step_timeout).drop_last() =~= outcomes_of(
            replies.drop_last(),
            run.step_timeout,
        ));
    }
}

/// Every outcome belongs to its step.
pub open spec fn outcomes_fit(
    steps: Seq<WarmupStep>,
    outcomes: Seq<std::result::Result<WarmupResponse, WarmupStepError>>,
) -> bool {
    &&& steps.len() == outcomes.len()
    &&& forall|i: int|
        #![trigger outcomes[i]]
        0 <= i < steps.len() && outcomes[i] is Ok ==> outcomes[i]->Ok_0.step() == steps[i]
}

/// How many of the outcomes are failures.
pub open spec fn failure_count(outcomes: Seq<std::result::Result<WarmupResponse, WarmupStepError>>) -> nat
    decreases outcomes.len(),
{
    if outcomes.len() == 0 {
        0
    } else if outcomes.last() is Err {
        failure_count(outcomes.drop_last()) + 1
    } else {
        failure_count(outcomes.drop_last())
    }
}

/// A warmup counts each step for itself: a step has a value exactly when it
/// was taken and succeeded, and every failure is recorded, whatever the other
/// steps did.
pub proof fn law_steps_count_for_themselves(
    steps: Seq<WarmupStep>,
    outcomes: Seq<std::result::Result<WarmupResponse, WarmupStepError>>,
    step: WarmupStep,
)
    requires
        outcomes_fit(steps, outcomes),
    ensures
        ({
            let result = record_all(ResultModel::empty(), steps, outcomes);
            &&& result.has(step) <==> exists|i: int|
                0 <= i < steps.len() && steps[i] == step && (#[trigger] outcomes[i]) is Ok
            &&& result.failures.len() == failure_count(outcomes)
        }),
    decreases steps.len(),
{
    if steps.len() > 0 {
        let front = steps.drop_last();
        let before = outcomes.drop_last();
        assert(outcomes_fit(front, before)) by {
            assert forall|i: int|
                #![trigger before[i]]
                0 <= i < front.len() && before[i] is Ok implies before[i]->Ok_0.step() == front[i] by {
                assert(outcomes[i] == before[i]);
            }
        }
        law_steps_count_for_themselves(front, before, step);
        let earlier = record_all(ResultModel::empty(), front, before);
        let result = record_all(ResultModel::empty(), steps, outcomes);
        let last = steps.len() - 1;
        assert(outcomes[last] == outcomes.last());
        if earlier.has(step) {
            let i = choose|i: int| 0 <= i < front.len() && front[i] == step && (#[trigger] before[i]) is Ok;
            assert(outcomes[i] == before[i]);
        }
        if exists|i: int| 0 <= i < steps.len() && steps[i] == step && (#[trigger] outcomes[i]) is Ok {
            let i = choose|i: int| 0 <= i < steps.len() && steps[i] == step && (#[trigger] outcomes[i]) is Ok;
            if i < last {
                assert(before[i] == outcomes[i]);
                assert(front[i] == step);
            }
        }
    }
}

/// The failures of the steps `steps` with the outcomes `outcomes`, in order:
/// one for each step that failed, with its method and what went wrong.
pub open spec fn failures_of(
    steps: Seq<WarmupStep>,
    outcomes: Seq<std::result::Result<WarmupResponse, WarmupStepError>>,
) -> Seq<FailureModel>
    decreases steps.len(),
{
    if steps.len() == 0 {
        Seq::empty()
    } else {
        let before = failures_of(steps.drop_last(), outcomes.drop_last());
        match outcomes.last() {
            Ok(_) => before,
            Err(error) => before.push(FailureModel { step: steps.last().method(), error: error.text() }),
        }
    }
}

/// How many of `failures` name `step`.
pub open spec fn naming(failures: Seq<FailureModel>, step: WarmupStep) -> nat
    decreases failures.len(),
{
    if failures.len() == 0 {
        0
    } else if failures.last().step == step.method() {
        naming(failures.drop_last(), step) + 1
    } else {
        naming(failures.drop_last(), step)
    }
}

/// The failures of a warmup are those of the steps that failed, in the order
/// in which the steps were taken.
pub proof fn law_failures_are_those_of_the_steps(
    steps: Seq<WarmupStep>,
    outcomes: Seq<std::result::Result<WarmupResponse, WarmupStepError>>,
)
    requires
        steps.len() == outcomes.len(),
    ensures
        record_all(ResultModel::empty(), steps, outcomes).failures == failures_of(steps, outcomes),
    decreases steps.len(),
{
    if steps.len() > 0 {
        law_failures_are_those_of_the_steps(steps.drop_last(), outcomes.drop_last());
    }
}

/// Each step has a method of its own.
pub proof fn law_methods_tell_steps_apart(step: WarmupStep, other: WarmupStep)
    ensures
        step.method() == other.method() <==> step == other,
{
    reveal_strlit("model/list");
    reveal_strlit("skills/list");
    reveal_strlit("permissionProfile/list");
    reveal_strlit("configRequirements/read");
    reveal_strlit("account/read");
    reveal_strlit("mcpServerStatus/list");
    reveal_strlit("app/list");
    assert("model/list"@[0] == 'm');
    assert("mcpServerStatus/list"@.len() == 20);
    assert("account/read"@[1] == 'c');
    assert("app/list"@[1] == 'p');
    assert("skills/list"@[0] == 's');
    assert("permissionProfile/list"@[0] == 'p');
    assert("configRequirements/read"@[0] == 'c');
}

/// The steps of a warmup are distinct.
pub proof fn law_steps_are_distinct(targets: WarmupTargets)
    ensures
        targets.steps().no_duplicates(),
{
    let enabled = |step: WarmupStep| targets.enables(step);
    let all = all_steps();
    reveal_with_fuel(Seq::filter, 8);
    assert(all.drop_last().drop_last().drop_last().drop_last().drop_last().drop_last().drop_last()
        =~= Seq::<WarmupStep>::empty());
}

/// Where no step is taken twice, exactly one failure names a step that failed,
/// with what went wrong, and none a step that was not taken or succeeded.
pub proof fn law_each_failed_step_is_named_once(
    steps: Seq<WarmupStep>,
    outcomes: Seq<std::result::Result<WarmupResponse, WarmupStepError>>,
    step: WarmupStep,
)
    requires
        steps.len() == outcomes.len(),
        steps.no_duplicates(),
    ensures
        ({
            let failures = record_all(ResultModel::empty(), steps, outcomes).failures;
            &&& forall|i: int|
                #![trigger outcomes[i]]
                0 <= i < steps.len() && steps[i] == step && outcomes[i] is Err ==> naming(failures, step) == 1
                    && failures.contains(FailureModel { step: step.method(), error: outcomes[i]->Err_0.text() })
            &&& naming(failures, step) > 0 ==> exists|i: int|
                0 <= i < steps.len() && steps[i] == step && (#[trigger] outcomes[i]) is Err
        }),
    decreases steps.len(),
{
    law_failures_are_those_of_the_steps(steps, outcomes);
    if steps.len() > 0 {
        let front = steps.drop_last();
        let before = outcomes.drop_last();
        law_each_failed_step_is_named_once(front, before, step);
        law_failures_are_those_of_the_steps(front, before);
        law_methods_tell_steps_apart(steps.last(), step);
        let earlier = failures_of(front, before);
        let failures = failures_of(steps, outcomes);
        let last = steps.len() - 1;
        assert(outcomes[last] == outcomes.last());
        if outcomes.last() is Err {
            assert(failures.drop_last() =~= earlier);
            assert(failures[earlier.len() as int] == failures.last());
        }
        assert forall|i: int|
            #![trigger outcomes[i]]
            0 <= i < steps.len() && steps[i] == step && outcomes[i] is Err implies naming(failures, step) == 1
                && failures.contains(FailureModel { step: step.method(), error: outcomes[i]->Err_0.text() }) by {
            let failure = FailureModel { step: step.method(), error: outcomes[i]->Err_0.text() };
            if i < last {
                assert(before[i] == outcomes[i]);
                assert(front[i] == step);
                assert(steps[last] != step);
                let k = choose|k: int| 0 <= k < earlier.len() && earlier[k] == failure;
                assert(failures[k] == failure);
            } else {
                if naming(earlier, step) > 0 {
                    let k = choose|k: int| 0 <= k < front.len() && front[k] == step && (#[trigger] before[k]) is Err;
                    assert(steps[k] == steps[last]);
                }
            }
        }
        if naming(failures, step) > 0 {
            if outcomes.last() is Err && steps.last() == step {
                assert(outcomes[last] is Err);
            } else {
                let k = choose|k: int| 0 <= k < front.len() && front[k] == step && (#[trigger] before[k]) is Err;
                assert(outcomes[k] == before[k]);
            }
        }
    }
}

/// A warmup is complete exactly when none of its steps failed.
pub proof fn law_complete_means_no_failure(
    steps: Seq<WarmupStep>,
    outcomes: Seq<std::result::Result<WarmupResponse, WarmupStepError>>,
)
    requires
        outcomes_fit(steps, outcomes),
    ensures
        record_all(ResultModel::empty(), steps, outcomes).failures.len() == 0 <==> forall|i: int|
            0 <= i < outcomes.len() ==> (#[trigger] outcomes[i]) is Ok,
    decreases steps.len(),
{
    law_steps_count_for_themselves(steps, outcomes, WarmupStep::Models);
    lemma_no_failure(outcomes);
}

proof fn lemma_no_failure(outcomes: Seq<std::result::Result<WarmupResponse, WarmupStepError>>)
    ensures
        failure_count(outcomes) == 0 <==> forall|i: int| 0 <= i < outcomes.len() ==> (#[trigger] outcomes[i]) is Ok,
    decreases outcomes.len(),
{
    if outcomes.len() > 0 {
        let before = outcomes.drop_last();
        lemma_no_failure(before);
        assert(outcomes[outcomes.len() - 1] == outcomes.last());
        if failure_count(outcomes) == 0 {
            assert forall|i: int| 0 <= i < outcomes.len() implies (#[trigger] outcomes[i]) is Ok by {
                if i < before.len() {
                    assert(before[i] == outcomes[i]);
                }
            }
        }
        if forall|i: int| 0 <= i < outcomes.len() ==> (#[trigger] outcomes[i]) is Ok {
            assert forall|i: int| 0 <= i < before.len() implies (#[trigger] before[i]) is Ok by {
                assert(before[i] == outcomes[i]);
            }
        }
    }
}

} // verus!
