//! Turns of a conversation.
use crate::client::{thread_attached, Codex, CodexModel, PendingThread};
use crate::error::{Error, Result};
use crate::path::{cwd_to_string, lossy_path_text};
use crate::protocol::{
    input_model, AskForApproval, ClientRequest, Personality, ReasoningEffort, ReasoningSummary, SandboxMode,
    SandboxPolicy, SandboxPolicyModel, ThreadStartModel, ThreadStartParams, TurnStartModel, TurnStartParams,
    UserInput, UserInputModel,
};
use crate::text::texts;
use crate::thread::{user_thread, Thread, ThreadBuilder};
use crate::thread_defaults::EnvironmentAccess;
use crate::types::{ThreadId, TurnId};
use std::path::PathBuf;
use vstd::prelude::*;

verus! {

/// Converts common input shapes into native turn input items.
pub trait IntoTurnInput: Sized {
    /// The input items that the value stands for.
    spec fn turn_input(self) -> Seq<UserInputModel>;

    /// Converts this value into the input of `turn/start`.
    fn into_turn_input(self) -> (input: Vec<UserInput>)
        ensures
            input_model(input@) == self.turn_input(),
    ;
}

/// One text prompt.
pub open spec fn prompt(text: Seq<char>) -> Seq<UserInputModel> {
    seq![UserInputModel::Text { text, text_elements: Seq::empty() }]
}

impl IntoTurnInput for String {
    open spec fn turn_input(self) -> Seq<UserInputModel> {
        prompt(self@)
    }

    fn into_turn_input(self) -> (input: Vec<UserInput>) {
        text_input(self)
    }
}

impl IntoTurnInput for &str {
    open spec fn turn_input(self) -> Seq<UserInputModel> {
        prompt(self@)
    }

    fn into_turn_input(self) -> (input: Vec<UserInput>) {
        text_input(self.to_owned())
    }
}

impl IntoTurnInput for &String {
    open spec fn turn_input(self) -> Seq<UserInputModel> {
        prompt(self@)
    }

    fn into_turn_input(self) -> (input: Vec<UserInput>) {
        text_input(self.clone())
    }
}

impl IntoTurnInput for UserInput {
    open spec fn turn_input(self) -> Seq<UserInputModel> {
        seq![self@]
    }

    fn into_turn_input(self) -> (input: Vec<UserInput>) {
        let mut input: Vec<UserInput> = Vec::new();
        input.push(self);
        assert(input_model(input@) =~= self.turn_input());
        input
    }
}

impl IntoTurnInput for Vec<UserInput> {
    open spec fn turn_input(self) -> Seq<UserInputModel> {
        input_model(self@)
    }

    fn into_turn_input(self) -> (input: Vec<UserInput>) {
        self
    }
}

/// `Vec::from` on an array. Claimed without proof: the items keep their order.
#[verifier::external_body]
fn items_of<const N: usize>(items: [UserInput; N]) -> (list: Vec<UserInput>)
    ensures
        list@ == items@,
{
    Vec::from(items)
}

impl<const N: usize> IntoTurnInput for [UserInput; N] {
    open spec fn turn_input(self) -> Seq<UserInputModel> {
        input_model(self@)
    }

    fn into_turn_input(self) -> (input: Vec<UserInput>) {
        items_of(self)
    }
}

/// One text prompt.
pub fn text_input(text: String) -> (input: Vec<UserInput>)
    ensures
        input_model(input@) == prompt(text@),
{
    let mut input: Vec<UserInput> = Vec::new();
    let text_elements: Vec<String> = Vec::new();
    assert(texts(text_elements@) =~= Seq::<Seq<char>>::empty());
    input.push(UserInput::Text { text, text_elements });
    assert(input_model(input@) =~= prompt(text@));
    input
}

/// A turn with the given input and no overrides.
pub fn turn_params_with_input<I: IntoTurnInput>(input: I) -> (params: TurnStartParams)
    ensures
        params@ == (TurnStartModel { input: input.turn_input(), ..TurnStartModel::empty() }),
{
    let mut params: TurnStartParams = TurnStartParams::default();
    params.input = input.into_turn_input();
    params
}

/// The plain sandbox policy of a mode: no extra roots, and no network unless
/// nothing is off limits.
pub open spec fn plain_policy(sandbox: SandboxMode) -> SandboxPolicyModel {
    match sandbox {
        SandboxMode::ReadOnly => SandboxPolicyModel::ReadOnly { network_access: false },
        SandboxMode::WorkspaceWrite => SandboxPolicyModel::WorkspaceWrite {
            writable_roots: Seq::empty(),
            network_access: false,
            exclude_tmpdir_env_var: false,
            exclude_slash_tmp: false,
        },
        SandboxMode::DangerFullAccess => SandboxPolicyModel::DangerFullAccess,
    }
}

/// The plain sandbox policy of a mode.
pub fn sandbox_policy_from_mode(sandbox: SandboxMode) -> (policy: SandboxPolicy)
    ensures
        policy@ == plain_policy(sandbox),
{
    match sandbox {
        SandboxMode::ReadOnly => SandboxPolicy::ReadOnly { network_access: false },
        SandboxMode::WorkspaceWrite => {
            let writable_roots: Vec<String> = Vec::new();
            assert(texts(writable_roots@) =~= Seq::<Seq<char>>::empty());
            SandboxPolicy::WorkspaceWrite {
                writable_roots,
                network_access: false,
                exclude_tmpdir_env_var: false,
                exclude_slash_tmp: false,
            }
        },
        SandboxMode::DangerFullAccess => SandboxPolicy::DangerFullAccess,
    }
}

/// Builder for a turn in a temporary thread.
pub struct CodexTurnBuilder {
    /// Native parameters of the temporary thread.
    pub thread_params: ThreadStartParams,
    /// Native parameters of the turn.
    pub turn_params: TurnStartParams,
}

impl CodexTurnBuilder {
    /// A turn with the given input.
    pub fn new<I: IntoTurnInput>(codex: &Codex, input: I) -> (builder: Self)
        ensures
            builder.thread_params@ == codex@.default_thread_params,
            builder.turn_params@ == (TurnStartModel { input: input.turn_input(), ..TurnStartModel::empty() }),
    {
        Self::from_params(codex, turn_params_with_input(input))
    }

    /// A turn with the given parameters.
    pub fn from_params(codex: &Codex, turn_params: TurnStartParams) -> (builder: Self)
        ensures
            builder.thread_params@ == codex@.default_thread_params,
            builder.turn_params == turn_params,
    {
        CodexTurnBuilder { thread_params: codex.default_thread_params().clone(), turn_params }
    }

    /// Sets the working directory for both the temporary thread and turn.
    pub fn cwd(self, cwd: PathBuf) -> (builder: Self)
        ensures
            builder.thread_params@ == (ThreadStartModel { cwd: Some(lossy_path_text(cwd)), ..self.thread_params@ }),
            builder.turn_params@ == (TurnStartModel { cwd: Some(cwd), ..self.turn_params@ }),
    {
        CodexTurnBuilder {
            thread_params: ThreadStartParams { cwd: Some(cwd_to_string(&cwd)), ..self.thread_params },
            turn_params: TurnStartParams { cwd: Some(cwd), ..self.turn_params },
        }
    }

    /// Sets the model for both the temporary thread and turn.
    pub fn model(self, model: String) -> (builder: Self)
        ensures
            builder.thread_params@ == (ThreadStartModel { model: Some(model@), ..self.thread_params@ }),
            builder.turn_params@ == (TurnStartModel { model: Some(model@), ..self.turn_params@ }),
    {
        CodexTurnBuilder {
            thread_params: ThreadStartParams { model: Some(model.clone()), ..self.thread_params },
            turn_params: TurnStartParams { model: Some(model), ..self.turn_params },
        }
    }

    /// Sets the model provider for the temporary thread.
    pub fn model_provider(self, model_provider: String) -> (builder: Self)
        ensures
            builder.thread_params@ == (ThreadStartModel {
                model_provider: Some(model_provider@),
                ..self.thread_params@
            }),
            builder.turn_params == self.turn_params,
    {
        CodexTurnBuilder {
            thread_params: ThreadStartParams { model_provider: Some(model_provider), ..self.thread_params },
            turn_params: self.turn_params,
        }
    }

    /// Sets the service tier for both the temporary thread and turn.
    pub fn service_tier(self, service_tier: String) -> (builder: Self)
        ensures
            builder.thread_params@ == (ThreadStartModel {
                service_tier: Some(Some(service_tier@)),
                ..self.thread_params@
            }),
            builder.turn_params@ == (TurnStartModel { service_tier: Some(Some(service_tier@)), ..self.turn_params@ }),
    {
        CodexTurnBuilder {
            thread_params: ThreadStartParams { service_tier: Some(Some(service_tier.clone())), ..self.thread_params },
            turn_params: TurnStartParams { service_tier: Some(Some(service_tier)), ..self.turn_params },
        }
    }

    /// Clears the service tier for both the temporary thread and turn.
    pub fn clear_service_tier(self) -> (builder: Self)
        ensures
            builder.thread_params@ == (ThreadStartModel { service_tier: Some(None), ..self.thread_params@ }),
            builder.turn_params@ == (TurnStartModel { service_tier: Some(None), ..self.turn_params@ }),
    {
        CodexTurnBuilder {
            thread_params: ThreadStartParams { service_tier: Some(None), ..self.thread_params },
            turn_params: TurnStartParams { service_tier: Some(None), ..self.turn_params },
        }
    }

    /// Sets the model personality for both the temporary thread and turn.
    pub fn personality(self, personality: Personality) -> (builder: Self)
        ensures
            builder.thread_params@ == (ThreadStartModel { personality: Some(personality), ..self.thread_params@ }),
            builder.turn_params@ == (TurnStartModel { personality: Some(personality), ..self.turn_params@ }),
    {
        CodexTurnBuilder {
            thread_params: ThreadStartParams { personality: Some(personality), ..self.thread_params },
            turn_params: TurnStartParams { personality: Some(personality), ..self.turn_params },
        }
    }

    /// Replaces Codex's native base instructions for the temporary thread. An
    /// empty text disables them.
    pub fn base_instructions(self, instructions: String) -> (builder: Self)
        ensures
            builder.thread_params@ == (ThreadStartModel {
                base_instructions: Some(instructions@),
                ..self.thread_params@
            }),
            builder.turn_params == self.turn_params,
    {
        CodexTurnBuilder {
            thread_params: ThreadStartParams { base_instructions: Some(instructions), ..self.thread_params },
            turn_params: self.turn_params,
        }
    }

    /// Adds developer instructions for the temporary thread.
    pub fn developer_instructions(self, instructions: String) -> (builder: Self)
        ensures
            builder.thread_params@ == (ThreadStartModel {
                developer_instructions: Some(instructions@),
                ..self.thread_params@
            }),
            builder.turn_params == self.turn_params,
    {
        CodexTurnBuilder {
            thread_params: ThreadStartParams { developer_instructions: Some(instructions), ..self.thread_params },
            turn_params: self.turn_params,
        }
    }

    /// Sets the sandbox mode for the temporary thread, and its plain policy for
    /// the turn.
    pub fn sandbox(self, sandbox: SandboxMode) -> (builder: Self)
        ensures
            builder.thread_params@ == (ThreadStartModel { sandbox: Some(sandbox), ..self.thread_params@ }),
            builder.turn_params@ == (TurnStartModel {
                sandbox_policy: Some(plain_policy(sandbox)),
                ..self.turn_params@
            }),
    {
        CodexTurnBuilder {
            thread_params: ThreadStartParams { sandbox: Some(sandbox), ..self.thread_params },
            turn_params: TurnStartParams {
                sandbox_policy: Some(sandbox_policy_from_mode(sandbox)),
                ..self.turn_params
            },
        }
    }

    /// Sets the exact sandbox policy for the turn.
    pub fn sandbox_policy(self, sandbox_policy: SandboxPolicy) -> (builder: Self)
        ensures
            builder.thread_params == self.thread_params,
            builder.turn_params@ == (TurnStartModel { sandbox_policy: Some(sandbox_policy@), ..self.turn_params@ }),
    {
        CodexTurnBuilder {
            thread_params: self.thread_params,
            turn_params: TurnStartParams { sandbox_policy: Some(sandbox_policy), ..self.turn_params },
        }
    }

    /// Sets the approval policy for both the temporary thread and turn.
    pub fn approval_policy(self, approval_policy: AskForApproval) -> (builder: Self)
        ensures
            builder.thread_params@ == (ThreadStartModel {
                approval_policy: Some(approval_policy),
                ..self.thread_params@
            }),
            builder.turn_params@ == (TurnStartModel { approval_policy: Some(approval_policy), ..self.turn_params@ }),
    {
        CodexTurnBuilder {
            thread_params: ThreadStartParams { approval_policy: Some(approval_policy.clone()), ..self.thread_params },
            turn_params: TurnStartParams { approval_policy: Some(approval_policy), ..self.turn_params },
        }
    }

    /// Selects the execution environments of both the temporary thread and
    /// turn.
    pub fn environment_access(self, access: EnvironmentAccess) -> (builder: Self)
        ensures
            builder.thread_params@ == (ThreadStartModel { environments: access.sent(), ..self.thread_params@ }),
            builder.turn_params@ == (TurnStartModel { environments: access.sent(), ..self.turn_params@ }),
    {
        let mut thread_params = self.thread_params;
        let mut turn_params = self.turn_params;
        access.clone().apply_to_thread(&mut thread_params);
        access.apply_to_turn(&mut turn_params);
        CodexTurnBuilder { thread_params, turn_params }
    }

    /// Sets the reasoning effort for the turn.
    pub fn effort(self, effort: ReasoningEffort) -> (builder: Self)
        ensures
            builder.thread_params == self.thread_params,
            builder.turn_params@ == (TurnStartModel { effort: Some(effort), ..self.turn_params@ }),
    {
        CodexTurnBuilder {
            thread_params: self.thread_params,
            turn_params: TurnStartParams { effort: Some(effort), ..self.turn_params },
        }
    }

    /// Sets the reasoning summary behavior for the turn.
    pub fn reasoning_summary(self, summary: ReasoningSummary) -> (builder: Self)
        ensures
            builder.thread_params == self.thread_params,
            builder.turn_params@ == (TurnStartModel { summary: Some(summary), ..self.turn_params@ }),
    {
        CodexTurnBuilder {
            thread_params: self.thread_params,
            turn_params: TurnStartParams { summary: Some(summary), ..self.turn_params },
        }
    }

    /// Sets the reasoning summary behavior for the turn.
    pub fn summary(self, summary: ReasoningSummary) -> (builder: Self)
        ensures
            builder.thread_params == self.thread_params,
            builder.turn_params@ == (TurnStartModel { summary: Some(summary), ..self.turn_params@ }),
    {
        self.reasoning_summary(summary)
    }

    /// Replaces the user input for the turn.
    pub fn input<I: IntoTurnInput>(self, input: I) -> (builder: Self)
        ensures
            builder.thread_params == self.thread_params,
            builder.turn_params@ == (TurnStartModel { input: input.turn_input(), ..self.turn_params@ }),
    {
        CodexTurnBuilder {
            thread_params: self.thread_params,
            turn_params: TurnStartParams { input: input.into_turn_input(), ..self.turn_params },
        }
    }

    /// Replaces the user input with a single text prompt.
    pub fn input_text(self, text: String) -> (builder: Self)
        ensures
            builder.thread_params == self.thread_params,
            builder.turn_params@ == (TurnStartModel { input: prompt(text@), ..self.turn_params@ }),
    {
        self.input(text)
    }

    /// Sets a JSON Schema, given as JSON text, for the final assistant message.
    pub fn output_schema(self, schema: String) -> (builder: Self)
        ensures
            builder.thread_params == self.thread_params,
            builder.turn_params@ == (TurnStartModel { output_schema: Some(schema@), ..self.turn_params@ }),
    {
        CodexTurnBuilder {
            thread_params: self.thread_params,
            turn_params: TurnStartParams { output_schema: Some(schema), ..self.turn_params },
        }
    }

    /// Replaces the native `thread/start` parameters for the temporary thread.
    pub fn thread_params(self, params: ThreadStartParams) -> (builder: Self)
        ensures
            builder == (CodexTurnBuilder { thread_params: params, turn_params: self.turn_params }),
    {
        CodexTurnBuilder { thread_params: params, turn_params: self.turn_params }
    }

    /// Replaces the native `turn/start` parameters, including input.
    pub fn params(self, params: TurnStartParams) -> (builder: Self)
        ensures
            builder == (CodexTurnBuilder { thread_params: self.thread_params, turn_params: params }),
    {
        CodexTurnBuilder { thread_params: self.thread_params, turn_params: params }
    }

    /// Creates the temporary thread; the turn follows.
    pub fn start(self, codex: &mut Codex) -> (started: (ClientRequest, PendingTemporaryThread))
        ensures
            started.0 matches ClientRequest::ThreadStart { request_id, params } && request_id == old(codex)@.next_id()
                && params@ == user_thread(self.thread_params@),
            started.1.turn_params == self.turn_params,
            final(codex)@ == old(codex)@.requested(),
    {
        let (request, thread) = ThreadBuilder { params: self.thread_params }.start(codex);
        (request, PendingTemporaryThread { thread, turn_params: self.turn_params })
    }
}

/// A temporary thread on its way, and the turn that it is for.
pub struct PendingTemporaryThread {
    pub thread: PendingThread,
    pub turn_params: TurnStartParams,
}

/// What the response to the first request of a temporary turn does: the thread
/// is attached and its turn is started.
pub open spec fn temporary_turn_started(
    before: CodexModel,
    after: CodexModel,
    started: Result<(ClientRequest, PendingTemporaryTurn)>,
    thread_id: Seq<char>,
    turn_params: TurnStartModel,
) -> bool {
    exists|attached: Result<Thread>, between: CodexModel|
        #[trigger] thread_attached(before, between, attached, thread_id) && (match attached {
            Ok(thread) => {
                &&& started matches Ok(pair)
                &&& pair.1.thread == thread
                &&& pair.0 matches ClientRequest::TurnStart { request_id, params }
                &&& request_id == between.next_id()
                &&& params@ == (TurnStartModel { thread_id: thread@.id, ..turn_params })
                &&& after == between.requested()
            },
            Err(error) => started matches Err(returned) && returned == error && after == between,
        })
}

impl PendingTemporaryThread {
    /// Starts the turn once the app-server has made the thread.
    pub fn thread_started(self, codex: &mut Codex, response: Result<ThreadId>) -> (started: Result<
        (ClientRequest, PendingTemporaryTurn),
    >)
        requires
            old(codex).wf(),
        ensures
            final(codex).wf(),
            match response {
                Ok(thread_id) => temporary_turn_started(
                    old(codex)@,
                    final(codex)@,
                    started,
                    thread_id@,
                    self.turn_params@,
                ),
                Err(error) => (started matches Err(returned) && returned == error) && final(codex)@ == old(codex)@,
            },
    {
        let ghost text = response->Ok_0@;
        let attached = self.thread.finish(codex, response);
        let ghost outcome = attached;
        let ghost between = codex@;
        match attached {
            Ok(thread) => {
                assert(thread_attached(old(codex)@, between, outcome, text));
                let (request, turn) = TurnBuilder { thread, params: self.turn_params }.start(codex);
                Ok((request, PendingTemporaryTurn { thread: turn.thread }))
            },
            Err(error) => {
                assert(response is Ok ==> thread_attached(old(codex)@, between, outcome, text));
                Err(error)
            },
        }
    }
}

/// The turn of a temporary thread on its way.
pub struct PendingTemporaryTurn {
    pub thread: Thread,
}

impl PendingTemporaryTurn {
    /// Takes the response in. A failure keeps the thread, whose stream is still
    /// attached.
    pub fn finish(self, response: Result<TurnId>) -> (handle: Result<TurnHandle>)
        ensures
            match response {
                Ok(turn_id) => handle matches Ok(started) && started@ == (TurnModel {
                    thread: self.thread,
                    turn_id: turn_id@,
                }),
                Err(error) => {
                    &&& handle matches Err(Error::TemporaryTurnStart { thread_id, thread, source })
                    &&& thread_id@ == self.thread@.id
                    &&& thread == self.thread
                    &&& *source == error
                },
            },
    {
        match response {
            Ok(turn_id) => Ok(TurnHandle { thread: self.thread, turn_id }),
            Err(error) => {
                let thread_id = self.thread.id().to_owned();
                Err(Error::TemporaryTurnStart { thread_id, thread: self.thread, source: Box::new(error) })
            },
        }
    }
}

/// What a [`TurnHandle`] stands for.
pub struct TurnModel {
    pub thread: Thread,
    pub turn_id: Seq<char>,
}

/// Handle for a started turn: names it, steers it and interrupts it. Its
/// events come from the owning [`Thread`].
pub struct TurnHandle {
    thread: Thread,
    turn_id: TurnId,
}

impl View for TurnHandle {
    type V = TurnModel;

    closed spec fn view(&self) -> TurnModel {
        TurnModel { thread: self.thread, turn_id: self.turn_id@ }
    }
}

impl TurnHandle {
    /// Thread that owns this turn.
    pub fn thread(&self) -> (thread: &Thread)
        ensures
            *thread == self@.thread,
    {
        &self.thread
    }

    /// Thread id this handle controls.
    pub fn thread_id(&self) -> (id: &str)
        ensures
            id@ == self@.thread@.id,
    {
        self.thread.id()
    }

    /// Turn id this handle controls.
    pub fn turn_id(&self) -> (id: &str)
        ensures
            id@ == self@.turn_id,
    {
        self.turn_id.as_str()
    }

    /// Sends additional input to this active turn.
    pub fn steer<I: IntoTurnInput>(&self, codex: &mut Codex, input: I) -> (request: ClientRequest)
        ensures
            request matches ClientRequest::TurnSteer { request_id, thread_id, input: items, expected_turn_id }
                && request_id == old(codex)@.next_id() && thread_id@ == self@.thread@.id && input_model(items@)
                == input.turn_input() && expected_turn_id@ == self@.turn_id,
            final(codex)@ == old(codex)@.requested(),
    {
        ClientRequest::TurnSteer {
            request_id: codex.next_request_id(),
            thread_id: self.thread.id().to_owned(),
            input: input.into_turn_input(),
            expected_turn_id: self.turn_id.clone(),
        }
    }

    /// Requests interruption of this active turn.
    pub fn interrupt(&self, codex: &mut Codex) -> (request: ClientRequest)
        ensures
            request matches ClientRequest::TurnInterrupt { request_id, thread_id, turn_id } && request_id
                == old(codex)@.next_id() && thread_id@ == self@.thread@.id && turn_id@ == self@.turn_id,
            final(codex)@ == old(codex)@.requested(),
    {
        ClientRequest::TurnInterrupt {
            request_id: codex.next_request_id(),
            thread_id: self.thread.id().to_owned(),
            turn_id: self.turn_id.clone(),
        }
    }
}

/// Builder for starting a turn on an existing [`Thread`].
pub struct TurnBuilder {
    /// Existing thread that will receive the turn.
    pub thread: Thread,
    /// Native parameters sent with `turn/start`.
    pub params: TurnStartParams,
}

/// A `turn/start` request on its way.
pub struct PendingTurn {
    pub thread: Thread,
}

impl PendingTurn {
    /// Takes the response in.
    pub fn finish(self, response: Result<TurnId>) -> (handle: Result<TurnHandle>)
        ensures
            match response {
                Ok(turn_id) => handle matches Ok(started) && started@ == (TurnModel {
                    thread: self.thread,
                    turn_id: turn_id@,
                }),
                Err(error) => handle matches Err(returned) && returned == error,
            },
    {
        match response {
            Ok(turn_id) => Ok(TurnHandle { thread: self.thread, turn_id }),
            Err(error) => Err(error),
        }
    }
}

impl TurnBuilder {
    /// A turn with the given input.
    pub fn new<I: IntoTurnInput>(thread: Thread, input: I) -> (builder: Self)
        ensures
            builder.thread == thread,
            builder.params@ == (TurnStartModel { input: input.turn_input(), ..TurnStartModel::empty() }),
    {
        Self::from_params(thread, turn_params_with_input(input))
    }

    /// A turn with the given parameters.
    pub fn from_params(thread: Thread, params: TurnStartParams) -> (builder: Self)
        ensures
            builder == (TurnBuilder { thread, params }),
    {
        TurnBuilder { thread, params }
    }

    /// Replaces the native `turn/start` parameters, including input. The
    /// thread id is always the owning thread's.
    pub fn params(self, params: TurnStartParams) -> (builder: Self)
        ensures
            builder == (TurnBuilder { thread: self.thread, params }),
    {
        TurnBuilder { thread: self.thread, params }
    }

    /// Sets the working directory for this turn.
    pub fn cwd(self, cwd: PathBuf) -> (builder: Self)
        ensures
            builder.thread == self.thread,
            builder.params@ == (TurnStartModel { cwd: Some(cwd), ..self.params@ }),
    {
        TurnBuilder { thread: self.thread, params: TurnStartParams { cwd: Some(cwd), ..self.params } }
    }

    /// Sets the model for this turn.
    pub fn model(self, model: String) -> (builder: Self)
        ensures
            builder.thread == self.thread,
            builder.params@ == (TurnStartModel { model: Some(model@), ..self.params@ }),
    {
        TurnBuilder { thread: self.thread, params: TurnStartParams { model: Some(model), ..self.params } }
    }

    /// Sets the service tier for this turn and subsequent turns.
    pub fn service_tier(self, service_tier: String) -> (builder: Self)
        ensures
            builder.thread == self.thread,
            builder.params@ == (TurnStartModel { service_tier: Some(Some(service_tier@)), ..self.params@ }),
    {
        TurnBuilder {
            thread: self.thread,
            params: TurnStartParams { service_tier: Some(Some(service_tier)), ..self.params },
        }
    }

    /// Clears the service tier for this turn and subsequent turns.
    pub fn clear_service_tier(self) -> (builder: Self)
        ensures
            builder.thread == self.thread,
            builder.params@ == (TurnStartModel { service_tier: Some(None), ..self.params@ }),
    {
        TurnBuilder { thread: self.thread, params: TurnStartParams { service_tier: Some(None), ..self.params } }
    }

    /// Sets the model personality for this turn and subsequent turns.
    pub fn personality(self, personality: Personality) -> (builder: Self)
        ensures
            builder.thread == self.thread,
            builder.params@ == (TurnStartModel { personality: Some(personality), ..self.params@ }),
    {
        TurnBuilder { thread: self.thread, params: TurnStartParams { personality: Some(personality), ..self.params } }
    }

    /// Sets the approval policy for this turn.
    pub fn approval_policy(self, approval_policy: AskForApproval) -> (builder: Self)
        ensures
            builder.thread == self.thread,
            builder.params@ == (TurnStartModel { approval_policy: Some(approval_policy), ..self.params@ }),
    {
        TurnBuilder {
            thread: self.thread,
            params: TurnStartParams { approval_policy: Some(approval_policy), ..self.params },
        }
    }

    /// Sets the plain sandbox policy of a mode for this turn and subsequent
    /// turns.
    pub fn sandbox(self, sandbox: SandboxMode) -> (builder: Self)
        ensures
            builder.thread == self.thread,
            builder.params@ == (TurnStartModel { sandbox_policy: Some(plain_policy(sandbox)), ..self.params@ }),
    {
        TurnBuilder {
            thread: self.thread,
            params: TurnStartParams { sandbox_policy: Some(sandbox_policy_from_mode(sandbox)), ..self.params },
        }
    }

    /// Sets the exact sandbox policy for this turn and subsequent turns.
    pub fn sandbox_policy(self, sandbox_policy: SandboxPolicy) -> (builder: Self)
        ensures
            builder.thread == self.thread,
            builder.params@ == (TurnStartModel { sandbox_policy: Some(sandbox_policy@), ..self.params@ }),
    {
        TurnBuilder {
            thread: self.thread,
            params: TurnStartParams { sandbox_policy: Some(sandbox_policy), ..self.params },
        }
    }

    /// Selects this turn's execution environments.
    pub fn environment_access(self, access: EnvironmentAccess) -> (builder: Self)
        ensures
            builder.thread == self.thread,
            builder.params@ == (TurnStartModel { environments: access.sent(), ..self.params@ }),
    {
        let mut params = self.params;
        access.apply_to_turn(&mut params);
        TurnBuilder { thread: self.thread, params }
    }

    /// Sets the reasoning effort for this turn.
    pub fn effort(self, effort: ReasoningEffort) -> (builder: Self)
        ensures
            builder.thread == self.thread,
            builder.params@ == (TurnStartModel { effort: Some(effort), ..self.params@ }),
    {
        TurnBuilder { thread: self.thread, params: TurnStartParams { effort: Some(effort), ..self.params } }
    }

    /// Sets the reasoning summary behavior for this turn.
    pub fn reasoning_summary(self, summary: ReasoningSummary) -> (builder: Self)
        ensures
            builder.thread == self.thread,
            builder.params@ == (TurnStartModel { summary: Some(summary), ..self.params@ }),
    {
        TurnBuilder { thread: self.thread, params: TurnStartParams { summary: Some(summary), ..self.params } }
    }

    /// Sets the reasoning summary behavior for this turn.
    pub fn summary(self, summary: ReasoningSummary) -> (builder: Self)
        ensures
            builder.thread == self.thread,
            builder.params@ == (TurnStartModel { summary: Some(summary), ..self.params@ }),
    {
        self.reasoning_summary(summary)
    }

    /// Replaces the user input for this turn.
    pub fn input<I: IntoTurnInput>(self, input: I) -> (builder: Self)
        ensures
            builder.thread == self.thread,
            builder.params@ == (TurnStartModel { input: input.turn_input(), ..self.params@ }),
    {
        TurnBuilder { thread: self.thread, params: TurnStartParams { input: input.into_turn_input(), ..self.params } }
    }

    /// Replaces the user input with a single text prompt.
    pub fn input_text(self, text: String) -> (builder: Self)
        ensures
            builder.thread == self.thread,
            builder.params@ == (TurnStartModel { input: prompt(text@), ..self.params@ }),
    {
        self.input(text)
    }

    /// Sets a JSON Schema, given as JSON text, for the final assistant message.
    pub fn output_schema(self, schema: String) -> (builder: Self)
        ensures
            builder.thread == self.thread,
            builder.params@ == (TurnStartModel { output_schema: Some(schema@), ..self.params@ }),
    {
        TurnBuilder { thread: self.thread, params: TurnStartParams { output_schema: Some(schema), ..self.params } }
    }

    /// Starts the turn. Its events come from the thread's event stream.
    pub fn start(self, codex: &mut Codex) -> (started: (ClientRequest, PendingTurn))
        ensures
            started.0 matches ClientRequest::TurnStart { request_id, params } && request_id == old(codex)@.next_id()
                && params@ == (TurnStartModel { thread_id: self.thread@.id, ..self.params@ }),
            started.1.thread == self.thread,
            final(codex)@ == old(codex)@.requested(),
    {
        let params = TurnStartParams { thread_id: self.thread.id().to_owned(), ..self.params };
        (
            ClientRequest::TurnStart { request_id: codex.next_request_id(), params },
            PendingTurn { thread: self.thread },
        )
    }
}

} // verus!
