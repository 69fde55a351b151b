//! Defaults that new threads start with.
use crate::config::{Config, LegacySandboxPolicy};
use crate::debug::{field, field_models, number_field, struct_text, write_struct, DebugField};
use crate::protocol::{
    config_model, copy_config, copy_environments, optional_environments, ConfigMap, ConfigModel, ConfigValue, ConfigValueModel,
    SandboxMode, ThreadSource, ThreadStartModel, ThreadStartParams, TurnEnvironmentParams, TurnStartModel,
    TurnStartParams,
};
use crate::text::{copy_optional, copy_texts, decimal_text, optional_text, texts};
use crate::text_map::TextMap;
use vstd::prelude::*;
use vstd::string::StringExecFns;

verus! {

/// Selects how Codex resolves the execution environment for a thread or turn.
#[derive(PartialEq, Eq, Debug)]
pub enum EnvironmentAccess {
    /// Send nothing. A new thread selects Codex's default environment, and a
    /// turn inherits the thread's environments.
    Inherit,
    /// Send an explicit empty list, which disables environment access.
    Disabled,
    /// Send explicit environments. The first is used for the current turn. An
    /// empty list means the same as [`Self::Disabled`].
    Selected(Vec<TurnEnvironmentParams>),
}

impl Default for EnvironmentAccess {
    fn default() -> (access: Self)
        ensures
            access == EnvironmentAccess::Inherit,
    {
        EnvironmentAccess::Inherit
    }
}

impl Clone for EnvironmentAccess {
    fn clone(&self) -> (copy: Self)
        ensures
            copy.sent() == self.sent(),
            copy is Inherit == self is Inherit,
            copy is Disabled == self is Disabled,
    {
        match self {
            EnvironmentAccess::Inherit => EnvironmentAccess::Inherit,
            EnvironmentAccess::Disabled => EnvironmentAccess::Disabled,
            EnvironmentAccess::Selected(environments) => EnvironmentAccess::Selected(copy_environments(environments)),
        }
    }
}

impl EnvironmentAccess {
    /// What is sent: nothing, an empty list, or a list.
    pub open spec fn sent(self) -> Option<Seq<TurnEnvironmentParams>> {
        match self {
            EnvironmentAccess::Inherit => None,
            EnvironmentAccess::Disabled => Some(Seq::empty()),
            EnvironmentAccess::Selected(environments) => Some(environments@),
        }
    }

    /// Sets the environments of a new thread.
    pub fn apply_to_thread(self, params: &mut ThreadStartParams)
        ensures
            final(params)@ == (ThreadStartModel { environments: self.sent(), ..old(params)@ }),
    {
        params.environments = self.into_protocol_value();
    }

    /// Sets the environments of a turn.
    pub fn apply_to_turn(self, params: &mut TurnStartParams)
        ensures
            final(params)@ == (TurnStartModel { environments: self.sent(), ..old(params)@ }),
    {
        params.environments = self.into_protocol_value();
    }

    /// What is sent: nothing, an empty list, or a list.
    pub fn into_protocol_value(self) -> (value: Option<Vec<TurnEnvironmentParams>>)
        ensures
            optional_environments(value) == self.sent(),
    {
        match self {
            EnvironmentAccess::Inherit => None,
            EnvironmentAccess::Disabled => {
                let none: Vec<TurnEnvironmentParams> = Vec::new();
                assert(none@ =~= Seq::<TurnEnvironmentParams>::empty());
                Some(none)
            },
            EnvironmentAccess::Selected(environments) => Some(environments),
        }
    }
}

/// One change of the defaults.
pub enum ThreadDefaultsOperation {
    Replace(Box<ThreadStartParams>),
    MergeConfig(ConfigMap),
    SetEnvironment(EnvironmentAccess),
}

/// What a [`ThreadDefaultsOperation`] stands for.
pub enum OperationModel {
    Replace(ThreadStartModel),
    MergeConfig(ConfigModel),
    SetEnvironment(Option<Seq<TurnEnvironmentParams>>),
}

impl View for ThreadDefaultsOperation {
    type V = OperationModel;

    open spec fn view(&self) -> OperationModel {
        match *self {
            ThreadDefaultsOperation::Replace(params) => OperationModel::Replace(params@),
            ThreadDefaultsOperation::MergeConfig(config) => OperationModel::MergeConfig(config_model(config)),
            ThreadDefaultsOperation::SetEnvironment(access) => OperationModel::SetEnvironment(access.sent()),
        }
    }
}

impl Clone for ThreadDefaultsOperation {
    fn clone(&self) -> (copy: Self)
        ensures
            copy@ == self@,
            same_size(copy, *self),
    {
        match self {
            ThreadDefaultsOperation::Replace(params) => ThreadDefaultsOperation::Replace(Box::new((**params).clone())),
            ThreadDefaultsOperation::MergeConfig(config) => ThreadDefaultsOperation::MergeConfig(copy_config(config)),
            ThreadDefaultsOperation::SetEnvironment(access) => ThreadDefaultsOperation::SetEnvironment(access.clone()),
        }
    }
}

/// `params` with `patch` laid over their configuration.
pub open spec fn merged(params: ThreadStartModel, patch: ConfigModel) -> ThreadStartModel {
    if patch.dom().is_empty() {
        params
    } else {
        let config = match params.config {
            Some(config) => config,
            None => Map::empty(),
        };
        ThreadStartModel { config: Some(config.union_prefer_right(patch)), ..params }
    }
}

impl OperationModel {
    /// The defaults after the change.
    pub open spec fn apply(self, params: ThreadStartModel) -> ThreadStartModel {
        match self {
            OperationModel::Replace(replacement) => replacement,
            OperationModel::MergeConfig(patch) => merged(params, patch),
            OperationModel::SetEnvironment(environments) => ThreadStartModel { environments, ..params },
        }
    }
}

/// The defaults after several changes, the first one first.
pub open spec fn apply_all(operations: Seq<OperationModel>, params: ThreadStartModel) -> ThreadStartModel
    decreases operations.len(),
{
    if operations.len() == 0 {
        params
    } else {
        apply_all(operations.drop_first(), operations[0].apply(params))
    }
}

/// `operations` and then a change of the configuration, unless it is empty.
pub open spec fn with_patch(operations: Seq<OperationModel>, patch: ConfigModel) -> Seq<OperationModel> {
    if patch.dom().is_empty() {
        operations
    } else {
        operations.push(OperationModel::MergeConfig(patch))
    }
}

impl ThreadDefaultsOperation {
    /// The debug text of the change. It says how much was changed, not what.
    pub open spec fn debug(self) -> Seq<char> {
        match self {
            ThreadDefaultsOperation::Replace(_) => "Replace(<redacted>)"@,
            ThreadDefaultsOperation::MergeConfig(config) => struct_text(
                "MergeConfig"@,
                seq![field("count"@, decimal_text(config.keys().len()))],
                false,
            ),
            ThreadDefaultsOperation::SetEnvironment(EnvironmentAccess::Inherit) => "SetEnvironment(Inherit)"@,
            ThreadDefaultsOperation::SetEnvironment(EnvironmentAccess::Disabled) => "SetEnvironment(Disabled)"@,
            ThreadDefaultsOperation::SetEnvironment(EnvironmentAccess::Selected(environments)) => struct_text(
                "SetEnvironment(Selected)"@,
                seq![field("count"@, decimal_text(environments@.len()))],
                false,
            ),
        }
    }

    /// The debug text of the change.
    pub fn debug_text(&self) -> (text: String)
        ensures
            text@ == self.debug(),
    {
        match self {
            ThreadDefaultsOperation::Replace(_) => "Replace(<redacted>)".to_owned(),
            ThreadDefaultsOperation::MergeConfig(config) => {
                let fields: Vec<DebugField> = vec![number_field("count", config.len())];
                assert(field_models(fields@) =~= seq![field("count"@, decimal_text(config.keys().len()))]);
                write_struct("MergeConfig", fields, false)
            },
            ThreadDefaultsOperation::SetEnvironment(EnvironmentAccess::Inherit) => "SetEnvironment(Inherit)".to_owned(),
            ThreadDefaultsOperation::SetEnvironment(EnvironmentAccess::Disabled) => "SetEnvironment(Disabled)".to_owned(),
            ThreadDefaultsOperation::SetEnvironment(EnvironmentAccess::Selected(environments)) => {
                let fields: Vec<DebugField> = vec![number_field("count", environments.len())];
                assert(field_models(fields@) =~= seq![field("count"@, decimal_text(environments@.len()))]);
                write_struct("SetEnvironment(Selected)", fields, false)
            },
        }
    }
}

/// The debug texts of several changes, with commas between them.
pub open spec fn operations_text(operations: Seq<ThreadDefaultsOperation>) -> Seq<char>
    decreases operations.len(),
{
    if operations.len() == 0 {
        Seq::empty()
    } else {
        let front = if operations.len() == 1 {
            Seq::empty()
        } else {
            operations_text(operations.drop_last()) + ", "@
        };
        front + operations.last().debug()
    }
}

/// Two changes of the same size.
pub open spec fn same_size(one: ThreadDefaultsOperation, other: ThreadDefaultsOperation) -> bool {
    match (one, other) {
        (ThreadDefaultsOperation::Replace(_), ThreadDefaultsOperation::Replace(_)) => true,
        (ThreadDefaultsOperation::MergeConfig(a), ThreadDefaultsOperation::MergeConfig(b)) => a.keys().len()
            == b.keys().len(),
        (
            ThreadDefaultsOperation::SetEnvironment(EnvironmentAccess::Selected(a)),
            ThreadDefaultsOperation::SetEnvironment(EnvironmentAccess::Selected(b)),
        ) => a@.len() == b@.len(),
        _ => one == other,
    }
}

/// The debug text of a change tells no value: changes of the same size have
/// the same text.
pub proof fn law_debug_text_tells_no_value(one: ThreadDefaultsOperation, other: ThreadDefaultsOperation)
    requires
        same_size(one, other),
    ensures
        one.debug() == other.debug(),
{
}

/// Ordered changes of the native defaults, applied after the startup
/// configuration is resolved.
pub struct ThreadDefaultsOverrides {
    operations: Vec<ThreadDefaultsOperation>,
}

impl View for ThreadDefaultsOverrides {
    type V = Seq<OperationModel>;

    closed spec fn view(&self) -> Seq<OperationModel> {
        self.operations@.map_values(|operation: ThreadDefaultsOperation| operation@)
    }
}

impl Default for ThreadDefaultsOverrides {
    fn default() -> (overrides: Self)
        ensures
            overrides@ == Seq::<OperationModel>::empty(),
    {
        let overrides = ThreadDefaultsOverrides { operations: Vec::new() };
        assert(overrides@ =~= Seq::<OperationModel>::empty());
        overrides
    }
}

/// Lists of changes of the same sizes have the same debug text.
proof fn lemma_operations_text(one: Seq<ThreadDefaultsOperation>, other: Seq<ThreadDefaultsOperation>)
    requires
        one.len() == other.len(),
        forall|i: int| 0 <= i < one.len() ==> same_size(#[trigger] one[i], other[i]),
    ensures
        operations_text(one) == operations_text(other),
    decreases one.len(),
{
    if one.len() > 0 {
        lemma_operations_text(one.drop_last(), other.drop_last());
        law_debug_text_tells_no_value(one.last(), other.last());
    }
}

impl Clone for ThreadDefaultsOverrides {
    fn clone(&self) -> (copy: Self)
        ensures
            copy@ == self@,
            copy.debug() == self.debug(),
    {
        let mut operations: Vec<ThreadDefaultsOperation> = Vec::new();
        let mut i: usize = 0;
        while i < self.operations.len()
            invariant
                i <= self.operations@.len(),
                operations@.len() == i,
                forall|j: int|
                    0 <= j < i ==> (#[trigger] operations@[j])@ == self.operations@[j]@ && same_size(
                        operations@[j],
                        self.operations@[j],
                    ),
            decreases self.operations@.len() - i,
        {
            operations.push(self.operations[i].clone());
            i += 1;
        }
        let copy = ThreadDefaultsOverrides { operations };
        proof {
            assert(copy@ =~= self@);
            lemma_operations_text(copy.operations@, self.operations@);
        }
        copy
    }
}

impl ThreadDefaultsOverrides {
    fn push(&mut self, operation: ThreadDefaultsOperation)
        ensures
            final(self)@ == old(self)@.push(operation@),
    {
        self.operations.push(operation);
        assert(self@ =~= old(self)@.push(operation@));
    }

    /// The changes, the first one first.
    pub closed spec fn changes(self) -> Seq<ThreadDefaultsOperation> {
        self.operations@
    }

    /// The debug text of the changes.
    pub open spec fn debug(self) -> Seq<char> {
        struct_text(
            "ThreadDefaultsOverrides"@,
            seq![field("operations"@, "["@ + operations_text(self.changes()) + "]"@)],
            false,
        )
    }

    /// The debug text of the changes.
    pub fn debug_text(&self) -> (text: String)
        ensures
            text@ == self.debug(),
    {
        let mut list = "[".to_owned();
        let count = self.operations.len();
        let mut i: usize = 0;
        assert(self.operations@.take(0) =~= Seq::<ThreadDefaultsOperation>::empty());
        assert(list@ =~= "["@ + operations_text(self.operations@.take(0)));
        while i < count
            invariant
                i <= count,
                count == self.operations@.len(),
                list@ == "["@ + operations_text(self.operations@.take(i as int)),
            decreases count - i,
        {
            if i > 0 {
                list.append(", ");
            }
            list.append(self.operations[i].debug_text().as_str());
            proof {
                let longer = self.operations@.take(i + 1);
                assert(longer.drop_last() =~= self.operations@.take(i as int));
                assert(longer.last() == self.operations@[i as int]);
                assert(list@ =~= "["@ + operations_text(longer));
            }
            i += 1;
        }
        assert(self.operations@.take(i as int) =~= self.operations@);
        list.append("]");
        let fields: Vec<DebugField> = vec![DebugField { name: "operations", value: list }];
        assert(field_models(fields@) =~= seq![field("operations"@, list@)]);
        write_struct("ThreadDefaultsOverrides", fields, false)
    }

    /// Replaces the defaults.
    pub fn replace(&mut self, params: ThreadStartParams)
        ensures
            final(self)@ == old(self)@.push(OperationModel::Replace(params@)),
    {
        self.push(ThreadDefaultsOperation::Replace(Box::new(params)));
    }

    /// Lays `overrides` over the configuration.
    pub fn merge_config(&mut self, overrides: ConfigMap)
        ensures
            final(self)@ == with_patch(old(self)@, config_model(overrides)),
    {
        if !is_empty(&overrides) {
            self.push(ThreadDefaultsOperation::MergeConfig(overrides));
        }
    }

    /// Switches off the configurable tool families.
    pub fn minimize_tools(&mut self)
        ensures
            final(self)@ == old(self)@.push(OperationModel::MergeConfig(minimal_tools())),
    {
        let config = minimal_tool_config_overrides();
        proof {
            assert(minimal_tools().dom().contains("web_search"@));
        }
        self.merge_config(config);
    }

    /// Switches off the optional context blocks.
    pub fn minimize_prompt_context(&mut self)
        ensures
            final(self)@ == old(self)@.push(OperationModel::MergeConfig(minimal_prompt_context())),
    {
        let config = minimal_prompt_context_config_overrides();
        proof {
            assert(minimal_prompt_context().dom().contains(INCLUDE_SKILL_INSTRUCTIONS_CONFIG_KEY@));
        }
        self.merge_config(config);
    }

    /// Switches off context, tools, project documents and environments.
    pub fn configure_pure_chat(&mut self)
        ensures
            final(self)@ == old(self)@.push(OperationModel::MergeConfig(pure_chat())).push(
                OperationModel::SetEnvironment(Some(Seq::empty())),
            ),
    {
        let mut config = minimal_prompt_context_config_overrides();
        let tools = minimal_tool_config_overrides();
        let ghost context = config_model(config);
        config.extend(tools);
        assert(config_model(config) =~= context.union_prefer_right(minimal_tools()));
        let _ = config.insert(PROJECT_DOC_MAX_BYTES_CONFIG_KEY.to_owned(), ConfigValue::Integer(0));
        assert(config_model(config) =~= pure_chat());
        proof {
            assert(pure_chat().dom().contains(PROJECT_DOC_MAX_BYTES_CONFIG_KEY@));
        }
        self.merge_config(config);
        self.set_environment_access(EnvironmentAccess::Disabled);
    }

    /// Switches one context block on or off.
    pub fn set_prompt_context(&mut self, key: &'static str, enabled: bool)
        ensures
            final(self)@ == old(self)@.push(
                OperationModel::MergeConfig(Map::empty().insert(key@, ConfigValueModel::Bool(enabled))),
            ),
    {
        let mut config: ConfigMap = TextMap::new();
        let _ = config.insert(key.to_owned(), ConfigValue::Bool(enabled));
        let ghost patch: ConfigModel = Map::empty().insert(key@, ConfigValueModel::Bool(enabled));
        assert(config_model(config) =~= patch);
        assert(patch.dom().contains(key@));
        self.merge_config(config);
    }

    /// Sets the environments of new threads.
    pub fn set_environment_access(&mut self, access: EnvironmentAccess)
        ensures
            final(self)@ == old(self)@.push(OperationModel::SetEnvironment(access.sent())),
    {
        self.push(ThreadDefaultsOperation::SetEnvironment(access));
    }

    /// The defaults after all changes, in the order in which they were made.
    pub fn apply(self, params: ThreadStartParams) -> (applied: ThreadStartParams)
        ensures
            applied@ == apply_all(self@, params@),
    {
        let ghost all = self@;
        let ghost start = params@;
        let mut params = params;
        let mut rest = ThreadDefaultsOverrides { operations: self.operations };
        while rest.operations.len() > 0
            invariant
                apply_all(rest@, params@) == apply_all(all, start),
            decreases rest.operations@.len(),
        {
            let ghost before = rest@;
            let ghost current = params@;
            let operation = rest.operations.remove(0);
            assert(operation@ == before[0]);
            assert(rest@ =~= before.drop_first());
            match operation {
                ThreadDefaultsOperation::Replace(replacement) => params = *replacement,
                ThreadDefaultsOperation::MergeConfig(patch) => {
                    merge_thread_config_overrides(&mut params, patch);
                },
                ThreadDefaultsOperation::SetEnvironment(access) => {
                    access.apply_to_thread(&mut params);
                },
            }
            assert(params@ == before[0].apply(current));
        }
        params
    }
}

pub const INCLUDE_PERMISSIONS_INSTRUCTIONS_CONFIG_KEY: &'static str = "include_permissions_instructions";

pub const INCLUDE_APPS_INSTRUCTIONS_CONFIG_KEY: &'static str = "include_apps_instructions";

pub const INCLUDE_COLLABORATION_MODE_INSTRUCTIONS_CONFIG_KEY: &'static str = "include_collaboration_mode_instructions";

pub const INCLUDE_ENVIRONMENT_CONTEXT_CONFIG_KEY: &'static str = "include_environment_context";

pub const INCLUDE_SKILL_INSTRUCTIONS_CONFIG_KEY: &'static str = "skills.include_instructions";

pub const PROJECT_DOC_MAX_BYTES_CONFIG_KEY: &'static str = "project_doc_max_bytes";

/// Whether a configuration map has no entry.
fn is_empty(config: &ConfigMap) -> (empty: bool)
    ensures
        empty == config_model(*config).dom().is_empty(),
{
    let count = config.len();
    proof {
        let model = config_model(*config);
        if count > 0 {
            assert(config.keys().contains(config.keys()[0]));
            assert(model.dom().contains(config.keys()[0]));
        } else {
            assert forall|key: Seq<char>| !model.dom().contains(key) by {
                assert(!config.keys().contains(key));
            }
            assert(model.dom() =~= Set::empty());
        }
    }
    count == 0
}

/// Every key of `keys` is switched off.
pub open spec fn all_off(keys: Seq<Seq<char>>) -> ConfigModel {
    Map::new(|key: Seq<char>| keys.contains(key), |key: Seq<char>| ConfigValueModel::Bool(false))
}

/// The configuration that [`ThreadDefaultsOverrides::minimize_tools`] switches
/// off.
pub open spec fn minimal_tool_keys() -> Seq<Seq<char>> {
    seq![
        "features.apps"@,
        "features.plugins"@,
        "features.tool_suggest"@,
        "features.shell_tool"@,
        "features.code_mode"@,
        "features.code_mode_only"@,
        "features.multi_agent"@,
        "features.multi_agent_v2"@,
        "features.enable_fanout"@,
        "features.image_generation"@,
        "features.memories"@,
        "features.goals"@,
        "features.deferred_executor"@,
        "features.request_permissions_tool"@,
        "features.token_budget"@,
        "features.current_time_reminder"@,
        "features.standalone_web_search"@,
        "orchestrator.skills.enabled"@,
        "orchestrator.mcp.enabled"@,
        "tools.experimental_request_user_input.enabled"@,
    ]
}

/// The configuration without the configurable tool families.
pub open spec fn minimal_tools() -> ConfigModel {
    all_off(minimal_tool_keys()).insert("web_search"@, ConfigValueModel::Text("disabled"@))
}

/// The configuration that
/// [`ThreadDefaultsOverrides::minimize_prompt_context`] switches off.
pub open spec fn prompt_context_keys() -> Seq<Seq<char>> {
    seq![
        INCLUDE_PERMISSIONS_INSTRUCTIONS_CONFIG_KEY@,
        INCLUDE_APPS_INSTRUCTIONS_CONFIG_KEY@,
        INCLUDE_COLLABORATION_MODE_INSTRUCTIONS_CONFIG_KEY@,
        INCLUDE_ENVIRONMENT_CONTEXT_CONFIG_KEY@,
        INCLUDE_SKILL_INSTRUCTIONS_CONFIG_KEY@,
    ]
}

/// The configuration without the optional context blocks.
pub open spec fn minimal_prompt_context() -> ConfigModel {
    all_off(prompt_context_keys())
}

/// The configuration of a chat without tools.
pub open spec fn pure_chat() -> ConfigModel {
    minimal_prompt_context().union_prefer_right(minimal_tools()).insert(
        PROJECT_DOC_MAX_BYTES_CONFIG_KEY@,
        ConfigValueModel::Integer(0),
    )
}

/// The characters of each of several texts.
pub open spec fn str_views(list: Seq<&'static str>) -> Seq<Seq<char>> {
    list.map_values(|text: &'static str| text@)
}

/// Switches every key of `keys` off.
fn switch_off(keys: &Vec<&'static str>) -> (config: ConfigMap)
    ensures
        config_model(config) == all_off(str_views(keys@)),
{
    let mut config: ConfigMap = TextMap::new();
    let mut i: usize = 0;
    let ghost views = str_views(keys@);
    assert(config_model(config) =~= all_off(views.take(0)));
    while i < keys.len()
        invariant
            i <= keys@.len(),
            views == str_views(keys@),
            config_model(config) == all_off(views.take(i as int)),
        decreases keys@.len() - i,
    {
        let ghost before = config_model(config);
        let _ = config.insert(keys[i].to_owned(), ConfigValue::Bool(false));
        proof {
            let shorter = views.take(i as int);
            let longer = views.take(i + 1);
            assert forall|key: Seq<char>| longer.contains(key) <==> shorter.contains(key) || key == views[i as int] by {
                if longer.contains(key) {
                    let j = choose|j: int| 0 <= j < longer.len() && longer[j] == key;
                    if j < i {
                        assert(shorter[j] == key);
                    }
                }
                if shorter.contains(key) {
                    let j = choose|j: int| 0 <= j < shorter.len() && shorter[j] == key;
                    assert(longer[j] == key);
                }
                assert(longer[i as int] == views[i as int]);
            }
            assert(config_model(config) =~= before.insert(views[i as int], ConfigValueModel::Bool(false)));
            assert(config_model(config) =~= all_off(longer));
        }
        i += 1;
    }
    assert(views.take(i as int) =~= views);
    config
}

/// The configuration without the configurable tool families.
pub fn minimal_tool_config_overrides() -> (config: ConfigMap)
    ensures
        config_model(config) == minimal_tools(),
{
    let keys: Vec<&'static str> = vec![
        "features.apps",
        "features.plugins",
        "features.tool_suggest",
        "features.shell_tool",
        "features.code_mode",
        "features.code_mode_only",
        "features.multi_agent",
        "features.multi_agent_v2",
        "features.enable_fanout",
        "features.image_generation",
        "features.memories",
        "features.goals",
        "features.deferred_executor",
        "features.request_permissions_tool",
        "features.token_budget",
        "features.current_time_reminder",
        "features.standalone_web_search",
        "orchestrator.skills.enabled",
        "orchestrator.mcp.enabled",
        "tools.experimental_request_user_input.enabled",
    ];
    assert(str_views(keys@) =~= minimal_tool_keys());
    let mut config = switch_off(&keys);
    let ghost before = config_model(config);
    let _ = config.insert("web_search".to_owned(), ConfigValue::Text("disabled".to_owned()));
    assert(config_model(config) =~= before.insert("web_search"@, ConfigValueModel::Text("disabled"@)));
    config
}

/// The configuration without the optional context blocks.
pub fn minimal_prompt_context_config_overrides() -> (config: ConfigMap)
    ensures
        config_model(config) == minimal_prompt_context(),
{
    let keys: Vec<&'static str> = vec![
        INCLUDE_PERMISSIONS_INSTRUCTIONS_CONFIG_KEY,
        INCLUDE_APPS_INSTRUCTIONS_CONFIG_KEY,
        INCLUDE_COLLABORATION_MODE_INSTRUCTIONS_CONFIG_KEY,
        INCLUDE_ENVIRONMENT_CONTEXT_CONFIG_KEY,
        INCLUDE_SKILL_INSTRUCTIONS_CONFIG_KEY,
    ];
    assert(str_views(keys@) =~= prompt_context_keys());
    switch_off(&keys)
}

/// Lays `overrides` over the configuration of `params`.
pub fn merge_thread_config_overrides(params: &mut ThreadStartParams, overrides: ConfigMap)
    ensures
        final(params)@ == merged(old(params)@, config_model(overrides)),
{
    if !is_empty(&overrides) {
        let mut current: Option<ConfigMap> = None;
        std::mem::swap(&mut current, &mut params.config);
        let mut config: ConfigMap = match current {
            Some(config) => config,
            None => {
                let config: ConfigMap = TextMap::new();
                assert(config_model(config) =~= Map::<Seq<char>, ConfigValueModel>::empty());
                config
            },
        };
        let ghost before = config_model(config);
        config.extend(overrides);
        assert(config_model(config) =~= before.union_prefer_right(config_model(overrides)));
        params.config = Some(config);
    }
}

/// The configuration that a resolved [`Config`] gives every new thread.
pub open spec fn config_snapshot(config: Config) -> ConfigModel {
    let blocks: ConfigModel = Map::empty().insert(
        INCLUDE_PERMISSIONS_INSTRUCTIONS_CONFIG_KEY@,
        ConfigValueModel::Bool(config.include_permissions_instructions),
    ).insert(
        INCLUDE_APPS_INSTRUCTIONS_CONFIG_KEY@,
        ConfigValueModel::Bool(config.include_apps_instructions),
    ).insert(
        INCLUDE_COLLABORATION_MODE_INSTRUCTIONS_CONFIG_KEY@,
        ConfigValueModel::Bool(config.include_collaboration_mode_instructions),
    ).insert(
        INCLUDE_ENVIRONMENT_CONTEXT_CONFIG_KEY@,
        ConfigValueModel::Bool(config.include_environment_context),
    ).insert(
        INCLUDE_SKILL_INSTRUCTIONS_CONFIG_KEY@,
        ConfigValueModel::Bool(config.include_skill_instructions),
    );
    let with_effort = match config.model_reasoning_effort {
        Some(effort) => blocks.insert("model_reasoning_effort"@, ConfigValueModel::Text(effort.name())),
        None => blocks,
    };
    match config.model_reasoning_summary {
        Some(summary) => with_effort.insert("model_reasoning_summary"@, ConfigValueModel::Text(summary.name())),
        None => with_effort,
    }
}

/// The sandbox mode, or else the permission profile, that a resolved
/// [`Config`] gives every new thread.
pub open spec fn snapshot_permissions(config: Config) -> (Option<SandboxMode>, Option<Seq<char>>) {
    if config.explicit_permission_profile_mode && config.active_permission_profile is Some {
        (None, optional_text(config.active_permission_profile))
    } else {
        (
            match config.legacy_sandbox_policy {
                LegacySandboxPolicy::ReadOnly => Some(SandboxMode::ReadOnly),
                LegacySandboxPolicy::WorkspaceWrite => Some(SandboxMode::WorkspaceWrite),
                LegacySandboxPolicy::DangerFullAccess => Some(SandboxMode::DangerFullAccess),
                LegacySandboxPolicy::ExternalSandbox => None,
            },
            None,
        )
    }
}

/// The native defaults that a resolved [`Config`] stands for.
pub open spec fn defaults_snapshot(config: Config) -> ThreadStartModel {
    ThreadStartModel {
        cwd: Some(config.cwd@),
        model: optional_text(config.model),
        model_provider: Some(config.model_provider_id@),
        service_tier: Some(optional_text(config.service_tier)),
        runtime_workspace_roots: if config.workspace_roots@.len() == 0 {
            None
        } else {
            Some(texts(config.workspace_roots@))
        },
        approval_policy: Some(config.approval_policy),
        approvals_reviewer: Some(config.approvals_reviewer@),
        sandbox: snapshot_permissions(config).0,
        permissions: snapshot_permissions(config).1,
        personality: config.personality,
        config: Some(config_snapshot(config)),
        base_instructions: optional_text(config.base_instructions),
        developer_instructions: optional_text(config.developer_instructions),
        ephemeral: Some(config.ephemeral),
        thread_source: Some(ThreadSource::User),
        ..ThreadStartModel::empty()
    }
}

/// Takes a snapshot of the resolved values that `thread/start` has parameters
/// for. A resolved configuration no longer says where each value came from, so
/// this is no lossless conversion.
pub fn thread_defaults_snapshot(config: &Config) -> (params: ThreadStartParams)
    ensures
        params@ == defaults_snapshot(*config),
{
    let (sandbox, permissions) = thread_permissions_from_config(config);
    let runtime_workspace_roots = if config.workspace_roots.len() == 0 {
        None
    } else {
        Some(copy_texts(&config.workspace_roots))
    };
    ThreadStartParams {
        cwd: Some(config.cwd.clone()),
        model: copy_optional(&config.model),
        model_provider: Some(config.model_provider_id.clone()),
        // Always sent: a cleared tier is not the same as an omitted one.
        service_tier: Some(copy_optional(&config.service_tier)),
        runtime_workspace_roots,
        approval_policy: Some(config.approval_policy.clone()),
        approvals_reviewer: Some(config.approvals_reviewer.clone()),
        sandbox,
        permissions,
        personality: config.personality,
        config: Some(thread_config_snapshot(config)),
        base_instructions: copy_optional(&config.base_instructions),
        developer_instructions: copy_optional(&config.developer_instructions),
        ephemeral: Some(config.ephemeral),
        thread_source: Some(ThreadSource::User),
        environments: None,
        extra: None,
    }
}

/// Stores a value in a configuration map.
fn put(config: &mut ConfigMap, key: &'static str, value: ConfigValue)
    ensures
        config_model(*final(config)) == config_model(*old(config)).insert(key@, value@),
{
    let _ = config.insert(key.to_owned(), value);
    assert(config_model(*config) =~= config_model(*old(config)).insert(key@, value@));
}

/// The configuration that a resolved [`Config`] gives every new thread.
pub fn thread_config_snapshot(config: &Config) -> (overrides: ConfigMap)
    ensures
        config_model(overrides) == config_snapshot(*config),
{
    let mut overrides: ConfigMap = TextMap::new();
    assert(config_model(overrides) =~= Map::<Seq<char>, ConfigValueModel>::empty());
    put(
        &mut overrides,
        INCLUDE_PERMISSIONS_INSTRUCTIONS_CONFIG_KEY,
        ConfigValue::Bool(config.include_permissions_instructions),
    );
    put(
        &mut overrides,
        INCLUDE_APPS_INSTRUCTIONS_CONFIG_KEY,
        ConfigValue::Bool(config.include_apps_instructions),
    );
    put(
        &mut overrides,
        INCLUDE_COLLABORATION_MODE_INSTRUCTIONS_CONFIG_KEY,
        ConfigValue::Bool(config.include_collaboration_mode_instructions),
    );
    put(
        &mut overrides,
        INCLUDE_ENVIRONMENT_CONTEXT_CONFIG_KEY,
        ConfigValue::Bool(config.include_environment_context),
    );
    put(
        &mut overrides,
        INCLUDE_SKILL_INSTRUCTIONS_CONFIG_KEY,
        ConfigValue::Bool(config.include_skill_instructions),
    );
    if let Some(effort) = &config.model_reasoning_effort {
        put(&mut overrides, "model_reasoning_effort", ConfigValue::Text(effort.as_str().to_owned()));
    }
    if let Some(summary) = config.model_reasoning_summary {
        put(&mut overrides, "model_reasoning_summary", ConfigValue::Text(summary.as_str().to_owned()));
    }
    overrides
}

/// The sandbox mode, or else the permission profile, that a resolved
/// [`Config`] gives every new thread.
pub fn thread_permissions_from_config(config: &Config) -> (permissions: (Option<SandboxMode>, Option<String>))
    ensures
        permissions.0 == snapshot_permissions(*config).0,
        optional_text(permissions.1) == snapshot_permissions(*config).1,
{
    if config.explicit_permission_profile_mode {
        if let Some(profile) = &config.active_permission_profile {
            return (None, Some(profile.clone()));
        }
    }
    let sandbox = match config.legacy_sandbox_policy {
        LegacySandboxPolicy::ReadOnly => Some(SandboxMode::ReadOnly),
        LegacySandboxPolicy::WorkspaceWrite => Some(SandboxMode::WorkspaceWrite),
        LegacySandboxPolicy::DangerFullAccess => Some(SandboxMode::DangerFullAccess),
        LegacySandboxPolicy::ExternalSandbox => None,
    };
    (sandbox, None)
}

/// Changes apply in the order in which they were made: the last one sees what
/// all the others have made of the defaults.
pub proof fn law_changes_apply_in_order(
    operations: Seq<OperationModel>,
    last: OperationModel,
    params: ThreadStartModel,
)
    ensures
        apply_all(operations.push(last), params) == last.apply(apply_all(operations, params)),
    decreases operations.len(),
{
    if operations.len() == 0 {
        assert(operations.push(last).drop_first() =~= Seq::<OperationModel>::empty());
        assert(apply_all(operations.push(last).drop_first(), last.apply(params)) == last.apply(params));
    } else {
        assert(operations.push(last).drop_first() =~= operations.drop_first().push(last));
        law_changes_apply_in_order(operations.drop_first(), last, operations[0].apply(params));
    }
}

/// A later configuration override wins over whatever came before it, and
/// leaves every other key alone.
pub proof fn law_later_overrides_win(
    operations: Seq<OperationModel>,
    patch: ConfigModel,
    params: ThreadStartModel,
    key: Seq<char>,
)
    requires
        patch.contains_key(key),
    ensures
        ({
            let before = apply_all(operations, params);
            let after = apply_all(with_patch(operations, patch), params);
            &&& after.config matches Some(config) && config.contains_key(key) && config[key] == patch[key]
            &&& forall|other: Seq<char>|
                before.config is Some && before.config->0.contains_key(other) && !patch.contains_key(other)
                    ==> #[trigger] after.config->0.contains_key(other) && after.config->0[other] == before.config->0[other]
            &&& after == (ThreadStartModel { config: after.config, ..before })
        }),
{
    assert(patch.dom().contains(key));
    law_changes_apply_in_order(operations, OperationModel::MergeConfig(patch), params);
}

/// A replacement forgets every change before it.
pub proof fn law_replacement_forgets_earlier_changes(
    operations: Seq<OperationModel>,
    replacement: ThreadStartModel,
    params: ThreadStartModel,
)
    ensures
        apply_all(operations.push(OperationModel::Replace(replacement)), params) == replacement,
{
    law_changes_apply_in_order(operations, OperationModel::Replace(replacement), params);
}

/// The last choice of environments counts, and changes nothing else.
pub proof fn law_last_environment_choice_counts(
    operations: Seq<OperationModel>,
    access: EnvironmentAccess,
    params: ThreadStartModel,
)
    ensures
        apply_all(operations.push(OperationModel::SetEnvironment(access.sent())), params) == (ThreadStartModel {
            environments: access.sent(),
            ..apply_all(operations, params)
        }),
{
    law_changes_apply_in_order(operations, OperationModel::SetEnvironment(access.sent()), params);
}

/// The three ways to choose environments are told apart by what is sent, but
/// for an empty selection, which means the same as none allowed.
pub proof fn law_environment_choices_stay_apart(access: EnvironmentAccess)
    ensures
        access is Inherit <==> access.sent() is None,
        access is Disabled ==> access.sent() == Some(Seq::<TurnEnvironmentParams>::empty()),
        access matches EnvironmentAccess::Selected(environments) ==> access.sent() == Some(environments@),
{
}

/// No profile lists the two keys that the chat profile sets otherwise.
pub(crate) proof fn lemma_listed_keys(key: Seq<char>)
    requires
        prompt_context_keys().contains(key) || minimal_tool_keys().contains(key),
    ensures
        key != "web_search"@,
        key != PROJECT_DOC_MAX_BYTES_CONFIG_KEY@,
        PROJECT_DOC_MAX_BYTES_CONFIG_KEY@ != "web_search"@,
{
    reveal_strlit("features.apps");
    reveal_strlit("features.plugins");
    reveal_strlit("features.tool_suggest");
    reveal_strlit("features.shell_tool");
    reveal_strlit("features.code_mode");
    reveal_strlit("features.code_mode_only");
    reveal_strlit("features.multi_agent");
    reveal_strlit("features.multi_agent_v2");
    reveal_strlit("features.enable_fanout");
    reveal_strlit("features.image_generation");
    reveal_strlit("features.memories");
    reveal_strlit("features.goals");
    reveal_strlit("features.deferred_executor");
    reveal_strlit("features.request_permissions_tool");
    reveal_strlit("features.token_budget");
    reveal_strlit("features.current_time_reminder");
    reveal_strlit("features.standalone_web_search");
    reveal_strlit("orchestrator.skills.enabled");
    reveal_strlit("orchestrator.mcp.enabled");
    reveal_strlit("tools.experimental_request_user_input.enabled");
    reveal_strlit("include_permissions_instructions");
    reveal_strlit("include_apps_instructions");
    reveal_strlit("include_collaboration_mode_instructions");
    reveal_strlit("include_environment_context");
    reveal_strlit("skills.include_instructions");
    reveal_strlit("web_search");
    reveal_strlit("project_doc_max_bytes");
    assert("web_search"@[0] == 'w' && "project_doc_max_bytes"@[0] == 'p');
    assert forall|i: int| 0 <= i < minimal_tool_keys().len() implies minimal_tool_keys()[i][0] != 'w'
        && minimal_tool_keys()[i][0] != 'p' by {}
    assert forall|i: int| 0 <= i < prompt_context_keys().len() implies prompt_context_keys()[i][0] != 'w'
        && prompt_context_keys()[i][0] != 'p' by {}
}

/// The chat profile switches off what the two smaller profiles switch off,
/// and web search, project documents and environments with them.
pub proof fn law_pure_chat_composes_the_profiles(params: ThreadStartModel, key: Seq<char>)
    requires
        prompt_context_keys().contains(key) || minimal_tool_keys().contains(key),
    ensures
        ({
            let chat = apply_all(
                seq![OperationModel::MergeConfig(pure_chat()), OperationModel::SetEnvironment(Some(Seq::empty()))],
                params,
            );
            &&& chat.environments == Some(Seq::<TurnEnvironmentParams>::empty())
            &&& chat.config is Some
            &&& chat.config->0.contains_key(key)
            &&& chat.config->0[key] == ConfigValueModel::Bool(false)
            &&& chat.config->0.contains_key("web_search"@)
            &&& chat.config->0["web_search"@] == ConfigValueModel::Text("disabled"@)
            &&& chat.config->0.contains_key(PROJECT_DOC_MAX_BYTES_CONFIG_KEY@)
            &&& chat.config->0[PROJECT_DOC_MAX_BYTES_CONFIG_KEY@] == ConfigValueModel::Integer(0)
        }),
{
    let first = OperationModel::MergeConfig(pure_chat());
    let second = OperationModel::SetEnvironment(Some(Seq::<TurnEnvironmentParams>::empty()));
    law_changes_apply_in_order(seq![first], second, params);
    law_changes_apply_in_order(Seq::<OperationModel>::empty(), first, params);
    assert(seq![first].push(second) =~= seq![first, second]);
    assert(Seq::<OperationModel>::empty().push(first) =~= seq![first]);
    assert(pure_chat().dom().contains(PROJECT_DOC_MAX_BYTES_CONFIG_KEY@));
    lemma_listed_keys(key);
}

} // verus!
