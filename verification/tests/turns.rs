use codex_sdk::protocol::{
    AskForApproval, Personality, ReasoningEffort, ReasoningSummary, SandboxMode, SandboxPolicy, UserInput,
};
use codex_sdk::turn::{sandbox_policy_from_mode, text_input, turn_params_with_input};

fn hello() -> UserInput {
    UserInput::Text { text: "hello".to_string(), text_elements: Vec::new() }
}

fn image() -> UserInput {
    UserInput::LocalImage { detail: None, path: "image.png".into() }
}

#[test]
fn turn_params_with_input_stores_string_as_native_text_input() {
    let params = turn_params_with_input("hello");

    assert_eq!(
        params.input,
        vec![UserInput::Text { text: "hello".to_string(), text_elements: Vec::new() }]
    );
}

#[test]
fn turn_params_with_input_accepts_native_user_input_vec() {
    let input = || {
        vec![
            UserInput::Text { text: "hello".to_string(), text_elements: Vec::new() },
            UserInput::LocalImage { detail: None, path: "image.png".into() },
        ]
    };

    let params = turn_params_with_input(input());

    assert_eq!(params.input, input());
}

#[test]
fn sandbox_mode_maps_to_simple_turn_policy() {
    assert_eq!(
        sandbox_policy_from_mode(SandboxMode::ReadOnly),
        SandboxPolicy::ReadOnly { network_access: false }
    );
    assert_eq!(
        sandbox_policy_from_mode(SandboxMode::WorkspaceWrite),
        SandboxPolicy::WorkspaceWrite {
            writable_roots: Vec::new(),
            network_access: false,
            exclude_tmpdir_env_var: false,
            exclude_slash_tmp: false,
        }
    );
    assert_eq!(sandbox_policy_from_mode(SandboxMode::DangerFullAccess), SandboxPolicy::DangerFullAccess);
}

#[test]
fn every_kind_of_input_becomes_native_input() {
    let owned = "hello".to_string();
    assert_eq!(turn_params_with_input(&owned).input, vec![hello()]);
    assert_eq!(turn_params_with_input(owned).input, vec![hello()]);
    assert_eq!(turn_params_with_input(image()).input, vec![image()]);
    assert_eq!(turn_params_with_input([hello(), image()]).input, vec![hello(), image()]);
    assert_eq!(text_input("hello".to_string()), vec![hello()]);
}

#[test]
fn input_leaves_the_other_parameters_unset() {
    let params = turn_params_with_input("hello");
    assert_eq!(params.thread_id, "");
    assert_eq!(params.cwd, None);
    assert_eq!(params.model, None);
    assert_eq!(params.sandbox_policy, None);
    assert_eq!(params.environments, None);
}

#[test]
fn wire_names_are_those_of_the_protocol() {
    assert_eq!(ReasoningEffort::XHigh.as_str(), "xhigh");
    assert_eq!(ReasoningEffort::Off.as_str(), "none");
    assert_eq!(ReasoningSummary::Detailed.as_str(), "detailed");
    assert_eq!(ReasoningSummary::Off.as_str(), "none");
    assert_eq!(Personality::Off.as_str(), "none");
    assert_eq!(Personality::Friendly.as_str(), "friendly");
    assert_eq!(Personality::Pragmatic.as_str(), "pragmatic");
    assert_eq!(Personality::Friendly.variant_name(), "Friendly");
    assert_eq!(Personality::Off.variant_name(), "None");
    assert_eq!(ReasoningEffort::Off.debug_text(), "None");
    let other = ReasoningEffort::Other { name: "max".to_string() };
    assert_eq!(other.clone(), other);
    assert_eq!(other.as_str(), "max");
    assert_eq!(other.debug_text(), "Other { name: \"max\" }");
    assert_eq!(ReasoningSummary::Off.variant_name(), "None");
    assert_eq!(AskForApproval::Never.debug_text(), "Never");
    assert_eq!(
        AskForApproval::Granular {
            sandbox_approval: true,
            rules: true,
            mcp_elicitations: true,
            request_permissions: false,
            skill_approval: false,
        }
        .debug_text(),
        "Granular { sandbox_approval: true, rules: true, mcp_elicitations: true, request_permissions: false, skill_approval: false }"
    );
}
