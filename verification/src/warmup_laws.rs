//! What a warmup asks for and what it reports.
use crate::client::Codex;
use crate::debug::whole_seconds;
use crate::protocol::{ClientRequest, McpServerStatusDetail, ThreadStartModel};
use crate::text::{optional_text, texts};
use crate::warmup::{
    all_steps, law_no_outcome_stops_the_steps, law_steps_are_distinct, outcomes_fit, outcomes_of, record_all,
    run_after, total, ResultModel, WarmupBuilder, WarmupReply, WarmupResponse, WarmupResult, WarmupRun, WarmupStep,
    WarmupStepError, WarmupTargets,
};
use std::time::Duration;
use vstd::prelude::*;

verus! {

/// A sum is that of its parts, and that of a single count is the count.
pub proof fn law_totals_add_up(counts: Seq<usize>, more: Seq<usize>, count: usize)
    ensures
        total(Seq::<usize>::empty()) == 0,
        total(seq![count]) == count,
        total(counts + more) == total(counts) + total(more),
    decreases more.len(),
{
    reveal_with_fuel(total, 2);
    assert(seq![count].drop_last() =~= Seq::<usize>::empty());
    if more.len() == 0 {
        assert(counts + more =~= counts);
    } else {
        law_totals_add_up(counts, more.drop_last(), count);
        assert((counts + more).drop_last() =~= counts + more.drop_last());
    }
}

/// The value that a step reports is the one that its response says. For
/// skills it is the number of skills in all warmed directories together.
pub proof fn law_answers_become_values(run: &mut WarmupRun, response: WarmupResponse)
    requires
        run@.steps.len() > 0,
        response.step() == run@.steps[0],
        response.countable(),
        call_ensures(WarmupRun::record, (run, WarmupReply::Answered(Ok(response))), ()),
    ensures
        response matches WarmupResponse::Models(value) ==> final(run)@.result.models == Some(value),
        response matches WarmupResponse::PermissionProfiles(value) ==> final(run)@.result.permission_profiles == Some(value),
        response matches WarmupResponse::ConfigRequirements(value) ==> final(run)@.result.config_requirements == Some(value),
        response matches WarmupResponse::Account(value) ==> final(run)@.result.account == Some(value),
        response matches WarmupResponse::McpStatus(value) ==> final(run)@.result.mcp_servers == Some(value),
        response matches WarmupResponse::Apps(value) ==> final(run)@.result.apps == Some(value),
        response matches WarmupResponse::Skills(counts) ==> (final(run)@.result.skills matches Some(count) && count == total(counts@)),
        final(run)@.result.failures == old(run)@.result.failures,
{
}

/// A response changes the value of its own step and nothing else.
pub proof fn law_answers_change_one_value(run: &mut WarmupRun, response: WarmupResponse)
    requires
        run@.steps.len() > 0,
        response.step() == run@.steps[0],
        response.countable(),
        call_ensures(WarmupRun::record, (run, WarmupReply::Answered(Ok(response))), ()),
    ensures
        !(response is Models) ==> final(run)@.result.models == old(run)@.result.models,
        !(response is Skills) ==> final(run)@.result.skills == old(run)@.result.skills,
        !(response is PermissionProfiles) ==> final(run)@.result.permission_profiles == old(run)@.result.permission_profiles,
        !(response is ConfigRequirements) ==> final(run)@.result.config_requirements == old(run)@.result.config_requirements,
        !(response is Account) ==> final(run)@.result.account == old(run)@.result.account,
        !(response is McpStatus) ==> final(run)@.result.mcp_servers == old(run)@.result.mcp_servers,
        !(response is Apps) ==> final(run)@.result.apps == old(run)@.result.apps,
        final(run)@.steps == old(run)@.steps.drop_first(),
        final(run)@.cwd == old(run)@.cwd,
        final(run)@.force_reload_skills == old(run)@.force_reload_skills,
        final(run)@.step_timeout == old(run)@.step_timeout,
{
}

/// A step that failed changes no value. It adds one failure, which names the
/// method of the step and what went wrong.
pub proof fn law_failed_steps_change_no_value(run: &mut WarmupRun, reply: WarmupReply)
    requires
        run@.steps.len() > 0,
        !(reply matches WarmupReply::Answered(Ok(_))),
        call_ensures(WarmupRun::record, (run, reply), ()),
    ensures
        final(run)@.result.models == old(run)@.result.models,
        final(run)@.result.skills == old(run)@.result.skills,
        final(run)@.result.permission_profiles == old(run)@.result.permission_profiles,
        final(run)@.result.config_requirements == old(run)@.result.config_requirements,
        final(run)@.result.account == old(run)@.result.account,
        final(run)@.result.mcp_servers == old(run)@.result.mcp_servers,
        final(run)@.result.apps == old(run)@.result.apps,
        final(run)@.steps == old(run)@.steps.drop_first(),
        final(run)@.result.failures.len() == old(run)@.result.failures.len() + 1,
        final(run)@.result.failures.drop_last() == old(run)@.result.failures,
        final(run)@.result.failures.last().step == old(run)@.steps[0].method(),
        reply matches WarmupReply::Answered(Err(error)) ==> final(run)@.result.failures.last().error == error.text(),
        reply is TimedOut ==> final(run)@.result.failures.last().error == WarmupStepError::Timeout(
            old(run)@.step_timeout,
        ).text(),
{
}

/// Where no step is taken twice, the result of a warmup holds for every step
/// that was answered what the answer says, whatever the other steps did.
proof fn lemma_values(
    steps: Seq<WarmupStep>,
    outcomes: Seq<std::result::Result<WarmupResponse, WarmupStepError>>,
    i: int,
    response: WarmupResponse,
)
    requires
        outcomes_fit(steps, outcomes),
        steps.no_duplicates(),
        0 <= i < steps.len(),
        outcomes[i] == std::result::Result::<WarmupResponse, WarmupStepError>::Ok(response),
        response.countable(),
    ensures
        response matches WarmupResponse::Models(value) ==> record_all(ResultModel::empty(), steps, outcomes).models == Some(value),
        response matches WarmupResponse::PermissionProfiles(value) ==> record_all(ResultModel::empty(), steps, outcomes).permission_profiles == Some(value),
        response matches WarmupResponse::ConfigRequirements(value) ==> record_all(ResultModel::empty(), steps, outcomes).config_requirements == Some(value),
        response matches WarmupResponse::Account(value) ==> record_all(ResultModel::empty(), steps, outcomes).account == Some(value),
        response matches WarmupResponse::McpStatus(value) ==> record_all(ResultModel::empty(), steps, outcomes).mcp_servers == Some(value),
        response matches WarmupResponse::Apps(value) ==> record_all(ResultModel::empty(), steps, outcomes).apps == Some(value),
        response matches WarmupResponse::Skills(counts) ==> (record_all(ResultModel::empty(), steps, outcomes).skills matches Some(count) && count == total(counts@)),
    decreases steps.len(),
{
    let last = steps.len() - 1;
    let front = steps.drop_last();
    let before = outcomes.drop_last();
    assert(response.step() == steps[i]);
    assert(outcomes[last] == outcomes.last());
    if i < last {
        assert(outcomes_fit(front, before)) by {
            assert forall|k: int|
                #![trigger before[k]]
                0 <= k < front.len() && before[k] is Ok implies before[k]->Ok_0.step() == front[k] by {
                assert(outcomes[k] == before[k]);
            }
        }
        assert(before[i] == outcomes[i]);
        assert(steps[i] != steps[last]);
        lemma_values(front, before, i, response);
    }
}

/// A warmup reports for every step that was answered what the answer says,
/// and nothing for a step that was not taken, whatever the other steps did.
pub proof fn law_warmups_report_their_answers(
    builder: WarmupBuilder,
    codex: Codex,
    run: WarmupRun,
    replies: Seq<WarmupReply>,
    i: int,
    response: WarmupResponse,
)
    requires
        call_ensures(WarmupBuilder::send, (builder, &codex), run),
        replies.len() == run@.steps.len(),
        outcomes_fit(run@.steps, outcomes_of(replies, run@.step_timeout)),
        0 <= i < replies.len(),
        replies[i] == WarmupReply::Answered(Ok(response)),
        response.countable(),
    ensures
        ({
            let result = run_after(run@, replies).result;
            &&& response matches WarmupResponse::Models(value) ==> result.models == Some(value)
            &&& response matches WarmupResponse::PermissionProfiles(value) ==> result.permission_profiles == Some(value)
            &&& response matches WarmupResponse::ConfigRequirements(value) ==> result.config_requirements == Some(value)
            &&& response matches WarmupResponse::Account(value) ==> result.account == Some(value)
            &&& response matches WarmupResponse::McpStatus(value) ==> result.mcp_servers == Some(value)
            &&& response matches WarmupResponse::Apps(value) ==> result.apps == Some(value)
            &&& response matches WarmupResponse::Skills(counts) ==> (result.skills matches Some(count) && count == total(counts@))
            &&& run_after(run@, replies).steps.len() == 0
        }),
{
    law_steps_are_distinct(builder.targets);
    law_no_outcome_stops_the_steps(run@, replies);
    assert(run@.steps.take(replies.len() as int) =~= run@.steps);
    let outcomes = outcomes_of(replies, run@.step_timeout);
    assert(outcomes[i] == std::result::Result::<WarmupResponse, WarmupStepError>::Ok(response));
    lemma_values(run@.steps, outcomes, i, response);
}

/// The result of a warmup holds every value that its steps have found.
pub proof fn law_results_are_handed_out(run: WarmupRun, result: WarmupResult)
    requires
        call_ensures(WarmupRun::into_result, (run,), result),
    ensures
        result.models == run@.result.models,
        result.skills == run@.result.skills,
        result.permission_profiles == run@.result.permission_profiles,
        result.config_requirements == run@.result.config_requirements,
        result.account == run@.result.account,
        result.mcp_servers == run@.result.mcp_servers,
        result.apps == run@.result.apps,
        result.failures@.len() == run@.result.failures.len(),
        forall|i: int|
            0 <= i < result.failures@.len() ==> (#[trigger] result.failures@[i]).step@ == run@.result.failures[i].step
                && result.failures@[i].error@ == run@.result.failures[i].error,
{
    assert(result@.failures.len() == result.failures@.len());
    assert forall|i: int| 0 <= i < result.failures@.len() implies (#[trigger] result.failures@[i]).step@
        == run@.result.failures[i].step && result.failures@[i].error@ == run@.result.failures[i].error by {
        assert(result@.failures[i] == result.failures@[i]@);
    }
}

/// A warmup is complete exactly when it has no failures.
pub proof fn law_complete_results_have_no_failures(result: WarmupResult, complete: bool)
    requires
        call_ensures(WarmupResult::is_complete, (&result,), complete),
    ensures
        complete <==> result.failures@.len() == 0,
{
}

/// Each step has the method of its app-server request.
pub proof fn law_steps_have_their_methods(step: WarmupStep, name: &'static str)
    requires
        call_ensures(WarmupStep::method_name, (step,), name),
    ensures
        step is Models ==> name@ == "model/list"@,
        step is Skills ==> name@ == "skills/list"@,
        step is PermissionProfiles ==> name@ == "permissionProfile/list"@,
        step is ConfigRequirements ==> name@ == "configRequirements/read"@,
        step is Account ==> name@ == "account/read"@,
        step is McpStatus ==> name@ == "mcpServerStatus/list"@,
        step is Apps ==> name@ == "app/list"@,
        name@ == step.method(),
{
}

/// `earlier` comes before `later` among the steps.
pub open spec fn comes_before(steps: Seq<WarmupStep>, earlier: WarmupStep, later: WarmupStep) -> bool {
    forall|i: int, j: int|
        #![trigger steps[i], steps[j]]
        0 <= i < steps.len() && 0 <= j < steps.len() && steps[i] == earlier && steps[j] == later ==> i < j
}

/// A warmup takes exactly the steps that are switched on, each once, always in
/// the same order.
pub proof fn law_warmups_take_what_is_switched_on(builder: WarmupBuilder, codex: Codex, run: WarmupRun)
    requires
        call_ensures(WarmupBuilder::send, (builder, &codex), run),
    ensures
        run@.steps.contains(WarmupStep::Models) == builder.targets.models,
        run@.steps.contains(WarmupStep::Skills) == builder.targets.skills,
        run@.steps.contains(WarmupStep::PermissionProfiles) == builder.targets.permission_profiles,
        run@.steps.contains(WarmupStep::ConfigRequirements) == builder.targets.config_requirements,
        run@.steps.contains(WarmupStep::Account) == builder.targets.account,
        run@.steps.contains(WarmupStep::McpStatus) == builder.targets.mcp_status,
        run@.steps.contains(WarmupStep::Apps) == builder.targets.apps,
        run@.steps.no_duplicates(),
        comes_before(run@.steps, WarmupStep::Models, WarmupStep::Skills),
        comes_before(run@.steps, WarmupStep::Models, WarmupStep::PermissionProfiles),
        comes_before(run@.steps, WarmupStep::Models, WarmupStep::ConfigRequirements),
        comes_before(run@.steps, WarmupStep::Models, WarmupStep::Account),
        comes_before(run@.steps, WarmupStep::Models, WarmupStep::McpStatus),
        comes_before(run@.steps, WarmupStep::Models, WarmupStep::Apps),
        comes_before(run@.steps, WarmupStep::Skills, WarmupStep::PermissionProfiles),
        comes_before(run@.steps, WarmupStep::Skills, WarmupStep::ConfigRequirements),
        comes_before(run@.steps, WarmupStep::Skills, WarmupStep::Account),
        comes_before(run@.steps, WarmupStep::Skills, WarmupStep::McpStatus),
        comes_before(run@.steps, WarmupStep::Skills, WarmupStep::Apps),
        comes_before(run@.steps, WarmupStep::PermissionProfiles, WarmupStep::ConfigRequirements),
        comes_before(run@.steps, WarmupStep::PermissionProfiles, WarmupStep::Account),
        comes_before(run@.steps, WarmupStep::PermissionProfiles, WarmupStep::McpStatus),
        comes_before(run@.steps, WarmupStep::PermissionProfiles, WarmupStep::Apps),
        comes_before(run@.steps, WarmupStep::ConfigRequirements, WarmupStep::Account),
        comes_before(run@.steps, WarmupStep::ConfigRequirements, WarmupStep::McpStatus),
        comes_before(run@.steps, WarmupStep::ConfigRequirements, WarmupStep::Apps),
        comes_before(run@.steps, WarmupStep::Account, WarmupStep::McpStatus),
        comes_before(run@.steps, WarmupStep::Account, WarmupStep::Apps),
        comes_before(run@.steps, WarmupStep::McpStatus, WarmupStep::Apps),
{
    let targets = builder.targets;
    let enabled = |step: WarmupStep| targets.enables(step);
    let all = all_steps();
    law_steps_are_distinct(targets);
    reveal_with_fuel(Seq::filter, 8);
    assert(all.drop_last().drop_last().drop_last().drop_last().drop_last().drop_last().drop_last()
        =~= Seq::<WarmupStep>::empty());
    assert(all[0] == WarmupStep::Models);
    assert(all[1] == WarmupStep::Skills);
    assert(all[2] == WarmupStep::PermissionProfiles);
    assert(all[3] == WarmupStep::ConfigRequirements);
    assert(all[4] == WarmupStep::Account);
    assert(all[5] == WarmupStep::McpStatus);
    assert(all[6] == WarmupStep::Apps);
    lemma_filtered(targets);
}

/// The filtered steps are those that are switched on.
proof fn lemma_filtered(targets: WarmupTargets)
    ensures
        forall|step: WarmupStep| #[trigger] targets.steps().contains(step) <==> targets.enables(step),
{
    let enabled = |step: WarmupStep| targets.enables(step);
    let all = all_steps();
    assert forall|step: WarmupStep| #[trigger] targets.steps().contains(step) <==> targets.enables(step) by {
        assert(all[0] == WarmupStep::Models);
        assert(all[1] == WarmupStep::Skills);
        assert(all[2] == WarmupStep::PermissionProfiles);
        assert(all[3] == WarmupStep::ConfigRequirements);
        assert(all[4] == WarmupStep::Account);
        assert(all[5] == WarmupStep::McpStatus);
        assert(all[6] == WarmupStep::Apps);
        assert(all.contains(step));
        if targets.enables(step) {
            let i = choose|i: int| 0 <= i < all.len() && all[i] == step;
            all.lemma_filter_contains(enabled, i);
        }
        if targets.steps().contains(step) {
            let i = choose|i: int| 0 <= i < targets.steps().len() && targets.steps()[i] == step;
            all.lemma_filter_pred(enabled, i);
        }
    }
}

/// A warmup starts with nothing found, gives each step the time that was set,
/// and warms the directory that was set, or else that of new threads.
pub proof fn law_warmups_start_as_they_were_set(builder: WarmupBuilder, codex: Codex, run: WarmupRun)
    requires
        call_ensures(WarmupBuilder::send, (builder, &codex), run),
    ensures
        run@.result == ResultModel::empty(),
        run@.step_timeout == builder.targets.step_timeout,
        run@.force_reload_skills == builder.targets.force_reload_skills,
        builder.targets.thread_params.cwd matches Some(cwd) ==> run@.cwd == Some(cwd@),
        builder.targets.thread_params.cwd is None ==> run@.cwd == codex@.default_thread_params.cwd,
{
}

/// Nothing has been found before the first step.
pub proof fn law_empty_results_hold_nothing(result: ResultModel)
    requires
        result == ResultModel::empty(),
    ensures
        result.models is None,
        result.skills is None,
        result.permission_profiles is None,
        result.config_requirements is None,
        result.account is None,
        result.mcp_servers is None,
        result.apps is None,
        result.failures.len() == 0,
{
}

/// Without other settings a warmup takes every step but the listing of apps,
/// gives each thirty seconds, and takes cached skills.
pub proof fn law_warmups_have_their_defaults(codex: Codex, builder: WarmupBuilder)
    requires
        call_ensures(Codex::warmup, (&codex,), builder),
    ensures
        builder.targets.thread_params@ == ThreadStartModel::empty(),
        builder.targets.models,
        builder.targets.skills,
        builder.targets.permission_profiles,
        builder.targets.config_requirements,
        builder.targets.account,
        builder.targets.mcp_status,
        !builder.targets.apps,
        !builder.targets.force_reload_skills,
        builder.targets.step_timeout == whole_seconds(30),
{
}

/// Each step asks for what its name says, with the next request id, and none
/// for anything that is not cached: models with the hidden ones, skills and
/// permission profiles of the warmed directory, the account without a fresh
/// token, MCP servers without their resources, apps of no thread.
pub proof fn law_steps_ask_for_what_they_warm(run: WarmupRun, codex: &mut Codex, request: ClientRequest)
    requires
        run@.steps.len() > 0,
        call_ensures(WarmupRun::next_request, (&run, codex), Some(request)),
    ensures
        run@.steps[0] is Models ==> (request matches ClientRequest::ModelList { request_id, params } && request_id
            == old(codex)@.next_id() && params.include_hidden == Some(true) && params.cursor is None && params.limit
            is None),
        run@.steps[0] is Skills ==> (request matches ClientRequest::SkillsList { request_id, cwds, force_reload }
            && request_id == old(codex)@.next_id() && force_reload == run@.force_reload_skills && (match run@.cwd {
            Some(cwd) => cwds@.len() == 1 && cwds@[0]@ == cwd,
            None => cwds@.len() == 0,
        })),
        run@.steps[0] is PermissionProfiles ==> (request matches ClientRequest::PermissionProfileList {
            request_id,
            cursor,
            limit,
            cwd,
        } && request_id == old(codex)@.next_id() && cursor is None && limit is None && optional_text(cwd) == run@.cwd),
        run@.steps[0] is ConfigRequirements ==> (request matches ClientRequest::ConfigRequirementsRead { request_id }
            && request_id == old(codex)@.next_id()),
        run@.steps[0] is Account ==> (request matches ClientRequest::GetAccount { request_id, params } && request_id
            == old(codex)@.next_id() && !params.refresh_token),
        run@.steps[0] is McpStatus ==> (request matches ClientRequest::McpServerStatusList {
            request_id,
            cursor,
            limit,
            detail,
            thread_id,
        } && request_id == old(codex)@.next_id() && cursor is None && limit is None && detail == Some(
            McpServerStatusDetail::ToolsAndAuthOnly,
        ) && thread_id is None),
        run@.steps[0] is Apps ==> (request matches ClientRequest::AppsList {
            request_id,
            cursor,
            limit,
            thread_id,
            force_refetch,
        } && request_id == old(codex)@.next_id() && cursor is None && limit is None && thread_id is None && !force_refetch),
{
    if run@.steps[0] is Skills {
        let cwds = request->SkillsList_cwds;
        assert(texts(cwds@).len() == cwds@.len());
        if run@.cwd is Some {
            assert(texts(cwds@)[0] == cwds@[0]@);
        }
    }
}

/// A warmup asks exactly as long as steps are left, and uses up one request id
/// for each request.
pub proof fn law_warmups_ask_until_no_step_is_left(run: WarmupRun, codex: &mut Codex, request: Option<ClientRequest>)
    requires
        call_ensures(WarmupRun::next_request, (&run, codex), request),
    ensures
        request is Some <==> run@.steps.len() > 0,
        request is None ==> final(codex)@ == old(codex)@,
        request is Some ==> final(codex)@ == old(codex)@.requested(),
{
}

/// A step has failed exactly when its request was refused or timed out.
pub proof fn law_replies_decide_the_outcome(
    reply: WarmupReply,
    timeout: Duration,
    outcome: std::result::Result<WarmupResponse, WarmupStepError>,
)
    requires
        call_ensures(WarmupReply::into_outcome, (reply, timeout), outcome),
    ensures
        reply matches WarmupReply::Answered(Ok(response)) ==> outcome == std::result::Result::<
            WarmupResponse,
            WarmupStepError,
        >::Ok(response),
        reply matches WarmupReply::Answered(Err(error)) ==> (outcome matches Err(WarmupStepError::Request(cause))
            && cause == error),
        reply is TimedOut ==> (outcome matches Err(WarmupStepError::Timeout(time)) && time == timeout),
{
}

} // verus!
