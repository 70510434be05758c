//! What holds of every evaluation, proved from the engine's definition.

use vstd::prelude::*;
use crate::policy::action::{action_step, ActionStepView};
use crate::policy::condition::{next_step, unknown_outcome, AttemptView, ConditionStepView};
use crate::policy::progress::{lemma_completions_commute, ProgressView};
use crate::policy::registry::resolution;
use crate::policy::runner::{
    action_steps, airborne_flags, all_passed, condition_steps, count_set, engine_step, in_flight_limit,
    lemma_count_set_bound, lemma_first_set_is_least, outcomes_of, perform_flags, ready_flags,
    first_set, records_of, EngineStepView, EvaluationResultView, EvaluationStatus, RunnerView,
};

verus! {

/// A disabled policy is skipped: the content passes, no condition is
/// checked and no action fires, whatever the policy declares and whatever
/// the log holds.
pub proof fn lemma_disabled_policy_is_skipped(runner: RunnerView, content: Seq<char>, log: ProgressView)
    requires
        !runner.policy.enabled,
    ensures
        engine_step(runner, content, log) == EngineStepView::Done(EvaluationResultView::skipped()),
        EvaluationResultView::skipped().passed,
        EvaluationResultView::skipped().status == EvaluationStatus::SkippedDisabled,
        EvaluationResultView::skipped().condition_outcomes.len() == 0,
        EvaluationResultView::skipped().action_outcomes.len() == 0,
{
}

/// Once the caller has cancelled, the result is an error: neither
/// allowed nor blocked, and with no outcome in it.
pub proof fn lemma_cancelled_is_an_error(runner: RunnerView, content: Seq<char>, log: ProgressView)
    requires
        runner.policy.enabled,
        log.cancelled,
    ensures
        engine_step(runner, content, log) == EngineStepView::Done(EvaluationResultView::cancelled()),
        !EvaluationResultView::cancelled().passed,
        EvaluationResultView::cancelled().status == EvaluationStatus::Error,
        EvaluationResultView::cancelled().condition_outcomes.len() == 0,
{
}

/// What a complete evaluation ends in: every evaluator is done, no action
/// is left to carry out, and the result is the verdict over all of them.
pub proof fn lemma_complete_result(runner: RunnerView, content: Seq<char>, log: ProgressView)
    requires
        runner.policy.enabled,
        !log.cancelled,
        engine_step(runner, content, log) is Done,
    ensures
        ({
            let steps = condition_steps(runner, content, log);
            let tasks = action_steps(runner.policy.actions, all_passed(outcomes_of(steps)), log);
            &&& forall|i: int| 0 <= i < steps.len() ==> (#[trigger] steps[i]) is Done
            &&& forall|j: int| 0 <= j < tasks.len() ==> (#[trigger] tasks[j]) is Done
            &&& engine_step(runner, content, log) == EngineStepView::Done(
                EvaluationResultView::verdict(outcomes_of(steps), records_of(tasks)),
            )
        }),
{
    let steps = condition_steps(runner, content, log);
    let ready = ready_flags(steps, log);
    let flying = airborne_flags(steps, log);
    lemma_first_set_is_least(ready, 0);
    lemma_count_set_bound(flying, steps.len() as int);
    assert forall|i: int| 0 <= i < steps.len() implies (#[trigger] steps[i]) is Done by {
        assert(!ready[i]);
        assert(!flying[i]);
    }
    let tasks = action_steps(runner.policy.actions, all_passed(outcomes_of(steps)), log);
    let performs = perform_flags(tasks);
    lemma_first_set_is_least(performs, 0);
    assert forall|j: int| 0 <= j < tasks.len() implies (#[trigger] tasks[j]) is Done by {
        assert(!performs[j]);
    }
}

/// With no condition declared the content passes: there is nothing to
/// fail. No call is asked for, and the actions see a passing verdict.
pub proof fn lemma_no_conditions_passes(runner: RunnerView, content: Seq<char>, log: ProgressView)
    requires
        runner.policy.enabled,
        !log.cancelled,
        runner.policy.conditions.len() == 0,
    ensures
        match engine_step(runner, content, log) {
            EngineStepView::Done(r) => r.passed && r.status == EvaluationStatus::Allowed
                && r.condition_outcomes.len() == 0,
            EngineStepView::Perform { action } => action_step(
                runner.policy.actions[action],
                true,
                log.report(action),
            ) is Perform,
            _ => false,
        },
{
    let steps = condition_steps(runner, content, log);
    assert(steps.len() == 0);
    assert(all_passed(outcomes_of(steps)));
    let tasks = action_steps(runner.policy.actions, true, log);
    lemma_first_set_is_least(perform_flags(tasks), 0);
}

/// The verdict is the conjunction of the outcomes: it passes exactly if
/// every outcome passed, and it is blocked exactly if it did not pass.
pub proof fn lemma_verdict_is_conjunction(
    outcomes: Seq<crate::policy::condition::ConditionOutcomeView>,
    records: Seq<crate::policy::action::ActionOutcomeView>,
)
    ensures
        EvaluationResultView::verdict(outcomes, records).passed == all_passed(outcomes),
        EvaluationResultView::verdict(outcomes, records).status == EvaluationStatus::Blocked
            <==> !EvaluationResultView::verdict(outcomes, records).passed,
        EvaluationResultView::verdict(outcomes, records).status == EvaluationStatus::Allowed
            <==> EvaluationResultView::verdict(outcomes, records).passed,
{
}

/// One condition that did not pass, be it by a failed check or by an
/// error, blocks the content.
pub proof fn lemma_one_failure_blocks(
    runner: RunnerView,
    content: Seq<char>,
    log: ProgressView,
    result: EvaluationResultView,
    i: int,
)
    requires
        runner.policy.enabled,
        !log.cancelled,
        engine_step(runner, content, log) == EngineStepView::Done(result),
        0 <= i < result.condition_outcomes.len(),
        !result.condition_outcomes[i].passed,
    ensures
        !result.passed,
        result.status == EvaluationStatus::Blocked,
{
    lemma_complete_result(runner, content, log);
}

/// The outcomes stand in the order in which the policy declares the
/// conditions, one for each, and each is what its own condition's history
/// gives. The same holds of the records and the actions.
pub proof fn lemma_outcomes_follow_declared_order(
    runner: RunnerView,
    content: Seq<char>,
    log: ProgressView,
    result: EvaluationResultView,
)
    requires
        runner.policy.enabled,
        !log.cancelled,
        engine_step(runner, content, log) == EngineStepView::Done(result),
    ensures
        result.condition_outcomes.len() == runner.policy.conditions.len(),
        forall|i: int|
            0 <= i < runner.policy.conditions.len() ==> {
                &&& (#[trigger] result.condition_outcomes[i]).name == runner.policy.conditions[i].name
                &&& next_step(
                    runner.registry,
                    runner.settings,
                    runner.policy.conditions[i],
                    content,
                    log.history(i),
                ) == ConditionStepView::Done(result.condition_outcomes[i])
            },
        result.action_outcomes.len() == runner.policy.actions.len(),
        forall|j: int|
            0 <= j < runner.policy.actions.len() ==> {
                &&& (#[trigger] result.action_outcomes[j]).name == runner.policy.actions[j].name
                &&& action_step(runner.policy.actions[j], result.passed, log.report(j))
                    == ActionStepView::Done(result.action_outcomes[j])
            },
{
    lemma_complete_result(runner, content, log);
    let steps = condition_steps(runner, content, log);
    let tasks = action_steps(runner.policy.actions, all_passed(outcomes_of(steps)), log);
    assert forall|i: int| 0 <= i < runner.policy.conditions.len() implies {
        &&& (#[trigger] result.condition_outcomes[i]).name == runner.policy.conditions[i].name
        &&& next_step(
            runner.registry,
            runner.settings,
            runner.policy.conditions[i],
            content,
            log.history(i),
        ) == ConditionStepView::Done(result.condition_outcomes[i])
    } by {
        assert(steps[i] is Done);
    }
    assert forall|j: int| 0 <= j < runner.policy.actions.len() implies {
        &&& (#[trigger] result.action_outcomes[j]).name == runner.policy.actions[j].name
        &&& action_step(runner.policy.actions[j], result.passed, log.report(j))
            == ActionStepView::Done(result.action_outcomes[j])
    } by {
        assert(tasks[j] is Done);
    }
}

/// It does not matter which of two calls comes back first: the engine
/// goes on the same way.
pub proof fn lemma_arrival_order_is_irrelevant(
    runner: RunnerView,
    content: Seq<char>,
    log: ProgressView,
    i: int,
    first: AttemptView,
    j: int,
    second: AttemptView,
)
    requires
        i != j,
    ensures
        engine_step(runner, content, log.after_completion(i, first).after_completion(j, second))
            == engine_step(
            runner,
            content,
            log.after_completion(j, second).after_completion(i, first),
        ),
{
    lemma_completions_commute(log, i, first, j, second);
}

/// A condition whose name is not registered never passes, and it blocks
/// the content.
pub proof fn lemma_unknown_condition_blocks(
    runner: RunnerView,
    content: Seq<char>,
    log: ProgressView,
    result: EvaluationResultView,
    i: int,
)
    requires
        runner.policy.enabled,
        !log.cancelled,
        engine_step(runner, content, log) == EngineStepView::Done(result),
        0 <= i < runner.policy.conditions.len(),
        resolution(runner.registry, runner.policy.conditions[i].name) is Unknown,
    ensures
        result.condition_outcomes[i] == unknown_outcome(runner.policy.conditions[i].name),
        !result.condition_outcomes[i].passed,
        !result.passed,
        result.status == EvaluationStatus::Blocked,
{
    lemma_outcomes_follow_declared_order(runner, content, log, result);
    lemma_one_failure_blocks(runner, content, log, result, i);
}

/// A call is asked for only while fewer calls are under way than the
/// settings allow, only for a condition that has none under way, and it is
/// the call that the condition's own evaluator asks for.
pub proof fn lemma_calls_are_bounded(runner: RunnerView, content: Seq<char>, log: ProgressView)
    requires
        engine_step(runner, content, log) is Call,
    ensures
        ({
            let steps = condition_steps(runner, content, log);
            let i = engine_step(runner, content, log)->condition;
            &&& count_set(airborne_flags(steps, log), steps.len() as int) < in_flight_limit(
                runner.settings,
            )
            &&& 0 <= i < runner.policy.conditions.len()
            &&& !log.flying(i)
            &&& next_step(
                runner.registry,
                runner.settings,
                runner.policy.conditions[i],
                content,
                log.history(i),
            ) == (ConditionStepView::Call {
                request: engine_step(runner, content, log)->request,
                delay_ms: engine_step(runner, content, log)->delay_ms,
            })
            &&& forall|k: int| 0 <= k < i ==> !(#[trigger] steps[k] is Call && !log.flying(k))
        }),
{
    let steps = condition_steps(runner, content, log);
    let ready = ready_flags(steps, log);
    lemma_first_set_is_least(ready, 0);
    let i = first_set(ready, 0)->0;
    assert(ready[i]);
    assert forall|k: int| 0 <= k < i implies !(#[trigger] steps[k] is Call && !log.flying(k)) by {
        assert(!ready[k]);
    }
}

/// The engine waits only while a call is under way: it never waits for
/// nothing.
pub proof fn lemma_waits_for_something(runner: RunnerView, content: Seq<char>, log: ProgressView)
    requires
        engine_step(runner, content, log) is Wait,
    ensures
        exists|i: int|
            0 <= i < runner.policy.conditions.len() && log.flying(i) && #[trigger] next_step(
                runner.registry,
                runner.settings,
                runner.policy.conditions[i],
                content,
                log.history(i),
            ) is Call,
{
    let steps = condition_steps(runner, content, log);
    let flying = airborne_flags(steps, log);
    lemma_count_set_bound(flying, steps.len() as int);
    assert(count_set(flying, steps.len() as int) > 0);
    let i = choose|i: int| 0 <= i < steps.len() && flying[i];
    assert(flying[i]);
    assert(steps[i] is Call);
}

/// The actions run after the verdict and cannot change it: whatever is
/// reported of them, the outcomes and the verdict stay as they are.
pub proof fn lemma_actions_do_not_change_verdict(
    runner: RunnerView,
    content: Seq<char>,
    log: ProgressView,
    reports: Seq<Option<bool>>,
    first: EvaluationResultView,
    second: EvaluationResultView,
)
    requires
        engine_step(runner, content, log) == EngineStepView::Done(first),
        engine_step(runner, content, ProgressView { reports, ..log }) == EngineStepView::Done(second),
    ensures
        first.passed == second.passed,
        first.status == second.status,
        first.condition_outcomes == second.condition_outcomes,
{
    let other = ProgressView { reports, ..log };
    assert(condition_steps(runner, content, log) =~= condition_steps(runner, content, other));
    assert(ready_flags(condition_steps(runner, content, log), log) =~= ready_flags(
        condition_steps(runner, content, other),
        other,
    ));
    assert(airborne_flags(condition_steps(runner, content, log), log) =~= airborne_flags(
        condition_steps(runner, content, other),
        other,
    ));
}

/// Two logs that hold the same replies, whatever time each call took.
pub open spec fn same_replies(a: ProgressView, b: ProgressView) -> bool {
    &&& a.in_flight == b.in_flight
    &&& a.reports == b.reports
    &&& a.cancelled == b.cancelled
    &&& a.histories.len() == b.histories.len()
    &&& forall|i: int|
        0 <= i < a.histories.len() ==> (#[trigger] a.histories[i]).len() == b.histories[i].len()
    &&& forall|i: int, k: int|
        0 <= i < a.histories.len() && 0 <= k < a.histories[i].len() ==> (
        #[trigger] a.histories[i][k]).reply == b.histories[i][k].reply
}

/// An engine step with the time measurements taken out of its result.
pub open spec fn step_without_timing(step: EngineStepView) -> EngineStepView {
    match step {
        EngineStepView::Done(r) => EngineStepView::Done(r.without_timing()),
        other => other,
    }
}

/// Evaluating twice with the same policy, content and replies gives the
/// same steps and the same result, but for the time measurements.
pub proof fn lemma_repeatable(runner: RunnerView, content: Seq<char>, a: ProgressView, b: ProgressView)
    requires
        same_replies(a, b),
    ensures
        step_without_timing(engine_step(runner, content, a)) == step_without_timing(
            engine_step(runner, content, b),
        ),
{
    let sa = condition_steps(runner, content, a);
    let sb = condition_steps(runner, content, b);
    assert forall|i: int| 0 <= i < sa.len() implies match (#[trigger] sa[i], sb[i]) {
        (ConditionStepView::Done(x), ConditionStepView::Done(y)) => x.without_timing()
            == y.without_timing(),
        (x, y) => x == y,
    } by {
        let ha = a.history(i);
        let hb = b.history(i);
        assert(ha.len() == hb.len());
        if ha.len() > 0 {
            assert(0 <= i < a.histories.len());
            assert(a.histories[i][0].reply == b.histories[i][0].reply);
            assert(a.histories[i][ha.len() - 1].reply == b.histories[i][ha.len() - 1].reply);
        }
    }
    assert(ready_flags(sa, a) =~= ready_flags(sb, b));
    assert(airborne_flags(sa, a) =~= airborne_flags(sb, b));
    if runner.policy.enabled && !a.cancelled {
        if first_set(ready_flags(sa, a), 0) is Some {
            lemma_first_set_is_least(ready_flags(sa, a), 0);
        } else if count_set(airborne_flags(sa, a), sa.len() as int) == 0 {
            lemma_first_set_is_least(ready_flags(sa, a), 0);
            lemma_count_set_bound(airborne_flags(sa, a), sa.len() as int);
            let oa = outcomes_of(sa);
            let ob = outcomes_of(sb);
            assert forall|i: int| 0 <= i < sa.len() implies (#[trigger] oa[i]).without_timing()
                == ob[i].without_timing() by {
                assert(!ready_flags(sa, a)[i]);
                assert(!airborne_flags(sa, a)[i]);
                assert(sa[i] is Done);
            }
            assert(all_passed(oa) == all_passed(ob)) by {
                if all_passed(oa) {
                    assert forall|i: int| 0 <= i < ob.len() implies (#[trigger] ob[i]).passed by {
                        assert(oa[i].passed);
                        assert(oa[i].without_timing() == ob[i].without_timing());
                    }
                }
                if all_passed(ob) {
                    assert forall|i: int| 0 <= i < oa.len() implies (#[trigger] oa[i]).passed by {
                        assert(ob[i].passed);
                        assert(oa[i].without_timing() == ob[i].without_timing());
                    }
                }
            }
            let ta = action_steps(runner.policy.actions, all_passed(oa), a);
            let tb = action_steps(runner.policy.actions, all_passed(ob), b);
            assert(ta =~= tb);
            let ra = EvaluationResultView::verdict(oa, records_of(ta));
            let rb = EvaluationResultView::verdict(ob, records_of(tb));
            assert(ra.without_timing().condition_outcomes =~= rb.without_timing().condition_outcomes);
        }
    }
}

} // verus!
