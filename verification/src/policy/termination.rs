//! Every evaluation ends: each thing the engine asks for, once done and
//! written down, leaves less to do, and there was only so much to begin with.

use vstd::prelude::*;
use crate::policy::condition::{lemma_at_most_two_calls, AttemptView, ConditionStepView};
use crate::policy::progress::ProgressView;
use crate::policy::runner::{
    action_steps, all_passed, condition_steps, engine_step, first_set, lemma_first_set_is_least,
    outcomes_of, perform_flags, ready_flags, RunnerView,
};

verus! {

/// The sum of a list of numbers.
pub open spec fn total(weights: Seq<nat>) -> nat
    decreases weights.len(),
{
    if weights.len() == 0 {
        0
    } else {
        total(weights.drop_last()) + weights.last()
    }
}

/// What is left to do for one condition: nothing once its evaluator is
/// done; else two things for each call that may still be made, starting
/// it and writing its reply down, less one where a call is under way.
pub open spec fn condition_weight(step: ConditionStepView, calls_made: nat, flying: bool) -> nat {
    if step is Done || calls_made >= 2 {
        0
    } else {
        let open = (2 * (2 - calls_made)) as nat;
        if flying {
            (open - 1) as nat
        } else {
            open
        }
    }
}

/// For each condition, what is left to do for it.
pub open spec fn condition_weights(runner: RunnerView, content: Seq<char>, log: ProgressView) -> Seq<nat> {
    Seq::new(
        runner.policy.conditions.len(),
        |i: int|
            condition_weight(
                condition_steps(runner, content, log)[i],
                log.history(i).len(),
                log.flying(i),
            ),
    )
}

/// For each action, whether a report on it is still missing.
pub open spec fn report_weights(runner: RunnerView, log: ProgressView) -> Seq<nat> {
    Seq::new(
        runner.policy.actions.len(),
        |j: int| if log.report(j) is None {
            1nat
        } else {
            0nat
        },
    )
}

/// An upper bound on the steps that are left in an evaluation.
pub open spec fn remaining(runner: RunnerView, content: Seq<char>, log: ProgressView) -> nat {
    total(condition_weights(runner, content, log)) + total(report_weights(runner, log))
}

/// The log has room for every condition and every action of the policy.
pub open spec fn fits(runner: RunnerView, log: ProgressView) -> bool {
    &&& log.histories.len() == runner.policy.conditions.len()
    &&& log.in_flight.len() == runner.policy.conditions.len()
    &&& log.reports.len() == runner.policy.actions.len()
}

/// Two lists that differ in one place differ in their sums by as much.
pub proof fn lemma_total_one_change(a: Seq<nat>, b: Seq<nat>, i: int)
    requires
        a.len() == b.len(),
        0 <= i < a.len(),
        forall|k: int| 0 <= k < a.len() && k != i ==> a[k] == b[k],
    ensures
        total(a) - a[i] == total(b) - b[i],
    decreases a.len(),
{
    if i == a.len() - 1 {
        assert(a.drop_last() =~= b.drop_last());
    } else {
        lemma_total_one_change(a.drop_last(), b.drop_last(), i);
    }
}

/// A sum of numbers that are at most `cap` each.
pub proof fn lemma_total_bound(a: Seq<nat>, cap: nat)
    requires
        forall|k: int| 0 <= k < a.len() ==> a[k] <= cap,
    ensures
        total(a) <= cap * a.len(),
    decreases a.len(),
{
    if a.len() > 0 {
        lemma_total_bound(a.drop_last(), cap);
        assert(cap * a.len() == cap * (a.len() - 1) + cap) by (nonlinear_arith);
        assert(a.drop_last().len() == a.len() - 1);
    } else {
        assert(cap * a.len() == 0) by (nonlinear_arith)
            requires
                a.len() == 0,
        ;
    }
}

/// An evaluation never has more left to do than four steps for each
/// condition and one for each action.
pub proof fn lemma_work_is_bounded(runner: RunnerView, content: Seq<char>, log: ProgressView)
    ensures
        remaining(runner, content, log) <= 4 * runner.policy.conditions.len()
            + runner.policy.actions.len(),
{
    lemma_total_bound(condition_weights(runner, content, log), 4);
    lemma_total_bound(report_weights(runner, log), 1);
}

/// A fresh log fits the policy it was made for.
pub proof fn lemma_fresh_log_fits(runner: RunnerView)
    ensures
        fits(
            runner,
            ProgressView::fresh(runner.policy.conditions.len(), runner.policy.actions.len()),
        ),
{
}

/// Starting the call that the engine asks for leaves less to do.
pub proof fn lemma_call_makes_progress(runner: RunnerView, content: Seq<char>, log: ProgressView)
    requires
        fits(runner, log),
        engine_step(runner, content, log) is Call,
    ensures
        ({
            let i = engine_step(runner, content, log)->condition;
            &&& log.can_dispatch(i)
            &&& fits(runner, log.after_dispatch(i))
            &&& remaining(runner, content, log.after_dispatch(i)) < remaining(runner, content, log)
        }),
{
    let steps = condition_steps(runner, content, log);
    let ready = ready_flags(steps, log);
    lemma_first_set_is_least(ready, 0);
    let i = first_set(ready, 0)->0;
    assert(ready[i]);
    let next = log.after_dispatch(i);
    let before = condition_weights(runner, content, log);
    let after = condition_weights(runner, content, next);
    assert(condition_steps(runner, content, next) =~= steps);
    assert(steps[i] is Call);
    lemma_step_is_done_after_two(runner, content, log, i);
    assert(after[i] < before[i]);
    assert forall|k: int| 0 <= k < before.len() && k != i implies before[k] == after[k] by {
        assert(next.flying(k) == log.flying(k));
    }
    lemma_total_one_change(before, after, i);
    assert(report_weights(runner, next) =~= report_weights(runner, log));
}

/// After two calls the evaluator of a condition is done.
pub proof fn lemma_step_is_done_after_two(
    runner: RunnerView,
    content: Seq<char>,
    log: ProgressView,
    i: int,
)
    requires
        0 <= i < runner.policy.conditions.len(),
    ensures
        condition_steps(runner, content, log)[i] is Call ==> log.history(i).len() < 2,
{
    if log.history(i).len() >= 2 {
        lemma_at_most_two_calls(
            runner.registry,
            runner.settings,
            runner.policy.conditions[i],
            content,
            log.history(i),
        );
    }
}

/// Writing down the reply to a call that the engine waits for leaves less
/// to do, whatever the reply is.
pub proof fn lemma_reply_makes_progress(
    runner: RunnerView,
    content: Seq<char>,
    log: ProgressView,
    i: int,
    attempt: AttemptView,
)
    requires
        fits(runner, log),
        0 <= i < runner.policy.conditions.len(),
        log.flying(i),
        condition_steps(runner, content, log)[i] is Call,
    ensures
        log.can_complete(i),
        fits(runner, log.after_completion(i, attempt)),
        remaining(runner, content, log.after_completion(i, attempt)) < remaining(
            runner,
            content,
            log,
        ),
{
    let next = log.after_completion(i, attempt);
    let before = condition_weights(runner, content, log);
    let after = condition_weights(runner, content, next);
    lemma_step_is_done_after_two(runner, content, log, i);
    lemma_step_is_done_after_two(runner, content, next, i);
    assert(next.history(i) == log.history(i).push(attempt));
    assert(!next.flying(i));
    assert(after[i] < before[i]);
    assert forall|k: int| 0 <= k < before.len() && k != i implies before[k] == after[k] by {
        assert(next.history(k) == log.history(k));
        assert(next.flying(k) == log.flying(k));
    }
    lemma_total_one_change(before, after, i);
    assert(report_weights(runner, next) =~= report_weights(runner, log));
}

/// Reporting on the action that the engine asks to carry out leaves less
/// to do, however the side effect went.
pub proof fn lemma_report_makes_progress(
    runner: RunnerView,
    content: Seq<char>,
    log: ProgressView,
    succeeded: bool,
)
    requires
        fits(runner, log),
        engine_step(runner, content, log) is Perform,
    ensures
        ({
            let j = engine_step(runner, content, log)->action;
            &&& log.can_report(j)
            &&& fits(runner, log.after_report(j, succeeded))
            &&& remaining(runner, content, log.after_report(j, succeeded)) < remaining(
                runner,
                content,
                log,
            )
        }),
{
    let steps = condition_steps(runner, content, log);
    let tasks = action_steps(runner.policy.actions, all_passed(outcomes_of(steps)), log);
    let performs = perform_flags(tasks);
    lemma_first_set_is_least(performs, 0);
    let j = first_set(performs, 0)->0;
    assert(performs[j]);
    assert(tasks[j] is Perform);
    assert(log.report(j) is None);
    let next = log.after_report(j, succeeded);
    let before = report_weights(runner, log);
    let after = report_weights(runner, next);
    assert(after[j] < before[j]);
    assert forall|k: int| 0 <= k < before.len() && k != j implies before[k] == after[k] by {
        assert(next.report(k) == log.report(k));
    }
    lemma_total_one_change(before, after, j);
    assert(condition_weights(runner, content, next) =~= condition_weights(runner, content, log));
}

} // verus!
