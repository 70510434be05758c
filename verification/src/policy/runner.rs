//! The policy evaluation engine: from a policy, a piece of content and the
//! log of what has happened so far to the next thing to do, and in the end
//! to the verdict with its audit trail.

use vstd::prelude::*;
use crate::models::policy::{Policy, PolicyActionView, PolicyContext, PolicyView};
use crate::policy::action::{action_step, dispatch, ActionOutcome, ActionOutcomeView, ActionStep, ActionStepView};
use crate::policy::client::{EngineSettings, EngineSettingsView, EvaluationRequest, EvaluationRequestView};
use crate::policy::condition::{
    condition_step, history_view, next_step, Attempt, AttemptView, ConditionOutcome,
    ConditionOutcomeView, ConditionStep, ConditionStepView,
};
use crate::policy::progress::{Progress, ProgressView};
use crate::policy::registry::{ConditionRegistry, RegistryView};

verus! {

/// How an evaluation ended.
#[derive(Clone, Copy, Debug, PartialEq, Eq, Structural)]
pub enum EvaluationStatus {
    Allowed,
    Blocked,
    /// The policy is disabled: nothing was checked and nothing restricted.
    SkippedDisabled,
    /// The evaluation was given up before it was complete.
    Error,
}

/// The verdict of one evaluation with its audit trail.
pub struct EvaluationResult {
    pub passed: bool,
    pub status: EvaluationStatus,
    /// One outcome for each condition, in the order the policy declares them.
    pub condition_outcomes: Vec<ConditionOutcome>,
    /// One record for each action, in the order the policy declares them.
    pub action_outcomes: Vec<ActionOutcome>,
}

/// A result as plain values.
pub struct EvaluationResultView {
    pub passed: bool,
    pub status: EvaluationStatus,
    pub condition_outcomes: Seq<ConditionOutcomeView>,
    pub action_outcomes: Seq<ActionOutcomeView>,
}

impl View for EvaluationResult {
    type V = EvaluationResultView;

    open spec fn view(&self) -> EvaluationResultView {
        EvaluationResultView {
            passed: self.passed,
            status: self.status,
            condition_outcomes: Seq::new(
                self.condition_outcomes@.len(),
                |i: int| self.condition_outcomes@[i]@,
            ),
            action_outcomes: Seq::new(self.action_outcomes@.len(), |j: int| self.action_outcomes@[j]@),
        }
    }
}

impl EvaluationResultView {
    /// The result for a disabled policy.
    pub open spec fn skipped() -> EvaluationResultView {
        EvaluationResultView {
            passed: true,
            status: EvaluationStatus::SkippedDisabled,
            condition_outcomes: Seq::empty(),
            action_outcomes: Seq::empty(),
        }
    }

    /// The result of an evaluation that the caller gave up. What had been
    /// found by then is left out: a part of a verdict is no verdict.
    pub open spec fn cancelled() -> EvaluationResultView {
        EvaluationResultView {
            passed: false,
            status: EvaluationStatus::Error,
            condition_outcomes: Seq::empty(),
            action_outcomes: Seq::empty(),
        }
    }

    /// The result of a complete evaluation.
    pub open spec fn verdict(
        outcomes: Seq<ConditionOutcomeView>,
        records: Seq<ActionOutcomeView>,
    ) -> EvaluationResultView {
        EvaluationResultView {
            passed: all_passed(outcomes),
            status: if all_passed(outcomes) {
                EvaluationStatus::Allowed
            } else {
                EvaluationStatus::Blocked
            },
            condition_outcomes: outcomes,
            action_outcomes: records,
        }
    }

    /// The result with the time measurements taken out.
    pub open spec fn without_timing(self) -> EvaluationResultView {
        EvaluationResultView {
            condition_outcomes: Seq::new(
                self.condition_outcomes.len(),
                |i: int| self.condition_outcomes[i].without_timing(),
            ),
            ..self
        }
    }
}

/// The combination rule: the content passes only if every condition
/// passed. With no condition there is nothing to fail.
pub open spec fn all_passed(outcomes: Seq<ConditionOutcomeView>) -> bool {
    forall|i: int| 0 <= i < outcomes.len() ==> (#[trigger] outcomes[i]).passed
}

/// What the engine asks for next.
pub enum EngineStep {
    /// Make this call for the condition at this index, after waiting
    /// `delay_ms`, and write it down as started.
    Call { condition: usize, request: EvaluationRequest, delay_ms: u64 },
    /// Nothing can be started now: wait for a call under way to come back.
    Wait,
    /// Carry out the side effect of the action at this index and report on it.
    Perform { action: usize },
    /// The evaluation is over.
    Done(EvaluationResult),
}

/// A step as plain values.
pub enum EngineStepView {
    Call { condition: int, request: EvaluationRequestView, delay_ms: u64 },
    Wait,
    Perform { action: int },
    Done(EvaluationResultView),
}

impl View for EngineStep {
    type V = EngineStepView;

    open spec fn view(&self) -> EngineStepView {
        match self {
            EngineStep::Call { condition, request, delay_ms } => EngineStepView::Call {
                condition: *condition as int,
                request: request@,
                delay_ms: *delay_ms,
            },
            EngineStep::Wait => EngineStepView::Wait,
            EngineStep::Perform { action } => EngineStepView::Perform { action: *action as int },
            EngineStep::Done(result) => EngineStepView::Done(result@),
        }
    }
}

/// The least index at or after `from` whose flag is set.
pub open spec fn first_set(flags: Seq<bool>, from: int) -> Option<int>
    decreases flags.len() - from,
{
    if from < 0 || from >= flags.len() {
        None
    } else if flags[from] {
        Some(from)
    } else {
        first_set(flags, from + 1)
    }
}

/// How many of the first `upto` flags are set.
pub open spec fn count_set(flags: Seq<bool>, upto: int) -> nat
    decreases upto,
{
    if upto <= 0 || upto > flags.len() {
        0
    } else if flags[upto - 1] {
        count_set(flags, upto - 1) + 1
    } else {
        count_set(flags, upto - 1)
    }
}

/// A set flag with no set flag before it is the first one.
pub proof fn lemma_first_set_found(flags: Seq<bool>, from: int, k: int)
    requires
        0 <= from <= k < flags.len(),
        flags[k],
        forall|i: int| from <= i < k ==> !flags[i],
    ensures
        first_set(flags, from) == Some(k),
    decreases k - from,
{
    if from < k {
        lemma_first_set_found(flags, from + 1, k);
    }
}

/// Where no flag is set there is no first one.
pub proof fn lemma_first_set_none(flags: Seq<bool>, from: int)
    requires
        0 <= from,
        forall|i: int| from <= i < flags.len() ==> !flags[i],
    ensures
        first_set(flags, from) is None,
    decreases flags.len() - from,
{
    if from < flags.len() {
        lemma_first_set_none(flags, from + 1);
    }
}

/// What `first_set` gives is set, in range, and nothing before it is set.
pub proof fn lemma_first_set_is_least(flags: Seq<bool>, from: int)
    requires
        0 <= from,
    ensures
        match first_set(flags, from) {
            Some(k) => from <= k < flags.len() && flags[k] && forall|i: int|
                from <= i < k ==> !flags[i],
            None => forall|i: int| from <= i < flags.len() ==> !flags[i],
        },
    decreases flags.len() - from,
{
    if from < flags.len() && !flags[from] {
        lemma_first_set_is_least(flags, from + 1);
    }
}

/// No more flags are set than there are, and none is set exactly where
/// the count is zero.
pub proof fn lemma_count_set_bound(flags: Seq<bool>, upto: int)
    requires
        0 <= upto <= flags.len(),
    ensures
        count_set(flags, upto) <= upto,
        count_set(flags, upto) == 0 <==> forall|i: int| 0 <= i < upto ==> !flags[i],
    decreases upto,
{
    if upto > 0 {
        lemma_count_set_bound(flags, upto - 1);
    }
}

/// A policy with the registry and the settings it is evaluated under.
pub struct RunnerView {
    pub policy: PolicyView,
    pub registry: RegistryView,
    pub settings: EngineSettingsView,
}

/// For each condition, in declared order, the next step of its evaluator.
pub open spec fn condition_steps(runner: RunnerView, content: Seq<char>, log: ProgressView) -> Seq<
    ConditionStepView,
> {
    Seq::new(
        runner.policy.conditions.len(),
        |i: int|
            next_step(
                runner.registry,
                runner.settings,
                runner.policy.conditions[i],
                content,
                log.history(i),
            ),
    )
}

/// The conditions that need a call and have none under way.
pub open spec fn ready_flags(steps: Seq<ConditionStepView>, log: ProgressView) -> Seq<bool> {
    Seq::new(steps.len(), |i: int| steps[i] is Call && !log.flying(i))
}

/// The conditions that need a call and have one under way.
pub open spec fn airborne_flags(steps: Seq<ConditionStepView>, log: ProgressView) -> Seq<bool> {
    Seq::new(steps.len(), |i: int| steps[i] is Call && log.flying(i))
}

/// How many calls may be under way at once: at least one.
pub open spec fn in_flight_limit(settings: EngineSettingsView) -> int {
    if settings.max_in_flight == 0 {
        1
    } else {
        settings.max_in_flight as int
    }
}

/// The outcomes of evaluators that are all done.
pub open spec fn outcomes_of(steps: Seq<ConditionStepView>) -> Seq<ConditionOutcomeView> {
    Seq::new(steps.len(), |i: int| steps[i]->Done_0)
}

/// For each action, in declared order, the next step of its dispatcher.
pub open spec fn action_steps(actions: Seq<PolicyActionView>, passed: bool, log: ProgressView) -> Seq<
    ActionStepView,
> {
    Seq::new(actions.len(), |j: int| action_step(actions[j], passed, log.report(j)))
}

/// The actions whose side effect is to be carried out now.
pub open spec fn perform_flags(steps: Seq<ActionStepView>) -> Seq<bool> {
    Seq::new(steps.len(), |j: int| steps[j] is Perform)
}

/// The records of dispatchers that are all done.
pub open spec fn records_of(steps: Seq<ActionStepView>) -> Seq<ActionOutcomeView> {
    Seq::new(steps.len(), |j: int| steps[j]->Done_0)
}

/// The next step of an evaluation.
///
/// A disabled policy is done at once: nothing is checked, nothing fires.
/// An evaluation that was given up is done with an error. Otherwise the
/// conditions come first: the first one, in declared order, that needs a
/// call and has none under way gets its call, as long as fewer calls are
/// under way than the settings allow. Once every evaluator is done the
/// verdict stands, and the actions are taken one after the other in
/// declared order. When no action is left to carry out the result is complete.
pub open spec fn engine_step(runner: RunnerView, content: Seq<char>, log: ProgressView) -> EngineStepView {
    let steps = condition_steps(runner, content, log);
    let airborne = count_set(airborne_flags(steps, log), steps.len() as int);
    if !runner.policy.enabled {
        EngineStepView::Done(EvaluationResultView::skipped())
    } else if log.cancelled {
        EngineStepView::Done(EvaluationResultView::cancelled())
    } else {
        match first_set(ready_flags(steps, log), 0) {
            Some(i) => {
                if airborne < in_flight_limit(runner.settings) {
                    EngineStepView::Call {
                        condition: i,
                        request: steps[i]->request,
                        delay_ms: steps[i]->delay_ms,
                    }
                } else {
                    EngineStepView::Wait
                }
            },
            None => {
                if airborne > 0 {
                    EngineStepView::Wait
                } else {
                    let outcomes = outcomes_of(steps);
                    let tasks = action_steps(runner.policy.actions, all_passed(outcomes), log);
                    match first_set(perform_flags(tasks), 0) {
                        Some(j) => EngineStepView::Perform { action: j },
                        None => EngineStepView::Done(
                            EvaluationResultView::verdict(outcomes, records_of(tasks)),
                        ),
                    }
                }
            },
        }
    }
}

/// Evaluates one policy.
pub struct PolicyRunner {
    pub parsed_policy: Policy,
    pub registry: ConditionRegistry,
    pub settings: EngineSettings,
}

impl View for PolicyRunner {
    type V = RunnerView;

    open spec fn view(&self) -> RunnerView {
        RunnerView {
            policy: self.parsed_policy@,
            registry: self.registry@,
            settings: self.settings@,
        }
    }
}

impl PolicyRunner {
    /// A runner for `policy` with the standard registry and settings.
    pub fn new(policy: Policy) -> (r: PolicyRunner)
        ensures
            r.parsed_policy == policy,
            r@.registry == crate::policy::registry::standard_entries(),
            r@.settings == crate::policy::client::standard_settings(),
    {
        PolicyRunner {
            parsed_policy: policy,
            registry: ConditionRegistry::standard(),
            settings: EngineSettings::standard(),
        }
    }

    /// A runner for `policy` with a registry and settings of the caller's.
    pub fn with_settings(policy: Policy, registry: ConditionRegistry, settings: EngineSettings) -> (r:
        PolicyRunner)
        ensures
            r.parsed_policy == policy,
            r.registry == registry,
            r.settings == settings,
    {
        PolicyRunner { parsed_policy: policy, registry, settings }
    }

    /// The empty log for an evaluation of this runner's policy.
    pub fn begin(&self) -> (log: Progress)
        ensures
            log@ == ProgressView::fresh(self@.policy.conditions.len(), self@.policy.actions.len()),
            log@.well_formed(),
    {
        Progress::new(self.parsed_policy.conditions.len(), self.parsed_policy.actions.len())
    }

    /// Says what to do next in an evaluation of `content`, given the log of
    /// what has happened so far. It makes no call and carries out no side
    /// effect, and it changes nothing: asked twice with the same log it
    /// answers the same. The context is taken for the caller's audit and
    /// decides nothing.
    pub fn run(&self, content: &str, context: &PolicyContext, progress: &Progress) -> (step: EngineStep)
        ensures
            step@ == engine_step(self@, content@, progress@),
    {
        if !self.parsed_policy.enabled {
            return EngineStep::Done(finished(true, EvaluationStatus::SkippedDisabled));
        }
        if progress.is_cancelled() {
            return EngineStep::Done(finished(false, EvaluationStatus::Error));
        }
        let ghost steps = condition_steps(self@, content@, progress@);
        let ghost ready = ready_flags(steps, progress@);
        let ghost flying = airborne_flags(steps, progress@);
        let n = self.parsed_policy.conditions.len();
        let empty: Vec<Attempt> = Vec::new();
        assert(history_view(empty@) =~= Seq::<AttemptView>::empty());
        let mut outcomes: Vec<ConditionOutcome> = Vec::new();
        let mut pending = false;
        let mut airborne: usize = 0;
        let mut first: Option<usize> = None;
        let mut i: usize = 0;
        while i < n
            invariant
                i <= n,
                n == self.parsed_policy.conditions.len(),
                n == steps.len(),
                steps == condition_steps(self@, content@, progress@),
                ready == ready_flags(steps, progress@),
                flying == airborne_flags(steps, progress@),
                history_view(empty@) == Seq::<AttemptView>::empty(),
                airborne == count_set(flying, i as int),
                airborne <= i,
                pending ==> (first is Some || airborne > 0),
                !pending ==> outcomes.len() == i && forall|k: int|
                    0 <= k < i ==> steps[k] is Done && (#[trigger] outcomes[k])@ == steps[k]->Done_0,
                match first {
                    Some(f) => f < i && ready[f as int] && forall|k: int| 0 <= k < f ==> !ready[k],
                    None => forall|k: int| 0 <= k < i ==> !ready[k],
                },
            decreases n - i,
        {
            let history = match progress.history(i) {
                Some(h) => h,
                None => &empty,
            };
            let step = condition_step(
                &self.registry,
                &self.settings,
                &self.parsed_policy.conditions[i],
                content,
                history,
            );
            assert(step@ == steps[i as int]);
            match step {
                ConditionStep::Call { request, delay_ms } => {
                    if progress.is_in_flight(i) {
                        airborne = airborne + 1;
                    } else if first.is_none() {
                        first = Some(i);
                    }
                    pending = true;
                },
                ConditionStep::Done(outcome) => {
                    if !pending {
                        outcomes.push(outcome);
                    }
                },
            }
            i += 1;
        }
        proof {
            lemma_count_set_bound(flying, n as int);
        }
        match first {
            Some(f) => {
                proof {
                    lemma_first_set_found(ready, 0, f as int);
                }
                let limit = if self.settings.max_in_flight == 0 {
                    1
                } else {
                    self.settings.max_in_flight
                };
                if airborne >= limit {
                    return EngineStep::Wait;
                }
                let history = match progress.history(f) {
                    Some(h) => h,
                    None => &empty,
                };
                let step = condition_step(
                    &self.registry,
                    &self.settings,
                    &self.parsed_policy.conditions[f],
                    content,
                    history,
                );
                assert(step@ == steps[f as int]);
                match step {
                    ConditionStep::Call { request, delay_ms } => {
                        return EngineStep::Call { condition: f, request, delay_ms };
                    },
                    ConditionStep::Done(_) => {
                        proof {
                            assert(false);
                        }
                        return EngineStep::Wait;
                    },
                }
            },
            None => {
                proof {
                    lemma_first_set_none(ready, 0);
                }
                if airborne > 0 {
                    return EngineStep::Wait;
                }
            },
        }
        assert(!pending);
        let ghost found = outcomes_of(steps);
        assert(Seq::new(outcomes@.len(), |k: int| outcomes@[k]@) =~= found);
        let passed = every_one_passed(&outcomes);
        let ghost tasks = action_steps(self@.policy.actions, passed, progress@);
        let ghost performs = perform_flags(tasks);
        let m = self.parsed_policy.actions.len();
        let mut records: Vec<ActionOutcome> = Vec::new();
        let mut j: usize = 0;
        while j < m
            invariant
                j <= m,
                m == self.parsed_policy.actions.len(),
                m == tasks.len(),
                tasks == action_steps(self@.policy.actions, passed, progress@),
                performs == perform_flags(tasks),
                self@.policy.enabled,
                !progress@.cancelled,
                steps == condition_steps(self@, content@, progress@),
                first_set(ready_flags(steps, progress@), 0) is None,
                count_set(airborne_flags(steps, progress@), steps.len() as int) == 0,
                passed == all_passed(outcomes_of(steps)),
                records.len() == j,
                forall|k: int| 0 <= k < j ==> !performs[k],
                forall|k: int| 0 <= k < j ==> (#[trigger] records[k])@ == tasks[k]->Done_0,
            decreases m - j,
        {
            let task = dispatch(&self.parsed_policy.actions[j], passed, progress.report(j));
            assert(task@ == tasks[j as int]);
            match task {
                ActionStep::Perform => {
                    proof {
                        lemma_first_set_found(performs, 0, j as int);
                    }
                    return EngineStep::Perform { action: j };
                },
                ActionStep::Done(record) => {
                    records.push(record);
                },
            }
            j += 1;
        }
        proof {
            lemma_first_set_none(performs, 0);
        }
        let result = EvaluationResult {
            passed,
            status: if passed {
                EvaluationStatus::Allowed
            } else {
                EvaluationStatus::Blocked
            },
            condition_outcomes: outcomes,
            action_outcomes: records,
        };
        assert(result@.action_outcomes =~= records_of(tasks));
        assert(result@.condition_outcomes =~= found);
        EngineStep::Done(result)
    }
}

/// A result with no outcome and no record in it.
pub fn finished(passed: bool, status: EvaluationStatus) -> (r: EvaluationResult)
    ensures
        r@ == (EvaluationResultView {
            passed,
            status,
            condition_outcomes: Seq::empty(),
            action_outcomes: Seq::empty(),
        }),
{
    let r = EvaluationResult {
        passed,
        status,
        condition_outcomes: Vec::new(),
        action_outcomes: Vec::new(),
    };
    assert(r@.condition_outcomes =~= Seq::<ConditionOutcomeView>::empty());
    assert(r@.action_outcomes =~= Seq::<ActionOutcomeView>::empty());
    r
}

/// Applies the combination rule to a list of outcomes.
pub fn every_one_passed(outcomes: &Vec<ConditionOutcome>) -> (r: bool)
    ensures
        r == all_passed(Seq::new(outcomes@.len(), |k: int| outcomes@[k]@)),
{
    let ghost views = Seq::new(outcomes@.len(), |k: int| outcomes@[k]@);
    let mut i: usize = 0;
    while i < outcomes.len()
        invariant
            i <= outcomes.len(),
            views == Seq::new(outcomes@.len(), |k: int| outcomes@[k]@),
            forall|k: int| 0 <= k < i ==> (#[trigger] views[k]).passed,
        decreases outcomes.len() - i,
    {
        if !outcomes[i].passed {
            assert(!views[i as int].passed);
            return false;
        }
        i += 1;
    }
    true
}

} // verus!
