//! The action dispatcher: whether an action fires for a verdict, and what
//! is recorded of it.

use vstd::prelude::*;
use crate::json::{parameter_in, read_parameter, JsonShape, JsonShapeView, Member, MemberView};
use crate::models::policy::{PolicyAction, PolicyActionView};
use crate::text::same_text;

verus! {

/// The verdicts on which an action fires.
#[derive(Clone, Copy, Debug, PartialEq, Eq, Structural)]
pub enum Trigger {
    Always,
    /// Only when the content was blocked.
    OnBlocked,
    /// Only when the content was allowed.
    OnAllowed,
}

impl Trigger {
    /// Whether an action with this trigger fires on a verdict.
    pub open spec fn fires(self, passed: bool) -> bool {
        match self {
            Trigger::Always => true,
            Trigger::OnBlocked => !passed,
            Trigger::OnAllowed => passed,
        }
    }
}

/// What became of one action.
#[derive(Clone, Copy, Debug, PartialEq, Eq, Structural)]
pub enum ActionStatus {
    Executed,
    Skipped,
    Failed,
}

/// The record of one action in the audit trail.
pub struct ActionOutcome {
    pub name: String,
    pub status: ActionStatus,
}

/// A record as plain values.
pub struct ActionOutcomeView {
    pub name: Seq<char>,
    pub status: ActionStatus,
}

impl View for ActionOutcome {
    type V = ActionOutcomeView;

    open spec fn view(&self) -> ActionOutcomeView {
        ActionOutcomeView { name: self.name@, status: self.status }
    }
}

/// What the dispatcher asks for next.
pub enum ActionStep {
    /// The action fires: carry out its side effect and report how it went.
    Perform,
    /// Nothing is left to do: this is the record.
    Done(ActionOutcome),
}

/// A step as plain values.
pub enum ActionStepView {
    Perform,
    Done(ActionOutcomeView),
}

impl View for ActionStep {
    type V = ActionStepView;

    open spec fn view(&self) -> ActionStepView {
        match self {
            ActionStep::Perform => ActionStepView::Perform,
            ActionStep::Done(outcome) => ActionStepView::Done(outcome@),
        }
    }
}

/// The trigger that a text names: `always`, `blocked` or `allowed`.
pub open spec fn trigger_named(text: Seq<char>) -> Option<Trigger> {
    if text == "always"@ {
        Some(Trigger::Always)
    } else if text == "blocked"@ {
        Some(Trigger::OnBlocked)
    } else if text == "allowed"@ {
        Some(Trigger::OnAllowed)
    } else {
        None
    }
}

/// The trigger of an action, given what its parameters hold under `when`.
/// An action that declares none fires always. A `when` that holds
/// anything but one of the three names is refused, and so are parameters
/// that cannot be read.
pub open spec fn trigger_from(declared: MemberView) -> Option<Trigger> {
    match declared {
        MemberView::Absent => Some(Trigger::Always),
        MemberView::Present(JsonShapeView::Text(t)) => trigger_named(t),
        _ => None,
    }
}

/// The trigger that an action's parameters declare.
pub open spec fn trigger_of(parameters: Seq<char>) -> Option<Trigger> {
    trigger_from(parameter_in(parameters, "when"@))
}

/// The next step for an action, given the verdict and, once the side
/// effect has been tried, whether it succeeded.
///
/// An action with a refused `when` fails and is not carried out. One whose
/// trigger does not fit the verdict is skipped. Any other is carried out,
/// and is recorded as executed or failed as the report says.
pub open spec fn action_step(action: PolicyActionView, passed: bool, report: Option<bool>) -> ActionStepView {
    match trigger_of(action.parameters) {
        None => ActionStepView::Done(ActionOutcomeView { name: action.name, status: ActionStatus::Failed }),
        Some(trigger) => {
            if !trigger.fires(passed) {
                ActionStepView::Done(
                    ActionOutcomeView { name: action.name, status: ActionStatus::Skipped },
                )
            } else {
                match report {
                    None => ActionStepView::Perform,
                    Some(true) => ActionStepView::Done(
                        ActionOutcomeView { name: action.name, status: ActionStatus::Executed },
                    ),
                    Some(false) => ActionStepView::Done(
                        ActionOutcomeView { name: action.name, status: ActionStatus::Failed },
                    ),
                }
            }
        },
    }
}

/// Picks the trigger of an action, given what its parameters hold under
/// `when`.
pub fn pick_trigger(declared: Member) -> (r: Option<Trigger>)
    ensures
        r == trigger_from(declared@),
{
    match declared {
        Member::Absent => Some(Trigger::Always),
        Member::Present(JsonShape::Text(t)) => {
            if same_text(t.as_str(), "always") {
                Some(Trigger::Always)
            } else if same_text(t.as_str(), "blocked") {
                Some(Trigger::OnBlocked)
            } else if same_text(t.as_str(), "allowed") {
                Some(Trigger::OnAllowed)
            } else {
                None
            }
        },
        _ => None,
    }
}

/// Reads the trigger of an action from its parameters.
pub fn read_trigger(action: &PolicyAction) -> (r: Option<Trigger>)
    ensures
        r == trigger_of(action@.parameters),
{
    pick_trigger(read_parameter(action.parameters.as_str(), "when"))
}

/// Dispatches one action of a policy.
pub struct ActionRunner {
    pub action: PolicyAction,
}

impl ActionRunner {
    /// A dispatcher for `action`.
    pub fn new(action: PolicyAction) -> (r: ActionRunner)
        ensures
            r.action == action,
    {
        ActionRunner { action }
    }

    /// Says what to do next for this action. It carries out no side effect
    /// itself: where the answer is `Perform`, the caller does so and asks
    /// again with the report.
    pub fn run(&self, passed: bool, report: Option<bool>) -> (step: ActionStep)
        ensures
            step@ == action_step(self.action@, passed, report),
    {
        dispatch(&self.action, passed, report)
    }
}

/// The next step for `action`, given the verdict and the report on its
/// side effect, once there is one.
pub fn dispatch(action: &PolicyAction, passed: bool, report: Option<bool>) -> (step: ActionStep)
    ensures
        step@ == action_step(action@, passed, report),
{
    let status = match read_trigger(&action) {
        None => ActionStatus::Failed,
        Some(trigger) => {
            let fires = match trigger {
                Trigger::Always => true,
                Trigger::OnBlocked => !passed,
                Trigger::OnAllowed => passed,
            };
            if !fires {
                ActionStatus::Skipped
            } else {
                match report {
                    None => { return ActionStep::Perform; },
                    Some(true) => ActionStatus::Executed,
                    Some(false) => ActionStatus::Failed,
                }
            }
        },
    };
    ActionStep::Done(ActionOutcome { name: action.name.clone(), status })
}

/// An action that declares no `when` fires on every verdict, and is
/// recorded as executed once its side effect succeeded.
pub proof fn lemma_plain_action_executes(action: PolicyActionView, passed: bool)
    requires
        parameter_in(action.parameters, "when"@) is Absent,
    ensures
        action_step(action, passed, None) == ActionStepView::Perform,
        action_step(action, passed, Some(true)) == ActionStepView::Done(
            ActionOutcomeView { name: action.name, status: ActionStatus::Executed },
        ),
        action_step(action, passed, Some(false)) == ActionStepView::Done(
            ActionOutcomeView { name: action.name, status: ActionStatus::Failed },
        ),
{
}

/// An action fires exactly on the verdicts that its trigger names.
pub proof fn lemma_trigger_decides(action: PolicyActionView, passed: bool, report: Option<bool>)
    requires
        trigger_of(action.parameters) is Some,
    ensures
        action_step(action, passed, report) == ActionStepView::Done(
            ActionOutcomeView { name: action.name, status: ActionStatus::Skipped },
        ) <==> !trigger_of(action.parameters).unwrap().fires(passed),
{
}

/// The record of an action carries the action's name.
pub proof fn lemma_action_record_names_action(action: PolicyActionView, passed: bool, report: Option<bool>)
    ensures
        action_step(action, passed, report) matches ActionStepView::Done(o) ==> o.name == action.name,
{
}

} // verus!
