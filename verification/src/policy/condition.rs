//! The condition evaluator: what to do next for one condition, and the
//! outcome once nothing is left to do.

use vstd::prelude::*;
use crate::models::policy::{PolicyCondition, PolicyConditionView};
use crate::policy::client::{
    build_request, classify, finding_of, read_threshold, request_for, threshold_of, ClientReply,
    ClientReplyView, EngineSettings, EngineSettingsView, EvaluationRequest, EvaluationRequestView,
    Finding, FindingView,
};
use crate::policy::registry::{resolution, ClientKind, ConditionRegistry, RegistryView, Resolution};
use crate::text::{optional_view, texts};

verus! {

/// One call that was made for a condition: what came back, and how long it took.
pub struct Attempt {
    pub reply: ClientReply,
    pub latency_ms: u64,
}

/// A call that was made, as plain values.
pub struct AttemptView {
    pub reply: ClientReplyView,
    pub latency_ms: u64,
}

impl View for Attempt {
    type V = AttemptView;

    open spec fn view(&self) -> AttemptView {
        AttemptView { reply: self.reply@, latency_ms: self.latency_ms }
    }
}

/// The views of the calls made so far for one condition, oldest first.
pub open spec fn history_view(attempts: Seq<Attempt>) -> Seq<AttemptView> {
    Seq::new(attempts.len(), |i: int| attempts[i]@)
}

/// The time each call took, oldest first.
pub open spec fn latencies(history: Seq<AttemptView>) -> Seq<u64> {
    Seq::new(history.len(), |i: int| history[i].latency_ms)
}

/// Why a condition has no verdict.
#[derive(Clone, Copy, Debug, PartialEq, Eq, Structural)]
pub enum ConditionError {
    /// No client is registered under the condition's name.
    UnknownCondition,
    /// The client refused the condition's parameters.
    InvalidParameters,
    RemoteUnavailable,
    RemoteRejected,
    MalformedResponse,
    TimedOut,
}

/// What is known beyond pass or fail.
pub struct OutcomeDetails {
    /// The last call ran out of time.
    pub timed_out: bool,
    /// The condition's name is not registered.
    pub unknown_condition: bool,
    /// Status of a rejected response.
    pub status: Option<u16>,
    /// The terms that the keyword filter found.
    pub matched_terms: Vec<String>,
    /// Body of a rejected or malformed response, in full.
    pub payload: Option<String>,
}

/// The details of an outcome as plain values.
pub struct OutcomeDetailsView {
    pub timed_out: bool,
    pub unknown_condition: bool,
    pub status: Option<u16>,
    pub matched_terms: Seq<Seq<char>>,
    pub payload: Option<Seq<char>>,
}

impl View for OutcomeDetails {
    type V = OutcomeDetailsView;

    open spec fn view(&self) -> OutcomeDetailsView {
        OutcomeDetailsView {
            timed_out: self.timed_out,
            unknown_condition: self.unknown_condition,
            status: self.status,
            matched_terms: texts(self.matched_terms@),
            payload: optional_view(self.payload),
        }
    }
}

/// The outcome of one condition.
pub struct ConditionOutcome {
    pub name: String,
    pub passed: bool,
    /// `None` where the check ran and gave a verdict.
    pub error: Option<ConditionError>,
    /// The score, where the check gave one: the text of a JSON number.
    pub score: Option<String>,
    /// Time taken by each call, oldest first, in milliseconds.
    pub latencies_ms: Vec<u64>,
    pub details: OutcomeDetails,
}

/// An outcome as plain values.
pub struct ConditionOutcomeView {
    pub name: Seq<char>,
    pub passed: bool,
    pub error: Option<ConditionError>,
    pub score: Option<Seq<char>>,
    pub latencies_ms: Seq<u64>,
    pub details: OutcomeDetailsView,
}

impl View for ConditionOutcome {
    type V = ConditionOutcomeView;

    open spec fn view(&self) -> ConditionOutcomeView {
        ConditionOutcomeView {
            name: self.name@,
            passed: self.passed,
            error: self.error,
            score: optional_view(self.score),
            latencies_ms: self.latencies_ms@,
            details: self.details@,
        }
    }
}

impl ConditionOutcomeView {
    /// The outcome with the time measurements taken out.
    pub open spec fn without_timing(self) -> ConditionOutcomeView {
        ConditionOutcomeView { latencies_ms: Seq::empty(), ..self }
    }
}

/// Details that say nothing.
pub open spec fn no_details() -> OutcomeDetailsView {
    OutcomeDetailsView {
        timed_out: false,
        unknown_condition: false,
        status: None,
        matched_terms: Seq::empty(),
        payload: None,
    }
}

/// The outcome of a condition whose name is not registered: it fails, with
/// a flag that says why, and no call is made for it.
pub open spec fn unknown_outcome(name: Seq<char>) -> ConditionOutcomeView {
    ConditionOutcomeView {
        name,
        passed: false,
        error: Some(ConditionError::UnknownCondition),
        score: None,
        latencies_ms: Seq::empty(),
        details: OutcomeDetailsView { unknown_condition: true, ..no_details() },
    }
}

/// The outcome of a condition whose parameters its client refuses.
pub open spec fn invalid_outcome(name: Seq<char>) -> ConditionOutcomeView {
    ConditionOutcomeView {
        name,
        passed: false,
        error: Some(ConditionError::InvalidParameters),
        score: None,
        latencies_ms: Seq::empty(),
        details: no_details(),
    }
}

/// The outcome that a finding amounts to. Every finding but a verdict
/// fails the condition.
pub open spec fn outcome_of(name: Seq<char>, finding: FindingView, timing: Seq<u64>) -> ConditionOutcomeView {
    match finding {
        FindingView::Verdict { passed, score, matched_terms } => ConditionOutcomeView {
            name,
            passed,
            error: None,
            score,
            latencies_ms: timing,
            details: OutcomeDetailsView { matched_terms, ..no_details() },
        },
        FindingView::RemoteUnavailable => ConditionOutcomeView {
            name,
            passed: false,
            error: Some(ConditionError::RemoteUnavailable),
            score: None,
            latencies_ms: timing,
            details: no_details(),
        },
        FindingView::TimedOut => ConditionOutcomeView {
            name,
            passed: false,
            error: Some(ConditionError::TimedOut),
            score: None,
            latencies_ms: timing,
            details: OutcomeDetailsView { timed_out: true, ..no_details() },
        },
        FindingView::RemoteRejected { status, body } => ConditionOutcomeView {
            name,
            passed: false,
            error: Some(ConditionError::RemoteRejected),
            score: None,
            latencies_ms: timing,
            details: OutcomeDetailsView { status: Some(status), payload: Some(body), ..no_details() },
        },
        FindingView::MalformedResponse { body } => ConditionOutcomeView {
            name,
            passed: false,
            error: Some(ConditionError::MalformedResponse),
            score: None,
            latencies_ms: timing,
            details: OutcomeDetailsView { payload: Some(body), ..no_details() },
        },
    }
}

/// What the evaluator asks for next.
pub enum ConditionStep {
    /// Make this call, after waiting `delay_ms`.
    Call { request: EvaluationRequest, delay_ms: u64 },
    /// Nothing is left to do: this is the outcome.
    Done(ConditionOutcome),
}

/// A step as plain values.
pub enum ConditionStepView {
    Call { request: EvaluationRequestView, delay_ms: u64 },
    Done(ConditionOutcomeView),
}

impl View for ConditionStep {
    type V = ConditionStepView;

    open spec fn view(&self) -> ConditionStepView {
        match self {
            ConditionStep::Call { request, delay_ms } => ConditionStepView::Call {
                request: request@,
                delay_ms: *delay_ms,
            },
            ConditionStep::Done(outcome) => ConditionStepView::Done(outcome@),
        }
    }
}

/// Whether a call is made once more after `history`: the one call so far
/// found the remote side unavailable or silent, and the settings allow a retry.
pub open spec fn retries(kind: ClientKind, settings: EngineSettingsView, history: Seq<AttemptView>) -> bool {
    &&& settings.retry_unavailable
    &&& history.len() == 1
    &&& finding_of(kind, history[0].reply).retryable()
}

/// The next step for a condition, given the calls made for it so far.
///
/// An unregistered name and refused parameters end the evaluation at once,
/// without a call. Otherwise one call is made, and a second one where
/// `retries` says so; then the last reply decides.
pub open spec fn next_step(
    registry: RegistryView,
    settings: EngineSettingsView,
    condition: PolicyConditionView,
    content: Seq<char>,
    history: Seq<AttemptView>,
) -> ConditionStepView {
    match resolution(registry, condition.name) {
        Resolution::Unknown => ConditionStepView::Done(unknown_outcome(condition.name)),
        Resolution::Client(kind) => match threshold_of(kind, condition.parameters) {
            None => ConditionStepView::Done(invalid_outcome(condition.name)),
            Some(threshold) => {
                if history.len() == 0 {
                    ConditionStepView::Call {
                        request: request_for(kind, settings, content, threshold),
                        delay_ms: 0,
                    }
                } else if retries(kind, settings, history) {
                    ConditionStepView::Call {
                        request: request_for(kind, settings, content, threshold),
                        delay_ms: settings.backoff_ms,
                    }
                } else {
                    ConditionStepView::Done(
                        outcome_of(
                            condition.name,
                            finding_of(kind, history.last().reply),
                            latencies(history),
                        ),
                    )
                }
            },
        },
    }
}

/// Evaluates one condition of a policy.
pub struct ConditionRunner {
    pub condition: PolicyCondition,
}

impl ConditionRunner {
    /// An evaluator for `condition`.
    pub fn new(condition: PolicyCondition) -> (r: ConditionRunner)
        ensures
            r.condition == condition,
    {
        ConditionRunner { condition }
    }

    /// Says what to do next for this condition, given every call made for
    /// it so far. It makes no call itself and keeps no state: the caller
    /// makes the call it is asked for, adds the reply to `history` and asks
    /// again, until the answer is `Done`.
    pub fn run(
        &self,
        registry: &ConditionRegistry,
        settings: &EngineSettings,
        content: &str,
        history: &Vec<Attempt>,
    ) -> (step: ConditionStep)
        ensures
            step@ == next_step(registry@, settings@, self.condition@, content@, history_view(history@)),
    {
        condition_step(registry, settings, &self.condition, content, history)
    }
}

/// The next step for `condition`, given every call made for it so far.
pub fn condition_step(
    registry: &ConditionRegistry,
    settings: &EngineSettings,
    condition: &PolicyCondition,
    content: &str,
    history: &Vec<Attempt>,
) -> (step: ConditionStep)
    ensures
        step@ == next_step(registry@, settings@, condition@, content@, history_view(history@)),
{
    let ghost past = history_view(history@);
    match registry.resolve(condition.name.as_str()) {
        Resolution::Unknown => ConditionStep::Done(
            ConditionOutcome {
                name: condition.name.clone(),
                passed: false,
                error: Some(ConditionError::UnknownCondition),
                score: None,
                latencies_ms: Vec::new(),
                details: bare_details(false, true, None, None),
            },
        ),
        Resolution::Client(kind) => match read_threshold(kind, condition.parameters.as_str()) {
            None => ConditionStep::Done(
                ConditionOutcome {
                    name: condition.name.clone(),
                    passed: false,
                    error: Some(ConditionError::InvalidParameters),
                    score: None,
                    latencies_ms: Vec::new(),
                    details: bare_details(false, false, None, None),
                },
            ),
            Some(threshold) => {
                if history.len() == 0 {
                    return ConditionStep::Call {
                        request: build_request(kind, settings, content, threshold),
                        delay_ms: 0,
                    };
                }
                let last = history.len() - 1;
                assert(past.last() == history[last as int]@);
                assert(past[0] == history[0]@);
                let finding = classify(kind, &history[last].reply);
                let again = settings.retry_unavailable && history.len() == 1 && match finding {
                    Finding::RemoteUnavailable => true,
                    Finding::TimedOut => true,
                    _ => false,
                };
                if again {
                    return ConditionStep::Call {
                        request: build_request(kind, settings, content, threshold),
                        delay_ms: settings.backoff_ms,
                    };
                }
                let timing = copy_latencies(history);
                ConditionStep::Done(conclude(condition.name.clone(), finding, timing))
            },
        },
    }
}

/// Details with no matched terms.
pub fn bare_details(
    timed_out: bool,
    unknown_condition: bool,
    status: Option<u16>,
    payload: Option<String>,
) -> (r: OutcomeDetails)
    ensures
        r@ == (OutcomeDetailsView {
            timed_out,
            unknown_condition,
            status,
            matched_terms: Seq::empty(),
            payload: optional_view(payload),
        }),
{
    let r = OutcomeDetails {
        timed_out,
        unknown_condition,
        status,
        matched_terms: Vec::new(),
        payload,
    };
    assert(r@.matched_terms =~= Seq::<Seq<char>>::empty());
    r
}

/// The time each call of a history took, oldest first.
pub fn copy_latencies(history: &Vec<Attempt>) -> (r: Vec<u64>)
    ensures
        r@ == latencies(history_view(history@)),
{
    let mut out: Vec<u64> = Vec::new();
    let mut i: usize = 0;
    while i < history.len()
        invariant
            i <= history.len(),
            out.len() == i,
            forall|j: int| 0 <= j < i ==> out[j] == #[trigger] history[j].latency_ms,
        decreases history.len() - i,
    {
        out.push(history[i].latency_ms);
        i += 1;
    }
    assert(out@ =~= latencies(history_view(history@)));
    out
}

/// Turns a finding into the outcome of the condition called `name`.
pub fn conclude(name: String, finding: Finding, timing: Vec<u64>) -> (r: ConditionOutcome)
    ensures
        r@ == outcome_of(name@, finding@, timing@),
{
    match finding {
        Finding::Verdict { passed, score, matched_terms } => ConditionOutcome {
            name,
            passed,
            error: None,
            score,
            latencies_ms: timing,
            details: OutcomeDetails {
                timed_out: false,
                unknown_condition: false,
                status: None,
                matched_terms,
                payload: None,
            },
        },
        Finding::RemoteUnavailable => ConditionOutcome {
            name,
            passed: false,
            error: Some(ConditionError::RemoteUnavailable),
            score: None,
            latencies_ms: timing,
            details: bare_details(false, false, None, None),
        },
        Finding::TimedOut => ConditionOutcome {
            name,
            passed: false,
            error: Some(ConditionError::TimedOut),
            score: None,
            latencies_ms: timing,
            details: bare_details(true, false, None, None),
        },
        Finding::RemoteRejected { status, body } => ConditionOutcome {
            name,
            passed: false,
            error: Some(ConditionError::RemoteRejected),
            score: None,
            latencies_ms: timing,
            details: bare_details(false, false, Some(status), Some(body)),
        },
        Finding::MalformedResponse { body } => ConditionOutcome {
            name,
            passed: false,
            error: Some(ConditionError::MalformedResponse),
            score: None,
            latencies_ms: timing,
            details: bare_details(false, false, None, Some(body)),
        },
    }
}

/// An outcome that reports an error never passes.
pub proof fn lemma_error_never_passes(
    registry: RegistryView,
    settings: EngineSettingsView,
    condition: PolicyConditionView,
    content: Seq<char>,
    history: Seq<AttemptView>,
)
    ensures
        next_step(registry, settings, condition, content, history) matches ConditionStepView::Done(o)
            ==> (o.error is Some ==> !o.passed) && o.name == condition.name,
{
}

/// A condition whose name is not registered never passes, whatever has
/// been recorded for it, and no call is asked for.
pub proof fn lemma_unknown_never_passes(
    registry: RegistryView,
    settings: EngineSettingsView,
    condition: PolicyConditionView,
    content: Seq<char>,
    history: Seq<AttemptView>,
)
    requires
        resolution(registry, condition.name) is Unknown,
    ensures
        next_step(registry, settings, condition, content, history) == ConditionStepView::Done(
            unknown_outcome(condition.name),
        ),
        !unknown_outcome(condition.name).passed,
        unknown_outcome(condition.name).details.unknown_condition,
{
}

/// At most two calls are made for a condition: after two replies the
/// evaluator is done.
pub proof fn lemma_at_most_two_calls(
    registry: RegistryView,
    settings: EngineSettingsView,
    condition: PolicyConditionView,
    content: Seq<char>,
    history: Seq<AttemptView>,
)
    requires
        history.len() >= 2 || (history.len() == 1 && !settings.retry_unavailable),
    ensures
        next_step(registry, settings, condition, content, history) is Done,
{
}

/// Two calls that both ran out of time end in an error outcome that is
/// marked as timed out and carries both time measurements.
pub proof fn lemma_timeout_twice(
    registry: RegistryView,
    settings: EngineSettingsView,
    condition: PolicyConditionView,
    content: Seq<char>,
    first_ms: u64,
    second_ms: u64,
)
    requires
        resolution(registry, condition.name) is Client,
        threshold_of(resolution(registry, condition.name)->Client_0, condition.parameters) is Some,
        settings.retry_unavailable,
    ensures
        ({
            let one = seq![AttemptView { reply: ClientReplyView::TimedOut, latency_ms: first_ms }];
            let two = one.push(AttemptView { reply: ClientReplyView::TimedOut, latency_ms: second_ms });
            &&& next_step(registry, settings, condition, content, one) matches ConditionStepView::Call { delay_ms, .. }
                && delay_ms == settings.backoff_ms
            &&& next_step(registry, settings, condition, content, two) matches ConditionStepView::Done(o)
                && !o.passed && o.error == Some(ConditionError::TimedOut) && o.details.timed_out
                && o.latencies_ms == seq![first_ms, second_ms]
        }),
{
    let one = seq![AttemptView { reply: ClientReplyView::TimedOut, latency_ms: first_ms }];
    let two = one.push(AttemptView { reply: ClientReplyView::TimedOut, latency_ms: second_ms });
    assert(latencies(two) =~= seq![first_ms, second_ms]);
}

} // verus!
