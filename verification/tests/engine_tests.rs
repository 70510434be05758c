use std::collections::HashMap;

use sentinel::models::policy::{Policy, PolicyContext, PolicyFile};
use sentinel::policy::action::ActionStatus;
use sentinel::policy::client::{ClientReply, EngineSettings, EvaluationRequest};
use sentinel::policy::condition::{Attempt, ConditionError};
use sentinel::policy::progress::Progress;
use sentinel::policy::registry::ConditionRegistry;
use sentinel::policy::runner::{EngineStep, EvaluationResult, EvaluationStatus, PolicyRunner};

fn document(enabled: bool, conditions: &str, actions: &str) -> PolicyFile {
    PolicyFile {
        id: "p-1".to_string(),
        name: "no hate".to_string(),
        description: "blocks hateful content".to_string(),
        severity: "high".to_string(),
        enabled,
        conditions: conditions.to_string(),
        actions: actions.to_string(),
    }
}

fn runner(enabled: bool, conditions: &str, actions: &str) -> PolicyRunner {
    let policy = Policy::from_file(document(enabled, conditions, actions)).expect("a valid policy");
    PolicyRunner::new(policy)
}

fn context() -> PolicyContext {
    PolicyContext {
        user_id: "u-7".to_string(),
        organization: "acme".to_string(),
        policy_version: "1.0.0".to_string(),
        metadata: HashMap::new(),
    }
}

fn answered(status: u16, body: &str, latency_ms: u64) -> Attempt {
    Attempt { reply: ClientReply::Responded { status, body: body.to_string() }, latency_ms }
}

fn timed_out(latency_ms: u64) -> Attempt {
    Attempt { reply: ClientReply::TimedOut, latency_ms }
}

fn unreachable_remote(latency_ms: u64) -> Attempt {
    Attempt { reply: ClientReply::ConnectionFailed, latency_ms }
}

/// Runs an evaluation to its end, one call at a time. `client` answers
/// each call; `effect` says how each side effect went.
fn evaluate(
    runner: &PolicyRunner,
    content: &str,
    mut client: impl FnMut(usize, &EvaluationRequest) -> Attempt,
    mut effect: impl FnMut(usize) -> bool,
) -> EvaluationResult {
    let ctx = context();
    let mut log = runner.begin();
    for _ in 0..1000 {
        match runner.run(content, &ctx, &log) {
            EngineStep::Call { condition, request, .. } => {
                assert!(log.dispatched(condition));
                let attempt = client(condition, &request);
                assert!(log.completed(condition, attempt));
            }
            EngineStep::Wait => panic!("nothing is under way, so there is nothing to wait for"),
            EngineStep::Perform { action } => {
                let ok = effect(action);
                assert!(log.performed(action, ok));
            }
            EngineStep::Done(result) => return result,
        }
    }
    panic!("the evaluation did not end");
}

const KEYWORDS: &str = r#"{"keywords": {"threshold": 0.1}}"#;
const LOG: &str = r#"{"log": {}}"#;

#[test]
fn test_policy_runner() {
    let policy = Policy::from_file(document(true, KEYWORDS, LOG));
    match policy {
        Ok(policy) => {
            let runner = PolicyRunner::new(policy);
            println!("Policy runner created successfully");
            println!("Policy conditions: {}", runner.parsed_policy.conditions.len());
            println!("Policy actions: {}", runner.parsed_policy.actions.len());
            assert_eq!(runner.parsed_policy.conditions[0].name, "keywords");
            assert_eq!(runner.parsed_policy.conditions[0].parameters, r#"{"threshold":0.1}"#);
            assert_eq!(runner.parsed_policy.actions[0].name, "log");
            assert_eq!(runner.parsed_policy.actions[0].parameters, "{}");
        }
        Err(e) => {
            println!("Error creating policy runner: {}", e.message());
            panic!("Policy runner creation failed: {}", e.message());
        }
    }
}

#[test]
fn banned_keyword_blocks_and_logs() {
    let runner = runner(true, KEYWORDS, LOG);
    let mut calls = 0;
    let result = evaluate(
        &runner,
        "This message contains hate.",
        |_, request| {
            calls += 1;
            assert_eq!(request.url, "http://localhost:8080/evaluate/keyword_filter");
            assert_eq!(request.input_text, "This message contains hate.");
            assert_eq!(request.actual_output, "This message contains hate.");
            assert_eq!(request.expected_output, "content without banned keywords");
            assert_eq!(request.check_type, "keywords");
            assert_eq!(request.threshold_name, "keyword_threshold");
            assert_eq!(request.threshold, "0.1");
            assert_eq!(request.timeout_ms, 10_000);
            answered(200, r#"{"passed": false, "details": {"found_keywords": ["hate"]}}"#, 12)
        },
        |_| true,
    );
    assert_eq!(calls, 1);
    assert!(!result.passed);
    assert_eq!(result.status, EvaluationStatus::Blocked);
    assert_eq!(result.condition_outcomes.len(), 1);
    let outcome = &result.condition_outcomes[0];
    assert_eq!(outcome.name, "keywords");
    assert!(!outcome.passed);
    assert_eq!(outcome.error, None);
    assert_eq!(outcome.score, None);
    assert_eq!(outcome.latencies_ms, vec![12]);
    assert_eq!(outcome.details.matched_terms, vec!["hate".to_string()]);
    assert!(!outcome.details.timed_out);
    assert_eq!(result.action_outcomes.len(), 1);
    assert_eq!(result.action_outcomes[0].name, "log");
    assert_eq!(result.action_outcomes[0].status, ActionStatus::Executed);
}

#[test]
fn clean_content_is_allowed() {
    let runner = runner(true, KEYWORDS, LOG);
    let result = evaluate(
        &runner,
        "Have a nice day.",
        |_, _| answered(200, r#"{"passed": true}"#, 3),
        |_| true,
    );
    assert!(result.passed);
    assert_eq!(result.status, EvaluationStatus::Allowed);
    assert_eq!(result.condition_outcomes.len(), 1);
    assert!(result.condition_outcomes[0].passed);
    assert!(result.condition_outcomes[0].details.matched_terms.is_empty());
    assert_eq!(result.action_outcomes[0].status, ActionStatus::Executed);
}

#[test]
fn timeout_is_retried_once_and_then_fails() {
    let runner = runner(true, KEYWORDS, LOG);
    let ctx = context();
    let mut log = runner.begin();
    match runner.run("anything", &ctx, &log) {
        EngineStep::Call { condition, delay_ms, .. } => {
            assert_eq!(condition, 0);
            assert_eq!(delay_ms, 0);
        }
        _ => panic!("the first step is the call"),
    }
    assert!(log.dispatched(0));
    assert!(log.completed(0, timed_out(10_000)));
    match runner.run("anything", &ctx, &log) {
        EngineStep::Call { condition, delay_ms, .. } => {
            assert_eq!(condition, 0);
            assert_eq!(delay_ms, 250);
        }
        _ => panic!("a timeout is tried once more"),
    }
    assert!(log.dispatched(0));
    assert!(log.completed(0, timed_out(10_001)));
    match runner.run("anything", &ctx, &log) {
        EngineStep::Perform { action } => {
            assert_eq!(action, 0);
            assert!(log.performed(0, true));
        }
        _ => panic!("after two timeouts the evaluator gives up"),
    }
    match runner.run("anything", &ctx, &log) {
        EngineStep::Done(result) => {
            assert!(!result.passed);
            assert_eq!(result.status, EvaluationStatus::Blocked);
            let outcome = &result.condition_outcomes[0];
            assert_eq!(outcome.name, "keywords");
            assert!(!outcome.passed);
            assert_eq!(outcome.error, Some(ConditionError::TimedOut));
            assert!(outcome.details.timed_out);
            assert_eq!(outcome.latencies_ms, vec![10_000, 10_001]);
        }
        _ => panic!("nothing is left to do"),
    }
}

#[test]
fn disabled_policy_is_skipped() {
    let runner = runner(false, r#"{"keywords": {}, "mystery": {"threshold": "x"}}"#, LOG);
    let result = evaluate(&runner, "anything", |_, _| panic!("no call"), |_| panic!("no effect"));
    assert!(result.passed);
    assert_eq!(result.status, EvaluationStatus::SkippedDisabled);
    assert!(result.condition_outcomes.is_empty());
    assert!(result.action_outcomes.is_empty());
}

#[test]
fn disabled_policy_is_skipped_even_when_cancelled() {
    let runner = runner(false, KEYWORDS, LOG);
    let mut log = runner.begin();
    log.cancel();
    match runner.run("anything", &context(), &log) {
        EngineStep::Done(result) => assert_eq!(result.status, EvaluationStatus::SkippedDisabled),
        _ => panic!("a disabled policy is done at once"),
    }
}

#[test]
fn no_conditions_passes() {
    for conditions in ["{}", "null"] {
        let runner = runner(true, conditions, LOG);
        let result = evaluate(&runner, "", |_, _| panic!("no call"), |_| true);
        assert!(result.passed);
        assert_eq!(result.status, EvaluationStatus::Allowed);
        assert!(result.condition_outcomes.is_empty());
        assert_eq!(result.action_outcomes.len(), 1);
        assert_eq!(result.action_outcomes[0].status, ActionStatus::Executed);
    }
}

#[test]
fn no_actions_and_no_conditions() {
    let runner = runner(true, "null", "null");
    match runner.run("x", &context(), &runner.begin()) {
        EngineStep::Done(result) => {
            assert!(result.passed);
            assert!(result.action_outcomes.is_empty());
        }
        _ => panic!("nothing is to be done"),
    }
}

#[test]
fn one_failure_blocks() {
    let runner = runner(true, r#"{"content_analysis": {}, "keywords": {}}"#, "{}");
    let result = evaluate(
        &runner,
        "text",
        |condition, request| {
            if condition == 0 {
                assert_eq!(request.url, "http://localhost:8080/evaluate/content_safety");
                assert_eq!(request.check_type, "toxicity");
                assert_eq!(request.threshold_name, "toxicity_threshold");
                assert_eq!(request.threshold, "0.5");
                assert_eq!(request.expected_output, "non-toxic content");
                answered(200, r#"{"passed": true, "score": 0.07}"#, 5)
            } else {
                assert_eq!(request.threshold, "0.1");
                answered(200, r#"{"passed": false}"#, 6)
            }
        },
        |_| true,
    );
    assert!(!result.passed);
    assert_eq!(result.status, EvaluationStatus::Blocked);
    assert!(result.condition_outcomes[0].passed);
    assert_eq!(result.condition_outcomes[0].score, Some("0.07".to_string()));
    assert!(!result.condition_outcomes[1].passed);
}

#[test]
fn all_passing_is_allowed() {
    let runner = runner(true, r#"{"content_analysis": {"threshold": 0.8}, "keywords": {}}"#, "{}");
    let result = evaluate(
        &runner,
        "text",
        |condition, request| {
            if condition == 0 {
                assert_eq!(request.threshold, "0.8");
                answered(200, r#"{"passed": true, "score": 0.25}"#, 5)
            } else {
                answered(200, r#"{"passed": true}"#, 6)
            }
        },
        |_| true,
    );
    assert!(result.passed);
    assert_eq!(result.status, EvaluationStatus::Allowed);
}

#[test]
fn an_error_counts_as_a_failure() {
    let runner = runner(true, r#"{"content_analysis": {}, "keywords": {}}"#, LOG);
    let result = evaluate(
        &runner,
        "text",
        |condition, _| {
            if condition == 0 {
                answered(503, "busy", 5)
            } else {
                answered(200, r#"{"passed": true}"#, 6)
            }
        },
        |_| true,
    );
    assert!(!result.passed);
    assert_eq!(result.status, EvaluationStatus::Blocked);
    assert_eq!(result.condition_outcomes.len(), 2);
    let rejected = &result.condition_outcomes[0];
    assert_eq!(rejected.error, Some(ConditionError::RemoteRejected));
    assert_eq!(rejected.details.status, Some(503));
    assert_eq!(rejected.details.payload, Some("busy".to_string()));
    assert_eq!(rejected.latencies_ms, vec![5]);
    assert!(result.condition_outcomes[1].passed);
    assert_eq!(result.action_outcomes[0].status, ActionStatus::Executed);
}

#[test]
fn outcomes_keep_declared_order_when_replies_arrive_out_of_order() {
    let runner = runner(true, r#"{"keywords": {}, "content_analysis": {}}"#, "{}");
    let ctx = context();
    let mut log = runner.begin();
    match runner.run("text", &ctx, &log) {
        EngineStep::Call { condition, .. } => assert_eq!(condition, 0),
        _ => panic!("the first declared condition is called first"),
    }
    assert!(log.dispatched(0));
    match runner.run("text", &ctx, &log) {
        EngineStep::Call { condition, .. } => assert_eq!(condition, 1),
        _ => panic!("the second call starts while the first is under way"),
    }
    assert!(log.dispatched(1));
    assert!(matches!(runner.run("text", &ctx, &log), EngineStep::Wait));
    // The second call comes back long before the first.
    assert!(log.completed(1, answered(200, r#"{"passed": true, "score": 0.5}"#, 1)));
    assert!(matches!(runner.run("text", &ctx, &log), EngineStep::Wait));
    assert!(log.completed(0, answered(200, r#"{"passed": true}"#, 200)));
    match runner.run("text", &ctx, &log) {
        EngineStep::Done(result) => {
            assert_eq!(result.condition_outcomes.len(), 2);
            assert_eq!(result.condition_outcomes[0].name, "keywords");
            assert_eq!(result.condition_outcomes[0].latencies_ms, vec![200]);
            assert_eq!(result.condition_outcomes[1].name, "content_analysis");
            assert_eq!(result.condition_outcomes[1].latencies_ms, vec![1]);
            assert!(result.passed);
        }
        _ => panic!("both calls are back"),
    }
}

#[test]
fn document_order_is_declared_order() {
    let runner = runner(true, r#"{"zeta": {}, "keywords": {}, "alpha": {}}"#, r#"{"log": {}, "alert": {}}"#);
    let names: Vec<&str> = runner.parsed_policy.conditions.iter().map(|c| c.name.as_str()).collect();
    assert_eq!(names, vec!["zeta", "keywords", "alpha"]);
    let summary = runner.parsed_policy.summary();
    assert_eq!(summary.policy_id, "p-1");
    assert_eq!(summary.policy_name, "no hate");
    assert_eq!(summary.policy_description, "blocks hateful content");
    assert_eq!(summary.policy_conditions, vec!["zeta", "keywords", "alpha"]);
    assert_eq!(summary.policy_actions, vec!["log", "alert"]);
}

#[test]
fn unknown_condition_never_passes() {
    let runner = runner(true, r#"{"sentiment": {"threshold": 0.1}}"#, LOG);
    let result = evaluate(&runner, "text", |_, _| panic!("no call for an unknown name"), |_| true);
    assert!(!result.passed);
    assert_eq!(result.status, EvaluationStatus::Blocked);
    let outcome = &result.condition_outcomes[0];
    assert_eq!(outcome.name, "sentiment");
    assert!(!outcome.passed);
    assert_eq!(outcome.error, Some(ConditionError::UnknownCondition));
    assert!(outcome.details.unknown_condition);
    assert!(outcome.latencies_ms.is_empty());
}

#[test]
fn unknown_condition_blocks_beside_a_passing_one() {
    let runner = runner(true, r#"{"keywords": {}, "sentiment": {}}"#, "{}");
    let result = evaluate(&runner, "text", |_, _| answered(200, r#"{"passed": true}"#, 1), |_| true);
    assert!(result.condition_outcomes[0].passed);
    assert!(!result.condition_outcomes[1].passed);
    assert!(!result.passed);
}

#[test]
fn evaluating_twice_gives_the_same_result() {
    let runner = runner(true, r#"{"content_analysis": {}, "keywords": {}}"#, r#"{"log": {}}"#);
    let mut results = Vec::new();
    for round in 0..2u64 {
        let result = evaluate(
            &runner,
            "text",
            |condition, _| {
                if condition == 0 {
                    answered(200, r#"{"passed": true, "score": 0.4}"#, 5 + round)
                } else {
                    answered(200, r#"{"passed": false, "details": {"found_keywords": ["a", "b"]}}"#, 9 + round)
                }
            },
            |_| true,
        );
        results.push(result);
    }
    let (a, b) = (&results[0], &results[1]);
    assert_eq!(a.passed, b.passed);
    assert_eq!(a.status, b.status);
    assert_eq!(a.condition_outcomes.len(), b.condition_outcomes.len());
    for (x, y) in a.condition_outcomes.iter().zip(b.condition_outcomes.iter()) {
        assert_eq!(x.name, y.name);
        assert_eq!(x.passed, y.passed);
        assert_eq!(x.error, y.error);
        assert_eq!(x.score, y.score);
        assert_eq!(x.details.matched_terms, y.details.matched_terms);
        assert_eq!(x.details.payload, y.details.payload);
        assert_eq!(x.details.status, y.details.status);
        assert_eq!(x.details.timed_out, y.details.timed_out);
        assert_eq!(x.details.unknown_condition, y.details.unknown_condition);
        assert_ne!(x.latencies_ms, y.latencies_ms);
    }
    assert_eq!(a.action_outcomes.len(), b.action_outcomes.len());
    assert_eq!(a.action_outcomes[0].name, b.action_outcomes[0].name);
    assert_eq!(a.action_outcomes[0].status, b.action_outcomes[0].status);
}

#[test]
fn asking_twice_with_the_same_log_answers_the_same() {
    let runner = runner(true, KEYWORDS, LOG);
    let log = runner.begin();
    let ctx = context();
    for _ in 0..2 {
        match runner.run("text", &ctx, &log) {
            EngineStep::Call { condition, request, delay_ms } => {
                assert_eq!(condition, 0);
                assert_eq!(delay_ms, 0);
                assert_eq!(request.input_text, "text");
            }
            _ => panic!("the call is asked for until it is written down"),
        }
    }
}

#[test]
fn cancelled_evaluation_is_an_error_without_outcomes() {
    let runner = runner(true, r#"{"keywords": {}, "content_analysis": {}}"#, LOG);
    let ctx = context();
    let mut log = runner.begin();
    assert!(log.dispatched(0));
    assert!(log.completed(0, answered(200, r#"{"passed": true}"#, 1)));
    assert!(log.dispatched(1));
    log.cancel();
    assert!(log.is_cancelled());
    match runner.run("text", &ctx, &log) {
        EngineStep::Done(result) => {
            assert!(!result.passed);
            assert_eq!(result.status, EvaluationStatus::Error);
            assert!(result.condition_outcomes.is_empty());
            assert!(result.action_outcomes.is_empty());
        }
        _ => panic!("a cancelled evaluation is over"),
    }
}

#[test]
fn calls_under_way_are_bounded() {
    let policy = Policy::from_file(document(
        true,
        r#"{"keywords": {}, "content_analysis": {}}"#,
        "{}",
    ))
    .unwrap();
    let mut settings = EngineSettings::standard();
    settings.max_in_flight = 1;
    let runner = PolicyRunner::with_settings(policy, ConditionRegistry::standard(), settings);
    let ctx = context();
    let mut log = runner.begin();
    assert!(matches!(runner.run("t", &ctx, &log), EngineStep::Call { condition: 0, .. }));
    assert!(log.dispatched(0));
    assert!(matches!(runner.run("t", &ctx, &log), EngineStep::Wait));
    assert!(log.completed(0, answered(200, r#"{"passed": true}"#, 1)));
    assert!(matches!(runner.run("t", &ctx, &log), EngineStep::Call { condition: 1, .. }));
}

#[test]
fn a_limit_of_zero_counts_as_one() {
    let policy = Policy::from_file(document(true, r#"{"keywords": {}, "content_analysis": {}}"#, "{}")).unwrap();
    let mut settings = EngineSettings::standard();
    settings.max_in_flight = 0;
    let runner = PolicyRunner::with_settings(policy, ConditionRegistry::standard(), settings);
    let ctx = context();
    let mut log = runner.begin();
    assert!(matches!(runner.run("t", &ctx, &log), EngineStep::Call { condition: 0, .. }));
    assert!(log.dispatched(0));
    assert!(matches!(runner.run("t", &ctx, &log), EngineStep::Wait));
}

#[test]
fn settings_reach_the_request() {
    let policy = Policy::from_file(document(true, KEYWORDS, "{}")).unwrap();
    let settings = EngineSettings {
        api_url: "http://checks.internal:9000".to_string(),
        timeout_ms: 1500,
        max_in_flight: 2,
        retry_unavailable: false,
        backoff_ms: 0,
    };
    let runner = PolicyRunner::with_settings(policy, ConditionRegistry::standard(), settings);
    match runner.run("t", &context(), &runner.begin()) {
        EngineStep::Call { request, .. } => {
            assert_eq!(request.url, "http://checks.internal:9000/evaluate/keyword_filter");
            assert_eq!(request.timeout_ms, 1500);
        }
        _ => panic!("the call comes first"),
    }
}

#[test]
fn without_retry_one_timeout_ends_the_condition() {
    let policy = Policy::from_file(document(true, KEYWORDS, "{}")).unwrap();
    let mut settings = EngineSettings::standard();
    settings.retry_unavailable = false;
    let runner = PolicyRunner::with_settings(policy, ConditionRegistry::standard(), settings);
    let mut calls = 0;
    let result = evaluate(
        &runner,
        "t",
        |_, _| {
            calls += 1;
            timed_out(77)
        },
        |_| true,
    );
    assert_eq!(calls, 1);
    assert_eq!(result.condition_outcomes[0].error, Some(ConditionError::TimedOut));
    assert_eq!(result.condition_outcomes[0].latencies_ms, vec![77]);
}

#[test]
fn unavailable_remote_is_retried_and_may_recover() {
    let runner = runner(true, KEYWORDS, "{}");
    let mut calls = 0;
    let result = evaluate(
        &runner,
        "t",
        |_, _| {
            calls += 1;
            if calls == 1 {
                unreachable_remote(2)
            } else {
                answered(200, r#"{"passed": true}"#, 4)
            }
        },
        |_| true,
    );
    assert_eq!(calls, 2);
    assert!(result.passed);
    assert_eq!(result.condition_outcomes[0].error, None);
    assert_eq!(result.condition_outcomes[0].latencies_ms, vec![2, 4]);
}

#[test]
fn unavailable_twice_fails() {
    let runner = runner(true, KEYWORDS, "{}");
    let mut calls = 0;
    let result = evaluate(
        &runner,
        "t",
        |_, _| {
            calls += 1;
            unreachable_remote(1)
        },
        |_| true,
    );
    assert_eq!(calls, 2);
    assert!(!result.passed);
    assert_eq!(result.condition_outcomes[0].error, Some(ConditionError::RemoteUnavailable));
    assert!(!result.condition_outcomes[0].details.timed_out);
}

#[test]
fn rejection_is_not_retried() {
    let runner = runner(true, KEYWORDS, "{}");
    let mut calls = 0;
    let result = evaluate(
        &runner,
        "t",
        |_, _| {
            calls += 1;
            answered(422, r#"{"detail": "no"}"#, 1)
        },
        |_| true,
    );
    assert_eq!(calls, 1);
    assert_eq!(result.condition_outcomes[0].error, Some(ConditionError::RemoteRejected));
    assert_eq!(result.condition_outcomes[0].details.status, Some(422));
    assert_eq!(result.condition_outcomes[0].details.payload, Some(r#"{"detail": "no"}"#.to_string()));
}

#[test]
fn malformed_response_is_not_retried_and_keeps_the_payload() {
    for body in ["not json", "[true]", r#"{"score": 0.2}"#, r#"{"passed": "yes"}"#, ""] {
        let runner = runner(true, KEYWORDS, "{}");
        let mut calls = 0;
        let result = evaluate(
            &runner,
            "t",
            |_, _| {
                calls += 1;
                answered(200, body, 1)
            },
            |_| true,
        );
        assert_eq!(calls, 1);
        assert!(!result.passed);
        assert_eq!(result.condition_outcomes[0].error, Some(ConditionError::MalformedResponse));
        assert_eq!(result.condition_outcomes[0].details.payload, Some(body.to_string()));
    }
}

#[test]
fn content_safety_needs_a_score() {
    let runner = runner(true, r#"{"content_analysis": {}}"#, "{}");
    let result = evaluate(&runner, "t", |_, _| answered(200, r#"{"passed": true}"#, 1), |_| true);
    assert!(!result.passed);
    assert_eq!(result.condition_outcomes[0].error, Some(ConditionError::MalformedResponse));
    let result = evaluate(
        &runner,
        "t",
        |_, _| answered(200, r#"{"passed": true, "score": "high"}"#, 1),
        |_| true,
    );
    assert_eq!(result.condition_outcomes[0].error, Some(ConditionError::MalformedResponse));
    let result = evaluate(
        &runner,
        "t",
        |_, _| answered(299, r#"{"passed": true, "score": 1}"#, 1),
        |_| true,
    );
    assert!(result.passed);
    assert_eq!(result.condition_outcomes[0].score, Some("1".to_string()));
}

#[test]
fn status_outside_the_two_hundreds_is_a_rejection() {
    for status in [199u16, 300, 404, 500, 0] {
        let runner = runner(true, KEYWORDS, "{}");
        let result = evaluate(
            &runner,
            "t",
            |_, _| answered(status, r#"{"passed": true}"#, 1),
            |_| true,
        );
        assert!(!result.passed);
        assert_eq!(result.condition_outcomes[0].error, Some(ConditionError::RemoteRejected));
        assert_eq!(result.condition_outcomes[0].details.status, Some(status));
    }
}

#[test]
fn refused_parameters_fail_without_a_call() {
    for conditions in [
        r#"{"keywords": {"threshold": "high"}}"#,
        r#"{"keywords": {"threshold": null}}"#,
        r#"{"keywords": [0.1]}"#,
        r#"{"keywords": 0.1}"#,
    ] {
        let runner = runner(true, conditions, LOG);
        let result = evaluate(&runner, "t", |_, _| panic!("no call"), |_| true);
        assert!(!result.passed);
        assert_eq!(result.condition_outcomes[0].error, Some(ConditionError::InvalidParameters));
        assert!(result.condition_outcomes[0].latencies_ms.is_empty());
    }
}

#[test]
fn parameters_may_be_null() {
    let runner = runner(true, r#"{"keywords": null}"#, "{}");
    let result = evaluate(
        &runner,
        "t",
        |_, request| {
            assert_eq!(request.threshold, "0.1");
            answered(200, r#"{"passed": true}"#, 1)
        },
        |_| true,
    );
    assert!(result.passed);
}

#[test]
fn empty_content_is_evaluated() {
    let runner = runner(true, KEYWORDS, "{}");
    let mut calls = 0;
    let result = evaluate(
        &runner,
        "",
        |_, request| {
            calls += 1;
            assert_eq!(request.input_text, "");
            assert_eq!(request.actual_output, "");
            answered(200, r#"{"passed": true}"#, 1)
        },
        |_| true,
    );
    assert_eq!(calls, 1);
    assert!(result.passed);
}

#[test]
fn actions_fire_by_their_trigger() {
    let actions = r#"{"log": {}, "block": {"when": "blocked"}, "allow": {"when": "allowed"}, "audit": {"when": "always"}}"#;
    let runner = runner(true, KEYWORDS, actions);
    let mut performed = Vec::new();
    let result = evaluate(
        &runner,
        "t",
        |_, _| answered(200, r#"{"passed": false}"#, 1),
        |action| {
            performed.push(action);
            true
        },
    );
    assert_eq!(performed, vec![0, 1, 3]);
    let statuses: Vec<ActionStatus> = result.action_outcomes.iter().map(|a| a.status).collect();
    assert_eq!(
        statuses,
        vec![ActionStatus::Executed, ActionStatus::Executed, ActionStatus::Skipped, ActionStatus::Executed]
    );
    let names: Vec<&str> = result.action_outcomes.iter().map(|a| a.name.as_str()).collect();
    assert_eq!(names, vec!["log", "block", "allow", "audit"]);

    let mut performed = Vec::new();
    let result = evaluate(
        &runner,
        "t",
        |_, _| answered(200, r#"{"passed": true}"#, 1),
        |action| {
            performed.push(action);
            true
        },
    );
    assert_eq!(performed, vec![0, 2, 3]);
    let statuses: Vec<ActionStatus> = result.action_outcomes.iter().map(|a| a.status).collect();
    assert_eq!(
        statuses,
        vec![ActionStatus::Executed, ActionStatus::Skipped, ActionStatus::Executed, ActionStatus::Executed]
    );
}

#[test]
fn a_failed_action_does_not_stop_the_others() {
    let runner = runner(true, "{}", r#"{"alert": {}, "log": {}, "flag": {"when": 3}, "note": {"when": "later"}}"#);
    let mut performed = Vec::new();
    let result = evaluate(
        &runner,
        "t",
        |_, _| panic!("no call"),
        |action| {
            performed.push(action);
            action != 0
        },
    );
    assert_eq!(performed, vec![0, 1]);
    assert!(result.passed);
    assert_eq!(result.status, EvaluationStatus::Allowed);
    let statuses: Vec<ActionStatus> = result.action_outcomes.iter().map(|a| a.status).collect();
    assert_eq!(
        statuses,
        vec![ActionStatus::Failed, ActionStatus::Executed, ActionStatus::Failed, ActionStatus::Failed]
    );
}

#[test]
fn the_log_refuses_what_does_not_fit() {
    let mut log = Progress::new(2, 1);
    assert!(!log.completed(0, timed_out(1)));
    assert!(log.history(0).unwrap().is_empty());
    assert!(!log.dispatched(2));
    assert!(log.dispatched(1));
    assert!(log.is_in_flight(1));
    assert!(!log.is_in_flight(0));
    assert!(!log.dispatched(1));
    assert!(log.completed(1, timed_out(9)));
    assert!(!log.is_in_flight(1));
    assert_eq!(log.history(1).unwrap().len(), 1);
    assert_eq!(log.history(1).unwrap()[0].latency_ms, 9);
    assert!(log.history(2).is_none());
    assert!(!log.completed(1, timed_out(9)));
    assert_eq!(log.report(0), None);
    assert!(!log.performed(1, true));
    assert!(log.performed(0, false));
    assert_eq!(log.report(0), Some(false));
    assert!(!log.performed(0, true));
    assert_eq!(log.report(0), Some(false));
    assert_eq!(log.report(5), None);
    assert!(!log.is_cancelled());
}

#[test]
fn replies_for_different_conditions_commute() {
    let runner = runner(true, r#"{"keywords": {}, "content_analysis": {}}"#, "{}");
    let ctx = context();
    let mut first = runner.begin();
    let mut second = runner.begin();
    for log in [&mut first, &mut second] {
        assert!(log.dispatched(0));
        assert!(log.dispatched(1));
    }
    assert!(first.completed(0, answered(200, r#"{"passed": false}"#, 3)));
    assert!(first.completed(1, answered(200, r#"{"passed": true, "score": 0.1}"#, 4)));
    assert!(second.completed(1, answered(200, r#"{"passed": true, "score": 0.1}"#, 4)));
    assert!(second.completed(0, answered(200, r#"{"passed": false}"#, 3)));
    let a = match runner.run("t", &ctx, &first) {
        EngineStep::Done(r) => r,
        _ => panic!("done"),
    };
    let b = match runner.run("t", &ctx, &second) {
        EngineStep::Done(r) => r,
        _ => panic!("done"),
    };
    assert_eq!(a.passed, b.passed);
    for (x, y) in a.condition_outcomes.iter().zip(b.condition_outcomes.iter()) {
        assert_eq!(x.name, y.name);
        assert_eq!(x.passed, y.passed);
        assert_eq!(x.score, y.score);
        assert_eq!(x.latencies_ms, y.latencies_ms);
    }
}

#[test]
fn an_evaluation_ends_within_its_bound() {
    let runner = runner(
        true,
        r#"{"keywords": {}, "content_analysis": {}, "mystery": {}}"#,
        r#"{"log": {}, "alert": {"when": "blocked"}}"#,
    );
    let ctx = context();
    let mut log = runner.begin();
    let bound = 4 * 3 + 2;
    let mut steps = 0;
    let result = loop {
        assert!(steps <= bound, "more steps than there was work");
        match runner.run("t", &ctx, &log) {
            EngineStep::Call { condition, .. } => assert!(log.dispatched(condition)),
            EngineStep::Wait => {
                let flying = (0..3).find(|&i| log.is_in_flight(i)).expect("a call is under way");
                assert!(log.completed(flying, timed_out(5)));
            }
            EngineStep::Perform { action } => assert!(log.performed(action, true)),
            EngineStep::Done(result) => break result,
        }
        steps += 1;
    };
    assert_eq!(steps, 2 + 2 + 2 + 2 + 2);
    assert_eq!(result.condition_outcomes.len(), 3);
    assert_eq!(result.condition_outcomes[0].latencies_ms, vec![5, 5]);
    assert_eq!(result.condition_outcomes[2].error, Some(ConditionError::UnknownCondition));
    assert_eq!(result.action_outcomes.len(), 2);
}
