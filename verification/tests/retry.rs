use git_commit_sage::config::AiConfig;
use git_commit_sage::error::Error;
use git_commit_sage::generate::start;
use git_commit_sage::retry::{
    lower_temperature, RetryPolicy, RetryState, Step, INITIAL_RETRY_DELAY_MS, MAX_RETRIES,
};

const RATE_LIMITED: Error = Error::Api { status: 429 };
const UNAVAILABLE: Error = Error::Api { status: 503 };
const UNAUTHORIZED: Error = Error::Api { status: 401 };

/// What a run did: the wait and the temperature of each request, and how it ended.
struct Run {
    requests: Vec<(u64, u32)>,
    result: Result<String, Error>,
}

/// Plays a run against an endpoint that gives the listed replies in order and then the last again.
fn play(policy: RetryPolicy, suggested: &str, temperature: u32, replies: &[Result<&str, Error>]) -> Run {
    let mut requests = Vec::new();
    let mut step = RetryState::begin(policy, suggested.to_string(), temperature);
    loop {
        match step {
            Step::Done(result) => return Run { requests, result },
            Step::Send { delay_ms, temperature_permille, state } => {
                let index = requests.len().min(replies.len() - 1);
                requests.push((delay_ms, temperature_permille));
                assert!(requests.len() <= 1000);
                let reply = replies[index].map(|text| text.to_string());
                step = state.on_reply(reply);
            }
        }
    }
}

#[test]
fn standard_policy_has_three_attempts_and_one_second() {
    let policy = RetryPolicy::default();
    assert_eq!(policy.max_retries, 3);
    assert_eq!(policy.initial_delay_ms, 1000);
    assert_eq!(MAX_RETRIES, 3);
    assert_eq!(INITIAL_RETRY_DELAY_MS, 1000);
}

#[test]
fn delays_double_from_the_second_attempt() {
    let policy = RetryPolicy::default();
    assert_eq!(policy.delay_before(0), 0);
    assert_eq!(policy.delay_before(1), 1000);
    assert_eq!(policy.delay_before(2), 2000);
    assert_eq!(policy.delay_before(3), 4000);
    assert_eq!(policy.delay_before(11), 1_024_000);
}

#[test]
fn delays_stop_at_the_largest_value() {
    let policy = RetryPolicy { max_retries: 200, initial_delay_ms: 3 };
    assert_eq!(policy.delay_before(62), 3 << 61);
    assert_eq!(policy.delay_before(63), 3 << 62);
    assert_eq!(policy.delay_before(64), u64::MAX);
    assert_eq!(policy.delay_before(65), u64::MAX);
    assert_eq!(policy.delay_before(u32::MAX), u64::MAX);
    let exact = RetryPolicy { max_retries: 200, initial_delay_ms: 1 };
    assert_eq!(exact.delay_before(64), 1 << 63);
    assert_eq!(exact.delay_before(65), u64::MAX);
    let none = RetryPolicy { max_retries: 200, initial_delay_ms: 0 };
    assert_eq!(none.delay_before(0), 0);
    assert_eq!(none.delay_before(1), 0);
    assert_eq!(none.delay_before(u32::MAX), 0);
    let full = RetryPolicy { max_retries: 200, initial_delay_ms: u64::MAX };
    assert_eq!(full.delay_before(1), u64::MAX);
    assert_eq!(full.delay_before(2), u64::MAX);
}

#[test]
fn lowered_temperature_is_four_fifths() {
    assert_eq!(lower_temperature(300), 240);
    assert_eq!(lower_temperature(1000), 800);
    assert_eq!(lower_temperature(0), 0);
    assert_eq!(lower_temperature(1), 0);
    assert_eq!(lower_temperature(7), 5);
    assert_eq!(lower_temperature(u32::MAX), 3_435_973_836);
}

#[test]
fn matching_message_is_returned_at_once() {
    let run = play(RetryPolicy::default(), "feat", 300, &[Ok("feat(core): add x")]);
    assert_eq!(run.requests, vec![(0, 300)]);
    assert_eq!(run.result, Ok("feat(core): add x".to_string()));
}

#[test]
fn rate_limited_twice_then_success() {
    let run = play(
        RetryPolicy::default(),
        "feat",
        300,
        &[Err(RATE_LIMITED), Err(RATE_LIMITED), Ok("feat: add x")],
    );
    assert_eq!(run.requests, vec![(0, 300), (1000, 300), (2000, 300)]);
    assert_eq!(run.result, Ok("feat: add x".to_string()));
}

#[test]
fn unavailable_is_retried_like_rate_limited() {
    let run = play(RetryPolicy::default(), "fix", 300, &[Err(UNAVAILABLE), Ok("fix: y")]);
    assert_eq!(run.requests, vec![(0, 300), (1000, 300)]);
    assert_eq!(run.result, Ok("fix: y".to_string()));
}

#[test]
fn always_rate_limited_fails_with_that_error_after_three_requests() {
    let run = play(RetryPolicy::default(), "feat", 300, &[Err(RATE_LIMITED)]);
    assert_eq!(run.requests, vec![(0, 300), (1000, 300), (2000, 300)]);
    assert_eq!(run.result, Err(RATE_LIMITED));
}

#[test]
fn last_retryable_error_is_the_one_reported() {
    let run = play(
        RetryPolicy::default(),
        "feat",
        300,
        &[Err(RATE_LIMITED), Err(UNAVAILABLE), Ok("not a commit message")],
    );
    assert_eq!(run.requests.len(), 3);
    assert_eq!(run.result, Err(UNAVAILABLE));
}

#[test]
fn invalid_credential_fails_after_first_request() {
    let run = play(RetryPolicy::default(), "feat", 300, &[Err(UNAUTHORIZED)]);
    assert_eq!(run.requests, vec![(0, 300)]);
    assert_eq!(run.result, Err(UNAUTHORIZED));
}

#[test]
fn other_failures_are_final() {
    for failure in [
        Error::Transport,
        Error::MalformedResponse,
        Error::Api { status: 500 },
        Error::Api { status: 400 },
        Error::Api { status: 404 },
        Error::Api { status: 502 },
    ] {
        let run = play(RetryPolicy::default(), "feat", 300, &[Err(failure)]);
        assert_eq!(run.requests, vec![(0, 300)]);
        assert_eq!(run.result, Err(failure));
    }
}

#[test]
fn final_failure_after_retry_is_reported_itself() {
    let run = play(RetryPolicy::default(), "feat", 300, &[Err(RATE_LIMITED), Err(Error::Transport)]);
    assert_eq!(run.requests, vec![(0, 300), (1000, 300)]);
    assert_eq!(run.result, Err(Error::Transport));
}

#[test]
fn invalid_messages_exhaust_the_run() {
    let run = play(RetryPolicy::default(), "feat", 300, &[Ok("no colon here")]);
    assert_eq!(run.requests, vec![(0, 300), (1000, 300), (2000, 300)]);
    assert_eq!(run.result, Err(Error::GenerationExhausted));
    assert_eq!(
        Error::GenerationExhausted.message(),
        "Failed to generate commit message: Maximum retries exceeded"
    );
}

#[test]
fn mismatched_type_gets_one_second_try_at_lower_temperature() {
    let run = play(RetryPolicy::default(), "feat", 300, &[Ok("fix: y")]);
    assert_eq!(run.requests, vec![(0, 300), (0, 240)]);
    assert_eq!(run.result, Ok("fix: y".to_string()));
}

#[test]
fn second_try_is_returned_when_valid_even_with_another_type() {
    let run = play(RetryPolicy::default(), "feat", 500, &[Ok("fix: y"), Ok("docs: z")]);
    assert_eq!(run.requests, vec![(0, 500), (0, 400)]);
    assert_eq!(run.result, Ok("docs: z".to_string()));
    let run = play(RetryPolicy::default(), "feat", 500, &[Ok("fix: y"), Ok("feat: z")]);
    assert_eq!(run.result, Ok("feat: z".to_string()));
}

#[test]
fn first_message_is_kept_when_second_try_fails() {
    let run = play(RetryPolicy::default(), "feat", 300, &[Ok("fix: y"), Ok("nonsense")]);
    assert_eq!(run.requests, vec![(0, 300), (0, 240)]);
    assert_eq!(run.result, Ok("fix: y".to_string()));
    for failure in [UNAUTHORIZED, RATE_LIMITED, Error::Transport, Error::MalformedResponse] {
        let run = play(RetryPolicy::default(), "feat", 300, &[Ok("fix: y"), Err(failure)]);
        assert_eq!(run.requests, vec![(0, 300), (0, 240)]);
        assert_eq!(run.result, Ok("fix: y".to_string()));
    }
}

#[test]
fn second_try_follows_earlier_attempts() {
    let run = play(
        RetryPolicy::default(),
        "feat",
        300,
        &[Err(RATE_LIMITED), Ok("fix: y"), Ok("feat: z")],
    );
    assert_eq!(run.requests, vec![(0, 300), (1000, 300), (0, 240)]);
    assert_eq!(run.result, Ok("feat: z".to_string()));
}

#[test]
fn last_attempt_has_no_second_try() {
    let run = play(
        RetryPolicy::default(),
        "feat",
        300,
        &[Ok("nonsense"), Err(UNAVAILABLE), Ok("fix: y")],
    );
    assert_eq!(run.requests, vec![(0, 300), (1000, 300), (2000, 300)]);
    assert_eq!(run.result, Ok("fix: y".to_string()));
    let single = RetryPolicy { max_retries: 1, initial_delay_ms: 1000 };
    let run = play(single, "feat", 300, &[Ok("fix: y")]);
    assert_eq!(run.requests, vec![(0, 300)]);
    assert_eq!(run.result, Ok("fix: y".to_string()));
}

#[test]
fn policy_without_attempts_sends_nothing() {
    let none = RetryPolicy { max_retries: 0, initial_delay_ms: 1000 };
    let run = play(none, "feat", 300, &[Ok("feat: x")]);
    assert!(run.requests.is_empty());
    assert_eq!(run.result, Err(Error::GenerationExhausted));
}

#[test]
fn policy_sets_attempts_and_delays() {
    let policy = RetryPolicy { max_retries: 5, initial_delay_ms: 10 };
    let run = play(policy, "feat", 700, &[Err(UNAVAILABLE)]);
    assert_eq!(run.requests, vec![(0, 700), (10, 700), (20, 700), (40, 700), (80, 700)]);
    assert_eq!(run.result, Err(UNAVAILABLE));
}

#[test]
fn type_is_compared_without_scope() {
    let run = play(RetryPolicy::default(), "refactor", 300, &[Ok("refactor(parser): split")]);
    assert_eq!(run.requests.len(), 1);
    assert_eq!(run.result, Ok("refactor(parser): split".to_string()));
}

#[test]
fn state_of_a_request_records_the_run() {
    let step = RetryState::begin(RetryPolicy::default(), "feat".to_string(), 300);
    let state = match step {
        Step::Send { delay_ms, temperature_permille, state } => {
            assert_eq!(delay_ms, 0);
            assert_eq!(temperature_permille, 300);
            state
        }
        Step::Done(_) => panic!("a run with attempts starts with a request"),
    };
    assert_eq!(state.attempt, 0);
    assert_eq!(state.last_error, None);
    assert_eq!(state.fallback, None);
    assert_eq!(state.suggested_type, "feat");
    let state = match state.on_reply(Err(RATE_LIMITED)) {
        Step::Send { state, .. } => state,
        Step::Done(_) => panic!("a rate limit is retried"),
    };
    assert_eq!(state.attempt, 1);
    assert_eq!(state.last_error, Some(RATE_LIMITED));
    let state = match state.on_reply(Ok("fix: y".to_string())) {
        Step::Send { state, .. } => state,
        Step::Done(_) => panic!("a mismatch before the last attempt is tried again"),
    };
    assert_eq!(state.attempt, 1);
    assert_eq!(state.fallback, Some("fix: y".to_string()));
    match state.on_reply(Ok("still nonsense".to_string())) {
        Step::Done(result) => assert_eq!(result, Ok("fix: y".to_string())),
        Step::Send { .. } => panic!("a second try ends the run"),
    }
}

#[test]
fn generation_starts_with_request_and_first_step() {
    let config = AiConfig::default();
    let diff = "diff --git a/README.md b/README.md\n+hello\n";
    let generation = start(&config, RetryPolicy::default(), diff);
    assert_eq!(generation.request.model, config.model);
    assert_eq!(generation.request.temperature_permille, 300);
    assert_eq!(generation.request.messages.len(), 2);
    assert!(generation.request.messages[1]
        .content
        .contains("This is a documentation change (suggested type: docs) with 0 new files"));
    assert!(generation.request.messages[1].content.ends_with("Diff:\ndiff --git a/README.md b/README.md\n+hello\n"));
    match generation.first {
        Step::Send { delay_ms, temperature_permille, state } => {
            assert_eq!(delay_ms, 0);
            assert_eq!(temperature_permille, 300);
            assert_eq!(state.suggested_type, "docs");
            match state.on_reply(Ok("docs: greet the reader".to_string())) {
                Step::Done(result) => assert_eq!(result, Ok("docs: greet the reader".to_string())),
                Step::Send { .. } => panic!("a matching message ends the run"),
            }
        }
        Step::Done(_) => panic!("a run with attempts starts with a request"),
    }
}

#[test]
fn generation_without_attempts_is_over_at_once() {
    let policy = RetryPolicy { max_retries: 0, initial_delay_ms: 1000 };
    let generation = start(&AiConfig::default(), policy, "+x\n");
    match generation.first {
        Step::Done(result) => assert_eq!(result, Err(Error::GenerationExhausted)),
        Step::Send { .. } => panic!("no attempt is allowed"),
    }
}
