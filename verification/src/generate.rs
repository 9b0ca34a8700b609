//! The start of the generation of a commit message.
//!
//! A generation classifies the diff once, builds one request from the
//! classification, and then follows the retry policy.  The caller sends the
//! request at the temperature that each step names and reports the replies
//! to the state of that step.

use vstd::prelude::*;
use crate::classify::{classify, diff_signals, summary, CommitContext};
use crate::config::AiConfig;
use crate::prompt::{build_request, is_request_for, ChatRequest};
use crate::retry::{attempt_step, initial, RetryPolicy, RetryState, Step};

verus! {

/// A generation that has not sent anything yet.
#[derive(Debug)]
pub struct Generation {
    /// The request to send, at the temperature that each step names.
    pub request: ChatRequest,
    /// What to do first.
    pub first: Step,
}

/// Starts the generation of a commit message for `diff`: the request asks
/// for a message for the diff as it is classified, and the run expects the
/// commit type that goes with the category of the diff.
pub fn start(config: &AiConfig, policy: RetryPolicy, diff: &str) -> (generation: Generation)
    ensures
        is_request_for(
            generation.request,
            *config,
            summary(classify(diff@), diff_signals(diff@)),
            diff@,
            config.temperature_permille,
        ),
        generation.first@ == attempt_step(
            initial(policy, classify(diff@).suggested_type(), config.temperature_permille),
        ),
        generation.first matches Step::Send { state, .. } ==> state.wf(),
{
    let context = CommitContext::from_diff(diff);
    let request = build_request(config, &context, diff, config.temperature_permille);
    let first = RetryState::begin(
        policy,
        context.get_suggested_type().to_owned(),
        config.temperature_permille,
    );
    Generation { request, first }
}

} // verus!
