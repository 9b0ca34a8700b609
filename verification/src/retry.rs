//! The retry policy around the completion endpoint, as a state machine.
//!
//! The caller owns the exchange with the endpoint and the waiting.  It asks
//! this module what to do next, does it, and reports the reply.  A run starts
//! with `RetryState::begin` and goes on with `RetryState::on_reply` until a
//! step is `Step::Done`.

use vstd::prelude::*;
use vstd::arithmetic::power2::{lemma_pow2_strictly_increases, lemma_pow2_unfold, pow2};
use vstd::math::min;
use crate::completion::reply_text;
use crate::error::Error;
use crate::grammar::{is_conventional, is_conventional_commit, leading_type, message_type};

verus! {

/// The number of attempts that a run makes at most.
pub const MAX_RETRIES: u32 = 3;

/// The wait in front of the second attempt, in milliseconds.
pub const INITIAL_RETRY_DELAY_MS: u64 = 1000;

/// How many attempts a run may make and how long it waits between them.
#[derive(Clone, Copy, Debug, PartialEq, Eq, Structural)]
pub struct RetryPolicy {
    /// The number of attempts that a run makes at most.
    pub max_retries: u32,
    /// The wait in front of the second attempt, in milliseconds.  It doubles
    /// with every further attempt.
    pub initial_delay_ms: u64,
}

/// The wait in front of an attempt, in milliseconds: none in front of the
/// first, then the initial wait doubled with every further attempt, and
/// never more than a `u64` holds.
pub open spec fn backoff(initial_delay_ms: u64, attempt: nat) -> int {
    if attempt == 0 {
        0
    } else {
        min(initial_delay_ms * pow2((attempt - 1) as nat), u64::MAX as int)
    }
}

/// The temperature of the second try of an attempt: four fifths of the
/// configured one, rounded down.
pub open spec fn lowered(temperature_permille: u32) -> u32 {
    (temperature_permille * 4 / 5) as u32
}

impl Default for RetryPolicy {
    fn default() -> (policy: RetryPolicy)
        ensures
            policy.max_retries == MAX_RETRIES,
            policy.initial_delay_ms == INITIAL_RETRY_DELAY_MS,
    {
        RetryPolicy { max_retries: MAX_RETRIES, initial_delay_ms: INITIAL_RETRY_DELAY_MS }
    }
}

impl RetryPolicy {
    /// The wait in front of the attempt with the given index.
    pub fn delay_before(&self, attempt: u32) -> (delay_ms: u64)
        ensures
            delay_ms == backoff(self.initial_delay_ms, attempt as nat),
    {
        let initial = self.initial_delay_ms;
        if attempt == 0 {
            return 0;
        }
        if initial == 0 {
            assert(initial * pow2((attempt - 1) as nat) == 0) by (nonlinear_arith)
                requires
                    initial == 0,
            ;
            return 0;
        }
        let mut delay: u64 = initial;
        let mut k: u32 = 1;
        proof {
            lemma_pow2_unfold(1);
            assert(pow2(0) == 1) by {
                vstd::arithmetic::power2::lemma2_to64();
            }
            assert(initial * pow2(0) == initial);
        }
        while k < attempt && delay < u64::MAX
            invariant
                1 <= k <= attempt,
                initial > 0,
                delay == min(initial * pow2((k - 1) as nat), u64::MAX as int),
            decreases attempt - k,
        {
            proof {
                lemma_pow2_unfold(k as nat);
                let p = pow2((k - 1) as nat);
                assert(initial * (2 * p) == 2 * (initial * p)) by (nonlinear_arith);
            }
            if delay > u64::MAX / 2 {
                delay = u64::MAX;
            } else {
                delay = delay * 2;
            }
            k += 1;
        }
        proof {
            if k < attempt {
                lemma_pow2_strictly_increases((k - 1) as nat, (attempt - 1) as nat);
                let p = pow2((k - 1) as nat);
                let q = pow2((attempt - 1) as nat);
                assert(initial * p <= initial * q) by (nonlinear_arith)
                    requires
                        p <= q,
                        initial > 0,
                ;
            }
        }
        delay
    }
}

/// The temperature of the second try of an attempt.
pub fn lower_temperature(temperature_permille: u32) -> (t: u32)
    ensures
        t == lowered(temperature_permille),
{
    let wide: u64 = temperature_permille as u64;
    (wide * 4 / 5) as u32
}

/// A run that waits for the reply to a request.
#[derive(Debug)]
pub struct RetryState {
    /// The limits of the run.
    pub policy: RetryPolicy,
    /// The commit type that the classification of the diff suggests.
    pub suggested_type: String,
    /// The configured temperature, in thousandths.
    pub temperature_permille: u32,
    /// The index of the attempt that the request belongs to, from 0.
    pub attempt: u32,
    /// The last failure after which another attempt was made.
    pub last_error: Option<Error>,
    /// Where the request is the second try of its attempt: the message of
    /// the first try, which is valid but of another type than suggested.
    pub fallback: Option<String>,
}

/// What the caller does next.
#[derive(Debug)]
pub enum Step {
    /// Wait, send the request at the given temperature, and report the
    /// reply to the state.
    Send { delay_ms: u64, temperature_permille: u32, state: RetryState },
    /// The run is over, with a message or with a failure.
    Done(Result<String, Error>),
}

/// The mathematical model of a `RetryState`.
pub struct RetryModel {
    pub policy: RetryPolicy,
    pub suggested_type: Seq<char>,
    pub temperature_permille: u32,
    pub attempt: nat,
    pub last_error: Option<Error>,
    pub fallback: Option<Seq<char>>,
}

/// The mathematical model of a `Step`.
pub enum StepModel {
    Send { delay_ms: int, temperature_permille: u32, state: RetryModel },
    Done(Result<Seq<char>, Error>),
}

impl View for RetryState {
    type V = RetryModel;

    open spec fn view(&self) -> RetryModel {
        RetryModel {
            policy: self.policy,
            suggested_type: self.suggested_type@,
            temperature_permille: self.temperature_permille,
            attempt: self.attempt as nat,
            last_error: self.last_error,
            fallback: match self.fallback {
                Some(text) => Some(text@),
                None => None,
            },
        }
    }
}

impl View for Step {
    type V = StepModel;

    open spec fn view(&self) -> StepModel {
        match *self {
            Step::Send { delay_ms, temperature_permille, state } => StepModel::Send {
                delay_ms: delay_ms as int,
                temperature_permille,
                state: state@,
            },
            Step::Done(result) => StepModel::Done(reply_text(result)),
        }
    }
}

/// The state in which a run starts.
pub open spec fn initial(policy: RetryPolicy, suggested_type: Seq<char>, temperature_permille: u32)
    -> RetryModel {
    RetryModel {
        policy,
        suggested_type,
        temperature_permille,
        attempt: 0,
        last_error: None,
        fallback: None,
    }
}

/// The first try of the attempt that `m` is at: a request at the configured
/// temperature after the wait that the attempt calls for.  Where the
/// attempts are spent, the run fails with the last failure remembered, or
/// with exhaustion where none was.
pub open spec fn attempt_step(m: RetryModel) -> StepModel {
    if m.attempt < m.policy.max_retries {
        StepModel::Send {
            delay_ms: backoff(m.policy.initial_delay_ms, m.attempt),
            temperature_permille: m.temperature_permille,
            state: m,
        }
    } else {
        StepModel::Done(
            Err(
                match m.last_error {
                    Some(e) => e,
                    None => Error::GenerationExhausted,
                },
            ),
        )
    }
}

/// The step after the reply to the first try of an attempt.
pub open spec fn after_first_try(m: RetryModel, reply: Result<Seq<char>, Error>) -> StepModel {
    match reply {
        Err(e) => if e.is_retryable() {
            attempt_step(RetryModel { attempt: m.attempt + 1, last_error: Some(e), ..m })
        } else {
            StepModel::Done(Err(e))
        },
        Ok(text) => if !is_conventional(text) {
            attempt_step(RetryModel { attempt: m.attempt + 1, ..m })
        } else if leading_type(text) == m.suggested_type {
            StepModel::Done(Ok(text))
        } else if m.attempt + 1 < m.policy.max_retries {
            StepModel::Send {
                delay_ms: 0,
                temperature_permille: lowered(m.temperature_permille),
                state: RetryModel { fallback: Some(text), ..m },
            }
        } else {
            StepModel::Done(Ok(text))
        },
    }
}

/// The step after the reply to the second try of an attempt: the run ends
/// with the new message where it is valid, and with the message of the
/// first try otherwise.
pub open spec fn after_second_try(kept: Seq<char>, reply: Result<Seq<char>, Error>)
    -> StepModel {
    match reply {
        Ok(text) => if is_conventional(text) {
            StepModel::Done(Ok(text))
        } else {
            StepModel::Done(Ok(kept))
        },
        Err(_) => StepModel::Done(Ok(kept)),
    }
}

/// The step after a reply.
pub open spec fn react(m: RetryModel, reply: Result<Seq<char>, Error>) -> StepModel {
    match m.fallback {
        Some(kept) => after_second_try(kept, reply),
        None => after_first_try(m, reply),
    }
}

impl RetryState {
    /// The request of the state is one that the policy allows.
    pub open spec fn wf(&self) -> bool {
        self.attempt < self.policy.max_retries
    }

    /// The first try of the attempt that the state is at.
    fn first_try(self) -> (step: Step)
        ensures
            step@ == attempt_step(self@),
            step matches Step::Send { state, .. } ==> state.wf(),
    {
        if self.attempt < self.policy.max_retries {
            Step::Send {
                delay_ms: self.policy.delay_before(self.attempt),
                temperature_permille: self.temperature_permille,
                state: self,
            }
        } else {
            match self.last_error {
                Some(e) => Step::Done(Err(e)),
                None => Step::Done(Err(Error::GenerationExhausted)),
            }
        }
    }

    /// The first try of the attempt after the one that the state is at.
    fn next_attempt(self, failure: Option<Error>) -> (step: Step)
        ensures
            step@ == attempt_step(
                RetryModel {
                    attempt: self@.attempt + 1,
                    last_error: match failure {
                        Some(e) => Some(e),
                        None => self@.last_error,
                    },
                    ..self@
                },
            ),
            step matches Step::Send { state, .. } ==> state.wf(),
    {
        let last_error = match failure {
            Some(e) => Some(e),
            None => self.last_error,
        };
        if self.policy.max_retries > 0 && self.attempt < self.policy.max_retries - 1 {
            let next = RetryState {
                policy: self.policy,
                suggested_type: self.suggested_type,
                temperature_permille: self.temperature_permille,
                attempt: self.attempt + 1,
                last_error,
                fallback: self.fallback,
            };
            next.first_try()
        } else {
            match last_error {
                Some(e) => Step::Done(Err(e)),
                None => Step::Done(Err(Error::GenerationExhausted)),
            }
        }
    }

    /// Starts a run for a diff for which `suggested_type` is suggested.
    pub fn begin(policy: RetryPolicy, suggested_type: String, temperature_permille: u32) -> (step:
        Step)
        ensures
            step@ == attempt_step(initial(policy, suggested_type@, temperature_permille)),
            step matches Step::Send { state, .. } ==> state.wf(),
    {
        let state = RetryState {
            policy,
            suggested_type,
            temperature_permille,
            attempt: 0,
            last_error: None,
            fallback: None,
        };
        state.first_try()
    }

    /// Takes the reply to the request of this state and says what to do
    /// next.
    pub fn on_reply(self, reply: Result<String, Error>) -> (step: Step)
        ensures
            step@ == react(self@, reply_text(reply)),
            step matches Step::Send { state, .. } ==> state.wf(),
    {
        match self.fallback {
            Some(kept) => match reply {
                Ok(text) => if is_conventional_commit(text.as_str()) {
                    Step::Done(Ok(text))
                } else {
                    Step::Done(Ok(kept))
                },
                Err(_) => Step::Done(Ok(kept)),
            },
            None => match reply {
                Err(e) => if e.retryable() {
                    self.next_attempt(Some(e))
                } else {
                    Step::Done(Err(e))
                },
                Ok(text) => if !is_conventional_commit(text.as_str()) {
                    self.next_attempt(None)
                } else if message_type(text.as_str()) == self.suggested_type {
                    Step::Done(Ok(text))
                } else if self.policy.max_retries > 0 && self.attempt < self.policy.max_retries
                    - 1 {
                    Step::Send {
                        delay_ms: 0,
                        temperature_permille: lower_temperature(self.temperature_permille),
                        state: RetryState {
                            policy: self.policy,
                            suggested_type: self.suggested_type,
                            temperature_permille: self.temperature_permille,
                            attempt: self.attempt,
                            last_error: self.last_error,
                            fallback: Some(text),
                        },
                    }
                } else {
                    Step::Done(Ok(text))
                },
            },
        }
    }
}

/// The number of requests that a run can still make once the request of
/// `m` is answered.
pub open spec fn requests_left(m: RetryModel) -> int {
    if m.fallback is Some {
        0
    } else {
        m.policy.max_retries - 1 - m.attempt
    }
}

/// A run makes no more requests than its policy has attempts: the first
/// request leaves one less than that, and every further request leaves
/// fewer than the one before it.  The policy, the suggested type and the
/// configured temperature stay the same throughout.
pub proof fn law_requests_are_bounded(m: RetryModel, reply: Result<Seq<char>, Error>)
    requires
        m.attempt < m.policy.max_retries,
    ensures
        attempt_step(initial(m.policy, m.suggested_type, m.temperature_permille)) is Send,
        requests_left(
            attempt_step(initial(m.policy, m.suggested_type, m.temperature_permille))->state,
        ) == m.policy.max_retries - 1,
        react(m, reply) matches StepModel::Send { state, .. } ==> {
            &&& 0 <= requests_left(state) < requests_left(m)
            &&& state.attempt < state.policy.max_retries
            &&& state.policy == m.policy
            &&& state.suggested_type == m.suggested_type
            &&& state.temperature_permille == m.temperature_permille
        },
{
}

/// A failure that is not worth another attempt ends the run at once: after
/// the first request no other is made, and the run fails with that failure.
/// A refused credential is such a failure.
pub proof fn law_final_failure_ends_run(
    policy: RetryPolicy,
    suggested_type: Seq<char>,
    temperature_permille: u32,
    failure: Error,
)
    requires
        policy.max_retries >= 1,
        !failure.is_retryable(),
    ensures
        !(Error::Api { status: crate::error::UNAUTHORIZED }).is_retryable(),
        attempt_step(initial(policy, suggested_type, temperature_permille)) is Send,
        react(
            attempt_step(initial(policy, suggested_type, temperature_permille))->state,
            Err(failure),
        ) == StepModel::Done(Err(failure)),
{
}

/// Where the endpoint limits the rate of the first two requests and then
/// answers with a valid message of the suggested type, the run makes three
/// requests, all at the configured temperature, and ends with that message.
/// It waits the initial wait in front of the second request and twice as
/// long in front of the third.
pub proof fn law_rate_limited_twice_then_accepted(
    policy: RetryPolicy,
    suggested_type: Seq<char>,
    temperature_permille: u32,
    message: Seq<char>,
)
    requires
        policy.max_retries >= 3,
        is_conventional(message),
        leading_type(message) == suggested_type,
    ensures
        ({
            let limited = Err::<Seq<char>, Error>(
                Error::Api { status: crate::error::TOO_MANY_REQUESTS },
            );
            let first = attempt_step(initial(policy, suggested_type, temperature_permille));
            let second = react(first->state, limited);
            let third = react(second->state, limited);
            &&& first is Send
            &&& first->delay_ms == 0
            &&& first->temperature_permille == temperature_permille
            &&& second is Send
            &&& second->delay_ms == policy.initial_delay_ms
            &&& second->temperature_permille == temperature_permille
            &&& third is Send
            &&& third->delay_ms == min(2 * policy.initial_delay_ms, u64::MAX as int)
            &&& third->temperature_permille == temperature_permille
            &&& react(third->state, Ok(message)) == StepModel::Done(Ok(message))
        }),
{
    vstd::arithmetic::power2::lemma2_to64();
    assert(backoff(policy.initial_delay_ms, 1) == policy.initial_delay_ms) by {
        assert(pow2(0) == 1);
        assert(policy.initial_delay_ms * pow2(0) == policy.initial_delay_ms);
    }
    assert(backoff(policy.initial_delay_ms, 2) == min(
        2 * policy.initial_delay_ms,
        u64::MAX as int,
    )) by {
        assert(pow2(1) == 2);
        assert(policy.initial_delay_ms * pow2(1) == 2 * policy.initial_delay_ms);
    }
}

/// A valid message of another type than suggested leads to one second try
/// at the lowered temperature, at once, unless the attempt is the last.
/// Whatever the reply to that second try, the run ends with it: there is no
/// second try of a second try.
pub proof fn law_one_second_try(m: RetryModel, message: Seq<char>, reply: Result<Seq<char>, Error>)
    requires
        m.fallback is None,
        m.attempt + 1 < m.policy.max_retries,
        is_conventional(message),
        leading_type(message) != m.suggested_type,
    ensures
        react(m, Ok(message)) == (StepModel::Send {
            delay_ms: 0,
            temperature_permille: lowered(m.temperature_permille),
            state: RetryModel { fallback: Some(message), ..m },
        }),
        react(react(m, Ok(message))->state, reply) is Done,
{
}

} // verus!
