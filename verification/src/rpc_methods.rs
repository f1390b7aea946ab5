//! The bounded retry of the two read calls, as a decision per attempt.

use crate::errors::{CollectError, RpcCall};
use vstd::prelude::*;

verus! {

/// How many times a read call is attempted at most.
pub const MAX_RETRIES: u32 = 5;

/// How long to wait after a rate-limit response before the next attempt.
pub const RETRY_DELAY_SECS: u64 = 2;

/// The HTTP status that signals rate limiting.
pub const TOO_MANY_REQUESTS: u16 = 429;

/// How one attempt of a read call ended.
#[derive(Clone, Copy, Debug, PartialEq, Eq)]
pub enum RpcOutcome<T> {
    /// The endpoint answered with the value asked for.
    Success(T),
    /// The endpoint answered with an HTTP error status.
    HttpError { status: u16 },
    /// The call failed in any other way.
    Failed,
}

/// What follows an attempt.
#[derive(Clone, Copy, Debug, PartialEq, Eq)]
pub enum RetryStep<T> {
    /// The call succeeded with this value.
    Done(T),
    /// Wait `delay_secs` seconds, then make attempt number `attempt`.
    Retry { attempt: u32, delay_secs: u64 },
    /// No further attempt is made.
    GiveUp(CollectError),
}

impl<T> RpcOutcome<T> {
    /// A rate-limit response.
    pub open spec fn is_rate_limited(self) -> bool {
        self matches RpcOutcome::HttpError { status } && status == TOO_MANY_REQUESTS
    }
}

/// What follows attempt number `attempt` (counted from one) of `call` that
/// ended in `outcome`. Success ends the retry at once. A rate-limit response
/// is retried after the fixed delay, any other failure immediately; after the
/// last attempt allowed the first gives `RateLimited`, the second `RpcFailed`.
pub open spec fn retry_step<T>(call: RpcCall, attempt: u32, outcome: RpcOutcome<T>) -> RetryStep<T> {
    match outcome {
        RpcOutcome::Success(value) => RetryStep::Done(value),
        _ => if outcome.is_rate_limited() {
            if attempt < MAX_RETRIES {
                RetryStep::Retry { attempt: (attempt + 1) as u32, delay_secs: RETRY_DELAY_SECS }
            } else {
                RetryStep::GiveUp(CollectError::RateLimited { attempts: MAX_RETRIES })
            }
        } else {
            if attempt < MAX_RETRIES {
                RetryStep::Retry { attempt: (attempt + 1) as u32, delay_secs: 0 }
            } else {
                RetryStep::GiveUp(CollectError::RpcFailed { call, attempts: MAX_RETRIES })
            }
        },
    }
}

/// How a read call ends when its attempts end in `outcomes`, one after the
/// other, starting with attempt number `attempt`: the number of attempts
/// made, and the result, if the outcomes given suffice to reach one.
pub struct RetryRun<T> {
    pub calls: nat,
    pub result: Option<Result<T, CollectError>>,
}

pub open spec fn retry_run<T>(call: RpcCall, attempt: u32, outcomes: Seq<RpcOutcome<T>>) -> RetryRun<T>
    decreases outcomes.len(),
{
    if outcomes.len() == 0 {
        RetryRun { calls: 0, result: None }
    } else {
        match retry_step(call, attempt, outcomes[0]) {
            RetryStep::Done(value) => RetryRun { calls: 1, result: Some(Ok(value)) },
            RetryStep::GiveUp(error) => RetryRun { calls: 1, result: Some(Err(error)) },
            RetryStep::Retry { attempt: next, .. } => {
                let rest = retry_run(call, next, outcomes.drop_first());
                RetryRun { calls: rest.calls + 1, result: rest.result }
            },
        }
    }
}

/// Decides what follows one attempt of a read call.
fn decide<T>(call: RpcCall, attempt: u32, outcome: RpcOutcome<T>) -> (step: RetryStep<T>)
    ensures
        step == retry_step(call, attempt, outcome),
{
    match outcome {
        RpcOutcome::Success(value) => RetryStep::Done(value),
        RpcOutcome::HttpError { status } => {
            if status == TOO_MANY_REQUESTS {
                if attempt < MAX_RETRIES {
                    RetryStep::Retry { attempt: attempt + 1, delay_secs: RETRY_DELAY_SECS }
                } else {
                    RetryStep::GiveUp(CollectError::RateLimited { attempts: MAX_RETRIES })
                }
            } else if attempt < MAX_RETRIES {
                RetryStep::Retry { attempt: attempt + 1, delay_secs: 0 }
            } else {
                RetryStep::GiveUp(CollectError::RpcFailed { call, attempts: MAX_RETRIES })
            }
        },
        RpcOutcome::Failed => {
            if attempt < MAX_RETRIES {
                RetryStep::Retry { attempt: attempt + 1, delay_secs: 0 }
            } else {
                RetryStep::GiveUp(CollectError::RpcFailed { call, attempts: MAX_RETRIES })
            }
        },
    }
}

/// What follows attempt number `attempt` of reading the balance of
/// `eth_address`, which ended in `outcome`. The balance is 32 bytes,
/// big-endian.
pub fn fetch_balance_with_retry(
    eth_address: [u8; 20],
    attempt: u32,
    outcome: RpcOutcome<[u8; 32]>,
) -> (step: RetryStep<[u8; 32]>)
    ensures
        step == retry_step(RpcCall::Balance { address: eth_address }, attempt, outcome),
{
    decide(RpcCall::Balance { address: eth_address }, attempt, outcome)
}

/// What follows attempt number `attempt` of reading the chain id, which
/// ended in `outcome`.
pub fn get_chain_id_with_retry(attempt: u32, outcome: RpcOutcome<u64>) -> (step: RetryStep<u64>)
    ensures
        step == retry_step(RpcCall::ChainId, attempt, outcome),
{
    decide(RpcCall::ChainId, attempt, outcome)
}

/// However the attempts end, a read call is attempted at most `MAX_RETRIES`
/// times, and once that many attempts are made its result is known.
pub proof fn lemma_retry_is_bounded<T>(call: RpcCall, attempt: u32, outcomes: Seq<RpcOutcome<T>>)
    requires
        1 <= attempt <= MAX_RETRIES,
    ensures
        retry_run(call, attempt, outcomes).calls <= MAX_RETRIES - attempt + 1,
        retry_run(call, attempt, outcomes).calls <= outcomes.len(),
        outcomes.len() >= MAX_RETRIES - attempt + 1 ==> retry_run(
            call,
            attempt,
            outcomes,
        ).result.is_some(),
    decreases outcomes.len(),
{
    if outcomes.len() > 0 {
        match retry_step(call, attempt, outcomes[0]) {
            RetryStep::Retry { attempt: next, .. } => {
                lemma_retry_is_bounded(call, next, outcomes.drop_first());
            },
            _ => {},
        }
    }
}

/// Against an endpoint that answers every attempt with a rate-limit
/// response, a read call makes exactly the attempts that are left, then
/// fails with `RateLimited`; outcomes beyond that are never asked for.
pub proof fn lemma_rate_limited_run<T>(call: RpcCall, attempt: u32, outcomes: Seq<RpcOutcome<T>>)
    requires
        1 <= attempt <= MAX_RETRIES,
        outcomes.len() >= MAX_RETRIES - attempt + 1,
        forall|i: int|
            0 <= i < MAX_RETRIES - attempt + 1 ==> (#[trigger] outcomes[i]).is_rate_limited(),
    ensures
        retry_run(call, attempt, outcomes) == (RetryRun::<T> {
            calls: (MAX_RETRIES - attempt + 1) as nat,
            result: Some(Err(CollectError::RateLimited { attempts: MAX_RETRIES })),
        }),
    decreases outcomes.len(),
{
    assert(outcomes[0].is_rate_limited());
    if attempt < MAX_RETRIES {
        let rest = outcomes.drop_first();
        assert forall|i: int| 0 <= i < MAX_RETRIES - (attempt + 1) + 1 implies (
        #[trigger] rest[i]).is_rate_limited() by {
            assert(rest[i] == outcomes[i + 1]);
        }
        lemma_rate_limited_run(call, (attempt + 1) as u32, rest);
    }
}

/// The retry ceiling: when every attempt is answered with a rate-limit
/// response, a read call that starts at its first attempt fails after
/// exactly `MAX_RETRIES` attempts with `RateLimited`, and makes none after.
pub proof fn lemma_retry_ceiling<T>(call: RpcCall, outcomes: Seq<RpcOutcome<T>>)
    requires
        outcomes.len() >= MAX_RETRIES,
        forall|i: int| 0 <= i < outcomes.len() ==> (#[trigger] outcomes[i]).is_rate_limited(),
    ensures
        retry_run(call, 1, outcomes).calls == MAX_RETRIES,
        retry_run(call, 1, outcomes).result == Some(
            Err::<T, CollectError>(CollectError::RateLimited { attempts: MAX_RETRIES }),
        ),
{
    lemma_rate_limited_run(call, 1, outcomes);
}

} // verus!
