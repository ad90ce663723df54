use vstd::prelude::*;

verus! {

/// How a failed invocation trapped.
#[derive(Debug, Clone, Copy, PartialEq, Eq, Structural)]
pub enum TrapType {
    /// The program exited on purpose.
    Exit,
    /// The worker ran out of a resource (memory, fuel, a limit of its account).
    ResourceExhausted,
    /// A host function failed.
    HostError,
    /// A trap that no retry can mend.
    Unrecoverable,
}

/// Why a failure is not retried.
#[derive(Debug, Clone, Copy, PartialEq, Eq, Structural)]
pub enum FailReason {
    Exited,
    RetriesExhausted,
    Unrecoverable,
}

/// What to do after an invocation failed.
#[derive(Debug, Clone, Copy, PartialEq, Eq, Structural)]
pub enum RetryDecision {
    RetryImmediately,
    /// Retry after the given number of milliseconds.
    RetryAfterDelay(u64),
    Fail(FailReason),
}

/// The retry policy of a worker executor.
#[derive(Debug, Clone, Copy, PartialEq, Eq, Structural)]
pub struct RetryConfig {
    /// Attempts granted to a worker that exhausted a resource.
    pub max_attempts: u32,
    /// Attempts granted to a worker whose host call failed.
    pub host_error_attempts: u32,
    pub min_delay_ms: u64,
    pub max_delay_ms: u64,
    /// Factor by which the delay grows from one attempt to the next.
    pub multiplier: u64,
}

pub open spec fn min_int(a: int, b: int) -> int {
    if a <= b { a } else { b }
}

/// The delay before the retry that follows `attempt` earlier failures: it starts at the
/// minimum, grows by the multiplier, and never passes the maximum.
pub open spec fn backoff(config: RetryConfig, attempt: nat) -> int
    decreases attempt,
{
    if attempt == 0 {
        min_int(config.min_delay_ms as int, config.max_delay_ms as int)
    } else {
        min_int(backoff(config, (attempt - 1) as nat) * config.multiplier, config.max_delay_ms as int)
    }
}

pub proof fn lemma_backoff_bounds(config: RetryConfig, attempt: nat)
    ensures
        0 <= backoff(config, attempt) <= config.max_delay_ms,
    decreases attempt,
{
    if attempt > 0 {
        lemma_backoff_bounds(config, (attempt - 1) as nat);
        let prev = backoff(config, (attempt - 1) as nat);
        assert(prev * config.multiplier >= 0) by (nonlinear_arith)
            requires
                prev >= 0,
        ;
    }
}

/// The decision for a trap, given how many failures came right before it.
pub open spec fn retry_decision(config: RetryConfig, trap: TrapType, retry_count: nat) -> RetryDecision {
    match trap {
        TrapType::Exit => RetryDecision::Fail(FailReason::Exited),
        TrapType::Unrecoverable => RetryDecision::Fail(FailReason::Unrecoverable),
        TrapType::ResourceExhausted => if retry_count < config.max_attempts {
            RetryDecision::RetryAfterDelay(backoff(config, retry_count) as u64)
        } else {
            RetryDecision::Fail(FailReason::RetriesExhausted)
        },
        TrapType::HostError => if retry_count < config.host_error_attempts {
            RetryDecision::RetryImmediately
        } else {
            RetryDecision::Fail(FailReason::RetriesExhausted)
        },
    }
}

/// The delay before the retry that follows `attempt` earlier failures.
pub fn backoff_delay(config: &RetryConfig, attempt: u32) -> (r: u64)
    ensures
        r as int == backoff(*config, attempt as nat),
{
    let mut delay: u64 = if config.min_delay_ms <= config.max_delay_ms {
        config.min_delay_ms
    } else {
        config.max_delay_ms
    };
    let mut i: u32 = 0;
    while i < attempt
        invariant
            i <= attempt,
            delay as int == backoff(*config, i as nat),
        decreases attempt - i,
    {
        proof {
            lemma_backoff_bounds(*config, i as nat);
        }
        let d: u128 = delay as u128;
        let m: u128 = config.multiplier as u128;
        assert(d * m <= u64::MAX as u128 * u64::MAX as u128) by (nonlinear_arith)
            requires
                d <= u64::MAX,
                m <= u64::MAX,
        ;
        let grown: u128 = d * m;
        delay = if grown <= config.max_delay_ms as u128 {
            grown as u64
        } else {
            config.max_delay_ms
        };
        i = i + 1;
    }
    delay
}

/// Classifies a failure: exits and unrecoverable traps fail at once, an exhausted
/// resource is retried after a growing delay and a failed host call at once, each up to
/// its configured number of attempts.
pub fn decide_retry(config: &RetryConfig, trap: TrapType, retry_count: u32) -> (r: RetryDecision)
    ensures
        r == retry_decision(*config, trap, retry_count as nat),
{
    match trap {
        TrapType::Exit => RetryDecision::Fail(FailReason::Exited),
        TrapType::Unrecoverable => RetryDecision::Fail(FailReason::Unrecoverable),
        TrapType::ResourceExhausted => {
            if retry_count < config.max_attempts {
                RetryDecision::RetryAfterDelay(backoff_delay(config, retry_count))
            } else {
                RetryDecision::Fail(FailReason::RetriesExhausted)
            }
        },
        TrapType::HostError => {
            if retry_count < config.host_error_attempts {
                RetryDecision::RetryImmediately
            } else {
                RetryDecision::Fail(FailReason::RetriesExhausted)
            }
        },
    }
}

/// An exit is never retried, whatever came before it.
pub proof fn lemma_exit_never_retried(config: RetryConfig, retry_count: nat)
    ensures
        retry_decision(config, TrapType::Exit, retry_count) == RetryDecision::Fail(
            FailReason::Exited,
        ),
{
}

/// An exhausted resource is retried after a delay while attempts remain, and fails once
/// the configured number of failures has been reached.
pub proof fn lemma_exhaustion_bounded(config: RetryConfig, retry_count: nat)
    ensures
        retry_count < config.max_attempts ==> retry_decision(
            config,
            TrapType::ResourceExhausted,
            retry_count,
        ) is RetryAfterDelay,
        retry_count >= config.max_attempts ==> retry_decision(
            config,
            TrapType::ResourceExhausted,
            retry_count,
        ) == RetryDecision::Fail(FailReason::RetriesExhausted),
{
}

} // verus!
