//! Bounded exponential backoff for outbound requests, and the decision of
//! what to do after each attempt.
use vstd::prelude::*;

verus! {

/// A retry policy; delays are whole milliseconds.
#[derive(Debug, Clone, Copy, PartialEq, Eq, Structural)]
pub struct RetryConfig {
    pub max_attempts: u32,
    pub base_delay_ms: u64,
    pub max_delay_ms: u64,
}

/// Whether a request may be repeated without side effects.
#[derive(Debug, Clone, Copy, PartialEq, Eq, Structural)]
pub enum RetryIdempotency {
    Idempotent,
    AtLeastOnce,
}

impl RetryIdempotency {
    /// The log label of this idempotency class.
    pub fn as_str(self) -> (r: &'static str)
        ensures
            r@ == (match self {
                RetryIdempotency::Idempotent => "idempotent"@,
                RetryIdempotency::AtLeastOnce => "at_least_once"@,
            }),
    {
        match self {
            RetryIdempotency::Idempotent => "idempotent",
            RetryIdempotency::AtLeastOnce => "at_least_once",
        }
    }
}

/// What the dependency and operation of a retried request are.
#[derive(Debug, Clone, Copy)]
pub struct RetryContext {
    pub dependency: &'static str,
    pub operation: &'static str,
    pub idempotency: RetryIdempotency,
}

/// The backoff exponent of an attempt: `min(attempt - 1, 31)`, never below 0.
pub open spec fn backoff_exponent(attempt: u32) -> nat {
    if attempt == 0 {
        0
    } else if attempt - 1 > 31 {
        31
    } else {
        (attempt - 1) as nat
    }
}

/// The delay before retrying after `attempt`: the base delay doubled per
/// earlier attempt (saturating at `u64::MAX`), capped at the maximum delay.
pub open spec fn backoff_delay(config: RetryConfig, attempt: u32) -> nat {
    let raw: nat = (config.base_delay_ms * vstd::arithmetic::power2::pow2(backoff_exponent(attempt))) as nat;
    let saturated = if raw > u64::MAX {
        u64::MAX as nat
    } else {
        raw
    };
    if saturated < config.max_delay_ms {
        saturated
    } else {
        config.max_delay_ms as nat
    }
}

impl RetryConfig {
    /// The delay in milliseconds to wait after a failed `attempt`.
    pub fn delay_for_attempt(self, attempt: u32) -> (r: u64)
        ensures
            r == backoff_delay(self, attempt),
    {
        let exponent: u32 = if attempt.saturating_sub(1) < 31 {
            attempt.saturating_sub(1)
        } else {
            31
        };
        proof {
            vstd::bits::lemma_u64_pow2_no_overflow(exponent as nat);
            vstd::bits::lemma_u64_shl_is_mul(1u64, exponent as u64);
        }
        let multiplier: u64 = 1u64 << (exponent as u64);
        let delay = match self.base_delay_ms.checked_mul(multiplier) {
            Some(v) => v,
            None => u64::MAX,
        };
        if delay < self.max_delay_ms {
            delay
        } else {
            self.max_delay_ms
        }
    }

    /// The number of attempts actually made: at least one.
    pub fn effective_max_attempts(self) -> (r: u32)
        ensures
            r == if self.max_attempts == 0 {
                1
            } else {
                self.max_attempts
            },
    {
        if self.max_attempts == 0 {
            1
        } else {
            self.max_attempts
        }
    }
}

/// Later attempts never wait less, and no wait exceeds the maximum delay.
pub proof fn lemma_backoff_monotone(config: RetryConfig, a: u32, b: u32)
    requires
        a <= b,
    ensures
        backoff_delay(config, a) <= backoff_delay(config, b),
        backoff_delay(config, b) <= config.max_delay_ms,
{
    let ea = backoff_exponent(a);
    let eb = backoff_exponent(b);
    assert(ea <= eb);
    vstd::arithmetic::power2::lemma_pow2_pos(ea);
    if ea < eb {
        vstd::arithmetic::power2::lemma_pow2_strictly_increases(ea, eb);
    }
    vstd::arithmetic::mul::lemma_mul_inequality(
        vstd::arithmetic::power2::pow2(ea) as int,
        vstd::arithmetic::power2::pow2(eb) as int,
        config.base_delay_ms as int,
    );
    vstd::arithmetic::mul::lemma_mul_is_commutative(
        config.base_delay_ms as int,
        vstd::arithmetic::power2::pow2(ea) as int,
    );
    vstd::arithmetic::mul::lemma_mul_is_commutative(
        config.base_delay_ms as int,
        vstd::arithmetic::power2::pow2(eb) as int,
    );
}

/// Whether an HTTP status is worth retrying: 408, 429, or any 5xx.
pub open spec fn retryable_status(status: u16) -> bool {
    status == 408 || status == 429 || (500 <= status && status <= 599)
}

/// Whether an HTTP status is transient: request timeout, too many requests,
/// or a server error.
pub fn is_retryable_status(status: u16) -> (r: bool)
    ensures
        r == retryable_status(status),
        500 <= status <= 599 ==> r,
        status == 408 || status == 429 ==> r,
        !(500 <= status <= 599) && status != 408 && status != 429 ==> !r,
{
    proof {
        lemma_retryable_statuses(status);
    }
    status == 408 || status == 429 || (500 <= status && status <= 599)
}

/// The statuses worth retrying are exactly request timeout (408), too many
/// requests (429) and every server error (500 through 599); every other
/// status is handed back at once.
pub proof fn lemma_retryable_statuses(status: u16)
    ensures
        500 <= status <= 599 ==> retryable_status(status),
        status == 408 || status == 429 ==> retryable_status(status),
        !(500 <= status <= 599) && status != 408 && status != 429 ==> !retryable_status(status),
{
}

/// What came back from one attempt.
#[derive(Debug, Clone, Copy, PartialEq, Eq, Structural)]
pub enum AttemptOutcome {
    /// A response with this HTTP status.
    Response { status: u16 },
    /// No response; `transient` tells whether the failure may pass.
    Failure { transient: bool },
}

/// What to do after an attempt.
#[derive(Debug, Clone, Copy, PartialEq, Eq, Structural)]
pub enum RetryAction {
    /// Hand the outcome to the caller.
    Finish,
    /// Wait, then make attempt `next_attempt`.
    RetryAfter { delay_ms: u64, next_attempt: u32 },
}

/// Whether an outcome may pass on a later attempt: a retryable status, or a
/// failure marked transient.
pub open spec fn transient_outcome(outcome: AttemptOutcome) -> bool {
    match outcome {
        AttemptOutcome::Response { status } => retryable_status(status),
        AttemptOutcome::Failure { transient } => transient,
    }
}

/// The decision after `attempt` came back with `outcome`.
pub open spec fn retry_decision(
    config: RetryConfig,
    attempt: u32,
    outcome: AttemptOutcome,
    repeatable: bool,
) -> RetryAction {
    let max = if config.max_attempts == 0 {
        1
    } else {
        config.max_attempts
    };
    if repeatable && attempt < max && transient_outcome(outcome) {
        RetryAction::RetryAfter {
            delay_ms: backoff_delay(config, attempt) as u64,
            next_attempt: (attempt + 1) as u32,
        }
    } else {
        RetryAction::Finish
    }
}

/// Decides whether to retry after `attempt` (counted from 1). A transient
/// outcome is retried after the backoff delay while attempts remain and the
/// request can be sent again (`repeatable`); anything else is handed back.
pub fn next_retry_action(
    config: RetryConfig,
    attempt: u32,
    outcome: AttemptOutcome,
    repeatable: bool,
) -> (r: RetryAction)
    ensures
        r == retry_decision(config, attempt, outcome, repeatable),
{
    let max = config.effective_max_attempts();
    let transient = match outcome {
        AttemptOutcome::Response { status } => is_retryable_status(status),
        AttemptOutcome::Failure { transient } => transient,
    };
    if repeatable && attempt < max && transient {
        RetryAction::RetryAfter {
            delay_ms: config.delay_for_attempt(attempt),
            next_attempt: attempt + 1,
        }
    } else {
        RetryAction::Finish
    }
}

/// No request is attempted more often than the policy allows: from the last
/// allowed attempt the decision is always to finish, and a retry always moves
/// to the next attempt.
pub proof fn lemma_retry_bounded(
    config: RetryConfig,
    attempt: u32,
    outcome: AttemptOutcome,
    repeatable: bool,
)
    requires
        1 <= attempt,
    ensures
        attempt >= config.max_attempts ==> retry_decision(config, attempt, outcome, repeatable)
            == RetryAction::Finish,
        retry_decision(config, attempt, outcome, repeatable) matches RetryAction::RetryAfter {
            next_attempt,
            ..
        } ==> next_attempt == attempt + 1 && next_attempt <= config.max_attempts,
{
}

/// The number of sends a retried request makes from `attempt` on, when its
/// k-th send (counted from 1) comes back with `outcomes[k - 1]`; a run that
/// would outlast the outcomes given stops at the last of them.
pub open spec fn sends_from(
    config: RetryConfig,
    repeatable: bool,
    outcomes: Seq<AttemptOutcome>,
    attempt: int,
) -> int
    decreases outcomes.len() - attempt,
{
    if attempt < 1 || attempt >= outcomes.len() || attempt > u32::MAX {
        attempt
    } else if retry_decision(config, attempt as u32, outcomes[attempt - 1], repeatable) is Finish {
        attempt
    } else {
        sends_from(config, repeatable, outcomes, attempt + 1)
    }
}

/// The number of sends a whole run makes, starting from the first attempt.
pub open spec fn sends_made(config: RetryConfig, repeatable: bool, outcomes: Seq<AttemptOutcome>) -> int {
    sends_from(config, repeatable, outcomes, 1)
}

/// The attempts a policy allows: its maximum, and at least one.
pub open spec fn allowed_attempts(config: RetryConfig) -> int {
    if config.max_attempts == 0 {
        1
    } else {
        config.max_attempts as int
    }
}

proof fn lemma_sends_from(
    config: RetryConfig,
    repeatable: bool,
    outcomes: Seq<AttemptOutcome>,
    attempt: int,
)
    requires
        1 <= attempt <= outcomes.len(),
        attempt <= allowed_attempts(config),
    ensures
        ({
            let n = sends_from(config, repeatable, outcomes, attempt);
            &&& attempt <= n <= outcomes.len()
            &&& n <= allowed_attempts(config)
            &&& forall|k: int|
                attempt <= k < n ==> {
                    &&& repeatable
                    &&& transient_outcome(#[trigger] outcomes[k - 1])
                    &&& retry_decision(config, k as u32, outcomes[k - 1], repeatable)
                        == RetryAction::RetryAfter {
                        delay_ms: backoff_delay(config, k as u32) as u64,
                        next_attempt: (k + 1) as u32,
                    }
                }
            &&& n < outcomes.len() ==> retry_decision(
                config,
                n as u32,
                outcomes[n - 1],
                repeatable,
            ) is Finish
        }),
    decreases outcomes.len() - attempt,
{
    if attempt < outcomes.len() && retry_decision(
        config,
        attempt as u32,
        outcomes[attempt - 1],
        repeatable,
    ) !is Finish {
        lemma_sends_from(config, repeatable, outcomes, attempt + 1);
    }
}

/// A whole retried run, whatever each send comes back with: it makes at
/// least one send and at most as many as the policy allows (its maximum, at
/// least one); every send but the last followed a transient outcome of a
/// repeatable request and waited the backoff delay of its attempt; and, when
/// outcomes remain, the last send is the one after which the decision is to
/// finish.
pub proof fn lemma_retry_run(config: RetryConfig, repeatable: bool, outcomes: Seq<AttemptOutcome>)
    requires
        outcomes.len() >= 1,
    ensures
        1 <= sends_made(config, repeatable, outcomes) <= allowed_attempts(config),
        sends_made(config, repeatable, outcomes) <= outcomes.len(),
        forall|k: int|
            1 <= k < sends_made(config, repeatable, outcomes) ==> {
                &&& repeatable
                &&& transient_outcome(#[trigger] outcomes[k - 1])
                &&& retry_decision(config, k as u32, outcomes[k - 1], repeatable)
                    == RetryAction::RetryAfter {
                    delay_ms: backoff_delay(config, k as u32) as u64,
                    next_attempt: (k + 1) as u32,
                }
            },
        sends_made(config, repeatable, outcomes) < outcomes.len() ==> retry_decision(
            config,
            sends_made(config, repeatable, outcomes) as u32,
            outcomes[sends_made(config, repeatable, outcomes) - 1],
            repeatable,
        ) is Finish,
{
    lemma_sends_from(config, repeatable, outcomes, 1);
}

} // verus!
