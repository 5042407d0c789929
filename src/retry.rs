use vstd::prelude::*;

use crate::error::{
    is_scope_disposed_spec, is_terminal_spec, should_try_recover_spec, ErrorKind, RecoverableError,
};

verus! {

/// How the delay between retries grows.
#[derive(Debug, Clone, Copy, PartialEq, Eq, Structural)]
pub enum RetryMode {
    /// Every retry waits the same base delay.
    Fixed,
    /// The delay doubles with each failed attempt.
    Exponential,
}

/// Options of a retry policy. All durations are in milliseconds.
#[derive(Debug, Clone, Copy, PartialEq, Eq, Structural)]
pub struct RetryOptions {
    pub mode: RetryMode,
    pub max_retries: u32,
    pub delay_ms: u64,
    pub max_delay_ms: u64,
    pub try_timeout_ms: u64,
}

/// Smallest jitter factor, in thousandths (ninety percent).
pub const JITTER_MIN_PERMILLE: u64 = 900;

/// Largest jitter factor, in thousandths (one hundred and ten percent).
pub const JITTER_MAX_PERMILLE: u64 = 1100;

/// `2^n`.
pub open spec fn pow2(n: nat) -> int
    decreases n,
{
    if n == 0 {
        1
    } else {
        2 * pow2((n - 1) as nat)
    }
}

/// The smaller of two integers.
pub open spec fn min_int(a: int, b: int) -> int {
    if a <= b {
        a
    } else {
        b
    }
}

/// `min(base * 2^(attempt - 1), max)`; the first attempt uses the base delay.
pub open spec fn exponential_delay(base: nat, max: nat, attempt: nat) -> int {
    let exp: nat = if attempt == 0 {
        0
    } else {
        (attempt - 1) as nat
    };
    min_int(base * pow2(exp), max as int)
}

/// A delay scaled by a jitter factor given in thousandths, saturated to `u64`.
pub open spec fn jittered(delay: int, jitter_permille: int) -> int {
    min_int(delay * jitter_permille / 1000, u64::MAX as int)
}

/// The delay before the next try after `attempt` failed attempts, or `None` when
/// the operation must not be retried.
pub open spec fn retry_delay_spec(
    o: RetryOptions,
    err: ErrorKind,
    attempt: nat,
    jitter_permille: int,
) -> Option<int> {
    if attempt >= o.max_retries || is_terminal_spec(err) {
        None
    } else {
        match o.mode {
            RetryMode::Fixed => Some(min_int(o.delay_ms as int, o.max_delay_ms as int)),
            RetryMode::Exponential => Some(
                jittered(
                    exponential_delay(o.delay_ms as nat, o.max_delay_ms as nat, attempt),
                    jitter_permille,
                ),
            ),
        }
    }
}

/// A jitter factor within ten percent of one.
pub open spec fn valid_jitter(j: u64) -> bool {
    JITTER_MIN_PERMILLE <= j <= JITTER_MAX_PERMILLE
}

proof fn lemma_pow2_positive(n: nat)
    ensures
        pow2(n) >= 1,
    decreases n,
{
    if n > 0 {
        lemma_pow2_positive((n - 1) as nat);
    }
}

impl RetryOptions {
    /// The default policy.
    pub open spec fn new_spec() -> RetryOptions {
        RetryOptions {
            mode: RetryMode::Exponential,
            max_retries: 3,
            delay_ms: 800,
            max_delay_ms: 60_000,
            try_timeout_ms: 60_000,
        }
    }

    /// The default policy: exponential, three retries, 800 ms base delay,
    /// one minute maximum delay and one minute per try.
    pub fn new() -> (r: RetryOptions)
        ensures
            r == RetryOptions::new_spec(),
    {
        RetryOptions {
            mode: RetryMode::Exponential,
            max_retries: 3,
            delay_ms: 800,
            max_delay_ms: 60_000,
            try_timeout_ms: 60_000,
        }
    }

    /// The timeout of one try; the same for every attempt.
    pub fn calculate_try_timeout(&self, attempt: u32) -> (r: u64)
        ensures
            r == self.try_timeout_ms,
    {
        self.try_timeout_ms
    }

    /// `min(delay_ms * 2^(attempt - 1), max_delay_ms)`, computed without overflow.
    fn capped_exponential(&self, attempt: u32) -> (r: u64)
        ensures
            r as int == exponential_delay(self.delay_ms as nat, self.max_delay_ms as nat, attempt as nat),
    {
        let base = self.delay_ms;
        let max = self.max_delay_ms;
        let exp: u32 = if attempt == 0 {
            0
        } else {
            attempt - 1
        };
        let mut d: u64 = if base <= max {
            base
        } else {
            max
        };
        let mut i: u32 = 0;
        proof {
            lemma_pow2_positive(0);
        }
        while i < exp
            invariant
                i <= exp,
                exp == (if attempt == 0 { 0 } else { attempt - 1 }),
                d as int == min_int(base * pow2(i as nat), max as int),
            decreases exp - i,
        {
            if d == 0 || d >= max {
                proof {
                    self.lemma_saturated(base as nat, max as nat, i as nat, exp as nat);
                }
                i = exp;
            } else {
                proof {
                    lemma_pow2_positive(i as nat);
                    assert(pow2((i + 1) as nat) == 2 * pow2(i as nat));
                    assert(base * pow2((i + 1) as nat) == 2 * (base * pow2(i as nat))) by (nonlinear_arith)
                        requires pow2((i + 1) as nat) == 2 * pow2(i as nat);
                }
                if d > max / 2 {
                    d = max;
                } else {
                    d = d * 2;
                }
                i = i + 1;
            }
        }
        d
    }

    /// Once the capped delay is zero or has reached the cap, further doubling keeps it there.
    proof fn lemma_saturated(&self, base: nat, max: nat, i: nat, n: nat)
        requires
            i <= n,
            min_int(base * pow2(i), max as int) == 0 || min_int(base * pow2(i), max as int) >= max,
        ensures
            min_int(base * pow2(n), max as int) == min_int(base * pow2(i), max as int),
        decreases n - i,
    {
        if i < n {
            lemma_pow2_positive(i);
            assert(pow2(i + 1) == 2 * pow2(i));
            assert(base * pow2(i + 1) == 2 * (base * pow2(i))) by (nonlinear_arith)
                requires pow2(i + 1) == 2 * pow2(i);
            assert(base * pow2(i) >= 0) by (nonlinear_arith)
                requires pow2(i) >= 1;
            self.lemma_saturated(base, max, i + 1, n);
        }
    }

    /// The delay before the next try after `attempt` failed attempts ended with
    /// `err`, or `None` when the error is terminal or the retries are used up.
    /// `jitter_permille` is the random factor, in thousandths, applied to
    /// exponential delays.
    pub fn calculate_retry_delay(&self, err: &ErrorKind, attempt: u32, jitter_permille: u64) -> (r:
        Option<u64>)
        requires
            valid_jitter(jitter_permille),
        ensures
            r matches Some(d) ==> retry_delay_spec(*self, *err, attempt as nat, jitter_permille as int)
                == Some(d as int),
            r is None ==> retry_delay_spec(*self, *err, attempt as nat, jitter_permille as int) is None,
    {
        if attempt >= self.max_retries || err.is_terminal() {
            return None;
        }
        match self.mode {
            RetryMode::Fixed => {
                if self.delay_ms <= self.max_delay_ms {
                    Some(self.delay_ms)
                } else {
                    Some(self.max_delay_ms)
                }
            },
            RetryMode::Exponential => {
                let d = self.capped_exponential(attempt);
                proof {
                    assert((d as u128) * (jitter_permille as u128) <= (u64::MAX as u128) * 1100) by (nonlinear_arith)
                        requires d <= u64::MAX, jitter_permille <= 1100;
                }
                let scaled: u128 = (d as u128) * (jitter_permille as u128) / 1000;
                if scaled > u64::MAX as u128 {
                    Some(u64::MAX)
                } else {
                    Some(scaled as u64)
                }
            },
        }
    }
}

/// Number of attempts an operation makes when attempt `i + 1` fails with
/// `errs[i]` and draws jitter `jitters[i]`, given that `n` attempts have
/// already failed and been retried.
pub open spec fn attempts_when_failing(
    o: RetryOptions,
    errs: Seq<ErrorKind>,
    jitters: Seq<u64>,
    n: nat,
) -> nat
    decreases errs.len() - n,
{
    if n >= errs.len() {
        n
    } else if retry_delay_spec(o, errs[n as int], n + 1, jitters[n as int] as int) is None {
        n + 1
    } else {
        attempts_when_failing(o, errs, jitters, n + 1)
    }
}

/// Retry bound: with `max_retries = k`, an operation whose every attempt fails
/// makes at most `k + 1` attempts, and the error of the last attempt is the one
/// that stops the loop.
pub proof fn lemma_retry_bound(o: RetryOptions, errs: Seq<ErrorKind>, jitters: Seq<u64>)
    requires
        errs.len() == jitters.len(),
        errs.len() >= o.max_retries + 1,
    ensures
        1 <= attempts_when_failing(o, errs, jitters, 0) <= o.max_retries + 1,
        ({
            let a = attempts_when_failing(o, errs, jitters, 0);
            retry_delay_spec(o, errs[a - 1], a, jitters[a - 1] as int) is None
        }),
{
    lemma_retry_bound_from(o, errs, jitters, 0);
}

proof fn lemma_retry_bound_from(o: RetryOptions, errs: Seq<ErrorKind>, jitters: Seq<u64>, n: nat)
    requires
        errs.len() == jitters.len(),
        errs.len() >= o.max_retries + 1,
        n <= o.max_retries,
    ensures
        n + 1 <= attempts_when_failing(o, errs, jitters, n) <= o.max_retries + 1,
        ({
            let a = attempts_when_failing(o, errs, jitters, n);
            retry_delay_spec(o, errs[a - 1], a, jitters[a - 1] as int) is None
        }),
    decreases o.max_retries - n,
{
    if retry_delay_spec(o, errs[n as int], n + 1, jitters[n as int] as int) is None {
    } else {
        lemma_retry_bound_from(o, errs, jitters, n + 1);
    }
}

/// What the retry loop does after a failed attempt.
#[derive(Debug, Clone, Copy, PartialEq, Eq, Structural)]
pub enum RetryDecision {
    /// Sleep for `delay_ms`, recover the transport first if `recover`, then try again.
    Retry { delay_ms: u64, recover: bool },
    /// Stop and report the last error.
    GiveUp,
}

/// State of one retried operation: how many attempts failed, whether the
/// transport must be recovered before the next try, and the timeout of that try.
pub struct RetryState {
    pub options: RetryOptions,
    pub failed_attempts: u32,
    pub should_try_recover: bool,
    pub try_timeout_ms: u64,
    pub gave_up: bool,
}

impl RetryState {
    /// While the loop is running, every failed attempt was followed by a retry,
    /// so fewer attempts failed than retries are allowed.
    pub open spec fn wf(&self) -> bool {
        !self.gave_up ==> (self.failed_attempts == 0 || self.failed_attempts < self.options.max_retries)
    }

    /// State before the first attempt.
    pub fn new(options: RetryOptions) -> (r: RetryState)
        ensures
            r.wf(),
            r.options == options,
            r.failed_attempts == 0,
            !r.should_try_recover,
            !r.gave_up,
            r.try_timeout_ms == options.try_timeout_ms,
    {
        let t = options.calculate_try_timeout(0);
        RetryState { options, failed_attempts: 0, should_try_recover: false, try_timeout_ms: t, gave_up: false }
    }

    /// Records a failed attempt and decides what comes next.
    pub fn on_failure(&mut self, err: &ErrorKind, jitter_permille: u64) -> (r: RetryDecision)
        requires
            old(self).wf(),
            !old(self).gave_up,
            valid_jitter(jitter_permille),
        ensures
            final(self).wf(),
            final(self).options == old(self).options,
            final(self).failed_attempts == old(self).failed_attempts + 1,
            final(self).should_try_recover == should_try_recover_spec(*err),
            final(self).try_timeout_ms == old(self).options.try_timeout_ms,
            match retry_delay_spec(
                old(self).options,
                *err,
                final(self).failed_attempts as nat,
                jitter_permille as int,
            ) {
                Some(d) => r == (RetryDecision::Retry {
                    delay_ms: d as u64,
                    recover: should_try_recover_spec(*err),
                }) && !final(self).gave_up,
                None => r == RetryDecision::GiveUp && final(self).gave_up,
            },
    {
        self.failed_attempts = self.failed_attempts + 1;
        self.should_try_recover = err.should_try_recover();
        let delay = self.options.calculate_retry_delay(err, self.failed_attempts, jitter_permille);
        match delay {
            Some(d) => {
                self.try_timeout_ms = self.options.calculate_try_timeout(self.failed_attempts);
                RetryDecision::Retry { delay_ms: d, recover: self.should_try_recover }
            },
            None => {
                self.gave_up = true;
                self.try_timeout_ms = self.options.calculate_try_timeout(self.failed_attempts);
                RetryDecision::GiveUp
            },
        }
    }
    /// Records a failed receive. An error saying that the connection scope is
    /// disposed ends the loop at once and is not counted as an attempt; any
    /// other error is handled as by `on_failure`.
    pub fn on_receive_failure(&mut self, err: &ErrorKind, jitter_permille: u64) -> (r: RetryDecision)
        requires
            old(self).wf(),
            !old(self).gave_up,
            valid_jitter(jitter_permille),
        ensures
            final(self).wf(),
            final(self).options == old(self).options,
            is_scope_disposed_spec(*err) ==> r == RetryDecision::GiveUp && final(self).gave_up
                && final(self).failed_attempts == old(self).failed_attempts,
            !is_scope_disposed_spec(*err) ==> {
                &&& final(self).failed_attempts == old(self).failed_attempts + 1
                &&& final(self).should_try_recover == should_try_recover_spec(*err)
                &&& match retry_delay_spec(
                    old(self).options,
                    *err,
                    final(self).failed_attempts as nat,
                    jitter_permille as int,
                ) {
                    Some(d) => r == (RetryDecision::Retry {
                        delay_ms: d as u64,
                        recover: should_try_recover_spec(*err),
                    }) && !final(self).gave_up,
                    None => r == RetryDecision::GiveUp && final(self).gave_up,
                }
            },
    {
        if err.is_scope_disposed() {
            self.gave_up = true;
            return RetryDecision::GiveUp;
        }
        self.on_failure(err, jitter_permille)
    }
}

/// The outcome of recovering the transport before a retried receive: only a
/// disposed scope stops the receive; any other recovery error is left for the
/// receive itself to surface.
pub fn recovery_outcome(recovered: Result<(), ErrorKind>) -> (r: Result<(), ErrorKind>)
    ensures
        (recovered matches Err(e) && is_scope_disposed_spec(e)) ==> r == recovered,
        !(recovered matches Err(e) && is_scope_disposed_spec(e)) ==> r is Ok,
{
    match recovered {
        Err(e) => {
            if e.is_scope_disposed() {
                Err(e)
            } else {
                Ok(())
            }
        },
        Ok(()) => Ok(()),
    }
}

} // verus!
