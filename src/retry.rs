//! The retry policy: a bounded run of attempts at one tool, with full-jitter
//! exponential backoff between them.
use vstd::prelude::*;
use rand::Rng;
use crate::rpc::AttemptOutcome;

verus! {

pub open spec fn pow2(k: nat) -> nat
    decreases k,
{
    if k == 0 {
        1
    } else {
        2 * pow2((k - 1) as nat)
    }
}

/// The ceiling of the pause after attempt `k` (from 1), in milliseconds.
pub open spec fn backoff_ceiling(backoff_seconds: nat, k: nat) -> nat {
    backoff_seconds * 1000 * pow2((k - 1) as nat)
}

/// The sum of the ceilings of the pauses after attempts 1 to `m`.
pub open spec fn ceilings_sum(backoff_seconds: nat, m: nat) -> nat
    decreases m,
{
    if m == 0 {
        0
    } else {
        ceilings_sum(backoff_seconds, (m - 1) as nat) + backoff_ceiling(backoff_seconds, m)
    }
}

/// The most that pauses can add up to over `attempts` attempts: there is a
/// pause between consecutive attempts only.
pub open spec fn sleep_bound(backoff_seconds: nat, attempts: nat) -> nat {
    if attempts == 0 {
        0
    } else {
        ceilings_sum(backoff_seconds, (attempts - 1) as nat)
    }
}

/// What the caller does next for one tool.
pub enum RetryStep {
    /// Make an attempt at once.
    Attempt,
    /// Pause this many milliseconds, then make an attempt.
    SleepThenAttempt(u64),
    /// Stop; this is the tool's final outcome.
    Finished(AttemptOutcome),
}

/// The state of the attempts at one tool.
pub struct RetryRun {
    /// Attempts allowed in all, the first one included.
    pub attempts: u32,
    /// Base of the exponential backoff, in seconds.
    pub backoff_seconds: u64,
    /// Attempts whose outcome has been recorded.
    pub made: u32,
    /// Milliseconds of pause scheduled so far.
    pub slept_ms: u64,
}

/// Relies on rand's `thread_rng().gen_range(0..=bound)`: a number drawn from
/// zero to `bound`, both included; the range is never empty.
#[verifier::external_body]
fn draw_up_to(bound: u64) -> (r: u64)
    ensures
        r <= bound,
{
    rand::thread_rng().gen_range(0..=bound)
}

proof fn lemma_pow2_monotone(a: nat, b: nat)
    requires
        a <= b,
    ensures
        1 <= pow2(a) <= pow2(b),
    decreases b,
{
    if b > a {
        lemma_pow2_monotone(a, (b - 1) as nat);
    } else if a > 0 {
        lemma_pow2_monotone((a - 1) as nat, (a - 1) as nat);
    }
}

/// The pause ceilings add up to a geometric sum.
pub proof fn lemma_ceilings_sum(backoff_seconds: nat, m: nat)
    ensures
        ceilings_sum(backoff_seconds, m) + backoff_seconds * 1000 == backoff_seconds * 1000 * pow2(
            m,
        ),
    decreases m,
{
    let b = backoff_seconds;
    let c = b * 1000;
    if m > 0 {
        let p = (m - 1) as nat;
        lemma_ceilings_sum(b, p);
        assert(pow2(m) == 2 * pow2(p));
        assert(ceilings_sum(b, m) == ceilings_sum(b, p) + c * pow2(p));
        assert(ceilings_sum(b, m) + c == c * pow2(m)) by (nonlinear_arith)
            requires
                ceilings_sum(b, m) == ceilings_sum(b, p) + c * pow2(p),
                ceilings_sum(b, p) + c == c * pow2(p),
                pow2(m) == 2 * pow2(p),
        ;
    } else {
        assert(pow2(0) == 1);
        assert(c * pow2(m) == c) by (nonlinear_arith)
            requires
                pow2(m) == 1,
        ;
    }
}

/// Over `attempts` attempts with base `backoff_seconds`, the pauses add up
/// to at most `backoff_seconds * (2^attempts - 2) * 1000` milliseconds.
pub proof fn lemma_total_sleep_bounded(backoff_seconds: nat, attempts: nat)
    requires
        attempts >= 1,
    ensures
        sleep_bound(backoff_seconds, attempts) <= backoff_seconds * (pow2(attempts) - 2) * 1000,
{
    if attempts > 0 {
        let b = backoff_seconds;
        let m = (attempts - 1) as nat;
        let c = b * 1000;
        lemma_ceilings_sum(b, m);
        lemma_pow2_monotone(0, m);
        assert(pow2(attempts) == 2 * pow2(m));
        assert(ceilings_sum(b, m) <= b * (pow2(attempts) - 2) * 1000) by (nonlinear_arith)
            requires
                ceilings_sum(b, m) + c == c * pow2(m),
                pow2(attempts) == 2 * pow2(m),
                pow2(m) >= 1,
                c == b * 1000,
        ;
    }
}

proof fn lemma_ceilings_sum_monotone(backoff_seconds: nat, a: nat, b: nat)
    requires
        a <= b,
    ensures
        ceilings_sum(backoff_seconds, a) <= ceilings_sum(backoff_seconds, b),
    decreases b,
{
    if a < b {
        lemma_ceilings_sum_monotone(backoff_seconds, a, (b - 1) as nat);
    }
}

/// However the attempts at a tool go, the pauses scheduled between them add
/// up to at most `backoff_seconds * (2^attempts - 2) * 1000` milliseconds.
pub proof fn lemma_run_sleeps_bounded(r: RetryRun)
    requires
        r.within_schedule(),
        r.attempts >= 1,
    ensures
        r.slept_ms <= r.backoff_seconds * (pow2(r.attempts as nat) - 2) * 1000,
{
    let b = r.backoff_seconds as nat;
    let n = r.attempts as nat;
    let m = if r.made < r.attempts {
        (r.made + 1) as nat
    } else {
        n
    };
    if m >= 1 {
        lemma_ceilings_sum_monotone(b, (m - 1) as nat, (n - 1) as nat);
    }
    lemma_total_sleep_bounded(b, n);
}

impl RetryRun {
    /// The pauses so far stay within the schedule.
    pub open spec fn within_schedule(&self) -> bool {
        &&& self.made <= self.attempts
        &&& self.slept_ms <= sleep_bound(
            self.backoff_seconds as nat,
            if self.made < self.attempts {
                (self.made + 1) as nat
            } else {
                self.attempts as nat
            },
        )
        &&& sleep_bound(self.backoff_seconds as nat, self.attempts as nat) <= u64::MAX
    }

    /// A run of at most `attempts` attempts; the pauses of the whole
    /// schedule must add up to a number of milliseconds that fits in 64 bits.
    pub fn new(attempts: u32, backoff_seconds: u64) -> (r: Self)
        requires
            sleep_bound(backoff_seconds as nat, attempts as nat) <= u64::MAX,
        ensures
            r.attempts == attempts,
            r.backoff_seconds == backoff_seconds,
            r.made == 0,
            r.slept_ms == 0,
            r.within_schedule(),
    {
        RetryRun { attempts, backoff_seconds, made: 0, slept_ms: 0 }
    }

    /// The first step: an attempt with no pause before it, unless no
    /// attempt is allowed at all.
    pub fn start(&self) -> (s: RetryStep)
        ensures
            self.attempts > 0 ==> s is Attempt,
            self.attempts == 0 ==> (s matches RetryStep::Finished(AttemptOutcome::Transport(m))
                && m@ == "All retry attempts failed"@),
    {
        if self.attempts > 0 {
            RetryStep::Attempt
        } else {
            RetryStep::Finished(
                AttemptOutcome::Transport(String::from_str("All retry attempts failed")),
            )
        }
    }

    /// Records the outcome of the pending attempt and says what follows: a
    /// success ends the run, a failure is retried after a random pause up to
    /// the backoff ceiling while attempts remain, and the last failure ends
    /// it.
    pub fn record(&mut self, outcome: AttemptOutcome) -> (s: RetryStep)
        requires
            old(self).made < old(self).attempts,
            old(self).within_schedule(),
        ensures
            final(self).attempts == old(self).attempts,
            final(self).backoff_seconds == old(self).backoff_seconds,
            final(self).made == old(self).made + 1,
            final(self).within_schedule(),
            outcome is Success ==> s == RetryStep::Finished(outcome),
            outcome !is Success && final(self).made == final(self).attempts ==> s
                == RetryStep::Finished(outcome),
            outcome !is Success && final(self).made < final(self).attempts ==> (s matches RetryStep::SleepThenAttempt(
                ms,
            ) && ms <= backoff_ceiling(old(self).backoff_seconds as nat, final(self).made as nat)
                && final(self).slept_ms == old(self).slept_ms + ms),
            (s !is SleepThenAttempt) ==> final(self).slept_ms == old(self).slept_ms,
    {
        self.made = self.made + 1;
        let succeeded = match outcome {
            AttemptOutcome::Success(_) => true,
            _ => false,
        };
        if succeeded || self.made == self.attempts {
            proof {
                let b = self.backoff_seconds as nat;
                let k = self.made as nat;
                if self.made < self.attempts {
                    lemma_ceilings_sum(b, k);
                    lemma_ceilings_sum(b, (k - 1) as nat);
                    assert(ceilings_sum(b, (k - 1) as nat) <= ceilings_sum(b, k));
                }
            }
            return RetryStep::Finished(outcome);
        }
        proof {
            let b = self.backoff_seconds as nat;
            let k = self.made as nat;
            lemma_ceilings_sum_monotone(b, k, (self.attempts - 1) as nat);
            assert(ceilings_sum(b, k) == ceilings_sum(b, (k - 1) as nat) + backoff_ceiling(b, k));
        }
        let ceiling = self.ceiling_after(self.made);
        let ms = draw_up_to(ceiling);
        self.slept_ms = self.slept_ms + ms;
        RetryStep::SleepThenAttempt(ms)
    }

    /// The ceiling of the pause after attempt `k`.
    fn ceiling_after(&self, k: u32) -> (c: u64)
        requires
            1 <= k,
            backoff_ceiling(self.backoff_seconds as nat, k as nat) <= u64::MAX,
        ensures
            c == backoff_ceiling(self.backoff_seconds as nat, k as nat),
    {
        let ghost b = self.backoff_seconds as nat;
        proof {
            lemma_pow2_monotone(0, (k - 1) as nat);
            assert(pow2(0) == 1);
            assert(b * 1000 <= b * 1000 * pow2((k - 1) as nat)) by (nonlinear_arith)
                requires
                    pow2((k - 1) as nat) >= 1,
            ;
            assert(b * 1000 * pow2(0) == b * 1000) by (nonlinear_arith)
                requires
                    pow2(0) == 1,
            ;
        }
        let mut c: u64 = self.backoff_seconds * 1000;
        let mut i: u32 = 1;
        while i < k
            invariant
                1 <= i <= k,
                b == self.backoff_seconds,
                c == b * 1000 * pow2((i - 1) as nat),
                b * 1000 * pow2((k - 1) as nat) <= u64::MAX,
            decreases k - i,
        {
            proof {
                lemma_pow2_monotone(i as nat, (k - 1) as nat);
                assert(b * 1000 * pow2(i as nat) <= b * 1000 * pow2((k - 1) as nat)) by (
                nonlinear_arith)
                    requires
                        pow2(i as nat) <= pow2((k - 1) as nat),
                ;
                assert(b * 1000 * pow2(i as nat) == 2 * (b * 1000 * pow2((i - 1) as nat))) by (
                nonlinear_arith)
                    requires
                        pow2(i as nat) == 2 * pow2((i - 1) as nat),
                ;
            }
            c = c * 2;
            i = i + 1;
        }
        c
    }
}

} // verus!
