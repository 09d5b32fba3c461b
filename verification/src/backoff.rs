//! Capped exponential backoff for the WebSocket reconnection loop.
//!
//! After `attempts` consecutive failures the loop waits
//! `min(base_delay_ms * 2^min(attempts, 5), max_delay_ms)` milliseconds
//! before trying again.

use vstd::prelude::*;

verus! {

/// Largest base delay for which `base * 2^5` still fits in a `u64`.
pub const MAX_BASE_DELAY_MS: u64 = 0x07FF_FFFF_FFFF_FFFF;

/// Exponent cap: the doubling stops after this many failures.
pub const BACKOFF_EXPONENT_CAP: u32 = 5;

pub open spec fn pow2(e: nat) -> nat
    decreases e,
{
    if e == 0 {
        1
    } else {
        2 * pow2((e - 1) as nat)
    }
}

/// Reconnection backoff parameters: delay bounds and the attempt ceiling at
/// which the loop gives up.
#[derive(Debug, Clone, Copy, PartialEq, Eq, Structural)]
pub struct BackoffPolicy {
    pub base_delay_ms: u64,
    pub max_delay_ms: u64,
    pub max_attempts: u32,
}

impl BackoffPolicy {
    pub open spec fn wf(self) -> bool {
        self.base_delay_ms <= MAX_BASE_DELAY_MS
    }

    /// The delay before the next attempt, after `attempts` consecutive
    /// failures: `min(base * 2^min(attempts, 5), max_delay)`.
    pub open spec fn spec_delay_ms(self, attempts: u32) -> int {
        let exponent: nat = if attempts <= BACKOFF_EXPONENT_CAP {
            attempts as nat
        } else {
            BACKOFF_EXPONENT_CAP as nat
        };
        let raw = self.base_delay_ms * pow2(exponent);
        if raw <= self.max_delay_ms {
            raw as int
        } else {
            self.max_delay_ms as int
        }
    }

    pub fn new(base_delay_ms: u64, max_delay_ms: u64, max_attempts: u32) -> (r: Self)
        requires
            base_delay_ms <= MAX_BASE_DELAY_MS,
        ensures
            r == (BackoffPolicy { base_delay_ms, max_delay_ms, max_attempts }),
            r.wf(),
    {
        BackoffPolicy { base_delay_ms, max_delay_ms, max_attempts }
    }

    /// The executable delay computation, exact against `spec_delay_ms`.
    pub fn delay_ms(&self, attempts: u32) -> (r: u64)
        requires
            self.wf(),
        ensures
            r == self.spec_delay_ms(attempts),
    {
        let exponent: u32 = if attempts <= BACKOFF_EXPONENT_CAP {
            attempts
        } else {
            BACKOFF_EXPONENT_CAP
        };
        let multiplier: u64 = if exponent == 0 {
            1
        } else if exponent == 1 {
            2
        } else if exponent == 2 {
            4
        } else if exponent == 3 {
            8
        } else if exponent == 4 {
            16
        } else {
            32
        };
        proof {
            reveal_with_fuel(pow2, 6);
        }
        let raw = self.base_delay_ms * multiplier;
        if raw <= self.max_delay_ms {
            raw
        } else {
            self.max_delay_ms
        }
    }
}

impl Default for BackoffPolicy {
    /// The production policy: 2 s base delay, 30 s cap, 1000 attempts.
    fn default() -> (r: Self)
        ensures
            r == (BackoffPolicy { base_delay_ms: 2000, max_delay_ms: 30000, max_attempts: 1000 }),
            r.wf(),
    {
        BackoffPolicy { base_delay_ms: 2000, max_delay_ms: 30000, max_attempts: 1000 }
    }
}

pub proof fn lemma_pow2_nondecreasing(a: nat, b: nat)
    requires
        a <= b,
    ensures
        pow2(a) <= pow2(b),
    decreases b,
{
    if a < b {
        lemma_pow2_nondecreasing(a, (b - 1) as nat);
        assert(pow2(b) == 2 * pow2((b - 1) as nat));
    }
}

/// The backoff sequence is non-decreasing: waiting never gets shorter as
/// failures accumulate.
pub proof fn lemma_delay_nondecreasing(policy: BackoffPolicy, earlier: u32, later: u32)
    requires
        policy.wf(),
        earlier <= later,
    ensures
        policy.spec_delay_ms(earlier) <= policy.spec_delay_ms(later),
{
    let ea: nat = if earlier <= BACKOFF_EXPONENT_CAP {
        earlier as nat
    } else {
        BACKOFF_EXPONENT_CAP as nat
    };
    let eb: nat = if later <= BACKOFF_EXPONENT_CAP {
        later as nat
    } else {
        BACKOFF_EXPONENT_CAP as nat
    };
    lemma_pow2_nondecreasing(ea, eb);
    assert(policy.base_delay_ms * pow2(ea) <= policy.base_delay_ms * pow2(eb))
        by (nonlinear_arith)
        requires
            pow2(ea) <= pow2(eb),
    ;
}

/// Every delay in the sequence is capped by the policy's maximum delay.
pub proof fn lemma_delay_capped(policy: BackoffPolicy, attempts: u32)
    requires
        policy.wf(),
    ensures
        policy.spec_delay_ms(attempts) <= policy.max_delay_ms,
{
}

} // verus!
