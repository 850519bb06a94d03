//! Restart backoff policy for the supervisor loop.
//!
//! The supervisor restarts the packet pipeline after a restartable failure,
//! but not too fast: each consecutive error grows the delay by a factor of
//! 1.5 (computed in integers as 3^k / 2^k), saturating after
//! [`MAX_ERROR_COUNT`] errors. Sustained healthy operation — more than
//! [`RECOVERY_TIME_MS`] of real working time since the last attempt started —
//! resets the error count to zero.
//!
//! Sleeping and reading the clock are the caller's: it calls
//! [`BackOff::back_off`] with the current monotonic time to obtain the delay,
//! sleeps for that many milliseconds, and then calls
//! [`BackOff::record_attempt`] with the time it woke up, so that the sleep
//! itself never counts towards the recovery window.

use vstd::prelude::*;

verus! {

/// Base delay between restart attempts, in milliseconds.
pub const BASE_DELAY_MS: u64 = 1000;

/// The error count at which the delay stops growing.
pub const MAX_ERROR_COUNT: u32 = 10;

/// Idle time after which the error count is forgotten, in milliseconds.
pub const RECOVERY_TIME_MS: u64 = 60_000;

/// 3 to the power `k`.
pub open spec fn spec_pow3(k: nat) -> nat
    decreases k,
{
    if k == 0 {
        1
    } else {
        3 * spec_pow3((k - 1) as nat)
    }
}

/// 2 to the power `k`.
pub open spec fn spec_pow2(k: nat) -> nat
    decreases k,
{
    if k == 0 {
        1
    } else {
        2 * spec_pow2((k - 1) as nat)
    }
}

/// The delay multiplier after `count` consecutive errors: 1.5 to the power
/// of min(`count`, [`MAX_ERROR_COUNT`]), rounded down to an integer.
pub open spec fn spec_backoff_multiplier(count: u32) -> nat {
    let k = if count <= MAX_ERROR_COUNT {
        count as nat
    } else {
        MAX_ERROR_COUNT as nat
    };
    spec_pow3(k) / spec_pow2(k)
}

/// The delay slept after `count` consecutive errors, in milliseconds.
pub open spec fn spec_backoff_delay_ms(count: u32) -> nat {
    (BASE_DELAY_MS as nat) * spec_backoff_multiplier(count)
}

proof fn lemma_pow3_mono(a: nat, b: nat)
    requires
        a <= b,
    ensures
        spec_pow3(a) <= spec_pow3(b),
    decreases b,
{
    if a < b {
        lemma_pow3_mono(a, (b - 1) as nat);
    }
}

proof fn lemma_pow2_mono(a: nat, b: nat)
    requires
        a <= b,
    ensures
        spec_pow2(a) <= spec_pow2(b),
    decreases b,
{
    if a < b {
        lemma_pow2_mono(a, (b - 1) as nat);
    }
}

/// The eleven multipliers actually reachable, one for each saturated error
/// count: floor(1.5^k) for k = 0..=10.
proof fn lemma_ratio_value(k: nat)
    requires
        k <= 10,
    ensures
        spec_pow3(k) / spec_pow2(k) == if k == 0 || k == 1 {
            1nat
        } else if k == 2 {
            2nat
        } else if k == 3 {
            3nat
        } else if k == 4 {
            5nat
        } else if k == 5 {
            7nat
        } else if k == 6 {
            11nat
        } else if k == 7 {
            17nat
        } else if k == 8 {
            25nat
        } else if k == 9 {
            38nat
        } else {
            57nat
        },
{
    lemma_pow_values();
    if k == 0 {
        assert(spec_pow3(k) == 1 && spec_pow2(k) == 1);
        assert(1nat / 1nat == 1nat) by (nonlinear_arith);
    } else if k == 1 {
        assert(spec_pow3(k) == 3 && spec_pow2(k) == 2);
        assert(3nat / 2nat == 1nat) by (nonlinear_arith);
    } else if k == 2 {
        assert(spec_pow3(k) == 9 && spec_pow2(k) == 4);
        assert(9nat / 4nat == 2nat) by (nonlinear_arith);
    } else if k == 3 {
        assert(spec_pow3(k) == 27 && spec_pow2(k) == 8);
        assert(27nat / 8nat == 3nat) by (nonlinear_arith);
    } else if k == 4 {
        assert(spec_pow3(k) == 81 && spec_pow2(k) == 16);
        assert(81nat / 16nat == 5nat) by (nonlinear_arith);
    } else if k == 5 {
        assert(spec_pow3(k) == 243 && spec_pow2(k) == 32);
        assert(243nat / 32nat == 7nat) by (nonlinear_arith);
    } else if k == 6 {
        assert(spec_pow3(k) == 729 && spec_pow2(k) == 64);
        assert(729nat / 64nat == 11nat) by (nonlinear_arith);
    } else if k == 7 {
        assert(spec_pow3(k) == 2187 && spec_pow2(k) == 128);
        assert(2187nat / 128nat == 17nat) by (nonlinear_arith);
    } else if k == 8 {
        assert(spec_pow3(k) == 6561 && spec_pow2(k) == 256);
        assert(6561nat / 256nat == 25nat) by (nonlinear_arith);
    } else if k == 9 {
        assert(spec_pow3(k) == 19683 && spec_pow2(k) == 512);
        assert(19683nat / 512nat == 38nat) by (nonlinear_arith);
    } else {
        assert(spec_pow3(k) == 59049 && spec_pow2(k) == 1024);
        assert(59049nat / 1024nat == 57nat) by (nonlinear_arith);
    }
}

/// The powers of 3 and 2 up to the saturation point, spelled out so that the
/// solver can evaluate the multipliers.
proof fn lemma_pow_values()
    ensures
        spec_pow3(10) == 59049,
        spec_pow2(10) == 1024,
        spec_pow3(0) == 1 && spec_pow3(1) == 3 && spec_pow3(2) == 9 && spec_pow3(3) == 27,
        spec_pow3(4) == 81 && spec_pow3(5) == 243 && spec_pow3(6) == 729,
        spec_pow3(7) == 2187 && spec_pow3(8) == 6561 && spec_pow3(9) == 19683,
        spec_pow2(0) == 1 && spec_pow2(1) == 2 && spec_pow2(2) == 4 && spec_pow2(3) == 8,
        spec_pow2(4) == 16 && spec_pow2(5) == 32 && spec_pow2(6) == 64,
        spec_pow2(7) == 128 && spec_pow2(8) == 256 && spec_pow2(9) == 512,
{
    assert(spec_pow3(0) == 1);
    assert(spec_pow3(1) == 3);
    assert(spec_pow3(2) == 9);
    assert(spec_pow3(3) == 27);
    assert(spec_pow3(4) == 81);
    assert(spec_pow3(5) == 243);
    assert(spec_pow3(6) == 729);
    assert(spec_pow3(7) == 2187);
    assert(spec_pow3(8) == 6561);
    assert(spec_pow3(9) == 19683);
    assert(spec_pow3(10) == 59049);
    assert(spec_pow2(0) == 1);
    assert(spec_pow2(1) == 2);
    assert(spec_pow2(2) == 4);
    assert(spec_pow2(3) == 8);
    assert(spec_pow2(4) == 16);
    assert(spec_pow2(5) == 32);
    assert(spec_pow2(6) == 64);
    assert(spec_pow2(7) == 128);
    assert(spec_pow2(8) == 256);
    assert(spec_pow2(9) == 512);
    assert(spec_pow2(10) == 1024);
}

proof fn lemma_ratio_step(k: nat)
    requires
        k < 10,
    ensures
        spec_pow3(k) / spec_pow2(k) <= spec_pow3(k + 1) / spec_pow2(k + 1),
{
    lemma_ratio_value(k);
    lemma_ratio_value(k + 1);
}

proof fn lemma_ratio_mono(a: nat, b: nat)
    requires
        a <= b <= 10,
    ensures
        spec_pow3(a) / spec_pow2(a) <= spec_pow3(b) / spec_pow2(b),
    decreases b - a,
{
    if a < b {
        lemma_ratio_mono(a, (b - 1) as nat);
        lemma_ratio_step((b - 1) as nat);
    }
}

/// The backoff delay never shrinks while errors accumulate: a higher
/// consecutive-error count never yields a shorter delay, and the delay
/// saturates once the count reaches [`MAX_ERROR_COUNT`].
pub proof fn lemma_backoff_delay_monotone(c1: u32, c2: u32)
    requires
        c1 <= c2,
    ensures
        spec_backoff_delay_ms(c1) <= spec_backoff_delay_ms(c2),
        c1 >= MAX_ERROR_COUNT ==> spec_backoff_delay_ms(c1) == spec_backoff_delay_ms(c2),
{
    let k1 = if c1 <= MAX_ERROR_COUNT { c1 as nat } else { MAX_ERROR_COUNT as nat };
    let k2 = if c2 <= MAX_ERROR_COUNT { c2 as nat } else { MAX_ERROR_COUNT as nat };
    lemma_ratio_mono(k1, k2);
}

fn backoff_multiplier(count: u32) -> (m: u64)
    ensures
        m == spec_backoff_multiplier(count),
        1 <= m <= 57,
{
    let k: u32 = if count <= MAX_ERROR_COUNT {
        count
    } else {
        MAX_ERROR_COUNT
    };
    proof {
        lemma_pow_values();
    }
    let mut numer: u64 = 1;
    let mut denom: u64 = 1;
    let mut i: u32 = 0;
    while i < k
        invariant
            i <= k <= 10,
            numer == spec_pow3(i as nat),
            denom == spec_pow2(i as nat),
            spec_pow3(10) == 59049,
            spec_pow2(10) == 1024,
        decreases k - i,
    {
        proof {
            lemma_pow3_mono((i + 1) as nat, 10);
            lemma_pow2_mono((i + 1) as nat, 10);
        }
        numer = numer * 3;
        denom = denom * 2;
        i = i + 1;
    }
    proof {
        lemma_pow2_mono(0, k as nat);
        lemma_ratio_value(k as nat);
    }
    numer / denom
}

/// Retry state of the supervisor: when the current attempt started (on the
/// caller's monotonic millisecond clock) and how many errors came in a row.
pub struct BackOff {
    attempt_start_ms: u64,
    error_count: u32,
}

impl BackOff {
    /// When the current attempt started, in caller-supplied monotonic
    /// milliseconds.
    pub closed spec fn spec_attempt_start_ms(&self) -> u64 {
        self.attempt_start_ms
    }

    /// How many errors came in a row.
    pub closed spec fn spec_error_count(&self) -> u32 {
        self.error_count
    }

    /// Fresh state: no errors yet; `now_ms` (the current monotonic time in
    /// milliseconds) stands as the start of the first attempt.
    pub fn new(now_ms: u64) -> (b: Self)
        ensures
            b.spec_error_count() == 0,
            b.spec_attempt_start_ms() == now_ms,
    {
        BackOff { attempt_start_ms: now_ms, error_count: 0 }
    }

    /// First half of a backoff round: if more than [`RECOVERY_TIME_MS`] of
    /// working time has elapsed since the recorded attempt start, forget the
    /// accumulated errors; then return how many milliseconds the caller must
    /// sleep before restarting. The attempt-start timestamp is left alone
    /// here — the caller records the new one with [`Self::record_attempt`]
    /// after the sleep, so the sleep never counts as working time.
    pub fn back_off(&mut self, now_ms: u64) -> (delay_ms: u64)
        ensures
            final(self).spec_error_count() == if now_ms > old(self).spec_attempt_start_ms() + RECOVERY_TIME_MS {
                0u32
            } else {
                old(self).spec_error_count()
            },
            final(self).spec_attempt_start_ms() == old(self).spec_attempt_start_ms(),
            delay_ms == spec_backoff_delay_ms(final(self).spec_error_count()),
            BASE_DELAY_MS <= delay_ms <= 57 * BASE_DELAY_MS,
    {
        if now_ms > self.attempt_start_ms && now_ms - self.attempt_start_ms > RECOVERY_TIME_MS {
            self.error_count = 0;
        }
        let multiplier = backoff_multiplier(self.error_count);
        BASE_DELAY_MS * multiplier
    }

    /// Second half of a backoff round, called once the delay has been slept:
    /// record `now_ms` as the start of the new attempt and count the error
    /// that caused the restart (saturating rather than wrapping).
    pub fn record_attempt(&mut self, now_ms: u64)
        ensures
            final(self).spec_attempt_start_ms() == now_ms,
            final(self).spec_error_count() == if old(self).spec_error_count() < u32::MAX {
                old(self).spec_error_count() + 1
            } else {
                u32::MAX as int
            },
    {
        self.attempt_start_ms = now_ms;
        if self.error_count < u32::MAX {
            self.error_count = self.error_count + 1;
        }
    }
}

} // verus!
