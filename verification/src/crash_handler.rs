//! Per-unit crash counting and restart-delay policy.

use vstd::prelude::*;

use vstd::arithmetic::div_mod::{
    lemma_div_is_ordered, lemma_div_multiples_vanish, lemma_div_pos_is_pos,
    lemma_fundamental_div_mod, lemma_fundamental_div_mod_converse,
};
use vstd::arithmetic::power::{
    lemma_pow0, lemma_pow1, lemma_pow_adds, lemma_pow_increases, lemma_pow_multiplies,
    lemma_pow_positive, pow,
};
use vstd::arithmetic::power2::{lemma2_to64, lemma2_to64_rest, lemma_pow2, lemma_pow2_adds, pow2};

verus! {

/// The backoff before automatic restart number `k`: the initial wait grown by
/// a factor of three halves per previous crash, truncated to whole seconds and
/// capped at the maximum.
pub open spec fn backoff_spec(initial: u64, max: u64, k: nat) -> int
    recommends
        k >= 1,
{
    let e = (k - 1) as nat;
    let exact = (initial * pow(3, e)) / pow(2, e);
    if exact >= max {
        max as int
    } else {
        exact
    }
}

/// The exact ratio `i * 3^e / 2^e` is nondecreasing in the exponent.
proof fn lemma_ratio_monotone(i: int, a: nat, b: nat)
    requires
        i >= 0,
        a <= b,
    ensures
        (i * pow(3, a)) / pow(2, a) <= (i * pow(3, b)) / pow(2, b),
    decreases b - a,
{
    lemma_pow_positive(2, a);
    lemma_pow_positive(3, a);
    if a < b {
        assert(i * pow(3, a) >= 0) by (nonlinear_arith)
            requires
                i >= 0,
                pow(3, a) > 0,
        ;
        let n = i * pow(3, a);
        let d = pow(2, a);
        let q = n / d;
        let r = n % d;
        lemma_fundamental_div_mod(n, d);
        lemma_div_pos_is_pos(n, d);
        // 2*q*d <= 3*n, so q <= (3*n) / (2*d)
        assert(2 * q * d <= 3 * n) by (nonlinear_arith)
            requires
                n == d * q + r,
                q >= 0,
                r >= 0,
                d > 0,
        ;
        lemma_div_is_ordered(2 * q * d, 3 * n, 2 * d);
        assert((2 * d) * q / (2 * d) == q) by {
            lemma_div_multiples_vanish(q, 2 * d);
        }
        assert(2 * q * d == (2 * d) * q) by (nonlinear_arith);
        assert(q <= (3 * n) / (2 * d));
        // 3*n and 2*d are the numerator and denominator at exponent a+1
        assert(pow(3, (a + 1) as nat) == 3 * pow(3, a)) by {
            lemma_pow_adds(3, 1, a);
            lemma_pow1(3);
        }
        assert(pow(2, (a + 1) as nat) == 2 * pow(2, a)) by {
            lemma_pow_adds(2, 1, a);
            lemma_pow1(2);
        }
        assert(i * pow(3, (a + 1) as nat) == 3 * n) by (nonlinear_arith)
            requires
                pow(3, (a + 1) as nat) == 3 * pow(3, a),
                n == i * pow(3, a),
        ;
        lemma_ratio_monotone(i, (a + 1) as nat, b);
    }
}

/// Powers with a larger base are at least as large.
proof fn lemma_pow_base_le(x: int, y: int, e: nat)
    requires
        0 <= x <= y,
    ensures
        0 <= pow(x, e) <= pow(y, e),
    decreases e,
{
    reveal(pow);
    if e == 0 {
        lemma_pow0(x);
        lemma_pow0(y);
    } else {
        lemma_pow_base_le(x, y, (e - 1) as nat);
        assert(x * pow(x, (e - 1) as nat) <= y * pow(y, (e - 1) as nat) && 0 <= x * pow(
            x,
            (e - 1) as nat,
        )) by (nonlinear_arith)
            requires
                0 <= x <= y,
                0 <= pow(x, (e - 1) as nat) <= pow(y, (e - 1) as nat),
        ;
        assert(pow(x, e) == x * pow(x, (e - 1) as nat));
        assert(pow(y, e) == y * pow(y, (e - 1) as nat));
    }
}

/// Three halves to the 120th power exceeds two to the 64th: concretely,
/// `3^120 >= 2^64 * 2^120`.
proof fn lemma_three_halves_dominates()
    ensures
        pow(3, 120) >= pow(2, 64) * pow(2, 120),
{
    assert(pow(3, 12) == 531441) by {
        reveal_with_fuel(pow, 13);
    }
    lemma2_to64();
    lemma_pow2(19);
    assert(pow(2, 19) == 524288);
    lemma_pow_multiplies(3, 12, 10);
    lemma_pow_multiplies(2, 19, 10);
    lemma_pow_base_le(524288, 531441, 10);
    assert(pow(3, 120) >= pow(2, 190));
    lemma_pow_increases(2, 184, 190);
    lemma_pow_adds(2, 64, 120);
}

/// With any positive initial wait, the exact ratio at exponent 120 already
/// exceeds every `u64` maximum, so the cap always applies from there on.
proof fn lemma_ratio_saturates(i: int, e: nat, m: u64)
    requires
        i >= 1,
        e >= 120,
    ensures
        (i * pow(3, e)) / pow(2, e) >= m,
{
    lemma_pow_positive(2, 120);
    lemma_pow_positive(3, 120);
    lemma_three_halves_dominates();
    // 3^120 / 2^120 >= 2^64
    lemma_div_is_ordered(pow(2, 64) * pow(2, 120), pow(3, 120), pow(2, 120));
    assert(pow(2, 120) * pow(2, 64) / pow(2, 120) == pow(2, 64)) by {
        lemma_div_multiples_vanish(pow(2, 64), pow(2, 120));
    }
    assert(pow(2, 64) * pow(2, 120) == pow(2, 120) * pow(2, 64)) by (nonlinear_arith);
    assert(pow(3, 120) / pow(2, 120) >= pow(2, 64));
    // i * 3^120 >= 3^120
    assert(i * pow(3, 120) >= pow(3, 120)) by (nonlinear_arith)
        requires
            i >= 1,
            pow(3, 120) > 0,
    ;
    lemma_div_is_ordered(pow(3, 120), i * pow(3, 120), pow(2, 120));
    assert((i * pow(3, 120)) / pow(2, 120) >= pow(2, 64));
    lemma_ratio_monotone(i, 120, e);
    assert(m < pow(2, 64)) by {
        lemma2_to64();
        lemma_pow2(64);
    }
}

/// A power of two with exponent at most 119 fits comfortably in 125 bits.
proof fn lemma_den_bound(j: nat)
    requires
        j <= 119,
    ensures
        0 < pow(2, j) <= 0x800000000000000000000000000000,
{
    lemma_pow_positive(2, j);
    lemma_pow_increases(2, j, 119);
    lemma_pow2_adds(55, 64);
    lemma2_to64();
    lemma2_to64_rest();
    lemma_pow2(119);
    assert(pow2(119) == pow2(55) * pow2(64));
    assert(pow2(55) == 0x80000000000000);
    assert(pow2(64) == 0x10000000000000000);
    assert(pow(2, 119) == 0x80000000000000 * 0x10000000000000000);
}

/// The global rebuild profile: development or release.
#[derive(Debug, Clone, Copy, PartialEq, Eq, Structural)]
pub enum RunMode {
    Dev,
    Release,
}

/// Tracks how many times a unit has crashed and derives the wait before the
/// next automatic restart.
pub struct CrashHandler {
    pub dev_crash_wait_seconds: u64,
    pub release_crash_backoff_initial_seconds: u64,
    pub release_crash_backoff_max_seconds: u64,
    pub crash_count: usize,
}

impl CrashHandler {
    pub fn new(
        dev_crash_wait_seconds: u64,
        release_crash_backoff_initial_seconds: u64,
        release_crash_backoff_max_seconds: u64,
    ) -> (r: Self)
        ensures
            r.dev_crash_wait_seconds == dev_crash_wait_seconds,
            r.release_crash_backoff_initial_seconds == release_crash_backoff_initial_seconds,
            r.release_crash_backoff_max_seconds == release_crash_backoff_max_seconds,
            r.crash_count == 0,
    {
        Self {
            dev_crash_wait_seconds,
            release_crash_backoff_initial_seconds,
            release_crash_backoff_max_seconds,
            crash_count: 0,
        }
    }

    pub fn reset_crash_count(&mut self)
        ensures
            final(self).crash_count == 0,
            final(self).dev_crash_wait_seconds == old(self).dev_crash_wait_seconds,
            final(self).release_crash_backoff_initial_seconds == old(
                self,
            ).release_crash_backoff_initial_seconds,
            final(self).release_crash_backoff_max_seconds == old(
                self,
            ).release_crash_backoff_max_seconds,
    {
        self.crash_count = 0;
    }

    pub fn get_crash_count(&self) -> (r: usize)
        ensures
            r == self.crash_count,
    {
        self.crash_count
    }

    /// The backoff for the current crash count: `initial` grown by a factor
    /// of three halves per previous crash, truncated, capped at `max`.
    pub fn calculate_backoff(&self) -> (res: u64)
        requires
            self.crash_count >= 1,
        ensures
            res == backoff_spec(
                self.release_crash_backoff_initial_seconds,
                self.release_crash_backoff_max_seconds,
                self.crash_count as nat,
            ),
    {
        let i = self.release_crash_backoff_initial_seconds;
        let m = self.release_crash_backoff_max_seconds;
        let e: usize = self.crash_count - 1;
        let ghost en: nat = e as nat;
        proof {
            lemma_pow_positive(2, en);
            lemma_pow_positive(3, en);
        }
        if i == 0 {
            proof {
                assert(0 * pow(3, en) == 0) by (nonlinear_arith)
                    requires
                        pow(3, en) > 0,
                ;
                lemma_fundamental_div_mod_converse(0, pow(2, en), 0, 0);
            }
            return 0;
        }
        let mut q: u128 = i as u128;
        let mut r: u128 = 0;
        let mut den: u128 = 1;
        let mut j: usize = 0;
        proof {
            lemma_pow0(2);
            lemma_pow0(3);
        }
        while j < e
            invariant
                i >= 1,
                j <= e,
                j <= 120,
                en == e as nat,
                self.crash_count >= 1,
                e == self.crash_count - 1,
                i == self.release_crash_backoff_initial_seconds,
                m == self.release_crash_backoff_max_seconds,
                den as int == pow(2, j as nat),
                (r as int) < (den as int),
                (i as int) * pow(3, j as nat) == (q as int) * (den as int) + (r as int),
                j == 0 ==> q == i as u128,
                j >= 1 ==> (q as int) <= 2 * (m as int) + 2,
            decreases e - j,
        {
            proof {
                lemma_pow_positive(2, j as nat);
                lemma_pow_positive(3, j as nat);
            }
            if q >= m as u128 {
                proof {
                    lemma_pow_positive(2, en);
                    lemma_pow_positive(3, en);
                    lemma_fundamental_div_mod_converse(
                        (i as int) * pow(3, j as nat),
                        pow(2, j as nat),
                        q as int,
                        r as int,
                    );
                    lemma_ratio_monotone(i as int, j as nat, en);
                }
                return m;
            }
            if j >= 120 {
                proof {
                    lemma_pow_positive(2, en);
                    lemma_pow_positive(3, en);
                    lemma_ratio_saturates(i as int, en, m);
                }
                return m;
            }
            proof {
                lemma_den_bound(j as nat);
            }
            let q3: u128 = 3 * q;
            let r3: u128 = 3 * r;
            proof {
                lemma_fundamental_div_mod_converse(
                    3 * (den as int) - 1,
                    den as int,
                    2,
                    den as int - 1,
                );
                lemma_div_is_ordered(r3 as int, 3 * (den as int) - 1, den as int);
                assert((r3 as int) / (den as int) <= 2);
            }
            let a: u128 = r3 / den;
            let r2: u128 = r3 % den;
            let qa: u128 = q3 + a;
            let newq: u128 = qa / 2;
            let b: u128 = qa % 2;
            proof {
                assert(b <= 1);
                assert((b as int) * (den as int) <= den as int) by (nonlinear_arith)
                    requires
                        0 <= b as int <= 1,
                        0 <= den as int,
                ;
            }
            let newr: u128 = b * den + r2;
            let newden: u128 = den * 2;
            proof {
                assert(pow(3, (j + 1) as nat) == 3 * pow(3, j as nat)) by {
                    lemma_pow_adds(3, 1, j as nat);
                    lemma_pow1(3);
                }
                assert(pow(2, (j + 1) as nat) == 2 * pow(2, j as nat)) by {
                    lemma_pow_adds(2, 1, j as nat);
                    lemma_pow1(2);
                }
                lemma_fundamental_div_mod(r3 as int, den as int);
                lemma_fundamental_div_mod(qa as int, 2);
                assert((i as int) * pow(3, (j + 1) as nat) == (newq as int) * (newden as int) + (
                newr as int)) by (nonlinear_arith)
                    requires
                        (i as int) * pow(3, j as nat) == (q as int) * (den as int) + (r as int),
                        pow(3, (j + 1) as nat) == 3 * pow(3, j as nat),
                        (r3 as int) == 3 * (r as int),
                        (q3 as int) == 3 * (q as int),
                        (r3 as int) == (den as int) * (a as int) + (r2 as int),
                        (qa as int) == (q3 as int) + (a as int),
                        (qa as int) == 2 * (newq as int) + (b as int),
                        (newr as int) == (b as int) * (den as int) + (r2 as int),
                        (newden as int) == 2 * (den as int),
                ;
            }
            q = newq;
            r = newr;
            den = newden;
            j = j + 1;
        }
        proof {
            lemma_fundamental_div_mod_converse(
                (i as int) * pow(3, en),
                pow(2, en),
                q as int,
                r as int,
            );
        }
        if q >= m as u128 {
            m
        } else {
            q as u64
        }
    }

    /// Records one more crash and returns the seconds to wait before the
    /// automatic restart: in dev mode the first crash waits the configured
    /// dev wait, every other case follows the capped backoff curve.
    pub fn delay_before_restart(&mut self, mode: RunMode) -> (delay: u64)
        requires
            old(self).crash_count < usize::MAX,
        ensures
            final(self).crash_count == old(self).crash_count + 1,
            final(self).dev_crash_wait_seconds == old(self).dev_crash_wait_seconds,
            final(self).release_crash_backoff_initial_seconds == old(
                self,
            ).release_crash_backoff_initial_seconds,
            final(self).release_crash_backoff_max_seconds == old(
                self,
            ).release_crash_backoff_max_seconds,
            delay == if mode is Dev && old(self).crash_count + 1 == 1 {
                old(self).dev_crash_wait_seconds as int
            } else {
                backoff_spec(
                    old(self).release_crash_backoff_initial_seconds,
                    old(self).release_crash_backoff_max_seconds,
                    (old(self).crash_count + 1) as nat,
                )
            },
    {
        self.crash_count = self.crash_count + 1;
        match mode {
            RunMode::Dev => {
                if self.crash_count == 1 {
                    self.dev_crash_wait_seconds
                } else {
                    self.calculate_backoff()
                }
            },
            RunMode::Release => self.calculate_backoff(),
        }
    }
}

} // verus!
