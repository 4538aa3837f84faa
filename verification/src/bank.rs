//! The guild treasury: a single pooled balance of the approved token.
//!
//! Funds enter when a passed proposal's tribute is committed and leave
//! only through the proportional withdraw used by ragequit: the payout is
//! exactly `floor(balance * shares / total_shares)`, with the full
//! double-width product formed before the division so that no truncation
//! or clamping can bias it.

use vstd::prelude::*;
use vstd::arithmetic::div_mod::{
    lemma_div_is_ordered, lemma_div_multiples_vanish, lemma_fundamental_div_mod,
    lemma_fundamental_div_mod_converse, lemma_hoist_over_denominator,
};
use vstd::arithmetic::mul::{lemma_mul_inequality, lemma_mul_inequality_converse};
use vstd::arithmetic::power2::{
    lemma2_to64, lemma_pow2_adds, lemma_pow2_pos, lemma_pow2_strictly_increases,
    lemma_pow2_unfold, pow2,
};
use crate::error::Error;
use crate::types::{AccountId, TransferRequest};

verus! {

/// The pooled treasury of the DAO.
#[derive(Debug)]
pub struct GuildBank {
    /// The approved token every balance is denominated in.
    pub token_id: AccountId,
    /// The pooled balance held for the guild as a whole.
    pub balance: u128,
}

impl GuildBank {
    /// The proportional payout for burning `shares` out of `total_shares`
    /// against a treasury holding `balance`: the exact product, divided
    /// with floor division.
    pub open spec fn spec_payout(balance: u128, shares: u128, total_shares: u128) -> int {
        if total_shares == 0 {
            0
        } else {
            (balance * shares) / (total_shares as int)
        }
    }

    /// `floor(r * s / t)` for `r < t`. The product can span two machine
    /// words, so it is never formed: the bits of `s` are scanned from the
    /// low end while `r` times the scanned power of two is kept as a
    /// quotient-remainder pair modulo `t`, which stays within one word.
    fn mul_mod_div(r: u128, s: u128, t: u128) -> (q: u128)
        requires
            1 <= t,
            r < t,
            s <= t,
        ensures
            q == (r * s) / (t as int),
    {
        let ghost mut k: nat = 0;
        let mut x: u128 = s;
        // (d, e): quotient and remainder of r * 2^k by t
        let mut d: u128 = 0;
        let mut e: u128 = r;
        // (acc_q, acc_e): quotient and remainder of r * (scanned part of s)
        let mut acc_q: u128 = 0;
        let mut acc_e: u128 = 0;
        proof {
            lemma2_to64();
            lemma_pow2_adds(64, 64);
            assert(r * (s - s * pow2(0)) == 0) by (nonlinear_arith)
                requires
                    pow2(0) == 1,
            ;
        }
        while x > 0
            invariant
                1 <= t,
                r < t,
                s <= t,
                e < t,
                acc_e < t,
                d * t + e == r * pow2(k),
                acc_q * t + acc_e == r * (s - x * pow2(k)),
                x * pow2(k) <= s,
                pow2(128) == 0x100000000000000000000000000000000,
            decreases x,
        {
            let ghost p = pow2(k) as int;
            let ghost x0 = x as int;
            proof {
                lemma_pow2_pos(k);
                // the scanned prefix never exceeds the width of s
                assert(x * p >= p) by (nonlinear_arith)
                    requires
                        1 <= x,
                        0 < p,
                ;
                if k >= 128 {
                    if k > 128 {
                        lemma_pow2_strictly_increases(128, k);
                    }
                    assert(false);
                }
            }
            let bit = x % 2;
            let ghost target = r * (s - (x0 - bit) * p);
            if bit == 1 {
                let ghost sum_q = acc_q + d;
                proof {
                    assert(sum_q * t + (acc_e + e) == target) by (nonlinear_arith)
                        requires
                            sum_q == acc_q + d,
                            bit == 1,
                            target == r * (s - (x0 - bit) * p),
                            acc_q * t + acc_e == r * (s - x0 * p),
                            d * t + e == r * p,
                    ;
                    assert(target <= r * t) by (nonlinear_arith)
                        requires
                            target == r * (s - (x0 - 1) * p),
                            1 <= x0,
                            0 < p,
                            x0 * p <= s,
                            s <= t,
                            0 <= r,
                    ;
                    assert(sum_q <= r) by (nonlinear_arith)
                        requires
                            sum_q * t + (acc_e + e) == target,
                            target <= r * t,
                            0 <= acc_e,
                            0 <= e,
                            1 <= t,
                    ;
                }
                acc_q = acc_q + d;
                if acc_e >= t - e {
                    acc_q = acc_q + 1;
                    acc_e = acc_e - (t - e);
                    proof {
                        assert(acc_q * t == sum_q * t + t) by (nonlinear_arith)
                            requires
                                acc_q == sum_q + 1,
                        ;
                    }
                } else {
                    acc_e = acc_e + e;
                }
                proof {
                    assert(acc_q * t + acc_e == target);
                }
            }
            x = x / 2;
            let ghost d0 = d as int;
            let ghost e0 = e as int;
            proof {
                lemma_pow2_unfold(k + 1);
                if k + 1 < 128 {
                    lemma_pow2_strictly_increases(k + 1, 128);
                }
                assert(r * pow2(k + 1) <= (t - 1) * pow2(128)) by (nonlinear_arith)
                    requires
                        0 <= r <= t - 1,
                        0 < pow2(k + 1) <= pow2(128),
                ;
                assert((t - 1) * pow2(128) <= t * (pow2(128) - 1)) by (nonlinear_arith)
                    requires
                        t <= pow2(128),
                ;
                assert((d + d) * t <= (u128::MAX as int) * t) by (nonlinear_arith)
                    requires
                        d * t + e == r * p,
                        0 <= e,
                        pow2(k + 1) == 2 * p,
                        r * pow2(k + 1) <= t * (u128::MAX as int),
                ;
                lemma_mul_inequality_converse((d + d) as int, u128::MAX as int, t as int);
            }
            d = d + d;
            if e >= t - e {
                proof {
                    assert((d + 1) * t <= (u128::MAX as int) * t) by (nonlinear_arith)
                        requires
                            d == 2 * d0,
                            d0 * t + e0 == r * p,
                            e == e0,
                            t <= 2 * e0,
                            pow2(k + 1) == 2 * p,
                            r * pow2(k + 1) <= t * (u128::MAX as int),
                    ;
                    lemma_mul_inequality_converse((d + 1) as int, u128::MAX as int, t as int);
                }
                d = d + 1;
                e = e - (t - e);
                proof {
                    assert(d * t + e == r * pow2(k + 1)) by (nonlinear_arith)
                        requires
                            d == 2 * d0 + 1,
                            e == 2 * e0 - t,
                            d0 * t + e0 == r * p,
                            pow2(k + 1) == 2 * p,
                    ;
                }
            } else {
                e = e + e;
                proof {
                    assert(d * t + e == r * pow2(k + 1)) by (nonlinear_arith)
                        requires
                            d == 2 * d0,
                            e == 2 * e0,
                            d0 * t + e0 == r * p,
                            pow2(k + 1) == 2 * p,
                    ;
                }
            }
            proof {
                k = k + 1;
                assert(d * t + e == r * pow2(k));
                assert(x * pow2(k) == (x0 - bit) * p) by (nonlinear_arith)
                    requires
                        pow2(k) == 2 * p,
                        x0 == 2 * x + bit,
                ;
                if bit != 1 {
                    assert(target == r * (s - x0 * p));
                }
                assert((x0 - bit) * p <= x0 * p) by (nonlinear_arith)
                    requires
                        0 <= bit,
                        0 <= p,
                ;
                assert(acc_q * t + acc_e == r * (s - x * pow2(k)));
            }
        }
        proof {
            assert(acc_q * t + acc_e == r * s) by (nonlinear_arith)
                requires
                    acc_q * t + acc_e == r * (s - x * pow2(k)),
                    x == 0,
            ;
            lemma_fundamental_div_mod_converse(
                (r * s) as int,
                t as int,
                acc_q as int,
                acc_e as int,
            );
        }
        acc_q
    }

    /// `floor(b * s / t)` for `s <= t`: the whole part of `b` contributes
    /// `(b / t) * s` outright, the remainder goes through the modular scan.
    fn mul_div(b: u128, s: u128, t: u128) -> (q: u128)
        requires
            1 <= t,
            s <= t,
        ensures
            q == (b * s) / (t as int),
    {
        let whole = b / t;
        let rest = b % t;
        let part = Self::mul_mod_div(rest, s, t);
        proof {
            lemma_fundamental_div_mod(b as int, t as int);
            assert(b * s == (rest * s) + (whole * s) * t) by (nonlinear_arith)
                requires
                    b == t * whole + rest,
            ;
            lemma_hoist_over_denominator((rest * s) as int, (whole * s) as int, t as nat);
            // the sum is the exact payout, which never exceeds b
            lemma_mul_inequality(s as int, t as int, b as int);
            lemma_div_is_ordered((b * s) as int, (b * t) as int, t as int);
            lemma_div_multiples_vanish(b as int, t as int);
        }
        whole * s + part
    }

    /// An empty treasury for the given approved token.
    pub fn new(approved_token: AccountId) -> (r: Self)
        ensures
            r.token_id == approved_token,
            r.balance == 0,
    {
        GuildBank { token_id: approved_token, balance: 0 }
    }

    /// Adds committed tribute to the pooled balance.
    pub fn deposit(&mut self, amount: u128) -> (r: Result<u128, Error>)
        ensures
            match r {
                Ok(b) => {
                    &&& old(self).balance + amount <= u128::MAX
                    &&& final(self).balance == old(self).balance + amount
                    &&& b == final(self).balance
                    &&& final(self).token_id == old(self).token_id
                },
                Err(e) => {
                    &&& e == Error::ArithmeticOverflow
                    &&& old(self).balance + amount > u128::MAX
                    &&& *final(self) == *old(self)
                },
            },
    {
        match self.balance.checked_add(amount) {
            Some(updated) => {
                self.balance = updated;
                Ok(updated)
            },
            None => Err(Error::ArithmeticOverflow),
        }
    }

    /// The pooled balance.
    pub fn get_balance(&self) -> (r: u128)
        ensures
            r == self.balance,
    {
        self.balance
    }

    /// Pays `receiver` their proportional part of the treasury for burning
    /// `shares` out of `total_shares`: the balance is decremented by the
    /// payout and the matching transfer is handed back for the host to
    /// perform.
    pub fn withdraw(&mut self, receiver: AccountId, shares: u128, total_shares: u128) -> (r:
        Result<TransferRequest, Error>)
        requires
            shares <= total_shares,
        ensures
            match r {
                Ok(t) => {
                    &&& total_shares > 0
                    &&& t.amount == Self::spec_payout(old(self).balance, shares, total_shares)
                    &&& final(self).balance == old(self).balance - t.amount
                    &&& final(self).token_id == old(self).token_id
                    &&& t.token_id@ == old(self).token_id@
                    &&& t.to == receiver
                },
                Err(e) => {
                    &&& e == Error::DivisionByZero
                    &&& total_shares == 0
                    &&& *final(self) == *old(self)
                },
            },
    {
        if total_shares == 0 {
            return Err(Error::DivisionByZero);
        }
        let amount = Self::mul_div(self.balance, shares, total_shares);
        proof {
            // the payout never exceeds the balance, since shares <= total
            lemma_mul_inequality(shares as int, total_shares as int, self.balance as int);
            lemma_div_is_ordered(
                (self.balance * shares) as int,
                (self.balance * total_shares) as int,
                total_shares as int,
            );
            lemma_div_multiples_vanish(self.balance as int, total_shares as int);
        }
        self.balance = self.balance - amount;
        Ok(TransferRequest { token_id: self.token_id.clone(), to: receiver, amount })
    }
}

} // verus!
