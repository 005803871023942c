//! The per-claim payment amounts and their conservation laws.
//!
//! A cycle has a fixed `budget`.  Accounts that registered ahead of the
//! payout window reserved `total` (the sum of their claim amounts) of it;
//! when `total` exceeds `budget` the registered claims are rationed by
//! scaling the running sum of honoured claims into the budget, so that
//! the payments always add up to exactly `min(budget, total)` once every
//! registered account has settled.  Unregistered accounts share whatever
//! the reservation left over, first come first served.

use vstd::arithmetic::div_mod::{lemma_div_by_multiple, lemma_div_is_ordered};
use vstd::arithmetic::mul::{lemma_mul_inequality, lemma_mul_upper_bound};
use vstd::prelude::*;

verus! {

/// The running claim sum `x`, scaled into the budget: `x * budget / total`.
pub open spec fn scaled(x: u64, budget: u64, total: u64) -> int
    recommends
        total > 0,
{
    (x * budget) / (total as int)
}

/// What a registered account is paid, as a mathematical integer: the
/// scaled running sum after its claim, minus the scaled running sum
/// before it.  `settled` is the sum of the claims of the registered
/// accounts that were paid earlier in the cycle.  When the registered
/// claims fit into the budget no rationing is needed and the claim is
/// paid in full.
pub open spec fn registered_payout(budget: u64, total: u64, settled: u64, claim: u64) -> int {
    if total > budget {
        scaled(settled.saturating_add(claim), budget, total) - scaled(settled, budget, total)
    } else {
        claim as int
    }
}

/// What is left for unregistered accounts: the budget minus the
/// registered reservation, minus what unregistered accounts were
/// already paid this cycle.
pub open spec fn remaining_pool(budget: u64, total: u64, unregistered_paid: u64) -> u64 {
    budget.saturating_sub(total).saturating_sub(unregistered_paid)
}

/// What an unregistered account is paid: its claim, capped by the pool.
pub open spec fn unregistered_payout(budget: u64, total: u64, unregistered_paid: u64, claim: u64) -> u64 {
    if claim < remaining_pool(budget, total, unregistered_paid) {
        claim
    } else {
        remaining_pool(budget, total, unregistered_paid)
    }
}

/// The scaled sum never exceeds the running sum itself when the ration
/// denominator is at least the budget.
proof fn lemma_scaled_le_x(x: u64, budget: u64, total: u64)
    requires
        total > budget,
    ensures
        0 <= scaled(x, budget, total) <= x,
{
    lemma_mul_inequality(budget as int, total as int, x as int);
    lemma_div_is_ordered(x * budget, x * total, total as int);
    lemma_div_by_multiple(x as int, total as int);
    assert(x * budget == budget * x) by (nonlinear_arith);
    assert(x * total == total * x) by (nonlinear_arith);
    assert(x * budget >= 0) by (nonlinear_arith);
    assert(x * budget / (total as int) >= 0);
}

/// Scaling is monotone in the running sum.
proof fn lemma_scaled_monotone(x: u64, y: u64, budget: u64, total: u64)
    requires
        total > 0,
        x <= y,
    ensures
        scaled(x, budget, total) <= scaled(y, budget, total),
{
    lemma_mul_inequality(x as int, y as int, budget as int);
    lemma_div_is_ordered(x * budget, y * budget, total as int);
}

/// Computes `registered_payout` in `u64` arithmetic, without overflow.
pub fn registered_payout_amount(budget: u64, total: u64, settled: u64, claim: u64) -> (r: u64)
    ensures
        r as int == registered_payout(budget, total, settled, claim),
{
    if total > budget {
        let new_settled = settled.saturating_add(claim);
        proof {
            lemma_mul_upper_bound(new_settled as int, u64::MAX as int, budget as int, u64::MAX as int);
            lemma_mul_upper_bound(settled as int, u64::MAX as int, budget as int, u64::MAX as int);
            lemma_scaled_le_x(new_settled, budget, total);
            lemma_scaled_le_x(settled, budget, total);
            lemma_scaled_monotone(settled, new_settled, budget, total);
        }
        let hi: u128 = (new_settled as u128) * (budget as u128) / (total as u128);
        let lo: u128 = (settled as u128) * (budget as u128) / (total as u128);
        (hi - lo) as u64
    } else {
        claim
    }
}

/// The sum of a sequence of claim amounts.
pub open spec fn seq_sum(claims: Seq<u64>) -> int
    decreases claims.len(),
{
    if claims.len() == 0 {
        0
    } else {
        claims[0] + seq_sum(claims.drop_first())
    }
}

/// The total paid to a run of registered accounts that settle in order,
/// starting from a running claim sum of `settled`.
pub open spec fn registered_paid_total(budget: u64, total: u64, settled: u64, claims: Seq<u64>) -> int
    decreases claims.len(),
{
    if claims.len() == 0 {
        0
    } else {
        registered_payout(budget, total, settled, claims[0]) + registered_paid_total(
            budget,
            total,
            settled.saturating_add(claims[0]),
            claims.drop_first(),
        )
    }
}

/// The running claim sum, scaled only when rationing applies.
pub open spec fn capped_scale(x: int, budget: u64, total: u64) -> int {
    if total > budget {
        (x * budget) / (total as int)
    } else {
        x
    }
}

proof fn lemma_seq_sum_nonneg(claims: Seq<u64>)
    ensures
        seq_sum(claims) >= 0,
    decreases claims.len(),
{
    if claims.len() > 0 {
        lemma_seq_sum_nonneg(claims.drop_first());
    }
}

/// The payments to registered accounts telescope: however the claims are
/// interleaved with other operations, the total paid to a run of them is
/// the difference of the capped scaled sums at its two ends.
proof fn lemma_registered_paid_telescopes(budget: u64, total: u64, settled: u64, claims: Seq<u64>)
    requires
        settled + seq_sum(claims) <= total,
    ensures
        registered_paid_total(budget, total, settled, claims) == capped_scale(
            settled + seq_sum(claims),
            budget,
            total,
        ) - capped_scale(settled as int, budget, total),
    decreases claims.len(),
{
    if claims.len() > 0 {
        let c0 = claims[0];
        lemma_seq_sum_nonneg(claims.drop_first());
        assert(settled + c0 <= total);
        let new_settled = settled.saturating_add(c0);
        assert(new_settled == settled + c0);
        lemma_registered_paid_telescopes(budget, total, new_settled, claims.drop_first());
    }
}

/// Law: once every registered account has settled (the settled claims sum
/// to the whole registered total), the payments add up to exactly
/// `min(budget, total)`, in whatever order the accounts claimed.
pub proof fn lemma_registered_paid_exact(budget: u64, total: u64, claims: Seq<u64>)
    requires
        seq_sum(claims) == total,
    ensures
        registered_paid_total(budget, total, 0, claims) == if budget < total {
            budget as int
        } else {
            total as int
        },
{
    lemma_registered_paid_telescopes(budget, total, 0, claims);
    if total > budget {
        lemma_div_by_multiple(budget as int, total as int);
        assert(total * budget == budget * total) by (nonlinear_arith);
        assert((0 as int * budget) / (total as int) == 0);
    }
}

/// Law: while registered accounts are still settling, the payments so far
/// never exceed `min(budget, total)`.
pub proof fn lemma_registered_paid_capped(budget: u64, total: u64, claims: Seq<u64>)
    requires
        seq_sum(claims) <= total,
    ensures
        registered_paid_total(budget, total, 0, claims) <= if budget < total {
            budget as int
        } else {
            total as int
        },
{
    lemma_seq_sum_nonneg(claims);
    lemma_registered_paid_telescopes(budget, total, 0, claims);
    if total > budget {
        let s = seq_sum(claims);
        lemma_mul_inequality(s, total as int, budget as int);
        lemma_div_is_ordered(s * budget, (total as int) * (budget as int), total as int);
        lemma_div_by_multiple(budget as int, total as int);
        assert((total as int) * (budget as int) == (budget as int) * (total as int))
            by (nonlinear_arith);
        assert((0 as int * budget) / (total as int) == 0);
    }
}

/// Law: when the registered claims fit into the budget, no rationing is
/// applied and each registered account is paid its claim in full.
pub proof fn lemma_registered_paid_in_full(budget: u64, total: u64, settled: u64, claim: u64)
    requires
        total <= budget,
    ensures
        registered_payout(budget, total, settled, claim) == claim,
{
}

/// Law: an unregistered payment never exceeds the claim nor the pool, and
/// it draws the pool down by exactly the amount paid, so the pool only
/// ever shrinks and nothing is paid out of it twice.
pub proof fn lemma_unregistered_pool_conserved(budget: u64, total: u64, unregistered_paid: u64, claim: u64)
    ensures
        unregistered_payout(budget, total, unregistered_paid, claim) <= claim,
        unregistered_payout(budget, total, unregistered_paid, claim) <= remaining_pool(
            budget,
            total,
            unregistered_paid,
        ),
        remaining_pool(
            budget,
            total,
            unregistered_paid.saturating_add(
                unregistered_payout(budget, total, unregistered_paid, claim),
            ),
        ) == remaining_pool(budget, total, unregistered_paid) - unregistered_payout(
            budget,
            total,
            unregistered_paid,
            claim,
        ),
{
}

/// The unregistered running total after a run of unregistered claims paid
/// in call order.
pub open spec fn unregistered_paid_after(budget: u64, total: u64, unregistered_paid: u64, claims: Seq<u64>) -> u64
    decreases claims.len(),
{
    if claims.len() == 0 {
        unregistered_paid
    } else {
        unregistered_paid_after(
            budget,
            total,
            unregistered_paid.saturating_add(
                unregistered_payout(budget, total, unregistered_paid, claims[0]),
            ),
            claims.drop_first(),
        )
    }
}

/// Law: unregistered payments never overdraw the pool left by the
/// registered claims, however many accounts claim.
pub proof fn lemma_unregistered_never_overdraws(budget: u64, total: u64, unregistered_paid: u64, claims: Seq<u64>)
    requires
        unregistered_paid <= budget.saturating_sub(total),
    ensures
        unregistered_paid_after(budget, total, unregistered_paid, claims) <= budget.saturating_sub(
            total,
        ),
    decreases claims.len(),
{
    if claims.len() > 0 {
        let a = unregistered_payout(budget, total, unregistered_paid, claims[0]);
        lemma_unregistered_never_overdraws(
            budget,
            total,
            unregistered_paid.saturating_add(a),
            claims.drop_first(),
        );
    }
}

/// Computes `unregistered_payout` in `u64` arithmetic.
pub fn unregistered_payout_amount(budget: u64, total: u64, unregistered_paid: u64, claim: u64) -> (r: u64)
    ensures
        r == unregistered_payout(budget, total, unregistered_paid, claim),
{
    let pool = budget.saturating_sub(total).saturating_sub(unregistered_paid);
    if claim < pool {
        claim
    } else {
        pool
    }
}

} // verus!
