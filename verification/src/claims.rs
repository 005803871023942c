//! The rank-to-claim mapping.
//!
//! How large a claim a member of a given rank may make each cycle is a
//! pluggable strategy; the engine only requires that a rank of zero
//! yields no claim.

use vstd::prelude::*;

verus! {

/// A pure mapping from a member's rank to its claim amount for a cycle.
pub trait ClaimCalculator: Sized {
    /// The claim amount for a rank, as seen by contracts.
    spec fn amount(&self, rank: u64) -> u64;

    /// A rank of zero carries no claim.
    proof fn zero_rank_no_claim(&self)
        ensures
            self.amount(0) == 0,
    ;

    /// Computes the claim amount for a rank.
    fn claim_amount(&self, rank: u64) -> (a: u64)
        ensures
            a == self.amount(rank),
    ;
}

/// The simplest mapping: the claim amount is the rank itself.
pub struct IdentityClaim;

impl ClaimCalculator for IdentityClaim {
    open spec fn amount(&self, rank: u64) -> u64 {
        rank
    }

    proof fn zero_rank_no_claim(&self) {
    }

    fn claim_amount(&self, rank: u64) -> (a: u64) {
        rank
    }
}

} // verus!
