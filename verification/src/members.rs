//! The rank capability: who is a member, and of what rank.
//!
//! Ranks are assigned and removed by outside collaborators; the engine
//! only reads them.

use std::collections::HashMap;
use vstd::prelude::*;

verus! {

broadcast use vstd::std_specs::hash::group_hash_axioms;

/// A read-mostly registry of member ranks.
pub trait RankedMembers: Sized {
    /// The rank of every current member, as seen by contracts.
    spec fn ranks(&self) -> Map<u64, u64>;

    /// Looks up the rank of an account, `None` for a non-member.
    fn rank_of(&self, who: &u64) -> (r: Option<u64>)
        ensures
            r == if self.ranks().contains_key(*who) {
                Some(self.ranks()[*who])
            } else {
                None::<u64>
            },
    ;

    /// Sets or replaces the rank of an account.
    fn change(&mut self, who: &u64, rank: u64)
        ensures
            final(self).ranks() == old(self).ranks().insert(*who, rank),
    ;

    /// Removes an account from the membership.
    fn remove(&mut self, who: &u64)
        ensures
            final(self).ranks() == old(self).ranks().remove(*who),
    ;
}

/// An in-memory membership registry.
pub struct TestClub {
    table: HashMap<u64, u64>,
}

impl TestClub {
    /// An empty registry: nobody has a rank yet.
    pub fn new() -> (club: TestClub)
        ensures
            club.ranks() == Map::<u64, u64>::empty(),
    {
        TestClub { table: HashMap::new() }
    }
}

impl RankedMembers for TestClub {
    closed spec fn ranks(&self) -> Map<u64, u64> {
        self.table@
    }

    fn rank_of(&self, who: &u64) -> (r: Option<u64>) {
        match self.table.get(who) {
            Some(rank) => Some(*rank),
            None => None,
        }
    }

    fn change(&mut self, who: &u64, rank: u64) {
        self.table.insert(*who, rank);
    }

    fn remove(&mut self, who: &u64) {
        self.table.remove(who);
    }
}

} // verus!
