//! The settlement engine: cycles, registration, payout and retry.
//!
//! The engine owns one optional current cycle and a ledger of claimants.
//! Four operations drive it: `bump` opens the next cycle, `induct` admits
//! a ranked account into the ledger, `register` reserves a share of the
//! cycle budget ahead of the payout window, and `payout` computes an
//! amount, hands it to the payment gateway, and books the attempt so that
//! it can be retried while the gateway reports it failed — without ever
//! counting a claim twice.

use std::collections::HashMap;
use vstd::prelude::*;

use crate::amounts::{
    registered_payout, registered_payout_amount, unregistered_payout, unregistered_payout_amount,
};
use crate::claims::ClaimCalculator;
use crate::members::RankedMembers;
use crate::payment::{Pay, PaymentStatus};

verus! {

broadcast use vstd::std_specs::hash::group_hash_axioms;

/// Why an operation was rejected.  Every rejection leaves all state
/// exactly as it was.
#[derive(Clone, Copy, PartialEq, Eq, Structural, Debug)]
pub enum Error {
    /// The current cycle's full window has not elapsed yet.
    NotYet,
    /// No cycle has been started yet.
    NotStarted,
    /// The account has no rank.
    NotMember,
    /// The account is already in the ledger.
    AlreadyInducted,
    /// The account is not in the ledger.
    NotInducted,
    /// Nothing to claim this cycle: already settled, settlement in
    /// flight, or still in the cycle of induction.
    NoClaim,
    /// The payout window of the current cycle has not opened yet.
    TooEarly,
    /// The computed amount is zero: a claim of zero, or an exhausted pool.
    ClaimZero,
}

/// The externally observable snapshot of the current cycle.
#[derive(Clone, Copy, PartialEq, Eq, Structural, Debug)]
pub struct StatusType {
    /// How many cycles came before this one.
    pub cycle_index: u64,
    /// The block at which this cycle's window begins.
    pub cycle_start: u64,
    /// The amount available to this cycle, fixed when it began.
    pub budget: u64,
    /// The sum of the claim amounts registered this cycle.
    pub total_registrations: u64,
    /// The sum of the amounts paid to unregistered claimants this cycle.
    pub total_unregistered_paid: u64,
}

/// A payment attempt booked for a claimant.
#[derive(Clone, Copy, PartialEq, Eq, Structural, Debug)]
pub struct Attempt {
    /// The gateway's identifier for the most recent request.
    pub id: u64,
    /// The amount of the request, replayed unchanged on retry.
    pub amount: u64,
}

/// One account's standing in the ledger.  `registered` and `attempt`
/// speak about the cycle `last_active`; a newer cycle supersedes them.
#[derive(Clone, Copy, PartialEq, Eq, Debug)]
pub struct Claimant {
    /// The last cycle in which this account was inducted, registered or
    /// paid out.
    pub last_active: u64,
    /// Whether the account registered its claim in cycle `last_active`.
    pub registered: bool,
    /// The payment attempt made in cycle `last_active`, if any.
    pub attempt: Option<Attempt>,
}

/// The engine's state as contracts see it.
pub struct EngineView {
    /// How long the registration window lasts, in blocks.
    pub registration_period: u64,
    /// How long the payout window lasts, in blocks.
    pub payout_period: u64,
    /// The current cycle, or `None` before the first `bump`.
    pub status: Option<StatusType>,
    /// The sum of the claims of registered accounts already paid out this
    /// cycle — the running sum that drives the rationing.
    pub settled: u64,
    /// Every inducted account's standing.
    pub claimants: Map<u64, Claimant>,
}

/// The settlement engine.
pub struct Salary {
    registration_period: u64,
    payout_period: u64,
    status: Option<StatusType>,
    settled: u64,
    claimants: HashMap<u64, Claimant>,
}

impl View for Salary {
    type V = EngineView;

    closed spec fn view(&self) -> EngineView {
        EngineView {
            registration_period: self.registration_period,
            payout_period: self.payout_period,
            status: self.status,
            settled: self.settled,
            claimants: self.claimants@,
        }
    }
}

impl EngineView {
    /// Claimants exist only once a first cycle exists.
    pub open spec fn wf(self) -> bool {
        self.status is None ==> self.claimants == Map::<u64, Claimant>::empty()
    }

    /// The two view fields that no operation ever changes.
    pub open spec fn same_periods(self, other: EngineView) -> bool {
        &&& self.registration_period == other.registration_period
        &&& self.payout_period == other.payout_period
    }
}

impl Salary {
    /// An engine with no cycle and an empty ledger, with the two window
    /// lengths fixed for its lifetime.
    pub fn new(registration_period: u64, payout_period: u64) -> (salary: Salary)
        ensures
            salary@.wf(),
            salary@.registration_period == registration_period,
            salary@.payout_period == payout_period,
            salary@.status is None,
            salary@.settled == 0,
            salary@.claimants == Map::<u64, Claimant>::empty(),
    {
        Salary {
            registration_period,
            payout_period,
            status: None,
            settled: 0,
            claimants: HashMap::new(),
        }
    }

    /// The current cycle snapshot, `None` before the first `bump`.
    pub fn status(&self) -> (r: Option<StatusType>)
        ensures
            r == self@.status,
    {
        self.status
    }

    /// The last cycle in which the account was active, or `NotInducted`.
    pub fn last_active(&self, who: &u64) -> (r: Result<u64, Error>)
        ensures
            r == if self@.claimants.contains_key(*who) {
                Ok::<u64, Error>(self@.claimants[*who].last_active)
            } else {
                Err::<u64, Error>(Error::NotInducted)
            },
    {
        match self.claimants.get(who) {
            Some(claimant) => Ok(claimant.last_active),
            None => Err(Error::NotInducted),
        }
    }

    /// The block at which the cycle after `s` begins: the cycles sit on a
    /// fixed grid, one full window after another.
    pub open spec fn next_cycle_start(s: StatusType, v: EngineView) -> u64 {
        s.cycle_start.saturating_add(v.registration_period.saturating_add(v.payout_period))
    }

    /// Starts the first cycle, or replaces an elapsed one.
    ///
    /// The first call always succeeds and starts cycle zero at `now`.
    /// Later calls succeed only once the current cycle's full window —
    /// registration then payout — has elapsed; the new cycle then begins
    /// where the window ended, its counters reset, with a fresh sample of
    /// the externally mutable `budget`.
    pub fn bump(&mut self, now: u64, budget: u64) -> (r: Result<(), Error>)
        requires
            old(self)@.wf(),
        ensures
            final(self)@.wf(),
            old(self)@.same_periods(final(self)@),
            final(self)@.claimants == old(self)@.claimants,
            match old(self)@.status {
                None => {
                    &&& r == Ok::<(), Error>(())
                    &&& final(self)@.status == Some(
                        StatusType {
                            cycle_index: 0,
                            cycle_start: now,
                            budget,
                            total_registrations: 0,
                            total_unregistered_paid: 0,
                        },
                    )
                    &&& final(self)@.settled == 0
                },
                Some(s) => {
                    if now < Self::next_cycle_start(s, old(self)@) {
                        &&& r == Err::<(), Error>(Error::NotYet)
                        &&& final(self)@ == old(self)@
                    } else {
                        &&& r == Ok::<(), Error>(())
                        &&& final(self)@.status == Some(
                            StatusType {
                                cycle_index: s.cycle_index.saturating_add(1),
                                cycle_start: Self::next_cycle_start(s, old(self)@),
                                budget,
                                total_registrations: 0,
                                total_unregistered_paid: 0,
                            },
                        )
                        &&& final(self)@.settled == 0
                    }
                },
            },
    {
        match self.status {
            None => {
                self.status = Some(
                    StatusType {
                        cycle_index: 0,
                        cycle_start: now,
                        budget,
                        total_registrations: 0,
                        total_unregistered_paid: 0,
                    },
                );
                self.settled = 0;
                Ok(())
            },
            Some(s) => {
                let next_start = s.cycle_start.saturating_add(
                    self.registration_period.saturating_add(self.payout_period),
                );
                if now < next_start {
                    Err(Error::NotYet)
                } else {
                    self.status = Some(
                        StatusType {
                            cycle_index: s.cycle_index.saturating_add(1),
                            cycle_start: next_start,
                            budget,
                            total_registrations: 0,
                            total_unregistered_paid: 0,
                        },
                    );
                    self.settled = 0;
                    Ok(())
                }
            },
        }
    }

    /// Admits a ranked account into the ledger.
    ///
    /// The new claimant is marked active in the current cycle, so it
    /// becomes able to register and claim only from the next cycle on.
    pub fn induct<M: RankedMembers>(&mut self, members: &M, who: u64) -> (r: Result<(), Error>)
        requires
            old(self)@.wf(),
        ensures
            final(self)@.wf(),
            old(self)@.same_periods(final(self)@),
            final(self)@.status == old(self)@.status,
            final(self)@.settled == old(self)@.settled,
            match old(self)@.status {
                None => {
                    &&& r == Err::<(), Error>(Error::NotStarted)
                    &&& final(self)@ == old(self)@
                },
                Some(s) => {
                    if !members.ranks().contains_key(who) {
                        &&& r == Err::<(), Error>(Error::NotMember)
                        &&& final(self)@ == old(self)@
                    } else if old(self)@.claimants.contains_key(who) {
                        &&& r == Err::<(), Error>(Error::AlreadyInducted)
                        &&& final(self)@ == old(self)@
                    } else {
                        &&& r == Ok::<(), Error>(())
                        &&& final(self)@.claimants == old(self)@.claimants.insert(
                            who,
                            Claimant { last_active: s.cycle_index, registered: false, attempt: None },
                        )
                    }
                },
            },
    {
        let s = match self.status {
            Some(s) => s,
            None => {
                return Err(Error::NotStarted);
            },
        };
        if members.rank_of(&who).is_none() {
            return Err(Error::NotMember);
        }
        if self.claimants.get(&who).is_some() {
            return Err(Error::AlreadyInducted);
        }
        self.claimants.insert(
            who,
            Claimant { last_active: s.cycle_index, registered: false, attempt: None },
        );
        Ok(())
    }

    /// Reserves a guaranteed share of the cycle budget ahead of payout.
    ///
    /// The account must be in the ledger and must not yet have acted this
    /// cycle; its claim amount, read fresh from its current rank, is added
    /// to the cycle's registered total.
    pub fn register<M: RankedMembers, C: ClaimCalculator>(
        &mut self,
        members: &M,
        calc: &C,
        who: u64,
    ) -> (r: Result<(), Error>)
        requires
            old(self)@.wf(),
        ensures
            final(self)@.wf(),
            old(self)@.same_periods(final(self)@),
            final(self)@.settled == old(self)@.settled,
            if !old(self)@.claimants.contains_key(who) {
                &&& r == Err::<(), Error>(Error::NotInducted)
                &&& final(self)@ == old(self)@
            } else {
                let s = old(self)@.status.unwrap();
                let c = old(self)@.claimants[who];
                if c.last_active >= s.cycle_index || !members.ranks().contains_key(who) {
                    &&& r == Err::<(), Error>(Error::NoClaim)
                    &&& final(self)@ == old(self)@
                } else {
                    &&& r == Ok::<(), Error>(())
                    &&& final(self)@.status == Some(
                        StatusType {
                            total_registrations: s.total_registrations.saturating_add(
                                claim_for(members, calc, who),
                            ),
                            ..s
                        },
                    )
                    &&& final(self)@.claimants == old(self)@.claimants.insert(
                        who,
                        Claimant { last_active: s.cycle_index, registered: true, attempt: None },
                    )
                }
            },
    {
        let c = match self.claimants.get(&who) {
            Some(c) => *c,
            None => {
                return Err(Error::NotInducted);
            },
        };
        let s = match self.status {
            Some(s) => s,
            None => {
                // A claimant exists, so by well-formedness a cycle exists.
                proof {
                    assert(false);
                }
                return Err(Error::NotInducted);
            },
        };
        if c.last_active >= s.cycle_index {
            return Err(Error::NoClaim);
        }
        let rank = match members.rank_of(&who) {
            Some(rank) => rank,
            None => {
                return Err(Error::NoClaim);
            },
        };
        let amount = calc.claim_amount(rank);
        self.status = Some(
            StatusType { total_registrations: s.total_registrations.saturating_add(amount), ..s },
        );
        self.claimants.insert(
            who,
            Claimant { last_active: s.cycle_index, registered: true, attempt: None },
        );
        Ok(())
    }
}

/// The claim the account's current rank entitles it to: zero once the
/// account has no rank any more.
pub open spec fn claim_for<M: RankedMembers, C: ClaimCalculator>(members: &M, calc: &C, who: u64) -> u64 {
    if members.ranks().contains_key(who) {
        calc.amount(members.ranks()[who])
    } else {
        0
    }
}

impl Claimant {
    /// A payment attempt of this claimant is still on the books for the
    /// given cycle.
    pub open spec fn pending_for(self, cycle_index: u64) -> bool {
        self.last_active == cycle_index && self.attempt is Some
    }

    /// The claimant registered for the given cycle and has not claimed yet.
    pub open spec fn registered_for(self, cycle_index: u64) -> bool {
        self.last_active == cycle_index && self.registered
    }
}

impl EngineView {
    /// The payout sub-window of cycle `s` has opened: the registration
    /// window that began the cycle has elapsed.
    pub open spec fn payout_window_open(self, s: StatusType, now: u64) -> bool {
        now >= s.cycle_start.saturating_add(self.registration_period)
    }
}

/// The amount a fresh claim is paid: a registered claimant's rationed
/// share, or an unregistered claimant's cut of the leftover pool.
pub open spec fn fresh_amount(s: StatusType, settled: u64, registered: bool, claim: u64) -> u64 {
    if registered {
        registered_payout(s.budget, s.total_registrations, settled, claim) as u64
    } else {
        unregistered_payout(s.budget, s.total_registrations, s.total_unregistered_paid, claim)
    }
}

/// Law: when the registered claims fit into the cycle budget, a
/// registered claimant's fresh payout is exactly its claim amount,
/// whatever was settled before it.
pub proof fn lemma_registered_claim_paid_in_full(s: StatusType, settled: u64, claim: u64)
    requires
        s.total_registrations <= s.budget,
    ensures
        fresh_amount(s, settled, true, claim) == claim,
{
    crate::amounts::lemma_registered_paid_in_full(s.budget, s.total_registrations, settled, claim);
}

/// The gateway was handed one request over `amount` for `beneficiary`,
/// and nothing else about it changed.
pub open spec fn gateway_booked<P: Pay>(before: P, after: P, beneficiary: u64, amount: u64) -> bool {
    &&& after.amounts() == before.amounts().insert(
        beneficiary,
        crate::payment::amount_requested(before.amounts(), beneficiary).saturating_add(amount),
    )
    &&& forall|i: u64| after.status_spec(i) == before.status_spec(i)
}

/// The ledger changed in exactly one entry: `who` now carries an attempt
/// over `amount` (with whatever identifier the gateway returned), marked
/// active in `last_active` with the given registration mark.
pub open spec fn attempt_booked(
    before: Map<u64, Claimant>,
    after: Map<u64, Claimant>,
    who: u64,
    last_active: u64,
    registered: bool,
    amount: u64,
) -> bool {
    &&& after.contains_key(who)
    &&& after == before.insert(who, after[who])
    &&& after[who].last_active == last_active
    &&& after[who].registered == registered
    &&& after[who].attempt is Some
    &&& after[who].attempt.unwrap().amount == amount
}

impl Salary {
    /// Pays out the account's claim for the current cycle to the chosen
    /// beneficiary.
    ///
    /// An attempt already on the books for this cycle blocks a fresh claim:
    /// while the gateway reports it `Failure` the very same amount is
    /// re-requested under a new identifier, with no counter touched a
    /// second time; under any other report the call is a no-op rejected
    /// with `NoClaim`.  A fresh claim must fall inside the payout window,
    /// the account must not have acted this cycle (unless it registered),
    /// and the computed amount must be positive; the attempt is then booked
    /// against the account and the cycle totals.
    pub fn payout<M: RankedMembers, C: ClaimCalculator, P: Pay>(
        &mut self,
        members: &M,
        calc: &C,
        paymaster: &mut P,
        now: u64,
        who: u64,
        beneficiary: u64,
    ) -> (r: Result<(), Error>)
        requires
            old(self)@.wf(),
        ensures
            final(self)@.wf(),
            old(self)@.same_periods(final(self)@),
            r is Err ==> final(self)@ == old(self)@ && *final(paymaster) == *old(paymaster),
            ({
                let v = old(self)@;
                if !v.claimants.contains_key(who) {
                    r == Err::<(), Error>(Error::NotInducted)
                } else {
                    let s = v.status.unwrap();
                    let c = v.claimants[who];
                    let claim = claim_for(members, calc, who);
                    if c.pending_for(s.cycle_index) {
                        let booked = c.attempt.unwrap();
                        if old(paymaster).status_spec(booked.id) != PaymentStatus::Failure {
                            r == Err::<(), Error>(Error::NoClaim)
                        } else {
                            &&& r == Ok::<(), Error>(())
                            &&& final(self)@.status == v.status
                            &&& final(self)@.settled == v.settled
                            &&& attempt_booked(
                                v.claimants,
                                final(self)@.claimants,
                                who,
                                c.last_active,
                                c.registered,
                                booked.amount,
                            )
                            &&& gateway_booked(
                                *old(paymaster),
                                *final(paymaster),
                                beneficiary,
                                booked.amount,
                            )
                        }
                    } else if !v.payout_window_open(s, now) {
                        r == Err::<(), Error>(Error::TooEarly)
                    } else if !(c.registered_for(s.cycle_index) || c.last_active < s.cycle_index) {
                        r == Err::<(), Error>(Error::NoClaim)
                    } else {
                        let registered = c.registered_for(s.cycle_index);
                        let amount = fresh_amount(s, v.settled, registered, claim);
                        if amount == 0 {
                            r == Err::<(), Error>(Error::ClaimZero)
                        } else {
                            &&& r == Ok::<(), Error>(())
                            &&& attempt_booked(
                                v.claimants,
                                final(self)@.claimants,
                                who,
                                s.cycle_index,
                                registered,
                                amount,
                            )
                            &&& gateway_booked(*old(paymaster), *final(paymaster), beneficiary, amount)
                            &&& if registered {
                                &&& final(self)@.settled == v.settled.saturating_add(claim)
                                &&& final(self)@.status == v.status
                            } else {
                                &&& final(self)@.settled == v.settled
                                &&& final(self)@.status == Some(
                                    StatusType {
                                        total_unregistered_paid:
                                            s.total_unregistered_paid.saturating_add(amount),
                                        ..s
                                    },
                                )
                            }
                        }
                    }
                }
            }),
    {
        let c = match self.claimants.get(&who) {
            Some(c) => *c,
            None => {
                return Err(Error::NotInducted);
            },
        };
        let s = match self.status {
            Some(s) => s,
            None => {
                // A claimant exists, so by well-formedness a cycle exists.
                proof {
                    assert(false);
                }
                return Err(Error::NotInducted);
            },
        };
        if c.last_active == s.cycle_index && c.attempt.is_some() {
            let booked = c.attempt.unwrap();
            let status = paymaster.check_payment(booked.id);
            if status == PaymentStatus::Failure {
                let new_id = paymaster.pay(&beneficiary, booked.amount);
                self.claimants.insert(
                    who,
                    Claimant {
                        last_active: c.last_active,
                        registered: c.registered,
                        attempt: Some(Attempt { id: new_id, amount: booked.amount }),
                    },
                );
                return Ok(());
            } else {
                return Err(Error::NoClaim);
            }
        }
        if now < s.cycle_start.saturating_add(self.registration_period) {
            return Err(Error::TooEarly);
        }
        let registered = c.registered && c.last_active == s.cycle_index;
        if !(registered || c.last_active < s.cycle_index) {
            return Err(Error::NoClaim);
        }
        let claim = match members.rank_of(&who) {
            Some(rank) => calc.claim_amount(rank),
            None => 0,
        };
        let amount = if registered {
            registered_payout_amount(s.budget, s.total_registrations, self.settled, claim)
        } else {
            unregistered_payout_amount(
                s.budget,
                s.total_registrations,
                s.total_unregistered_paid,
                claim,
            )
        };
        if amount == 0 {
            return Err(Error::ClaimZero);
        }
        let id = paymaster.pay(&beneficiary, amount);
        if registered {
            self.settled = self.settled.saturating_add(claim);
        } else {
            self.status = Some(
                StatusType {
                    total_unregistered_paid: s.total_unregistered_paid.saturating_add(amount),
                    ..s
                },
            );
        }
        self.claimants.insert(
            who,
            Claimant {
                last_active: s.cycle_index,
                registered,
                attempt: Some(Attempt { id, amount }),
            },
        );
        Ok(())
    }
}

} // verus!
