//! The payment capability: a fire-and-forget gateway.
//!
//! A payment request returns an identifier at once; whether the transfer
//! went through is learnt later by asking for the identifier's status.
//! The engine retries a payment only while its status reads `Failure`.

use std::collections::HashMap;
use vstd::prelude::*;

verus! {

broadcast use vstd::std_specs::hash::group_hash_axioms;

/// The asynchronous fate of a payment request.
#[derive(Clone, Copy, PartialEq, Eq, Structural, Debug)]
pub enum PaymentStatus {
    /// The transfer has not settled yet.
    Pending,
    /// The transfer went through.
    Success,
    /// The transfer failed; the request may be re-attempted.
    Failure,
    /// Nothing is known of the identifier.
    Unknown,
}

/// The amount requested so far for one account, zero if none was.
pub open spec fn amount_requested(amounts: Map<u64, u64>, who: u64) -> u64 {
    if amounts.contains_key(who) {
        amounts[who]
    } else {
        0
    }
}

/// A payment gateway.
pub trait Pay: Sized {
    /// The cumulative amount requested per account, as seen by contracts.
    spec fn amounts(&self) -> Map<u64, u64>;

    /// The status the gateway reports for an identifier.
    spec fn status_spec(&self, id: u64) -> PaymentStatus;

    /// Requests a transfer and returns its identifier at once.
    fn pay(&mut self, who: &u64, amount: u64) -> (id: u64)
        ensures
            final(self).amounts() == old(self).amounts().insert(
                *who,
                amount_requested(old(self).amounts(), *who).saturating_add(amount),
            ),
            forall|i: u64| final(self).status_spec(i) == old(self).status_spec(i),
    ;

    /// Asks for the status of an earlier request.
    fn check_payment(&self, id: u64) -> (s: PaymentStatus)
        ensures
            s == self.status_spec(id),
    ;
}

/// An in-memory gateway: it books every request at once and hands out
/// sequential identifiers, and its statuses are set by hand.
pub struct TestPay {
    booked: HashMap<u64, u64>,
    statuses: HashMap<u64, PaymentStatus>,
    last_id: u64,
}

impl TestPay {
    /// A fresh gateway: nothing requested, no statuses, identifiers from zero.
    pub fn new() -> (pay: TestPay)
        ensures
            pay.amounts() == Map::<u64, u64>::empty(),
            forall|i: u64| pay.status_spec(i) == PaymentStatus::Unknown,
    {
        TestPay { booked: HashMap::new(), statuses: HashMap::new(), last_id: 0 }
    }

    /// The cumulative amount requested for an account.
    pub fn paid(&self, who: u64) -> (r: u64)
        ensures
            r == amount_requested(self.amounts(), who),
    {
        match self.booked.get(&who) {
            Some(amount) => *amount,
            None => 0,
        }
    }

    /// Takes an amount back off an account's book, as when a transfer is
    /// found not to have gone through.
    pub fn unpay(&mut self, who: u64, amount: u64)
        ensures
            final(self).amounts() == old(self).amounts().insert(
                who,
                amount_requested(old(self).amounts(), who).saturating_sub(amount),
            ),
            forall|i: u64| final(self).status_spec(i) == old(self).status_spec(i),
    {
        let current = self.paid(who);
        self.booked.insert(who, current.saturating_sub(amount));
    }

    /// Records the status that later `check_payment` calls will report.
    pub fn set_status(&mut self, id: u64, status: PaymentStatus)
        ensures
            final(self).amounts() == old(self).amounts(),
            final(self).status_spec(id) == status,
            forall|i: u64| i != id ==> final(self).status_spec(i) == old(self).status_spec(i),
    {
        self.statuses.insert(id, status);
    }
}

impl Pay for TestPay {
    closed spec fn amounts(&self) -> Map<u64, u64> {
        self.booked@
    }

    closed spec fn status_spec(&self, id: u64) -> PaymentStatus {
        if self.statuses@.contains_key(id) {
            self.statuses@[id]
        } else {
            PaymentStatus::Unknown
        }
    }

    fn pay(&mut self, who: &u64, amount: u64) -> (id: u64) {
        let current = self.paid(*who);
        self.booked.insert(*who, current.saturating_add(amount));
        let id = self.last_id;
        self.last_id = self.last_id.saturating_add(1);
        id
    }

    fn check_payment(&self, id: u64) -> (s: PaymentStatus) {
        match self.statuses.get(&id) {
            Some(s) => *s,
            None => PaymentStatus::Unknown,
        }
    }
}

} // verus!
