//! A periodic, budget-constrained claim-settlement engine.
//!
//! Ranked members join a ledger, optionally register a claim for the
//! current budget cycle, and collect a payment whose size is a function
//! of their rank.  Registered claims are rationed so that the cycle
//! budget is never overspent; unregistered claims are served in call
//! order from whatever the registered claims left over.  Payments are
//! executed through an external gateway and may be retried while a
//! prior attempt is reported as failed, without ever double-counting.

pub mod amounts;
pub mod claims;
pub mod clock;
pub mod engine;
pub mod members;
pub mod payment;

pub use amounts::{
    registered_payout, registered_payout_amount, remaining_pool, unregistered_payout,
    unregistered_payout_amount,
};
pub use claims::{ClaimCalculator, IdentityClaim};
pub use clock::Clock;
pub use engine::{Attempt, Claimant, EngineView, Error, Salary, StatusType};
pub use members::{RankedMembers, TestClub};
pub use payment::{Pay, PaymentStatus, TestPay};
