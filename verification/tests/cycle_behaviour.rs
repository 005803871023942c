//! End-to-end behaviour of the settlement engine over whole cycles.

use salary::{
    Clock, Error, IdentityClaim, PaymentStatus, RankedMembers, Salary, StatusType, TestClub,
    TestPay,
};

const BUDGET: u64 = 10;

fn new_test_setup() -> (Clock, Salary, TestClub, TestPay, IdentityClaim) {
    (Clock::new(1), Salary::new(2, 2), TestClub::new(), TestPay::new(), IdentityClaim)
}

#[test]
fn basic_stuff() {
    let (_clock, salary, _club, _pay, _calc) = new_test_setup();
    assert!(salary.last_active(&0).is_err());
    assert_eq!(salary.status(), None);
}

#[test]
fn can_start() {
    let (clock, mut salary, _club, _pay, _calc) = new_test_setup();
    assert!(salary.bump(clock.now(), BUDGET).is_ok());
    assert_eq!(
        salary.status(),
        Some(StatusType {
            cycle_index: 0,
            cycle_start: 1,
            budget: 10,
            total_registrations: 0,
            total_unregistered_paid: 0,
        })
    );
}

#[test]
fn bump_works() {
    let (mut clock, mut salary, _club, _pay, _calc) = new_test_setup();
    assert!(salary.bump(clock.now(), BUDGET).is_ok());
    clock.run_to(4);
    assert_eq!(salary.bump(clock.now(), BUDGET), Err(Error::NotYet));

    clock.run_to(5);
    assert!(salary.bump(clock.now(), BUDGET).is_ok());
    assert_eq!(
        salary.status(),
        Some(StatusType {
            cycle_index: 1,
            cycle_start: 5,
            budget: 10,
            total_registrations: 0,
            total_unregistered_paid: 0,
        })
    );

    clock.run_to(8);
    assert_eq!(salary.bump(clock.now(), BUDGET), Err(Error::NotYet));

    let budget: u64 = 5;
    clock.run_to(9);
    assert!(salary.bump(clock.now(), budget).is_ok());
    assert_eq!(
        salary.status(),
        Some(StatusType {
            cycle_index: 2,
            cycle_start: 9,
            budget: 5,
            total_registrations: 0,
            total_unregistered_paid: 0,
        })
    );
}

#[test]
fn induct_works() {
    let (clock, mut salary, mut club, _pay, _calc) = new_test_setup();
    assert!(salary.bump(clock.now(), BUDGET).is_ok());

    assert_eq!(salary.induct(&club, 1), Err(Error::NotMember));
    club.change(&1, 1);
    assert!(salary.last_active(&1).is_err());
    assert!(salary.induct(&club, 1).is_ok());
    assert_eq!(salary.last_active(&1).unwrap(), 0);
    assert_eq!(salary.induct(&club, 1), Err(Error::AlreadyInducted));
}

#[test]
fn unregistered_payment_works() {
    let (mut clock, mut salary, mut club, mut pay, calc) = new_test_setup();
    club.change(&1, 1);
    assert_eq!(salary.induct(&club, 1), Err(Error::NotStarted));
    assert!(salary.bump(clock.now(), BUDGET).is_ok());
    assert_eq!(
        salary.payout(&club, &calc, &mut pay, clock.now(), 1, 1),
        Err(Error::NotInducted)
    );
    assert!(salary.induct(&club, 1).is_ok());
    // No claim on the cycle active during induction.
    assert_eq!(
        salary.payout(&club, &calc, &mut pay, clock.now(), 1, 1),
        Err(Error::TooEarly)
    );
    clock.run_to(3);
    assert_eq!(
        salary.payout(&club, &calc, &mut pay, clock.now(), 1, 1),
        Err(Error::NoClaim)
    );

    clock.run_to(6);
    assert!(salary.bump(clock.now(), BUDGET).is_ok());
    assert_eq!(
        salary.payout(&club, &calc, &mut pay, clock.now(), 1, 1),
        Err(Error::TooEarly)
    );
    clock.run_to(7);
    assert!(salary.payout(&club, &calc, &mut pay, clock.now(), 1, 1).is_ok());
    assert_eq!(pay.paid(1), 1);
    assert_eq!(salary.status().unwrap().total_unregistered_paid, 1);
    assert_eq!(
        salary.payout(&club, &calc, &mut pay, clock.now(), 1, 1),
        Err(Error::NoClaim)
    );
    clock.run_to(8);
    assert_eq!(salary.bump(clock.now(), BUDGET), Err(Error::NotYet));
    clock.run_to(9);
    assert!(salary.bump(clock.now(), BUDGET).is_ok());
    clock.run_to(11);
    assert!(salary.payout(&club, &calc, &mut pay, clock.now(), 1, 10).is_ok());
    assert_eq!(pay.paid(1), 1);
    assert_eq!(pay.paid(10), 1);
    assert_eq!(salary.status().unwrap().total_unregistered_paid, 1);
}

#[test]
fn retry_payment_works() {
    let (mut clock, mut salary, mut club, mut pay, calc) = new_test_setup();
    club.change(&1, 1);
    assert!(salary.bump(clock.now(), BUDGET).is_ok());
    assert!(salary.induct(&club, 1).is_ok());
    clock.run_to(6);
    assert!(salary.bump(clock.now(), BUDGET).is_ok());
    clock.run_to(7);
    assert!(salary.payout(&club, &calc, &mut pay, clock.now(), 1, 1).is_ok());

    // Payment failed.
    pay.unpay(1, 1);
    pay.set_status(0, PaymentStatus::Failure);

    // Allowed to try again.
    assert!(salary.payout(&club, &calc, &mut pay, clock.now(), 1, 1).is_ok());

    assert_eq!(pay.paid(1), 1);
    assert_eq!(salary.status().unwrap().total_unregistered_paid, 1);

    assert_eq!(
        salary.payout(&club, &calc, &mut pay, clock.now(), 1, 1),
        Err(Error::NoClaim)
    );
    clock.run_to(8);
    assert_eq!(salary.bump(clock.now(), BUDGET), Err(Error::NotYet));
    clock.run_to(9);
    assert!(salary.bump(clock.now(), BUDGET).is_ok());
    clock.run_to(11);
    assert!(salary.payout(&club, &calc, &mut pay, clock.now(), 1, 10).is_ok());
    assert_eq!(pay.paid(1), 1);
    assert_eq!(pay.paid(10), 1);
    assert_eq!(salary.status().unwrap().total_unregistered_paid, 1);
}

#[test]
fn registered_payment_works() {
    let (mut clock, mut salary, mut club, mut pay, calc) = new_test_setup();
    club.change(&1, 1);
    assert_eq!(salary.induct(&club, 1), Err(Error::NotStarted));
    assert!(salary.bump(clock.now(), BUDGET).is_ok());
    assert_eq!(
        salary.payout(&club, &calc, &mut pay, clock.now(), 1, 1),
        Err(Error::NotInducted)
    );
    assert!(salary.induct(&club, 1).is_ok());
    // No claim on the cycle active during induction.
    assert_eq!(salary.register(&club, &calc, 1), Err(Error::NoClaim));
    clock.run_to(3);
    assert_eq!(
        salary.payout(&club, &calc, &mut pay, clock.now(), 1, 1),
        Err(Error::NoClaim)
    );

    clock.run_to(5);
    assert!(salary.bump(clock.now(), BUDGET).is_ok());
    assert!(salary.register(&club, &calc, 1).is_ok());
    assert_eq!(salary.status().unwrap().total_registrations, 1);
    clock.run_to(7);
    assert!(salary.payout(&club, &calc, &mut pay, clock.now(), 1, 1).is_ok());
    assert_eq!(pay.paid(1), 1);
    assert_eq!(salary.status().unwrap().total_unregistered_paid, 0);
    assert_eq!(
        salary.payout(&club, &calc, &mut pay, clock.now(), 1, 1),
        Err(Error::NoClaim)
    );

    clock.run_to(9);
    assert!(salary.bump(clock.now(), BUDGET).is_ok());
    assert_eq!(salary.status().unwrap().total_registrations, 0);
    assert!(salary.register(&club, &calc, 1).is_ok());
    assert_eq!(salary.status().unwrap().total_registrations, 1);
    clock.run_to(11);
    assert!(salary.payout(&club, &calc, &mut pay, clock.now(), 1, 1).is_ok());
    assert_eq!(pay.paid(1), 2);
    assert_eq!(salary.status().unwrap().total_unregistered_paid, 0);
}

#[test]
fn zero_payment_fails() {
    let (mut clock, mut salary, mut club, mut pay, calc) = new_test_setup();
    assert!(salary.bump(clock.now(), BUDGET).is_ok());
    club.change(&1, 0);
    assert!(salary.induct(&club, 1).is_ok());
    clock.run_to(7);
    assert!(salary.bump(clock.now(), BUDGET).is_ok());
    assert_eq!(
        salary.payout(&club, &calc, &mut pay, clock.now(), 1, 1),
        Err(Error::ClaimZero)
    );
}

#[test]
fn unregistered_bankrupcy_fails_gracefully() {
    let (mut clock, mut salary, mut club, mut pay, calc) = new_test_setup();
    assert!(salary.bump(clock.now(), BUDGET).is_ok());
    club.change(&1, 2);
    club.change(&2, 6);
    club.change(&3, 12);

    assert!(salary.induct(&club, 1).is_ok());
    assert!(salary.induct(&club, 2).is_ok());
    assert!(salary.induct(&club, 3).is_ok());

    clock.run_to(7);
    assert!(salary.bump(clock.now(), BUDGET).is_ok());
    assert!(salary.payout(&club, &calc, &mut pay, clock.now(), 1, 1).is_ok());
    assert!(salary.payout(&club, &calc, &mut pay, clock.now(), 2, 2).is_ok());
    assert!(salary.payout(&club, &calc, &mut pay, clock.now(), 3, 3).is_ok());

    assert_eq!(pay.paid(1), 2);
    assert_eq!(pay.paid(2), 6);
    assert_eq!(pay.paid(3), 2);
}

#[test]
fn registered_bankrupcy_fails_gracefully() {
    let (mut clock, mut salary, mut club, mut pay, calc) = new_test_setup();
    assert!(salary.bump(clock.now(), BUDGET).is_ok());
    club.change(&1, 2);
    club.change(&2, 6);
    club.change(&3, 12);

    assert!(salary.induct(&club, 1).is_ok());
    assert!(salary.induct(&club, 2).is_ok());
    assert!(salary.induct(&club, 3).is_ok());

    clock.run_to(5);
    assert!(salary.bump(clock.now(), BUDGET).is_ok());
    assert!(salary.register(&club, &calc, 1).is_ok());
    assert!(salary.register(&club, &calc, 2).is_ok());
    assert!(salary.register(&club, &calc, 3).is_ok());

    clock.run_to(7);
    assert!(salary.payout(&club, &calc, &mut pay, clock.now(), 1, 1).is_ok());
    assert!(salary.payout(&club, &calc, &mut pay, clock.now(), 2, 2).is_ok());
    assert!(salary.payout(&club, &calc, &mut pay, clock.now(), 3, 3).is_ok());

    assert_eq!(pay.paid(1), 1);
    assert_eq!(pay.paid(2), 3);
    assert_eq!(pay.paid(3), 6);
}

#[test]
fn mixed_bankrupcy_fails_gracefully() {
    let (mut clock, mut salary, mut club, mut pay, calc) = new_test_setup();
    assert!(salary.bump(clock.now(), BUDGET).is_ok());
    club.change(&1, 2);
    club.change(&2, 6);
    club.change(&3, 12);

    assert!(salary.induct(&club, 1).is_ok());
    assert!(salary.induct(&club, 2).is_ok());
    assert!(salary.induct(&club, 3).is_ok());

    clock.run_to(5);
    assert!(salary.bump(clock.now(), BUDGET).is_ok());
    assert!(salary.register(&club, &calc, 1).is_ok());
    assert!(salary.register(&club, &calc, 2).is_ok());

    clock.run_to(7);
    assert!(salary.payout(&club, &calc, &mut pay, clock.now(), 3, 3).is_ok());
    assert!(salary.payout(&club, &calc, &mut pay, clock.now(), 2, 2).is_ok());
    assert!(salary.payout(&club, &calc, &mut pay, clock.now(), 1, 1).is_ok());

    assert_eq!(pay.paid(1), 2);
    assert_eq!(pay.paid(2), 6);
    assert_eq!(pay.paid(3), 2);
}

#[test]
fn other_mixed_bankrupcy_fails_gracefully() {
    let (mut clock, mut salary, mut club, mut pay, calc) = new_test_setup();
    assert!(salary.bump(clock.now(), BUDGET).is_ok());
    club.change(&1, 2);
    club.change(&2, 6);
    club.change(&3, 12);

    assert!(salary.induct(&club, 1).is_ok());
    assert!(salary.induct(&club, 2).is_ok());
    assert!(salary.induct(&club, 3).is_ok());

    clock.run_to(5);
    assert!(salary.bump(clock.now(), BUDGET).is_ok());
    assert!(salary.register(&club, &calc, 2).is_ok());
    assert!(salary.register(&club, &calc, 3).is_ok());

    clock.run_to(7);
    assert_eq!(
        salary.payout(&club, &calc, &mut pay, clock.now(), 1, 1),
        Err(Error::ClaimZero)
    );
    assert!(salary.payout(&club, &calc, &mut pay, clock.now(), 2, 2).is_ok());
    assert!(salary.payout(&club, &calc, &mut pay, clock.now(), 3, 3).is_ok());

    assert_eq!(pay.paid(1), 0);
    assert_eq!(pay.paid(2), 3);
    assert_eq!(pay.paid(3), 7);
}
