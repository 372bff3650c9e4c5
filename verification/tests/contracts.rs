use sanctifier_core::contracts::allowance::{
    allowance_after_decrease, allowance_after_increase, allowance_after_transfer,
    stored_allowance, AllowanceError, AllowanceRaceContract, TokenTransfer,
};
use sanctifier_core::contracts::reentrancy::{GuardedStep, StaticReentrancyGood};
use sanctifier_core::contracts::token::TokenContract;

const OWNER: u64 = 1;
const SPENDER: u64 = 2;

fn setup() -> (AllowanceRaceContract, u64, u64) {
    (AllowanceRaceContract::new(), OWNER, SPENDER)
}

#[test]
fn test_race_exploit_drains_more_than_intended() {
    let (mut client, owner, spender) = setup();

    // Step 1: owner approves 100
    client.approve(true, owner, spender, 100i128).unwrap();
    assert_eq!(client.allowance(owner, spender), 100);

    // Step 2: spender front-runs and consumes the full 100 allowance
    client.approve(true, owner, spender, 0i128).unwrap(); // simulate consumed
    assert_eq!(client.allowance(owner, spender), 0);

    // Step 3: owner's intended reset to 50 lands
    client.approve(true, owner, spender, 50i128).unwrap();
    assert_eq!(client.allowance(owner, spender), 50);

    assert_eq!(
        client.allowance(owner, spender),
        50,
        "race: spender can still spend 50 after already spending 100"
    );
}

#[test]
fn race_with_transfer_from_spends_both_allowances() {
    let (mut c, owner, spender) = setup();
    c.approve(true, owner, spender, 100).unwrap();
    c.transfer_from(true, spender, owner, 9, 100).unwrap();
    c.approve(true, owner, spender, 50).unwrap();
    c.transfer_from(true, spender, owner, 9, 50).unwrap();
    assert_eq!(c.allowance(owner, spender), 0);
}

#[test]
fn test_increase_allowance_is_additive() {
    let (mut c, owner, spender) = setup();

    c.increase_allowance(true, owner, spender, 100i128).unwrap();
    assert_eq!(c.allowance(owner, spender), 100);

    c.increase_allowance(true, owner, spender, 50i128).unwrap();
    assert_eq!(c.allowance(owner, spender), 150);
}

#[test]
fn test_decrease_allowance_clamps_to_zero() {
    let (mut c, owner, spender) = setup();

    c.increase_allowance(true, owner, spender, 100i128).unwrap();
    c.decrease_allowance(true, owner, spender, 200i128).unwrap(); // would underflow
    assert_eq!(c.allowance(owner, spender), 0, "should clamp to zero");
}

#[test]
fn test_decrease_allowance_partial() {
    let (mut c, owner, spender) = setup();

    c.increase_allowance(true, owner, spender, 100i128).unwrap();
    c.decrease_allowance(true, owner, spender, 40i128).unwrap();
    assert_eq!(c.allowance(owner, spender), 60);
}

#[test]
fn test_safe_path_no_race() {
    let (mut c, owner, spender) = setup();

    c.increase_allowance(true, owner, spender, 100i128).unwrap();
    c.decrease_allowance(true, owner, spender, 50i128).unwrap();
    assert_eq!(c.allowance(owner, spender), 50, "decrease_allowance is atomic — no race possible");
}

#[test]
fn allowances_are_kept_per_pair() {
    let mut c = AllowanceRaceContract::new();
    c.approve(true, 1, 2, 10).unwrap();
    c.approve(true, 2, 1, 20).unwrap();
    c.approve(true, 1, 3, 30).unwrap();
    c.increase_allowance(true, 1, 2, 5).unwrap();
    assert_eq!(c.allowance(1, 2), 15);
    assert_eq!(c.allowance(2, 1), 20);
    assert_eq!(c.allowance(1, 3), 30);
    assert_eq!(c.allowance(3, 1), 0);
}

#[test]
fn increase_then_decrease_restores() {
    let mut c = AllowanceRaceContract::new();
    c.approve(true, 7, 8, 42).unwrap();
    c.increase_allowance(true, 7, 8, 9).unwrap();
    c.decrease_allowance(true, 7, 8, 9).unwrap();
    assert_eq!(c.allowance(7, 8), 42);
}

#[test]
fn allowance_steps() {
    assert_eq!(stored_allowance(None), 0);
    assert_eq!(stored_allowance(Some(-3)), -3);
    assert_eq!(allowance_after_transfer(100, 30), 70);
    assert_eq!(allowance_after_increase(100, 30), 130);
    assert_eq!(allowance_after_decrease(100, 30), 70);
    assert_eq!(allowance_after_decrease(10, 30), 0);
}

#[test]
fn transfer_pure_moves_amount() {
    assert_eq!(TokenContract::transfer_pure(100, 5, 40), (60, 45));
    assert_eq!(TokenContract::transfer_pure(40, 0, 40), (0, 40));
    assert_eq!(TokenContract::transfer_pure(7, -3, 0), (7, -3));
}

#[test]
fn guarded_call_refuses_reentry() {
    assert_eq!(StaticReentrancyGood::guarded_call_plan(Some(true)), None);
    let plan = vec![
        GuardedStep::SetLock(true),
        GuardedStep::InvokeCallback,
        GuardedStep::WriteState,
        GuardedStep::SetLock(false),
    ];
    assert_eq!(StaticReentrancyGood::guarded_call_plan(None), Some(plan.clone()));
    assert_eq!(StaticReentrancyGood::guarded_call_plan(Some(false)), Some(plan));
}

#[test]
fn calls_without_authorization_fail_and_change_nothing() {
    let (mut c, owner, spender) = setup();
    c.approve(true, owner, spender, 100).unwrap();
    assert_eq!(c.approve(false, owner, spender, 5), Err(AllowanceError::NotAuthorized));
    assert_eq!(c.increase_allowance(false, owner, spender, 5), Err(AllowanceError::NotAuthorized));
    assert_eq!(c.decrease_allowance(false, owner, spender, 5), Err(AllowanceError::NotAuthorized));
    assert_eq!(c.transfer_from(false, spender, owner, 3, 5), Err(AllowanceError::NotAuthorized));
    assert_eq!(c.allowance(owner, spender), 100);
}

#[test]
fn transfer_from_gives_the_one_transfer_after_the_write() {
    let (mut c, owner, spender) = setup();
    c.approve(true, owner, spender, 100).unwrap();
    let t = c.transfer_from(true, spender, owner, 3, 40).unwrap();
    assert_eq!(t, TokenTransfer { from: owner, to: 3, amount: 40 });
    assert_eq!(c.allowance(owner, spender), 60);
}
