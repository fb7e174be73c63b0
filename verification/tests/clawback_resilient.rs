use grant_contracts::clawback_resilient::{BalanceError, ClawbackResilientTracker};
use grant_contracts::types::Address;

const ADMIN: Address = Address(1);
const TOKEN: Address = Address(2);
const USER: Address = Address(3);

#[test]
fn shares_absorb_clawbacks() {
    let mut t = ClawbackResilientTracker::new();
    assert_eq!(t.initialize_balance_tracking(ADMIN, TOKEN, 0, 0), Err(BalanceError::InvalidAmount));
    t.initialize_balance_tracking(ADMIN, TOKEN, 1_000_000, 0).unwrap();
    t.add_user_shares(ADMIN, TOKEN, USER, 100_000, 1_000_000, 1).unwrap();
    assert_eq!(t.get_user_balance(TOKEN, USER, 1_100_000), Ok(100_000));
    // Half the balance is clawed back: the user's claim halves with it.
    t.handle_balance_change(TOKEN, 550_000, 2).unwrap();
    assert_eq!(t.get_user_balance(TOKEN, USER, 550_000), Ok(50_000));
    let events = t.get_balance_events(TOKEN);
    assert_eq!(events.len(), 1);
    assert_eq!(events[0].old_balance, 1_000_000);
    assert_eq!(events[0].new_balance, 550_000);
    assert_eq!(events[0].reason, "External clawback detected");
}

#[test]
fn share_arithmetic() {
    assert_eq!(ClawbackResilientTracker::calculate_shares_from_amount(10, 0, 5), Err(BalanceError::ZeroShares));
    assert_eq!(ClawbackResilientTracker::calculate_shares_from_amount(50, 200, 1_000), Ok(250));
    assert_eq!(ClawbackResilientTracker::calculate_amount_from_shares(250, 200, 1_000), Ok(50));
    assert_eq!(ClawbackResilientTracker::calculate_amount_from_shares(1, 1, 0), Err(BalanceError::ZeroShares));
}

#[test]
fn removing_shares_pays_their_value() {
    let mut t = ClawbackResilientTracker::new();
    t.initialize_balance_tracking(ADMIN, TOKEN, 1_000_000, 0).unwrap();
    t.add_user_shares(ADMIN, TOKEN, USER, 100_000, 1_000_000, 1).unwrap();
    assert_eq!(t.remove_user_shares(TOKEN, USER, 0, 1_100_000, 2), Err(BalanceError::InvalidAmount));
    assert_eq!(t.remove_user_shares(TOKEN, USER, 200_000, 1_100_000, 2), Err(BalanceError::InsufficientShares));
    assert_eq!(t.remove_user_shares(TOKEN, USER, 50_000, 1_100_000, 2), Ok(50_000));
    assert_eq!(t.get_user_balance(TOKEN, USER, 1_050_000), Ok(50_000));
}
