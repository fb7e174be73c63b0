use grant_contracts::grant_stream::{ContractError, Grant, GrantStream, Milestone, PaymentStatus};
use grant_contracts::types::Address;

fn milestone(amount: i128, approved: bool) -> Milestone {
    Milestone {
        amount,
        description: String::from("m"),
        deliverable_hash: [0u8; 32],
        approvals_received: 0,
        required_approvals: 1,
        is_approved: approved,
        is_released: false,
        start_time: 0,
        deadline: 1000,
    }
}

fn grant(total: i128, start: u64, end: u64) -> Grant {
    Grant {
        recipient: Address(1),
        sponsor: Address(2),
        asset: Address(3),
        total_amount: total,
        released_amount: 0,
        stream_cap_per_ledger: 500,
        milestones: vec![milestone(300, true), milestone(200, false), milestone(900, true)],
        reviewers: vec![],
        required_approvals: 1,
        is_cancelled: false,
        is_frozen: false,
        freeze_reason: None,
        start_time: start,
        end_time: end,
        payment_status: PaymentStatus::Active,
        last_settled_ledger: 0,
    }
}

#[test]
fn prorated_amount_follows_time() {
    let g = grant(1000, 100, 200);
    assert_eq!(GrantStream::calculate_prorated_amount(&g, 100), 0);
    assert_eq!(GrantStream::calculate_prorated_amount(&g, 150), 500);
    assert_eq!(GrantStream::calculate_prorated_amount(&g, 175), 750);
    assert_eq!(GrantStream::calculate_prorated_amount(&g, 200), 1_000);
    assert_eq!(GrantStream::calculate_prorated_amount(&g, 250), 1_000);
}

#[test]
fn cancel_pays_prorated_once() {
    let mut s = GrantStream::new();
    assert_eq!(s.cancel_stream(1, 150), Err(ContractError::GrantNotFound));
    s.put_grant(1, grant(1000, 100, 200));
    assert_eq!(s.cancel_stream(1, 150), Ok(500));
    let g = s.grants.get(&1).unwrap();
    assert!(g.is_cancelled);
    assert_eq!(g.released_amount, 500);
    assert_eq!(g.payment_status, PaymentStatus::Cancelled);
    assert_eq!(g.end_time, 150);
    assert_eq!(s.force_cancel_stream(1, 160), Err(ContractError::AlreadyCancelled));
}

#[test]
fn milestones_release_in_bounds() {
    let mut s = GrantStream::new();
    s.put_grant(1, grant(1000, 100, 200));
    assert_eq!(s.release_milestone(1, 0), Ok(300));
    assert_eq!(s.release_milestone(1, 0), Err(ContractError::MilestoneAlreadyReleased));
    assert_eq!(s.release_milestone(1, 1), Err(ContractError::MilestoneNotApproved));
    assert_eq!(s.release_milestone(1, 2), Err(ContractError::StreamCapExceeded));
    assert_eq!(s.release_milestone(1, 7), Err(ContractError::MilestoneNotFound));
    assert_eq!(s.grants.get(&1).unwrap().released_amount, 300);
}

#[test]
fn frozen_grants_release_nothing() {
    let mut s = GrantStream::new();
    s.put_grant(1, grant(1000, 100, 200));
    assert_eq!(s.unfreeze_grant(1), Err(ContractError::NotFrozen));
    s.freeze_grant(1, String::from("audit")).unwrap();
    assert_eq!(s.freeze_grant(1, String::from("again")), Err(ContractError::AlreadyFrozen));
    assert_eq!(s.release_milestone(1, 0), Err(ContractError::GrantFrozen));
    s.unfreeze_grant(1).unwrap();
    assert_eq!(s.release_milestone(1, 0), Ok(300));
}

#[test]
fn cancel_before_start_pays_nothing_and_cannot_repeat() {
    let mut s = GrantStream::new();
    s.put_grant(1, grant(1000, 100, 200));
    assert_eq!(s.cancel_stream(1, 50), Ok(0));
    assert_eq!(s.grants.get(&1).unwrap().end_time, 50);
    assert_eq!(s.cancel_stream(1, 60), Err(ContractError::AlreadyCancelled));
}
