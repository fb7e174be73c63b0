use grant_contracts::commit_reveal::{bid_bytes, BidError, CommitRevealContract, RevealedBid};
use grant_contracts::types::Address;
use soroban_sdk::{Bytes, Env};

fn reveal_or_panic(contract: &mut CommitRevealContract, env: &Env, grantee: Address, bid: RevealedBid, now: u64) {
    if let Err(e) = contract.reveal_bid(env, grantee, bid, now) {
        panic!("{}", e.message());
    }
}

#[test]
fn test_commit_and_reveal_success() {
    let env = Env::default();
    let mut contract = CommitRevealContract::new();
    let admin = Address(1);
    let grantee = Address(2);

    contract.open_bidding(admin, 0 + 86400);

    let milestone_costs = vec![(1u32, 500u64), (2u32, 300u64)];
    let salt = vec![42u8; 16];
    let bid = RevealedBid { grantee, amount: 1000, milestone_costs: milestone_costs.clone(), salt: salt.clone() };

    let commitment = CommitRevealContract::hash_bid(&env, &bid);

    contract.commit(grantee, commitment).unwrap();
    contract.close_bidding(admin);
    reveal_or_panic(&mut contract, &env, grantee, bid, 0);

    let revealed = contract.get_revealed_bid(grantee).unwrap();
    assert_eq!(revealed.amount, 1000);
}

#[test]
#[should_panic(expected = "does not match commitment")]
fn test_tampered_reveal_rejected() {
    let env = Env::default();
    let mut contract = CommitRevealContract::new();
    let admin = Address(1);
    let grantee = Address(2);

    contract.open_bidding(admin, 0 + 86400);

    let salt = vec![1u8; 16];
    let real_bid = RevealedBid { grantee, amount: 1000, milestone_costs: Vec::new(), salt: salt.clone() };
    let commitment = CommitRevealContract::hash_bid(&env, &real_bid);
    contract.commit(grantee, commitment).unwrap();
    contract.close_bidding(admin);

    let tampered_bid = RevealedBid { grantee, amount: 1, milestone_costs: Vec::new(), salt };
    reveal_or_panic(&mut contract, &env, grantee, tampered_bid, 0);
}

#[test]
fn preimage_is_big_endian_and_sorted_by_milestone() {
    let bid = RevealedBid {
        grantee: Address(2),
        amount: 0x0102030405060708,
        milestone_costs: vec![(2u32, 300u64), (1u32, 500u64)],
        salt: vec![0xaa, 0xbb],
    };
    let bytes = bid_bytes(&bid);
    let mut expected = vec![1u8, 2, 3, 4, 5, 6, 7, 8];
    expected.extend_from_slice(&1u32.to_be_bytes());
    expected.extend_from_slice(&500u64.to_be_bytes());
    expected.extend_from_slice(&2u32.to_be_bytes());
    expected.extend_from_slice(&300u64.to_be_bytes());
    expected.extend_from_slice(&[0xaa, 0xbb]);
    assert_eq!(bytes, expected);
}

#[test]
fn commitment_is_sha256_of_preimage_and_order_free() {
    let env = Env::default();
    let a = RevealedBid { grantee: Address(2), amount: 7, milestone_costs: vec![(2, 3), (1, 4)], salt: vec![9] };
    let b = RevealedBid { grantee: Address(2), amount: 7, milestone_costs: vec![(1, 4), (2, 3)], salt: vec![9] };
    let ha = CommitRevealContract::hash_bid(&env, &a);
    let hb = CommitRevealContract::hash_bid(&env, &b);
    assert_eq!(ha, hb);
    let direct = env.crypto().sha256(&Bytes::from_slice(&env, &bid_bytes(&a))).to_array();
    assert_eq!(ha, direct);
    assert_ne!(ha.to_vec(), bid_bytes(&a));
}

#[test]
fn commit_reveal_window_rules() {
    let env = Env::default();
    let mut contract = CommitRevealContract::new();
    let grantee = Address(2);
    assert_eq!(contract.commit(grantee, [0u8; 32]), Err(BidError::BiddingClosed));
    contract.open_bidding(Address(1), 100);
    contract.commit(grantee, [0u8; 32]).unwrap();
    assert_eq!(contract.commit(grantee, [1u8; 32]), Err(BidError::CommitmentAlreadySubmitted));
    let bid = RevealedBid { grantee, amount: 1, milestone_costs: Vec::new(), salt: Vec::new() };
    assert_eq!(contract.reveal_bid(&env, grantee, bid.clone(), 50), Err(BidError::BiddingStillOpen));
    contract.close_bidding(Address(1));
    assert_eq!(contract.reveal_bid(&env, grantee, bid.clone(), 101), Err(BidError::RevealWindowExpired));
    assert_eq!(contract.reveal_bid(&env, Address(3), bid.clone(), 50), Err(BidError::NoCommitment));
    assert_eq!(contract.get_commitment(grantee), Ok([0u8; 32]));
    assert!(contract.get_revealed_bid(grantee).is_err());
}
