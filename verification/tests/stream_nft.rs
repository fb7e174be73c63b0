use grant_contracts::stream_nft::{StreamNFTContract, StreamNFTError, STREAM_LENGTH};
use grant_contracts::types::Address;

const CONTRACT: Address = Address(1000);
const ADMIN: Address = Address(1);
const MARKET: Address = Address(2);
const GRANTEE: Address = Address(10);
const BUYER: Address = Address(11);
const NOW: u64 = 50_000;

fn contract() -> StreamNFTContract {
    let mut c = StreamNFTContract::new(CONTRACT);
    c.initialize(ADMIN, Some(MARKET), None).unwrap();
    c
}

#[test]
fn wrap_mints_token_and_redirects_stream() {
    let mut c = contract();
    assert_eq!(c.initialize(ADMIN, None, None), Err(StreamNFTError::NotInitialized));
    let t = c.wrap_stream(GRANTEE, 7, 1_000_000, 500, NOW).unwrap();
    assert_eq!(t, 1);
    assert_eq!(c.get_total_supply(), 1);
    let nft = c.get_nft(t).unwrap();
    assert_eq!(nft.current_holder, GRANTEE);
    assert_eq!(nft.grant_id, 7);
    assert_eq!(nft.stream_end, NOW + STREAM_LENGTH);
    assert_eq!(c.get_user_nfts(GRANTEE), vec![1]);
    assert_eq!(c.stream_beneficiary.get(&7), Some(&CONTRACT));
    let ws = c.get_wrapped_stream(t).unwrap();
    assert_eq!(ws.wrapped_amount, 1_000_000);
    assert_eq!(ws.stream_rate_per_second, 1000);
}

#[test]
fn wrap_refusals() {
    let mut c = contract();
    assert_eq!(c.wrap_stream(GRANTEE, 7, 10, 5001, NOW), Err(StreamNFTError::DiscountRateTooHigh));
    assert_eq!(
        c.wrap_stream(GRANTEE, 7, 2_592_000_001, 0, NOW),
        Err(StreamNFTError::InsufficientBalance)
    );
    c.wrap_stream(GRANTEE, 7, 10, 0, NOW).unwrap();
    assert_eq!(c.wrap_stream(GRANTEE, 7, 10, 0, NOW), Err(StreamNFTError::StreamAlreadyWrapped));
}

#[test]
fn transfer_moves_token_and_stream() {
    let mut c = contract();
    let t = c.wrap_stream(GRANTEE, 7, 1_000_000, 0, NOW).unwrap();
    assert_eq!(c.transfer_nft(BUYER, GRANTEE, t), Err(StreamNFTError::Unauthorized));
    assert_eq!(c.transfer_nft(GRANTEE, BUYER, 99), Err(StreamNFTError::NFTNotFound));
    c.transfer_nft(GRANTEE, BUYER, t).unwrap();
    assert_eq!(c.get_nft(t).unwrap().current_holder, BUYER);
    assert_eq!(c.get_wrapped_stream(t).unwrap().current_beneficiary, BUYER);
    assert_eq!(c.stream_beneficiary.get(&7), Some(&BUYER));
    assert!(c.get_user_nfts(GRANTEE).is_empty());
    assert_eq!(c.get_user_nfts(BUYER), vec![t]);
}

#[test]
fn claim_accrues_at_stream_rate() {
    let mut c = contract();
    let t = c.wrap_stream(GRANTEE, 7, 1_000_000, 0, NOW).unwrap();
    assert_eq!(c.claim_stream_funds(GRANTEE, t, NOW), Ok(0));
    // 100 seconds at 1000 per second.
    assert_eq!(c.claim_stream_funds(GRANTEE, t, NOW + 100), Ok(100_000));
    assert_eq!(c.get_wrapped_stream(t).unwrap().last_claim_timestamp, NOW + 100);
    // 1_000_000 lasts 1000 seconds; past that nothing more is claimable.
    assert_eq!(c.claim_stream_funds(GRANTEE, t, NOW + 2000), Ok(0));
    assert_eq!(c.claim_stream_funds(BUYER, t, NOW + 200), Err(StreamNFTError::Unauthorized));
    let ws = c.get_wrapped_stream(t).unwrap();
    assert_eq!(StreamNFTContract::calculate_remaining_stream_amount(&ws, NOW + 250), 750_000);
}

#[test]
fn unwrap_burns_and_returns_stream() {
    let mut c = contract();
    let t = c.wrap_stream(GRANTEE, 7, 1_000_000, 0, NOW).unwrap();
    c.transfer_nft(GRANTEE, BUYER, t).unwrap();
    assert_eq!(c.unwrap_stream(GRANTEE, t), Err(StreamNFTError::Unauthorized));
    c.unwrap_stream(BUYER, t).unwrap();
    assert_eq!(c.get_total_supply(), 0);
    assert_eq!(c.get_nft(t), Err(StreamNFTError::NFTNotFound));
    assert_eq!(c.get_wrapped_stream(t), Err(StreamNFTError::StreamNotFound));
    assert_eq!(c.stream_beneficiary.get(&7), Some(&GRANTEE));
    assert!(c.get_user_nfts(BUYER).is_empty());
    // The grant can be wrapped again.
    assert_eq!(c.wrap_stream(GRANTEE, 7, 10, 0, NOW), Ok(2));
}

#[test]
fn listing_needs_marketplace() {
    let mut c = StreamNFTContract::new(CONTRACT);
    c.initialize(ADMIN, None, None).unwrap();
    let t = c.wrap_stream(GRANTEE, 7, 100, 0, NOW).unwrap();
    assert_eq!(
        c.list_on_marketplace(GRANTEE, t, 90, None, NOW),
        Err(StreamNFTError::MarketplaceNotSet)
    );
    let mut m = contract();
    let t = m.wrap_stream(GRANTEE, 7, 100, 0, NOW).unwrap();
    assert_eq!(m.list_on_marketplace(BUYER, t, 90, None, NOW), Err(StreamNFTError::Unauthorized));
    m.list_on_marketplace(GRANTEE, t, 90, Some(60), NOW).unwrap();
    let listing = m.listings.get(&t).unwrap();
    assert_eq!(listing.asking_price, 90);
    assert_eq!(listing.expires_at, Some(NOW + 60));
    assert_eq!(m.active_listings, vec![t]);
}
