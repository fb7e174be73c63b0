//! Stream NFTs: a grantee wraps part of a grant stream into a transferable
//! token. Whoever holds the token receives the stream, can claim what has
//! accrued, list it for sale, or unwrap it back to the original grantee.
use vstd::prelude::*;
use std::collections::HashMap;
use crate::types::Address;

verus! {

broadcast use vstd::std_specs::hash::group_hash_axioms;

/// Shortest remaining stream that may be wrapped: one day.
pub const MIN_STREAM_DURATION: u64 = 86400;
/// Largest discount, in basis points: 50%.
pub const MAX_DISCOUNT_RATE: u32 = 5000;
/// Marketplace fee, in basis points: 2.5%.
pub const MARKETPLACE_FEE_BPS: u32 = 250;
/// Rate of the grant streams, per second.
pub const STREAM_RATE_PER_SECOND: i128 = 1000;
/// Length of the grant streams: 30 days.
pub const STREAM_LENGTH: u64 = 2592000;
/// Amount left on a grant stream.
pub const STREAM_REMAINING_AMOUNT: i128 = 2592000000;

/// Why a stream NFT operation was refused.
#[derive(Debug, Clone, Copy, PartialEq, Eq, Structural)]
pub enum StreamNFTError {
    NotInitialized,
    Unauthorized,
    StreamNotFound,
    StreamAlreadyWrapped,
    StreamNotWrapped,
    InvalidAmount,
    InvalidDuration,
    DiscountRateTooHigh,
    NFTNotFound,
    TransferFailed,
    InsufficientBalance,
    StreamExpired,
    InvalidRecipient,
    MarketplaceNotSet,
}

/// A token standing for a wrapped part of a grant stream.
#[derive(Debug, Clone, Copy, PartialEq, Eq, Structural)]
pub struct StreamNFT {
    pub token_id: u64,
    pub original_grantee: Address,
    pub current_holder: Address,
    pub grant_id: u64,
    pub total_amount: i128,
    pub remaining_amount: i128,
    pub stream_start: u64,
    pub stream_end: u64,
    pub created_at: u64,
    /// Discount when created, in basis points.
    pub discount_rate_bps: u32,
    pub marketplace_fee_paid: bool,
    pub is_active: bool,
}

/// The stream behind a token.
#[derive(Debug, Clone, Copy, PartialEq, Eq, Structural)]
pub struct WrappedStream {
    pub nft_token_id: u64,
    pub original_beneficiary: Address,
    pub current_beneficiary: Address,
    pub wrapped_amount: i128,
    pub wrap_timestamp: u64,
    pub stream_rate_per_second: i128,
    pub last_claim_timestamp: u64,
}

/// A token offered for sale.
#[derive(Debug, Clone, Copy, PartialEq, Eq, Structural)]
pub struct MarketplaceListing {
    pub nft_token_id: u64,
    pub seller: Address,
    pub asking_price: i128,
    pub listed_at: u64,
    pub expires_at: Option<u64>,
    pub is_active: bool,
}

/// Storage keys of the contract.
#[derive(Debug, Clone, Copy, PartialEq, Eq, Structural)]
pub enum StreamNFTDataKey {
    Admin,
    NextTokenId,
    NFT(u64),
    WrappedStream(u64),
    OriginalStreamNFT(u64),
    UserNFTs(Address),
    MarketplaceListing(u64),
    MarketplaceContract,
    ActiveListings,
    TotalSupply,
    RoyaltyRecipient,
}

/// A grant stream as the grant contract reports it.
#[derive(Debug, Clone, Copy, PartialEq, Eq, Structural)]
pub struct StreamDetails {
    pub grant_id: u64,
    pub stream_rate_per_second: i128,
    pub stream_start: u64,
    pub stream_end: u64,
    pub remaining_amount: i128,
}

/// Division rounding toward zero, as integer division does.
pub open spec fn tdiv(a: int, b: int) -> int {
    if a >= 0 { a / b } else { -((-a) / b) }
}

/// What is left of `ws` at `now`: the wrapped amount less what streamed
/// since wrapping, or nothing once the stream has run its course.
pub open spec fn remaining_stream(ws: WrappedStream, now: u64) -> int {
    let total_duration = tdiv(ws.wrapped_amount as int, ws.stream_rate_per_second as int);
    let elapsed = now - ws.wrap_timestamp;
    if elapsed >= (total_duration as u64) {
        0
    } else {
        ws.wrapped_amount - ws.stream_rate_per_second * elapsed
    }
}

/// What the holder of `ws` can claim at `now`: what streamed since the last
/// claim, at most what is left, and nothing once the stream has ended.
pub open spec fn available_stream(ws: WrappedStream, now: u64) -> int {
    let since = now - ws.last_claim_timestamp;
    let total_duration = tdiv(ws.wrapped_amount as int, ws.stream_rate_per_second as int);
    if since <= 0 || now >= ws.wrap_timestamp + (total_duration as u64) {
        0
    } else {
        let accrued = ws.stream_rate_per_second * since;
        let left = remaining_stream(ws, now);
        if accrued <= left { accrued } else { left }
    }
}

/// A claim on `ws` at `now`: the amount paid and the stream after it.
pub open spec fn claim_step(ws: WrappedStream, now: u64) -> (int, WrappedStream) {
    let a = available_stream(ws, now);
    if a <= 0 { (0, ws) } else { (a, WrappedStream { last_claim_timestamp: now, ..ws }) }
}

/// The total paid by claims on `ws` at the successive `times`.
pub open spec fn claims_total(ws: WrappedStream, times: Seq<u64>) -> int
    decreases times.len(),
{
    if times.len() == 0 {
        0
    } else {
        let (a, next) = claim_step(ws, times[0]);
        a + claims_total(next, times.drop_first())
    }
}

/// What is claimable never exceeds what streamed since the last claim, nor
/// what is left of the stream.
pub proof fn lemma_available_bounded(ws: WrappedStream, now: u64)
    requires
        ws.stream_rate_per_second > 0,
    ensures
        now >= ws.last_claim_timestamp ==> available_stream(ws, now) <= ws.stream_rate_per_second * (now - ws.last_claim_timestamp),
        now < ws.last_claim_timestamp ==> available_stream(ws, now) == 0,
        available_stream(ws, now) <= remaining_stream(ws, now) || available_stream(ws, now) == 0,
{
    let since = now - ws.last_claim_timestamp;
    let rate = ws.stream_rate_per_second;
    if since >= 0 {
        assert(rate * since >= 0) by (nonlinear_arith)
            requires rate > 0, since >= 0;
    }
}

/// Nothing is paid twice: claims on a stream at any non-decreasing times,
/// each starting from what the previous one left, pay together at most the
/// rate times the time since the stream's last claim before them; from a
/// fresh wrap, at most the rate times the time since wrapping.
pub proof fn lemma_claims_never_exceed_streamed(ws: WrappedStream, times: Seq<u64>)
    requires
        ws.stream_rate_per_second > 0,
        times.len() > 0,
        times[0] >= ws.last_claim_timestamp,
        forall|i: int, j: int| 0 <= i <= j < times.len() ==> times[i] <= times[j],
    ensures
        claims_total(ws, times) <= ws.stream_rate_per_second * (times.last() - ws.last_claim_timestamp),
        ws.last_claim_timestamp == ws.wrap_timestamp
            ==> claims_total(ws, times) <= ws.stream_rate_per_second * (times.last() - ws.wrap_timestamp),
    decreases times.len(),
{
    let rate = ws.stream_rate_per_second;
    let t0 = times[0];
    let last = ws.last_claim_timestamp;
    let (a, next) = claim_step(ws, t0);
    lemma_available_bounded(ws, t0);
    assert(a <= rate * (t0 - last));
    assert(a >= 0);
    let rest = times.drop_first();
    if rest.len() == 0 {
        assert(claims_total(next, rest) == 0);
        assert(times.last() == t0);
    } else {
        assert(rest.last() == times.last());
        assert(rest[0] == times[1]);
        assert forall|i: int, j: int| 0 <= i <= j < rest.len() implies rest[i] <= rest[j] by {
            assert(rest[i] == times[i + 1] && rest[j] == times[j + 1]);
        }
        assert(next.stream_rate_per_second == rate);
        assert(next.last_claim_timestamp == t0 || next.last_claim_timestamp == last);
        lemma_claims_never_exceed_streamed(next, rest);
        let tl = times.last() as int;
        let nl = next.last_claim_timestamp as int;
        assert(claims_total(next, rest) <= rate * (tl - nl));
        if a == 0 {
            assert(a + rate * (tl - nl) <= rate * (tl - last)) by (nonlinear_arith)
                requires a == 0, nl == t0 || nl == last, last <= t0, rate > 0, t0 <= tl;
        } else {
            assert(nl == t0);
            assert(a + rate * (tl - nl) <= rate * (tl - last)) by (nonlinear_arith)
                requires a <= rate * (t0 - last), nl == t0;
        }
    }
}

/// Whether the stream arithmetic of `ws` at `now` stays in range.
pub open spec fn stream_math_ok(ws: WrappedStream, now: u64) -> bool {
    let total_duration = tdiv(ws.wrapped_amount as int, ws.stream_rate_per_second as int);
    &&& ws.stream_rate_per_second > 0
    &&& now >= ws.wrap_timestamp
    &&& now >= ws.last_claim_timestamp
    &&& ws.wrap_timestamp + (total_duration as u64) <= u64::MAX
    &&& ws.stream_rate_per_second * (now - ws.wrap_timestamp) <= i128::MAX
    &&& ws.stream_rate_per_second * (now - ws.last_claim_timestamp) <= i128::MAX
    &&& i128::MIN <= ws.wrapped_amount - ws.stream_rate_per_second * (now - ws.wrap_timestamp)
}

/// The grant stream behind `grant_id` at `now`.
pub open spec fn stream_details_at(grant_id: u64, now: u64) -> StreamDetails {
    StreamDetails {
        grant_id,
        stream_rate_per_second: STREAM_RATE_PER_SECOND,
        stream_start: now,
        stream_end: (now + STREAM_LENGTH) as u64,
        remaining_amount: STREAM_REMAINING_AMOUNT,
    }
}

/// `s` without the occurrences of `x`.
pub open spec fn without(s: Seq<u64>, x: u64) -> Seq<u64> {
    s.filter(|y: u64| y != x)
}

/// `v` without the occurrences of `x`, in order.
pub fn vec_without(v: &Vec<u64>, x: u64) -> (r: Vec<u64>)
    ensures
        r@ == without(v@, x),
{
    let mut kept: Vec<u64> = Vec::new();
    let mut i: usize = 0;
    proof {
        reveal_with_fuel(Seq::<u64>::filter, 1);
        assert(v@.subrange(0, 0) =~= Seq::<u64>::empty());
    }
    while i < v.len()
        invariant
            i <= v.len(),
            kept@ == without(v@.subrange(0, i as int), x),
        decreases v.len() - i,
    {
        let ghost s = v@.subrange(0, i as int + 1);
        proof {
            reveal_with_fuel(Seq::<u64>::filter, 1);
            assert(s.drop_last() =~= v@.subrange(0, i as int));
            assert(s.last() == v@[i as int]);
        }
        if v[i] != x {
            kept.push(v[i]);
        }
        i = i + 1;
    }
    proof {
        assert(v@.subrange(0, v@.len() as int) =~= v@);
    }
    kept
}

/// The stream NFT contract. `contract_address` is the contract's own
/// address, which receives wrapped streams.
pub struct StreamNFTContract {
    pub contract_address: Address,
    pub admin: Option<Address>,
    pub next_token_id: u64,
    pub total_supply: u64,
    pub nfts: HashMap<u64, StreamNFT>,
    pub wrapped: HashMap<u64, WrappedStream>,
    /// Token wrapping each grant's stream, by grant.
    pub stream_nft_of_grant: HashMap<u64, u64>,
    /// Who receives each grant's stream, by grant.
    pub stream_beneficiary: HashMap<u64, Address>,
    /// Tokens held by each user, by user identity.
    pub user_nfts: HashMap<u64, Vec<u64>>,
    pub listings: HashMap<u64, MarketplaceListing>,
    pub active_listings: Vec<u64>,
    pub marketplace_contract: Option<Address>,
    pub royalty_recipient: Option<Address>,
}

/// Tokens held by `user` according to `lists`.
pub open spec fn list_in(lists: Map<u64, Vec<u64>>, user: u64) -> Seq<u64> {
    if lists.contains_key(user) { lists[user]@ } else { Seq::empty() }
}

impl StreamNFTContract {
    /// Tokens held by `user`.
    pub open spec fn user_list(&self, user: u64) -> Seq<u64> {
        list_in(self.user_nfts@, user)
    }

    /// The token `token_id`, if any.
    pub open spec fn nft_of(&self, token_id: u64) -> Option<StreamNFT> {
        if self.nfts@.contains_key(token_id) { Some(self.nfts@[token_id]) } else { None }
    }

    /// The stream behind token `token_id`, if any.
    pub open spec fn wrapped_of(&self, token_id: u64) -> Option<WrappedStream> {
        if self.wrapped@.contains_key(token_id) { Some(self.wrapped@[token_id]) } else { None }
    }

    /// A contract at `contract_address` with no tokens.
    pub fn new(contract_address: Address) -> (r: Self)
        ensures
            r.contract_address == contract_address,
            r.admin is None,
            r.next_token_id == 1,
            r.total_supply == 0,
            r.nfts@ == Map::<u64, StreamNFT>::empty(),
            r.wrapped@ == Map::<u64, WrappedStream>::empty(),
            r.stream_nft_of_grant@ == Map::<u64, u64>::empty(),
            r.stream_beneficiary@ == Map::<u64, Address>::empty(),
            r.user_nfts@ == Map::<u64, Vec<u64>>::empty(),
            r.listings@ == Map::<u64, MarketplaceListing>::empty(),
            r.active_listings@.len() == 0,
            r.marketplace_contract is None,
            r.royalty_recipient is None,
    {
        StreamNFTContract {
            contract_address,
            admin: None,
            next_token_id: 1,
            total_supply: 0,
            nfts: HashMap::new(),
            wrapped: HashMap::new(),
            stream_nft_of_grant: HashMap::new(),
            stream_beneficiary: HashMap::new(),
            user_nfts: HashMap::new(),
            listings: HashMap::new(),
            active_listings: Vec::new(),
            marketplace_contract: None,
            royalty_recipient: None,
        }
    }

    /// Sets the admin, restarts token numbering and supply, and records the
    /// marketplace and royalty recipient when given; a second initialization
    /// is refused (with `NotInitialized`, as the contract reports it).
    pub fn initialize(&mut self, admin: Address, marketplace_contract: Option<Address>, royalty_recipient: Option<Address>) -> (r: Result<(), StreamNFTError>)
        ensures
            old(self).admin is Some <==> r is Err,
            r is Err ==> r == Err::<(), StreamNFTError>(StreamNFTError::NotInitialized) && final(self).admin == old(self).admin
                && final(self).next_token_id == old(self).next_token_id && final(self).total_supply == old(self).total_supply
                && final(self).marketplace_contract == old(self).marketplace_contract
                && final(self).royalty_recipient == old(self).royalty_recipient,
            r is Ok ==> {
                &&& final(self).admin == Some(admin)
                &&& final(self).next_token_id == 1
                &&& final(self).total_supply == 0
                &&& final(self).marketplace_contract == if marketplace_contract is Some { marketplace_contract } else { old(self).marketplace_contract }
                &&& final(self).royalty_recipient == if royalty_recipient is Some { royalty_recipient } else { old(self).royalty_recipient }
            },
            final(self).nfts@ == old(self).nfts@,
            final(self).wrapped@ == old(self).wrapped@,
            final(self).contract_address == old(self).contract_address,
    {
        if self.admin.is_some() {
            return Err(StreamNFTError::NotInitialized);
        }
        self.admin = Some(admin);
        self.next_token_id = 1;
        self.total_supply = 0;
        if let Some(m) = marketplace_contract {
            self.marketplace_contract = Some(m);
        }
        if let Some(rr) = royalty_recipient {
            self.royalty_recipient = Some(rr);
        }
        Ok(())
    }

    /// The grant stream behind `grant_id` at `now`: a thirty-day stream of
    /// 1000 per second starting now.
    pub fn get_stream_details(grant_id: u64, now: u64) -> (r: StreamDetails)
        requires
            now + STREAM_LENGTH <= u64::MAX,
        ensures
            r == stream_details_at(grant_id, now),
    {
        StreamDetails {
            grant_id,
            stream_rate_per_second: STREAM_RATE_PER_SECOND,
            stream_start: now,
            stream_end: now + STREAM_LENGTH,
            remaining_amount: STREAM_REMAINING_AMOUNT,
        }
    }

    fn add_user_nft(&mut self, user: Address, token_id: u64)
        ensures
            forall|u: u64| #[trigger] list_in(final(self).user_nfts@, u) == if u == user.0 {
                old(self).user_list(u).push(token_id)
            } else {
                old(self).user_list(u)
            },
            final(self).user_nfts@.dom() == old(self).user_nfts@.dom().insert(user.0),
            final(self).nfts@ == old(self).nfts@,
            final(self).wrapped@ == old(self).wrapped@,
            final(self).stream_nft_of_grant@ == old(self).stream_nft_of_grant@,
            final(self).stream_beneficiary@ == old(self).stream_beneficiary@,
            final(self).listings@ == old(self).listings@,
            final(self).active_listings@ == old(self).active_listings@,
            final(self).admin == old(self).admin,
            final(self).next_token_id == old(self).next_token_id,
            final(self).total_supply == old(self).total_supply,
            final(self).contract_address == old(self).contract_address,
            final(self).marketplace_contract == old(self).marketplace_contract,
            final(self).royalty_recipient == old(self).royalty_recipient,
    {
        let mut list: Vec<u64> = match self.user_nfts.get(&user.0) {
            Some(l) => l.clone(),
            None => Vec::new(),
        };
        list.push(token_id);
        self.user_nfts.insert(user.0, list);
    }

    fn remove_user_nft(&mut self, user: Address, token_id: u64)
        ensures
            forall|u: u64| #[trigger] list_in(final(self).user_nfts@, u) == if u == user.0 {
                without(old(self).user_list(u), token_id)
            } else {
                old(self).user_list(u)
            },
            final(self).user_nfts@.dom() == old(self).user_nfts@.dom().insert(user.0),
            final(self).nfts@ == old(self).nfts@,
            final(self).wrapped@ == old(self).wrapped@,
            final(self).stream_nft_of_grant@ == old(self).stream_nft_of_grant@,
            final(self).stream_beneficiary@ == old(self).stream_beneficiary@,
            final(self).listings@ == old(self).listings@,
            final(self).active_listings@ == old(self).active_listings@,
            final(self).admin == old(self).admin,
            final(self).next_token_id == old(self).next_token_id,
            final(self).total_supply == old(self).total_supply,
            final(self).contract_address == old(self).contract_address,
            final(self).marketplace_contract == old(self).marketplace_contract,
            final(self).royalty_recipient == old(self).royalty_recipient,
    {
        let list: Vec<u64> = match self.user_nfts.get(&user.0) {
            Some(l) => vec_without(l, token_id),
            None => {
                proof {
                    reveal_with_fuel(Seq::<u64>::filter, 1);
                }
                Vec::new()
            },
        };
        self.user_nfts.insert(user.0, list);
    }

    /// Wraps `wrap_amount` of the stream of `grant_id` into a new token held
    /// by `grantee`, at `now` with discount `discount_rate_bps`. The stream
    /// is redirected to the contract. Refused for a discount above 50%, an
    /// amount above what the stream has left, a stream with less than a day
    /// to run, and a stream already wrapped. Returns the token.
    pub fn wrap_stream(&mut self, grantee: Address, grant_id: u64, wrap_amount: i128, discount_rate_bps: u32, now: u64) -> (r: Result<u64, StreamNFTError>)
        requires
            now + STREAM_LENGTH <= u64::MAX,
            old(self).next_token_id < u64::MAX,
            old(self).total_supply < u64::MAX,
        ensures
            discount_rate_bps > MAX_DISCOUNT_RATE ==> r == Err::<u64, StreamNFTError>(StreamNFTError::DiscountRateTooHigh),
            discount_rate_bps <= MAX_DISCOUNT_RATE && wrap_amount > STREAM_REMAINING_AMOUNT
                ==> r == Err::<u64, StreamNFTError>(StreamNFTError::InsufficientBalance),
            discount_rate_bps <= MAX_DISCOUNT_RATE && wrap_amount <= STREAM_REMAINING_AMOUNT
                && old(self).stream_nft_of_grant@.contains_key(grant_id)
                ==> r == Err::<u64, StreamNFTError>(StreamNFTError::StreamAlreadyWrapped),
            r is Ok <==> discount_rate_bps <= MAX_DISCOUNT_RATE && wrap_amount <= STREAM_REMAINING_AMOUNT
                && !old(self).stream_nft_of_grant@.contains_key(grant_id),
            r is Err ==> final(self).nfts@ == old(self).nfts@ && final(self).wrapped@ == old(self).wrapped@
                && final(self).stream_nft_of_grant@ == old(self).stream_nft_of_grant@
                && final(self).next_token_id == old(self).next_token_id
                && final(self).total_supply == old(self).total_supply
                && final(self).user_nfts@ == old(self).user_nfts@,
            r is Ok ==> {
                let t = old(self).next_token_id;
                &&& r == Ok::<u64, StreamNFTError>(t)
                &&& final(self).next_token_id == t + 1
                &&& final(self).total_supply == old(self).total_supply + 1
                &&& final(self).nfts@ == old(self).nfts@.insert(t, StreamNFT {
                    token_id: t,
                    original_grantee: grantee,
                    current_holder: grantee,
                    grant_id,
                    total_amount: wrap_amount,
                    remaining_amount: wrap_amount,
                    stream_start: now,
                    stream_end: (now + STREAM_LENGTH) as u64,
                    created_at: now,
                    discount_rate_bps,
                    marketplace_fee_paid: false,
                    is_active: true,
                })
                &&& final(self).wrapped@ == old(self).wrapped@.insert(t, WrappedStream {
                    nft_token_id: t,
                    original_beneficiary: grantee,
                    current_beneficiary: grantee,
                    wrapped_amount: wrap_amount,
                    wrap_timestamp: now,
                    stream_rate_per_second: STREAM_RATE_PER_SECOND,
                    last_claim_timestamp: now,
                })
                &&& final(self).stream_nft_of_grant@ == old(self).stream_nft_of_grant@.insert(grant_id, t)
                &&& final(self).stream_beneficiary@ == old(self).stream_beneficiary@.insert(grant_id, old(self).contract_address)
                &&& forall|u: u64| #[trigger] list_in(final(self).user_nfts@, u) == if u == grantee.0 {
                    old(self).user_list(u).push(t)
                } else {
                    old(self).user_list(u)
                }
            },
            final(self).admin == old(self).admin,
            final(self).contract_address == old(self).contract_address,
            final(self).listings@ == old(self).listings@,
            final(self).active_listings@ == old(self).active_listings@,
    {
        if discount_rate_bps > MAX_DISCOUNT_RATE {
            return Err(StreamNFTError::DiscountRateTooHigh);
        }
        let details = Self::get_stream_details(grant_id, now);
        if details.remaining_amount < wrap_amount {
            return Err(StreamNFTError::InsufficientBalance);
        }
        let stream_duration = details.stream_end - now;
        if stream_duration < MIN_STREAM_DURATION {
            return Err(StreamNFTError::InvalidDuration);
        }
        if self.stream_nft_of_grant.contains_key(&grant_id) {
            return Err(StreamNFTError::StreamAlreadyWrapped);
        }
        let token_id = self.next_token_id;
        self.next_token_id = token_id + 1;
        self.total_supply = self.total_supply + 1;
        let nft = StreamNFT {
            token_id,
            original_grantee: grantee,
            current_holder: grantee,
            grant_id,
            total_amount: wrap_amount,
            remaining_amount: wrap_amount,
            stream_start: details.stream_start,
            stream_end: details.stream_end,
            created_at: now,
            discount_rate_bps,
            marketplace_fee_paid: false,
            is_active: true,
        };
        self.nfts.insert(token_id, nft);
        self.add_user_nft(grantee, token_id);
        let contract = self.contract_address;
        self.stream_beneficiary.insert(grant_id, contract);
        let wrapped_stream = WrappedStream {
            nft_token_id: token_id,
            original_beneficiary: grantee,
            current_beneficiary: grantee,
            wrapped_amount: wrap_amount,
            wrap_timestamp: now,
            stream_rate_per_second: details.stream_rate_per_second,
            last_claim_timestamp: now,
        };
        self.wrapped.insert(token_id, wrapped_stream);
        self.stream_nft_of_grant.insert(grant_id, token_id);
        Ok(token_id)
    }

    /// The holder of `token_id` unwraps it: the stream returns to the
    /// original grantee and the token is burned.
    pub fn unwrap_stream(&mut self, holder: Address, token_id: u64) -> (r: Result<(), StreamNFTError>)
        requires
            old(self).nfts@.contains_key(token_id) ==> old(self).total_supply >= 1,
        ensures
            old(self).nft_of(token_id) is None ==> r == Err::<(), StreamNFTError>(StreamNFTError::NFTNotFound),
            old(self).nft_of(token_id) matches Some(n) && n.current_holder != holder
                ==> r == Err::<(), StreamNFTError>(StreamNFTError::Unauthorized),
            old(self).nft_of(token_id) matches Some(n) && n.current_holder == holder && !n.is_active
                ==> r == Err::<(), StreamNFTError>(StreamNFTError::StreamExpired),
            old(self).nft_of(token_id) matches Some(n) && n.current_holder == holder && n.is_active
                && old(self).wrapped_of(token_id) is None
                ==> r == Err::<(), StreamNFTError>(StreamNFTError::StreamNotFound),
            r is Ok <==> (old(self).nft_of(token_id) matches Some(n) && n.current_holder == holder && n.is_active
                && old(self).wrapped_of(token_id) is Some),
            r is Err ==> final(self).nfts@ == old(self).nfts@ && final(self).wrapped@ == old(self).wrapped@
                && final(self).stream_nft_of_grant@ == old(self).stream_nft_of_grant@
                && final(self).stream_beneficiary@ == old(self).stream_beneficiary@
                && final(self).total_supply == old(self).total_supply
                && final(self).user_nfts@ == old(self).user_nfts@,
            r is Ok ==> {
                let n = old(self).nfts@[token_id];
                let ws = old(self).wrapped@[token_id];
                &&& final(self).nfts@ == old(self).nfts@.remove(token_id)
                &&& final(self).wrapped@ == old(self).wrapped@.remove(token_id)
                &&& final(self).stream_nft_of_grant@ == old(self).stream_nft_of_grant@.remove(n.grant_id)
                &&& final(self).stream_beneficiary@ == old(self).stream_beneficiary@.insert(n.grant_id, ws.original_beneficiary)
                &&& final(self).total_supply == old(self).total_supply - 1
                &&& forall|u: u64| #[trigger] list_in(final(self).user_nfts@, u) == if u == holder.0 {
                    without(old(self).user_list(u), token_id)
                } else {
                    old(self).user_list(u)
                }
            },
            final(self).next_token_id == old(self).next_token_id,
            final(self).admin == old(self).admin,
    {
        let nft = match self.nfts.get(&token_id) {
            Some(n) => *n,
            None => return Err(StreamNFTError::NFTNotFound),
        };
        if nft.current_holder != holder {
            return Err(StreamNFTError::Unauthorized);
        }
        if !nft.is_active {
            return Err(StreamNFTError::StreamExpired);
        }
        let ws = match self.wrapped.get(&token_id) {
            Some(w) => *w,
            None => return Err(StreamNFTError::StreamNotFound),
        };
        self.stream_beneficiary.insert(nft.grant_id, ws.original_beneficiary);
        self.remove_user_nft(nft.current_holder, token_id);
        self.total_supply = self.total_supply - 1;
        self.nfts.remove(&token_id);
        self.wrapped.remove(&token_id);
        self.stream_nft_of_grant.remove(&nft.grant_id);
        Ok(())
    }

    /// The holder `from` hands `token_id` to `to`; the stream follows the
    /// token.
    pub fn transfer_nft(&mut self, from: Address, to: Address, token_id: u64) -> (r: Result<(), StreamNFTError>)
        ensures
            old(self).nft_of(token_id) is None ==> r == Err::<(), StreamNFTError>(StreamNFTError::NFTNotFound),
            old(self).nft_of(token_id) matches Some(n) && n.current_holder != from
                ==> r == Err::<(), StreamNFTError>(StreamNFTError::Unauthorized),
            old(self).nft_of(token_id) matches Some(n) && n.current_holder == from && !n.is_active
                ==> r == Err::<(), StreamNFTError>(StreamNFTError::StreamExpired),
            old(self).nft_of(token_id) matches Some(n) && n.current_holder == from && n.is_active
                && old(self).wrapped_of(token_id) is None
                ==> r == Err::<(), StreamNFTError>(StreamNFTError::StreamNotFound),
            r is Ok <==> (old(self).nft_of(token_id) matches Some(n) && n.current_holder == from && n.is_active
                && old(self).wrapped_of(token_id) is Some),
            r is Err ==> final(self).nfts@ == old(self).nfts@ && final(self).wrapped@ == old(self).wrapped@
                && final(self).stream_beneficiary@ == old(self).stream_beneficiary@
                && final(self).user_nfts@ == old(self).user_nfts@,
            r is Ok ==> {
                let n = old(self).nfts@[token_id];
                let ws = old(self).wrapped@[token_id];
                &&& final(self).nfts@ == old(self).nfts@.insert(token_id, StreamNFT { current_holder: to, ..n })
                &&& final(self).wrapped@ == old(self).wrapped@.insert(token_id, WrappedStream { current_beneficiary: to, ..ws })
                &&& final(self).stream_beneficiary@ == old(self).stream_beneficiary@.insert(n.grant_id, to)
                &&& final(self).user_list(to.0) == if to == from {
                    without(old(self).user_list(from.0), token_id).push(token_id)
                } else {
                    old(self).user_list(to.0).push(token_id)
                }
                &&& to != from ==> final(self).user_list(from.0) == without(old(self).user_list(from.0), token_id)
            },
            final(self).total_supply == old(self).total_supply,
            final(self).next_token_id == old(self).next_token_id,
            final(self).stream_nft_of_grant@ == old(self).stream_nft_of_grant@,
    {
        let nft = match self.nfts.get(&token_id) {
            Some(n) => *n,
            None => return Err(StreamNFTError::NFTNotFound),
        };
        if nft.current_holder != from {
            return Err(StreamNFTError::Unauthorized);
        }
        if !nft.is_active {
            return Err(StreamNFTError::StreamExpired);
        }
        let ws = match self.wrapped.get(&token_id) {
            Some(w) => *w,
            None => return Err(StreamNFTError::StreamNotFound),
        };
        self.nfts.insert(token_id, StreamNFT { current_holder: to, ..nft });
        self.remove_user_nft(from, token_id);
        self.add_user_nft(to, token_id);
        self.wrapped.insert(token_id, WrappedStream { current_beneficiary: to, ..ws });
        self.stream_beneficiary.insert(nft.grant_id, to);
        Ok(())
    }

    /// What is left of the stream `ws` at `now`.
    pub fn calculate_remaining_stream_amount(ws: &WrappedStream, now: u64) -> (r: i128)
        requires
            stream_math_ok(*ws, now),
        ensures
            r == remaining_stream(*ws, now),
    {
        let total_duration = ws.wrapped_amount / ws.stream_rate_per_second;
        let elapsed = now - ws.wrap_timestamp;
        if elapsed >= total_duration as u64 {
            return 0;
        }
        let accrued = ws.stream_rate_per_second * (elapsed as i128);
        ws.wrapped_amount - accrued
    }

    /// What the holder of `ws` can claim at `now`.
    pub fn calculate_available_stream_amount(ws: &WrappedStream, now: u64) -> (r: i128)
        requires
            stream_math_ok(*ws, now),
        ensures
            r == available_stream(*ws, now),
            r <= ws.stream_rate_per_second * (now - ws.last_claim_timestamp),
            r <= remaining_stream(*ws, now) || r == 0,
    {
        proof {
            lemma_available_bounded(*ws, now);
        }
        let since = now - ws.last_claim_timestamp;
        let total_duration = ws.wrapped_amount / ws.stream_rate_per_second;
        if since == 0 || now >= ws.wrap_timestamp + total_duration as u64 {
            return 0;
        }
        let accrued = ws.stream_rate_per_second * (since as i128);
        let left = Self::calculate_remaining_stream_amount(ws, now);
        if accrued <= left { accrued } else { left }
    }

    /// The holder claims what the stream behind `token_id` has accrued at
    /// `now`; the caller pays the returned amount of the grant token to the
    /// holder. Nothing is claimable (zero, no change) when the amount is not
    /// positive.
    pub fn claim_stream_funds(&mut self, holder: Address, token_id: u64, now: u64) -> (r: Result<i128, StreamNFTError>)
        requires
            old(self).wrapped@.contains_key(token_id) ==> stream_math_ok(old(self).wrapped@[token_id], now),
        ensures
            old(self).nft_of(token_id) is None ==> r == Err::<i128, StreamNFTError>(StreamNFTError::NFTNotFound),
            old(self).nft_of(token_id) matches Some(n) && n.current_holder != holder
                ==> r == Err::<i128, StreamNFTError>(StreamNFTError::Unauthorized),
            old(self).nft_of(token_id) matches Some(n) && n.current_holder == holder && old(self).wrapped_of(token_id) is None
                ==> r == Err::<i128, StreamNFTError>(StreamNFTError::StreamNotFound),
            old(self).nft_of(token_id) matches Some(n) && n.current_holder == holder && old(self).wrapped_of(token_id) is Some ==> {
                let ws = old(self).wrapped@[token_id];
                let a = available_stream(ws, now);
                if a <= 0 {
                    r == Ok::<i128, StreamNFTError>(0) && final(self).wrapped@ == old(self).wrapped@
                } else {
                    r == Ok::<i128, StreamNFTError>(a as i128) && final(self).wrapped@ == old(self).wrapped@.insert(
                        token_id,
                        WrappedStream { last_claim_timestamp: now, ..ws },
                    )
                }
            },
            r is Err ==> final(self).wrapped@ == old(self).wrapped@,
            r matches Ok(a) ==> 0 <= a <= old(self).wrapped@[token_id].stream_rate_per_second
                * (now - old(self).wrapped@[token_id].last_claim_timestamp),
            r matches Ok(a) ==> (a as int, final(self).wrapped@[token_id]) == claim_step(old(self).wrapped@[token_id], now),
            final(self).nfts@ == old(self).nfts@,
            final(self).user_nfts@ == old(self).user_nfts@,
            final(self).total_supply == old(self).total_supply,
    {
        let nft = match self.nfts.get(&token_id) {
            Some(n) => *n,
            None => return Err(StreamNFTError::NFTNotFound),
        };
        if nft.current_holder != holder {
            return Err(StreamNFTError::Unauthorized);
        }
        let ws = match self.wrapped.get(&token_id) {
            Some(w) => *w,
            None => return Err(StreamNFTError::StreamNotFound),
        };
        let available = Self::calculate_available_stream_amount(&ws, now);
        if available <= 0 {
            return Ok(0);
        }
        self.wrapped.insert(token_id, WrappedStream { last_claim_timestamp: now, ..ws });
        Ok(available)
    }

    /// The holder lists `token_id` for `asking_price` at `now`, for
    /// `duration_seconds` if given; a marketplace must be configured.
    pub fn list_on_marketplace(&mut self, seller: Address, token_id: u64, asking_price: i128, duration_seconds: Option<u64>, now: u64) -> (r: Result<(), StreamNFTError>)
        requires
            duration_seconds matches Some(d) ==> now + d <= u64::MAX,
        ensures
            old(self).nft_of(token_id) is None ==> r == Err::<(), StreamNFTError>(StreamNFTError::NFTNotFound),
            old(self).nft_of(token_id) matches Some(n) && n.current_holder != seller
                ==> r == Err::<(), StreamNFTError>(StreamNFTError::Unauthorized),
            old(self).nft_of(token_id) matches Some(n) && n.current_holder == seller && old(self).marketplace_contract is None
                ==> r == Err::<(), StreamNFTError>(StreamNFTError::MarketplaceNotSet),
            r is Ok <==> (old(self).nft_of(token_id) matches Some(n) && n.current_holder == seller
                && old(self).marketplace_contract is Some),
            r is Err ==> final(self).listings@ == old(self).listings@ && final(self).active_listings@ == old(self).active_listings@,
            r is Ok ==> final(self).listings@ == old(self).listings@.insert(token_id, MarketplaceListing {
                nft_token_id: token_id,
                seller,
                asking_price,
                listed_at: now,
                expires_at: match duration_seconds {
                    Some(d) => Some((now + d) as u64),
                    None => None,
                },
                is_active: true,
            }) && final(self).active_listings@ == old(self).active_listings@.push(token_id),
            final(self).nfts@ == old(self).nfts@,
            final(self).wrapped@ == old(self).wrapped@,
    {
        let nft = match self.nfts.get(&token_id) {
            Some(n) => *n,
            None => return Err(StreamNFTError::NFTNotFound),
        };
        if nft.current_holder != seller {
            return Err(StreamNFTError::Unauthorized);
        }
        if self.marketplace_contract.is_none() {
            return Err(StreamNFTError::MarketplaceNotSet);
        }
        let expires_at = match duration_seconds {
            Some(d) => Some(now + d),
            None => None,
        };
        let listing = MarketplaceListing {
            nft_token_id: token_id,
            seller,
            asking_price,
            listed_at: now,
            expires_at,
            is_active: true,
        };
        self.listings.insert(token_id, listing);
        self.active_listings.push(token_id);
        Ok(())
    }

    /// The token `token_id`.
    pub fn get_nft(&self, token_id: u64) -> (r: Result<StreamNFT, StreamNFTError>)
        ensures
            r == (match self.nft_of(token_id) {
                Some(n) => Ok::<StreamNFT, StreamNFTError>(n),
                None => Err(StreamNFTError::NFTNotFound),
            }),
    {
        match self.nfts.get(&token_id) {
            Some(n) => Ok(*n),
            None => Err(StreamNFTError::NFTNotFound),
        }
    }

    /// The stream behind `token_id`.
    pub fn get_wrapped_stream(&self, token_id: u64) -> (r: Result<WrappedStream, StreamNFTError>)
        ensures
            r == (match self.wrapped_of(token_id) {
                Some(w) => Ok::<WrappedStream, StreamNFTError>(w),
                None => Err(StreamNFTError::StreamNotFound),
            }),
    {
        match self.wrapped.get(&token_id) {
            Some(w) => Ok(*w),
            None => Err(StreamNFTError::StreamNotFound),
        }
    }

    /// Tokens held by `user`.
    pub fn get_user_nfts(&self, user: Address) -> (r: Vec<u64>)
        ensures
            r@ == self.user_list(user.0),
    {
        match self.user_nfts.get(&user.0) {
            Some(l) => l.clone(),
            None => Vec::new(),
        }
    }

    /// Number of tokens in existence.
    pub fn get_total_supply(&self) -> (r: u64)
        ensures
            r == self.total_supply,
    {
        self.total_supply
    }
}

} // verus!
