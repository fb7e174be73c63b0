//! Price oracle: feeds of asset-pair prices with a staleness bound, and
//! conversions between USD and XLM amounts at the current price.
use vstd::prelude::*;
use std::collections::HashMap;
use crate::types::{Address, pair_key, make_pair_key};

verus! {

broadcast use vstd::std_specs::hash::group_hash_axioms;

/// Oldest price age accepted, in seconds: 20 minutes.
pub const MAX_STALENESS_SECONDS: u64 = 1200;
/// Fixed-point scale of prices: 6 decimal places.
pub const PRICE_SCALING_FACTOR: i128 = 1_000_000;

/// A price of `base_asset` in units of `quote_asset`, scaled by
/// `PRICE_SCALING_FACTOR`, observed at `timestamp`.
#[derive(Debug, Clone, Copy, PartialEq, Eq, Structural)]
pub struct OraclePriceFeed {
    pub base_asset: Address,
    pub quote_asset: Address,
    pub price: i128,
    pub timestamp: u64,
    pub decimals: u32,
}

/// Why an oracle query was refused.
#[derive(Debug, Clone, Copy, PartialEq, Eq, Structural)]
pub enum OracleError {
    StalePriceData,
    InvalidPrice,
    OracleNotFound,
    MathOverflow,
    InvalidAssets,
    InvalidAmount,
}

/// The oracle's stored feeds, keyed by (base, quote).
pub struct GrantStreamOracle {
    pub feeds: HashMap<u128, OraclePriceFeed>,
}

/// Whether a price observed at `timestamp` is too old at `now`; a timestamp
/// ahead of `now` has age zero.
pub open spec fn is_stale(now: u64, timestamp: u64) -> bool {
    now > timestamp && now - timestamp > MAX_STALENESS_SECONDS
}

/// The price of the reverse pair implied by `price`.
pub open spec fn inverse_price(price: i128) -> int {
    (PRICE_SCALING_FACTOR * PRICE_SCALING_FACTOR) / (price as int)
}

/// A stored feed, if any, has a positive price and belongs to its pair.
pub open spec fn feed_fits(f: Option<OraclePriceFeed>, base: Address, quote: Address) -> bool {
    f matches Some(g) ==> g.price > 0 && g.base_asset == base && g.quote_asset == quote
}

impl GrantStreamOracle {
    /// The feed stored for (base, quote), if any.
    pub open spec fn stored(&self, base: Address, quote: Address) -> Option<OraclePriceFeed> {
        if self.feeds@.contains_key(pair_key(base.0, quote.0)) {
            Some(self.feeds@[pair_key(base.0, quote.0)])
        } else {
            None
        }
    }

    /// Every stored feed has a positive price and is stored under its own pair.
    pub open spec fn wf(&self) -> bool {
        forall|b: Address, q: Address| feed_fits(#[trigger] self.stored(b, q), b, q)
    }

    /// What `get_price` answers: the stored feed, or else the inverse of the
    /// reverse pair's feed.
    pub open spec fn price_of(&self, base: Address, quote: Address) -> Result<OraclePriceFeed, OracleError> {
        match self.stored(base, quote) {
            Some(f) => Ok(f),
            None => match self.stored(quote, base) {
                Some(r) => Ok(OraclePriceFeed {
                    base_asset: base,
                    quote_asset: quote,
                    price: inverse_price(r.price) as i128,
                    timestamp: r.timestamp,
                    decimals: r.decimals,
                }),
                None => Err(OracleError::OracleNotFound),
            },
        }
    }

    /// What `get_current_price` answers at `now`.
    pub open spec fn current_price_of(&self, base: Address, quote: Address, now: u64) -> Result<OraclePriceFeed, OracleError> {
        match self.price_of(base, quote) {
            Err(e) => Err(e),
            Ok(f) => if is_stale(now, f.timestamp) {
                Err(OracleError::StalePriceData)
            } else if f.price <= 0 {
                Err(OracleError::InvalidPrice)
            } else {
                Ok(f)
            },
        }
    }

    /// An oracle with no feeds.
    pub fn new() -> (r: Self)
        ensures
            r.wf(),
            r.feeds@ == Map::<u128, OraclePriceFeed>::empty(),
    {
        GrantStreamOracle { feeds: HashMap::new() }
    }

    fn lookup(&self, base: Address, quote: Address) -> (r: Option<OraclePriceFeed>)
        ensures
            r == self.stored(base, quote),
    {
        let key = make_pair_key(base.0, quote.0);
        match self.feeds.get(&key) {
            Some(f) => Some(*f),
            None => None,
        }
    }

    /// The price of `base` in `quote`: the stored feed, or the inverse of the
    /// reverse pair's feed, or `OracleNotFound`.
    pub fn get_price(&self, base: Address, quote: Address) -> (r: Result<OraclePriceFeed, OracleError>)
        requires
            self.wf(),
        ensures
            r == self.price_of(base, quote),
    {
        match self.lookup(base, quote) {
            Some(f) => Ok(f),
            None => match self.lookup(quote, base) {
                Some(reverse) => {
                    proof {
                        assert(feed_fits(self.stored(quote, base), quote, base));
                    }
                    let inverse = (PRICE_SCALING_FACTOR * PRICE_SCALING_FACTOR) / reverse.price;
                    Ok(OraclePriceFeed {
                        base_asset: base,
                        quote_asset: quote,
                        price: inverse,
                        timestamp: reverse.timestamp,
                        decimals: reverse.decimals,
                    })
                },
                None => Err(OracleError::OracleNotFound),
            },
        }
    }

    /// The observation time of the price of `base` in `quote`.
    pub fn get_timestamp(&self, base: Address, quote: Address) -> (r: Result<u64, OracleError>)
        requires
            self.wf(),
        ensures
            r == (match self.price_of(base, quote) {
                Ok(f) => Ok::<u64, OracleError>(f.timestamp),
                Err(e) => Err(e),
            }),
    {
        let f = self.get_price(base, quote)?;
        Ok(f.timestamp)
    }

    /// Refuses a price observed at `timestamp` that is more than
    /// `MAX_STALENESS_SECONDS` old at `now`.
    pub fn verify_price_freshness(now: u64, timestamp: u64) -> (r: Result<(), OracleError>)
        ensures
            r is Err <==> is_stale(now, timestamp),
            r is Err ==> r == Err::<(), OracleError>(OracleError::StalePriceData),
    {
        if now.saturating_sub(timestamp) > MAX_STALENESS_SECONDS {
            return Err(OracleError::StalePriceData);
        }
        Ok(())
    }

    /// The price of `base` in `quote` at `now`, refused when stale or not
    /// positive.
    pub fn get_current_price(&self, base: Address, quote: Address, now: u64) -> (r: Result<OraclePriceFeed, OracleError>)
        requires
            self.wf(),
        ensures
            r == self.current_price_of(base, quote, now),
            r matches Ok(f) ==> !is_stale(now, f.timestamp) && f.price > 0,
    {
        let feed = self.get_price(base, quote)?;
        Self::verify_price_freshness(now, feed.timestamp)?;
        if feed.price <= 0 {
            return Err(OracleError::InvalidPrice);
        }
        Ok(feed)
    }

    /// Converts `usd_amount` to XLM at the current price of `xlm` in `usdc`:
    /// `usd_amount * PRICE_SCALING_FACTOR / price`.
    pub fn convert_usd_to_xlm(&self, usd_amount: i128, xlm: Address, usdc: Address, now: u64) -> (r: Result<i128, OracleError>)
        requires
            self.wf(),
        ensures
            usd_amount <= 0 ==> r == Err::<i128, OracleError>(OracleError::InvalidAmount),
            usd_amount > 0 ==> r == (match self.current_price_of(xlm, usdc, now) {
                Err(e) => Err(e),
                Ok(f) => if usd_amount * PRICE_SCALING_FACTOR > i128::MAX {
                    Err(OracleError::MathOverflow)
                } else {
                    Ok::<i128, OracleError>(((usd_amount * PRICE_SCALING_FACTOR) / (f.price as int)) as i128)
                },
            }),
    {
        if usd_amount <= 0 {
            return Err(OracleError::InvalidAmount);
        }
        let feed = self.get_current_price(xlm, usdc, now)?;
        let scaled = match usd_amount.checked_mul(PRICE_SCALING_FACTOR) {
            Some(v) => v,
            None => return Err(OracleError::MathOverflow),
        };
        Ok(scaled / feed.price)
    }

    /// Converts `xlm_amount` to USD at the current price of `xlm` in `usdc`:
    /// `xlm_amount * price / PRICE_SCALING_FACTOR`.
    pub fn convert_xlm_to_usd(&self, xlm_amount: i128, xlm: Address, usdc: Address, now: u64) -> (r: Result<i128, OracleError>)
        requires
            self.wf(),
        ensures
            xlm_amount <= 0 ==> r == Err::<i128, OracleError>(OracleError::InvalidAmount),
            xlm_amount > 0 ==> r == (match self.current_price_of(xlm, usdc, now) {
                Err(e) => Err(e),
                Ok(f) => if xlm_amount * f.price > i128::MAX {
                    Err(OracleError::MathOverflow)
                } else {
                    Ok::<i128, OracleError>(((xlm_amount * f.price) / (PRICE_SCALING_FACTOR as int)) as i128)
                },
            }),
    {
        if xlm_amount <= 0 {
            return Err(OracleError::InvalidAmount);
        }
        let feed = self.get_current_price(xlm, usdc, now)?;
        let scaled = match xlm_amount.checked_mul(feed.price) {
            Some(v) => v,
            None => return Err(OracleError::MathOverflow),
        };
        Ok(scaled / PRICE_SCALING_FACTOR)
    }

    /// Stores the price of `base` in `quote`. A price that is not positive, or
    /// a pair of one asset with itself, is refused and nothing changes.
    pub fn update_price_feed(
        &mut self,
        base: Address,
        quote: Address,
        price: i128,
        timestamp: u64,
        decimals: u32,
    ) -> (r: Result<(), OracleError>)
        requires
            old(self).wf(),
        ensures
            final(self).wf(),
            price <= 0 ==> r == Err::<(), OracleError>(OracleError::InvalidPrice),
            price > 0 && base == quote ==> r == Err::<(), OracleError>(OracleError::InvalidAssets),
            r is Err ==> final(self).feeds@ == old(self).feeds@,
            r is Ok ==> price > 0 && base != quote && final(self).feeds@ == old(self).feeds@.insert(
                pair_key(base.0, quote.0),
                OraclePriceFeed { base_asset: base, quote_asset: quote, price, timestamp, decimals },
            ),
    {
        if price <= 0 {
            return Err(OracleError::InvalidPrice);
        }
        if base == quote {
            return Err(OracleError::InvalidAssets);
        }
        let feed = OraclePriceFeed { base_asset: base, quote_asset: quote, price, timestamp, decimals };
        let key = make_pair_key(base.0, quote.0);
        self.feeds.insert(key, feed);
        proof {
            assert forall|b: Address, q: Address| feed_fits(#[trigger] self.stored(b, q), b, q) by {
                if pair_key(b.0, q.0) == pair_key(base.0, quote.0) {
                    crate::types::lemma_pair_key_injective(b.0, q.0, base.0, quote.0);
                    assert(b == base && q == quote);
                } else {
                    assert(old(self).stored(b, q) == self.stored(b, q));
                }
            }
        }
        Ok(())
    }
}

/// A stale price is never used: whenever the feed's timestamp is more than
/// `MAX_STALENESS_SECONDS` before `now`, `get_current_price` is refused with
/// `StalePriceData`.
pub proof fn lemma_stale_price_always_refused(oracle: GrantStreamOracle, base: Address, quote: Address, now: u64)
    requires
        oracle.price_of(base, quote) matches Ok(f) && is_stale(now, f.timestamp),
    ensures
        oracle.current_price_of(base, quote, now) == Err::<OraclePriceFeed, OracleError>(OracleError::StalePriceData),
{
}

} // verus!
