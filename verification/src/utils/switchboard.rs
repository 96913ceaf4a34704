//! Price validation against a Switchboard feed with a given staleness
//! limit.

use vstd::prelude::*;

use crate::chain::clock_unix_timestamp;
use crate::error::{Error, StableFunError};
use crate::utils::oracle::{spec_aggregator_result, AggregatorState};
use crate::utils::oracle_utils::difference_fits;

verus! {

/// A price and when it was observed.
#[derive(Debug, Clone, Copy, PartialEq, Eq, Structural)]
pub struct PriceData {
    pub price: u64,
    pub timestamp: i64,
}

/// The price of a feed's result (its mantissa, `None` where the feed has
/// no result) checked at time `now`: a result, positive, from a round
/// opened at most `max_staleness` seconds ago; truncated to a `u64`.
pub open spec fn spec_feed_price(
    result: Option<(i128, u32)>,
    round_open_timestamp: i64,
    max_staleness: i64,
    now: i64,
) -> Result<u64, Error> {
    match result {
        None => Err(Error::StableFun(StableFunError::InvalidOraclePrice)),
        Some((mantissa, _)) => if mantissa <= 0 {
            Err(Error::StableFun(StableFunError::InvalidOraclePrice))
        } else if now - round_open_timestamp > max_staleness {
            Err(Error::StableFun(StableFunError::StaleOraclePrice))
        } else {
            Ok(mantissa as u64)
        },
    }
}

/// The outcomes the price check of a feed may have, whatever the clock
/// reads: a refused result (before the clock is read), the clock being
/// unavailable, a time since the round opened that does not fit in an
/// `i64`, or the check at the clock's time `now`.
pub open spec fn feed_price_outcome(feed: AggregatorState, max_staleness: i64, r: Result<u64, Error>) -> bool {
    let result = spec_aggregator_result(feed);
    let opened = feed.latest_confirmed_round.round_open_timestamp;
    if !(result matches Some((m, _)) && m > 0) {
        r == Err::<u64, Error>(Error::StableFun(StableFunError::InvalidOraclePrice))
    } else {
        ||| r == Err::<u64, Error>(Error::ClockUnavailable)
        ||| r == Err::<u64, Error>(Error::StableFun(StableFunError::MathOverflow))
        ||| exists|now: i64|
            difference_fits(now, opened) && r == spec_feed_price(result, opened, max_staleness, now)
    }
}

/// The staleness rule: a positive result is accepted at `now` exactly when
/// its round opened at most `max_staleness` seconds before `now`, and is
/// then its mantissa; a round opened earlier than that is refused as
/// `StaleOraclePrice`.
pub proof fn lemma_feed_price_staleness(mantissa: i128, scale: u32, round_open_timestamp: i64, max_staleness: i64, now: i64)
    requires
        mantissa > 0,
    ensures
        now - round_open_timestamp <= max_staleness ==> spec_feed_price(
            Some((mantissa, scale)),
            round_open_timestamp,
            max_staleness,
            now,
        ) == Ok::<u64, Error>(mantissa as u64),
        now - round_open_timestamp > max_staleness ==> spec_feed_price(
            Some((mantissa, scale)),
            round_open_timestamp,
            max_staleness,
            now,
        ) == Err::<u64, Error>(Error::StableFun(StableFunError::StaleOraclePrice)),
{
}

/// Whatever the clock reads, an accepted feed price is the feed's own
/// positive result: its mantissa, truncated to a `u64`.
pub proof fn lemma_feed_price_is_result(feed: AggregatorState, max_staleness: i64, price: u64)
    requires
        feed_price_outcome(feed, max_staleness, Ok(price)),
    ensures
        spec_aggregator_result(feed) matches Some((m, _)) && m > 0 && price == m as u64,
{
}

/// The validated price of a feed. A missing or non-positive result is
/// refused before the clock is read; where the clock cannot be read,
/// `ClockUnavailable`; where the time since the round opened does not fit
/// in an `i64`, `MathOverflow`.
pub fn get_validated_price(feed: &AggregatorState, max_staleness: i64) -> (r: Result<u64, Error>)
    ensures
        feed_price_outcome(*feed, max_staleness, r),
{
    let result = feed.get_result();
    let opened = feed.latest_confirmed_round.round_open_timestamp;
    let valid = match result {
        Some((mantissa, _)) => mantissa > 0,
        None => false,
    };
    if !valid {
        return Err(Error::StableFun(StableFunError::InvalidOraclePrice));
    }
    let now = match clock_unix_timestamp() {
        Some(t) => t,
        None => return Err(Error::ClockUnavailable),
    };
    if now.checked_sub(opened).is_none() {
        return Err(Error::StableFun(StableFunError::MathOverflow));
    }
    get_validated_price_at(result, opened, max_staleness, now)
}

/// The validated price of a feed's result at time `now`.
pub fn get_validated_price_at(
    result: Option<(i128, u32)>,
    round_open_timestamp: i64,
    max_staleness: i64,
    now: i64,
) -> (r: Result<u64, Error>)
    requires
        (result matches Some((m, _)) && m > 0) ==> difference_fits(now, round_open_timestamp),
    ensures
        r == spec_feed_price(result, round_open_timestamp, max_staleness, now),
{
    let price = match result {
        Some((mantissa, _)) => mantissa,
        None => return Err(Error::StableFun(StableFunError::InvalidOraclePrice)),
    };
    if price <= 0 {
        return Err(Error::StableFun(StableFunError::InvalidOraclePrice));
    }
    if now - round_open_timestamp > max_staleness {
        return Err(Error::StableFun(StableFunError::StaleOraclePrice));
    }
    Ok(price as u64)
}

} // verus!
