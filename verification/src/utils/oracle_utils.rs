//! Oracle price validation against the clock.

use vstd::prelude::*;

use crate::chain::clock_unix_timestamp;
use crate::error::{Error, StableFunError};
use crate::utils::oracle::{AggregatorState, OracleRound};
use crate::utils::MAX_PRICE_STALENESS;

verus! {

/// Whether `now - then` fits in an `i64`.
pub open spec fn difference_fits(now: i64, then: i64) -> bool {
    i64::MIN <= now - then <= i64::MAX
}

/// Whether a price updated at `last_update` is older than
/// `MAX_PRICE_STALENESS` seconds at time `now`.
pub open spec fn stale_at(last_update: i64, now: i64) -> bool {
    now - last_update > MAX_PRICE_STALENESS
}

/// The price of a round checked at time `now`: a positive result and a
/// round opened at most `MAX_PRICE_STALENESS` seconds ago; the price is the
/// result's mantissa truncated to a `u64`.
pub open spec fn spec_validated_price(round: OracleRound, now: i64) -> Result<u64, Error> {
    if round.result_mantissa <= 0 {
        Err(Error::StableFun(StableFunError::InvalidOraclePrice))
    } else if now - round.round_open_timestamp > MAX_PRICE_STALENESS {
        Err(Error::StableFun(StableFunError::StaleOraclePrice))
    } else {
        Ok(round.result_mantissa as u64)
    }
}

/// The validated price of an aggregator's latest confirmed round. A
/// non-positive result is refused before the clock is read; where the
/// clock cannot be read, `ClockUnavailable`; where the time since the round
/// opened does not fit in an `i64` (the subtraction would overflow),
/// `MathOverflow`.
pub fn get_validated_price(oracle: &AggregatorState) -> (r: Result<u64, Error>)
    ensures
        oracle.latest_confirmed_round.result_mantissa <= 0 ==> r == Err::<u64, Error>(
            Error::StableFun(StableFunError::InvalidOraclePrice),
        ),
        oracle.latest_confirmed_round.result_mantissa > 0 ==> {
            ||| r == Err::<u64, Error>(Error::ClockUnavailable)
            ||| r == Err::<u64, Error>(Error::StableFun(StableFunError::MathOverflow))
            ||| exists|now: i64|
                difference_fits(now, oracle.latest_confirmed_round.round_open_timestamp) && r
                    == spec_validated_price(oracle.latest_confirmed_round, now)
        },
{
    let round = oracle.latest_confirmed_round;
    if round.result_mantissa <= 0 {
        return Err(Error::StableFun(StableFunError::InvalidOraclePrice));
    }
    let now = match clock_unix_timestamp() {
        Some(t) => t,
        None => return Err(Error::ClockUnavailable),
    };
    if now.checked_sub(round.round_open_timestamp).is_none() {
        return Err(Error::StableFun(StableFunError::MathOverflow));
    }
    get_validated_price_at(&round, now)
}

/// The validated price of a round at time `now`.
pub fn get_validated_price_at(round: &OracleRound, now: i64) -> (r: Result<u64, Error>)
    requires
        round.result_mantissa > 0 ==> difference_fits(now, round.round_open_timestamp),
    ensures
        r == spec_validated_price(*round, now),
{
    if round.result_mantissa <= 0 {
        return Err(Error::StableFun(StableFunError::InvalidOraclePrice));
    }
    let last_update = round.round_open_timestamp;
    if now - last_update > MAX_PRICE_STALENESS {
        return Err(Error::StableFun(StableFunError::StaleOraclePrice));
    }
    Ok(round.result_mantissa as u64)
}

/// Whether a price updated at `last_update` is stale by the clock;
/// `ClockUnavailable` where the clock cannot be read, `MathOverflow` where
/// the difference does not fit in an `i64`.
pub fn is_price_stale(last_update: i64) -> (r: Result<bool, Error>)
    ensures
        match r {
            Ok(b) => exists|now: i64| b == stale_at(last_update, now),
            Err(e) => e == Error::ClockUnavailable || e == Error::StableFun(StableFunError::MathOverflow),
        },
{
    let now = match clock_unix_timestamp() {
        Some(t) => t,
        None => return Err(Error::ClockUnavailable),
    };
    if now.checked_sub(last_update).is_none() {
        return Err(Error::StableFun(StableFunError::MathOverflow));
    }
    Ok(is_price_stale_at(last_update, now))
}

/// Whether a price updated at `last_update` is stale at time `now`.
pub fn is_price_stale_at(last_update: i64, now: i64) -> (r: bool)
    requires
        difference_fits(now, last_update),
    ensures
        r == stale_at(last_update, now),
{
    now - last_update > MAX_PRICE_STALENESS
}

} // verus!
