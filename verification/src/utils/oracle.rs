//! Oracle prices: reading them from an aggregator's latest confirmed round,
//! validating them, bringing them to six decimals, and taking the median
//! of several feeds.

use vstd::prelude::*;

use crate::chain::clock_unix_timestamp;
use crate::error::{Error, StableFunError};
use crate::utils::math::{lemma_pow10_monotonic, pow10, pow10_u64};

verus! {

pub const MAX_PRICE_STALENESS: i64 = 300;
pub const PRICE_DECIMALS: u8 = 6;
pub const MAX_ORACLE_CONFIDENCE: u64 = 100_000;
pub const MIN_ORACLE_COUNT: usize = 1;
pub const MAX_ORACLE_COUNT: usize = 3;

/// The fields of an aggregator's latest confirmed round that prices are
/// read from.
#[derive(Debug, Clone, Copy, PartialEq, Eq, Structural)]
pub struct OracleRound {
    pub round_open_timestamp: i64,
    pub num_success: u32,
    pub result_mantissa: i128,
    pub result_scale: u32,
    pub std_deviation_mantissa: i128,
}

/// What the program reads of a Switchboard aggregator account: its latest
/// confirmed round, the number of oracle results a round needs, and
/// whether it resolves rounds by sliding window.
#[derive(Debug, Clone, Copy, PartialEq, Eq, Structural)]
pub struct AggregatorState {
    pub latest_confirmed_round: OracleRound,
    pub min_oracle_results: u32,
    pub sliding_resolution: bool,
}

/// The result of an aggregator (mantissa and scale), as Switchboard's
/// `AggregatorAccountData::get_result` gives it: the latest confirmed
/// result, unless rounds do not slide and the round had fewer successful
/// responses than required.
pub open spec fn spec_aggregator_result(aggregator: AggregatorState) -> Option<(i128, u32)> {
    if !aggregator.sliding_resolution && aggregator.min_oracle_results
        > aggregator.latest_confirmed_round.num_success {
        None
    } else {
        Some((aggregator.latest_confirmed_round.result_mantissa, aggregator.latest_confirmed_round.result_scale))
    }
}

impl AggregatorState {
    /// The result of the aggregator, `None` where its latest confirmed
    /// round had too few responses.
    pub fn get_result(&self) -> (r: Option<(i128, u32)>)
        ensures
            r == spec_aggregator_result(*self),
    {
        if !self.sliding_resolution && self.min_oracle_results > self.latest_confirmed_round.num_success {
            return None;
        }
        Some((self.latest_confirmed_round.result_mantissa, self.latest_confirmed_round.result_scale))
    }
}

/// A price reported by an oracle.
#[derive(Debug, Clone, Copy, PartialEq, Eq, Structural)]
pub struct OraclePrice {
    pub value: u64,
    pub decimals: u8,
    pub last_updated: i64,
    pub confidence: u64,
}

/// The absolute value of an `i128`, as `unsigned_abs` gives it.
pub open spec fn abs_i128(m: i128) -> int {
    if m >= 0 {
        m as int
    } else {
        -(m as int)
    }
}

/// The price a round reports: its result's mantissa and scale (truncated
/// to `u64` and `u8`), its opening time, and the absolute value of its
/// standard deviation's mantissa (truncated to `u64`) as the confidence.
pub open spec fn spec_price_from_round(round: OracleRound) -> OraclePrice {
    OraclePrice {
        value: round.result_mantissa as u64,
        decimals: round.result_scale as u8,
        last_updated: round.round_open_timestamp,
        confidence: (abs_i128(round.std_deviation_mantissa) as u128) as u64,
    }
}

/// Whether a price last updated at `last_updated` is older than the
/// staleness limit at `now`.
pub open spec fn spec_is_stale(last_updated: i64, now: i64) -> bool {
    now - last_updated > MAX_PRICE_STALENESS
}

/// A price brought to six decimals: divided by a power of ten when it has
/// more, multiplied when it has fewer (`MathOverflow` where the product
/// does not fit in a `u64`).
pub open spec fn spec_standardize(price: OraclePrice) -> Result<u64, Error> {
    if price.decimals == PRICE_DECIMALS {
        Ok(price.value)
    } else if price.decimals > PRICE_DECIMALS {
        Ok(((price.value as int) / (pow10((price.decimals - PRICE_DECIMALS) as nat) as int)) as u64)
    } else if price.value * pow10((PRICE_DECIMALS - price.decimals) as nat) <= u64::MAX {
        Ok((price.value * pow10((PRICE_DECIMALS - price.decimals) as nat)) as u64)
    } else {
        Err(Error::StableFun(StableFunError::MathOverflow))
    }
}

/// The price a round gives: `InvalidOracle` for a round never opened.
pub open spec fn spec_get_price(round: OracleRound) -> Result<OraclePrice, Error> {
    if round.round_open_timestamp > 0 {
        Ok(spec_price_from_round(round))
    } else {
        Err(Error::StableFun(StableFunError::InvalidOracle))
    }
}

/// The checks on a price at time `now`: a positive value, not stale, and a
/// confidence within the given limit (by default `MAX_ORACLE_CONFIDENCE`).
pub open spec fn spec_validate_price(price: OraclePrice, max_confidence_interval: Option<u64>, now: i64) -> Result<(), Error> {
    let max_confidence = match max_confidence_interval {
        Some(m) => m,
        None => MAX_ORACLE_CONFIDENCE,
    };
    if price.value == 0 {
        Err(Error::StableFun(StableFunError::InvalidOraclePrice))
    } else if spec_is_stale(price.last_updated, now) {
        Err(Error::StableFun(StableFunError::StaleOraclePrice))
    } else if price.confidence > max_confidence {
        Err(Error::StableFun(StableFunError::InvalidOraclePrice))
    } else {
        Ok(())
    }
}

/// The safe price: the standardized price plus the confidence for an upper
/// bound, minus it for a lower bound (`MathOverflow` where either leaves
/// the `u64` range).
pub open spec fn spec_safe_price(price: OraclePrice, is_upper_bound: bool) -> Result<u64, Error> {
    match spec_standardize(price) {
        Ok(base) => if is_upper_bound {
            if base + price.confidence <= u64::MAX {
                Ok((base + price.confidence) as u64)
            } else {
                Err(Error::StableFun(StableFunError::MathOverflow))
            }
        } else {
            if base >= price.confidence {
                Ok((base - price.confidence) as u64)
            } else {
                Err(Error::StableFun(StableFunError::MathOverflow))
            }
        },
        Err(e) => Err(e),
    }
}

/// A standardized price needs at most 25 decimals; more make the power of
/// ten overflow, which panics.
pub open spec fn standardizable(price: OraclePrice) -> bool {
    price.decimals <= 25
}

/// The standardized price of a checked round, `MathOverflow` where its
/// decimals cannot be standardized.
pub open spec fn spec_standardize_checked(price: OraclePrice) -> Result<u64, Error> {
    if standardizable(price) {
        spec_standardize(price)
    } else {
        Err(Error::StableFun(StableFunError::MathOverflow))
    }
}

/// The price an oracle round gives once fetched, validated (with the
/// default confidence limit) and standardized at time `now`.
pub open spec fn spec_verify_oracle_price(round: OracleRound, now: i64) -> Result<u64, Error> {
    match spec_get_price(round) {
        Ok(price) => match spec_validate_price(price, None, now) {
            Ok(_) => spec_standardize_checked(price),
            Err(e) => Err(e),
        },
        Err(e) => Err(e),
    }
}

/// The latest confirmed rounds of a list of aggregators (`None` for an
/// account that could not be loaded).
pub open spec fn rounds_of(oracles: Seq<Option<AggregatorState>>) -> Seq<Option<OracleRound>> {
    oracles.map_values(|o: Option<AggregatorState>| match o {
        Some(a) => Some(a.latest_confirmed_round),
        None => None,
    })
}

/// Whether the median computation keeps the price of a round: it was
/// loaded, gives a price, and the price passes validation.
pub open spec fn accepted(round: Option<OracleRound>, now: i64) -> bool {
    match round {
        Some(r) => spec_get_price(r) is Ok && spec_validate_price(spec_price_from_round(r), None, now) is Ok,
        None => false,
    }
}

/// The prices of the accepted rounds, in the order of the rounds.
pub open spec fn accepted_prices(rounds: Seq<Option<OracleRound>>, now: i64) -> Seq<OraclePrice>
    decreases rounds.len(),
{
    if rounds.len() == 0 {
        Seq::empty()
    } else {
        let rest = accepted_prices(rounds.drop_last(), now);
        if accepted(rounds.last(), now) {
            rest.push(spec_price_from_round(rounds.last()->Some_0))
        } else {
            rest
        }
    }
}

/// Price `i` comes before price `j` in a stable sort by value.
pub open spec fn sorts_before(s: Seq<OraclePrice>, i: int, j: int) -> bool {
    s[i].value < s[j].value || (s[i].value == s[j].value && i < j)
}

/// The number of the first `n` prices that come before price `j` in a
/// stable sort by value.
pub open spec fn count_before(s: Seq<OraclePrice>, j: int, n: int) -> nat
    decreases n,
{
    if n <= 0 {
        0
    } else {
        count_before(s, j, n - 1) + if sorts_before(s, n - 1, j) {
            1nat
        } else {
            0nat
        }
    }
}

/// The index that price `j` takes in a stable sort of `s` by value.
pub open spec fn sorted_index(s: Seq<OraclePrice>, j: int) -> nat {
    count_before(s, j, s.len() as int)
}

/// `p` is the median of `s`: the price at index `len / 2` once `s` is
/// sorted by value, prices of equal value keeping their order.
pub open spec fn is_median(s: Seq<OraclePrice>, p: OraclePrice) -> bool {
    exists|j: int| 0 <= j < s.len() && s[j] == p && sorted_index(s, j) == s.len() / 2
}

/// The median price of a list of rounds at time `now`: `InvalidOracle`
/// unless there are one to three rounds, `InvalidOraclePrice` where none is
/// accepted, else the median of the accepted prices.
pub open spec fn median_price_ok(rounds: Seq<Option<OracleRound>>, now: i64, r: Result<OraclePrice, Error>) -> bool {
    if !(MIN_ORACLE_COUNT <= rounds.len() <= MAX_ORACLE_COUNT) {
        r == Err::<OraclePrice, Error>(Error::StableFun(StableFunError::InvalidOracle))
    } else if accepted_prices(rounds, now).len() == 0 {
        r == Err::<OraclePrice, Error>(Error::StableFun(StableFunError::InvalidOraclePrice))
    } else {
        r matches Ok(p) && is_median(accepted_prices(rounds, now), p)
    }
}

/// The aggregate price of a list of rounds at time `now`: as the median
/// price where that fails; else the safe price of the median
/// (`MathOverflow` where its decimals cannot be standardized).
pub open spec fn aggregate_price_ok(rounds: Seq<Option<OracleRound>>, now: i64, is_upper_bound: bool, r: Result<u64, Error>) -> bool {
    if !(MIN_ORACLE_COUNT <= rounds.len() <= MAX_ORACLE_COUNT) {
        r == Err::<u64, Error>(Error::StableFun(StableFunError::InvalidOracle))
    } else if accepted_prices(rounds, now).len() == 0 {
        r == Err::<u64, Error>(Error::StableFun(StableFunError::InvalidOraclePrice))
    } else {
        exists|p: OraclePrice|
            is_median(accepted_prices(rounds, now), p) && r == (if standardizable(p) {
                spec_safe_price(p, is_upper_bound)
            } else {
                Err(Error::StableFun(StableFunError::MathOverflow))
            })
    }
}

/// Among one to three prices, one takes the middle index of the sorted
/// order.
proof fn lemma_median_index_exists(s: Seq<OraclePrice>)
    requires
        1 <= s.len() <= 3,
    ensures
        exists|j: int| 0 <= j < s.len() && sorted_index(s, j) == s.len() / 2,
{
    reveal_with_fuel(count_before, 4);
    if s.len() == 1 {
        assert(sorted_index(s, 0) == 0);
    } else if s.len() == 2 {
        if sorts_before(s, 0, 1) {
            assert(sorted_index(s, 1) == 1);
        } else {
            assert(sorted_index(s, 0) == 1);
        }
    } else {
        assert(sorted_index(s, 0) == 1 || sorted_index(s, 1) == 1 || sorted_index(s, 2) == 1);
    }
}

/// `i128::unsigned_abs`.
fn unsigned_abs(m: i128) -> (r: u128)
    ensures
        r == abs_i128(m),
{
    if m >= 0 {
        m as u128
    } else if m == i128::MIN {
        170141183460469231731687303715884105728u128
    } else {
        (-m) as u128
    }
}

impl OraclePrice {
    pub fn new(value: u64, decimals: u8, last_updated: i64, confidence: u64) -> (p: Self)
        ensures
            p == (OraclePrice { value, decimals, last_updated, confidence }),
    {
        Self { value, decimals, last_updated, confidence }
    }

    /// The price an aggregator's latest confirmed round reports.
    pub fn from_switchboard(oracle: &AggregatorState) -> (r: Result<Self, Error>)
        ensures
            r == Ok::<OraclePrice, Error>(spec_price_from_round(oracle.latest_confirmed_round)),
    {
        let round = oracle.latest_confirmed_round;
        Ok(Self::from_round(&round))
    }

    /// The price a round reports.
    pub fn from_round(round: &OracleRound) -> (p: Self)
        ensures
            p == spec_price_from_round(*round),
    {
        Self {
            value: round.result_mantissa as u64,
            decimals: round.result_scale as u8,
            last_updated: round.round_open_timestamp,
            confidence: unsigned_abs(round.std_deviation_mantissa) as u64,
        }
    }

    /// Whether the price is older than the staleness limit at
    /// `current_timestamp` (the difference taken saturating).
    pub fn is_stale(&self, current_timestamp: i64) -> (r: bool)
        ensures
            r == spec_is_stale(self.last_updated, current_timestamp),
    {
        (current_timestamp as i128) - (self.last_updated as i128) > MAX_PRICE_STALENESS as i128
    }

    /// The price brought to six decimals.
    pub fn standardize(&self) -> (r: Result<u64, Error>)
        requires
            standardizable(*self),
        ensures
            r == spec_standardize(*self),
    {
        let current_decimals = self.decimals;
        let target_decimals = PRICE_DECIMALS;
        if current_decimals == target_decimals {
            Ok(self.value)
        } else if current_decimals > target_decimals {
            let diff = current_decimals - target_decimals;
            let scale = pow10_u64(diff as u32);
            proof {
                lemma_pow10_monotonic(0, diff as nat);
            }
            match self.value.checked_div(scale) {
                Some(v) => Ok(v),
                None => Err(Error::StableFun(StableFunError::MathOverflow)),
            }
        } else {
            let diff = target_decimals - current_decimals;
            let scale = pow10_u64(diff as u32);
            match self.value.checked_mul(scale) {
                Some(v) => Ok(v),
                None => Err(Error::StableFun(StableFunError::MathOverflow)),
            }
        }
    }
}

/// Fetching, validating and combining oracle prices.
pub struct OracleService;

impl OracleService {
    /// The price of an aggregator's latest confirmed round, `InvalidOracle`
    /// where the round was never opened.
    pub fn get_price(oracle: &AggregatorState) -> (r: Result<OraclePrice, Error>)
        ensures
            r == spec_get_price(oracle.latest_confirmed_round),
    {
        let round = oracle.latest_confirmed_round;
        Self::get_price_from_round(&round)
    }

    /// The price of a round, `InvalidOracle` where it was never opened.
    pub fn get_price_from_round(round: &OracleRound) -> (r: Result<OraclePrice, Error>)
        ensures
            r == spec_get_price(*round),
    {
        if round.round_open_timestamp <= 0 {
            return Err(Error::StableFun(StableFunError::InvalidOracle));
        }
        Ok(OraclePrice::from_round(round))
    }

    /// Checks a price against the clock: a zero price is refused before the
    /// clock is read; where the clock cannot be read, `ClockUnavailable`.
    pub fn validate_price(price: &OraclePrice, max_confidence_interval: Option<u64>) -> (r: Result<(), Error>)
        ensures
            price.value == 0 ==> r == Err::<(), Error>(Error::StableFun(StableFunError::InvalidOraclePrice)),
            r == Err::<(), Error>(Error::ClockUnavailable) || exists|now: i64|
                r == spec_validate_price(*price, max_confidence_interval, now),
    {
        if price.value == 0 {
            assert(spec_validate_price(*price, max_confidence_interval, 0) == Err::<(), Error>(
                Error::StableFun(StableFunError::InvalidOraclePrice),
            ));
            return Err(Error::StableFun(StableFunError::InvalidOraclePrice));
        }
        match clock_unix_timestamp() {
            Some(now) => Self::validate_price_at(price, max_confidence_interval, now),
            None => Err(Error::ClockUnavailable),
        }
    }

    /// Checks a price at time `now`.
    pub fn validate_price_at(price: &OraclePrice, max_confidence_interval: Option<u64>, now: i64) -> (r: Result<(), Error>)
        ensures
            r == spec_validate_price(*price, max_confidence_interval, now),
    {
        if price.value == 0 {
            return Err(Error::StableFun(StableFunError::InvalidOraclePrice));
        }
        if price.is_stale(now) {
            return Err(Error::StableFun(StableFunError::StaleOraclePrice));
        }
        let max_confidence = match max_confidence_interval {
            Some(m) => m,
            None => MAX_ORACLE_CONFIDENCE,
        };
        if price.confidence > max_confidence {
            return Err(Error::StableFun(StableFunError::InvalidOraclePrice));
        }
        Ok(())
    }

    /// The standardized price widened by its confidence: upwards for an
    /// upper bound, downwards for a lower one.
    pub fn calculate_safe_price(price: &OraclePrice, is_upper_bound: bool) -> (r: Result<u64, Error>)
        requires
            standardizable(*price),
        ensures
            r == spec_safe_price(*price, is_upper_bound),
    {
        let base_price = match price.standardize() {
            Ok(v) => v,
            Err(e) => return Err(e),
        };
        if is_upper_bound {
            match base_price.checked_add(price.confidence) {
                Some(v) => Ok(v),
                None => Err(Error::StableFun(StableFunError::MathOverflow)),
            }
        } else {
            match base_price.checked_sub(price.confidence) {
                Some(v) => Ok(v),
                None => Err(Error::StableFun(StableFunError::MathOverflow)),
            }
        }
    }

    /// The standardized price of an aggregator, validated against the
    /// clock with the default confidence limit.
    pub fn verify_oracle_price(oracle: &AggregatorState) -> (r: Result<u64, Error>)
        ensures
            ({
                let round = oracle.latest_confirmed_round;
                if spec_get_price(round) is Err || spec_price_from_round(round).value == 0 {
                    r == spec_verify_oracle_price(round, 0)
                } else {
                    r == Err::<u64, Error>(Error::ClockUnavailable) || exists|now: i64|
                        r == spec_verify_oracle_price(round, now)
                }
            }),
    {
        let round = oracle.latest_confirmed_round;
        let price = match Self::get_price_from_round(&round) {
            Ok(p) => p,
            Err(e) => {
                assert(Err::<u64, Error>(e) == spec_verify_oracle_price(round, 0));
                return Err(e);
            },
        };
        if price.value == 0 {
            assert(Err::<u64, Error>(Error::StableFun(StableFunError::InvalidOraclePrice))
                == spec_verify_oracle_price(round, 0));
            return Err(Error::StableFun(StableFunError::InvalidOraclePrice));
        }
        match clock_unix_timestamp() {
            Some(now) => Self::verify_oracle_price_at(&round, now),
            None => Err(Error::ClockUnavailable),
        }
    }

    /// The standardized price of a round, validated at time `now` with the
    /// default confidence limit; `MathOverflow` where its decimals cannot
    /// be standardized.
    pub fn verify_oracle_price_at(round: &OracleRound, now: i64) -> (r: Result<u64, Error>)
        ensures
            r == spec_verify_oracle_price(*round, now),
    {
        let price = match Self::get_price_from_round(round) {
            Ok(p) => p,
            Err(e) => return Err(e),
        };
        match Self::validate_price_at(&price, None, now) {
            Ok(_) => {},
            Err(e) => return Err(e),
        }
        if price.decimals > 25 {
            return Err(Error::StableFun(StableFunError::MathOverflow));
        }
        price.standardize()
    }

    /// The median price of one to three aggregators; `None` stands for an
    /// account that could not be loaded, which is skipped. Where the clock
    /// cannot be read, every price fails validation.
    pub fn get_median_price(oracles: &[Option<AggregatorState>]) -> (r: Result<OraclePrice, Error>)
        ensures
            !(MIN_ORACLE_COUNT <= oracles@.len() <= MAX_ORACLE_COUNT) ==> r == Err::<OraclePrice, Error>(
                Error::StableFun(StableFunError::InvalidOracle),
            ),
            r == Err::<OraclePrice, Error>(Error::StableFun(StableFunError::InvalidOraclePrice))
                || exists|now: i64| median_price_ok(rounds_of(oracles@), now, r),
    {
        let mut rounds: Vec<Option<OracleRound>> = Vec::new();
        let mut i: usize = 0;
        while i < oracles.len()
            invariant
                i <= oracles@.len(),
                rounds@ == rounds_of(oracles@.subrange(0, i as int)),
            decreases oracles@.len() - i,
        {
            match &oracles[i] {
                Some(oracle) => rounds.push(Some(oracle.latest_confirmed_round)),
                None => rounds.push(None),
            }
            i = i + 1;
            assert(rounds@ =~= rounds_of(oracles@.subrange(0, i as int)));
        }
        assert(oracles@.subrange(0, oracles@.len() as int) =~= oracles@);
        if !(MIN_ORACLE_COUNT <= rounds.len() && rounds.len() <= MAX_ORACLE_COUNT) {
            assert(median_price_ok(rounds@, 0, Err(Error::StableFun(StableFunError::InvalidOracle))));
            return Err(Error::StableFun(StableFunError::InvalidOracle));
        }
        match clock_unix_timestamp() {
            Some(now) => {
                let r = Self::get_median_price_at(&rounds, now);
                assert(median_price_ok(rounds@, now, r));
                r
            },
            None => Err(Error::StableFun(StableFunError::InvalidOraclePrice)),
        }
    }

    /// The median price of one to three rounds at time `now`.
    pub fn get_median_price_at(rounds: &Vec<Option<OracleRound>>, now: i64) -> (r: Result<OraclePrice, Error>)
        ensures
            median_price_ok(rounds@, now, r),
    {
        if !(MIN_ORACLE_COUNT <= rounds.len() && rounds.len() <= MAX_ORACLE_COUNT) {
            return Err(Error::StableFun(StableFunError::InvalidOracle));
        }
        let mut prices: Vec<OraclePrice> = Vec::new();
        let mut i: usize = 0;
        while i < rounds.len()
            invariant
                i <= rounds@.len() <= MAX_ORACLE_COUNT,
                prices@ == accepted_prices(rounds@.subrange(0, i as int), now),
                prices@.len() <= i,
            decreases rounds@.len() - i,
        {
            let ghost before = rounds@.subrange(0, i as int);
            assert(rounds@.subrange(0, i + 1).drop_last() =~= before);
            if let Some(round) = &rounds[i] {
                if let Ok(price) = Self::get_price_from_round(round) {
                    if Self::validate_price_at(&price, None, now).is_ok() {
                        prices.push(price);
                    }
                }
            }
            i = i + 1;
        }
        assert(rounds@.subrange(0, rounds@.len() as int) =~= rounds@);
        if prices.len() < MIN_ORACLE_COUNT {
            return Err(Error::StableFun(StableFunError::InvalidOraclePrice));
        }
        let n = prices.len();
        proof {
            lemma_median_index_exists(prices@);
        }
        let mut j: usize = 0;
        while j < n
            invariant
                n == prices@.len(),
                prices@ == accepted_prices(rounds@, now),
                MIN_ORACLE_COUNT <= rounds@.len() <= MAX_ORACLE_COUNT,
                1 <= n <= 3,
                j <= n,
                forall|k: int| 0 <= k < j ==> sorted_index(prices@, k) != n / 2,
                exists|k: int| 0 <= k < n && sorted_index(prices@, k) == n / 2,
            decreases n - j,
        {
            let mut count: usize = 0;
            let mut i: usize = 0;
            while i < n
                invariant
                    n == prices@.len(),
                    n <= 3,
                    j < n,
                    i <= n,
                    count == count_before(prices@, j as int, i as int),
                    count <= i,
                decreases n - i,
            {
                if prices[i].value < prices[j].value || (prices[i].value == prices[j].value && i < j) {
                    count = count + 1;
                }
                i = i + 1;
            }
            if count == n / 2 {
                assert(sorted_index(prices@, j as int) == n / 2);
                assert(is_median(prices@, prices@[j as int]));
                return Ok(prices[j]);
            }
            j = j + 1;
        }
        assert(false);
        Err(Error::StableFun(StableFunError::InvalidOraclePrice))
    }

    /// The safe price of the median of one to three aggregators.
    pub fn aggregate_price(oracles: &[Option<AggregatorState>], is_upper_bound: bool) -> (r: Result<u64, Error>)
        ensures
            !(MIN_ORACLE_COUNT <= oracles@.len() <= MAX_ORACLE_COUNT) ==> r == Err::<u64, Error>(
                Error::StableFun(StableFunError::InvalidOracle),
            ),
            r == Err::<u64, Error>(Error::StableFun(StableFunError::InvalidOraclePrice))
                || exists|now: i64| aggregate_price_ok(rounds_of(oracles@), now, is_upper_bound, r),
    {
        let mut rounds: Vec<Option<OracleRound>> = Vec::new();
        let mut i: usize = 0;
        while i < oracles.len()
            invariant
                i <= oracles@.len(),
                rounds@ == rounds_of(oracles@.subrange(0, i as int)),
            decreases oracles@.len() - i,
        {
            match &oracles[i] {
                Some(oracle) => rounds.push(Some(oracle.latest_confirmed_round)),
                None => rounds.push(None),
            }
            i = i + 1;
            assert(rounds@ =~= rounds_of(oracles@.subrange(0, i as int)));
        }
        assert(oracles@.subrange(0, oracles@.len() as int) =~= oracles@);
        if !(MIN_ORACLE_COUNT <= rounds.len() && rounds.len() <= MAX_ORACLE_COUNT) {
            assert(aggregate_price_ok(rounds@, 0, is_upper_bound, Err(Error::StableFun(StableFunError::InvalidOracle))));
            return Err(Error::StableFun(StableFunError::InvalidOracle));
        }
        match clock_unix_timestamp() {
            Some(now) => {
                let r = Self::aggregate_price_at(&rounds, now, is_upper_bound);
                assert(aggregate_price_ok(rounds@, now, is_upper_bound, r));
                r
            },
            None => Err(Error::StableFun(StableFunError::InvalidOraclePrice)),
        }
    }

    /// The safe price of the median of one to three rounds at time `now`;
    /// `MathOverflow` where the median's decimals cannot be standardized.
    pub fn aggregate_price_at(rounds: &Vec<Option<OracleRound>>, now: i64, is_upper_bound: bool) -> (r: Result<u64, Error>)
        ensures
            aggregate_price_ok(rounds@, now, is_upper_bound, r),
    {
        let median_price = match Self::get_median_price_at(rounds, now) {
            Ok(p) => p,
            Err(e) => return Err(e),
        };
        if median_price.decimals > 25 {
            return Err(Error::StableFun(StableFunError::MathOverflow));
        }
        Self::calculate_safe_price(&median_price, is_upper_bound)
    }
}

/// The safe prices bracket the standardized price: the lower bound lies
/// below it and the upper bound above it, each by the confidence, so the
/// two bounds lie twice the confidence apart.
pub proof fn lemma_safe_price_band(price: OraclePrice)
    requires
        spec_safe_price(price, true) is Ok,
        spec_safe_price(price, false) is Ok,
    ensures
        spec_standardize(price) is Ok,
        spec_safe_price(price, false)->Ok_0 + price.confidence == spec_standardize(price)->Ok_0,
        spec_standardize(price)->Ok_0 + price.confidence == spec_safe_price(price, true)->Ok_0,
        spec_safe_price(price, true)->Ok_0 - spec_safe_price(price, false)->Ok_0 == 2 * price.confidence,
{
}

/// Standardizing undoes a change of decimals: a value written with `d`
/// decimals (`d` from 6 to 25) as `value * 10^(d - 6)` standardizes back
/// to `value`, and a value with six decimals is left as it is.
pub proof fn lemma_standardize_scaled(value: u64, decimals: u8, last_updated: i64, confidence: u64)
    requires
        PRICE_DECIMALS <= decimals <= 25,
        value * pow10((decimals - PRICE_DECIMALS) as nat) <= u64::MAX,
    ensures
        spec_standardize(
            OraclePrice {
                value: (value * pow10((decimals - PRICE_DECIMALS) as nat)) as u64,
                decimals,
                last_updated,
                confidence,
            },
        ) == Ok::<u64, Error>(value),
{
    let p = pow10((decimals - PRICE_DECIMALS) as nat);
    lemma_pow10_monotonic(0, (decimals - PRICE_DECIMALS) as nat);
    let v = (value * p) as u64;
    assert(v == value * p);
    if decimals == PRICE_DECIMALS {
        assert(p == 1);
        assert(value * p == value) by (nonlinear_arith)
            requires
                p == 1,
        ;
    } else {
        assert((value * p) / (p as int) == value) by (nonlinear_arith)
            requires
                p >= 1,
        ;
        assert((v as int) / (p as int) == value);
    }
}

/// A stale price stays stale as time goes on.
pub proof fn lemma_stale_stays_stale(last_updated: i64, now: i64, later: i64)
    requires
        spec_is_stale(last_updated, now),
        now <= later,
    ensures
        spec_is_stale(last_updated, later),
{
}

/// A price passes validation exactly when its value is positive, it is at
/// most 300 seconds old, and its confidence is within the limit given, or
/// within 100_000 where no limit is given. A price that is positive and
/// fresh but less certain than the limit is refused as `InvalidOraclePrice`.
pub proof fn lemma_validate_price_limits(price: OraclePrice, max_confidence_interval: Option<u64>, now: i64)
    ensures
        ({
            let limit: int = match max_confidence_interval {
                Some(m) => m as int,
                None => 100_000,
            };
            &&& spec_validate_price(price, max_confidence_interval, now) is Ok <==> (price.value > 0 && now
                - price.last_updated <= 300 && price.confidence <= limit)
            &&& price.value > 0 && now - price.last_updated <= 300 && price.confidence > limit
                ==> spec_validate_price(price, max_confidence_interval, now) == Err::<(), Error>(
                Error::StableFun(StableFunError::InvalidOraclePrice),
            )
        }),
{
}

/// Every price the median computation keeps passes validation with the
/// default limit: positive, at most 300 seconds old at `now`, and with a
/// confidence of at most 100_000.
proof fn lemma_accepted_prices_valid(rounds: Seq<Option<OracleRound>>, now: i64)
    ensures
        forall|i: int|
            0 <= i < accepted_prices(rounds, now).len() ==> {
                let p = #[trigger] accepted_prices(rounds, now)[i];
                p.value > 0 && now - p.last_updated <= 300 && p.confidence <= 100_000
            },
    decreases rounds.len(),
{
    if rounds.len() > 0 {
        let rest = accepted_prices(rounds.drop_last(), now);
        lemma_accepted_prices_valid(rounds.drop_last(), now);
        if accepted(rounds.last(), now) {
            let last = spec_price_from_round(rounds.last()->Some_0);
            lemma_validate_price_limits(last, None, now);
            assert forall|i: int| 0 <= i < accepted_prices(rounds, now).len() implies {
                let p = #[trigger] accepted_prices(rounds, now)[i];
                p.value > 0 && now - p.last_updated <= 300 && p.confidence <= 100_000
            } by {
                assert(accepted_prices(rounds, now) == rest.push(last));
                if i < rest.len() {
                    assert(accepted_prices(rounds, now)[i] == rest[i]);
                }
            }
        } else {
            assert(accepted_prices(rounds, now) == rest);
        }
    }
}

/// The median price, where there is one, passes validation with the
/// default limit: it is positive, at most 300 seconds old at `now`, and
/// its confidence is at most 100_000.
pub proof fn lemma_median_price_valid(rounds: Seq<Option<OracleRound>>, now: i64, r: Result<OraclePrice, Error>)
    requires
        median_price_ok(rounds, now, r),
        r is Ok,
    ensures
        r->Ok_0.value > 0,
        now - r->Ok_0.last_updated <= 300,
        r->Ok_0.confidence <= 100_000,
{
    let s = accepted_prices(rounds, now);
    let j = choose|j: int| 0 <= j < s.len() && s[j] == r->Ok_0 && sorted_index(s, j) == s.len() / 2;
    lemma_accepted_prices_valid(rounds, now);
    assert(s[j] == r->Ok_0);
}

/// The median is one of the accepted prices.
pub proof fn lemma_median_is_accepted(s: Seq<OraclePrice>, p: OraclePrice)
    requires
        is_median(s, p),
    ensures
        s.contains(p),
{
    let j = choose|j: int| 0 <= j < s.len() && s[j] == p && sorted_index(s, j) == s.len() / 2;
    assert(s[j] == p);
}

} // verus!
