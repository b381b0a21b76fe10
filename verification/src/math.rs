//! Integer arithmetic of fees and interest.
use crate::errors::LendingError;
use crate::state::LendingContract;
use vstd::prelude::*;

verus! {

/// Basis points in a whole.
pub const BPS_DENOMINATOR: i128 = 10_000;

/// Basis points times days in a year.
pub const INTEREST_DENOMINATOR: i128 = 3_650_000;

/// Seconds in a day.
pub const SECONDS_PER_DAY: u64 = 86_400;

/// Liquidation threshold before reputation and volatility.
pub const BASE_THRESHOLD_BPS: u64 = 7500;

/// Most that reputation adds to the liquidation threshold.
pub const MAX_REPUTATION_BONUS_BPS: u64 = 1500;

/// Lowest liquidation threshold.
pub const MIN_THRESHOLD_BPS: u64 = 5000;

/// Highest liquidation threshold.
pub const MAX_THRESHOLD_BPS: u64 = 9000;

/// The number can be held in an `i128`.
pub open spec fn fits_i128(x: int) -> bool {
    i128::MIN <= x <= i128::MAX
}

/// Division that rounds toward zero.
pub open spec fn div_toward_zero(x: int, d: int) -> int {
    if x >= 0 {
        x / d
    } else {
        -((-x) / d)
    }
}

/// `bps` basis points of `x`, rounded toward zero.
pub open spec fn bps_of(x: int, bps: int) -> int {
    div_toward_zero(x * bps, BPS_DENOMINATOR as int)
}

/// Simple interest: principal x rate x days / (10 000 x 365), rounded toward zero.
pub open spec fn interest(principal: int, rate_bps: int, days: int) -> int {
    div_toward_zero(principal * rate_bps * days, INTEREST_DENOMINATOR as int)
}

/// Why the interest cannot be computed, if it cannot.
pub open spec fn interest_refusal(principal: int, rate_bps: int, days: int) -> Option<LendingError> {
    if !fits_i128(principal * rate_bps) {
        Some(LendingError::InterestRateOverflow)
    } else if !fits_i128(principal * rate_bps * days) {
        Some(LendingError::InterestDaysOverflow)
    } else {
        None
    }
}

/// `x`, moved into the range from `low` to `high`.
pub open spec fn clamp(x: int, low: int, high: int) -> int {
    if x < low {
        low
    } else if x > high {
        high
    } else {
        x
    }
}

/// Liquidation threshold: base, plus one and a half times the score up to a
/// limit, minus half of the volatility, within bounds.
pub open spec fn liquidation_threshold(score: int, volatility_bps: int) -> int {
    let bonus = clamp(score * 3 / 2, 0, MAX_REPUTATION_BONUS_BPS as int);
    clamp(
        BASE_THRESHOLD_BPS + bonus - volatility_bps / 2,
        MIN_THRESHOLD_BPS as int,
        MAX_THRESHOLD_BPS as int,
    )
}

/// `bps` basis points of `x`, unless the product is too large.
pub(crate) fn checked_bps_of(x: i128, bps: u32) -> (part: Option<i128>)
    ensures
        part is Some <==> fits_i128(x * bps),
        part is Some ==> part->0 == bps_of(x as int, bps as int),
{
    match x.checked_mul(bps as i128) {
        Some(product) => Some(product / BPS_DENOMINATOR),
        None => None,
    }
}

impl LendingContract {
    /// Simple interest: principal x rate x days / (10 000 x 365).
    ///
    /// A principal or rate that is too large for the arithmetic is refused.
    pub fn calculate_interest(principal: i128, rate_bps: u32, days: u32) -> (result: Result<
        i128,
        LendingError,
    >)
        ensures
            match interest_refusal(principal as int, rate_bps as int, days as int) {
                Some(error) => result == Err::<i128, LendingError>(error),
                None => result is Ok && result->Ok_0 == interest(
                    principal as int,
                    rate_bps as int,
                    days as int,
                ),
            },
    {
        let yearly = match principal.checked_mul(rate_bps as i128) {
            Some(yearly) => yearly,
            None => return Err(LendingError::InterestRateOverflow),
        };
        match yearly.checked_mul(days as i128) {
            Some(numerator) => Ok(numerator / INTEREST_DENOMINATOR),
            None => Err(LendingError::InterestDaysOverflow),
        }
    }

    /// Liquidation threshold in basis points, from the borrower's reputation
    /// score and the volatility of the asset.
    ///
    /// - The base is 7500 basis points.
    /// - Reputation adds 1.5 basis points per point of score, at most 1500.
    /// - Volatility subtracts half of its basis points.
    /// - The result is kept between 5000 and 9000.
    pub fn calculate_liquidation_threshold(
        borrower_reputation_score: u32,
        asset_volatility_bps: u32,
    ) -> (threshold: u32)
        ensures
            threshold == liquidation_threshold(
                borrower_reputation_score as int,
                asset_volatility_bps as int,
            ),
    {
        let earned: u64 = borrower_reputation_score as u64 * 15 / 10;
        let bonus: u64 = if earned > MAX_REPUTATION_BONUS_BPS {
            MAX_REPUTATION_BONUS_BPS
        } else {
            earned
        };
        let penalty: u64 = asset_volatility_bps as u64 / 2;
        let threshold: u64 = (BASE_THRESHOLD_BPS + bonus).saturating_sub(penalty);
        if threshold < MIN_THRESHOLD_BPS {
            MIN_THRESHOLD_BPS as u32
        } else if threshold > MAX_THRESHOLD_BPS {
            MAX_THRESHOLD_BPS as u32
        } else {
            threshold as u32
        }
    }
}

/// Interest on a principal that is not negative is not negative.
pub proof fn interest_not_negative(principal: int, rate_bps: int, days: int)
    requires
        principal >= 0,
        rate_bps >= 0,
        days >= 0,
    ensures
        interest(principal, rate_bps, days) >= 0,
{
    assert(principal * rate_bps >= 0) by (nonlinear_arith)
        requires
            principal >= 0,
            rate_bps >= 0,
    ;
    assert((principal * rate_bps) * days >= 0) by (nonlinear_arith)
        requires
            principal * rate_bps >= 0,
            days >= 0,
    ;
}

/// A part in basis points is not negative and never more than its share.
pub proof fn bps_share(x: int, bps: int, max_bps: int)
    requires
        x >= 0,
        0 <= bps <= max_bps,
    ensures
        0 <= bps_of(x, bps),
        bps_of(x, bps) * BPS_DENOMINATOR <= x * max_bps,
{
    assert(0 <= x * bps <= x * max_bps) by (nonlinear_arith)
        requires
            x >= 0,
            0 <= bps <= max_bps,
    ;
}

} // verus!
