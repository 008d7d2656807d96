//! How much the next redemption of a link pays, by distribution type.
use vstd::prelude::*;
use crate::error::CashError;
use crate::state::{Cash, DistributionType, WEIGHT_BUDGET_PPM, even_share};

verus! {

/// Whether the next redemption is the last one the link allows.
pub open spec fn is_final_redemption(c: Cash) -> bool {
    c.max_num_redemptions == 1 || c.total_redemptions + 1 == c.max_num_redemptions
}

/// Floor of a random payout: the link's floor, capped by what is left.
pub open spec fn random_min_possible(c: Cash) -> int {
    if c.min_amount <= c.remaining_amount {
        c.min_amount as int
    } else {
        c.remaining_amount as int
    }
}

/// Ceiling of a random payout: twice the average of what is left per
/// redemption to come, capped by what is left.
pub open spec fn random_max_possible(c: Cash) -> int {
    let average = c.remaining_amount as int / (c.max_num_redemptions - c.total_redemptions);
    if 2 * average <= c.remaining_amount {
        2 * average
    } else {
        c.remaining_amount as int
    }
}

/// A random payout: all that is left on the final redemption, otherwise
/// `random_value` reduced into `[min_possible, max_possible]`, or the floor
/// where that range is empty or a single point.
pub open spec fn random_payout(c: Cash, random_value: u64) -> int {
    if is_final_redemption(c) {
        c.remaining_amount as int
    } else if random_max_possible(c) > random_min_possible(c) {
        random_min_possible(c) + random_value as int % (random_max_possible(c)
            - random_min_possible(c) + 1)
    } else {
        random_min_possible(c)
    }
}

/// A weighted payout: `weight_ppm` millionths of the amount, capped by
/// what is left.
pub open spec fn weighted_payout(c: Cash, weight_ppm: int) -> int {
    let share = c.amount * weight_ppm / 1_000_000;
    if share <= c.remaining_amount {
        share
    } else {
        c.remaining_amount as int
    }
}

/// The payout of the next redemption and the link's weight total after it,
/// or why there is none.
pub open spec fn distribution_outcome(c: Cash, weight_ppm: Option<u32>, random_value: u64) -> Result<
    (u64, u32),
    CashError,
> {
    match c.distribution_type {
        DistributionType::Fixed | DistributionType::Equal => Ok(
            (even_share(c) as u64, c.total_weight_ppm),
        ),
        DistributionType::Random => Ok((random_payout(c, random_value) as u64, c.total_weight_ppm)),
        DistributionType::Weighted => match weight_ppm {
            None => Err(CashError::WeightNotProvided),
            Some(w) => if w == 0 || w > WEIGHT_BUDGET_PPM {
                Err(CashError::InvalidWeight)
            } else if c.total_weight_ppm + w > WEIGHT_BUDGET_PPM {
                Err(CashError::TotalWeightExceeded)
            } else if c.amount * w > u64::MAX {
                Err(CashError::Overflow)
            } else {
                Ok((weighted_payout(c, w as int) as u64, (c.total_weight_ppm + w) as u32))
            },
        },
    }
}

/// The random payout of the next redemption; see `random_payout`.
pub fn random_amount(cash: &Cash, random_value: u64) -> (r: u64)
    requires
        cash.total_redemptions < cash.max_num_redemptions,
    ensures
        r == random_payout(*cash, random_value),
        r <= cash.remaining_amount,
        is_final_redemption(*cash) ==> r == cash.remaining_amount,
{
    if cash.max_num_redemptions == 1 || cash.total_redemptions == cash.max_num_redemptions - 1 {
        return cash.remaining_amount;
    }
    let remaining_redemptions = cash.max_num_redemptions - cash.total_redemptions;
    let average_possible = cash.remaining_amount / remaining_redemptions as u64;
    assert(2 * average_possible <= cash.remaining_amount) by (nonlinear_arith)
        requires
            remaining_redemptions >= 2,
            average_possible == cash.remaining_amount as int / remaining_redemptions as int,
    ;
    let max_possible = average_possible * 2;
    let min_possible = if cash.min_amount <= cash.remaining_amount {
        cash.min_amount
    } else {
        cash.remaining_amount
    };
    if max_possible > min_possible {
        let range = max_possible - min_possible + 1;
        min_possible + random_value % range
    } else {
        min_possible
    }
}

/// The payout of the next redemption, and the link's weight total after
/// it; see `distribution_outcome`.
pub fn amount_to_redeem(cash: &Cash, weight_ppm: Option<u32>, random_value: u64) -> (r: Result<
    (u64, u32),
    CashError,
>)
    requires
        cash.wf(),
        cash.total_redemptions < cash.max_num_redemptions,
    ensures
        r == distribution_outcome(*cash, weight_ppm, random_value),
        r matches Ok((paid, _)) ==> paid <= cash.remaining_amount,
{
    match cash.distribution_type {
        DistributionType::Fixed | DistributionType::Equal => {
            let share = cash.amount / cash.max_num_redemptions as u64;
            assert(share <= cash.remaining_amount) by (nonlinear_arith)
                requires
                    share == cash.amount as int / cash.max_num_redemptions as int,
                    cash.remaining_amount == cash.amount - cash.total_redemptions * share,
                    cash.total_redemptions + 1 <= cash.max_num_redemptions,
                    cash.max_num_redemptions > 0,
            ;
            Ok((share, cash.total_weight_ppm))
        },
        DistributionType::Random => Ok((random_amount(cash, random_value), cash.total_weight_ppm)),
        DistributionType::Weighted => {
            let w = match weight_ppm {
                Some(w) => w,
                None => return Err(CashError::WeightNotProvided),
            };
            if w == 0 || w > WEIGHT_BUDGET_PPM {
                return Err(CashError::InvalidWeight);
            }
            let new_total = cash.total_weight_ppm + w;
            if new_total > WEIGHT_BUDGET_PPM {
                return Err(CashError::TotalWeightExceeded);
            }
            let share = match cash.amount.checked_mul(w as u64) {
                Some(product) => product / 1_000_000,
                None => return Err(CashError::Overflow),
            };
            let paid = if share <= cash.remaining_amount {
                share
            } else {
                cash.remaining_amount
            };
            Ok((paid, new_total))
        },
    }
}

} // verus!
