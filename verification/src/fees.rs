//! The fee and reward engine: the base fee quoted to senders and the share of
//! the collected fees that each committee member is owed.

use crate::error::MostError;
use crate::hashing::AccountId;
use vstd::prelude::*;

verus! {

/// The age, in milliseconds, beyond which an answer of the gas price oracle is not used.
pub const GAS_ORACLE_MAX_AGE: u64 = 24 * 60 * 60 * 1000;

/// The gas that a query of the gas price oracle may use.
pub const ORACLE_CALL_GAS_LIMIT: u64 = 2_000_000_000;

/// The buffer added to the base fee, in percent.
pub const BASE_FEE_BUFFER_PERCENTAGE: u128 = 20;

/// Whether an answer with this timestamp is too old at time `now`.
pub open spec fn is_stale(timestamp: u64, now: u64) -> bool {
    timestamp + GAS_ORACLE_MAX_AGE < now
}

/// `price`, raised to `min` where it lies below and lowered to `max` where it lies above.
pub open spec fn clamp_price(price: u128, min: u128, max: u128) -> u128 {
    if price < min {
        min
    } else if price > max {
        max
    } else {
        price
    }
}

/// The gas price that a fee is computed from. The oracle's answer counts
/// when an oracle is configured, the query succeeded and the answer is not
/// stale; it is then clamped. In every other case the default price is used.
pub open spec fn quoted_gas_price(
    oracle: Option<AccountId>,
    answer: Option<(u128, u64)>,
    now: u64,
    min: u128,
    max: u128,
    default: u128,
) -> u128 {
    match (oracle, answer) {
        (Some(_), Some((price, timestamp))) => if is_stale(timestamp, now) {
            default
        } else {
            clamp_price(price, min, max)
        },
        _ => default,
    }
}

/// The base fee at this gas price: the price times the gas that relaying
/// uses, plus the buffer, rounded down. A product that does not fit is an error.
pub open spec fn fee_for(gas_price: u128, relay_gas_usage: u128) -> Result<u128, MostError> {
    if gas_price * relay_gas_usage * (100 + BASE_FEE_BUFFER_PERCENTAGE) > u128::MAX {
        Err(MostError::Arithmetic)
    } else {
        Ok(((gas_price * relay_gas_usage * (100 + BASE_FEE_BUFFER_PERCENTAGE)) / 100) as u128)
    }
}

/// What a member may still claim: the share less what was paid out, never below zero.
pub open spec fn outstanding(share: u128, paid_out: u128) -> u128 {
    if share >= paid_out {
        (share - paid_out) as u128
    } else {
        0
    }
}

/// Picks the gas price that a fee is computed from.
pub fn gas_price(
    oracle: Option<AccountId>,
    answer: Option<(u128, u64)>,
    now: u64,
    min: u128,
    max: u128,
    default: u128,
) -> (price: u128)
    ensures
        price == quoted_gas_price(oracle, answer, now, min, max, default),
{
    if oracle.is_none() {
        return default;
    }
    match answer {
        Some((price, timestamp)) => {
            if now > timestamp && now - timestamp > GAS_ORACLE_MAX_AGE {
                default
            } else if price < min {
                min
            } else if price > max {
                max
            } else {
                price
            }
        },
        None => default,
    }
}

/// Computes the base fee at a gas price.
pub fn base_fee(gas_price: u128, relay_gas_usage: u128) -> (fee: Result<u128, MostError>)
    ensures
        fee == fee_for(gas_price, relay_gas_usage),
{
    let gas = match gas_price.checked_mul(relay_gas_usage) {
        Some(gas) => gas,
        None => {
            proof {
                lemma_product_grows(gas_price * relay_gas_usage);
            }
            return Err(MostError::Arithmetic);
        },
    };
    match gas.checked_mul(100 + BASE_FEE_BUFFER_PERCENTAGE) {
        Some(buffered) => Ok(buffered / 100),
        None => Err(MostError::Arithmetic),
    }
}

/// A product that does not fit does not fit with the buffer added either.
proof fn lemma_product_grows(product: int)
    requires
        product > u128::MAX,
    ensures
        product * (100 + BASE_FEE_BUFFER_PERCENTAGE) > u128::MAX,
{
    assert(product * (100 + BASE_FEE_BUFFER_PERCENTAGE) >= product) by (nonlinear_arith)
        requires
            product > 0,
    ;
}

/// Computes what a member may still claim.
pub fn outstanding_share(collected: u128, size: u128, paid_out: u128) -> (amount: u128)
    requires
        size > 0,
    ensures
        amount == outstanding((collected / size) as u128, paid_out),
{
    let share = collected / size;
    share.saturating_sub(paid_out)
}

/// Every member's share, taken together, is covered by what was collected.
pub proof fn lemma_shares_covered(collected: u128, size: nat)
    requires
        size > 0,
    ensures
        size * (collected as int / size as int) <= collected,
{
    vstd::arithmetic::div_mod::lemma_fundamental_div_mod(collected as int, size as int);
    vstd::arithmetic::div_mod::lemma_mod_bound(collected as int, size as int);
}

/// A share does not shrink when more is collected.
pub proof fn lemma_share_grows(collected: u128, more: u128, size: nat)
    requires
        size > 0,
        collected <= more,
    ensures
        collected as int / size as int <= more as int / size as int,
{
    vstd::arithmetic::div_mod::lemma_div_is_ordered(collected as int, more as int, size as int);
}

} // verus!
