//! The rules of the escrow that need no ledger: storage lifetimes, state
//! guards, and how a pot is divided.
use vstd::prelude::*;

use crate::types::{
    Allocation, ContractError, Order, OrderStatus, OrderView, BPS_DENOMINATOR,
    PERSISTENT_TTL_EXTEND_MIN, SECS_PER_LEDGER,
};

verus! {

/// Ledgers for which an entry is kept that must outlive `secs` seconds twice:
/// `2 * secs` in whole ledgers, but no fewer than the floor and no more than a
/// ledger count can express.
pub open spec fn ttl_ledgers(secs: u64) -> u32 {
    let ledgers: int = (2 * secs as int) / (SECS_PER_LEDGER as int);
    if ledgers < PERSISTENT_TTL_EXTEND_MIN {
        PERSISTENT_TTL_EXTEND_MIN
    } else if ledgers > u32::MAX {
        u32::MAX
    } else {
        ledgers as u32
    }
}

/// Ledgers to extend a persistent entry to, for windows of `secs` seconds.
pub fn ttl_extend_for_window(secs: u64) -> (ledgers: u32)
    ensures
        ledgers == ttl_ledgers(secs),
{
    let doubled: u64 = match secs.checked_mul(2) {
        Some(v) => v,
        None => u64::MAX,
    };
    let ledgers: u64 = doubled / SECS_PER_LEDGER;
    let capped: u32 = if ledgers > u32::MAX as u64 {
        u32::MAX
    } else {
        ledgers as u32
    };
    if capped < PERSISTENT_TTL_EXTEND_MIN {
        PERSISTENT_TTL_EXTEND_MIN
    } else {
        capped
    }
}

/// Sum of an instant and a duration.
pub fn checked_add_ts(a: u64, b: u64) -> (sum: Result<u64, ContractError>)
    ensures
        match sum {
            Ok(end) => end == a + b,
            Err(e) => a + b > u64::MAX && e == ContractError::TimestampOverflow,
        },
{
    match a.checked_add(b) {
        Some(end) => Ok(end),
        None => Err(ContractError::TimestampOverflow),
    }
}

/// The refusal of a call that needs an order to be in status `expected`.
pub open spec fn status_error(expected: OrderStatus) -> ContractError {
    match expected {
        OrderStatus::Open => ContractError::NotInOpenState,
        OrderStatus::Funded => ContractError::NotInFundedState,
        OrderStatus::Delivered => ContractError::NotInDeliveredState,
        OrderStatus::Disputed => ContractError::NotInDisputedState,
        _ => ContractError::InvalidStatus,
    }
}

/// Checks that `order` is in status `expected`.
pub fn require_status(order: &Order, expected: OrderStatus) -> (checked: Result<(), ContractError>)
    ensures
        match checked {
            Ok(()) => order.status == expected,
            Err(e) => order.status != expected && e == status_error(expected),
        },
{
    if order.status == expected {
        return Ok(());
    }
    Err(
        match expected {
            OrderStatus::Open => ContractError::NotInOpenState,
            OrderStatus::Funded => ContractError::NotInFundedState,
            OrderStatus::Delivered => ContractError::NotInDeliveredState,
            OrderStatus::Disputed => ContractError::NotInDisputedState,
            _ => ContractError::InvalidStatus,
        },
    )
}

/// Whether `a` divides `pot`, and if not, why.
pub open spec fn allocation_verdict(a: Allocation, pot: int) -> Result<(), ContractError> {
    if !a.non_negative() {
        Err(ContractError::InvalidAmount)
    } else if a.total() > i128::MAX {
        Err(ContractError::TimestampOverflow)
    } else if a.total() != pot {
        Err(ContractError::AllocationExceedsPot)
    } else {
        Ok(())
    }
}

/// Checks that an allocation has no negative share and sums to `pot`.
pub fn validate_allocation(a: &Allocation, pot: i128) -> (verdict: Result<(), ContractError>)
    ensures
        verdict == allocation_verdict(*a, pot as int),
{
    if a.to_customer < 0 || a.to_rider < 0 || a.to_platform < 0 || a.forfeit < 0 {
        return Err(ContractError::InvalidAmount);
    }
    let parties: i128 = match a.to_customer.checked_add(a.to_rider) {
        Some(v) => v,
        None => return Err(ContractError::TimestampOverflow),
    };
    let paid: i128 = match parties.checked_add(a.to_platform) {
        Some(v) => v,
        None => return Err(ContractError::TimestampOverflow),
    };
    let sum: i128 = match paid.checked_add(a.forfeit) {
        Some(v) => v,
        None => return Err(ContractError::TimestampOverflow),
    };
    if sum != pot {
        return Err(ContractError::AllocationExceedsPot);
    }
    Ok(())
}

/// `n` is an amount that the token can express.
pub open spec fn is_amount(n: int) -> bool {
    i128::MIN <= n <= i128::MAX
}

/// The platform's share of a delivery fee: `bps` basis points of it, without
/// the fraction.
pub open spec fn platform_share(fee: i128, bps: u32) -> int {
    if fee >= 0 {
        (fee * bps) / (BPS_DENOMINATOR as int)
    } else {
        -((-fee * bps) / (BPS_DENOMINATOR as int))
    }
}

/// The division of the pot on a regular release: the platform gets its share
/// of the fee, the rider gets the rest of the fee and the bond.
pub open spec fn standard_division(order: OrderView) -> Result<Allocation, ContractError> {
    let cut = platform_share(order.delivery_fee, order.platform_fee_bps);
    let take = order.delivery_fee - cut + order.rider_bond;
    if !is_amount(order.delivery_fee * order.platform_fee_bps) || !is_amount(take) {
        Err(ContractError::TimestampOverflow)
    } else {
        Ok(
            Allocation {
                to_customer: 0,
                to_rider: take as i128,
                to_platform: cut as i128,
                forfeit: 0,
            },
        )
    }
}

/// The platform's share lies between zero and the product it is taken from.
proof fn lemma_share_bounds(fee: i128, bps: u32)
    ensures
        fee >= 0 ==> 0 <= fee * bps && 0 <= platform_share(fee, bps) <= fee * bps,
        fee < 0 ==> 0 <= -fee * bps && -fee * bps == -(fee * bps) && fee * bps <= platform_share(
            fee,
            bps,
        ) <= 0,
{
    assert(fee >= 0 ==> 0 <= fee * bps) by (nonlinear_arith);
    assert(fee < 0 ==> 0 <= -fee * bps) by (nonlinear_arith);
    assert(-fee * bps == -(fee * bps)) by (nonlinear_arith);
}

/// The division of the pot on a regular release.
///
/// The only refusal is an overflow: the platform's share has the sign of the
/// fee, so that taking it off the fee always gives an amount.
pub fn standard_payout(order: &Order) -> (division: Result<Allocation, ContractError>)
    ensures
        division == standard_division(order@),
{
    proof {
        lemma_share_bounds(order.delivery_fee, order.platform_fee_bps);
    }
    let product: i128 = match order.delivery_fee.checked_mul(order.platform_fee_bps as i128) {
        Some(v) => v,
        None => return Err(ContractError::TimestampOverflow),
    };
    let platform_cut: i128 = product / BPS_DENOMINATOR;
    let rest: i128 = match order.delivery_fee.checked_sub(platform_cut) {
        Some(v) => v,
        None => return Err(ContractError::InvalidAmount),
    };
    let rider_take: i128 = match rest.checked_add(order.rider_bond) {
        Some(v) => v,
        None => return Err(ContractError::TimestampOverflow),
    };
    Ok(
        Allocation {
            to_customer: 0,
            to_rider: rider_take,
            to_platform: platform_cut,
            forfeit: 0,
        },
    )
}

} // verus!
