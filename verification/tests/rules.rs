//! Lifetimes, sums, guards and divisions, on concrete values.
use delivery_escrow::rules::{
    checked_add_ts, require_status, standard_payout, ttl_extend_for_window, validate_allocation,
};
use delivery_escrow::types::{Address, Allocation, ContractError, Order, OrderStatus};

fn order(delivery_fee: i128, rider_bond: i128, platform_fee_bps: u32) -> Order {
    Order {
        order_id: 0,
        customer: Address::Account { high: 0, low: 1 },
        rider: Address::Account { high: 0, low: 2 },
        delivery_fee,
        rider_bond,
        platform_fee_bps,
        confirmation_window_secs: 1,
        evidence_window_secs: 1,
        status: OrderStatus::Delivered,
        created_at: 0,
        delivered_at: 0,
        disputed_at: 0,
        metadata_uri: Vec::new(),
    }
}

#[test]
fn ttl_has_a_floor_and_a_cap() {
    assert_eq!(ttl_extend_for_window(0), 518_400);
    assert_eq!(ttl_extend_for_window(1_296_000), 518_400);
    assert_eq!(ttl_extend_for_window(1_296_002), 518_400);
    assert_eq!(ttl_extend_for_window(1_296_003), 518_401);
    assert_eq!(ttl_extend_for_window(1_814_400), 725_760);
    assert_eq!(ttl_extend_for_window(10_737_418_237), u32::MAX - 1);
    assert_eq!(ttl_extend_for_window(10_737_418_238), u32::MAX);
    assert_eq!(ttl_extend_for_window(u64::MAX), u32::MAX);
}

#[test]
fn instants_add_up_or_overflow() {
    assert_eq!(checked_add_ts(100, 86_400), Ok(86_500));
    assert_eq!(checked_add_ts(u64::MAX, 0), Ok(u64::MAX));
    assert_eq!(checked_add_ts(u64::MAX, 1), Err(ContractError::TimestampOverflow));
}

#[test]
fn each_status_has_its_refusal() {
    let delivered = order(1, 0, 0);
    let check = |expected| require_status(&delivered, expected);
    assert_eq!(check(OrderStatus::Delivered), Ok(()));
    assert_eq!(check(OrderStatus::Open), Err(ContractError::NotInOpenState));
    assert_eq!(check(OrderStatus::Funded), Err(ContractError::NotInFundedState));
    assert_eq!(check(OrderStatus::Disputed), Err(ContractError::NotInDisputedState));
    assert_eq!(check(OrderStatus::Released), Err(ContractError::InvalidStatus));
    assert_eq!(check(OrderStatus::Resolved), Err(ContractError::InvalidStatus));
    assert_eq!(check(OrderStatus::Cancelled), Err(ContractError::InvalidStatus));
    let mut open = order(1, 0, 0);
    open.status = OrderStatus::Open;
    assert_eq!(
        require_status(&open, OrderStatus::Delivered),
        Err(ContractError::NotInDeliveredState)
    );
}

#[test]
fn allocations_must_divide_the_pot() {
    let shares = |to_customer, to_rider, to_platform, forfeit| Allocation {
        to_customer,
        to_rider,
        to_platform,
        forfeit,
    };
    assert_eq!(validate_allocation(&shares(600, 750, 150, 0), 1_500), Ok(()));
    assert_eq!(validate_allocation(&shares(400, 900, 100, 100), 1_500), Ok(()));
    assert_eq!(
        validate_allocation(&shares(500, 500, 400, 0), 1_500),
        Err(ContractError::AllocationExceedsPot)
    );
    assert_eq!(
        validate_allocation(&shares(1_500, 1, 0, 0), 1_500),
        Err(ContractError::AllocationExceedsPot)
    );
    for bad in [
        shares(-1, 1_501, 0, 0),
        shares(1_501, -1, 0, 0),
        shares(1_501, 0, -1, 0),
        shares(1_501, 0, 0, -1),
    ] {
        assert_eq!(validate_allocation(&bad, 1_500), Err(ContractError::InvalidAmount));
    }
    for big in [
        shares(i128::MAX, 1, 0, 0),
        shares(i128::MAX, 0, 1, 0),
        shares(i128::MAX, 0, 0, 1),
    ] {
        assert_eq!(validate_allocation(&big, 1), Err(ContractError::TimestampOverflow));
    }
}

#[test]
fn standard_payout_divides_the_pot() {
    assert_eq!(
        standard_payout(&order(1_000, 500, 500)),
        Ok(Allocation { to_customer: 0, to_rider: 1_450, to_platform: 50, forfeit: 0 })
    );
    // The platform's share is rounded down.
    assert_eq!(
        standard_payout(&order(999, 1, 333)),
        Ok(Allocation { to_customer: 0, to_rider: 967, to_platform: 33, forfeit: 0 })
    );
    assert_eq!(
        standard_payout(&order(7, 0, 5_000)),
        Ok(Allocation { to_customer: 0, to_rider: 4, to_platform: 3, forfeit: 0 })
    );
    // A negative fee is rounded towards zero.
    assert_eq!(
        standard_payout(&order(-999, 0, 333)),
        Ok(Allocation { to_customer: 0, to_rider: -966, to_platform: -33, forfeit: 0 })
    );
}

#[test]
fn standard_payout_refuses_overflow() {
    assert_eq!(
        standard_payout(&order(i128::MAX, 0, 2)),
        Err(ContractError::TimestampOverflow)
    );
    assert_eq!(
        standard_payout(&order(i128::MAX, 1, 0)),
        Err(ContractError::TimestampOverflow)
    );
    assert_eq!(
        standard_payout(&order(i128::MIN, 0, 1)),
        Ok(Allocation {
            to_customer: 0,
            to_rider: i128::MIN - i128::MIN / 10_000,
            to_platform: i128::MIN / 10_000,
            forfeit: 0
        })
    );
}

#[test]
fn codes_are_as_published() {
    let errors = [
        ContractError::InvalidAmount,
        ContractError::InvalidBond,
        ContractError::InvalidFeeBps,
        ContractError::InvalidWindow,
        ContractError::InvalidStatus,
        ContractError::OrderNotFound,
        ContractError::Unauthorized,
        ContractError::NotInOpenState,
        ContractError::NotInFundedState,
        ContractError::NotInDeliveredState,
        ContractError::NotInDisputedState,
        ContractError::ConfirmationWindowOpen,
        ContractError::ConfirmationWindowClosed,
        ContractError::EvidenceWindowOpen,
        ContractError::AllocationExceedsPot,
        ContractError::TimestampOverflow,
        ContractError::SelfDealNotAllowed,
        ContractError::AlreadyFunded,
    ];
    let mut expected = 1;
    for e in errors {
        assert_eq!(e.code(), expected);
        expected += 1;
    }
    let statuses = [
        OrderStatus::Open,
        OrderStatus::Funded,
        OrderStatus::Delivered,
        OrderStatus::Disputed,
        OrderStatus::Released,
        OrderStatus::Resolved,
        OrderStatus::Cancelled,
    ];
    let mut expected = 0;
    for s in statuses {
        assert_eq!(s.code(), expected);
        expected += 1;
    }
}
