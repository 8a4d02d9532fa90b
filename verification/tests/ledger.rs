//! Storage, lists, events and refusals.
use delivery_escrow::actions::{Action, Event, HostAction};
use delivery_escrow::contract::DeliveryEscrowContract;
use delivery_escrow::env::{EscrowEnv, Instance};
use delivery_escrow::types::{
    Address, Allocation, ContractError, DataKey, Order, OrderStatus,
};
use soroban_sdk::Env as SdkEnv;
use soroban_sdk::Vec as SdkVec;

const CONTRACT: Address = Address::Contract { high: 9, low: 1 };
const TOKEN: Address = Address::Contract { high: 9, low: 2 };
const ADMIN: Address = Address::Account { high: 2, low: 1 };
const WALLET: Address = Address::Account { high: 2, low: 2 };
const ANNA: Address = Address::Account { high: 2, low: 3 };
const BEN: Address = Address::Account { high: 2, low: 4 };
const CARA: Address = Address::Account { high: 2, low: 5 };

fn deployed() -> (SdkEnv, EscrowEnv) {
    let host = SdkEnv::default();
    let env = DeliveryEscrowContract::__constructor(host.clone(), CONTRACT, 77, ADMIN, TOKEN, WALLET);
    (host, env)
}

fn instance(next_order_id: Option<u64>) -> Instance {
    Instance { admin: ADMIN, token: TOKEN, platform_fee_wallet: WALLET, next_order_id }
}

fn create(env: &mut EscrowEnv, customer: Address, rider: Address) -> Order {
    DeliveryEscrowContract::create_order(
        env,
        customer,
        rider,
        1_000,
        500,
        500,
        86_400,
        172_800,
        b"meta".to_vec(),
    )
    .unwrap()
}

fn order(status: OrderStatus) -> Order {
    Order {
        order_id: 4,
        customer: ANNA,
        rider: BEN,
        delivery_fee: 1_000,
        rider_bond: 500,
        platform_fee_bps: 500,
        confirmation_window_secs: 86_400,
        evidence_window_secs: 172_800,
        status,
        created_at: 1,
        delivered_at: 0,
        disputed_at: 0,
        metadata_uri: b"meta".to_vec(),
    }
}

fn with_order(now: u64, order: Order) -> EscrowEnv {
    let mut env = EscrowEnv::new(SdkEnv::default(), CONTRACT, now, instance(Some(5)));
    env.load_stored_order(4, order);
    env
}

#[test]
fn deployment_stores_addresses_and_counter() {
    let (_, mut env) = deployed();
    assert_eq!(env.timestamp(), 77);
    assert_eq!(env.current_contract_address(), CONTRACT);
    assert_eq!(
        env.take_actions(),
        vec![
            Action::SetAddress { key: DataKey::Admin, address: ADMIN },
            Action::SetAddress { key: DataKey::Token, address: TOKEN },
            Action::SetAddress { key: DataKey::PlatformFeeWallet, address: WALLET },
            Action::SetNextOrderId { next_order_id: 0 },
            Action::ExtendInstanceTtl { threshold: 17_280, extend_to: 518_400 },
        ]
    );
    assert_eq!(env.take_actions(), Vec::<HostAction>::new());
}

#[test]
fn creation_stores_lists_and_publishes() {
    let (host, mut env) = deployed();
    create(&mut env, CARA, BEN);
    env.take_actions();
    let made = create(&mut env, ANNA, BEN);
    assert_eq!(made.order_id, 1);
    assert_eq!(made.created_at, 77);
    assert_eq!(made.delivered_at, 0);
    assert_eq!(made.disputed_at, 0);
    let keep = |key: DataKey| Action::ExtendPersistentTtl {
        key,
        threshold: 17_280,
        extend_to: 518_400,
    };
    assert_eq!(
        env.take_actions(),
        vec![
            Action::RequireAuth { address: ANNA },
            Action::SetNextOrderId { next_order_id: 2 },
            Action::SetOrder { order: made.clone() },
            keep(DataKey::Order(1)),
            Action::SetIndex {
                key: DataKey::CustomerOrders(ANNA),
                ids: SdkVec::from_array(&host, [1u64])
            },
            keep(DataKey::CustomerOrders(ANNA)),
            Action::SetIndex {
                key: DataKey::RiderOrders(BEN),
                ids: SdkVec::from_array(&host, [0u64, 1])
            },
            keep(DataKey::RiderOrders(BEN)),
            Action::ExtendInstanceTtl { threshold: 17_280, extend_to: 518_400 },
            Action::Publish { event: Event::OrderCreated { order: made.clone() } },
        ]
    );
    assert_eq!(DeliveryEscrowContract::get_order(&env, 1), Ok(made));
}

#[test]
fn long_windows_are_kept_longer() {
    let (_, mut env) = deployed();
    env.take_actions();
    DeliveryEscrowContract::create_order(
        &mut env, ANNA, BEN, 1, 0, 0, 604_800, 1_209_600, Vec::new(),
    )
    .unwrap();
    let actions = env.take_actions();
    assert_eq!(
        actions[3],
        Action::ExtendPersistentTtl {
            key: DataKey::Order(0),
            threshold: 17_280,
            extend_to: 725_760
        }
    );
}

#[test]
fn lists_name_each_partys_orders() {
    let (host, mut env) = deployed();
    assert_eq!(DeliveryEscrowContract::get_customer_orders(&env, ANNA).len(), 0);
    create(&mut env, ANNA, BEN);
    create(&mut env, BEN, CARA);
    create(&mut env, ANNA, CARA);
    let ids = |list: &[u64]| SdkVec::from_slice(&host, list);
    assert_eq!(DeliveryEscrowContract::get_customer_orders(&env, ANNA), ids(&[0, 2]));
    assert_eq!(DeliveryEscrowContract::get_customer_orders(&env, BEN), ids(&[1]));
    assert_eq!(DeliveryEscrowContract::get_customer_orders(&env, CARA), ids(&[]));
    assert_eq!(DeliveryEscrowContract::get_rider_orders(&env, BEN), ids(&[0]));
    assert_eq!(DeliveryEscrowContract::get_rider_orders(&env, CARA), ids(&[1, 2]));
    assert_eq!(DeliveryEscrowContract::get_rider_orders(&env, ANNA), ids(&[]));
}

#[test]
fn stored_lists_are_continued() {
    let host = SdkEnv::default();
    let mut env = EscrowEnv::new(host.clone(), CONTRACT, 5, instance(Some(9)));
    env.load_stored_index(DataKey::CustomerOrders(ANNA), SdkVec::from_array(&host, [3u64, 7]));
    env.load_stored_index(DataKey::RiderOrders(BEN), SdkVec::from_array(&host, [8u64]));
    let made = create(&mut env, ANNA, BEN);
    assert_eq!(made.order_id, 9);
    assert_eq!(
        DeliveryEscrowContract::get_customer_orders(&env, ANNA),
        SdkVec::from_array(&host, [3u64, 7, 9])
    );
    assert_eq!(
        DeliveryEscrowContract::get_rider_orders(&env, BEN),
        SdkVec::from_array(&host, [8u64, 9])
    );
}

#[test]
fn missing_counter_starts_at_zero() {
    let mut env = EscrowEnv::new(SdkEnv::default(), CONTRACT, 5, instance(None));
    assert_eq!(create(&mut env, ANNA, BEN).order_id, 0);
    assert_eq!(create(&mut env, ANNA, BEN).order_id, 1);
}

#[test]
fn creation_needs_room_in_the_counter() {
    let mut env = EscrowEnv::new(SdkEnv::default(), CONTRACT, 5, instance(Some(u64::MAX)));
    let mut attempt = |fee: i128| {
        DeliveryEscrowContract::create_order_if_room(
            &mut env, ANNA, BEN, fee, 0, 0, 1, 1, Vec::new(),
        )
    };
    assert_eq!(attempt(1), None);
    assert_eq!(attempt(0), Some(Err(ContractError::InvalidAmount)));
    assert_eq!(env.take_actions(), Vec::<HostAction>::new());

    let mut env = EscrowEnv::new(SdkEnv::default(), CONTRACT, 5, instance(Some(u64::MAX - 1)));
    let made = DeliveryEscrowContract::create_order_if_room(
        &mut env, ANNA, BEN, 1, 0, 0, 1, 1, Vec::new(),
    );
    assert_eq!(made.unwrap().unwrap().order_id, u64::MAX - 1);
}

#[test]
fn terms_are_checked_in_order() {
    let (_, mut env) = deployed();
    env.take_actions();
    let mut attempt = |rider, fee, bond, bps, confirm, evidence| {
        DeliveryEscrowContract::create_order(
            &mut env, ANNA, rider, fee, bond, bps, confirm, evidence, Vec::new(),
        )
        .unwrap_err()
    };
    assert_eq!(attempt(ANNA, 0, -1, 5_001, 0, 0), ContractError::InvalidAmount);
    assert_eq!(attempt(ANNA, -5, 0, 0, 1, 1), ContractError::InvalidAmount);
    assert_eq!(attempt(ANNA, 1, -1, 5_001, 0, 0), ContractError::InvalidBond);
    assert_eq!(attempt(ANNA, 1, 0, 5_001, 0, 0), ContractError::InvalidFeeBps);
    assert_eq!(attempt(ANNA, 1, 0, 5_000, 0, 1), ContractError::InvalidWindow);
    assert_eq!(attempt(ANNA, 1, 0, 5_000, 604_801, 1), ContractError::InvalidWindow);
    assert_eq!(attempt(ANNA, 1, 0, 5_000, 604_800, 0), ContractError::InvalidWindow);
    assert_eq!(attempt(ANNA, 1, 0, 5_000, 604_800, 1_209_601), ContractError::InvalidWindow);
    assert_eq!(attempt(ANNA, 1, 0, 5_000, 604_800, 1_209_600), ContractError::SelfDealNotAllowed);
    assert_eq!(env.take_actions(), Vec::<HostAction>::new());
}

#[test]
fn funding_without_bond_pulls_only_the_fee() {
    let mut open = order(OrderStatus::Open);
    open.rider_bond = 0;
    let mut env = with_order(10, open);
    let funded = DeliveryEscrowContract::fund(&mut env, 4).unwrap();
    assert_eq!(funded.status, OrderStatus::Funded);
    let actions = env.take_actions();
    assert_eq!(actions.len(), 7);
    assert_eq!(actions[0], Action::RequireAuth { address: ANNA });
    assert_eq!(actions[1], Action::RequireAuth { address: BEN });
    assert_eq!(
        actions[2],
        Action::TransferFrom {
            token: TOKEN,
            spender: CONTRACT,
            from: ANNA,
            to: CONTRACT,
            amount: 1_000
        }
    );
    assert_eq!(actions[3], Action::SetOrder { order: funded });
    assert_eq!(
        actions[6],
        Action::Publish {
            event: Event::OrderFunded { order_id: 4, delivery_fee: 1_000, rider_bond: 0 }
        }
    );
}

#[test]
fn release_pays_rider_and_platform_and_publishes() {
    let mut env = with_order(10, order(OrderStatus::Delivered));
    let paid = DeliveryEscrowContract::confirm_delivery(&mut env, ANNA, 4).unwrap();
    let actions = env.take_actions();
    assert_eq!(
        actions[1],
        Action::Transfer { token: TOKEN, from: CONTRACT, to: BEN, amount: 1_450 }
    );
    assert_eq!(
        actions[2],
        Action::Transfer { token: TOKEN, from: CONTRACT, to: WALLET, amount: 50 }
    );
    assert_eq!(
        actions[6],
        Action::Publish { event: Event::OrderReleased { order_id: 4, allocation: paid } }
    );
}

#[test]
fn late_refusals_leave_only_the_signature() {
    let mut far = order(OrderStatus::Delivered);
    far.delivered_at = u64::MAX;
    let mut env = with_order(10, far);
    assert!(!DeliveryEscrowContract::is_timeout_claimable(&env, 4));
    assert_eq!(
        DeliveryEscrowContract::claim_after_timeout(&mut env, BEN, 4),
        Err(ContractError::TimestampOverflow)
    );
    assert_eq!(
        DeliveryEscrowContract::dispute(&mut env, ANNA, 4),
        Err(ContractError::TimestampOverflow)
    );
    assert_eq!(
        env.take_actions(),
        vec![Action::RequireAuth { address: BEN }, Action::RequireAuth { address: ANNA }]
    );
    assert_eq!(
        DeliveryEscrowContract::get_order(&env, 4).unwrap().status,
        OrderStatus::Delivered
    );
}

#[test]
fn amounts_that_overflow_are_refused() {
    let mut rich = order(OrderStatus::Delivered);
    rich.delivery_fee = i128::MAX;
    let mut env = with_order(10, rich);
    assert_eq!(
        DeliveryEscrowContract::confirm_delivery(&mut env, ANNA, 4),
        Err(ContractError::TimestampOverflow)
    );
    let mut rich = order(OrderStatus::Disputed);
    rich.delivery_fee = i128::MAX;
    let mut env = with_order(1_000_000, rich);
    let ruling = Allocation { to_customer: 0, to_rider: 0, to_platform: 0, forfeit: 0 };
    assert_eq!(
        DeliveryEscrowContract::resolve_dispute(&mut env, ADMIN, 4, ruling),
        Err(ContractError::TimestampOverflow)
    );
    let mut far = order(OrderStatus::Disputed);
    far.disputed_at = u64::MAX;
    let mut env = with_order(u64::MAX, far);
    assert_eq!(
        DeliveryEscrowContract::resolve_dispute(&mut env, ADMIN, 4, ruling),
        Err(ContractError::TimestampOverflow)
    );
}

#[test]
fn negative_shares_are_refused() {
    let mut env = with_order(1_000_000, order(OrderStatus::Disputed));
    let ruling = Allocation { to_customer: 1_501, to_rider: -1, to_platform: 0, forfeit: 0 };
    assert_eq!(
        DeliveryEscrowContract::resolve_dispute(&mut env, ADMIN, 4, ruling),
        Err(ContractError::InvalidAmount)
    );
}

#[test]
fn calls_read_only_the_order_they_name() {
    let mut alone = with_order(10, order(OrderStatus::Delivered));
    let mut crowded = with_order(10, order(OrderStatus::Delivered));
    crowded.load_stored_order(3, order(OrderStatus::Cancelled));
    assert_eq!(
        DeliveryEscrowContract::dispute(&mut alone, BEN, 4),
        DeliveryEscrowContract::dispute(&mut crowded, BEN, 4)
    );
    assert_eq!(alone.take_actions(), crowded.take_actions());
}

#[test]
fn orders_are_saved_under_their_own_id() {
    let mut env = EscrowEnv::new(SdkEnv::default(), CONTRACT, 10, instance(Some(9)));
    env.load_stored_order(8, order(OrderStatus::Open));
    assert_eq!(DeliveryEscrowContract::fund(&mut env, 8).unwrap().order_id, 4);
    assert_eq!(DeliveryEscrowContract::get_order(&env, 8).unwrap().status, OrderStatus::Open);
    assert_eq!(DeliveryEscrowContract::get_order(&env, 4).unwrap().status, OrderStatus::Funded);
}

#[test]
fn upgrade_needs_the_admin() {
    let (_, mut env) = deployed();
    env.take_actions();
    DeliveryEscrowContract::upgrade(&mut env, [7; 32]);
    assert_eq!(
        env.take_actions(),
        vec![
            Action::RequireAuth { address: ADMIN },
            Action::UpdateWasm { new_wasm_hash: [7; 32] },
            Action::Publish { event: Event::Upgraded { new_wasm_hash: [7; 32] } },
        ]
    );
    assert_eq!(DeliveryEscrowContract::version(&env), 1);
}

#[test]
fn events_have_their_topics() {
    let a = Allocation { to_customer: 0, to_rider: 0, to_platform: 0, forfeit: 0 };
    let topics = [
        (Event::OrderCreated { order: order(OrderStatus::Open) }, "ord_new"),
        (Event::OrderFunded { order_id: 1, delivery_fee: 1, rider_bond: 1 }, "ord_fund"),
        (Event::OrderDelivered { order_id: 1, delivered_at: 1 }, "delivrd"),
        (Event::OrderReleased { order_id: 1, allocation: a }, "released"),
        (Event::OrderDisputed { order_id: 1, caller: ANNA, disputed_at: 1 }, "disputed"),
        (Event::OrderResolved { order_id: 1, allocation: a }, "resolved"),
        (Event::OrderCancelled { order_id: 1 }, "cancel"),
        (Event::Upgraded { new_wasm_hash: [0; 32] }, "upgrade"),
    ];
    for (event, topic) in topics {
        assert_eq!(event.topic(), topic);
    }
}
