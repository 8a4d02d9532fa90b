//! The entry points of the escrow.
use soroban_sdk::Env as SdkEnv;
use soroban_sdk::Vec as SdkVec;
use vstd::prelude::*;

use crate::actions::{Action, ActionView, Event};
use crate::env::{
    append_to_index, bump_instance, counter_has_room, execute_payout, get_admin, get_token,
    index_has_room, load_index, load_order, next_order_id, pay, save_order, EnvView, EscrowEnv,
    Instance,
};
use crate::index::ids_in;
use crate::model::{
    after_cancel, after_claim, after_confirm, after_create, after_dispute, after_fund,
    after_mark_delivered, after_resolve, after_upgrade, cancel_answer, claim_answer, collections,
    confirm_answer, create_answer, dispute_answer, fund_answer, get_answer, has_room,
    mark_delivered_answer, order_answer, refunds, resolve_answer, terms_refusal, timeout_claimable,
    Terms,
};
use crate::rules::{checked_add_ts, require_status, standard_payout, validate_allocation};
use crate::types::{
    Address, Allocation, ContractError, DataKey, Order, OrderStatus, INSTANCE_TTL_EXTEND,
    INSTANCE_TTL_THRESHOLD, MAX_CONFIRMATION_WINDOW_SECS, MAX_EVIDENCE_WINDOW_SECS,
    MAX_PLATFORM_FEE_BPS,
};

verus! {

/// The delivery escrow.
pub struct DeliveryEscrowContract;

/// The operations that deployment asks for: the three addresses and a zero
/// counter are stored, and the instance entry is kept alive.
pub open spec fn deployment(admin: Address, token: Address, wallet: Address) -> Seq<ActionView> {
    seq![
        Action::SetAddress { key: DataKey::Admin, address: admin },
        Action::SetAddress { key: DataKey::Token, address: token },
        Action::SetAddress { key: DataKey::PlatformFeeWallet, address: wallet },
        Action::SetNextOrderId { next_order_id: 0 },
        Action::ExtendInstanceTtl {
            threshold: INSTANCE_TTL_THRESHOLD,
            extend_to: INSTANCE_TTL_EXTEND,
        },
    ]
}

/// The ledger of a freshly deployed escrow.
pub open spec fn deployed(
    contract_address: Address,
    timestamp: u64,
    admin: Address,
    token: Address,
    platform_fee_wallet: Address,
) -> EnvView {
    EnvView {
        contract_address,
        timestamp,
        instance: Instance { admin, token, platform_fee_wallet, next_order_id: Some(0) },
        orders: Map::empty(),
        indexes: Map::empty(),
        actions: deployment(admin, token, platform_fee_wallet),
    }
}

/// Checks the terms of a new order, in the order in which refusals are given.
fn check_terms(
    customer: Address,
    rider: Address,
    delivery_fee: i128,
    rider_bond: i128,
    platform_fee_bps: u32,
    confirmation_window_secs: u64,
    evidence_window_secs: u64,
) -> (checked: Result<(), ContractError>)
    ensures
        forall|metadata_uri: Seq<u8>|
            checked == (match #[trigger] terms_refusal(
                (Terms {
                    customer,
                    rider,
                    delivery_fee,
                    rider_bond,
                    platform_fee_bps,
                    confirmation_window_secs,
                    evidence_window_secs,
                    metadata_uri,
                }),
            ) {
                Some(e) => Err::<(), ContractError>(e),
                None => Ok::<(), ContractError>(()),
            }),
{
    if delivery_fee <= 0 {
        return Err(ContractError::InvalidAmount);
    }
    if rider_bond < 0 {
        return Err(ContractError::InvalidBond);
    }
    if platform_fee_bps > MAX_PLATFORM_FEE_BPS {
        return Err(ContractError::InvalidFeeBps);
    }
    if confirmation_window_secs == 0 || confirmation_window_secs > MAX_CONFIRMATION_WINDOW_SECS {
        return Err(ContractError::InvalidWindow);
    }
    if evidence_window_secs == 0 || evidence_window_secs > MAX_EVIDENCE_WINDOW_SECS {
        return Err(ContractError::InvalidWindow);
    }
    if customer == rider {
        return Err(ContractError::SelfDealNotAllowed);
    }
    Ok(())
}

impl DeliveryEscrowContract {
    // ---- Constructor ------------------------------------------------------
    /// Deploys the escrow at `contract_address`. `host` is the SDK's handle.
    pub fn __constructor(
        host: SdkEnv,
        contract_address: Address,
        timestamp: u64,
        admin: Address,
        token: Address,
        platform_fee_wallet: Address,
    ) -> (env: EscrowEnv)
        ensures
            env@ == deployed(contract_address, timestamp, admin, token, platform_fee_wallet),
    {
        let instance = Instance { admin, token, platform_fee_wallet, next_order_id: Some(0) };
        let mut env = EscrowEnv::new(host, contract_address, timestamp, instance);
        env.ask(Action::SetAddress { key: DataKey::Admin, address: admin });
        env.ask(Action::SetAddress { key: DataKey::Token, address: token });
        env.ask(
            Action::SetAddress { key: DataKey::PlatformFeeWallet, address: platform_fee_wallet },
        );
        env.ask(Action::SetNextOrderId { next_order_id: 0 });
        bump_instance(&mut env);
        assert(env@.actions =~= deployment(admin, token, platform_fee_wallet));
        env
    }

    // ---- Order lifecycle --------------------------------------------------
    /// Opens an order on the given terms. No funds move yet.
    pub fn create_order(
        env: &mut EscrowEnv,
        customer: Address,
        rider: Address,
        delivery_fee: i128,
        rider_bond: i128,
        platform_fee_bps: u32,
        confirmation_window_secs: u64,
        evidence_window_secs: u64,
        metadata_uri: Vec<u8>,
    ) -> (answer: Result<Order, ContractError>)
        requires
            ({
                let terms = Terms {
                    customer,
                    rider,
                    delivery_fee,
                    rider_bond,
                    platform_fee_bps,
                    confirmation_window_secs,
                    evidence_window_secs,
                    metadata_uri: metadata_uri@,
                };
                terms_refusal(terms) is None ==> has_room(old(env)@, terms)
            }),
        ensures
            ({
                let terms = Terms {
                    customer,
                    rider,
                    delivery_fee,
                    rider_bond,
                    platform_fee_bps,
                    confirmation_window_secs,
                    evidence_window_secs,
                    metadata_uri: metadata_uri@,
                };
                &&& order_answer(answer) == create_answer(old(env)@, terms)
                &&& final(env)@ == after_create(old(env)@, terms)
            }),
    {
        match check_terms(
            customer,
            rider,
            delivery_fee,
            rider_bond,
            platform_fee_bps,
            confirmation_window_secs,
            evidence_window_secs,
        ) {
            Ok(()) => {},
            Err(e) => return Err(e),
        }
        env.require_auth(customer);

        let order_id: u64 = next_order_id(env);
        let now: u64 = env.timestamp();
        let order = Order {
            order_id,
            customer,
            rider,
            delivery_fee,
            rider_bond,
            platform_fee_bps,
            confirmation_window_secs,
            evidence_window_secs,
            status: OrderStatus::Open,
            created_at: now,
            delivered_at: 0,
            disputed_at: 0,
            metadata_uri,
        };

        save_order(env, &order);
        let life: u64 = confirmation_window_secs.saturating_add(evidence_window_secs);
        append_to_index(env, DataKey::CustomerOrders(customer), order_id, life);
        append_to_index(env, DataKey::RiderOrders(rider), order_id, life);
        bump_instance(env);
        env.publish(Event::OrderCreated { order: order.clone() });
        Ok(order)
    }

    /// As `create_order`, for a ledger of which it is not known whether it has
    /// room for another order: `None`, and no change, where the terms are
    /// acceptable and it has none.
    pub fn create_order_if_room(
        env: &mut EscrowEnv,
        customer: Address,
        rider: Address,
        delivery_fee: i128,
        rider_bond: i128,
        platform_fee_bps: u32,
        confirmation_window_secs: u64,
        evidence_window_secs: u64,
        metadata_uri: Vec<u8>,
    ) -> (answer: Option<Result<Order, ContractError>>)
        ensures
            ({
                let terms = Terms {
                    customer,
                    rider,
                    delivery_fee,
                    rider_bond,
                    platform_fee_bps,
                    confirmation_window_secs,
                    evidence_window_secs,
                    metadata_uri: metadata_uri@,
                };
                match answer {
                    Some(answer) => {
                        &&& terms_refusal(terms) is None ==> has_room(old(env)@, terms)
                        &&& order_answer(answer) == create_answer(old(env)@, terms)
                        &&& final(env)@ == after_create(old(env)@, terms)
                    },
                    None => {
                        &&& terms_refusal(terms) is None
                        &&& !has_room(old(env)@, terms)
                        &&& final(env)@ == old(env)@
                    },
                }
            }),
    {
        let acceptable = check_terms(
            customer,
            rider,
            delivery_fee,
            rider_bond,
            platform_fee_bps,
            confirmation_window_secs,
            evidence_window_secs,
        ).is_ok();
        if acceptable && !(counter_has_room(env) && index_has_room(
            env,
            &DataKey::CustomerOrders(customer),
        ) && index_has_room(env, &DataKey::RiderOrders(rider))) {
            return None;
        }
        Some(
            Self::create_order(
                env,
                customer,
                rider,
                delivery_fee,
                rider_bond,
                platform_fee_bps,
                confirmation_window_secs,
                evidence_window_secs,
                metadata_uri,
            ),
        )
    }

    /// Pulls the fee from the customer and the bond from the rider, in one
    /// call, so that neither is locked without the other.
    pub fn fund(env: &mut EscrowEnv, order_id: u64) -> (answer: Result<Order, ContractError>)
        ensures
            order_answer(answer) == fund_answer(old(env)@, order_id),
            final(env)@ == after_fund(old(env)@, order_id),
    {
        let mut order: Order = match load_order(env, order_id) {
            Ok(order) => order,
            Err(e) => return Err(e),
        };
        match require_status(&order, OrderStatus::Open) {
            Ok(()) => {},
            Err(e) => return Err(e),
        }
        env.require_auth(order.customer);
        env.require_auth(order.rider);

        let token = get_token(env);
        let contract = env.current_contract_address();
        let ghost authorised = env@;
        env.ask(
            Action::TransferFrom {
                token,
                spender: contract,
                from: order.customer,
                to: contract,
                amount: order.delivery_fee,
            },
        );
        if order.rider_bond > 0 {
            env.ask(
                Action::TransferFrom {
                    token,
                    spender: contract,
                    from: order.rider,
                    to: contract,
                    amount: order.rider_bond,
                },
            );
        }
        assert(env@.actions =~= authorised.actions + collections(old(env)@, order@));

        order.status = OrderStatus::Funded;
        save_order(env, &order);
        bump_instance(env);
        env.publish(
            Event::OrderFunded {
                order_id: order.order_id,
                delivery_fee: order.delivery_fee,
                rider_bond: order.rider_bond,
            },
        );
        Ok(order)
    }

    /// The rider declares the delivery, which opens the confirmation window.
    pub fn mark_delivered(env: &mut EscrowEnv, rider: Address, order_id: u64) -> (answer: Result<
        Order,
        ContractError,
    >)
        ensures
            order_answer(answer) == mark_delivered_answer(old(env)@, rider, order_id),
            final(env)@ == after_mark_delivered(old(env)@, rider, order_id),
    {
        let mut order: Order = match load_order(env, order_id) {
            Ok(order) => order,
            Err(e) => return Err(e),
        };
        match require_status(&order, OrderStatus::Funded) {
            Ok(()) => {},
            Err(e) => return Err(e),
        }
        if order.rider != rider {
            return Err(ContractError::Unauthorized);
        }
        env.require_auth(rider);

        let now: u64 = env.timestamp();
        order.status = OrderStatus::Delivered;
        order.delivered_at = now;
        save_order(env, &order);
        bump_instance(env);
        env.publish(Event::OrderDelivered { order_id: order.order_id, delivered_at: now });
        Ok(order)
    }

    /// The customer confirms receipt, which releases the pot.
    pub fn confirm_delivery(env: &mut EscrowEnv, customer: Address, order_id: u64) -> (answer:
        Result<Allocation, ContractError>)
        ensures
            answer == confirm_answer(old(env)@, customer, order_id),
            final(env)@ == after_confirm(old(env)@, customer, order_id),
    {
        let mut order: Order = match load_order(env, order_id) {
            Ok(order) => order,
            Err(e) => return Err(e),
        };
        match require_status(&order, OrderStatus::Delivered) {
            Ok(()) => {},
            Err(e) => return Err(e),
        }
        if order.customer != customer {
            return Err(ContractError::Unauthorized);
        }
        env.require_auth(customer);

        let allocation: Allocation = match standard_payout(&order) {
            Ok(a) => a,
            Err(e) => return Err(e),
        };
        execute_payout(env, &order, &allocation);

        order.status = OrderStatus::Released;
        save_order(env, &order);
        bump_instance(env);
        env.publish(Event::OrderReleased { order_id: order.order_id, allocation });
        Ok(allocation)
    }

    /// The rider claims the pot after the confirmation window has passed in
    /// silence. The division is that of `confirm_delivery`.
    pub fn claim_after_timeout(env: &mut EscrowEnv, rider: Address, order_id: u64) -> (answer:
        Result<Allocation, ContractError>)
        ensures
            answer == claim_answer(old(env)@, rider, order_id),
            final(env)@ == after_claim(old(env)@, rider, order_id),
    {
        let mut order: Order = match load_order(env, order_id) {
            Ok(order) => order,
            Err(e) => return Err(e),
        };
        match require_status(&order, OrderStatus::Delivered) {
            Ok(()) => {},
            Err(e) => return Err(e),
        }
        if order.rider != rider {
            return Err(ContractError::Unauthorized);
        }
        env.require_auth(rider);

        let now: u64 = env.timestamp();
        let window_end: u64 = match checked_add_ts(
            order.delivered_at,
            order.confirmation_window_secs,
        ) {
            Ok(end) => end,
            Err(e) => return Err(e),
        };
        if now < window_end {
            return Err(ContractError::ConfirmationWindowOpen);
        }
        let allocation: Allocation = match standard_payout(&order) {
            Ok(a) => a,
            Err(e) => return Err(e),
        };
        execute_payout(env, &order, &allocation);

        order.status = OrderStatus::Released;
        save_order(env, &order);
        bump_instance(env);
        env.publish(Event::OrderReleased { order_id: order.order_id, allocation });
        Ok(allocation)
    }

    // ---- Dispute path -----------------------------------------------------
    /// Either party freezes the escrow while the confirmation window is open,
    /// which opens the evidence window.
    pub fn dispute(env: &mut EscrowEnv, caller: Address, order_id: u64) -> (answer: Result<
        Order,
        ContractError,
    >)
        ensures
            order_answer(answer) == dispute_answer(old(env)@, caller, order_id),
            final(env)@ == after_dispute(old(env)@, caller, order_id),
    {
        let mut order: Order = match load_order(env, order_id) {
            Ok(order) => order,
            Err(e) => return Err(e),
        };
        match require_status(&order, OrderStatus::Delivered) {
            Ok(()) => {},
            Err(e) => return Err(e),
        }
        if caller != order.customer && caller != order.rider {
            return Err(ContractError::Unauthorized);
        }
        env.require_auth(caller);

        let now: u64 = env.timestamp();
        let window_end: u64 = match checked_add_ts(
            order.delivered_at,
            order.confirmation_window_secs,
        ) {
            Ok(end) => end,
            Err(e) => return Err(e),
        };
        if now >= window_end {
            return Err(ContractError::ConfirmationWindowClosed);
        }
        order.status = OrderStatus::Disputed;
        order.disputed_at = now;
        save_order(env, &order);
        bump_instance(env);
        env.publish(Event::OrderDisputed { order_id: order.order_id, caller, disputed_at: now });
        Ok(order)
    }

    /// The administrator rules on a dispute once the evidence window is over.
    /// The allocation must divide exactly the pot.
    pub fn resolve_dispute(
        env: &mut EscrowEnv,
        admin: Address,
        order_id: u64,
        allocation: Allocation,
    ) -> (answer: Result<Allocation, ContractError>)
        ensures
            answer == resolve_answer(old(env)@, admin, order_id, allocation),
            final(env)@ == after_resolve(old(env)@, admin, order_id, allocation),
    {
        let mut order: Order = match load_order(env, order_id) {
            Ok(order) => order,
            Err(e) => return Err(e),
        };
        match require_status(&order, OrderStatus::Disputed) {
            Ok(()) => {},
            Err(e) => return Err(e),
        }
        let stored_admin = get_admin(env);
        if admin != stored_admin {
            return Err(ContractError::Unauthorized);
        }
        env.require_auth(admin);

        let now: u64 = env.timestamp();
        let evidence_end: u64 = match checked_add_ts(
            order.disputed_at,
            order.evidence_window_secs,
        ) {
            Ok(end) => end,
            Err(e) => return Err(e),
        };
        if now < evidence_end {
            return Err(ContractError::EvidenceWindowOpen);
        }
        let pot: i128 = match order.delivery_fee.checked_add(order.rider_bond) {
            Some(v) => v,
            None => return Err(ContractError::TimestampOverflow),
        };
        match validate_allocation(&allocation, pot) {
            Ok(()) => {},
            Err(e) => return Err(e),
        }
        execute_payout(env, &order, &allocation);

        order.status = OrderStatus::Resolved;
        save_order(env, &order);
        bump_instance(env);
        env.publish(Event::OrderResolved { order_id: order.order_id, allocation });
        Ok(allocation)
    }

    // ---- Mutual cancellation ----------------------------------------------
    /// Both parties cancel an order that is not yet delivered. A funded order
    /// is refunded in full, without a platform fee.
    pub fn mutual_cancel(env: &mut EscrowEnv, order_id: u64) -> (answer: Result<
        Order,
        ContractError,
    >)
        ensures
            order_answer(answer) == cancel_answer(old(env)@, order_id),
            final(env)@ == after_cancel(old(env)@, order_id),
    {
        let mut order: Order = match load_order(env, order_id) {
            Ok(order) => order,
            Err(e) => return Err(e),
        };
        if order.status != OrderStatus::Funded && order.status != OrderStatus::Open {
            return Err(ContractError::InvalidStatus);
        }
        env.require_auth(order.customer);
        env.require_auth(order.rider);
        let ghost authorised = env@;
        if order.status == OrderStatus::Funded {
            pay(env, order.customer, order.delivery_fee);
            pay(env, order.rider, order.rider_bond);
        }
        assert(env@.actions =~= authorised.actions + refunds(old(env)@, order@));

        order.status = OrderStatus::Cancelled;
        save_order(env, &order);
        bump_instance(env);
        env.publish(Event::OrderCancelled { order_id: order.order_id });
        Ok(order)
    }

    // ---- Query functions --------------------------------------------------
    /// The order with id `order_id`.
    pub fn get_order(env: &EscrowEnv, order_id: u64) -> (answer: Result<Order, ContractError>)
        ensures
            order_answer(answer) == get_answer(env@, order_id),
    {
        load_order(env, order_id)
    }

    /// The ids of the orders of `customer`, oldest first.
    pub fn get_customer_orders(env: &EscrowEnv, customer: Address) -> (ids: SdkVec<u64>)
        ensures
            ids_in(ids) == env@.index(DataKey::CustomerOrders(customer)),
    {
        load_index(env, &DataKey::CustomerOrders(customer))
    }

    /// The ids of the orders of `rider`, oldest first.
    pub fn get_rider_orders(env: &EscrowEnv, rider: Address) -> (ids: SdkVec<u64>)
        ensures
            ids_in(ids) == env@.index(DataKey::RiderOrders(rider)),
    {
        load_index(env, &DataKey::RiderOrders(rider))
    }

    /// True if the order is delivered and the confirmation window is over, so
    /// that the rider may call `claim_after_timeout`.
    pub fn is_timeout_claimable(env: &EscrowEnv, order_id: u64) -> (claimable: bool)
        ensures
            claimable == timeout_claimable(env@, order_id),
    {
        let order: Order = match load_order(env, order_id) {
            Ok(order) => order,
            Err(_) => return false,
        };
        if order.status != OrderStatus::Delivered {
            return false;
        }
        let now: u64 = env.timestamp();
        let window_end: u64 = match order.delivered_at.checked_add(
            order.confirmation_window_secs,
        ) {
            Some(end) => end,
            None => return false,
        };
        now >= window_end
    }

    // ---- Admin functions --------------------------------------------------
    /// Replaces the contract's code.
    pub fn upgrade(env: &mut EscrowEnv, new_wasm_hash: [u8; 32])
        ensures
            final(env)@ == after_upgrade(old(env)@, new_wasm_hash),
    {
        let admin = get_admin(env);
        env.require_auth(admin);
        env.ask(Action::UpdateWasm { new_wasm_hash });
        env.publish(Event::Upgraded { new_wasm_hash });
    }

    /// The version of the contract.
    pub fn version(_env: &EscrowEnv) -> (version: u32)
        ensures
            version == 1,
    {
        1
    }
}

} // verus!
