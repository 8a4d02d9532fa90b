//! What each entry point answers, and what it makes of the ledger.
//!
//! For each entry point there is an answer (`..._answer`), which is exact on
//! when the call is accepted and on which refusal comes when it is not, and a
//! ledger (`after_...`) that the call leaves behind.
//!
//! A refusal that comes before the caller has to authorise the call leaves the
//! ledger as it was. One that comes later leaves behind the request for that
//! authorisation, and nothing else.
use vstd::prelude::*;

use crate::actions::{Action, ActionView, Event};
use crate::env::{payment, EnvView};
use crate::rules::{allocation_verdict, is_amount, standard_division, status_error};
use crate::types::{
    Address, Allocation, ContractError, DataKey, Order, OrderStatus, OrderView,
    MAX_CONFIRMATION_WINDOW_SECS, MAX_EVIDENCE_WINDOW_SECS, MAX_PLATFORM_FEE_BPS,
};

verus! {

/// The value of an answer that carries an order.
pub open spec fn order_answer(answer: Result<Order, ContractError>) -> Result<
    OrderView,
    ContractError,
> {
    match answer {
        Ok(order) => Ok(order@),
        Err(e) => Err(e),
    }
}

// ---------------------------------------------------------------------------
// Creation
// ---------------------------------------------------------------------------
/// The terms that a customer proposes.
pub struct Terms {
    pub customer: Address,
    pub rider: Address,
    pub delivery_fee: i128,
    pub rider_bond: i128,
    pub platform_fee_bps: u32,
    pub confirmation_window_secs: u64,
    pub evidence_window_secs: u64,
    pub metadata_uri: Seq<u8>,
}

/// The first reason, if any, why terms are not acceptable.
pub open spec fn terms_refusal(t: Terms) -> Option<ContractError> {
    if t.delivery_fee <= 0 {
        Some(ContractError::InvalidAmount)
    } else if t.rider_bond < 0 {
        Some(ContractError::InvalidBond)
    } else if t.platform_fee_bps > MAX_PLATFORM_FEE_BPS {
        Some(ContractError::InvalidFeeBps)
    } else if !(0 < t.confirmation_window_secs <= MAX_CONFIRMATION_WINDOW_SECS) || !(0
        < t.evidence_window_secs <= MAX_EVIDENCE_WINDOW_SECS) {
        Some(ContractError::InvalidWindow)
    } else if t.customer == t.rider {
        Some(ContractError::SelfDealNotAllowed)
    } else {
        None
    }
}

/// The order that opens on terms `t`: next id, current time, nothing delivered
/// and nothing disputed.
pub open spec fn opened(s: EnvView, t: Terms) -> OrderView {
    OrderView {
        order_id: s.next_id(),
        customer: t.customer,
        rider: t.rider,
        delivery_fee: t.delivery_fee,
        rider_bond: t.rider_bond,
        platform_fee_bps: t.platform_fee_bps,
        confirmation_window_secs: t.confirmation_window_secs,
        evidence_window_secs: t.evidence_window_secs,
        status: OrderStatus::Open,
        created_at: s.timestamp,
        delivered_at: 0,
        disputed_at: 0,
        metadata_uri: t.metadata_uri,
    }
}

/// The counter and the parties' lists have room for another order. The lists
/// are bounded by the host, the counter by its type.
pub open spec fn has_room(s: EnvView, t: Terms) -> bool {
    &&& s.next_id() < u64::MAX
    &&& s.index(DataKey::CustomerOrders(t.customer)).len() < u32::MAX
    &&& s.index(DataKey::RiderOrders(t.rider)).len() < u32::MAX
}

pub open spec fn create_answer(s: EnvView, t: Terms) -> Result<OrderView, ContractError> {
    match terms_refusal(t) {
        Some(e) => Err(e),
        None => Ok(opened(s, t)),
    }
}

/// The customer authorises; the order is stored and listed for both parties.
pub open spec fn after_create(s: EnvView, t: Terms) -> EnvView {
    match create_answer(s, t) {
        Err(_) => s,
        Ok(order) => s.authorised(t.customer).numbered().saved(order).indexed(
            DataKey::CustomerOrders(t.customer),
            order.order_id,
            order.life_secs(),
        ).indexed(
            DataKey::RiderOrders(t.rider),
            order.order_id,
            order.life_secs(),
        ).instance_kept().published(Event::OrderCreated { order }),
    }
}

// ---------------------------------------------------------------------------
// Lookup
// ---------------------------------------------------------------------------
pub open spec fn get_answer(s: EnvView, order_id: u64) -> Result<OrderView, ContractError> {
    if s.orders.contains_key(order_id) {
        Ok(s.orders[order_id])
    } else {
        Err(ContractError::OrderNotFound)
    }
}

/// The refusal, if any, of a call on an order that must be in `expected`.
pub open spec fn status_guard(s: EnvView, order_id: u64, expected: OrderStatus) -> Option<
    ContractError,
> {
    if !s.orders.contains_key(order_id) {
        Some(ContractError::OrderNotFound)
    } else if s.orders[order_id].status != expected {
        Some(status_error(expected))
    } else {
        None
    }
}

/// As [`status_guard`], and then the caller must be the right party.
pub open spec fn party_guard(
    s: EnvView,
    order_id: u64,
    expected: OrderStatus,
    is_party: bool,
) -> Option<ContractError> {
    match status_guard(s, order_id, expected) {
        Some(e) => Some(e),
        None => if is_party {
            None
        } else {
            Some(ContractError::Unauthorized)
        },
    }
}

// ---------------------------------------------------------------------------
// Funding
// ---------------------------------------------------------------------------
/// The contract pulls the fee from the customer and the bond, if there is
/// one, from the rider.
pub open spec fn collections(s: EnvView, order: OrderView) -> Seq<ActionView> {
    let fee = seq![
        Action::TransferFrom {
            token: s.instance.token,
            spender: s.contract_address,
            from: order.customer,
            to: s.contract_address,
            amount: order.delivery_fee,
        },
    ];
    if order.rider_bond > 0 {
        fee.push(
            Action::TransferFrom {
                token: s.instance.token,
                spender: s.contract_address,
                from: order.rider,
                to: s.contract_address,
                amount: order.rider_bond,
            },
        )
    } else {
        fee
    }
}

pub open spec fn fund_answer(s: EnvView, order_id: u64) -> Result<OrderView, ContractError> {
    match status_guard(s, order_id, OrderStatus::Open) {
        Some(e) => Err(e),
        None => Ok(OrderView { status: OrderStatus::Funded, ..s.orders[order_id] }),
    }
}

/// Both parties authorise; fee and bond are pulled in one call.
pub open spec fn after_fund(s: EnvView, order_id: u64) -> EnvView {
    match fund_answer(s, order_id) {
        Err(_) => s,
        Ok(order) => s.authorised(order.customer).authorised(order.rider).did_all(
            collections(s, order),
        ).saved(order).instance_kept().published(
            Event::OrderFunded {
                order_id: order.order_id,
                delivery_fee: order.delivery_fee,
                rider_bond: order.rider_bond,
            },
        ),
    }
}

// ---------------------------------------------------------------------------
// Delivery
// ---------------------------------------------------------------------------
pub open spec fn mark_delivered_answer(s: EnvView, rider: Address, order_id: u64) -> Result<
    OrderView,
    ContractError,
> {
    match party_guard(s, order_id, OrderStatus::Funded, s.orders[order_id].rider == rider) {
        Some(e) => Err(e),
        None => Ok(
            OrderView {
                status: OrderStatus::Delivered,
                delivered_at: s.timestamp,
                ..s.orders[order_id]
            },
        ),
    }
}

/// The rider authorises; the confirmation window opens now.
pub open spec fn after_mark_delivered(s: EnvView, rider: Address, order_id: u64) -> EnvView {
    match mark_delivered_answer(s, rider, order_id) {
        Err(_) => s,
        Ok(order) => s.authorised(rider).saved(order).instance_kept().published(
            Event::OrderDelivered { order_id: order.order_id, delivered_at: s.timestamp },
        ),
    }
}

// ---------------------------------------------------------------------------
// Release
// ---------------------------------------------------------------------------
/// The pot of `order` is handed out as `a` says, and the order is released.
pub open spec fn released(s: EnvView, order: OrderView, a: Allocation) -> EnvView {
    s.paid_out(order, a).saved(
        OrderView { status: OrderStatus::Released, ..order },
    ).instance_kept().published(
        Event::OrderReleased { order_id: order.order_id, allocation: a },
    )
}

pub open spec fn confirm_guard(s: EnvView, customer: Address, order_id: u64) -> Option<
    ContractError,
> {
    party_guard(s, order_id, OrderStatus::Delivered, s.orders[order_id].customer == customer)
}

pub open spec fn confirm_answer(s: EnvView, customer: Address, order_id: u64) -> Result<
    Allocation,
    ContractError,
> {
    match confirm_guard(s, customer, order_id) {
        Some(e) => Err(e),
        None => standard_division(s.orders[order_id]),
    }
}

/// The customer authorises; the pot is divided in the standard way.
pub open spec fn after_confirm(s: EnvView, customer: Address, order_id: u64) -> EnvView {
    if confirm_guard(s, customer, order_id) is Some {
        s
    } else {
        match confirm_answer(s, customer, order_id) {
            Err(_) => s.authorised(customer),
            Ok(a) => released(s.authorised(customer), s.orders[order_id], a),
        }
    }
}

pub open spec fn claim_guard(s: EnvView, rider: Address, order_id: u64) -> Option<ContractError> {
    party_guard(s, order_id, OrderStatus::Delivered, s.orders[order_id].rider == rider)
}

pub open spec fn claim_answer(s: EnvView, rider: Address, order_id: u64) -> Result<
    Allocation,
    ContractError,
> {
    match claim_guard(s, rider, order_id) {
        Some(e) => Err(e),
        None => if s.orders[order_id].confirmation_end() > u64::MAX {
            Err(ContractError::TimestampOverflow)
        } else if s.timestamp < s.orders[order_id].confirmation_end() {
            Err(ContractError::ConfirmationWindowOpen)
        } else {
            standard_division(s.orders[order_id])
        },
    }
}

/// The rider authorises; once the window is over, the pot is divided in the
/// standard way.
pub open spec fn after_claim(s: EnvView, rider: Address, order_id: u64) -> EnvView {
    if claim_guard(s, rider, order_id) is Some {
        s
    } else {
        match claim_answer(s, rider, order_id) {
            Err(_) => s.authorised(rider),
            Ok(a) => released(s.authorised(rider), s.orders[order_id], a),
        }
    }
}

/// The order is delivered and its confirmation window is over.
pub open spec fn timeout_claimable(s: EnvView, order_id: u64) -> bool {
    &&& s.orders.contains_key(order_id)
    &&& s.orders[order_id].status == OrderStatus::Delivered
    &&& s.orders[order_id].confirmation_end() <= s.timestamp
}

// ---------------------------------------------------------------------------
// Dispute
// ---------------------------------------------------------------------------
pub open spec fn dispute_guard(s: EnvView, caller: Address, order_id: u64) -> Option<
    ContractError,
> {
    party_guard(
        s,
        order_id,
        OrderStatus::Delivered,
        s.orders[order_id].customer == caller || s.orders[order_id].rider == caller,
    )
}

pub open spec fn dispute_answer(s: EnvView, caller: Address, order_id: u64) -> Result<
    OrderView,
    ContractError,
> {
    match dispute_guard(s, caller, order_id) {
        Some(e) => Err(e),
        None => if s.orders[order_id].confirmation_end() > u64::MAX {
            Err(ContractError::TimestampOverflow)
        } else if s.timestamp >= s.orders[order_id].confirmation_end() {
            Err(ContractError::ConfirmationWindowClosed)
        } else {
            Ok(
                OrderView {
                    status: OrderStatus::Disputed,
                    disputed_at: s.timestamp,
                    ..s.orders[order_id]
                },
            )
        },
    }
}

/// The caller authorises; while the confirmation window is open, the order is
/// frozen and the evidence window opens.
pub open spec fn after_dispute(s: EnvView, caller: Address, order_id: u64) -> EnvView {
    if dispute_guard(s, caller, order_id) is Some {
        s
    } else {
        match dispute_answer(s, caller, order_id) {
            Err(_) => s.authorised(caller),
            Ok(order) => s.authorised(caller).saved(order).instance_kept().published(
                Event::OrderDisputed {
                    order_id: order.order_id,
                    caller,
                    disputed_at: s.timestamp,
                },
            ),
        }
    }
}

pub open spec fn resolve_guard(s: EnvView, admin: Address, order_id: u64) -> Option<
    ContractError,
> {
    party_guard(s, order_id, OrderStatus::Disputed, s.instance.admin == admin)
}

pub open spec fn resolve_answer(
    s: EnvView,
    admin: Address,
    order_id: u64,
    a: Allocation,
) -> Result<Allocation, ContractError> {
    match resolve_guard(s, admin, order_id) {
        Some(e) => Err(e),
        None => if s.orders[order_id].evidence_end() > u64::MAX {
            Err(ContractError::TimestampOverflow)
        } else if s.timestamp < s.orders[order_id].evidence_end() {
            Err(ContractError::EvidenceWindowOpen)
        } else if !is_amount(s.orders[order_id].pot()) {
            Err(ContractError::TimestampOverflow)
        } else {
            match allocation_verdict(a, s.orders[order_id].pot()) {
                Err(e) => Err(e),
                Ok(_) => Ok(a),
            }
        },
    }
}

/// The administrator authorises; once the evidence window is over, the pot is
/// divided as ruled.
pub open spec fn after_resolve(
    s: EnvView,
    admin: Address,
    order_id: u64,
    a: Allocation,
) -> EnvView {
    if resolve_guard(s, admin, order_id) is Some {
        s
    } else {
        match resolve_answer(s, admin, order_id, a) {
            Err(_) => s.authorised(admin),
            Ok(a) => s.authorised(admin).paid_out(s.orders[order_id], a).saved(
                OrderView { status: OrderStatus::Resolved, ..s.orders[order_id] },
            ).instance_kept().published(
                Event::OrderResolved { order_id: s.orders[order_id].order_id, allocation: a },
            ),
        }
    }
}

// ---------------------------------------------------------------------------
// Cancellation
// ---------------------------------------------------------------------------
pub open spec fn cancel_answer(s: EnvView, order_id: u64) -> Result<OrderView, ContractError> {
    if !s.orders.contains_key(order_id) {
        Err(ContractError::OrderNotFound)
    } else if s.orders[order_id].status != OrderStatus::Open && s.orders[order_id].status
        != OrderStatus::Funded {
        Err(ContractError::InvalidStatus)
    } else {
        Ok(OrderView { status: OrderStatus::Cancelled, ..s.orders[order_id] })
    }
}

/// What goes back to the parties: fee and bond of a funded order.
pub open spec fn refunds(s: EnvView, order: OrderView) -> Seq<ActionView> {
    if order.status == OrderStatus::Funded {
        payment(s.instance.token, s.contract_address, order.customer, order.delivery_fee)
            + payment(s.instance.token, s.contract_address, order.rider, order.rider_bond)
    } else {
        Seq::empty()
    }
}

/// Both parties authorise; a funded order is refunded in full.
pub open spec fn after_cancel(s: EnvView, order_id: u64) -> EnvView {
    match cancel_answer(s, order_id) {
        Err(_) => s,
        Ok(order) => s.authorised(order.customer).authorised(order.rider).did_all(
            refunds(s, s.orders[order_id]),
        ).saved(order).instance_kept().published(
            Event::OrderCancelled { order_id: order.order_id },
        ),
    }
}

// ---------------------------------------------------------------------------
// Administration
// ---------------------------------------------------------------------------
/// The administrator authorises; the code is replaced.
pub open spec fn after_upgrade(s: EnvView, new_wasm_hash: [u8; 32]) -> EnvView {
    s.authorised(s.instance.admin).did(Action::UpdateWasm { new_wasm_hash }).published(
        Event::Upgraded { new_wasm_hash },
    )
}

} // verus!
