//! What a call asks of the host, in order.
use soroban_sdk::Vec as SdkVec;
use vstd::prelude::*;

use crate::index::ids_in;
use crate::types::{Address, Allocation, DataKey, Order, OrderView};

verus! {

/// A published event. `O` is the form in which an order is carried.
#[derive(Debug, PartialEq, Eq)]
pub enum Event<O> {
    OrderCreated { order: O },
    OrderFunded { order_id: u64, delivery_fee: i128, rider_bond: i128 },
    OrderDelivered { order_id: u64, delivered_at: u64 },
    OrderReleased { order_id: u64, allocation: Allocation },
    OrderDisputed { order_id: u64, caller: Address, disputed_at: u64 },
    OrderResolved { order_id: u64, allocation: Allocation },
    OrderCancelled { order_id: u64 },
    Upgraded { new_wasm_hash: [u8; 32] },
}

impl View for Event<Order> {
    type V = Event<OrderView>;

    open spec fn view(&self) -> Event<OrderView> {
        match *self {
            Event::OrderCreated { order } => Event::OrderCreated { order: order@ },
            Event::OrderFunded { order_id, delivery_fee, rider_bond } => Event::OrderFunded {
                order_id,
                delivery_fee,
                rider_bond,
            },
            Event::OrderDelivered { order_id, delivered_at } => Event::OrderDelivered {
                order_id,
                delivered_at,
            },
            Event::OrderReleased { order_id, allocation } => Event::OrderReleased {
                order_id,
                allocation,
            },
            Event::OrderDisputed { order_id, caller, disputed_at } => Event::OrderDisputed {
                order_id,
                caller,
                disputed_at,
            },
            Event::OrderResolved { order_id, allocation } => Event::OrderResolved {
                order_id,
                allocation,
            },
            Event::OrderCancelled { order_id } => Event::OrderCancelled { order_id },
            Event::Upgraded { new_wasm_hash } => Event::Upgraded { new_wasm_hash },
        }
    }
}

/// The symbol under which an event is published.
pub open spec fn event_topic(event: Event<OrderView>) -> Seq<char> {
    match event {
        Event::OrderCreated { .. } => "ord_new"@,
        Event::OrderFunded { .. } => "ord_fund"@,
        Event::OrderDelivered { .. } => "delivrd"@,
        Event::OrderReleased { .. } => "released"@,
        Event::OrderDisputed { .. } => "disputed"@,
        Event::OrderResolved { .. } => "resolved"@,
        Event::OrderCancelled { .. } => "cancel"@,
        Event::Upgraded { .. } => "upgrade"@,
    }
}

impl Event<Order> {
    /// The symbol under which the event is published.
    pub fn topic(&self) -> (topic: &'static str)
        ensures
            topic@ == event_topic(self@),
    {
        match self {
            Event::OrderCreated { .. } => "ord_new",
            Event::OrderFunded { .. } => "ord_fund",
            Event::OrderDelivered { .. } => "delivrd",
            Event::OrderReleased { .. } => "released",
            Event::OrderDisputed { .. } => "disputed",
            Event::OrderResolved { .. } => "resolved",
            Event::OrderCancelled { .. } => "cancel",
            Event::Upgraded { .. } => "upgrade",
        }
    }
}

/// One host operation. `O` is the form in which an order is carried, `I` that
/// of a list of order ids.
#[derive(Debug, PartialEq, Eq)]
pub enum Action<O, I> {
    /// Abort the call unless this address has authorised it.
    RequireAuth { address: Address },
    /// Write an address to instance storage.
    SetAddress { key: DataKey, address: Address },
    /// Write the order counter to instance storage.
    SetNextOrderId { next_order_id: u64 },
    /// Write an order to persistent storage, under its own id.
    SetOrder { order: O },
    /// Write a list of order ids to persistent storage.
    SetIndex { key: DataKey, ids: I },
    /// Keep the instance entry for `extend_to` ledgers if it has fewer than
    /// `threshold` left.
    ExtendInstanceTtl { threshold: u32, extend_to: u32 },
    /// The same for the persistent entry under `key`.
    ExtendPersistentTtl { key: DataKey, threshold: u32, extend_to: u32 },
    /// Move an allowance: `spender` pulls `amount` of `token`.
    TransferFrom { token: Address, spender: Address, from: Address, to: Address, amount: i128 },
    /// Send `amount` of `token`.
    Transfer { token: Address, from: Address, to: Address, amount: i128 },
    /// Replace the contract's code.
    UpdateWasm { new_wasm_hash: [u8; 32] },
    /// Publish an event.
    Publish { event: Event<O> },
}

/// An operation as the host performs it.
pub type HostAction = Action<Order, SdkVec<u64>>;

/// The mathematical value of a [`HostAction`].
pub type ActionView = Action<OrderView, Seq<u64>>;

impl View for Action<Order, SdkVec<u64>> {
    type V = ActionView;

    open spec fn view(&self) -> ActionView {
        match *self {
            Action::RequireAuth { address } => Action::RequireAuth { address },
            Action::SetAddress { key, address } => Action::SetAddress { key, address },
            Action::SetNextOrderId { next_order_id } => Action::SetNextOrderId { next_order_id },
            Action::SetOrder { order } => Action::SetOrder { order: order@ },
            Action::SetIndex { key, ids } => Action::SetIndex { key, ids: ids_in(ids) },
            Action::ExtendInstanceTtl { threshold, extend_to } => Action::ExtendInstanceTtl {
                threshold,
                extend_to,
            },
            Action::ExtendPersistentTtl { key, threshold, extend_to } =>
                Action::ExtendPersistentTtl { key, threshold, extend_to },
            Action::TransferFrom { token, spender, from, to, amount } => Action::TransferFrom {
                token,
                spender,
                from,
                to,
                amount,
            },
            Action::Transfer { token, from, to, amount } => Action::Transfer {
                token,
                from,
                to,
                amount,
            },
            Action::UpdateWasm { new_wasm_hash } => Action::UpdateWasm { new_wasm_hash },
            Action::Publish { event } => Action::Publish { event: event@ },
        }
    }
}

} // verus!
