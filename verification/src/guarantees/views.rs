//! Mathematical values say neither more nor less than the data they stand for.
use soroban_sdk::Vec as SdkVec;
use vstd::prelude::*;

use crate::actions::{event_topic, Action, ActionView, Event};
use crate::index::ids_in;
use crate::model::order_answer;
use crate::types::{ContractError, Order, OrderView};

verus! {

/// The value of an order has every field of the order.
pub proof fn law_order_is_seen_as_it_is(order: Order)
    ensures
        order@.order_id == order.order_id,
        order@.customer == order.customer,
        order@.rider == order.rider,
        order@.delivery_fee == order.delivery_fee,
        order@.rider_bond == order.rider_bond,
        order@.platform_fee_bps == order.platform_fee_bps,
        order@.confirmation_window_secs == order.confirmation_window_secs,
        order@.evidence_window_secs == order.evidence_window_secs,
        order@.status == order.status,
        order@.created_at == order.created_at,
        order@.delivered_at == order.delivered_at,
        order@.disputed_at == order.disputed_at,
        order@.metadata_uri == order.metadata_uri@,
{
}

/// An order has the same terms as another exactly if all that was fixed at
/// creation is equal.
pub proof fn law_same_terms_means_equal_terms(a: OrderView, b: OrderView)
    ensures
        a.same_terms(b) <==> a == (OrderView {
            status: a.status,
            delivered_at: a.delivered_at,
            disputed_at: a.disputed_at,
            ..b
        }),
{
}

/// The value of an answer is the value of its order, or its error.
pub proof fn law_answer_is_seen_as_it_is(order: Order, e: ContractError)
    ensures
        order_answer(Ok(order)) == Ok::<OrderView, ContractError>(order@),
        order_answer(Err(e)) == Err::<OrderView, ContractError>(e),
{
}

/// The value of an event is the same event with the same content.
pub proof fn law_event_is_seen_as_it_is(event: Event<Order>)
    ensures
        match event {
            Event::OrderCreated { order } => event@ == (Event::OrderCreated { order: order@ }),
            Event::OrderFunded { order_id, delivery_fee, rider_bond } => event@ == (
            Event::<OrderView>::OrderFunded { order_id, delivery_fee, rider_bond }),
            Event::OrderDelivered { order_id, delivered_at } => event@ == (Event::<
                OrderView,
            >::OrderDelivered { order_id, delivered_at }),
            Event::OrderReleased { order_id, allocation } => event@ == (Event::<
                OrderView,
            >::OrderReleased { order_id, allocation }),
            Event::OrderDisputed { order_id, caller, disputed_at } => event@ == (Event::<
                OrderView,
            >::OrderDisputed { order_id, caller, disputed_at }),
            Event::OrderResolved { order_id, allocation } => event@ == (Event::<
                OrderView,
            >::OrderResolved { order_id, allocation }),
            Event::OrderCancelled { order_id } => event@ == (Event::<OrderView>::OrderCancelled {
                order_id,
            }),
            Event::Upgraded { new_wasm_hash } => event@ == (Event::<OrderView>::Upgraded {
                new_wasm_hash,
            }),
        },
{
}

/// The symbol of an event depends on its kind alone, whatever it carries.
pub proof fn law_topic_names_the_kind_of_event(event: Event<OrderView>)
    ensures
        event is OrderCreated ==> event_topic(event) == "ord_new"@,
        event is OrderFunded ==> event_topic(event) == "ord_fund"@,
        event is OrderDelivered ==> event_topic(event) == "delivrd"@,
        event is OrderReleased ==> event_topic(event) == "released"@,
        event is OrderDisputed ==> event_topic(event) == "disputed"@,
        event is OrderResolved ==> event_topic(event) == "resolved"@,
        event is OrderCancelled ==> event_topic(event) == "cancel"@,
        event is Upgraded ==> event_topic(event) == "upgrade"@,
{
}

/// The value of a host operation is the same operation with the same content.
pub proof fn law_action_is_seen_as_it_is(action: Action<Order, SdkVec<u64>>)
    ensures
        match action {
            Action::RequireAuth { address } => action@ == (ActionView::RequireAuth { address }),
            Action::SetAddress { key, address } => action@ == (ActionView::SetAddress {
                key,
                address,
            }),
            Action::SetNextOrderId { next_order_id } => action@ == (ActionView::SetNextOrderId {
                next_order_id,
            }),
            Action::SetOrder { order } => action@ == (ActionView::SetOrder { order: order@ }),
            Action::SetIndex { key, ids } => action@ == (ActionView::SetIndex {
                key,
                ids: ids_in(ids),
            }),
            Action::ExtendInstanceTtl { threshold, extend_to } => action@ == (
            ActionView::ExtendInstanceTtl { threshold, extend_to }),
            Action::ExtendPersistentTtl { key, threshold, extend_to } => action@ == (
            ActionView::ExtendPersistentTtl { key, threshold, extend_to }),
            Action::TransferFrom { token, spender, from, to, amount } => action@ == (
            ActionView::TransferFrom { token, spender, from, to, amount }),
            Action::Transfer { token, from, to, amount } => action@ == (ActionView::Transfer {
                token,
                from,
                to,
                amount,
            }),
            Action::UpdateWasm { new_wasm_hash } => action@ == (ActionView::UpdateWasm {
                new_wasm_hash,
            }),
            Action::Publish { event } => action@ == (ActionView::Publish { event: event@ }),
        },
{
}

} // verus!
