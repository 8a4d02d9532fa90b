//! Sequences of calls, and what is kept by every call.
use vstd::prelude::*;

use crate::actions::{Action, ActionView, Event};
use crate::env::{payments, EnvView};
use crate::model::{
    after_cancel, after_claim, after_confirm, after_create, after_dispute, after_fund,
    after_mark_delivered, after_resolve, after_upgrade, cancel_answer, claim_answer, collections,
    confirm_answer, create_answer, dispute_answer, fund_answer, has_room, mark_delivered_answer,
    opened, refunds, resolve_answer, terms_refusal, Terms,
};
use crate::rules::ttl_ledgers;
use crate::types::{
    Address, Allocation, ContractError, DataKey, OrderStatus, OrderView, INSTANCE_TTL_EXTEND,
    INSTANCE_TTL_THRESHOLD, PERSISTENT_TTL_THRESHOLD,
};

verus! {

// ---------------------------------------------------------------------------
// Calls
// ---------------------------------------------------------------------------
/// A call of an entry point that may change the ledger, or the passing of time.
pub enum Call {
    CreateOrder { terms: Terms },
    Fund { order_id: u64 },
    MarkDelivered { rider: Address, order_id: u64 },
    ConfirmDelivery { customer: Address, order_id: u64 },
    ClaimAfterTimeout { rider: Address, order_id: u64 },
    Dispute { caller: Address, order_id: u64 },
    ResolveDispute { admin: Address, order_id: u64, allocation: Allocation },
    MutualCancel { order_id: u64 },
    Upgrade { new_wasm_hash: [u8; 32] },
    SetTimestamp { timestamp: u64 },
}

/// The ledger that a call leaves behind.
pub open spec fn step(s: EnvView, call: Call) -> EnvView {
    match call {
        Call::CreateOrder { terms } => after_create(s, terms),
        Call::Fund { order_id } => after_fund(s, order_id),
        Call::MarkDelivered { rider, order_id } => after_mark_delivered(s, rider, order_id),
        Call::ConfirmDelivery { customer, order_id } => after_confirm(s, customer, order_id),
        Call::ClaimAfterTimeout { rider, order_id } => after_claim(s, rider, order_id),
        Call::Dispute { caller, order_id } => after_dispute(s, caller, order_id),
        Call::ResolveDispute { admin, order_id, allocation } => after_resolve(
            s,
            admin,
            order_id,
            allocation,
        ),
        Call::MutualCancel { order_id } => after_cancel(s, order_id),
        Call::Upgrade { new_wasm_hash } => after_upgrade(s, new_wasm_hash),
        Call::SetTimestamp { timestamp } => EnvView { timestamp, ..s },
    }
}

/// The refusal of a call, if it is refused.
pub open spec fn refusal(s: EnvView, call: Call) -> Option<ContractError> {
    match call {
        Call::CreateOrder { terms } => terms_refusal(terms),
        Call::Fund { order_id } => error_of(fund_answer(s, order_id)),
        Call::MarkDelivered { rider, order_id } => error_of(
            mark_delivered_answer(s, rider, order_id),
        ),
        Call::ConfirmDelivery { customer, order_id } => error_of(
            confirm_answer(s, customer, order_id),
        ),
        Call::ClaimAfterTimeout { rider, order_id } => error_of(claim_answer(s, rider, order_id)),
        Call::Dispute { caller, order_id } => error_of(dispute_answer(s, caller, order_id)),
        Call::ResolveDispute { admin, order_id, allocation } => error_of(
            resolve_answer(s, admin, order_id, allocation),
        ),
        Call::MutualCancel { order_id } => error_of(cancel_answer(s, order_id)),
        Call::Upgrade { .. } => None,
        Call::SetTimestamp { .. } => None,
    }
}

/// The error in an answer.
pub open spec fn error_of<T>(answer: Result<T, ContractError>) -> Option<ContractError> {
    match answer {
        Ok(_) => None,
        Err(e) => Some(e),
    }
}

/// The ledger has room for what the call stores.
pub open spec fn admissible(s: EnvView, call: Call) -> bool {
    call matches Call::CreateOrder { terms } ==> terms_refusal(terms) is None ==> has_room(s, terms)
}

/// The ledger after `calls`, first to last.
pub open spec fn run(s: EnvView, calls: Seq<Call>) -> EnvView
    decreases calls.len(),
{
    if calls.len() == 0 {
        s
    } else {
        step(run(s, calls.drop_last()), calls.last())
    }
}

/// Each of `calls` finds room.
pub open spec fn all_admissible(s: EnvView, calls: Seq<Call>) -> bool
    decreases calls.len(),
{
    calls.len() > 0 ==> {
        &&& all_admissible(s, calls.drop_last())
        &&& admissible(run(s, calls.drop_last()), calls.last())
    }
}

/// The record that an accepted call stores; none where it stores none or is
/// refused.
pub open spec fn stored_by(s: EnvView, call: Call) -> Option<OrderView> {
    if refusal(s, call) is Some {
        None
    } else {
        match call {
            Call::CreateOrder { terms } => Some(create_answer(s, terms)->Ok_0),
            Call::Fund { order_id } => Some(fund_answer(s, order_id)->Ok_0),
            Call::MarkDelivered { rider, order_id } => Some(
                mark_delivered_answer(s, rider, order_id)->Ok_0,
            ),
            Call::ConfirmDelivery { order_id, .. } => Some(
                OrderView { status: OrderStatus::Released, ..s.orders[order_id] },
            ),
            Call::ClaimAfterTimeout { order_id, .. } => Some(
                OrderView { status: OrderStatus::Released, ..s.orders[order_id] },
            ),
            Call::Dispute { caller, order_id } => Some(dispute_answer(s, caller, order_id)->Ok_0),
            Call::ResolveDispute { order_id, .. } => Some(
                OrderView { status: OrderStatus::Resolved, ..s.orders[order_id] },
            ),
            Call::MutualCancel { order_id } => Some(cancel_answer(s, order_id)->Ok_0),
            Call::Upgrade { .. } => None,
            Call::SetTimestamp { .. } => None,
        }
    }
}

/// The addresses that a call makes authorise it, in order.
pub open spec fn signers(s: EnvView, call: Call) -> Seq<Address> {
    match call {
        Call::CreateOrder { terms } => seq![terms.customer],
        Call::Fund { order_id } => seq![s.orders[order_id].customer, s.orders[order_id].rider],
        Call::MarkDelivered { rider, .. } => seq![rider],
        Call::ConfirmDelivery { customer, .. } => seq![customer],
        Call::ClaimAfterTimeout { rider, .. } => seq![rider],
        Call::Dispute { caller, .. } => seq![caller],
        Call::ResolveDispute { admin, .. } => seq![admin],
        Call::MutualCancel { order_id } => seq![
            s.orders[order_id].customer,
            s.orders[order_id].rider,
        ],
        Call::Upgrade { .. } => seq![s.instance.admin],
        Call::SetTimestamp { .. } => Seq::empty(),
    }
}

/// The request that each of `addresses` has authorised the call.
pub open spec fn authorisations(addresses: Seq<Address>) -> Seq<ActionView> {
    addresses.map_values(|address: Address| ActionView::RequireAuth { address })
}

/// The transfers that an accepted call asks for.
pub open spec fn transfers(s: EnvView, call: Call) -> Seq<ActionView> {
    match call {
        Call::Fund { order_id } => collections(s, s.orders[order_id]),
        Call::ConfirmDelivery { customer, order_id } => payments_for(
            s,
            order_id,
            confirm_answer(s, customer, order_id)->Ok_0,
        ),
        Call::ClaimAfterTimeout { rider, order_id } => payments_for(
            s,
            order_id,
            claim_answer(s, rider, order_id)->Ok_0,
        ),
        Call::ResolveDispute { order_id, allocation, .. } => payments_for(
            s,
            order_id,
            allocation,
        ),
        Call::MutualCancel { order_id } => refunds(s, s.orders[order_id]),
        _ => Seq::empty(),
    }
}

/// The payments that hand out the pot of an order as `a` says.
pub open spec fn payments_for(s: EnvView, order_id: u64, a: Allocation) -> Seq<ActionView> {
    payments(
        s.instance.token,
        s.contract_address,
        s.instance.platform_fee_wallet,
        s.orders[order_id],
        a,
    )
}

/// The event that an accepted call publishes; none when only time passes.
pub open spec fn event_of(s: EnvView, call: Call) -> Option<Event<OrderView>> {
    match call {
        Call::CreateOrder { terms } => Some(Event::OrderCreated { order: opened(s, terms) }),
        Call::Fund { order_id } => Some(
            Event::OrderFunded {
                order_id: s.orders[order_id].order_id,
                delivery_fee: s.orders[order_id].delivery_fee,
                rider_bond: s.orders[order_id].rider_bond,
            },
        ),
        Call::MarkDelivered { order_id, .. } => Some(
            Event::OrderDelivered {
                order_id: s.orders[order_id].order_id,
                delivered_at: s.timestamp,
            },
        ),
        Call::ConfirmDelivery { customer, order_id } => Some(
            Event::OrderReleased {
                order_id: s.orders[order_id].order_id,
                allocation: confirm_answer(s, customer, order_id)->Ok_0,
            },
        ),
        Call::ClaimAfterTimeout { rider, order_id } => Some(
            Event::OrderReleased {
                order_id: s.orders[order_id].order_id,
                allocation: claim_answer(s, rider, order_id)->Ok_0,
            },
        ),
        Call::Dispute { caller, order_id } => Some(
            Event::OrderDisputed {
                order_id: s.orders[order_id].order_id,
                caller,
                disputed_at: s.timestamp,
            },
        ),
        Call::ResolveDispute { order_id, allocation, .. } => Some(
            Event::OrderResolved { order_id: s.orders[order_id].order_id, allocation },
        ),
        Call::MutualCancel { order_id } => Some(
            Event::OrderCancelled { order_id: s.orders[order_id].order_id },
        ),
        Call::Upgrade { new_wasm_hash } => Some(Event::Upgraded { new_wasm_hash }),
        Call::SetTimestamp { .. } => None,
    }
}

/// The extension of the lifetime of the entry under `key`.
pub open spec fn keep(key: DataKey, life_secs: u64) -> ActionView {
    ActionView::ExtendPersistentTtl {
        key,
        threshold: PERSISTENT_TTL_THRESHOLD,
        extend_to: ttl_ledgers(life_secs),
    }
}

/// The extension of the lifetime of the instance entry.
pub open spec fn keep_instance() -> ActionView {
    ActionView::ExtendInstanceTtl {
        threshold: INSTANCE_TTL_THRESHOLD,
        extend_to: INSTANCE_TTL_EXTEND,
    }
}

/// What an accepted call writes down: the stored values, each kept alive for as
/// long as its order needs, and the event.
pub open spec fn records(s: EnvView, call: Call) -> Seq<ActionView> {
    match call {
        Call::CreateOrder { terms } => {
            let order = opened(s, terms);
            let customer_key = DataKey::CustomerOrders(terms.customer);
            let rider_key = DataKey::RiderOrders(terms.rider);
            seq![
                ActionView::SetNextOrderId { next_order_id: (s.next_id() + 1) as u64 },
                ActionView::SetOrder { order },
                keep(DataKey::Order(order.order_id), order.life_secs()),
                ActionView::SetIndex {
                    key: customer_key,
                    ids: s.index(customer_key).push(order.order_id),
                },
                keep(customer_key, order.life_secs()),
                ActionView::SetIndex {
                    key: rider_key,
                    ids: s.index(rider_key).push(order.order_id),
                },
                keep(rider_key, order.life_secs()),
                keep_instance(),
                ActionView::Publish { event: event_of(s, call)->0 },
            ]
        },
        Call::Upgrade { new_wasm_hash } => seq![
            ActionView::UpdateWasm { new_wasm_hash },
            ActionView::Publish { event: event_of(s, call)->0 },
        ],
        Call::SetTimestamp { .. } => Seq::empty(),
        _ => {
            let order = stored_by(s, call)->0;
            seq![
                ActionView::SetOrder { order },
                keep(DataKey::Order(order.order_id), order.life_secs()),
                keep_instance(),
                ActionView::Publish { event: event_of(s, call)->0 },
            ]
        },
    }
}

/// The operations that a call adds to what was asked for before.
pub open spec fn added(s: EnvView, call: Call) -> Seq<ActionView> {
    step(s, call).actions.skip(s.actions.len() as int)
}

/// The order that a call names.
pub open spec fn named_order(call: Call) -> Option<u64> {
    match call {
        Call::Fund { order_id } => Some(order_id),
        Call::MarkDelivered { order_id, .. } => Some(order_id),
        Call::ConfirmDelivery { order_id, .. } => Some(order_id),
        Call::ClaimAfterTimeout { order_id, .. } => Some(order_id),
        Call::Dispute { order_id, .. } => Some(order_id),
        Call::ResolveDispute { order_id, .. } => Some(order_id),
        Call::MutualCancel { order_id } => Some(order_id),
        _ => None,
    }
}

/// Two ledgers agree on all that a call reads: time, addresses and counter, the
/// order that it names, and the lists of the parties to an order it creates.
pub open spec fn agree_for(s: EnvView, t: EnvView, call: Call) -> bool {
    &&& s.contract_address == t.contract_address
    &&& s.timestamp == t.timestamp
    &&& s.instance == t.instance
    &&& named_order(call) matches Some(id) ==> {
        &&& s.orders.contains_key(id) == t.orders.contains_key(id)
        &&& s.orders.contains_key(id) ==> s.orders[id] == t.orders[id]
    }
    &&& call matches Call::CreateOrder { terms } ==> {
        &&& s.index(DataKey::CustomerOrders(terms.customer)) == t.index(
            DataKey::CustomerOrders(terms.customer),
        )
        &&& s.index(DataKey::RiderOrders(terms.rider)) == t.index(
            DataKey::RiderOrders(terms.rider),
        )
    }
}

/// The steps of the lifecycle.
pub open spec fn lifecycle_edge(from: OrderStatus, to: OrderStatus) -> bool {
    match from {
        OrderStatus::Open => to == OrderStatus::Funded || to == OrderStatus::Cancelled,
        OrderStatus::Funded => to == OrderStatus::Delivered || to == OrderStatus::Cancelled,
        OrderStatus::Delivered => to == OrderStatus::Released || to == OrderStatus::Disputed,
        OrderStatus::Disputed => to == OrderStatus::Resolved,
        OrderStatus::Released => false,
        OrderStatus::Resolved => false,
        OrderStatus::Cancelled => false,
    }
}

/// Nothing more happens to the order.
pub open spec fn terminal(status: OrderStatus) -> bool {
    status == OrderStatus::Released || status == OrderStatus::Resolved || status
        == OrderStatus::Cancelled
}

// ---------------------------------------------------------------------------
// Sums over operations
// ---------------------------------------------------------------------------
/// What to add up over a list of operations.
pub enum Measure {
    /// Pulled into escrow from the parties.
    Pulled,
    /// Paid out of escrow.
    PaidOut,
    /// Kept by the contract as ruled in disputes.
    Forfeited,
    /// Gained, or lost if negative, by one address.
    Gained { who: Address },
}

/// `amount` if `holds`, else nothing.
pub open spec fn amount_if(holds: bool, amount: i128) -> int {
    if holds {
        amount as int
    } else {
        0
    }
}

/// The contribution of one operation. A transfer takes the amount from one
/// address and gives it to another.
pub open spec fn measure_of(m: Measure, action: ActionView) -> int {
    match m {
        Measure::Pulled => match action {
            Action::TransferFrom { amount, .. } => amount as int,
            _ => 0,
        },
        Measure::PaidOut => match action {
            Action::Transfer { amount, .. } => amount as int,
            _ => 0,
        },
        Measure::Forfeited => match action {
            Action::Publish { event: Event::OrderResolved { allocation, .. } } => {
                allocation.forfeit as int
            },
            _ => 0,
        },
        Measure::Gained { who } => match action {
            Action::TransferFrom { from, to, amount, .. } => amount_if(to == who, amount)
                - amount_if(from == who, amount),
            Action::Transfer { from, to, amount, .. } => amount_if(to == who, amount) - amount_if(
                from == who,
                amount,
            ),
            _ => 0,
        },
    }
}

/// The sum over a list of operations.
pub open spec fn total(m: Measure, actions: Seq<ActionView>) -> int
    decreases actions.len(),
{
    if actions.len() == 0 {
        0
    } else {
        total(m, actions.drop_last()) + measure_of(m, actions.last())
    }
}

// ---------------------------------------------------------------------------
// What every call keeps
// ---------------------------------------------------------------------------
/// The part of the pot of the order with this id that is in escrow.
pub open spec fn held_for(orders: Map<u64, OrderView>, order_id: u64) -> int {
    if orders.contains_key(order_id) && orders[order_id].in_escrow() {
        orders[order_id].pot()
    } else {
        0
    }
}

/// The sum of the pots in escrow, over the ids below `n`.
pub open spec fn held(orders: Map<u64, OrderView>, n: nat) -> int
    decreases n,
{
    if n == 0 {
        0
    } else {
        held(orders, (n - 1) as nat) + held_for(orders, (n - 1) as u64)
    }
}

/// Ids, terms and times of the stored orders fit together.
pub open spec fn orders_fit(s: EnvView) -> bool {
    forall|id: u64| #[trigger] s.orders.contains_key(id) ==> order_fits(s, id)
}

pub open spec fn order_fits(s: EnvView, id: u64) -> bool {
    let order = s.orders[id];
    &&& id < s.next_id()
    &&& order.order_id == id
    &&& order.valid_terms()
    &&& (order.status == OrderStatus::Open || order.status == OrderStatus::Funded || order.status
        == OrderStatus::Cancelled) ==> order.delivered_at == 0
    &&& (order.status != OrderStatus::Disputed && order.status != OrderStatus::Resolved)
        ==> order.disputed_at == 0
}

/// Each party's list names exactly the party's orders, oldest first.
pub open spec fn lists_fit(s: EnvView) -> bool {
    &&& forall|who: Address, id: u64|
        #[trigger] s.index(DataKey::CustomerOrders(who)).contains(id) <==> (
        s.orders.contains_key(id) && s.orders[id].customer == who)
    &&& forall|who: Address, id: u64|
        #[trigger] s.index(DataKey::RiderOrders(who)).contains(id) <==> (s.orders.contains_key(id)
            && s.orders[id].rider == who)
    &&& forall|key: DataKey, i: int, j: int|
        #![trigger s.index(key)[i], s.index(key)[j]]
        0 <= i < j < s.index(key).len() ==> s.index(key)[i] < s.index(key)[j]
}

/// What was pulled in was paid out, is held for an order, or was forfeited.
pub open spec fn books_balance(s: EnvView) -> bool {
    &&& total(Measure::Pulled, s.actions) == total(Measure::PaidOut, s.actions) + held(
        s.orders,
        s.next_id() as nat,
    ) + total(Measure::Forfeited, s.actions)
    &&& total(Measure::Forfeited, s.actions) >= 0
}

/// `who` is a party to an order.
pub open spec fn is_party(orders: Map<u64, OrderView>, who: Address) -> bool {
    exists|id: u64| #[trigger]
        orders.contains_key(id) && (orders[id].customer == who || orders[id].rider == who)
}

/// The operation is no transfer, or it moves a positive amount of the token
/// from a party to the contract, or from the contract to a party or the
/// platform wallet.
pub open spec fn well_directed(s: EnvView, action: ActionView) -> bool {
    match action {
        Action::TransferFrom { token, spender, from, to, amount } => {
            &&& token == s.instance.token
            &&& spender == s.contract_address
            &&& is_party(s.orders, from)
            &&& to == s.contract_address
            &&& amount > 0
        },
        Action::Transfer { token, from, to, amount } => {
            &&& token == s.instance.token
            &&& from == s.contract_address
            &&& is_party(s.orders, to) || to == s.instance.platform_fee_wallet
            &&& amount > 0
        },
        _ => true,
    }
}

/// Every transfer asked for so far is well directed.
pub open spec fn money_well_directed(s: EnvView) -> bool {
    forall|i: int| 0 <= i < s.actions.len() ==> well_directed(s, #[trigger] s.actions[i])
}

/// The ledger of an escrow, with all operations since deployment.
pub open spec fn consistent(s: EnvView) -> bool {
    &&& orders_fit(s)
    &&& lists_fit(s)
    &&& books_balance(s)
    &&& money_well_directed(s)
}

} // verus!
