//! What the parties can rely on: who moves an order and when, where the money
//! ends up, and how long records last.
pub mod operations;
pub mod views;

use vstd::prelude::*;

use crate::actions::ActionView;
use crate::contract::deployed;
use crate::env::EnvView;
use crate::history::{
    added, admissible, agree_for, all_admissible, amount_if, authorisations, consistent, event_of,
    held, is_party, keep, keep_instance, named_order, order_fits, orders_fit, records, refusal, run,
    signers, step, stored_by, total, transfers, well_directed, Call, Measure,
};
use crate::laws::{
    law_authorise_then_transfer_then_record, law_call_changes_one_order,
    law_deployment_is_consistent, law_history_keeps_ledger_consistent,
    law_standard_payout_divides_the_pot, lemma_added_at, lemma_total_call, lemma_total_payments,
};
use crate::model::{
    claim_answer, claim_guard, confirm_answer, confirm_guard, create_answer, dispute_answer,
    dispute_guard, get_answer, resolve_answer, resolve_guard, terms_refusal, timeout_claimable,
    Terms,
};
use crate::rules::{is_amount, standard_division, ttl_ledgers};
use crate::types::{
    error_code, status_code, Address, Allocation, ContractError, DataKey, OrderStatus, OrderView,
    PERSISTENT_TTL_EXTEND_MIN, SECS_PER_LEDGER,
};

verus! {

// ---------------------------------------------------------------------------
// Who moves an order, and when
// ---------------------------------------------------------------------------
/// `call` is one that may move `order`, which stands under `order_id`.
pub open spec fn may_move(s: EnvView, order_id: u64, order: OrderView, call: Call) -> bool {
    match order.status {
        OrderStatus::Open => {
            ||| call == Call::Fund { order_id }
            ||| call == Call::MutualCancel { order_id }
        },
        OrderStatus::Funded => {
            ||| call == (Call::MarkDelivered { rider: order.rider, order_id })
            ||| call == Call::MutualCancel { order_id }
        },
        OrderStatus::Delivered => {
            ||| call == (Call::ConfirmDelivery { customer: order.customer, order_id })
            ||| {
                &&& call == (Call::ClaimAfterTimeout { rider: order.rider, order_id })
                &&& s.timestamp >= order.confirmation_end()
            }
            ||| {
                &&& call == (Call::Dispute { caller: order.customer, order_id }) || call == (
                Call::Dispute { caller: order.rider, order_id })
                &&& s.timestamp < order.confirmation_end()
            }
        },
        OrderStatus::Disputed => {
            &&& call matches Call::ResolveDispute { admin, order_id: id, allocation }
            &&& admin == s.instance.admin
            &&& id == order_id
            &&& s.timestamp >= order.evidence_end()
            &&& allocation.non_negative()
            &&& allocation.total() == order.pot()
        },
        _ => false,
    }
}

/// Only the right party moves an order, and only at the right time: the two
/// parties together fund or cancel it; the rider declares the delivery; from
/// then on the customer can confirm, either party can dispute while the
/// confirmation window is open, and the rider can claim when it is over; only
/// the administrator moves a disputed order, after the evidence window, by a
/// ruling that divides exactly the pot; and nobody moves one that is settled.
#[verifier::rlimit(30)]
pub proof fn law_only_the_right_party_moves_an_order(s: EnvView, call: Call, order_id: u64)
    requires
        orders_fit(s),
        s.orders.contains_key(order_id),
        step(s, call).orders[order_id] != s.orders[order_id],
    ensures
        may_move(s, order_id, s.orders[order_id], call),
{
    law_call_changes_one_order(s, call);
    assert(order_fits(s, order_id));
    let named = match named_order(call) {
        Some(id) => id,
        None => order_id,
    };
    if s.orders.contains_key(named) {
        assert(order_fits(s, named));
    }
}

/// While a delivered order waits, either the dispute or the claim is open, and
/// never both: a party can dispute exactly as long as the rider is told that
/// the confirmation window is open.
pub proof fn law_dispute_or_claim_but_not_both(s: EnvView, caller: Address, order_id: u64)
    requires
        s.orders.contains_key(order_id),
        s.orders[order_id].status == OrderStatus::Delivered,
        s.orders[order_id].confirmation_end() <= u64::MAX,
        caller == s.orders[order_id].customer || caller == s.orders[order_id].rider,
    ensures
        dispute_answer(s, caller, order_id) is Ok <==> !timeout_claimable(s, order_id),
        dispute_answer(s, caller, order_id) is Ok <==> claim_answer(
            s,
            s.orders[order_id].rider,
            order_id,
        ) == Err::<Allocation, ContractError>(ContractError::ConfirmationWindowOpen),
        dispute_answer(s, caller, order_id) is Err <==> dispute_answer(s, caller, order_id) == Err::<
            OrderView,
            ContractError,
        >(ContractError::ConfirmationWindowClosed),
{
    if timeout_claimable(s, order_id) {
        let d = standard_division(s.orders[order_id]);
        assert(d != Err::<Allocation, ContractError>(ContractError::ConfirmationWindowOpen));
    }
}

/// An order is claimable exactly when the claim of its rider gets as far as the
/// division of the pot; nobody's claim succeeds on another order.
pub proof fn law_claimable_orders_can_be_claimed(s: EnvView, rider: Address, order_id: u64)
    ensures
        timeout_claimable(s, order_id) ==> claim_answer(s, s.orders[order_id].rider, order_id)
            == standard_division(s.orders[order_id]),
        claim_answer(s, rider, order_id) is Ok ==> timeout_claimable(s, order_id),
{
}

/// The rider of a claimable order gets the pot without anyone's consent, as
/// long as the amounts do not overflow.
pub proof fn law_silence_does_not_lock_the_pot(s: EnvView, order_id: u64)
    requires
        timeout_claimable(s, order_id),
        s.orders[order_id].valid_terms(),
        is_amount(s.orders[order_id].delivery_fee * s.orders[order_id].platform_fee_bps),
        is_amount(s.orders[order_id].pot()),
    ensures
        claim_answer(s, s.orders[order_id].rider, order_id) is Ok,
{
    let order = s.orders[order_id];
    law_payout_is_possible(order);
}

/// A payout exists whenever the platform's share can be computed and the pot is
/// an amount.
pub proof fn law_payout_is_possible(order: OrderView)
    requires
        order.valid_terms(),
        is_amount(order.delivery_fee * order.platform_fee_bps),
        is_amount(order.pot()),
    ensures
        standard_division(order) is Ok,
{
    let fee = order.delivery_fee;
    let bps = order.platform_fee_bps;
    assert(0 <= fee * bps <= fee * 5_000) by (nonlinear_arith)
        requires
            fee > 0,
            bps <= 5_000,
    ;
}

/// A dispute can be resolved by every exact division of the pot, once the
/// evidence window is over.
pub proof fn law_every_exact_ruling_is_accepted(s: EnvView, order_id: u64, a: Allocation)
    requires
        s.orders.contains_key(order_id),
        s.orders[order_id].status == OrderStatus::Disputed,
        s.orders[order_id].evidence_end() <= s.timestamp,
        is_amount(s.orders[order_id].pot()),
        a.non_negative(),
        a.total() == s.orders[order_id].pot(),
    ensures
        resolve_answer(s, s.instance.admin, order_id, a) == Ok::<Allocation, ContractError>(a),
{
}

// ---------------------------------------------------------------------------
// What a refused call is told
// ---------------------------------------------------------------------------
/// A call on an order that does not exist is told so, and changes nothing.
pub proof fn law_unknown_order_is_not_found(s: EnvView, call: Call, order_id: u64)
    requires
        named_order(call) == Some(order_id),
        !s.orders.contains_key(order_id),
    ensures
        refusal(s, call) == Some(ContractError::OrderNotFound),
        step(s, call) == s,
        get_answer(s, order_id) == Err::<OrderView, ContractError>(ContractError::OrderNotFound),
        !timeout_claimable(s, order_id),
{
}

/// `status` is one in which `call` finds its order as it needs it.
pub open spec fn accepts_status(call: Call, status: OrderStatus) -> bool {
    match call {
        Call::Fund { .. } => status == OrderStatus::Open,
        Call::MarkDelivered { .. } => status == OrderStatus::Funded,
        Call::ConfirmDelivery { .. } => status == OrderStatus::Delivered,
        Call::ClaimAfterTimeout { .. } => status == OrderStatus::Delivered,
        Call::Dispute { .. } => status == OrderStatus::Delivered,
        Call::ResolveDispute { .. } => status == OrderStatus::Disputed,
        Call::MutualCancel { .. } => status == OrderStatus::Open || status == OrderStatus::Funded,
        _ => true,
    }
}

/// A call on an order in the wrong status is told which status it needs, before
/// anything else is looked at, and changes nothing.
pub proof fn law_wrong_status_is_refused(s: EnvView, call: Call, order_id: u64)
    requires
        named_order(call) == Some(order_id),
        s.orders.contains_key(order_id),
        !accepts_status(call, s.orders[order_id].status),
    ensures
        step(s, call) == s,
        refusal(s, call) == Some(
            match call {
                Call::Fund { .. } => ContractError::NotInOpenState,
                Call::MarkDelivered { .. } => ContractError::NotInFundedState,
                Call::ResolveDispute { .. } => ContractError::NotInDisputedState,
                Call::MutualCancel { .. } => ContractError::InvalidStatus,
                _ => ContractError::NotInDeliveredState,
            },
        ),
{
}

/// `call` is made in the name of someone whose call it is not.
pub open spec fn wrong_party(s: EnvView, order: OrderView, call: Call) -> bool {
    match call {
        Call::MarkDelivered { rider, .. } => rider != order.rider,
        Call::ConfirmDelivery { customer, .. } => customer != order.customer,
        Call::ClaimAfterTimeout { rider, .. } => rider != order.rider,
        Call::Dispute { caller, .. } => caller != order.customer && caller != order.rider,
        Call::ResolveDispute { admin, .. } => admin != s.instance.admin,
        _ => false,
    }
}

/// A call on an order in the right status, by someone whose call it is not, is
/// unauthorised, at whatever time it comes, and changes nothing.
pub proof fn law_wrong_party_is_unauthorised(s: EnvView, call: Call, order_id: u64)
    requires
        named_order(call) == Some(order_id),
        s.orders.contains_key(order_id),
        accepts_status(call, s.orders[order_id].status),
        wrong_party(s, s.orders[order_id], call),
    ensures
        refusal(s, call) == Some(ContractError::Unauthorized),
        step(s, call) == s,
{
}

/// No call is told that an order is already funded: that code is reserved.
pub proof fn law_already_funded_is_reserved(s: EnvView, call: Call)
    ensures
        refusal(s, call) != Some(ContractError::AlreadyFunded),
{
}

// ---------------------------------------------------------------------------
// What an accepted call leaves on record
// ---------------------------------------------------------------------------
/// An accepted call publishes exactly one event, and does so last; the passing
/// of time publishes none.
#[verifier::rlimit(30)]
pub proof fn law_one_event_per_accepted_call(s: EnvView, call: Call, i: int)
    requires
        refusal(s, call) is None,
        0 <= i < added(s, call).len(),
    ensures
        event_of(s, call) is None <==> call is SetTimestamp,
        added(s, call)[i] is Publish <==> i == added(s, call).len() - 1,
        added(s, call)[i] is Publish ==> event_of(s, call) == Some(
            added(s, call)[i]->Publish_event,
        ),
{
    lemma_added_at(s, call, i);
    let j = i - authorisations(signers(s, call)).len() - transfers(s, call).len();
    if j >= 0 {
        lemma_event_is_last(s, call, j);
    } else {
        lemma_event_is_last(s, call, 0);
    }
}

/// Among what an accepted call writes down the event is the last, and the only
/// one.
proof fn lemma_event_is_last(s: EnvView, call: Call, j: int)
    requires
        0 <= j,
    ensures
        records(s, call).len() == 0 <==> call is SetTimestamp,
        j < records(s, call).len() ==> (records(s, call)[j] is Publish <==> j == records(
            s,
            call,
        ).len() - 1),
        0 < records(s, call).len() ==> records(s, call).last() == (ActionView::Publish {
            event: event_of(s, call)->0,
        }),
        event_of(s, call) is None <==> call is SetTimestamp,
{
}

/// An accepted call that stores an order keeps that entry alive for as long as
/// its windows need, and the instance entry with it; no other call extends a
/// lifetime.
pub proof fn law_stored_orders_are_kept_alive(s: EnvView, call: Call)
    ensures
        stored_by(s, call) matches Some(order) ==> {
            &&& added(s, call).contains(keep(DataKey::Order(order.order_id), order.life_secs()))
            &&& added(s, call).contains(keep_instance())
        },
        stored_by(s, call) is None ==> forall|i: int|
            0 <= i < added(s, call).len() ==> !(#[trigger] added(s, call)[i] is ExtendPersistentTtl)
                && !(added(s, call)[i] is ExtendInstanceTtl),
{
    if refusal(s, call) is Some {
        lemma_refused_adds(s, call);
    } else if stored_by(s, call) is Some {
        lemma_stored_order_is_kept_alive(s, call);
    } else {
        assert forall|i: int| 0 <= i < added(s, call).len() implies !(#[trigger] added(s, call)[i] is
            ExtendPersistentTtl) && !(added(s, call)[i] is ExtendInstanceTtl) by {
            lemma_added_at(s, call, i);
            lemma_nothing_else_is_kept_alive(s, call);
        }
    }
}

/// The two extensions among what a call that stores an order writes down.
#[verifier::spinoff_prover]
proof fn lemma_stored_order_is_kept_alive(s: EnvView, call: Call)
    requires
        refusal(s, call) is None,
        stored_by(s, call) is Some,
    ensures
        ({
            let order = stored_by(s, call)->0;
            &&& added(s, call).contains(keep(DataKey::Order(order.order_id), order.life_secs()))
            &&& added(s, call).contains(keep_instance())
        }),
{
    law_authorise_then_transfer_then_record(s, call);
    let before = authorisations(signers(s, call)) + transfers(s, call);
    let r = records(s, call);
    let order = stored_by(s, call)->0;
    let (entry, instance): (int, int) = if call is CreateOrder {
        (2, 7)
    } else {
        (1, 2)
    };
    assert(r[entry] == keep(DataKey::Order(order.order_id), order.life_secs()));
    assert(r[instance] == keep_instance());
    assert(added(s, call) =~= before + r);
    assert(added(s, call)[before.len() + entry] == r[entry]);
    assert(added(s, call)[before.len() + instance] == r[instance]);
}

/// A call that stores no order extends no lifetime.
proof fn lemma_nothing_else_is_kept_alive(s: EnvView, call: Call)
    requires
        refusal(s, call) is None,
        stored_by(s, call) is None,
    ensures
        transfers(s, call).len() == 0,
        forall|j: int|
            0 <= j < records(s, call).len() ==> !(#[trigger] records(s, call)[j] is
                ExtendPersistentTtl) && !(records(s, call)[j] is ExtendInstanceTtl),
{
}

// ---------------------------------------------------------------------------
// Reading back
// ---------------------------------------------------------------------------
/// What a call stored is what `get_order` gives back.
pub proof fn law_stored_order_is_read_back(s: EnvView, call: Call)
    requires
        stored_by(s, call) is Some,
    ensures
        get_answer(step(s, call), stored_by(s, call)->0.order_id) == Ok::<OrderView, ContractError>(
            stored_by(s, call)->0,
        ),
{
    law_call_changes_one_order(s, call);
}

/// A call reads nothing but the entries that it names: on ledgers that agree on
/// those it gives the same answer, stores the same order and asks for the same
/// operations, whatever else they hold. So it is enough to load those entries.
#[verifier::rlimit(30)]
pub proof fn law_call_reads_only_what_it_names(s: EnvView, t: EnvView, call: Call)
    requires
        agree_for(s, t, call),
    ensures
        refusal(s, call) == refusal(t, call),
        stored_by(s, call) == stored_by(t, call),
        added(s, call) == added(t, call),
{
    if refusal(s, call) is None {
        law_authorise_then_transfer_then_record(s, call);
        law_authorise_then_transfer_then_record(t, call);
        assert(transfers(s, call) == transfers(t, call));
        assert(records(s, call) == records(t, call));
    } else {
        lemma_refused_adds(s, call);
        lemma_refused_adds(t, call);
    }
}

/// What a refused call adds: the one signature, where it got that far.
proof fn lemma_refused_adds(s: EnvView, call: Call)
    requires
        refusal(s, call) is Some,
    ensures
        added(s, call) == (if refused_late(s, call) {
            authorisations(signers(s, call))
        } else {
            Seq::empty()
        }),
{
    if refused_late(s, call) {
        assert(added(s, call) =~= authorisations(signers(s, call)));
    } else {
        assert(added(s, call) =~= Seq::empty());
    }
}

/// The refusal comes after the caller had to authorise the call.
spec fn refused_late(s: EnvView, call: Call) -> bool {
    match call {
        Call::ConfirmDelivery { customer, order_id } => confirm_guard(
            s,
            customer,
            order_id,
        ) is None,
        Call::ClaimAfterTimeout { rider, order_id } => claim_guard(s, rider, order_id) is None,
        Call::Dispute { caller, order_id } => dispute_guard(s, caller, order_id) is None,
        Call::ResolveDispute { admin, order_id, .. } => resolve_guard(s, admin, order_id) is None,
        _ => false,
    }
}

/// A new order gets an id that no order has, the counter moves past it, and it
/// is the last in both parties' lists.
pub proof fn law_new_order_is_listed_under_a_fresh_id(s: EnvView, terms: Terms)
    requires
        orders_fit(s),
        terms_refusal(terms) is None,
        admissible(s, Call::CreateOrder { terms }),
    ensures
        ({
            let t = step(s, Call::CreateOrder { terms });
            let id = create_answer(s, terms)->Ok_0.order_id;
            let customer_key = DataKey::CustomerOrders(terms.customer);
            let rider_key = DataKey::RiderOrders(terms.rider);
            &&& !s.orders.contains_key(id)
            &&& t.orders.contains_key(id)
            &&& t.next_id() == id + 1
            &&& t.index(customer_key) == s.index(customer_key).push(id)
            &&& t.index(rider_key) == s.index(rider_key).push(id)
        }),
{
    let id = s.next_id();
    if s.orders.contains_key(id) {
        assert(order_fits(s, id));
    }
}

// ---------------------------------------------------------------------------
// Where the money ends up
// ---------------------------------------------------------------------------
/// Confirmation and claim pay alike.
pub proof fn law_confirm_and_claim_pay_alike(
    s: EnvView,
    customer: Address,
    rider: Address,
    order_id: u64,
)
    requires
        confirm_answer(s, customer, order_id) is Ok,
        claim_answer(s, rider, order_id) is Ok,
    ensures
        confirm_answer(s, customer, order_id) == claim_answer(s, rider, order_id),
        transfers(s, Call::ConfirmDelivery { customer, order_id }) == transfers(
            s,
            Call::ClaimAfterTimeout { rider, order_id },
        ),
        step(s, Call::ConfirmDelivery { customer, order_id }).orders == step(
            s,
            Call::ClaimAfterTimeout { rider, order_id },
        ).orders,
{
}

/// Funding takes the fee from the customer and the bond from the rider, and
/// gives both to the contract.
pub proof fn law_funding_fills_the_pot(s: EnvView, order_id: u64, who: Address)
    requires
        refusal(s, Call::Fund { order_id }) is None,
        s.orders[order_id].rider_bond >= 0,
    ensures
        total(Measure::Gained { who }, added(s, Call::Fund { order_id })) == (if who
            == s.contract_address {
            s.orders[order_id].pot()
        } else {
            0
        }) - amount_if(who == s.orders[order_id].customer, s.orders[order_id].delivery_fee)
            - amount_if(who == s.orders[order_id].rider, s.orders[order_id].rider_bond),
{
    broadcast use crate::laws::group_totals;

    lemma_total_call(Measure::Gained { who }, s, Call::Fund { order_id });
}

/// Cancelling a funded order refunds it in full: the customer gets the fee back
/// and the rider the bond, and the platform gets nothing.
pub proof fn law_cancel_refunds_in_full(s: EnvView, order_id: u64, who: Address)
    requires
        s.orders.contains_key(order_id),
        s.orders[order_id].status == OrderStatus::Funded,
        s.orders[order_id].valid_terms(),
    ensures
        refusal(s, Call::MutualCancel { order_id }) is None,
        total(Measure::Gained { who }, added(s, Call::MutualCancel { order_id })) == amount_if(
            who == s.orders[order_id].customer,
            s.orders[order_id].delivery_fee,
        ) + amount_if(who == s.orders[order_id].rider, s.orders[order_id].rider_bond) - (if who
            == s.contract_address {
            s.orders[order_id].pot()
        } else {
            0
        }),
{
    broadcast use crate::laws::group_totals;

    lemma_total_call(Measure::Gained { who }, s, Call::MutualCancel { order_id });
}

/// Cancelling a funded order undoes the funding: together they leave every
/// balance as it was.
pub proof fn law_cancel_undoes_fund(s: EnvView, order_id: u64, who: Address)
    requires
        orders_fit(s),
        refusal(s, Call::Fund { order_id }) is None,
    ensures
        ({
            let funded = step(s, Call::Fund { order_id });
            &&& refusal(funded, Call::MutualCancel { order_id }) is None
            &&& total(Measure::Gained { who }, added(s, Call::Fund { order_id })) + total(
                Measure::Gained { who },
                added(funded, Call::MutualCancel { order_id }),
            ) == 0
        }),
{
    assert(order_fits(s, order_id));
    let funded = step(s, Call::Fund { order_id });
    law_call_changes_one_order(s, Call::Fund { order_id });
    law_funding_fills_the_pot(s, order_id, who);
    law_cancel_refunds_in_full(funded, order_id, who);
}

/// Cancelling an order that was never funded moves no money.
pub proof fn law_cancel_of_open_order_moves_nothing(s: EnvView, order_id: u64)
    requires
        s.orders[order_id].status == OrderStatus::Open,
    ensures
        transfers(s, Call::MutualCancel { order_id }) == Seq::<ActionView>::empty(),
{
}

/// A delivery that is funded, delivered and confirmed is settled: the customer
/// is down by the fee, the rider up by the fee without the platform's share,
/// the platform up by its share, and the contract where it was.
#[verifier::rlimit(30)]
pub proof fn law_confirmed_delivery_settles(s: EnvView, order_id: u64, who: Address)
    requires
        orders_fit(s),
        s.orders.contains_key(order_id),
        s.orders[order_id].status == OrderStatus::Open,
        standard_division(s.orders[order_id]) is Ok,
    ensures
        ({
            let order = s.orders[order_id];
            let a = standard_division(order)->Ok_0;
            let deliver = Call::MarkDelivered { rider: order.rider, order_id };
            let confirm = Call::ConfirmDelivery { customer: order.customer, order_id };
            let funded = step(s, Call::Fund { order_id });
            let delivered = step(funded, deliver);
            let settled = step(delivered, confirm);
            &&& refusal(s, Call::Fund { order_id }) is None
            &&& refusal(funded, deliver) is None
            &&& refusal(delivered, confirm) is None
            &&& settled.orders[order_id].status == OrderStatus::Released
            &&& total(Measure::Gained { who }, settled.actions) - total(
                Measure::Gained { who },
                s.actions,
            ) == amount_if(who == order.rider, order.delivery_fee) - amount_if(
                who == order.rider,
                a.to_platform,
            ) + amount_if(who == s.instance.platform_fee_wallet, a.to_platform) - amount_if(
                who == order.customer,
                order.delivery_fee,
            )
        }),
{
    broadcast use crate::laws::group_totals;

    let m = Measure::Gained { who };
    let order = s.orders[order_id];
    let a = standard_division(order)->Ok_0;
    let deliver = Call::MarkDelivered { rider: order.rider, order_id };
    let confirm = Call::ConfirmDelivery { customer: order.customer, order_id };
    let funded = step(s, Call::Fund { order_id });
    let delivered = step(funded, deliver);
    assert(order_fits(s, order_id));
    law_call_changes_one_order(s, Call::Fund { order_id });
    law_call_changes_one_order(funded, deliver);
    law_call_changes_one_order(delivered, confirm);
    law_standard_payout_divides_the_pot(order);
    lemma_total_call(m, s, Call::Fund { order_id });
    law_funding_fills_the_pot(s, order_id, who);
    lemma_total_call(m, funded, deliver);
    lemma_total_call(m, delivered, confirm);
    lemma_total_payments(m, delivered, order_id, a);
}

/// A delivered order that is disputed and ruled on is settled as ruled: each
/// party gets its share of the pot, and what is forfeited stays with the
/// contract.
pub proof fn law_ruling_settles(s: EnvView, order_id: u64, a: Allocation, who: Address)
    requires
        refusal(
            s,
            (Call::ResolveDispute { admin: s.instance.admin, order_id, allocation: a }),
        ) is None,
    ensures
        ({
            let order = s.orders[order_id];
            let call = Call::ResolveDispute { admin: s.instance.admin, order_id, allocation: a };
            total(Measure::Gained { who }, added(s, call)) == amount_if(
                who == order.customer,
                a.to_customer,
            ) + amount_if(who == order.rider, a.to_rider) + amount_if(
                who == s.instance.platform_fee_wallet,
                a.to_platform,
            ) - (if who == s.contract_address {
                order.pot() - a.forfeit
            } else {
                0
            })
        }),
{
    let call = Call::ResolveDispute { admin: s.instance.admin, order_id, allocation: a };
    lemma_total_call(Measure::Gained { who }, s, call);
    lemma_total_payments(Measure::Gained { who }, s, order_id, a);
}

/// The contract is party to no order, and is not the platform's wallet.
pub open spec fn contract_stands_apart(s: EnvView) -> bool {
    &&& !is_party(s.orders, s.contract_address)
    &&& s.instance.platform_fee_wallet != s.contract_address
}

/// Solvency: what the contract has gained is exactly the pots it holds and what
/// was forfeited to it.
pub proof fn law_contract_holds_the_pots(s: EnvView)
    requires
        consistent(s),
        contract_stands_apart(s),
    ensures
        total(Measure::Gained { who: s.contract_address }, s.actions) == held(
            s.orders,
            s.next_id() as nat,
        ) + total(Measure::Forfeited, s.actions),
{
    lemma_contract_gains(s, s.actions);
}

/// Over well-directed operations the contract gains what is pulled in and loses
/// what is paid out.
proof fn lemma_contract_gains(s: EnvView, actions: Seq<ActionView>)
    requires
        contract_stands_apart(s),
        forall|i: int| 0 <= i < actions.len() ==> well_directed(s, #[trigger] actions[i]),
    ensures
        total(Measure::Gained { who: s.contract_address }, actions) == total(
            Measure::Pulled,
            actions,
        ) - total(Measure::PaidOut, actions),
    decreases actions.len(),
{
    if actions.len() > 0 {
        let rest = actions.drop_last();
        assert forall|i: int| 0 <= i < rest.len() implies well_directed(s, #[trigger] rest[i]) by {
            assert(rest[i] == actions[i]);
        }
        lemma_contract_gains(s, rest);
        assert(well_directed(s, actions[actions.len() - 1]));
    }
}

/// The contract never pays out more than it took in.
pub proof fn law_never_pays_more_than_it_took(s: EnvView)
    requires
        consistent(s),
    ensures
        total(Measure::PaidOut, s.actions) <= total(Measure::Pulled, s.actions),
{
    lemma_held_non_negative(s, s.next_id() as nat);
}

/// From deployment on, whatever calls come, the contract never pays out more
/// than it took in.
pub proof fn law_escrow_is_always_solvent(
    contract_address: Address,
    timestamp: u64,
    admin: Address,
    token: Address,
    platform_fee_wallet: Address,
    calls: Seq<Call>,
)
    requires
        all_admissible(
            deployed(contract_address, timestamp, admin, token, platform_fee_wallet),
            calls,
        ),
    ensures
        ({
            let start = deployed(contract_address, timestamp, admin, token, platform_fee_wallet);
            let actions = run(start, calls).actions;
            total(Measure::PaidOut, actions) <= total(Measure::Pulled, actions)
        }),
{
    let start = deployed(contract_address, timestamp, admin, token, platform_fee_wallet);
    law_deployment_is_consistent(contract_address, timestamp, admin, token, platform_fee_wallet);
    law_history_keeps_ledger_consistent(start, calls);
    law_never_pays_more_than_it_took(run(start, calls));
}

/// What is held is never negative.
proof fn lemma_held_non_negative(s: EnvView, n: nat)
    requires
        orders_fit(s),
        n <= u64::MAX + 1,
    ensures
        held(s.orders, n) >= 0,
    decreases n,
{
    if n > 0 {
        lemma_held_non_negative(s, (n - 1) as nat);
        let id = (n - 1) as u64;
        if s.orders.contains_key(id) {
            assert(order_fits(s, id));
        }
    }
}

// ---------------------------------------------------------------------------
// How long records last
// ---------------------------------------------------------------------------
/// The record of an acceptable order is kept for both windows twice where that
/// is a whole number of ledgers or within the floor; otherwise it lacks less than
/// one ledger to that. It is never kept for less than both windows once.
pub proof fn law_records_outlive_the_windows(order: OrderView)
    requires
        order.valid_terms(),
    ensures
        order.life_secs() == order.confirmation_window_secs + order.evidence_window_secs,
        2 * order.life_secs() % (SECS_PER_LEDGER as int) == 0 || 2 * order.life_secs()
            <= PERSISTENT_TTL_EXTEND_MIN * SECS_PER_LEDGER ==> ttl_ledgers(order.life_secs())
            * SECS_PER_LEDGER >= 2 * order.life_secs(),
        ttl_ledgers(order.life_secs()) * SECS_PER_LEDGER > 2 * order.life_secs() - SECS_PER_LEDGER,
        ttl_ledgers(order.life_secs()) * SECS_PER_LEDGER >= order.life_secs(),
        ttl_ledgers(order.life_secs()) >= PERSISTENT_TTL_EXTEND_MIN,
{
}

/// Longer windows are never kept for a shorter time.
pub proof fn law_ttl_is_monotone(a: u64, b: u64)
    requires
        a <= b,
    ensures
        ttl_ledgers(a) <= ttl_ledgers(b),
{
}

// ---------------------------------------------------------------------------
// Codes
// ---------------------------------------------------------------------------
/// Different refusals have different codes.
pub proof fn law_error_codes_are_distinct(a: ContractError, b: ContractError)
    requires
        a != b,
    ensures
        error_code(a) != error_code(b),
        1 <= error_code(a) <= 18,
{
}

/// Different statuses have different codes.
pub proof fn law_status_codes_are_distinct(a: OrderStatus, b: OrderStatus)
    requires
        a != b,
    ensures
        status_code(a) != status_code(b),
{
}

} // verus!
