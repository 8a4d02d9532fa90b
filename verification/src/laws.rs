//! What holds of every call and of every sequence of calls.
use vstd::prelude::*;

use crate::actions::{Action, ActionView};
use crate::contract::deployed;
use crate::env::{payment, EnvView};
use crate::history::{
    added, admissible, all_admissible, amount_if, authorisations, books_balance, consistent, held,
    held_for, is_party, lifecycle_edge, lists_fit, measure_of, money_well_directed, named_order,
    order_fits, orders_fit, payments_for, records, refusal, run, signers, step, stored_by, terminal,
    total, transfers, well_directed, Call, Measure,
};
use crate::model::{
    after_create, claim_answer, collections, confirm_answer, fund_answer, opened, terms_refusal,
    Terms,
};
use crate::rules::{allocation_verdict, is_amount, platform_share, standard_division};
use crate::types::{Address, Allocation, DataKey, OrderView};

verus! {

// ---------------------------------------------------------------------------
// Sums
// ---------------------------------------------------------------------------
pub(crate) broadcast proof fn lemma_total_push(m: Measure, actions: Seq<ActionView>, a: ActionView)
    ensures
        #[trigger] total(m, actions.push(a)) == total(m, actions) + measure_of(m, a),
{
    assert(actions.push(a).drop_last() =~= actions);
}

pub(crate) broadcast proof fn lemma_total_add(m: Measure, a: Seq<ActionView>, b: Seq<ActionView>)
    ensures
        #[trigger] total(m, a + b) == total(m, a) + total(m, b),
    decreases b.len(),
{
    if b.len() == 0 {
        assert(a + b =~= a);
    } else {
        assert((a + b).drop_last() =~= a + b.drop_last());
        lemma_total_add(m, a, b.drop_last());
    }
}

/// The sum over a payment.
pub(crate) broadcast proof fn lemma_total_payment(
    m: Measure,
    token: Address,
    contract: Address,
    to: Address,
    amount: i128,
)
    ensures
        #[trigger] total(m, payment(token, contract, to, amount)) == (if amount > 0 {
            measure_of(m, Action::Transfer { token, from: contract, to, amount })
        } else {
            0
        }),
{
    reveal_with_fuel(total, 2);
    let single: Seq<ActionView> = seq![Action::Transfer { token, from: contract, to, amount }];
    assert(single.drop_last() =~= Seq::empty());
}

/// The sum over what `fund` pulls in.
pub(crate) broadcast proof fn lemma_total_collections(m: Measure, s: EnvView, order: OrderView)
    ensures
        #[trigger] total(m, collections(s, order)) == measure_of(
            m,
            Action::TransferFrom {
                token: s.instance.token,
                spender: s.contract_address,
                from: order.customer,
                to: s.contract_address,
                amount: order.delivery_fee,
            },
        ) + (if order.rider_bond > 0 {
            measure_of(
                m,
                Action::TransferFrom {
                    token: s.instance.token,
                    spender: s.contract_address,
                    from: order.rider,
                    to: s.contract_address,
                    amount: order.rider_bond,
                },
            )
        } else {
            0
        }),
{
    reveal_with_fuel(total, 3);
    let c = collections(s, order);
    assert(c.len() == 1 ==> c.drop_last() =~= Seq::empty());
    assert(c.len() == 2 ==> c.drop_last().drop_last() =~= Seq::empty());
}

pub(crate) broadcast group group_totals {
    lemma_total_push,
    lemma_total_add,
    lemma_total_payment,
    lemma_total_collections,
}

/// Storing a record changes what is held by the change of its own pot.
proof fn lemma_held_insert(orders: Map<u64, OrderView>, id: u64, order: OrderView, n: nat)
    requires
        n <= u64::MAX + 1,
    ensures
        held(orders.insert(id, order), n) == held(orders, n) + (if id < n {
            held_for(orders.insert(id, order), id) - held_for(orders, id)
        } else {
            0
        }),
    decreases n,
{
    if n > 0 {
        lemma_held_insert(orders, id, order, (n - 1) as nat);
    }
}

// ---------------------------------------------------------------------------
// What a call changes
// ---------------------------------------------------------------------------
/// A call stores at most one order record; it adds to the lists and raises the
/// counter only when it creates an order; it never takes back an operation;
/// and it changes neither the contract's address nor the stored addresses.
pub proof fn law_call_changes_one_order(s: EnvView, call: Call)
    ensures
        step(s, call).orders == (match stored_by(s, call) {
            Some(order) => s.orders.insert(order.order_id, order),
            None => s.orders,
        }),
        step(s, call).contract_address == s.contract_address,
        step(s, call).instance.admin == s.instance.admin,
        step(s, call).instance.token == s.instance.token,
        step(s, call).instance.platform_fee_wallet == s.instance.platform_fee_wallet,
        !(call is CreateOrder) || refusal(s, call) is Some ==> step(s, call).instance == s.instance
            && step(s, call).indexes == s.indexes,
        !(call is SetTimestamp) ==> step(s, call).timestamp == s.timestamp,
        s.actions.is_prefix_of(step(s, call).actions),
{
}

/// A refused call changes nothing; where the refusal comes after the caller had
/// to authorise, that request is all that it leaves behind.
pub proof fn law_refused_call_changes_nothing(s: EnvView, call: Call)
    requires
        refusal(s, call) is Some,
    ensures
        step(s, call) == s || (signers(s, call).len() == 1 && step(s, call) == s.authorised(
            signers(s, call)[0],
        )),
{
}

/// An accepted call first makes exactly its signers authorise it, then asks for
/// its transfers, and then writes down the outcome.
#[verifier::rlimit(30)]
pub proof fn law_authorise_then_transfer_then_record(s: EnvView, call: Call)
    requires
        refusal(s, call) is None,
    ensures
        step(s, call).actions == s.actions + authorisations(signers(s, call)) + transfers(s, call)
            + records(s, call),
        added(s, call) == authorisations(signers(s, call)) + transfers(s, call) + records(s, call),
{
    lemma_signatures(s, call);
    let signed = s.actions + authorisations(signers(s, call));
    let moved = signed + transfers(s, call);
    match call {
        Call::CreateOrder { terms } => {
            lemma_create_records(s, terms);
        },
        Call::Upgrade { .. } => {
            let r = records(s, call);
            assert(moved =~= signed);
            assert(moved.push(r[0]).push(r[1]) =~= moved + r);
        },
        Call::SetTimestamp { .. } => {
            assert(moved + records(s, call) =~= s.actions);
        },
        _ => {
            let r = records(s, call);
            assert(r =~= seq![r[0], r[1], r[2], r[3]]);
            lemma_push_four(moved, r[0], r[1], r[2], r[3]);
            lemma_transfers(s, call);
        },
    }
    assert(added(s, call) =~= authorisations(signers(s, call)) + transfers(s, call) + records(
        s,
        call,
    ));
}

/// Where an operation that an accepted call adds comes from.
pub(crate) proof fn lemma_added_at(s: EnvView, call: Call, i: int)
    requires
        refusal(s, call) is None,
        0 <= i < added(s, call).len(),
    ensures
        ({
            let auths = authorisations(signers(s, call));
            let moves = transfers(s, call);
            let a = added(s, call)[i];
            &&& added(s, call).len() == auths.len() + moves.len() + records(s, call).len()
            &&& i < auths.len() ==> a is RequireAuth
            &&& auths.len() <= i < auths.len() + moves.len() ==> {
                &&& a == moves[i - auths.len()]
                &&& a is TransferFrom || a is Transfer
            }
            &&& auths.len() + moves.len() <= i ==> a == records(s, call)[i - auths.len()
                - moves.len()]
        }),
{
    law_authorise_then_transfer_then_record(s, call);
    let auths = authorisations(signers(s, call));
    let moves = transfers(s, call);
    if i < auths.len() {
        assert(added(s, call)[i] == auths[i]);
    } else if i < auths.len() + moves.len() {
        assert(added(s, call)[i] == moves[i - auths.len()]);
        lemma_transfers_are_transfers(s, call, i - auths.len());
    } else {
        assert(added(s, call)[i] == records(s, call)[i - auths.len() - moves.len()]);
    }
}

proof fn lemma_transfers_are_transfers(s: EnvView, call: Call, i: int)
    requires
        0 <= i < transfers(s, call).len(),
    ensures
        transfers(s, call)[i] is TransferFrom || transfers(s, call)[i] is Transfer,
{
}

/// Appending one by one is appending a list.
proof fn lemma_push_four(
    base: Seq<ActionView>,
    a: ActionView,
    b: ActionView,
    c: ActionView,
    d: ActionView,
)
    ensures
        base.push(a).push(b).push(c).push(d) == base + seq![a, b, c, d],
{
    assert(base.push(a).push(b).push(c).push(d) =~= base + seq![a, b, c, d]);
}

/// The requests for authorisation, appended one by one.
proof fn lemma_signatures(s: EnvView, call: Call)
    ensures
        signers(s, call).len() <= 2,
        signers(s, call).len() == 0 ==> s.actions + authorisations(signers(s, call)) == s.actions,
        signers(s, call).len() == 1 ==> s.actions + authorisations(signers(s, call))
            == s.authorised(signers(s, call)[0]).actions,
        signers(s, call).len() == 2 ==> s.actions + authorisations(signers(s, call))
            == s.authorised(signers(s, call)[0]).authorised(signers(s, call)[1]).actions,
{
    let signed = s.actions + authorisations(signers(s, call));
    if signers(s, call).len() == 0 {
        assert(signed =~= s.actions);
    } else if signers(s, call).len() == 1 {
        assert(signed =~= s.authorised(signers(s, call)[0]).actions);
    } else {
        assert(signed =~= s.authorised(signers(s, call)[0]).authorised(signers(s, call)[1]).actions);
    }
}

/// The transfers of a call that works on a stored order.
#[verifier::rlimit(30)]
proof fn lemma_transfers(s: EnvView, call: Call)
    requires
        refusal(s, call) is None,
        stored_by(s, call) is Some,
        !(call is CreateOrder),
    ensures
        ({
            let moved = s.actions + authorisations(signers(s, call)) + transfers(s, call);
            let r = records(s, call);
            step(s, call).actions == moved.push(r[0]).push(r[1]).push(r[2]).push(r[3])
        }),
{
    lemma_signatures(s, call);
    let signed = s.actions + authorisations(signers(s, call));
    match call {
        Call::Fund { order_id } => {
            assert(collections(s, fund_answer(s, order_id)->Ok_0) =~= collections(
                s,
                s.orders[order_id],
            ));
        },
        Call::MarkDelivered { .. } => {
            assert(signed + transfers(s, call) =~= signed);
        },
        Call::Dispute { .. } => {
            assert(signed + transfers(s, call) =~= signed);
        },
        _ => {},
    }
}

/// What the creation of an order writes down.
#[verifier::rlimit(30)]
proof fn lemma_create_records(s: EnvView, terms: Terms)
    requires
        terms_refusal(terms) is None,
    ensures
        ({
            let call = Call::CreateOrder { terms };
            step(s, call).actions == s.actions + authorisations(signers(s, call)) + transfers(
                s,
                call,
            ) + records(s, call)
        }),
{
    let call = Call::CreateOrder { terms };
    let r = records(s, call);
    lemma_signatures(s, call);
    let signed = s.actions + authorisations(signers(s, call));
    assert(signed + transfers(s, call) =~= signed);
    assert(signed + r =~= signed.push(r[0]).push(r[1]).push(r[2]).push(r[3]).push(r[4]).push(
        r[5],
    ).push(r[6]).push(r[7]).push(r[8]));
    let order = opened(s, terms);
    let numbered = s.authorised(terms.customer).numbered().saved(order);
    let listed = numbered.indexed(
        DataKey::CustomerOrders(terms.customer),
        order.order_id,
        order.life_secs(),
    );
    assert(numbered.index(DataKey::CustomerOrders(terms.customer)) == s.index(
        DataKey::CustomerOrders(terms.customer),
    ));
    assert(listed.index(DataKey::RiderOrders(terms.rider)) == s.index(
        DataKey::RiderOrders(terms.rider),
    ));
}

/// The lifecycle: an order never disappears, its terms never change, and a call
/// either leaves its record alone or moves it one step along the lifecycle.
pub proof fn law_call_follows_lifecycle(s: EnvView, call: Call, order_id: u64)
    requires
        orders_fit(s),
        s.orders.contains_key(order_id),
    ensures
        step(s, call).orders.contains_key(order_id),
        step(s, call).orders[order_id].same_terms(s.orders[order_id]),
        step(s, call).orders[order_id] == s.orders[order_id] || lifecycle_edge(
            s.orders[order_id].status,
            step(s, call).orders[order_id].status,
        ),
{
    law_call_changes_one_order(s, call);
}

// ---------------------------------------------------------------------------
// Consistency
// ---------------------------------------------------------------------------
proof fn lemma_orders_stay_fit(s: EnvView, call: Call)
    requires
        orders_fit(s),
        admissible(s, call),
    ensures
        orders_fit(step(s, call)),
{
    law_call_changes_one_order(s, call);
    let t = step(s, call);
    assert forall|id: u64| #[trigger] t.orders.contains_key(id) implies order_fits(t, id) by {
        if s.orders.contains_key(id) {
            assert(order_fits(s, id));
        }
    }
}

/// A list with an id added at the end names what it named, and that id.
proof fn lemma_push_contains(ids: Seq<u64>, added_id: u64, id: u64)
    ensures
        ids.push(added_id).contains(id) <==> ids.contains(id) || id == added_id,
{
    if ids.contains(id) {
        let i = choose|i: int| 0 <= i < ids.len() && ids[i] == id;
        assert(ids.push(added_id)[i] == id);
    }
    if id == added_id {
        assert(ids.push(added_id)[ids.len() as int] == id);
    }
}

proof fn lemma_lists_stay_fit(s: EnvView, call: Call)
    requires
        orders_fit(s),
        lists_fit(s),
        admissible(s, call),
    ensures
        lists_fit(step(s, call)),
{
    law_call_changes_one_order(s, call);
    let t = step(s, call);
    if call is CreateOrder && refusal(s, call) is None {
        let terms = call->CreateOrder_terms;
        lemma_lists_take_new_order(s, terms);
    } else {
        assert forall|key: DataKey| #[trigger] t.index(key) == s.index(key) by {}
        assert forall|id: u64| #[trigger] t.orders.contains_key(id) <==> s.orders.contains_key(
            id,
        ) by {
            if s.orders.contains_key(id) {
                assert(order_fits(s, id));
            }
        }
        assert forall|id: u64| #[trigger] s.orders.contains_key(id) implies t.orders[id].customer
            == s.orders[id].customer && t.orders[id].rider == s.orders[id].rider by {
            law_call_follows_lifecycle(s, call, id);
        }
    }
}

proof fn lemma_lists_take_new_order(s: EnvView, terms: Terms)
    requires
        orders_fit(s),
        lists_fit(s),
        terms_refusal(terms) is None,
    ensures
        lists_fit(after_create(s, terms)),
{
    let t = after_create(s, terms);
    let order = opened(s, terms);
    let n = s.next_id();
    assert(t.orders =~= s.orders.insert(n, order));
    assert(!s.orders.contains_key(n)) by {
        if s.orders.contains_key(n) {
            assert(order_fits(s, n));
        }
    }
    assert forall|key: DataKey| #[trigger] t.index(key) == (if key == DataKey::CustomerOrders(
        terms.customer,
    ) || key == DataKey::RiderOrders(terms.rider) {
        s.index(key).push(n)
    } else {
        s.index(key)
    }) by {}
    assert forall|who: Address, id: u64|
        #[trigger] t.index(DataKey::CustomerOrders(who)).contains(id) <==> (t.orders.contains_key(
            id,
        ) && t.orders[id].customer == who) by {
        lemma_push_contains(s.index(DataKey::CustomerOrders(who)), n, id);
        assert(s.index(DataKey::CustomerOrders(who)).contains(id) <==> (s.orders.contains_key(id)
            && s.orders[id].customer == who));
    }
    assert forall|who: Address, id: u64|
        #[trigger] t.index(DataKey::RiderOrders(who)).contains(id) <==> (t.orders.contains_key(id)
            && t.orders[id].rider == who) by {
        lemma_push_contains(s.index(DataKey::RiderOrders(who)), n, id);
        assert(s.index(DataKey::RiderOrders(who)).contains(id) <==> (s.orders.contains_key(id)
            && s.orders[id].rider == who));
    }
    assert forall|key: DataKey, i: int, j: int|
        #![trigger t.index(key)[i], t.index(key)[j]]
        0 <= i < j < t.index(key).len() implies t.index(key)[i] < t.index(key)[j] by {
        if key == DataKey::CustomerOrders(terms.customer) || key == DataKey::RiderOrders(
            terms.rider,
        ) {
            let ids = s.index(key);
            assert(t.index(key) == ids.push(n));
            if j == ids.len() {
                assert(ids.contains(ids[i]));
                assert(s.orders.contains_key(ids[i]));
                assert(order_fits(s, ids[i]));
            } else {
                assert(ids[i] < ids[j]);
            }
        } else {
            assert(t.index(key) == s.index(key));
        }
    }
}

/// The standard payout divides exactly the pot: nothing goes to the customer,
/// nothing is forfeited, and the platform gets its share of the fee, which is
/// at most half of it. It is a ruling that would be accepted too.
pub proof fn law_standard_payout_divides_the_pot(order: OrderView)
    requires
        order.valid_terms(),
        standard_division(order) is Ok,
    ensures
        ({
            let a = standard_division(order)->Ok_0;
            &&& a.non_negative()
            &&& a.total() == order.pot()
            &&& a.to_customer == 0
            &&& a.forfeit == 0
            &&& a.to_platform == (order.delivery_fee * order.platform_fee_bps) / 10_000
            &&& 2 * a.to_platform <= order.delivery_fee
            &&& a.to_rider >= order.rider_bond
            &&& is_amount(order.pot()) ==> allocation_verdict(a, order.pot()) is Ok
        }),
{
    lemma_share(order.delivery_fee, order.platform_fee_bps);
}

/// The platform's share of an acceptable fee.
proof fn lemma_share(fee: i128, bps: u32)
    requires
        fee > 0,
        bps <= 5_000,
    ensures
        0 <= platform_share(fee, bps),
        2 * platform_share(fee, bps) <= fee,
        platform_share(fee, bps) <= fee * bps,
{
    assert(0 <= fee * bps <= fee * 5_000) by (nonlinear_arith)
        requires
            fee > 0,
            bps <= 5_000,
    ;
}

/// Requests for authorisation and records move no money.
proof fn lemma_records_are_no_transfers(s: EnvView, call: Call, i: int)
    requires
        0 <= i < records(s, call).len(),
    ensures
        !(records(s, call)[i] is TransferFrom),
        !(records(s, call)[i] is Transfer),
        !(records(s, call)[i] is RequireAuth),
{
}

/// The sum over requests for authorisation.
proof fn lemma_total_authorisations(m: Measure, addresses: Seq<Address>)
    ensures
        total(m, authorisations(addresses)) == 0,
    decreases addresses.len(),
{
    if addresses.len() > 0 {
        assert(authorisations(addresses).drop_last() =~= authorisations(addresses.drop_last()));
        lemma_total_authorisations(m, addresses.drop_last());
    }
}

/// What an accepted call forfeits.
pub open spec fn forfeit_of(m: Measure, call: Call) -> int {
    match (m, call) {
        (Measure::Forfeited, Call::ResolveDispute { allocation, .. }) => allocation.forfeit as int,
        _ => 0,
    }
}

/// The sum over what an accepted call writes down.
proof fn lemma_total_records(m: Measure, s: EnvView, call: Call)
    requires
        refusal(s, call) is None,
    ensures
        total(m, records(s, call)) == forfeit_of(m, call),
{
    broadcast use lemma_total_push;

    let r = records(s, call);
    match call {
        Call::CreateOrder { terms } => {
            assert(r =~= Seq::empty().push(r[0]).push(r[1]).push(r[2]).push(r[3]).push(r[4]).push(
                r[5],
            ).push(r[6]).push(r[7]).push(r[8]));
        },
        Call::Upgrade { .. } => {
            assert(r =~= Seq::empty().push(r[0]).push(r[1]));
        },
        Call::SetTimestamp { .. } => {},
        _ => {
            assert(r =~= Seq::empty().push(r[0]).push(r[1]).push(r[2]).push(r[3]));
        },
    }
}

/// The sum over what an accepted call adds is that over its transfers, and what
/// it forfeits.
pub(crate) proof fn lemma_total_call(m: Measure, s: EnvView, call: Call)
    requires
        refusal(s, call) is None,
    ensures
        total(m, added(s, call)) == total(m, transfers(s, call)) + forfeit_of(m, call),
        total(m, step(s, call).actions) == total(m, s.actions) + total(m, added(s, call)),
{
    law_authorise_then_transfer_then_record(s, call);
    let auths = authorisations(signers(s, call));
    lemma_total_authorisations(m, signers(s, call));
    lemma_total_records(m, s, call);
    lemma_total_add(m, s.actions, auths);
    lemma_total_add(m, s.actions + auths, transfers(s, call));
    lemma_total_add(m, s.actions + auths + transfers(s, call), records(s, call));
    lemma_total_add(m, auths, transfers(s, call));
    lemma_total_add(m, auths + transfers(s, call), records(s, call));
}

/// A refused call moves nothing.
pub(crate) proof fn lemma_total_refused(m: Measure, s: EnvView, call: Call)
    requires
        refusal(s, call) is Some,
    ensures
        total(m, step(s, call).actions) == total(m, s.actions),
{
    broadcast use lemma_total_push;

    law_refused_call_changes_nothing(s, call);
}

/// The sum over the payments that hand out a pot.
pub(crate) proof fn lemma_total_payments(m: Measure, s: EnvView, order_id: u64, a: Allocation)
    requires
        a.non_negative(),
    ensures
        m is PaidOut ==> total(m, payments_for(s, order_id, a)) == a.to_customer + a.to_rider
            + a.to_platform,
        m is Pulled ==> total(m, payments_for(s, order_id, a)) == 0,
        m is Forfeited ==> total(m, payments_for(s, order_id, a)) == 0,
        m matches Measure::Gained { who } ==> total(m, payments_for(s, order_id, a)) == amount_if(
            s.orders[order_id].customer == who,
            a.to_customer,
        ) + amount_if(s.orders[order_id].rider == who, a.to_rider) + amount_if(
            s.instance.platform_fee_wallet == who,
            a.to_platform,
        ) - (if s.contract_address == who {
            a.to_customer + a.to_rider + a.to_platform
        } else {
            0
        }),
{
    broadcast use {lemma_total_add, lemma_total_payment};

}

/// The sums over the transfers of a call, for the balance of the books.
#[verifier::rlimit(30)]
proof fn lemma_transfers_balance(s: EnvView, call: Call)
    requires
        refusal(s, call) is None,
        orders_fit(s),
        stored_by(s, call) is Some,
    ensures
        ({
            let order = stored_by(s, call)->0;
            total(Measure::Pulled, transfers(s, call)) == total(
                Measure::PaidOut,
                transfers(s, call),
            ) + (if order.in_escrow() {
                order.pot()
            } else {
                0
            }) - held_for(s.orders, order.order_id) + forfeit_of(Measure::Forfeited, call)
        }),
        total(Measure::Forfeited, transfers(s, call)) == 0,
{
    broadcast use group_totals;

    let order = stored_by(s, call)->0;
    if call is CreateOrder {
        assert(!s.orders.contains_key(order.order_id)) by {
            if s.orders.contains_key(order.order_id) {
                assert(order_fits(s, order.order_id));
            }
        }
    } else {
        lemma_works_on_stored_order(s, call);
        let stored = s.orders[order.order_id];
        assert(order_fits(s, order.order_id));
        match call {
            Call::ConfirmDelivery { customer, order_id } => {
                let a = confirm_answer(s, customer, order_id)->Ok_0;
                law_standard_payout_divides_the_pot(stored);
                lemma_total_payments(Measure::Pulled, s, order_id, a);
                lemma_total_payments(Measure::PaidOut, s, order_id, a);
                lemma_total_payments(Measure::Forfeited, s, order_id, a);
            },
            Call::ClaimAfterTimeout { rider, order_id } => {
                let a = claim_answer(s, rider, order_id)->Ok_0;
                law_standard_payout_divides_the_pot(stored);
                lemma_total_payments(Measure::Pulled, s, order_id, a);
                lemma_total_payments(Measure::PaidOut, s, order_id, a);
                lemma_total_payments(Measure::Forfeited, s, order_id, a);
            },
            Call::ResolveDispute { order_id, allocation, .. } => {
                lemma_total_payments(Measure::Pulled, s, order_id, allocation);
                lemma_total_payments(Measure::PaidOut, s, order_id, allocation);
                lemma_total_payments(Measure::Forfeited, s, order_id, allocation);
            },
            _ => {},
        }
    }
}

proof fn lemma_books_stay_balanced(s: EnvView, call: Call)
    requires
        orders_fit(s),
        books_balance(s),
        admissible(s, call),
    ensures
        books_balance(step(s, call)),
{
    law_call_changes_one_order(s, call);
    let n = s.next_id() as nat;
    if refusal(s, call) is Some {
        lemma_total_refused(Measure::Pulled, s, call);
        lemma_total_refused(Measure::PaidOut, s, call);
        lemma_total_refused(Measure::Forfeited, s, call);
    } else {
        lemma_total_call(Measure::Pulled, s, call);
        lemma_total_call(Measure::PaidOut, s, call);
        lemma_total_call(Measure::Forfeited, s, call);
        match stored_by(s, call) {
            Some(order) => {
                lemma_transfers_balance(s, call);
                lemma_held_insert(s.orders, order.order_id, order, n);
                if call is CreateOrder {
                    assert(step(s, call).next_id() == n + 1);
                } else {
                    lemma_works_on_stored_order(s, call);
                    assert(order_fits(s, order.order_id));
                }
            },
            None => {
                assert(transfers(s, call) == Seq::<ActionView>::empty());
            },
        }
    }
}

/// An accepted call that is no creation works on the order that it names.
pub(crate) proof fn lemma_works_on_stored_order(s: EnvView, call: Call)
    requires
        orders_fit(s),
        stored_by(s, call) is Some,
        !(call is CreateOrder),
    ensures
        s.orders.contains_key(stored_by(s, call)->0.order_id),
        stored_by(s, call)->0.same_terms(s.orders[stored_by(s, call)->0.order_id]),
{
    let id = named_order(call)->0;
    assert(s.orders.contains_key(id));
    assert(order_fits(s, id));
}

/// A party to an order stays one.
proof fn lemma_parties_stay(s: EnvView, call: Call, who: Address)
    requires
        orders_fit(s),
        is_party(s.orders, who),
    ensures
        is_party(step(s, call).orders, who),
{
    let id = choose|id: u64| #[trigger]
        s.orders.contains_key(id) && (s.orders[id].customer == who || s.orders[id].rider == who);
    law_call_follows_lifecycle(s, call, id);
}

proof fn lemma_money_stays_directed(s: EnvView, call: Call)
    requires
        orders_fit(s),
        money_well_directed(s),
        admissible(s, call),
    ensures
        money_well_directed(step(s, call)),
{
    law_call_changes_one_order(s, call);
    let t = step(s, call);
    assert forall|i: int| 0 <= i < t.actions.len() implies well_directed(
        t,
        #[trigger] t.actions[i],
    ) by {
        if i < s.actions.len() {
            assert(t.actions[i] == s.actions[i]);
            assert(well_directed(s, s.actions[i]));
            match s.actions[i] {
                Action::TransferFrom { from, .. } => {
                    lemma_parties_stay(s, call, from);
                },
                Action::Transfer { to, .. } => {
                    if is_party(s.orders, to) {
                        lemma_parties_stay(s, call, to);
                    }
                },
                _ => {},
            }
        } else {
            lemma_added_money_directed(s, call, i);
        }
    }
}

#[verifier::rlimit(30)]
proof fn lemma_added_money_directed(s: EnvView, call: Call, i: int)
    requires
        orders_fit(s),
        s.actions.len() <= i < step(s, call).actions.len(),
    ensures
        well_directed(step(s, call), step(s, call).actions[i]),
{
    law_call_changes_one_order(s, call);
    let t = step(s, call);
    if refusal(s, call) is Some {
        law_refused_call_changes_nothing(s, call);
    } else {
        let before = authorisations(signers(s, call)).len();
        let at = i - s.actions.len();
        assert(t.actions[i] == added(s, call)[at]);
        lemma_added_at(s, call, at);
        if before <= at < before + transfers(s, call).len() {
            lemma_transfers_directed(s, call, at - before);
        } else if before + transfers(s, call).len() <= at {
            lemma_records_are_no_transfers(s, call, at - before - transfers(s, call).len());
        }
    }
}

#[verifier::rlimit(30)]
proof fn lemma_transfers_directed(s: EnvView, call: Call, i: int)
    requires
        orders_fit(s),
        refusal(s, call) is None,
        0 <= i < transfers(s, call).len(),
    ensures
        well_directed(step(s, call), transfers(s, call)[i]),
{
    law_call_changes_one_order(s, call);
    lemma_works_on_stored_order(s, call);
    let t = step(s, call);
    let order = stored_by(s, call)->0;
    assert(order_fits(s, order.order_id));
    assert(t.orders.contains_key(order.order_id));
    assert(is_party(t.orders, order.customer));
    assert(is_party(t.orders, order.rider));
}

/// A freshly deployed escrow is consistent.
pub proof fn law_deployment_is_consistent(
    contract_address: Address,
    timestamp: u64,
    admin: Address,
    token: Address,
    platform_fee_wallet: Address,
)
    ensures
        consistent(deployed(contract_address, timestamp, admin, token, platform_fee_wallet)),
{
    broadcast use group_totals;

    let s = deployed(contract_address, timestamp, admin, token, platform_fee_wallet);
    assert forall|key: DataKey| #[trigger] s.index(key) == Seq::<u64>::empty() by {}
    let d = s.actions;
    assert(d =~= Seq::empty().push(d[0]).push(d[1]).push(d[2]).push(d[3]).push(d[4]));
    assert(books_balance(s));
}

/// Every call keeps the ledger consistent: ids, terms and times of the orders
/// fit together, each party's list names exactly the party's orders, what was
/// pulled into escrow was paid out or is held for an order or was forfeited, and
/// money only moves between the contract and its parties or the platform.
pub proof fn law_call_keeps_ledger_consistent(s: EnvView, call: Call)
    requires
        consistent(s),
        admissible(s, call),
    ensures
        consistent(step(s, call)),
{
    lemma_orders_stay_fit(s, call);
    lemma_lists_stay_fit(s, call);
    lemma_books_stay_balanced(s, call);
    lemma_money_stays_directed(s, call);
}

/// Every sequence of calls keeps the ledger consistent.
pub proof fn law_history_keeps_ledger_consistent(s: EnvView, calls: Seq<Call>)
    requires
        consistent(s),
        all_admissible(s, calls),
    ensures
        consistent(run(s, calls)),
    decreases calls.len(),
{
    if calls.len() > 0 {
        law_history_keeps_ledger_consistent(s, calls.drop_last());
        law_call_keeps_ledger_consistent(run(s, calls.drop_last()), calls.last());
    }
}

/// Over every sequence of calls an order keeps its terms, and an order that was
/// released, resolved or cancelled stays exactly as it is.
pub proof fn law_history_keeps_orders(s: EnvView, calls: Seq<Call>, order_id: u64)
    requires
        consistent(s),
        all_admissible(s, calls),
        s.orders.contains_key(order_id),
    ensures
        run(s, calls).orders.contains_key(order_id),
        run(s, calls).orders[order_id].same_terms(s.orders[order_id]),
        terminal(s.orders[order_id].status) ==> run(s, calls).orders[order_id]
            == s.orders[order_id],
    decreases calls.len(),
{
    if calls.len() > 0 {
        law_history_keeps_orders(s, calls.drop_last(), order_id);
        law_history_keeps_ledger_consistent(s, calls.drop_last());
        law_call_follows_lifecycle(run(s, calls.drop_last()), calls.last(), order_id);
    }
}

} // verus!
