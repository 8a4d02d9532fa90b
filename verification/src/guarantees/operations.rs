//! What each operation does, on the values that it is given and the values that
//! it leaves: amounts, times, statuses, lists, and the operations it asks of the
//! host. Nothing here rests on how an answer is computed: every statement is in
//! plain fields and numbers.
use vstd::prelude::*;

use crate::actions::{ActionView, Event};
use crate::contract::deployed;
use crate::env::EnvView;
use crate::history::{added, amount_if, total, Call, Measure};
use crate::laws::{lemma_total_call, lemma_total_payments};
use crate::model::{
    after_cancel, after_claim, after_confirm, after_create, after_dispute, after_fund,
    after_mark_delivered, after_resolve, after_upgrade, cancel_answer, claim_answer,
    confirm_answer, create_answer, dispute_answer, fund_answer, get_answer, has_room,
    mark_delivered_answer, released, resolve_answer, terms_refusal, timeout_claimable, Terms,
};
use crate::rules::{allocation_verdict, standard_division, ttl_ledgers};
use crate::types::{Address, Allocation, ContractError, DataKey, OrderStatus, OrderView};

verus! {

// ---------------------------------------------------------------------------
// Words used below
// ---------------------------------------------------------------------------
/// From `s` to `t` nothing is different but the record of `order`, which is
/// stored under its own id, and what was asked of the host.
pub open spec fn only_order_written(s: EnvView, t: EnvView, order: OrderView) -> bool {
    &&& t.contract_address == s.contract_address
    &&& t.timestamp == s.timestamp
    &&& t.instance == s.instance
    &&& t.indexes == s.indexes
    &&& t.orders.contains_key(order.order_id)
    &&& t.orders[order.order_id] == order
    &&& t.orders.dom() == s.orders.dom().insert(order.order_id)
    &&& forall|id: u64| #[trigger]
        s.orders.contains_key(id) && id != order.order_id ==> t.orders[id] == s.orders[id]
}

/// From `s` to `t` nothing is different but one request for authorisation.
pub open spec fn only_asked_to_sign(s: EnvView, t: EnvView, who: Address) -> bool {
    &&& t.contract_address == s.contract_address
    &&& t.timestamp == s.timestamp
    &&& t.instance == s.instance
    &&& t.indexes == s.indexes
    &&& t.orders == s.orders
    &&& t.actions == s.actions.push(ActionView::RequireAuth { address: who })
}

/// The end of every accepted call on an order: the record is written and kept
/// alive, the instance entry is kept alive for some thirty days, and the event
/// goes out.
pub open spec fn written_down(order: OrderView, event: Event<OrderView>) -> Seq<ActionView> {
    seq![
        ActionView::SetOrder { order },
        ActionView::ExtendPersistentTtl {
            key: DataKey::Order(order.order_id),
            threshold: 17_280,
            extend_to: ttl_ledgers(order.life_secs()),
        },
        ActionView::ExtendInstanceTtl { threshold: 17_280, extend_to: 518_400 },
        ActionView::Publish { event },
    ]
}

/// The same ledger at another time.
pub open spec fn at_time(s: EnvView, timestamp: u64) -> EnvView {
    EnvView { timestamp, ..s }
}

/// The ids listed under `key`.
pub open spec fn listed(s: EnvView, key: DataKey) -> Seq<u64> {
    if s.indexes.contains_key(key) {
        s.indexes[key]
    } else {
        Seq::empty()
    }
}

// ---------------------------------------------------------------------------
// Deployment and lookup
// ---------------------------------------------------------------------------
/// Deployment stores the three addresses as given and a counter of zero; there
/// is no order and no list.
pub proof fn law_deployment_stores_its_arguments(
    contract_address: Address,
    timestamp: u64,
    admin: Address,
    token: Address,
    platform_fee_wallet: Address,
)
    ensures
        ({
            let s = deployed(contract_address, timestamp, admin, token, platform_fee_wallet);
            &&& s.contract_address == contract_address
            &&& s.timestamp == timestamp
            &&& s.instance.admin == admin
            &&& s.instance.token == token
            &&& s.instance.platform_fee_wallet == platform_fee_wallet
            &&& s.instance.next_order_id == Some(0u64)
            &&& forall|id: u64| !(#[trigger] s.orders.contains_key(id))
            &&& forall|key: DataKey| !(#[trigger] s.indexes.contains_key(key))
            &&& s.actions == seq![
                ActionView::SetAddress { key: DataKey::Admin, address: admin },
                ActionView::SetAddress { key: DataKey::Token, address: token },
                ActionView::SetAddress {
                    key: DataKey::PlatformFeeWallet,
                    address: platform_fee_wallet,
                },
                ActionView::SetNextOrderId { next_order_id: 0 },
                ActionView::ExtendInstanceTtl { threshold: 17_280, extend_to: 518_400 },
            ]
        }),
{
}

/// A lookup gives the stored record under that id, and nothing else; a list is
/// read as it is stored, and is empty where none is stored.
pub proof fn law_lookup_gives_what_is_stored(s: EnvView, order_id: u64, key: DataKey)
    ensures
        s.orders.contains_key(order_id) ==> get_answer(s, order_id) == Ok::<
            OrderView,
            ContractError,
        >(s.orders[order_id]),
        !s.orders.contains_key(order_id) ==> get_answer(s, order_id) == Err::<
            OrderView,
            ContractError,
        >(ContractError::OrderNotFound),
        s.indexes.contains_key(key) ==> s.index(key) == s.indexes[key],
        !s.indexes.contains_key(key) ==> s.index(key).len() == 0,
{
}

// ---------------------------------------------------------------------------
// Creation
// ---------------------------------------------------------------------------
/// Terms are accepted exactly if the fee is positive, the bond not negative, the
/// platform fee at most half, the windows positive and at most a week and two
/// weeks, and the parties distinct. The first of these that fails decides the
/// refusal, and a refused creation changes nothing.
pub proof fn law_creation_accepts_exactly_sound_terms(s: EnvView, t: Terms)
    ensures
        ({
            let fee = t.delivery_fee > 0;
            let bond = t.rider_bond >= 0;
            let bps = t.platform_fee_bps <= 5_000;
            let windows = 0 < t.confirmation_window_secs <= 604_800 && 0 < t.evidence_window_secs
                <= 1_209_600;
            let parties = t.customer != t.rider;
            let answer = create_answer(s, t);
            &&& answer is Ok <==> fee && bond && bps && windows && parties
            &&& answer is Ok <==> terms_refusal(t) is None
            &&& !fee ==> answer->Err_0 == ContractError::InvalidAmount
            &&& fee && !bond ==> answer->Err_0 == ContractError::InvalidBond
            &&& fee && bond && !bps ==> answer->Err_0 == ContractError::InvalidFeeBps
            &&& fee && bond && bps && !windows ==> answer->Err_0 == ContractError::InvalidWindow
            &&& fee && bond && bps && windows && !parties ==> answer->Err_0
                == ContractError::SelfDealNotAllowed
            &&& terms_refusal(t) matches Some(e) ==> answer->Err_0 == e
            &&& answer is Err ==> after_create(s, t) == s
        }),
{
}

/// A new order carries exactly the terms that were proposed. It is open, created
/// now, neither delivered nor disputed, and has the id that the counter shows.
pub proof fn law_new_order_carries_exactly_its_terms(s: EnvView, t: Terms)
    requires
        create_answer(s, t) is Ok,
    ensures
        ({
            let order = create_answer(s, t)->Ok_0;
            &&& order.customer == t.customer
            &&& order.rider == t.rider
            &&& order.delivery_fee == t.delivery_fee
            &&& order.rider_bond == t.rider_bond
            &&& order.platform_fee_bps == t.platform_fee_bps
            &&& order.confirmation_window_secs == t.confirmation_window_secs
            &&& order.evidence_window_secs == t.evidence_window_secs
            &&& order.metadata_uri == t.metadata_uri
            &&& order.status == OrderStatus::Open
            &&& order.created_at == s.timestamp
            &&& order.delivered_at == 0
            &&& order.disputed_at == 0
            &&& s.instance.next_order_id matches Some(id) ==> order.order_id == id
            &&& s.instance.next_order_id is None ==> order.order_id == 0
        }),
{
}

/// There is room for an order exactly if the counter can be raised and neither
/// party's list is full.
pub proof fn law_room_is_in_counter_and_lists(s: EnvView, t: Terms)
    ensures
        has_room(s, t) <==> {
            &&& s.instance.next_order_id != Some(u64::MAX)
            &&& listed(s, DataKey::CustomerOrders(t.customer)).len() < u32::MAX
            &&& listed(s, DataKey::RiderOrders(t.rider)).len() < u32::MAX
        },
{
}

/// An accepted creation stores the record that it returns, adds its id at the
/// end of the customer's and of the rider's list, raises the counter by one, and
/// leaves everything else alone. It asks the customer alone to sign, and moves
/// no money.
#[verifier::rlimit(30)]
pub proof fn law_creation_stores_and_lists_the_order(s: EnvView, t: Terms)
    requires
        create_answer(s, t) is Ok,
        s.instance.next_order_id != Some(u64::MAX),
    ensures
        ({
            let order = create_answer(s, t)->Ok_0;
            let id = order.order_id;
            let after = after_create(s, t);
            let of_customer = DataKey::CustomerOrders(t.customer);
            let of_rider = DataKey::RiderOrders(t.rider);
            &&& after.contract_address == s.contract_address
            &&& after.timestamp == s.timestamp
            &&& after.instance.admin == s.instance.admin
            &&& after.instance.token == s.instance.token
            &&& after.instance.platform_fee_wallet == s.instance.platform_fee_wallet
            &&& after.instance.next_order_id == Some((id + 1) as u64)
            &&& after.orders == s.orders.insert(id, order)
            &&& after.indexes == s.indexes.insert(of_customer, listed(s, of_customer).push(id)).insert(
                of_rider,
                listed(s, of_rider).push(id),
            )
            &&& after.actions == s.actions + seq![
                ActionView::RequireAuth { address: t.customer },
                ActionView::SetNextOrderId { next_order_id: (id + 1) as u64 },
                ActionView::SetOrder { order },
                ActionView::ExtendPersistentTtl {
                    key: DataKey::Order(id),
                    threshold: 17_280,
                    extend_to: ttl_ledgers(order.life_secs()),
                },
                ActionView::SetIndex { key: of_customer, ids: listed(s, of_customer).push(id) },
                ActionView::ExtendPersistentTtl {
                    key: of_customer,
                    threshold: 17_280,
                    extend_to: ttl_ledgers(order.life_secs()),
                },
                ActionView::SetIndex { key: of_rider, ids: listed(s, of_rider).push(id) },
                ActionView::ExtendPersistentTtl {
                    key: of_rider,
                    threshold: 17_280,
                    extend_to: ttl_ledgers(order.life_secs()),
                },
                ActionView::ExtendInstanceTtl { threshold: 17_280, extend_to: 518_400 },
                ActionView::Publish { event: Event::OrderCreated { order } },
            ]
        }),
{
}

/// What a creation proposes is what the funding of that order pulls: the
/// proposed fee from the proposed customer and the proposed bond from the
/// proposed rider, into the contract.
pub proof fn law_funding_pulls_what_was_proposed(s: EnvView, t: Terms, who: Address)
    requires
        create_answer(s, t) is Ok,
        s.instance.next_order_id != Some(u64::MAX),
    ensures
        ({
            let created = after_create(s, t);
            let fund = Call::Fund { order_id: create_answer(s, t)->Ok_0.order_id };
            &&& fund_answer(created, create_answer(s, t)->Ok_0.order_id) is Ok
            &&& total(Measure::Gained { who }, added(created, fund)) == (if who
                == s.contract_address {
                t.delivery_fee + t.rider_bond
            } else {
                0
            }) - amount_if(who == t.customer, t.delivery_fee) - amount_if(
                who == t.rider,
                t.rider_bond,
            )
        }),
{
    broadcast use crate::laws::group_totals;

    let created = after_create(s, t);
    let fund = Call::Fund { order_id: create_answer(s, t)->Ok_0.order_id };
    law_creation_stores_and_lists_the_order(s, t);
    lemma_total_call(Measure::Gained { who }, created, fund);
}

// ---------------------------------------------------------------------------
// Funding
// ---------------------------------------------------------------------------
/// An order can be funded exactly if it is open, at whatever time.
pub proof fn law_exactly_open_orders_can_be_funded(s: EnvView, order_id: u64)
    ensures
        fund_answer(s, order_id) is Ok <==> s.orders.contains_key(order_id)
            && s.orders[order_id].status == OrderStatus::Open,
        !s.orders.contains_key(order_id) ==> fund_answer(s, order_id)->Err_0
            == ContractError::OrderNotFound,
        s.orders.contains_key(order_id) && s.orders[order_id].status != OrderStatus::Open
            ==> fund_answer(s, order_id)->Err_0 == ContractError::NotInOpenState,
        fund_answer(s, order_id) is Err ==> after_fund(s, order_id) == s,
{
}

/// Funding changes the status alone. Both parties sign; the fee comes from the
/// customer, and the bond, if it is positive, from the rider.
#[verifier::rlimit(30)]
pub proof fn law_funding_pulls_fee_and_bond(s: EnvView, order_id: u64)
    requires
        fund_answer(s, order_id) is Ok,
    ensures
        ({
            let old_order = s.orders[order_id];
            let order = fund_answer(s, order_id)->Ok_0;
            let after = after_fund(s, order_id);
            &&& order.same_terms(old_order)
            &&& order.status == OrderStatus::Funded
            &&& order.delivered_at == old_order.delivered_at
            &&& order.disputed_at == old_order.disputed_at
            &&& only_order_written(s, after, order)
            &&& after.actions == s.actions + seq![
                ActionView::RequireAuth { address: old_order.customer },
                ActionView::RequireAuth { address: old_order.rider },
                ActionView::TransferFrom {
                    token: s.instance.token,
                    spender: s.contract_address,
                    from: old_order.customer,
                    to: s.contract_address,
                    amount: old_order.delivery_fee,
                },
            ] + (if old_order.rider_bond > 0 {
                seq![
                    ActionView::TransferFrom {
                        token: s.instance.token,
                        spender: s.contract_address,
                        from: old_order.rider,
                        to: s.contract_address,
                        amount: old_order.rider_bond,
                    },
                ]
            } else {
                Seq::<ActionView>::empty()
            }) + written_down(
                order,
                Event::OrderFunded {
                    order_id: old_order.order_id,
                    delivery_fee: old_order.delivery_fee,
                    rider_bond: old_order.rider_bond,
                },
            )
        }),
{
}

// ---------------------------------------------------------------------------
// Delivery
// ---------------------------------------------------------------------------
/// A delivery can be declared exactly by the rider of a funded order, at
/// whatever time.
pub proof fn law_exactly_the_rider_declares_the_delivery(s: EnvView, rider: Address, order_id: u64)
    ensures
        ({
            let known = s.orders.contains_key(order_id);
            let order = s.orders[order_id];
            let funded = known && order.status == OrderStatus::Funded;
            let answer = mark_delivered_answer(s, rider, order_id);
            &&& answer is Ok <==> funded && rider == order.rider
            &&& !known ==> answer->Err_0 == ContractError::OrderNotFound
            &&& known && !funded ==> answer->Err_0 == ContractError::NotInFundedState
            &&& funded && rider != order.rider ==> answer->Err_0 == ContractError::Unauthorized
            &&& answer is Err ==> after_mark_delivered(s, rider, order_id) == s
        }),
{
}

/// A declared delivery is dated with the ledger time of the call. Nothing else
/// of the record changes but the status, the rider alone signs, and no money
/// moves.
#[verifier::rlimit(30)]
pub proof fn law_delivery_is_dated_now(s: EnvView, rider: Address, order_id: u64)
    requires
        mark_delivered_answer(s, rider, order_id) is Ok,
    ensures
        ({
            let old_order = s.orders[order_id];
            let order = mark_delivered_answer(s, rider, order_id)->Ok_0;
            let after = after_mark_delivered(s, rider, order_id);
            &&& order.same_terms(old_order)
            &&& order.status == OrderStatus::Delivered
            &&& order.delivered_at == s.timestamp
            &&& order.disputed_at == old_order.disputed_at
            &&& only_order_written(s, after, order)
            &&& after.actions == s.actions + seq![
                ActionView::RequireAuth { address: rider },
            ] + written_down(
                order,
                Event::OrderDelivered {
                    order_id: old_order.order_id,
                    delivered_at: s.timestamp,
                },
            )
        }),
{
}

/// The confirmation window runs for its full length from the declaration of the
/// delivery. Until then either party can dispute and the rider's claim is
/// refused because the window is open; from then on a dispute is refused
/// because it is closed and the order is claimable.
pub proof fn law_confirmation_window_runs_in_full(
    s: EnvView,
    rider: Address,
    order_id: u64,
    caller: Address,
    later: u64,
)
    requires
        mark_delivered_answer(s, rider, order_id) is Ok,
        s.orders[order_id].order_id == order_id,
        caller == s.orders[order_id].customer || caller == s.orders[order_id].rider,
        s.timestamp + s.orders[order_id].confirmation_window_secs <= u64::MAX,
    ensures
        ({
            let delivered = at_time(after_mark_delivered(s, rider, order_id), later);
            let end = s.timestamp + s.orders[order_id].confirmation_window_secs;
            &&& later < end ==> {
                &&& dispute_answer(delivered, caller, order_id) is Ok
                &&& claim_answer(delivered, rider, order_id) == Err::<Allocation, ContractError>(
                    ContractError::ConfirmationWindowOpen,
                )
                &&& !timeout_claimable(delivered, order_id)
            }
            &&& later >= end ==> {
                &&& dispute_answer(delivered, caller, order_id) == Err::<OrderView, ContractError>(
                    ContractError::ConfirmationWindowClosed,
                )
                &&& claim_answer(delivered, rider, order_id) is Ok || claim_answer(
                    delivered,
                    rider,
                    order_id,
                )->Err_0 == ContractError::TimestampOverflow
                &&& timeout_claimable(delivered, order_id)
            }
        }),
{
}

// ---------------------------------------------------------------------------
// Release
// ---------------------------------------------------------------------------
/// The division of a pot on a regular release, for every order whatever its
/// amounts: the platform gets the basis points of the fee, rounded towards zero;
/// the rider gets the rest of the fee and the bond; the customer gets nothing
/// and nothing is forfeited. The only refusal is an overflow, and it comes
/// exactly when the product of fee and basis points, or the rider's share, is
/// no amount.
pub proof fn law_release_divides_fee_and_bond(order: OrderView)
    ensures
        ({
            let product = order.delivery_fee * order.platform_fee_bps;
            let cut = if product >= 0 {
                product / 10_000
            } else {
                -((-product) / 10_000)
            };
            let rest = order.delivery_fee - cut + order.rider_bond;
            let fits = i128::MIN <= product <= i128::MAX && i128::MIN <= rest <= i128::MAX;
            &&& fits ==> {
                &&& standard_division(order) is Ok
                &&& standard_division(order)->Ok_0.to_customer == 0
                &&& standard_division(order)->Ok_0.to_rider == rest
                &&& standard_division(order)->Ok_0.to_platform == cut
                &&& standard_division(order)->Ok_0.forfeit == 0
            }
            &&& !fits ==> standard_division(order) == Err::<Allocation, ContractError>(
                ContractError::TimestampOverflow,
            )
        }),
{
    let fee = order.delivery_fee;
    let bps = order.platform_fee_bps;
    assert(fee >= 0 ==> fee * bps >= 0) by (nonlinear_arith);
    assert(-fee * bps == -(fee * bps)) by (nonlinear_arith);
    assert(fee < 0 ==> fee * bps <= 0) by (nonlinear_arith);
    let product = fee * bps;
    let cut = if product >= 0 {
        product / 10_000
    } else {
        -((-product) / 10_000)
    };
    assert(i128::MIN <= product <= i128::MAX ==> i128::MIN <= cut <= i128::MAX);
}

/// `answer` is the division of the order's fee and bond between rider and
/// platform, or the refusal of amounts that overflow, and that only if they do.
pub open spec fn divided_or_overflow(
    order: OrderView,
    answer: Result<Allocation, ContractError>,
) -> bool {
    let product = order.delivery_fee * order.platform_fee_bps;
    let cut = if product >= 0 {
        product / 10_000
    } else {
        -((-product) / 10_000)
    };
    let rest = order.delivery_fee - cut + order.rider_bond;
    let fits = i128::MIN <= product <= i128::MAX && i128::MIN <= rest <= i128::MAX;
    match answer {
        Ok(a) => {
            &&& fits
            &&& a.to_platform == cut
            &&& a.to_rider == rest
            &&& a.to_customer == 0
            &&& a.forfeit == 0
        },
        Err(e) => !fits && e == ContractError::TimestampOverflow,
    }
}

/// A confirmation is answered exactly as follows, at whatever time: refused
/// where the order is unknown, not delivered, or another's; otherwise the fee
/// and the bond are divided: `fee * bps / 10000` to the platform, the rest of
/// the fee and the bond to the rider, and nothing to anyone else. Only amounts
/// that overflow are refused then.
pub proof fn law_confirmation_answers_with_the_division(
    s: EnvView,
    customer: Address,
    order_id: u64,
)
    ensures
        ({
            let known = s.orders.contains_key(order_id);
            let order = s.orders[order_id];
            let delivered = known && order.status == OrderStatus::Delivered;
            let answer = confirm_answer(s, customer, order_id);
            &&& !known ==> answer == Err::<Allocation, ContractError>(ContractError::OrderNotFound)
            &&& known && !delivered ==> answer == Err::<Allocation, ContractError>(
                ContractError::NotInDeliveredState,
            )
            &&& delivered && customer != order.customer ==> answer == Err::<
                Allocation,
                ContractError,
            >(ContractError::Unauthorized)
            &&& delivered && customer == order.customer ==> divided_or_overflow(order, answer)
            &&& !(delivered && customer == order.customer) ==> after_confirm(s, customer, order_id)
                == s
            &&& delivered && customer == order.customer && answer is Err ==> only_asked_to_sign(
                s,
                after_confirm(s, customer, order_id),
                customer,
            )
        }),
{
    law_release_divides_fee_and_bond(s.orders[order_id]);
}

/// A claim is answered exactly as follows: refused where the order is unknown,
/// not delivered, or another's; refused while the confirmation window is open;
/// otherwise answered as a confirmation is.
pub proof fn law_claim_answers_with_the_division(s: EnvView, rider: Address, order_id: u64)
    ensures
        ({
            let known = s.orders.contains_key(order_id);
            let order = s.orders[order_id];
            let delivered = known && order.status == OrderStatus::Delivered;
            let own = delivered && rider == order.rider;
            let end = order.delivered_at + order.confirmation_window_secs;
            let answer = claim_answer(s, rider, order_id);
            &&& !known ==> answer == Err::<Allocation, ContractError>(ContractError::OrderNotFound)
            &&& known && !delivered ==> answer == Err::<Allocation, ContractError>(
                ContractError::NotInDeliveredState,
            )
            &&& delivered && !own ==> answer == Err::<Allocation, ContractError>(
                ContractError::Unauthorized,
            )
            &&& own && end > u64::MAX ==> answer == Err::<Allocation, ContractError>(
                ContractError::TimestampOverflow,
            )
            &&& own && s.timestamp < end <= u64::MAX ==> answer == Err::<Allocation, ContractError>(
                ContractError::ConfirmationWindowOpen,
            )
            &&& own && end <= s.timestamp ==> {
                &&& divided_or_overflow(order, answer)
                &&& answer == confirm_answer(s, order.customer, order_id)
            }
            &&& !own ==> after_claim(s, rider, order_id) == s
            &&& own && answer is Err ==> only_asked_to_sign(
                s,
                after_claim(s, rider, order_id),
                rider,
            )
        }),
{
    law_release_divides_fee_and_bond(s.orders[order_id]);
}

/// An order is claimable exactly if it is delivered and its confirmation window
/// has run out.
pub proof fn law_claimable_means_delivered_and_run_out(s: EnvView, order_id: u64)
    ensures
        timeout_claimable(s, order_id) <==> {
            &&& s.orders.contains_key(order_id)
            &&& s.orders[order_id].status == OrderStatus::Delivered
            &&& s.timestamp >= s.orders[order_id].delivered_at
                + s.orders[order_id].confirmation_window_secs
        },
{
}

/// What a release of `old_order` with the shares `a` leaves behind: the signer
/// signs, the rider and the platform wallet are sent their shares where these
/// are positive, the status becomes released, and nothing else of the record
/// changes.
pub open spec fn release_done(
    s: EnvView,
    after: EnvView,
    old_order: OrderView,
    signer: Address,
    a: Allocation,
) -> bool {
    let order = after.orders[old_order.order_id];
    &&& order.same_terms(old_order)
    &&& order.status == OrderStatus::Released
    &&& order.delivered_at == old_order.delivered_at
    &&& order.disputed_at == old_order.disputed_at
    &&& only_order_written(s, after, order)
    &&& after.actions == s.actions + seq![ActionView::RequireAuth { address: signer }] + (if a.to_rider
        > 0 {
        seq![
            ActionView::Transfer {
                token: s.instance.token,
                from: s.contract_address,
                to: old_order.rider,
                amount: a.to_rider,
            },
        ]
    } else {
        Seq::<ActionView>::empty()
    }) + (if a.to_platform > 0 {
        seq![
            ActionView::Transfer {
                token: s.instance.token,
                from: s.contract_address,
                to: s.instance.platform_fee_wallet,
                amount: a.to_platform,
            },
        ]
    } else {
        Seq::<ActionView>::empty()
    }) + written_down(
        order,
        Event::OrderReleased { order_id: old_order.order_id, allocation: a },
    )
}

/// Signing, paying, and writing down, one after another.
#[verifier::rlimit(30)]
proof fn lemma_release_done(
    s: EnvView,
    after: EnvView,
    old_order: OrderView,
    signer: Address,
    a: Allocation,
)
    requires
        after == released(s.authorised(signer), old_order, a),
        a.to_customer == 0,
    ensures
        release_done(s, after, old_order, signer, a),
{
    let order = after.orders[old_order.order_id];
    let paid = s.authorised(signer).paid_out(old_order, a).actions;
    let to_rider = if a.to_rider > 0 {
        seq![
            ActionView::Transfer {
                token: s.instance.token,
                from: s.contract_address,
                to: old_order.rider,
                amount: a.to_rider,
            },
        ]
    } else {
        Seq::<ActionView>::empty()
    };
    let to_platform = if a.to_platform > 0 {
        seq![
            ActionView::Transfer {
                token: s.instance.token,
                from: s.contract_address,
                to: s.instance.platform_fee_wallet,
                amount: a.to_platform,
            },
        ]
    } else {
        Seq::<ActionView>::empty()
    };
    assert(paid =~= s.actions + seq![ActionView::RequireAuth { address: signer }] + to_rider
        + to_platform);
    assert(after.actions =~= paid + written_down(
        order,
        Event::OrderReleased { order_id: old_order.order_id, allocation: a },
    ));
    assert(after.orders =~= s.orders.insert(old_order.order_id, order));
    assert(after.orders.dom() =~= s.orders.dom().insert(old_order.order_id));
}

/// An accepted confirmation sends the rider and the platform exactly the shares
/// that it returns, and releases the order.
#[verifier::rlimit(30)]
pub proof fn law_confirmation_pays_what_it_returns(s: EnvView, customer: Address, order_id: u64)
    requires
        confirm_answer(s, customer, order_id) is Ok,
    ensures
        release_done(
            s,
            after_confirm(s, customer, order_id),
            s.orders[order_id],
            customer,
            confirm_answer(s, customer, order_id)->Ok_0,
        ),
{
    law_release_divides_fee_and_bond(s.orders[order_id]);
    lemma_release_done(
        s,
        after_confirm(s, customer, order_id),
        s.orders[order_id],
        customer,
        confirm_answer(s, customer, order_id)->Ok_0,
    );
}

/// An accepted claim sends the rider and the platform exactly the shares that it
/// returns, and releases the order.
#[verifier::rlimit(30)]
pub proof fn law_claim_pays_what_it_returns(s: EnvView, rider: Address, order_id: u64)
    requires
        claim_answer(s, rider, order_id) is Ok,
    ensures
        release_done(
            s,
            after_claim(s, rider, order_id),
            s.orders[order_id],
            rider,
            claim_answer(s, rider, order_id)->Ok_0,
        ),
{
    law_release_divides_fee_and_bond(s.orders[order_id]);
    lemma_release_done(
        s,
        after_claim(s, rider, order_id),
        s.orders[order_id],
        rider,
        claim_answer(s, rider, order_id)->Ok_0,
    );
}

/// At whatever time an order is confirmed, each address gains exactly its share:
/// the rider the fee without `fee * bps / 10000`, and the bond; the platform
/// wallet that part of the fee; the contract loses the pot.
pub proof fn law_confirmation_gives_each_its_share(
    s: EnvView,
    customer: Address,
    order_id: u64,
    who: Address,
)
    requires
        confirm_answer(s, customer, order_id) is Ok,
        s.orders[order_id].delivery_fee >= 0,
        s.orders[order_id].rider_bond >= 0,
        s.orders[order_id].platform_fee_bps <= 10_000,
    ensures
        ({
            let order = s.orders[order_id];
            let cut = (order.delivery_fee * order.platform_fee_bps) / 10_000;
            total(
                Measure::Gained { who },
                added(s, Call::ConfirmDelivery { customer, order_id }),
            ) == (if who == order.rider {
                order.delivery_fee - cut + order.rider_bond
            } else {
                0
            }) + (if who == s.instance.platform_fee_wallet {
                cut
            } else {
                0
            }) - (if who == s.contract_address {
                order.delivery_fee + order.rider_bond
            } else {
                0
            })
        }),
{
    let order = s.orders[order_id];
    let a = confirm_answer(s, customer, order_id)->Ok_0;
    lemma_shares_not_negative(order);
    law_release_divides_fee_and_bond(order);
    lemma_total_call(Measure::Gained { who }, s, Call::ConfirmDelivery { customer, order_id });
    lemma_total_payments(Measure::Gained { who }, s, order_id, a);
}

/// At whatever time an order is claimed, each address gains exactly its share.
pub proof fn law_claim_gives_each_its_share(
    s: EnvView,
    rider: Address,
    order_id: u64,
    who: Address,
)
    requires
        claim_answer(s, rider, order_id) is Ok,
        s.orders[order_id].delivery_fee >= 0,
        s.orders[order_id].rider_bond >= 0,
        s.orders[order_id].platform_fee_bps <= 10_000,
    ensures
        ({
            let order = s.orders[order_id];
            let cut = (order.delivery_fee * order.platform_fee_bps) / 10_000;
            total(
                Measure::Gained { who },
                added(s, Call::ClaimAfterTimeout { rider, order_id }),
            ) == (if who == order.rider {
                order.delivery_fee - cut + order.rider_bond
            } else {
                0
            }) + (if who == s.instance.platform_fee_wallet {
                cut
            } else {
                0
            }) - (if who == s.contract_address {
                order.delivery_fee + order.rider_bond
            } else {
                0
            })
        }),
{
    let order = s.orders[order_id];
    let a = claim_answer(s, rider, order_id)->Ok_0;
    lemma_shares_not_negative(order);
    law_release_divides_fee_and_bond(order);
    lemma_total_call(Measure::Gained { who }, s, Call::ClaimAfterTimeout { rider, order_id });
    lemma_total_payments(Measure::Gained { who }, s, order_id, a);
}

/// At no more than the whole fee, no share is negative.
proof fn lemma_shares_not_negative(order: OrderView)
    requires
        order.delivery_fee >= 0,
        order.platform_fee_bps <= 10_000,
    ensures
        0 <= order.delivery_fee * order.platform_fee_bps,
        0 <= (order.delivery_fee * order.platform_fee_bps) / 10_000 <= order.delivery_fee,
{
    let fee = order.delivery_fee;
    let bps = order.platform_fee_bps;
    assert(0 <= fee * bps <= fee * 10_000) by (nonlinear_arith)
        requires
            fee >= 0,
            bps <= 10_000,
    ;
}

// ---------------------------------------------------------------------------
// Dispute
// ---------------------------------------------------------------------------
/// A dispute is accepted exactly if a party to a delivered order makes it while
/// the confirmation window is open.
pub proof fn law_exactly_the_parties_dispute_within_the_window(
    s: EnvView,
    caller: Address,
    order_id: u64,
)
    ensures
        ({
            let known = s.orders.contains_key(order_id);
            let order = s.orders[order_id];
            let delivered = known && order.status == OrderStatus::Delivered;
            let party = delivered && (caller == order.customer || caller == order.rider);
            let end = order.delivered_at + order.confirmation_window_secs;
            let answer = dispute_answer(s, caller, order_id);
            &&& answer is Ok <==> party && s.timestamp < end <= u64::MAX
            &&& !known ==> answer->Err_0 == ContractError::OrderNotFound
            &&& known && !delivered ==> answer->Err_0 == ContractError::NotInDeliveredState
            &&& delivered && !party ==> answer->Err_0 == ContractError::Unauthorized
            &&& party && end > u64::MAX ==> answer->Err_0 == ContractError::TimestampOverflow
            &&& party && end <= s.timestamp ==> answer->Err_0
                == ContractError::ConfirmationWindowClosed
            &&& !party ==> after_dispute(s, caller, order_id) == s
            &&& party && answer is Err ==> only_asked_to_sign(
                s,
                after_dispute(s, caller, order_id),
                caller,
            )
        }),
{
}

/// A dispute is dated with the ledger time of the call. Nothing else of the
/// record changes but the status, the caller alone signs, and no money moves.
#[verifier::rlimit(30)]
pub proof fn law_dispute_is_dated_now(s: EnvView, caller: Address, order_id: u64)
    requires
        dispute_answer(s, caller, order_id) is Ok,
    ensures
        ({
            let old_order = s.orders[order_id];
            let order = dispute_answer(s, caller, order_id)->Ok_0;
            let after = after_dispute(s, caller, order_id);
            &&& order.same_terms(old_order)
            &&& order.status == OrderStatus::Disputed
            &&& order.delivered_at == old_order.delivered_at
            &&& order.disputed_at == s.timestamp
            &&& only_order_written(s, after, order)
            &&& after.actions == s.actions + seq![
                ActionView::RequireAuth { address: caller },
            ] + written_down(
                order,
                Event::OrderDisputed {
                    order_id: old_order.order_id,
                    caller,
                    disputed_at: s.timestamp,
                },
            )
        }),
{
}

/// The evidence window runs for its full length from the dispute. Until then
/// every ruling of the administrator is refused because the window is open; from
/// then on every exact division of fee and bond is accepted, and nobody else can
/// rule at any time.
pub proof fn law_evidence_window_runs_in_full(
    s: EnvView,
    caller: Address,
    order_id: u64,
    later: u64,
    admin: Address,
    ruling: Allocation,
)
    requires
        dispute_answer(s, caller, order_id) is Ok,
        s.orders[order_id].order_id == order_id,
        s.timestamp + s.orders[order_id].evidence_window_secs <= u64::MAX,
    ensures
        ({
            let order = s.orders[order_id];
            let disputed = at_time(after_dispute(s, caller, order_id), later);
            let end = s.timestamp + order.evidence_window_secs;
            let answer = resolve_answer(disputed, admin, order_id, ruling);
            let exact = ruling.to_customer >= 0 && ruling.to_rider >= 0 && ruling.to_platform >= 0
                && ruling.forfeit >= 0 && ruling.to_customer + ruling.to_rider + ruling.to_platform
                + ruling.forfeit == order.delivery_fee + order.rider_bond <= i128::MAX;
            &&& admin != s.instance.admin ==> answer == Err::<Allocation, ContractError>(
                ContractError::Unauthorized,
            )
            &&& admin == s.instance.admin && later < end ==> answer == Err::<
                Allocation,
                ContractError,
            >(ContractError::EvidenceWindowOpen)
            &&& admin == s.instance.admin && later >= end ==> (answer is Ok <==> exact)
        }),
{
}

/// An allocation is accepted for a pot exactly if no share is negative and the
/// four shares sum to the pot.
pub proof fn law_allocation_is_checked_exactly(a: Allocation, pot: i128)
    ensures
        ({
            let positive = a.to_customer >= 0 && a.to_rider >= 0 && a.to_platform >= 0 && a.forfeit
                >= 0;
            let sum = a.to_customer + a.to_rider + a.to_platform + a.forfeit;
            let verdict = allocation_verdict(a, pot as int);
            &&& verdict is Ok <==> positive && sum == pot
            &&& !positive ==> verdict->Err_0 == ContractError::InvalidAmount
            &&& positive && sum > i128::MAX ==> verdict->Err_0 == ContractError::TimestampOverflow
            &&& positive && sum <= i128::MAX && sum != pot ==> verdict->Err_0
                == ContractError::AllocationExceedsPot
        }),
{
}

/// A ruling is answered exactly as follows: refused where the order is unknown,
/// not disputed, or the caller is not the administrator; refused while the
/// evidence window is open; refused where a share is negative or the shares do
/// not sum to fee and bond; otherwise it is returned as it was given.
pub proof fn law_ruling_is_answered_exactly(
    s: EnvView,
    admin: Address,
    order_id: u64,
    a: Allocation,
)
    ensures
        ({
            let known = s.orders.contains_key(order_id);
            let order = s.orders[order_id];
            let disputed = known && order.status == OrderStatus::Disputed;
            let own = disputed && admin == s.instance.admin;
            let end = order.disputed_at + order.evidence_window_secs;
            let due = own && end <= s.timestamp;
            let pot = order.delivery_fee + order.rider_bond;
            let fits = due && i128::MIN <= pot <= i128::MAX;
            let positive = a.to_customer >= 0 && a.to_rider >= 0 && a.to_platform >= 0 && a.forfeit
                >= 0;
            let sum = a.to_customer + a.to_rider + a.to_platform + a.forfeit;
            let answer = resolve_answer(s, admin, order_id, a);
            &&& answer is Ok <==> fits && positive && sum == pot
            &&& answer is Ok ==> answer->Ok_0 == a
            &&& !known ==> answer->Err_0 == ContractError::OrderNotFound
            &&& known && !disputed ==> answer->Err_0 == ContractError::NotInDisputedState
            &&& disputed && !own ==> answer->Err_0 == ContractError::Unauthorized
            &&& own && end > u64::MAX ==> answer->Err_0 == ContractError::TimestampOverflow
            &&& own && s.timestamp < end <= u64::MAX ==> answer->Err_0
                == ContractError::EvidenceWindowOpen
            &&& due && !fits ==> answer->Err_0 == ContractError::TimestampOverflow
            &&& fits && !positive ==> answer->Err_0 == ContractError::InvalidAmount
            &&& fits && positive && sum > i128::MAX ==> answer->Err_0
                == ContractError::TimestampOverflow
            &&& fits && positive && sum <= i128::MAX && sum != pot ==> answer->Err_0
                == ContractError::AllocationExceedsPot
            &&& !own ==> after_resolve(s, admin, order_id, a) == s
            &&& own && answer is Err ==> only_asked_to_sign(
                s,
                after_resolve(s, admin, order_id, a),
                admin,
            )
        }),
{
}

/// An accepted ruling sends each party exactly the share that it names, where
/// that is positive; the forfeited part is sent to nobody. Nothing of the record
/// changes but the status, and the administrator alone signs.
#[verifier::rlimit(30)]
pub proof fn law_ruling_pays_what_it_says(s: EnvView, admin: Address, order_id: u64, a: Allocation)
    requires
        resolve_answer(s, admin, order_id, a) is Ok,
    ensures
        ({
            let old_order = s.orders[order_id];
            let after = after_resolve(s, admin, order_id, a);
            let order = after.orders[old_order.order_id];
            &&& order.same_terms(old_order)
            &&& order.status == OrderStatus::Resolved
            &&& order.delivered_at == old_order.delivered_at
            &&& order.disputed_at == old_order.disputed_at
            &&& only_order_written(s, after, order)
            &&& after.actions == s.actions + seq![ActionView::RequireAuth { address: admin }] + (
            if a.to_customer > 0 {
                seq![
                    ActionView::Transfer {
                        token: s.instance.token,
                        from: s.contract_address,
                        to: old_order.customer,
                        amount: a.to_customer,
                    },
                ]
            } else {
                Seq::<ActionView>::empty()
            }) + (if a.to_rider > 0 {
                seq![
                    ActionView::Transfer {
                        token: s.instance.token,
                        from: s.contract_address,
                        to: old_order.rider,
                        amount: a.to_rider,
                    },
                ]
            } else {
                Seq::<ActionView>::empty()
            }) + (if a.to_platform > 0 {
                seq![
                    ActionView::Transfer {
                        token: s.instance.token,
                        from: s.contract_address,
                        to: s.instance.platform_fee_wallet,
                        amount: a.to_platform,
                    },
                ]
            } else {
                Seq::<ActionView>::empty()
            }) + written_down(
                order,
                Event::OrderResolved { order_id: old_order.order_id, allocation: a },
            )
        }),
{
}

// ---------------------------------------------------------------------------
// Cancellation
// ---------------------------------------------------------------------------
/// An order can be cancelled exactly if it is open or funded, at whatever time.
pub proof fn law_exactly_open_and_funded_orders_can_be_cancelled(s: EnvView, order_id: u64)
    ensures
        ({
            let known = s.orders.contains_key(order_id);
            let early = known && (s.orders[order_id].status == OrderStatus::Open
                || s.orders[order_id].status == OrderStatus::Funded);
            let answer = cancel_answer(s, order_id);
            &&& answer is Ok <==> early
            &&& !known ==> answer->Err_0 == ContractError::OrderNotFound
            &&& known && !early ==> answer->Err_0 == ContractError::InvalidStatus
            &&& answer is Err ==> after_cancel(s, order_id) == s
        }),
{
}

/// A cancellation changes the status alone. Both parties sign; of a funded order
/// the customer is sent the whole fee and the rider the whole bond, and of an
/// open order nobody is sent anything.
#[verifier::rlimit(30)]
pub proof fn law_cancellation_refunds_what_was_funded(s: EnvView, order_id: u64)
    requires
        cancel_answer(s, order_id) is Ok,
    ensures
        ({
            let old_order = s.orders[order_id];
            let order = cancel_answer(s, order_id)->Ok_0;
            let after = after_cancel(s, order_id);
            let funded = old_order.status == OrderStatus::Funded;
            &&& order.same_terms(old_order)
            &&& order.status == OrderStatus::Cancelled
            &&& order.delivered_at == old_order.delivered_at
            &&& order.disputed_at == old_order.disputed_at
            &&& only_order_written(s, after, order)
            &&& after.actions == s.actions + seq![
                ActionView::RequireAuth { address: old_order.customer },
                ActionView::RequireAuth { address: old_order.rider },
            ] + (if funded && old_order.delivery_fee > 0 {
                seq![
                    ActionView::Transfer {
                        token: s.instance.token,
                        from: s.contract_address,
                        to: old_order.customer,
                        amount: old_order.delivery_fee,
                    },
                ]
            } else {
                Seq::<ActionView>::empty()
            }) + (if funded && old_order.rider_bond > 0 {
                seq![
                    ActionView::Transfer {
                        token: s.instance.token,
                        from: s.contract_address,
                        to: old_order.rider,
                        amount: old_order.rider_bond,
                    },
                ]
            } else {
                Seq::<ActionView>::empty()
            }) + written_down(order, Event::OrderCancelled { order_id: old_order.order_id })
        }),
{
}

/// A new order can be cancelled by its parties at any later time, as long as it
/// has not moved on, and then moves no money.
pub proof fn law_new_order_can_be_cancelled_at_any_time(s: EnvView, t: Terms, later: u64)
    requires
        create_answer(s, t) is Ok,
        s.instance.next_order_id != Some(u64::MAX),
    ensures
        ({
            let id = create_answer(s, t)->Ok_0.order_id;
            let created = at_time(after_create(s, t), later);
            &&& cancel_answer(created, id) is Ok
            &&& cancel_answer(created, id)->Ok_0.status == OrderStatus::Cancelled
            &&& cancel_answer(created, id)->Ok_0.same_terms(create_answer(s, t)->Ok_0)
            &&& fund_answer(created, id) is Ok
        }),
{
    law_creation_stores_and_lists_the_order(s, t);
}

// ---------------------------------------------------------------------------
// Administration
// ---------------------------------------------------------------------------
/// An upgrade makes the stored administrator sign, replaces the code by the
/// given one, announces it, and changes nothing else.
pub proof fn law_upgrade_is_signed_by_the_administrator(s: EnvView, new_wasm_hash: [u8; 32])
    ensures
        ({
            let after = after_upgrade(s, new_wasm_hash);
            &&& after.contract_address == s.contract_address
            &&& after.timestamp == s.timestamp
            &&& after.instance == s.instance
            &&& after.orders == s.orders
            &&& after.indexes == s.indexes
            &&& after.actions == s.actions + seq![
                ActionView::RequireAuth { address: s.instance.admin },
                ActionView::UpdateWasm { new_wasm_hash },
                ActionView::Publish { event: Event::Upgraded { new_wasm_hash } },
            ]
        }),
{
}

// ---------------------------------------------------------------------------
// Lifetimes
// ---------------------------------------------------------------------------
/// A record lives for both of its windows together, or for the longest duration
/// there is.
pub proof fn law_life_is_both_windows(order: OrderView)
    ensures
        order.confirmation_window_secs + order.evidence_window_secs <= u64::MAX
            ==> order.life_secs() == order.confirmation_window_secs + order.evidence_window_secs,
        order.confirmation_window_secs + order.evidence_window_secs > u64::MAX
            ==> order.life_secs() == u64::MAX,
{
}

/// An entry is kept for twice the given seconds in whole ledgers of five
/// seconds, but for no fewer than some thirty days and no more than a ledger
/// count can express.
pub proof fn law_entries_are_kept_for_twice_the_time(secs: u64)
    ensures
        ({
            let kept = ttl_ledgers(secs);
            &&& 518_400 <= kept <= u32::MAX
            &&& 2 * secs < 5 * 518_400 ==> kept == 518_400
            &&& 2 * secs >= 5 * u32::MAX ==> kept == u32::MAX
            &&& 5 * 518_400 <= 2 * secs < 5 * u32::MAX ==> 0 <= 2 * secs - 5 * kept < 5
        }),
{
}

} // verus!
