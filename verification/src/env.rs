//! The part of the ledger that the contract sees.
//!
//! [`EscrowEnv`] holds the stored values that a call reads, the ledger time, and the
//! operations that calls have asked of the host. A shell loads it, makes the
//! call, and then performs the operations in order: each may abort the whole
//! call (an authorisation that is missing, a transfer that the token refuses),
//! and nothing happened then.
use soroban_sdk::Env as SdkEnv;
use soroban_sdk::Vec as SdkVec;
use std::collections::BTreeMap;
use vstd::prelude::*;

use crate::actions::{Action, ActionView, Event, HostAction};
use crate::index::{copy_ids, count_ids, ids_in, new_ids, push_id, IdIndex};
use crate::rules::{ttl_extend_for_window, ttl_ledgers};
use crate::types::{
    Address, Allocation, ContractError, DataKey, Order, OrderView, INSTANCE_TTL_EXTEND,
    INSTANCE_TTL_THRESHOLD, PERSISTENT_TTL_THRESHOLD,
};

verus! {

/// The contract's instance storage.
#[derive(Clone, Copy, Debug, PartialEq, Eq)]
pub struct Instance {
    pub admin: Address,
    pub token: Address,
    pub platform_fee_wallet: Address,
    /// The id of the next order; 0 where none is stored.
    pub next_order_id: Option<u64>,
}

/// The ledger as the contract sees it.
pub struct EscrowEnv {
    host: SdkEnv,
    contract_address: Address,
    timestamp: u64,
    instance: Instance,
    orders: BTreeMap<u64, Order>,
    indexes: IdIndex,
    actions: Vec<HostAction>,
}

/// The mathematical value of an [`EscrowEnv`].
#[verifier::ext_equal]
pub struct EnvView {
    /// The address of the escrow contract itself.
    pub contract_address: Address,
    /// The ledger time, in seconds.
    pub timestamp: u64,
    /// Instance storage.
    pub instance: Instance,
    /// Persistent storage: the orders.
    pub orders: Map<u64, OrderView>,
    /// Persistent storage: the ids of each customer's and each rider's orders.
    pub indexes: Map<DataKey, Seq<u64>>,
    /// The operations asked of the host, first to last.
    pub actions: Seq<ActionView>,
}

/// The payments that hand out a pot: each positive share to its party.
pub open spec fn payments(
    token: Address,
    contract: Address,
    wallet: Address,
    order: OrderView,
    a: Allocation,
) -> Seq<ActionView> {
    payment(token, contract, order.customer, a.to_customer) + payment(
        token,
        contract,
        order.rider,
        a.to_rider,
    ) + payment(token, contract, wallet, a.to_platform)
}

/// The payment of `amount` to `to`; none where the amount is not positive.
pub open spec fn payment(token: Address, contract: Address, to: Address, amount: i128) -> Seq<
    ActionView,
> {
    if amount > 0 {
        seq![Action::Transfer { token, from: contract, to, amount }]
    } else {
        Seq::empty()
    }
}

impl EnvView {
    /// The id that the next order gets.
    pub open spec fn next_id(self) -> u64 {
        match self.instance.next_order_id {
            Some(id) => id,
            None => 0,
        }
    }

    /// The ids stored under `key`; none where nothing is stored.
    pub open spec fn index(self, key: DataKey) -> Seq<u64> {
        if self.indexes.contains_key(key) {
            self.indexes[key]
        } else {
            Seq::empty()
        }
    }

    /// After asking for `action`.
    pub open spec fn did(self, action: ActionView) -> EnvView {
        EnvView { actions: self.actions.push(action), ..self }
    }

    /// After asking for `actions`.
    pub open spec fn did_all(self, actions: Seq<ActionView>) -> EnvView {
        EnvView { actions: self.actions + actions, ..self }
    }

    /// After asking that `address` has authorised the call.
    pub open spec fn authorised(self, address: Address) -> EnvView {
        self.did(Action::RequireAuth { address })
    }

    /// After the next id has been handed out.
    pub open spec fn numbered(self) -> EnvView {
        let next = (self.next_id() + 1) as u64;
        EnvView {
            instance: Instance { next_order_id: Some(next), ..self.instance },
            actions: self.actions.push(Action::SetNextOrderId { next_order_id: next }),
            ..self
        }
    }

    /// After the lifetime of the entry under `key` has been extended so that
    /// it outlives `life_secs` seconds.
    pub open spec fn kept(self, key: DataKey, life_secs: u64) -> EnvView {
        self.did(
            Action::ExtendPersistentTtl {
                key,
                threshold: PERSISTENT_TTL_THRESHOLD,
                extend_to: ttl_ledgers(life_secs),
            },
        )
    }

    /// After `order` has been stored under its id.
    pub open spec fn saved(self, order: OrderView) -> EnvView {
        EnvView { orders: self.orders.insert(order.order_id, order), ..self }.did(
            Action::SetOrder { order },
        ).kept(DataKey::Order(order.order_id), order.life_secs())
    }

    /// After `order_id` has been added to the list under `key`.
    pub open spec fn indexed(self, key: DataKey, order_id: u64, life_secs: u64) -> EnvView {
        let ids = self.index(key).push(order_id);
        EnvView { indexes: self.indexes.insert(key, ids), ..self }.did(
            Action::SetIndex { key, ids },
        ).kept(key, life_secs)
    }

    /// After the lifetime of the instance entry has been extended.
    pub open spec fn instance_kept(self) -> EnvView {
        self.did(
            Action::ExtendInstanceTtl {
                threshold: INSTANCE_TTL_THRESHOLD,
                extend_to: INSTANCE_TTL_EXTEND,
            },
        )
    }

    /// After `event` has been published.
    pub open spec fn published(self, event: Event<OrderView>) -> EnvView {
        self.did(Action::Publish { event })
    }

    /// After the pot of `order` has been handed out as `a` says.
    pub open spec fn paid_out(self, order: OrderView, a: Allocation) -> EnvView {
        self.did_all(
            payments(
                self.instance.token,
                self.contract_address,
                self.instance.platform_fee_wallet,
                order,
                a,
            ),
        )
    }
}

impl View for EscrowEnv {
    type V = EnvView;

    closed spec fn view(&self) -> EnvView {
        EnvView {
            contract_address: self.contract_address,
            timestamp: self.timestamp,
            instance: self.instance,
            orders: self.orders@.map_values(|order: Order| order@),
            indexes: self.indexes@,
            actions: self.actions@.map_values(|action: HostAction| action@),
        }
    }
}

// ---------------------------------------------------------------------------
// For the shell that loads an `EscrowEnv` and performs what calls ask for
// ---------------------------------------------------------------------------
impl EscrowEnv {
    /// A ledger with the given instance storage and nothing in persistent
    /// storage. `host` is the SDK's handle, with which lists are made.
    pub fn new(
        host: SdkEnv,
        contract_address: Address,
        timestamp: u64,
        instance: Instance,
    ) -> (env: EscrowEnv)
        ensures
            env@ == (EnvView {
                contract_address,
                timestamp,
                instance,
                orders: Map::empty(),
                indexes: Map::empty(),
                actions: Seq::empty(),
            }),
    {
        let env = EscrowEnv {
            host,
            contract_address,
            timestamp,
            instance,
            orders: BTreeMap::new(),
            indexes: IdIndex::new(),
            actions: Vec::new(),
        };
        assert(env@.orders =~= Map::empty());
        assert(env@.actions =~= Seq::empty());
        env
    }

    /// Takes over an order that the ledger holds under `order_id`.
    pub fn load_stored_order(&mut self, order_id: u64, order: Order)
        ensures
            final(self)@ == (EnvView {
                orders: old(self)@.orders.insert(order_id, order@),
                ..old(self)@
            }),
    {
        broadcast use vstd::std_specs::btree::group_btree_axioms;

        self.orders.insert(order_id, order);
        assert(self@.orders =~= old(self)@.orders.insert(order_id, order@));
    }

    /// Takes over a list of ids that the ledger holds under `key`.
    pub fn load_stored_index(&mut self, key: DataKey, ids: SdkVec<u64>)
        ensures
            final(self)@ == (EnvView {
                indexes: old(self)@.indexes.insert(key, ids_in(ids)),
                ..old(self)@
            }),
    {
        self.indexes.put(key, ids);
    }

    /// Moves the ledger time to `timestamp`.
    pub fn set_timestamp(&mut self, timestamp: u64)
        ensures
            final(self)@ == (EnvView { timestamp, ..old(self)@ }),
    {
        self.timestamp = timestamp;
    }

    /// Hands over the operations asked for so far, and forgets them.
    pub fn take_actions(&mut self) -> (actions: Vec<HostAction>)
        ensures
            actions@.map_values(|action: HostAction| action@) == old(self)@.actions,
            final(self)@ == (EnvView { actions: Seq::empty(), ..old(self)@ }),
    {
        let mut actions: Vec<HostAction> = Vec::new();
        std::mem::swap(&mut actions, &mut self.actions);
        assert(self@.actions =~= Seq::empty());
        actions
    }

    /// The ledger time.
    pub fn timestamp(&self) -> (timestamp: u64)
        ensures
            timestamp == self@.timestamp,
    {
        self.timestamp
    }

    /// The address of the escrow contract itself.
    pub fn current_contract_address(&self) -> (address: Address)
        ensures
            address == self@.contract_address,
    {
        self.contract_address
    }

    /// Asks the host for `action`.
    pub(crate) fn ask(&mut self, action: HostAction)
        ensures
            final(self)@ == old(self)@.did(action@),
    {
        self.actions.push(action);
        assert(self@.actions =~= old(self)@.actions.push(action@));
    }

    /// Asks that `address` has authorised the call.
    pub(crate) fn require_auth(&mut self, address: Address)
        ensures
            final(self)@ == old(self)@.authorised(address),
    {
        self.ask(Action::RequireAuth { address });
    }

    /// Publishes `event`.
    pub(crate) fn publish(&mut self, event: Event<Order>)
        ensures
            final(self)@ == old(self)@.published(event@),
    {
        self.ask(Action::Publish { event });
    }
}

// ---------------------------------------------------------------------------
// Storage
// ---------------------------------------------------------------------------
/// Extends the lifetime of the instance entry.
pub(crate) fn bump_instance(env: &mut EscrowEnv)
    ensures
        final(env)@ == old(env)@.instance_kept(),
{
    env.ask(
        Action::ExtendInstanceTtl {
            threshold: INSTANCE_TTL_THRESHOLD,
            extend_to: INSTANCE_TTL_EXTEND,
        },
    );
}

/// Extends the lifetime of a persistent entry for windows of `life_secs`.
pub(crate) fn bump_persistent(env: &mut EscrowEnv, key: DataKey, life_secs: u64)
    ensures
        final(env)@ == old(env)@.kept(key, life_secs),
{
    env.ask(
        Action::ExtendPersistentTtl {
            key,
            threshold: PERSISTENT_TTL_THRESHOLD,
            extend_to: ttl_extend_for_window(life_secs),
        },
    );
}

/// Hands out the next order id.
pub(crate) fn next_order_id(env: &mut EscrowEnv) -> (id: u64)
    requires
        old(env)@.next_id() < u64::MAX,
    ensures
        id == old(env)@.next_id(),
        final(env)@ == old(env)@.numbered(),
{
    let id: u64 = match env.instance.next_order_id {
        Some(id) => id,
        None => 0,
    };
    env.instance.next_order_id = Some(id + 1);
    env.ask(Action::SetNextOrderId { next_order_id: id + 1 });
    id
}

/// The token in which amounts are paid.
pub(crate) fn get_token(env: &EscrowEnv) -> (token: Address)
    ensures
        token == env@.instance.token,
{
    env.instance.token
}

/// The administrator.
pub(crate) fn get_admin(env: &EscrowEnv) -> (admin: Address)
    ensures
        admin == env@.instance.admin,
{
    env.instance.admin
}

/// The wallet that platform fees go to.
pub(crate) fn get_platform_wallet(env: &EscrowEnv) -> (wallet: Address)
    ensures
        wallet == env@.instance.platform_fee_wallet,
{
    env.instance.platform_fee_wallet
}

/// The order stored under `order_id`.
pub(crate) fn load_order(env: &EscrowEnv, order_id: u64) -> (order: Result<Order, ContractError>)
    ensures
        match order {
            Ok(order) => env@.orders.contains_key(order_id) && order@ == env@.orders[order_id],
            Err(e) => !env@.orders.contains_key(order_id) && e == ContractError::OrderNotFound,
        },
{
    broadcast use vstd::std_specs::btree::group_btree_axioms;

    match env.orders.get(&order_id) {
        Some(order) => Ok(order.clone()),
        None => Err(ContractError::OrderNotFound),
    }
}

/// Stores `order` under its id, for as long as its windows need.
pub(crate) fn save_order(env: &mut EscrowEnv, order: &Order)
    ensures
        final(env)@ == old(env)@.saved(order@),
{
    let key = DataKey::Order(order.order_id);
    env.load_stored_order(order.order_id, order.clone());
    env.ask(Action::SetOrder { order: order.clone() });
    let life: u64 = order.confirmation_window_secs.saturating_add(order.evidence_window_secs);
    bump_persistent(env, key, life);
}

/// The list stored under `key`; an empty one where none is stored.
pub(crate) fn load_index(env: &EscrowEnv, key: &DataKey) -> (ids: SdkVec<u64>)
    ensures
        ids_in(ids) == env@.index(*key),
{
    match env.indexes.get(key) {
        Some(ids) => ids,
        None => new_ids(&env.host),
    }
}

/// Whether the list stored under `key` can take another id.
pub(crate) fn index_has_room(env: &EscrowEnv, key: &DataKey) -> (room: bool)
    ensures
        room == (env@.index(*key).len() < u32::MAX),
{
    count_ids(&load_index(env, key)) < u32::MAX
}

/// Whether the order counter can be raised.
pub(crate) fn counter_has_room(env: &EscrowEnv) -> (room: bool)
    ensures
        room == (env@.next_id() < u64::MAX),
{
    match env.instance.next_order_id {
        Some(id) => id < u64::MAX,
        None => true,
    }
}

/// Adds `order_id` to the list stored under `key`.
pub(crate) fn append_to_index(env: &mut EscrowEnv, key: DataKey, order_id: u64, life_secs: u64)
    requires
        old(env)@.index(key).len() < u32::MAX,
    ensures
        final(env)@ == old(env)@.indexed(key, order_id, life_secs),
{
    let mut ids: SdkVec<u64> = load_index(env, &key);
    push_id(&mut ids, order_id);
    env.load_stored_index(key, copy_ids(&ids));
    env.ask(Action::SetIndex { key, ids });
    bump_persistent(env, key, life_secs);
}

// ---------------------------------------------------------------------------
// Payments
// ---------------------------------------------------------------------------
/// Asks for the payment of `amount` to `to`, if it is positive.
pub(crate) fn pay(env: &mut EscrowEnv, to: Address, amount: i128)
    ensures
        final(env)@ == old(env)@.did_all(
            payment(old(env)@.instance.token, old(env)@.contract_address, to, amount),
        ),
{
    if amount > 0 {
        let token = get_token(env);
        let from = env.current_contract_address();
        env.ask(Action::Transfer { token, from, to, amount });
        assert(old(env)@.actions.push(Action::Transfer { token, from, to, amount })
            =~= old(env)@.actions + seq![Action::Transfer { token, from, to, amount }]);
    } else {
        assert(old(env)@.actions + Seq::<ActionView>::empty() =~= old(env)@.actions);
    }
}

/// Asks for the payments that hand out a pot as `a` says. What is forfeited
/// stays with the contract.
pub(crate) fn execute_payout(env: &mut EscrowEnv, order: &Order, a: &Allocation)
    ensures
        final(env)@ == old(env)@.paid_out(order@, *a),
{
    pay(env, order.customer, a.to_customer);
    pay(env, order.rider, a.to_rider);
    let wallet = get_platform_wallet(env);
    pay(env, wallet, a.to_platform);
    assert(env@.actions =~= old(env)@.paid_out(order@, *a).actions);
}

} // verus!
