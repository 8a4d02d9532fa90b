//! The order lifecycle, with a token ledger that performs the transfers.
use std::collections::HashMap;

use delivery_escrow::actions::{Action, HostAction};
use delivery_escrow::contract::DeliveryEscrowContract;
use delivery_escrow::env::EscrowEnv;
use delivery_escrow::types::{
    Address, Allocation, ContractError, Order, OrderStatus, BPS_DENOMINATOR,
};
use soroban_sdk::Env as SdkEnv;

const HOUR: u64 = 3_600;
const FEE: i128 = 1_000;
const BOND: i128 = 500;
const PLATFORM_BPS: u32 = 500; // 5%
const INITIAL_BALANCE: i128 = 100_000;

const CONTRACT: Address = Address::Contract { high: 7, low: 1 };
const TOKEN: Address = Address::Contract { high: 7, low: 2 };
const ADMIN: Address = Address::Account { high: 1, low: 1 };
const PLATFORM_WALLET: Address = Address::Account { high: 1, low: 2 };
const CUSTOMER: Address = Address::Account { high: 1, low: 3 };
const RIDER: Address = Address::Account { high: 1, low: 4 };
const STRANGER: Address = Address::Account { high: 1, low: 5 };

/// A token that moves what it is told to move, within balances and allowances.
struct Token {
    balances: HashMap<Address, i128>,
    allowances: HashMap<(Address, Address), i128>,
}

impl Token {
    fn balance(&self, who: Address) -> i128 {
        *self.balances.get(&who).unwrap_or(&0)
    }

    fn mint(&mut self, who: Address, amount: i128) {
        let new = self.balance(who) + amount;
        self.balances.insert(who, new);
    }

    fn approve(&mut self, owner: Address, spender: Address, amount: i128) {
        self.allowances.insert((owner, spender), amount);
    }

    fn transfer(&mut self, from: Address, to: Address, amount: i128) {
        assert!(amount > 0);
        assert!(self.balance(from) >= amount);
        self.mint(from, -amount);
        self.mint(to, amount);
    }
}

struct Setup {
    env: EscrowEnv,
    token: Token,
    /// Who authorised calls so far, in order.
    signed: Vec<Address>,
}

fn setup() -> Setup {
    let mut env = DeliveryEscrowContract::__constructor(
        SdkEnv::default(),
        CONTRACT,
        0,
        ADMIN,
        TOKEN,
        PLATFORM_WALLET,
    );
    env.take_actions();
    let mut token = Token { balances: HashMap::new(), allowances: HashMap::new() };
    token.mint(CUSTOMER, INITIAL_BALANCE);
    token.mint(RIDER, INITIAL_BALANCE);
    Setup { env, token, signed: Vec::new() }
}

impl Setup {
    /// Performs what the last call asked for.
    fn settle(&mut self) {
        let actions: Vec<HostAction> = self.env.take_actions();
        for action in actions {
            match action {
                Action::RequireAuth { address } => self.signed.push(address),
                Action::Transfer { token, from, to, amount } => {
                    assert_eq!(token, TOKEN);
                    assert_eq!(from, CONTRACT);
                    self.token.transfer(from, to, amount);
                }
                Action::TransferFrom { token, spender, from, to, amount } => {
                    assert_eq!(token, TOKEN);
                    let left = *self.token.allowances.get(&(from, spender)).unwrap_or(&0) - amount;
                    assert!(left >= 0);
                    self.token.allowances.insert((from, spender), left);
                    self.token.transfer(from, to, amount);
                }
                _ => {}
            }
        }
    }

    fn fund(&mut self, id: u64) -> Result<Order, ContractError> {
        let r = DeliveryEscrowContract::fund(&mut self.env, id);
        self.settle();
        r
    }

    fn mark_delivered(&mut self, rider: Address, id: u64) -> Result<Order, ContractError> {
        let r = DeliveryEscrowContract::mark_delivered(&mut self.env, rider, id);
        self.settle();
        r
    }

    fn confirm(&mut self, customer: Address, id: u64) -> Result<Allocation, ContractError> {
        let r = DeliveryEscrowContract::confirm_delivery(&mut self.env, customer, id);
        self.settle();
        r
    }

    fn claim(&mut self, rider: Address, id: u64) -> Result<Allocation, ContractError> {
        let r = DeliveryEscrowContract::claim_after_timeout(&mut self.env, rider, id);
        self.settle();
        r
    }

    fn dispute(&mut self, caller: Address, id: u64) -> Result<Order, ContractError> {
        let r = DeliveryEscrowContract::dispute(&mut self.env, caller, id);
        self.settle();
        r
    }

    fn resolve(
        &mut self,
        admin: Address,
        id: u64,
        a: Allocation,
    ) -> Result<Allocation, ContractError> {
        let r = DeliveryEscrowContract::resolve_dispute(&mut self.env, admin, id, a);
        self.settle();
        r
    }

    fn cancel(&mut self, id: u64) -> Result<Order, ContractError> {
        let r = DeliveryEscrowContract::mutual_cancel(&mut self.env, id);
        self.settle();
        r
    }

    fn status(&self, id: u64) -> OrderStatus {
        DeliveryEscrowContract::get_order(&self.env, id).unwrap().status
    }
}

fn advance(env: &mut EscrowEnv, by_secs: u64) {
    let now = env.timestamp();
    env.set_timestamp(now.saturating_add(by_secs));
}

fn create_default(s: &mut Setup) -> Order {
    let order = DeliveryEscrowContract::create_order(
        &mut s.env,
        CUSTOMER,
        RIDER,
        FEE,
        BOND,
        PLATFORM_BPS,
        24 * HOUR,
        48 * HOUR,
        b"ipfs://order-meta".to_vec(),
    )
    .unwrap();
    s.settle();
    order
}

fn approve_both_parties(s: &mut Setup) {
    s.token.approve(CUSTOMER, CONTRACT, FEE);
    s.token.approve(RIDER, CONTRACT, BOND);
}

fn delivered(s: &mut Setup) -> Order {
    let order = create_default(s);
    approve_both_parties(s);
    s.fund(order.order_id).unwrap();
    s.mark_delivered(RIDER, order.order_id).unwrap();
    order
}

// ---------------------------------------------------------------------------
// Happy paths
// ---------------------------------------------------------------------------

#[test]
fn test_create_order_emits_open_state() {
    let mut s = setup();
    let order = create_default(&mut s);
    assert_eq!(order.status, OrderStatus::Open);
    assert_eq!(order.delivery_fee, FEE);
    assert_eq!(order.rider_bond, BOND);
}

#[test]
fn test_fund_moves_to_funded_state() {
    let mut s = setup();
    let order = create_default(&mut s);
    approve_both_parties(&mut s);

    let funded = s.fund(order.order_id).unwrap();
    assert_eq!(funded.status, OrderStatus::Funded);
    // Contract holds the pot.
    assert_eq!(s.token.balance(CONTRACT), FEE + BOND);
    // Customer down by FEE, rider down by BOND.
    assert_eq!(s.token.balance(CUSTOMER), INITIAL_BALANCE - FEE);
    assert_eq!(s.token.balance(RIDER), INITIAL_BALANCE - BOND);
}

#[test]
fn test_full_happy_path_customer_confirms() {
    let mut s = setup();
    let order = create_default(&mut s);
    approve_both_parties(&mut s);
    s.fund(order.order_id).unwrap();
    s.mark_delivered(RIDER, order.order_id).unwrap();

    let alloc = s.confirm(CUSTOMER, order.order_id).unwrap();
    let platform_cut = FEE * PLATFORM_BPS as i128 / BPS_DENOMINATOR;
    let rider_take = FEE - platform_cut + BOND;
    assert_eq!(alloc.to_rider, rider_take);
    assert_eq!(alloc.to_platform, platform_cut);

    // Final balances:
    assert_eq!(s.token.balance(RIDER), INITIAL_BALANCE - BOND + rider_take);
    assert_eq!(s.token.balance(PLATFORM_WALLET), platform_cut);
    assert_eq!(s.token.balance(CUSTOMER), INITIAL_BALANCE - FEE);
    assert_eq!(s.token.balance(CONTRACT), 0);

    let post = DeliveryEscrowContract::get_order(&s.env, order.order_id).unwrap();
    assert_eq!(post.status, OrderStatus::Released);
}

#[test]
fn test_claim_after_timeout() {
    let mut s = setup();
    let order = create_default(&mut s);
    approve_both_parties(&mut s);
    s.fund(order.order_id).unwrap();
    s.mark_delivered(RIDER, order.order_id).unwrap();

    advance(&mut s.env, 24 * HOUR + 1);
    assert!(DeliveryEscrowContract::is_timeout_claimable(&s.env, order.order_id));

    let alloc = s.claim(RIDER, order.order_id).unwrap();
    let platform_cut = FEE * PLATFORM_BPS as i128 / BPS_DENOMINATOR;
    assert_eq!(alloc.to_rider, FEE - platform_cut + BOND);
    assert_eq!(s.status(order.order_id), OrderStatus::Released);
}

// ---------------------------------------------------------------------------
// Dispute path
// ---------------------------------------------------------------------------

#[test]
fn test_dispute_then_admin_resolves_partial_refund() {
    let mut s = setup();
    let order = create_default(&mut s);
    approve_both_parties(&mut s);
    s.fund(order.order_id).unwrap();
    s.mark_delivered(RIDER, order.order_id).unwrap();

    // Customer disputes within the confirmation window.
    s.dispute(CUSTOMER, order.order_id).unwrap();

    // Evidence window must pass before admin rules.
    advance(&mut s.env, 48 * HOUR + 1);

    // Admin partial refund: 60% to customer, 30% to rider (keeps bond), 10% platform.
    let pot = FEE + BOND; // 1500
    let to_customer = 600i128;
    let to_rider = 750i128; // bond + small payment
    let to_platform = 150i128;
    let forfeit = pot - to_customer - to_rider - to_platform;
    let alloc = Allocation { to_customer, to_rider, to_platform, forfeit };
    let result = s.resolve(ADMIN, order.order_id, alloc).unwrap();
    assert_eq!(result.to_customer, to_customer);

    assert_eq!(s.token.balance(CUSTOMER), INITIAL_BALANCE - FEE + to_customer);
    assert_eq!(s.token.balance(RIDER), INITIAL_BALANCE - BOND + to_rider);
    assert_eq!(s.token.balance(PLATFORM_WALLET), to_platform);

    assert_eq!(s.status(order.order_id), OrderStatus::Resolved);
}

// ---------------------------------------------------------------------------
// Negative tests: auth and state guards
// ---------------------------------------------------------------------------

#[test]
fn test_mark_delivered_by_non_rider_fails() {
    let mut s = setup();
    let order = create_default(&mut s);
    approve_both_parties(&mut s);
    s.fund(order.order_id).unwrap();

    let result = s.mark_delivered(STRANGER, order.order_id);
    assert!(result.is_err());
    assert_eq!(result, Err(ContractError::Unauthorized));
}

#[test]
fn test_claim_before_window_elapses_fails() {
    let mut s = setup();
    let order = create_default(&mut s);
    approve_both_parties(&mut s);
    s.fund(order.order_id).unwrap();
    s.mark_delivered(RIDER, order.order_id).unwrap();

    // Only 1 hour elapsed; window is 24h.
    advance(&mut s.env, HOUR);
    let result = s.claim(RIDER, order.order_id);
    assert!(result.is_err());
    assert_eq!(result, Err(ContractError::ConfirmationWindowOpen));
}

#[test]
fn test_dispute_after_window_closes_fails() {
    let mut s = setup();
    let order = create_default(&mut s);
    approve_both_parties(&mut s);
    s.fund(order.order_id).unwrap();
    s.mark_delivered(RIDER, order.order_id).unwrap();

    advance(&mut s.env, 24 * HOUR + 1);
    let result = s.dispute(CUSTOMER, order.order_id);
    assert!(result.is_err());
    assert_eq!(result, Err(ContractError::ConfirmationWindowClosed));
}

#[test]
fn test_resolve_before_evidence_window_fails() {
    let mut s = setup();
    let order = create_default(&mut s);
    approve_both_parties(&mut s);
    s.fund(order.order_id).unwrap();
    s.mark_delivered(RIDER, order.order_id).unwrap();
    s.dispute(CUSTOMER, order.order_id).unwrap();

    advance(&mut s.env, HOUR); // Evidence window is 48h.
    let alloc = Allocation { to_customer: FEE, to_rider: BOND, to_platform: 0, forfeit: 0 };
    let result = s.resolve(ADMIN, order.order_id, alloc);
    assert!(result.is_err());
    assert_eq!(result, Err(ContractError::EvidenceWindowOpen));
}

#[test]
fn test_resolve_allocation_sum_mismatch_fails() {
    let mut s = setup();
    let order = create_default(&mut s);
    approve_both_parties(&mut s);
    s.fund(order.order_id).unwrap();
    s.mark_delivered(RIDER, order.order_id).unwrap();
    s.dispute(CUSTOMER, order.order_id).unwrap();
    advance(&mut s.env, 48 * HOUR + 1);

    // Sum is 100 too low.
    let bad = Allocation { to_customer: 500, to_rider: 500, to_platform: 400, forfeit: 0 };
    let result = s.resolve(ADMIN, order.order_id, bad);
    assert!(result.is_err());
    assert_eq!(result, Err(ContractError::AllocationExceedsPot));
}

#[test]
fn test_self_deal_blocked() {
    let mut s = setup();
    let result = DeliveryEscrowContract::create_order(
        &mut s.env,
        CUSTOMER,
        CUSTOMER, // same as rider
        FEE,
        BOND,
        PLATFORM_BPS,
        24 * HOUR,
        48 * HOUR,
        Vec::new(),
    );
    assert!(result.is_err());
    assert_eq!(result, Err(ContractError::SelfDealNotAllowed));
}

#[test]
fn test_mutual_cancel_refunds_both_parties() {
    let mut s = setup();
    let order = create_default(&mut s);
    approve_both_parties(&mut s);
    s.fund(order.order_id).unwrap();

    s.cancel(order.order_id).unwrap();

    assert_eq!(s.token.balance(CUSTOMER), INITIAL_BALANCE);
    assert_eq!(s.token.balance(RIDER), INITIAL_BALANCE);
    assert_eq!(s.token.balance(CONTRACT), 0);
    assert_eq!(s.status(order.order_id), OrderStatus::Cancelled);
}

// ---------------------------------------------------------------------------
// Windows
// ---------------------------------------------------------------------------

#[test]
fn claim_and_dispute_exclude_each_other_at_the_window_end() {
    let mut s = setup();
    let order = delivered(&mut s);

    s.env.set_timestamp(24 * HOUR - 1);
    assert!(!DeliveryEscrowContract::is_timeout_claimable(&s.env, order.order_id));
    assert_eq!(
        s.claim(RIDER, order.order_id),
        Err(ContractError::ConfirmationWindowOpen)
    );

    s.env.set_timestamp(24 * HOUR);
    assert!(DeliveryEscrowContract::is_timeout_claimable(&s.env, order.order_id));
    assert_eq!(
        s.dispute(RIDER, order.order_id),
        Err(ContractError::ConfirmationWindowClosed)
    );
    assert!(s.claim(RIDER, order.order_id).is_ok());
}

#[test]
fn rider_may_dispute_in_the_last_second() {
    let mut s = setup();
    let order = delivered(&mut s);
    s.env.set_timestamp(24 * HOUR - 1);
    let disputed = s.dispute(RIDER, order.order_id).unwrap();
    assert_eq!(disputed.status, OrderStatus::Disputed);
    assert_eq!(disputed.disputed_at, 24 * HOUR - 1);
}

#[test]
fn ruling_is_accepted_when_the_evidence_window_ends() {
    let mut s = setup();
    let order = delivered(&mut s);
    s.env.set_timestamp(HOUR);
    s.dispute(RIDER, order.order_id).unwrap();
    let ruling = Allocation { to_customer: 0, to_rider: 1_450, to_platform: 50, forfeit: 0 };
    s.env.set_timestamp(49 * HOUR - 1);
    assert_eq!(
        s.resolve(ADMIN, order.order_id, ruling),
        Err(ContractError::EvidenceWindowOpen)
    );
    s.env.set_timestamp(49 * HOUR);
    assert_eq!(s.resolve(ADMIN, order.order_id, ruling), Ok(ruling));
    assert_eq!(s.token.balance(RIDER), INITIAL_BALANCE - BOND + 1_450);
}

#[test]
fn timeline_of_a_day_and_two() {
    let mut s = setup();
    let order = create_default(&mut s);
    approve_both_parties(&mut s);
    s.env.set_timestamp(300);
    s.fund(order.order_id).unwrap();
    s.env.set_timestamp(2 * HOUR);
    s.mark_delivered(RIDER, order.order_id).unwrap();
    s.env.set_timestamp(10 * HOUR);
    s.dispute(CUSTOMER, order.order_id).unwrap();
    let ruling = Allocation { to_customer: 1_500, to_rider: 0, to_platform: 0, forfeit: 0 };
    s.env.set_timestamp(58 * HOUR - 1);
    assert_eq!(
        s.resolve(ADMIN, order.order_id, ruling),
        Err(ContractError::EvidenceWindowOpen)
    );
    s.env.set_timestamp(58 * HOUR);
    assert_eq!(s.resolve(ADMIN, order.order_id, ruling), Ok(ruling));
    assert_eq!(s.token.balance(CUSTOMER), INITIAL_BALANCE + BOND);
}

// ---------------------------------------------------------------------------
// Money
// ---------------------------------------------------------------------------

#[test]
fn slashed_bond_stays_with_the_contract() {
    let mut s = setup();
    let order = delivered(&mut s);
    s.dispute(CUSTOMER, order.order_id).unwrap();
    advance(&mut s.env, 48 * HOUR);
    let ruling = Allocation { to_customer: FEE, to_rider: 0, to_platform: 0, forfeit: BOND };
    assert_eq!(s.resolve(ADMIN, order.order_id, ruling), Ok(ruling));
    assert_eq!(s.token.balance(CUSTOMER), INITIAL_BALANCE);
    assert_eq!(s.token.balance(RIDER), INITIAL_BALANCE - BOND);
    assert_eq!(s.token.balance(CONTRACT), BOND);
}

#[test]
fn contract_holds_the_pots_of_all_open_escrows() {
    let mut s = setup();
    let first = delivered(&mut s);
    let second = create_default(&mut s);
    approve_both_parties(&mut s);
    s.fund(second.order_id).unwrap();
    let third = create_default(&mut s);
    assert_eq!(third.order_id, 2);
    assert_eq!(s.token.balance(CONTRACT), 2 * (FEE + BOND));
    s.confirm(CUSTOMER, first.order_id).unwrap();
    assert_eq!(s.token.balance(CONTRACT), FEE + BOND);
    s.cancel(third.order_id).unwrap();
    assert_eq!(s.token.balance(CONTRACT), FEE + BOND);
    s.cancel(second.order_id).unwrap();
    assert_eq!(s.token.balance(CONTRACT), 0);
}

#[test]
fn confirmation_and_claim_pay_alike() {
    let mut s = setup();
    let first = delivered(&mut s);
    let second = delivered(&mut s);
    advance(&mut s.env, 24 * HOUR);
    let confirmed = s.confirm(CUSTOMER, first.order_id).unwrap();
    let claimed = s.claim(RIDER, second.order_id).unwrap();
    assert_eq!(confirmed, claimed);
    assert_eq!(
        confirmed,
        Allocation { to_customer: 0, to_rider: 1_450, to_platform: 50, forfeit: 0 }
    );
}

#[test]
fn illustrative_rulings_divide_the_pot() {
    let p = 10;
    let rulings = [
        // Rider fully at fault, partially at fault, customer at fault.
        (FEE + BOND, 0, 0, 0),
        (FEE / 2, BOND + FEE / 2 - p, p, 0),
        (0, FEE + BOND - p, p, 0),
        // Slashed bond, split losses.
        (FEE, 0, 0, BOND),
        (FEE * 4 / 10, BOND + FEE * 4 / 10, FEE * 2 / 10, 0),
    ];
    for (to_customer, to_rider, to_platform, forfeit) in rulings {
        let mut s = setup();
        let order = delivered(&mut s);
        s.dispute(RIDER, order.order_id).unwrap();
        advance(&mut s.env, 48 * HOUR);
        let ruling = Allocation { to_customer, to_rider, to_platform, forfeit };
        assert_eq!(s.resolve(ADMIN, order.order_id, ruling), Ok(ruling));
        assert_eq!(s.token.balance(CUSTOMER), INITIAL_BALANCE - FEE + to_customer);
        assert_eq!(s.token.balance(RIDER), INITIAL_BALANCE - BOND + to_rider);
        assert_eq!(s.token.balance(PLATFORM_WALLET), to_platform);
        assert_eq!(s.token.balance(CONTRACT), forfeit);
    }
}

#[test]
fn confirmation_is_accepted_after_the_window_too() {
    let mut s = setup();
    let order = delivered(&mut s);
    advance(&mut s.env, 1_000 * HOUR);
    let paid = s.confirm(CUSTOMER, order.order_id).unwrap();
    assert_eq!(
        paid,
        Allocation { to_customer: 0, to_rider: 1_450, to_platform: 50, forfeit: 0 }
    );
    assert_eq!(s.token.balance(RIDER), INITIAL_BALANCE + 950);
}

#[test]
fn cancelling_an_open_order_moves_nothing() {
    let mut s = setup();
    let order = create_default(&mut s);
    let cancelled = s.cancel(order.order_id).unwrap();
    assert_eq!(cancelled.status, OrderStatus::Cancelled);
    assert_eq!(s.token.balance(CUSTOMER), INITIAL_BALANCE);
    assert_eq!(s.token.balance(RIDER), INITIAL_BALANCE);
    assert_eq!(s.signed, vec![CUSTOMER, CUSTOMER, RIDER]);
}

// ---------------------------------------------------------------------------
// Who may do what
// ---------------------------------------------------------------------------

#[test]
fn each_call_asks_for_its_signers() {
    let mut s = setup();
    let order = create_default(&mut s);
    assert_eq!(s.signed, vec![CUSTOMER]);
    approve_both_parties(&mut s);
    s.fund(order.order_id).unwrap();
    assert_eq!(s.signed[1..], [CUSTOMER, RIDER]);
    s.mark_delivered(RIDER, order.order_id).unwrap();
    assert_eq!(s.signed[3..], [RIDER]);
    s.dispute(CUSTOMER, order.order_id).unwrap();
    assert_eq!(s.signed[4..], [CUSTOMER]);
    advance(&mut s.env, 48 * HOUR);
    let ruling = Allocation { to_customer: 1_500, to_rider: 0, to_platform: 0, forfeit: 0 };
    s.resolve(ADMIN, order.order_id, ruling).unwrap();
    assert_eq!(s.signed[5..], [ADMIN]);
}

#[test]
fn strangers_are_turned_away() {
    let mut s = setup();
    let order = delivered(&mut s);
    let id = order.order_id;
    assert_eq!(s.confirm(RIDER, id), Err(ContractError::Unauthorized));
    assert_eq!(s.confirm(STRANGER, id), Err(ContractError::Unauthorized));
    assert_eq!(s.claim(CUSTOMER, id), Err(ContractError::Unauthorized));
    assert_eq!(s.dispute(STRANGER, id), Err(ContractError::Unauthorized));
    s.dispute(CUSTOMER, id).unwrap();
    advance(&mut s.env, 48 * HOUR);
    let ruling = Allocation { to_customer: 1_500, to_rider: 0, to_platform: 0, forfeit: 0 };
    assert_eq!(s.resolve(STRANGER, id, ruling), Err(ContractError::Unauthorized));
    assert_eq!(s.status(id), OrderStatus::Disputed);
}

#[test]
fn settled_orders_stay_settled() {
    let mut s = setup();
    let order = delivered(&mut s);
    let id = order.order_id;
    s.confirm(CUSTOMER, id).unwrap();
    advance(&mut s.env, 100 * HOUR);
    let ruling = Allocation { to_customer: 1_500, to_rider: 0, to_platform: 0, forfeit: 0 };
    assert_eq!(s.fund(id), Err(ContractError::NotInOpenState));
    assert_eq!(s.mark_delivered(RIDER, id), Err(ContractError::NotInFundedState));
    assert_eq!(s.confirm(CUSTOMER, id), Err(ContractError::NotInDeliveredState));
    assert_eq!(s.claim(RIDER, id), Err(ContractError::NotInDeliveredState));
    assert_eq!(s.dispute(RIDER, id), Err(ContractError::NotInDeliveredState));
    assert_eq!(s.resolve(ADMIN, id, ruling), Err(ContractError::NotInDisputedState));
    assert_eq!(s.cancel(id), Err(ContractError::InvalidStatus));
    assert_eq!(s.status(id), OrderStatus::Released);
    assert!(!DeliveryEscrowContract::is_timeout_claimable(&s.env, id));
}

#[test]
fn disputed_orders_are_frozen_until_the_ruling() {
    let mut s = setup();
    let order = delivered(&mut s);
    let id = order.order_id;
    s.dispute(CUSTOMER, id).unwrap();
    let frozen = DeliveryEscrowContract::get_order(&s.env, id).unwrap();
    advance(&mut s.env, 1_000 * HOUR);
    assert_eq!(s.confirm(CUSTOMER, id), Err(ContractError::NotInDeliveredState));
    assert_eq!(s.claim(RIDER, id), Err(ContractError::NotInDeliveredState));
    assert_eq!(s.cancel(id), Err(ContractError::InvalidStatus));
    assert_eq!(DeliveryEscrowContract::get_order(&s.env, id), Ok(frozen));
}

#[test]
fn unknown_orders_are_not_found() {
    let mut s = setup();
    let ruling = Allocation { to_customer: 0, to_rider: 0, to_platform: 0, forfeit: 0 };
    assert_eq!(s.fund(3), Err(ContractError::OrderNotFound));
    assert_eq!(s.mark_delivered(RIDER, 3), Err(ContractError::OrderNotFound));
    assert_eq!(s.confirm(CUSTOMER, 3), Err(ContractError::OrderNotFound));
    assert_eq!(s.claim(RIDER, 3), Err(ContractError::OrderNotFound));
    assert_eq!(s.dispute(RIDER, 3), Err(ContractError::OrderNotFound));
    assert_eq!(s.resolve(ADMIN, 3, ruling), Err(ContractError::OrderNotFound));
    assert_eq!(s.cancel(3), Err(ContractError::OrderNotFound));
    assert_eq!(
        DeliveryEscrowContract::get_order(&s.env, 3),
        Err(ContractError::OrderNotFound)
    );
    assert!(!DeliveryEscrowContract::is_timeout_claimable(&s.env, 3));
    assert!(s.signed.is_empty());
}
