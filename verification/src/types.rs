//! The data that the escrow works on.
use vstd::prelude::*;

verus! {

// ---------------------------------------------------------------------------
// Storage lifetimes (about five seconds per ledger)
// ---------------------------------------------------------------------------
/// Remaining ledgers under which the instance entry is extended (about a day).
pub const INSTANCE_TTL_THRESHOLD: u32 = 17_280;

/// Ledgers that the instance entry is extended to (about thirty days).
pub const INSTANCE_TTL_EXTEND: u32 = 518_400;

/// Remaining ledgers under which a persistent entry is extended.
pub const PERSISTENT_TTL_THRESHOLD: u32 = 17_280;

/// Least number of ledgers that a persistent entry is extended to.
pub const PERSISTENT_TTL_EXTEND_MIN: u32 = 518_400;

/// Seconds between two ledgers.
pub const SECS_PER_LEDGER: u64 = 5;

// ---------------------------------------------------------------------------
// Protocol parameters
// ---------------------------------------------------------------------------
/// Suggested window after `mark_delivered` in which the customer can confirm
/// or either party can dispute (24 hours).
pub const DEFAULT_CONFIRMATION_WINDOW_SECS: u64 = 86_400;

/// Suggested window after `dispute` in which evidence is gathered (48 hours).
pub const DEFAULT_EVIDENCE_WINDOW_SECS: u64 = 172_800;

/// Longest confirmation window (7 days).
pub const MAX_CONFIRMATION_WINDOW_SECS: u64 = 604_800;

/// Longest evidence window (14 days).
pub const MAX_EVIDENCE_WINDOW_SECS: u64 = 1_209_600;

/// Denominator of the platform fee.
pub const BPS_DENOMINATOR: i128 = 10_000;

/// Highest platform fee, in basis points (50 %).
pub const MAX_PLATFORM_FEE_BPS: u32 = 5_000;

/// A party on the ledger: an account, by its 256-bit public key, or a contract,
/// by its 256-bit identifier. Both are split into two big-endian halves.
#[derive(Clone, Copy, Debug, PartialEq, Eq, Hash, Structural)]
pub enum Address {
    Account { high: u128, low: u128 },
    Contract { high: u128, low: u128 },
}

/// Why a call was refused.
#[derive(Copy, Clone, Debug, Eq, PartialEq, PartialOrd, Ord, Structural)]
pub enum ContractError {
    InvalidAmount,
    InvalidBond,
    InvalidFeeBps,
    InvalidWindow,
    InvalidStatus,
    OrderNotFound,
    Unauthorized,
    NotInOpenState,
    NotInFundedState,
    NotInDeliveredState,
    NotInDisputedState,
    ConfirmationWindowOpen,
    ConfirmationWindowClosed,
    EvidenceWindowOpen,
    AllocationExceedsPot,
    TimestampOverflow,
    SelfDealNotAllowed,
    AlreadyFunded,
}

/// The number under which a refusal is reported.
pub open spec fn error_code(e: ContractError) -> u32 {
    match e {
        ContractError::InvalidAmount => 1,
        ContractError::InvalidBond => 2,
        ContractError::InvalidFeeBps => 3,
        ContractError::InvalidWindow => 4,
        ContractError::InvalidStatus => 5,
        ContractError::OrderNotFound => 6,
        ContractError::Unauthorized => 7,
        ContractError::NotInOpenState => 8,
        ContractError::NotInFundedState => 9,
        ContractError::NotInDeliveredState => 10,
        ContractError::NotInDisputedState => 11,
        ContractError::ConfirmationWindowOpen => 12,
        ContractError::ConfirmationWindowClosed => 13,
        ContractError::EvidenceWindowOpen => 14,
        ContractError::AllocationExceedsPot => 15,
        ContractError::TimestampOverflow => 16,
        ContractError::SelfDealNotAllowed => 17,
        ContractError::AlreadyFunded => 18,
    }
}

impl ContractError {
    /// The number under which the refusal is reported.
    pub fn code(&self) -> (code: u32)
        ensures
            code == error_code(*self),
    {
        match *self {
            ContractError::InvalidAmount => 1,
            ContractError::InvalidBond => 2,
            ContractError::InvalidFeeBps => 3,
            ContractError::InvalidWindow => 4,
            ContractError::InvalidStatus => 5,
            ContractError::OrderNotFound => 6,
            ContractError::Unauthorized => 7,
            ContractError::NotInOpenState => 8,
            ContractError::NotInFundedState => 9,
            ContractError::NotInDeliveredState => 10,
            ContractError::NotInDisputedState => 11,
            ContractError::ConfirmationWindowOpen => 12,
            ContractError::ConfirmationWindowClosed => 13,
            ContractError::EvidenceWindowOpen => 14,
            ContractError::AllocationExceedsPot => 15,
            ContractError::TimestampOverflow => 16,
            ContractError::SelfDealNotAllowed => 17,
            ContractError::AlreadyFunded => 18,
        }
    }
}

/// Where a value is stored on the ledger.
#[derive(Clone, Copy, Debug, PartialEq, Eq, Structural)]
pub enum DataKey {
    // Instance storage
    Admin,
    Token,
    PlatformFeeWallet,
    NextOrderId,
    // Persistent storage
    Order(u64),
    CustomerOrders(Address),
    RiderOrders(Address),
}

/// Lifecycle of a single delivery order.
///
/// ```text
/// Open --(fund)--> Funded --(mark_delivered)--> Delivered
///                                                  |
///                              +-------------------+--------------------+
///                              | (confirm)         | (dispute)          | (claim_after_timeout)
///                              v                   v                    v
///                           Released            Disputed             Released
///                                                  |
///                                              (resolve)
///                                                  v
///                                              Resolved
///
/// Open / Funded --(mutual_cancel)--> Cancelled
/// ```
#[derive(Clone, Copy, Debug, PartialEq, Eq, Structural)]
pub enum OrderStatus {
    Open,
    Funded,
    Delivered,
    Disputed,
    Released,
    Resolved,
    Cancelled,
}

/// The number under which a status is stored.
pub open spec fn status_code(s: OrderStatus) -> u32 {
    match s {
        OrderStatus::Open => 0,
        OrderStatus::Funded => 1,
        OrderStatus::Delivered => 2,
        OrderStatus::Disputed => 3,
        OrderStatus::Released => 4,
        OrderStatus::Resolved => 5,
        OrderStatus::Cancelled => 6,
    }
}

impl OrderStatus {
    /// The number under which the status is stored.
    pub fn code(&self) -> (code: u32)
        ensures
            code == status_code(*self),
    {
        match *self {
            OrderStatus::Open => 0,
            OrderStatus::Funded => 1,
            OrderStatus::Delivered => 2,
            OrderStatus::Disputed => 3,
            OrderStatus::Released => 4,
            OrderStatus::Resolved => 5,
            OrderStatus::Cancelled => 6,
        }
    }
}

/// A single delivery escrow record. All amounts are in the platform token.
#[derive(Debug, PartialEq, Eq)]
pub struct Order {
    pub order_id: u64,
    pub customer: Address,
    pub rider: Address,
    /// Delivery fee paid by the customer (held in escrow).
    pub delivery_fee: i128,
    /// Bond staked by the rider (held in escrow).
    pub rider_bond: i128,
    /// Platform fee, deducted from `delivery_fee` on release. In basis points.
    pub platform_fee_bps: u32,
    /// Confirmation window (seconds) after `mark_delivered`.
    pub confirmation_window_secs: u64,
    /// Evidence window (seconds) after `dispute`.
    pub evidence_window_secs: u64,
    pub status: OrderStatus,
    pub created_at: u64,
    /// Ledger timestamp of `mark_delivered`. 0 if not yet delivered.
    pub delivered_at: u64,
    /// Ledger timestamp of `dispute`. 0 if not disputed.
    pub disputed_at: u64,
    /// Pointer to the order details (such as an IPFS hash), as raw bytes.
    pub metadata_uri: Vec<u8>,
}

/// The mathematical value of an [`Order`].
#[verifier::ext_equal]
pub struct OrderView {
    pub order_id: u64,
    pub customer: Address,
    pub rider: Address,
    pub delivery_fee: i128,
    pub rider_bond: i128,
    pub platform_fee_bps: u32,
    pub confirmation_window_secs: u64,
    pub evidence_window_secs: u64,
    pub status: OrderStatus,
    pub created_at: u64,
    pub delivered_at: u64,
    pub disputed_at: u64,
    pub metadata_uri: Seq<u8>,
}

impl View for Order {
    type V = OrderView;

    open spec fn view(&self) -> OrderView {
        OrderView {
            order_id: self.order_id,
            customer: self.customer,
            rider: self.rider,
            delivery_fee: self.delivery_fee,
            rider_bond: self.rider_bond,
            platform_fee_bps: self.platform_fee_bps,
            confirmation_window_secs: self.confirmation_window_secs,
            evidence_window_secs: self.evidence_window_secs,
            status: self.status,
            created_at: self.created_at,
            delivered_at: self.delivered_at,
            disputed_at: self.disputed_at,
            metadata_uri: self.metadata_uri@,
        }
    }
}

impl Clone for Order {
    fn clone(&self) -> (copy: Self)
        ensures
            copy@ == self@,
    {
        let metadata_uri: Vec<u8> = self.metadata_uri.clone();
        assert(metadata_uri@ =~= self.metadata_uri@);
        Order {
            order_id: self.order_id,
            customer: self.customer,
            rider: self.rider,
            delivery_fee: self.delivery_fee,
            rider_bond: self.rider_bond,
            platform_fee_bps: self.platform_fee_bps,
            confirmation_window_secs: self.confirmation_window_secs,
            evidence_window_secs: self.evidence_window_secs,
            status: self.status,
            created_at: self.created_at,
            delivered_at: self.delivered_at,
            disputed_at: self.disputed_at,
            metadata_uri,
        }
    }
}

impl OrderView {
    /// What the two parties have put, or are to put, into escrow together.
    pub open spec fn pot(self) -> int {
        self.delivery_fee + self.rider_bond
    }

    /// Whether the pot is in the contract's hands.
    pub open spec fn in_escrow(self) -> bool {
        self.status == OrderStatus::Funded || self.status == OrderStatus::Delivered || self.status
            == OrderStatus::Disputed
    }

    /// First instant at which the confirmation window is over.
    pub open spec fn confirmation_end(self) -> int {
        self.delivered_at + self.confirmation_window_secs
    }

    /// First instant at which the evidence window is over.
    pub open spec fn evidence_end(self) -> int {
        self.disputed_at + self.evidence_window_secs
    }

    /// Both windows together, capped at the largest representable duration.
    pub open spec fn life_secs(self) -> u64 {
        if self.confirmation_window_secs + self.evidence_window_secs > u64::MAX {
            u64::MAX
        } else {
            (self.confirmation_window_secs + self.evidence_window_secs) as u64
        }
    }

    /// The terms are such as `create_order` accepts.
    pub open spec fn valid_terms(self) -> bool {
        &&& self.delivery_fee > 0
        &&& self.rider_bond >= 0
        &&& self.platform_fee_bps <= MAX_PLATFORM_FEE_BPS
        &&& 0 < self.confirmation_window_secs <= MAX_CONFIRMATION_WINDOW_SECS
        &&& 0 < self.evidence_window_secs <= MAX_EVIDENCE_WINDOW_SECS
        &&& self.customer != self.rider
    }

    /// Both records agree on everything that was fixed at creation.
    pub open spec fn same_terms(self, other: OrderView) -> bool {
        &&& self.order_id == other.order_id
        &&& self.customer == other.customer
        &&& self.rider == other.rider
        &&& self.delivery_fee == other.delivery_fee
        &&& self.rider_bond == other.rider_bond
        &&& self.platform_fee_bps == other.platform_fee_bps
        &&& self.confirmation_window_secs == other.confirmation_window_secs
        &&& self.evidence_window_secs == other.evidence_window_secs
        &&& self.created_at == other.created_at
        &&& self.metadata_uri == other.metadata_uri
    }
}

/// How a pot is divided.
///
/// A ruling on a dispute divides exactly `delivery_fee + rider_bond`. The
/// platform's share is part of it, so that it can be waived.
#[derive(Clone, Copy, Debug, PartialEq, Eq, Structural)]
pub struct Allocation {
    pub to_customer: i128,
    pub to_rider: i128,
    pub to_platform: i128,
    /// Slashed amount that stays with the contract; 0 in normal cases.
    pub forfeit: i128,
}

impl Allocation {
    /// Sum of the four shares.
    pub open spec fn total(self) -> int {
        self.to_customer + self.to_rider + self.to_platform + self.forfeit
    }

    /// No share is negative.
    pub open spec fn non_negative(self) -> bool {
        &&& self.to_customer >= 0
        &&& self.to_rider >= 0
        &&& self.to_platform >= 0
        &&& self.forfeit >= 0
    }
}

} // verus!
