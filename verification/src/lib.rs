//! Two-sided delivery escrow.
//!
//! A customer escrows a delivery fee and a rider escrows a performance bond.
//! The pot is released when the customer confirms, when the rider claims after
//! the confirmation window has passed in silence, when the administrator rules
//! on a dispute, or when both parties cancel before delivery.
//!
//! [`env::EscrowEnv`] holds the part of the ledger that the contract sees, and the
//! list of host operations that a call asks for. The entry points of
//! [`contract::DeliveryEscrowContract`] work on it; [`model`] says what each
//! answers and what it makes of the ledger. [`laws`] proves what holds of every
//! sequence of calls, and [`guarantees`] what the parties can rely on.
pub mod actions;
pub mod contract;
pub mod env;
pub mod guarantees;
pub mod history;
pub mod index;
pub mod laws;
pub mod model;
pub mod rules;
pub mod types;
