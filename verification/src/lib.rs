//! Authorization-and-timing core for delegated block construction.
//!
//! A validator assigned to a future slot may delegate ("elect") a gateway to
//! build that slot's block, and the elected gateway may then submit binding
//! block-construction rules ("constraints") for the slot while it is active.
//! This crate holds the decision logic that guards both operations:
//!
//! - only the validator actually assigned to a slot may delegate it;
//! - only the currently elected gateway may submit constraints, and only for
//!   the active slot;
//! - every submission must arrive within a configured window measured from
//!   the slot's scheduled start;
//! - at most one constraints submission is accepted per slot.
//!
//! The modules split along those lines: [`types`] holds the data model,
//! [`validation`] the pure accept/reject decisions, [`store`] the persistence
//! interface with an in-memory implementation, [`api`] the request handlers,
//! and [`laws`] the proved statements of the guarantees above.

pub mod api;
pub mod errors;
pub mod laws;
pub mod store;
pub mod types;
pub mod validation;
