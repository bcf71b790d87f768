//! State-transition core of a fungible-token program.
//!
//! The core keeps the authoritative metadata and aggregate-supply counter of
//! one token type, and gates every supply- or balance-changing request behind
//! authority and invariant checks before delegating the actual balance
//! mutation to the host environment's ledger service. The host performs the
//! delegated call and reports its verdict; the core's staged mutation is
//! committed only on acceptance, so an operation either fully applies or has
//! no effect.

pub mod errors;
pub mod facade;
pub mod guard;
pub mod ids;
pub mod record;
pub mod replay;
