//! Verified state-transition logic for two small ledger modules.
//!
//! [`kitties`] is a registry of collectible kitties: it hands out identifiers,
//! records who owns which kitty, and breeds new kitties out of two parents.
//! [`poe`] is a registry of claims over byte strings (proof of existence).
//!
//! Both are written as plain state machines. The host that embeds them passes
//! in who is calling and what entropy the current block offers, applies the
//! returned event, and keeps the state between calls.

pub mod kitties;
pub mod poe;
