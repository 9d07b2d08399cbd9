//! The kitty registry.
//!
//! * [`dna`]: what a kitty is, and how the DNA of two parents is combined.
//! * [`state`]: the mathematical model of the registry and of its calls.
//! * [`storage`]: the registry in memory, entry by entry.
//! * [`entropy`]: pseudo-random DNA from what the host knows of the block.
//! * [`calls`]: creating, handing over and breeding kitties.
//! * [`laws`]: what holds of the registry whatever is asked of it.

pub mod calls;
pub mod dna;
pub mod entropy;
pub mod laws;
pub mod state;
pub mod storage;
