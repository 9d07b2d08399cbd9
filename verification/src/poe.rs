//! The claim registry: proof of existence.
//!
//! * [`state`]: the mathematical model of the registry and of its calls.
//! * [`storage`]: the registry in memory, entry by entry.
//! * [`calls`]: recording, withdrawing and handing over claims.

pub mod calls;
pub mod state;
pub mod storage;
