//! The mathematical model of the claim registry: what is stored, and what
//! each call answers and leaves behind.

use vstd::prelude::*;

verus! {

/// Identifies whoever makes a call, as the host has authenticated them.
pub type AccountId = u64;

/// The number of a block.
pub type BlockNumber = u64;

/// What the host configures.
#[derive(Clone, Copy, Debug, PartialEq, Eq, Structural)]
pub struct Config {
    /// The longest claim that is accepted, in bytes.
    pub string_limit: u32,
}

/// What a successful call reports to observers.
#[derive(Clone, Debug, PartialEq, Eq)]
pub enum Event {
    /// A claim was recorded: its owner and the claim.
    ClaimCreated(AccountId, Vec<u8>),
    /// A claim was withdrawn: its owner and the claim.
    ClaimRevoke(AccountId, Vec<u8>),
    /// A claim changed hands: the former owner, the claim and the new owner.
    ClaimTransfer(AccountId, Vec<u8>, AccountId),
}

/// Why a call was refused. A refused call changes nothing.
#[derive(Clone, Copy, Debug, PartialEq, Eq, Structural)]
pub enum Error {
    /// The claim is on record already.
    ProofAlreadyExist,
    /// The claim is not on record.
    ClaimNotExists,
    /// The caller does not own the claim.
    NotClaimOwner,
    /// The claim is longer than the host allows.
    ClaimTooLong,
}

/// Everything the registry stores: for each claim on record, its owner and
/// the block in which it was recorded.
pub struct State {
    /// The longest claim that is accepted, in bytes.
    pub string_limit: u32,
    /// The claims on record.
    pub proofs: Map<Seq<u8>, (AccountId, BlockNumber)>,
}

impl State {
    /// A registry without claims.
    pub open spec fn genesis(config: Config) -> State {
        State { string_limit: config.string_limit, proofs: Map::empty() }
    }

    /// What is on record for `claim`, if anything.
    pub open spec fn proof_of(self, claim: Seq<u8>) -> Option<(AccountId, BlockNumber)> {
        if self.proofs.contains_key(claim) {
            Some(self.proofs[claim])
        } else {
            None
        }
    }

    /// Why `claim` cannot be recorded, or `None` if it can.
    pub open spec fn create_refusal(self, claim: Seq<u8>) -> Option<Error> {
        if claim.len() > self.string_limit {
            Some(Error::ClaimTooLong)
        } else if self.proofs.contains_key(claim) {
            Some(Error::ProofAlreadyExist)
        } else {
            None
        }
    }

    /// The registry after `sender` asked in block `block_number` to have
    /// `claim` recorded.
    pub open spec fn after_create(
        self,
        sender: AccountId,
        claim: Seq<u8>,
        block_number: BlockNumber,
    ) -> State {
        if self.create_refusal(claim) is None {
            State { proofs: self.proofs.insert(claim, (sender, block_number)), ..self }
        } else {
            self
        }
    }

    /// Why `sender` cannot dispose of `claim`, or `None` if they can: the
    /// claim has to be on record, and `sender` has to be its owner.
    pub open spec fn owner_refusal(self, sender: AccountId, claim: Seq<u8>) -> Option<Error> {
        if !self.proofs.contains_key(claim) {
            Some(Error::ClaimNotExists)
        } else if self.proofs[claim].0 != sender {
            Some(Error::NotClaimOwner)
        } else {
            None
        }
    }

    /// The registry after `sender` asked to have `claim` withdrawn.
    pub open spec fn after_revoke(self, sender: AccountId, claim: Seq<u8>) -> State {
        if self.owner_refusal(sender, claim) is None {
            State { proofs: self.proofs.remove(claim), ..self }
        } else {
            self
        }
    }

    /// The registry after `sender` asked to hand `claim` to `receiver`. The
    /// claim keeps the block in which it was recorded.
    pub open spec fn after_transfer(
        self,
        sender: AccountId,
        claim: Seq<u8>,
        receiver: AccountId,
    ) -> State {
        if self.owner_refusal(sender, claim) is None {
            State { proofs: self.proofs.insert(claim, (receiver, self.proofs[claim].1)), ..self }
        } else {
            self
        }
    }
}

} // verus!
