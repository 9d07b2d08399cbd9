//! The three calls: record a claim, withdraw it, hand it over.
//!
//! A call either does all of its work and answers with an event, or changes
//! nothing and answers with the reason. The host says who is calling and, for
//! a new claim, which block is being built.

use vstd::prelude::*;
use crate::poe::state::{AccountId, BlockNumber, Error, Event};
use crate::poe::storage::Pallet;

verus! {

impl Pallet {
    /// Why `sender` cannot dispose of `claim`, or the block in which the claim
    /// was recorded if they can.
    fn owned_claim(&self, sender: AccountId, claim: &[u8]) -> (found: Result<BlockNumber, Error>)
        requires
            self.wf(),
        ensures
            match found {
                Ok(block_number) => self@.owner_refusal(sender, claim@) is None
                    && self@.proofs[claim@] == (sender, block_number),
                Err(e) => self@.owner_refusal(sender, claim@) == Some(e),
            },
    {
        match self.proofs(claim) {
            None => Err(Error::ClaimNotExists),
            Some((owner, block_number)) => {
                if owner == sender {
                    Ok(block_number)
                } else {
                    Err(Error::NotClaimOwner)
                }
            },
        }
    }

    /// Records `claim` for `sender`, together with the block in which this
    /// happens.
    ///
    /// A claim longer than the host allows is refused, and so is one that is
    /// on record already, whoever owns it.
    pub fn create_claim(&mut self, sender: AccountId, claim: Vec<u8>, block_number: BlockNumber) -> (result:
        Result<Event, Error>)
        requires
            old(self).wf(),
        ensures
            final(self).wf(),
            final(self)@ == old(self)@.after_create(sender, claim@, block_number),
            match result {
                Ok(event) => old(self)@.create_refusal(claim@) is None && event == Event::ClaimCreated(
                    sender,
                    claim,
                ),
                Err(e) => old(self)@.create_refusal(claim@) == Some(e) && final(self)@ == old(
                    self,
                )@,
            },
            result is Ok ==> final(self)@.proof_of(claim@) == Some((sender, block_number)),
    {
        if claim.len() > self.string_limit() as usize {
            return Err(Error::ClaimTooLong);
        }
        if self.contains_claim(claim.as_slice()) {
            return Err(Error::ProofAlreadyExist);
        }
        let recorded = claim.clone();
        self.insert_proof(recorded, sender, block_number);
        Ok(Event::ClaimCreated(sender, claim))
    }

    /// Withdraws `claim`, which `sender` must own. Afterwards the claim is
    /// not on record and anyone may record it anew.
    pub fn revoke_claim(&mut self, sender: AccountId, claim: Vec<u8>) -> (result: Result<
        Event,
        Error,
    >)
        requires
            old(self).wf(),
        ensures
            final(self).wf(),
            final(self)@ == old(self)@.after_revoke(sender, claim@),
            match result {
                Ok(event) => old(self)@.owner_refusal(sender, claim@) is None && event
                    == Event::ClaimRevoke(sender, claim),
                Err(e) => old(self)@.owner_refusal(sender, claim@) == Some(e) && final(self)@
                    == old(self)@,
            },
            result is Ok ==> final(self)@.proof_of(claim@) is None,
    {
        match self.owned_claim(sender, claim.as_slice()) {
            Ok(_) => {},
            Err(e) => {
                return Err(e);
            },
        }
        self.remove_proof(claim.as_slice());
        Ok(Event::ClaimRevoke(sender, claim))
    }

    /// Hands `claim`, which `sender` must own, to `receiver`. The claim keeps
    /// the block in which it was recorded. The receiver may be anyone, the
    /// sender included.
    pub fn transfer_claim(&mut self, sender: AccountId, claim: Vec<u8>, receiver: AccountId) -> (result:
        Result<Event, Error>)
        requires
            old(self).wf(),
        ensures
            final(self).wf(),
            final(self)@ == old(self)@.after_transfer(sender, claim@, receiver),
            match result {
                Ok(event) => old(self)@.owner_refusal(sender, claim@) is None && event
                    == Event::ClaimTransfer(sender, claim, receiver),
                Err(e) => old(self)@.owner_refusal(sender, claim@) == Some(e) && final(self)@
                    == old(self)@,
            },
            result is Ok ==> final(self)@.proof_of(claim@) == Some(
                (receiver, old(self)@.proofs[claim@].1),
            ),
    {
        let block_number = match self.owned_claim(sender, claim.as_slice()) {
            Ok(block_number) => block_number,
            Err(e) => {
                return Err(e);
            },
        };
        let recorded = claim.clone();
        self.insert_proof(recorded, receiver, block_number);
        Ok(Event::ClaimTransfer(sender, claim, receiver))
    }
}

} // verus!
