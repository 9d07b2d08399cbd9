//! The three calls: create a kitty, hand one over, breed two.
//!
//! A call either does all of its work and answers with an event, or changes
//! nothing and answers with the reason. The host says who is calling; where
//! DNA is drawn, it also passes the entropy of the block and the position of
//! the call in it.

use vstd::prelude::*;
use crate::kitties::dna::{combine_dna, Kitty};
use crate::kitties::entropy::random_dna;
use crate::kitties::laws::{lemma_breed_keeps_wf, lemma_create_keeps_wf, lemma_transfer_keeps_wf};
use crate::kitties::state::{AccountId, Error, Event, KittyIndex};
use crate::kitties::storage::Pallet;

verus! {

impl Pallet {
    /// Stores `kitty` for `who` under the index that was handed out for it and
    /// moves the counter past that index.
    fn mint(&mut self, kitty_id: KittyIndex, kitty: Kitty, who: AccountId)
        requires
            !old(self)@.exhausted(),
            kitty_id == old(self)@.next_id(),
        ensures
            final(self)@ == old(self)@.minted(who, kitty@),
    {
        self.insert_kitty(kitty_id, kitty, who);
        self.put_kitties_count(kitty_id + 1);
    }

    /// The parents of a breeding and the index for their child, or the reason
    /// why `kitty_id_1` and `kitty_id_2` cannot be bred.
    fn breeding_pair(&self, kitty_id_1: KittyIndex, kitty_id_2: KittyIndex) -> (pair: Result<
        (Kitty, Kitty, KittyIndex),
        Error,
    >)
        ensures
            match pair {
                Ok((kitty_1, kitty_2, kitty_id)) => {
                    &&& self@.breed_result(kitty_id_1, kitty_id_2) is Ok
                    &&& kitty_1@ == self@.kitties[kitty_id_1]
                    &&& kitty_2@ == self@.kitties[kitty_id_2]
                    &&& kitty_id == self@.next_id()
                },
                Err(e) => self@.breed_result(kitty_id_1, kitty_id_2) == Err::<Event, Error>(e),
            },
    {
        if kitty_id_1 == kitty_id_2 {
            return Err(Error::SameParentIndex);
        }
        let kitty_1 = match self.kitties(kitty_id_1) {
            Some(kitty) => kitty,
            None => {
                return Err(Error::KittyNotExist);
            },
        };
        let kitty_2 = match self.kitties(kitty_id_2) {
            Some(kitty) => kitty,
            None => {
                return Err(Error::KittyNotExist);
            },
        };
        match self.next_kitty_id() {
            Ok(kitty_id) => Ok((kitty_1, kitty_2, kitty_id)),
            Err(e) => Err(e),
        }
    }

    /// Creates a kitty with the given DNA for `who`.
    ///
    /// The kitty gets the next index and the counter moves on by one. Once
    /// the counter has reached the largest index nothing is created.
    pub fn create_kitty_with_dna(&mut self, who: AccountId, dna: [u8; 16]) -> (result: Result<
        Event,
        Error,
    >)
        ensures
            result == old(self)@.create_result(who),
            final(self)@ == old(self)@.after_create(who, dna@),
            result is Err ==> final(self)@ == old(self)@,
            old(self)@.exhausted() <==> result == Err::<Event, Error>(Error::KittiesCountOverflow),
            old(self)@.wf() ==> final(self)@.wf(),
    {
        proof {
            if old(self)@.wf() {
                lemma_create_keeps_wf(old(self)@, who, dna@);
            }
        }
        let kitty_id = match self.next_kitty_id() {
            Ok(id) => id,
            Err(e) => {
                return Err(e);
            },
        };
        self.mint(kitty_id, Kitty(dna), who);
        Ok(Event::KittyCreated(who, kitty_id))
    }

    /// Creates a kitty for `who`, with DNA drawn from the block's `seed`, the
    /// caller and the position of the call in the block.
    ///
    /// The kitty gets the next index and the counter moves on by one. Once
    /// the counter has reached the largest index nothing is created.
    pub fn create_kitty(
        &mut self,
        who: AccountId,
        seed: &[u8],
        extrinsic_index: Option<u32>,
    ) -> (result: Result<Event, Error>)
        ensures
            result == old(self)@.create_result(who),
            final(self)@ == old(self)@.after_create(
                who,
                random_dna(seed@, who, extrinsic_index),
            ),
            result is Err ==> final(self)@ == old(self)@,
            old(self)@.exhausted() <==> result == Err::<Event, Error>(Error::KittiesCountOverflow),
            old(self)@.wf() ==> final(self)@.wf(),
    {
        let kitty_id = match self.next_kitty_id() {
            Ok(id) => id,
            Err(e) => {
                return Err(e);
            },
        };
        let dna = Self::random_value(seed, who, extrinsic_index);
        proof {
            if old(self)@.wf() {
                lemma_create_keeps_wf(old(self)@, who, dna@);
            }
        }
        self.mint(kitty_id, Kitty(dna), who);
        Ok(Event::KittyCreated(who, kitty_id))
    }

    /// Hands the kitty `kitty_id` from `who` to `new_owner`.
    ///
    /// The call succeeds exactly when the kitty exists and `who` is its owner
    /// on record. Nothing but the owner of that kitty changes. The new owner
    /// may be anyone, the caller included.
    pub fn transfer_kitty(
        &mut self,
        who: AccountId,
        new_owner: AccountId,
        kitty_id: KittyIndex,
    ) -> (result: Result<Event, Error>)
        ensures
            result == old(self)@.transfer_result(who, new_owner, kitty_id),
            final(self)@ == old(self)@.after_transfer(who, new_owner, kitty_id),
            result is Ok <==> old(self)@.kitties.contains_key(kitty_id) && old(self)@.owner_of(
                kitty_id,
            ) == Some(who),
            result is Ok ==> final(self)@.owner_of(kitty_id) == Some(new_owner),
            final(self)@.kitties == old(self)@.kitties,
            final(self)@.kitties_count == old(self)@.kitties_count,
            result is Err ==> final(self)@ == old(self)@,
            old(self)@.wf() ==> final(self)@.wf(),
    {
        proof {
            if old(self)@.wf() {
                lemma_transfer_keeps_wf(old(self)@, who, new_owner, kitty_id);
            }
        }
        if !self.contains_kitty(kitty_id) {
            return Err(Error::KittyNotExist);
        }
        if self.owner(kitty_id) != Some(who) {
            return Err(Error::NotKittyOwner);
        }
        self.set_owner(kitty_id, new_owner);
        Ok(Event::KittyTransfer(who, new_owner, kitty_id))
    }

    /// Breeds the kitties `kitty_id_1` and `kitty_id_2` under the given
    /// selector. The child belongs to `who`, gets the next index, and has the
    /// bit of the first parent wherever the selector has a one and the bit of
    /// the second parent wherever it has a zero.
    ///
    /// The two indices must differ and both kitties must exist; they need not
    /// belong to the caller. Once the counter has reached the largest index
    /// nothing is bred.
    pub fn breed_kitty_with_selector(
        &mut self,
        who: AccountId,
        kitty_id_1: KittyIndex,
        kitty_id_2: KittyIndex,
        selector: [u8; 16],
    ) -> (result: Result<Event, Error>)
        ensures
            result == old(self)@.breed_result(kitty_id_1, kitty_id_2),
            final(self)@ == old(self)@.after_breed(who, kitty_id_1, kitty_id_2, selector@),
            result is Err ==> final(self)@ == old(self)@,
            kitty_id_1 == kitty_id_2 ==> result == Err::<Event, Error>(Error::SameParentIndex),
            kitty_id_1 != kitty_id_2 && !(old(self)@.kitties.contains_key(kitty_id_1) && old(
                self,
            )@.kitties.contains_key(kitty_id_2)) ==> result == Err::<Event, Error>(
                Error::KittyNotExist,
            ),
            old(self)@.exhausted() ==> result is Err,
            old(self)@.exhausted() && kitty_id_1 != kitty_id_2 && old(self)@.kitties.contains_key(
                kitty_id_1,
            ) && old(self)@.kitties.contains_key(kitty_id_2) ==> result == Err::<Event, Error>(
                Error::KittiesCountOverflow,
            ),
            old(self)@.wf() ==> final(self)@.wf(),
    {
        let (kitty_1, kitty_2, kitty_id) = match self.breeding_pair(kitty_id_1, kitty_id_2) {
            Ok(pair) => pair,
            Err(e) => {
                return Err(e);
            },
        };
        let new_dna = combine_dna(&selector, &kitty_1.0, &kitty_2.0);
        proof {
            if old(self)@.wf() {
                lemma_breed_keeps_wf(old(self)@, who, kitty_id_1, kitty_id_2, selector@);
            }
        }
        self.mint(kitty_id, Kitty(new_dna), who);
        Ok(Event::KittyBreed(kitty_id_1, kitty_id_2))
    }

    /// Breeds the kitties `kitty_id_1` and `kitty_id_2`, with a selector drawn
    /// from the block's `seed`, the caller and the position of the call in the
    /// block. The child belongs to `who`, gets the next index, and has the bit
    /// of the first parent wherever the selector has a one and the bit of the
    /// second parent wherever it has a zero.
    ///
    /// The two indices must differ and both kitties must exist; they need not
    /// belong to the caller. Once the counter has reached the largest index
    /// nothing is bred.
    pub fn breed_kitty(
        &mut self,
        who: AccountId,
        kitty_id_1: KittyIndex,
        kitty_id_2: KittyIndex,
        seed: &[u8],
        extrinsic_index: Option<u32>,
    ) -> (result: Result<Event, Error>)
        ensures
            result == old(self)@.breed_result(kitty_id_1, kitty_id_2),
            final(self)@ == old(self)@.after_breed(
                who,
                kitty_id_1,
                kitty_id_2,
                random_dna(seed@, who, extrinsic_index),
            ),
            result is Err ==> final(self)@ == old(self)@,
            kitty_id_1 == kitty_id_2 ==> result == Err::<Event, Error>(Error::SameParentIndex),
            kitty_id_1 != kitty_id_2 && !(old(self)@.kitties.contains_key(kitty_id_1) && old(
                self,
            )@.kitties.contains_key(kitty_id_2)) ==> result == Err::<Event, Error>(
                Error::KittyNotExist,
            ),
            old(self)@.exhausted() ==> result is Err,
            old(self)@.exhausted() && kitty_id_1 != kitty_id_2 && old(self)@.kitties.contains_key(
                kitty_id_1,
            ) && old(self)@.kitties.contains_key(kitty_id_2) ==> result == Err::<Event, Error>(
                Error::KittiesCountOverflow,
            ),
            old(self)@.wf() ==> final(self)@.wf(),
    {
        let (kitty_1, kitty_2, kitty_id) = match self.breeding_pair(kitty_id_1, kitty_id_2) {
            Ok(pair) => pair,
            Err(e) => {
                return Err(e);
            },
        };
        let selector = Self::random_value(seed, who, extrinsic_index);
        let new_dna = combine_dna(&selector, &kitty_1.0, &kitty_2.0);
        proof {
            if old(self)@.wf() {
                lemma_breed_keeps_wf(old(self)@, who, kitty_id_1, kitty_id_2, selector@);
            }
        }
        self.mint(kitty_id, Kitty(new_dna), who);
        Ok(Event::KittyBreed(kitty_id_1, kitty_id_2))
    }
}

} // verus!
