//! The registry as it is held in memory: a counter and two maps.
//!
//! The operations here read and write single entries and check nothing. The
//! rules that keep counter, kitties and owners in step are those of the calls.

use std::collections::HashMap;
use vstd::prelude::*;
use crate::kitties::dna::Kitty;
use crate::kitties::state::{AccountId, Error, KittyIndex, State};

verus! {

/// The kitty registry.
#[derive(Clone, Debug, PartialEq, Eq)]
pub struct Pallet {
    kitties_count: Option<KittyIndex>,
    kitties: HashMap<KittyIndex, Kitty>,
    owner: HashMap<KittyIndex, AccountId>,
}

impl View for Pallet {
    type V = State;

    closed spec fn view(&self) -> State {
        State {
            kitties_count: self.kitties_count,
            kitties: Map::new(
                |id: KittyIndex| self.kitties@.contains_key(id),
                |id: KittyIndex| self.kitties@[id]@,
            ),
            owner: self.owner@,
        }
    }
}

impl Pallet {
    /// An empty registry.
    pub fn new() -> (pallet: Pallet)
        ensures
            pallet@ == State::genesis(),
            pallet@.wf(),
    {
        let pallet = Pallet { kitties_count: None, kitties: HashMap::new(), owner: HashMap::new() };
        assert(pallet@.kitties =~= Map::empty());
        pallet
    }

    /// Every stored kitty has sixteen bytes of DNA.
    pub proof fn lemma_dna_has_sixteen_bytes(&self)
        ensures
            forall|id: KittyIndex| #[trigger]
                self@.kitties.contains_key(id) ==> self@.kitties[id].len() == 16,
    {
    }

    /// The index that the next kitty gets, or `None` before the first one.
    pub fn kitties_count(&self) -> (count: Option<KittyIndex>)
        ensures
            count == self@.kitties_count,
    {
        self.kitties_count
    }

    /// The kitty with index `kitty_id`, if there is one.
    pub fn kitties(&self, kitty_id: KittyIndex) -> (kitty: Option<Kitty>)
        ensures
            match kitty {
                Some(k) => self@.kitties.contains_key(kitty_id) && k@ == self@.kitties[kitty_id],
                None => !self@.kitties.contains_key(kitty_id),
            },
    {
        match self.kitties.get(&kitty_id) {
            Some(kitty) => Some(*kitty),
            None => None,
        }
    }

    /// The owner on record for `kitty_id`, if there is one.
    pub fn owner(&self, kitty_id: KittyIndex) -> (owner: Option<AccountId>)
        ensures
            owner == self@.owner_of(kitty_id),
    {
        match self.owner.get(&kitty_id) {
            Some(owner) => Some(*owner),
            None => None,
        }
    }

    /// Whether a kitty with index `kitty_id` is stored.
    pub fn contains_kitty(&self, kitty_id: KittyIndex) -> (found: bool)
        ensures
            found == self@.kitties.contains_key(kitty_id),
    {
        self.kitties.contains_key(&kitty_id)
    }

    /// Sets the counter, and nothing else.
    pub fn put_kitties_count(&mut self, count: KittyIndex)
        ensures
            final(self)@ == (State { kitties_count: Some(count), ..old(self)@ }),
    {
        self.kitties_count = Some(count);
    }

    /// Stores `kitty` under `kitty_id` together with its owner, replacing
    /// what was there. The counter stays as it is.
    pub fn insert_kitty(&mut self, kitty_id: KittyIndex, kitty: Kitty, owner: AccountId)
        ensures
            final(self)@ == (State {
                kitties: old(self)@.kitties.insert(kitty_id, kitty@),
                owner: old(self)@.owner.insert(kitty_id, owner),
                ..old(self)@
            }),
    {
        self.kitties.insert(kitty_id, kitty);
        self.owner.insert(kitty_id, owner);
        assert(self@.kitties =~= old(self)@.kitties.insert(kitty_id, kitty@));
    }

    /// Records `owner` as the owner of the stored kitty `kitty_id`.
    pub fn set_owner(&mut self, kitty_id: KittyIndex, owner: AccountId)
        requires
            old(self)@.kitties.contains_key(kitty_id),
        ensures
            final(self)@ == (State {
                owner: old(self)@.owner.insert(kitty_id, owner),
                ..old(self)@
            }),
    {
        self.owner.insert(kitty_id, owner);
    }

    /// The index for the next kitty. Hands out nothing once the counter has
    /// reached the largest index, and never changes the counter itself: the
    /// call that stores the kitty moves it on.
    pub fn next_kitty_id(&self) -> (id: Result<KittyIndex, Error>)
        ensures
            id == if self@.exhausted() {
                Err::<KittyIndex, Error>(Error::KittiesCountOverflow)
            } else {
                Ok(self@.next_id())
            },
    {
        match self.kitties_count {
            Some(count) => {
                if count == KittyIndex::MAX {
                    Err(Error::KittiesCountOverflow)
                } else {
                    Ok(count)
                }
            },
            None => Ok(0),
        }
    }
}

} // verus!
