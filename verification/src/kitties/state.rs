//! The mathematical model of the registry: what is stored, and what each call
//! answers and leaves behind.

use vstd::prelude::*;
use crate::kitties::dna::mix;

verus! {

/// Identifies a kitty. Indices are handed out in increasing order, starting
/// at zero, and never reused.
pub type KittyIndex = u32;

/// Identifies whoever makes a call, as the host has authenticated them.
pub type AccountId = u64;

/// What a successful call reports to observers.
#[derive(Clone, Copy, Debug, PartialEq, Eq, Structural)]
pub enum Event {
    /// A kitty was created: its owner and its index.
    KittyCreated(AccountId, KittyIndex),
    /// A kitty changed hands: the former owner, the new owner and the index.
    KittyTransfer(AccountId, AccountId, KittyIndex),
    /// Two kitties were bred: the indices of the parents.
    KittyBreed(KittyIndex, KittyIndex),
}

/// Why a call was refused. A refused call changes nothing.
#[derive(Clone, Copy, Debug, PartialEq, Eq, Structural)]
pub enum Error {
    /// Every index has been handed out.
    KittiesCountOverflow,
    /// The caller does not own the kitty.
    NotKittyOwner,
    /// No kitty has this index.
    KittyNotExist,
    /// A kitty cannot be bred with itself.
    SameParentIndex,
}

/// Everything the registry stores.
pub struct State {
    /// The index that the next kitty gets; `None` until the first one exists.
    pub kitties_count: Option<KittyIndex>,
    /// The DNA of each kitty.
    pub kitties: Map<KittyIndex, Seq<u8>>,
    /// The owner of each kitty.
    pub owner: Map<KittyIndex, AccountId>,
}

impl State {
    /// The registry before any call: no counter, no kitties, no owners.
    pub open spec fn genesis() -> State {
        State { kitties_count: None, kitties: Map::empty(), owner: Map::empty() }
    }

    /// The index that the next kitty gets.
    pub open spec fn next_id(self) -> KittyIndex {
        match self.kitties_count {
            Some(count) => count,
            None => 0,
        }
    }

    /// No index is left to hand out.
    pub open spec fn exhausted(self) -> bool {
        self.kitties_count == Some(KittyIndex::MAX)
    }

    /// The owner on record for `kitty_id`, if there is one.
    pub open spec fn owner_of(self, kitty_id: KittyIndex) -> Option<AccountId> {
        if self.owner.contains_key(kitty_id) {
            Some(self.owner[kitty_id])
        } else {
            None
        }
    }

    /// The counter agrees with what is stored: the kitties are exactly those
    /// with an index below the counter, each has sixteen bytes of DNA, and
    /// each has an owner.
    pub open spec fn wf(self) -> bool {
        &&& forall|id: KittyIndex| #[trigger] self.kitties.contains_key(id) <==> id < self.next_id()
        &&& forall|id: KittyIndex| #[trigger] self.owner.contains_key(id) <==> id < self.next_id()
        &&& forall|id: KittyIndex| #[trigger]
            self.kitties.contains_key(id) ==> self.kitties[id].len() == 16
    }

    /// The registry with one more kitty, which gets the next index and
    /// belongs to `who`. Meant for a registry that is not exhausted.
    pub open spec fn minted(self, who: AccountId, dna: Seq<u8>) -> State {
        State {
            kitties_count: Some((self.next_id() + 1) as KittyIndex),
            kitties: self.kitties.insert(self.next_id(), dna),
            owner: self.owner.insert(self.next_id(), who),
        }
    }

    /// What creating a kitty for `who` answers.
    pub open spec fn create_result(self, who: AccountId) -> Result<Event, Error> {
        if self.exhausted() {
            Err(Error::KittiesCountOverflow)
        } else {
            Ok(Event::KittyCreated(who, self.next_id()))
        }
    }

    /// The registry after `who` asked for a kitty with this DNA.
    pub open spec fn after_create(self, who: AccountId, dna: Seq<u8>) -> State {
        if self.create_result(who) is Ok {
            self.minted(who, dna)
        } else {
            self
        }
    }

    /// What `who` is answered when handing `kitty_id` to `new_owner`.
    pub open spec fn transfer_result(
        self,
        who: AccountId,
        new_owner: AccountId,
        kitty_id: KittyIndex,
    ) -> Result<Event, Error> {
        if !self.kitties.contains_key(kitty_id) {
            Err(Error::KittyNotExist)
        } else if self.owner_of(kitty_id) != Some(who) {
            Err(Error::NotKittyOwner)
        } else {
            Ok(Event::KittyTransfer(who, new_owner, kitty_id))
        }
    }

    /// The registry after `who` asked to hand `kitty_id` to `new_owner`.
    pub open spec fn after_transfer(
        self,
        who: AccountId,
        new_owner: AccountId,
        kitty_id: KittyIndex,
    ) -> State {
        if self.transfer_result(who, new_owner, kitty_id) is Ok {
            State { owner: self.owner.insert(kitty_id, new_owner), ..self }
        } else {
            self
        }
    }

    /// What breeding `kitty_id_1` with `kitty_id_2` answers. The parents need
    /// not belong to the caller.
    pub open spec fn breed_result(
        self,
        kitty_id_1: KittyIndex,
        kitty_id_2: KittyIndex,
    ) -> Result<Event, Error> {
        if kitty_id_1 == kitty_id_2 {
            Err(Error::SameParentIndex)
        } else if !self.kitties.contains_key(kitty_id_1) || !self.kitties.contains_key(
            kitty_id_2,
        ) {
            Err(Error::KittyNotExist)
        } else if self.exhausted() {
            Err(Error::KittiesCountOverflow)
        } else {
            Ok(Event::KittyBreed(kitty_id_1, kitty_id_2))
        }
    }

    /// The registry after `who` asked to breed the two kitties under
    /// `selector`.
    pub open spec fn after_breed(
        self,
        who: AccountId,
        kitty_id_1: KittyIndex,
        kitty_id_2: KittyIndex,
        selector: Seq<u8>,
    ) -> State {
        if self.breed_result(kitty_id_1, kitty_id_2) is Ok {
            self.minted(who, mix(selector, self.kitties[kitty_id_1], self.kitties[kitty_id_2]))
        } else {
            self
        }
    }
}

} // verus!
