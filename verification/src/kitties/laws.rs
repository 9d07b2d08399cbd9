//! What holds of the registry whatever is asked of it.

use vstd::prelude::*;
use crate::kitties::dna::{bit, lemma_mix_byte_selects, mix};
use crate::kitties::state::{AccountId, Error, Event, KittyIndex, State};

verus! {

/// One call to the registry. Where a call draws DNA, it is listed with the
/// bytes that were drawn for it.
pub enum Call {
    /// `who` creates a kitty with this DNA.
    Create { who: AccountId, dna: Seq<u8> },
    /// `who` hands `kitty_id` to `new_owner`.
    Transfer { who: AccountId, new_owner: AccountId, kitty_id: KittyIndex },
    /// `who` breeds two kitties under this selector.
    Breed { who: AccountId, kitty_id_1: KittyIndex, kitty_id_2: KittyIndex, selector: Seq<u8> },
}

impl Call {
    /// DNA that is handed in has sixteen bytes.
    pub open spec fn valid(self) -> bool {
        self matches Call::Create { dna, .. } ==> dna.len() == 16
    }

    /// What the registry `s` answers to this call.
    pub open spec fn result(self, s: State) -> Result<Event, Error> {
        match self {
            Call::Create { who, .. } => s.create_result(who),
            Call::Transfer { who, new_owner, kitty_id } => s.transfer_result(
                who,
                new_owner,
                kitty_id,
            ),
            Call::Breed { kitty_id_1, kitty_id_2, .. } => s.breed_result(kitty_id_1, kitty_id_2),
        }
    }

    /// The registry that this call leaves behind when it is made on `s`.
    pub open spec fn apply(self, s: State) -> State {
        match self {
            Call::Create { who, dna } => s.after_create(who, dna),
            Call::Transfer { who, new_owner, kitty_id } => s.after_transfer(
                who,
                new_owner,
                kitty_id,
            ),
            Call::Breed { who, kitty_id_1, kitty_id_2, selector } => s.after_breed(
                who,
                kitty_id_1,
                kitty_id_2,
                selector,
            ),
        }
    }

    /// This call, made on `s`, brings a new kitty into being.
    pub open spec fn mints(self, s: State) -> bool {
        self.result(s) is Ok && !(self is Transfer)
    }
}

/// The registry after the calls of `calls` were made, one after the other, on
/// an empty registry.
pub open spec fn run(calls: Seq<Call>) -> State
    decreases calls.len(),
{
    if calls.len() == 0 {
        State::genesis()
    } else {
        calls.last().apply(run(calls.drop_last()))
    }
}

/// How many of the calls of `calls`, made one after the other on an empty
/// registry, brought a new kitty into being.
pub open spec fn minted_in(calls: Seq<Call>) -> nat
    decreases calls.len(),
{
    if calls.len() == 0 {
        0
    } else {
        minted_in(calls.drop_last()) + if calls.last().mints(run(calls.drop_last())) {
            1nat
        } else {
            0nat
        }
    }
}

/// Creating a kitty keeps counter, kitties and owners in step.
pub proof fn lemma_create_keeps_wf(s: State, who: AccountId, dna: Seq<u8>)
    requires
        s.wf(),
        dna.len() == 16,
    ensures
        s.after_create(who, dna).wf(),
{
}

/// Handing a kitty over keeps counter, kitties and owners in step.
pub proof fn lemma_transfer_keeps_wf(
    s: State,
    who: AccountId,
    new_owner: AccountId,
    kitty_id: KittyIndex,
)
    requires
        s.wf(),
    ensures
        s.after_transfer(who, new_owner, kitty_id).wf(),
{
}

/// Breeding keeps counter, kitties and owners in step.
pub proof fn lemma_breed_keeps_wf(
    s: State,
    who: AccountId,
    kitty_id_1: KittyIndex,
    kitty_id_2: KittyIndex,
    selector: Seq<u8>,
)
    requires
        s.wf(),
    ensures
        s.after_breed(who, kitty_id_1, kitty_id_2, selector).wf(),
{
}

/// A map whose keys are exactly the indices below `n` has `n` entries.
proof fn lemma_indices_below<V>(m: Map<KittyIndex, V>, n: KittyIndex)
    requires
        forall|id: KittyIndex| #[trigger] m.contains_key(id) <==> id < n,
    ensures
        m.dom().finite(),
        m.dom().len() == n,
    decreases n,
{
    if n == 0 {
        assert(m.dom() =~= Set::empty());
    } else {
        let last = (n - 1) as KittyIndex;
        let rest = m.remove(last);
        assert forall|id: KittyIndex| #[trigger] rest.contains_key(id) <==> id < last by {
            assert(m.contains_key(id) <==> id < n);
        }
        lemma_indices_below(rest, last);
        assert(m.contains_key(last));
        assert(m.dom() =~= rest.dom().insert(last));
    }
}

/// In a registry whose counter is in step with what is stored, the counter
/// is the number of kitties, and the number of owners on record, and every
/// index below the counter has one kitty of sixteen bytes and one owner.
pub proof fn law_counter_is_number_of_kitties(s: State)
    requires
        s.wf(),
    ensures
        s.kitties.dom().finite(),
        s.kitties.dom().len() == s.next_id(),
        s.owner.dom().finite(),
        s.owner.dom().len() == s.next_id(),
        forall|id: KittyIndex|
            id < s.next_id() ==> #[trigger] s.kitties.contains_key(id) && s.owner.contains_key(id)
                && s.kitties[id].len() == 16,
{
    lemma_indices_below(s.kitties, s.next_id());
    lemma_indices_below(s.owner, s.next_id());
}

/// A call that brings a kitty into being moves the counter on by exactly
/// one; every other call, refused or not, leaves it where it was. The counter
/// never goes back and never wraps.
pub proof fn law_counter_moves_with_kitties(s: State, call: Call)
    ensures
        call.mints(s) ==> call.apply(s).next_id() == s.next_id() + 1,
        !call.mints(s) ==> call.apply(s).kitties_count == s.kitties_count,
        call.result(s) is Err ==> call.apply(s) == s,
{
}

/// Whatever calls are made on an empty registry, in whatever order, the
/// counter stays in step with what is stored: it equals the number of calls
/// that brought a kitty into being, that many kitties are stored, and each
/// index below the counter has exactly one kitty and exactly one owner.
pub proof fn law_counter_counts_kitties(calls: Seq<Call>)
    requires
        forall|i: int| 0 <= i < calls.len() ==> (#[trigger] calls[i]).valid(),
    ensures
        run(calls).wf(),
        run(calls).next_id() == minted_in(calls),
        run(calls).kitties.dom().finite(),
        run(calls).kitties.dom().len() == minted_in(calls),
        run(calls).owner.dom().finite(),
        run(calls).owner.dom().len() == minted_in(calls),
    decreases calls.len(),
{
    if calls.len() > 0 {
        let before = run(calls.drop_last());
        let call = calls.last();
        law_counter_counts_kitties(calls.drop_last());
        assert(call.valid());
        match call {
            Call::Create { who, dna } => lemma_create_keeps_wf(before, who, dna),
            Call::Transfer { who, new_owner, kitty_id } => lemma_transfer_keeps_wf(
                before,
                who,
                new_owner,
                kitty_id,
            ),
            Call::Breed { who, kitty_id_1, kitty_id_2, selector } => lemma_breed_keeps_wf(
                before,
                who,
                kitty_id_1,
                kitty_id_2,
                selector,
            ),
        }
        law_counter_moves_with_kitties(before, call);
    }
    law_counter_is_number_of_kitties(run(calls));
}

/// The DNA of a child depends on the selector and on the DNA of the two
/// parents, and on nothing else: two registries that breed parents of equal
/// DNA under the same selector give their children the same DNA.
pub proof fn law_child_is_function_of_parents(
    s: State,
    t: State,
    who: AccountId,
    s_id_1: KittyIndex,
    s_id_2: KittyIndex,
    t_id_1: KittyIndex,
    t_id_2: KittyIndex,
    selector: Seq<u8>,
)
    requires
        s.breed_result(s_id_1, s_id_2) is Ok,
        t.breed_result(t_id_1, t_id_2) is Ok,
        s.kitties[s_id_1] == t.kitties[t_id_1],
        s.kitties[s_id_2] == t.kitties[t_id_2],
    ensures
        s.after_breed(who, s_id_1, s_id_2, selector).kitties[s.next_id()] == t.after_breed(
            who,
            t_id_1,
            t_id_2,
            selector,
        ).kitties[t.next_id()],
{
}

/// Every bit of a child comes from exactly one parent: from the first where
/// the selector has a one at that place, from the second where it has a zero.
pub proof fn law_child_bits_come_from_one_parent(
    s: State,
    who: AccountId,
    kitty_id_1: KittyIndex,
    kitty_id_2: KittyIndex,
    selector: Seq<u8>,
    i: int,
    k: u8,
)
    requires
        s.breed_result(kitty_id_1, kitty_id_2) is Ok,
        0 <= i < 16,
        k < 8,
    ensures
        ({
            let child = s.after_breed(who, kitty_id_1, kitty_id_2, selector).kitties[s.next_id()];
            bit(child[i], k) == if bit(selector[i], k) {
                bit(s.kitties[kitty_id_1][i], k)
            } else {
                bit(s.kitties[kitty_id_2][i], k)
            }
        }),
{
    lemma_mix_byte_selects(selector[i], s.kitties[kitty_id_1][i], s.kitties[kitty_id_2][i], k);
}

} // verus!
