//! The claim registry as it is held in memory.
//!
//! The operations here read and write single entries and check nothing of
//! who is asking.

use vstd::prelude::*;
use crate::poe::state::{AccountId, BlockNumber, Config, State};

verus! {

/// One claim on record.
#[derive(Clone, Debug)]
struct Proof {
    claim: Vec<u8>,
    owner: AccountId,
    block_number: BlockNumber,
}

/// The claim registry.
#[derive(Clone, Debug)]
pub struct Pallet {
    config: Config,
    proofs: Vec<Proof>,
}

/// No claim is held twice.
spec fn distinct(proofs: Seq<Proof>) -> bool {
    forall|i: int, j: int|
        0 <= i < j < proofs.len() ==> (#[trigger] proofs[i]).claim@ != (#[trigger] proofs[j]).claim@
}

/// `claim` is held at `i`.
spec fn held_at(proofs: Seq<Proof>, claim: Seq<u8>, i: int) -> bool {
    0 <= i < proofs.len() && proofs[i].claim@ == claim
}

/// Where `claim` is held, if it is.
spec fn position(proofs: Seq<Proof>, claim: Seq<u8>) -> Option<int> {
    if exists|i: int| held_at(proofs, claim, i) {
        Some(choose|i: int| held_at(proofs, claim, i))
    } else {
        None
    }
}

/// The record that the entries stand for.
spec fn record(proofs: Seq<Proof>) -> Map<Seq<u8>, (AccountId, BlockNumber)> {
    Map::new(
        |claim: Seq<u8>| position(proofs, claim) is Some,
        |claim: Seq<u8>|
            {
                let proof = proofs[position(proofs, claim).unwrap()];
                (proof.owner, proof.block_number)
            },
    )
}

/// Among distinct entries a claim is held where it is found, and nowhere
/// else.
proof fn lemma_position(proofs: Seq<Proof>, claim: Seq<u8>, i: int)
    requires
        distinct(proofs),
        held_at(proofs, claim, i),
    ensures
        position(proofs, claim) == Some(i),
{
    let found = choose|k: int| held_at(proofs, claim, k);
    assert(held_at(proofs, claim, found));
    if found < i {
        assert(proofs[found].claim@ != proofs[i].claim@);
    } else if i < found {
        assert(proofs[i].claim@ != proofs[found].claim@);
    }
}

/// A claim that is held nowhere has no position.
proof fn lemma_no_position(proofs: Seq<Proof>, claim: Seq<u8>)
    requires
        forall|i: int| 0 <= i < proofs.len() ==> (#[trigger] proofs[i]).claim@ != claim,
    ensures
        position(proofs, claim) is None,
{
    assert forall|i: int| !held_at(proofs, claim, i) by {
        if 0 <= i < proofs.len() {
            assert(proofs[i].claim@ != claim);
        }
    }
}

/// Appending an entry for a claim that is not held records that claim.
proof fn lemma_push(proofs: Seq<Proof>, proof: Proof)
    requires
        distinct(proofs),
        position(proofs, proof.claim@) is None,
    ensures
        distinct(proofs.push(proof)),
        record(proofs.push(proof)) == record(proofs).insert(
            proof.claim@,
            (proof.owner, proof.block_number),
        ),
{
    let after = proofs.push(proof);
    assert forall|i: int, j: int| 0 <= i < j < after.len() implies (#[trigger] after[i]).claim@ != (
    #[trigger] after[j]).claim@ by {
        if j == proofs.len() {
            assert(!held_at(proofs, proof.claim@, i));
        } else {
            assert(proofs[i].claim@ != proofs[j].claim@);
        }
    }
    assert forall|claim: Seq<u8>|
        position(after, claim) == if claim == proof.claim@ {
            Some(proofs.len() as int)
        } else {
            position(proofs, claim)
        } by {
        if claim == proof.claim@ {
            lemma_position(after, claim, proofs.len() as int);
        } else if position(proofs, claim) is Some {
            let i = position(proofs, claim).unwrap();
            assert(held_at(proofs, claim, i));
            lemma_position(after, claim, i);
        } else {
            assert forall|i: int| !held_at(after, claim, i) by {
                assert(!held_at(proofs, claim, i));
            }
        }
    }
    assert(record(after) =~= record(proofs).insert(
        proof.claim@,
        (proof.owner, proof.block_number),
    ));
}

/// Replacing an entry by one for the same claim records what the new entry
/// says of that claim.
proof fn lemma_update(proofs: Seq<Proof>, at: int, proof: Proof)
    requires
        distinct(proofs),
        held_at(proofs, proof.claim@, at),
    ensures
        distinct(proofs.update(at, proof)),
        record(proofs.update(at, proof)) == record(proofs).insert(
            proof.claim@,
            (proof.owner, proof.block_number),
        ),
{
    let after = proofs.update(at, proof);
    assert forall|i: int, j: int| 0 <= i < j < after.len() implies (#[trigger] after[i]).claim@ != (
    #[trigger] after[j]).claim@ by {
        assert(proofs[i].claim@ != proofs[j].claim@);
    }
    assert forall|claim: Seq<u8>| position(after, claim) == position(proofs, claim) by {
        if position(proofs, claim) is Some {
            let i = position(proofs, claim).unwrap();
            assert(held_at(proofs, claim, i));
            lemma_position(after, claim, i);
        } else {
            assert forall|i: int| !held_at(after, claim, i) by {
                assert(!held_at(proofs, claim, i));
            }
        }
    }
    lemma_position(proofs, proof.claim@, at);
    assert(record(after) =~= record(proofs).insert(
        proof.claim@,
        (proof.owner, proof.block_number),
    ));
}

/// Taking an entry out takes its claim off the record.
proof fn lemma_remove(proofs: Seq<Proof>, at: int)
    requires
        distinct(proofs),
        0 <= at < proofs.len(),
    ensures
        distinct(proofs.remove(at)),
        record(proofs.remove(at)) == record(proofs).remove(proofs[at].claim@),
{
    let after = proofs.remove(at);
    let gone = proofs[at].claim@;
    // where the entry at `i` of `after` was in `proofs`
    let origin = |i: int| if i < at { i } else { i + 1 };
    assert forall|i: int| 0 <= i < after.len() implies #[trigger] after[i] == proofs[origin(i)] by {}
    assert forall|i: int, j: int| 0 <= i < j < after.len() implies (#[trigger] after[i]).claim@ != (
    #[trigger] after[j]).claim@ by {
        assert(proofs[origin(i)].claim@ != proofs[origin(j)].claim@);
    }
    assert forall|claim: Seq<u8>|
        position(after, claim) is Some <==> claim != gone && position(proofs, claim) is Some by {
        if position(after, claim) is Some {
            let i = position(after, claim).unwrap();
            assert(held_at(after, claim, i));
            assert(held_at(proofs, claim, origin(i)));
            if claim == gone {
                if origin(i) < at {
                    assert(proofs[origin(i)].claim@ != proofs[at].claim@);
                } else {
                    assert(proofs[at].claim@ != proofs[origin(i)].claim@);
                }
            }
        }
        if claim != gone && position(proofs, claim) is Some {
            let k = position(proofs, claim).unwrap();
            assert(held_at(proofs, claim, k));
            let i = if k < at { k } else { k - 1 };
            assert(held_at(after, claim, i));
        }
    }
    assert forall|claim: Seq<u8>| position(after, claim) is Some implies ({
        let i = position(after, claim).unwrap();
        let k = position(proofs, claim).unwrap();
        after[i] == proofs[k]
    }) by {
        let i = position(after, claim).unwrap();
        assert(held_at(after, claim, i));
        lemma_position(proofs, claim, origin(i));
    }
    assert(record(after) =~= record(proofs).remove(gone));
}

impl View for Pallet {
    type V = State;

    closed spec fn view(&self) -> State {
        State { string_limit: self.config.string_limit, proofs: record(self.proofs@) }
    }
}

/// Whether `a` and `b` hold the same bytes.
fn same_bytes(a: &[u8], b: &[u8]) -> (same: bool)
    ensures
        same == (a@ == b@),
{
    if a.len() != b.len() {
        return false;
    }
    let mut i: usize = 0;
    while i < a.len()
        invariant
            a@.len() == b@.len(),
            i <= a@.len(),
            forall|j: int| 0 <= j < i ==> a@[j] == b@[j],
        decreases a@.len() - i,
    {
        if a[i] != b[i] {
            return false;
        }
        i += 1;
    }
    assert(a@ =~= b@);
    true
}

impl Pallet {
    /// The registry is sound inside: no claim is held twice. Every registry
    /// that `new` returns is, and every operation keeps it so.
    pub closed spec fn wf(&self) -> bool {
        distinct(self.proofs@)
    }

    /// Looks `claim` up.
    fn find(&self, claim: &[u8]) -> (found: Option<usize>)
        requires
            self.wf(),
        ensures
            found matches Some(i) ==> held_at(self.proofs@, claim@, i as int),
            position(self.proofs@, claim@) == match found {
                Some(i) => Some(i as int),
                None => None,
            },
    {
        let mut i: usize = 0;
        while i < self.proofs.len()
            invariant
                self.wf(),
                i <= self.proofs.len(),
                forall|j: int| 0 <= j < i ==> (#[trigger] self.proofs@[j]).claim@ != claim@,
            decreases self.proofs.len() - i,
        {
            if same_bytes(self.proofs[i].claim.as_slice(), claim) {
                proof {
                    lemma_position(self.proofs@, claim@, i as int);
                }
                return Some(i);
            }
            i += 1;
        }
        proof {
            lemma_no_position(self.proofs@, claim@);
        }
        None
    }

    /// A registry without claims.
    pub fn new(config: Config) -> (pallet: Pallet)
        ensures
            pallet.wf(),
            pallet@ == State::genesis(config),
    {
        let pallet = Pallet { config, proofs: Vec::new() };
        proof {
            assert forall|claim: Seq<u8>| position(pallet.proofs@, claim) is None by {
                lemma_no_position(pallet.proofs@, claim);
            }
            assert(pallet@.proofs =~= Map::empty());
        }
        pallet
    }

    /// The longest claim that is accepted, in bytes.
    pub fn string_limit(&self) -> (limit: u32)
        ensures
            limit == self@.string_limit,
    {
        self.config.string_limit
    }

    /// The owner of `claim` and the block in which it was recorded, if the
    /// claim is on record.
    pub fn proofs(&self, claim: &[u8]) -> (proof: Option<(AccountId, BlockNumber)>)
        requires
            self.wf(),
        ensures
            proof == self@.proof_of(claim@),
    {
        match self.find(claim) {
            Some(i) => Some((self.proofs[i].owner, self.proofs[i].block_number)),
            None => None,
        }
    }

    /// Whether `claim` is on record.
    pub fn contains_claim(&self, claim: &[u8]) -> (found: bool)
        requires
            self.wf(),
        ensures
            found == self@.proofs.contains_key(claim@),
    {
        self.find(claim).is_some()
    }

    /// Puts `claim` on record for `owner`, replacing what was on record for
    /// it.
    pub fn insert_proof(&mut self, claim: Vec<u8>, owner: AccountId, block_number: BlockNumber)
        requires
            old(self).wf(),
        ensures
            final(self).wf(),
            final(self)@ == (State {
                proofs: old(self)@.proofs.insert(claim@, (owner, block_number)),
                ..old(self)@
            }),
    {
        let proof = Proof { claim, owner, block_number };
        match self.find(proof.claim.as_slice()) {
            Some(i) => {
                proof {
                    lemma_update(self.proofs@, i as int, proof);
                }
                self.proofs[i] = proof;
            },
            None => {
                proof {
                    lemma_push(self.proofs@, proof);
                }
                self.proofs.push(proof);
            },
        }
    }

    /// Takes `claim` off the record, if it is there.
    pub fn remove_proof(&mut self, claim: &[u8])
        requires
            old(self).wf(),
        ensures
            final(self).wf(),
            final(self)@ == (State { proofs: old(self)@.proofs.remove(claim@), ..old(self)@ }),
    {
        match self.find(claim) {
            Some(i) => {
                proof {
                    lemma_remove(self.proofs@, i as int);
                }
                self.proofs.remove(i);
            },
            None => {
                assert(self@.proofs =~= self@.proofs.remove(claim@));
            },
        }
    }
}

} // verus!
