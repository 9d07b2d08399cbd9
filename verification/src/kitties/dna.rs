//! Kitties and the combination of their DNA.

use vstd::prelude::*;

verus! {

/// A kitty: sixteen bytes of DNA, fixed when the kitty comes into being.
#[derive(Clone, Copy, Debug, PartialEq, Eq)]
pub struct Kitty(pub [u8; 16]);

impl View for Kitty {
    type V = Seq<u8>;

    /// The DNA as a sequence of sixteen bytes.
    open spec fn view(&self) -> Seq<u8> {
        self.0@
    }
}

/// Bit `k` of the byte `x`, counted from the least significant bit.
pub open spec fn bit(x: u8, k: u8) -> bool {
    (x >> k) & 1 == 1
}

/// One byte of a child: where a bit of `selector` is set the child has the bit
/// of `a`, elsewhere it has the bit of `b`.
pub open spec fn mix_byte(selector: u8, a: u8, b: u8) -> u8 {
    (selector & a) | (!selector & b)
}

/// The DNA of a child of `a` and `b` under `selector`, byte by byte.
pub open spec fn mix(selector: Seq<u8>, a: Seq<u8>, b: Seq<u8>) -> Seq<u8> {
    Seq::new(16, |i: int| mix_byte(selector[i], a[i], b[i]))
}

/// Combines the DNA of two parents. Each bit of the child is the bit of
/// `dna_1` where the selector has a one and the bit of `dna_2` where it has a
/// zero.
pub fn combine_dna(selector: &[u8; 16], dna_1: &[u8; 16], dna_2: &[u8; 16]) -> (child: [u8; 16])
    ensures
        child@ == mix(selector@, dna_1@, dna_2@),
{
    let mut child = [0u8; 16];
    let mut i: usize = 0;
    while i < 16
        invariant
            i <= 16,
            forall|j: int|
                0 <= j < i ==> child@[j] == mix_byte(
                    #[trigger] selector@[j],
                    dna_1@[j],
                    dna_2@[j],
                ),
        decreases 16 - i,
    {
        child[i] = (selector[i] & dna_1[i]) | (!selector[i] & dna_2[i]);
        i += 1;
    }
    child
}

/// Every bit of a mixed byte is taken from exactly one of the two inputs: from
/// `a` where the selector bit is one, from `b` where it is zero.
pub proof fn lemma_mix_byte_selects(selector: u8, a: u8, b: u8, k: u8)
    requires
        k < 8,
    ensures
        bit(mix_byte(selector, a, b), k) == if bit(selector, k) {
            bit(a, k)
        } else {
            bit(b, k)
        },
{
    assert(((((selector & a) | (!selector & b)) >> k) & 1 == 1) == (if (selector >> k) & 1 == 1 {
        (a >> k) & 1 == 1
    } else {
        (b >> k) & 1 == 1
    })) by (bit_vector)
        requires
            k < 8,
    ;
}

} // verus!
