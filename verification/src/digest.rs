//! Tip5 digests.

use vstd::prelude::*;

use crate::field::field_reduce;
use crate::field::P;

verus! {

/// Five field elements: the output of the Tip5 hash function.
///
/// The elements are listed from the least to the most significant one.
#[derive(Clone, Copy, Debug, PartialEq, Eq, Hash, Structural)]
pub struct Digest {
    pub e0: u64,
    pub e1: u64,
    pub e2: u64,
    pub e3: u64,
    pub e4: u64,
}

/// The number of elements in a digest.
pub const DIGEST_LEN: usize = 5;

/// What `Tip5::hash_pair` returns.
pub uninterp spec fn tip5_hash_pair(left: Digest, right: Digest) -> Digest;

/// What `Tip5::hash_varlen` returns.
pub uninterp spec fn tip5_hash_varlen(input: Seq<u64>) -> Digest;

/// The root of the Merkle tree with the given leafs, whose number is a power of two: the hash of
/// the roots of its two halves.
pub open spec fn merkle_root_of(leafs: Seq<Digest>) -> Digest
    decreases leafs.len(),
{
    if leafs.len() <= 1 {
        leafs[0]
    } else {
        let half = leafs.len() as int / 2;
        tip5_hash_pair(merkle_root_of(leafs.take(half)), merkle_root_of(leafs.skip(half)))
    }
}

impl Digest {
    /// The elements, least significant first.
    pub open spec fn values(self) -> Seq<u64> {
        seq![self.e0, self.e1, self.e2, self.e3, self.e4]
    }

    /// Every element is the canonical representative of its residue class.
    pub open spec fn canonical(self) -> bool {
        self.e0 < P && self.e1 < P && self.e2 < P && self.e3 < P && self.e4 < P
    }

    /// The digest with the canonical representative of every element.
    pub open spec fn reduced(self) -> Digest {
        let p = P as int;
        Digest {
            e0: (self.e0 as int % p) as u64,
            e1: (self.e1 as int % p) as u64,
            e2: (self.e2 as int % p) as u64,
            e3: (self.e3 as int % p) as u64,
            e4: (self.e4 as int % p) as u64,
        }
    }

    /// The digest read as a number in base [`P`].
    pub open spec fn number(self) -> int {
        let p = P as int;
        (self.e0 as int) % p + p * ((self.e1 as int) % p + p * ((self.e2 as int) % p + p * ((
        self.e3 as int) % p + p * ((self.e4 as int) % p))))
    }

    /// A digest from its elements, least significant first.
    pub fn new(values: [u64; 5]) -> (d: Digest)
        ensures
            d.canonical(),
            forall|i: int| 0 <= i < 5 ==> d.values()[i] == (values[i] as int) % (P as int),
    {
        Digest {
            e0: field_reduce(values[0]),
            e1: field_reduce(values[1]),
            e2: field_reduce(values[2]),
            e3: field_reduce(values[3]),
            e4: field_reduce(values[4]),
        }
    }

    /// The elements, least significant first.
    pub fn to_values(&self) -> (v: [u64; 5])
        ensures
            v@ == self.values(),
    {
        [self.e0, self.e1, self.e2, self.e3, self.e4]
    }

    /// The digest whose elements are all zero.
    pub open spec fn zero_digest() -> Digest {
        Digest { e0: 0, e1: 0, e2: 0, e3: 0, e4: 0 }
    }
}

impl Default for Digest {
    /// The digest whose elements are all zero.
    fn default() -> (d: Digest)
        ensures
            d == Digest::zero_digest(),
    {
        Digest { e0: 0, e1: 0, e2: 0, e3: 0, e4: 0 }
    }
}

/// Calls the `<=` of `twenty_first`'s `Digest`, which compares the canonical values of the
/// elements, the most significant ones first; that is the order of the digests read as numbers.
#[verifier::external_body]
pub(crate) fn digest_at_most(a: &Digest, b: &Digest) -> (r: bool)
    ensures
        r == (a.number() <= b.number()),
{
    let left = twenty_first::prelude::Digest::new(
        [a.e0, a.e1, a.e2, a.e3, a.e4].map(twenty_first::prelude::BFieldElement::new),
    );
    let right = twenty_first::prelude::Digest::new(
        [b.e0, b.e1, b.e2, b.e3, b.e4].map(twenty_first::prelude::BFieldElement::new),
    );
    left <= right
}

/// Calls `Tip5::hash_pair`: the hash of two digests. The result is canonical.
#[verifier::external_body]
pub(crate) fn hash_pair(left: &Digest, right: &Digest) -> (d: Digest)
    ensures
        d == tip5_hash_pair(*left, *right),
        d.canonical(),
{
    let l = twenty_first::prelude::Digest::new(
        [left.e0, left.e1, left.e2, left.e3, left.e4]
            .map(twenty_first::prelude::BFieldElement::new),
    );
    let r = twenty_first::prelude::Digest::new(
        [right.e0, right.e1, right.e2, right.e3, right.e4]
            .map(twenty_first::prelude::BFieldElement::new),
    );
    let [e0, e1, e2, e3, e4] = twenty_first::prelude::Tip5::hash_pair(l, r).values().map(
        |e| e.value(),
    );
    Digest { e0, e1, e2, e3, e4 }
}

/// Calls `Tip5::hash_varlen`: the hash of a sequence of field elements. The result is canonical.
#[verifier::external_body]
pub(crate) fn hash_varlen(input: &Vec<u64>) -> (d: Digest)
    ensures
        d == tip5_hash_varlen(input@),
        d.canonical(),
{
    let elements: Vec<twenty_first::prelude::BFieldElement> = input.iter().map(
        |e| twenty_first::prelude::BFieldElement::new(*e),
    ).collect();
    let [e0, e1, e2, e3, e4] = twenty_first::prelude::Tip5::hash_varlen(&elements).values().map(
        |e| e.value(),
    );
    Digest { e0, e1, e2, e3, e4 }
}

/// Calls `MerkleTree::sequential_frugal_root`: the root of the Merkle tree with the given leafs,
/// each inner node of which is the `Tip5::hash_pair` of its children. It is an error only if the
/// number of leafs is not a power of two; four and eight are.
#[verifier::external_body]
pub(crate) fn merkle_root(leafs: &Vec<Digest>) -> (d: Digest)
    requires
        leafs@.len() == 4 || leafs@.len() == 8,
    ensures
        d == merkle_root_of(leafs@),
{
    let nodes: Vec<twenty_first::prelude::Digest> = leafs.iter().map(
        |leaf|
            twenty_first::prelude::Digest::new(
                [leaf.e0, leaf.e1, leaf.e2, leaf.e3, leaf.e4]
                    .map(twenty_first::prelude::BFieldElement::new),
            ),
    ).collect();
    let root = twenty_first::prelude::MerkleTree::sequential_frugal_root(&nodes).unwrap();
    let [e0, e1, e2, e3, e4] = root.values().map(|e| e.value());
    Digest { e0, e1, e2, e3, e4 }
}

} // verus!
