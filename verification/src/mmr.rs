//! Merkle mountain range accumulators.

use vstd::prelude::*;

use crate::digest::tip5_hash_pair;
use crate::digest::Digest;

verus! {

/// A commitment to a list of digests that can be appended to.
#[derive(Debug)]
pub struct MmrAccumulator {
    pub leaf_count: u64,
    pub peaks: Vec<Digest>,
}

/// What an accumulator consists of.
pub struct MmrAccumulatorView {
    pub leaf_count: u64,
    pub peaks: Seq<Digest>,
}

/// The number of ones in the binary representation of a number.
pub open spec fn count_ones(n: nat) -> nat
    decreases n,
{
    if n == 0 {
        0
    } else {
        n % 2 + count_ones(n / 2)
    }
}

/// The peaks after one more tree with the given peak: as long as the last tree is as large as the
/// new one, which is so if `count` is odd, the two are joined under a common parent.
pub open spec fn merged_peaks(peaks: Seq<Digest>, last: Digest, count: nat) -> Seq<Digest>
    decreases count,
{
    if count % 2 == 1 {
        merged_peaks(peaks.drop_last(), tip5_hash_pair(peaks.last(), last), count / 2)
    } else {
        peaks.push(last)
    }
}

/// The peaks after one more leaf. All of them are canonical.
pub open spec fn peaks_after_append(
    leaf_count: u64,
    peaks: Seq<Digest>,
    leaf: Digest,
) -> Seq<Digest> {
    merged_peaks(peaks.map_values(|d: Digest| d.reduced()), leaf.reduced(), leaf_count as nat)
}

/// There is one peak for every one in the binary representation of the number of leafs.
proof fn lemma_number_of_peaks(peaks: Seq<Digest>, last: Digest, count: nat)
    requires
        peaks.len() == count_ones(count),
    ensures
        merged_peaks(peaks, last, count).len() == count_ones(count + 1),
    decreases count,
{
    if count % 2 == 1 {
        lemma_number_of_peaks(
            peaks.drop_last(),
            tip5_hash_pair(peaks.last(), last),
            count / 2,
        );
        assert((count + 1) / 2 == count / 2 + 1);
    } else {
        assert((count + 1) / 2 == count / 2);
    }
}

/// Calls `append` of `twenty_first`'s `MmrAccumulator` and returns the peaks: the new leaf is
/// pushed, and then, for every trailing one in the binary representation of the number of leafs,
/// the last two peaks are replaced by their `Tip5::hash_pair`. The call panics if the peaks do not
/// match the number of leafs, or if that number overflows.
#[verifier::external_body]
fn append_to_peaks(leaf_count: u64, peaks: &Vec<Digest>, leaf: &Digest) -> (r: Vec<Digest>)
    requires
        peaks@.len() == count_ones(leaf_count as nat),
        leaf_count < u64::MAX,
    ensures
        r@ == peaks_after_append(leaf_count, peaks@, *leaf),
{
    let outside = |d: &Digest|
        twenty_first::prelude::Digest::new(
            [d.e0, d.e1, d.e2, d.e3, d.e4].map(twenty_first::prelude::BFieldElement::new),
        );
    let mut mmr = twenty_first::util_types::mmr::mmr_accumulator::MmrAccumulator::init(
        peaks.iter().map(outside).collect(),
        leaf_count,
    );
    twenty_first::prelude::Mmr::append(&mut mmr, outside(leaf));
    let values = |d: twenty_first::prelude::Digest| d.values().map(|e| e.value());
    let inside = |[e0, e1, e2, e3, e4]: [u64; 5]| Digest { e0, e1, e2, e3, e4 };
    twenty_first::prelude::Mmr::peaks(&mmr).into_iter().map(values).map(inside).collect()
}

impl View for MmrAccumulator {
    type V = MmrAccumulatorView;

    open spec fn view(&self) -> MmrAccumulatorView {
        MmrAccumulatorView { leaf_count: self.leaf_count, peaks: self.peaks@ }
    }
}

impl Clone for MmrAccumulator {
    fn clone(&self) -> (m: MmrAccumulator)
        ensures
            m@ == self@,
    {
        MmrAccumulator { leaf_count: self.leaf_count, peaks: self.peaks.clone() }
    }
}

impl MmrAccumulatorView {
    /// The number of peaks matches the number of leafs, and there is room for one more leaf.
    pub open spec fn consistent(self) -> bool {
        &&& self.peaks.len() == count_ones(self.leaf_count as nat)
        &&& self.leaf_count < u64::MAX
    }

    /// The accumulator after one more leaf.
    pub open spec fn append(self, leaf: Digest) -> MmrAccumulatorView {
        MmrAccumulatorView {
            leaf_count: (self.leaf_count + 1) as u64,
            peaks: peaks_after_append(self.leaf_count, self.peaks, leaf),
        }
    }
}

/// Whether two lists of digests are the same.
pub(crate) fn same_digests(a: &Vec<Digest>, b: &Vec<Digest>) -> (r: bool)
    ensures
        r == (a@ == b@),
{
    if a.len() != b.len() {
        return false;
    }
    let mut i: usize = 0;
    while i < a.len()
        invariant
            a@.len() == b@.len(),
            i <= a@.len(),
            forall|j: int| 0 <= j < i ==> a@[j] == b@[j],
        decreases a@.len() - i,
    {
        if a[i] != b[i] {
            return false;
        }
        i = i + 1;
    }
    assert(a@ =~= b@);
    true
}

impl MmrAccumulator {
    /// The accumulator of the empty list.
    pub fn new() -> (m: MmrAccumulator)
        ensures
            m@.leaf_count == 0,
            m@.peaks == Seq::<Digest>::empty(),
            m@.consistent(),
    {
        MmrAccumulator { leaf_count: 0, peaks: Vec::new() }
    }

    /// Whether the number of peaks matches the number of leafs, with room for one more leaf.
    pub fn is_consistent(&self) -> (r: bool)
        ensures
            r == self@.consistent(),
    {
        let mut rest: u64 = self.leaf_count;
        let mut ones: u64 = 0;
        while rest != 0
            invariant
                ones + count_ones(rest as nat) == count_ones(self.leaf_count as nat),
                ones + rest <= self.leaf_count,
            decreases rest,
        {
            if rest % 2 == 1 {
                ones = ones + 1;
            }
            rest = rest / 2;
        }
        self.peaks.len() as u64 == ones && self.leaf_count < u64::MAX
    }

    /// The accumulator after one more leaf.
    pub fn appended(&self, leaf: &Digest) -> (m: MmrAccumulator)
        requires
            self@.consistent(),
        ensures
            m@ == self@.append(*leaf),
            m@.leaf_count == self@.leaf_count + 1,
            m@.peaks.len() == count_ones((self@.leaf_count + 1) as nat),
    {
        proof {
            lemma_number_of_peaks(
                self.peaks@.map_values(|d: Digest| d.reduced()),
                leaf.reduced(),
                self.leaf_count as nat,
            );
        }
        MmrAccumulator {
            leaf_count: self.leaf_count + 1,
            peaks: append_to_peaks(self.leaf_count, &self.peaks, leaf),
        }
    }

    /// Whether two accumulators are the same.
    pub fn same(&self, other: &MmrAccumulator) -> (r: bool)
        ensures
            r == (self@ == other@),
    {
        self.leaf_count == other.leaf_count && same_digests(&self.peaks, &other.peaks)
    }
}

} // verus!
