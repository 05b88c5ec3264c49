//! A Merkle mountain range stands for a list of leafs.

use vstd::arithmetic::div_mod::lemma_small_mod;
use vstd::prelude::*;

use crate::digest::tip5_hash_pair;
use crate::digest::Digest;
use crate::field::P;
use crate::mmr::count_ones;
use crate::mmr::merged_peaks;
use crate::mmr::MmrAccumulatorView;

verus! {

/// The nodes above a list of nodes, two of which have a parent each. If their number is odd, the
/// last one has none.
pub open spec fn parents(nodes: Seq<Digest>) -> Seq<Digest> {
    Seq::new(
        (nodes.len() / 2) as nat,
        |i: int| tip5_hash_pair(nodes[2 * i], nodes[2 * i + 1]),
    )
}

/// The peaks over a list of nodes: a node without a parent is a peak, and so are the peaks over the
/// parents.
pub open spec fn peaks_over(nodes: Seq<Digest>) -> Seq<Digest>
    decreases nodes.len(),
{
    if nodes.len() == 0 {
        Seq::empty()
    } else if nodes.len() % 2 == 1 {
        peaks_over(parents(nodes)).push(nodes.last())
    } else {
        peaks_over(parents(nodes))
    }
}

proof fn lemma_merged_peaks(nodes: Seq<Digest>, node: Digest)
    ensures
        merged_peaks(peaks_over(nodes), node, nodes.len()) == peaks_over(nodes.push(node)),
    decreases nodes.len(),
{
    let more = nodes.push(node);
    if nodes.len() % 2 == 1 {
        let above = parents(nodes);
        let joined = tip5_hash_pair(nodes.last(), node);
        assert(parents(more) =~= above.push(joined));
        assert(peaks_over(nodes).drop_last() =~= peaks_over(above));
        lemma_merged_peaks(above, joined);
        assert(above.len() == nodes.len() / 2);
    } else {
        assert(parents(more) =~= parents(nodes));
        if nodes.len() == 0 {
            assert(parents(nodes) =~= nodes);
        }
        assert(more.last() == node);
    }
}

/// The accumulator of a list, after a leaf was appended, is the accumulator of the list with that
/// leaf at its end.
pub proof fn lemma_append_extends_list(
    accumulator: MmrAccumulatorView,
    leafs: Seq<Digest>,
    leaf: Digest,
)
    requires
        accumulator.leaf_count == leafs.len(),
        accumulator.leaf_count < u64::MAX,
        accumulator.peaks == peaks_over(leafs),
        leaf.canonical(),
        forall|i: int|
            0 <= i < accumulator.peaks.len() ==> (#[trigger] accumulator.peaks[i]).canonical(),
    ensures
        accumulator.append(leaf).leaf_count == leafs.len() + 1,
        accumulator.append(leaf).peaks == peaks_over(leafs.push(leaf)),
{
    let peaks = accumulator.peaks;
    assert forall|d: Digest| d.canonical() implies #[trigger] d.reduced() == d by {
        lemma_small_mod(d.e0 as nat, P as nat);
        lemma_small_mod(d.e1 as nat, P as nat);
        lemma_small_mod(d.e2 as nat, P as nat);
        lemma_small_mod(d.e3 as nat, P as nat);
        lemma_small_mod(d.e4 as nat, P as nat);
    }
    assert(peaks.map_values(|d: Digest| d.reduced()) =~= peaks);
    assert(leaf.reduced() == leaf);
    lemma_merged_peaks(leafs, leaf);
}

/// An accumulator is consistent exactly if it has as many peaks as there are over any list of as
/// many leafs, and has room for one more leaf.
pub proof fn lemma_consistent_accumulators(accumulator: MmrAccumulatorView, leafs: Seq<Digest>)
    requires
        accumulator.leaf_count == leafs.len(),
    ensures
        accumulator.consistent() <==> accumulator.leaf_count < u64::MAX && accumulator.peaks.len()
            == peaks_over(leafs).len(),
{
    lemma_number_of_peaks_over(leafs);
}

proof fn lemma_number_of_peaks_over(nodes: Seq<Digest>)
    ensures
        peaks_over(nodes).len() == count_ones(nodes.len()),
    decreases nodes.len(),
{
    if nodes.len() > 0 {
        lemma_number_of_peaks_over(parents(nodes));
    }
}

} // verus!
