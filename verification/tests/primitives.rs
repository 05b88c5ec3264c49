use neptune::amount::{NativeCurrencyAmount, MAX_COINS};
use neptune::digest::Digest;
use neptune::field::{FIELD_MAX, P};
use neptune::height::{BlockHeight, BLOCKS_PER_GENERATION};
use neptune::mmr::MmrAccumulator;
use neptune::timestamp::Timestamp;
use neptune::transaction::{commit, AdditionRecord};
use twenty_first::prelude::{BFieldElement, Mmr, Tip5};

#[test]
fn timestamps_add_and_subtract() {
    let t = Timestamp::from_millis(1_700_000_000_000);
    assert_eq!(1_700_000_060_000, t.plus(Timestamp::minutes(1)).millis);
    assert_eq!(Timestamp::seconds(60), t.plus(Timestamp::minutes(1)).minus(t));
    assert_eq!(3_600_000, Timestamp::hours(1).millis);
    assert_eq!(Timestamp::hours(24), Timestamp::days(1));
    assert_eq!(Timestamp::days(365), Timestamp::years(1));
    assert_eq!(Timestamp::years(1), Timestamp::months(12));
    // There are no negative durations, only very long ones.
    assert_eq!(FIELD_MAX, t.minus(t.plus(Timestamp::from_millis(1))).millis);
}

#[test]
fn heights_count_up_and_fall_into_generations() {
    assert!(BlockHeight::new(0).is_genesis());
    assert!(!BlockHeight::new(1).is_genesis());
    assert_eq!(BlockHeight::new(8), BlockHeight::new(7).next());
    assert_eq!(BlockHeight::new(0), BlockHeight::new(FIELD_MAX).next());
    assert_eq!(0, BlockHeight::new(BLOCKS_PER_GENERATION - 1).get_generation());
    assert_eq!(1, BlockHeight::new(BLOCKS_PER_GENERATION).get_generation());
}

#[test]
fn amounts_are_counted_in_atomic_units() {
    let mut a = NativeCurrencyAmount::coins(3);
    assert_eq!(12_000_000_000_000_000_000_000_000_000_000, a.nau);
    a.div_two();
    assert_eq!(6_000_000_000_000_000_000_000_000_000_000, a.nau);
    let mut odd = NativeCurrencyAmount::from_nau(7);
    odd.div_two();
    assert_eq!(3, odd.nau);
    assert!(NativeCurrencyAmount::zero().is_zero());
    assert!(!odd.is_zero());
    assert!(NativeCurrencyAmount::from_nau(-1).is_negative());
    assert!(!NativeCurrencyAmount::zero().is_negative());
    let most = NativeCurrencyAmount::coins(MAX_COINS);
    assert!(most.checked_add(&most).is_none());
    assert_eq!(
        Some(NativeCurrencyAmount::coins(5)),
        NativeCurrencyAmount::coins(2).checked_add(&NativeCurrencyAmount::coins(3))
    );
    assert_eq!(
        Some(NativeCurrencyAmount::from_nau(-2)),
        NativeCurrencyAmount::from_nau(1).checked_sub(&odd)
    );
    assert!(NativeCurrencyAmount::from_nau(i128::MIN)
        .checked_sub(&odd)
        .is_none());
}

#[test]
fn digests_hold_field_elements() {
    let d = Digest::new([P, P + 1, 2, 3, u64::MAX]);
    assert_eq!([0, 1, 2, 3, u64::MAX - P], d.to_values());
    assert_eq!([0; 5], Digest::default().to_values());
}

#[test]
fn accumulators_have_a_peak_for_every_one_in_the_leaf_count() {
    let leaf = |i: u64| Digest::new([i, 0, 0, 0, 0]);
    let mut mmr = MmrAccumulator::new();
    for i in 0..8u64 {
        assert!(mmr.is_consistent());
        assert_eq!(i, mmr.leaf_count);
        assert_eq!(i.count_ones() as usize, mmr.peaks.len());
        mmr = mmr.appended(&leaf(i));
    }
    assert_eq!(1, mmr.peaks.len());

    // Compare with an accumulator that is built all at once.
    let outside = twenty_first::util_types::mmr::mmr_accumulator::MmrAccumulator::new_from_leafs(
        (0..8u64)
            .map(|i| twenty_first::prelude::Digest::new([i, 0, 0, 0, 0].map(BFieldElement::new)))
            .collect(),
    );
    let peak = outside.peaks()[0].values().map(|e| e.value());
    assert_eq!(peak, mmr.peaks[0].to_values());

    let again = mmr.clone();
    assert!(again.same(&mmr));
    assert!(!again.same(&mmr.appended(&leaf(8))));
    let broken = MmrAccumulator { leaf_count: 3, peaks: vec![leaf(0)] };
    assert!(!broken.is_consistent());
}

#[test]
fn equal_trees_are_joined_when_a_leaf_is_appended() {
    let leaf = |i: u64| Digest::new([i, 0, 0, 0, 0]);
    let outside = |d: &Digest| {
        twenty_first::prelude::Digest::new(d.to_values().map(BFieldElement::new))
    };
    let hash = |l: &Digest, r: &Digest| {
        Digest::new(Tip5::hash_pair(outside(l), outside(r)).values().map(|e| e.value()))
    };
    let mut mmr = MmrAccumulator::new();
    for i in 0..3 {
        mmr = mmr.appended(&leaf(i));
    }
    let first_two = hash(&leaf(0), &leaf(1));
    assert_eq!(vec![first_two, leaf(2)], mmr.peaks);
    mmr = mmr.appended(&leaf(3));
    assert_eq!(vec![hash(&first_two, &hash(&leaf(2), &leaf(3)))], mmr.peaks);
    // Peaks come back canonical.
    let raw = MmrAccumulator { leaf_count: 2, peaks: vec![Digest { e0: P + 5, ..leaf(0) }] };
    assert_eq!(vec![leaf(5), leaf(1)], raw.appended(&Digest { e0: P + 1, ..leaf(0) }).peaks);
}

#[test]
fn commitments_hide_items_under_both_randomnesses() {
    let [a, b, c] = [1, 2, 3].map(|i| Digest::new([i, i, i, i, i]));
    let record = commit(&a, &b, &c);
    assert_eq!(record, commit(&a, &b, &c));
    assert_ne!(record, commit(&b, &a, &c));
    assert_ne!(record, commit(&a, &c, &b));
    assert_ne!(record, AdditionRecord { canonical_commitment: a });

    let outside = |d: &Digest| twenty_first::prelude::Digest::new(d.to_values().map(BFieldElement::new));
    let expected = Tip5::hash_pair(Tip5::hash_pair(outside(&a), outside(&b)), outside(&c));
    assert_eq!(
        expected.values().map(|e| e.value()),
        record.canonical_commitment.to_values()
    );
}
