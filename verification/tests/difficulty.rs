use neptune::difficulty::{Difficulty, ProofOfWork};
use neptune::digest::Digest;
use neptune::field::FIELD_MAX;

#[test]
fn difficulty_to_threshold_test() {
    // Verify that a difficulty of 2 accepts half of the digests
    let difficulty: u32 = 2;
    let difficulty_u32s = Difficulty::from_u32(difficulty);
    let threshold_for_difficulty_two: Digest = difficulty_u32s.target();

    for elem in threshold_for_difficulty_two.to_values() {
        assert_eq!(FIELD_MAX / u64::from(difficulty), elem);
    }

    // Verify that a difficulty of the largest field element accepts all digests where the
    // last element is zero
    let some_difficulty = Difficulty::new([1, u32::MAX, 0, 0, 0]);
    let some_threshold_actual: Digest = some_difficulty.target();

    let some_threshold_expected =
        Digest::new([FIELD_MAX, FIELD_MAX, FIELD_MAX, FIELD_MAX, 0]);

    assert_eq!(0u64, some_threshold_actual.to_values()[4]);
    assert_eq!(some_threshold_actual, some_threshold_expected);
    assert_eq!(FIELD_MAX, some_threshold_actual.to_values()[3]);
}

#[test]
fn difficulties_zero_and_one_accept_every_digest() {
    let everything = Digest::new([FIELD_MAX; 5]);
    assert_eq!(everything, Difficulty::from_u32(0).target());
    assert_eq!(everything, Difficulty::from_u32(1).target());
}

#[test]
fn shifting_divides_by_powers_of_two() {
    let d = Difficulty::new([0, 0, 4, 0, 1]);
    assert_eq!(Difficulty::new([0, 0, 2, 0x8000_0000, 0]), d.shift_right(1));
    assert_eq!(Difficulty::new([4, 0, 1, 0, 0]), d.shift_right(64));
    assert_eq!(Difficulty::from_u32(1), d.shift_right(128));
    assert_eq!(Difficulty::from_u32(0), d.shift_right(129));
    assert_eq!(Difficulty::from_u32(0), d.shift_right(u64::MAX));
}

#[test]
fn difficulties_add_with_carries() {
    let a = Difficulty::new([u32::MAX, u32::MAX, u32::MAX, u32::MAX, 0]);
    assert_eq!(
        Difficulty::new([0, 0, 0, 0, 1]),
        a.plus(&Difficulty::from_u32(1))
    );
}

#[test]
fn work_accumulates_up_to_its_limit() {
    let w = ProofOfWork::new([u32::MAX, u32::MAX, u32::MAX, u32::MAX, u32::MAX, 0]);
    let one = Difficulty::from_u32(1);
    let sum = w.plus(&one).unwrap();
    assert_eq!(ProofOfWork::new([0, 0, 0, 0, 0, 1]), sum);
    assert!(sum.at_least(&w));
    assert!(!w.at_least(&sum));
    assert!(w.at_least(&w));
    assert!(ProofOfWork::new([u32::MAX; 6]).plus(&one).is_none());
    assert_eq!(ProofOfWork::zero(), ProofOfWork::new([0; 6]));
}
