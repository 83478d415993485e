use edgeml::select::{rank_of, score_is_nan, select_best, Best, SelectError};
use edgeml::CLASS_INDEX_OFFSET;

fn bits(v: &[f32]) -> Vec<u32> {
    v.iter().map(|x| x.to_bits()).collect()
}

#[test]
fn highest_score_wins_with_offset() {
    let r = select_best(&bits(&[0.1, 0.7, 0.2])).unwrap();
    assert_eq!(r.class_index, 3);
    assert_eq!(f32::from_bits(r.score), 0.7);
}

#[test]
fn single_score_is_reported_at_offset() {
    let r = select_best(&bits(&[-4.5])).unwrap();
    assert_eq!(r, Best { score: (-4.5f32).to_bits(), class_index: CLASS_INDEX_OFFSET });
}

#[test]
fn equal_highest_scores_first_wins() {
    let r = select_best(&bits(&[0.3, 0.9, 0.1, 0.9, 0.9])).unwrap();
    assert_eq!(r.class_index, 1 + CLASS_INDEX_OFFSET);
}

#[test]
fn selecting_twice_gives_same_result() {
    let scores = bits(&[2.0, -1.0, 3.5, 3.25, 0.0]);
    let a = select_best(&scores).unwrap();
    let b = select_best(&scores).unwrap();
    assert_eq!(a, b);
    assert_eq!(a.class_index, 4);
}

#[test]
fn negative_scores_are_ordered_by_value() {
    let r = select_best(&bits(&[-3.0, -0.5, -2.0, f32::NEG_INFINITY])).unwrap();
    assert_eq!(r.class_index, 3);
    assert_eq!(f32::from_bits(r.score), -0.5);
}

#[test]
fn both_zeros_tie() {
    let r = select_best(&bits(&[-1.0, -0.0, 0.0])).unwrap();
    assert_eq!(r.class_index, 1 + CLASS_INDEX_OFFSET);
    assert_eq!(r.score, (-0.0f32).to_bits());
}

#[test]
fn infinity_beats_large_values() {
    let r = select_best(&bits(&[f32::MAX, f32::INFINITY, 1.0])).unwrap();
    assert_eq!(r.class_index, 3);
}

#[test]
fn empty_output_is_an_error() {
    assert_eq!(select_best(&Vec::new()), Err(SelectError::EmptyOutput));
}

#[test]
fn nan_output_is_an_error() {
    assert_eq!(select_best(&bits(&[0.5, f32::NAN, 0.2])), Err(SelectError::UnorderedOutput));
}

#[test]
fn rank_follows_float_order() {
    assert_eq!(rank_of(0.0f32.to_bits()), 0);
    assert_eq!(rank_of((-0.0f32).to_bits()), 0);
    assert_eq!(rank_of(1.0f32.to_bits()), 0x3f80_0000);
    assert_eq!(rank_of((-1.0f32).to_bits()), -0x3f80_0000);
    let values = [-10.0f32, -1.5, -0.25, 0.0, 1e-30, 0.5, 2.0, 1e30];
    for w in values.windows(2) {
        assert!(rank_of(w[0].to_bits()) < rank_of(w[1].to_bits()));
    }
}

#[test]
fn nan_is_recognised() {
    assert!(score_is_nan(f32::NAN.to_bits()));
    assert!(score_is_nan(0xffc0_0000));
    assert!(!score_is_nan(f32::INFINITY.to_bits()));
    assert!(!score_is_nan(f32::NEG_INFINITY.to_bits()));
    assert!(!score_is_nan(3.0f32.to_bits()));
}
