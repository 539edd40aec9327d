use mukalujauh::model::FaceIdentity;
use mukalujauh::pipeline::{rank_descending, scoring_candidates, top_at_least};

fn profile(name: &str, active: bool, samples: usize) -> FaceIdentity<u8> {
    let mut p: FaceIdentity<u8> = FaceIdentity::new_at(name, 1);
    p.is_active = active;
    for i in 0..samples {
        p.add_sample("Center".to_string(), i as u8, 1);
    }
    p
}

#[test]
fn only_active_profiles_with_samples_are_scored() {
    let ids = vec![
        profile("a", true, 2),
        profile("b", false, 3),
        profile("c", true, 0),
        profile("d", true, 1),
    ];
    assert_eq!(scoring_candidates(&ids), vec![0, 3]);
    let none: Vec<FaceIdentity<u8>> = Vec::new();
    assert!(scoring_candidates(&none).is_empty());
}

#[test]
fn ranking_is_descending_and_stable() {
    let keys = vec![5i64, 9, 5, -3, 9, 0];
    assert_eq!(rank_descending(&keys), vec![1, 4, 0, 2, 5, 3]);
    assert!(rank_descending(&Vec::new()).is_empty());
}

#[test]
fn best_match_needs_threshold() {
    let keys = vec![3i64, 7, 7, 1];
    let order = rank_descending(&keys);
    assert_eq!(top_at_least(&keys, &order, 7), Some(1));
    assert_eq!(top_at_least(&keys, &order, 5), Some(1));
    assert_eq!(top_at_least(&keys, &order, 8), None);
    let empty: Vec<i64> = Vec::new();
    assert_eq!(top_at_least(&empty, &rank_descending(&empty), i64::MIN), None);
}
