use mukalujauh::model::{enroll_identity, remove_identities_named, FaceIdentity};
use mukalujauh::text::{is_white_space, push_decimal, replace_spaces, same_text};

#[test]
fn identity_id_is_lowercased_slug_and_time() {
    let p: FaceIdentity<()> = FaceIdentity::new_at("Endri Susanto", 1725029869);
    assert_eq!(p.id, "face_endri_susanto_1725029869");
    assert_eq!(p.name, "Endri Susanto");
    assert!(p.is_active);
    assert!(p.samples.is_empty());
    assert_eq!(p.created_at, 1725029869);
}

#[test]
fn new_identity_uses_the_clock() {
    let p: FaceIdentity<()> = FaceIdentity::new("Ana");
    assert_eq!(p.id, format!("face_ana_{}", p.created_at));
    assert!(p.created_at > 1_600_000_000);
}

#[test]
fn sample_ids_follow_positions() {
    let mut p: FaceIdentity<Vec<u8>> = FaceIdentity::new_at("Bo", 7);
    p.add_sample("Center".to_string(), vec![1], 10);
    p.add_sample("Tilt Up".to_string(), vec![2], 11);
    assert_eq!(p.samples[0].id, "face_bo_7_0");
    assert_eq!(p.samples[1].id, "face_bo_7_1");
    assert_eq!(p.samples[1].pose_label, "Tilt Up");
    assert_eq!(p.samples[1].embedding, vec![2]);
    assert_eq!(p.samples[1].created_at, 11);
}

#[test]
fn enrolling_replaces_same_name_case_insensitively() {
    let mut ids: Vec<FaceIdentity<()>> = vec![
        FaceIdentity::new_at("Alice", 1),
        FaceIdentity::new_at("Bob", 2),
        FaceIdentity::new_at("ALICE", 3),
    ];
    enroll_identity(&mut ids, FaceIdentity::new_at("alice", 4));
    let names: Vec<&str> = ids.iter().map(|p| p.name.as_str()).collect();
    assert_eq!(names, vec!["Bob", "alice"]);
    assert_eq!(ids[1].created_at, 4);
}

#[test]
fn removing_reports_whether_a_profile_went() {
    let mut ids: Vec<FaceIdentity<()>> =
        vec![FaceIdentity::new_at("Alice", 1), FaceIdentity::new_at("Bob", 2)];
    assert!(!remove_identities_named(&mut ids, "Carol"));
    assert_eq!(ids.len(), 2);
    assert!(remove_identities_named(&mut ids, "bOB"));
    assert_eq!(ids.len(), 1);
    assert_eq!(ids[0].name, "Alice");
}

#[test]
fn text_helpers() {
    assert_eq!(replace_spaces("a b  c"), "a_b__c");
    let mut s = String::from("n=");
    push_decimal(&mut s, 0);
    push_decimal(&mut s, 18446744073709551615);
    assert_eq!(s, "n=018446744073709551615");
    assert!(same_text("GET", "GET"));
    assert!(!same_text("GET", "get"));
}

#[test]
fn deleting_the_enrolled_name_undoes_the_enrolment() {
    let mut ids: Vec<FaceIdentity<()>> = vec![
        FaceIdentity::new_at("Alice", 1),
        FaceIdentity::new_at("Bob", 2),
        FaceIdentity::new_at("alice", 3),
        FaceIdentity::new_at("Cy", 4),
    ];
    enroll_identity(&mut ids, FaceIdentity::new_at("ALICE", 9));
    assert!(remove_identities_named(&mut ids, "ALICE"));
    let names: Vec<&str> = ids.iter().map(|p| p.name.as_str()).collect();
    assert_eq!(names, vec!["Bob", "Cy"]);
}

#[test]
fn white_space_matches_std_for_every_char() {
    for v in 0..=0x10FFFFu32 {
        if let Some(c) = char::from_u32(v) {
            assert_eq!(is_white_space(c), c.is_whitespace(), "U+{:04X}", v);
        }
    }
}
