use disc_tactics::roster::{
    cover_defender_indices, find_cover_defender, find_receiver, find_thrower, fits_label,
    placement_pair, receiver_indices, Role,
};

fn role(id: &str, has_disc: bool, is_defender: bool, is_mark: bool, label: Option<&str>) -> Role {
    Role {
        id: id.to_string(),
        has_disc,
        is_defender,
        is_mark,
        label: label.map(|l| l.to_string()),
    }
}

fn sample_roster() -> Vec<Role> {
    vec![
        role("thrower", true, false, false, None),
        role("mark", false, true, true, None),
        role("o1", false, false, false, Some("1")),
        role("d1", false, true, false, Some("1")),
        role("o2", false, false, false, Some("2")),
        role("d2", false, true, false, Some("2")),
    ]
}

#[test]
fn thrower_is_first_holder() {
    let roles = sample_roster();
    assert_eq!(find_thrower(&roles), Some(0));
}

#[test]
fn no_thrower_without_holder() {
    let roles = vec![role("a", false, false, false, None), role("b", false, true, false, None)];
    assert_eq!(find_thrower(&roles), None);
    assert_eq!(find_thrower(&Vec::new()), None);
}

#[test]
fn receiver_skips_thrower_and_defenders() {
    let roles = sample_roster();
    assert_eq!(find_receiver(&roles, &None), Some(2));
}

#[test]
fn receiver_by_label() {
    let roles = sample_roster();
    assert_eq!(find_receiver(&roles, &Some("2".to_string())), Some(4));
    assert_eq!(find_receiver(&roles, &Some("9".to_string())), None);
}

#[test]
fn cover_defender_skips_mark() {
    let roles = sample_roster();
    assert_eq!(find_cover_defender(&roles, &None), Some(3));
    assert_eq!(find_cover_defender(&roles, &Some("2".to_string())), Some(5));
}

#[test]
fn unlabelled_player_misses_a_label_request() {
    let r = role("x", false, false, false, None);
    assert!(fits_label(&r, &None));
    assert!(!fits_label(&r, &Some("1".to_string())));
    let l = role("y", false, false, false, Some("1"));
    assert!(fits_label(&l, &Some("1".to_string())));
    assert!(!fits_label(&l, &Some("2".to_string())));
}

#[test]
fn coverage_sides_exclude_thrower_and_mark() {
    let roles = sample_roster();
    assert_eq!(receiver_indices(&roles), vec![2, 4]);
    assert_eq!(cover_defender_indices(&roles), vec![3, 5]);
}

#[test]
fn coverage_sides_may_be_empty() {
    let roles = vec![role("t", true, false, false, None), role("m", false, true, true, None)];
    assert!(receiver_indices(&roles).is_empty());
    assert!(cover_defender_indices(&roles).is_empty());
}

#[test]
fn placement_pair_matches_labels() {
    let roles = sample_roster();
    assert_eq!(placement_pair(&roles, &Some("2".to_string())), Some((4, 5)));
    assert_eq!(placement_pair(&roles, &None), Some((2, 3)));
}

#[test]
fn placement_pair_needs_both_players() {
    let roles = vec![
        role("t", true, false, false, None),
        role("o", false, false, false, None),
        role("m", false, true, true, None),
    ];
    assert_eq!(placement_pair(&roles, &None), None);
    let roles = sample_roster();
    assert_eq!(placement_pair(&roles, &Some("3".to_string())), None);
}

#[test]
fn intercepting_defender_leaves_coverage_side() {
    let roles = vec![
        role("d0", true, true, false, None),
        role("o1", false, false, false, None),
        role("d1", false, true, false, None),
        role("m", false, true, true, None),
    ];
    assert_eq!(cover_defender_indices(&roles), vec![2]);
    assert_eq!(receiver_indices(&roles), vec![1]);
    assert_eq!(find_cover_defender(&roles, &None), Some(0));
}
