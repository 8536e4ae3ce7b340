use disc_tactics::flight::{catch_disc, find_by_id, holder_index, release_disc, DiscControl};
use disc_tactics::roster::Role;

fn role(id: &str, has_disc: bool, is_defender: bool) -> Role {
    Role { id: id.to_string(), has_disc, is_defender, is_mark: false, label: None }
}

fn flags(roles: &[Role]) -> Vec<bool> {
    roles.iter().map(|r| r.has_disc).collect()
}

#[test]
fn release_without_holder_changes_nothing() {
    let mut roles = vec![role("a", false, false), role("b", false, true)];
    let mut disc = DiscControl { holder_id: None, in_flight: false };
    assert!(!release_disc(&mut roles, &mut disc));
    assert_eq!(flags(&roles), vec![false, false]);
    assert_eq!(disc.holder_id, None);
    assert!(!disc.in_flight);
}

#[test]
fn release_clears_holder() {
    let mut roles = vec![role("a", false, false), role("b", true, false)];
    let mut disc = DiscControl { holder_id: Some("b".to_string()), in_flight: false };
    assert!(release_disc(&mut roles, &mut disc));
    assert_eq!(flags(&roles), vec![false, false]);
    assert_eq!(disc.holder_id, None);
    assert!(disc.in_flight);
}

#[test]
fn release_with_holder_id_only() {
    let mut roles = vec![role("a", false, false)];
    let mut disc = DiscControl { holder_id: Some("gone".to_string()), in_flight: false };
    assert!(release_disc(&mut roles, &mut disc));
    assert_eq!(disc.holder_id, None);
    assert!(disc.in_flight);
}

#[test]
fn first_near_player_catches() {
    let mut roles = vec![role("a", false, false), role("b", false, true), role("c", false, false)];
    let mut disc = DiscControl { holder_id: None, in_flight: true };
    let c = catch_disc(&mut roles, &mut disc, &vec![false, true, true]);
    assert_eq!(c, Some(1));
    assert_eq!(disc.holder_id, Some("b".to_string()));
    assert!(!disc.in_flight);
    assert_eq!(flags(&roles), vec![false, true, false]);
}

#[test]
fn nobody_near_keeps_flight() {
    let mut roles = vec![role("a", false, false)];
    let mut disc = DiscControl { holder_id: None, in_flight: true };
    assert_eq!(catch_disc(&mut roles, &mut disc, &vec![false]), None);
    assert!(disc.in_flight);
    assert_eq!(disc.holder_id, None);
    assert_eq!(flags(&roles), vec![false]);
}

#[test]
fn holder_found_by_id() {
    let roles = vec![role("a", false, false), role("b", true, false)];
    let disc = DiscControl { holder_id: Some("b".to_string()), in_flight: false };
    assert_eq!(holder_index(&roles, &disc), Some(1));
    let free = DiscControl { holder_id: None, in_flight: false };
    assert_eq!(holder_index(&roles, &free), None);
    assert_eq!(find_by_id(&roles, &"z".to_string()), None);
}
