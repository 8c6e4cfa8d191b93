//! Selection of the supporting surface among candidate hits.

use suspension::probe::{select_hit, CandidateHit};

fn rigid(entity: u64, toi: i64) -> CandidateHit {
    CandidateHit { entity, toi, toi_finite: true, is_rigid_body: true, is_sensor: false }
}

#[test]
fn picks_nearest_valid_hit() {
    let candidates = vec![rigid(1, 900), rigid(2, 350), rigid(3, 500)];
    let hit = select_hit(&candidates, &vec![], 1000).unwrap();
    assert_eq!(hit.entity, 2);
    assert_eq!(hit.toi, 350);
}

#[test]
fn sensors_do_not_support() {
    let mut sensor = rigid(1, 100);
    sensor.is_sensor = true;
    let candidates = vec![sensor, rigid(2, 400)];
    let hit = select_hit(&candidates, &vec![], 1000).unwrap();
    assert_eq!(hit.entity, 2);
}

#[test]
fn non_rigid_hits_are_ignored() {
    let mut ghost_volume = rigid(1, 100);
    ghost_volume.is_rigid_body = false;
    let candidates = vec![ghost_volume, rigid(2, 400)];
    let hit = select_hit(&candidates, &vec![], 1000).unwrap();
    assert_eq!(hit.entity, 2);
}

#[test]
fn excluded_entities_are_ignored() {
    let candidates = vec![rigid(7, 100), rigid(8, 400)];
    let hit = select_hit(&candidates, &vec![7], 1000).unwrap();
    assert_eq!(hit.entity, 8);
}

#[test]
fn non_finite_impact_is_ignored() {
    let mut bad = rigid(1, 100);
    bad.toi_finite = false;
    let candidates = vec![bad, rigid(2, 400)];
    let hit = select_hit(&candidates, &vec![], 1000).unwrap();
    assert_eq!(hit.entity, 2);
}

#[test]
fn hits_beyond_range_are_ignored() {
    let candidates = vec![rigid(1, 1500), rigid(2, 400)];
    let hit = select_hit(&candidates, &vec![], 1000).unwrap();
    assert_eq!(hit.entity, 2);
}

#[test]
fn no_valid_candidate_is_airborne() {
    assert!(select_hit(&vec![], &vec![], 1000).is_none());
    let mut sensor = rigid(1, 100);
    sensor.is_sensor = true;
    assert!(select_hit(&vec![sensor], &vec![], 1000).is_none());
}

#[test]
fn tie_returns_one_of_the_nearest() {
    let candidates = vec![rigid(1, 250), rigid(2, 250), rigid(3, 900)];
    let hit = select_hit(&candidates, &vec![], 1000).unwrap();
    assert_eq!(hit.toi, 250);
    assert!(hit.entity == 1 || hit.entity == 2);
}
