//! Behaviour of the floating controller: the spring-damper law, the
//! grounded classification, and a full descent-and-settle scenario.

use suspension::floating::{float_step, FloatingBody, ProbeKind, SurfaceContact};
use suspension::probe::{select_hit, CandidateHit};
use suspension::vec3::FixVec3;

fn up() -> FixVec3 {
    FixVec3 { x: 0, y: 1000, z: 0 }
}

fn zero() -> FixVec3 {
    FixVec3 { x: 0, y: 0, z: 0 }
}

fn contact_at(toi: i64) -> Option<SurfaceContact> {
    Some(SurfaceContact { toi, surface_vel: zero() })
}

#[test]
fn default_configuration() {
    let cfg = FloatingBody::default();
    assert!(cfg.enabled);
    assert_eq!(cfg.ray_offset, zero());
    assert_eq!(cfg.float_height, 1000);
    assert_eq!(cfg.buffer_height, 1000);
    assert!(matches!(cfg.probe, ProbeKind::Ray));
    assert_eq!(cfg.damp_frequency, 15000);
    assert_eq!(cfg.damp_factor, 300);
}

#[test]
fn rest_equilibrium_receives_no_correction() {
    let cfg = FloatingBody::default();
    let out = float_step(&cfg, up(), zero(), contact_at(1000), true, 16);
    assert_eq!(out.lin_vel, zero());
    assert!(out.grounded);
}

#[test]
fn grounded_body_above_rest_is_pulled_down() {
    let cfg = FloatingBody::default();
    // Half a unit above rest height: tension 0.5 * 15^2 = 112.5 units,
    // over dt = 0.016 a downward delta of 1.8 units.
    let out = float_step(&cfg, up(), zero(), contact_at(1500), true, 16);
    assert_eq!(out.lin_vel, FixVec3 { x: 0, y: -1800, z: 0 });
    assert!(!out.grounded);
}

#[test]
fn airborne_body_above_rest_is_left_alone() {
    let cfg = FloatingBody::default();
    let out = float_step(&cfg, up(), zero(), contact_at(1500), false, 16);
    assert_eq!(out.lin_vel, zero());
    assert!(!out.grounded);
}

#[test]
fn penetrating_body_is_pushed_up() {
    let cfg = FloatingBody::default();
    // Half a unit below rest height, even while airborne.
    let out = float_step(&cfg, up(), zero(), contact_at(500), false, 16);
    assert_eq!(out.lin_vel, FixVec3 { x: 0, y: 1800, z: 0 });
    assert!(out.grounded);
}

#[test]
fn no_contact_is_airborne_with_no_correction() {
    let cfg = FloatingBody::default();
    let moving = FixVec3 { x: 100, y: -700, z: 50 };
    let out = float_step(&cfg, up(), moving, None, true, 16);
    assert_eq!(out.lin_vel, moving);
    assert!(!out.grounded);
}

#[test]
fn grounded_boundary_is_exact() {
    let cfg = FloatingBody::default();
    // Exactly at rest height: grounded.
    let at_rest = float_step(&cfg, up(), zero(), contact_at(1000), true, 16);
    assert!(at_rest.grounded);
    // One tick above: airborne.
    let above = float_step(&cfg, up(), zero(), contact_at(1001), true, 16);
    assert!(!above.grounded);
}

#[test]
fn disabled_body_is_classified_but_not_corrected() {
    let mut cfg = FloatingBody::default();
    cfg.enabled = false;
    let out = float_step(&cfg, up(), zero(), contact_at(500), true, 16);
    assert_eq!(out.lin_vel, zero());
    assert!(out.grounded);
}

#[test]
fn moving_surface_drives_the_damper() {
    let cfg = FloatingBody::default();
    // Surface falling at one unit per second, body at rest height:
    // relative velocity -1, damping 2 * 0.3 * 15 = 9, delta 9 * 0.016.
    let c = Some(SurfaceContact { toi: 1000, surface_vel: FixVec3 { x: 0, y: -1000, z: 0 } });
    let out = float_step(&cfg, up(), zero(), c, true, 16);
    assert_eq!(out.lin_vel, FixVec3 { x: 0, y: -144, z: 0 });
}

#[test]
fn override_up_axis_redirects_the_correction() {
    // With the up axis overridden to +z, the same half-unit displacement
    // corrects along z instead of y.
    let cfg = FloatingBody::default();
    let z_up = FixVec3 { x: 0, y: 0, z: 1000 };
    let out = float_step(&cfg, z_up, zero(), contact_at(1500), true, 16);
    assert_eq!(out.lin_vel, FixVec3 { x: 0, y: 0, z: -1800 });
}

#[test]
fn evaluation_is_pure_in_the_snapshot() {
    let cfg = FloatingBody::default();
    let vel = FixVec3 { x: 250, y: -400, z: 90 };
    let first = float_step(&cfg, up(), vel, contact_at(1200), true, 16);
    let second = float_step(&cfg, up(), vel, contact_at(1200), true, 16);
    assert_eq!(first.lin_vel, second.lin_vel);
    assert_eq!(first.grounded, second.grounded);
}

#[test]
fn probe_feeds_the_controller() {
    let cfg = FloatingBody::default();
    let mut sensor = CandidateHit {
        entity: 5,
        toi: 200,
        toi_finite: true,
        is_rigid_body: true,
        is_sensor: true,
    };
    let floor = CandidateHit {
        entity: 9,
        toi: 1000,
        toi_finite: true,
        is_rigid_body: true,
        is_sensor: false,
    };
    sensor.is_sensor = true;
    let hit = select_hit(&vec![sensor, floor], &vec![1], cfg.float_height + cfg.buffer_height)
        .unwrap();
    assert_eq!(hit.entity, 9);
    let out = float_step(&cfg, up(), zero(), contact_at(hit.toi), true, 16);
    assert!(out.grounded);
    assert_eq!(out.lin_vel, zero());
}

#[test]
fn dropped_body_settles_near_rest_height() {
    // A body spawned two units above a flat floor, rest height 1.1 with
    // 0.45 of buffer, frequency 15, factor 0.3. Driven with gravity at a
    // fixed small timestep it descends, engages the spring, and settles
    // against gravity just below the rest height, grounded.
    let cfg = FloatingBody {
        enabled: true,
        ray_offset: zero(),
        float_height: 1100,
        buffer_height: 450,
        probe: ProbeKind::Ray,
        damp_frequency: 15000,
        damp_factor: 300,
    };
    let dt: i64 = 10; // 0.01 s
    let gravity_step: i64 = 9810 * dt / 1000;
    let max_range = cfg.float_height + cfg.buffer_height;
    let mut height: i64 = 2000;
    let mut vel_y: i64 = 0;
    let mut grounded = false;
    for _ in 0..5000 {
        let contact = if 0 <= height && height <= max_range {
            contact_at(height)
        } else {
            None
        };
        let body_vel = FixVec3 { x: 0, y: vel_y, z: 0 };
        let out = float_step(&cfg, up(), body_vel, contact, grounded, dt);
        vel_y = out.lin_vel.y;
        grounded = out.grounded;
        vel_y -= gravity_step;
        height += vel_y * dt / 1000;
        assert!(height > 300, "body fell through the floor");
        assert!(height < 2500, "body flew away");
    }
    assert!(grounded);
    // Settles where the spring balances gravity: 9.81 / 15^2 = 0.0436
    // units below the rest height.
    assert!((height - 1056).abs() <= 60, "height was {height}");
    assert!(vel_y.abs() <= 200, "velocity was {vel_y}");
}
