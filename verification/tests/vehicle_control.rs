//! Behaviour of the vehicle suspension controller: per-wheel forces,
//! aggregation, the spin damping, and the discard of degenerate results.

use suspension::vec3::FixVec3;
use suspension::vehicle::{vehicle_step, VehicleBody, Wheel, WheelFrame};

fn v(x: i64, y: i64, z: i64) -> FixVec3 {
    FixVec3 { x, y, z }
}

fn straight_frame(toi: Option<i64>) -> WheelFrame {
    WheelFrame {
        contact: toi,
        up_vec: v(0, 1000, 0),
        forward_vec: v(0, 0, -1000),
        steer_sin: 0,
        steer_cos: 1000,
    }
}

fn four_wheels() -> Vec<Wheel> {
    let mut wheels = Vec::new();
    for (x, z) in [(1000, -1500), (-1000, -1500), (1000, 1500), (-1000, 1500)] {
        let mut w = Wheel::default();
        w.offset = v(x, 0, z);
        wheels.push(w);
    }
    wheels
}

#[test]
fn default_wheel() {
    let w = Wheel::default();
    assert_eq!(w.offset, v(0, 0, 0));
    assert_eq!(w.length, 800);
    assert_eq!(w.mass, 500);
    assert_eq!(w.grip, 1000);
    assert_eq!(w.acceleration, 0);
    assert_eq!(w.brake, 0);
    assert_eq!(w.angle, 0);
    assert_eq!(w.up, v(0, 1000, 0));
    assert_eq!(w.forward, v(0, 0, -1000));
    assert_eq!(w.spring_strength, 64000);
    assert_eq!(w.spring_damping, 16000);
}

#[test]
fn no_contact_contributes_nothing() {
    let vb = VehicleBody { wheels: four_wheels() };
    let frames = vec![
        straight_frame(None),
        straight_frame(None),
        straight_frame(None),
        straight_frame(None),
    ];
    let lin = v(100, 200, 300);
    let ang = v(1000, 0, 0);
    let out = vehicle_step(&vb, &frames, lin, ang, 16);
    // Linear velocity untouched; angular velocity only damped:
    // 1.0 - (1.0 * 8) * 0.016 = 0.872.
    assert_eq!(out.lin_vel, lin);
    assert_eq!(out.ang_vel, v(872, 0, 0));
    assert!(out.lin_applied);
    assert!(out.ang_applied);
}

#[test]
fn no_wheels_only_damps_spin() {
    let vb = VehicleBody { wheels: Vec::new() };
    let frames: Vec<WheelFrame> = Vec::new();
    let lin = v(500, 0, 0);
    let ang = v(0, 1000, 0);
    let out = vehicle_step(&vb, &frames, lin, ang, 16);
    assert_eq!(out.lin_vel, lin);
    assert_eq!(out.ang_vel, v(0, 872, 0));
    assert!(!out.lin_applied);
    assert!(!out.ang_applied);
}

#[test]
fn drive_force_accelerates_the_body() {
    // Four wheels in contact at full rest length, zero velocity; the two
    // front wheels drive with 8.0. The reaction accelerates the body along
    // the (negated) shared forward axis and pitches it.
    let mut wheels = four_wheels();
    wheels[0].acceleration = 8000;
    wheels[1].acceleration = 8000;
    let vb = VehicleBody { wheels };
    let frames = vec![
        straight_frame(Some(800)),
        straight_frame(Some(800)),
        straight_frame(Some(800)),
        straight_frame(Some(800)),
    ];
    let out = vehicle_step(&vb, &frames, v(0, 0, 0), v(0, 0, 0), 16);
    // Average drive 2 * 8 / 4 = 4 units; reaction +z; dt 0.016.
    assert_eq!(out.lin_vel, v(0, 0, 64));
    // Pitch torque about x from the two driven wheels, then damped.
    assert_eq!(out.ang_vel, v(-45, 0, 0));
    assert!(out.lin_applied);
    assert!(out.ang_applied);
}

#[test]
fn braking_opposes_forward_velocity() {
    // Rolling along the forward axis at 2.0; the driven wheels now brake
    // with 20. One step brakes the body without reversing it.
    let mut wheels = four_wheels();
    wheels[0].brake = 20000;
    wheels[1].brake = 20000;
    let vb = VehicleBody { wheels };
    let frames = vec![
        straight_frame(Some(800)),
        straight_frame(Some(800)),
        straight_frame(Some(800)),
        straight_frame(Some(800)),
    ];
    let rolling = v(0, 0, -2000);
    let out = vehicle_step(&vb, &frames, rolling, v(0, 0, 0), 16);
    assert_eq!(out.lin_vel, v(0, 0, -1680));
    assert_eq!(out.ang_vel, v(-224, 0, 0));
}

#[test]
fn compressed_spring_pushes_the_body_up() {
    // One centered wheel compressed by half its length: 0.4 * 64 = 25.6
    // units of suspension force upward on the body.
    let vb = VehicleBody { wheels: vec![Wheel::default()] };
    let frames = vec![straight_frame(Some(400))];
    let out = vehicle_step(&vb, &frames, v(0, 0, 0), v(0, 0, 0), 16);
    assert_eq!(out.lin_vel, v(0, 409, 0));
    assert_eq!(out.ang_vel, v(0, 0, 0));
}

#[test]
fn spring_damping_opposes_vertical_motion() {
    // One centered wheel at full rest length, body moving up at 1.0:
    // damping 1.0 * 16 opposes it.
    let vb = VehicleBody { wheels: vec![Wheel::default()] };
    let frames = vec![straight_frame(Some(800))];
    let out = vehicle_step(&vb, &frames, v(0, 1000, 0), v(0, 0, 0), 16);
    assert_eq!(out.lin_vel, v(0, 744, 0));
}

#[test]
fn steered_wheel_drives_sideways() {
    // A single wheel steered ninety degrees (sine 1, cosine 0) turns its
    // forward axis from -z to -x; the drive reaction moves the body along
    // +x.
    let mut w = Wheel::default();
    w.acceleration = 8000;
    let vb = VehicleBody { wheels: vec![w] };
    let frames = vec![WheelFrame {
        contact: Some(800),
        up_vec: v(0, 1000, 0),
        forward_vec: v(0, 0, -1000),
        steer_sin: 1000,
        steer_cos: 0,
    }];
    let out = vehicle_step(&vb, &frames, v(0, 0, 0), v(0, 0, 0), 16);
    assert_eq!(out.lin_vel, v(128, 0, 0));
}

#[test]
fn degenerate_correction_is_discarded() {
    // A pathological wheel: huge grip and mass, the shortest timestep, a
    // fast-spinning body and a far-off mount make the slip correction
    // unrepresentable. The whole correction is discarded for the step and
    // only the spin damping applies.
    let mut w = Wheel::default();
    w.grip = 1_000_000;
    w.mass = 1_000_000;
    w.offset = v(1_000_000, 0, 1_000_000);
    let vb = VehicleBody { wheels: vec![w] };
    let frames = vec![WheelFrame {
        contact: Some(800),
        up_vec: v(0, 2000, 0),
        forward_vec: v(2000, 0, 2000),
        steer_sin: 0,
        steer_cos: 1000,
    }];
    let lin = v(0, 0, 0);
    let ang = v(1_000_000, 0, 0);
    let out = vehicle_step(&vb, &frames, lin, ang, 1);
    assert!(!out.lin_applied);
    assert!(!out.ang_applied);
    assert_eq!(out.lin_vel, lin);
    // 1000 - (1000 * 8) * 0.001 = 992 units.
    assert_eq!(out.ang_vel, v(992_000, 0, 0));
}
