//! The N-wheel vehicle suspension controller. Each wheel is probed
//! straight down by the embedding; [`vehicle_step`] turns the per-wheel
//! contacts into suspension, traction and lateral-slip forces, averages
//! them over the wheel count, and returns the corrected linear and angular
//! velocities together with a flag saying whether each correction was
//! representable and applied.

use vstd::prelude::*;
use crate::fixed::{
    fmul, fdiv, lemma_fmul_bound, lemma_fdiv_bound, lemma_fmul_zero, wmul, wfdiv, AXIS_LIMIT,
    INPUT_LIMIT, SCALE, TRIG_LIMIT,
};
use crate::vec3::{
    add3, cross3, div3, dot3, fits3_check, fits3_i64, in_range3, lemma_cross3_bound,
    lemma_dot3_bound, lemma_scale3_bound, len3, narrow3, neg3, norm_sq3, scale3, sub3, wadd3,
    wcross3, wdiv3, wdot3, wide3_of, wlen3, wneg3, wscale3, wsub3, zero3, FixVec3, Vec3i, Wide3,
};

verus! {

/// Damping coefficient applied to the angular velocity every step: eight
/// units, matching the vehicle solver's fixed spin damping.
pub const SPIN_DAMPING: i64 = 8000;

/// Largest number of wheels a vehicle may carry.
pub const MAX_WHEELS: usize = 4096;

/// One spring-damper wheel of a vehicle, in fixed-point ticks.
#[derive(Clone, Copy, PartialEq, Eq, Structural, Debug)]
pub struct Wheel {
    /// Mount point relative to the body.
    pub offset: FixVec3,
    /// Rest length of the suspension spring.
    pub length: i64,
    /// Notional unsprung mass, scaling the slip correction.
    pub mass: i64,
    /// Lateral grip: how much of the sideways slip is cancelled.
    pub grip: i64,
    /// Signed drive force along the wheel's forward axis.
    pub acceleration: i64,
    /// Brake coefficient against the forward velocity.
    pub brake: i64,
    /// Steer angle in milliradians; the embedding hands its sine and
    /// cosine to the step.
    pub angle: i64,
    /// The wheel's up axis in the body frame.
    pub up: FixVec3,
    /// The wheel's forward axis in the body frame.
    pub forward: FixVec3,
    /// Spring stiffness against compression.
    pub spring_strength: i64,
    /// Spring damping against vertical velocity.
    pub spring_damping: i64,
}

impl Wheel {
    /// Well-formed wheel: positive rest length, nonnegative coefficients,
    /// every scalar within the arithmetic range of a step.
    pub open spec fn wf(self) -> bool {
        &&& 0 < self.length <= INPUT_LIMIT
        &&& 0 <= self.mass <= INPUT_LIMIT
        &&& 0 <= self.grip <= INPUT_LIMIT
        &&& -INPUT_LIMIT <= self.acceleration <= INPUT_LIMIT
        &&& 0 <= self.brake <= INPUT_LIMIT
        &&& -INPUT_LIMIT <= self.angle <= INPUT_LIMIT
        &&& in_range3(self.offset.view_int(), INPUT_LIMIT as int)
        &&& in_range3(self.up.view_int(), AXIS_LIMIT as int)
        &&& in_range3(self.forward.view_int(), AXIS_LIMIT as int)
        &&& 0 <= self.spring_strength <= INPUT_LIMIT
        &&& 0 <= self.spring_damping <= INPUT_LIMIT
    }
}

impl Default for Wheel {
    /// A centered wheel with a spring of eight tenths of a unit, half a
    /// unit of mass, full grip, no drive, no brake, no steering, the
    /// standard axes, and a stiff, damped spring.
    fn default() -> (r: Wheel)
        ensures
            r == (Wheel {
                offset: FixVec3 { x: 0, y: 0, z: 0 },
                length: 800,
                mass: 500,
                grip: 1000,
                acceleration: 0,
                brake: 0,
                angle: 0,
                up: FixVec3 { x: 0, y: 1000, z: 0 },
                forward: FixVec3 { x: 0, y: 0, z: -1000i64 },
                spring_strength: 64000,
                spring_damping: 16000,
            }),
            r.wf(),
    {
        Wheel {
            offset: FixVec3 { x: 0, y: 0, z: 0 },
            length: 800,
            mass: 500,
            grip: 1000,
            acceleration: 0,
            brake: 0,
            angle: 0,
            up: FixVec3 { x: 0, y: 1000, z: 0 },
            forward: FixVec3 { x: 0, y: 0, z: -1000 },
            spring_strength: 64000,
            spring_damping: 16000,
        }
    }
}

/// A vehicle body: an ordered sequence of wheels. Which wheels steer,
/// drive or brake is decided by whoever sets their fields, not by this
/// data model.
pub struct VehicleBody {
    pub wheels: Vec<Wheel>,
}

impl VehicleBody {
    /// Well-formed vehicle: every wheel well-formed, and few enough wheels
    /// for the aggregation arithmetic.
    pub open spec fn wf(self) -> bool {
        &&& self.wheels@.len() <= MAX_WHEELS
        &&& forall|i: int| 0 <= i < self.wheels@.len() ==> (#[trigger] self.wheels@[i]).wf()
    }
}

/// The per-step, per-wheel snapshot the embedding hands to the solver: the
/// probe result under this wheel and the wheel's world-space axes, the
/// body's rotation already applied. The steer angle enters as its sine and
/// cosine.
#[derive(Clone, Copy, Debug)]
pub struct WheelFrame {
    /// Probe distance under the wheel, or `None` when the wheel hangs
    /// free.
    pub contact: Option<i64>,
    /// World-space up axis of the wheel.
    pub up_vec: FixVec3,
    /// World-space forward axis of the wheel, before steering.
    pub forward_vec: FixVec3,
    /// Sine of the steer angle.
    pub steer_sin: i64,
    /// Cosine of the steer angle.
    pub steer_cos: i64,
}

impl WheelFrame {
    /// Well-formed frame for a wheel: unit-scale axes and trigonometric
    /// values, and a contact distance within the wheel's probe range.
    pub open spec fn wf(self, w: Wheel) -> bool {
        &&& in_range3(self.up_vec.view_int(), AXIS_LIMIT as int)
        &&& in_range3(self.forward_vec.view_int(), AXIS_LIMIT as int)
        &&& -TRIG_LIMIT <= self.steer_sin <= TRIG_LIMIT
        &&& -TRIG_LIMIT <= self.steer_cos <= TRIG_LIMIT
        &&& (self.contact matches Option::Some(toi) ==> 0 <= toi <= w.length)
    }
}

/// Rotation of a vector about an axis, given the angle's sine and cosine:
/// the Rodrigues form `v cos + (k x v) sin + k (k . v)(1 - cos)`.
pub open spec fn rotate_about(v: Vec3i, axis: Vec3i, sin: int, cos: int) -> Vec3i {
    add3(
        add3(scale3(v, cos), scale3(cross3(axis, v), sin)),
        scale3(axis, fmul(dot3(axis, v), (SCALE as int) - cos)),
    )
}

/// The linear and angular force a single wheel contributes, already
/// negated to the body's reaction.
pub ghost struct WheelForces {
    pub linear: Vec3i,
    pub angular: Vec3i,
}

/// One wheel's contribution. A wheel without contact contributes exactly
/// zero. A wheel in contact decomposes its contact-point velocity into the
/// suspension, traction and lateral-slip axes and reacts on the body.
pub open spec fn wheel_eval(w: Wheel, f: WheelFrame, lin: Vec3i, ang: Vec3i, dt: int) -> WheelForces {
    match f.contact {
        Option::None => WheelForces { linear: zero3(), angular: zero3() },
        Option::Some(toi) => {
            let up_vec = f.up_vec.view_int();
            let fwd_vec = rotate_about(
                f.forward_vec.view_int(),
                up_vec,
                f.steer_sin as int,
                f.steer_cos as int,
            );
            let slip_vec = neg3(cross3(up_vec, fwd_vec));
            let x = w.length - toi;
            let wheel_center = sub3(w.offset.view_int(), scale3(up_vec, toi as int));
            let point_vel = add3(scale3(ang, len3(wheel_center)), lin);
            let up_vel = dot3(point_vel, up_vec);
            let fwd_vel = dot3(lin, fwd_vec);
            let slip_vel = dot3(point_vel, slip_vec);
            let suspension = fmul(x, w.spring_strength as int) - fmul(
                up_vel,
                w.spring_damping as int,
            );
            let slip_force = fmul(fdiv(fmul(slip_vel, w.grip as int), dt), w.mass as int);
            let brake_force = fmul(fwd_vel, w.brake as int);
            let force = add3(
                add3(
                    add3(scale3(neg3(up_vec), suspension), scale3(slip_vec, slip_force)),
                    scale3(fwd_vec, w.acceleration as int),
                ),
                scale3(fwd_vec, brake_force),
            );
            WheelForces {
                linear: neg3(force),
                angular: neg3(cross3(wheel_center, force)),
            }
        },
    }
}

/// Sum of the first `k` wheels' contributions.
pub open spec fn forces_total(
    wheels: Seq<Wheel>,
    frames: Seq<WheelFrame>,
    lin: Vec3i,
    ang: Vec3i,
    dt: int,
    k: int,
) -> WheelForces
    decreases k,
{
    if k <= 0 {
        WheelForces { linear: zero3(), angular: zero3() }
    } else {
        let prev = forces_total(wheels, frames, lin, ang, dt, k - 1);
        let wf = wheel_eval(wheels[k - 1], frames[k - 1], lin, ang, dt);
        WheelForces { linear: add3(prev.linear, wf.linear), angular: add3(prev.angular, wf.angular) }
    }
}

/// The spin damping applied to an angular velocity every step:
/// `a - (a * damping) * dt`.
pub open spec fn damp3(a: Vec3i, dt: int) -> Vec3i {
    sub3(a, scale3(scale3(a, SPIN_DAMPING as int), dt))
}

/// Mathematical result of one vehicle evaluation.
pub ghost struct VehicleEval {
    pub lin_vel: Vec3i,
    pub ang_vel: Vec3i,
    pub lin_applied: bool,
    pub ang_applied: bool,
}

/// One vehicle evaluation. The wheel forces are summed and averaged over
/// the wheel count, so overall stiffness does not grow with more wheels.
/// Each averaged correction is integrated into the velocity only when it
/// and the resulting velocity are representable; a degenerate correction is
/// discarded for this step. The spin damping applies every step, to the
/// corrected angular velocity when the correction was applied, else to the
/// incoming one.
pub open spec fn vehicle_eval(
    wheels: Seq<Wheel>,
    frames: Seq<WheelFrame>,
    lin: Vec3i,
    ang: Vec3i,
    dt: int,
) -> VehicleEval {
    let n = wheels.len() as int;
    let total = forces_total(wheels, frames, lin, ang, dt, n);
    let lin_avg = div3(total.linear, n);
    let lin_cand = add3(lin, scale3(lin_avg, dt));
    let lin_applied = n > 0 && fits3_i64(lin_avg) && fits3_i64(lin_cand);
    let ang_avg = div3(total.angular, n);
    let ang_cand = add3(ang, scale3(ang_avg, dt));
    let ang_applied = n > 0 && fits3_i64(ang_avg) && fits3_i64(ang_cand) && fits3_i64(
        damp3(ang_cand, dt),
    );
    VehicleEval {
        lin_vel: if lin_applied {
            lin_cand
        } else {
            lin
        },
        ang_vel: if ang_applied {
            damp3(ang_cand, dt)
        } else {
            damp3(ang, dt)
        },
        lin_applied,
        ang_applied,
    }
}

/// Result of one vehicle evaluation.
#[derive(Clone, Copy, Debug)]
pub struct VehicleOutcome {
    pub lin_vel: FixVec3,
    pub ang_vel: FixVec3,
    /// Whether the linear correction was representable and applied.
    pub lin_applied: bool,
    /// Whether the angular correction was representable and applied.
    pub ang_applied: bool,
}

/// One wheel's contribution, exactly [`wheel_eval`], with its magnitude
/// bounded for aggregation.
#[verifier::rlimit(100)]
fn wheel_contribution(w: &Wheel, f: &WheelFrame, lin_vel: FixVec3, ang_vel: FixVec3, dt: i64) -> (r:
    (Wide3, Wide3))
    requires
        w.wf(),
        f.wf(*w),
        in_range3(lin_vel.view_int(), INPUT_LIMIT as int),
        in_range3(ang_vel.view_int(), INPUT_LIMIT as int),
        1 <= dt <= SCALE,
    ensures
        r.0.view_int() == wheel_eval(*w, *f, lin_vel.view_int(), ang_vel.view_int(), dt as int).linear,
        r.1.view_int() == wheel_eval(*w, *f, lin_vel.view_int(), ang_vel.view_int(), dt as int).angular,
        in_range3(r.0.view_int(), 900000000000000000000000),
        in_range3(r.1.view_int(), 6000000000000000000000000000),
{
    match f.contact {
        Option::None => (Wide3 { x: 0, y: 0, z: 0 }, Wide3 { x: 0, y: 0, z: 0 }),
        Option::Some(toi) => {
            let wup: Wide3 = wide3_of(f.up_vec);
            let wfwd0: Wide3 = wide3_of(f.forward_vec);
            let wlin: Wide3 = wide3_of(lin_vel);
            let wang: Wide3 = wide3_of(ang_vel);
            // Steered forward axis by the Rodrigues rotation about the up axis.
            proof {
                lemma_scale3_bound(f.forward_vec.view_int(), f.steer_cos as int, 2000, 1001);
                lemma_cross3_bound(f.up_vec.view_int(), f.forward_vec.view_int(), 2000, 2000);
                lemma_dot3_bound(f.up_vec.view_int(), f.forward_vec.view_int(), 2000, 2000);
            }
            let t1: Wide3 = wscale3(wfwd0, f.steer_cos as i128);
            let cr: Wide3 = wcross3(wup, wfwd0);
            proof {
                lemma_scale3_bound(cr.view_int(), f.steer_sin as int, 8000, 1001);
            }
            let t2: Wide3 = wscale3(cr, f.steer_sin as i128);
            let d: i128 = wdot3(wup, wfwd0);
            let one_minus_cos: i128 = (SCALE as i128) - (f.steer_cos as i128);
            proof {
                lemma_fmul_bound(d as int, one_minus_cos as int, 12000, 2001);
            }
            let m: i128 = wmul(d, one_minus_cos);
            proof {
                lemma_scale3_bound(f.up_vec.view_int(), m as int, 2000, 24012);
            }
            let t3: Wide3 = wscale3(wup, m);
            let fwd: Wide3 = wadd3(wadd3(t1, t2), t3);
            assert(fwd.view_int() == rotate_about(
                f.forward_vec.view_int(),
                f.up_vec.view_int(),
                f.steer_sin as int,
                f.steer_cos as int,
            ));
            assert(in_range3(fwd.view_int(), 58034));
            // Lateral slip axis.
            proof {
                lemma_cross3_bound(f.up_vec.view_int(), fwd.view_int(), 2000, 58034);
            }
            let slip: Wide3 = wneg3(wcross3(wup, fwd));
            assert(in_range3(slip.view_int(), 232136));
            // Spring compression and the contact point under the mount.
            let x: i64 = w.length - toi;
            proof {
                lemma_scale3_bound(f.up_vec.view_int(), toi as int, 2000, 1000000);
            }
            let center: Wide3 = wsub3(wide3_of(w.offset), wscale3(wup, toi as i128));
            assert(in_range3(center.view_int(), 3000000));
            let clen: i128 = wlen3(center);
            proof {
                assert(norm_sq3(center.view_int()) <= 27000000000000) by (nonlinear_arith)
                    requires
                        in_range3(center.view_int(), 3000000),
                        norm_sq3(center.view_int()) == center.view_int().x * center.view_int().x
                            + center.view_int().y * center.view_int().y + center.view_int().z
                            * center.view_int().z,
                ;
                assert(clen as int <= 5200000) by (nonlinear_arith)
                    requires
                        0 <= clen as int,
                        (clen as int) * (clen as int) <= 27000000000000,
                ;
            }
            // Velocity of the contact point approximation.
            proof {
                lemma_scale3_bound(ang_vel.view_int(), clen as int, 1000000, 5200000);
            }
            let point: Wide3 = wadd3(wscale3(wang, clen), wlin);
            assert(in_range3(point.view_int(), 5300000000));
            proof {
                lemma_dot3_bound(point.view_int(), f.up_vec.view_int(), 5300000000, 2000);
                lemma_dot3_bound(lin_vel.view_int(), fwd.view_int(), 1000000, 58034);
                lemma_dot3_bound(point.view_int(), slip.view_int(), 5300000000, 232136);
            }
            let up_vel: i128 = wdot3(point, wup);
            assert(-32000000000 <= up_vel as int <= 32000000000);
            let fwd_vel: i128 = wdot3(wlin, fwd);
            assert(-180000000 <= fwd_vel as int <= 180000000);
            let slip_vel: i128 = wdot3(point, slip);
            assert(-3700000000000 <= slip_vel as int <= 3700000000000);
            // Suspension, slip and traction scalars.
            proof {
                lemma_fmul_bound(x as int, w.spring_strength as int, 1000000, 1000000);
                lemma_fmul_bound(up_vel as int, w.spring_damping as int, 32000000000, 1000000);
            }
            let suspension: i128 = wmul(x as i128, w.spring_strength as i128) - wmul(
                up_vel,
                w.spring_damping as i128,
            );
            assert(-33000000000000 <= suspension as int <= 33000000000000);
            proof {
                lemma_fmul_bound(slip_vel as int, w.grip as int, 3700000000000, 1000000);
            }
            let st1: i128 = wmul(slip_vel, w.grip as i128);
            assert(-3700000000000000 <= st1 as int <= 3700000000000000);
            proof {
                lemma_fdiv_bound(st1 as int, dt as int, 3700000000000000);
            }
            let st2: i128 = wfdiv(st1, dt as i128);
            assert(-3700000000000000000 <= st2 as int <= 3700000000000000000);
            proof {
                lemma_fmul_bound(st2 as int, w.mass as int, 3700000000000000000, 1000000);
            }
            let slip_force: i128 = wmul(st2, w.mass as i128);
            assert(-3700000000000000000000 <= slip_force as int <= 3700000000000000000000);
            proof {
                lemma_fmul_bound(fwd_vel as int, w.brake as int, 180000000, 1000000);
            }
            let brake_force: i128 = wmul(fwd_vel, w.brake as i128);
            assert(-180000000000 <= brake_force as int <= 180000000000);
            // Net wheel force and its reaction on the body.
            let wdown: Wide3 = wneg3(wup);
            proof {
                lemma_scale3_bound(neg3(f.up_vec.view_int()), suspension as int, 2000, 33000000000000);
                lemma_scale3_bound(slip.view_int(), slip_force as int, 232136, 3700000000000000000000);
                lemma_scale3_bound(fwd.view_int(), w.acceleration as int, 58034, 1000000);
                lemma_scale3_bound(fwd.view_int(), brake_force as int, 58034, 180000000000);
            }
            let force: Wide3 = wadd3(
                wadd3(
                    wadd3(wscale3(wdown, suspension), wscale3(slip, slip_force)),
                    wscale3(fwd, w.acceleration as i128),
                ),
                wscale3(fwd, brake_force),
            );
            assert(in_range3(force.view_int(), 900000000000000000000000));
            let lin_c: Wide3 = wneg3(force);
            proof {
                lemma_cross3_bound(center.view_int(), force.view_int(), 3000000, 900000000000000000000000);
            }
            let ang_c: Wide3 = wneg3(wcross3(center, force));
            assert(in_range3(ang_c.view_int(), 6000000000000000000000000000));
            (lin_c, ang_c)
        },
    }
}

/// The spin damping, computed wide.
fn damp_wide(a: Wide3, dt: i64) -> (r: Wide3)
    requires
        in_range3(a.view_int(), 10000000000000000000),
        1 <= dt <= SCALE,
    ensures
        r.view_int() == damp3(a.view_int(), dt as int),
        in_range3(r.view_int(), 100000000000000000000),
{
    proof {
        lemma_scale3_bound(a.view_int(), SPIN_DAMPING as int, 10000000000000000000, 8000);
    }
    let d1: Wide3 = wscale3(a, SPIN_DAMPING as i128);
    assert(in_range3(d1.view_int(), 80000000000000000000));
    proof {
        lemma_scale3_bound(d1.view_int(), dt as int, 80000000000000000000, SCALE as int);
    }
    let d2: Wide3 = wscale3(d1, dt as i128);
    assert(in_range3(d2.view_int(), 80000000000000000000));
    wsub3(a, d2)
}

/// One step of the vehicle suspension controller, exactly
/// [`vehicle_eval`] of the snapshot it is handed.
#[verifier::loop_isolation(false)]
pub fn vehicle_step(
    vb: &VehicleBody,
    frames: &Vec<WheelFrame>,
    lin_vel: FixVec3,
    ang_vel: FixVec3,
    dt: i64,
) -> (r: VehicleOutcome)
    requires
        vb.wf(),
        frames@.len() == vb.wheels@.len(),
        forall|i: int| 0 <= i < frames@.len() ==> (#[trigger] frames@[i]).wf(vb.wheels@[i]),
        in_range3(lin_vel.view_int(), INPUT_LIMIT as int),
        in_range3(ang_vel.view_int(), INPUT_LIMIT as int),
        1 <= dt <= SCALE,
    ensures
        r.lin_vel.view_int() == vehicle_eval(
            vb.wheels@,
            frames@,
            lin_vel.view_int(),
            ang_vel.view_int(),
            dt as int,
        ).lin_vel,
        r.ang_vel.view_int() == vehicle_eval(
            vb.wheels@,
            frames@,
            lin_vel.view_int(),
            ang_vel.view_int(),
            dt as int,
        ).ang_vel,
        r.lin_applied == vehicle_eval(
            vb.wheels@,
            frames@,
            lin_vel.view_int(),
            ang_vel.view_int(),
            dt as int,
        ).lin_applied,
        r.ang_applied == vehicle_eval(
            vb.wheels@,
            frames@,
            lin_vel.view_int(),
            ang_vel.view_int(),
            dt as int,
        ).ang_applied,
{
    let n: usize = vb.wheels.len();
    let mut acc_lin: Wide3 = Wide3 { x: 0, y: 0, z: 0 };
    let mut acc_ang: Wide3 = Wide3 { x: 0, y: 0, z: 0 };
    let mut i: usize = 0;
    while i < n
        invariant
            0 <= i <= n,
            acc_lin.view_int() == forces_total(
                vb.wheels@,
                frames@,
                lin_vel.view_int(),
                ang_vel.view_int(),
                dt as int,
                i as int,
            ).linear,
            acc_ang.view_int() == forces_total(
                vb.wheels@,
                frames@,
                lin_vel.view_int(),
                ang_vel.view_int(),
                dt as int,
                i as int,
            ).angular,
            in_range3(acc_lin.view_int(), (i as int) * 900000000000000000000000),
            in_range3(acc_ang.view_int(), (i as int) * 6000000000000000000000000000),
        decreases n - i,
    {
        let (cl, ca): (Wide3, Wide3) = wheel_contribution(&vb.wheels[i], &frames[i], lin_vel, ang_vel, dt);
        acc_lin = wadd3(acc_lin, cl);
        acc_ang = wadd3(acc_ang, ca);
        i += 1;
        assert(forces_total(
            vb.wheels@,
            frames@,
            lin_vel.view_int(),
            ang_vel.view_int(),
            dt as int,
            i as int,
        ).linear == add3(
            forces_total(
                vb.wheels@,
                frames@,
                lin_vel.view_int(),
                ang_vel.view_int(),
                dt as int,
                i as int - 1,
            ).linear,
            wheel_eval(
                vb.wheels@[i as int - 1],
                frames@[i as int - 1],
                lin_vel.view_int(),
                ang_vel.view_int(),
                dt as int,
            ).linear,
        ));
    }
    let mut lin_out: FixVec3 = lin_vel;
    let mut lin_applied: bool = false;
    let mut ang_out: FixVec3 = ang_vel;
    let mut ang_applied: bool = false;
    if n > 0 {
        let n128: i128 = n as i128;
        let lin_avg: Wide3 = wdiv3(acc_lin, n128);
        if fits3_check(lin_avg) {
            proof {
                lemma_scale3_bound(lin_avg.view_int(), dt as int, 9223372036854775808, SCALE as int);
            }
            let scaled: Wide3 = wscale3(lin_avg, dt as i128);
            let cand: Wide3 = wadd3(wlin_of_vec(lin_vel), scaled);
            if fits3_check(cand) {
                lin_out = narrow3(cand);
                lin_applied = true;
            }
        }
        let ang_avg: Wide3 = wdiv3(acc_ang, n128);
        if fits3_check(ang_avg) {
            proof {
                lemma_scale3_bound(ang_avg.view_int(), dt as int, 9223372036854775808, SCALE as int);
            }
            let scaled: Wide3 = wscale3(ang_avg, dt as i128);
            let cand: Wide3 = wadd3(wlin_of_vec(ang_vel), scaled);
            if fits3_check(cand) {
                let damped: Wide3 = damp_wide(cand, dt);
                if fits3_check(damped) {
                    ang_out = narrow3(damped);
                    ang_applied = true;
                }
            }
        }
    }
    if !ang_applied {
        proof {
            lemma_scale3_bound(ang_vel.view_int(), SPIN_DAMPING as int, INPUT_LIMIT as int, 8000);
            lemma_scale3_bound(
                scale3(ang_vel.view_int(), SPIN_DAMPING as int),
                dt as int,
                8000000,
                SCALE as int,
            );
        }
        let damped: Wide3 = damp_wide(wlin_of_vec(ang_vel), dt);
        ang_out = narrow3(damped);
    }
    VehicleOutcome { lin_vel: lin_out, ang_vel: ang_out, lin_applied, ang_applied }
}

/// Widening helper, named for readability at the call sites above.
fn wlin_of_vec(v: FixVec3) -> (r: Wide3)
    ensures
        r.view_int() == v.view_int(),
{
    wide3_of(v)
}

/// A wheel with no ground contact contributes exactly zero linear and zero
/// angular force, whatever the wheel's configuration and the body's state.
pub proof fn lemma_free_wheel_zero(w: Wheel, f: WheelFrame, lin: Vec3i, ang: Vec3i, dt: int)
    requires
        f.contact is None,
    ensures
        wheel_eval(w, f, lin, ang, dt).linear == zero3(),
        wheel_eval(w, f, lin, ang, dt).angular == zero3(),
{
}

/// A vehicle none of whose wheels touches the ground receives exactly zero
/// force: its linear velocity is unchanged and its angular velocity only
/// carries the per-step spin damping — no degenerate value enters the
/// aggregate.
pub proof fn lemma_no_contact_no_force(
    wheels: Seq<Wheel>,
    frames: Seq<WheelFrame>,
    lin: Vec3i,
    ang: Vec3i,
    dt: int,
)
    requires
        frames.len() == wheels.len(),
        forall|i: int| 0 <= i < frames.len() ==> (#[trigger] frames[i]).contact is None,
        in_range3(lin, INPUT_LIMIT as int),
        in_range3(ang, INPUT_LIMIT as int),
        1 <= dt <= SCALE,
    ensures
        vehicle_eval(wheels, frames, lin, ang, dt).lin_vel == lin,
        vehicle_eval(wheels, frames, lin, ang, dt).ang_vel == damp3(ang, dt),
{
    let n = wheels.len() as int;
    lemma_forces_total_no_contact(wheels, frames, lin, ang, dt, n);
    if n > 0 {
        lemma_div_trunc_zero(n);
        lemma_fmul_zero(dt);
        assert(div3(zero3(), n) == zero3());
        assert(scale3(zero3(), dt) == zero3());
        assert(add3(lin, zero3()) == lin);
        assert(add3(ang, zero3()) == ang);
        lemma_damp3_small(ang, dt);
    }
}

/// Truncating division of zero is zero.
proof fn lemma_div_trunc_zero(n: int)
    requires
        n > 0,
    ensures
        crate::fixed::div_trunc(0, n) == 0,
{
    vstd::arithmetic::div_mod::lemma_div_pos_is_pos(0, n);
    vstd::arithmetic::div_mod::lemma_div_basics_5(0, n);
}

/// The damped angular velocity of an in-range vector is representable.
proof fn lemma_damp3_small(a: Vec3i, dt: int)
    requires
        in_range3(a, INPUT_LIMIT as int),
        1 <= dt <= SCALE,
    ensures
        fits3_i64(damp3(a, dt)),
        in_range3(damp3(a, dt), 9000000),
{
    lemma_scale3_bound(a, SPIN_DAMPING as int, INPUT_LIMIT as int, 8000);
    lemma_scale3_bound(scale3(a, SPIN_DAMPING as int), dt, 8000000, SCALE as int);
}

/// Sum of the contributions of wheels that all hang free: zero.
proof fn lemma_forces_total_no_contact(
    wheels: Seq<Wheel>,
    frames: Seq<WheelFrame>,
    lin: Vec3i,
    ang: Vec3i,
    dt: int,
    k: int,
)
    requires
        k <= wheels.len(),
        frames.len() == wheels.len(),
        forall|i: int| 0 <= i < frames.len() ==> (#[trigger] frames[i]).contact is None,
    ensures
        forces_total(wheels, frames, lin, ang, dt, k).linear == zero3(),
        forces_total(wheels, frames, lin, ang, dt, k).angular == zero3(),
    decreases k,
{
    if k > 0 {
        lemma_forces_total_no_contact(wheels, frames, lin, ang, dt, k - 1);
        assert(frames[k - 1].contact is None);
        assert(add3(zero3(), zero3()) == zero3());
    }
}

} // verus!
