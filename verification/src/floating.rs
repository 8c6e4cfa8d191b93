//! The floating locomotion controller. Once per simulation step a body's
//! embedding probes straight down, hands the nearest supporting surface (if
//! any) to [`float_step`], and writes the returned velocity back. The
//! controller runs a spring-damper law on the vertical velocity component
//! and keeps the body's grounded classification.

use vstd::prelude::*;
use crate::fixed::{
    fmul, lemma_fmul_bound, lemma_fmul_neg_left, lemma_fmul_nonneg, lemma_fmul_zero, wmul,
    AXIS_LIMIT, INPUT_LIMIT, SCALE,
};
use crate::vec3::{
    dot3, in_range3, lemma_dot3_bound, lemma_scale3_bound, narrow3, neg3, scale3, sub3, wide3_of,
    wneg3, wscale3, wsub3, wdot3, FixVec3, Vec3i, Wide3,
};

verus! {

/// How the supporting surface is probed: a single ray, or a swept shape
/// that catches wider support under the body, e.g. at step edges.
#[derive(Clone, Copy, PartialEq, Eq, Structural, Debug)]
pub enum ProbeKind {
    Ray,
    Shape,
}

/// Per-body configuration of the floating controller. Heights, offsets and
/// tuning coefficients are fixed-point ticks.
#[derive(Clone, Copy, PartialEq, Eq, Structural, Debug)]
pub struct FloatingBody {
    /// Enables the corrective velocity; probing and the grounded
    /// classification run regardless.
    pub enabled: bool,
    /// Offset of the probe origin relative to the body's position.
    pub ray_offset: FixVec3,
    /// Rest distance to the ground.
    pub float_height: i64,
    /// Extra probe range beyond the rest distance.
    pub buffer_height: i64,
    /// Ray or shape probe.
    pub probe: ProbeKind,
    /// Spring-damper frequency; its square sets the stiffness.
    pub damp_frequency: i64,
    /// Spring-damper factor; twice it times the frequency sets the damping.
    pub damp_factor: i64,
}

impl FloatingBody {
    /// Well-formed configuration: the probe has positive range, the tuning
    /// is nonnegative, and every scalar is within the arithmetic range of a
    /// step.
    pub open spec fn wf(self) -> bool {
        &&& self.float_height + self.buffer_height > 0
        &&& 0 <= self.damp_frequency <= INPUT_LIMIT
        &&& 0 <= self.damp_factor <= INPUT_LIMIT
        &&& -INPUT_LIMIT <= self.float_height <= INPUT_LIMIT
        &&& -INPUT_LIMIT <= self.buffer_height <= INPUT_LIMIT
        &&& in_range3(self.ray_offset.view_int(), INPUT_LIMIT as int)
    }
}

impl Default for FloatingBody {
    /// A ray probe floating one unit above the ground with one unit of
    /// buffer, tuned to a frequency of fifteen and a factor of three tenths.
    fn default() -> (r: FloatingBody)
        ensures
            r == (FloatingBody {
                enabled: true,
                ray_offset: FixVec3 { x: 0, y: 0, z: 0 },
                float_height: 1000,
                buffer_height: 1000,
                probe: ProbeKind::Ray,
                damp_frequency: 15000,
                damp_factor: 300,
            }),
            r.wf(),
    {
        FloatingBody {
            enabled: true,
            ray_offset: FixVec3 { x: 0, y: 0, z: 0 },
            float_height: 1000,
            buffer_height: 1000,
            probe: ProbeKind::Ray,
            damp_frequency: 15000,
            damp_factor: 300,
        }
    }
}

/// The supporting surface a probe found: its distance along the cast and
/// the surface's own velocity (zero for static geometry).
#[derive(Clone, Copy, PartialEq, Eq, Structural, Debug)]
pub struct SurfaceContact {
    pub toi: i64,
    pub surface_vel: FixVec3,
}

/// Result of one floating evaluation.
#[derive(Clone, Copy, PartialEq, Eq, Structural, Debug)]
pub struct FloatOutcome {
    pub lin_vel: FixVec3,
    pub grounded: bool,
}

/// Mathematical result of one floating evaluation.
pub ghost struct FloatEval {
    pub vel: Vec3i,
    pub grounded: bool,
}

/// Spring term: displacement times the squared frequency.
pub open spec fn float_tension(x: int, omega: int) -> int {
    fmul(x, fmul(omega, omega))
}

/// Damping term: relative velocity times twice the factor times the
/// frequency.
pub open spec fn float_damping(rel_vel: int, zeta: int, omega: int) -> int {
    fmul(rel_vel, fmul(zeta, 2 * omega))
}

/// Velocity of the body toward the ground, relative to the surface it
/// stands on: both taken along the down direction.
pub open spec fn float_rel_velocity(lin: Vec3i, surface: Vec3i, up: Vec3i) -> int {
    dot3(lin, neg3(up)) - dot3(surface, neg3(up))
}

/// The corrective velocity subtracted from the body's velocity: the
/// spring-damper scalar spread along the up axis and scaled by the
/// timestep.
pub open spec fn float_correction(x: int, rel_vel: int, omega: int, zeta: int, up: Vec3i, dt: int) -> Vec3i {
    scale3(scale3(up, float_tension(x, omega) - float_damping(rel_vel, zeta, omega)), dt)
}

/// Whether the correction is applied: the body must have it enabled, and a
/// body hanging above its rest height while classified airborne is left
/// alone, so a genuinely jumping or falling body is not snapped back down.
pub open spec fn float_active(enabled: bool, x: int, was_grounded: bool) -> bool {
    enabled && !(x > 0 && !was_grounded)
}

/// One floating evaluation as a mathematical function of the step's
/// snapshot. With no contact the body is airborne and untouched. With a
/// contact at distance `toi`, the displacement past the rest height drives
/// the spring-damper law, and the body is grounded exactly when it has
/// reached or passed its rest height.
pub open spec fn float_eval(
    cfg: FloatingBody,
    up: Vec3i,
    lin: Vec3i,
    contact: Option<SurfaceContact>,
    was_grounded: bool,
    dt: int,
) -> FloatEval {
    match contact {
        Option::None => FloatEval { vel: lin, grounded: false },
        Option::Some(c) => {
            let x = c.toi - cfg.float_height;
            let rel = float_rel_velocity(lin, c.surface_vel.view_int(), up);
            let vel = if float_active(cfg.enabled, x, was_grounded) {
                sub3(
                    lin,
                    float_correction(
                        x,
                        rel,
                        cfg.damp_frequency as int,
                        cfg.damp_factor as int,
                        up,
                        dt,
                    ),
                )
            } else {
                lin
            };
            FloatEval { vel, grounded: x <= 0 }
        },
    }
}

/// One step of the floating controller, exactly [`float_eval`] of the
/// snapshot it is handed.
pub fn float_step(
    cfg: &FloatingBody,
    up: FixVec3,
    lin_vel: FixVec3,
    contact: Option<SurfaceContact>,
    was_grounded: bool,
    dt: i64,
) -> (r: FloatOutcome)
    requires
        cfg.wf(),
        in_range3(up.view_int(), AXIS_LIMIT as int),
        in_range3(lin_vel.view_int(), INPUT_LIMIT as int),
        contact matches Option::Some(c) ==> 0 <= c.toi <= 2 * INPUT_LIMIT && in_range3(
            c.surface_vel.view_int(),
            INPUT_LIMIT as int,
        ),
        1 <= dt <= SCALE,
    ensures
        r.lin_vel.view_int() == float_eval(
            *cfg,
            up.view_int(),
            lin_vel.view_int(),
            contact,
            was_grounded,
            dt as int,
        ).vel,
        r.grounded == float_eval(
            *cfg,
            up.view_int(),
            lin_vel.view_int(),
            contact,
            was_grounded,
            dt as int,
        ).grounded,
{
    match contact {
        Option::None => FloatOutcome { lin_vel, grounded: false },
        Option::Some(c) => {
            let x: i64 = c.toi - cfg.float_height;
            let grounded: bool = x <= 0;
            let active: bool = cfg.enabled && !(x > 0 && !was_grounded);
            assert(active == float_active(cfg.enabled, x as int, was_grounded));
            if active {
                let wup: Wide3 = wide3_of(up);
                let wlin: Wide3 = wide3_of(lin_vel);
                let wsurf: Wide3 = wide3_of(c.surface_vel);
                proof {
                    lemma_dot3_bound(
                        lin_vel.view_int(),
                        neg3(up.view_int()),
                        INPUT_LIMIT as int,
                        AXIS_LIMIT as int,
                    );
                    lemma_dot3_bound(
                        c.surface_vel.view_int(),
                        neg3(up.view_int()),
                        INPUT_LIMIT as int,
                        AXIS_LIMIT as int,
                    );
                }
                let wdown: Wide3 = wneg3(wup);
                let vel_down: i128 = wdot3(wlin, wdown);
                let surf_down: i128 = wdot3(wsurf, wdown);
                let rel: i128 = vel_down - surf_down;
                assert(rel as int == float_rel_velocity(
                    lin_vel.view_int(),
                    c.surface_vel.view_int(),
                    up.view_int(),
                ));
                assert(-12000000 <= rel as int <= 12000000);
                let omega: i128 = cfg.damp_frequency as i128;
                let zeta: i128 = cfg.damp_factor as i128;
                proof {
                    lemma_fmul_bound(omega as int, omega as int, INPUT_LIMIT as int, INPUT_LIMIT as int);
                }
                let omega_sq: i128 = wmul(omega, omega);
                assert(-1000000000 <= omega_sq as int <= 1000000000);
                proof {
                    lemma_fmul_bound(x as int, omega_sq as int, 3000000, 1000000000);
                }
                let tension: i128 = wmul(x as i128, omega_sq);
                assert(tension as int == float_tension(x as int, omega as int));
                assert(-3000000000000 <= tension as int <= 3000000000000);
                proof {
                    lemma_fmul_bound(zeta as int, 2 * omega as int, INPUT_LIMIT as int, 2 * INPUT_LIMIT as int);
                }
                let two_omega: i128 = 2 * omega;
                let zw: i128 = wmul(zeta, two_omega);
                assert(-2000000000 <= zw as int <= 2000000000);
                proof {
                    lemma_fmul_bound(rel as int, zw as int, 12000000, 2000000000);
                }
                let damping: i128 = wmul(rel, zw);
                assert(damping as int == float_damping(rel as int, zeta as int, omega as int));
                assert(-24000000000000000 <= damping as int <= 24000000000000000);
                let spring: i128 = tension - damping;
                assert(-25000000000000000 <= spring as int <= 25000000000000000);
                proof {
                    lemma_scale3_bound(
                        up.view_int(),
                        spring as int,
                        AXIS_LIMIT as int,
                        25000000000000000,
                    );
                }
                let along_up: Wide3 = wscale3(wup, spring);
                assert(in_range3(along_up.view_int(), 50000000000000000));
                proof {
                    lemma_scale3_bound(along_up.view_int(), dt as int, 50000000000000000, SCALE as int);
                }
                let correction: Wide3 = wscale3(along_up, dt as i128);
                assert(in_range3(correction.view_int(), 50000000000000000));
                let new_vel: Wide3 = wsub3(wlin, correction);
                assert(new_vel.view_int() == sub3(
                    lin_vel.view_int(),
                    float_correction(
                        x as int,
                        rel as int,
                        omega as int,
                        zeta as int,
                        up.view_int(),
                        dt as int,
                    ),
                ));
                FloatOutcome { lin_vel: narrow3(new_vel), grounded }
            } else {
                FloatOutcome { lin_vel, grounded }
            }
        },
    }
}

/// A floating body whose probe found no surface is classified airborne and
/// receives no correction at all, whatever its configuration and state.
pub proof fn lemma_no_contact_airborne(
    cfg: FloatingBody,
    up: Vec3i,
    lin: Vec3i,
    was_grounded: bool,
    dt: int,
)
    ensures
        float_eval(cfg, up, lin, Option::None, was_grounded, dt).vel == lin,
        !float_eval(cfg, up, lin, Option::None, was_grounded, dt).grounded,
{
}

/// The grounded boundary is exact: a probe distance at or below the rest
/// height grounds the body, one strictly above classifies it airborne.
pub proof fn lemma_grounded_boundary(
    cfg: FloatingBody,
    up: Vec3i,
    lin: Vec3i,
    c: SurfaceContact,
    was_grounded: bool,
    dt: int,
)
    ensures
        float_eval(cfg, up, lin, Option::Some(c), was_grounded, dt).grounded == (c.toi
            <= cfg.float_height),
{
}

/// A floating body resting exactly at its rest height above a surface it
/// does not move relative to receives no correction and is grounded: the
/// spring and the damper both vanish at equilibrium.
pub proof fn lemma_rest_equilibrium(
    cfg: FloatingBody,
    up: Vec3i,
    lin: Vec3i,
    c: SurfaceContact,
    was_grounded: bool,
    dt: int,
)
    requires
        cfg.enabled,
        c.toi == cfg.float_height,
        float_rel_velocity(lin, c.surface_vel.view_int(), up) == 0,
    ensures
        float_eval(cfg, up, lin, Option::Some(c), was_grounded, dt).vel == lin,
        float_eval(cfg, up, lin, Option::Some(c), was_grounded, dt).grounded,
{
    let omega = cfg.damp_frequency as int;
    let zeta = cfg.damp_factor as int;
    lemma_fmul_zero(fmul(omega, omega));
    lemma_fmul_zero(fmul(zeta, 2 * omega));
    assert(float_tension(0, omega) == 0);
    assert(float_damping(0, zeta, omega) == 0);
    lemma_fmul_zero(up.x);
    lemma_fmul_zero(up.y);
    lemma_fmul_zero(up.z);
    lemma_fmul_zero(dt);
    assert(scale3(up, 0) == (Vec3i { x: 0, y: 0, z: 0 }));
    assert(float_correction(0, 0, omega, zeta, up, dt) == (Vec3i { x: 0, y: 0, z: 0 }));
    assert(sub3(lin, Vec3i { x: 0, y: 0, z: 0 }) == lin);
}

/// A grounded floating body hanging above its rest height with no velocity
/// relative to its surface is pulled back toward the ground: the damping
/// term vanishes, the whole correction is the spring term — proportional to
/// the displacement times the squared frequency — and it points along the
/// up axis away from the body, never away from the ground.
pub proof fn lemma_spring_pulls_down(
    cfg: FloatingBody,
    up: Vec3i,
    lin: Vec3i,
    c: SurfaceContact,
    dt: int,
)
    requires
        cfg.enabled,
        c.toi - cfg.float_height >= 0,
        float_rel_velocity(lin, c.surface_vel.view_int(), up) == 0,
        cfg.damp_frequency >= 0,
        dt >= 0,
    ensures
        float_eval(cfg, up, lin, Option::Some(c), true, dt).vel == sub3(
            lin,
            scale3(
                scale3(up, float_tension(c.toi - cfg.float_height, cfg.damp_frequency as int)),
                dt,
            ),
        ),
        float_tension(c.toi - cfg.float_height, cfg.damp_frequency as int) >= 0,
        dot3(
            scale3(
                scale3(up, float_tension(c.toi - cfg.float_height, cfg.damp_frequency as int)),
                dt,
            ),
            up,
        ) >= 0,
{
    let x = c.toi - cfg.float_height;
    let omega = cfg.damp_frequency as int;
    let zeta = cfg.damp_factor as int;
    lemma_fmul_zero(fmul(zeta, 2 * omega));
    assert(float_damping(0, zeta, omega) == 0);
    lemma_fmul_nonneg(omega, omega);
    lemma_fmul_nonneg(x, fmul(omega, omega));
    let tension = float_tension(x, omega);
    lemma_correction_component_sign(up.x, tension, dt);
    lemma_correction_component_sign(up.y, tension, dt);
    lemma_correction_component_sign(up.z, tension, dt);
}

/// Helper: one component of the spring correction, multiplied back by its
/// own up-axis component, is nonnegative.
proof fn lemma_correction_component_sign(u: int, tension: int, dt: int)
    requires
        tension >= 0,
        dt >= 0,
    ensures
        fmul(fmul(fmul(u, tension), dt), u) >= 0,
{
    if u >= 0 {
        lemma_fmul_nonneg(u, tension);
        lemma_fmul_nonneg(fmul(u, tension), dt);
        lemma_fmul_nonneg(fmul(fmul(u, tension), dt), u);
    } else {
        lemma_fmul_neg_left(-u, tension);
        lemma_fmul_nonneg(-u, tension);
        assert(fmul(u, tension) <= 0);
        lemma_fmul_neg_left(-fmul(u, tension), dt);
        lemma_fmul_nonneg(-fmul(u, tension), dt);
        assert(fmul(fmul(u, tension), dt) <= 0);
        lemma_fmul_nonneg(fmul(fmul(u, tension), dt), u);
    }
}

/// The floating evaluation is a pure function of the step's snapshot: two
/// evaluations of equal snapshots — with no step taken in between — agree
/// in both the corrected velocity and the grounded classification.
pub proof fn lemma_float_eval_pure(
    cfg_a: FloatingBody,
    up_a: Vec3i,
    lin_a: Vec3i,
    contact_a: Option<SurfaceContact>,
    was_grounded_a: bool,
    dt_a: int,
    cfg_b: FloatingBody,
    up_b: Vec3i,
    lin_b: Vec3i,
    contact_b: Option<SurfaceContact>,
    was_grounded_b: bool,
    dt_b: int,
)
    requires
        cfg_a == cfg_b,
        up_a == up_b,
        lin_a == lin_b,
        contact_a == contact_b,
        was_grounded_a == was_grounded_b,
        dt_a == dt_b,
    ensures
        float_eval(cfg_a, up_a, lin_a, contact_a, was_grounded_a, dt_a) == float_eval(
            cfg_b,
            up_b,
            lin_b,
            contact_b,
            was_grounded_b,
            dt_b,
        ),
{
}

} // verus!
