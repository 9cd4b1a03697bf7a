//! The integration-parameters record and its timestep facade.
//!
//! [`IntegrationParameters`] is a plain value: a bundle of scalar settings read
//! by the stages of a rigid-body simulation step. The only derived quantity is
//! the frequency `inv_dt`, the reciprocal of the timestep `dt`, with zero
//! mapped to zero so that a paused simulation (`dt == 0`) never divides by
//! zero.

use vstd::prelude::*;

use crate::scalar::Real;
use crate::scalar::lemma_recip_involution;
use crate::scalar::lemma_recip_product_one;
use crate::scalar::lemma_recip_wf;
use crate::scalar::product_is_one;

verus! {

/// Parameters for a time-step of the physics engine.
#[derive(Clone, Copy, Debug, PartialEq, Eq, Structural)]
pub struct IntegrationParameters {
    /// The timestep length in seconds (default: `1/60`); never negative.
    pub dt: Real,
    /// If `true`, the world's step stops right after resolving exactly one CCD
    /// event, so the caller can act in between two CCD events (default: `false`).
    pub return_after_ccd_substep: bool,
    /// The error-reduction parameter in `[0, 1]`: the proportion of the
    /// positional error corrected at each time step (default: `1/5`).
    pub erp: Real,
    /// The error-reduction parameter for joints in `[0, 1]` (default: `1/5`).
    pub joint_erp: Real,
    /// Each cached impulse is multiplied by this coefficient in `[0, 1]` when
    /// re-used to initialize the solver (default: `1`).
    pub warmstart_coeff: Real,
    /// Contacts where the relative velocity is below this threshold are not
    /// affected by restitution (default: `1`).
    pub restitution_velocity_threshold: Real,
    /// Amount of penetration the engine won't attempt to correct
    /// (default: `1/200` m).
    pub allowed_linear_error: Real,
    /// The maximal distance separating two objects that will generate
    /// predictive contacts (default: `1/500` m).
    pub prediction_distance: Real,
    /// Amount of angular drift of joint limits the engine won't attempt to
    /// correct (default: `1/1000` rad).
    pub allowed_angular_error: Real,
    /// Maximum linear correction during one step of the non-linear position
    /// solver (default: `1/5`).
    pub max_linear_correction: Real,
    /// Maximum angular correction during one step of the non-linear position
    /// solver (default: `1/5`).
    pub max_angular_correction: Real,
    /// Maximum nonlinear SOR-prox scaling parameter when the constraint
    /// correction direction is close to the kernel of the involved multibody's
    /// jacobian (default: `1/5`).
    pub max_stabilization_multiplier: Real,
    /// Maximum number of iterations of the velocity constraints solver
    /// (default: `4`).
    pub max_velocity_iterations: usize,
    /// Maximum number of iterations of the position-based constraints solver
    /// (default: `1`).
    pub max_position_iterations: usize,
    /// Minimum number of dynamic bodies in each active island (default: `128`).
    pub min_island_size: usize,
    /// Maximum number of iterations of the position-based constraints solver
    /// during CCD steps (default: `10`).
    pub max_ccd_position_iterations: usize,
    /// Maximum number of CCD substeps within one macro step (default: `1`).
    pub max_ccd_substeps: usize,
    /// If `false`, a sensor fires at most one intersection event per macro
    /// step; if `true`, every enter/exit transition during CCD substeps fires
    /// (default: `false`).
    pub multiple_ccd_substep_sensor_events_enabled: bool,
    /// If `false`, two already-penetrating colliders have no time of impact and
    /// are skipped by CCD; if `true`, they get time of impact zero until the
    /// position solver separates them (default: `false`).
    pub ccd_on_penetration_enabled: bool,
}

impl IntegrationParameters {
    /// The record's invariant: every scalar representation is valid, and the
    /// timestep is never negative.
    pub open spec fn wf(self) -> bool {
        &&& self.dt.wf()
        &&& self.dt.is_nonneg()
        &&& self.erp.wf()
        &&& self.joint_erp.wf()
        &&& self.warmstart_coeff.wf()
        &&& self.restitution_velocity_threshold.wf()
        &&& self.allowed_linear_error.wf()
        &&& self.prediction_distance.wf()
        &&& self.allowed_angular_error.wf()
        &&& self.max_linear_correction.wf()
        &&& self.max_angular_correction.wf()
        &&& self.max_stabilization_multiplier.wf()
    }

    /// The current timestep.
    pub open spec fn dt_spec(self) -> Real {
        self.dt
    }

    /// The derived frequency: the reciprocal of the timestep, zero when the
    /// simulation is paused.
    pub open spec fn inv_dt_spec(self) -> Real {
        self.dt.recip()
    }

    /// The record with the timestep replaced.
    pub open spec fn with_dt(self, new_dt: Real) -> Self {
        IntegrationParameters { dt: new_dt, ..self }
    }

    /// The record with the timestep recomputed from a frequency.
    pub open spec fn with_inv_dt(self, freq: Real) -> Self {
        IntegrationParameters { dt: freq.recip(), ..self }
    }

    /// The documented defaults: a sixtieth of a second per step, a fifth of
    /// the positional error corrected per iteration, full warm-starting, and
    /// continuous collision detection off.
    pub open spec fn default_spec() -> Self {
        IntegrationParameters {
            dt: Real { num: 1, den: 60 },
            return_after_ccd_substep: false,
            erp: Real { num: 1, den: 5 },
            joint_erp: Real { num: 1, den: 5 },
            warmstart_coeff: Real { num: 1, den: 1 },
            restitution_velocity_threshold: Real { num: 1, den: 1 },
            allowed_linear_error: Real { num: 1, den: 200 },
            prediction_distance: Real { num: 1, den: 500 },
            allowed_angular_error: Real { num: 1, den: 1000 },
            max_linear_correction: Real { num: 1, den: 5 },
            max_angular_correction: Real { num: 1, den: 5 },
            max_stabilization_multiplier: Real { num: 1, den: 5 },
            max_velocity_iterations: 4,
            max_position_iterations: 1,
            min_island_size: 128,
            max_ccd_position_iterations: 10,
            max_ccd_substeps: 1,
            multiple_ccd_substep_sensor_events_enabled: false,
            ccd_on_penetration_enabled: false,
        }
    }

    /// Creates a set of integration parameters with the given values.
    ///
    /// `min_island_size` is deliberately not a parameter: the island-size
    /// heuristic is reserved to the engine and forced to `128` here.
    pub fn new(
        dt: Real,
        erp: Real,
        joint_erp: Real,
        warmstart_coeff: Real,
        restitution_velocity_threshold: Real,
        allowed_linear_error: Real,
        allowed_angular_error: Real,
        max_linear_correction: Real,
        max_angular_correction: Real,
        prediction_distance: Real,
        max_stabilization_multiplier: Real,
        max_velocity_iterations: usize,
        max_position_iterations: usize,
        max_ccd_position_iterations: usize,
        max_ccd_substeps: usize,
        return_after_ccd_substep: bool,
        multiple_ccd_substep_sensor_events_enabled: bool,
        ccd_on_penetration_enabled: bool,
    ) -> (r: Self)
        requires
            dt.wf(),
            dt.is_nonneg(),
            erp.wf(),
            joint_erp.wf(),
            warmstart_coeff.wf(),
            restitution_velocity_threshold.wf(),
            allowed_linear_error.wf(),
            allowed_angular_error.wf(),
            max_linear_correction.wf(),
            max_angular_correction.wf(),
            prediction_distance.wf(),
            max_stabilization_multiplier.wf(),
        ensures
            r.wf(),
            r.dt == dt,
            r.erp == erp,
            r.joint_erp == joint_erp,
            r.warmstart_coeff == warmstart_coeff,
            r.restitution_velocity_threshold == restitution_velocity_threshold,
            r.allowed_linear_error == allowed_linear_error,
            r.allowed_angular_error == allowed_angular_error,
            r.max_linear_correction == max_linear_correction,
            r.max_angular_correction == max_angular_correction,
            r.prediction_distance == prediction_distance,
            r.max_stabilization_multiplier == max_stabilization_multiplier,
            r.max_velocity_iterations == max_velocity_iterations,
            r.max_position_iterations == max_position_iterations,
            r.min_island_size == 128,
            r.max_ccd_position_iterations == max_ccd_position_iterations,
            r.max_ccd_substeps == max_ccd_substeps,
            r.return_after_ccd_substep == return_after_ccd_substep,
            r.multiple_ccd_substep_sensor_events_enabled
                == multiple_ccd_substep_sensor_events_enabled,
            r.ccd_on_penetration_enabled == ccd_on_penetration_enabled,
    {
        IntegrationParameters {
            dt,
            erp,
            joint_erp,
            warmstart_coeff,
            restitution_velocity_threshold,
            allowed_linear_error,
            allowed_angular_error,
            max_linear_correction,
            max_angular_correction,
            prediction_distance,
            max_stabilization_multiplier,
            max_velocity_iterations,
            max_position_iterations,
            min_island_size: 128,
            max_ccd_position_iterations,
            max_ccd_substeps,
            return_after_ccd_substep,
            multiple_ccd_substep_sensor_events_enabled,
            ccd_on_penetration_enabled,
        }
    }

    /// Whether the record's invariant holds, decided at run time.
    pub fn check_wf(&self) -> (b: bool)
        ensures
            b == self.wf(),
    {
        self.dt.check_wf() && self.dt.num >= 0 && self.erp.check_wf() && self.joint_erp.check_wf()
            && self.warmstart_coeff.check_wf() && self.restitution_velocity_threshold.check_wf()
            && self.allowed_linear_error.check_wf() && self.prediction_distance.check_wf()
            && self.allowed_angular_error.check_wf() && self.max_linear_correction.check_wf()
            && self.max_angular_correction.check_wf()
            && self.max_stabilization_multiplier.check_wf()
    }

    /// The current time-stepping length.
    pub fn dt(&self) -> (r: Real)
        ensures
            r == self.dt_spec(),
    {
        self.dt
    }

    /// The inverse of the time-stepping length, i.e. the steps per second (Hz).
    ///
    /// This is zero if `self.dt` is zero.
    pub fn inv_dt(&self) -> (r: Real)
        requires
            self.wf(),
        ensures
            r == self.inv_dt_spec(),
            r.wf(),
            r.is_nonneg(),
            r.is_zero() <==> self.dt.is_zero(),
    {
        proof {
            lemma_recip_wf(self.dt);
        }
        self.dt.reciprocal()
    }

    /// Sets the time-stepping length.
    ///
    /// A negative timestep would silently reverse integration, so callers must
    /// establish `new_dt.is_nonneg()`; there is no recovery path for that
    /// contract violation.
    pub fn set_dt(&mut self, new_dt: Real)
        requires
            old(self).wf(),
            new_dt.wf(),
            new_dt.is_nonneg(),
        ensures
            *final(self) == old(self).with_dt(new_dt),
            final(self).dt == new_dt,
            final(self).wf(),
    {
        self.dt = new_dt;
    }

    /// Sets the inverse time-stepping length (i.e. the frequency).
    ///
    /// This recomputes `self.dt` as the exact reciprocal of `inv_dt`, with a
    /// zero frequency stored as a zero timestep (paused). A negative frequency
    /// would produce a negative timestep, so it is excluded by the same
    /// contract as [`IntegrationParameters::set_dt`].
    pub fn set_inv_dt(&mut self, inv_dt: Real)
        requires
            old(self).wf(),
            inv_dt.wf(),
            inv_dt.is_nonneg(),
        ensures
            *final(self) == old(self).with_inv_dt(inv_dt),
            final(self).dt == inv_dt.recip(),
            inv_dt.is_zero() ==> final(self).dt == (Real { num: 0, den: 1 }),
            final(self).wf(),
    {
        proof {
            lemma_recip_wf(inv_dt);
        }
        self.dt = inv_dt.reciprocal();
    }
}

impl Default for IntegrationParameters {
    /// The record populated with the documented defaults.
    fn default() -> (r: Self)
        ensures
            r == IntegrationParameters::default_spec(),
            r.wf(),
    {
        IntegrationParameters {
            dt: Real { num: 1, den: 60 },
            return_after_ccd_substep: false,
            erp: Real { num: 1, den: 5 },
            joint_erp: Real { num: 1, den: 5 },
            warmstart_coeff: Real { num: 1, den: 1 },
            restitution_velocity_threshold: Real { num: 1, den: 1 },
            allowed_linear_error: Real { num: 1, den: 200 },
            prediction_distance: Real { num: 1, den: 500 },
            allowed_angular_error: Real { num: 1, den: 1000 },
            max_linear_correction: Real { num: 1, den: 5 },
            max_angular_correction: Real { num: 1, den: 5 },
            max_stabilization_multiplier: Real { num: 1, den: 5 },
            max_velocity_iterations: 4,
            max_position_iterations: 1,
            min_island_size: 128,
            max_ccd_position_iterations: 10,
            max_ccd_substeps: 1,
            multiple_ccd_substep_sensor_events_enabled: false,
            ccd_on_penetration_enabled: false,
        }
    }
}

/// Law: the derived frequency is zero exactly when the timestep is zero, and
/// otherwise the frequency times the timestep is exactly one.
pub proof fn lemma_inv_dt_reciprocal(p: IntegrationParameters)
    requires
        p.wf(),
    ensures
        p.inv_dt_spec().is_zero() <==> p.dt.is_zero(),
        !p.dt.is_zero() ==> product_is_one(p.dt, p.inv_dt_spec()),
{
    lemma_recip_wf(p.dt);
    if !p.dt.is_zero() {
        lemma_recip_product_one(p.dt);
    }
}

/// Law: reading the timestep back after setting it returns exactly the value
/// that was set, and no other field moves.
pub proof fn lemma_set_dt_then_dt(p: IntegrationParameters, x: Real)
    requires
        p.wf(),
        x.wf(),
        x.is_nonneg(),
    ensures
        p.with_dt(x).dt_spec() == x,
        p.with_dt(x).with_dt(p.dt) == p,
{
}

/// Law: setting the frequency, then setting it again to the frequency read
/// back, is a no-op — the record is exactly the one after the first call.
pub proof fn lemma_set_inv_dt_roundtrip(p: IntegrationParameters, f: Real)
    requires
        p.wf(),
        f.wf(),
        f.is_nonneg(),
    ensures
        ({
            let q = p.with_inv_dt(f);
            q.with_inv_dt(q.inv_dt_spec()) == q
        }),
{
    lemma_recip_wf(f);
    lemma_recip_wf(f.recip());
    lemma_recip_involution(f.recip());
}

} // verus!
