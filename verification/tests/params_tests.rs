use integration_parameters::params::IntegrationParameters;
use integration_parameters::scalar::Real;

#[test]
fn default_values() {
    let p = IntegrationParameters::default();
    assert_eq!(p.dt, Real::new(1, 60));
    assert_eq!(p.erp, Real::new(1, 5));
    assert_eq!(p.joint_erp, Real::new(1, 5));
    assert_eq!(p.warmstart_coeff, Real::from_int(1));
    assert_eq!(p.restitution_velocity_threshold, Real::from_int(1));
    assert_eq!(p.allowed_linear_error, Real::new(1, 200));
    assert_eq!(p.prediction_distance, Real::new(1, 500));
    assert_eq!(p.allowed_angular_error, Real::new(1, 1000));
    assert_eq!(p.max_linear_correction, Real::new(1, 5));
    assert_eq!(p.max_angular_correction, Real::new(1, 5));
    assert_eq!(p.max_stabilization_multiplier, Real::new(1, 5));
    assert_eq!(p.max_velocity_iterations, 4);
    assert_eq!(p.max_position_iterations, 1);
    assert_eq!(p.min_island_size, 128);
    assert_eq!(p.max_ccd_position_iterations, 10);
    assert_eq!(p.max_ccd_substeps, 1);
    assert!(!p.return_after_ccd_substep);
    assert!(!p.multiple_ccd_substep_sensor_events_enabled);
    assert!(!p.ccd_on_penetration_enabled);
}

#[test]
fn new_round_trips_and_forces_min_island_size() {
    let p = IntegrationParameters::new(
        Real::new(1, 120),
        Real::new(1, 10),
        Real::new(1, 10),
        Real::new(4, 5),
        Real::new(1, 2),
        Real::new(1, 1000),
        Real::new(1, 2000),
        Real::new(1, 10),
        Real::new(1, 10),
        Real::new(1, 1000),
        Real::new(1, 10),
        8,
        3,
        20,
        4,
        true,
        true,
        true,
    );
    assert_eq!(p.dt, Real::new(1, 120));
    assert_eq!(p.erp, Real::new(1, 10));
    assert_eq!(p.joint_erp, Real::new(1, 10));
    assert_eq!(p.warmstart_coeff, Real::new(4, 5));
    assert_eq!(p.restitution_velocity_threshold, Real::new(1, 2));
    assert_eq!(p.allowed_linear_error, Real::new(1, 1000));
    assert_eq!(p.allowed_angular_error, Real::new(1, 2000));
    assert_eq!(p.max_linear_correction, Real::new(1, 10));
    assert_eq!(p.max_angular_correction, Real::new(1, 10));
    assert_eq!(p.prediction_distance, Real::new(1, 1000));
    assert_eq!(p.max_stabilization_multiplier, Real::new(1, 10));
    assert_eq!(p.max_velocity_iterations, 8);
    assert_eq!(p.max_position_iterations, 3);
    assert_eq!(p.max_ccd_position_iterations, 20);
    assert_eq!(p.max_ccd_substeps, 4);
    assert!(p.return_after_ccd_substep);
    assert!(p.multiple_ccd_substep_sensor_events_enabled);
    assert!(p.ccd_on_penetration_enabled);
    assert_eq!(p.min_island_size, 128);
}

#[test]
fn set_dt_then_dt_returns_it() {
    let mut p = IntegrationParameters::default();
    p.set_dt(Real::new(3, 7));
    assert_eq!(p.dt(), Real::new(3, 7));
}

#[test]
fn set_dt_then_inv_dt_is_hundred() {
    let mut p = IntegrationParameters::default();
    p.set_dt(Real::new(1, 100));
    assert_eq!(p.inv_dt(), Real::from_int(100));
}

#[test]
fn set_inv_dt_recomputes_dt() {
    let mut p = IntegrationParameters::default();
    p.set_inv_dt(Real::from_int(240));
    assert_eq!(p.dt, Real::new(1, 240));
}

#[test]
fn set_dt_zero_pauses_without_trap() {
    let mut p = IntegrationParameters::default();
    p.set_dt(Real::zero());
    assert_eq!(p.inv_dt(), Real::zero());
}

#[test]
fn set_inv_dt_zero_sets_dt_zero() {
    let mut p = IntegrationParameters::default();
    p.set_inv_dt(Real::zero());
    assert_eq!(p.dt, Real::zero());
}

#[test]
fn set_inv_dt_of_current_frequency_is_noop() {
    let mut p = IntegrationParameters::default();
    p.set_inv_dt(Real::new(3, 2));
    let snapshot = p;
    let f = p.inv_dt();
    p.set_inv_dt(f);
    assert_eq!(p, snapshot);

    let mut q = IntegrationParameters::default();
    q.set_inv_dt(Real::zero());
    let snapshot = q;
    let f = q.inv_dt();
    q.set_inv_dt(f);
    assert_eq!(q, snapshot);
}

#[test]
fn inv_dt_times_dt_is_one() {
    let mut p = IntegrationParameters::default();
    for dt in [Real::new(1, 60), Real::new(7, 3), Real::from_int(5)] {
        p.set_dt(dt);
        let f = p.inv_dt();
        assert_eq!(
            (p.dt.num as i128) * (f.num as i128),
            (p.dt.den as i128) * (f.den as i128),
        );
    }
}

#[test]
fn inv_dt_zero_iff_dt_zero() {
    let mut p = IntegrationParameters::default();
    assert_ne!(p.inv_dt().num, 0);
    p.set_dt(Real::new(0, 9));
    assert_eq!(p.inv_dt(), Real::zero());
}

#[test]
fn dt_stays_nonnegative_after_mutations() {
    let mut p = IntegrationParameters::default();
    p.set_dt(Real::new(5, 2));
    assert!(p.dt.num >= 0);
    p.set_inv_dt(Real::new(9, 4));
    assert!(p.dt.num >= 0);
    p.set_dt(Real::zero());
    assert!(p.dt.num >= 0);
}

#[test]
fn record_is_a_pure_value() {
    let original = IntegrationParameters::default();
    let mut copy = original;
    copy.set_dt(Real::new(1, 30));
    assert_eq!(original.dt, Real::new(1, 60));
    assert_eq!(copy.dt, Real::new(1, 30));
}

#[test]
fn check_wf_accepts_valid_and_rejects_invalid() {
    let p = IntegrationParameters::default();
    assert!(p.check_wf());

    let mut bad_den = p;
    bad_den.erp = Real { num: 1, den: 0 };
    assert!(!bad_den.check_wf());

    let mut negative_dt = p;
    negative_dt.dt = Real { num: -1, den: 60 };
    assert!(!negative_dt.check_wf());

    let mut huge_den = p;
    huge_den.joint_erp = Real { num: 1, den: u64::MAX };
    assert!(!huge_den.check_wf());

    // Out-of-range but representable settings are accepted, never rejected.
    let mut negative_erp = p;
    negative_erp.erp = Real { num: -3, den: 5 };
    assert!(negative_erp.check_wf());
}

#[test]
fn scalar_helpers() {
    assert_eq!(Real::new(2, 3), Real { num: 2, den: 3 });
    assert_eq!(Real::from_int(-4), Real { num: -4, den: 1 });
    assert_eq!(Real::zero(), Real { num: 0, den: 1 });
    assert!(Real::new(1, 2).check_wf());
    assert!(!Real { num: 1, den: 0 }.check_wf());
    let r = Real::new(3, 4);
    assert_eq!(r.reciprocal(), Real::new(4, 3));
    assert_eq!(Real::zero().reciprocal(), Real::zero());
}
