//! Configuration, validation, and run-plan behaviour, exercised through the
//! public surface with the floating-point values the keys stand for.

use bobyqa::optimizer::DEFAULT_FINAL_TRUST_REGION_RADIUS_KEY;
use bobyqa::optimizer::DEFAULT_INITIAL_TRUST_REGION_RADIUS_KEY;
use bobyqa::optimizer::DEFAULT_LOWER_BOUND_KEY;
use bobyqa::optimizer::DEFAULT_UPPER_BOUND_KEY;
use bobyqa::Bobyqa;
use bobyqa::BobyqaError;

/// Order-preserving key of a floating-point value: for non-NaN inputs,
/// unsigned comparison of keys agrees with the numeric order.
fn f64_key(value: f64) -> u64 {
    let bits = value.to_bits();
    if bits >> 63 == 0 {
        bits | 1u64 << 63
    } else {
        !bits
    }
}

/// Inverse of `f64_key`.
fn key_f64(key: u64) -> f64 {
    if key >> 63 == 1 {
        f64::from_bits(key & !(1u64 << 63))
    } else {
        f64::from_bits(!key)
    }
}

fn keys(values: &[f64]) -> Vec<u64> {
    values.iter().map(|v| f64_key(*v)).collect()
}

#[test]
fn default_key_constants_stand_for_the_documented_values() {
    assert_eq!(f64_key(1e-6), DEFAULT_INITIAL_TRUST_REGION_RADIUS_KEY);
    assert_eq!(f64_key(1e6), DEFAULT_FINAL_TRUST_REGION_RADIUS_KEY);
    assert_eq!(f64_key(0.0), DEFAULT_LOWER_BOUND_KEY);
    assert_eq!(f64_key(1.0), DEFAULT_UPPER_BOUND_KEY);
    assert_eq!(key_f64(DEFAULT_INITIAL_TRUST_REGION_RADIUS_KEY), 1e-6);
    assert_eq!(key_f64(DEFAULT_FINAL_TRUST_REGION_RADIUS_KEY), 1e6);
}

#[test]
fn key_order_agrees_with_numeric_order() {
    let values = [-1e6, -3.0, -2.0, -1.0, -1e-3, 0.0, 1e-6, 1e-3, 0.5, 1.0, 1e3, 1e6];
    for i in 0..values.len() {
        assert_eq!(key_f64(f64_key(values[i])), values[i]);
        for j in 0..values.len() {
            assert_eq!(values[i] < values[j], f64_key(values[i]) < f64_key(values[j]));
        }
    }
}

#[test]
fn default_configuration_validates_a_two_entry_point() {
    let config = Bobyqa::new();
    assert_eq!(config.check(2), Ok(()));
    assert_eq!(config.check(5), Ok(()));
}

#[test]
fn default_run_plan_carries_the_defaults() {
    let config = Bobyqa::new();
    let plan = config.prepare(2).unwrap();
    assert_eq!(plan.variables_count, 2);
    assert_eq!(plan.number_of_interpolation_conditions, 4);
    assert_eq!(plan.lower_bound, keys(&[0.0, 0.0]));
    assert_eq!(plan.upper_bound, keys(&[1.0, 1.0]));
    assert_eq!(plan.initial_trust_region_radius, f64_key(1e-6));
    assert_eq!(plan.final_trust_region_radius, f64_key(1e6));
    assert_eq!(plan.max_function_calls_count, 1000);
    assert_eq!(plan.working_space.len(), 117);
    assert!(plan.working_space.iter().all(|w| *w == 0));
}

#[test]
fn one_variable_is_rejected() {
    let mut config = Bobyqa::new();
    assert_eq!(config.variables_count(1), Err(BobyqaError::TooFewVariables));
    assert_eq!(config.variables_count(0), Err(BobyqaError::TooFewVariables));
    // The rejected calls left the configuration untouched.
    assert_eq!(config.check(2), Ok(()));
}

#[test]
fn three_interpolation_conditions_are_rejected() {
    let mut config = Bobyqa::new();
    assert_eq!(
        config.number_of_interpolation_conditions(3),
        Err(BobyqaError::TooFewInterpolationConditions)
    );
    assert_eq!(config.check(2), Ok(()));
}

#[test]
fn bounds_shorter_than_the_dimensionality_are_rejected() {
    let mut config = Bobyqa::new();
    assert_eq!(config.lower_bound(keys(&[0.0])), Err(BobyqaError::LowerBoundTooShort));
    assert_eq!(config.upper_bound(keys(&[1.0])), Err(BobyqaError::UpperBoundTooShort));
    assert_eq!(config.check(2), Ok(()));
}

#[test]
fn initial_radius_above_the_final_radius_is_rejected() {
    let mut config = Bobyqa::new();
    assert_eq!(
        config.initial_trust_region_radius(f64_key(1e7)),
        Err(BobyqaError::InitialRadiusAboveFinal)
    );
    assert_eq!(config.check(2), Ok(()));
}

#[test]
fn final_radius_below_the_initial_radius_is_rejected() {
    let mut config = Bobyqa::new();
    assert_eq!(
        config.final_trust_region_radius(f64_key(1e-7)),
        Err(BobyqaError::FinalRadiusBelowInitial)
    );
    assert_eq!(config.check(2), Ok(()));
}

#[test]
fn equal_radii_are_accepted() {
    let mut config = Bobyqa::new();
    assert_eq!(config.initial_trust_region_radius(f64_key(1e6)), Ok(()));
    assert_eq!(config.final_trust_region_radius(f64_key(1e6)), Ok(()));
    assert_eq!(config.check(2), Ok(()));
}

#[test]
fn widening_the_dimensionality_clears_short_bounds() {
    let mut config = Bobyqa::new();
    assert_eq!(config.variables_count(3), Ok(()));
    assert_eq!(config.number_of_interpolation_conditions(5), Ok(()));
    // The default two-entry bounds were cleared and must be supplied again.
    assert_eq!(config.check(3), Err(BobyqaError::LowerBoundMissing));
    assert_eq!(config.lower_bound(keys(&[-3.0, -2.0, -1.0])), Ok(()));
    assert_eq!(config.check(3), Err(BobyqaError::UpperBoundMissing));
    assert_eq!(config.upper_bound(keys(&[1.0, 2.0, 3.0])), Ok(()));
    assert_eq!(config.check(3), Ok(()));
}

#[test]
fn too_short_a_point_buffer_is_rejected() {
    let config = Bobyqa::new();
    assert_eq!(config.check(1), Err(BobyqaError::PointTooShort));
    assert_eq!(config.check(0), Err(BobyqaError::PointTooShort));
    assert!(matches!(config.prepare(1), Err(BobyqaError::PointTooShort)));
}

#[test]
fn interpolation_conditions_below_the_run_floor_are_rejected() {
    let mut config = Bobyqa::new();
    assert_eq!(config.variables_count(3), Ok(()));
    // Four conditions pass the setter but are below `variables_count + 2`.
    assert_eq!(config.check(3), Err(BobyqaError::TooFewInterpolationConditions));
}

#[test]
fn interpolation_conditions_above_the_ceiling_are_rejected() {
    let mut config = Bobyqa::new();
    // For two variables the ceiling is (2 + 1) * (2 + 2) / 2 = 6.
    assert_eq!(config.number_of_interpolation_conditions(6), Ok(()));
    assert_eq!(config.check(2), Ok(()));
    assert_eq!(config.number_of_interpolation_conditions(7), Ok(()));
    assert_eq!(config.check(2), Err(BobyqaError::TooManyInterpolationConditions));
}

#[test]
fn full_three_variable_configuration_produces_the_expected_plan() {
    let mut config = Bobyqa::new();
    assert_eq!(config.variables_count(3), Ok(()));
    assert_eq!(config.number_of_interpolation_conditions((3 + 1) * (3 + 2) / 2), Ok(()));
    assert_eq!(config.initial_trust_region_radius(f64_key(1e-3)), Ok(()));
    assert_eq!(config.final_trust_region_radius(f64_key(1e3)), Ok(()));
    assert_eq!(config.lower_bound(keys(&[-3.0, -2.0, -1.0])), Ok(()));
    assert_eq!(config.upper_bound(keys(&[1.0, 2.0, 3.0])), Ok(()));
    config.max_function_calls_count(25);
    let plan = config.prepare(3).unwrap();
    assert_eq!(plan.variables_count, 3);
    assert_eq!(plan.number_of_interpolation_conditions, 10);
    assert_eq!(plan.lower_bound, keys(&[-3.0, -2.0, -1.0]));
    assert_eq!(plan.upper_bound, keys(&[1.0, 2.0, 3.0]));
    assert_eq!(plan.initial_trust_region_radius, f64_key(1e-3));
    assert_eq!(plan.final_trust_region_radius, f64_key(1e3));
    assert_eq!(plan.max_function_calls_count, 25);
    assert_eq!(plan.working_space.len(), 326);
    assert!(plan.working_space.iter().all(|w| *w == 0));
}

#[test]
fn huge_geometries_are_validated_without_wrapping() {
    let mut config = Bobyqa::new();
    assert_eq!(config.variables_count(3_000_000_000), Ok(()));
    assert_eq!(config.number_of_interpolation_conditions(3_000_000_002), Ok(()));
    // The geometry is in range; the cleared bounds are the first failure.
    assert_eq!(config.check(3_000_000_000), Err(BobyqaError::LowerBoundMissing));

    let mut wide = Bobyqa::new();
    assert_eq!(wide.variables_count(2_000_000_000), Ok(()));
    // The ceiling is about 2e18; the doubled comparison exceeds 64 bits.
    assert_eq!(wide.number_of_interpolation_conditions(18_000_000_000_000_000_000), Ok(()));
    assert_eq!(
        wide.check(2_000_000_000),
        Err(BobyqaError::TooManyInterpolationConditions)
    );
}

#[test]
fn preparing_the_same_configuration_twice_gives_identical_plans() {
    let config = Bobyqa::new();
    let first = config.prepare(2).unwrap();
    let second = config.prepare(2).unwrap();
    assert_eq!(first.variables_count, second.variables_count);
    assert_eq!(
        first.number_of_interpolation_conditions,
        second.number_of_interpolation_conditions
    );
    assert_eq!(first.lower_bound, second.lower_bound);
    assert_eq!(first.upper_bound, second.upper_bound);
    assert_eq!(first.initial_trust_region_radius, second.initial_trust_region_radius);
    assert_eq!(first.final_trust_region_radius, second.final_trust_region_radius);
    assert_eq!(first.max_function_calls_count, second.max_function_calls_count);
    assert_eq!(first.working_space, second.working_space);
}
