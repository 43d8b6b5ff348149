//! The optimizer configuration, its validation, and run-plan assembly.

use crate::scratch::spec_working_space_size;
use crate::scratch::working_space;
use vstd::prelude::*;

verus! {

/// Order-preserving key of the floating-point value 1e-6, the default
/// initial trust-region radius.
pub const DEFAULT_INITIAL_TRUST_REGION_RADIUS_KEY: u64 = 0xBEB0_C6F7_A0B5_ED8D;

/// Order-preserving key of the floating-point value 1e6, the default final
/// trust-region radius.
pub const DEFAULT_FINAL_TRUST_REGION_RADIUS_KEY: u64 = 0xC12E_8480_0000_0000;

/// Order-preserving key of the floating-point value 0.0, the default lower
/// bound of each variable.
pub const DEFAULT_LOWER_BOUND_KEY: u64 = 0x8000_0000_0000_0000;

/// Order-preserving key of the floating-point value 1.0, the default upper
/// bound of each variable.
pub const DEFAULT_UPPER_BOUND_KEY: u64 = 0xBFF0_0000_0000_0000;

/// One value per precondition the configuration or a run can violate. The
/// optimization routine is never entered once any of these is returned.
#[derive(Clone, Copy, Debug, PartialEq, Eq, Structural)]
pub enum BobyqaError {
    /// Fewer than two variables were requested.
    TooFewVariables,
    /// The interpolation-set size is below its floor: four when set, and
    /// `variables_count + 2` when a run is validated.
    TooFewInterpolationConditions,
    /// The interpolation-set size exceeds
    /// `(variables_count + 1) * (variables_count + 2) / 2`.
    TooManyInterpolationConditions,
    /// No lower bound is set; widening `variables_count` clears a bound
    /// that has become too short.
    LowerBoundMissing,
    /// No upper bound is set.
    UpperBoundMissing,
    /// The lower bound has fewer entries than there are variables.
    LowerBoundTooShort,
    /// The upper bound has fewer entries than there are variables.
    UpperBoundTooShort,
    /// The point buffer has fewer entries than there are variables.
    PointTooShort,
    /// The initial trust-region radius would exceed the final one.
    InitialRadiusAboveFinal,
    /// The final trust-region radius would fall below the initial one.
    FinalRadiusBelowInitial,
}

/// What remains of a bound when the dimensionality widens to
/// `variables_count`: a bound that is still long enough is kept, a too short
/// one is cleared and must be supplied again.
pub open spec fn bound_after_resize(bound: Option<Seq<u64>>, variables_count: nat) -> Option<
    Seq<u64>,
> {
    match bound {
        Some(b) => if b.len() >= variables_count {
            Some(b)
        } else {
            None
        },
        None => None,
    }
}

/// The mathematical content of a configuration: every field as the plain
/// value the contracts speak of.
pub ghost struct BobyqaView {
    pub variables_count: nat,
    pub number_of_interpolation_conditions: nat,
    pub initial_trust_region_radius: u64,
    pub final_trust_region_radius: u64,
    pub lower_bound: Option<Seq<u64>>,
    pub upper_bound: Option<Seq<u64>>,
    pub max_function_calls_count: nat,
}

/// A builder describing one optimization problem: dimensionality,
/// interpolation-set size, trust-region radii (as order-preserving keys),
/// bounds (each entry an order-preserving key), and the evaluation budget.
#[derive(Clone)]
pub struct Bobyqa {
    variables_count: usize,
    number_of_interpolation_conditions: usize,
    initial_trust_region_radius: u64,
    final_trust_region_radius: u64,
    lower_bound: Option<Vec<u64>>,
    upper_bound: Option<Vec<u64>>,
    max_function_calls_count: usize,
}

impl View for Bobyqa {
    type V = BobyqaView;

    closed spec fn view(&self) -> BobyqaView {
        BobyqaView {
            variables_count: self.variables_count as nat,
            number_of_interpolation_conditions: self.number_of_interpolation_conditions as nat,
            initial_trust_region_radius: self.initial_trust_region_radius,
            final_trust_region_radius: self.final_trust_region_radius,
            lower_bound: match self.lower_bound {
                Some(b) => Some(b@),
                None => None,
            },
            upper_bound: match self.upper_bound {
                Some(b) => Some(b@),
                None => None,
            },
            max_function_calls_count: self.max_function_calls_count as nat,
        }
    }
}

impl Bobyqa {
    /// Every configuration this crate hands out satisfies this: at least two
    /// variables, at least four interpolation conditions, radii in order,
    /// and any bound that is set long enough for the current dimensionality.
    pub open spec fn wf(&self) -> bool {
        &&& self@.variables_count >= 2
        &&& self@.number_of_interpolation_conditions >= 4
        &&& self@.initial_trust_region_radius <= self@.final_trust_region_radius
        &&& (self@.lower_bound matches Some(b) ==> b.len() >= self@.variables_count)
        &&& (self@.upper_bound matches Some(b) ==> b.len() >= self@.variables_count)
    }

    /// The minimal two-variable configuration: bounds `[0, 1]` in each
    /// dimension, interpolation-set size `variables_count + 2`, radii
    /// 1e-6 and 1e6 (as keys), and a budget of 1000 evaluations.
    pub fn new() -> (r: Bobyqa)
        ensures
            r@.variables_count == 2,
            r@.number_of_interpolation_conditions == 4,
            r@.initial_trust_region_radius == DEFAULT_INITIAL_TRUST_REGION_RADIUS_KEY,
            r@.final_trust_region_radius == DEFAULT_FINAL_TRUST_REGION_RADIUS_KEY,
            r@.lower_bound == Some(seq![DEFAULT_LOWER_BOUND_KEY, DEFAULT_LOWER_BOUND_KEY]),
            r@.upper_bound == Some(seq![DEFAULT_UPPER_BOUND_KEY, DEFAULT_UPPER_BOUND_KEY]),
            r@.max_function_calls_count == 1000,
            r.wf(),
    {
        let mut lower: Vec<u64> = Vec::new();
        lower.push(DEFAULT_LOWER_BOUND_KEY);
        lower.push(DEFAULT_LOWER_BOUND_KEY);
        let mut upper: Vec<u64> = Vec::new();
        upper.push(DEFAULT_UPPER_BOUND_KEY);
        upper.push(DEFAULT_UPPER_BOUND_KEY);
        let r = Bobyqa {
            variables_count: 2,
            number_of_interpolation_conditions: 4,
            initial_trust_region_radius: DEFAULT_INITIAL_TRUST_REGION_RADIUS_KEY,
            final_trust_region_radius: DEFAULT_FINAL_TRUST_REGION_RADIUS_KEY,
            lower_bound: Some(lower),
            upper_bound: Some(upper),
            max_function_calls_count: 1000,
        };
        proof {
            assert(r@.lower_bound->Some_0 =~= seq![
                DEFAULT_LOWER_BOUND_KEY,
                DEFAULT_LOWER_BOUND_KEY,
            ]);
            assert(r@.upper_bound->Some_0 =~= seq![
                DEFAULT_UPPER_BOUND_KEY,
                DEFAULT_UPPER_BOUND_KEY,
            ]);
        }
        r
    }

    /// Sets the number of variables; fewer than two are rejected and leave
    /// the configuration unchanged. A bound now shorter than the new
    /// dimensionality is cleared and must be supplied again.
    pub fn variables_count(&mut self, value: usize) -> (r: Result<(), BobyqaError>)
        ensures
            value < 2 ==> r == Err::<(), BobyqaError>(BobyqaError::TooFewVariables) && final(self)@
                == old(self)@,
            value >= 2 ==> r == Ok::<(), BobyqaError>(()) && final(self)@ == (BobyqaView {
                variables_count: value as nat,
                lower_bound: bound_after_resize(old(self)@.lower_bound, value as nat),
                upper_bound: bound_after_resize(old(self)@.upper_bound, value as nat),
                ..old(self)@
            }),
            old(self).wf() ==> final(self).wf(),
    {
        if value < 2 {
            return Err(BobyqaError::TooFewVariables);
        }
        self.variables_count = value;
        let clear_lower = match &self.lower_bound {
            Some(b) => b.len() < value,
            None => false,
        };
        if clear_lower {
            self.lower_bound = None;
        }
        let clear_upper = match &self.upper_bound {
            Some(b) => b.len() < value,
            None => false,
        };
        if clear_upper {
            self.upper_bound = None;
        }
        Ok(())
    }

    /// Sets the interpolation-set size; fewer than four conditions are
    /// rejected and leave the configuration unchanged. Whether the size fits
    /// the dimensionality is settled when a run is validated.
    pub fn number_of_interpolation_conditions(&mut self, value: usize) -> (r: Result<
        (),
        BobyqaError,
    >)
        ensures
            value < 4 ==> r == Err::<(), BobyqaError>(BobyqaError::TooFewInterpolationConditions)
                && final(self)@ == old(self)@,
            value >= 4 ==> r == Ok::<(), BobyqaError>(()) && final(self)@ == (BobyqaView {
                number_of_interpolation_conditions: value as nat,
                ..old(self)@
            }),
            old(self).wf() ==> final(self).wf(),
    {
        if value < 4 {
            return Err(BobyqaError::TooFewInterpolationConditions);
        }
        self.number_of_interpolation_conditions = value;
        Ok(())
    }

    /// Sets the lower bound, one key per variable; a sequence shorter than
    /// the current dimensionality is rejected and leaves the configuration
    /// unchanged.
    pub fn lower_bound(&mut self, value: Vec<u64>) -> (r: Result<(), BobyqaError>)
        ensures
            value@.len() < old(self)@.variables_count ==> r == Err::<(), BobyqaError>(
                BobyqaError::LowerBoundTooShort,
            ) && final(self)@ == old(self)@,
            value@.len() >= old(self)@.variables_count ==> r == Ok::<(), BobyqaError>(()) && final(self)@ == (BobyqaView { lower_bound: Some(value@), ..old(self)@ }),
            old(self).wf() ==> final(self).wf(),
    {
        if value.len() < self.variables_count {
            return Err(BobyqaError::LowerBoundTooShort);
        }
        self.lower_bound = Some(value);
        Ok(())
    }

    /// Sets the upper bound, one key per variable; a sequence shorter than
    /// the current dimensionality is rejected and leaves the configuration
    /// unchanged.
    pub fn upper_bound(&mut self, value: Vec<u64>) -> (r: Result<(), BobyqaError>)
        ensures
            value@.len() < old(self)@.variables_count ==> r == Err::<(), BobyqaError>(
                BobyqaError::UpperBoundTooShort,
            ) && final(self)@ == old(self)@,
            value@.len() >= old(self)@.variables_count ==> r == Ok::<(), BobyqaError>(()) && final(self)@ == (BobyqaView { upper_bound: Some(value@), ..old(self)@ }),
            old(self).wf() ==> final(self).wf(),
    {
        if value.len() < self.variables_count {
            return Err(BobyqaError::UpperBoundTooShort);
        }
        self.upper_bound = Some(value);
        Ok(())
    }

    /// Sets the initial trust-region radius, as an order-preserving key; a
    /// key above the final radius is rejected and leaves the configuration
    /// unchanged.
    pub fn initial_trust_region_radius(&mut self, value: u64) -> (r: Result<(), BobyqaError>)
        ensures
            value > old(self)@.final_trust_region_radius ==> r == Err::<(), BobyqaError>(
                BobyqaError::InitialRadiusAboveFinal,
            ) && final(self)@ == old(self)@,
            value <= old(self)@.final_trust_region_radius ==> r == Ok::<(), BobyqaError>(())
                && final(self)@ == (BobyqaView { initial_trust_region_radius: value, ..old(self)@ }),
            old(self).wf() ==> final(self).wf(),
    {
        if value > self.final_trust_region_radius {
            return Err(BobyqaError::InitialRadiusAboveFinal);
        }
        self.initial_trust_region_radius = value;
        Ok(())
    }

    /// Sets the final trust-region radius, as an order-preserving key; a
    /// key below the initial radius is rejected and leaves the configuration
    /// unchanged.
    pub fn final_trust_region_radius(&mut self, value: u64) -> (r: Result<(), BobyqaError>)
        ensures
            value < old(self)@.initial_trust_region_radius ==> r == Err::<(), BobyqaError>(
                BobyqaError::FinalRadiusBelowInitial,
            ) && final(self)@ == old(self)@,
            value >= old(self)@.initial_trust_region_radius ==> r == Ok::<(), BobyqaError>(())
                && final(self)@ == (BobyqaView { final_trust_region_radius: value, ..old(self)@ }),
            old(self).wf() ==> final(self).wf(),
    {
        if value < self.initial_trust_region_radius {
            return Err(BobyqaError::FinalRadiusBelowInitial);
        }
        self.final_trust_region_radius = value;
        Ok(())
    }

    /// Sets the evaluation budget: the routine may call the objective at
    /// most this many times in one run. Any value is accepted.
    pub fn max_function_calls_count(&mut self, value: usize)
        ensures
            final(self)@ == (BobyqaView { max_function_calls_count: value as nat, ..old(self)@ }),
            old(self).wf() ==> final(self).wf(),
    {
        self.max_function_calls_count = value;
    }

    /// Validates one run of this configuration against a point buffer of
    /// `point_len` entries: the verdict is exactly [`spec_check`]. Nothing
    /// else may be handed to the optimization routine.
    ///
    /// Validation checks the presence and the lengths of the bounds, not
    /// their componentwise order: whether each lower entry stays below its
    /// upper entry is left to the routine, as it always has been.
    pub fn check(&self, point_len: usize) -> (r: Result<(), BobyqaError>)
        ensures
            r == spec_check(self@, point_len as nat),
    {
        if point_len < self.variables_count {
            return Err(BobyqaError::PointTooShort);
        }
        let n: u128 = self.variables_count as u128;
        let p: u128 = self.number_of_interpolation_conditions as u128;
        if p < n + 2 {
            return Err(BobyqaError::TooFewInterpolationConditions);
        }
        proof {
            lemma_interpolation_conditions_max_comparable(
                self@.number_of_interpolation_conditions,
                self@.variables_count,
            );
        }
        if 2 * p > (n + 1) * (n + 2) {
            return Err(BobyqaError::TooManyInterpolationConditions);
        }
        let lower_len: usize = match &self.lower_bound {
            Some(b) => b.len(),
            None => {
                return Err(BobyqaError::LowerBoundMissing);
            },
        };
        let upper_len: usize = match &self.upper_bound {
            Some(b) => b.len(),
            None => {
                return Err(BobyqaError::UpperBoundMissing);
            },
        };
        if lower_len < self.variables_count {
            return Err(BobyqaError::LowerBoundTooShort);
        }
        if upper_len < self.variables_count {
            return Err(BobyqaError::UpperBoundTooShort);
        }
        Ok(())
    }

    /// Assembles one run: validates the geometry against a point buffer of
    /// `point_len` entries and, on success, hands back every argument the
    /// optimization routine takes, with a fresh zeroed scratch buffer. On
    /// rejection the verdict of [`Self::check`] is returned unchanged, and
    /// the routine must not be entered.
    ///
    /// The one demand on the caller is the machine limit: for a
    /// configuration that validates, the scratch length must fit a `usize`.
    pub fn prepare(&self, point_len: usize) -> (r: Result<RunPlan, BobyqaError>)
        requires
            spec_check(self@, point_len as nat) is Ok ==> spec_working_space_size(
                self@.number_of_interpolation_conditions,
                self@.variables_count,
            ) <= usize::MAX,
        ensures
            r is Ok <==> spec_check(self@, point_len as nat) is Ok,
            r matches Err(e) ==> spec_check(self@, point_len as nat) == Err::<(), BobyqaError>(e),
            r matches Ok(plan) ==> plan.matches_config(self@),
    {
        match self.check(point_len) {
            Err(e) => Err(e),
            Ok(()) => {
                let lower = match &self.lower_bound {
                    Some(b) => copy_keys(b),
                    None => unreached(),
                };
                let upper = match &self.upper_bound {
                    Some(b) => copy_keys(b),
                    None => unreached(),
                };
                let scratch = working_space(
                    self.number_of_interpolation_conditions,
                    self.variables_count,
                );
                Ok(
                    RunPlan {
                        variables_count: self.variables_count,
                        number_of_interpolation_conditions:
                            self.number_of_interpolation_conditions,
                        lower_bound: lower,
                        upper_bound: upper,
                        initial_trust_region_radius: self.initial_trust_region_radius,
                        final_trust_region_radius: self.final_trust_region_radius,
                        max_function_calls_count: self.max_function_calls_count,
                        working_space: scratch,
                    },
                )
            },
        }
    }
}

/// The largest interpolation-set size a quadratic model over
/// `variables_count` variables can use.
pub open spec fn spec_interpolation_conditions_max(variables_count: nat) -> nat {
    (variables_count + 1) * (variables_count + 2) / 2
}

/// The verdict of run validation: the first violated condition, in the
/// order the conditions are stated, or `Ok` when the geometry is sound.
pub open spec fn spec_check(c: BobyqaView, point_len: nat) -> Result<(), BobyqaError> {
    if point_len < c.variables_count {
        Err(BobyqaError::PointTooShort)
    } else if c.number_of_interpolation_conditions < c.variables_count + 2 {
        Err(BobyqaError::TooFewInterpolationConditions)
    } else if c.number_of_interpolation_conditions > spec_interpolation_conditions_max(
        c.variables_count,
    ) {
        Err(BobyqaError::TooManyInterpolationConditions)
    } else if c.lower_bound is None {
        Err(BobyqaError::LowerBoundMissing)
    } else if c.upper_bound is None {
        Err(BobyqaError::UpperBoundMissing)
    } else if c.lower_bound->Some_0.len() < c.variables_count {
        Err(BobyqaError::LowerBoundTooShort)
    } else if c.upper_bound->Some_0.len() < c.variables_count {
        Err(BobyqaError::UpperBoundTooShort)
    } else {
        Ok(())
    }
}

/// Everything one validated run hands to the optimization routine: the
/// geometry, the bound and radius keys, the evaluation budget, and a
/// zero-initialized scratch buffer of exactly the required length.
pub struct RunPlan {
    pub variables_count: usize,
    pub number_of_interpolation_conditions: usize,
    pub lower_bound: Vec<u64>,
    pub upper_bound: Vec<u64>,
    pub initial_trust_region_radius: u64,
    pub final_trust_region_radius: u64,
    pub max_function_calls_count: usize,
    pub working_space: Vec<u64>,
}

impl RunPlan {
    /// The plan carries the configuration unchanged: the same geometry,
    /// bounds, radii and budget, plus a scratch buffer of the exact
    /// required length, all zeros.
    pub open spec fn matches_config(&self, c: BobyqaView) -> bool {
        &&& self.variables_count == c.variables_count
        &&& self.number_of_interpolation_conditions == c.number_of_interpolation_conditions
        &&& Some(self.lower_bound@) == c.lower_bound
        &&& Some(self.upper_bound@) == c.upper_bound
        &&& self.initial_trust_region_radius == c.initial_trust_region_radius
        &&& self.final_trust_region_radius == c.final_trust_region_radius
        &&& self.max_function_calls_count == c.max_function_calls_count
        &&& self.working_space@.len() == spec_working_space_size(
            c.number_of_interpolation_conditions,
            c.variables_count,
        )
        &&& forall|i: int| 0 <= i < self.working_space@.len() ==> self.working_space@[i] == 0
    }
}

/// An owned copy of a key sequence.
fn copy_keys(keys: &Vec<u64>) -> (r: Vec<u64>)
    ensures
        r@ == keys@,
{
    let mut r: Vec<u64> = Vec::new();
    let mut i: usize = 0;
    while i < keys.len()
        invariant
            i <= keys@.len(),
            r@.len() == i,
            forall|j: int| 0 <= j < i ==> r@[j] == keys@[j],
        decreases keys@.len() - i,
    {
        r.push(keys[i]);
        i += 1;
    }
    proof {
        assert(r@ =~= keys@);
    }
    r
}

/// Validation guards the optimization routine: a configuration
/// whose verdict is `Ok` for a point buffer has its whole geometry in
/// range — the point buffer covers every variable, the interpolation-set
/// size lies between `variables_count + 2` and
/// `(variables_count + 1) * (variables_count + 2) / 2`, and both bounds are
/// present and cover every variable. The routine is never entered with
/// out-of-range geometry.
pub proof fn lemma_valid_geometry(c: BobyqaView, point_len: nat)
    requires
        spec_check(c, point_len) is Ok,
    ensures
        point_len >= c.variables_count,
        c.variables_count + 2 <= c.number_of_interpolation_conditions,
        c.number_of_interpolation_conditions <= (c.variables_count + 1) * (c.variables_count + 2)
            / 2,
        c.lower_bound matches Some(b) && b.len() >= c.variables_count,
        c.upper_bound matches Some(b) && b.len() >= c.variables_count,
{
}

/// Run assembly is deterministic: the configuration alone decides every
/// value a plan carries, so two plans assembled from the same configuration
/// are the same plan, scratch buffer included.
pub proof fn lemma_plan_deterministic(a: RunPlan, b: RunPlan, c: BobyqaView)
    requires
        a.matches_config(c),
        b.matches_config(c),
    ensures
        a.variables_count == b.variables_count,
        a.number_of_interpolation_conditions == b.number_of_interpolation_conditions,
        a.lower_bound@ == b.lower_bound@,
        a.upper_bound@ == b.upper_bound@,
        a.initial_trust_region_radius == b.initial_trust_region_radius,
        a.final_trust_region_radius == b.final_trust_region_radius,
        a.max_function_calls_count == b.max_function_calls_count,
        a.working_space@ == b.working_space@,
{
    assert(a.working_space@ =~= b.working_space@);
}

/// When at least `n_vars + 2` interpolation conditions are requested, the
/// comparison against the interpolation-set ceiling can be carried out in
/// 128-bit arithmetic: the doubled product does not wrap, and doubling both
/// sides preserves the verdict.
proof fn lemma_interpolation_conditions_max_comparable(n_interp: nat, n_vars: nat)
    requires
        n_vars + 2 <= n_interp,
        n_interp <= u64::MAX,
    ensures
        (n_vars + 1) * (n_vars + 2) <= u128::MAX,
        n_interp > spec_interpolation_conditions_max(n_vars) <==> 2 * n_interp > (n_vars + 1) * (
        n_vars + 2),
{
    let q = ((n_vars + 1) * (n_vars + 2)) as int;
    assert((n_vars + 1) * (n_vars + 2) <= 0xFFFF_FFFF_FFFF_FFFE * 0xFFFF_FFFF_FFFF_FFFF)
        by (nonlinear_arith)
        requires
            n_vars + 2 <= n_interp,
            n_interp <= u64::MAX,
    ;
    vstd::arithmetic::div_mod::lemma_fundamental_div_mod(q, 2);
    vstd::arithmetic::div_mod::lemma_mod_division_less_than_divisor(q, 2);
}

} // verus!
