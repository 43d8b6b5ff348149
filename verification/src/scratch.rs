//! Scratch-buffer sizing for the optimization routine.
//!
//! The routine lays its internal working arrays out in one flat buffer that
//! the caller allocates. The buffer's length is a fixed function of the
//! number of interpolation conditions and the number of variables; a buffer
//! that is even one word short is memory corruption inside the routine, so
//! the size computation is proved exact here.

use vstd::arithmetic::div_mod::lemma_div_is_ordered;
use vstd::arithmetic::div_mod::lemma_div_multiples_vanish;
use vstd::arithmetic::div_mod::lemma_hoist_over_denominator;
use vstd::prelude::*;

verus! {

/// The number of 64-bit words of scratch memory one run needs, for
/// `n_interp` interpolation conditions over `n_vars` variables.
pub open spec fn spec_working_space_size(n_interp: nat, n_vars: nat) -> nat {
    3 * n_vars * (n_vars + 3) / 2 + (n_interp + 13) * (n_interp + n_vars)
}

/// Bounds every intermediate of the size computation by a term of the
/// formula, so that the executable computation cannot overflow when the
/// whole size fits the machine word.
proof fn lemma_size_intermediates(n_interp: nat, n_vars: nat)
    ensures
        n_vars <= n_vars * (n_vars + 3),
        n_vars >= 1 ==> n_vars + 3 <= n_vars * (n_vars + 3),
        n_vars * (n_vars + 3) + n_vars * (n_vars + 3) / 2 == 3 * n_vars * (n_vars + 3) / 2,
        n_vars * (n_vars + 3) <= 3 * n_vars * (n_vars + 3) / 2,
        n_interp + n_vars >= 1 ==> n_interp + 13 <= (n_interp + 13) * (n_interp + n_vars),
        n_interp + n_vars >= 1 ==> n_interp + n_vars <= (n_interp + 13) * (n_interp + n_vars),
{
    let t = n_vars * (n_vars + 3);
    assert(n_vars <= t && (n_vars >= 1 ==> n_vars + 3 <= t)) by (nonlinear_arith)
        requires
            t == n_vars * (n_vars + 3),
    ;
    assert(3 * n_vars * (n_vars + 3) == 3 * t) by (nonlinear_arith)
        requires
            t == n_vars * (n_vars + 3),
    ;
    // t/2 + t == (t + t*2)/2, and t + t*2 == 3*t, so t + t/2 is the first term.
    lemma_hoist_over_denominator(t as int, t as int, 2);
    assert(t + t * 2 == 3 * t);
    // t == (2*t)/2 <= (3*t)/2, so t is no larger than the first term.
    lemma_div_is_ordered(2 * t as int, 3 * t as int, 2);
    lemma_div_multiples_vanish(t as int, 2);
    if n_interp + n_vars >= 1 {
        assert((n_interp + 13) * (n_interp + n_vars) >= n_interp + 13 && (n_interp + 13) * (
        n_interp + n_vars) >= n_interp + n_vars) by (nonlinear_arith)
            requires
                n_interp + n_vars >= 1,
        ;
    }
}

/// The exact scratch length for a run with `number_of_interpolation_conditions`
/// interpolation conditions over `variables_count` variables.
pub fn working_space_size(number_of_interpolation_conditions: usize, variables_count: usize) -> (r:
    usize)
    requires
        spec_working_space_size(
            number_of_interpolation_conditions as nat,
            variables_count as nat,
        ) <= usize::MAX,
    ensures
        r == spec_working_space_size(
            number_of_interpolation_conditions as nat,
            variables_count as nat,
        ),
{
    proof {
        lemma_size_intermediates(
            number_of_interpolation_conditions as nat,
            variables_count as nat,
        );
        assert(usize::MAX >= 0xFFFF_FFFF);
    }
    let t: usize = variables_count * (variables_count + 3);
    let first: usize = t + t / 2;
    let second: usize = (number_of_interpolation_conditions + 13) * (
    number_of_interpolation_conditions + variables_count);
    first + second
}

/// A fresh, zero-filled scratch buffer of exactly the length the routine
/// needs for the given geometry.
pub fn working_space(number_of_interpolation_conditions: usize, variables_count: usize) -> (w: Vec<
    u64,
>)
    requires
        spec_working_space_size(
            number_of_interpolation_conditions as nat,
            variables_count as nat,
        ) <= usize::MAX,
    ensures
        w@.len() == spec_working_space_size(
            number_of_interpolation_conditions as nat,
            variables_count as nat,
        ),
        forall|i: int| 0 <= i < w@.len() ==> w@[i] == 0,
{
    let size = working_space_size(number_of_interpolation_conditions, variables_count);
    let mut w: Vec<u64> = Vec::new();
    while w.len() < size
        invariant
            w@.len() <= size,
            forall|i: int| 0 <= i < w@.len() ==> w@[i] == 0,
        decreases size - w.len(),
    {
        w.push(0u64);
    }
    w
}

} // verus!
