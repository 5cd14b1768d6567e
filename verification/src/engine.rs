//! The exact-arithmetic part of the estimation engine.
//!
//! Effort and schedule follow power curves with fractional exponents, so they
//! live with the caller's floating-point arithmetic. The cost step,
//! `cost = effort * wage / 12 * overhead`, is a rational formula, and this
//! module carries it exactly: [`estimate_cost_scaled`] returns the integer
//! `effort * wage * overhead` over fixed-point units, which is twelve times
//! the cost at a scale of one trillionth of a currency unit. Keeping the
//! constant divisor out of the result keeps it exact, and makes the formula's
//! linearity a theorem rather than an approximation.

use vstd::prelude::*;

use crate::fixed::Fixed;

verus! {

/// Twelve times the cost, over fixed-point units: the cost formula
/// `effort * wage / 12 * overhead` cleared of its constant divisor.
pub open spec fn cost_scaled(effort: int, wage: int, overhead: int) -> int {
    effort * wage * overhead
}

/// The exact cost product for fixed-point inputs. The cost in currency units
/// is the result divided by twelve trillion: twelve from the annual-to-monthly
/// wage conversion, a trillion from the three four-digit fixed-point factors.
pub fn estimate_cost_scaled(effort: Fixed, avg_wage: Fixed, overhead: Fixed) -> (r: i128)
    requires
        -1_000_000_000_000 <= effort.units <= 1_000_000_000_000,
        -1_000_000_000_000 <= avg_wage.units <= 1_000_000_000_000,
        -1_000_000_000_000 <= overhead.units <= 1_000_000_000_000,
    ensures
        r == cost_scaled(effort.units as int, avg_wage.units as int, overhead.units as int),
{
    proof {
        assert(-1_000_000_000_000_000_000_000_000 <= effort.units * avg_wage.units
            <= 1_000_000_000_000_000_000_000_000) by (nonlinear_arith)
            requires
                -1_000_000_000_000 <= effort.units <= 1_000_000_000_000,
                -1_000_000_000_000 <= avg_wage.units <= 1_000_000_000_000,
        ;
        assert(-1_000_000_000_000_000_000_000_000_000_000_000_000 <= (effort.units
            * avg_wage.units) * overhead.units
            <= 1_000_000_000_000_000_000_000_000_000_000_000_000) by (nonlinear_arith)
            requires
                -1_000_000_000_000_000_000_000_000 <= effort.units * avg_wage.units
                    <= 1_000_000_000_000_000_000_000_000,
                -1_000_000_000_000 <= overhead.units <= 1_000_000_000_000,
        ;
    }
    (effort.units as i128) * (avg_wage.units as i128) * (overhead.units as i128)
}

/// Scaling the wage scales the cost by the same factor, with the effort and
/// the overhead held fixed: the cost formula is linear in the wage.
pub proof fn lemma_cost_linear_in_wage(effort: int, wage: int, overhead: int, k: int)
    ensures
        cost_scaled(effort, k * wage, overhead) == k * cost_scaled(effort, wage, overhead),
{
    assert(effort * (k * wage) * overhead == k * (effort * wage * overhead)) by (nonlinear_arith);
}

/// Scaling the overhead scales the cost by the same factor, with the effort
/// and the wage held fixed: the cost formula is linear in the overhead.
pub proof fn lemma_cost_linear_in_overhead(effort: int, wage: int, overhead: int, k: int)
    ensures
        cost_scaled(effort, wage, k * overhead) == k * cost_scaled(effort, wage, overhead),
{
    assert(effort * wage * (k * overhead) == k * (effort * wage * overhead)) by (nonlinear_arith);
}

/// Zero effort costs nothing, whatever the wage and the overhead.
pub proof fn lemma_zero_effort_zero_cost(wage: int, overhead: int)
    ensures
        cost_scaled(0, wage, overhead) == 0,
{
    assert(0 * wage * overhead == 0) by (nonlinear_arith);
}

} // verus!
