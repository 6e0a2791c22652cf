//! Static constraints of one synthesis run, and the check that holds a
//! projected plan to them before a schedule is committed.

use vstd::prelude::*;
use crate::reversal::RoHScore;

verus! {

/// Read-only constraints of one synthesis run.
#[derive(Debug, Clone, Copy, PartialEq, Eq, Structural)]
pub struct QuantumSynthesisConstraints {
    pub roh_ceiling: i64,
    pub rod_budget: i64,
    pub max_depth: u32,
    pub max_entangling_density: i64,
    pub max_meas_per_window: u32,
    pub roh_penalty_coeff: i64,
    pub rod_penalty_coeff: i64,
}

/// The constraint that a plan would break.
#[derive(Debug, Clone, Copy, PartialEq, Eq, Structural)]
pub enum SynthViolation {
    RoHCeilingWouldBeExceeded,
    RODBudgetWouldBeExceeded,
    DepthLimitExceeded,
    EntanglingDensityExceeded,
    MeasurementCadenceExceeded,
}

/// The projected metrics of a plan.
#[derive(Debug, Clone, Copy, PartialEq, Eq, Structural)]
pub struct ProjectedQuantumPlanMetrics {
    pub projected_roh_after: RoHScore,
    pub projected_rod: i64,
    pub circuit_depth: u32,
    pub entangling_density: i64,
    pub meas_per_window: u32,
}

/// The first constraint, in the fixed order of the check, that the plan would
/// break, if it breaks any. The risk ceiling comes first, then the budget
/// (which must stay strictly above the projection), the depth, the
/// entangling density, and the measurement cadence.
pub open spec fn plan_violation(
    constraints: QuantumSynthesisConstraints,
    metrics: ProjectedQuantumPlanMetrics,
) -> Option<SynthViolation> {
    if metrics.projected_roh_after.value > constraints.roh_ceiling {
        Some(SynthViolation::RoHCeilingWouldBeExceeded)
    } else if metrics.projected_rod >= constraints.rod_budget {
        Some(SynthViolation::RODBudgetWouldBeExceeded)
    } else if metrics.circuit_depth > constraints.max_depth {
        Some(SynthViolation::DepthLimitExceeded)
    } else if metrics.entangling_density > constraints.max_entangling_density {
        Some(SynthViolation::EntanglingDensityExceeded)
    } else if metrics.meas_per_window > constraints.max_meas_per_window {
        Some(SynthViolation::MeasurementCadenceExceeded)
    } else {
        None
    }
}

/// Holds a projected plan to the constraints. Returns the first violation in
/// the order of the check, or `Ok` when the plan keeps every constraint.
pub fn check_plan_against_constraints(
    constraints: &QuantumSynthesisConstraints,
    metrics: &ProjectedQuantumPlanMetrics,
) -> (res: Result<(), SynthViolation>)
    ensures
        res.is_ok() <==> plan_violation(*constraints, *metrics).is_none(),
        res.is_err() ==> plan_violation(*constraints, *metrics) == Some(res.unwrap_err()),
{
    if metrics.projected_roh_after.value() > constraints.roh_ceiling {
        return Err(SynthViolation::RoHCeilingWouldBeExceeded);
    }
    if metrics.projected_rod >= constraints.rod_budget {
        return Err(SynthViolation::RODBudgetWouldBeExceeded);
    }
    if metrics.circuit_depth > constraints.max_depth {
        return Err(SynthViolation::DepthLimitExceeded);
    }
    if metrics.entangling_density > constraints.max_entangling_density {
        return Err(SynthViolation::EntanglingDensityExceeded);
    }
    if metrics.meas_per_window > constraints.max_meas_per_window {
        return Err(SynthViolation::MeasurementCadenceExceeded);
    }
    Ok(())
}

} // verus!
