//! A chain of gates: an ordered list of independent predicates over the
//! predicted bundle and the corridor limits. The chain is walked once; the
//! first gate that reports a violation decides the verdict, whatever the
//! gates after it would say.
//!
//! Before the chain stands one hard rule that is no gate and is never
//! softened: a deed that would end in the non-actuating neurorights band is
//! denied.

use vstd::prelude::*;
use crate::limits::{CorridorLimits, RightToExistConfig};
use crate::model::{Deed, NeurorightsBand};
use crate::predictor::CorridorScalars;

verus! {

/// High-level result of the corridor guard.
#[derive(Debug, Clone, Copy, PartialEq, Eq, Structural)]
pub enum CorridorDecision {
    Allow,
    Downscale,
    Deny,
}

/// Reason codes for audit and judgement.
#[derive(Debug, Clone, Copy, PartialEq, Eq, Structural)]
pub enum CorridorReason {
    /// No gate is violated.
    Okay,
    BioRailExceeded,
    BioLoadExceeded,
    ThermodynamicExceeded,
    NeurorightsViolated,
    JusticeBandBreached,
}

/// One named check of the corridor.
#[derive(Debug, Clone, Copy, PartialEq, Eq, Structural)]
pub enum Gate {
    /// The temperature proxy after the deed exceeds its ceiling.
    Temperature,
    /// The heart-rate proxy after the deed exceeds its ceiling.
    HeartRate,
    /// The biosignature rail after the deed exceeds its ceiling.
    BioRail,
    /// The territorial bioload after the deed exceeds its ceiling.
    BioLoad,
    /// The HPCC justice ratio after the deed exceeds its band.
    Hpcc,
    /// The ERG justice ratio after the deed exceeds its band.
    Erg,
    /// The TECR justice ratio after the deed exceeds its band.
    Tecr,
}

impl Gate {
    /// This gate reports a violation on bundle `s` under `limits`.
    pub open spec fn violated(self, s: CorridorScalars, limits: CorridorLimits) -> bool {
        match self {
            Gate::Temperature => s.temp_after > limits.temp_max,
            Gate::HeartRate => s.heart_rate_after > limits.heart_rate_max,
            Gate::BioRail => s.b_after > limits.b_max,
            Gate::BioLoad => s.bioload_after > limits.bioload_max,
            Gate::Hpcc => s.hpcc_after > limits.hpcc_max,
            Gate::Erg => s.erg_after > limits.erg_max,
            Gate::Tecr => s.tecr_after > limits.tecr_max,
        }
    }

    /// The reason that a violation of this gate is reported with.
    pub open spec fn reason(self) -> CorridorReason {
        match self {
            Gate::Temperature => CorridorReason::ThermodynamicExceeded,
            Gate::HeartRate => CorridorReason::ThermodynamicExceeded,
            Gate::BioRail => CorridorReason::BioRailExceeded,
            Gate::BioLoad => CorridorReason::BioLoadExceeded,
            Gate::Hpcc => CorridorReason::JusticeBandBreached,
            Gate::Erg => CorridorReason::JusticeBandBreached,
            Gate::Tecr => CorridorReason::JusticeBandBreached,
        }
    }

    /// The verdict that a violation of this gate gives, for a deed whose kind
    /// may (`can_soften`) or may not be downscaled.
    pub open spec fn verdict(self, can_soften: bool) -> (CorridorDecision, CorridorReason) {
        if can_soften {
            (CorridorDecision::Downscale, self.reason())
        } else {
            (CorridorDecision::Deny, self.reason())
        }
    }

    /// Whether this gate reports a violation on bundle `s` under `limits`.
    pub fn is_violated(&self, s: &CorridorScalars, limits: &CorridorLimits) -> (res: bool)
        ensures
            res == self.violated(*s, *limits),
    {
        match self {
            Gate::Temperature => s.temp_after > limits.temp_max,
            Gate::HeartRate => s.heart_rate_after > limits.heart_rate_max,
            Gate::BioRail => s.b_after > limits.b_max,
            Gate::BioLoad => s.bioload_after > limits.bioload_max,
            Gate::Hpcc => s.hpcc_after > limits.hpcc_max,
            Gate::Erg => s.erg_after > limits.erg_max,
            Gate::Tecr => s.tecr_after > limits.tecr_max,
        }
    }

    /// The reason code of this gate.
    pub fn reason_code(&self) -> (r: CorridorReason)
        ensures
            r == self.reason(),
    {
        match self {
            Gate::Temperature => CorridorReason::ThermodynamicExceeded,
            Gate::HeartRate => CorridorReason::ThermodynamicExceeded,
            Gate::BioRail => CorridorReason::BioRailExceeded,
            Gate::BioLoad => CorridorReason::BioLoadExceeded,
            Gate::Hpcc => CorridorReason::JusticeBandBreached,
            Gate::Erg => CorridorReason::JusticeBandBreached,
            Gate::Tecr => CorridorReason::JusticeBandBreached,
        }
    }
}

/// The index of the first gate at or after `from` that reports a violation,
/// or the length of the list when none does.
pub open spec fn first_violation_from(
    gates: Seq<Gate>,
    s: CorridorScalars,
    limits: CorridorLimits,
    from: int,
) -> int
    decreases gates.len() - from,
{
    if from < 0 || from >= gates.len() {
        gates.len() as int
    } else if gates[from].violated(s, limits) {
        from
    } else {
        first_violation_from(gates, s, limits, from + 1)
    }
}

/// The verdict of walking `gates` in order: that of the first violated gate,
/// or `(Allow, Okay)` when no gate is violated.
pub open spec fn chain_outcome(
    gates: Seq<Gate>,
    s: CorridorScalars,
    limits: CorridorLimits,
    can_soften: bool,
) -> (CorridorDecision, CorridorReason) {
    let first = first_violation_from(gates, s, limits, 0);
    if first < gates.len() {
        gates[first].verdict(can_soften)
    } else {
        (CorridorDecision::Allow, CorridorReason::Okay)
    }
}

/// The corridor's gates in their configured order, the hard physical limits
/// before the fairness bands: the thermodynamic ceilings, the biosignature
/// rail, the territorial bioload, and last the three justice bands.
pub open spec fn corridor_gates() -> Seq<Gate> {
    seq![
        Gate::Temperature,
        Gate::HeartRate,
        Gate::BioRail,
        Gate::BioLoad,
        Gate::Hpcc,
        Gate::Erg,
        Gate::Tecr,
    ]
}

/// The verdict of the corridor: a bundle that ends in the non-actuating band
/// is denied outright; any other gets the verdict of the corridor's gate
/// list.
pub open spec fn rules_outcome(
    s: CorridorScalars,
    limits: CorridorLimits,
    can_soften: bool,
) -> (CorridorDecision, CorridorReason) {
    if s.neurorights_after == NeurorightsBand::NonActuating {
        (CorridorDecision::Deny, CorridorReason::NeurorightsViolated)
    } else {
        chain_outcome(corridor_gates(), s, limits, can_soften)
    }
}

/// What `first_violation_from` picks: an index in `[from, len]` before which
/// no gate is violated, and at which one is, unless it is the length.
pub proof fn lemma_first_violation(
    gates: Seq<Gate>,
    s: CorridorScalars,
    limits: CorridorLimits,
    from: int,
)
    requires
        0 <= from <= gates.len(),
    ensures
        from <= first_violation_from(gates, s, limits, from) <= gates.len(),
        forall|k: int|
            from <= k < first_violation_from(gates, s, limits, from) ==> !(#[trigger] gates[k])
                .violated(s, limits),
        first_violation_from(gates, s, limits, from) < gates.len() ==> gates[first_violation_from(
            gates,
            s,
            limits,
            from,
        )].violated(s, limits),
    decreases gates.len() - from,
{
    if from < gates.len() && !gates[from].violated(s, limits) {
        lemma_first_violation(gates, s, limits, from + 1);
    }
}

/// Lexicographic ordering: the verdict is that of the earliest violated gate.
/// If gate `i` is violated and no gate before it is, the chain reports gate
/// `i`, whichever of the gates after it are violated too.
pub proof fn lemma_earliest_violation_reported(
    gates: Seq<Gate>,
    s: CorridorScalars,
    limits: CorridorLimits,
    can_soften: bool,
    i: int,
)
    requires
        0 <= i < gates.len(),
        gates[i].violated(s, limits),
        forall|k: int| 0 <= k < i ==> !(#[trigger] gates[k]).violated(s, limits),
    ensures
        first_violation_from(gates, s, limits, 0) == i,
        chain_outcome(gates, s, limits, can_soften) == gates[i].verdict(can_soften),
        chain_outcome(gates, s, limits, can_soften).1 == gates[i].reason(),
{
    lemma_first_violation(gates, s, limits, 0);
}

/// Of two violated gates the later one is never reported in place of the
/// earlier: the reported gate stands at or before both.
pub proof fn lemma_later_violation_never_shadows(
    gates: Seq<Gate>,
    s: CorridorScalars,
    limits: CorridorLimits,
    i: int,
    j: int,
)
    requires
        0 <= i < j < gates.len(),
        gates[i].violated(s, limits),
        gates[j].violated(s, limits),
    ensures
        first_violation_from(gates, s, limits, 0) <= i,
        first_violation_from(gates, s, limits, 0) != j,
{
    lemma_first_violation(gates, s, limits, 0);
}

/// The chain allows exactly when no gate is violated, and otherwise never
/// reports `Okay`.
pub proof fn lemma_allow_iff_no_violation(
    gates: Seq<Gate>,
    s: CorridorScalars,
    limits: CorridorLimits,
    can_soften: bool,
)
    ensures
        chain_outcome(gates, s, limits, can_soften).0 == CorridorDecision::Allow <==> (forall|
            k: int,
        |
            0 <= k < gates.len() ==> !(#[trigger] gates[k]).violated(s, limits)),
        chain_outcome(gates, s, limits, can_soften).0 == CorridorDecision::Allow
            <==> chain_outcome(gates, s, limits, can_soften).1 == CorridorReason::Okay,
{
    lemma_first_violation(gates, s, limits, 0);
}

/// A violation is softened to a downscale exactly when the deed's kind may
/// be softened; the reason does not depend on it.
pub proof fn lemma_downscale_needs_softening(
    gates: Seq<Gate>,
    s: CorridorScalars,
    limits: CorridorLimits,
    can_soften: bool,
)
    ensures
        chain_outcome(gates, s, limits, can_soften).0 == CorridorDecision::Downscale
            ==> can_soften,
        chain_outcome(gates, s, limits, can_soften).0 == CorridorDecision::Deny ==> !can_soften,
        chain_outcome(gates, s, limits, can_soften).1 == chain_outcome(gates, s, limits, false).1,
{
    lemma_first_violation(gates, s, limits, 0);
}

/// A gate violated under some limits is violated under all tighter limits.
pub proof fn lemma_violation_survives_tightening(
    gate: Gate,
    s: CorridorScalars,
    loose: CorridorLimits,
    tight: CorridorLimits,
)
    requires
        tight.at_most(loose),
        gate.violated(s, loose),
    ensures
        gate.violated(s, tight),
{
}

/// Monotonicity: tightening limits never turns a refusal into an allowance.
/// For a fixed bundle, if the chain allows under the tighter limits, it
/// allows under the looser ones; so lowering any ceiling can move `Allow`
/// only toward `Downscale` or `Deny`. A refusal stays the refusal it was:
/// a downscale stays a downscale and a denial a denial, though the reason
/// may change, since the first violated gate can move toward the front of
/// the list.
pub proof fn lemma_tightening_is_monotone(
    gates: Seq<Gate>,
    s: CorridorScalars,
    loose: CorridorLimits,
    tight: CorridorLimits,
    can_soften: bool,
)
    requires
        tight.at_most(loose),
    ensures
        chain_outcome(gates, s, tight, can_soften).0 == CorridorDecision::Allow ==> chain_outcome(
            gates,
            s,
            loose,
            can_soften,
        ).0 == CorridorDecision::Allow,
        chain_outcome(gates, s, loose, can_soften).0 != CorridorDecision::Allow ==> chain_outcome(
            gates,
            s,
            tight,
            can_soften,
        ).0 == chain_outcome(gates, s, loose, can_soften).0,
        first_violation_from(gates, s, tight, 0) <= first_violation_from(gates, s, loose, 0),
{
    lemma_first_violation(gates, s, loose, 0);
    lemma_first_violation(gates, s, tight, 0);
    let fl = first_violation_from(gates, s, loose, 0);
    if fl < gates.len() {
        lemma_violation_survives_tightening(gates[fl], s, loose, tight);
    }
}

/// The full violation set: every gate of `gates` that reports a violation,
/// in the order of the list.
pub open spec fn violations_of(
    gates: Seq<Gate>,
    s: CorridorScalars,
    limits: CorridorLimits,
) -> Seq<Gate>
    decreases gates.len(),
{
    if gates.len() == 0 {
        Seq::<Gate>::empty()
    } else if gates.last().violated(s, limits) {
        violations_of(gates.drop_last(), s, limits).push(gates.last())
    } else {
        violations_of(gates.drop_last(), s, limits)
    }
}

/// The primary reason and the full violation set agree: the set is empty
/// exactly when the chain allows, and otherwise its first member is what
/// the chain reports.
pub proof fn lemma_primary_is_first_of_violations(
    gates: Seq<Gate>,
    s: CorridorScalars,
    limits: CorridorLimits,
    can_soften: bool,
)
    ensures
        violations_of(gates, s, limits).len() == 0 <==> first_violation_from(gates, s, limits, 0)
            == gates.len(),
        violations_of(gates, s, limits).len() == 0 <==> chain_outcome(
            gates,
            s,
            limits,
            can_soften,
        ).0 == CorridorDecision::Allow,
        violations_of(gates, s, limits).len() > 0 ==> violations_of(gates, s, limits)[0]
            == gates[first_violation_from(gates, s, limits, 0)] && chain_outcome(
            gates,
            s,
            limits,
            can_soften,
        ) == violations_of(gates, s, limits)[0].verdict(can_soften),
    decreases gates.len(),
{
    lemma_first_violation(gates, s, limits, 0);
    if gates.len() > 0 {
        let front = gates.drop_last();
        lemma_primary_is_first_of_violations(front, s, limits, can_soften);
        lemma_first_violation(front, s, limits, 0);
        let f = first_violation_from(gates, s, limits, 0);
        let ff = first_violation_from(front, s, limits, 0);
        assert forall|k: int| 0 <= k < front.len() implies front[k] == gates[k] by {}
        if ff < front.len() {
            assert(gates[ff].violated(s, limits));
            assert(f == ff) by {
                if f < ff {
                    assert(front[f].violated(s, limits));
                }
            }
        } else {
            assert(f >= front.len()) by {
                if f < front.len() {
                    assert(front[f].violated(s, limits));
                }
            }
        }
    }
}

/// Walks `gates` once, in order, and returns the verdict of the first gate
/// that reports a violation: `Downscale` with its reason when `can_soften`
/// holds, else `Deny` with its reason. Returns `(Allow, Okay)` when no gate is
/// violated.
pub fn evaluate_gates(
    gates: &[Gate],
    s: &CorridorScalars,
    limits: &CorridorLimits,
    can_soften: bool,
) -> (res: (CorridorDecision, CorridorReason))
    ensures
        res == chain_outcome(gates@, *s, *limits, can_soften),
{
    let mut i: usize = 0;
    while i < gates.len()
        invariant
            i <= gates@.len(),
            first_violation_from(gates@, *s, *limits, 0) == first_violation_from(
                gates@,
                *s,
                *limits,
                i as int,
            ),
        decreases gates@.len() - i,
    {
        if gates[i].is_violated(s, limits) {
            let reason = gates[i].reason_code();
            if can_soften {
                return (CorridorDecision::Downscale, reason);
            }
            return (CorridorDecision::Deny, reason);
        }
        i += 1;
    }
    (CorridorDecision::Allow, CorridorReason::Okay)
}

/// Collects the full violation set: every gate of `gates` that reports a
/// violation, in the order of the list. The verdict names only the first of
/// them.
pub fn violated_gates(gates: &[Gate], s: &CorridorScalars, limits: &CorridorLimits) -> (found: Vec<
    Gate,
>)
    ensures
        found@ == violations_of(gates@, *s, *limits),
{
    let mut found: Vec<Gate> = Vec::new();
    let mut i: usize = 0;
    while i < gates.len()
        invariant
            i <= gates@.len(),
            found@ == violations_of(gates@.take(i as int), *s, *limits),
        decreases gates@.len() - i,
    {
        proof {
            assert(gates@.take(i + 1).drop_last() =~= gates@.take(i as int));
        }
        if gates[i].is_violated(s, limits) {
            found.push(gates[i]);
        }
        i += 1;
    }
    proof {
        assert(gates@.take(i as int) =~= gates@);
    }
    found
}

/// The corridor's gate list, in its configured order.
pub fn standard_gates() -> (gates: Vec<Gate>)
    ensures
        gates@ == corridor_gates(),
{
    let gates = vec![
        Gate::Temperature,
        Gate::HeartRate,
        Gate::BioRail,
        Gate::BioLoad,
        Gate::Hpcc,
        Gate::Erg,
        Gate::Tecr,
    ];
    assert(gates@ =~= corridor_gates());
    gates
}

/// Enforces the corridor on a predicted bundle. A bundle that ends in the
/// non-actuating band is denied. Otherwise the limits of the deed's zone are
/// looked up, and the corridor's gates are walked in order: the first
/// violated gate decides, and the deed's kind decides whether the violation
/// is softened to a downscale.
pub fn apply_corridor_rules(s: &CorridorScalars, deed: &Deed, cfg: &RightToExistConfig) -> (res: (
    CorridorDecision,
    CorridorReason,
))
    ensures
        res == rules_outcome(*s, cfg.zone_limits(deed.zone), cfg.downgrade.softens(deed.kind)),
{
    if cfg.neurorights.is_non_actuating_band(s.neurorights_after) {
        return (CorridorDecision::Deny, CorridorReason::NeurorightsViolated);
    }
    let limits = cfg.limits_for_zone(deed.zone);
    let can_soften = cfg.downgrade.can_downscale(deed.kind);
    let gates = standard_gates();
    evaluate_gates(gates.as_slice(), s, &limits, can_soften)
}

} // verus!
