//! The capability lattice gate: legality of a capability-tier transition.
//!
//! This gate is an explicit linear sequence of steps, each of which can only
//! deny (or, for a transition that is no downgrade, hand the request to the
//! generic transition evaluator). No step is skipped or weighed against
//! another; only a request that passes every step is allowed.

use vstd::prelude::*;
use crate::roles::RoleSet;

verus! {

/// The ceiling of the risk-of-harm score in the controlled tier: 0.30.
pub const DEFAULT_ROH_CEILING: i64 = 300_000;

/// The name reported for a policy stack that fails without a failing shard.
pub open spec fn unknown_shard() -> Seq<char> {
    "UNKNOWN"@
}

/// Capability tiers, totally ordered:
/// model-only < lab-bench < controlled-human < general-use.
#[derive(Debug, Clone, Copy, PartialEq, Eq, Structural)]
pub enum CapabilityState {
    CapModelOnly,
    CapLabBench,
    CapControlledHuman,
    CapGeneralUse,
}

impl CapabilityState {
    /// The position of the tier in the lattice.
    pub open spec fn rank(self) -> int {
        match self {
            CapabilityState::CapModelOnly => 0,
            CapabilityState::CapLabBench => 1,
            CapabilityState::CapControlledHuman => 2,
            CapabilityState::CapGeneralUse => 3,
        }
    }

    /// The position of the tier in the lattice.
    pub fn tier_rank(&self) -> (r: u8)
        ensures
            r == self.rank(),
    {
        match self {
            CapabilityState::CapModelOnly => 0,
            CapabilityState::CapLabBench => 1,
            CapabilityState::CapControlledHuman => 2,
            CapabilityState::CapGeneralUse => 3,
        }
    }
}

/// A request to move a subject from one tier to another.
#[derive(Debug, Clone, Copy, PartialEq, Eq, Structural)]
pub struct CapabilityTransitionRequest {
    pub from: CapabilityState,
    pub to: CapabilityState,
}

impl CapabilityTransitionRequest {
    /// The tier that the subject holds now.
    pub fn from_state(&self) -> (s: CapabilityState)
        ensures
            s == self.from,
    {
        self.from
    }

    /// The tier that the request asks for.
    pub fn to_state(&self) -> (s: CapabilityState)
        ensures
            s == self.to,
    {
        self.to
    }
}

/// A risk-of-harm score with the ceiling of its tier.
#[derive(Debug, Clone, Copy, PartialEq, Eq, Structural)]
pub struct RoHScore {
    pub value: i64,
    pub ceiling: i64,
}

impl RoHScore {
    /// A score under the default ceiling of the controlled tier.
    pub fn new(value: i64) -> (score: RoHScore)
        ensures
            score.value == value,
            score.ceiling == DEFAULT_ROH_CEILING,
    {
        RoHScore { value, ceiling: DEFAULT_ROH_CEILING }
    }

    /// The score.
    pub fn value(&self) -> (v: i64)
        ensures
            v == self.value,
    {
        self.value
    }

    /// The ceiling that the score must stay under.
    pub fn ceiling(&self) -> (c: i64)
        ensures
            c == self.ceiling,
    {
        self.ceiling
    }
}

/// The three independent flags that gate the consideration of a downgrade.
#[derive(Debug, Clone, Copy, PartialEq, Eq, Structural)]
pub struct ReversalPolicyFlags {
    /// Global enable; downgrades are refused while it is false.
    pub allow_neuromorph_reversal: bool,
    pub explicit_reversal_order: bool,
    pub no_safer_alternative: bool,
}

/// The result of one policy shard.
#[derive(Debug, Clone, PartialEq, Eq)]
pub struct PolicyShard {
    pub name: String,
    pub pass: bool,
}

/// The aggregated result of the multi-shard policy stack.
#[derive(Debug, Clone, PartialEq, Eq)]
pub struct PolicyStack {
    pub shards: Vec<PolicyShard>,
}

/// The index of the first shard at or after `from` that fails, or the number
/// of shards when none does.
pub open spec fn first_failing_from(shards: Seq<PolicyShard>, from: int) -> int
    decreases shards.len() - from,
{
    if from < 0 || from >= shards.len() {
        shards.len() as int
    } else if !shards[from].pass {
        from
    } else {
        first_failing_from(shards, from + 1)
    }
}

/// What `first_failing_from` picks: an index in `[from, len]` before which
/// every shard passes, and at which one fails, unless it is the length.
pub proof fn lemma_first_failing(shards: Seq<PolicyShard>, from: int)
    requires
        0 <= from <= shards.len(),
    ensures
        from <= first_failing_from(shards, from) <= shards.len(),
        forall|k: int| from <= k < first_failing_from(shards, from) ==> (#[trigger] shards[k]).pass,
        first_failing_from(shards, from) < shards.len() ==> !shards[first_failing_from(
            shards,
            from,
        )].pass,
    decreases shards.len() - from,
{
    if from < shards.len() && shards[from].pass {
        lemma_first_failing(shards, from + 1);
    }
}

impl PolicyStack {
    /// The stack reports all-pass: it holds at least one shard, and every
    /// shard passes. An empty stack is a missing aggregate and does not pass.
    pub open spec fn passes(&self) -> bool {
        &&& self.shards@.len() > 0
        &&& forall|k: int| 0 <= k < self.shards@.len() ==> (#[trigger] self.shards@[k]).pass
    }

    /// The name that a failure of the stack is reported with: that of the
    /// first failing shard, or `UNKNOWN` when no shard fails.
    pub open spec fn failure_name(&self) -> Seq<char> {
        let first = first_failing_from(self.shards@, 0);
        if first < self.shards@.len() {
            self.shards@[first].name@
        } else {
            unknown_shard()
        }
    }

    /// Whether the stack reports all-pass.
    pub fn all_pass(&self) -> (res: bool)
        ensures
            res == self.passes(),
    {
        if self.shards.len() == 0 {
            return false;
        }
        let mut i: usize = 0;
        while i < self.shards.len()
            invariant
                i <= self.shards@.len(),
                forall|k: int| 0 <= k < i ==> (#[trigger] self.shards@[k]).pass,
            decreases self.shards@.len() - i,
        {
            if !self.shards[i].pass {
                return false;
            }
            i += 1;
        }
        true
    }

    /// The name of the first failing shard, if any shard fails.
    pub fn failed_shard_name(&self) -> (res: Option<String>)
        ensures
            res.is_some() <==> first_failing_from(self.shards@, 0) < self.shards@.len(),
            res.is_some() ==> res.unwrap()@ == self.shards@[first_failing_from(
                self.shards@,
                0,
            )].name@,
    {
        let mut i: usize = 0;
        while i < self.shards.len()
            invariant
                i <= self.shards@.len(),
                first_failing_from(self.shards@, 0) == first_failing_from(self.shards@, i as int),
            decreases self.shards@.len() - i,
        {
            if !self.shards[i].pass {
                return Some(self.shards[i].name.clone());
            }
            i += 1;
        }
        None
    }
}

/// What the envelope collaborators report about the request.
#[derive(Debug, Clone, Copy, PartialEq, Eq, Structural)]
pub struct EnvelopeContextView {
    /// The request comes from a purely diagnostic path.
    pub diag_event: bool,
    /// An envelope invariant is violated.
    pub envelope_violation: bool,
}

impl EnvelopeContextView {
    /// Whether the request comes from a purely diagnostic path.
    pub fn diag_event(&self) -> (res: bool)
        ensures
            res == self.diag_event,
    {
        self.diag_event
    }

    /// Whether an envelope invariant is violated.
    pub fn envelope_violation(&self) -> (res: bool)
        ensures
            res == self.envelope_violation,
    {
        self.envelope_violation
    }
}

/// Everything that the evaluation reads. Pure data: evaluating it has no side effect.
#[derive(Debug, Clone)]
pub struct ReversalContext<'a> {
    /// The transition that is asked for.
    pub base: &'a CapabilityTransitionRequest,
    /// Risk of harm before the transition.
    pub roh_before: RoHScore,
    /// Projected risk of harm after the transition.
    pub roh_after: RoHScore,
    pub reversal_flags: ReversalPolicyFlags,
    /// The roles of the requester.
    pub roles: &'a RoleSet,
    /// The least regulator quorum that a downgrade needs.
    pub required_reg_quorum: u8,
    pub policy_stack: &'a PolicyStack,
    pub envelope_ctx: &'a EnvelopeContextView,
}

/// Why a transition is denied.
#[derive(Debug, Clone, PartialEq, Eq)]
pub enum DecisionReason {
    DeniedDiagnosticOnlyStep,
    DeniedRoHViolation,
    DeniedReversalNotAllowedInTier,
    DeniedIllegalDowngradeByNonRegulator,
    DeniedNoSaferAlternativeNotProved,
    /// Carries the name of the first failing shard.
    DeniedPolicyStackFailure(String),
    DeniedEnvelopeViolation,
}

/// The answer to a transition request.
#[derive(Debug, Clone, PartialEq, Eq)]
pub enum Decision {
    Allowed,
    Denied(DecisionReason),
}

/// A denial reason as a mathematical value.
pub enum ReasonView {
    DiagnosticOnlyStep,
    RoHViolation,
    ReversalNotAllowedInTier,
    IllegalDowngradeByNonRegulator,
    NoSaferAlternativeNotProved,
    PolicyStackFailure(Seq<char>),
    EnvelopeViolation,
}

/// A decision as a mathematical value.
pub enum DecisionView {
    Allowed,
    Denied(ReasonView),
}

impl View for DecisionReason {
    type V = ReasonView;

    open spec fn view(&self) -> ReasonView {
        match self {
            DecisionReason::DeniedDiagnosticOnlyStep => ReasonView::DiagnosticOnlyStep,
            DecisionReason::DeniedRoHViolation => ReasonView::RoHViolation,
            DecisionReason::DeniedReversalNotAllowedInTier => ReasonView::ReversalNotAllowedInTier,
            DecisionReason::DeniedIllegalDowngradeByNonRegulator => {
                ReasonView::IllegalDowngradeByNonRegulator
            },
            DecisionReason::DeniedNoSaferAlternativeNotProved => {
                ReasonView::NoSaferAlternativeNotProved
            },
            DecisionReason::DeniedPolicyStackFailure(name) => ReasonView::PolicyStackFailure(name@),
            DecisionReason::DeniedEnvelopeViolation => ReasonView::EnvelopeViolation,
        }
    }
}

impl View for Decision {
    type V = DecisionView;

    open spec fn view(&self) -> DecisionView {
        match self {
            Decision::Allowed => DecisionView::Allowed,
            Decision::Denied(reason) => DecisionView::Denied(reason@),
        }
    }
}

/// The step of the sequence that settles a request.
#[derive(Debug, Clone, Copy, PartialEq, Eq, Structural)]
pub enum ReversalStep {
    /// Denied: the request comes from a diagnostic-only path.
    DiagnosticOnly,
    /// Denied: in the controlled tier the projected risk falls below the
    /// risk before, or exceeds the ceiling.
    RoHViolation,
    /// Not a downgrade: the generic transition evaluator decides.
    Delegate,
    /// Denied: downgrades are not enabled.
    ReversalNotAllowed,
    /// Denied: a required role is missing or the quorum is too small.
    IllegalDowngrade,
    /// Denied: no explicit order, or no proof that no safer alternative
    /// exists.
    NoSaferAlternative,
    /// Denied: the policy stack does not report all-pass.
    PolicyStackFailure,
    /// Denied: an envelope invariant is violated.
    EnvelopeViolation,
    /// Every step passed.
    Allow,
}

/// The state is the controlled-human tier.
pub open spec fn controlled_human(state: CapabilityState) -> bool {
    state == CapabilityState::CapControlledHuman
}

/// The transition is a downgrade: it strictly decreases the tier.
pub open spec fn evolution_downgrade(from: CapabilityState, to: CapabilityState) -> bool {
    to.rank() < from.rank()
}

/// The projected risk breaks monotonicity or the ceiling.
pub open spec fn roh_out_of_bounds(before: RoHScore, after: RoHScore) -> bool {
    after.value < before.value || after.value > after.ceiling
}

/// The step that settles the request of `ctx`: the first of the sequence
/// that does not pass.
pub open spec fn deciding_step(ctx: &ReversalContext) -> ReversalStep {
    if ctx.envelope_ctx.diag_event {
        ReversalStep::DiagnosticOnly
    } else if controlled_human(ctx.base.from) && roh_out_of_bounds(ctx.roh_before, ctx.roh_after) {
        ReversalStep::RoHViolation
    } else if !evolution_downgrade(ctx.base.from, ctx.base.to) {
        ReversalStep::Delegate
    } else if !ctx.reversal_flags.allow_neuromorph_reversal {
        ReversalStep::ReversalNotAllowed
    } else if !ctx.roles.sovereign_quorum(ctx.required_reg_quorum) {
        ReversalStep::IllegalDowngrade
    } else if !ctx.reversal_flags.explicit_reversal_order
        || !ctx.reversal_flags.no_safer_alternative {
        ReversalStep::NoSaferAlternative
    } else if !ctx.policy_stack.passes() {
        ReversalStep::PolicyStackFailure
    } else if ctx.envelope_ctx.envelope_violation {
        ReversalStep::EnvelopeViolation
    } else {
        ReversalStep::Allow
    }
}

/// The decision that a step gives. `delegated` is the answer of the generic
/// transition evaluator, which is returned unchanged for a transition that
/// is no downgrade.
pub open spec fn step_decision(
    step: ReversalStep,
    failure_name: Seq<char>,
    delegated: DecisionView,
) -> DecisionView {
    match step {
        ReversalStep::DiagnosticOnly => DecisionView::Denied(ReasonView::DiagnosticOnlyStep),
        ReversalStep::RoHViolation => DecisionView::Denied(ReasonView::RoHViolation),
        ReversalStep::Delegate => delegated,
        ReversalStep::ReversalNotAllowed => DecisionView::Denied(
            ReasonView::ReversalNotAllowedInTier,
        ),
        ReversalStep::IllegalDowngrade => DecisionView::Denied(
            ReasonView::IllegalDowngradeByNonRegulator,
        ),
        ReversalStep::NoSaferAlternative => DecisionView::Denied(
            ReasonView::NoSaferAlternativeNotProved,
        ),
        ReversalStep::PolicyStackFailure => DecisionView::Denied(
            ReasonView::PolicyStackFailure(failure_name),
        ),
        ReversalStep::EnvelopeViolation => DecisionView::Denied(ReasonView::EnvelopeViolation),
        ReversalStep::Allow => DecisionView::Allowed,
    }
}

/// The decision on `ctx`.
pub open spec fn reversal_decision(ctx: &ReversalContext, delegated: DecisionView) -> DecisionView {
    step_decision(deciding_step(ctx), ctx.policy_stack.failure_name(), delegated)
}

/// Whether `state` is the controlled-human tier.
pub fn is_cap_controlled_human(state: CapabilityState) -> (res: bool)
    ensures
        res == controlled_human(state),
{
    match state {
        CapabilityState::CapControlledHuman => true,
        _ => false,
    }
}

/// Whether the transition strictly decreases the tier.
pub fn is_neuromorph_evolution_downgrade(from: CapabilityState, to: CapabilityState) -> (res: bool)
    ensures
        res == evolution_downgrade(from, to),
{
    to.tier_rank() < from.tier_rank()
}

/// Finds the step that settles the request. Total: every context is settled
/// by exactly one step.
pub fn classify_reversal(ctx: &ReversalContext) -> (step: ReversalStep)
    ensures
        step == deciding_step(ctx),
{
    if ctx.envelope_ctx.diag_event() {
        return ReversalStep::DiagnosticOnly;
    }
    if is_cap_controlled_human(ctx.base.from_state()) {
        if ctx.roh_after.value() < ctx.roh_before.value() || ctx.roh_after.value()
            > ctx.roh_after.ceiling() {
            return ReversalStep::RoHViolation;
        }
    }
    if !is_neuromorph_evolution_downgrade(ctx.base.from_state(), ctx.base.to_state()) {
        return ReversalStep::Delegate;
    }
    if !ctx.reversal_flags.allow_neuromorph_reversal {
        return ReversalStep::ReversalNotAllowed;
    }
    if !ctx.roles.neuromorph_god_satisfied(ctx.required_reg_quorum) {
        return ReversalStep::IllegalDowngrade;
    }
    if !ctx.reversal_flags.explicit_reversal_order || !ctx.reversal_flags.no_safer_alternative {
        return ReversalStep::NoSaferAlternative;
    }
    if !ctx.policy_stack.all_pass() {
        return ReversalStep::PolicyStackFailure;
    }
    if ctx.envelope_ctx.envelope_violation() {
        return ReversalStep::EnvelopeViolation;
    }
    ReversalStep::Allow
}

/// Evaluates a capability-tier transition. `delegated` is the answer of the
/// generic transition evaluator for the same request; it is returned
/// unchanged when the transition is no downgrade, and is not read otherwise.
pub fn evaluate_reversal(ctx: &ReversalContext, delegated: Decision) -> (decision: Decision)
    ensures
        decision@ == reversal_decision(ctx, delegated@),
{
    match classify_reversal(ctx) {
        ReversalStep::DiagnosticOnly => Decision::Denied(DecisionReason::DeniedDiagnosticOnlyStep),
        ReversalStep::RoHViolation => Decision::Denied(DecisionReason::DeniedRoHViolation),
        ReversalStep::Delegate => delegated,
        ReversalStep::ReversalNotAllowed => Decision::Denied(
            DecisionReason::DeniedReversalNotAllowedInTier,
        ),
        ReversalStep::IllegalDowngrade => Decision::Denied(
            DecisionReason::DeniedIllegalDowngradeByNonRegulator,
        ),
        ReversalStep::NoSaferAlternative => Decision::Denied(
            DecisionReason::DeniedNoSaferAlternativeNotProved,
        ),
        ReversalStep::PolicyStackFailure => {
            let name = match ctx.policy_stack.failed_shard_name() {
                Some(name) => name,
                None => "UNKNOWN".to_owned(),
            };
            Decision::Denied(DecisionReason::DeniedPolicyStackFailure(name))
        },
        ReversalStep::EnvelopeViolation => Decision::Denied(
            DecisionReason::DeniedEnvelopeViolation,
        ),
        ReversalStep::Allow => Decision::Allowed,
    }
}

/// Totality: every context is settled by exactly one step, and
/// each step settles exactly the contexts that pass every step before it and
/// fail it. In particular a request is allowed only if it passes all steps.
pub proof fn lemma_reversal_steps_partition(ctx: &ReversalContext)
    ensures
        deciding_step(ctx) == ReversalStep::DiagnosticOnly <==> ctx.envelope_ctx.diag_event,
        deciding_step(ctx) == ReversalStep::RoHViolation <==> !ctx.envelope_ctx.diag_event
            && controlled_human(ctx.base.from) && roh_out_of_bounds(ctx.roh_before, ctx.roh_after),
        deciding_step(ctx) == ReversalStep::Delegate <==> !ctx.envelope_ctx.diag_event && !(
        controlled_human(ctx.base.from) && roh_out_of_bounds(ctx.roh_before, ctx.roh_after))
            && !evolution_downgrade(ctx.base.from, ctx.base.to),
        deciding_step(ctx) == ReversalStep::ReversalNotAllowed <==> {
            &&& !ctx.envelope_ctx.diag_event
            &&& !(controlled_human(ctx.base.from) && roh_out_of_bounds(
                ctx.roh_before,
                ctx.roh_after,
            ))
            &&& evolution_downgrade(ctx.base.from, ctx.base.to)
            &&& !ctx.reversal_flags.allow_neuromorph_reversal
        },
        deciding_step(ctx) == ReversalStep::IllegalDowngrade <==> {
            &&& !ctx.envelope_ctx.diag_event
            &&& !(controlled_human(ctx.base.from) && roh_out_of_bounds(
                ctx.roh_before,
                ctx.roh_after,
            ))
            &&& evolution_downgrade(ctx.base.from, ctx.base.to)
            &&& ctx.reversal_flags.allow_neuromorph_reversal
            &&& !ctx.roles.sovereign_quorum(ctx.required_reg_quorum)
        },
        deciding_step(ctx) == ReversalStep::NoSaferAlternative <==> {
            &&& !ctx.envelope_ctx.diag_event
            &&& !(controlled_human(ctx.base.from) && roh_out_of_bounds(
                ctx.roh_before,
                ctx.roh_after,
            ))
            &&& evolution_downgrade(ctx.base.from, ctx.base.to)
            &&& ctx.reversal_flags.allow_neuromorph_reversal
            &&& ctx.roles.sovereign_quorum(ctx.required_reg_quorum)
            &&& !(ctx.reversal_flags.explicit_reversal_order
                && ctx.reversal_flags.no_safer_alternative)
        },
        deciding_step(ctx) == ReversalStep::PolicyStackFailure <==> {
            &&& !ctx.envelope_ctx.diag_event
            &&& !(controlled_human(ctx.base.from) && roh_out_of_bounds(
                ctx.roh_before,
                ctx.roh_after,
            ))
            &&& evolution_downgrade(ctx.base.from, ctx.base.to)
            &&& ctx.reversal_flags.allow_neuromorph_reversal
            &&& ctx.roles.sovereign_quorum(ctx.required_reg_quorum)
            &&& ctx.reversal_flags.explicit_reversal_order
            &&& ctx.reversal_flags.no_safer_alternative
            &&& !ctx.policy_stack.passes()
        },
        deciding_step(ctx) == ReversalStep::EnvelopeViolation <==> {
            &&& !ctx.envelope_ctx.diag_event
            &&& !(controlled_human(ctx.base.from) && roh_out_of_bounds(
                ctx.roh_before,
                ctx.roh_after,
            ))
            &&& evolution_downgrade(ctx.base.from, ctx.base.to)
            &&& ctx.reversal_flags.allow_neuromorph_reversal
            &&& ctx.roles.sovereign_quorum(ctx.required_reg_quorum)
            &&& ctx.reversal_flags.explicit_reversal_order
            &&& ctx.reversal_flags.no_safer_alternative
            &&& ctx.policy_stack.passes()
            &&& ctx.envelope_ctx.envelope_violation
        },
        deciding_step(ctx) == ReversalStep::Allow <==> {
            &&& !ctx.envelope_ctx.diag_event
            &&& !(controlled_human(ctx.base.from) && roh_out_of_bounds(
                ctx.roh_before,
                ctx.roh_after,
            ))
            &&& evolution_downgrade(ctx.base.from, ctx.base.to)
            &&& ctx.reversal_flags.allow_neuromorph_reversal
            &&& ctx.roles.sovereign_quorum(ctx.required_reg_quorum)
            &&& ctx.reversal_flags.explicit_reversal_order
            &&& ctx.reversal_flags.no_safer_alternative
            &&& ctx.policy_stack.passes()
            &&& !ctx.envelope_ctx.envelope_violation
        },
        forall|delegated: DecisionView|
            deciding_step(ctx) != ReversalStep::Delegate ==> #[trigger] reversal_decision(
                ctx,
                delegated,
            ) == reversal_decision(ctx, DecisionView::Allowed),
        forall|delegated: DecisionView|
            #[trigger] reversal_decision(ctx, delegated) == DecisionView::Allowed ==> deciding_step(
                ctx,
            ) == ReversalStep::Allow || (deciding_step(ctx) == ReversalStep::Delegate && delegated
                == DecisionView::Allowed),
{
}

} // verus!
