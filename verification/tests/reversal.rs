use governance_corridor::reversal::{
    classify_reversal, evaluate_reversal, is_cap_controlled_human,
    is_neuromorph_evolution_downgrade, CapabilityState, CapabilityTransitionRequest, Decision,
    DecisionReason, EnvelopeContextView, PolicyShard, PolicyStack, ReversalContext,
    ReversalPolicyFlags, ReversalStep, RoHScore, DEFAULT_ROH_CEILING,
};
use governance_corridor::roles::{can_revert_capability, Role, RoleSet};

struct Fixture {
    base: CapabilityTransitionRequest,
    roh_before: RoHScore,
    roh_after: RoHScore,
    flags: ReversalPolicyFlags,
    roles: RoleSet,
    quorum: u8,
    stack: PolicyStack,
    envelope: EnvelopeContextView,
}

impl Fixture {
    fn passing() -> Fixture {
        Fixture {
            base: CapabilityTransitionRequest {
                from: CapabilityState::CapControlledHuman,
                to: CapabilityState::CapLabBench,
            },
            roh_before: RoHScore::new(100_000),
            roh_after: RoHScore::new(200_000),
            flags: ReversalPolicyFlags {
                allow_neuromorph_reversal: true,
                explicit_reversal_order: true,
                no_safer_alternative: true,
            },
            roles: RoleSet {
                roles: vec![Role::Host, Role::OrganicCpuOwner, Role::SovereignKernel],
                regulator_quorum: 2,
            },
            quorum: 2,
            stack: PolicyStack {
                shards: vec![
                    PolicyShard { name: "BASEMEDICAL".to_string(), pass: true },
                    PolicyShard { name: "JURISLOCAL".to_string(), pass: true },
                    PolicyShard { name: "QUANTUMAISAFETY".to_string(), pass: true },
                ],
            },
            envelope: EnvelopeContextView { diag_event: false, envelope_violation: false },
        }
    }

    fn ctx(&self) -> ReversalContext<'_> {
        ReversalContext {
            base: &self.base,
            roh_before: self.roh_before,
            roh_after: self.roh_after,
            reversal_flags: self.flags,
            roles: &self.roles,
            required_reg_quorum: self.quorum,
            policy_stack: &self.stack,
            envelope_ctx: &self.envelope,
        }
    }

    fn decide(&self) -> Decision {
        evaluate_reversal(&self.ctx(), Decision::Denied(DecisionReason::DeniedEnvelopeViolation))
    }
}

#[test]
fn passing_every_step_is_allowed() {
    let f = Fixture::passing();
    assert_eq!(classify_reversal(&f.ctx()), ReversalStep::Allow);
    assert_eq!(f.decide(), Decision::Allowed);
}

#[test]
fn diagnostic_origin_is_denied_first() {
    let mut f = Fixture::passing();
    f.envelope.diag_event = true;
    f.envelope.envelope_violation = true;
    f.flags.allow_neuromorph_reversal = false;
    f.roh_after = RoHScore::new(900_000);
    assert_eq!(classify_reversal(&f.ctx()), ReversalStep::DiagnosticOnly);
    assert_eq!(f.decide(), Decision::Denied(DecisionReason::DeniedDiagnosticOnlyStep));
}

#[test]
fn controlled_tier_enforces_risk_bounds() {
    let mut f = Fixture::passing();
    f.roh_after = RoHScore::new(99_999);
    assert_eq!(f.decide(), Decision::Denied(DecisionReason::DeniedRoHViolation));
    f.roh_after = RoHScore::new(100_000);
    assert_eq!(f.decide(), Decision::Allowed);
    f.roh_after = RoHScore::new(DEFAULT_ROH_CEILING);
    assert_eq!(f.decide(), Decision::Allowed);
    f.roh_after = RoHScore::new(DEFAULT_ROH_CEILING + 1);
    assert_eq!(f.decide(), Decision::Denied(DecisionReason::DeniedRoHViolation));
    f.roh_after = RoHScore { value: 350_000, ceiling: 400_000 };
    assert_eq!(f.decide(), Decision::Allowed);
    // Outside the controlled tier the bounds are not enforced.
    f.base.from = CapabilityState::CapGeneralUse;
    f.roh_after = RoHScore::new(900_000);
    assert_eq!(f.decide(), Decision::Allowed);
}

#[test]
fn non_downgrade_is_delegated_unchanged() {
    let mut f = Fixture::passing();
    f.base = CapabilityTransitionRequest {
        from: CapabilityState::CapLabBench,
        to: CapabilityState::CapControlledHuman,
    };
    f.flags.allow_neuromorph_reversal = false;
    assert_eq!(classify_reversal(&f.ctx()), ReversalStep::Delegate);
    assert_eq!(evaluate_reversal(&f.ctx(), Decision::Allowed), Decision::Allowed);
    let denied = Decision::Denied(DecisionReason::DeniedPolicyStackFailure("X".to_string()));
    assert_eq!(evaluate_reversal(&f.ctx(), denied.clone()), denied);
    f.base.to = CapabilityState::CapLabBench;
    assert_eq!(classify_reversal(&f.ctx()), ReversalStep::Delegate);
}

#[test]
fn downgrades_are_denied_by_default() {
    let mut f = Fixture::passing();
    f.flags.allow_neuromorph_reversal = false;
    assert_eq!(f.decide(), Decision::Denied(DecisionReason::DeniedReversalNotAllowedInTier));
}

#[test]
fn scenario_missing_role_tag_is_illegal_downgrade() {
    for missing in [Role::Host, Role::OrganicCpuOwner, Role::SovereignKernel] {
        let mut f = Fixture::passing();
        f.roles.roles.retain(|r| *r != missing);
        f.roles.roles.push(Role::Regulator);
        assert_eq!(classify_reversal(&f.ctx()), ReversalStep::IllegalDowngrade);
        assert_eq!(
            f.decide(),
            Decision::Denied(DecisionReason::DeniedIllegalDowngradeByNonRegulator)
        );
    }
}

#[test]
fn quorum_below_minimum_is_illegal_downgrade() {
    let mut f = Fixture::passing();
    f.quorum = 3;
    assert_eq!(f.decide(), Decision::Denied(DecisionReason::DeniedIllegalDowngradeByNonRegulator));
    f.roles.regulator_quorum = 3;
    assert_eq!(f.decide(), Decision::Allowed);
}

#[test]
fn both_order_and_alternative_flags_are_needed() {
    let mut f = Fixture::passing();
    f.flags.explicit_reversal_order = false;
    assert_eq!(f.decide(), Decision::Denied(DecisionReason::DeniedNoSaferAlternativeNotProved));
    let mut f = Fixture::passing();
    f.flags.no_safer_alternative = false;
    assert_eq!(f.decide(), Decision::Denied(DecisionReason::DeniedNoSaferAlternativeNotProved));
}

#[test]
fn policy_stack_failure_names_the_first_failing_shard() {
    let mut f = Fixture::passing();
    f.stack.shards[1].pass = false;
    f.stack.shards[2].pass = false;
    assert!(!f.stack.all_pass());
    assert_eq!(f.stack.failed_shard_name(), Some("JURISLOCAL".to_string()));
    assert_eq!(
        f.decide(),
        Decision::Denied(DecisionReason::DeniedPolicyStackFailure("JURISLOCAL".to_string()))
    );
}

#[test]
fn missing_policy_aggregate_is_denied() {
    let mut f = Fixture::passing();
    f.stack.shards.clear();
    assert!(!f.stack.all_pass());
    assert_eq!(f.stack.failed_shard_name(), None);
    assert_eq!(
        f.decide(),
        Decision::Denied(DecisionReason::DeniedPolicyStackFailure("UNKNOWN".to_string()))
    );
}

#[test]
fn envelope_violation_is_the_last_step() {
    let mut f = Fixture::passing();
    f.envelope.envelope_violation = true;
    assert_eq!(f.decide(), Decision::Denied(DecisionReason::DeniedEnvelopeViolation));
}

#[test]
fn earlier_step_wins_over_later_ones() {
    let mut f = Fixture::passing();
    f.envelope.envelope_violation = true;
    f.stack.shards[0].pass = false;
    assert_eq!(classify_reversal(&f.ctx()), ReversalStep::PolicyStackFailure);
    f.flags.no_safer_alternative = false;
    assert_eq!(classify_reversal(&f.ctx()), ReversalStep::NoSaferAlternative);
    f.roles.roles.clear();
    assert_eq!(classify_reversal(&f.ctx()), ReversalStep::IllegalDowngrade);
    f.flags.allow_neuromorph_reversal = false;
    assert_eq!(classify_reversal(&f.ctx()), ReversalStep::ReversalNotAllowed);
    f.roh_after = RoHScore::new(0);
    assert_eq!(classify_reversal(&f.ctx()), ReversalStep::RoHViolation);
    f.envelope.diag_event = true;
    assert_eq!(classify_reversal(&f.ctx()), ReversalStep::DiagnosticOnly);
}

#[test]
fn every_flag_combination_gives_one_outcome() {
    let tiers = [
        CapabilityState::CapModelOnly,
        CapabilityState::CapLabBench,
        CapabilityState::CapControlledHuman,
        CapabilityState::CapGeneralUse,
    ];
    let mut allowed = 0;
    let mut total = 0;
    for from in tiers {
        for to in tiers {
            for bits in 0u32..64 {
                let mut f = Fixture::passing();
                f.base = CapabilityTransitionRequest { from, to };
                f.envelope.diag_event = bits & 1 != 0;
                f.envelope.envelope_violation = bits & 2 != 0;
                f.flags.allow_neuromorph_reversal = bits & 4 == 0;
                f.flags.explicit_reversal_order = bits & 8 == 0;
                f.flags.no_safer_alternative = bits & 16 == 0;
                f.stack.shards[0].pass = bits & 32 == 0;
                let step = classify_reversal(&f.ctx());
                let decision = evaluate_reversal(&f.ctx(), Decision::Allowed);
                total += 1;
                match step {
                    ReversalStep::Allow => {
                        assert_eq!(bits, 0);
                        assert!(to.tier_rank() < from.tier_rank());
                        assert_eq!(decision, Decision::Allowed);
                        allowed += 1;
                    }
                    ReversalStep::Delegate => {
                        assert!(to.tier_rank() >= from.tier_rank());
                        assert_eq!(decision, Decision::Allowed);
                    }
                    _ => assert!(matches!(decision, Decision::Denied(_))),
                }
            }
        }
    }
    assert_eq!(total, 16 * 64);
    assert_eq!(allowed, 6);
}

#[test]
fn downgrade_is_any_strictly_decreasing_transition() {
    let (model, bench, human, general) = (
        CapabilityState::CapModelOnly,
        CapabilityState::CapLabBench,
        CapabilityState::CapControlledHuman,
        CapabilityState::CapGeneralUse,
    );
    assert!(is_neuromorph_evolution_downgrade(human, bench));
    assert!(is_neuromorph_evolution_downgrade(human, model));
    assert!(is_neuromorph_evolution_downgrade(general, human));
    assert!(is_neuromorph_evolution_downgrade(general, bench));
    assert!(is_neuromorph_evolution_downgrade(general, model));
    assert!(is_neuromorph_evolution_downgrade(bench, model));
    assert!(!is_neuromorph_evolution_downgrade(model, model));
    assert!(!is_neuromorph_evolution_downgrade(model, general));
    assert!(!is_neuromorph_evolution_downgrade(bench, human));
    assert!(is_cap_controlled_human(human));
    assert!(!is_cap_controlled_human(general));
    assert_eq!(model.tier_rank(), 0);
    assert_eq!(bench.tier_rank(), 1);
    assert_eq!(human.tier_rank(), 2);
    assert_eq!(general.tier_rank(), 3);
}

#[test]
fn role_set_membership_and_quorum() {
    let roles = RoleSet {
        roles: vec![Role::Host, Role::OrganicCpuOwner, Role::SovereignKernel, Role::Mentor],
        regulator_quorum: 2,
    };
    assert!(roles.has(Role::Host));
    assert!(roles.has(Role::Mentor));
    assert!(!roles.has(Role::Regulator));
    assert!(roles.neuromorph_god_satisfied(2));
    assert!(roles.neuromorph_god_satisfied(0));
    assert!(!roles.neuromorph_god_satisfied(3));
    assert!(can_revert_capability(&roles, 2, true, true));
    assert!(!can_revert_capability(&roles, 2, false, true));
    assert!(!can_revert_capability(&roles, 2, true, false));
    assert!(!can_revert_capability(&roles, 3, true, true));
    let empty = RoleSet { roles: vec![], regulator_quorum: 9 };
    assert!(!empty.has(Role::Host));
    assert!(!empty.neuromorph_god_satisfied(0));
}

#[test]
fn risk_scores_carry_their_ceiling() {
    let s = RoHScore::new(123);
    assert_eq!(s.value(), 123);
    assert_eq!(s.ceiling(), 300_000);
    let r = CapabilityTransitionRequest {
        from: CapabilityState::CapGeneralUse,
        to: CapabilityState::CapModelOnly,
    };
    assert_eq!(r.from_state(), CapabilityState::CapGeneralUse);
    assert_eq!(r.to_state(), CapabilityState::CapModelOnly);
    let e = EnvelopeContextView { diag_event: true, envelope_violation: false };
    assert!(e.diag_event());
    assert!(!e.envelope_violation());
}
