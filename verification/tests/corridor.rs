use governance_corridor::gates::{
    apply_corridor_rules, evaluate_gates, standard_gates, violated_gates, CorridorDecision,
    CorridorReason, Gate,
};
use governance_corridor::limits::{
    CorridorLimits, DowngradePolicy, NeurorightsConfig, RightToExistConfig, ZoneLimits,
};
use governance_corridor::model::{
    Deed, DeedKind, JusticeMetrics, NeurorightsBand, PredictedDeltas, SiteView,
};
use governance_corridor::predictor::predict_scalars;
use governance_corridor::scalar::{add_saturating, add_unit_clamped, clamp, UNIT};
use governance_corridor::verdict::check_right_to_exist_corridor;

fn limits(b_max: i64) -> CorridorLimits {
    CorridorLimits {
        b_max,
        bioload_max: 800_000,
        temp_max: 40_000_000,
        heart_rate_max: 180_000_000,
        hpcc_max: 900_000,
        erg_max: 900_000,
        tecr_max: 900_000,
    }
}

fn config(b_max: i64, soften: bool) -> RightToExistConfig {
    RightToExistConfig {
        zones: vec![ZoneLimits { zone: 7, limits: limits(b_max) }],
        default_limits: limits(0),
        neurorights: NeurorightsConfig { guarded_from: 500_000, non_actuating_from: 950_000 },
        downgrade: DowngradePolicy {
            ecological_sharing: soften,
            resource_aid: soften,
            math_science_education: soften,
            minor_disturbance: false,
        },
    }
}

fn site() -> SiteView {
    SiteView {
        index: 3,
        biosignature1d: 100_000,
        bioload: 200_000,
        local_temp: 36_500_000,
        heart_rate: 70_000_000,
    }
}

fn no_deltas() -> PredictedDeltas {
    PredictedDeltas {
        b_delta: 0,
        bioload_delta: 0,
        temp_delta: 0,
        heart_delta: 0,
        hpcc_delta: 0,
        erg_delta: 0,
        tecr_delta: 0,
    }
}

fn deed(kind: DeedKind, b_delta: i64) -> Deed {
    Deed { kind, zone: 7, deltas: PredictedDeltas { b_delta, ..no_deltas() } }
}

fn justice() -> JusticeMetrics {
    JusticeMetrics { hpcc: 100_000, erg: 200_000, tecr: 300_000 }
}

#[test]
fn scenario_within_rail_is_allowed() {
    let cfg = config(200_000, true);
    let v = check_right_to_exist_corridor(
        1,
        &site(),
        &deed(DeedKind::ResourceAid, 50_000),
        &justice(),
        &cfg,
        "",
    );
    assert_eq!(v.decision, CorridorDecision::Allow);
    assert_eq!(v.reason, CorridorReason::Okay);
    assert_eq!(v.scalars.b_before, 100_000);
    assert_eq!(v.scalars.b_after, 150_000);
    assert_eq!(v.primary_site, 3);
    assert_eq!(v.tick, 1);
    assert_eq!(v.deed, DeedKind::ResourceAid);
}

#[test]
fn scenario_rail_exceeded_is_downscaled() {
    let cfg = config(120_000, true);
    let v = check_right_to_exist_corridor(
        1,
        &site(),
        &deed(DeedKind::ResourceAid, 50_000),
        &justice(),
        &cfg,
        "",
    );
    assert_eq!(v.decision, CorridorDecision::Downscale);
    assert_eq!(v.reason, CorridorReason::BioRailExceeded);
}

#[test]
fn rail_exceeded_without_softening_is_denied() {
    let cfg = config(120_000, true);
    let v = check_right_to_exist_corridor(
        1,
        &site(),
        &deed(DeedKind::MinorDisturbance, 50_000),
        &justice(),
        &cfg,
        "",
    );
    assert_eq!(v.decision, CorridorDecision::Deny);
    assert_eq!(v.reason, CorridorReason::BioRailExceeded);
}

#[test]
fn rail_exactly_at_ceiling_is_allowed() {
    let cfg = config(150_000, true);
    let s = predict_scalars(&site(), &deed(DeedKind::ResourceAid, 50_000), &justice(), &cfg.neurorights);
    let out = apply_corridor_rules(&s, &deed(DeedKind::ResourceAid, 50_000), &cfg);
    assert_eq!(out, (CorridorDecision::Allow, CorridorReason::Okay));
    let cfg = config(149_999, true);
    let out = apply_corridor_rules(&s, &deed(DeedKind::ResourceAid, 50_000), &cfg);
    assert_eq!(out, (CorridorDecision::Downscale, CorridorReason::BioRailExceeded));
}

#[test]
fn unlisted_zone_gets_default_limits() {
    let cfg = config(200_000, true);
    assert_eq!(cfg.limits_for_zone(7), limits(200_000));
    assert_eq!(cfg.limits_for_zone(8), limits(0));
    let mut d = deed(DeedKind::ResourceAid, 50_000);
    d.zone = 8;
    let v = check_right_to_exist_corridor(1, &site(), &d, &justice(), &cfg, "");
    assert_eq!(v.decision, CorridorDecision::Downscale);
    assert_eq!(v.reason, CorridorReason::BioRailExceeded);
}

#[test]
fn first_entry_of_a_zone_counts() {
    let mut cfg = config(200_000, true);
    cfg.zones.push(ZoneLimits { zone: 7, limits: limits(1) });
    assert_eq!(cfg.limits_for_zone(7), limits(200_000));
}

#[test]
fn predictor_clamps_rail_and_bioload_to_unit_interval() {
    let cfg = config(200_000, true);
    let mut d = deed(DeedKind::ResourceAid, 2_000_000);
    d.deltas.bioload_delta = -900_000;
    d.deltas.temp_delta = 1_500_000;
    d.deltas.heart_delta = -10_000_000;
    d.deltas.hpcc_delta = 5;
    d.deltas.erg_delta = -6;
    d.deltas.tecr_delta = 7;
    let s = predict_scalars(&site(), &d, &justice(), &cfg.neurorights);
    assert_eq!(s.b_before, 100_000);
    assert_eq!(s.b_after, UNIT);
    assert_eq!(s.bioload_before, 200_000);
    assert_eq!(s.bioload_after, 0);
    assert_eq!(s.temp_before, 36_500_000);
    assert_eq!(s.temp_after, 38_000_000);
    assert_eq!(s.heart_rate_before, 70_000_000);
    assert_eq!(s.heart_rate_after, 60_000_000);
    assert_eq!((s.hpcc_before, s.hpcc_after), (100_000, 100_005));
    assert_eq!((s.erg_before, s.erg_after), (200_000, 199_994));
    assert_eq!((s.tecr_before, s.tecr_after), (300_000, 300_007));
    assert_eq!(s.neurorights_before, NeurorightsBand::Open);
    assert_eq!(s.neurorights_after, NeurorightsBand::NonActuating);
}

#[test]
fn unclamped_dimensions_saturate() {
    assert_eq!(add_saturating(i64::MAX, 1), i64::MAX);
    assert_eq!(add_saturating(i64::MIN, -1), i64::MIN);
    assert_eq!(add_saturating(-5, 7), 2);
    assert_eq!(add_unit_clamped(i64::MAX, i64::MAX), UNIT);
    assert_eq!(add_unit_clamped(i64::MIN, i64::MIN), 0);
    assert_eq!(add_unit_clamped(100_000, 50_000), 150_000);
    assert_eq!(clamp(5, 0, 3), 3);
    assert_eq!(clamp(-5, 0, 3), 0);
    assert_eq!(clamp(2, 0, 3), 2);
}

#[test]
fn neurorights_bands_by_threshold() {
    let nr = NeurorightsConfig { guarded_from: 500_000, non_actuating_from: 950_000 };
    assert_eq!(nr.neurorights_band(499_999), NeurorightsBand::Open);
    assert_eq!(nr.neurorights_band(500_000), NeurorightsBand::Guarded);
    assert_eq!(nr.neurorights_band(949_999), NeurorightsBand::Guarded);
    assert_eq!(nr.neurorights_band(950_000), NeurorightsBand::NonActuating);
    assert!(nr.is_non_actuating_band(NeurorightsBand::NonActuating));
    assert!(!nr.is_non_actuating_band(NeurorightsBand::Guarded));
    assert!(!nr.is_non_actuating_band(NeurorightsBand::Open));
}

#[test]
fn non_actuating_band_is_denied_even_when_softening_is_allowed() {
    let cfg = config(1_000_000, true);
    let v = check_right_to_exist_corridor(
        1,
        &site(),
        &deed(DeedKind::ResourceAid, 900_000),
        &justice(),
        &cfg,
        "",
    );
    assert_eq!(v.scalars.neurorights_after, NeurorightsBand::NonActuating);
    assert_eq!(v.decision, CorridorDecision::Deny);
    assert_eq!(v.reason, CorridorReason::NeurorightsViolated);
}

#[test]
fn earliest_violated_gate_is_reported() {
    // Temperature, rail, bioload and a justice band are all violated: the
    // thermodynamic gate stands first among them.
    let cfg = config(120_000, true);
    let mut d = deed(DeedKind::ResourceAid, 50_000);
    d.deltas.temp_delta = 10_000_000;
    d.deltas.bioload_delta = 700_000;
    d.deltas.tecr_delta = 700_000;
    let s = predict_scalars(&site(), &d, &justice(), &cfg.neurorights);
    assert_eq!(
        apply_corridor_rules(&s, &d, &cfg),
        (CorridorDecision::Downscale, CorridorReason::ThermodynamicExceeded)
    );
    // Without the temperature violation the rail is the earliest.
    d.deltas.temp_delta = 0;
    let s = predict_scalars(&site(), &d, &justice(), &cfg.neurorights);
    assert_eq!(
        apply_corridor_rules(&s, &d, &cfg),
        (CorridorDecision::Downscale, CorridorReason::BioRailExceeded)
    );
    // Without the rail violation, the bioload.
    d.deltas.b_delta = 0;
    let s = predict_scalars(&site(), &d, &justice(), &cfg.neurorights);
    assert_eq!(
        apply_corridor_rules(&s, &d, &cfg),
        (CorridorDecision::Downscale, CorridorReason::BioLoadExceeded)
    );
    // Last the justice band.
    d.deltas.bioload_delta = 0;
    let s = predict_scalars(&site(), &d, &justice(), &cfg.neurorights);
    assert_eq!(
        apply_corridor_rules(&s, &d, &cfg),
        (CorridorDecision::Downscale, CorridorReason::JusticeBandBreached)
    );
}

#[test]
fn gate_order_decides_among_simultaneous_violations() {
    let cfg = config(120_000, true);
    let mut d = deed(DeedKind::ResourceAid, 50_000);
    d.deltas.bioload_delta = 700_000;
    let s = predict_scalars(&site(), &d, &justice(), &cfg.neurorights);
    let l = limits(120_000);
    let rail_first = [Gate::BioRail, Gate::BioLoad];
    let load_first = [Gate::BioLoad, Gate::BioRail];
    assert_eq!(
        evaluate_gates(&rail_first, &s, &l, false),
        (CorridorDecision::Deny, CorridorReason::BioRailExceeded)
    );
    assert_eq!(
        evaluate_gates(&load_first, &s, &l, false),
        (CorridorDecision::Deny, CorridorReason::BioLoadExceeded)
    );
    assert_eq!(evaluate_gates(&[], &s, &l, false), (CorridorDecision::Allow, CorridorReason::Okay));
    assert_eq!(
        evaluate_gates(&[Gate::Hpcc, Gate::Erg], &s, &l, false),
        (CorridorDecision::Allow, CorridorReason::Okay)
    );
}

#[test]
fn each_gate_reports_its_reason() {
    let s = predict_scalars(
        &site(),
        &deed(DeedKind::ResourceAid, 0),
        &justice(),
        &NeurorightsConfig { guarded_from: 0, non_actuating_from: 0 },
    );
    let zero = limits(0);
    let zero = CorridorLimits {
        bioload_max: 0,
        temp_max: 0,
        heart_rate_max: 0,
        hpcc_max: 0,
        erg_max: 0,
        tecr_max: 0,
        ..zero
    };
    let expected = [
        (Gate::Temperature, CorridorReason::ThermodynamicExceeded),
        (Gate::HeartRate, CorridorReason::ThermodynamicExceeded),
        (Gate::BioRail, CorridorReason::BioRailExceeded),
        (Gate::BioLoad, CorridorReason::BioLoadExceeded),
        (Gate::Hpcc, CorridorReason::JusticeBandBreached),
        (Gate::Erg, CorridorReason::JusticeBandBreached),
        (Gate::Tecr, CorridorReason::JusticeBandBreached),
    ];
    let gates = standard_gates();
    assert_eq!(gates.len(), expected.len());
    for (i, (gate, reason)) in expected.iter().enumerate() {
        assert_eq!(gates[i], *gate);
        assert!(gate.is_violated(&s, &zero));
        assert_eq!(gate.reason_code(), *reason);
        assert_eq!(evaluate_gates(&[*gate], &s, &zero, true), (CorridorDecision::Downscale, *reason));
        assert_eq!(evaluate_gates(&[*gate], &s, &zero, false), (CorridorDecision::Deny, *reason));
    }
}

#[test]
fn tightening_a_ceiling_never_turns_a_refusal_into_allow() {
    let d = deed(DeedKind::ResourceAid, 50_000);
    let nr = NeurorightsConfig { guarded_from: 500_000, non_actuating_from: 950_000 };
    let s = predict_scalars(&site(), &d, &justice(), &nr);
    let gates = standard_gates();
    let mut b_max: i64 = 300_000;
    let mut seen_refusal = false;
    while b_max >= 0 {
        let (decision, _) = evaluate_gates(&gates, &s, &limits(b_max), true);
        if decision != CorridorDecision::Allow {
            seen_refusal = true;
        }
        if seen_refusal {
            assert_ne!(decision, CorridorDecision::Allow);
        }
        assert_eq!(decision == CorridorDecision::Allow, b_max >= 150_000);
        b_max -= 10_000;
    }
    assert!(seen_refusal);
}

#[test]
fn repeated_evaluation_gives_identical_verdicts() {
    let cfg = config(120_000, true);
    let d = deed(DeedKind::EcologicalSharing, 50_000);
    let a = check_right_to_exist_corridor(9, &site(), &d, &justice(), &cfg, "abc");
    let b = check_right_to_exist_corridor(9, &site(), &d, &justice(), &cfg, "abc");
    assert_eq!(a, b);
    assert_eq!(a.hash.len(), 64);
    let c = check_right_to_exist_corridor(10, &site(), &d, &justice(), &cfg, "abc");
    assert_ne!(a.hash, c.hash);
    let e = check_right_to_exist_corridor(9, &site(), &d, &justice(), &cfg, "abd");
    assert_ne!(a.hash, e.hash);
}

#[test]
fn limits_with_a_negative_ceiling_are_rejected() {
    assert_eq!(
        CorridorLimits::new(200_000, 800_000, 40_000_000, 180_000_000, 900_000, 900_000, 900_000),
        Some(limits(200_000))
    );
    assert_eq!(CorridorLimits::new(0, 0, 0, 0, 0, 0, 0).map(|l| l.b_max), Some(0));
    assert_eq!(CorridorLimits::new(-1, 0, 0, 0, 0, 0, 0), None);
    assert_eq!(CorridorLimits::new(0, -1, 0, 0, 0, 0, 0), None);
    assert_eq!(CorridorLimits::new(0, 0, -1, 0, 0, 0, 0), None);
    assert_eq!(CorridorLimits::new(0, 0, 0, -1, 0, 0, 0), None);
    assert_eq!(CorridorLimits::new(0, 0, 0, 0, -1, 0, 0), None);
    assert_eq!(CorridorLimits::new(0, 0, 0, 0, 0, -1, 0), None);
    assert_eq!(CorridorLimits::new(0, 0, 0, 0, 0, 0, -1), None);
}

#[test]
fn downgrade_policy_is_per_kind() {
    let p = DowngradePolicy {
        ecological_sharing: true,
        resource_aid: false,
        math_science_education: true,
        minor_disturbance: false,
    };
    assert!(p.can_downscale(DeedKind::EcologicalSharing));
    assert!(!p.can_downscale(DeedKind::ResourceAid));
    assert!(p.can_downscale(DeedKind::MathScienceEducation));
    assert!(!p.can_downscale(DeedKind::MinorDisturbance));
}

#[test]
fn justice_snapshot_copies_the_metrics() {
    let snap = justice().snapshot_for_site(3);
    assert_eq!((snap.site, snap.hpcc, snap.erg, snap.tecr), (3, 100_000, 200_000, 300_000));
}

#[test]
fn full_violation_set_lists_every_violated_gate_in_order() {
    let cfg = config(120_000, true);
    let mut d = deed(DeedKind::ResourceAid, 50_000);
    d.deltas.temp_delta = 10_000_000;
    d.deltas.tecr_delta = 700_000;
    let s = predict_scalars(&site(), &d, &justice(), &cfg.neurorights);
    let gates = standard_gates();
    let l = limits(120_000);
    assert_eq!(violated_gates(&gates, &s, &l), vec![Gate::Temperature, Gate::BioRail, Gate::Tecr]);
    assert_eq!(
        evaluate_gates(&gates, &s, &l, false),
        (CorridorDecision::Deny, CorridorReason::ThermodynamicExceeded)
    );
    let calm = predict_scalars(&site(), &deed(DeedKind::ResourceAid, 0), &justice(), &cfg.neurorights);
    assert!(violated_gates(&gates, &calm, &l).is_empty());
    assert!(violated_gates(&[], &s, &l).is_empty());
}

#[test]
fn configuration_with_a_negative_ceiling_is_not_valid() {
    let mut cfg = config(200_000, true);
    assert!(cfg.validate());
    assert!(limits(0).is_valid());
    cfg.zones.push(ZoneLimits { zone: 9, limits: limits(-1) });
    assert!(!cfg.validate());
    assert!(!limits(-1).is_valid());
    let mut cfg = config(200_000, true);
    cfg.default_limits.tecr_max = -1;
    assert!(!cfg.validate());
}
