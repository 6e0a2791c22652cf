use governance_corridor::events::{
    current_timestamp, decimal_string, event_kind_at, generate_ecological_event, name_agent,
};
use governance_corridor::gates::CorridorDecision;
use governance_corridor::ledger::audit_chain;
use governance_corridor::limits::CorridorLimits;
use governance_corridor::model::{DeedKind, JusticeMetrics};
use governance_corridor::simulation::{
    is_good_deed, propose_deed, sandbox_config, site_view, step_agent, MicroAgent, MicroSociety,
    TreeOfLifeSnapshot,
};
use governance_corridor::verdict::check_right_to_exist_corridor;

#[test]
fn test_agent_update_predicates() {
    let mut agent = MicroAgent::new("test".to_string());
    agent.tree_snapshot.lifeforce = 800_000;
    agent.tree_snapshot.decay = 200_000;
    agent.tree_snapshot.fear = 100_000;
    agent.tree_snapshot.pain = 100_000;
    agent.update_predicates();
    assert!(agent.calmstable);
    assert!(!agent.overloaded);

    agent.tree_snapshot.fear = 900_000;
    agent.tree_snapshot.pain = 900_000;
    agent.tree_snapshot.decay = 800_000;
    agent.update_predicates();
    assert!(agent.overloaded);
}

#[test]
fn test_society_simulation_creates_events() {
    let mut society = MicroSociety::new(5);
    society.simulate_cycle();
    assert_eq!(society.ledger.all_events().len(), 5);
}

#[test]
fn predicate_thresholds_are_strict() {
    let mut agent = MicroAgent::new("edge".to_string());
    agent.tree_snapshot = TreeOfLifeSnapshot {
        lifeforce: 700_001,
        decay: 299_999,
        fear: 299_999,
        oxygen: 0,
        pain: 300_000,
        blood: 0,
    };
    agent.update_predicates();
    assert!(agent.calmstable && agent.recovery && !agent.overloaded && !agent.unfairdrain);
    agent.tree_snapshot.pain = 300_001;
    agent.update_predicates();
    assert!(!agent.calmstable);
    agent.tree_snapshot.pain = 0;
    agent.tree_snapshot.lifeforce = 700_000;
    agent.update_predicates();
    assert!(!agent.calmstable && agent.recovery);
    agent.tree_snapshot.lifeforce = 500_000;
    agent.update_predicates();
    assert!(!agent.recovery);
    agent.tree_snapshot.lifeforce = 900_000;
    agent.tree_snapshot.decay = 700_000;
    agent.update_predicates();
    assert!(!agent.overloaded && !agent.recovery);
    agent.tree_snapshot.decay = 700_001;
    agent.update_predicates();
    assert!(agent.overloaded);
    agent.tree_snapshot.decay = 0;
    agent.tree_snapshot.fear = 700_000;
    agent.tree_snapshot.pain = 700_000;
    agent.update_predicates();
    assert!(!agent.overloaded);
    agent.tree_snapshot.pain = 700_001;
    agent.update_predicates();
    assert!(agent.overloaded && !agent.recovery);
}

#[test]
fn events_move_the_snapshot_by_fixed_steps() {
    let mut s = TreeOfLifeSnapshot {
        lifeforce: 600_000,
        decay: 400_000,
        fear: 100_000,
        oxygen: 800_000,
        pain: 10_000,
        blood: 900_000,
    };
    s.update_from_event(true);
    assert_eq!(
        s,
        TreeOfLifeSnapshot {
            lifeforce: 650_000,
            decay: 350_000,
            fear: 80_000,
            oxygen: 800_000,
            pain: 0,
            blood: 900_000,
        }
    );
    s.update_from_event(false);
    assert_eq!(
        s,
        TreeOfLifeSnapshot {
            lifeforce: 650_000,
            decay: 370_000,
            fear: 110_000,
            oxygen: 800_000,
            pain: 30_000,
            blood: 900_000,
        }
    );
    let mut wild = TreeOfLifeSnapshot {
        lifeforce: i64::MAX,
        decay: i64::MIN,
        fear: 2_000_000,
        oxygen: -1,
        pain: 990_000,
        blood: 1_000_001,
    };
    wild.update_from_event(false);
    assert_eq!(
        wild,
        TreeOfLifeSnapshot {
            lifeforce: 1_000_000,
            decay: 0,
            fear: 1_000_000,
            oxygen: 0,
            pain: 1_000_000,
            blood: 1_000_000,
        }
    );
}

#[test]
fn lifeforce_average_rounds_toward_zero() {
    let s = TreeOfLifeSnapshot {
        lifeforce: 600_000,
        decay: 0,
        fear: 0,
        oxygen: 800_000,
        pain: 0,
        blood: 900_001,
    };
    assert_eq!(s.lifeforce_avg(), 766_667);
    let s = TreeOfLifeSnapshot { lifeforce: -1, oxygen: -1, blood: -3, ..s };
    assert_eq!(s.lifeforce_avg(), -1);
    let s = TreeOfLifeSnapshot { lifeforce: i64::MAX, oxygen: i64::MAX, blood: i64::MAX, ..s };
    assert_eq!(s.lifeforce_avg(), i64::MAX);
}

#[test]
fn new_snapshots_are_drawn_from_their_ranges() {
    let first = TreeOfLifeSnapshot::new();
    let mut varied = false;
    for _ in 0..200 {
        let s = TreeOfLifeSnapshot::new();
        assert!((500_000..1_000_000).contains(&s.lifeforce));
        assert!((0..500_000).contains(&s.decay));
        assert!((0..300_000).contains(&s.fear));
        assert!((700_000..1_000_000).contains(&s.oxygen));
        assert!((0..200_000).contains(&s.pain));
        assert!((800_000..1_000_000).contains(&s.blood));
        varied = varied || s != first;
    }
    assert!(varied);
}

#[test]
fn drawn_events_are_of_the_four_kinds() {
    let mut seen = [false; 4];
    for _ in 0..400 {
        match generate_ecological_event() {
            DeedKind::EcologicalSharing => seen[0] = true,
            DeedKind::ResourceAid => seen[1] = true,
            DeedKind::MinorDisturbance => seen[2] = true,
            DeedKind::MathScienceEducation => seen[3] = true,
        }
    }
    assert_eq!(seen, [true; 4]);
    assert_eq!(event_kind_at(0), DeedKind::EcologicalSharing);
    assert_eq!(event_kind_at(1), DeedKind::ResourceAid);
    assert_eq!(event_kind_at(2), DeedKind::MinorDisturbance);
    assert_eq!(event_kind_at(3), DeedKind::MathScienceEducation);
    assert!(is_good_deed(DeedKind::EcologicalSharing));
    assert!(is_good_deed(DeedKind::ResourceAid));
    assert!(is_good_deed(DeedKind::MathScienceEducation));
    assert!(!is_good_deed(DeedKind::MinorDisturbance));
}

#[test]
fn timestamps_are_of_this_century() {
    let now = current_timestamp();
    assert!(now > 1_600_000_000);
    assert!(now < 4_102_444_800);
}

#[test]
fn agents_are_named_by_decimal_index() {
    assert_eq!(decimal_string(0), "0");
    assert_eq!(decimal_string(7), "7");
    assert_eq!(decimal_string(10), "10");
    assert_eq!(decimal_string(1905), "1905");
    assert_eq!(decimal_string(usize::MAX), usize::MAX.to_string());
    assert_eq!(name_agent(0), "agent_0");
    assert_eq!(name_agent(42), "agent_42");
    let society = MicroSociety::new(12);
    assert_eq!(society.agents.len(), 12);
    for (i, agent) in society.agents.iter().enumerate() {
        assert_eq!(agent.id, format!("agent_{}", i));
        assert!(!agent.calmstable && !agent.overloaded && !agent.recovery && !agent.unfairdrain);
    }
    assert_eq!(society.ledger.len(), 0);
    assert_eq!(society.justice, JusticeMetrics { hpcc: 0, erg: 0, tecr: 0 });
}

#[test]
fn sandbox_corridor_is_valid() {
    let cfg = sandbox_config();
    assert!(cfg.validate());
    assert!(cfg.zones.is_empty());
    assert_eq!(
        cfg.limits_for_zone(0),
        CorridorLimits {
            b_max: 600_000,
            bioload_max: 800_000,
            temp_max: 38_500_000,
            heart_rate_max: 150_000_000,
            hpcc_max: 500_000,
            erg_max: 500_000,
            tecr_max: 500_000,
        }
    );
    assert_eq!(cfg.neurorights.guarded_from, 500_000);
    assert_eq!(cfg.neurorights.non_actuating_from, 950_000);
    assert!(cfg.downgrade.ecological_sharing && cfg.downgrade.resource_aid);
    assert!(cfg.downgrade.math_science_education && !cfg.downgrade.minor_disturbance);
}

#[test]
fn snapshot_stands_for_a_site() {
    let s = TreeOfLifeSnapshot {
        lifeforce: 600_000,
        decay: 400_000,
        fear: 100_000,
        oxygen: 800_000,
        pain: 10_000,
        blood: 900_000,
    };
    let site = site_view(&s, 4);
    assert_eq!(site.index, 4);
    assert_eq!(site.biosignature1d, 400_000);
    assert_eq!(site.bioload, 10_000);
    assert_eq!(site.local_temp, 36_700_000);
    assert_eq!(site.heart_rate, 66_000_000);
    let wild = TreeOfLifeSnapshot { decay: -4, pain: 2_000_000, fear: i64::MAX, ..s };
    let site = site_view(&wild, 0);
    assert_eq!(site.biosignature1d, 0);
    assert_eq!(site.bioload, 1_000_000);
    assert_eq!(site.local_temp, 38_500_000);
    assert_eq!(site.heart_rate, 120_000_000);

    let good = propose_deed(DeedKind::ResourceAid);
    assert_eq!(good.kind, DeedKind::ResourceAid);
    assert_eq!(good.zone, 0);
    assert_eq!(
        (good.deltas.b_delta, good.deltas.bioload_delta, good.deltas.temp_delta, good.deltas.heart_delta),
        (-50_000, -20_000, -40_000, -1_200_000)
    );
    let bad = propose_deed(DeedKind::MinorDisturbance);
    assert_eq!(
        (bad.deltas.b_delta, bad.deltas.bioload_delta, bad.deltas.temp_delta, bad.deltas.heart_delta),
        (20_000, 30_000, 60_000, 1_800_000)
    );
    assert_eq!((bad.deltas.hpcc_delta, bad.deltas.erg_delta, bad.deltas.tecr_delta), (0, 0, 0));
}

#[test]
fn one_step_judges_applies_and_seals() {
    let cfg = sandbox_config();
    let justice = JusticeMetrics { hpcc: 0, erg: 0, tecr: 0 };
    let mut agent = MicroAgent::new("agent_3".to_string());
    agent.tree_snapshot = TreeOfLifeSnapshot {
        lifeforce: 600_000,
        decay: 590_000,
        fear: 100_000,
        oxygen: 800_000,
        pain: 10_000,
        blood: 900_000,
    };
    let before = agent.tree_snapshot;
    let record = step_agent(&mut agent, 3, DeedKind::MinorDisturbance, 77, &justice, &cfg, "tip");
    assert_eq!(record.prev_hash, "tip");
    assert!(record.is_sealed());
    assert_eq!(record.self_hash, record.verdict.hash);
    assert_eq!(record.verdict.primary_site, 3);
    assert_eq!(record.verdict.tick, 77);
    assert_eq!(record.verdict.deed, DeedKind::MinorDisturbance);
    assert_eq!(record.verdict.scalars.b_before, 590_000);
    assert_eq!(record.verdict.scalars.b_after, 610_000);
    assert_eq!(record.verdict.decision, CorridorDecision::Deny);
    let expected = check_right_to_exist_corridor(
        77,
        &site_view(&before, 3),
        &propose_deed(DeedKind::MinorDisturbance),
        &justice,
        &cfg,
        "tip",
    );
    assert_eq!(record.verdict, expected);
    assert_eq!(agent.id, "agent_3");
    assert_eq!(agent.tree_snapshot.decay, 610_000);
    assert_eq!(agent.tree_snapshot.fear, 130_000);
    assert_eq!(agent.tree_snapshot.pain, 40_000);
    assert!(!agent.calmstable && !agent.overloaded && !agent.recovery);
}

#[test]
fn cycles_keep_the_chain_linked() {
    let mut society = MicroSociety::new(4);
    for _ in 0..3 {
        society.simulate_cycle();
    }
    let all = society.ledger.all_events();
    assert_eq!(all.len(), 12);
    assert_eq!(all[0].prev_hash, "");
    for i in 1..all.len() {
        assert_eq!(all[i].prev_hash, all[i - 1].self_hash);
    }
    for (i, record) in all.iter().enumerate() {
        assert_eq!(record.verdict.primary_site as usize, i % 4);
    }
    assert_eq!(audit_chain(all), None);
    assert_eq!(society.ledger.events_for_actor(2).len(), 3);
    assert_eq!(society.agents.len(), 4);
    let mut empty = MicroSociety::new(0);
    empty.simulate_cycle();
    assert_eq!(empty.ledger.len(), 0);
}
