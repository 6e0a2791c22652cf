//! A non-actuating sandbox: a line of agents whose deeds are judged by the
//! corridor guard and recorded in an observer ledger.
//!
//! Chance and time come from outside; what is done with them is decided
//! here. Each agent's bounded snapshot stands for the site that its deed
//! acts on: decay is the local risk, pain the territorial load, and fear
//! drives the temperature and heart-rate proxies.

use vstd::prelude::*;
use crate::events::{
    agent_name, current_timestamp, generate_ecological_event, name_agent, random_in_range,
};
use crate::ledger::{chain_linked, Ledger, LedgerRecord};
use crate::limits::{CorridorLimits, DowngradePolicy, NeurorightsConfig, RightToExistConfig};
use crate::model::{Deed, DeedKind, JusticeMetrics, PredictedDeltas, SiteView};
use crate::scalar::{add_unit_clamped, clamp, clamp_int, UNIT};
use crate::verdict::{check_right_to_exist_corridor, corridor_verdict};

verus! {

/// Bounded snapshot of an agent; every scalar is meant to lie in `[0, UNIT]`.
#[derive(Debug, Clone, Copy, PartialEq, Eq, Structural)]
pub struct TreeOfLifeSnapshot {
    pub lifeforce: i64,
    pub decay: i64,
    pub fear: i64,
    pub oxygen: i64,
    pub pain: i64,
    pub blood: i64,
}

/// `v` bounded to the unit interval.
pub open spec fn unit_clamped(v: int) -> i64 {
    clamp_int(v, 0, UNIT as int) as i64
}

impl TreeOfLifeSnapshot {
    /// Every scalar lies in `[0, UNIT]`.
    pub open spec fn wf(self) -> bool {
        &&& 0 <= self.lifeforce <= UNIT
        &&& 0 <= self.decay <= UNIT
        &&& 0 <= self.fear <= UNIT
        &&& 0 <= self.oxygen <= UNIT
        &&& 0 <= self.pain <= UNIT
        &&& 0 <= self.blood <= UNIT
    }

    /// The snapshot after an event. A good event raises the lifeforce by
    /// 0.05 and lowers decay by 0.05, fear by 0.02 and pain by 0.02; any
    /// other raises fear and pain by 0.03 and decay by 0.02. Every scalar is
    /// then bounded to the unit interval.
    pub open spec fn after_event(self, is_good: bool) -> TreeOfLifeSnapshot {
        if is_good {
            TreeOfLifeSnapshot {
                lifeforce: unit_clamped(self.lifeforce + 50_000),
                decay: unit_clamped(self.decay - 50_000),
                fear: unit_clamped(self.fear - 20_000),
                oxygen: unit_clamped(self.oxygen as int),
                pain: unit_clamped(self.pain - 20_000),
                blood: unit_clamped(self.blood as int),
            }
        } else {
            TreeOfLifeSnapshot {
                lifeforce: unit_clamped(self.lifeforce as int),
                decay: unit_clamped(self.decay + 20_000),
                fear: unit_clamped(self.fear + 30_000),
                oxygen: unit_clamped(self.oxygen as int),
                pain: unit_clamped(self.pain + 30_000),
                blood: unit_clamped(self.blood as int),
            }
        }
    }

    /// The mean of lifeforce, oxygen and blood, rounded toward zero.
    pub open spec fn mean_lifeforce(self) -> int {
        let sum = self.lifeforce + self.oxygen + self.blood;
        if sum >= 0 {
            sum / 3
        } else {
            -((-sum) / 3)
        }
    }

    /// A snapshot drawn by chance: lifeforce from `[0.5, 1)`, decay from
    /// `[0, 0.5)`, fear from `[0, 0.3)`, oxygen from `[0.7, 1)`, pain from
    /// `[0, 0.2)` and blood from `[0.8, 1)`.
    pub fn new() -> (s: TreeOfLifeSnapshot)
        ensures
            s.wf(),
            500_000 <= s.lifeforce < UNIT,
            0 <= s.decay < 500_000,
            0 <= s.fear < 300_000,
            700_000 <= s.oxygen < UNIT,
            0 <= s.pain < 200_000,
            800_000 <= s.blood < UNIT,
    {
        TreeOfLifeSnapshot {
            lifeforce: random_in_range(500_000, UNIT),
            decay: random_in_range(0, 500_000),
            fear: random_in_range(0, 300_000),
            oxygen: random_in_range(700_000, UNIT),
            pain: random_in_range(0, 200_000),
            blood: random_in_range(800_000, UNIT),
        }
    }

    /// Applies an event to the snapshot.
    pub fn update_from_event(&mut self, is_good: bool)
        ensures
            *final(self) == old(self).after_event(is_good),
            final(self).wf(),
    {
        if is_good {
            self.lifeforce = add_unit_clamped(self.lifeforce, 50_000);
            self.decay = add_unit_clamped(self.decay, -50_000);
            self.fear = add_unit_clamped(self.fear, -20_000);
            self.pain = add_unit_clamped(self.pain, -20_000);
        } else {
            self.lifeforce = clamp(self.lifeforce, 0, UNIT);
            self.fear = add_unit_clamped(self.fear, 30_000);
            self.pain = add_unit_clamped(self.pain, 30_000);
            self.decay = add_unit_clamped(self.decay, 20_000);
        }
        self.oxygen = clamp(self.oxygen, 0, UNIT);
        self.blood = clamp(self.blood, 0, UNIT);
    }

    /// The mean of lifeforce, oxygen and blood, rounded toward zero.
    pub fn lifeforce_avg(&self) -> (avg: i64)
        ensures
            avg == self.mean_lifeforce(),
    {
        let sum: i128 = self.lifeforce as i128 + self.oxygen as i128 + self.blood as i128;
        if sum >= 0 {
            (sum / 3) as i64
        } else {
            (-((-sum) / 3)) as i64
        }
    }
}

/// An agent with the predicates derived from its snapshot.
#[derive(Debug, Clone, PartialEq, Eq)]
pub struct MicroAgent {
    pub id: String,
    pub tree_snapshot: TreeOfLifeSnapshot,
    pub calmstable: bool,
    pub overloaded: bool,
    pub recovery: bool,
    pub unfairdrain: bool,
}

/// Stress, the mean of fear and pain, is below 0.3, decay is below 0.3 and
/// the lifeforce above 0.7.
pub open spec fn calm_and_stable(s: TreeOfLifeSnapshot) -> bool {
    s.fear + s.pain < 600_000 && s.decay < 300_000 && s.lifeforce > 700_000
}

/// Stress is above 0.7, or decay is.
pub open spec fn is_overloaded(s: TreeOfLifeSnapshot) -> bool {
    s.fear + s.pain > 1_400_000 || s.decay > 700_000
}

/// Not overloaded, with the lifeforce above 0.5 and decay below 0.5.
pub open spec fn in_recovery(s: TreeOfLifeSnapshot) -> bool {
    !is_overloaded(s) && s.lifeforce > 500_000 && s.decay < 500_000
}

impl MicroAgent {
    /// The predicates are those of the snapshot.
    pub open spec fn predicates_current(&self) -> bool {
        &&& self.calmstable == calm_and_stable(self.tree_snapshot)
        &&& self.overloaded == is_overloaded(self.tree_snapshot)
        &&& self.recovery == in_recovery(self.tree_snapshot)
        &&& !self.unfairdrain
    }

    /// A new agent with a snapshot drawn by chance and no predicate set.
    pub fn new(id: String) -> (agent: MicroAgent)
        ensures
            agent.id == id,
            agent.tree_snapshot.wf(),
            !agent.calmstable && !agent.overloaded && !agent.recovery && !agent.unfairdrain,
    {
        MicroAgent {
            id,
            tree_snapshot: TreeOfLifeSnapshot::new(),
            calmstable: false,
            overloaded: false,
            recovery: false,
            unfairdrain: false,
        }
    }

    /// Derives the predicates from the snapshot. An unfair drain is a view
    /// over several agents and stays a passive flag here.
    pub fn update_predicates(&mut self)
        ensures
            final(self).id == old(self).id,
            final(self).tree_snapshot == old(self).tree_snapshot,
            final(self).predicates_current(),
    {
        let stress2: i128 = self.tree_snapshot.fear as i128 + self.tree_snapshot.pain as i128;
        let energy: i64 = self.tree_snapshot.lifeforce;
        let decay: i64 = self.tree_snapshot.decay;
        self.calmstable = stress2 < 600_000 && decay < 300_000 && energy > 700_000;
        self.overloaded = stress2 > 1_400_000 || decay > 700_000;
        self.recovery = !self.overloaded && energy > 500_000 && decay < 500_000;
        self.unfairdrain = false;
    }
}

/// Whether an event of this kind is a good deed.
pub open spec fn good_kind(kind: DeedKind) -> bool {
    kind != DeedKind::MinorDisturbance
}

/// Whether an event of this kind is a good deed.
pub fn is_good_deed(kind: DeedKind) -> (res: bool)
    ensures
        res == good_kind(kind),
{
    match kind {
        DeedKind::MinorDisturbance => false,
        _ => true,
    }
}

/// The site that an agent's snapshot stands for: decay is the biosignature
/// rail, pain the bioload; the temperature proxy is 36.5 plus twice the
/// fear, the heart-rate proxy 60 plus sixty times the fear. The scalars are
/// bounded to the unit interval first.
pub open spec fn site_of(s: TreeOfLifeSnapshot, index: u32) -> SiteView {
    SiteView {
        index,
        biosignature1d: unit_clamped(s.decay as int),
        bioload: unit_clamped(s.pain as int),
        local_temp: (36_500_000 + 2 * unit_clamped(s.fear as int)) as i64,
        heart_rate: (60_000_000 + 60 * unit_clamped(s.fear as int)) as i64,
    }
}

/// The deed that an event of kind `kind` proposes, with the changes that
/// the event is predicted to cause at the site.
pub open spec fn sandbox_deed(kind: DeedKind) -> Deed {
    if good_kind(kind) {
        Deed {
            kind,
            zone: 0,
            deltas: PredictedDeltas {
                b_delta: -50_000i64,
                bioload_delta: -20_000i64,
                temp_delta: -40_000i64,
                heart_delta: -1_200_000i64,
                hpcc_delta: 0,
                erg_delta: 0,
                tecr_delta: 0,
            },
        }
    } else {
        Deed {
            kind,
            zone: 0,
            deltas: PredictedDeltas {
                b_delta: 20_000,
                bioload_delta: 30_000,
                temp_delta: 60_000,
                heart_delta: 1_800_000,
                hpcc_delta: 0,
                erg_delta: 0,
                tecr_delta: 0,
            },
        }
    }
}

/// Views an agent's snapshot as a site.
pub fn site_view(s: &TreeOfLifeSnapshot, index: u32) -> (site: SiteView)
    ensures
        site == site_of(*s, index),
{
    let fear: i64 = clamp(s.fear, 0, UNIT);
    SiteView {
        index,
        biosignature1d: clamp(s.decay, 0, UNIT),
        bioload: clamp(s.pain, 0, UNIT),
        local_temp: 36_500_000 + 2 * fear,
        heart_rate: 60_000_000 + 60 * fear,
    }
}

/// Builds the deed that an event of kind `kind` proposes.
pub fn propose_deed(kind: DeedKind) -> (deed: Deed)
    ensures
        deed == sandbox_deed(kind),
{
    if is_good_deed(kind) {
        Deed {
            kind,
            zone: 0,
            deltas: PredictedDeltas {
                b_delta: -50_000,
                bioload_delta: -20_000,
                temp_delta: -40_000,
                heart_delta: -1_200_000,
                hpcc_delta: 0,
                erg_delta: 0,
                tecr_delta: 0,
            },
        }
    } else {
        Deed {
            kind,
            zone: 0,
            deltas: PredictedDeltas {
                b_delta: 20_000,
                bioload_delta: 30_000,
                temp_delta: 60_000,
                heart_delta: 1_800_000,
                hpcc_delta: 0,
                erg_delta: 0,
                tecr_delta: 0,
            },
        }
    }
}

/// One agent's step, for an event of kind `kind` at time `tick`: the deed
/// is judged at the site that the agent's snapshot stands for, the event is
/// applied to the snapshot, the predicates are derived anew, and the verdict
/// is sealed into a record that names `prev_hash` as its predecessor.
pub fn step_agent(
    agent: &mut MicroAgent,
    index: u32,
    kind: DeedKind,
    tick: u64,
    justice: &JusticeMetrics,
    cfg: &RightToExistConfig,
    prev_hash: &str,
) -> (record: LedgerRecord)
    ensures
        record.verdict@ == corridor_verdict(
            tick,
            site_of(old(agent).tree_snapshot, index),
            sandbox_deed(kind),
            *justice,
            cfg,
            prev_hash@,
        ),
        record.prev_hash@ == prev_hash@,
        record.self_hash@ == record.verdict.hash@,
        record.sealed(),
        record.subject() == index,
        final(agent).id == old(agent).id,
        final(agent).tree_snapshot == old(agent).tree_snapshot.after_event(good_kind(kind)),
        final(agent).tree_snapshot.wf(),
        final(agent).predicates_current(),
{
    let site = site_view(&agent.tree_snapshot, index);
    let deed = propose_deed(kind);
    let verdict = check_right_to_exist_corridor(tick, &site, &deed, justice, cfg, prev_hash);
    agent.tree_snapshot.update_from_event(is_good_deed(kind));
    agent.update_predicates();
    LedgerRecord::new(verdict, prev_hash.to_owned())
}

/// A line of agents with an observer ledger.
#[derive(Debug)]
pub struct MicroSociety {
    pub agents: Vec<MicroAgent>,
    pub ledger: Ledger,
    /// The corridor that every deed is judged by.
    pub config: RightToExistConfig,
    /// The justice ratios of the episode.
    pub justice: JusticeMetrics,
}

/// The limits of the sandbox's one zone.
pub open spec fn sandbox_limits() -> CorridorLimits {
    CorridorLimits {
        b_max: 600_000,
        bioload_max: 800_000,
        temp_max: 38_500_000,
        heart_rate_max: 150_000_000,
        hpcc_max: 500_000,
        erg_max: 500_000,
        tecr_max: 500_000,
    }
}

/// The corridor of a new sandbox: one set of limits for every zone, the
/// guarded band from 0.5 and the non-actuating band from 0.95, and every
/// kind softenable but the minor disturbance.
pub fn sandbox_config() -> (cfg: RightToExistConfig)
    ensures
        cfg.zones@.len() == 0,
        cfg.default_limits == sandbox_limits(),
        cfg.neurorights == (NeurorightsConfig { guarded_from: 500_000, non_actuating_from: 950_000 }),
        cfg.downgrade == (DowngradePolicy {
            ecological_sharing: true,
            resource_aid: true,
            math_science_education: true,
            minor_disturbance: false,
        }),
        cfg.wf(),
{
    RightToExistConfig {
        zones: Vec::new(),
        default_limits: CorridorLimits {
            b_max: 600_000,
            bioload_max: 800_000,
            temp_max: 38_500_000,
            heart_rate_max: 150_000_000,
            hpcc_max: 500_000,
            erg_max: 500_000,
            tecr_max: 500_000,
        },
        neurorights: NeurorightsConfig { guarded_from: 500_000, non_actuating_from: 950_000 },
        downgrade: DowngradePolicy {
            ecological_sharing: true,
            resource_aid: true,
            math_science_education: true,
            minor_disturbance: false,
        },
    }
}

impl MicroSociety {
    /// A society of `agent_count` agents, named `agent_0`, `agent_1` and so
    /// on, with an empty ledger and the sandbox's corridor.
    pub fn new(agent_count: usize) -> (society: MicroSociety)
        ensures
            society.agents@.len() == agent_count,
            forall|k: int|
                0 <= k < agent_count ==> (#[trigger] society.agents@[k]).id@ == agent_name(
                    k as nat,
                ) && society.agents@[k].tree_snapshot.wf(),
            society.ledger.records().len() == 0,
            society.config.wf(),
            society.config.zone_limits(0) == sandbox_limits(),
            society.justice == (JusticeMetrics { hpcc: 0, erg: 0, tecr: 0 }),
    {
        let mut agents: Vec<MicroAgent> = Vec::new();
        let mut i: usize = 0;
        while i < agent_count
            invariant
                i <= agent_count,
                agents@.len() == i,
                forall|k: int|
                    0 <= k < i ==> (#[trigger] agents@[k]).id@ == agent_name(k as nat)
                        && agents@[k].tree_snapshot.wf(),
            decreases agent_count - i,
        {
            agents.push(MicroAgent::new(name_agent(i)));
            i += 1;
        }
        MicroSociety {
            agents,
            ledger: Ledger::new(),
            config: sandbox_config(),
            justice: JusticeMetrics { hpcc: 0, erg: 0, tecr: 0 },
        }
    }

    /// One bounded simulation step. For each agent in turn an event is drawn,
    /// judged and applied, and its record is appended to the ledger with the
    /// ledger's tip as predecessor, so that no append is refused. Whatever
    /// events are drawn, the ledger grows by one sealed record per agent, the
    /// records before the step stay as they were, the chain stays linked, and
    /// every agent keeps its name and has current predicates.
    pub fn simulate_cycle(&mut self)
        requires
            old(self).agents@.len() <= u32::MAX,
        ensures
            final(self).agents@.len() == old(self).agents@.len(),
            final(self).ledger.records().len() == old(self).ledger.records().len()
                + old(self).agents@.len(),
            final(self).ledger.records().take(old(self).ledger.records().len() as int)
                == old(self).ledger.records(),
            chain_linked(final(self).ledger.records()),
            forall|k: int|
                0 <= k < old(self).agents@.len() ==> {
                    &&& (#[trigger] final(self).ledger.records()[
                        old(self).ledger.records().len() + k
                    ]).subject() == k
                    &&& final(self).ledger.records()[
                        old(self).ledger.records().len() + k
                    ].sealed()
                },
            forall|k: int|
                0 <= k < old(self).agents@.len() ==> {
                    &&& (#[trigger] final(self).agents@[k]).id == old(self).agents@[k].id
                    &&& final(self).agents@[k].predicates_current()
                    &&& final(self).agents@[k].tree_snapshot.wf()
                },
    {
        let agent_len = self.agents.len();
        let recorded = self.ledger.all_events();
        let ghost before = recorded@;
        let mut i: usize = 0;
        proof {
            assert(before.take(before.len() as int) =~= before);
        }
        while i < agent_len
            invariant
                i <= agent_len,
                agent_len == self.agents@.len(),
                agent_len == old(self).agents@.len(),
                agent_len <= u32::MAX,
                before == old(self).ledger.records(),
                self.ledger.records().len() == before.len() + i,
                self.ledger.records().take(before.len() as int) == before,
                chain_linked(self.ledger.records()),
                forall|k: int|
                    0 <= k < i ==> (#[trigger] self.ledger.records()[before.len() + k]).subject()
                        == k && self.ledger.records()[before.len() + k].sealed(),
                forall|k: int|
                    0 <= k < i ==> (#[trigger] self.agents@[k]).id == old(self).agents@[k].id
                        && self.agents@[k].predicates_current()
                        && self.agents@[k].tree_snapshot.wf(),
                forall|k: int|
                    i <= k < agent_len ==> (#[trigger] self.agents@[k]) == old(self).agents@[k],
            decreases agent_len - i,
        {
            let kind = generate_ecological_event();
            let tick = current_timestamp();
            let ghost records_before = self.ledger.records();
            let record = step_agent(
                &mut self.agents[i],
                i as u32,
                kind,
                tick,
                &self.justice,
                &self.config,
                self.ledger.last_hash(),
            );
            let res = self.ledger.append(record);
            proof {
                assert(res.is_ok());
                let records = self.ledger.records();
                assert(records == records_before.push(record));
                assert(records.take(before.len() as int) =~= records_before.take(
                    before.len() as int,
                ));
                assert forall|k: int| 0 <= k < i + 1 implies (#[trigger] records[before.len()
                    + k]).subject() == k && records[before.len() + k].sealed() by {
                    if k < i {
                        assert(records[before.len() + k] == records_before[before.len() + k]);
                    }
                }
            }
            i += 1;
        }
    }
}

} // verus!
