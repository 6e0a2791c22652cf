//! The nature-fairness predicate as the diagnostics layer views it: a pure,
//! observer-tier evaluation of a fate window summary.

use vstd::prelude::*;

verus! {

/// The ceiling of the risk of harm for governed roles: 0.30.
pub const ROH_CEILING: i64 = 300_000;

/// Justice metrics over a fate window, with their least acceptable bands.
#[derive(Debug, Clone, Copy, PartialEq, Eq, Structural)]
pub struct JusticeMetrics {
    pub erg: i64,
    pub erg_min_band: i64,
    pub tecr: i64,
    pub tecr_min_band: i64,
}

/// Summary of a fate window. A pure view: no capability or device handle.
#[derive(Debug, Clone, PartialEq, Eq)]
pub struct FateWindowSummary {
    pub id: String,
    /// Greatest risk of harm observed in the window.
    pub roh_max: i64,
    /// Whether any governed role crossed the ceiling.
    pub roh_violation: bool,
    /// Least lifeforce across governed roles.
    pub lifeforce_min: i64,
    /// Configured lifeforce floor.
    pub lifeforce_floor_cfg: i64,
    /// Whether an unfair drain was detected for any protected role.
    pub unfairdrain: bool,
    pub justice: JusticeMetrics,
}

/// The predicate's conditions, one by one.
#[derive(Debug, Clone, Copy, PartialEq, Eq, Structural)]
pub struct NatureFairnessComponents {
    pub roh_ok: bool,
    pub lifeforce_ok: bool,
    pub unfairdrain_ok: bool,
    pub erg_ok: bool,
    pub tecr_ok: bool,
}

impl NatureFairnessComponents {
    /// Every condition holds.
    pub open spec fn all_ok(self) -> bool {
        self.roh_ok && self.lifeforce_ok && self.unfairdrain_ok && self.erg_ok && self.tecr_ok
    }
}

/// Result of evaluating the predicate over a fate window.
#[derive(Debug, Clone, PartialEq, Eq)]
pub struct NatureFairnessEval {
    /// The conjunction of the components.
    pub nature_fairness: bool,
    pub components: NatureFairnessComponents,
    pub fatewindow_id: String,
}

/// The conditions of the predicate on a summary: no risk violation and the
/// greatest risk at most 0.30, the least lifeforce at its floor, no unfair
/// drain, and both justice metrics at their least bands.
pub open spec fn window_components(summary: &FateWindowSummary) -> NatureFairnessComponents {
    NatureFairnessComponents {
        roh_ok: !summary.roh_violation && summary.roh_max <= ROH_CEILING,
        lifeforce_ok: summary.lifeforce_min >= summary.lifeforce_floor_cfg,
        unfairdrain_ok: !summary.unfairdrain,
        erg_ok: summary.justice.erg >= summary.justice.erg_min_band,
        tecr_ok: summary.justice.tecr >= summary.justice.tecr_min_band,
    }
}

impl NatureFairnessEval {
    /// Evaluates the predicate over a fate window summary.
    pub fn from_fatewindow(summary: &FateWindowSummary) -> (eval: NatureFairnessEval)
        ensures
            eval.fatewindow_id@ == summary.id@,
            eval.components == window_components(summary),
            eval.nature_fairness == window_components(summary).all_ok(),
    {
        let roh_ok = !summary.roh_violation && summary.roh_max <= ROH_CEILING;
        let lifeforce_ok = summary.lifeforce_min >= summary.lifeforce_floor_cfg;
        let unfairdrain_ok = !summary.unfairdrain;
        let erg_ok = summary.justice.erg >= summary.justice.erg_min_band;
        let tecr_ok = summary.justice.tecr >= summary.justice.tecr_min_band;
        let components = NatureFairnessComponents {
            roh_ok,
            lifeforce_ok,
            unfairdrain_ok,
            erg_ok,
            tecr_ok,
        };
        let nature_fairness = roh_ok && lifeforce_ok && unfairdrain_ok && erg_ok && tecr_ok;
        NatureFairnessEval { nature_fairness, components, fatewindow_id: summary.id.clone() }
    }
}

} // verus!
