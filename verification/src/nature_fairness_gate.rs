//! The nature-fairness corridor over a fate window, as a read-only policy
//! check. It reads a summary and returns evidence; it touches no capability
//! state and no device.

use vstd::prelude::*;

verus! {

/// Justice metrics of an episode, with the bands they are held to.
#[derive(Debug, Clone, Copy, PartialEq, Eq, Structural)]
pub struct JusticeMetrics {
    pub erg: i64,
    /// Least acceptable ERG.
    pub erg_min_band: i64,
    pub tecr: i64,
    /// Greatest acceptable TECR.
    pub tecr_max_band: i64,
}

/// Summary of a fate window, as projected into diagnostics.
#[derive(Debug, Clone, PartialEq, Eq)]
pub struct FateWindowSummary {
    pub id: String,
    pub valid: bool,
    pub roh_max: i64,
    pub roh_ceiling: i64,
    pub lifeforce_min: i64,
    pub lifeforce_floor: i64,
    pub unfairdrain: bool,
    pub justice: JusticeMetrics,
}

/// The corridor's conditions, one by one.
#[derive(Debug, Clone, Copy, PartialEq, Eq, Structural)]
pub struct NatureFairnessComponents {
    pub roh_ok: bool,
    pub lifeforce_ok: bool,
    pub unfairdrain_ok: bool,
    pub erg_ok: bool,
    pub tecr_ok: bool,
}

impl NatureFairnessComponents {
    /// Every condition holds.
    pub open spec fn all_ok(self) -> bool {
        self.roh_ok && self.lifeforce_ok && self.unfairdrain_ok && self.erg_ok && self.tecr_ok
    }
}

/// Result of the evaluation: evidence only.
#[derive(Debug, Clone, PartialEq, Eq)]
pub struct NatureFairnessEval {
    pub fatewindow_id: String,
    pub nature_fairness: bool,
    pub components: NatureFairnessComponents,
}

/// The conditions of the corridor on a summary: the window is valid with its
/// greatest risk under the ceiling, the least lifeforce reaches the floor, no
/// unfair drain is flagged, ERG reaches its band and TECR stays under its
/// band.
pub open spec fn fairness_components(summary: &FateWindowSummary) -> NatureFairnessComponents {
    NatureFairnessComponents {
        roh_ok: summary.valid && summary.roh_max <= summary.roh_ceiling,
        lifeforce_ok: summary.lifeforce_min >= summary.lifeforce_floor,
        unfairdrain_ok: !summary.unfairdrain,
        erg_ok: summary.justice.erg >= summary.justice.erg_min_band,
        tecr_ok: summary.justice.tecr <= summary.justice.tecr_max_band,
    }
}

/// Evaluates the corridor over a fate window.
pub fn eval_nature_fairness(summary: &FateWindowSummary) -> (eval: NatureFairnessEval)
    ensures
        eval.fatewindow_id@ == summary.id@,
        eval.components == fairness_components(summary),
        eval.nature_fairness == fairness_components(summary).all_ok(),
{
    let roh_ok = summary.valid && summary.roh_max <= summary.roh_ceiling;
    let lifeforce_ok = summary.lifeforce_min >= summary.lifeforce_floor;
    let unfairdrain_ok = !summary.unfairdrain;
    let erg_ok = summary.justice.erg >= summary.justice.erg_min_band;
    let tecr_ok = summary.justice.tecr <= summary.justice.tecr_max_band;
    let components = NatureFairnessComponents {
        roh_ok,
        lifeforce_ok,
        unfairdrain_ok,
        erg_ok,
        tecr_ok,
    };
    let nature_fairness = roh_ok && lifeforce_ok && unfairdrain_ok && erg_ok && tecr_ok;
    NatureFairnessEval { fatewindow_id: summary.id.clone(), nature_fairness, components }
}

/// Whether a policy over the summarised window is certifiable under the
/// corridor.
pub fn policy_is_nature_fair(summary: &FateWindowSummary) -> (res: bool)
    ensures
        res == fairness_components(summary).all_ok(),
{
    eval_nature_fairness(summary).nature_fairness
}

} // verus!
