//! Inputs of a corridor evaluation: the measured site, the proposed deed, and
//! the justice metrics of the current episode.

use vstd::prelude::*;

verus! {

/// The kind of a proposed deed.
#[derive(Debug, Clone, Copy, PartialEq, Eq, Structural)]
pub enum DeedKind {
    EcologicalSharing,
    ResourceAid,
    MathScienceEducation,
    MinorDisturbance,
}

/// Discrete neurorights band, derived from the biosignature rail.
#[derive(Debug, Clone, Copy, PartialEq, Eq, Structural)]
pub enum NeurorightsBand {
    /// Actuation is unrestricted.
    Open,
    /// Actuation is allowed under the corridor's ceilings.
    Guarded,
    /// No actuation may take place.
    NonActuating,
}

/// Immutable snapshot of the measured values at one site.
#[derive(Debug, Clone, Copy, PartialEq, Eq, Structural)]
pub struct SiteView {
    /// Index of the site; it is the subject id of every verdict about it.
    pub index: u32,
    /// 1D biosignature rail at the locus (local risk), in `[0, UNIT]`.
    pub biosignature1d: i64,
    /// Territorial bioload, in `[0, UNIT]`.
    pub bioload: i64,
    /// Local temperature proxy.
    pub local_temp: i64,
    /// Heart-rate proxy.
    pub heart_rate: i64,
}

/// The change that a deed is predicted to cause in each tracked dimension.
#[derive(Debug, Clone, Copy, PartialEq, Eq, Structural)]
pub struct PredictedDeltas {
    pub b_delta: i64,
    pub bioload_delta: i64,
    pub temp_delta: i64,
    pub heart_delta: i64,
    pub hpcc_delta: i64,
    pub erg_delta: i64,
    pub tecr_delta: i64,
}

/// Immutable descriptor of a proposed action.
#[derive(Debug, Clone, Copy, PartialEq, Eq, Structural)]
pub struct Deed {
    pub kind: DeedKind,
    /// Zone tag; it selects the corridor limits that apply.
    pub zone: u32,
    pub deltas: PredictedDeltas,
}

/// Justice ratios of the current episode at one site.
#[derive(Debug, Clone, Copy, PartialEq, Eq, Structural)]
pub struct JusticeMetrics {
    pub hpcc: i64,
    pub erg: i64,
    pub tecr: i64,
}

/// The justice ratios as they stood when a verdict was given.
#[derive(Debug, Clone, Copy, PartialEq, Eq, Structural)]
pub struct JusticeSnapshot {
    pub site: u32,
    pub hpcc: i64,
    pub erg: i64,
    pub tecr: i64,
}

impl JusticeMetrics {
    /// The snapshot of these metrics for site `site`.
    pub open spec fn snapshot_at(self, site: u32) -> JusticeSnapshot {
        JusticeSnapshot { site, hpcc: self.hpcc, erg: self.erg, tecr: self.tecr }
    }

    /// Freezes the metrics for the verdict about site `site`.
    pub fn snapshot_for_site(&self, site: u32) -> (snap: JusticeSnapshot)
        ensures
            snap == self.snapshot_at(site),
    {
        JusticeSnapshot { site, hpcc: self.hpcc, erg: self.erg, tecr: self.tecr }
    }
}

} // verus!
