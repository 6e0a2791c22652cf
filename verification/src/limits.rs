//! Corridor configuration: per-zone ceilings, the neurorights bands, and the
//! deed kinds that may be softened to a downscale.

use vstd::prelude::*;
use crate::model::{DeedKind, NeurorightsBand};

verus! {

/// Ceilings of one zone, one per tracked dimension.
#[derive(Debug, Clone, Copy, PartialEq, Eq, Structural)]
pub struct CorridorLimits {
    /// Ceiling of the local biosignature rail.
    pub b_max: i64,
    /// Ceiling of the territorial bioload.
    pub bioload_max: i64,
    /// Ceiling of the temperature proxy.
    pub temp_max: i64,
    /// Ceiling of the heart-rate proxy.
    pub heart_rate_max: i64,
    /// Ceilings of the three justice bands.
    pub hpcc_max: i64,
    pub erg_max: i64,
    pub tecr_max: i64,
}

impl CorridorLimits {
    /// Every ceiling is non-negative.
    pub open spec fn wf(self) -> bool {
        &&& self.b_max >= 0
        &&& self.bioload_max >= 0
        &&& self.temp_max >= 0
        &&& self.heart_rate_max >= 0
        &&& self.hpcc_max >= 0
        &&& self.erg_max >= 0
        &&& self.tecr_max >= 0
    }

    /// `self` allows nothing that `other` refuses: every ceiling of `self` is
    /// at most the same ceiling of `other`.
    pub open spec fn at_most(self, other: CorridorLimits) -> bool {
        &&& self.b_max <= other.b_max
        &&& self.bioload_max <= other.bioload_max
        &&& self.temp_max <= other.temp_max
        &&& self.heart_rate_max <= other.heart_rate_max
        &&& self.hpcc_max <= other.hpcc_max
        &&& self.erg_max <= other.erg_max
        &&& self.tecr_max <= other.tecr_max
    }

    /// Whether every ceiling is non-negative.
    pub fn is_valid(&self) -> (res: bool)
        ensures
            res == self.wf(),
    {
        self.b_max >= 0 && self.bioload_max >= 0 && self.temp_max >= 0 && self.heart_rate_max >= 0
            && self.hpcc_max >= 0 && self.erg_max >= 0 && self.tecr_max >= 0
    }

    /// Validates a set of ceilings: `None` when any of them is negative.
    pub fn new(
        b_max: i64,
        bioload_max: i64,
        temp_max: i64,
        heart_rate_max: i64,
        hpcc_max: i64,
        erg_max: i64,
        tecr_max: i64,
    ) -> (res: Option<CorridorLimits>)
        ensures
            res.is_some() <==> (CorridorLimits {
                b_max,
                bioload_max,
                temp_max,
                heart_rate_max,
                hpcc_max,
                erg_max,
                tecr_max,
            }).wf(),
            res.is_some() ==> res.unwrap() == (CorridorLimits {
                b_max,
                bioload_max,
                temp_max,
                heart_rate_max,
                hpcc_max,
                erg_max,
                tecr_max,
            }),
    {
        if b_max < 0 || bioload_max < 0 || temp_max < 0 || heart_rate_max < 0 || hpcc_max < 0
            || erg_max < 0 || tecr_max < 0 {
            None
        } else {
            Some(
                CorridorLimits {
                    b_max,
                    bioload_max,
                    temp_max,
                    heart_rate_max,
                    hpcc_max,
                    erg_max,
                    tecr_max,
                },
            )
        }
    }
}

/// The limits of one zone.
#[derive(Debug, Clone, Copy, PartialEq, Eq, Structural)]
pub struct ZoneLimits {
    pub zone: u32,
    pub limits: CorridorLimits,
}

/// Thresholds on the biosignature rail that separate the neurorights bands.
#[derive(Debug, Clone, Copy, PartialEq, Eq, Structural)]
pub struct NeurorightsConfig {
    /// From this rail value on, the band is at least `Guarded`.
    pub guarded_from: i64,
    /// From this rail value on, the band is `NonActuating`.
    pub non_actuating_from: i64,
}

impl NeurorightsConfig {
    /// The band of rail value `b`.
    pub open spec fn band_of(self, b: i64) -> NeurorightsBand {
        if b >= self.non_actuating_from {
            NeurorightsBand::NonActuating
        } else if b >= self.guarded_from {
            NeurorightsBand::Guarded
        } else {
            NeurorightsBand::Open
        }
    }

    /// Classifies rail value `b` into its band.
    pub fn neurorights_band(&self, b: i64) -> (band: NeurorightsBand)
        ensures
            band == self.band_of(b),
    {
        if b >= self.non_actuating_from {
            NeurorightsBand::NonActuating
        } else if b >= self.guarded_from {
            NeurorightsBand::Guarded
        } else {
            NeurorightsBand::Open
        }
    }

    /// Whether `band` forbids all actuation.
    pub fn is_non_actuating_band(&self, band: NeurorightsBand) -> (res: bool)
        ensures
            res == (band == NeurorightsBand::NonActuating),
    {
        match band {
            NeurorightsBand::NonActuating => true,
            _ => false,
        }
    }
}

/// For each deed kind, whether a violating deed of that kind may be softened
/// to a downscale instead of being denied.
#[derive(Debug, Clone, Copy, PartialEq, Eq, Structural)]
pub struct DowngradePolicy {
    pub ecological_sharing: bool,
    pub resource_aid: bool,
    pub math_science_education: bool,
    pub minor_disturbance: bool,
}

impl DowngradePolicy {
    /// Whether deeds of kind `kind` may be softened.
    pub open spec fn softens(self, kind: DeedKind) -> bool {
        match kind {
            DeedKind::EcologicalSharing => self.ecological_sharing,
            DeedKind::ResourceAid => self.resource_aid,
            DeedKind::MathScienceEducation => self.math_science_education,
            DeedKind::MinorDisturbance => self.minor_disturbance,
        }
    }

    /// Whether a violating deed of kind `kind` may be downscaled.
    pub fn can_downscale(&self, kind: DeedKind) -> (res: bool)
        ensures
            res == self.softens(kind),
    {
        match kind {
            DeedKind::EcologicalSharing => self.ecological_sharing,
            DeedKind::ResourceAid => self.resource_aid,
            DeedKind::MathScienceEducation => self.math_science_education,
            DeedKind::MinorDisturbance => self.minor_disturbance,
        }
    }
}

/// The limits that `zones` gives to `zone`, searched from index `from`: those
/// of the first entry for that zone, or `fallback` when there is none.
pub open spec fn zone_limits_from(
    zones: Seq<ZoneLimits>,
    fallback: CorridorLimits,
    zone: u32,
    from: int,
) -> CorridorLimits
    decreases zones.len() - from,
{
    if from < 0 || from >= zones.len() {
        fallback
    } else if zones[from].zone == zone {
        zones[from].limits
    } else {
        zone_limits_from(zones, fallback, zone, from + 1)
    }
}

/// Configuration of the corridor guard.
#[derive(Debug, Clone, PartialEq, Eq)]
pub struct RightToExistConfig {
    /// Limits per zone; the first entry of a zone counts.
    pub zones: Vec<ZoneLimits>,
    /// Limits of every zone that `zones` does not list.
    pub default_limits: CorridorLimits,
    pub neurorights: NeurorightsConfig,
    pub downgrade: DowngradePolicy,
}

impl RightToExistConfig {
    /// The limits that apply in `zone`.
    pub open spec fn zone_limits(&self, zone: u32) -> CorridorLimits {
        zone_limits_from(self.zones@, self.default_limits, zone, 0)
    }

    /// The configuration is well-formed: the default limits and the limits of
    /// every listed zone are.
    pub open spec fn wf(&self) -> bool {
        &&& self.default_limits.wf()
        &&& forall|k: int| 0 <= k < self.zones@.len() ==> (#[trigger] self.zones@[k]).limits.wf()
    }

    /// Whether the configuration is well-formed. A loader calls this once and
    /// rejects a configuration that is not.
    pub fn validate(&self) -> (res: bool)
        ensures
            res == self.wf(),
    {
        if !self.default_limits.is_valid() {
            return false;
        }
        let mut i: usize = 0;
        while i < self.zones.len()
            invariant
                i <= self.zones@.len(),
                forall|k: int| 0 <= k < i ==> (#[trigger] self.zones@[k]).limits.wf(),
            decreases self.zones@.len() - i,
        {
            if !self.zones[i].limits.is_valid() {
                return false;
            }
            i += 1;
        }
        true
    }

    /// Looks up the limits that apply in `zone`.
    pub fn limits_for_zone(&self, zone: u32) -> (limits: CorridorLimits)
        ensures
            limits == self.zone_limits(zone),
    {
        let mut i: usize = 0;
        while i < self.zones.len()
            invariant
                i <= self.zones@.len(),
                self.zone_limits(zone) == zone_limits_from(
                    self.zones@,
                    self.default_limits,
                    zone,
                    i as int,
                ),
            decreases self.zones@.len() - i,
        {
            if self.zones[i].zone == zone {
                return self.zones[i].limits;
            }
            i += 1;
        }
        self.default_limits
    }
}

} // verus!
