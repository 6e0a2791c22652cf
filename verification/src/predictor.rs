//! The scalar predictor: before and after values of every tracked dimension.
//!
//! Clamping per dimension: the biosignature rail and the territorial bioload
//! are clamped to `[0, UNIT]` after the delta is added; temperature, heart
//! rate and the three justice ratios are unclamped and saturate only at the
//! ends of the `i64` range.

use vstd::prelude::*;
use crate::limits::NeurorightsConfig;
use crate::model::{Deed, JusticeMetrics, NeurorightsBand, SiteView};
use crate::scalar::{add_saturating, add_unit_clamped, saturating_sum, unit_sum};

verus! {

/// Predicted scalars before and after a deed.
#[derive(Debug, Clone, Copy, PartialEq, Eq, Structural)]
pub struct CorridorScalars {
    pub b_before: i64,
    pub b_after: i64,
    pub bioload_before: i64,
    pub bioload_after: i64,
    pub temp_before: i64,
    pub temp_after: i64,
    pub heart_rate_before: i64,
    pub heart_rate_after: i64,
    pub hpcc_before: i64,
    pub hpcc_after: i64,
    pub erg_before: i64,
    pub erg_after: i64,
    pub tecr_before: i64,
    pub tecr_after: i64,
    pub neurorights_before: NeurorightsBand,
    pub neurorights_after: NeurorightsBand,
}

/// The bundle that the predictor returns for a site, a deed and the justice
/// metrics, under the given neurorights thresholds.
pub open spec fn predicted_scalars(
    site: SiteView,
    deed: Deed,
    justice: JusticeMetrics,
    neurorights: NeurorightsConfig,
) -> CorridorScalars {
    let b_after = unit_sum(site.biosignature1d as int, deed.deltas.b_delta as int) as i64;
    CorridorScalars {
        b_before: site.biosignature1d,
        b_after,
        bioload_before: site.bioload,
        bioload_after: unit_sum(site.bioload as int, deed.deltas.bioload_delta as int) as i64,
        temp_before: site.local_temp,
        temp_after: saturating_sum(site.local_temp as int, deed.deltas.temp_delta as int) as i64,
        heart_rate_before: site.heart_rate,
        heart_rate_after: saturating_sum(
            site.heart_rate as int,
            deed.deltas.heart_delta as int,
        ) as i64,
        hpcc_before: justice.hpcc,
        hpcc_after: saturating_sum(justice.hpcc as int, deed.deltas.hpcc_delta as int) as i64,
        erg_before: justice.erg,
        erg_after: saturating_sum(justice.erg as int, deed.deltas.erg_delta as int) as i64,
        tecr_before: justice.tecr,
        tecr_after: saturating_sum(justice.tecr as int, deed.deltas.tecr_delta as int) as i64,
        neurorights_before: neurorights.band_of(site.biosignature1d),
        neurorights_after: neurorights.band_of(b_after),
    }
}

/// Predicts the before and after value of every tracked dimension. Pure and
/// total: every site, deed and metrics give a bundle.
pub fn predict_scalars(
    site: &SiteView,
    deed: &Deed,
    justice_metrics: &JusticeMetrics,
    neurorights: &NeurorightsConfig,
) -> (s: CorridorScalars)
    ensures
        s == predicted_scalars(*site, *deed, *justice_metrics, *neurorights),
{
    let b_before: i64 = site.biosignature1d;
    let b_after: i64 = add_unit_clamped(b_before, deed.deltas.b_delta);
    let bioload_before: i64 = site.bioload;
    let bioload_after: i64 = add_unit_clamped(bioload_before, deed.deltas.bioload_delta);
    let temp_before: i64 = site.local_temp;
    let temp_after: i64 = add_saturating(temp_before, deed.deltas.temp_delta);
    let heart_before: i64 = site.heart_rate;
    let heart_after: i64 = add_saturating(heart_before, deed.deltas.heart_delta);
    let hpcc_after: i64 = add_saturating(justice_metrics.hpcc, deed.deltas.hpcc_delta);
    let erg_after: i64 = add_saturating(justice_metrics.erg, deed.deltas.erg_delta);
    let tecr_after: i64 = add_saturating(justice_metrics.tecr, deed.deltas.tecr_delta);
    let neurorights_before = neurorights.neurorights_band(b_before);
    let neurorights_after = neurorights.neurorights_band(b_after);
    CorridorScalars {
        b_before,
        b_after,
        bioload_before,
        bioload_after,
        temp_before,
        temp_after,
        heart_rate_before: heart_before,
        heart_rate_after: heart_after,
        hpcc_before: justice_metrics.hpcc,
        hpcc_after,
        erg_before: justice_metrics.erg,
        erg_after,
        tecr_before: justice_metrics.tecr,
        tecr_after,
        neurorights_before,
        neurorights_after,
    }
}

/// The clamped dimensions of every predicted bundle lie in the unit interval.
pub proof fn lemma_predicted_rails_in_unit_interval(
    site: SiteView,
    deed: Deed,
    justice: JusticeMetrics,
    neurorights: NeurorightsConfig,
)
    ensures
        0 <= predicted_scalars(site, deed, justice, neurorights).b_after <= crate::scalar::UNIT,
        0 <= predicted_scalars(site, deed, justice, neurorights).bioload_after
            <= crate::scalar::UNIT,
{
}

} // verus!
