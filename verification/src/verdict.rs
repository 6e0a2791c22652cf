//! The corridor guard's entry point and the verdict it records.

use vstd::prelude::*;
use crate::gates::{apply_corridor_rules, rules_outcome, CorridorDecision, CorridorReason};
use crate::hashlink::{hash_verdict, verdict_digest};
use crate::limits::RightToExistConfig;
use crate::model::{Deed, DeedKind, JusticeMetrics, JusticeSnapshot, SiteView};
use crate::predictor::{predict_scalars, predicted_scalars, CorridorScalars};

verus! {

/// Immutable outcome record of one corridor evaluation.
#[derive(Debug, Clone, PartialEq, Eq)]
pub struct CorridorVerdict {
    /// Logical timestamp.
    pub tick: u64,
    /// Subject id: the index of the site that the deed acts on.
    pub primary_site: u32,
    pub deed: DeedKind,
    pub decision: CorridorDecision,
    pub reason: CorridorReason,
    /// The complete predicted bundle.
    pub scalars: CorridorScalars,
    pub justice: JusticeSnapshot,
    /// Hexadecimal digest committing to all of the above and to the previous
    /// record's hash.
    pub hash: String,
}

/// A verdict as a mathematical value.
pub struct VerdictView {
    pub tick: u64,
    pub primary_site: u32,
    pub deed: DeedKind,
    pub decision: CorridorDecision,
    pub reason: CorridorReason,
    pub scalars: CorridorScalars,
    pub justice: JusticeSnapshot,
    pub hash: Seq<char>,
}

impl View for CorridorVerdict {
    type V = VerdictView;

    open spec fn view(&self) -> VerdictView {
        VerdictView {
            tick: self.tick,
            primary_site: self.primary_site,
            deed: self.deed,
            decision: self.decision,
            reason: self.reason,
            scalars: self.scalars,
            justice: self.justice,
            hash: self.hash@,
        }
    }
}

/// The verdict that is recorded for a decision and its snapshot, chained to
/// `prev_hash`.
pub open spec fn recorded_verdict(
    tick: u64,
    site: u32,
    kind: DeedKind,
    scalars: CorridorScalars,
    justice: JusticeSnapshot,
    decision: CorridorDecision,
    reason: CorridorReason,
    prev_hash: Seq<char>,
) -> VerdictView {
    VerdictView {
        tick,
        primary_site: site,
        deed: kind,
        decision,
        reason,
        scalars,
        justice,
        hash: verdict_digest(tick, site, kind, scalars, justice, decision, reason, prev_hash),
    }
}

/// The decision and reason that the corridor gives to a deed at a site.
pub open spec fn corridor_outcome(
    site: SiteView,
    deed: Deed,
    justice_metrics: JusticeMetrics,
    cfg: &RightToExistConfig,
) -> (CorridorDecision, CorridorReason) {
    rules_outcome(
        predicted_scalars(site, deed, justice_metrics, cfg.neurorights),
        cfg.zone_limits(deed.zone),
        cfg.downgrade.softens(deed.kind),
    )
}

/// The verdict of the corridor guard, as a function of its inputs alone.
pub open spec fn corridor_verdict(
    tick: u64,
    site: SiteView,
    deed: Deed,
    justice_metrics: JusticeMetrics,
    cfg: &RightToExistConfig,
    prev_hash: Seq<char>,
) -> VerdictView {
    let outcome = corridor_outcome(site, deed, justice_metrics, cfg);
    recorded_verdict(
        tick,
        site.index,
        deed.kind,
        predicted_scalars(site, deed, justice_metrics, cfg.neurorights),
        justice_metrics.snapshot_at(site.index),
        outcome.0,
        outcome.1,
        prev_hash,
    )
}

/// Builds the immutable record of a decision: the inputs, the decision and
/// its reason, and a hash committing to them and to `prev_hash`. Nothing is
/// appended anywhere; that is the ledger's step.
pub fn record_verdict(
    tick: u64,
    site: u32,
    kind: DeedKind,
    scalars: CorridorScalars,
    justice: JusticeSnapshot,
    decision: CorridorDecision,
    reason: CorridorReason,
    prev_hash: &str,
) -> (verdict: CorridorVerdict)
    ensures
        verdict@ == recorded_verdict(
            tick,
            site,
            kind,
            scalars,
            justice,
            decision,
            reason,
            prev_hash@,
        ),
{
    let hash = hash_verdict(tick, site, kind, &scalars, &justice, decision, reason, prev_hash);
    CorridorVerdict {
        tick,
        primary_site: site,
        deed: kind,
        decision,
        reason,
        scalars,
        justice,
        hash,
    }
}

/// The corridor guard. Predicts the scalars of the deed at the site, walks
/// the corridor's gates under the limits of the deed's zone, and records the
/// verdict, chained to `prev_hash`. Pure and total: the verdict is a function
/// of the arguments, so equal arguments give equal verdicts.
pub fn check_right_to_exist_corridor(
    tick: u64,
    site: &SiteView,
    deed: &Deed,
    justice_metrics: &JusticeMetrics,
    cfg: &RightToExistConfig,
    prev_hash: &str,
) -> (verdict: CorridorVerdict)
    ensures
        verdict@ == corridor_verdict(tick, *site, *deed, *justice_metrics, cfg, prev_hash@),
{
    let scalars = predict_scalars(site, deed, justice_metrics, &cfg.neurorights);
    let (decision, reason) = apply_corridor_rules(&scalars, deed, cfg);
    let justice_snapshot = justice_metrics.snapshot_for_site(site.index);
    record_verdict(
        tick,
        site.index,
        deed.kind,
        scalars,
        justice_snapshot,
        decision,
        reason,
        prev_hash,
    )
}

/// Determinism: two evaluations of equal inputs give the same verdict, hash
/// included.
pub proof fn lemma_evaluation_is_deterministic(
    first: CorridorVerdict,
    second: CorridorVerdict,
    tick: u64,
    site: SiteView,
    deed: Deed,
    justice_metrics: JusticeMetrics,
    cfg: &RightToExistConfig,
    prev_hash: Seq<char>,
)
    requires
        first@ == corridor_verdict(tick, site, deed, justice_metrics, cfg, prev_hash),
        second@ == corridor_verdict(tick, site, deed, justice_metrics, cfg, prev_hash),
    ensures
        first@ == second@,
        first.hash@ == second.hash@,
{
}

/// Monotonicity of the guard: for a fixed site, deed and metrics, a
/// configuration whose limits for the deed's zone are tighter allows only
/// what the looser configuration allows.
pub proof fn lemma_tighter_zone_allows_less(
    site: SiteView,
    deed: Deed,
    justice_metrics: JusticeMetrics,
    loose: &RightToExistConfig,
    tight: &RightToExistConfig,
)
    requires
        tight.neurorights == loose.neurorights,
        tight.downgrade == loose.downgrade,
        tight.zone_limits(deed.zone).at_most(loose.zone_limits(deed.zone)),
    ensures
        corridor_outcome(site, deed, justice_metrics, tight).0 == CorridorDecision::Allow
            ==> corridor_outcome(site, deed, justice_metrics, loose).0 == CorridorDecision::Allow,
        corridor_outcome(site, deed, justice_metrics, loose).0 != CorridorDecision::Allow
            ==> corridor_outcome(site, deed, justice_metrics, tight).0 == corridor_outcome(
            site,
            deed,
            justice_metrics,
            loose,
        ).0,
{
    crate::gates::lemma_tightening_is_monotone(
        crate::gates::corridor_gates(),
        predicted_scalars(site, deed, justice_metrics, loose.neurorights),
        loose.zone_limits(deed.zone),
        tight.zone_limits(deed.zone),
        loose.downgrade.softens(deed.kind),
    );
}

} // verus!
