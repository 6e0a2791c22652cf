//! Advisory diagnostics over a bounded asset view. Observer-only: nothing
//! here has authority over capability, consent or hardware.

use vstd::prelude::*;
use crate::scalar::{clamp, clamp_int, UNIT};

verus! {

/// The asset view of one snapshot; every scalar is meant to lie in
/// `[0, UNIT]`. Pure state, safe to log.
#[derive(Debug, Clone, Copy, PartialEq, Eq, Structural)]
pub struct TreeOfLifeView {
    pub blood: i64,
    pub oxygen: i64,
    pub wave: i64,
    pub h2o: i64,
    pub time: i64,
    pub decay: i64,
    pub lifeforce: i64,
    pub brain: i64,
    pub smart: i64,
    pub evolve: i64,
    pub power: i64,
    pub tech: i64,
    pub fear: i64,
    pub pain: i64,
    pub nano: i64,
}

/// Diagnostic flags of one snapshot, strictly advisory.
#[derive(Debug, Clone, PartialEq, Eq)]
pub struct TreeOfLifeDiagnostics {
    /// Labels for display, such as `balanced` or `overloaded`.
    pub labels: Vec<String>,
    /// Whether the view suggests that a cooldown would be healthy. A
    /// suggestion only.
    pub cooldown_advised: bool,
    /// Whether a fairness imbalance between subjects was observed.
    pub fairness_imbalance: bool,
}

/// Observer-only diagnostics.
#[derive(Debug, Clone, Copy)]
pub struct TreeOfLife;

/// The ceiling of the risk of harm: 0.30.
pub const ROH_CEILING: i64 = 300_000;

/// Whether a risk-of-harm score lies within `[0, ROH_CEILING]`. An observer's
/// guard only.
pub fn roh_within_ceiling(roh_score: i64) -> (res: bool)
    ensures
        res == (0 <= roh_score <= ROH_CEILING),
{
    roh_score >= 0 && roh_score <= ROH_CEILING
}

/// Lifeforce above 0.7 with fear and pain below 0.3.
pub open spec fn balanced(view: TreeOfLifeView) -> bool {
    view.lifeforce > 700_000 && view.fear < 300_000 && view.pain < 300_000
}

/// Fear or pain above 0.6.
pub open spec fn overloaded(view: TreeOfLifeView) -> bool {
    view.fear > 600_000 || view.pain > 600_000
}

/// Decay above 0.7.
pub open spec fn cooldown_recommended(view: TreeOfLifeView) -> bool {
    view.decay > 700_000
}

/// The sequence that holds `text` when `applies`, and nothing otherwise.
pub open spec fn text_if(applies: bool, text: Seq<char>) -> Seq<Seq<char>> {
    if applies {
        seq![text]
    } else {
        Seq::<Seq<char>>::empty()
    }
}

/// The labels of a view, in the fixed order `balanced`, `overloaded`,
/// `cooldown-recommended`.
pub open spec fn diagnostic_labels(view: TreeOfLifeView) -> Seq<Seq<char>> {
    text_if(balanced(view), "balanced"@) + text_if(overloaded(view), "overloaded"@) + text_if(
        cooldown_recommended(view),
        "cooldown-recommended"@,
    )
}

/// The texts of a list of labels.
pub open spec fn texts_of(labels: Seq<String>) -> Seq<Seq<char>> {
    Seq::new(labels.len(), |i: int| labels[i]@)
}

fn push_text_if(labels: &mut Vec<String>, applies: bool, text: &str)
    ensures
        texts_of(final(labels)@) == texts_of(old(labels)@) + text_if(applies, text@),
{
    if applies {
        labels.push(text.to_owned());
    }
    assert(texts_of(labels@) =~= texts_of(old(labels)@) + text_if(applies, text@));
}

impl TreeOfLife {
    /// Bounds a scalar to the unit interval.
    pub fn clamp01(x: i64) -> (r: i64)
        ensures
            r == clamp_int(x as int, 0, UNIT as int),
    {
        clamp(x, 0, UNIT)
    }

    /// Produces advisory diagnostics from a view only. A cooldown is advised
    /// when the view is overloaded or its decay recommends one; the fairness
    /// flag is left unset, since one view shows one subject.
    pub fn diagnostics(view: &TreeOfLifeView) -> (d: TreeOfLifeDiagnostics)
        ensures
            texts_of(d.labels@) == diagnostic_labels(*view),
            d.cooldown_advised == (overloaded(*view) || cooldown_recommended(*view)),
            !d.fairness_imbalance,
    {
        let mut labels: Vec<String> = Vec::new();
        assert(texts_of(labels@) =~= Seq::<Seq<char>>::empty());
        push_text_if(
            &mut labels,
            view.lifeforce > 700_000 && view.fear < 300_000 && view.pain < 300_000,
            "balanced",
        );
        push_text_if(&mut labels, view.fear > 600_000 || view.pain > 600_000, "overloaded");
        push_text_if(&mut labels, view.decay > 700_000, "cooldown-recommended");
        assert(texts_of(labels@) =~= diagnostic_labels(*view));
        let cooldown_advised = view.fear > 600_000 || view.pain > 600_000 || view.decay > 700_000;
        TreeOfLifeDiagnostics { labels, cooldown_advised, fairness_imbalance: false }
    }
}

} // verus!
