//! Maps the tokens and justice metrics of a site onto a small, auditable set
//! of doctrinal labels. Every label is an explicit band of inequalities; the
//! classification is pure and changes no token.

use vstd::prelude::*;
use crate::scalar::UNIT;

verus! {

/// Slack granted to the power bound: one thousandth of a millionth.
pub const POWER_SLACK: i128 = 1_000;

/// Token balances of a site.
#[derive(Debug, Clone, Copy, PartialEq, Eq, Structural)]
pub struct TokenState {
    pub church: i64,
    pub fear: i64,
    pub power: i64,
    pub tech: i64,
}

/// Justice metrics of a site: `hpcc` in `[0, 1]`, higher being better; `erg`
/// in `[-1, 1]`, positive meaning over-exposed and negative shielded; `tecr`
/// in `[0, 1]`.
#[derive(Debug, Clone, Copy, PartialEq, Eq, Structural)]
pub struct JusticeMetrics {
    pub hpcc: i64,
    pub erg: i64,
    pub tecr: i64,
}

/// Bioload of a site, in `[0, 1]`.
#[derive(Debug, Clone, Copy, PartialEq, Eq, Structural)]
pub struct BioState {
    pub bioload: i64,
}

/// The read-only view of a site that the classifier works on.
#[derive(Debug, Clone, Copy, PartialEq, Eq, Structural)]
pub struct SiteSnapshot {
    pub tokens: TokenState,
    pub justice: JusticeMetrics,
    pub bio: BioState,
}

/// The doctrinal labels.
#[derive(Debug, Clone, Copy, PartialEq, Eq, Hash, Structural)]
pub enum DoctrineLabel {
    /// Carries some load, behaves fairly, power within its band.
    Host,
    /// Low load, high CHURCH, low TECR: a stabilising environment.
    Sanctuary,
    /// Accepts a high bioload or exposure while helping.
    Sacrifice,
    /// High TECR or unsafe FEAR, with low CHURCH.
    Exile,
    /// Shielded, with unbounded power and weak help.
    Exploiter,
    /// Balanced metrics, no extremes.
    FairTrader,
    /// A large improvement in fairness and stability over an episode.
    Miracle,
}

impl DoctrineLabel {
    /// The name of the label.
    pub open spec fn name(self) -> Seq<char> {
        match self {
            DoctrineLabel::Host => "host"@,
            DoctrineLabel::Sanctuary => "sanctuary"@,
            DoctrineLabel::Sacrifice => "sacrifice"@,
            DoctrineLabel::Exile => "exile"@,
            DoctrineLabel::Exploiter => "exploiter"@,
            DoctrineLabel::FairTrader => "fair_trader"@,
            DoctrineLabel::Miracle => "miracle"@,
        }
    }

    /// The name of the label, as it is written in audit trails.
    pub fn label(&self) -> (s: &'static str)
        ensures
            s@ == self.name(),
    {
        match self {
            DoctrineLabel::Host => "host",
            DoctrineLabel::Sanctuary => "sanctuary",
            DoctrineLabel::Sacrifice => "sacrifice",
            DoctrineLabel::Exile => "exile",
            DoctrineLabel::Exploiter => "exploiter",
            DoctrineLabel::FairTrader => "fair_trader",
            DoctrineLabel::Miracle => "miracle",
        }
    }
}

/// The thresholds of the bands.
#[derive(Debug, Clone, Copy, PartialEq, Eq, Structural)]
pub struct VocabBands {
    /// Power is bounded while it is at most this factor times CHURCH.
    pub power_church_k: i64,
    /// An ERG of at most this magnitude is near-fair.
    pub erg_fair_abs: i64,
    /// An ERG of at least this is over-exposed.
    pub erg_over_exposed: i64,
    /// An ERG of at most minus this is under-exposed.
    pub erg_under_exposed: i64,
    pub hpcc_high: i64,
    pub hpcc_low: i64,
    pub bioload_low: i64,
    pub bioload_high: i64,
    pub tecr_high: i64,
    pub tecr_low: i64,
    pub fear_min_safe: i64,
    pub fear_max_safe: i64,
}

impl Default for VocabBands {
    /// Conservative, symmetric defaults.
    fn default() -> (bands: VocabBands)
        ensures
            bands == (VocabBands {
                power_church_k: 3_000_000,
                erg_fair_abs: 150_000,
                erg_over_exposed: 350_000,
                erg_under_exposed: 350_000,
                hpcc_high: 700_000,
                hpcc_low: 300_000,
                bioload_low: 300_000,
                bioload_high: 800_000,
                tecr_high: 400_000,
                tecr_low: 100_000,
                fear_min_safe: 200_000,
                fear_max_safe: 800_000,
            }),
    {
        VocabBands {
            power_church_k: 3_000_000,
            erg_fair_abs: 150_000,
            erg_over_exposed: 350_000,
            erg_under_exposed: 350_000,
            hpcc_high: 700_000,
            hpcc_low: 300_000,
            bioload_low: 300_000,
            bioload_high: 800_000,
            tecr_high: 400_000,
            tecr_low: 100_000,
            fear_min_safe: 200_000,
            fear_max_safe: 800_000,
        }
    }
}

/// A site together with its FEAR scalar.
#[derive(Debug, Clone, Copy, PartialEq, Eq, Structural)]
pub struct SiteWithFear {
    pub snapshot: SiteSnapshot,
    pub fear: i64,
}

/// The absolute value of a scalar.
pub open spec fn magnitude(v: int) -> int {
    if v < 0 {
        -v
    } else {
        v
    }
}

/// The facts about a site that the bands are made of.
pub struct BandFacts {
    pub power_bounded: bool,
    pub fear_safe: bool,
    pub low_tecr: bool,
    pub high_tecr: bool,
    pub hpcc_high: bool,
    pub hpcc_low: bool,
    pub near_fair_exposure: bool,
    pub over_exposed: bool,
    pub under_exposed: bool,
    pub low_load: bool,
    pub high_load: bool,
    pub church_high: bool,
    pub church_low: bool,
}

/// The facts of a site under the given bands. Power is bounded when it is
/// at most the configured factor times CHURCH, up to the slack; with no
/// CHURCH at all, only when it is within the slack of zero.
pub open spec fn band_facts(site: SiteWithFear, bands: VocabBands) -> BandFacts {
    let t = site.snapshot.tokens;
    let j = site.snapshot.justice;
    let b = site.snapshot.bio;
    BandFacts {
        power_bounded: if t.church > 0 {
            t.power * UNIT <= bands.power_church_k * t.church + POWER_SLACK
        } else {
            t.power <= 0
        },
        fear_safe: bands.fear_min_safe <= site.fear <= bands.fear_max_safe,
        low_tecr: j.tecr <= bands.tecr_low,
        high_tecr: j.tecr >= bands.tecr_high,
        hpcc_high: j.hpcc >= bands.hpcc_high,
        hpcc_low: j.hpcc <= bands.hpcc_low,
        near_fair_exposure: magnitude(j.erg as int) <= bands.erg_fair_abs,
        over_exposed: j.erg >= bands.erg_over_exposed,
        under_exposed: j.erg <= -bands.erg_under_exposed,
        low_load: b.bioload <= bands.bioload_low,
        high_load: b.bioload >= bands.bioload_high,
        church_high: t.church > 500_000,
        church_low: t.church < 200_000,
    }
}

impl BandFacts {
    /// Low load, high CHURCH, bounded power, low TECR, safe FEAR.
    pub open spec fn sanctuary(self) -> bool {
        self.low_load && self.church_high && self.power_bounded && self.low_tecr && self.fear_safe
    }

    /// Moderate load, bounded power, high HPCC, near-fair exposure, safe FEAR.
    pub open spec fn host(self) -> bool {
        !self.low_load && !self.high_load && self.power_bounded && self.hpcc_high
            && self.near_fair_exposure && self.fear_safe
    }

    /// High load or over-exposed, with high HPCC and bounded power.
    pub open spec fn sacrifice(self) -> bool {
        (self.high_load || self.over_exposed) && self.hpcc_high && self.power_bounded
    }

    /// High TECR or unsafe FEAR, with low CHURCH.
    pub open spec fn exile(self) -> bool {
        (self.high_tecr || !self.fear_safe) && self.church_low
    }

    /// Under-exposed, unbounded power, low HPCC, low load.
    pub open spec fn exploiter(self) -> bool {
        self.under_exposed && !self.power_bounded && self.hpcc_low && self.low_load
    }

    /// Balanced metrics: none of exploiter, exile and sacrifice applies, the
    /// exposure is near-fair, and HPCC, TECR and load show no extreme.
    pub open spec fn fair_trader(self) -> bool {
        !self.exploiter() && !self.exile() && !self.sacrifice() && self.near_fair_exposure
            && !self.hpcc_low && !self.high_tecr && !self.high_load
    }
}

/// The sequence that holds `label` when `applies`, and nothing otherwise.
pub open spec fn label_if(applies: bool, label: DoctrineLabel) -> Seq<DoctrineLabel> {
    if applies {
        seq![label]
    } else {
        Seq::<DoctrineLabel>::empty()
    }
}

/// Every label that applies to the site, in the fixed order sanctuary, host,
/// sacrifice, exile, exploiter, fair trader.
pub open spec fn site_labels(site: SiteWithFear, bands: VocabBands) -> Seq<DoctrineLabel> {
    let f = band_facts(site, bands);
    label_if(f.sanctuary(), DoctrineLabel::Sanctuary) + label_if(f.host(), DoctrineLabel::Host)
        + label_if(f.sacrifice(), DoctrineLabel::Sacrifice) + label_if(
        f.exile(),
        DoctrineLabel::Exile,
    ) + label_if(f.exploiter(), DoctrineLabel::Exploiter) + label_if(
        f.fair_trader(),
        DoctrineLabel::FairTrader,
    )
}

fn push_if(labels: &mut Vec<DoctrineLabel>, applies: bool, label: DoctrineLabel)
    ensures
        final(labels)@ == old(labels)@ + label_if(applies, label),
{
    if applies {
        labels.push(label);
    }
    assert(labels@ =~= old(labels)@ + label_if(applies, label));
}

/// Evaluates the bands and returns every label that applies to the site.
pub fn classify_site(site: &SiteWithFear, bands: &VocabBands) -> (labels: Vec<DoctrineLabel>)
    ensures
        labels@ == site_labels(*site, *bands),
{
    let t = &site.snapshot.tokens;
    let j = &site.snapshot.justice;
    let b = &site.snapshot.bio;

    let power_bounded = if t.church > 0 {
        assert(bands.power_church_k * t.church <= 0x4000_0000_0000_0000_0000_0000_0000_0000
            && bands.power_church_k * t.church >= -0x4000_0000_0000_0000_0000_0000_0000_0000
            && t.power * UNIT <= 0x4000_0000_0000_0000_0000_0000_0000_0000 && t.power * UNIT
            >= -0x4000_0000_0000_0000_0000_0000_0000_0000) by (nonlinear_arith)
            requires
                i64::MIN <= bands.power_church_k <= i64::MAX,
                i64::MIN <= t.church <= i64::MAX,
                i64::MIN <= t.power <= i64::MAX,
                UNIT == 1_000_000,
        ;
        t.power as i128 * UNIT as i128 <= bands.power_church_k as i128 * t.church as i128
            + POWER_SLACK
    } else {
        t.power <= 0
    };
    let fear_safe = site.fear >= bands.fear_min_safe && site.fear <= bands.fear_max_safe;
    let low_tecr = j.tecr <= bands.tecr_low;
    let high_tecr = j.tecr >= bands.tecr_high;
    let hpcc_high = j.hpcc >= bands.hpcc_high;
    let hpcc_low = j.hpcc <= bands.hpcc_low;
    let erg: i128 = j.erg as i128;
    let erg_abs: i128 = if erg < 0 {
        -erg
    } else {
        erg
    };
    let near_fair_exposure = erg_abs <= bands.erg_fair_abs as i128;
    let over_exposed = j.erg >= bands.erg_over_exposed;
    let under_exposed = erg <= -(bands.erg_under_exposed as i128);
    let low_load = b.bioload <= bands.bioload_low;
    let high_load = b.bioload >= bands.bioload_high;

    let sanctuary = low_load && t.church > 500_000 && power_bounded && low_tecr && fear_safe;
    let host = !low_load && !high_load && power_bounded && hpcc_high && near_fair_exposure
        && fear_safe;
    let sacrifice = (high_load || over_exposed) && hpcc_high && power_bounded;
    let exile = (high_tecr || !fear_safe) && t.church < 200_000;
    let exploiter = under_exposed && !power_bounded && hpcc_low && low_load;
    let fair_trader = !exploiter && !exile && !sacrifice && near_fair_exposure && !hpcc_low
        && !high_tecr && !high_load;

    let mut labels: Vec<DoctrineLabel> = Vec::new();
    push_if(&mut labels, sanctuary, DoctrineLabel::Sanctuary);
    push_if(&mut labels, host, DoctrineLabel::Host);
    push_if(&mut labels, sacrifice, DoctrineLabel::Sacrifice);
    push_if(&mut labels, exile, DoctrineLabel::Exile);
    push_if(&mut labels, exploiter, DoctrineLabel::Exploiter);
    push_if(&mut labels, fair_trader, DoctrineLabel::FairTrader);
    assert(labels@ =~= site_labels(*site, *bands));
    labels
}

/// No site is both an exploiter and a sanctuary, a host or a fair trader;
/// and a fair trader is neither in exile nor a sacrifice.
pub proof fn lemma_labels_exclude(site: SiteWithFear, bands: VocabBands)
    ensures
        band_facts(site, bands).exploiter() ==> !band_facts(site, bands).sanctuary()
            && !band_facts(site, bands).host() && !band_facts(site, bands).fair_trader(),
        band_facts(site, bands).fair_trader() ==> !band_facts(site, bands).exile() && !band_facts(
            site,
            bands,
        ).sacrifice(),
{
}

/// Aggregates of an episode, before and after.
#[derive(Debug, Clone, Copy, PartialEq, Eq, Structural)]
pub struct EpisodeSummary {
    pub hpcc_before: i64,
    pub hpcc_after: i64,
    pub erg_before: i64,
    pub erg_after: i64,
    pub tecr_before: i64,
    pub tecr_after: i64,
    pub bioload_before: i64,
    pub bioload_after: i64,
}

/// The least improvements that make an episode a miracle.
#[derive(Debug, Clone, Copy, PartialEq, Eq, Structural)]
pub struct MiracleBands {
    pub min_delta_hpcc: i64,
    pub min_delta_erg_abs: i64,
    pub min_delta_tecr: i64,
    pub min_delta_bioload: i64,
}

impl Default for MiracleBands {
    fn default() -> (bands: MiracleBands)
        ensures
            bands == (MiracleBands {
                min_delta_hpcc: 150_000,
                min_delta_erg_abs: 150_000,
                min_delta_tecr: 150_000,
                min_delta_bioload: 100_000,
            }),
    {
        MiracleBands {
            min_delta_hpcc: 150_000,
            min_delta_erg_abs: 150_000,
            min_delta_tecr: 150_000,
            min_delta_bioload: 100_000,
        }
    }
}

/// The episode improved HPCC, the magnitude of ERG, TECR and the mean
/// bioload, each by at least its band.
pub open spec fn is_miracle(summary: EpisodeSummary, bands: MiracleBands) -> bool {
    &&& summary.hpcc_after - summary.hpcc_before >= bands.min_delta_hpcc
    &&& magnitude(summary.erg_before as int) - magnitude(summary.erg_after as int)
        >= bands.min_delta_erg_abs
    &&& summary.tecr_before - summary.tecr_after >= bands.min_delta_tecr
    &&& summary.bioload_before - summary.bioload_after >= bands.min_delta_bioload
}

/// Decides whether an episode qualifies as a miracle.
pub fn classify_episode_miracle(summary: &EpisodeSummary, bands: &MiracleBands) -> (res: bool)
    ensures
        res == is_miracle(*summary, *bands),
{
    let delta_hpcc: i128 = summary.hpcc_after as i128 - summary.hpcc_before as i128;
    let erg_before: i128 = if summary.erg_before < 0 {
        -(summary.erg_before as i128)
    } else {
        summary.erg_before as i128
    };
    let erg_after: i128 = if summary.erg_after < 0 {
        -(summary.erg_after as i128)
    } else {
        summary.erg_after as i128
    };
    let delta_erg_abs: i128 = erg_before - erg_after;
    let delta_tecr: i128 = summary.tecr_before as i128 - summary.tecr_after as i128;
    let delta_bioload: i128 = summary.bioload_before as i128 - summary.bioload_after as i128;
    delta_hpcc >= bands.min_delta_hpcc as i128 && delta_erg_abs >= bands.min_delta_erg_abs as i128
        && delta_tecr >= bands.min_delta_tecr as i128 && delta_bioload
        >= bands.min_delta_bioload as i128
}

} // verus!
