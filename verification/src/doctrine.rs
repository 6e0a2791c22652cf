//! Diagnostic safety doctrine as checked invariants.
//!
//! Nothing here executes diagnostics or actuation. The module provides role
//! markers, bounded evidence values, the biosafe operating corridor, the
//! lifecycle metadata of a fate window, and the checks that hold a window
//! and a kernel decision to the doctrine.

use vstd::prelude::*;
use crate::scalar::{clamp, clamp_int, UNIT};

verus! {

/// The ceiling of the risk of harm inside the biosafe corridor: 0.30.
pub const ROH_CORRIDOR_MAX: i64 = 300_000;

/// Marker of observer-tier, diagnostic-only components.
#[derive(Debug, Clone, Copy, Default)]
pub struct DiagnosticRole;

/// Marker of capability and actuator components.
#[derive(Debug, Clone, Copy, Default)]
pub struct ActuatorRole;

/// Bounded evidence value in `[0, UNIT]`: the only numeric input that
/// diagnostics hand to a kernel.
#[derive(Debug, Clone, Copy, PartialEq, Eq)]
pub struct EvidenceScalar(i64);

impl EvidenceScalar {
    #[verifier::type_invariant]
    spec fn in_unit_interval(self) -> bool {
        0 <= self.0 <= UNIT
    }

    /// The value held.
    pub closed spec fn amount(self) -> int {
        self.0 as int
    }

    /// Holds `v`, clamped to `[0, UNIT]`.
    pub fn new(v: i64) -> (e: EvidenceScalar)
        ensures
            e.amount() == clamp_int(v as int, 0, UNIT as int),
    {
        EvidenceScalar(clamp(v, 0, UNIT))
    }

    /// The value held; it always lies in `[0, UNIT]`.
    pub fn value(self) -> (v: i64)
        ensures
            v == self.amount(),
            0 <= v <= UNIT,
    {
        proof {
            use_type_invariant(self);
        }
        self.0
    }
}

/// Coarse evidence flags handed to a kernel; they are derived from
/// diagnostics, not raw labels.
#[derive(Debug, Clone, Copy, Default, PartialEq, Eq)]
pub struct EvidenceFlags {
    pub corridor_safe: bool,
    pub window_valid: bool,
    pub no_safer_alternative: bool,
    pub overload_present: bool,
}

/// The biosafe polytope of legal operation.
#[derive(Debug, Clone, Copy, PartialEq, Eq, Structural)]
pub struct BiosafePolytope {
    /// Risk of harm.
    pub roh: i64,
    /// Normalised degradation.
    pub decay: i64,
    /// Lifeforce fraction.
    pub lifeforce: i64,
    /// Whether an unfair drain was detected.
    pub unfair_drain: bool,
}

impl BiosafePolytope {
    /// The polytope lies in the legal operating corridor: the risk of harm is
    /// at most 0.30, the decay at most 1, the lifeforce within `[0, 1]`, and
    /// no unfair drain is flagged.
    pub open spec fn legal(self) -> bool {
        &&& self.roh <= ROH_CORRIDOR_MAX
        &&& self.decay <= UNIT
        &&& 0 <= self.lifeforce <= UNIT
        &&& !self.unfair_drain
    }

    /// Builds a polytope; the risk of harm is clamped to `[0, 0.30]`, the
    /// decay and the lifeforce to `[0, 1]`.
    pub fn new(roh: i64, decay: i64, lifeforce: i64, unfair_drain: bool) -> (p: BiosafePolytope)
        ensures
            p.roh == clamp_int(roh as int, 0, ROH_CORRIDOR_MAX as int),
            p.decay == clamp_int(decay as int, 0, UNIT as int),
            p.lifeforce == clamp_int(lifeforce as int, 0, UNIT as int),
            p.unfair_drain == unfair_drain,
            p.legal() <==> !unfair_drain,
    {
        BiosafePolytope {
            roh: clamp(roh, 0, ROH_CORRIDOR_MAX),
            decay: clamp(decay, 0, UNIT),
            lifeforce: clamp(lifeforce, 0, UNIT),
            unfair_drain,
        }
    }

    /// Whether the polytope lies in the legal operating corridor.
    pub fn is_legal_corridor(&self) -> (res: bool)
        ensures
            res == self.legal(),
    {
        self.roh <= ROH_CORRIDOR_MAX && self.decay <= UNIT && 0 <= self.lifeforce && self.lifeforce
            <= UNIT && !self.unfair_drain
    }
}

/// State of a fate window, a log-only diagnostic interval.
#[derive(Debug, Clone, Copy, PartialEq, Eq, Structural)]
pub enum FateWindowState {
    Closed,
    Open,
    Invalidated,
}

impl Default for FateWindowState {
    fn default() -> (state: FateWindowState)
        ensures
            state == FateWindowState::Closed,
    {
        FateWindowState::Closed
    }
}

/// Metadata of a fate window, for audits.
#[derive(Debug, Clone, Copy, PartialEq, Eq)]
pub struct FateWindow {
    pub state: FateWindowState,
    pub started_at_tick: Option<u64>,
    pub ended_at_tick: Option<u64>,
    pub biosafe_polytope: BiosafePolytope,
}

impl FateWindow {
    /// The window is open and its polytope is legal.
    pub open spec fn open_and_legal(&self) -> bool {
        self.state == FateWindowState::Open && self.biosafe_polytope.legal()
    }

    /// A closed window that never ran, with a polytope at rest: no risk, no
    /// decay, full lifeforce, no unfair drain.
    pub fn new_closed() -> (fw: FateWindow)
        ensures
            fw.state == FateWindowState::Closed,
            fw.started_at_tick.is_none(),
            fw.ended_at_tick.is_none(),
            fw.biosafe_polytope == (BiosafePolytope {
                roh: 0,
                decay: 0,
                lifeforce: UNIT,
                unfair_drain: false,
            }),
    {
        FateWindow {
            state: FateWindowState::Closed,
            started_at_tick: None,
            ended_at_tick: None,
            biosafe_polytope: BiosafePolytope::new(0, 0, UNIT, false),
        }
    }

    /// Whether the window is open inside the legal corridor.
    pub fn is_open_and_legal(&self) -> (res: bool)
        ensures
            res == self.open_and_legal(),
    {
        self.state == FateWindowState::Open && self.biosafe_polytope.is_legal_corridor()
    }
}

/// What a kernel may read: flags, one bounded strength, and the polytope.
#[derive(Debug, Clone, Copy, PartialEq, Eq)]
pub struct BeastKernelInput {
    pub evidence_flags: EvidenceFlags,
    pub evidence_strength: EvidenceScalar,
    pub biosafe_polytope: BiosafePolytope,
}

/// The decisions open to a kernel. All are conservative: a kernel can deny,
/// pause or force repair, but cannot grant a new capability.
#[derive(Debug, Clone, Copy, PartialEq, Eq, Structural)]
pub enum BeastDecision {
    Allow,
    Deny,
    PauseForReview,
    ForceRepair,
}

/// A violated doctrine invariant.
#[derive(Debug, Clone, Copy, PartialEq, Eq, Structural)]
pub enum DoctrineError {
    /// A fate window is open outside the legal biosafe corridor.
    FateWindowIllegal,
    /// An unfair drain is flagged inside the biosafe corridor.
    UnfairDrainDetected,
    /// A kernel tried to expand capabilities on the strength of diagnostics.
    IllegalCapabilityExpansion,
}

impl DoctrineError {
    /// The text of the error.
    pub open spec fn text(self) -> Seq<char> {
        match self {
            DoctrineError::FateWindowIllegal => "FateWindow open outside legal biosafe corridor"@,
            DoctrineError::UnfairDrainDetected => "UNFAIRDRAIN flagged inside biosafe corridor"@,
            DoctrineError::IllegalCapabilityExpansion => {
                "BEAST kernel attempted to expand capabilities based on diagnostics"@
            },
        }
    }

    /// The text of the error.
    pub fn message(&self) -> (s: String)
        ensures
            s@ == self.text(),
    {
        match self {
            DoctrineError::FateWindowIllegal => {
                "FateWindow open outside legal biosafe corridor".to_owned()
            },
            DoctrineError::UnfairDrainDetected => {
                "UNFAIRDRAIN flagged inside biosafe corridor".to_owned()
            },
            DoctrineError::IllegalCapabilityExpansion => {
                "BEAST kernel attempted to expand capabilities based on diagnostics".to_owned()
            },
        }
    }
}

/// What the doctrine says of a fate window: an open window with an illegal
/// polytope is refused; every other window obeys.
pub open spec fn fatewindow_doctrine(fw: &FateWindow) -> Result<(), DoctrineError> {
    if fw.state == FateWindowState::Open && !fw.biosafe_polytope.legal() {
        Err(DoctrineError::FateWindowIllegal)
    } else {
        Ok(())
    }
}

/// Checks that a fate window obeys the doctrine.
pub fn assert_fatewindow_doctrine(fw: &FateWindow) -> (res: Result<(), DoctrineError>)
    ensures
        res == fatewindow_doctrine(fw),
        res.is_ok() <==> (fw.state == FateWindowState::Open ==> fw.biosafe_polytope.legal()),
{
    if fw.state == FateWindowState::Open && !fw.biosafe_polytope.is_legal_corridor() {
        return Err(DoctrineError::FateWindowIllegal);
    }
    if fw.biosafe_polytope.is_legal_corridor() && fw.biosafe_polytope.unfair_drain {
        return Err(DoctrineError::UnfairDrainDetected);
    }
    Ok(())
}

/// Checks that a kernel decision grants no capability. Every decision that a
/// kernel can express is conservative, so the check accepts all of them.
pub fn assert_beast_decision_non_expansive(decision: BeastDecision) -> (res: Result<
    (),
    DoctrineError,
>)
    ensures
        res == Ok::<(), DoctrineError>(()),
{
    match decision {
        BeastDecision::Allow
        | BeastDecision::Deny
        | BeastDecision::PauseForReview
        | BeastDecision::ForceRepair => Ok(()),
    }
}

/// A window that the doctrine accepts is never open outside the legal
/// corridor, and a legal polytope never carries an unfair drain.
pub proof fn lemma_doctrine_keeps_open_windows_legal(fw: &FateWindow)
    ensures
        fatewindow_doctrine(fw).is_ok() && fw.state == FateWindowState::Open
            ==> fw.open_and_legal(),
        fw.biosafe_polytope.legal() ==> !fw.biosafe_polytope.unfair_drain,
{
}

} // verus!
