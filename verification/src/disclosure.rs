//! Fairness diagnostics over a pool: the unfair-drain predicate of a
//! scenario, and the token that stamps an act of disclosure.

use vstd::prelude::*;
use vstd::string::StringExecFns;
use crate::events::{decimal_digits, decimal_string};
use crate::hashlink::{hex_encode, hex_encoding};

verus! {

/// A scenario over a pool of humans.
#[derive(Debug, Clone, Copy, PartialEq, Eq, Structural)]
pub struct Scenario {
    pub total_humans: u32,
    pub disagreeing: u32,
    pub reasoning: u32,
    /// Concepts are kept hidden from the pool.
    pub hidden_concepts: bool,
    /// The pool has consented.
    pub neuro_consent: bool,
}

/// Whether the scenario holds an unfair drain: hidden concepts without
/// consent.
pub fn unfair_drain_predicate(scenario: &Scenario) -> (res: bool)
    ensures
        res == (scenario.hidden_concepts && !scenario.neuro_consent),
{
    scenario.hidden_concepts && !scenario.neuro_consent
}

/// The text of a disclosure token: the prefix, the sharer's number in
/// decimal, a hyphen, and the concept's UTF-8 bytes in lower-case
/// hexadecimal.
pub open spec fn disclosure_token(concept: Seq<char>, sharer: u32) -> Seq<char> {
    "0xDISCLOSE-"@ + decimal_digits(sharer as nat) + "-"@ + hex_encoding(
        vstd::utf8::encode_utf8(concept),
    )
}

/// Stamps an act of disclosure of `concept` by `sharer`.
pub fn generate_disclosure_token(concept: &str, sharer: u32) -> (token: String)
    ensures
        token@ == disclosure_token(concept@, sharer),
{
    let mut token = "0xDISCLOSE-".to_owned();
    let number = decimal_string(sharer as usize);
    token.append(number.as_str());
    token.append("-");
    let digits = hex_encode(concept.as_bytes());
    token.append(digits.as_str());
    token
}

} // verus!
