//! Governance corridor core: deterministic, ordered evaluation of proposed
//! actions against bounded safety envelopes, a capability-tier transition
//! gate, and a hash-linked append-only audit ledger.
//!
//! All measured quantities are fixed-point integers counted in millionths
//! (see [`scalar`]), so every comparison and every clamp is exact.
//!
//! The decision core:
//! - [`predictor`] computes the before and after value of every tracked
//!   dimension;
//! - [`gates`] walks the ordered gate list and reports the first violation;
//! - [`reversal`] gates capability-tier transitions, with [`roles`];
//! - [`verdict`] records a decision with a hash committing to it, laid out
//!   and digested by [`hashlink`];
//! - [`ledger`] keeps the records, each linked to the one before it.
//!
//! Around it stand the inputs and configuration ([`model`], [`limits`]), the
//! doctrine and fairness checks ([`doctrine`], [`nature_fairness_gate`],
//! [`fatewindow_view`], [`constraints`], [`disclosure`]), the label
//! classifiers ([`vocabulary_band`], [`tree_of_life`]), and a sandbox that
//! drives the core ([`simulation`], [`events`]).

pub mod scalar;
pub mod roles;
pub mod model;
pub mod limits;
pub mod predictor;
pub mod gates;
pub mod hashlink;
pub mod verdict;
pub mod ledger;
pub mod reversal;
pub mod doctrine;
pub mod nature_fairness_gate;
pub mod fatewindow_view;
pub mod constraints;
pub mod events;
pub mod simulation;
pub mod vocabulary_band;
pub mod tree_of_life;
pub mod disclosure;
