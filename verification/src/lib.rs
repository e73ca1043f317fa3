//! Bookkeeping core of the YOT/YOS token-economics protocol.
//!
//! The library models the protocol's single persistent record
//! ([`state::GlobalState`]) and the three operations that read and mutate it:
//! parameter management ([`state::initialize`], [`state::set_params`]), the
//! three-way distribution of a swapped amount
//! ([`distribution::swap_and_distribute`]), and the threshold-triggered
//! liquidity-deployment check ([`threshold::add_liquidity_if_threshold`]).
//!
//! Token transfers and minting are performed by an external ledger service,
//! and the eventual swap-and-deposit is performed by an external liquidity
//! orchestrator; both stay outside this crate. The host hands their outcomes
//! in as plain values and carries the computed amounts back out, so every
//! decision the protocol makes is verified here.

pub mod errors;
pub mod state;
pub mod distribution;
pub mod threshold;
