//! The accumulation ledger's threshold check: once the pooled balance
//! reaches the deployment threshold, compute the deployment amounts, reset
//! the pool, and hand the intent to an external orchestrator.

use vstd::prelude::*;
use crate::state::GlobalState;

verus! {

/// Computed intent to deploy liquidity: swap `swap_amount` of the pooled
/// token for the base asset, then deposit `lp_token_amount` of the token
/// together with `lp_base_amount` of the base asset into the pool. The
/// crate only computes these amounts; an external orchestrator acts on
/// them.
#[derive(Clone, Copy, Debug, PartialEq, Eq, Structural)]
pub struct DeploymentSignal {
    pub swap_amount: u64,
    pub lp_token_amount: u64,
    pub lp_base_amount: u64,
}

/// What a threshold check reports: a deployment intent once the pool has
/// reached the threshold, or an advisory carrying the current pool and
/// threshold when it has not.
#[derive(Clone, Copy, Debug, PartialEq, Eq, Structural)]
pub enum ThresholdOutcome {
    /// The pool crossed the threshold and was reset; deploy these amounts.
    Deploy(DeploymentSignal),
    /// The pool is still below the threshold; nothing changed.
    NoOp { current: u64, threshold: u64 },
}

/// What one threshold check does to the record. At or above the threshold
/// the pool is reset to zero and each deployment amount is half the pool,
/// truncating — the one unit a division of an odd pool discards is
/// accepted, not corrected. Below the threshold nothing moves.
pub open spec fn threshold_transition(s: GlobalState) -> (GlobalState, ThresholdOutcome) {
    if s.accumulated_yot >= s.liquidity_threshold {
        (
            GlobalState {
                pool_authority: s.pool_authority,
                accumulated_yot: 0,
                cashback_bps: s.cashback_bps,
                liquidity_threshold: s.liquidity_threshold,
                weekly_apr_bps: s.weekly_apr_bps,
            },
            ThresholdOutcome::Deploy(
                DeploymentSignal {
                    swap_amount: (s.accumulated_yot / 2) as u64,
                    lp_token_amount: (s.accumulated_yot / 2) as u64,
                    lp_base_amount: (s.accumulated_yot / 2) as u64,
                },
            ),
        )
    } else {
        (
            s,
            ThresholdOutcome::NoOp {
                current: s.accumulated_yot,
                threshold: s.liquidity_threshold,
            },
        )
    }
}

/// Checks the pooled balance against the deployment threshold. Once the
/// pool has reached it, resets the pool and returns the deployment intent;
/// otherwise leaves the record alone and reports the current standing.
/// The check needs no authority and never fails.
pub fn add_liquidity_if_threshold(state: &mut GlobalState) -> (r: ThresholdOutcome)
    ensures
        (*final(state), r) == threshold_transition(*old(state)),
        old(state).accumulated_yot >= old(state).liquidity_threshold ==> {
            &&& final(state).accumulated_yot == 0
            &&& r == ThresholdOutcome::Deploy(
                (DeploymentSignal {
                    swap_amount: (old(state).accumulated_yot / 2) as u64,
                    lp_token_amount: (old(state).accumulated_yot / 2) as u64,
                    lp_base_amount: (old(state).accumulated_yot / 2) as u64,
                }),
            )
        },
        old(state).accumulated_yot < old(state).liquidity_threshold ==> *final(state) == *old(
            state,
        ) && r == (ThresholdOutcome::NoOp {
            current: old(state).accumulated_yot,
            threshold: old(state).liquidity_threshold,
        }),
{
    if state.accumulated_yot >= state.liquidity_threshold {
        let half_yot = state.accumulated_yot / 2;
        state.accumulated_yot = 0;
        ThresholdOutcome::Deploy(
            DeploymentSignal {
                swap_amount: half_yot,
                lp_token_amount: half_yot,
                lp_base_amount: half_yot,
            },
        )
    } else {
        ThresholdOutcome::NoOp {
            current: state.accumulated_yot,
            threshold: state.liquidity_threshold,
        }
    }
}

/// Threshold reset: once the pool has reached a positive threshold, the
/// check emits a deployment signal whose three amounts all equal half the
/// pool, truncating, and resets the pool to zero; an immediate second
/// check is then a no-op that changes nothing. (A threshold of zero is the
/// one configuration without the quiescent second call: a zero pool
/// already meets it, so every check fires with zero amounts.)
pub proof fn lemma_threshold_reset(s: GlobalState)
    requires
        s.accumulated_yot >= s.liquidity_threshold,
        s.liquidity_threshold > 0,
    ensures
        threshold_transition(s).1 == ThresholdOutcome::Deploy(
            (DeploymentSignal {
                swap_amount: (s.accumulated_yot / 2) as u64,
                lp_token_amount: (s.accumulated_yot / 2) as u64,
                lp_base_amount: (s.accumulated_yot / 2) as u64,
            }),
        ),
        threshold_transition(s).0.accumulated_yot == 0,
        threshold_transition(threshold_transition(s).0) == (
        threshold_transition(s).0,
        ThresholdOutcome::NoOp { current: 0, threshold: s.liquidity_threshold },
        ),
{
}

} // verus!
