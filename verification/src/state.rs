//! The persistent protocol record and its parameter management.

use vstd::prelude::*;
use crate::errors::ProtocolError;

verus! {

/// Rate denominator: 10,000 basis points make 100%.
pub const BASIS_POINTS: u64 = 10_000;

/// Cashback rate installed by `initialize`, in basis points (5%).
pub const DEFAULT_CASHBACK_BPS: u64 = 500;

/// Deployment threshold installed by `initialize`, in base units.
pub const DEFAULT_LIQUIDITY_THRESHOLD: u64 = 100_000_000;

/// Weekly rate installed by `initialize`, in basis points.
pub const DEFAULT_WEEKLY_APR_BPS: u64 = 701;

/// An identity of the hosting runtime: an account key reduced to the one
/// thing the protocol reads of it, a value that can be compared for equality.
#[derive(Clone, Copy, Debug, PartialEq, Eq, Structural)]
pub struct Identity {
    pub id: u64,
}

/// The protocol's single persistent record: the authority allowed to tune
/// parameters, the pooled balance fed by distributions, and the three
/// tunable rates.
#[derive(Clone, Copy, Debug, PartialEq, Eq, Structural)]
pub struct GlobalState {
    /// Identity permitted to mutate the parameters. Set once at creation;
    /// no operation reassigns it.
    pub pool_authority: Identity,
    /// Running pooled balance. Grows by the vault contribution of each
    /// successful distribution and is reset to zero by a threshold crossing.
    pub accumulated_yot: u64,
    /// Cashback rate in basis points.
    pub cashback_bps: u64,
    /// Pooled balance at which the deployment check fires.
    pub liquidity_threshold: u64,
    /// Weekly rate in basis points; stored for external readers, never read
    /// by the operations here.
    pub weekly_apr_bps: u64,
}

/// The record as `initialize` creates it: the given authority, an empty
/// pool, and the default rates.
pub open spec fn initial_state(pool_authority: Identity) -> GlobalState {
    GlobalState {
        pool_authority,
        accumulated_yot: 0,
        cashback_bps: DEFAULT_CASHBACK_BPS,
        liquidity_threshold: DEFAULT_LIQUIDITY_THRESHOLD,
        weekly_apr_bps: DEFAULT_WEEKLY_APR_BPS,
    }
}

/// What `set_params` does to a record: the caller must be the stored
/// authority; then all three rates are overwritten at once, and nothing
/// else changes. Any other caller is turned away and the record is kept.
pub open spec fn set_params_transition(
    s: GlobalState,
    caller: Identity,
    cashback_bps: u64,
    liquidity_threshold: u64,
    weekly_apr_bps: u64,
) -> (GlobalState, Result<(), ProtocolError>) {
    if caller == s.pool_authority {
        (
            GlobalState {
                pool_authority: s.pool_authority,
                accumulated_yot: s.accumulated_yot,
                cashback_bps,
                liquidity_threshold,
                weekly_apr_bps,
            },
            Ok(()),
        )
    } else {
        (s, Err(ProtocolError::Unauthorized))
    }
}

impl GlobalState {
    /// The capability check shared by every privileged operation: does the
    /// caller hold the stored authority?
    pub fn is_authority(&self, caller: Identity) -> (r: bool)
        ensures
            r == (caller == self.pool_authority),
    {
        caller == self.pool_authority
    }
}

/// Creates the persistent record in its slot. Fails with
/// `AlreadyInitialized`, touching nothing, when the slot is occupied;
/// otherwise installs the defaults with the given authority.
pub fn initialize(slot: &mut Option<GlobalState>, pool_authority: Identity) -> (r: Result<
    (),
    ProtocolError,
>)
    ensures
        (*old(slot)) is Some ==> r == Err::<(), ProtocolError>(ProtocolError::AlreadyInitialized)
            && *final(slot) == *old(slot),
        (*old(slot)) is None ==> r == Ok::<(), ProtocolError>(()) && *final(slot) == Some(
            initial_state(pool_authority),
        ),
{
    if slot.is_some() {
        Err(ProtocolError::AlreadyInitialized)
    } else {
        *slot = Some(
            GlobalState {
                pool_authority,
                accumulated_yot: 0,
                cashback_bps: DEFAULT_CASHBACK_BPS,
                liquidity_threshold: DEFAULT_LIQUIDITY_THRESHOLD,
                weekly_apr_bps: DEFAULT_WEEKLY_APR_BPS,
            },
        );
        Ok(())
    }
}

/// Overwrites the three tunable parameters, provided the caller is the
/// stored authority. No range check is made here: out-of-range rates are
/// accepted and only rejected later, when a distribution uses them.
pub fn set_params(
    state: &mut GlobalState,
    caller: Identity,
    cashback_bps: u64,
    liquidity_threshold: u64,
    weekly_apr_bps: u64,
) -> (r: Result<(), ProtocolError>)
    ensures
        (*final(state), r) == set_params_transition(
            *old(state),
            caller,
            cashback_bps,
            liquidity_threshold,
            weekly_apr_bps,
        ),
        caller != old(state).pool_authority ==> r == Err::<(), ProtocolError>(
            ProtocolError::Unauthorized,
        ) && *final(state) == *old(state),
{
    if state.is_authority(caller) {
        state.cashback_bps = cashback_bps;
        state.liquidity_threshold = liquidity_threshold;
        state.weekly_apr_bps = weekly_apr_bps;
        Ok(())
    } else {
        Err(ProtocolError::Unauthorized)
    }
}

/// Authority gating: `set_params` from any identity other than the stored
/// authority fails with `Unauthorized` and leaves every field of the record
/// unchanged.
pub proof fn lemma_authority_gating(
    s: GlobalState,
    caller: Identity,
    cashback_bps: u64,
    liquidity_threshold: u64,
    weekly_apr_bps: u64,
)
    requires
        caller != s.pool_authority,
    ensures
        set_params_transition(s, caller, cashback_bps, liquidity_threshold, weekly_apr_bps) == (
        s,
        Err::<(), ProtocolError>(ProtocolError::Unauthorized),
        ),
{
}

} // verus!
