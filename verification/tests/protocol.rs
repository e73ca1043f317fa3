use yot_yos_dapp::distribution::{compute_distribution, swap_and_distribute};
use yot_yos_dapp::errors::{LedgerError, ProtocolError};
use yot_yos_dapp::state::{initialize, set_params, GlobalState, Identity};
use yot_yos_dapp::threshold::{add_liquidity_if_threshold, DeploymentSignal, ThresholdOutcome};

fn fresh_state(authority_id: u64) -> GlobalState {
    let mut slot: Option<GlobalState> = None;
    let r = initialize(&mut slot, Identity { id: authority_id });
    assert_eq!(r, Ok(()));
    slot.unwrap()
}

#[test]
fn initialize_installs_defaults() {
    let state = fresh_state(1);
    assert_eq!(state.pool_authority, Identity { id: 1 });
    assert_eq!(state.accumulated_yot, 0);
    assert_eq!(state.cashback_bps, 500);
    assert_eq!(state.liquidity_threshold, 100_000_000);
    assert_eq!(state.weekly_apr_bps, 701);
}

#[test]
fn initialize_twice_fails() {
    let mut slot: Option<GlobalState> = None;
    assert_eq!(initialize(&mut slot, Identity { id: 1 }), Ok(()));
    let kept = slot;
    assert_eq!(
        initialize(&mut slot, Identity { id: 2 }),
        Err(ProtocolError::AlreadyInitialized)
    );
    assert_eq!(slot, kept);
}

#[test]
fn set_params_by_authority_updates_all_three() {
    let mut state = fresh_state(1);
    let r = set_params(&mut state, Identity { id: 1 }, 750, 50_000_000, 900);
    assert_eq!(r, Ok(()));
    assert_eq!(state.cashback_bps, 750);
    assert_eq!(state.liquidity_threshold, 50_000_000);
    assert_eq!(state.weekly_apr_bps, 900);
    assert_eq!(state.pool_authority, Identity { id: 1 });
    assert_eq!(state.accumulated_yot, 0);
}

#[test]
fn set_params_by_stranger_is_unauthorized() {
    let mut state = fresh_state(1);
    let before = state;
    let r = set_params(&mut state, Identity { id: 2 }, 750, 50_000_000, 900);
    assert_eq!(r, Err(ProtocolError::Unauthorized));
    assert_eq!(state, before);
}

#[test]
fn set_params_accepts_out_of_range_rates() {
    let mut state = fresh_state(1);
    let r = set_params(&mut state, Identity { id: 1 }, 12_000, 1, 1);
    assert_eq!(r, Ok(()));
    assert_eq!(state.cashback_bps, 12_000);
}

#[test]
fn swap_of_a_million_splits_as_advertised() {
    let mut state = fresh_state(1);
    let d = swap_and_distribute(&mut state, 1_000_000, Ok(())).unwrap();
    assert_eq!(d.cashback_share, 50_000);
    assert_eq!(d.vault_share, 200_000);
    assert_eq!(d.user_share, 750_000);
    assert_eq!(state.accumulated_yot, 200_000);
}

#[test]
fn split_truncation_goes_to_the_user() {
    // 9,999 at 500 bps: cashback 499 and vault 1,999 truncate; the user
    // absorbs both remainders.
    let d = compute_distribution(9_999, 500).unwrap();
    assert_eq!(d.cashback_share, 499);
    assert_eq!(d.vault_share, 1_999);
    assert_eq!(d.user_share, 7_501);
}

#[test]
fn conservation_over_sample_inputs() {
    let amounts: [u64; 6] = [1, 2, 9_999, 10_001, 123_456_789, 1_000_000_000_000];
    let rates: [u64; 4] = [0, 500, 7_999, 8_000];
    for &amount in amounts.iter() {
        for &rate in rates.iter() {
            match compute_distribution(amount, rate) {
                Ok(d) => {
                    assert_eq!(d.user_share + d.vault_share + d.cashback_share, amount);
                }
                Err(e) => panic!("split of {} at {} bps failed: {:?}", amount, rate, e),
            }
        }
    }
}

#[test]
fn combined_rates_over_full_fail_with_underflow() {
    let mut state = fresh_state(1);
    assert_eq!(
        set_params(&mut state, Identity { id: 1 }, 9_000, 100_000_000, 701),
        Ok(())
    );
    let before = state;
    let r = swap_and_distribute(&mut state, 1_000_000, Ok(()));
    assert_eq!(r, Err(ProtocolError::DistributionUnderflow));
    assert_eq!(state, before);
}

#[test]
fn tiny_amount_slips_past_excessive_rates() {
    // At 8,001 bps plus the fixed 2,000 the rates exceed 100%, but an
    // amount of 1 truncates both shares to zero and still goes through.
    let d = compute_distribution(1, 8_001).unwrap();
    assert_eq!(d.cashback_share, 0);
    assert_eq!(d.vault_share, 0);
    assert_eq!(d.user_share, 1);
}

#[test]
fn rate_product_overflow_is_reported() {
    let mut state = fresh_state(1);
    let before = state;
    let r = swap_and_distribute(&mut state, u64::MAX, Ok(()));
    assert_eq!(r, Err(ProtocolError::DistributionOverflow));
    assert_eq!(state, before);
}

#[test]
fn pool_overflow_is_reported() {
    let mut state = GlobalState {
        pool_authority: Identity { id: 1 },
        accumulated_yot: u64::MAX,
        cashback_bps: 500,
        liquidity_threshold: 100_000_000,
        weekly_apr_bps: 701,
    };
    let before = state;
    let r = swap_and_distribute(&mut state, 10_000, Ok(()));
    assert_eq!(r, Err(ProtocolError::DistributionOverflow));
    assert_eq!(state, before);
}

#[test]
fn ledger_failure_aborts_without_mutation() {
    let mut state = fresh_state(1);
    let before = state;
    let r = swap_and_distribute(&mut state, 1_000_000, Err(LedgerError::InsufficientBalance));
    assert_eq!(
        r,
        Err(ProtocolError::Ledger(LedgerError::InsufficientBalance))
    );
    assert_eq!(state, before);
}

#[test]
fn pool_accumulates_vault_shares() {
    let mut state = fresh_state(1);
    let amounts: [u64; 4] = [1_000_000, 9_999, 42, 5_000_000];
    let mut expected: u64 = 0;
    for &amount in amounts.iter() {
        let d = swap_and_distribute(&mut state, amount, Ok(())).unwrap();
        expected += d.vault_share;
    }
    assert_eq!(state.accumulated_yot, expected);
}

#[test]
fn below_threshold_check_is_a_no_op() {
    let mut state = fresh_state(1);
    swap_and_distribute(&mut state, 1_000_000, Ok(())).unwrap();
    let before = state;
    let r = add_liquidity_if_threshold(&mut state);
    assert_eq!(
        r,
        ThresholdOutcome::NoOp {
            current: 200_000,
            threshold: 100_000_000,
        }
    );
    assert_eq!(state, before);
}

#[test]
fn crossing_the_threshold_deploys_half_and_resets() {
    let mut state = fresh_state(1);
    // One distribution of 502,500,000 contributes 100,500,000 to the pool,
    // which meets the default threshold.
    swap_and_distribute(&mut state, 502_500_000, Ok(())).unwrap();
    assert_eq!(state.accumulated_yot, 100_500_000);
    let first = add_liquidity_if_threshold(&mut state);
    assert_eq!(
        first,
        ThresholdOutcome::Deploy(DeploymentSignal {
            swap_amount: 50_250_000,
            lp_token_amount: 50_250_000,
            lp_base_amount: 50_250_000,
        })
    );
    assert_eq!(state.accumulated_yot, 0);
    let second = add_liquidity_if_threshold(&mut state);
    assert_eq!(
        second,
        ThresholdOutcome::NoOp {
            current: 0,
            threshold: 100_000_000,
        }
    );
    assert_eq!(state.accumulated_yot, 0);
}

#[test]
fn odd_pool_loses_one_unit_to_truncation() {
    let mut state = GlobalState {
        pool_authority: Identity { id: 1 },
        accumulated_yot: 100_000_001,
        cashback_bps: 500,
        liquidity_threshold: 100_000_000,
        weekly_apr_bps: 701,
    };
    let r = add_liquidity_if_threshold(&mut state);
    assert_eq!(
        r,
        ThresholdOutcome::Deploy(DeploymentSignal {
            swap_amount: 50_000_000,
            lp_token_amount: 50_000_000,
            lp_base_amount: 50_000_000,
        })
    );
    assert_eq!(state.accumulated_yot, 0);
}
