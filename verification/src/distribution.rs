//! The distribution engine: splitting a swapped amount three ways and
//! feeding the vault contribution into the accumulated pool.

use vstd::prelude::*;
use vstd::arithmetic::div_mod::{
    lemma_div_is_ordered_by_denominator,
    lemma_div_pos_is_pos,
    lemma_fundamental_div_mod,
    lemma_mod_bound,
};
use vstd::arithmetic::mul::{lemma_mul_inequality, lemma_mul_is_commutative, lemma_mul_nonnegative};
use crate::errors::{LedgerError, ProtocolError};
use crate::state::{BASIS_POINTS, GlobalState};

verus! {

/// Protocol fee sent to the vault on every distribution, in basis points
/// (a fixed 20%). Unlike the cashback rate, this one is deliberately not
/// configurable.
pub const VAULT_RATE_BPS: u64 = 2_000;

/// The three disjoint shares of one distributed input amount. On success
/// they sum to the input exactly: integer-division truncation of the two
/// rated shares is absorbed into the user share.
#[derive(Clone, Copy, Debug, PartialEq, Eq, Structural)]
pub struct DistributionResult {
    /// What the user keeps of the swapped amount.
    pub user_share: u64,
    /// The protocol fee, transferred to the vault and added to the pool.
    pub vault_share: u64,
    /// The reward-token amount minted back to the user.
    pub cashback_share: u64,
}

/// Cashback taken from `amount` at `cashback_bps`, truncating.
pub open spec fn cashback_of(amount: u64, cashback_bps: u64) -> int {
    (amount * cashback_bps) / (BASIS_POINTS as int)
}

/// Vault contribution taken from `amount` at the fixed vault rate,
/// truncating.
pub open spec fn vault_contribution_of(amount: u64) -> int {
    (amount * VAULT_RATE_BPS) / (BASIS_POINTS as int)
}

/// Whether either rate product escapes 64 bits, so that the split cannot
/// even be computed.
pub open spec fn rates_overflow(amount: u64, cashback_bps: u64) -> bool {
    amount * cashback_bps > u64::MAX || amount * VAULT_RATE_BPS > u64::MAX
}

/// Whether the two rated shares together take more than the whole amount,
/// so that the user share would underflow.
pub open spec fn split_underflows(amount: u64, cashback_bps: u64) -> bool {
    cashback_of(amount, cashback_bps) + vault_contribution_of(amount) > amount
}

/// The split that `compute_distribution` returns: the two rated shares are
/// taken from the untouched input amount, never from a running remainder,
/// and the user receives the rest.
pub open spec fn distribution_of(amount: u64, cashback_bps: u64) -> Result<
    DistributionResult,
    ProtocolError,
> {
    if rates_overflow(amount, cashback_bps) {
        Err(ProtocolError::DistributionOverflow)
    } else if split_underflows(amount, cashback_bps) {
        Err(ProtocolError::DistributionUnderflow)
    } else {
        Ok(
            DistributionResult {
                user_share: (amount - cashback_of(amount, cashback_bps) - vault_contribution_of(
                    amount,
                )) as u64,
                vault_share: vault_contribution_of(amount) as u64,
                cashback_share: cashback_of(amount, cashback_bps) as u64,
            },
        )
    }
}

/// Both rated shares of a computable split are themselves 64-bit values.
pub proof fn lemma_share_bounds(amount: u64, cashback_bps: u64)
    requires
        !rates_overflow(amount, cashback_bps),
    ensures
        0 <= cashback_of(amount, cashback_bps) <= u64::MAX,
        0 <= vault_contribution_of(amount) <= u64::MAX,
{
    let b = BASIS_POINTS as int;
    lemma_mul_nonnegative(amount as int, cashback_bps as int);
    lemma_mul_nonnegative(amount as int, VAULT_RATE_BPS as int);
    lemma_div_pos_is_pos(amount * cashback_bps, b);
    lemma_div_pos_is_pos(amount * VAULT_RATE_BPS, b);
    lemma_div_is_ordered_by_denominator(amount * cashback_bps, 1, b);
    lemma_div_is_ordered_by_denominator(amount * VAULT_RATE_BPS, 1, b);
}

/// Computes the three-way split of `yot_amount` under the given cashback
/// rate. Fails with `DistributionOverflow` when a rate product escapes 64
/// bits, and with `DistributionUnderflow` when the configured rates take
/// more than the whole amount; otherwise the three shares sum to the input
/// exactly.
pub fn compute_distribution(yot_amount: u64, cashback_bps: u64) -> (r: Result<
    DistributionResult,
    ProtocolError,
>)
    ensures
        r == distribution_of(yot_amount, cashback_bps),
        r matches Ok(d) ==> d.user_share + d.vault_share + d.cashback_share == yot_amount,
{
    let cashback_product = yot_amount.checked_mul(cashback_bps);
    let vault_product = yot_amount.checked_mul(VAULT_RATE_BPS);
    match (cashback_product, vault_product) {
        (Some(cp), Some(vp)) => {
            let cashback: u64 = cp / BASIS_POINTS;
            let contribution: u64 = vp / BASIS_POINTS;
            proof {
                lemma_share_bounds(yot_amount, cashback_bps);
            }
            if cashback + contribution > yot_amount {
                Err(ProtocolError::DistributionUnderflow)
            } else {
                Ok(
                    DistributionResult {
                        user_share: yot_amount - cashback - contribution,
                        vault_share: contribution,
                        cashback_share: cashback,
                    },
                )
            }
        },
        _ => Err(ProtocolError::DistributionOverflow),
    }
}

/// Conservation: whenever the split is computable and does not underflow,
/// it succeeds, and the three shares sum to the input amount exactly.
pub proof fn lemma_distribution_conserves(amount: u64, cashback_bps: u64)
    requires
        !rates_overflow(amount, cashback_bps),
        !split_underflows(amount, cashback_bps),
    ensures
        distribution_of(amount, cashback_bps) matches Ok(d) && d.user_share + d.vault_share
            + d.cashback_share == amount,
{
    lemma_share_bounds(amount, cashback_bps);
}

/// Underflow guard: whenever the configured rates exceed 100% combined
/// (`cashback_bps + 2000 > 10000` in basis points), a distribution of any
/// amount large enough that truncation cannot mask the excess fails with
/// `DistributionUnderflow` and leaves the record unchanged, whatever the
/// ledger would have answered. The amount bound is `2 * BASIS_POINTS - 1`:
/// each of the two truncating divisions discards less than one
/// `BASIS_POINTS` worth, so past that bound the rated shares still
/// overshoot the input. (A smaller amount can slip through: with
/// `cashback_bps == 8001`, an amount of 1 yields two zero shares and no
/// underflow.)
pub proof fn lemma_underflow_guard(
    s: GlobalState,
    yot_amount: u64,
    ledger_outcome: Result<(), LedgerError>,
)
    requires
        s.cashback_bps + VAULT_RATE_BPS > BASIS_POINTS,
        yot_amount >= 2 * BASIS_POINTS - 1,
        yot_amount * s.cashback_bps <= u64::MAX,
    ensures
        swap_transition(s, yot_amount, ledger_outcome) == (
        s,
        Err::<DistributionResult, ProtocolError>(ProtocolError::DistributionUnderflow),
        ),
{
    let a = yot_amount as int;
    let bps = s.cashback_bps as int;
    let b = BASIS_POINTS as int;
    let p1 = a * bps;
    let p2 = a * (VAULT_RATE_BPS as int);
    lemma_mul_inequality(VAULT_RATE_BPS as int, bps, a);
    lemma_mul_is_commutative(a, bps);
    lemma_mul_is_commutative(a, VAULT_RATE_BPS as int);
    assert(p2 <= p1);
    assert(!rates_overflow(yot_amount, s.cashback_bps));
    let c = cashback_of(yot_amount, s.cashback_bps);
    let v = vault_contribution_of(yot_amount);
    lemma_fundamental_div_mod(p1, b);
    lemma_fundamental_div_mod(p2, b);
    lemma_mod_bound(p1, b);
    lemma_mod_bound(p2, b);
    assert(b * (c + v) == b * c + b * v) by (nonlinear_arith);
    assert(b * (c + v) >= p1 + p2 - 2 * (b - 1));
    assert(a * bps + a * (VAULT_RATE_BPS as int) == a * (bps + VAULT_RATE_BPS as int))
        by (nonlinear_arith);
    lemma_mul_inequality(b + 1, bps + VAULT_RATE_BPS, a);
    lemma_mul_is_commutative(a, bps + VAULT_RATE_BPS as int);
    assert(b * (c + v) >= a * b + a - 2 * (b - 1));
    assert(b * (c + v) > a * b);
    if c + v <= a {
        lemma_mul_inequality(c + v, a, b);
        lemma_mul_is_commutative(b, c + v);
        assert(false);
    }
    assert(split_underflows(yot_amount, s.cashback_bps));
}

/// The pool after a run of distributions, each realized by the ledger,
/// applied first to last.
pub open spec fn run_distributions(s: GlobalState, amounts: Seq<u64>) -> GlobalState
    decreases amounts.len(),
{
    if amounts.len() == 0 {
        s
    } else {
        run_distributions(
            swap_transition(s, amounts.first(), Ok(())).0,
            amounts.drop_first(),
        )
    }
}

/// Whether every distribution of such a run succeeds from its own
/// intermediate record.
pub open spec fn all_distributions_succeed(s: GlobalState, amounts: Seq<u64>) -> bool
    decreases amounts.len(),
{
    amounts.len() == 0 || {
        &&& swap_transition(s, amounts.first(), Ok(())).1 is Ok
        &&& all_distributions_succeed(
            swap_transition(s, amounts.first(), Ok(())).0,
            amounts.drop_first(),
        )
    }
}

/// Sum of the vault contributions of the given amounts.
pub open spec fn vault_total(amounts: Seq<u64>) -> int
    decreases amounts.len(),
{
    if amounts.len() == 0 {
        0
    } else {
        vault_contribution_of(amounts.first()) + vault_total(amounts.drop_first())
    }
}

/// Accumulation monotonicity: after any run of successful distributions —
/// no threshold check in between — the pool has grown by exactly the sum
/// of their vault shares, and every other field of the record is as it
/// was.
pub proof fn lemma_accumulation_monotonic(s: GlobalState, amounts: Seq<u64>)
    requires
        all_distributions_succeed(s, amounts),
    ensures
        run_distributions(s, amounts).accumulated_yot == s.accumulated_yot + vault_total(amounts),
        run_distributions(s, amounts).pool_authority == s.pool_authority,
        run_distributions(s, amounts).cashback_bps == s.cashback_bps,
        run_distributions(s, amounts).liquidity_threshold == s.liquidity_threshold,
        run_distributions(s, amounts).weekly_apr_bps == s.weekly_apr_bps,
    decreases amounts.len(),
{
    if amounts.len() > 0 {
        let first = amounts.first();
        let step = swap_transition(s, first, Ok(()));
        lemma_share_bounds(first, s.cashback_bps);
        lemma_accumulation_monotonic(step.0, amounts.drop_first());
    }
}

/// What one `swap_and_distribute` call does to the record, given the input
/// amount and the outcome the external ledger service reported for the
/// three calls that realize the split. Every failure leaves the record as
/// it was; on success the vault contribution, and nothing else, is added to
/// the pool.
pub open spec fn swap_transition(
    s: GlobalState,
    yot_amount: u64,
    ledger_outcome: Result<(), LedgerError>,
) -> (GlobalState, Result<DistributionResult, ProtocolError>) {
    match distribution_of(yot_amount, s.cashback_bps) {
        Err(e) => (s, Err(e)),
        Ok(d) => match ledger_outcome {
            Err(le) => (s, Err(ProtocolError::Ledger(le))),
            Ok(_) => if s.accumulated_yot + d.vault_share > u64::MAX {
                (s, Err(ProtocolError::DistributionOverflow))
            } else {
                (
                    GlobalState {
                        pool_authority: s.pool_authority,
                        accumulated_yot: (s.accumulated_yot + d.vault_share) as u64,
                        cashback_bps: s.cashback_bps,
                        liquidity_threshold: s.liquidity_threshold,
                        weekly_apr_bps: s.weekly_apr_bps,
                    },
                    Ok(d),
                )
            },
        },
    }
}

/// Splits `yot_amount` under the record's cashback rate and, when the split
/// is sound and the external ledger realized it, adds the vault
/// contribution to the accumulated pool.
///
/// The caller obtains the amounts from `compute_distribution` first, asks
/// the ledger service to transfer the user share, transfer the vault share
/// and mint the cashback, in that order and stopping at the first failure,
/// and hands the combined outcome in as `ledger_outcome`. Any failure —
/// an uncomputable split, a ledger refusal, or a pool that would outgrow 64
/// bits — aborts the whole operation with the record untouched.
pub fn swap_and_distribute(
    state: &mut GlobalState,
    yot_amount: u64,
    ledger_outcome: Result<(), LedgerError>,
) -> (r: Result<DistributionResult, ProtocolError>)
    ensures
        (*final(state), r) == swap_transition(*old(state), yot_amount, ledger_outcome),
        r is Err ==> *final(state) == *old(state),
        r matches Ok(d) ==> {
            &&& d.user_share + d.vault_share + d.cashback_share == yot_amount
            &&& final(state).accumulated_yot == old(state).accumulated_yot + d.vault_share
            &&& final(state).pool_authority == old(state).pool_authority
            &&& final(state).cashback_bps == old(state).cashback_bps
            &&& final(state).liquidity_threshold == old(state).liquidity_threshold
            &&& final(state).weekly_apr_bps == old(state).weekly_apr_bps
        },
{
    let d = match compute_distribution(yot_amount, state.cashback_bps) {
        Ok(d) => d,
        Err(e) => {
            return Err(e);
        },
    };
    if let Err(le) = ledger_outcome {
        return Err(ProtocolError::Ledger(le));
    }
    match state.accumulated_yot.checked_add(d.vault_share) {
        Some(new_pool) => {
            state.accumulated_yot = new_pool;
            Ok(d)
        },
        None => Err(ProtocolError::DistributionOverflow),
    }
}

} // verus!
