//! Replacement fee policy for EIP-1559 transactions.
//!
//! Fee amounts are held in wei as `u128`. A replacement must raise both the
//! priority fee and the base-fee contribution (`max_fee - max_priority_fee`)
//! by at least ten percent plus one wei, and never fall below the network's
//! current estimate.
use vstd::prelude::*;
use crate::request::{TxIntent, with_fees};

verus! {

/// The smallest admissible successor of a fee component: `x + (x * 10) / 100 + 1`.
pub open spec fn min_bump(x: int) -> int {
    x + (x * 10) / 100 + 1
}

pub open spec fn max_of(a: int, b: int) -> int {
    if a >= b {
        a
    } else {
        b
    }
}

/// The replacement priority fee.
pub open spec fn bumped_priority(prev_priority: int, est_priority: int) -> int {
    max_of(est_priority, min_bump(prev_priority))
}

/// The replacement base-fee contribution.
pub open spec fn bumped_base(prev_max: int, prev_priority: int, est_max: int, est_priority: int) -> int {
    max_of(est_max - est_priority, min_bump(prev_max - prev_priority))
}

/// The replacement maximum fee: base contribution plus priority fee.
pub open spec fn bumped_max(prev_max: int, prev_priority: int, est_max: int, est_priority: int) -> int {
    bumped_base(prev_max, prev_priority, est_max, est_priority) + bumped_priority(
        prev_priority,
        est_priority,
    )
}

/// Whether the replacement fees can be held in a `u128`.
pub open spec fn bump_fits(prev_max: int, prev_priority: int, est_max: int, est_priority: int) -> bool {
    bumped_max(prev_max, prev_priority, est_max, est_priority) <= u128::MAX
}

proof fn lemma_tenth(x: nat)
    ensures
        (x * 10) / 100 == x / 10,
        x / 10 <= x,
{
    assert((x * 10) / 100 == x / 10) by (nonlinear_arith);
    assert(x / 10 <= x) by (nonlinear_arith);
}

/// Raises a fee component by the minimum that a replacement needs; `None`
/// where the result does not fit in a `u128`.
pub fn increase_by_minimum(value: u128) -> (r: Option<u128>)
    ensures
        r matches Some(v) ==> v == min_bump(value as int),
        r is None <==> min_bump(value as int) > u128::MAX,
{
    proof {
        lemma_tenth(value as nat);
    }
    let increase: u128 = value / 10;
    if value > u128::MAX - increase - 1 {
        None
    } else {
        Some(value + increase + 1)
    }
}

/// Computes the replacement `(max_fee, max_priority_fee)` from the previous
/// fees and the current network estimate; `None` where the new maximum fee
/// does not fit in a `u128`.
pub fn replacement_gas_values(
    prev_max_fee: u128,
    prev_max_priority_fee: u128,
    estimate_max_fee: u128,
    estimate_max_priority_fee: u128,
) -> (r: Option<(u128, u128)>)
    requires
        prev_max_fee >= prev_max_priority_fee,
        estimate_max_fee >= estimate_max_priority_fee,
    ensures
        r is Some <==> bump_fits(
            prev_max_fee as int,
            prev_max_priority_fee as int,
            estimate_max_fee as int,
            estimate_max_priority_fee as int,
        ),
        r matches Some(p) ==> {
            &&& p.0 == bumped_max(
                prev_max_fee as int,
                prev_max_priority_fee as int,
                estimate_max_fee as int,
                estimate_max_priority_fee as int,
            )
            &&& p.1 == bumped_priority(
                prev_max_priority_fee as int,
                estimate_max_priority_fee as int,
            )
        },
{
    let prio_bump = increase_by_minimum(prev_max_priority_fee);
    let base_bump = increase_by_minimum(prev_max_fee - prev_max_priority_fee);
    match (prio_bump, base_bump) {
        (Some(pb), Some(bb)) => {
            let new_priority: u128 = if estimate_max_priority_fee >= pb {
                estimate_max_priority_fee
            } else {
                pb
            };
            let estimate_base: u128 = estimate_max_fee - estimate_max_priority_fee;
            let new_base: u128 = if estimate_base >= bb {
                estimate_base
            } else {
                bb
            };
            if new_base > u128::MAX - new_priority {
                None
            } else {
                Some((new_base + new_priority, new_priority))
            }
        },
        _ => None,
    }
}


/// A fee field's value, or the given default where it is absent.
pub open spec fn fee_or(fee: Option<u128>, default: u128) -> u128 {
    match fee {
        Some(v) => v,
        None => default,
    }
}

/// Whether `tx` can be bumped against the estimate: the estimate and the
/// previous fees (absent ones read as the estimate) both hold
/// `max_fee >= max_priority_fee`.
pub open spec fn bumpable(tx: TxIntent, estimate_max_fee: u128, estimate_max_priority_fee: u128) -> bool {
    &&& estimate_max_fee >= estimate_max_priority_fee
    &&& fee_or(tx.max_fee_per_gas, estimate_max_fee) >= fee_or(
        tx.max_priority_fee_per_gas,
        estimate_max_priority_fee,
    )
}

/// Whether the bumped fees of `tx` fit in a `u128`.
pub open spec fn tx_bump_fits(tx: TxIntent, estimate_max_fee: u128, estimate_max_priority_fee: u128) -> bool {
    bump_fits(
        fee_or(tx.max_fee_per_gas, estimate_max_fee) as int,
        fee_or(tx.max_priority_fee_per_gas, estimate_max_priority_fee) as int,
        estimate_max_fee as int,
        estimate_max_priority_fee as int,
    )
}

/// The request with its fees bumped against the estimate.
pub open spec fn bumped_tx(tx: TxIntent, estimate_max_fee: u128, estimate_max_priority_fee: u128) -> TxIntent {
    let prev_max = fee_or(tx.max_fee_per_gas, estimate_max_fee) as int;
    let prev_priority = fee_or(tx.max_priority_fee_per_gas, estimate_max_priority_fee) as int;
    with_fees(
        tx,
        bumped_max(prev_max, prev_priority, estimate_max_fee as int, estimate_max_priority_fee as int)
            as u128,
        bumped_priority(prev_priority, estimate_max_priority_fee as int) as u128,
    )
}

/// Replaces the fees of `tx` with their replacement values; an absent fee
/// is read as the estimate. Returns `false`, leaving `tx` as it was, where
/// the new maximum fee does not fit in a `u128`.
pub fn bump_transaction(
    tx: &mut TxIntent,
    estimate_max_fee: u128,
    estimate_max_priority_fee: u128,
) -> (bumped: bool)
    requires
        bumpable(*old(tx), estimate_max_fee, estimate_max_priority_fee),
    ensures
        bumped == tx_bump_fits(*old(tx), estimate_max_fee, estimate_max_priority_fee),
        bumped ==> *final(tx) == bumped_tx(*old(tx), estimate_max_fee, estimate_max_priority_fee),
        !bumped ==> *final(tx) == *old(tx),
{
    let prev_max_priority_fee = match tx.max_priority_fee_per_gas {
        Some(v) => v,
        None => estimate_max_priority_fee,
    };
    let prev_max_fee = match tx.max_fee_per_gas {
        Some(v) => v,
        None => estimate_max_fee,
    };
    match replacement_gas_values(
        prev_max_fee,
        prev_max_priority_fee,
        estimate_max_fee,
        estimate_max_priority_fee,
    ) {
        Some((new_max_fee, new_max_priority_fee)) => {
            tx.max_fee_per_gas = Some(new_max_fee);
            tx.max_priority_fee_per_gas = Some(new_max_priority_fee);
            true
        },
        None => false,
    }
}

/// For previous fees and an estimate that each hold `max_fee >= max_priority_fee`,
/// the replacement holds it too, and raises the priority fee and the base-fee
/// contribution each to at least 110% of the previous value plus one wei.
pub proof fn lemma_bump_raises_both_components(
    prev_max_fee: u128,
    prev_max_priority_fee: u128,
    estimate_max_fee: u128,
    estimate_max_priority_fee: u128,
)
    requires
        prev_max_fee >= prev_max_priority_fee,
        estimate_max_fee >= estimate_max_priority_fee,
    ensures
        ({
            let nf = bumped_max(
                prev_max_fee as int,
                prev_max_priority_fee as int,
                estimate_max_fee as int,
                estimate_max_priority_fee as int,
            );
            let np = bumped_priority(prev_max_priority_fee as int, estimate_max_priority_fee as int);
            &&& nf >= np
            &&& np >= prev_max_priority_fee * 110 / 100 + 1
            &&& nf - np >= (prev_max_fee - prev_max_priority_fee) * 110 / 100 + 1
        }),
{
    let p = prev_max_priority_fee as int;
    let b = prev_max_fee - prev_max_priority_fee;
    assert(p * 110 / 100 == p + (p * 10) / 100) by (nonlinear_arith)
        requires p >= 0;
    assert(b * 110 / 100 == b + (b * 10) / 100) by (nonlinear_arith)
        requires b >= 0;
    assert((b * 10) / 100 >= 0) by (nonlinear_arith)
        requires b >= 0;
}

} // verus!
