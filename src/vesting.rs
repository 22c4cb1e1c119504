use vstd::arithmetic::div_mod::{lemma_div_by_multiple, lemma_div_is_ordered, lemma_div_pos_is_pos};
use vstd::arithmetic::mul::lemma_mul_inequality;
use vstd::prelude::*;

use crate::errors::SerumGovError;
use crate::state::{LockedAccount, VestAccount};
use crate::MSRM_MULTIPLIER;

verus! {

pub open spec fn min_int(a: int, b: int) -> int {
    if a <= b {
        a
    } else {
        b
    }
}

/// The gSRM of a deposit of `total` that has vested at `now`, when vesting
/// starts at `cliff_end` and runs linearly over `linear` (which must be
/// positive): nothing before the cliff ends, `total` once the period is over.
pub open spec fn vested_amount_spec(total: int, cliff_end: int, linear: int, now: int) -> int {
    if now < cliff_end {
        0
    } else {
        min_int(total, total * (now - cliff_end) / linear)
    }
}

/// When a vesting record's cliff ends.
pub open spec fn cliff_end_of(v: VestAccount) -> int {
    v.created_at + v.cliff_period
}

/// The gSRM of a vesting record that has vested at `now`.
pub open spec fn vested_at(v: VestAccount, now: int) -> int {
    vested_amount_spec(
        v.total_gsrm_amount as int,
        cliff_end_of(v),
        v.linear_vesting_period as int,
        now,
    )
}

/// What release a burn of `burned` gSRM from a record earns: whole MSRM units
/// for an MSRM-funded record, the same number of SRM units otherwise.
pub open spec fn release_of(is_msrm: bool, burned: int) -> int {
    if is_msrm {
        burned / (MSRM_MULTIPLIER as int)
    } else {
        burned
    }
}

/// A burn of `amount` against a locked record: the pair of gSRM burned and
/// asset released, or why the burn is refused.
pub open spec fn locked_burn_spec(a: LockedAccount, amount: u64) -> Result<(u64, u64), SerumGovError> {
    if amount == 0 {
        Err(SerumGovError::InvalidAmount)
    } else if amount + a.gsrm_burned > a.total_gsrm_amount {
        Err(SerumGovError::InvalidGSRMAmount)
    } else if a.is_msrm && amount % MSRM_MULTIPLIER != 0 {
        Err(SerumGovError::InvalidMSRMAmount)
    } else {
        Ok((amount, release_of(a.is_msrm, amount as int) as u64))
    }
}

/// A burn of up to `amount` against a vesting record at `now`: the pair of
/// gSRM burned (what is vested and not burned yet, at most `amount`) and asset
/// released, or why the burn is refused.
pub open spec fn vest_burn_spec(v: VestAccount, amount: u64, now: i64) -> Result<(u64, u64), SerumGovError> {
    if amount == 0 {
        Err(SerumGovError::InvalidAmount)
    } else if cliff_end_of(v) < i64::MIN || cliff_end_of(v) > i64::MAX {
        Err(SerumGovError::ArithmeticError)
    } else if now < cliff_end_of(v) {
        Err(SerumGovError::TooEarlyToVest)
    } else if v.linear_vesting_period <= 0 {
        Err(SerumGovError::ArithmeticError)
    } else if vested_at(v, now as int) <= v.gsrm_burned {
        Err(SerumGovError::AlreadyRedeemed)
    } else if v.is_msrm && amount % MSRM_MULTIPLIER != 0 {
        Err(SerumGovError::InvalidMSRMAmount)
    } else {
        let burned = min_int(vested_at(v, now as int) - v.gsrm_burned, amount as int);
        Ok((burned as u64, release_of(v.is_msrm, burned) as u64))
    }
}

pub proof fn lemma_vested_bounds(total: int, cliff_end: int, linear: int, now: int)
    requires
        0 <= total,
        0 < linear,
    ensures
        0 <= vested_amount_spec(total, cliff_end, linear, now) <= total,
{
    if now >= cliff_end {
        lemma_mul_inequality(0, now - cliff_end, total);
        assert(0 * total == 0) by (nonlinear_arith);
        assert(total * (now - cliff_end) == (now - cliff_end) * total) by (nonlinear_arith);
        lemma_div_pos_is_pos(total * (now - cliff_end), linear);
    }
}

/// Vesting never goes backwards: for a fixed record, the vested amount is
/// non-decreasing in time.
pub proof fn lemma_vested_amount_monotonic(v: VestAccount, now1: int, now2: int)
    requires
        v.linear_vesting_period > 0,
        now1 <= now2,
    ensures
        vested_at(v, now1) <= vested_at(v, now2),
{
    let total = v.total_gsrm_amount as int;
    let c = cliff_end_of(v);
    let l = v.linear_vesting_period as int;
    lemma_vested_bounds(total, c, l, now1);
    lemma_vested_bounds(total, c, l, now2);
    if now1 >= c {
        lemma_mul_inequality(now1 - c, now2 - c, total);
        assert(total * (now1 - c) == (now1 - c) * total) by (nonlinear_arith);
        assert(total * (now2 - c) == (now2 - c) * total) by (nonlinear_arith);
        lemma_div_is_ordered(total * (now1 - c), total * (now2 - c), l);
    }
}

/// Once the linear period after the cliff is over, everything has vested.
pub proof fn lemma_vested_amount_complete(v: VestAccount, now: int)
    requires
        v.linear_vesting_period > 0,
        now >= cliff_end_of(v) + v.linear_vesting_period,
    ensures
        vested_at(v, now) == v.total_gsrm_amount,
{
    let total = v.total_gsrm_amount as int;
    let c = cliff_end_of(v);
    let l = v.linear_vesting_period as int;
    lemma_mul_inequality(l, now - c, total);
    assert(total * l == l * total) by (nonlinear_arith);
    assert(total * (now - c) == (now - c) * total) by (nonlinear_arith);
    lemma_div_is_ordered(total * l, total * (now - c), l);
    lemma_div_by_multiple(total, l);
}

/// The vested amount, computed with a double-width product; a non-positive
/// period is an arithmetic error.
pub fn vested_amount(total: u64, cliff_end: i64, linear_vesting_period: i64, now: i64) -> (r: Result<
    u64,
    SerumGovError,
>)
    ensures
        linear_vesting_period > 0 ==> r == Ok::<u64, SerumGovError>(
            vested_amount_spec(
                total as int,
                cliff_end as int,
                linear_vesting_period as int,
                now as int,
            ) as u64,
        ),
        linear_vesting_period <= 0 ==> r == Err::<u64, SerumGovError>(
            SerumGovError::ArithmeticError,
        ),
{
    if linear_vesting_period <= 0 {
        return Err(SerumGovError::ArithmeticError);
    }
    if now < cliff_end {
        return Ok(0);
    }
    let vested_time: u128 = ((now as i128) - (cliff_end as i128)) as u128;
    assert(vested_time <= u64::MAX);
    let wide_total: u128 = total as u128;
    assert(wide_total * vested_time <= u64::MAX as int * u64::MAX as int) by (nonlinear_arith)
        requires
            wide_total <= u64::MAX,
            vested_time <= u64::MAX,
            0 <= wide_total,
            0 <= vested_time,
    ;
    let product: u128 = wide_total * vested_time;
    let share: u128 = product / (linear_vesting_period as u128);
    if share < wide_total {
        Ok(share as u64)
    } else {
        Ok(total)
    }
}

/// Applies `locked_burn_spec`.
pub fn locked_burn_amounts(a: &LockedAccount, amount: u64) -> (r: Result<(u64, u64), SerumGovError>)
    ensures
        r == locked_burn_spec(*a, amount),
{
    if amount == 0 {
        return Err(SerumGovError::InvalidAmount);
    }
    if (amount as u128) + (a.gsrm_burned as u128) > (a.total_gsrm_amount as u128) {
        return Err(SerumGovError::InvalidGSRMAmount);
    }
    if a.is_msrm && amount % MSRM_MULTIPLIER != 0 {
        return Err(SerumGovError::InvalidMSRMAmount);
    }
    let release = if a.is_msrm {
        amount / MSRM_MULTIPLIER
    } else {
        amount
    };
    Ok((amount, release))
}

/// Applies `vest_burn_spec`.
pub fn vest_burn_amounts(v: &VestAccount, amount: u64, now: i64) -> (r: Result<
    (u64, u64),
    SerumGovError,
>)
    ensures
        r == vest_burn_spec(*v, amount, now),
{
    if amount == 0 {
        return Err(SerumGovError::InvalidAmount);
    }
    let cliff_end = match v.created_at.checked_add(v.cliff_period) {
        Some(c) => c,
        None => {
            return Err(SerumGovError::ArithmeticError);
        },
    };
    if now < cliff_end {
        return Err(SerumGovError::TooEarlyToVest);
    }
    let vested = match vested_amount(
        v.total_gsrm_amount,
        cliff_end,
        v.linear_vesting_period,
        now,
    ) {
        Ok(x) => x,
        Err(e) => {
            return Err(e);
        },
    };
    proof {
        lemma_vested_bounds(
            v.total_gsrm_amount as int,
            cliff_end as int,
            v.linear_vesting_period as int,
            now as int,
        );
    }
    if vested <= v.gsrm_burned {
        return Err(SerumGovError::AlreadyRedeemed);
    }
    if v.is_msrm && amount % MSRM_MULTIPLIER != 0 {
        return Err(SerumGovError::InvalidMSRMAmount);
    }
    let redeemable = vested - v.gsrm_burned;
    let burned = if redeemable < amount {
        redeemable
    } else {
        amount
    };
    let release = if v.is_msrm {
        burned / MSRM_MULTIPLIER
    } else {
        burned
    };
    Ok((burned, release))
}

} // verus!
