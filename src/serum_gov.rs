use vstd::prelude::*;

use crate::errors::SerumGovError;
use crate::ledger::Ledger;
use crate::model::{
    burn_locked_step, burn_outcome, burn_vest_step, claim_step, config_of, config_params_ok,
    deposit_locked_step, deposit_vest_step, init_step, init_user_step, redeem_step,
    update_config_authority_step, update_config_params_step, user_of,
};
use crate::state::{
    ClaimTicket, Config, DepositRef, Effect, LockedAccount, Pubkey, Record, RecordId, RedeemTicket,
    Refund, Stored, TokenOp, User, VestAccount,
};
use crate::vesting::{
    cliff_end_of, lemma_vested_bounds, locked_burn_amounts, vest_burn_amounts,
};
use crate::MSRM_MULTIPLIER;

verus! {

fn read_config(ledger: &Ledger) -> (r: Option<(Config, Pubkey)>)
    requires
        ledger.wf(),
    ensures
        r == config_of(ledger@),
{
    match ledger.get(&RecordId::Config) {
        Some(Stored { record: Record::Config(c), payer }) => Some((c, payer)),
        _ => None,
    }
}

fn read_user(ledger: &Ledger, owner: Pubkey) -> (r: Option<(User, Pubkey)>)
    requires
        ledger.wf(),
    ensures
        r == user_of(ledger@, owner),
{
    match ledger.get(&RecordId::User { owner }) {
        Some(Stored { record: Record::User(u), payer }) => Some((u, payer)),
        _ => None,
    }
}

fn is_stored(ledger: &Ledger, id: &RecordId) -> (r: bool)
    requires
        ledger.wf(),
    ensures
        r == ledger@.contains_key(*id),
{
    match ledger.get(id) {
        Some(_) => true,
        None => false,
    }
}

fn params_ok(
    claim_delay: i64,
    redeem_delay: i64,
    cliff_period: i64,
    linear_vesting_period: i64,
) -> (r: bool)
    ensures
        r == config_params_ok(claim_delay, redeem_delay, cliff_period, linear_vesting_period),
{
    claim_delay >= 0 && redeem_delay >= 0 && cliff_period >= 0 && linear_vesting_period >= 0
}

/// Creates the configuration; fails if it exists already or a delay or
/// period is negative.
pub fn init(
    ledger: &mut Ledger,
    payer: Pubkey,
    config_authority: Pubkey,
    srm_mint: Pubkey,
    msrm_mint: Pubkey,
    claim_delay: i64,
    redeem_delay: i64,
    cliff_period: i64,
    linear_vesting_period: i64,
) -> (r: Result<(), SerumGovError>)
    requires
        old(ledger).inv(),
    ensures
        final(ledger).inv(),
        r is Err ==> final(ledger)@ == old(ledger)@,
        (final(ledger)@, r) == init_step(
            old(ledger)@,
            payer,
            config_authority,
            srm_mint,
            msrm_mint,
            claim_delay,
            redeem_delay,
            cliff_period,
            linear_vesting_period,
        ),
{
    if is_stored(ledger, &RecordId::Config) {
        return Err(SerumGovError::AccountAlreadyExists);
    }
    if !params_ok(claim_delay, redeem_delay, cliff_period, linear_vesting_period) {
        return Err(SerumGovError::InvalidConfigParams);
    }
    let c = Config {
        config_authority,
        srm_mint,
        msrm_mint,
        claim_delay,
        redeem_delay,
        cliff_period,
        linear_vesting_period,
    };
    ledger.set(RecordId::Config, Stored { record: Record::Config(c), payer });
    Ok(())
}

/// Hands the configuration authority to `new_config_authority`; only the
/// current authority may.
pub fn update_config_authority(ledger: &mut Ledger, signer: Pubkey, new_config_authority: Pubkey) -> (r:
    Result<(), SerumGovError>)
    requires
        old(ledger).inv(),
    ensures
        final(ledger).inv(),
        r is Err ==> final(ledger)@ == old(ledger)@,
        (final(ledger)@, r) == update_config_authority_step(
            old(ledger)@,
            signer,
            new_config_authority,
        ),
{
    let (c, payer) = match read_config(ledger) {
        Some(x) => x,
        None => {
            return Err(SerumGovError::AccountNotFound);
        },
    };
    if !signer.same(&c.config_authority) {
        return Err(SerumGovError::InvalidConfigAuthority);
    }
    let c2 = Config { config_authority: new_config_authority, ..c };
    ledger.set(RecordId::Config, Stored { record: Record::Config(c2), payer });
    Ok(())
}

/// Sets new delays and periods; only the configuration authority may, and
/// none may be negative.
pub fn update_config_params(
    ledger: &mut Ledger,
    signer: Pubkey,
    claim_delay: i64,
    redeem_delay: i64,
    cliff_period: i64,
    linear_vesting_period: i64,
) -> (r: Result<(), SerumGovError>)
    requires
        old(ledger).inv(),
    ensures
        final(ledger).inv(),
        r is Err ==> final(ledger)@ == old(ledger)@,
        (final(ledger)@, r) == update_config_params_step(
            old(ledger)@,
            signer,
            claim_delay,
            redeem_delay,
            cliff_period,
            linear_vesting_period,
        ),
{
    let (c, payer) = match read_config(ledger) {
        Some(x) => x,
        None => {
            return Err(SerumGovError::AccountNotFound);
        },
    };
    if !signer.same(&c.config_authority) {
        return Err(SerumGovError::InvalidConfigAuthority);
    }
    if !params_ok(claim_delay, redeem_delay, cliff_period, linear_vesting_period) {
        return Err(SerumGovError::InvalidConfigParams);
    }
    let c2 = Config { claim_delay, redeem_delay, cliff_period, linear_vesting_period, ..c };
    ledger.set(RecordId::Config, Stored { record: Record::Config(c2), payer });
    Ok(())
}

/// Creates the counters of `owner`, both at zero.
pub fn init_user(ledger: &mut Ledger, payer: Pubkey, owner: Pubkey) -> (r: Result<(), SerumGovError>)
    requires
        old(ledger).inv(),
    ensures
        final(ledger).inv(),
        r is Err ==> final(ledger)@ == old(ledger)@,
        (final(ledger)@, r) == init_user_step(old(ledger)@, payer, owner),
{
    if is_stored(ledger, &RecordId::User { owner }) {
        return Err(SerumGovError::AccountAlreadyExists);
    }
    let u = User { owner, lock_index: 0, vest_index: 0 };
    ledger.set(RecordId::User { owner }, Stored { record: Record::User(u), payer });
    Ok(())
}

/// Deposits `amount` of SRM (or, with `is_msrm`, MSRM) paid by `payer` into a
/// new locked record of `owner` at `lock_index`, the owner's next lock index,
/// with a claim ticket for its gSRM worth.
pub fn deposit_locked(
    ledger: &mut Ledger,
    payer: Pubkey,
    owner: Pubkey,
    lock_index: u64,
    amount: u64,
    is_msrm: bool,
    now: i64,
) -> (r: Result<Effect, SerumGovError>)
    requires
        old(ledger).inv(),
    ensures
        final(ledger).inv(),
        r is Err ==> final(ledger)@ == old(ledger)@,
        (final(ledger)@, r) == deposit_locked_step(
            old(ledger)@,
            payer,
            owner,
            lock_index,
            amount,
            is_msrm,
            now,
        ),
{
    if amount == 0 {
        return Err(SerumGovError::InvalidAmount);
    }
    let (c, _) = match read_config(ledger) {
        Some(x) => x,
        None => {
            return Err(SerumGovError::AccountNotFound);
        },
    };
    let (u, user_payer) = match read_user(ledger, owner) {
        Some(x) => x,
        None => {
            return Err(SerumGovError::AccountNotFound);
        },
    };
    let dep = DepositRef::Locked { owner, lock_index };
    if is_stored(ledger, &RecordId::Deposit { deposit: dep }) || is_stored(
        ledger,
        &RecordId::Claim { deposit: dep },
    ) {
        return Err(SerumGovError::AccountAlreadyExists);
    }
    if lock_index != u.lock_index {
        return Err(SerumGovError::InvalidDepositIndex);
    }
    let g = if is_msrm {
        match amount.checked_mul(MSRM_MULTIPLIER) {
            Some(g) => g,
            None => {
                return Err(SerumGovError::ArithmeticError);
            },
        }
    } else {
        amount
    };
    let next_index = match u.lock_index.checked_add(1) {
        Some(n) => n,
        None => {
            return Err(SerumGovError::ArithmeticError);
        },
    };
    let a = LockedAccount {
        owner,
        lock_index,
        redeem_index: 0,
        is_msrm,
        created_at: now,
        total_gsrm_amount: g,
        gsrm_burned: 0,
    };
    let t = ClaimTicket {
        owner,
        deposit_account: dep,
        created_at: now,
        claim_delay: c.claim_delay,
        gsrm_amount: g,
    };
    let u2 = User { lock_index: next_index, ..u };
    ledger.set(RecordId::Deposit { deposit: dep }, Stored { record: Record::Locked(a), payer });
    ledger.set(RecordId::Claim { deposit: dep }, Stored { record: Record::Claim(t), payer });
    ledger.set(RecordId::User { owner }, Stored { record: Record::User(u2), payer: user_payer });
    let mint = if is_msrm {
        c.msrm_mint
    } else {
        c.srm_mint
    };
    Ok(Effect { token: TokenOp::TransferIn { mint, from: payer, amount }, refund: None })
}

/// Deposits `amount` of SRM (or, with `is_msrm`, MSRM) paid by `payer` into a
/// new vesting record of `owner` at `vest_index`, the owner's next vest index,
/// which keeps the configured cliff and linear periods, with a claim ticket for
/// its gSRM worth.
pub fn deposit_vest(
    ledger: &mut Ledger,
    payer: Pubkey,
    owner: Pubkey,
    vest_index: u64,
    amount: u64,
    is_msrm: bool,
    now: i64,
) -> (r: Result<Effect, SerumGovError>)
    requires
        old(ledger).inv(),
    ensures
        final(ledger).inv(),
        r is Err ==> final(ledger)@ == old(ledger)@,
        (final(ledger)@, r) == deposit_vest_step(
            old(ledger)@,
            payer,
            owner,
            vest_index,
            amount,
            is_msrm,
            now,
        ),
{
    if amount == 0 {
        return Err(SerumGovError::InvalidAmount);
    }
    let (c, _) = match read_config(ledger) {
        Some(x) => x,
        None => {
            return Err(SerumGovError::AccountNotFound);
        },
    };
    let (u, user_payer) = match read_user(ledger, owner) {
        Some(x) => x,
        None => {
            return Err(SerumGovError::AccountNotFound);
        },
    };
    let dep = DepositRef::Vest { owner, vest_index };
    if is_stored(ledger, &RecordId::Deposit { deposit: dep }) || is_stored(
        ledger,
        &RecordId::Claim { deposit: dep },
    ) {
        return Err(SerumGovError::AccountAlreadyExists);
    }
    if vest_index != u.vest_index {
        return Err(SerumGovError::InvalidDepositIndex);
    }
    let g = if is_msrm {
        match amount.checked_mul(MSRM_MULTIPLIER) {
            Some(g) => g,
            None => {
                return Err(SerumGovError::ArithmeticError);
            },
        }
    } else {
        amount
    };
    let next_index = match u.vest_index.checked_add(1) {
        Some(n) => n,
        None => {
            return Err(SerumGovError::ArithmeticError);
        },
    };
    let v = VestAccount {
        owner,
        vest_index,
        redeem_index: 0,
        is_msrm,
        created_at: now,
        cliff_period: c.cliff_period,
        linear_vesting_period: c.linear_vesting_period,
        total_gsrm_amount: g,
        gsrm_burned: 0,
    };
    let t = ClaimTicket {
        owner,
        deposit_account: dep,
        created_at: now,
        claim_delay: c.claim_delay,
        gsrm_amount: g,
    };
    let u2 = User { vest_index: next_index, ..u };
    ledger.set(RecordId::Deposit { deposit: dep }, Stored { record: Record::Vest(v), payer });
    ledger.set(RecordId::Claim { deposit: dep }, Stored { record: Record::Claim(t), payer });
    ledger.set(RecordId::User { owner }, Stored { record: Record::User(u2), payer: user_payer });
    let mint = if is_msrm {
        c.msrm_mint
    } else {
        c.srm_mint
    };
    Ok(Effect { token: TokenOp::TransferIn { mint, from: payer, amount }, refund: None })
}

/// `deposit_locked` of SRM.
pub fn deposit_locked_srm(
    ledger: &mut Ledger,
    payer: Pubkey,
    owner: Pubkey,
    lock_index: u64,
    amount: u64,
    now: i64,
) -> (r: Result<Effect, SerumGovError>)
    requires
        old(ledger).inv(),
    ensures
        final(ledger).inv(),
        r is Err ==> final(ledger)@ == old(ledger)@,
        (final(ledger)@, r) == deposit_locked_step(
            old(ledger)@,
            payer,
            owner,
            lock_index,
            amount,
            false,
            now,
        ),
{
    deposit_locked(ledger, payer, owner, lock_index, amount, false, now)
}

/// `deposit_locked` of MSRM: the record and the ticket hold `amount` times
/// `MSRM_MULTIPLIER` gSRM.
pub fn deposit_locked_msrm(
    ledger: &mut Ledger,
    payer: Pubkey,
    owner: Pubkey,
    lock_index: u64,
    amount: u64,
    now: i64,
) -> (r: Result<Effect, SerumGovError>)
    requires
        old(ledger).inv(),
    ensures
        final(ledger).inv(),
        r is Err ==> final(ledger)@ == old(ledger)@,
        (final(ledger)@, r) == deposit_locked_step(
            old(ledger)@,
            payer,
            owner,
            lock_index,
            amount,
            true,
            now,
        ),
{
    deposit_locked(ledger, payer, owner, lock_index, amount, true, now)
}

/// `deposit_vest` of SRM.
pub fn deposit_vest_srm(
    ledger: &mut Ledger,
    payer: Pubkey,
    owner: Pubkey,
    vest_index: u64,
    amount: u64,
    now: i64,
) -> (r: Result<Effect, SerumGovError>)
    requires
        old(ledger).inv(),
    ensures
        final(ledger).inv(),
        r is Err ==> final(ledger)@ == old(ledger)@,
        (final(ledger)@, r) == deposit_vest_step(
            old(ledger)@,
            payer,
            owner,
            vest_index,
            amount,
            false,
            now,
        ),
{
    deposit_vest(ledger, payer, owner, vest_index, amount, false, now)
}

/// `deposit_vest` of MSRM: the record and the ticket hold `amount` times
/// `MSRM_MULTIPLIER` gSRM.
pub fn deposit_vest_msrm(
    ledger: &mut Ledger,
    payer: Pubkey,
    owner: Pubkey,
    vest_index: u64,
    amount: u64,
    now: i64,
) -> (r: Result<Effect, SerumGovError>)
    requires
        old(ledger).inv(),
    ensures
        final(ledger).inv(),
        r is Err ==> final(ledger)@ == old(ledger)@,
        (final(ledger)@, r) == deposit_vest_step(
            old(ledger)@,
            payer,
            owner,
            vest_index,
            amount,
            true,
            now,
        ),
{
    deposit_vest(ledger, payer, owner, vest_index, amount, true, now)
}

/// Whether `created_at + delay` has come at `now`; `None` where the sum
/// leaves the range of `i64`.
fn delay_check(created_at: i64, delay: i64, now: i64) -> (r: Option<bool>)
    ensures
        r == (if i64::MIN <= created_at + delay <= i64::MAX {
            Some(created_at + delay <= now)
        } else {
            None::<bool>
        }),
{
    match created_at.checked_add(delay) {
        Some(due) => Some(due <= now),
        None => None,
    }
}

/// Mints the gSRM of a claim ticket of `owner` once its delay has elapsed at
/// `now`, and closes the ticket.
pub fn claim(ledger: &mut Ledger, owner: Pubkey, ticket: RecordId, now: i64) -> (r: Result<
    Effect,
    SerumGovError,
>)
    requires
        old(ledger).inv(),
    ensures
        final(ledger).inv(),
        r is Err ==> final(ledger)@ == old(ledger)@,
        (final(ledger)@, r) == claim_step(old(ledger)@, owner, ticket, now),
{
    let (t, payer) = match ledger.get(&ticket) {
        Some(Stored { record: Record::Claim(t), payer }) => (t, payer),
        _ => {
            return Err(SerumGovError::AccountNotFound);
        },
    };
    if !t.owner.same(&owner) {
        return Err(SerumGovError::InvalidTicketOwner);
    }
    match delay_check(t.created_at, t.claim_delay, now) {
        None => {
            return Err(SerumGovError::ArithmeticError);
        },
        Some(false) => {
            return Err(SerumGovError::TicketNotClaimable);
        },
        Some(true) => {},
    }
    ledger.remove(&ticket);
    Ok(
        Effect {
            token: TokenOp::MintGsrm { to: owner, amount: t.gsrm_amount },
            refund: Some(Refund { account: ticket, to: payer }),
        },
    )
}

/// Writes the outcome of a burn whose amounts are known and checked.
fn apply_burn(
    ledger: &mut Ledger,
    owner: Pubkey,
    dep: DepositRef,
    payer: Pubkey,
    updated: Record,
    exhausted: bool,
    redeem_index: u64,
    is_msrm: bool,
    burned: u64,
    release: u64,
    c: Config,
    now: i64,
) -> (e: Effect)
    requires
        old(ledger).wf(),
        exhausted ==> old(ledger)@.contains_key(RecordId::Deposit { deposit: dep }),
    ensures
        final(ledger).wf(),
        (final(ledger)@, Ok::<Effect, SerumGovError>(e)) == burn_outcome(
            old(ledger)@,
            owner,
            dep,
            payer,
            updated,
            exhausted,
            redeem_index,
            is_msrm,
            burned,
            release,
            c,
            now,
        ),
{
    let id = RecordId::Deposit { deposit: dep };
    let refund = if exhausted {
        ledger.remove(&id);
        Some(Refund { account: id, to: payer })
    } else {
        ledger.set(id, Stored { record: updated, payer });
        None
    };
    let t = RedeemTicket {
        owner,
        deposit_account: dep,
        redeem_index,
        is_msrm,
        created_at: now,
        redeem_delay: c.redeem_delay,
        amount: release,
    };
    ledger.set(
        RecordId::Redeem { deposit: dep, redeem_index },
        Stored { record: Record::Redeem(t), payer: owner },
    );
    Effect { token: TokenOp::BurnGsrm { from: owner, amount: burned }, refund }
}

/// Burns `amount` gSRM of `owner` against the owner's locked record at
/// `lock_index`; the record closes when fully burned. A redeem ticket for the
/// asset released is issued.
pub fn burn_locked_gsrm(ledger: &mut Ledger, owner: Pubkey, lock_index: u64, amount: u64, now: i64) -> (r:
    Result<Effect, SerumGovError>)
    requires
        old(ledger).inv(),
    ensures
        final(ledger).inv(),
        r is Err ==> final(ledger)@ == old(ledger)@,
        (final(ledger)@, r) == burn_locked_step(old(ledger)@, owner, lock_index, amount, now),
{
    let dep = DepositRef::Locked { owner, lock_index };
    let (c, _) = match read_config(ledger) {
        Some(x) => x,
        None => {
            return Err(SerumGovError::AccountNotFound);
        },
    };
    let (a, payer) = match ledger.get(&RecordId::Deposit { deposit: dep }) {
        Some(Stored { record: Record::Locked(a), payer }) => (a, payer),
        _ => {
            return Err(SerumGovError::AccountNotFound);
        },
    };
    let (burned, release) = match locked_burn_amounts(&a, amount) {
        Ok(x) => x,
        Err(e) => {
            return Err(e);
        },
    };
    if is_stored(ledger, &RecordId::Redeem { deposit: dep, redeem_index: a.redeem_index }) {
        return Err(SerumGovError::AccountAlreadyExists);
    }
    let new_burned = a.gsrm_burned + burned;
    let exhausted = new_burned == a.total_gsrm_amount;
    let next_index = if exhausted {
        a.redeem_index
    } else {
        match a.redeem_index.checked_add(1) {
            Some(n) => n,
            None => {
                return Err(SerumGovError::ArithmeticError);
            },
        }
    };
    let a2 = LockedAccount { gsrm_burned: new_burned, redeem_index: next_index, ..a };
    let updated = Record::Locked(a2);
    Ok(
        apply_burn(
            ledger,
            owner,
            dep,
            payer,
            updated,
            exhausted,
            a.redeem_index,
            a.is_msrm,
            burned,
            release,
            c,
            now,
        ),
    )
}

/// Burns up to `amount` gSRM of `owner` against the owner's vesting record at
/// `vest_index`: as much as has vested at `now` and is not burned yet. The
/// record closes when fully burned. A redeem ticket for the asset released is
/// issued.
pub fn burn_vest_gsrm(ledger: &mut Ledger, owner: Pubkey, vest_index: u64, amount: u64, now: i64) -> (r:
    Result<Effect, SerumGovError>)
    requires
        old(ledger).inv(),
    ensures
        final(ledger).inv(),
        r is Err ==> final(ledger)@ == old(ledger)@,
        (final(ledger)@, r) == burn_vest_step(old(ledger)@, owner, vest_index, amount, now),
{
    let dep = DepositRef::Vest { owner, vest_index };
    let (c, _) = match read_config(ledger) {
        Some(x) => x,
        None => {
            return Err(SerumGovError::AccountNotFound);
        },
    };
    let (v, payer) = match ledger.get(&RecordId::Deposit { deposit: dep }) {
        Some(Stored { record: Record::Vest(v), payer }) => (v, payer),
        _ => {
            return Err(SerumGovError::AccountNotFound);
        },
    };
    let (burned, release) = match vest_burn_amounts(&v, amount, now) {
        Ok(x) => x,
        Err(e) => {
            return Err(e);
        },
    };
    proof {
        lemma_vested_bounds(
            v.total_gsrm_amount as int,
            cliff_end_of(v),
            v.linear_vesting_period as int,
            now as int,
        );
    }
    if is_stored(ledger, &RecordId::Redeem { deposit: dep, redeem_index: v.redeem_index }) {
        return Err(SerumGovError::AccountAlreadyExists);
    }
    let new_burned = v.gsrm_burned + burned;
    let exhausted = new_burned == v.total_gsrm_amount;
    let next_index = if exhausted {
        v.redeem_index
    } else {
        match v.redeem_index.checked_add(1) {
            Some(n) => n,
            None => {
                return Err(SerumGovError::ArithmeticError);
            },
        }
    };
    let v2 = VestAccount { gsrm_burned: new_burned, redeem_index: next_index, ..v };
    Ok(
        apply_burn(
            ledger,
            owner,
            dep,
            payer,
            Record::Vest(v2),
            exhausted,
            v.redeem_index,
            v.is_msrm,
            burned,
            release,
            c,
            now,
        ),
    )
}

/// Pays out a redeem ticket of `owner` for SRM (or, with `is_msrm`, MSRM) once
/// its delay has elapsed at `now`, and closes the ticket.
pub fn redeem(ledger: &mut Ledger, owner: Pubkey, ticket: RecordId, is_msrm: bool, now: i64) -> (r:
    Result<Effect, SerumGovError>)
    requires
        old(ledger).inv(),
    ensures
        final(ledger).inv(),
        r is Err ==> final(ledger)@ == old(ledger)@,
        (final(ledger)@, r) == redeem_step(old(ledger)@, owner, ticket, is_msrm, now),
{
    let (c, _) = match read_config(ledger) {
        Some(x) => x,
        None => {
            return Err(SerumGovError::AccountNotFound);
        },
    };
    let (t, payer) = match ledger.get(&ticket) {
        Some(Stored { record: Record::Redeem(t), payer }) => (t, payer),
        _ => {
            return Err(SerumGovError::AccountNotFound);
        },
    };
    if !t.owner.same(&owner) {
        return Err(SerumGovError::InvalidTicketOwner);
    }
    if t.is_msrm != is_msrm {
        return Err(SerumGovError::InvalidRedeemTicket);
    }
    match delay_check(t.created_at, t.redeem_delay, now) {
        None => {
            return Err(SerumGovError::ArithmeticError);
        },
        Some(false) => {
            return Err(SerumGovError::TicketNotClaimable);
        },
        Some(true) => {},
    }
    if t.amount == 0 {
        return Err(SerumGovError::TicketNotClaimable);
    }
    ledger.remove(&ticket);
    let mint = if is_msrm {
        c.msrm_mint
    } else {
        c.srm_mint
    };
    Ok(
        Effect {
            token: TokenOp::TransferOut { mint, to: owner, amount: t.amount },
            refund: Some(Refund { account: ticket, to: payer }),
        },
    )
}

/// `redeem` of a ticket for SRM.
pub fn redeem_srm(ledger: &mut Ledger, owner: Pubkey, ticket: RecordId, now: i64) -> (r: Result<
    Effect,
    SerumGovError,
>)
    requires
        old(ledger).inv(),
    ensures
        final(ledger).inv(),
        r is Err ==> final(ledger)@ == old(ledger)@,
        (final(ledger)@, r) == redeem_step(old(ledger)@, owner, ticket, false, now),
{
    redeem(ledger, owner, ticket, false, now)
}

/// `redeem` of a ticket for MSRM.
pub fn redeem_msrm(ledger: &mut Ledger, owner: Pubkey, ticket: RecordId, now: i64) -> (r: Result<
    Effect,
    SerumGovError,
>)
    requires
        old(ledger).inv(),
    ensures
        final(ledger).inv(),
        r is Err ==> final(ledger)@ == old(ledger)@,
        (final(ledger)@, r) == redeem_step(old(ledger)@, owner, ticket, true, now),
{
    redeem(ledger, owner, ticket, true, now)
}

} // verus!
