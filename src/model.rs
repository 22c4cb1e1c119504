use vstd::prelude::*;

use crate::errors::SerumGovError;
use crate::state::{
    ClaimTicket, Config, DepositRef, Effect, LockedAccount, Pubkey, Record, RecordId, RedeemTicket,
    Refund, Stored, TokenOp, User, VestAccount,
};
use crate::vesting::{locked_burn_spec, vest_burn_spec};
use crate::MSRM_MULTIPLIER;

verus! {

/// No delay or period of the configuration is negative.
pub open spec fn config_params_ok(
    claim_delay: i64,
    redeem_delay: i64,
    cliff_period: i64,
    linear_vesting_period: i64,
) -> bool {
    claim_delay >= 0 && redeem_delay >= 0 && cliff_period >= 0 && linear_vesting_period >= 0
}

/// Whether `s` may stand under `id`: the record has the kind and the keys that
/// the id names, and a deposit record still holds unburned gSRM.
pub open spec fn fits(id: RecordId, s: Stored) -> bool {
    match (id, s.record) {
        (RecordId::Config, Record::Config(c)) => config_params_ok(
            c.claim_delay,
            c.redeem_delay,
            c.cliff_period,
            c.linear_vesting_period,
        ),
        (RecordId::User { owner }, Record::User(u)) => u.owner == owner,
        (
            RecordId::Deposit { deposit: DepositRef::Locked { owner, lock_index } },
            Record::Locked(a),
        ) => {
            &&& a.owner == owner
            &&& a.lock_index == lock_index
            &&& a.gsrm_burned < a.total_gsrm_amount
        },
        (
            RecordId::Deposit { deposit: DepositRef::Vest { owner, vest_index } },
            Record::Vest(v),
        ) => {
            &&& v.owner == owner
            &&& v.vest_index == vest_index
            &&& v.gsrm_burned < v.total_gsrm_amount
            &&& v.cliff_period >= 0
            &&& v.linear_vesting_period >= 0
        },
        (RecordId::Claim { deposit }, Record::Claim(t)) => {
            &&& t.deposit_account == deposit
            &&& t.owner == deposit.owner_spec()
        },
        (RecordId::Redeem { deposit, redeem_index }, Record::Redeem(t)) => {
            &&& t.deposit_account == deposit
            &&& t.redeem_index == redeem_index
            &&& t.owner == deposit.owner_spec()
        },
        _ => false,
    }
}

/// The index of a deposit among its owner's deposits of that kind.
pub open spec fn deposit_index(dep: DepositRef) -> int {
    match dep {
        DepositRef::Locked { lock_index, .. } => lock_index as int,
        DepositRef::Vest { vest_index, .. } => vest_index as int,
    }
}

/// The counter of `u` that gives deposits of the kind of `dep` their index.
pub open spec fn next_deposit_index(u: User, dep: DepositRef) -> int {
    match dep {
        DepositRef::Locked { .. } => u.lock_index as int,
        DepositRef::Vest { .. } => u.vest_index as int,
    }
}

/// The next redeem index of a deposit record.
pub open spec fn next_redeem_index(r: Record) -> int {
    match r {
        Record::Locked(a) => a.redeem_index as int,
        Record::Vest(v) => v.redeem_index as int,
        _ => 0,
    }
}

/// The owner of `dep` has counters, and the counter for its kind has gone past
/// its index: the index was handed out.
pub open spec fn issued(m: Map<RecordId, Stored>, dep: DepositRef) -> bool {
    let uid = RecordId::User { owner: dep.owner_spec() };
    &&& m.contains_key(uid)
    &&& m[uid].record is User
    &&& deposit_index(dep) < next_deposit_index(m[uid].record->User_0, dep)
}

/// Every deposit record and every ticket belongs to a deposit whose index was
/// handed out, and every redeem ticket of a stored deposit record has an index
/// below the record's next redeem index.
pub open spec fn indices_inv(m: Map<RecordId, Stored>) -> bool {
    &&& forall|dep: DepositRef| #[trigger]
        m.contains_key(RecordId::Deposit { deposit: dep }) ==> issued(m, dep)
    &&& forall|dep: DepositRef| #[trigger]
        m.contains_key(RecordId::Claim { deposit: dep }) ==> issued(m, dep)
    &&& forall|dep: DepositRef, j: u64| #[trigger]
        m.contains_key(RecordId::Redeem { deposit: dep, redeem_index: j }) ==> {
            &&& issued(m, dep)
            &&& m.contains_key(RecordId::Deposit { deposit: dep }) ==> j < next_redeem_index(
                m[RecordId::Deposit { deposit: dep }].record,
            )
        }
}

/// The invariant of the store: every record fits its id, and indices are
/// handed out once. In particular a locked or vesting record is stored only
/// while `gsrm_burned < total_gsrm_amount`.
pub open spec fn records_inv(m: Map<RecordId, Stored>) -> bool {
    &&& forall|id: RecordId| #[trigger] m.contains_key(id) ==> fits(id, m[id])
    &&& indices_inv(m)
}

pub open spec fn lookup(m: Map<RecordId, Stored>, id: RecordId) -> Option<Stored> {
    if m.contains_key(id) {
        Some(m[id])
    } else {
        None
    }
}

pub open spec fn config_of(m: Map<RecordId, Stored>) -> Option<(Config, Pubkey)> {
    match lookup(m, RecordId::Config) {
        Some(Stored { record: Record::Config(c), payer }) => Some((c, payer)),
        _ => None,
    }
}

pub open spec fn user_of(m: Map<RecordId, Stored>, owner: Pubkey) -> Option<(User, Pubkey)> {
    match lookup(m, RecordId::User { owner }) {
        Some(Stored { record: Record::User(u), payer }) => Some((u, payer)),
        _ => None,
    }
}

/// The gSRM that a deposit of `amount` of the asset is worth.
pub open spec fn scaled_amount(amount: u64, is_msrm: bool) -> int {
    if is_msrm {
        amount * MSRM_MULTIPLIER
    } else {
        amount as int
    }
}

pub open spec fn asset_mint(c: Config, is_msrm: bool) -> Pubkey {
    if is_msrm {
        c.msrm_mint
    } else {
        c.srm_mint
    }
}

/// `init`: creates the configuration.
pub open spec fn init_step(
    m: Map<RecordId, Stored>,
    payer: Pubkey,
    config_authority: Pubkey,
    srm_mint: Pubkey,
    msrm_mint: Pubkey,
    claim_delay: i64,
    redeem_delay: i64,
    cliff_period: i64,
    linear_vesting_period: i64,
) -> (Map<RecordId, Stored>, Result<(), SerumGovError>) {
    if m.contains_key(RecordId::Config) {
        (m, Err(SerumGovError::AccountAlreadyExists))
    } else if !config_params_ok(claim_delay, redeem_delay, cliff_period, linear_vesting_period) {
        (m, Err(SerumGovError::InvalidConfigParams))
    } else {
        let c = Config {
            config_authority,
            srm_mint,
            msrm_mint,
            claim_delay,
            redeem_delay,
            cliff_period,
            linear_vesting_period,
        };
        (m.insert(RecordId::Config, Stored { record: Record::Config(c), payer }), Ok(()))
    }
}

/// `update_config_authority`: the authority hands its role to another key.
pub open spec fn update_config_authority_step(
    m: Map<RecordId, Stored>,
    signer: Pubkey,
    new_config_authority: Pubkey,
) -> (Map<RecordId, Stored>, Result<(), SerumGovError>) {
    match config_of(m) {
        None => (m, Err(SerumGovError::AccountNotFound)),
        Some((c, payer)) => if signer != c.config_authority {
            (m, Err(SerumGovError::InvalidConfigAuthority))
        } else {
            let c2 = Config { config_authority: new_config_authority, ..c };
            (m.insert(RecordId::Config, Stored { record: Record::Config(c2), payer }), Ok(()))
        },
    }
}

/// `update_config_params`: the authority sets new delays and periods; records
/// created earlier keep the values they were created with.
pub open spec fn update_config_params_step(
    m: Map<RecordId, Stored>,
    signer: Pubkey,
    claim_delay: i64,
    redeem_delay: i64,
    cliff_period: i64,
    linear_vesting_period: i64,
) -> (Map<RecordId, Stored>, Result<(), SerumGovError>) {
    match config_of(m) {
        None => (m, Err(SerumGovError::AccountNotFound)),
        Some((c, payer)) => if signer != c.config_authority {
            (m, Err(SerumGovError::InvalidConfigAuthority))
        } else if !config_params_ok(claim_delay, redeem_delay, cliff_period, linear_vesting_period) {
            (m, Err(SerumGovError::InvalidConfigParams))
        } else {
            let c2 = Config { claim_delay, redeem_delay, cliff_period, linear_vesting_period, ..c };
            (m.insert(RecordId::Config, Stored { record: Record::Config(c2), payer }), Ok(()))
        },
    }
}

/// `init_user`: creates the owner's counters, both at zero.
pub open spec fn init_user_step(m: Map<RecordId, Stored>, payer: Pubkey, owner: Pubkey) -> (
    Map<RecordId, Stored>,
    Result<(), SerumGovError>,
) {
    if m.contains_key(RecordId::User { owner }) {
        (m, Err(SerumGovError::AccountAlreadyExists))
    } else {
        let u = User { owner, lock_index: 0, vest_index: 0 };
        (m.insert(RecordId::User { owner }, Stored { record: Record::User(u), payer }), Ok(()))
    }
}

/// A deposit of `amount` by `payer` for `owner` into a locked record at
/// `lock_index`, which must be the owner's next lock index. It creates the
/// locked record and its claim ticket, advances the counter, and asks for the
/// asset to be moved into custody.
pub open spec fn deposit_locked_step(
    m: Map<RecordId, Stored>,
    payer: Pubkey,
    owner: Pubkey,
    lock_index: u64,
    amount: u64,
    is_msrm: bool,
    now: i64,
) -> (Map<RecordId, Stored>, Result<Effect, SerumGovError>) {
    let dep = DepositRef::Locked { owner, lock_index };
    if amount == 0 {
        (m, Err(SerumGovError::InvalidAmount))
    } else {
        match (config_of(m), user_of(m, owner)) {
            (None, _) => (m, Err(SerumGovError::AccountNotFound)),
            (_, None) => (m, Err(SerumGovError::AccountNotFound)),
            (Some((c, _)), Some((u, user_payer))) => if m.contains_key(
                RecordId::Deposit { deposit: dep },
            ) || m.contains_key(RecordId::Claim { deposit: dep }) {
                (m, Err(SerumGovError::AccountAlreadyExists))
            } else if lock_index != u.lock_index {
                (m, Err(SerumGovError::InvalidDepositIndex))
            } else if scaled_amount(amount, is_msrm) > u64::MAX || u.lock_index + 1 > u64::MAX {
                (m, Err(SerumGovError::ArithmeticError))
            } else {
                let g = scaled_amount(amount, is_msrm) as u64;
                let a = LockedAccount {
                    owner,
                    lock_index,
                    redeem_index: 0,
                    is_msrm,
                    created_at: now,
                    total_gsrm_amount: g,
                    gsrm_burned: 0,
                };
                let t = ClaimTicket {
                    owner,
                    deposit_account: dep,
                    created_at: now,
                    claim_delay: c.claim_delay,
                    gsrm_amount: g,
                };
                let u2 = User { lock_index: (u.lock_index + 1) as u64, ..u };
                let m2 = m.insert(
                    RecordId::Deposit { deposit: dep },
                    Stored { record: Record::Locked(a), payer },
                ).insert(RecordId::Claim { deposit: dep }, Stored { record: Record::Claim(t), payer }).insert(
                    RecordId::User { owner },
                    Stored { record: Record::User(u2), payer: user_payer },
                );
                let e = Effect {
                    token: TokenOp::TransferIn { mint: asset_mint(c, is_msrm), from: payer, amount },
                    refund: None,
                };
                (m2, Ok(e))
            },
        }
    }
}

/// As `deposit_locked_step`, into a vesting record at the owner's next vest
/// index; the record keeps the cliff and linear periods configured now.
pub open spec fn deposit_vest_step(
    m: Map<RecordId, Stored>,
    payer: Pubkey,
    owner: Pubkey,
    vest_index: u64,
    amount: u64,
    is_msrm: bool,
    now: i64,
) -> (Map<RecordId, Stored>, Result<Effect, SerumGovError>) {
    let dep = DepositRef::Vest { owner, vest_index };
    if amount == 0 {
        (m, Err(SerumGovError::InvalidAmount))
    } else {
        match (config_of(m), user_of(m, owner)) {
            (None, _) => (m, Err(SerumGovError::AccountNotFound)),
            (_, None) => (m, Err(SerumGovError::AccountNotFound)),
            (Some((c, _)), Some((u, user_payer))) => if m.contains_key(
                RecordId::Deposit { deposit: dep },
            ) || m.contains_key(RecordId::Claim { deposit: dep }) {
                (m, Err(SerumGovError::AccountAlreadyExists))
            } else if vest_index != u.vest_index {
                (m, Err(SerumGovError::InvalidDepositIndex))
            } else if scaled_amount(amount, is_msrm) > u64::MAX || u.vest_index + 1 > u64::MAX {
                (m, Err(SerumGovError::ArithmeticError))
            } else {
                let g = scaled_amount(amount, is_msrm) as u64;
                let v = VestAccount {
                    owner,
                    vest_index,
                    redeem_index: 0,
                    is_msrm,
                    created_at: now,
                    cliff_period: c.cliff_period,
                    linear_vesting_period: c.linear_vesting_period,
                    total_gsrm_amount: g,
                    gsrm_burned: 0,
                };
                let t = ClaimTicket {
                    owner,
                    deposit_account: dep,
                    created_at: now,
                    claim_delay: c.claim_delay,
                    gsrm_amount: g,
                };
                let u2 = User { vest_index: (u.vest_index + 1) as u64, ..u };
                let m2 = m.insert(
                    RecordId::Deposit { deposit: dep },
                    Stored { record: Record::Vest(v), payer },
                ).insert(RecordId::Claim { deposit: dep }, Stored { record: Record::Claim(t), payer }).insert(
                    RecordId::User { owner },
                    Stored { record: Record::User(u2), payer: user_payer },
                );
                let e = Effect {
                    token: TokenOp::TransferIn { mint: asset_mint(c, is_msrm), from: payer, amount },
                    refund: None,
                };
                (m2, Ok(e))
            },
        }
    }
}

/// Whether `created_at + delay` is representable and not after `now`.
pub open spec fn delay_elapsed(created_at: i64, delay: i64, now: i64) -> bool {
    created_at + delay <= now
}

pub open spec fn sum_fits_i64(a: i64, b: i64) -> bool {
    i64::MIN <= a + b <= i64::MAX
}

/// `claim`: once its delay has elapsed, the owner of a claim ticket has its
/// gSRM minted, and the ticket is closed.
pub open spec fn claim_step(m: Map<RecordId, Stored>, owner: Pubkey, ticket: RecordId, now: i64) -> (
    Map<RecordId, Stored>,
    Result<Effect, SerumGovError>,
) {
    match lookup(m, ticket) {
        Some(Stored { record: Record::Claim(t), payer }) => if t.owner != owner {
            (m, Err(SerumGovError::InvalidTicketOwner))
        } else if !sum_fits_i64(t.created_at, t.claim_delay) {
            (m, Err(SerumGovError::ArithmeticError))
        } else if !delay_elapsed(t.created_at, t.claim_delay, now) {
            (m, Err(SerumGovError::TicketNotClaimable))
        } else {
            let e = Effect {
                token: TokenOp::MintGsrm { to: owner, amount: t.gsrm_amount },
                refund: Some(Refund { account: ticket, to: payer }),
            };
            (m.remove(ticket), Ok(e))
        },
        _ => (m, Err(SerumGovError::AccountNotFound)),
    }
}

/// What a burn does to the store once the amounts are known: the deposit
/// record under `id` has `burned` more gSRM burned, and is closed exactly when
/// that exhausts it; a redeem ticket for `release` is created at the record's
/// redeem index, which then advances.
pub open spec fn burn_outcome(
    m: Map<RecordId, Stored>,
    owner: Pubkey,
    dep: DepositRef,
    payer: Pubkey,
    updated: Record,
    exhausted: bool,
    redeem_index: u64,
    is_msrm: bool,
    burned: u64,
    release: u64,
    c: Config,
    now: i64,
) -> (Map<RecordId, Stored>, Result<Effect, SerumGovError>) {
    let id = RecordId::Deposit { deposit: dep };
    let rid = RecordId::Redeem { deposit: dep, redeem_index };
    let t = RedeemTicket {
        owner,
        deposit_account: dep,
        redeem_index,
        is_msrm,
        created_at: now,
        redeem_delay: c.redeem_delay,
        amount: release,
    };
    let m1 = if exhausted {
        m.remove(id)
    } else {
        m.insert(id, Stored { record: updated, payer })
    };
    let m2 = m1.insert(rid, Stored { record: Record::Redeem(t), payer: owner });
    let e = Effect {
        token: TokenOp::BurnGsrm { from: owner, amount: burned },
        refund: if exhausted {
            Some(Refund { account: id, to: payer })
        } else {
            None
        },
    };
    (m2, Ok(e))
}

/// `burn_locked_gsrm`: burns `amount` gSRM against the owner's locked record
/// at `lock_index` and issues a redeem ticket for it.
pub open spec fn burn_locked_step(
    m: Map<RecordId, Stored>,
    owner: Pubkey,
    lock_index: u64,
    amount: u64,
    now: i64,
) -> (Map<RecordId, Stored>, Result<Effect, SerumGovError>) {
    let dep = DepositRef::Locked { owner, lock_index };
    match (config_of(m), lookup(m, RecordId::Deposit { deposit: dep })) {
        (Some((c, _)), Some(Stored { record: Record::Locked(a), payer })) => match locked_burn_spec(
            a,
            amount,
        ) {
            Err(e) => (m, Err(e)),
            Ok((burned, release)) => {
                let new_burned = a.gsrm_burned + burned;
                let exhausted = new_burned == a.total_gsrm_amount;
                if m.contains_key(RecordId::Redeem { deposit: dep, redeem_index: a.redeem_index }) {
                    (m, Err(SerumGovError::AccountAlreadyExists))
                } else if !exhausted && a.redeem_index + 1 > u64::MAX {
                    (m, Err(SerumGovError::ArithmeticError))
                } else {
                    let a2 = LockedAccount {
                        gsrm_burned: new_burned as u64,
                        redeem_index: (a.redeem_index + 1) as u64,
                        ..a
                    };
                    burn_outcome(
                        m,
                        owner,
                        dep,
                        payer,
                        Record::Locked(a2),
                        exhausted,
                        a.redeem_index,
                        a.is_msrm,
                        burned,
                        release,
                        c,
                        now,
                    )
                }
            },
        },
        _ => (m, Err(SerumGovError::AccountNotFound)),
    }
}

/// `burn_vest_gsrm`: burns up to `amount` gSRM, as far as it has vested at
/// `now`, against the owner's vesting record at `vest_index`, and issues a
/// redeem ticket for it.
pub open spec fn burn_vest_step(
    m: Map<RecordId, Stored>,
    owner: Pubkey,
    vest_index: u64,
    amount: u64,
    now: i64,
) -> (Map<RecordId, Stored>, Result<Effect, SerumGovError>) {
    let dep = DepositRef::Vest { owner, vest_index };
    match (config_of(m), lookup(m, RecordId::Deposit { deposit: dep })) {
        (Some((c, _)), Some(Stored { record: Record::Vest(v), payer })) => match vest_burn_spec(
            v,
            amount,
            now,
        ) {
            Err(e) => (m, Err(e)),
            Ok((burned, release)) => {
                let new_burned = v.gsrm_burned + burned;
                let exhausted = new_burned == v.total_gsrm_amount;
                if m.contains_key(RecordId::Redeem { deposit: dep, redeem_index: v.redeem_index }) {
                    (m, Err(SerumGovError::AccountAlreadyExists))
                } else if !exhausted && v.redeem_index + 1 > u64::MAX {
                    (m, Err(SerumGovError::ArithmeticError))
                } else {
                    let v2 = VestAccount {
                        gsrm_burned: new_burned as u64,
                        redeem_index: (v.redeem_index + 1) as u64,
                        ..v
                    };
                    burn_outcome(
                        m,
                        owner,
                        dep,
                        payer,
                        Record::Vest(v2),
                        exhausted,
                        v.redeem_index,
                        v.is_msrm,
                        burned,
                        release,
                        c,
                        now,
                    )
                }
            },
        },
        _ => (m, Err(SerumGovError::AccountNotFound)),
    }
}

/// `redeem_srm` (`is_msrm` false) and `redeem_msrm` (true): once its delay has
/// elapsed, the owner of a redeem ticket for that asset is paid its amount out
/// of custody, and the ticket is closed.
pub open spec fn redeem_step(
    m: Map<RecordId, Stored>,
    owner: Pubkey,
    ticket: RecordId,
    is_msrm: bool,
    now: i64,
) -> (Map<RecordId, Stored>, Result<Effect, SerumGovError>) {
    match (config_of(m), lookup(m, ticket)) {
        (Some((c, _)), Some(Stored { record: Record::Redeem(t), payer })) => if t.owner != owner {
            (m, Err(SerumGovError::InvalidTicketOwner))
        } else if t.is_msrm != is_msrm {
            (m, Err(SerumGovError::InvalidRedeemTicket))
        } else if !sum_fits_i64(t.created_at, t.redeem_delay) {
            (m, Err(SerumGovError::ArithmeticError))
        } else if !delay_elapsed(t.created_at, t.redeem_delay, now) || t.amount == 0 {
            (m, Err(SerumGovError::TicketNotClaimable))
        } else {
            let e = Effect {
                token: TokenOp::TransferOut {
                    mint: asset_mint(c, is_msrm),
                    to: owner,
                    amount: t.amount,
                },
                refund: Some(Refund { account: ticket, to: payer }),
            };
            (m.remove(ticket), Ok(e))
        },
        _ => (m, Err(SerumGovError::AccountNotFound)),
    }
}

} // verus!
