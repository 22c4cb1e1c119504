//! Properties of the operations that span more than one call.
use vstd::prelude::*;

use crate::errors::SerumGovError;
use crate::model::{
    burn_locked_step, burn_vest_step, claim_step, deposit_locked_step, deposit_vest_step, lookup,
    records_inv, redeem_step, update_config_params_step, user_of,
};
use crate::state::{DepositRef, Effect, Pubkey, Record, RecordId, Stored};
use crate::vesting::{cliff_end_of, lemma_vested_bounds, locked_burn_spec, vest_burn_spec};

verus! {

/// A claim ticket is single use: once a claim of it has succeeded, every
/// further claim of the same ticket, by anyone at any time, fails as not
/// found and changes nothing.
pub proof fn lemma_claim_ticket_single_use(
    m: Map<RecordId, Stored>,
    owner: Pubkey,
    ticket: RecordId,
    now: i64,
    owner2: Pubkey,
    now2: i64,
)
    requires
        claim_step(m, owner, ticket, now).1 is Ok,
    ensures
        ({
            let m1 = claim_step(m, owner, ticket, now).0;
            claim_step(m1, owner2, ticket, now2) == (m1, Err::<
                Effect,
                SerumGovError,
            >(SerumGovError::AccountNotFound))
        }),
{
}

/// A redeem ticket pays out once: after a successful redemption, every further
/// redemption of the same ticket, by anyone, for either asset and at any time,
/// fails as not found and changes nothing.
pub proof fn lemma_redeem_ticket_single_use(
    m: Map<RecordId, Stored>,
    owner: Pubkey,
    ticket: RecordId,
    is_msrm: bool,
    now: i64,
    owner2: Pubkey,
    is_msrm2: bool,
    now2: i64,
)
    requires
        redeem_step(m, owner, ticket, is_msrm, now).1 is Ok,
    ensures
        ({
            let m1 = redeem_step(m, owner, ticket, is_msrm, now).0;
            redeem_step(m1, owner2, ticket, is_msrm2, now2) == (m1, Err::<
                Effect,
                SerumGovError,
            >(SerumGovError::AccountNotFound))
        }),
{
}

/// A locked deposit at a given index succeeds at most once: submitting the
/// same deposit again fails with a conflict and creates nothing.
pub proof fn lemma_deposit_locked_index_used_once(
    m: Map<RecordId, Stored>,
    payer: Pubkey,
    owner: Pubkey,
    lock_index: u64,
    amount: u64,
    is_msrm: bool,
    now: i64,
    payer2: Pubkey,
    now2: i64,
)
    requires
        deposit_locked_step(m, payer, owner, lock_index, amount, is_msrm, now).1 is Ok,
    ensures
        ({
            let m1 = deposit_locked_step(m, payer, owner, lock_index, amount, is_msrm, now).0;
            deposit_locked_step(m1, payer2, owner, lock_index, amount, is_msrm, now2) == (m1, Err::<
                Effect,
                SerumGovError,
            >(SerumGovError::AccountAlreadyExists))
        }),
{
}

/// A vesting deposit at a given index succeeds at most once: submitting the
/// same deposit again fails with a conflict and creates nothing.
pub proof fn lemma_deposit_vest_index_used_once(
    m: Map<RecordId, Stored>,
    payer: Pubkey,
    owner: Pubkey,
    vest_index: u64,
    amount: u64,
    is_msrm: bool,
    now: i64,
    payer2: Pubkey,
    now2: i64,
)
    requires
        deposit_vest_step(m, payer, owner, vest_index, amount, is_msrm, now).1 is Ok,
    ensures
        ({
            let m1 = deposit_vest_step(m, payer, owner, vest_index, amount, is_msrm, now).0;
            deposit_vest_step(m1, payer2, owner, vest_index, amount, is_msrm, now2) == (m1, Err::<
                Effect,
                SerumGovError,
            >(SerumGovError::AccountAlreadyExists))
        }),
{
}

/// A successful burn against a locked record never takes `gsrm_burned` past
/// `total_gsrm_amount`, and the record stays in the store exactly when gSRM is
/// left in it, holding the new burned total.
pub proof fn lemma_burn_locked_closes_exactly_when_exhausted(
    m: Map<RecordId, Stored>,
    owner: Pubkey,
    lock_index: u64,
    amount: u64,
    now: i64,
)
    requires
        burn_locked_step(m, owner, lock_index, amount, now).1 is Ok,
    ensures
        ({
            let id = RecordId::Deposit { deposit: DepositRef::Locked { owner, lock_index } };
            let m1 = burn_locked_step(m, owner, lock_index, amount, now).0;
            let a = lookup(m, id).unwrap().record->Locked_0;
            let burned = locked_burn_spec(a, amount).unwrap().0;
            &&& lookup(m, id).unwrap().record is Locked
            &&& a.gsrm_burned + burned <= a.total_gsrm_amount
            &&& m1.contains_key(id) <==> a.gsrm_burned + burned < a.total_gsrm_amount
            &&& m1.contains_key(id) ==> m1[id].record->Locked_0.gsrm_burned == a.gsrm_burned
                + burned
        }),
{
}

/// A successful burn against a vesting record never takes `gsrm_burned` past
/// `total_gsrm_amount`, and the record stays in the store exactly when gSRM is
/// left in it, holding the new burned total.
pub proof fn lemma_burn_vest_closes_exactly_when_exhausted(
    m: Map<RecordId, Stored>,
    owner: Pubkey,
    vest_index: u64,
    amount: u64,
    now: i64,
)
    requires
        burn_vest_step(m, owner, vest_index, amount, now).1 is Ok,
    ensures
        ({
            let id = RecordId::Deposit { deposit: DepositRef::Vest { owner, vest_index } };
            let m1 = burn_vest_step(m, owner, vest_index, amount, now).0;
            let v = lookup(m, id).unwrap().record->Vest_0;
            let burned = vest_burn_spec(v, amount, now).unwrap().0;
            &&& lookup(m, id).unwrap().record is Vest
            &&& v.gsrm_burned + burned <= v.total_gsrm_amount
            &&& m1.contains_key(id) <==> v.gsrm_burned + burned < v.total_gsrm_amount
            &&& m1.contains_key(id) ==> m1[id].record->Vest_0.gsrm_burned == v.gsrm_burned
                + burned
        }),
{
    let v = lookup(m, RecordId::Deposit { deposit: DepositRef::Vest { owner, vest_index } }).unwrap().record->Vest_0;
    lemma_vested_bounds(
        v.total_gsrm_amount as int,
        cliff_end_of(v),
        v.linear_vesting_period as int,
        now as int,
    );
}

/// In a store that keeps the invariant, every locked or vesting record holds
/// `0 <= gsrm_burned < total_gsrm_amount`: a record that is fully burned is
/// no longer stored.
pub proof fn lemma_stored_deposit_within_bounds(m: Map<RecordId, Stored>, deposit: DepositRef)
    requires
        records_inv(m),
        m.contains_key(RecordId::Deposit { deposit }),
    ensures
        match m[RecordId::Deposit { deposit }].record {
            Record::Locked(a) => 0 <= a.gsrm_burned < a.total_gsrm_amount,
            Record::Vest(v) => 0 <= v.gsrm_burned < v.total_gsrm_amount,
            _ => false,
        },
{
    assert(m.contains_key(RecordId::Deposit { deposit }));
}

/// Changing the configured delays and periods touches the configuration
/// alone: records created earlier, vesting records with their periods among
/// them, stay as they were.
pub proof fn lemma_config_update_leaves_records(
    m: Map<RecordId, Stored>,
    signer: Pubkey,
    claim_delay: i64,
    redeem_delay: i64,
    cliff_period: i64,
    linear_vesting_period: i64,
    id: RecordId,
)
    requires
        id != RecordId::Config,
    ensures
        ({
            let m1 = update_config_params_step(
                m,
                signer,
                claim_delay,
                redeem_delay,
                cliff_period,
                linear_vesting_period,
            ).0;
            &&& m1.contains_key(id) == m.contains_key(id)
            &&& m.contains_key(id) ==> m1[id] == m[id]
        }),
{
}

/// A redeem index is never used twice for the same deposit record: in a store
/// that keeps the invariant, a burn never fails for want of a free redeem
/// ticket address.
pub proof fn lemma_burn_locked_redeem_index_is_fresh(
    m: Map<RecordId, Stored>,
    owner: Pubkey,
    lock_index: u64,
    amount: u64,
    now: i64,
)
    requires
        records_inv(m),
    ensures
        burn_locked_step(m, owner, lock_index, amount, now).1 != Err::<Effect, SerumGovError>(
            SerumGovError::AccountAlreadyExists,
        ),
{
    let dep = DepositRef::Locked { owner, lock_index };
    if m.contains_key(RecordId::Deposit { deposit: dep }) {
        let a = m[RecordId::Deposit { deposit: dep }].record;
        if a is Locked {
            let j = a->Locked_0.redeem_index;
            assert(m.contains_key(RecordId::Redeem { deposit: dep, redeem_index: j }) ==> j < j);
        }
    }
}

/// As `lemma_burn_locked_redeem_index_is_fresh`, for vesting records.
pub proof fn lemma_burn_vest_redeem_index_is_fresh(
    m: Map<RecordId, Stored>,
    owner: Pubkey,
    vest_index: u64,
    amount: u64,
    now: i64,
)
    requires
        records_inv(m),
    ensures
        burn_vest_step(m, owner, vest_index, amount, now).1 != Err::<Effect, SerumGovError>(
            SerumGovError::AccountAlreadyExists,
        ),
{
    let dep = DepositRef::Vest { owner, vest_index };
    if m.contains_key(RecordId::Deposit { deposit: dep }) {
        let v = m[RecordId::Deposit { deposit: dep }].record;
        if v is Vest {
            let j = v->Vest_0.redeem_index;
            assert(m.contains_key(RecordId::Redeem { deposit: dep, redeem_index: j }) ==> j < j);
        }
    }
}

/// Deposit indices are never reused: in a store that keeps the invariant, a
/// locked deposit at the owner's next lock index never meets an existing
/// record or ticket, even when earlier deposits have been closed.
pub proof fn lemma_deposit_locked_next_index_is_fresh(
    m: Map<RecordId, Stored>,
    payer: Pubkey,
    owner: Pubkey,
    amount: u64,
    is_msrm: bool,
    now: i64,
)
    requires
        records_inv(m),
        user_of(m, owner) is Some,
    ensures
        ({
            let lock_index = user_of(m, owner)->Some_0.0.lock_index;
            deposit_locked_step(m, payer, owner, lock_index, amount, is_msrm, now).1 != Err::<
                Effect,
                SerumGovError,
            >(SerumGovError::AccountAlreadyExists)
        }),
{
    let lock_index = user_of(m, owner)->Some_0.0.lock_index;
    let dep = DepositRef::Locked { owner, lock_index };
    assert(m.contains_key(RecordId::Deposit { deposit: dep }) ==> lock_index < lock_index);
    assert(m.contains_key(RecordId::Claim { deposit: dep }) ==> lock_index < lock_index);
}

/// As `lemma_deposit_locked_next_index_is_fresh`, for vesting deposits.
pub proof fn lemma_deposit_vest_next_index_is_fresh(
    m: Map<RecordId, Stored>,
    payer: Pubkey,
    owner: Pubkey,
    amount: u64,
    is_msrm: bool,
    now: i64,
)
    requires
        records_inv(m),
        user_of(m, owner) is Some,
    ensures
        ({
            let vest_index = user_of(m, owner)->Some_0.0.vest_index;
            deposit_vest_step(m, payer, owner, vest_index, amount, is_msrm, now).1 != Err::<
                Effect,
                SerumGovError,
            >(SerumGovError::AccountAlreadyExists)
        }),
{
    let vest_index = user_of(m, owner)->Some_0.0.vest_index;
    let dep = DepositRef::Vest { owner, vest_index };
    assert(m.contains_key(RecordId::Deposit { deposit: dep }) ==> vest_index < vest_index);
    assert(m.contains_key(RecordId::Claim { deposit: dep }) ==> vest_index < vest_index);
}

} // verus!
