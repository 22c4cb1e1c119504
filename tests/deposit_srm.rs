use serum_gov::errors::SerumGovError;
use serum_gov::ledger::Ledger;
use serum_gov::serum_gov::{deposit_locked_srm, init, init_user};
use serum_gov::state::{DepositRef, Pubkey, Record, RecordId, Stored, TokenOp};

fn dep_key(b: u8) -> Pubkey {
    Pubkey::new_from_array([b; 32])
}

fn dep_setup(owner: Pubkey) -> Ledger {
    let mut ledger = Ledger::new();
    init(&mut ledger, dep_key(9), dep_key(1), dep_key(2), dep_key(3), 1000, 2000, 100, 1000).unwrap();
    init_user(&mut ledger, owner, owner).unwrap();
    ledger
}

#[test]
fn success_deposit_srm() {
    let owner = dep_key(5);
    let mut ledger = dep_setup(owner);
    let effect = deposit_locked_srm(&mut ledger, owner, owner, 0, 100_000_000, 42).unwrap();
    assert_eq!(
        effect.token,
        TokenOp::TransferIn { mint: dep_key(2), from: owner, amount: 100_000_000 }
    );
    let dep = DepositRef::Locked { owner, lock_index: 0 };
    match ledger.get(&RecordId::Claim { deposit: dep }) {
        Some(Stored { record: Record::Claim(t), .. }) => {
            assert_eq!(t.gsrm_amount, 100_000_000);
            assert_eq!(t.owner, owner);
            assert_eq!(t.deposit_account, dep);
            assert_eq!(t.claim_delay, 1000);
            assert_eq!(t.created_at, 42);
        }
        other => panic!("no claim ticket: {:?}", other),
    }
    match ledger.get(&RecordId::Deposit { deposit: dep }) {
        Some(Stored { record: Record::Locked(a), .. }) => {
            assert_eq!(a.total_gsrm_amount, 100_000_000);
            assert_eq!(a.gsrm_burned, 0);
            assert!(!a.is_msrm);
        }
        other => panic!("no locked record: {:?}", other),
    }
    match ledger.get(&RecordId::User { owner }) {
        Some(Stored { record: Record::User(u), .. }) => assert_eq!(u.lock_index, 1),
        other => panic!("no user: {:?}", other),
    }
}

#[test]
fn fail_invalid_claim_index() {
    let owner = dep_key(5);
    let mut ledger = dep_setup(owner);
    let err = deposit_locked_srm(&mut ledger, owner, owner, 1, 100_000_000, 42).unwrap_err();
    assert_eq!(err, SerumGovError::InvalidDepositIndex);
    let dep = DepositRef::Locked { owner, lock_index: 1 };
    assert_eq!(ledger.get(&RecordId::Claim { deposit: dep }), None);
}

#[test]
fn deposit_zero_is_invalid() {
    let owner = dep_key(5);
    let mut ledger = dep_setup(owner);
    assert_eq!(
        deposit_locked_srm(&mut ledger, owner, owner, 0, 0, 42),
        Err(SerumGovError::InvalidAmount)
    );
}

#[test]
fn deposit_without_user_is_not_found() {
    let owner = dep_key(5);
    let mut ledger = dep_setup(owner);
    let stranger = dep_key(6);
    assert_eq!(
        deposit_locked_srm(&mut ledger, stranger, stranger, 0, 10, 42),
        Err(SerumGovError::AccountNotFound)
    );
}

#[test]
fn same_deposit_index_twice_conflicts() {
    let owner = dep_key(5);
    let mut ledger = dep_setup(owner);
    deposit_locked_srm(&mut ledger, owner, owner, 0, 10, 42).unwrap();
    assert_eq!(
        deposit_locked_srm(&mut ledger, owner, owner, 0, 10, 43),
        Err(SerumGovError::AccountAlreadyExists)
    );
    deposit_locked_srm(&mut ledger, owner, owner, 1, 10, 43).unwrap();
    match ledger.get(&RecordId::User { owner }) {
        Some(Stored { record: Record::User(u), .. }) => assert_eq!(u.lock_index, 2),
        other => panic!("no user: {:?}", other),
    }
}

#[test]
fn closed_deposit_index_is_not_reused() {
    let owner = dep_key(5);
    let mut ledger = dep_setup(owner);
    deposit_locked_srm(&mut ledger, owner, owner, 0, 10, 42).unwrap();
    serum_gov::serum_gov::burn_locked_gsrm(&mut ledger, owner, 0, 10, 43).unwrap();
    let dep = DepositRef::Locked { owner, lock_index: 0 };
    assert_eq!(ledger.get(&RecordId::Deposit { deposit: dep }), None);
    assert_eq!(
        deposit_locked_srm(&mut ledger, owner, owner, 0, 10, 44),
        Err(SerumGovError::AccountAlreadyExists)
    );
    deposit_locked_srm(&mut ledger, owner, owner, 1, 10, 44).unwrap();
}
