use serum_gov::errors::SerumGovError;
use serum_gov::ledger::Ledger;
use serum_gov::serum_gov::{
    burn_locked_gsrm, burn_vest_gsrm, claim, deposit_locked_msrm, deposit_locked_srm,
    deposit_vest_msrm, deposit_vest_srm, init, init_user, redeem_msrm, redeem_srm,
    update_config_params,
};
use serum_gov::state::{
    DepositRef, LockedAccount, Pubkey, Record, RecordId, RedeemTicket, Refund, Stored, TokenOp,
    VestAccount,
};
use serum_gov::MSRM_MULTIPLIER;

const CLAIM_DELAY: i64 = 10;
const REDEEM_DELAY: i64 = 20;

fn k(b: u8) -> Pubkey {
    Pubkey::new_from_array([b; 32])
}

fn setup(owner: Pubkey, cliff: i64, linear: i64) -> Ledger {
    let mut ledger = Ledger::new();
    init(&mut ledger, k(9), k(1), k(2), k(3), CLAIM_DELAY, REDEEM_DELAY, cliff, linear).unwrap();
    init_user(&mut ledger, owner, owner).unwrap();
    ledger
}

fn locked(ledger: &Ledger, dep: DepositRef) -> Option<LockedAccount> {
    match ledger.get(&RecordId::Deposit { deposit: dep }) {
        Some(Stored { record: Record::Locked(a), .. }) => Some(a),
        _ => None,
    }
}

fn vest(ledger: &Ledger, dep: DepositRef) -> Option<VestAccount> {
    match ledger.get(&RecordId::Deposit { deposit: dep }) {
        Some(Stored { record: Record::Vest(v), .. }) => Some(v),
        _ => None,
    }
}

fn redeem_ticket(ledger: &Ledger, dep: DepositRef, i: u64) -> Option<RedeemTicket> {
    match ledger.get(&RecordId::Redeem { deposit: dep, redeem_index: i }) {
        Some(Stored { record: Record::Redeem(t), .. }) => Some(t),
        _ => None,
    }
}

#[test]
fn locked_deposit_claim_burn_redeem() {
    let owner = k(5);
    let payer = k(6);
    let mut ledger = setup(owner, 100, 1000);
    deposit_locked_srm(&mut ledger, payer, owner, 0, 100, 0).unwrap();
    let dep = DepositRef::Locked { owner, lock_index: 0 };
    let ticket = RecordId::Claim { deposit: dep };

    assert_eq!(claim(&mut ledger, owner, ticket, CLAIM_DELAY - 1), Err(SerumGovError::TicketNotClaimable));
    let e = claim(&mut ledger, owner, ticket, CLAIM_DELAY).unwrap();
    assert_eq!(e.token, TokenOp::MintGsrm { to: owner, amount: 100 });
    assert_eq!(e.refund, Some(Refund { account: ticket, to: payer }));
    assert_eq!(ledger.get(&ticket), None);

    let e = burn_locked_gsrm(&mut ledger, owner, 0, 40, 50).unwrap();
    assert_eq!(e.token, TokenOp::BurnGsrm { from: owner, amount: 40 });
    assert_eq!(e.refund, None);
    let a = locked(&ledger, dep).unwrap();
    assert_eq!(a.gsrm_burned, 40);
    assert_eq!(a.redeem_index, 1);
    let t0 = redeem_ticket(&ledger, dep, 0).unwrap();
    assert_eq!((t0.amount, t0.created_at, t0.redeem_delay, t0.is_msrm), (40, 50, REDEEM_DELAY, false));

    let e = burn_locked_gsrm(&mut ledger, owner, 0, 60, 60).unwrap();
    assert_eq!(e.token, TokenOp::BurnGsrm { from: owner, amount: 60 });
    assert_eq!(e.refund, Some(Refund { account: RecordId::Deposit { deposit: dep }, to: payer }));
    assert_eq!(locked(&ledger, dep), None);
    assert_eq!(redeem_ticket(&ledger, dep, 1).unwrap().amount, 60);

    let t0_id = RecordId::Redeem { deposit: dep, redeem_index: 0 };
    let t1_id = RecordId::Redeem { deposit: dep, redeem_index: 1 };
    assert_eq!(redeem_srm(&mut ledger, owner, t0_id, 50 + REDEEM_DELAY - 1), Err(SerumGovError::TicketNotClaimable));
    let e = redeem_srm(&mut ledger, owner, t0_id, 50 + REDEEM_DELAY).unwrap();
    assert_eq!(e.token, TokenOp::TransferOut { mint: k(2), to: owner, amount: 40 });
    assert_eq!(e.refund, Some(Refund { account: t0_id, to: owner }));
    assert_eq!(redeem_srm(&mut ledger, owner, t0_id, 1000), Err(SerumGovError::AccountNotFound));
    assert_eq!(redeem_srm(&mut ledger, owner, t1_id, 60 + REDEEM_DELAY - 1), Err(SerumGovError::TicketNotClaimable));
    let e = redeem_srm(&mut ledger, owner, t1_id, 60 + REDEEM_DELAY).unwrap();
    assert_eq!(e.token, TokenOp::TransferOut { mint: k(2), to: owner, amount: 60 });
    assert_eq!(redeem_srm(&mut ledger, owner, t1_id, 1000), Err(SerumGovError::AccountNotFound));
}

#[test]
fn claim_twice_is_not_found() {
    let owner = k(5);
    let mut ledger = setup(owner, 100, 1000);
    deposit_locked_srm(&mut ledger, owner, owner, 0, 100, 0).unwrap();
    let ticket = RecordId::Claim { deposit: DepositRef::Locked { owner, lock_index: 0 } };
    claim(&mut ledger, owner, ticket, 100).unwrap();
    assert_eq!(claim(&mut ledger, owner, ticket, 200), Err(SerumGovError::AccountNotFound));
}

#[test]
fn claim_by_other_owner_is_refused() {
    let owner = k(5);
    let mut ledger = setup(owner, 100, 1000);
    deposit_locked_srm(&mut ledger, owner, owner, 0, 100, 0).unwrap();
    let ticket = RecordId::Claim { deposit: DepositRef::Locked { owner, lock_index: 0 } };
    assert_eq!(claim(&mut ledger, k(7), ticket, 100), Err(SerumGovError::InvalidTicketOwner));
    assert!(ledger.get(&ticket).is_some());
}

#[test]
fn msrm_deposit_is_scaled() {
    let owner = k(5);
    let mut ledger = setup(owner, 100, 1000);
    let e = deposit_locked_msrm(&mut ledger, owner, owner, 0, 2, 0).unwrap();
    assert_eq!(e.token, TokenOp::TransferIn { mint: k(3), from: owner, amount: 2 });
    let dep = DepositRef::Locked { owner, lock_index: 0 };
    let a = locked(&ledger, dep).unwrap();
    assert_eq!(a.total_gsrm_amount, 2_000_000_000_000);
    assert!(a.is_msrm);
    match ledger.get(&RecordId::Claim { deposit: dep }) {
        Some(Stored { record: Record::Claim(t), .. }) => assert_eq!(t.gsrm_amount, 2_000_000_000_000),
        other => panic!("no claim ticket: {:?}", other),
    }
    assert_eq!(burn_locked_gsrm(&mut ledger, owner, 0, 1, 5), Err(SerumGovError::InvalidMSRMAmount));
    assert_eq!(
        burn_locked_gsrm(&mut ledger, owner, 0, MSRM_MULTIPLIER + 1, 5),
        Err(SerumGovError::InvalidMSRMAmount)
    );
    assert_eq!(locked(&ledger, dep).unwrap().gsrm_burned, 0);
    burn_locked_gsrm(&mut ledger, owner, 0, MSRM_MULTIPLIER, 5).unwrap();
    let t = redeem_ticket(&ledger, dep, 0).unwrap();
    assert_eq!(t.amount, 1);
    assert!(t.is_msrm);
    let id = RecordId::Redeem { deposit: dep, redeem_index: 0 };
    assert_eq!(redeem_srm(&mut ledger, owner, id, 1000), Err(SerumGovError::InvalidRedeemTicket));
    let e = redeem_msrm(&mut ledger, owner, id, 1000).unwrap();
    assert_eq!(e.token, TokenOp::TransferOut { mint: k(3), to: owner, amount: 1 });
}

#[test]
fn msrm_deposit_overflow_is_arithmetic_error() {
    let owner = k(5);
    let mut ledger = setup(owner, 100, 1000);
    assert_eq!(
        deposit_locked_msrm(&mut ledger, owner, owner, 0, u64::MAX / MSRM_MULTIPLIER + 1, 0),
        Err(SerumGovError::ArithmeticError)
    );
    assert_eq!(locked(&ledger, DepositRef::Locked { owner, lock_index: 0 }), None);
}

#[test]
fn vesting_clamp() {
    let owner = k(5);
    let mut ledger = setup(owner, 100, 1000);
    deposit_vest_srm(&mut ledger, owner, owner, 0, 1000, 0).unwrap();
    let dep = DepositRef::Vest { owner, vest_index: 0 };
    assert_eq!(burn_vest_gsrm(&mut ledger, owner, 0, 100, 50), Err(SerumGovError::TooEarlyToVest));
    assert_eq!(burn_vest_gsrm(&mut ledger, owner, 0, 100, 100), Err(SerumGovError::AlreadyRedeemed));

    let e = burn_vest_gsrm(&mut ledger, owner, 0, 800, 600).unwrap();
    assert_eq!(e.token, TokenOp::BurnGsrm { from: owner, amount: 500 });
    assert_eq!(vest(&ledger, dep).unwrap().gsrm_burned, 500);
    assert_eq!(redeem_ticket(&ledger, dep, 0).unwrap().amount, 500);
    assert_eq!(burn_vest_gsrm(&mut ledger, owner, 0, 800, 600), Err(SerumGovError::AlreadyRedeemed));

    let e = burn_vest_gsrm(&mut ledger, owner, 0, 500, 1100).unwrap();
    assert_eq!(e.token, TokenOp::BurnGsrm { from: owner, amount: 500 });
    assert_eq!(e.refund, Some(Refund { account: RecordId::Deposit { deposit: dep }, to: owner }));
    assert_eq!(vest(&ledger, dep), None);
    assert_eq!(redeem_ticket(&ledger, dep, 1).unwrap().amount, 500);
    assert_eq!(burn_vest_gsrm(&mut ledger, owner, 0, 500, 2000), Err(SerumGovError::AccountNotFound));
}

#[test]
fn vest_partial_burns_tick_independently() {
    let owner = k(5);
    let mut ledger = setup(owner, 0, 100);
    deposit_vest_srm(&mut ledger, owner, owner, 0, 1000, 0).unwrap();
    let dep = DepositRef::Vest { owner, vest_index: 0 };
    burn_vest_gsrm(&mut ledger, owner, 0, 1000, 10).unwrap();
    burn_vest_gsrm(&mut ledger, owner, 0, 1000, 30).unwrap();
    assert_eq!(vest(&ledger, dep).unwrap().gsrm_burned, 300);
    let t0 = RecordId::Redeem { deposit: dep, redeem_index: 0 };
    let t1 = RecordId::Redeem { deposit: dep, redeem_index: 1 };
    assert_eq!(redeem_ticket(&ledger, dep, 0).unwrap().amount, 100);
    assert_eq!(redeem_ticket(&ledger, dep, 1).unwrap().amount, 200);
    assert_eq!(redeem_srm(&mut ledger, owner, t1, 10 + REDEEM_DELAY), Err(SerumGovError::TicketNotClaimable));
    assert_eq!(redeem_srm(&mut ledger, owner, t0, 10 + REDEEM_DELAY).unwrap().token,
        TokenOp::TransferOut { mint: k(2), to: owner, amount: 100 });
    assert_eq!(redeem_srm(&mut ledger, owner, t1, 30 + REDEEM_DELAY).unwrap().token,
        TokenOp::TransferOut { mint: k(2), to: owner, amount: 200 });
}

#[test]
fn vest_keeps_periods_of_its_creation() {
    let owner = k(5);
    let mut ledger = setup(owner, 100, 1000);
    deposit_vest_srm(&mut ledger, owner, owner, 0, 1000, 0).unwrap();
    update_config_params(&mut ledger, k(1), 1, 2, 5000, 9000).unwrap();
    deposit_vest_srm(&mut ledger, owner, owner, 1, 1000, 0).unwrap();
    let v0 = vest(&ledger, DepositRef::Vest { owner, vest_index: 0 }).unwrap();
    let v1 = vest(&ledger, DepositRef::Vest { owner, vest_index: 1 }).unwrap();
    assert_eq!((v0.cliff_period, v0.linear_vesting_period), (100, 1000));
    assert_eq!((v1.cliff_period, v1.linear_vesting_period), (5000, 9000));
    assert_eq!(burn_vest_gsrm(&mut ledger, owner, 0, 1000, 600).unwrap().token,
        TokenOp::BurnGsrm { from: owner, amount: 500 });
}

#[test]
fn vest_msrm_release_is_whole_units() {
    let owner = k(5);
    let mut ledger = setup(owner, 0, 4);
    deposit_vest_msrm(&mut ledger, owner, owner, 0, 4, 0).unwrap();
    let dep = DepositRef::Vest { owner, vest_index: 0 };
    assert_eq!(vest(&ledger, dep).unwrap().total_gsrm_amount, 4 * MSRM_MULTIPLIER);
    assert_eq!(burn_vest_gsrm(&mut ledger, owner, 0, 7, 2), Err(SerumGovError::InvalidMSRMAmount));
    let e = burn_vest_gsrm(&mut ledger, owner, 0, 3 * MSRM_MULTIPLIER, 2).unwrap();
    assert_eq!(e.token, TokenOp::BurnGsrm { from: owner, amount: 2 * MSRM_MULTIPLIER });
    assert_eq!(redeem_ticket(&ledger, dep, 0).unwrap().amount, 2);
}

#[test]
fn over_burn_is_rejected() {
    let owner = k(5);
    let mut ledger = setup(owner, 100, 1000);
    deposit_locked_srm(&mut ledger, owner, owner, 0, 100, 0).unwrap();
    let dep = DepositRef::Locked { owner, lock_index: 0 };
    burn_locked_gsrm(&mut ledger, owner, 0, 80, 1).unwrap();
    assert_eq!(burn_locked_gsrm(&mut ledger, owner, 0, 30, 2), Err(SerumGovError::InvalidGSRMAmount));
    assert_eq!(locked(&ledger, dep).unwrap().gsrm_burned, 80);
    assert_eq!(redeem_ticket(&ledger, dep, 1), None);
    burn_locked_gsrm(&mut ledger, owner, 0, 20, 3).unwrap();
    assert_eq!(locked(&ledger, dep), None);
    assert_eq!(redeem_ticket(&ledger, dep, 1).unwrap().amount, 20);
}

#[test]
fn burn_zero_is_invalid() {
    let owner = k(5);
    let mut ledger = setup(owner, 100, 1000);
    deposit_locked_srm(&mut ledger, owner, owner, 0, 100, 0).unwrap();
    assert_eq!(burn_locked_gsrm(&mut ledger, owner, 0, 0, 1), Err(SerumGovError::InvalidAmount));
}
