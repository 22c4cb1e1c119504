use vstd::prelude::*;

verus! {

/// A 32-byte identity: the owner of records, a payer, an authority or a mint.
#[derive(Clone, Copy, Debug, PartialEq, Eq)]
pub struct Pubkey(pub [u8; 32]);

impl Pubkey {
    pub fn new_from_array(bytes: [u8; 32]) -> (r: Pubkey)
        ensures
            r.0 == bytes,
    {
        Pubkey(bytes)
    }

    /// Byte-wise comparison of two keys.
    pub fn same(&self, other: &Pubkey) -> (r: bool)
        ensures
            r == (*self == *other),
    {
        let mut i: usize = 0;
        while i < 32
            invariant
                0 <= i <= 32,
                forall|j: int| 0 <= j < i ==> self.0[j] == other.0[j],
            decreases 32 - i,
        {
            if self.0[i] != other.0[i] {
                return false;
            }
            i += 1;
        }
        assert(self.0 =~= other.0);
        true
    }
}

/// Process-wide parameters, created once by `init`.
#[derive(Clone, Copy, Debug, PartialEq, Eq)]
pub struct Config {
    pub config_authority: Pubkey,
    pub srm_mint: Pubkey,
    pub msrm_mint: Pubkey,
    pub claim_delay: i64,
    pub redeem_delay: i64,
    pub cliff_period: i64,
    pub linear_vesting_period: i64,
}

/// Per-owner counters that give each new deposit its index.
#[derive(Clone, Copy, Debug, PartialEq, Eq)]
pub struct User {
    pub owner: Pubkey,
    pub lock_index: u64,
    pub vest_index: u64,
}

/// A deposit whose gSRM can be burned for the asset at any time.
#[derive(Clone, Copy, Debug, PartialEq, Eq)]
pub struct LockedAccount {
    pub owner: Pubkey,
    pub lock_index: u64,
    pub redeem_index: u64,
    pub is_msrm: bool,
    pub created_at: i64,
    pub total_gsrm_amount: u64,
    pub gsrm_burned: u64,
}

/// A deposit whose gSRM can be burned only as it vests: nothing before
/// `created_at + cliff_period`, then linearly over `linear_vesting_period`.
#[derive(Clone, Copy, Debug, PartialEq, Eq)]
pub struct VestAccount {
    pub owner: Pubkey,
    pub vest_index: u64,
    pub redeem_index: u64,
    pub is_msrm: bool,
    pub created_at: i64,
    pub cliff_period: i64,
    pub linear_vesting_period: i64,
    pub total_gsrm_amount: u64,
    pub gsrm_burned: u64,
}

/// The address of a deposit record: its owner and its per-owner index.
#[derive(Clone, Copy, Debug, PartialEq, Eq)]
pub enum DepositRef {
    Locked { owner: Pubkey, lock_index: u64 },
    Vest { owner: Pubkey, vest_index: u64 },
}

/// A pending mint of `gsrm_amount` gSRM, single use.
#[derive(Clone, Copy, Debug, PartialEq, Eq)]
pub struct ClaimTicket {
    pub owner: Pubkey,
    pub deposit_account: DepositRef,
    pub created_at: i64,
    pub claim_delay: i64,
    pub gsrm_amount: u64,
}

/// A pending release of `amount` of the deposited asset, single use.
#[derive(Clone, Copy, Debug, PartialEq, Eq)]
pub struct RedeemTicket {
    pub owner: Pubkey,
    pub deposit_account: DepositRef,
    pub redeem_index: u64,
    pub is_msrm: bool,
    pub created_at: i64,
    pub redeem_delay: i64,
    pub amount: u64,
}

/// The deterministic address of a record: its kind and the keys it is
/// derived from. Two distinct ids never address the same record.
#[derive(Clone, Copy, Debug, PartialEq, Eq)]
pub enum RecordId {
    Config,
    User { owner: Pubkey },
    Deposit { deposit: DepositRef },
    Claim { deposit: DepositRef },
    Redeem { deposit: DepositRef, redeem_index: u64 },
}

/// A typed record of the store.
#[derive(Clone, Copy, Debug, PartialEq, Eq)]
pub enum Record {
    Config(Config),
    User(User),
    Locked(LockedAccount),
    Vest(VestAccount),
    Claim(ClaimTicket),
    Redeem(RedeemTicket),
}

/// A record together with the key that paid for its storage, to whom
/// closing it refunds.
#[derive(Clone, Copy, Debug, PartialEq, Eq)]
pub struct Stored {
    pub record: Record,
    pub payer: Pubkey,
}

/// The token movement that an operation asks the token service to make.
#[derive(Clone, Copy, Debug, PartialEq, Eq)]
pub enum TokenOp {
    /// Move `amount` of `mint` from `from` into custody.
    TransferIn { mint: Pubkey, from: Pubkey, amount: u64 },
    /// Move `amount` of `mint` out of custody to `to`.
    TransferOut { mint: Pubkey, to: Pubkey, amount: u64 },
    /// Mint `amount` gSRM to `to`.
    MintGsrm { to: Pubkey, amount: u64 },
    /// Burn `amount` gSRM held by `from`.
    BurnGsrm { from: Pubkey, amount: u64 },
}

/// The storage refund owed for a record that an operation closed.
#[derive(Clone, Copy, Debug, PartialEq, Eq)]
pub struct Refund {
    pub account: RecordId,
    pub to: Pubkey,
}

/// What an operation that moves tokens hands back to its caller.
#[derive(Clone, Copy, Debug, PartialEq, Eq)]
pub struct Effect {
    pub token: TokenOp,
    pub refund: Option<Refund>,
}

impl DepositRef {
    pub open spec fn owner_spec(self) -> Pubkey {
        match self {
            DepositRef::Locked { owner, .. } => owner,
            DepositRef::Vest { owner, .. } => owner,
        }
    }

    pub fn same(&self, other: &DepositRef) -> (r: bool)
        ensures
            r == (*self == *other),
    {
        match (self, other) {
            (
                DepositRef::Locked { owner: o1, lock_index: i1 },
                DepositRef::Locked { owner: o2, lock_index: i2 },
            ) => *i1 == *i2 && o1.same(o2),
            (
                DepositRef::Vest { owner: o1, vest_index: i1 },
                DepositRef::Vest { owner: o2, vest_index: i2 },
            ) => *i1 == *i2 && o1.same(o2),
            _ => false,
        }
    }
}

impl RecordId {
    pub fn same(&self, other: &RecordId) -> (r: bool)
        ensures
            r == (*self == *other),
    {
        match (self, other) {
            (RecordId::Config, RecordId::Config) => true,
            (RecordId::User { owner: o1 }, RecordId::User { owner: o2 }) => o1.same(o2),
            (RecordId::Deposit { deposit: d1 }, RecordId::Deposit { deposit: d2 }) => d1.same(d2),
            (RecordId::Claim { deposit: d1 }, RecordId::Claim { deposit: d2 }) => d1.same(d2),
            (
                RecordId::Redeem { deposit: d1, redeem_index: i1 },
                RecordId::Redeem { deposit: d2, redeem_index: i2 },
            ) => *i1 == *i2 && d1.same(d2),
            _ => false,
        }
    }
}

} // verus!
