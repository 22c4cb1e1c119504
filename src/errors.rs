use vstd::prelude::*;

verus! {

/// Every way in which an operation of the program can fail. A failed
/// operation leaves the record store exactly as it was.
#[derive(Clone, Copy, Debug, PartialEq, Eq, Structural)]
pub enum SerumGovError {
    /// The ticket's delay has not elapsed yet, or it has nothing left to pay.
    TicketNotClaimable,
    /// An amount burned against an MSRM-funded record is not a whole number of MSRM.
    InvalidMSRMAmount,
    /// The redeem ticket is for the other asset.
    InvalidRedeemTicket,
    /// The ticket belongs to someone else.
    InvalidTicketOwner,
    /// The burn would exceed what the record holds.
    InvalidGSRMAmount,
    /// The vesting record's cliff has not ended yet.
    TooEarlyToVest,
    /// Everything vested so far has already been burned.
    AlreadyRedeemed,
    /// A deposit or burn of zero.
    InvalidAmount,
    /// A negative delay or period.
    InvalidConfigParams,
    /// The signer is not the configuration authority.
    InvalidConfigAuthority,
    /// The deposit index is not the owner's next index.
    InvalidDepositIndex,
    /// A record that the operation reads does not exist.
    AccountNotFound,
    /// A record that the operation creates exists already.
    AccountAlreadyExists,
    /// A checked arithmetic operation failed.
    ArithmeticError,
}

} // verus!
