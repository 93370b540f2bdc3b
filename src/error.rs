use vstd::prelude::*;

verus! {

/// Failures that the campaign rules themselves raise.
#[derive(Clone, Copy, Debug, PartialEq, Eq, Structural)]
pub enum CrowdFundError {
    /// The target set for fund-raising must be greater than 0.
    InvalidTarget,
    /// The description does not fit in the space reserved for it.
    DescriptionTooLong,
    /// A status tag outside the known lifecycle states.
    InvalidStatus,
    /// A donation to a fundraiser that no longer accepts donations.
    ClosedToDonations,
    /// The tracked balance does not match what the custodial wallet holds.
    ErroneousBalance,
}

/// Every way an operation can fail: a campaign rule, or a check that the
/// host's account and token layer would make before moving any value.
#[derive(Clone, Copy, Debug, PartialEq, Eq, Structural)]
pub enum Failure {
    Program(CrowdFundError),
    /// An account at the derived address exists already.
    AccountInUse,
    /// The signer is not the identity that the action needs.
    Unauthorized,
    /// A wallet holds a different token type than the campaign accepts.
    MintMismatch,
    /// A wallet belongs to another identity than the signer.
    OwnerMismatch,
    /// The source wallet holds less than the amount to move.
    InsufficientFunds,
    /// The destination amount would exceed the integer range.
    Overflow,
    /// The custodial wallet does not exist (never made, or closed).
    WalletClosed,
}

} // verus!
