use vstd::prelude::*;

verus! {

/// The named failures of the ledger's operations.
#[derive(PartialEq, Eq, Structural, Clone, Copy, Debug)]
pub enum ReputeDaoError {
    /// The caller is not the administrator named in the configuration.
    UnauthorizedAdmin,
    /// The caller does not own the profile it acts for.
    UnauthorizedOwner,
    /// The system is paused.
    SystemPaused,
    /// The record to be created exists already.
    AlreadyInitialized,
    /// Another profile holds the requested username.
    UsernameAlreadyTaken,
    /// A stake of zero tokens was requested.
    InvalidStakeAmount,
    /// The profile's stake is too small for the request.
    InsufficientStake,
    /// A participant tried to vote on their own profile.
    SelfVoteNotAllowed,
    /// The voter has already voted on this target in the current season.
    DuplicateVote,
    /// An addition would exceed the range of its field.
    MathOverflow,
    /// A subtraction would fall below the range of its field.
    MathUnderflow,
    /// A record that the operation needs does not exist.
    NotFound,
    /// The token transfer that backs a stake change failed.
    TransferFailed,
}

/// Why the token transfer service refused a transfer.
#[derive(PartialEq, Eq, Structural, Clone, Copy, Debug)]
pub enum TransferError {
    /// The source account holds fewer tokens than requested.
    InsufficientFunds,
    /// Any other refusal.
    Other,
}

} // verus!
