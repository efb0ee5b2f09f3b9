use vstd::prelude::*;

verus! {

/// Why a request to a component was refused.
#[derive(Clone, Copy, PartialEq, Eq, Structural, Debug)]
pub enum ArcaneError {
    /// The package address is not in the list of accepted packages.
    InvalidPackage,
    /// The quarter is not one of 1, 2 or 3.
    InvalidQuarter,
    /// The component address is not that of a known vote.
    InvalidVoteAddress,
    /// The account has already signed up.
    AlreadyRegistered,
    /// No reward component has been set.
    RewardAddressNotSet,
    /// The role is neither `"a"` nor `"m"`.
    InvalidRole,
    /// The method is neither `"a"` nor `"r"`.
    InvalidMethod,
    /// The badge does not belong to an admin.
    NotAdmin,
    /// The bucket does not hold a badge of the member resource.
    NotArcaneBadge,
    /// The vote has not been activated.
    VoteNotActivated,
    /// The vote's end epoch has passed.
    VoteClosed,
    /// The key is not one of the vote's options.
    InvalidKey,
    /// This voter has already voted.
    AlreadyVoted,
    /// The vote's end epoch has not been reached.
    VoteNotEnded,
    /// This voter has already withdrawn.
    AlreadyWithdrawn,
    /// This voter has not voted.
    NotVoted,
    /// No vote has been created for this epoch.
    UnknownEpoch,
    /// The badge id is not that of a registered user.
    UnregisteredUser,
    /// The user has no recorded vote to withdraw.
    NoRecordedVote,
    /// The address has no open entry.
    UnknownAddress,
    /// The vault holds less than what is asked of it.
    InsufficientBalance,
    /// The amount asked of a vault is negative.
    InvalidAmount,
    /// An arithmetic operation overflowed, or divided by zero.
    Overflow,
}

} // verus!
