use vstd::prelude::*;

verus! {

/// Why an instruction was refused. A refused instruction changes nothing.
#[derive(Clone, Copy, Debug, PartialEq, Eq, Structural)]
pub enum ErrorCode {
    /// The signer holds no unit of the governing token.
    NotEnoughTokens,
    /// The voter has already voted on this proposal.
    AlreadyVoted,
    /// Reserved: a proposal without enough votes to be executed.
    NotEnoughVotes,
    /// Reserved: a proposal that was already executed.
    ProposalAlreadyExecuted,
    /// The supplied mint is not the registry's governing token.
    InvalidTokenMint,
    /// The proposal is already resolved.
    ProposalNotPending,
    /// A quorum percentage above 100.
    InvalidQuorumPercentage,
    /// A title outside 1..=100 characters.
    InvalidProposalTitle,
    /// A description outside 1..=500 characters.
    InvalidProposalDescription,
    /// The proposal belongs to another registry.
    InvalidProposalDao,
    /// The signer's token account is frozen.
    AccountFrozen,
    /// A counter or a tally computation left the 64-bit range.
    ArithmeticOverflow,
    /// A voter count of zero.
    InvalidTotalVoters,
}

} // verus!
