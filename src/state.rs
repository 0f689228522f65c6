use vstd::prelude::*;

use crate::key::AccountKey;

verus! {

/// Where a proposal stands. It leaves `Pending` once and never returns.
#[derive(Clone, Copy, Debug, PartialEq, Eq, Structural)]
pub enum ProposalState {
    Pending,
    Passed,
    Rejected,
}

/// The ballot a voter casts.
#[derive(Clone, Copy, Debug, PartialEq, Eq, Structural)]
pub enum VoteType {
    Yes,
    No,
}

/// The registry of one organisation: its configuration and the counter that
/// numbers its proposals.
#[derive(Clone, Copy, Debug)]
pub struct DaoState {
    pub proposal_count: u64,
    pub token_mint: AccountKey,
    pub quorum_percentage: u8,
    pub total_voters: u64,
    pub authority: AccountKey,
}

impl DaoState {
    /// The registry's configuration is in range: a quorum of at most 100
    /// percent and at least one eligible voter.
    pub open spec fn wf(&self) -> bool {
        &&& self.quorum_percentage <= 100
        &&& self.total_voters > 0
    }
}

/// One proposal of a registry, with its tallies and its resolution.
#[derive(Clone, Debug)]
pub struct Proposal {
    pub proposal_id: u64,
    pub title: String,
    pub description: String,
    pub yes_votes: u64,
    pub no_votes: u64,
    pub state: ProposalState,
    pub creator: AccountKey,
    pub dao_state: AccountKey,
    pub created_at: i64,
}

/// The record of one voter on one proposal.
#[derive(Clone, Copy, Debug)]
pub struct VoterState {
    pub has_voted: bool,
    pub vote_type: VoteType,
}

impl VoterState {
    /// The record as it stands before its voter has voted.
    pub fn fresh() -> (r: VoterState)
        ensures
            !r.has_voted,
    {
        VoterState { has_voted: false, vote_type: VoteType::Yes }
    }
}

/// What the governance rules read of a signer's account of the governing
/// token: its balance and whether it is frozen.
#[derive(Clone, Copy, Debug)]
pub struct TokenHolding {
    pub amount: u64,
    pub is_frozen: bool,
}

} // verus!
