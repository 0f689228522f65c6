//! Token-gated governance: a registry of proposals, one vote per member and
//! proposal, and quorum-based resolution.
pub mod error;
pub mod governance;
pub mod key;
pub mod laws;
pub mod state;

pub use error::ErrorCode;
pub use governance::{
    check_holding, create_proposal, initialize_dao, resolve_state, update_quorum_percentage,
    update_total_voters, vote_on_proposal, CreateProposal, InitializeDao, UpdateQuorumPercentage,
    UpdateTotalVoters, VoteOnProposal,
};
pub use key::AccountKey;
pub use state::{DaoState, Proposal, ProposalState, TokenHolding, VoteType, VoterState};
