use vstd::prelude::*;

use crate::error::ErrorCode;
use crate::governance::{create_result, holding_rejection, vote_result, CreateProposal, VoteOnProposal};
use crate::state::{DaoState, Proposal, ProposalState, VoteType};

verus! {

/// A resolved proposal is final: every further vote on it is refused, which
/// leaves its tallies and its state as they were, and a voter who passes the
/// registry, holding and record checks is refused because the proposal is no
/// longer pending.
pub proof fn lemma_resolved_proposal_is_final(ctx: VoteOnProposal, vote_type: VoteType)
    requires
        ctx.proposal.state != ProposalState::Pending,
    ensures
        vote_result(ctx, vote_type) is Err,
        ctx.proposal.dao_state@ == ctx.dao_key@ && holding_rejection(
            ctx.voter_token_account,
            ctx.mint,
            ctx.dao_state.token_mint,
        ) is None && !ctx.voter_state.has_voted ==> vote_result(ctx, vote_type) == Err::<
            VoteOnProposal,
            ErrorCode,
        >(ErrorCode::ProposalNotPending),
{
}

/// A voter whose record on a proposal shows a vote, and who passes the
/// registry and holding checks, is refused as having already voted.
pub proof fn lemma_recorded_voter_is_refused(ctx: VoteOnProposal, vote_type: VoteType)
    requires
        ctx.voter_state.has_voted,
        ctx.proposal.dao_state@ == ctx.dao_key@,
        holding_rejection(ctx.voter_token_account, ctx.mint, ctx.dao_state.token_mint) is None,
    ensures
        vote_result(ctx, vote_type) == Err::<VoteOnProposal, ErrorCode>(ErrorCode::AlreadyVoted),
{
}

/// After a vote is counted, a second vote by the same voter on the same
/// proposal, whichever ballot it carries, is refused as having already voted.
pub proof fn lemma_second_vote_is_refused(ctx: VoteOnProposal, first: VoteType, second: VoteType)
    requires
        vote_result(ctx, first) is Ok,
    ensures
        vote_result(vote_result(ctx, first)->Ok_0, second) == Err::<VoteOnProposal, ErrorCode>(
            ErrorCode::AlreadyVoted,
        ),
{
}

/// A voter with no unit of the governing token, on a proposal of the given
/// registry, is refused for want of tokens, so the tallies stay as they were.
pub proof fn lemma_empty_holding_cannot_vote(ctx: VoteOnProposal, vote_type: VoteType)
    requires
        ctx.voter_token_account.amount == 0,
        ctx.proposal.dao_state@ == ctx.dao_key@,
    ensures
        vote_result(ctx, vote_type) == Err::<VoteOnProposal, ErrorCode>(ErrorCode::NotEnoughTokens),
{
}

/// A creation request as it is made on the given registry.
pub open spec fn on_registry(request: CreateProposal, dao_state: DaoState) -> CreateProposal {
    CreateProposal { dao_state, ..request }
}

/// The registry and the proposals created, in order, after a run of creation
/// requests is made on it one after the other; a refused request creates
/// nothing and leaves the registry as it was.
pub open spec fn creation_run(dao_state: DaoState, requests: Seq<(CreateProposal, String, String)>) -> (
    DaoState,
    Seq<Proposal>,
)
    decreases requests.len(),
{
    if requests.len() == 0 {
        (dao_state, Seq::empty())
    } else {
        let before = creation_run(dao_state, requests.drop_last());
        let request = requests.last();
        match create_result(on_registry(request.0, before.0), request.1, request.2) {
            Ok(created) => (created.0.dao_state, before.1.push(created.1)),
            Err(_) => before,
        }
    }
}

/// Proposal ids are gapless and strictly increasing: on a registry that starts
/// with no proposals, the n-th proposal created has id n, and the counter
/// equals the number of proposals created.
pub proof fn lemma_proposal_ids_are_gapless(dao_state: DaoState, requests: Seq<(CreateProposal, String, String)>)
    requires
        dao_state.proposal_count == 0,
    ensures
        creation_run(dao_state, requests).0.proposal_count == creation_run(dao_state, requests).1.len(),
        forall|i: int|
            0 <= i < creation_run(dao_state, requests).1.len() ==> #[trigger] creation_run(
                dao_state,
                requests,
            ).1[i].proposal_id == i + 1,
    decreases requests.len(),
{
    if requests.len() > 0 {
        lemma_proposal_ids_are_gapless(dao_state, requests.drop_last());
    }
}

} // verus!
