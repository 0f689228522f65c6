use vstd::prelude::*;

use crate::error::ErrorCode;
use crate::key::AccountKey;
use crate::state::{DaoState, Proposal, ProposalState, TokenHolding, VoteType, VoterState};

verus! {

/// The divisor of the participation percentage: the voter count, read as 1
/// when it is 0.
pub open spec fn quorum_denominator(total_voters: u64) -> int {
    if total_voters == 0 {
        1
    } else {
        total_voters as int
    }
}

/// The share of eligible voters that have voted, in whole percent, rounded
/// down.
pub open spec fn vote_percentage(total_votes: int, total_voters: u64) -> int {
    (total_votes * 100) / quorum_denominator(total_voters)
}

/// The verdict on a resolved proposal: a strict majority of Yes passes it,
/// anything else (a tie included) rejects it.
pub open spec fn verdict(yes: int, no: int) -> ProposalState {
    if yes > no {
        ProposalState::Passed
    } else {
        ProposalState::Rejected
    }
}

/// The state of a proposal with the given tallies: resolved once the quorum is
/// reached or every eligible voter has voted, pending otherwise.
pub open spec fn resolved_state(yes: int, no: int, total_voters: u64, quorum_percentage: u8) -> ProposalState {
    let total = yes + no;
    if vote_percentage(total, total_voters) >= quorum_percentage as int || total == total_voters as int {
        verdict(yes, no)
    } else {
        ProposalState::Pending
    }
}

/// The tallies can be summed and turned into a percentage in 64 bits.
pub open spec fn tally_fits(yes: int, no: int) -> bool {
    (yes + no) * 100 <= u64::MAX
}

/// Computes the state of a proposal from its tallies and the registry's rule.
pub fn resolve_state(yes_votes: u64, no_votes: u64, dao_state: &DaoState) -> (r: Result<ProposalState, ErrorCode>)
    ensures
        match r {
            Ok(s) => tally_fits(yes_votes as int, no_votes as int) && s == resolved_state(
                yes_votes as int,
                no_votes as int,
                dao_state.total_voters,
                dao_state.quorum_percentage,
            ),
            Err(e) => !tally_fits(yes_votes as int, no_votes as int) && e == ErrorCode::ArithmeticOverflow,
        },
{
    let total_votes = match yes_votes.checked_add(no_votes) {
        Some(t) => t,
        None => return Err(ErrorCode::ArithmeticOverflow),
    };
    let scaled = match total_votes.checked_mul(100) {
        Some(s) => s,
        None => return Err(ErrorCode::ArithmeticOverflow),
    };
    let denom: u64 = if dao_state.total_voters == 0 {
        1
    } else {
        dao_state.total_voters
    };
    let percentage = match scaled.checked_div(denom) {
        Some(p) => p,
        None => return Err(ErrorCode::ArithmeticOverflow),
    };
    if percentage >= dao_state.quorum_percentage as u64 || total_votes == dao_state.total_voters {
        if yes_votes > no_votes {
            Ok(ProposalState::Passed)
        } else {
            Ok(ProposalState::Rejected)
        }
    } else {
        Ok(ProposalState::Pending)
    }
}

/// Why a signer's holding does not entitle them to act, if it does not: an
/// empty balance, a frozen account, or a mint other than the governing one.
pub open spec fn holding_rejection(holding: TokenHolding, mint: AccountKey, token_mint: AccountKey) -> Option<ErrorCode> {
    if holding.amount < 1 {
        Some(ErrorCode::NotEnoughTokens)
    } else if holding.is_frozen {
        Some(ErrorCode::AccountFrozen)
    } else if mint@ != token_mint@ {
        Some(ErrorCode::InvalidTokenMint)
    } else {
        None
    }
}

/// Checks that a signer's holding entitles them to act, in the order balance,
/// freeze, mint.
pub fn check_holding(holding: &TokenHolding, mint: &AccountKey, token_mint: &AccountKey) -> (r: Result<(), ErrorCode>)
    ensures
        match holding_rejection(*holding, *mint, *token_mint) {
            Some(e) => r == Err::<(), ErrorCode>(e),
            None => r is Ok,
        },
{
    if holding.amount < 1 {
        return Err(ErrorCode::NotEnoughTokens);
    }
    if holding.is_frozen {
        return Err(ErrorCode::AccountFrozen);
    }
    if !mint.same_as(token_mint) {
        return Err(ErrorCode::InvalidTokenMint);
    }
    Ok(())
}

/// What initialising a registry reads: the signer that becomes its authority
/// and the mint that becomes its governing token.
#[derive(Clone, Copy, Debug)]
pub struct InitializeDao {
    pub authority: AccountKey,
    pub token_mint: AccountKey,
}

/// Creates a registry with no proposals. The percentage and the voter count
/// are taken as given; the registry is well formed exactly when they are in
/// range.
pub fn initialize_dao(ctx: &InitializeDao, quorum_percentage: u8, total_voters: u64) -> (r: DaoState)
    ensures
        r.proposal_count == 0,
        r.token_mint == ctx.token_mint,
        r.quorum_percentage == quorum_percentage,
        r.total_voters == total_voters,
        r.authority == ctx.authority,
        r.wf() <==> (quorum_percentage <= 100 && total_voters > 0),
{
    DaoState {
        proposal_count: 0,
        token_mint: ctx.token_mint,
        quorum_percentage,
        total_voters,
        authority: ctx.authority,
    }
}

/// What creating a proposal reads and writes: the registry and its address,
/// the mint supplied with the request, the creator's holding of it, the
/// creator, and the time of creation in Unix seconds.
#[derive(Clone, Copy, Debug)]
pub struct CreateProposal {
    pub dao_state: DaoState,
    pub dao_key: AccountKey,
    pub mint: AccountKey,
    pub creator_token_account: TokenHolding,
    pub authority: AccountKey,
    pub unix_timestamp: i64,
}

/// A title has between 1 and 100 characters.
pub open spec fn valid_title(title: Seq<char>) -> bool {
    1 <= title.len() <= 100
}

/// A description has between 1 and 500 characters.
pub open spec fn valid_description(description: Seq<char>) -> bool {
    1 <= description.len() <= 500
}

/// The outcome of a creation request: the refusal, in the order in which the
/// checks are made, or the registry with its counter advanced by one and the
/// new pending proposal that carries the advanced counter as its id.
pub open spec fn create_result(ctx: CreateProposal, title: String, description: String) -> Result<
    (CreateProposal, Proposal),
    ErrorCode,
> {
    if !valid_title(title@) {
        Err(ErrorCode::InvalidProposalTitle)
    } else if !valid_description(description@) {
        Err(ErrorCode::InvalidProposalDescription)
    } else if holding_rejection(ctx.creator_token_account, ctx.mint, ctx.dao_state.token_mint) is Some {
        Err(holding_rejection(ctx.creator_token_account, ctx.mint, ctx.dao_state.token_mint)->0)
    } else if ctx.dao_state.proposal_count == u64::MAX {
        Err(ErrorCode::ArithmeticOverflow)
    } else {
        let id = (ctx.dao_state.proposal_count + 1) as u64;
        Ok(
            (
                CreateProposal {
                    dao_state: DaoState { proposal_count: id, ..ctx.dao_state },
                    ..ctx
                },
                Proposal {
                    proposal_id: id,
                    title,
                    description,
                    yes_votes: 0,
                    no_votes: 0,
                    state: ProposalState::Pending,
                    creator: ctx.authority,
                    dao_state: ctx.dao_key,
                    created_at: ctx.unix_timestamp,
                },
            ),
        )
    }
}

/// Creates the registry's next proposal. Either the counter advances and the
/// proposal is returned as `create_result` says, or the request is refused and
/// nothing changes.
pub fn create_proposal(ctx: &mut CreateProposal, title: String, description: String) -> (r: Result<
    Proposal,
    ErrorCode,
>)
    ensures
        match r {
            Ok(p) => create_result(*old(ctx), title, description) == Ok::<
                (CreateProposal, Proposal),
                ErrorCode,
            >((*final(ctx), p)),
            Err(e) => create_result(*old(ctx), title, description) == Err::<
                (CreateProposal, Proposal),
                ErrorCode,
            >(e) && *final(ctx) == *old(ctx),
        },
{
    let title_len = title.as_str().unicode_len();
    if title_len < 1 || title_len > 100 {
        return Err(ErrorCode::InvalidProposalTitle);
    }
    let description_len = description.as_str().unicode_len();
    if description_len < 1 || description_len > 500 {
        return Err(ErrorCode::InvalidProposalDescription);
    }
    check_holding(&ctx.creator_token_account, &ctx.mint, &ctx.dao_state.token_mint)?;
    let proposal_id = match ctx.dao_state.proposal_count.checked_add(1) {
        Some(n) => n,
        None => return Err(ErrorCode::ArithmeticOverflow),
    };
    ctx.dao_state.proposal_count = proposal_id;
    Ok(
        Proposal {
            proposal_id,
            title,
            description,
            yes_votes: 0,
            no_votes: 0,
            state: ProposalState::Pending,
            creator: ctx.authority,
            dao_state: ctx.dao_key,
            created_at: ctx.unix_timestamp,
        },
    )
}

/// What changing the quorum writes: the registry.
#[derive(Clone, Copy, Debug)]
pub struct UpdateQuorumPercentage {
    pub dao_state: DaoState,
}

/// Sets the quorum percentage. A value above 100 is refused and nothing
/// changes; any other value replaces the old one and nothing else.
pub fn update_quorum_percentage(ctx: &mut UpdateQuorumPercentage, new_quorum_percentage: u8) -> (r:
    Result<(), ErrorCode>)
    ensures
        r is Ok <==> new_quorum_percentage <= 100,
        r is Err ==> r == Err::<(), ErrorCode>(ErrorCode::InvalidQuorumPercentage) && *final(ctx)
            == *old(ctx),
        r is Ok ==> final(ctx).dao_state == (DaoState {
            quorum_percentage: new_quorum_percentage,
            ..old(ctx).dao_state
        }),
        old(ctx).dao_state.wf() ==> final(ctx).dao_state.wf(),
{
    if new_quorum_percentage > 100 {
        return Err(ErrorCode::InvalidQuorumPercentage);
    }
    ctx.dao_state.quorum_percentage = new_quorum_percentage;
    Ok(())
}

/// What changing the voter count writes: the registry.
#[derive(Clone, Copy, Debug)]
pub struct UpdateTotalVoters {
    pub dao_state: DaoState,
}

/// Sets the number of eligible voters. Zero is refused and nothing changes;
/// any other count replaces the old one and nothing else.
pub fn update_total_voters(ctx: &mut UpdateTotalVoters, new_total_voters: u64) -> (r: Result<
    (),
    ErrorCode,
>)
    ensures
        r is Ok <==> new_total_voters > 0,
        r is Err ==> r == Err::<(), ErrorCode>(ErrorCode::InvalidTotalVoters) && *final(ctx) == *old(
            ctx,
        ),
        r is Ok ==> final(ctx).dao_state == (DaoState { total_voters: new_total_voters, ..old(ctx).dao_state }),
        old(ctx).dao_state.wf() ==> final(ctx).dao_state.wf(),
{
    if new_total_voters == 0 {
        return Err(ErrorCode::InvalidTotalVoters);
    }
    ctx.dao_state.total_voters = new_total_voters;
    Ok(())
}

/// What a vote reads and writes: the proposal, the registry it must belong to,
/// the voter's record on the proposal, and the voter's holding of the mint
/// supplied with the vote.
#[derive(Clone, Debug)]
pub struct VoteOnProposal {
    pub proposal: Proposal,
    pub dao_state: DaoState,
    pub dao_key: AccountKey,
    pub voter_state: VoterState,
    pub mint: AccountKey,
    pub voter_token_account: TokenHolding,
}

/// The outcome of a vote: the refusal, in the order in which the checks are
/// made, or the accounts after the ballot is counted and the proposal
/// re-resolved.
pub open spec fn vote_result(ctx: VoteOnProposal, vote_type: VoteType) -> Result<VoteOnProposal, ErrorCode> {
    let yes = ctx.proposal.yes_votes + if vote_type == VoteType::Yes { 1int } else { 0int };
    let no = ctx.proposal.no_votes + if vote_type == VoteType::No { 1int } else { 0int };
    if ctx.proposal.dao_state@ != ctx.dao_key@ {
        Err(ErrorCode::InvalidProposalDao)
    } else if holding_rejection(ctx.voter_token_account, ctx.mint, ctx.dao_state.token_mint) is Some {
        Err(holding_rejection(ctx.voter_token_account, ctx.mint, ctx.dao_state.token_mint)->0)
    } else if ctx.voter_state.has_voted {
        Err(ErrorCode::AlreadyVoted)
    } else if ctx.proposal.state != ProposalState::Pending {
        Err(ErrorCode::ProposalNotPending)
    } else if !tally_fits(yes, no) {
        Err(ErrorCode::ArithmeticOverflow)
    } else {
        Ok(
            VoteOnProposal {
                proposal: Proposal {
                    yes_votes: yes as u64,
                    no_votes: no as u64,
                    state: resolved_state(
                        yes,
                        no,
                        ctx.dao_state.total_voters,
                        ctx.dao_state.quorum_percentage,
                    ),
                    ..ctx.proposal
                },
                voter_state: VoterState { has_voted: true, vote_type },
                ..ctx
            },
        )
    }
}

/// Casts one ballot on a proposal and re-resolves it. Either every account is
/// updated as `vote_result` says, or the vote is refused and nothing changes.
pub fn vote_on_proposal(ctx: &mut VoteOnProposal, vote_type: VoteType) -> (r: Result<(), ErrorCode>)
    ensures
        match r {
            Ok(()) => vote_result(*old(ctx), vote_type) == Ok::<VoteOnProposal, ErrorCode>(*final(ctx)),
            Err(e) => vote_result(*old(ctx), vote_type) == Err::<VoteOnProposal, ErrorCode>(e) && *final(ctx)
                == *old(ctx),
        },
{
    if !ctx.proposal.dao_state.same_as(&ctx.dao_key) {
        return Err(ErrorCode::InvalidProposalDao);
    }
    check_holding(&ctx.voter_token_account, &ctx.mint, &ctx.dao_state.token_mint)?;
    if ctx.voter_state.has_voted {
        return Err(ErrorCode::AlreadyVoted);
    }
    if ctx.proposal.state != ProposalState::Pending {
        return Err(ErrorCode::ProposalNotPending);
    }
    let (yes_votes, no_votes) = match vote_type {
        VoteType::Yes => {
            if ctx.proposal.yes_votes == u64::MAX {
                return Err(ErrorCode::ArithmeticOverflow);
            }
            (ctx.proposal.yes_votes + 1, ctx.proposal.no_votes)
        },
        VoteType::No => {
            if ctx.proposal.no_votes == u64::MAX {
                return Err(ErrorCode::ArithmeticOverflow);
            }
            (ctx.proposal.yes_votes, ctx.proposal.no_votes + 1)
        },
    };
    let state = resolve_state(yes_votes, no_votes, &ctx.dao_state)?;
    ctx.proposal.yes_votes = yes_votes;
    ctx.proposal.no_votes = no_votes;
    ctx.proposal.state = state;
    ctx.voter_state.has_voted = true;
    ctx.voter_state.vote_type = vote_type;
    Ok(())
}

} // verus!
