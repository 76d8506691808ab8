use vstd::prelude::*;
use crate::identity::Identity;
use crate::instructions::{cast_vote_post, create_proposal_post, finalize_post, initialize_post};
use crate::ledger::Ledger;
use crate::state::{
    CastVote, CreateProposal, ErrorCode, FinalizeProposal, Initialize, ProposalCreated,
    ProposalStatus, VoteChoice, VoteCast,
};
use crate::tally::{ballot_count, choice_count, has_ballot, lemma_counts_push, lemma_counts_sum};

verus! {

/// `post` is what one instruction, successful or not, made of `pre`.
pub open spec fn instruction_step(pre: Ledger, post: Ledger) -> bool {
    ||| exists|ctx: Initialize, name: String, r: Result<crate::state::DaoInitialized, ErrorCode>|
        initialize_post(pre, post, ctx, name, r)
    ||| exists|
        ctx: CreateProposal,
        title: String,
        description: String,
        duration: i64,
        now: i64,
        r: Result<ProposalCreated, ErrorCode>,
    | create_proposal_post(pre, post, ctx, title, description, duration, now, r)
    ||| exists|ctx: CastVote, choice: VoteChoice, now: i64, r: Result<VoteCast, ErrorCode>|
        cast_vote_post(pre, post, ctx, choice, now, r)
    ||| exists|ctx: FinalizeProposal, r: Result<crate::state::ProposalFinalized, ErrorCode>|
        finalize_post(pre, post, ctx, r)
}

/// `trace` is a run of the ledger: each state comes from the one before it by
/// one instruction, and every state is well formed.
pub open spec fn is_run(trace: Seq<Ledger>) -> bool {
    &&& forall|i: int| 0 <= i < trace.len() ==> #[trigger] trace[i].wf()
    &&& forall|i: int|
        0 <= i < trace.len() - 1 ==> instruction_step(#[trigger] trace[i], trace[i + 1])
}

/// No instruction removes a record: the proposals and ballots before it are
/// still there afterwards, each proposal with the same id, and a finalized
/// proposal stays finalized. Once the organization exists, its authority and
/// name never change and its counter never goes down.
pub proof fn lemma_step_keeps_records(pre: Ledger, post: Ledger)
    requires
        instruction_step(pre, post),
    ensures
        pre.dao_spec() matches Some(d) ==> {
            &&& post.dao_spec() is Some
            &&& post.dao_spec()->Some_0.authority == d.authority
            &&& post.dao_spec()->Some_0.dao_name == d.dao_name
            &&& post.dao_spec()->Some_0.proposal_count >= d.proposal_count
        },
        post.proposals_spec().len() >= pre.proposals_spec().len(),
        post.ballots_spec().len() >= pre.ballots_spec().len(),
        forall|k: int|
            0 <= k < pre.ballots_spec().len() ==> #[trigger] post.ballots_spec()[k]
                == pre.ballots_spec()[k],
        forall|i: int|
            0 <= i < pre.proposals_spec().len() ==> {
                &&& #[trigger] post.proposals_spec()[i].id == pre.proposals_spec()[i].id
                &&& pre.proposals_spec()[i].status == ProposalStatus::Finalized
                    ==> post.proposals_spec()[i].status == ProposalStatus::Finalized
            },
{
}

/// Along a run, the proposals and ballots of an earlier state are all still
/// there in a later one.
pub proof fn lemma_run_keeps_records(trace: Seq<Ledger>, a: int, b: int)
    requires
        is_run(trace),
        0 <= a <= b < trace.len(),
    ensures
        trace[b].proposals_spec().len() >= trace[a].proposals_spec().len(),
        forall|k: int|
            0 <= k < trace[a].ballots_spec().len() ==> #[trigger] trace[b].ballots_spec()[k]
                == trace[a].ballots_spec()[k] && k < trace[b].ballots_spec().len(),
        forall|i: int|
            0 <= i < trace[a].proposals_spec().len() ==> (#[trigger] trace[a].proposals_spec()[i].status
                == ProposalStatus::Finalized ==> trace[b].proposals_spec()[i].status
                == ProposalStatus::Finalized),
    decreases b - a,
{
    if a < b {
        lemma_run_keeps_records(trace, a, b - 1);
        assert(instruction_step(trace[b - 1], trace[b]));
        lemma_step_keeps_records(trace[b - 1], trace[b]);
    }
}

/// Proposal ids are unique and increase: of two successful creations in a
/// run, the later one gets the larger id.
pub proof fn lemma_proposal_ids_increase(
    trace: Seq<Ledger>,
    i: int,
    j: int,
    c1: CreateProposal,
    title1: String,
    description1: String,
    duration1: i64,
    now1: i64,
    r1: Result<ProposalCreated, ErrorCode>,
    c2: CreateProposal,
    title2: String,
    description2: String,
    duration2: i64,
    now2: i64,
    r2: Result<ProposalCreated, ErrorCode>,
)
    requires
        is_run(trace),
        0 <= i < j,
        j + 1 < trace.len(),
        create_proposal_post(trace[i], trace[i + 1], c1, title1, description1, duration1, now1, r1),
        create_proposal_post(trace[j], trace[j + 1], c2, title2, description2, duration2, now2, r2),
        r1 is Ok,
        r2 is Ok,
    ensures
        r1->Ok_0.proposal_id < r2->Ok_0.proposal_id,
{
    assert(trace[i].wf());
    assert(trace[j].wf());
    lemma_run_keeps_records(trace, i + 1, j);
}

/// One ballot per voter and proposal: no two ballots of a well-formed ledger
/// share both.
pub proof fn lemma_one_ballot_per_voter(l: Ledger, j: int, k: int)
    requires
        l.wf(),
        0 <= j < k < l.ballots_spec().len(),
        l.ballots_spec()[j].proposal_id == l.ballots_spec()[k].proposal_id,
    ensures
        !l.ballots_spec()[j].voter.same(l.ballots_spec()[k].voter),
{
}

/// A second vote by the same voter on the same proposal never succeeds: once
/// a vote was cast in a run, a later vote with the same proposal and voter
/// fails, and while the proposal is open and unexpired it fails because the
/// ballot's address is taken.
pub proof fn lemma_second_vote_fails(
    trace: Seq<Ledger>,
    i: int,
    j: int,
    ctx: CastVote,
    choice1: VoteChoice,
    now1: i64,
    r1: Result<VoteCast, ErrorCode>,
    choice2: VoteChoice,
    now2: i64,
    r2: Result<VoteCast, ErrorCode>,
)
    requires
        is_run(trace),
        0 <= i < j,
        j + 1 < trace.len(),
        cast_vote_post(trace[i], trace[i + 1], ctx, choice1, now1, r1),
        cast_vote_post(trace[j], trace[j + 1], ctx, choice2, now2, r2),
        r1 is Ok,
    ensures
        r2 is Err,
        trace[j].proposals_spec()[ctx.proposal_id as int].status == ProposalStatus::Active && now2
            <= trace[j].proposals_spec()[ctx.proposal_id as int].expires_at ==> r2
            == Err::<VoteCast, ErrorCode>(ErrorCode::AlreadyInUse),
{
    let n = trace[i].ballots_spec().len() as int;
    assert(trace[i + 1].ballots_spec()[n].proposal_id == ctx.proposal_id);
    lemma_run_keeps_records(trace, i + 1, j);
    assert(trace[j].ballots_spec()[n] == trace[i + 1].ballots_spec()[n]);
    assert(has_ballot(trace[j].ballots_spec(), ctx.proposal_id, ctx.voter));
}

/// The tally is the ballots: in a well-formed ledger each count of a
/// proposal is the number of its ballots with that choice, and the three
/// together are the number of its ballots.
pub proof fn lemma_tally_matches_ballots(l: Ledger, id: int)
    requires
        l.wf(),
        0 <= id < l.proposals_spec().len(),
    ensures
        l.proposals_spec()[id].yes_votes == choice_count(l.ballots_spec(), id as u64, VoteChoice::Yes),
        l.proposals_spec()[id].no_votes == choice_count(l.ballots_spec(), id as u64, VoteChoice::No),
        l.proposals_spec()[id].abstain_votes == choice_count(
            l.ballots_spec(),
            id as u64,
            VoteChoice::Abstain,
        ),
        l.proposals_spec()[id].total() == ballot_count(l.ballots_spec(), id as u64),
{
    lemma_counts_sum(l.ballots_spec(), id as u64);
}

/// Each successful vote adds exactly one ballot, on its own proposal; every
/// other instruction, and every failed one, adds none.
pub proof fn lemma_votes_count_ballots(pre: Ledger, post: Ledger, id: u64)
    requires
        instruction_step(pre, post),
    ensures
        (exists|ctx: CastVote, choice: VoteChoice, now: i64, r: Result<VoteCast, ErrorCode>|
            cast_vote_post(pre, post, ctx, choice, now, r) && r is Ok && ctx.proposal_id == id)
            ==> ballot_count(post.ballots_spec(), id) == ballot_count(pre.ballots_spec(), id) + 1,
        !(exists|ctx: CastVote, choice: VoteChoice, now: i64, r: Result<VoteCast, ErrorCode>|
            cast_vote_post(pre, post, ctx, choice, now, r) && r is Ok && ctx.proposal_id == id)
            ==> ballot_count(post.ballots_spec(), id) == ballot_count(pre.ballots_spec(), id),
{
    if post.ballots_spec() != pre.ballots_spec() {
        let (ctx, choice, now, r) = choose|
            ctx: CastVote,
            choice: VoteChoice,
            now: i64,
            r: Result<VoteCast, ErrorCode>,
        | cast_vote_post(pre, post, ctx, choice, now, r);
        let b = crate::state::VoteRecord {
            voter: ctx.voter,
            proposal_id: ctx.proposal_id,
            choice,
            timestamp: now,
        };
        lemma_counts_push(pre.ballots_spec(), b, id, choice);
    }
}

/// Majority rule: a finalized proposal passed exactly when it had strictly
/// more yes votes than no votes; abstentions count toward the total only.
pub proof fn lemma_majority_rule(
    pre: Ledger,
    post: Ledger,
    ctx: FinalizeProposal,
    r: Result<crate::state::ProposalFinalized, ErrorCode>,
)
    requires
        pre.wf(),
        finalize_post(pre, post, ctx, r),
        r is Ok,
    ensures
        r->Ok_0.passed <==> pre.proposals_spec()[ctx.proposal_id as int].yes_votes
            > pre.proposals_spec()[ctx.proposal_id as int].no_votes,
        r->Ok_0.total_votes == pre.proposals_spec()[ctx.proposal_id as int].total(),
{
    assert(pre.proposals_spec()[ctx.proposal_id as int].total() <= u64::MAX);
}

/// A finalized proposal is closed for good: a vote on it or a second
/// finalization fails with `ProposalNotActive`, and no instruction makes it
/// active again.
pub proof fn lemma_finalized_is_terminal(
    pre: Ledger,
    post: Ledger,
    id: u64,
    voter: Identity,
    choice: VoteChoice,
    now: i64,
    vote: Result<VoteCast, ErrorCode>,
    authority: Identity,
    fin: Result<crate::state::ProposalFinalized, ErrorCode>,
)
    requires
        pre.wf(),
        id < pre.proposals_spec().len(),
        pre.proposals_spec()[id as int].status == ProposalStatus::Finalized,
    ensures
        cast_vote_post(pre, post, CastVote { proposal_id: id, voter }, choice, now, vote) ==> vote
            == Err::<VoteCast, ErrorCode>(ErrorCode::ProposalNotActive),
        finalize_post(pre, post, FinalizeProposal { proposal_id: id, authority }, fin) ==> fin
            == Err::<crate::state::ProposalFinalized, ErrorCode>(ErrorCode::ProposalNotActive),
        instruction_step(pre, post) ==> post.proposals_spec()[id as int].status
            == ProposalStatus::Finalized,
{
    if instruction_step(pre, post) {
        lemma_step_keeps_records(pre, post);
    }
}

/// Votes close with the window: a vote after a proposal's expiry fails with
/// `ProposalExpired`, though the proposal is still active.
pub proof fn lemma_expired_vote_fails(
    pre: Ledger,
    post: Ledger,
    ctx: CastVote,
    choice: VoteChoice,
    now: i64,
    r: Result<VoteCast, ErrorCode>,
)
    requires
        pre.wf(),
        ctx.proposal_id < pre.proposals_spec().len(),
        pre.proposals_spec()[ctx.proposal_id as int].status == ProposalStatus::Active,
        now > pre.proposals_spec()[ctx.proposal_id as int].expires_at,
        cast_vote_post(pre, post, ctx, choice, now, r),
    ensures
        r == Err::<VoteCast, ErrorCode>(ErrorCode::ProposalExpired),
        post == pre,
{
}

} // verus!
