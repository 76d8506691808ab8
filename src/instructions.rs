use vstd::prelude::*;
use crate::ledger::{
    lemma_new_proposal_keeps_wf, lemma_status_change_keeps_wf, lemma_vote_keeps_wf, Ledger,
};
use crate::clock::clock_unix_timestamp;
use crate::state::{
    text_len, CastVote, CreateProposal, DaoInitialized, DaoState, ErrorCode, FinalizeProposal,
    Initialize, Proposal, ProposalCreated, ProposalFinalized, ProposalStatus, VoteCast, VoteChoice,
    VoteRecord, MAX_DESCRIPTION_LEN, MAX_NAME_LEN, MAX_TITLE_LEN,
};
use crate::tally::has_ballot;

verus! {

/// Which error `initialize` reports, if any. The organization record is
/// created once: every later call fails as a duplicate, whatever the name.
pub open spec fn initialize_error(l: Ledger, dao_name: Seq<char>) -> Option<ErrorCode> {
    if l.dao_spec() is Some {
        Some(ErrorCode::AlreadyInUse)
    } else if text_len(dao_name) > MAX_NAME_LEN {
        Some(ErrorCode::NameTooLong)
    } else {
        None
    }
}

/// What `initialize` does: on success the organization record exists with
/// the signer as authority, the given name and no proposals yet.
pub open spec fn initialize_post(
    pre: Ledger,
    post: Ledger,
    ctx: Initialize,
    dao_name: String,
    r: Result<DaoInitialized, ErrorCode>,
) -> bool {
    match initialize_error(pre, dao_name@) {
        Some(e) => r == Err::<DaoInitialized, ErrorCode>(e) && post == pre,
        None => {
            &&& r == Ok::<DaoInitialized, ErrorCode>(
                DaoInitialized { authority: ctx.authority, dao_name },
            )
            &&& post.dao_spec() == Some(
                DaoState { authority: ctx.authority, dao_name, proposal_count: 0 },
            )
            &&& post.proposals_spec() == pre.proposals_spec()
            &&& post.ballots_spec() == pre.ballots_spec()
        },
    }
}

/// Creates the organization record, with the signer as its authority.
pub fn initialize(ledger: &mut Ledger, ctx: &Initialize, dao_name: String) -> (r: Result<
    DaoInitialized,
    ErrorCode,
>)
    requires
        old(ledger).wf(),
    ensures
        final(ledger).wf(),
        initialize_post(*old(ledger), *final(ledger), *ctx, dao_name, r),
{
    if ledger.dao().is_some() {
        return Err(ErrorCode::AlreadyInUse);
    }
    if dao_name.as_str().as_bytes().len() > MAX_NAME_LEN {
        return Err(ErrorCode::NameTooLong);
    }
    let event = DaoInitialized { authority: ctx.authority, dao_name: dao_name.clone() };
    ledger.store_dao(DaoState { authority: ctx.authority, dao_name, proposal_count: 0 });
    Ok(event)
}

/// Which error `finalize_proposal` reports, if any.
pub open spec fn finalize_error(l: Ledger, ctx: FinalizeProposal) -> Option<ErrorCode> {
    if l.dao_spec() is None || ctx.proposal_id >= l.proposals_spec().len() {
        Some(ErrorCode::AccountNotInitialized)
    } else if l.proposals_spec()[ctx.proposal_id as int].status != ProposalStatus::Active {
        Some(ErrorCode::ProposalNotActive)
    } else if !ctx.authority.same(l.dao_spec()->Some_0.authority) {
        Some(ErrorCode::Unauthorized)
    } else {
        None
    }
}

/// What `finalize_proposal` does: on success the proposal is `Finalized`,
/// everything else stays, and the outcome reports the proposal's tally.
pub open spec fn finalize_post(
    pre: Ledger,
    post: Ledger,
    ctx: FinalizeProposal,
    r: Result<ProposalFinalized, ErrorCode>,
) -> bool {
    match finalize_error(pre, ctx) {
        Some(e) => r == Err::<ProposalFinalized, ErrorCode>(e) && post == pre,
        None => {
            let p = pre.proposals_spec()[ctx.proposal_id as int];
            &&& r == Ok::<ProposalFinalized, ErrorCode>(
                ProposalFinalized {
                    proposal_id: ctx.proposal_id,
                    status: ProposalStatus::Finalized,
                    total_votes: p.total() as u64,
                    passed: p.passes(),
                },
            )
            &&& post.dao_spec() == pre.dao_spec()
            &&& post.proposals_spec() == pre.proposals_spec().update(
                ctx.proposal_id as int,
                Proposal { status: ProposalStatus::Finalized, ..p },
            )
            &&& post.ballots_spec() == pre.ballots_spec()
        },
    }
}

/// Closes an active proposal and reports its outcome; only the
/// organization's authority may do so.
pub fn finalize_proposal(ledger: &mut Ledger, ctx: &FinalizeProposal) -> (r: Result<
    ProposalFinalized,
    ErrorCode,
>)
    requires
        old(ledger).wf(),
    ensures
        final(ledger).wf(),
        finalize_post(*old(ledger), *final(ledger), *ctx, r),
{
    let id = ctx.proposal_id;
    let authority = match ledger.dao() {
        None => {
            return Err(ErrorCode::AccountNotInitialized);
        },
        Some(d) => d.authority,
    };
    let (status, yes, no, abstain) = match ledger.proposal(id) {
        None => {
            return Err(ErrorCode::AccountNotInitialized);
        },
        Some(p) => {
            assert(p.total() <= u64::MAX);
            (p.status, p.yes_votes, p.no_votes, p.abstain_votes)
        },
    };
    match status {
        ProposalStatus::Finalized => {
            return Err(ErrorCode::ProposalNotActive);
        },
        ProposalStatus::Active => {},
    }
    if !(ctx.authority == authority) {
        return Err(ErrorCode::Unauthorized);
    }
    let ghost pre = *ledger;
    ledger.set_status(id, ProposalStatus::Finalized);
    proof {
        lemma_status_change_keeps_wf(pre, *ledger, id as int, ProposalStatus::Finalized);
    }
    Ok(
        ProposalFinalized {
            proposal_id: id,
            status: ProposalStatus::Finalized,
            total_votes: yes + no + abstain,
            passed: yes > no,
        },
    )
}

/// Which error `create_proposal_at` reports, if any.
pub open spec fn create_proposal_error(
    l: Ledger,
    title: Seq<char>,
    description: Seq<char>,
    voting_duration: i64,
    now: i64,
) -> Option<ErrorCode> {
    if l.dao_spec() is None {
        Some(ErrorCode::AccountNotInitialized)
    } else if text_len(title) > MAX_TITLE_LEN {
        Some(ErrorCode::TitleTooLong)
    } else if text_len(description) > MAX_DESCRIPTION_LEN {
        Some(ErrorCode::DescriptionTooLong)
    } else if l.dao_spec()->Some_0.proposal_count == u64::MAX {
        Some(ErrorCode::ArithmeticOverflow)
    } else if now + voting_duration < i64::MIN || now + voting_duration > i64::MAX {
        Some(ErrorCode::ArithmeticOverflow)
    } else {
        None
    }
}

/// What `create_proposal_at` does: on success a fresh active proposal with
/// no votes is stored under the current value of the organization's counter,
/// which then goes up by one.
pub open spec fn create_proposal_post(
    pre: Ledger,
    post: Ledger,
    ctx: CreateProposal,
    title: String,
    description: String,
    voting_duration: i64,
    now: i64,
    r: Result<ProposalCreated, ErrorCode>,
) -> bool {
    match create_proposal_error(pre, title@, description@, voting_duration, now) {
        Some(e) => r == Err::<ProposalCreated, ErrorCode>(e) && post == pre,
        None => {
            let d = pre.dao_spec()->Some_0;
            let id = d.proposal_count;
            &&& r == Ok::<ProposalCreated, ErrorCode>(
                ProposalCreated { proposal_id: id, creator: ctx.creator, title, created_at: now },
            )
            &&& post.dao_spec() == Some(DaoState { proposal_count: (id + 1) as u64, ..d })
            &&& post.proposals_spec() == pre.proposals_spec().push(
                Proposal {
                    id,
                    creator: ctx.creator,
                    title,
                    description,
                    yes_votes: 0,
                    no_votes: 0,
                    abstain_votes: 0,
                    status: ProposalStatus::Active,
                    created_at: now,
                    expires_at: (now + voting_duration) as i64,
                },
            )
            &&& post.ballots_spec() == pre.ballots_spec()
        },
    }
}

/// Opens a proposal at time `now`, open for votes until `now + voting_duration`.
pub fn create_proposal_at(
    ledger: &mut Ledger,
    ctx: &CreateProposal,
    title: String,
    description: String,
    voting_duration: i64,
    now: i64,
) -> (r: Result<ProposalCreated, ErrorCode>)
    requires
        old(ledger).wf(),
    ensures
        final(ledger).wf(),
        create_proposal_post(
            *old(ledger),
            *final(ledger),
            *ctx,
            title,
            description,
            voting_duration,
            now,
            r,
        ),
{
    let id = match ledger.dao() {
        None => {
            return Err(ErrorCode::AccountNotInitialized);
        },
        Some(d) => d.proposal_count,
    };
    if title.as_str().as_bytes().len() > MAX_TITLE_LEN {
        return Err(ErrorCode::TitleTooLong);
    }
    if description.as_str().as_bytes().len() > MAX_DESCRIPTION_LEN {
        return Err(ErrorCode::DescriptionTooLong);
    }
    let next = match id.checked_add(1) {
        None => {
            return Err(ErrorCode::ArithmeticOverflow);
        },
        Some(n) => n,
    };
    let expires_at = match now.checked_add(voting_duration) {
        None => {
            return Err(ErrorCode::ArithmeticOverflow);
        },
        Some(e) => e,
    };
    let event = ProposalCreated {
        proposal_id: id,
        creator: ctx.creator,
        title: title.clone(),
        created_at: now,
    };
    let ghost pre = *ledger;
    let proposal = Proposal {
        id,
        creator: ctx.creator,
        title,
        description,
        yes_votes: 0,
        no_votes: 0,
        abstain_votes: 0,
        status: ProposalStatus::Active,
        created_at: now,
        expires_at,
    };
    let ghost new_proposal = proposal;
    ledger.push_proposal(proposal);
    ledger.set_proposal_count(next);
    proof {
        lemma_new_proposal_keeps_wf(pre, *ledger, new_proposal);
    }
    Ok(event)
}

/// Which error `cast_vote_at` reports, if any.
pub open spec fn cast_vote_error(l: Ledger, ctx: CastVote, now: i64) -> Option<ErrorCode> {
    if ctx.proposal_id >= l.proposals_spec().len() {
        Some(ErrorCode::AccountNotInitialized)
    } else {
        let p = l.proposals_spec()[ctx.proposal_id as int];
        if p.status != ProposalStatus::Active {
            Some(ErrorCode::ProposalNotActive)
        } else if now > p.expires_at {
            Some(ErrorCode::ProposalExpired)
        } else if has_ballot(l.ballots_spec(), ctx.proposal_id, ctx.voter) {
            Some(ErrorCode::AlreadyInUse)
        } else if p.total() >= u64::MAX {
            Some(ErrorCode::ArithmeticOverflow)
        } else {
            None
        }
    }
}

/// What `cast_vote_at` does: on success the voter's ballot is recorded and
/// the proposal's count for the chosen option goes up by one.
pub open spec fn cast_vote_post(
    pre: Ledger,
    post: Ledger,
    ctx: CastVote,
    vote_choice: VoteChoice,
    now: i64,
    r: Result<VoteCast, ErrorCode>,
) -> bool {
    match cast_vote_error(pre, ctx, now) {
        Some(e) => r == Err::<VoteCast, ErrorCode>(e) && post == pre,
        None => {
            let id = ctx.proposal_id;
            &&& r == Ok::<VoteCast, ErrorCode>(
                VoteCast { proposal_id: id, voter: ctx.voter, choice: vote_choice, timestamp: now },
            )
            &&& post.dao_spec() == pre.dao_spec()
            &&& post.proposals_spec() == pre.proposals_spec().update(
                id as int,
                pre.proposals_spec()[id as int].tallied(vote_choice),
            )
            &&& post.ballots_spec() == pre.ballots_spec().push(
                VoteRecord { voter: ctx.voter, proposal_id: id, choice: vote_choice, timestamp: now },
            )
        },
    }
}

/// Records the signer's vote on an open proposal at time `now`.
pub fn cast_vote_at(ledger: &mut Ledger, ctx: &CastVote, vote_choice: VoteChoice, now: i64) -> (r:
    Result<VoteCast, ErrorCode>)
    requires
        old(ledger).wf(),
    ensures
        final(ledger).wf(),
        cast_vote_post(*old(ledger), *final(ledger), *ctx, vote_choice, now, r),
{
    let id = ctx.proposal_id;
    let (status, expires_at, total) = match ledger.proposal(id) {
        None => {
            return Err(ErrorCode::AccountNotInitialized);
        },
        Some(p) => {
            assert(p.total() <= u64::MAX);
            (p.status, p.expires_at, p.yes_votes + p.no_votes + p.abstain_votes)
        },
    };
    match status {
        ProposalStatus::Finalized => {
            return Err(ErrorCode::ProposalNotActive);
        },
        ProposalStatus::Active => {},
    }
    if now > expires_at {
        return Err(ErrorCode::ProposalExpired);
    }
    if ledger.vote_record(id, &ctx.voter).is_some() {
        return Err(ErrorCode::AlreadyInUse);
    }
    if total == u64::MAX {
        return Err(ErrorCode::ArithmeticOverflow);
    }
    let ballot = VoteRecord { voter: ctx.voter, proposal_id: id, choice: vote_choice, timestamp: now };
    let ghost pre = *ledger;
    ledger.tally_vote(id, vote_choice);
    ledger.push_ballot(ballot);
    proof {
        lemma_vote_keeps_wf(pre, *ledger, ballot);
    }
    Ok(VoteCast { proposal_id: id, voter: ctx.voter, choice: vote_choice, timestamp: now })
}

/// Reads the current time from the runtime clock; the ledger's own error when
/// it cannot be read.
fn current_time() -> (r: Result<i64, ErrorCode>)
    ensures
        r is Err ==> r == Err::<i64, ErrorCode>(ErrorCode::ClockUnavailable),
{
    match clock_unix_timestamp() {
        Ok(t) => Ok(t),
        Err(_) => Err(ErrorCode::ClockUnavailable),
    }
}

/// Opens a proposal now, by the runtime clock, open for votes for
/// `voting_duration` seconds. Whatever time the clock gives, the outcome is
/// that of `create_proposal_at` at that time; if the clock cannot be read,
/// nothing changes.
pub fn create_proposal(
    ledger: &mut Ledger,
    ctx: &CreateProposal,
    title: String,
    description: String,
    voting_duration: i64,
) -> (r: Result<ProposalCreated, ErrorCode>)
    requires
        old(ledger).wf(),
    ensures
        final(ledger).wf(),
        (r == Err::<ProposalCreated, ErrorCode>(ErrorCode::ClockUnavailable) && *final(ledger)
            == *old(ledger)) || exists|now: i64|
            create_proposal_post(
                *old(ledger),
                *final(ledger),
                *ctx,
                title,
                description,
                voting_duration,
                now,
                r,
            ),
{
    match current_time() {
        Err(e) => Err(e),
        Ok(now) => create_proposal_at(ledger, ctx, title, description, voting_duration, now),
    }
}

/// Records the signer's vote now, by the runtime clock. Whatever time the
/// clock gives, the outcome is that of `cast_vote_at` at that time; if the
/// clock cannot be read, nothing changes.
pub fn cast_vote(ledger: &mut Ledger, ctx: &CastVote, vote_choice: VoteChoice) -> (r: Result<
    VoteCast,
    ErrorCode,
>)
    requires
        old(ledger).wf(),
    ensures
        final(ledger).wf(),
        (r == Err::<VoteCast, ErrorCode>(ErrorCode::ClockUnavailable) && *final(ledger)
            == *old(ledger)) || exists|now: i64|
            cast_vote_post(*old(ledger), *final(ledger), *ctx, vote_choice, now, r),
{
    match current_time() {
        Err(e) => Err(e),
        Ok(now) => cast_vote_at(ledger, ctx, vote_choice, now),
    }
}

} // verus!
