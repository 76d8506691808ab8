use dao_program::address::{seeds, RecordKey};
use dao_program::identity::Identity;
use dao_program::instructions::{
    cast_vote, cast_vote_at, create_proposal, create_proposal_at, finalize_proposal, initialize,
};
use dao_program::ledger::Ledger;
use dao_program::state::{
    CastVote, CreateProposal, ErrorCode, FinalizeProposal, Initialize, ProposalStatus, VoteChoice,
};

fn who(n: u8) -> Identity {
    Identity::new([n; 32])
}

fn organized(authority: Identity) -> Ledger {
    let mut l = Ledger::new();
    initialize(&mut l, &Initialize { authority }, "TestDAO".to_string()).unwrap();
    l
}

fn open(l: &mut Ledger, duration: i64, now: i64) -> u64 {
    let ctx = CreateProposal { creator: who(9) };
    create_proposal_at(l, &ctx, "Upgrade".to_string(), "...".to_string(), duration, now)
        .unwrap()
        .proposal_id
}

fn vote(l: &mut Ledger, id: u64, voter: u8, choice: VoteChoice, now: i64) -> Result<(), ErrorCode> {
    cast_vote_at(l, &CastVote { proposal_id: id, voter: who(voter) }, choice, now).map(|_| ())
}

fn finalize(l: &mut Ledger, id: u64, authority: u8) -> Result<(u64, bool), ErrorCode> {
    finalize_proposal(l, &FinalizeProposal { proposal_id: id, authority: who(authority) })
        .map(|e| (e.total_votes, e.passed))
}

#[test]
fn scenario_upgrade_passes() {
    let authority = who(1);
    let mut l = Ledger::new();
    let init = initialize(&mut l, &Initialize { authority }, "TestDAO".to_string()).unwrap();
    assert_eq!(init.dao_name, "TestDAO");
    assert!(init.authority == authority);
    let created_at: i64 = 1_700_000_000;
    let ev = create_proposal_at(
        &mut l,
        &CreateProposal { creator: who(7) },
        "Upgrade".to_string(),
        "...".to_string(),
        3600,
        created_at,
    )
    .unwrap();
    assert_eq!(ev.proposal_id, 0);
    assert_eq!(ev.title, "Upgrade");
    assert_eq!(ev.created_at, created_at);
    {
        let p = l.proposal(0).unwrap();
        assert_eq!(p.status, ProposalStatus::Active);
        assert_eq!(p.expires_at, created_at + 3600);
    }
    vote(&mut l, 0, 10, VoteChoice::Yes, created_at + 1).unwrap();
    vote(&mut l, 0, 11, VoteChoice::No, created_at + 2).unwrap();
    vote(&mut l, 0, 12, VoteChoice::Yes, created_at + 3).unwrap();
    {
        let p = l.proposal(0).unwrap();
        assert_eq!((p.yes_votes, p.no_votes, p.abstain_votes), (2, 1, 0));
    }
    let fin = finalize_proposal(&mut l, &FinalizeProposal { proposal_id: 0, authority }).unwrap();
    assert_eq!(fin.proposal_id, 0);
    assert_eq!(fin.status, ProposalStatus::Finalized);
    assert_eq!(fin.total_votes, 3);
    assert!(fin.passed);
    assert_eq!(l.proposal(0).unwrap().status, ProposalStatus::Finalized);
    assert_eq!(
        vote(&mut l, 0, 10, VoteChoice::No, created_at + 4),
        Err(ErrorCode::ProposalNotActive)
    );
}

#[test]
fn proposal_ids_count_up_from_zero() {
    let mut l = organized(who(1));
    let ids: Vec<u64> = (0..5).map(|k| open(&mut l, 60, 100 + k)).collect();
    assert_eq!(ids, vec![0, 1, 2, 3, 4]);
    assert_eq!(l.dao().unwrap().proposal_count, 5);
}

#[test]
fn failed_creation_does_not_consume_an_id() {
    let mut l = organized(who(1));
    assert_eq!(open(&mut l, 60, 0), 0);
    let long_title = "t".repeat(101);
    let r = create_proposal_at(
        &mut l,
        &CreateProposal { creator: who(2) },
        long_title,
        String::new(),
        60,
        0,
    );
    assert_eq!(r.unwrap_err(), ErrorCode::TitleTooLong);
    assert_eq!(open(&mut l, 60, 0), 1);
}

#[test]
fn second_vote_by_same_voter_is_rejected() {
    let mut l = organized(who(1));
    let id = open(&mut l, 60, 0);
    vote(&mut l, id, 5, VoteChoice::Yes, 1).unwrap();
    assert_eq!(vote(&mut l, id, 5, VoteChoice::No, 2), Err(ErrorCode::AlreadyInUse));
    assert_eq!(vote(&mut l, id, 5, VoteChoice::Yes, 3), Err(ErrorCode::AlreadyInUse));
    let p = l.proposal(id).unwrap();
    assert_eq!((p.yes_votes, p.no_votes, p.abstain_votes), (1, 0, 0));
    assert_eq!(l.ballot_total(), 1);
}

#[test]
fn same_voter_may_vote_on_different_proposals() {
    let mut l = organized(who(1));
    let a = open(&mut l, 60, 0);
    let b = open(&mut l, 60, 0);
    vote(&mut l, a, 5, VoteChoice::Yes, 1).unwrap();
    vote(&mut l, b, 5, VoteChoice::No, 1).unwrap();
    let ballot = l.vote_record(b, &who(5)).unwrap();
    assert_eq!(ballot.choice, VoteChoice::No);
    assert_eq!(ballot.timestamp, 1);
    assert!(l.vote_record(a, &who(6)).is_none());
}

#[test]
fn tallies_match_ballots() {
    let mut l = organized(who(1));
    let id = open(&mut l, 1000, 0);
    let other = open(&mut l, 1000, 0);
    let choices = [
        VoteChoice::Yes,
        VoteChoice::Abstain,
        VoteChoice::No,
        VoteChoice::Yes,
        VoteChoice::Abstain,
        VoteChoice::Yes,
    ];
    for (k, c) in choices.iter().enumerate() {
        vote(&mut l, id, 20 + k as u8, *c, k as i64).unwrap();
    }
    vote(&mut l, other, 20, VoteChoice::No, 0).unwrap();
    let p = l.proposal(id).unwrap();
    assert_eq!((p.yes_votes, p.no_votes, p.abstain_votes), (3, 1, 2));
    let q = l.proposal(other).unwrap();
    assert_eq!((q.yes_votes, q.no_votes, q.abstain_votes), (0, 1, 0));
    assert_eq!(l.ballot_total(), 7);
}

#[test]
fn tie_does_not_pass() {
    let mut l = organized(who(1));
    let id = open(&mut l, 1000, 0);
    for v in 0..3 {
        vote(&mut l, id, 30 + v, VoteChoice::Yes, 1).unwrap();
        vote(&mut l, id, 40 + v, VoteChoice::No, 1).unwrap();
    }
    assert_eq!(finalize(&mut l, id, 1), Ok((6, false)));
}

#[test]
fn abstentions_do_not_decide() {
    let mut l = organized(who(1));
    let id = open(&mut l, 1000, 0);
    vote(&mut l, id, 30, VoteChoice::Yes, 1).unwrap();
    for v in 0..5 {
        vote(&mut l, id, 40 + v, VoteChoice::Abstain, 1).unwrap();
    }
    assert_eq!(finalize(&mut l, id, 1), Ok((6, true)));
}

#[test]
fn no_votes_does_not_pass() {
    let mut l = organized(who(1));
    let id = open(&mut l, 1000, 0);
    assert_eq!(finalize(&mut l, id, 1), Ok((0, false)));
}

#[test]
fn finalized_proposal_is_terminal() {
    let mut l = organized(who(1));
    let id = open(&mut l, 1000, 0);
    vote(&mut l, id, 2, VoteChoice::Yes, 1).unwrap();
    assert_eq!(finalize(&mut l, id, 1), Ok((1, true)));
    assert_eq!(finalize(&mut l, id, 1), Err(ErrorCode::ProposalNotActive));
    assert_eq!(finalize(&mut l, id, 3), Err(ErrorCode::ProposalNotActive));
    assert_eq!(vote(&mut l, id, 3, VoteChoice::No, 2), Err(ErrorCode::ProposalNotActive));
    assert_eq!(l.proposal(id).unwrap().status, ProposalStatus::Finalized);
    assert_eq!(l.proposal(id).unwrap().no_votes, 0);
}

#[test]
fn only_authority_finalizes() {
    let mut l = organized(who(1));
    let id = open(&mut l, 1000, 0);
    assert_eq!(finalize(&mut l, id, 2), Err(ErrorCode::Unauthorized));
    assert_eq!(l.proposal(id).unwrap().status, ProposalStatus::Active);
    assert_eq!(finalize(&mut l, id, 1), Ok((0, false)));
}

#[test]
fn creator_is_not_authority() {
    let mut l = organized(who(1));
    let id = open(&mut l, 1000, 0);
    assert_eq!(finalize(&mut l, id, 9), Err(ErrorCode::Unauthorized));
}

#[test]
fn authority_may_finalize_expired_or_unexpired() {
    let mut l = organized(who(1));
    let early = open(&mut l, 1000, 0);
    let late = open(&mut l, -5, 0);
    assert_eq!(finalize(&mut l, early, 1), Ok((0, false)));
    assert_eq!(finalize(&mut l, late, 1), Ok((0, false)));
}

#[test]
fn vote_after_expiry_is_rejected() {
    let mut l = organized(who(1));
    let id = open(&mut l, 3600, 1000);
    assert_eq!(vote(&mut l, id, 2, VoteChoice::Yes, 4601), Err(ErrorCode::ProposalExpired));
    assert_eq!(l.proposal(id).unwrap().status, ProposalStatus::Active);
    assert_eq!(l.ballot_total(), 0);
}

#[test]
fn vote_at_expiry_is_accepted() {
    let mut l = organized(who(1));
    let id = open(&mut l, 3600, 1000);
    vote(&mut l, id, 2, VoteChoice::Yes, 4600).unwrap();
    assert_eq!(l.proposal(id).unwrap().yes_votes, 1);
}

#[test]
fn negative_duration_is_already_expired() {
    let mut l = organized(who(1));
    let id = open(&mut l, -1, 1000);
    assert_eq!(l.proposal(id).unwrap().expires_at, 999);
    assert_eq!(vote(&mut l, id, 2, VoteChoice::Yes, 1000), Err(ErrorCode::ProposalExpired));
}

#[test]
fn expiry_overflow_is_rejected() {
    let mut l = organized(who(1));
    let r = create_proposal_at(
        &mut l,
        &CreateProposal { creator: who(2) },
        "a".to_string(),
        "b".to_string(),
        1,
        i64::MAX,
    );
    assert_eq!(r.unwrap_err(), ErrorCode::ArithmeticOverflow);
    assert_eq!(l.dao().unwrap().proposal_count, 0);
    assert!(l.proposal(0).is_none());
}

#[test]
fn second_initialize_is_rejected() {
    let mut l = organized(who(1));
    let r = initialize(&mut l, &Initialize { authority: who(2) }, "Other".to_string());
    assert_eq!(r.unwrap_err(), ErrorCode::AlreadyInUse);
    let d = l.dao().unwrap();
    assert!(d.authority == who(1));
    assert_eq!(d.dao_name, "TestDAO");
}

#[test]
fn name_length_limit() {
    let mut l = Ledger::new();
    let r = initialize(&mut l, &Initialize { authority: who(1) }, "n".repeat(51));
    assert_eq!(r.unwrap_err(), ErrorCode::NameTooLong);
    assert!(l.dao().is_none());
    initialize(&mut l, &Initialize { authority: who(1) }, "n".repeat(50)).unwrap();
    assert_eq!(l.dao().unwrap().proposal_count, 0);
}

#[test]
fn name_length_counts_bytes() {
    let mut l = Ledger::new();
    let r = initialize(&mut l, &Initialize { authority: who(1) }, "é".repeat(26));
    assert_eq!(r.unwrap_err(), ErrorCode::NameTooLong);
    initialize(&mut l, &Initialize { authority: who(1) }, "é".repeat(25)).unwrap();
}

#[test]
fn title_and_description_limits() {
    let mut l = organized(who(1));
    let ctx = CreateProposal { creator: who(2) };
    let r = create_proposal_at(&mut l, &ctx, "t".repeat(101), String::new(), 1, 0);
    assert_eq!(r.unwrap_err(), ErrorCode::TitleTooLong);
    let r = create_proposal_at(&mut l, &ctx, "t".repeat(100), "d".repeat(501), 1, 0);
    assert_eq!(r.unwrap_err(), ErrorCode::DescriptionTooLong);
    let ev = create_proposal_at(&mut l, &ctx, "t".repeat(100), "d".repeat(500), 1, 0).unwrap();
    assert_eq!(ev.proposal_id, 0);
    assert_eq!(l.proposal(0).unwrap().description.len(), 500);
}

#[test]
fn proposal_needs_organization() {
    let mut l = Ledger::new();
    let r = create_proposal_at(
        &mut l,
        &CreateProposal { creator: who(2) },
        "a".to_string(),
        "b".to_string(),
        1,
        0,
    );
    assert_eq!(r.unwrap_err(), ErrorCode::AccountNotInitialized);
}

#[test]
fn missing_proposal_is_rejected() {
    let mut l = organized(who(1));
    assert_eq!(vote(&mut l, 0, 2, VoteChoice::Yes, 0), Err(ErrorCode::AccountNotInitialized));
    assert_eq!(finalize(&mut l, 0, 1), Err(ErrorCode::AccountNotInitialized));
    let mut empty = Ledger::new();
    assert_eq!(finalize(&mut empty, 0, 1), Err(ErrorCode::AccountNotInitialized));
}

#[test]
fn proposal_records_creator_and_text() {
    let mut l = organized(who(1));
    let ev = create_proposal_at(
        &mut l,
        &CreateProposal { creator: who(4) },
        "Budget".to_string(),
        "Raise the budget".to_string(),
        10,
        50,
    )
    .unwrap();
    assert!(ev.creator == who(4));
    let p = l.proposal(ev.proposal_id).unwrap();
    assert!(p.creator == who(4));
    assert_eq!(p.title, "Budget");
    assert_eq!(p.description, "Raise the budget");
    assert_eq!((p.created_at, p.expires_at), (50, 60));
    assert_eq!((p.yes_votes, p.no_votes, p.abstain_votes), (0, 0, 0));
}

#[test]
fn identities_compare_by_bytes() {
    let mut bytes = [3u8; 32];
    assert!(Identity::new(bytes) == who(3));
    bytes[31] = 4;
    assert!(Identity::new(bytes) != who(3));
}

#[test]
fn clock_is_unavailable_off_chain() {
    let mut l = organized(who(1));
    let r = create_proposal(
        &mut l,
        &CreateProposal { creator: who(2) },
        "a".to_string(),
        "b".to_string(),
        1,
    );
    assert_eq!(r.unwrap_err(), ErrorCode::ClockUnavailable);
    assert_eq!(l.dao().unwrap().proposal_count, 0);
    let id = open(&mut l, 10, 0);
    let r = cast_vote(&mut l, &CastVote { proposal_id: id, voter: who(2) }, VoteChoice::Yes);
    assert_eq!(r.unwrap_err(), ErrorCode::ClockUnavailable);
    assert_eq!(l.ballot_total(), 0);
}

#[test]
fn error_messages() {
    assert_eq!(ErrorCode::NameTooLong.message(), "DAO name must be 50 characters or less");
    assert_eq!(ErrorCode::ProposalNotActive.message(), "Proposal is not active");
    assert_eq!(ErrorCode::Unauthorized.message(), "Unauthorized action");
}

#[test]
fn record_seeds_follow_namespaces() {
    assert_eq!(seeds(&RecordKey::DaoState), vec![b"dao-state".to_vec()]);
    assert_eq!(
        seeds(&RecordKey::Proposal { id: 258 }),
        vec![b"proposal".to_vec(), vec![2, 1, 0, 0, 0, 0, 0, 0]]
    );
    let v = seeds(&RecordKey::Vote { proposal_address: who(7), voter: who(8) });
    assert_eq!(v, vec![b"vote".to_vec(), vec![7u8; 32], vec![8u8; 32]]);
    assert_ne!(seeds(&RecordKey::Proposal { id: 1 }), seeds(&RecordKey::Proposal { id: 2 }));
}

#[test]
fn second_initialize_with_long_name_is_a_duplicate() {
    let mut l = organized(who(1));
    let r = initialize(&mut l, &Initialize { authority: who(2) }, "n".repeat(51));
    assert_eq!(r.unwrap_err(), ErrorCode::AlreadyInUse);
    let d = l.dao().unwrap();
    assert!(d.authority == who(1));
    assert_eq!(d.dao_name, "TestDAO");
    assert_eq!(d.proposal_count, 0);
}

#[test]
fn every_error_has_its_message() {
    assert_eq!(ErrorCode::TitleTooLong.message(), "Proposal title must be 100 characters or less");
    assert_eq!(
        ErrorCode::DescriptionTooLong.message(),
        "Proposal description must be 500 characters or less"
    );
    assert_eq!(ErrorCode::ProposalExpired.message(), "Proposal has expired");
    assert_eq!(ErrorCode::AlreadyInUse.message(), "Account already in use");
    assert_eq!(ErrorCode::AccountNotInitialized.message(), "Account is not initialized");
    assert_eq!(ErrorCode::ArithmeticOverflow.message(), "Arithmetic overflow");
    assert_eq!(ErrorCode::ClockUnavailable.message(), "Clock is unavailable");
}
