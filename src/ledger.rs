use vstd::prelude::*;
use crate::identity::Identity;
use crate::tally::{choice_count, has_ballot, lemma_counts_absent, lemma_counts_push};
use crate::state::{DaoState, Proposal, ProposalStatus, VoteChoice, VoteRecord};

verus! {

/// The records of one organization: the organization itself, at a fixed
/// address; its proposals, addressed by id; and its ballots, addressed by
/// (proposal id, voter). An address holds at most one record and no record is
/// ever removed.
pub struct Ledger {
    dao: Option<DaoState>,
    proposals: Vec<Proposal>,
    ballots: Vec<VoteRecord>,
}

/// What each stored proposal satisfies: it sits at the index of its id, its
/// total fits a counter, and each of its counts is its number of ballots with
/// that choice.
pub open spec fn proposal_matches(p: Proposal, i: int, ballots: Seq<VoteRecord>) -> bool {
    &&& p.id == i
    &&& p.total() <= u64::MAX
    &&& p.yes_votes == choice_count(ballots, i as u64, VoteChoice::Yes)
    &&& p.no_votes == choice_count(ballots, i as u64, VoteChoice::No)
    &&& p.abstain_votes == choice_count(ballots, i as u64, VoteChoice::Abstain)
}

impl Ledger {
    /// The organization record, once created.
    pub closed spec fn dao_spec(&self) -> Option<DaoState> {
        self.dao
    }

    /// The proposal records; the one with id `i` stands at index `i`.
    pub closed spec fn proposals_spec(&self) -> Seq<Proposal> {
        self.proposals@
    }

    /// The ballots, in the order they were cast.
    pub closed spec fn ballots_spec(&self) -> Seq<VoteRecord> {
        self.ballots@
    }

    /// The ledger's invariant.
    pub open spec fn wf(&self) -> bool {
        let ps = self.proposals_spec();
        let bs = self.ballots_spec();
        &&& match self.dao_spec() {
            None => ps.len() == 0,
            Some(d) => {
                &&& ps.len() == d.proposal_count
                &&& crate::state::text_len(d.dao_name@) <= crate::state::MAX_NAME_LEN
            },
        }
        &&& forall|i: int| #![trigger ps[i]] 0 <= i < ps.len() ==> proposal_matches(ps[i], i, bs)
        &&& forall|k: int| 0 <= k < bs.len() ==> #[trigger] bs[k].proposal_id < ps.len()
        &&& forall|j: int, k: int|
            0 <= j < k < bs.len() && #[trigger] bs[j].proposal_id == #[trigger] bs[k].proposal_id
                ==> !bs[j].voter.same(bs[k].voter)
    }

    /// A ledger with no records.
    pub fn new() -> (r: Ledger)
        ensures
            r.dao_spec() is None,
            r.proposals_spec() == Seq::<Proposal>::empty(),
            r.ballots_spec() == Seq::<VoteRecord>::empty(),
            r.wf(),
    {
        Ledger { dao: None, proposals: Vec::new(), ballots: Vec::new() }
    }

    /// The organization record, if it has been created.
    pub fn dao(&self) -> (r: Option<&DaoState>)
        ensures
            r == match self.dao_spec() {
                Some(d) => Some(&d),
                None => None::<&DaoState>,
            },
    {
        match &self.dao {
            Some(d) => Some(d),
            None => None,
        }
    }

    /// The proposal with id `id`, if there is one.
    pub fn proposal(&self, id: u64) -> (r: Option<&Proposal>)
        ensures
            (id < self.proposals_spec().len()) == (r is Some),
            id < self.proposals_spec().len() ==> r == Some(&self.proposals_spec()[id as int]),
    {
        if id < self.proposals.len() as u64 {
            Some(&self.proposals[id as usize])
        } else {
            None
        }
    }

    /// Number of ballots recorded, on all proposals.
    pub fn ballot_total(&self) -> (r: usize)
        ensures
            r == self.ballots_spec().len(),
    {
        self.ballots.len()
    }

    /// The ballot of `voter` on proposal `proposal_id`, if one was cast.
    pub fn vote_record(&self, proposal_id: u64, voter: &Identity) -> (r: Option<&VoteRecord>)
        ensures
            (r is Some) == has_ballot(self.ballots_spec(), proposal_id, *voter),
            r matches Some(b) ==> b.proposal_id == proposal_id && b.voter.same(*voter)
                && self.ballots_spec().contains(*b),
    {
        let mut k: usize = 0;
        while k < self.ballots.len()
            invariant
                0 <= k <= self.ballots@.len(),
                forall|j: int|
                    0 <= j < k ==> !(#[trigger] self.ballots@[j].proposal_id == proposal_id
                        && self.ballots@[j].voter.same(*voter)),
            decreases self.ballots@.len() - k,
        {
            let b = &self.ballots[k];
            if b.proposal_id == proposal_id && b.voter == *voter {
                proof {
                    assert(self.ballots@[k as int] == *b);
                }
                return Some(b);
            }
            k = k + 1;
        }
        None
    }

    /// Stores the organization record.
    pub(crate) fn store_dao(&mut self, d: DaoState)
        ensures
            final(self).dao_spec() == Some(d),
            final(self).proposals_spec() == old(self).proposals_spec(),
            final(self).ballots_spec() == old(self).ballots_spec(),
    {
        self.dao = Some(d);
    }

    /// Sets the organization's proposal counter, when the record exists.
    pub(crate) fn set_proposal_count(&mut self, count: u64)
        requires
            old(self).dao_spec() is Some,
        ensures
            final(self).dao_spec() == Some(
                DaoState { proposal_count: count, ..old(self).dao_spec()->Some_0 },
            ),
            final(self).proposals_spec() == old(self).proposals_spec(),
            final(self).ballots_spec() == old(self).ballots_spec(),
    {
        match &mut self.dao {
            Some(d) => {
                d.proposal_count = count;
            },
            None => {},
        }
    }

    /// Appends a proposal record.
    pub(crate) fn push_proposal(&mut self, p: Proposal)
        ensures
            final(self).dao_spec() == old(self).dao_spec(),
            final(self).proposals_spec() == old(self).proposals_spec().push(p),
            final(self).ballots_spec() == old(self).ballots_spec(),
    {
        self.proposals.push(p);
    }

    /// Counts one more vote for `choice` on proposal `id`.
    pub(crate) fn tally_vote(&mut self, id: u64, choice: VoteChoice)
        requires
            id < old(self).proposals_spec().len(),
            old(self).proposals_spec()[id as int].total() < u64::MAX,
        ensures
            final(self).dao_spec() == old(self).dao_spec(),
            final(self).proposals_spec() == old(self).proposals_spec().update(
                id as int,
                old(self).proposals_spec()[id as int].tallied(choice),
            ),
            final(self).ballots_spec() == old(self).ballots_spec(),
    {
        let n = self.proposals.len();
        assert(id < n);
        let p = &mut self.proposals[id as usize];
        match choice {
            VoteChoice::Yes => p.yes_votes = p.yes_votes + 1,
            VoteChoice::No => p.no_votes = p.no_votes + 1,
            VoteChoice::Abstain => p.abstain_votes = p.abstain_votes + 1,
        }
    }

    /// Moves proposal `id` to `status`.
    pub(crate) fn set_status(&mut self, id: u64, status: ProposalStatus)
        requires
            id < old(self).proposals_spec().len(),
        ensures
            final(self).dao_spec() == old(self).dao_spec(),
            final(self).proposals_spec() == old(self).proposals_spec().update(
                id as int,
                Proposal { status, ..old(self).proposals_spec()[id as int] },
            ),
            final(self).ballots_spec() == old(self).ballots_spec(),
    {
        let n = self.proposals.len();
        assert(id < n);
        let p = &mut self.proposals[id as usize];
        p.status = status;
    }

    /// Appends a ballot.
    pub(crate) fn push_ballot(&mut self, b: VoteRecord)
        ensures
            final(self).dao_spec() == old(self).dao_spec(),
            final(self).proposals_spec() == old(self).proposals_spec(),
            final(self).ballots_spec() == old(self).ballots_spec().push(b),
    {
        self.ballots.push(b);
    }
}

/// Changing a proposal's status keeps the invariant.
pub proof fn lemma_status_change_keeps_wf(pre: Ledger, post: Ledger, id: int, status: ProposalStatus)
    requires
        pre.wf(),
        0 <= id < pre.proposals_spec().len(),
        post.dao_spec() == pre.dao_spec(),
        post.proposals_spec() == pre.proposals_spec().update(
            id,
            Proposal { status, ..pre.proposals_spec()[id] },
        ),
        post.ballots_spec() == pre.ballots_spec(),
    ensures
        post.wf(),
{
    let ps = post.proposals_spec();
    assert forall|i: int| #![trigger ps[i]] 0 <= i < ps.len() implies proposal_matches(
        ps[i],
        i,
        post.ballots_spec(),
    ) by {
        assert(proposal_matches(pre.proposals_spec()[i], i, pre.ballots_spec()));
    }
}

/// Storing a fresh proposal without votes under the organization's counter,
/// and moving the counter on by one, keeps the invariant.
pub proof fn lemma_new_proposal_keeps_wf(pre: Ledger, post: Ledger, p: Proposal)
    requires
        pre.wf(),
        pre.dao_spec() is Some,
        p.id == pre.dao_spec()->Some_0.proposal_count,
        p.id < u64::MAX,
        p.yes_votes == 0 && p.no_votes == 0 && p.abstain_votes == 0,
        post.dao_spec() == Some(
            DaoState { proposal_count: (p.id + 1) as u64, ..pre.dao_spec()->Some_0 },
        ),
        post.proposals_spec() == pre.proposals_spec().push(p),
        post.ballots_spec() == pre.ballots_spec(),
    ensures
        post.wf(),
{
    let ps = post.proposals_spec();
    let bs = post.ballots_spec();
    lemma_counts_absent(bs, p.id, VoteChoice::Yes);
    lemma_counts_absent(bs, p.id, VoteChoice::No);
    lemma_counts_absent(bs, p.id, VoteChoice::Abstain);
    assert forall|i: int| #![trigger ps[i]] 0 <= i < ps.len() implies proposal_matches(
        ps[i],
        i,
        bs,
    ) by {
        if i < pre.proposals_spec().len() {
            assert(ps[i] == pre.proposals_spec()[i]);
        }
    }
    assert forall|k: int| 0 <= k < bs.len() implies #[trigger] bs[k].proposal_id < ps.len() by {
        assert(bs[k].proposal_id < pre.proposals_spec().len());
    }
}

/// Recording a new ballot on an existing proposal, together with one more
/// vote in that proposal's count for the ballot's choice, keeps the invariant.
pub proof fn lemma_vote_keeps_wf(pre: Ledger, post: Ledger, b: VoteRecord)
    requires
        pre.wf(),
        b.proposal_id < pre.proposals_spec().len(),
        pre.proposals_spec()[b.proposal_id as int].total() < u64::MAX,
        !has_ballot(pre.ballots_spec(), b.proposal_id, b.voter),
        post.dao_spec() == pre.dao_spec(),
        post.proposals_spec() == pre.proposals_spec().update(
            b.proposal_id as int,
            pre.proposals_spec()[b.proposal_id as int].tallied(b.choice),
        ),
        post.ballots_spec() == pre.ballots_spec().push(b),
    ensures
        post.wf(),
{
    let ps = post.proposals_spec();
    let bs = post.ballots_spec();
    let pbs = pre.ballots_spec();
    assert forall|i: int| #![trigger ps[i]] 0 <= i < ps.len() implies proposal_matches(
        ps[i],
        i,
        bs,
    ) by {
        assert(proposal_matches(pre.proposals_spec()[i], i, pbs));
        lemma_counts_push(pbs, b, i as u64, VoteChoice::Yes);
        lemma_counts_push(pbs, b, i as u64, VoteChoice::No);
        lemma_counts_push(pbs, b, i as u64, VoteChoice::Abstain);
    }
    assert forall|k: int| 0 <= k < bs.len() implies #[trigger] bs[k].proposal_id < ps.len() by {
        if k < pbs.len() {
            assert(bs[k] == pbs[k]);
        }
    }
    assert forall|j: int, k: int|
        0 <= j < k < bs.len() && #[trigger] bs[j].proposal_id == #[trigger] bs[k].proposal_id
            implies !bs[j].voter.same(bs[k].voter) by {
        assert(bs[j] == pbs[j]);
        if k < pbs.len() {
            assert(bs[k] == pbs[k]);
        } else {
            assert(pbs[j].proposal_id == b.proposal_id);
        }
    }
}

} // verus!
