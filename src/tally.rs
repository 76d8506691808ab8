use vstd::prelude::*;
use crate::identity::Identity;
use crate::state::{VoteChoice, VoteRecord};

verus! {

/// Ballots in `ballots` on proposal `proposal_id` that chose `choice`.
pub open spec fn choice_count(ballots: Seq<VoteRecord>, proposal_id: u64, choice: VoteChoice) -> nat
    decreases ballots.len(),
{
    if ballots.len() == 0 {
        0
    } else {
        let b = ballots.last();
        choice_count(ballots.drop_last(), proposal_id, choice) + if b.proposal_id == proposal_id
            && b.choice == choice {
            1nat
        } else {
            0nat
        }
    }
}

/// Ballots in `ballots` on proposal `proposal_id`.
pub open spec fn ballot_count(ballots: Seq<VoteRecord>, proposal_id: u64) -> nat
    decreases ballots.len(),
{
    if ballots.len() == 0 {
        0
    } else {
        ballot_count(ballots.drop_last(), proposal_id) + if ballots.last().proposal_id
            == proposal_id {
            1nat
        } else {
            0nat
        }
    }
}

/// Whether `ballots` holds a ballot of `voter` on proposal `proposal_id`.
pub open spec fn has_ballot(ballots: Seq<VoteRecord>, proposal_id: u64, voter: Identity) -> bool {
    exists|k: int|
        0 <= k < ballots.len() && #[trigger] ballots[k].proposal_id == proposal_id
            && ballots[k].voter.same(voter)
}

/// One more ballot adds one to its own proposal's count for its own choice,
/// and nothing to any other count.
pub proof fn lemma_counts_push(ballots: Seq<VoteRecord>, b: VoteRecord, proposal_id: u64, choice: VoteChoice)
    ensures
        choice_count(ballots.push(b), proposal_id, choice) == choice_count(ballots, proposal_id, choice)
            + if b.proposal_id == proposal_id && b.choice == choice {
            1nat
        } else {
            0nat
        },
        ballot_count(ballots.push(b), proposal_id) == ballot_count(ballots, proposal_id)
            + if b.proposal_id == proposal_id {
            1nat
        } else {
            0nat
        },
{
    assert(ballots.push(b).drop_last() =~= ballots);
}

/// A proposal that no ballot names has no votes of any kind.
pub proof fn lemma_counts_absent(ballots: Seq<VoteRecord>, proposal_id: u64, choice: VoteChoice)
    requires
        forall|k: int| 0 <= k < ballots.len() ==> #[trigger] ballots[k].proposal_id != proposal_id,
    ensures
        choice_count(ballots, proposal_id, choice) == 0,
        ballot_count(ballots, proposal_id) == 0,
    decreases ballots.len(),
{
    if ballots.len() > 0 {
        let rest = ballots.drop_last();
        assert forall|k: int| 0 <= k < rest.len() implies #[trigger] rest[k].proposal_id
            != proposal_id by {
            assert(rest[k] == ballots[k]);
        }
        lemma_counts_absent(rest, proposal_id, choice);
    }
}

/// Every ballot on a proposal chose one of the three options.
pub proof fn lemma_counts_sum(ballots: Seq<VoteRecord>, proposal_id: u64)
    ensures
        ballot_count(ballots, proposal_id) == choice_count(ballots, proposal_id, VoteChoice::Yes)
            + choice_count(ballots, proposal_id, VoteChoice::No) + choice_count(
            ballots,
            proposal_id,
            VoteChoice::Abstain,
        ),
    decreases ballots.len(),
{
    if ballots.len() > 0 {
        lemma_counts_sum(ballots.drop_last(), proposal_id);
    }
}

} // verus!
