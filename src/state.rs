use vstd::prelude::*;
use crate::identity::Identity;

verus! {

/// Longest organization name, in bytes of UTF-8.
pub const MAX_NAME_LEN: usize = 50;

/// Longest proposal title, in bytes of UTF-8.
pub const MAX_TITLE_LEN: usize = 100;

/// Longest proposal description, in bytes of UTF-8.
pub const MAX_DESCRIPTION_LEN: usize = 500;

/// Length of a text in bytes, as it is stored.
pub open spec fn text_len(s: Seq<char>) -> nat {
    vstd::utf8::encode_utf8(s).len()
}

/// A text takes between one and four bytes per character.
pub proof fn lemma_text_len_bounds(s: Seq<char>)
    ensures
        s.len() <= text_len(s) <= 4 * s.len(),
    decreases s.len(),
{
    if s.len() > 0 {
        lemma_text_len_bounds(s.drop_first());
        let e = vstd::utf8::encode_scalar(s[0] as u32);
        assert(1 <= e.len() <= 4);
    }
}

/// Where a proposal stands in its lifecycle: `Active` until the authority
/// finalizes it, then `Finalized` for good.
#[derive(Clone, Copy, Debug, PartialEq, Eq, Structural)]
pub enum ProposalStatus {
    Active,
    Finalized,
}

/// What a ballot says.
#[derive(Clone, Copy, Debug, PartialEq, Eq, Structural)]
pub enum VoteChoice {
    Yes,
    No,
    Abstain,
}

/// The organization record: one per ledger.
#[derive(Clone, Debug)]
pub struct DaoState {
    pub authority: Identity,
    pub dao_name: String,
    pub proposal_count: u64,
}

/// A proposal record, addressed by its id.
#[derive(Clone, Debug)]
pub struct Proposal {
    pub id: u64,
    pub creator: Identity,
    pub title: String,
    pub description: String,
    pub yes_votes: u64,
    pub no_votes: u64,
    pub abstain_votes: u64,
    pub status: ProposalStatus,
    pub created_at: i64,
    pub expires_at: i64,
}

/// A ballot: one voter's vote on one proposal, addressed by that pair.
#[derive(Clone, Copy, Debug)]
pub struct VoteRecord {
    pub voter: Identity,
    pub proposal_id: u64,
    pub choice: VoteChoice,
    pub timestamp: i64,
}

impl Proposal {
    /// All votes cast on the proposal.
    pub open spec fn total(self) -> int {
        self.yes_votes + self.no_votes + self.abstain_votes
    }

    /// The tally after one more vote for `choice`.
    pub open spec fn tallied(self, choice: VoteChoice) -> Proposal {
        match choice {
            VoteChoice::Yes => Proposal { yes_votes: (self.yes_votes + 1) as u64, ..self },
            VoteChoice::No => Proposal { no_votes: (self.no_votes + 1) as u64, ..self },
            VoteChoice::Abstain => Proposal {
                abstain_votes: (self.abstain_votes + 1) as u64,
                ..self
            },
        }
    }

    /// Whether the proposal passes: strictly more yes than no votes.
    pub open spec fn passes(self) -> bool {
        self.yes_votes > self.no_votes
    }
}

/// Accounts of the instruction that creates the organization.
#[derive(Clone, Copy, Debug)]
pub struct Initialize {
    /// The signer, who becomes the organization's authority.
    pub authority: Identity,
}

/// Accounts of the instruction that opens a proposal.
#[derive(Clone, Copy, Debug)]
pub struct CreateProposal {
    /// The signer, recorded as the proposal's creator.
    pub creator: Identity,
}

/// Accounts of the instruction that casts a vote.
#[derive(Clone, Copy, Debug)]
pub struct CastVote {
    /// The proposal voted on.
    pub proposal_id: u64,
    /// The signer, whose ballot this is.
    pub voter: Identity,
}

/// Accounts of the instruction that closes a proposal.
#[derive(Clone, Copy, Debug)]
pub struct FinalizeProposal {
    /// The proposal to close.
    pub proposal_id: u64,
    /// The signer, who must be the organization's authority.
    pub authority: Identity,
}

/// Announced when the organization is created.
#[derive(Clone, Debug)]
pub struct DaoInitialized {
    pub authority: Identity,
    pub dao_name: String,
}

/// Announced when a proposal is opened.
#[derive(Clone, Debug)]
pub struct ProposalCreated {
    pub proposal_id: u64,
    pub creator: Identity,
    pub title: String,
    pub created_at: i64,
}

/// Announced when a ballot is recorded.
#[derive(Clone, Copy, Debug)]
pub struct VoteCast {
    pub proposal_id: u64,
    pub voter: Identity,
    pub choice: VoteChoice,
    pub timestamp: i64,
}

/// Announced when a proposal is closed, with its outcome.
#[derive(Clone, Copy, Debug)]
pub struct ProposalFinalized {
    pub proposal_id: u64,
    pub status: ProposalStatus,
    pub total_votes: u64,
    pub passed: bool,
}

/// Why an instruction was rejected. A rejected instruction changes nothing.
#[derive(Clone, Copy, Debug, PartialEq, Eq, Structural)]
pub enum ErrorCode {
    /// The organization name is longer than allowed.
    NameTooLong,
    /// The proposal title is longer than allowed.
    TitleTooLong,
    /// The proposal description is longer than allowed.
    DescriptionTooLong,
    /// The proposal is no longer open.
    ProposalNotActive,
    /// The proposal's voting window has closed.
    ProposalExpired,
    /// The signer is not the organization's authority.
    Unauthorized,
    /// A record already exists at the address being created.
    AlreadyInUse,
    /// No record exists at the address being loaded.
    AccountNotInitialized,
    /// A counter or a timestamp would leave its range.
    ArithmeticOverflow,
    /// The current time could not be read.
    ClockUnavailable,
}

impl ErrorCode {
    /// The message of each error.
    pub open spec fn spec_message(self) -> Seq<char> {
        match self {
            ErrorCode::NameTooLong => "DAO name must be 50 characters or less"@,
            ErrorCode::TitleTooLong => "Proposal title must be 100 characters or less"@,
            ErrorCode::DescriptionTooLong => "Proposal description must be 500 characters or less"@,
            ErrorCode::ProposalNotActive => "Proposal is not active"@,
            ErrorCode::ProposalExpired => "Proposal has expired"@,
            ErrorCode::Unauthorized => "Unauthorized action"@,
            ErrorCode::AlreadyInUse => "Account already in use"@,
            ErrorCode::AccountNotInitialized => "Account is not initialized"@,
            ErrorCode::ArithmeticOverflow => "Arithmetic overflow"@,
            ErrorCode::ClockUnavailable => "Clock is unavailable"@,
        }
    }

    /// The message shown to the caller.
    pub fn message(&self) -> (r: &'static str)
        ensures
            r@ == self.spec_message(),
    {
        proof {
            reveal_strlit("DAO name must be 50 characters or less");
            reveal_strlit("Proposal title must be 100 characters or less");
            reveal_strlit("Proposal description must be 500 characters or less");
            reveal_strlit("Proposal is not active");
            reveal_strlit("Proposal has expired");
            reveal_strlit("Unauthorized action");
            reveal_strlit("Account already in use");
            reveal_strlit("Account is not initialized");
            reveal_strlit("Arithmetic overflow");
            reveal_strlit("Clock is unavailable");
        }
        match self {
            ErrorCode::NameTooLong => "DAO name must be 50 characters or less",
            ErrorCode::TitleTooLong => "Proposal title must be 100 characters or less",
            ErrorCode::DescriptionTooLong => "Proposal description must be 500 characters or less",
            ErrorCode::ProposalNotActive => "Proposal is not active",
            ErrorCode::ProposalExpired => "Proposal has expired",
            ErrorCode::Unauthorized => "Unauthorized action",
            ErrorCode::AlreadyInUse => "Account already in use",
            ErrorCode::AccountNotInitialized => "Account is not initialized",
            ErrorCode::ArithmeticOverflow => "Arithmetic overflow",
            ErrorCode::ClockUnavailable => "Clock is unavailable",
        }
    }
}

} // verus!
