//! In-memory views of governance proposals and votes.

use vstd::prelude::*;

use crate::id::Id;
use crate::orm::GovernanceProposalKindDb;
use crate::orm::GovernanceProposalResultDb;
use crate::orm::GovernanceVoteKindDb;

verus! {

#[derive(Clone, Copy, Debug, PartialEq, Eq, Structural)]
pub enum ProposalResult {
    Passed,
    Rejected,
    Pending,
    Unknown,
    VotingPeriod,
}

impl ProposalResult {
    pub fn from(value: &GovernanceProposalResultDb) -> (r: Self)
        ensures
            r == match value {
                GovernanceProposalResultDb::Passed => ProposalResult::Passed,
                GovernanceProposalResultDb::Rejected => ProposalResult::Rejected,
                GovernanceProposalResultDb::Pending => ProposalResult::Pending,
                GovernanceProposalResultDb::Unknown => ProposalResult::Unknown,
                GovernanceProposalResultDb::VotingPeriod => ProposalResult::VotingPeriod,
            },
    {
        match value {
            GovernanceProposalResultDb::Passed => ProposalResult::Passed,
            GovernanceProposalResultDb::Rejected => ProposalResult::Rejected,
            GovernanceProposalResultDb::Pending => ProposalResult::Pending,
            GovernanceProposalResultDb::Unknown => ProposalResult::Unknown,
            GovernanceProposalResultDb::VotingPeriod => ProposalResult::VotingPeriod,
        }
    }
}

#[derive(Clone, Copy, Debug, PartialEq, Eq, Structural)]
pub enum ProposalKind {
    PgfSteward,
    PgfFunding,
    Default,
    DefaultWithWasm,
}

impl ProposalKind {
    pub fn from(value: &GovernanceProposalKindDb) -> (r: Self)
        ensures
            r == match value {
                GovernanceProposalKindDb::PgfSteward => ProposalKind::PgfSteward,
                GovernanceProposalKindDb::PgfFunding => ProposalKind::PgfFunding,
                GovernanceProposalKindDb::Default => ProposalKind::Default,
                GovernanceProposalKindDb::DefaultWithWasm => ProposalKind::DefaultWithWasm,
            },
    {
        match value {
            GovernanceProposalKindDb::PgfSteward => ProposalKind::PgfSteward,
            GovernanceProposalKindDb::PgfFunding => ProposalKind::PgfFunding,
            GovernanceProposalKindDb::Default => ProposalKind::Default,
            GovernanceProposalKindDb::DefaultWithWasm => ProposalKind::DefaultWithWasm,
        }
    }
}

#[derive(Clone, Copy, Debug, PartialEq, Eq, Structural)]
pub enum ProposalVoteKind {
    Nay,
    Yay,
    Abstain,
}

impl ProposalVoteKind {
    pub fn from(value: &GovernanceVoteKindDb) -> (r: Self)
        ensures
            r == match value {
                GovernanceVoteKindDb::Nay => ProposalVoteKind::Nay,
                GovernanceVoteKindDb::Yay => ProposalVoteKind::Yay,
                GovernanceVoteKindDb::Abstain => ProposalVoteKind::Abstain,
            },
    {
        match value {
            GovernanceVoteKindDb::Nay => ProposalVoteKind::Nay,
            GovernanceVoteKindDb::Yay => ProposalVoteKind::Yay,
            GovernanceVoteKindDb::Abstain => ProposalVoteKind::Abstain,
        }
    }
}

#[derive(Clone, Debug)]
pub struct Proposal {
    pub id: u64,
    pub content: Option<String>,
    pub kind: ProposalKind,
    pub author: Id,
    pub start_epoch: u32,
    pub end_epoch: u32,
    pub grace_epoch: u32,
    pub result: ProposalResult,
    pub yay_votes: String,
    pub nay_votes: String,
    pub abstain_votes: String,
}

#[derive(Clone, Debug)]
pub struct ProposalVote {
    pub id: u64,
    pub kind: ProposalVoteKind,
    pub proposal_id: u64,
    pub voter_address: Id,
    pub player_id: Id,
}

} // verus!
