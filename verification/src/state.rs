//! Data model: the global DAO record, proposal records, events and errors.

use vstd::prelude::*;

verus! {

/// An opaque account identity (a 256-bit key), held as four 64-bit words so
/// that equality is plain field equality.
#[derive(Clone, Copy, PartialEq, Eq, Structural, Debug)]
pub struct Identity {
    pub w0: u64,
    pub w1: u64,
    pub w2: u64,
    pub w3: u64,
}

/// Lifecycle state of a proposal: starts `Pending` and transitions exactly
/// once, at finalization, to one of the terminal outcomes.
#[derive(Clone, Copy, PartialEq, Eq, Structural, Debug)]
pub enum Outcome {
    Pending,
    Approved,
    Rejected,
}

/// Every way an operation can reject. Each rejected precondition surfaces its
/// own variant, and a rejected call never commits a partial state change.
#[derive(Clone, Copy, PartialEq, Eq, Structural, Debug)]
pub enum DaoError {
    /// The registry was given a non-positive voting window.
    InvalidConfiguration,
    /// A proposal title must be longer than two characters.
    InvalidTitle,
    /// The proposal id did not match, or the proposal is already decided.
    ProposalNotActive,
    /// The voting deadline has passed.
    VotingClosed,
    /// The voter holds no governance tokens.
    NoVotingPower,
    /// The proposal outcome was already written.
    AlreadyFinalized,
    /// Only the registry authority may finalize.
    Unauthorized,
    /// A counter increment, deadline computation or tally addition would
    /// overflow; the whole call is rejected.
    Overflow,
}

/// Global parameters of one DAO instance, plus the counter that is the sole
/// source of proposal ids.
#[derive(Clone, Copy, PartialEq, Eq, Structural, Debug)]
pub struct DaoState {
    /// The identity authorized to finalize proposals.
    pub authority: Identity,
    /// The token whose balances confer voting power.
    pub governance_mint: Identity,
    /// Policy value: minimum balance expected of a proposer (stored, not
    /// enforced by the creation path).
    pub min_tokens_to_propose: u64,
    /// Monotonic counter; a new proposal takes `proposal_count + 1`.
    pub proposal_count: u64,
    /// Seconds added to a proposal's creation time to fix its deadline.
    pub max_voting_duration: i64,
}

/// One proposal record.
#[derive(Debug)]
pub struct Proposal {
    pub proposal_id: u64,
    /// The registry this proposal belongs to.
    pub dao_state: Identity,
    pub proposer: Identity,
    pub title: String,
    pub description: String,
    pub created_at: i64,
    pub voting_deadline: i64,
    pub votes_for: u64,
    pub votes_against: u64,
    pub final_outcome: Outcome,
}

/// Mathematical model of a `Proposal`: the same fields with the free text
/// abstracted to character sequences.
#[verifier::ext_equal]
pub ghost struct ProposalView {
    pub proposal_id: u64,
    pub dao_state: Identity,
    pub proposer: Identity,
    pub title: Seq<char>,
    pub description: Seq<char>,
    pub created_at: i64,
    pub voting_deadline: i64,
    pub votes_for: u64,
    pub votes_against: u64,
    pub final_outcome: Outcome,
}

impl View for Proposal {
    type V = ProposalView;

    open spec fn view(&self) -> ProposalView {
        ProposalView {
            proposal_id: self.proposal_id,
            dao_state: self.dao_state,
            proposer: self.proposer,
            title: self.title@,
            description: self.description@,
            created_at: self.created_at,
            voting_deadline: self.voting_deadline,
            votes_for: self.votes_for,
            votes_against: self.votes_against,
            final_outcome: self.final_outcome,
        }
    }
}

/// Observation emitted on a successful proposal creation.
#[derive(Debug)]
pub struct ProposalCreated {
    pub proposal_id: u64,
    pub proposer: Identity,
    pub title: String,
    pub created_at: i64,
}

/// Observation emitted on a successful vote.
#[derive(Clone, Copy, PartialEq, Eq, Structural, Debug)]
pub struct VoteCast {
    pub proposal_id: u64,
    pub voter: Identity,
    pub vote_in_favor: bool,
    pub voting_power: u64,
}

/// Observation emitted on a successful finalization.
#[derive(Clone, Copy, PartialEq, Eq, Structural, Debug)]
pub struct ProposalFinalized {
    pub proposal_id: u64,
    pub final_outcome: Outcome,
}

} // verus!
