//! The four governance operations, each given as a spec-level transition
//! function and an executable function proved equivalent to it.

use vstd::prelude::*;

use crate::state::DaoError;
use crate::state::DaoState;
use crate::state::Identity;
use crate::state::Outcome;
use crate::state::Proposal;
use crate::state::ProposalCreated;
use crate::state::ProposalFinalized;
use crate::state::ProposalView;
use crate::state::VoteCast;
use vstd::string::StrSliceExecFns;

verus! {

/// What `initialize` returns: the fresh registry, or `InvalidConfiguration`
/// when the voting window is not positive.
pub open spec fn initialize_spec(
    authority: Identity,
    governance_mint: Identity,
    min_tokens: u64,
    max_voting_duration: i64,
) -> Result<DaoState, DaoError> {
    if max_voting_duration <= 0 {
        Err(DaoError::InvalidConfiguration)
    } else {
        Ok(
            DaoState {
                authority,
                governance_mint,
                min_tokens_to_propose: min_tokens,
                proposal_count: 0,
                max_voting_duration,
            },
        )
    }
}

/// Creates the singleton registry with its proposal counter at zero.
pub fn initialize(
    authority: Identity,
    governance_mint: Identity,
    min_tokens: u64,
    max_voting_duration: i64,
) -> (result: Result<DaoState, DaoError>)
    ensures
        result == initialize_spec(authority, governance_mint, min_tokens, max_voting_duration),
{
    if max_voting_duration <= 0 {
        return Err(DaoError::InvalidConfiguration);
    }
    Ok(
        DaoState {
            authority,
            governance_mint,
            min_tokens_to_propose: min_tokens,
            proposal_count: 0,
            max_voting_duration,
        },
    )
}

/// A proposal title is acceptable when it is longer than two characters.
pub open spec fn title_valid(title: Seq<char>) -> bool {
    title.len() > 2
}

/// What one `create_proposal` call does to the registry, and the proposal it
/// writes: checked in order, the title must be valid (`InvalidTitle`), the
/// counter increment and the deadline sum must fit their types (`Overflow`);
/// then the counter advances by one, and the new proposal takes its value as
/// id, the caller's timestamp as `created_at`, the deadline
/// `created_at + max_voting_duration`, zero tallies and a `Pending` outcome.
/// On every error the registry is unchanged.
pub open spec fn create_proposal_spec(
    registry: DaoState,
    dao_key: Identity,
    proposer: Identity,
    title: Seq<char>,
    description: Seq<char>,
    now: i64,
) -> Result<(DaoState, ProposalView), DaoError> {
    if !title_valid(title) {
        Err(DaoError::InvalidTitle)
    } else if registry.proposal_count == u64::MAX {
        Err(DaoError::Overflow)
    } else if now + registry.max_voting_duration > i64::MAX || now + registry.max_voting_duration
        < i64::MIN {
        Err(DaoError::Overflow)
    } else {
        let id = (registry.proposal_count + 1) as u64;
        Ok(
            (
                DaoState { proposal_count: id, ..registry },
                ProposalView {
                    proposal_id: id,
                    dao_state: dao_key,
                    proposer,
                    title,
                    description,
                    created_at: now,
                    voting_deadline: (now + registry.max_voting_duration) as i64,
                    votes_for: 0,
                    votes_against: 0,
                    final_outcome: Outcome::Pending,
                },
            ),
        )
    }
}

/// Creates a proposal under `dao_state`, assigning the next id from the
/// registry's counter, and returns the new record together with the
/// `ProposalCreated` observation for external indexers. `dao_key` is the
/// registry's own identity, recorded as the proposal's back-reference;
/// `now` is the host clock reading for this call.
pub fn create_proposal(
    dao_state: &mut DaoState,
    dao_key: Identity,
    proposer: Identity,
    title: String,
    description: String,
    now: i64,
) -> (result: Result<(Proposal, ProposalCreated), DaoError>)
    ensures
        match create_proposal_spec(*old(dao_state), dao_key, proposer, title@, description@, now) {
            Ok(step) => {
                &&& *final(dao_state) == step.0
                &&& result matches Ok(out) && ({
                    &&& out.0@ == step.1
                    &&& out.1.proposal_id == step.1.proposal_id
                    &&& out.1.proposer == proposer
                    &&& out.1.title@ == title@
                    &&& out.1.created_at == now
                })
            },
            Err(e) => {
                &&& result matches Err(actual) && actual == e
                &&& *final(dao_state) == *old(dao_state)
            },
        },
{
    if title.as_str().unicode_len() <= 2 {
        return Err(DaoError::InvalidTitle);
    }
    let voting_deadline = match now.checked_add(dao_state.max_voting_duration) {
        Some(deadline) => deadline,
        None => {
            return Err(DaoError::Overflow);
        },
    };
    let proposal_id = match dao_state.next_proposal_id() {
        Ok(id) => id,
        Err(e) => {
            return Err(e);
        },
    };
    let observation = ProposalCreated {
        proposal_id,
        proposer,
        title: title.clone(),
        created_at: now,
    };
    let proposal = Proposal {
        proposal_id,
        dao_state: dao_key,
        proposer,
        title,
        description,
        created_at: now,
        voting_deadline,
        votes_for: 0,
        votes_against: 0,
        final_outcome: Outcome::Pending,
    };
    Ok((proposal, observation))
}

/// What one `cast_vote` call does to a proposal: checked in order, the id
/// must match a still-`Pending` proposal (`ProposalNotActive`), the clock
/// must be strictly before the deadline (`VotingClosed`), the voter's balance
/// must be positive (`NoVotingPower`), and the tally addition must fit a
/// `u64` (`Overflow`); then the balance is added, whole, to the chosen
/// counter. On every error the proposal is unchanged.
pub open spec fn cast_vote_spec(
    proposal: ProposalView,
    proposal_id: u64,
    voter_balance: u64,
    vote_in_favor: bool,
    now: i64,
) -> Result<ProposalView, DaoError> {
    if !(proposal_id == proposal.proposal_id && proposal.final_outcome is Pending) {
        Err(DaoError::ProposalNotActive)
    } else if now >= proposal.voting_deadline {
        Err(DaoError::VotingClosed)
    } else if voter_balance == 0 {
        Err(DaoError::NoVotingPower)
    } else if vote_in_favor && proposal.votes_for + voter_balance > u64::MAX {
        Err(DaoError::Overflow)
    } else if !vote_in_favor && proposal.votes_against + voter_balance > u64::MAX {
        Err(DaoError::Overflow)
    } else if vote_in_favor {
        Ok(ProposalView { votes_for: (proposal.votes_for + voter_balance) as u64, ..proposal })
    } else {
        Ok(
            ProposalView {
                votes_against: (proposal.votes_against + voter_balance) as u64,
                ..proposal
            },
        )
    }
}

/// Applies one voter's weighted vote to the proposal's counters and returns
/// the `VoteCast` observation. The weight is `voter_balance`, the voter's
/// balance in the governance token as the host reads it at this instant;
/// `now` is the host clock reading. Besides matching `cast_vote_spec`, on
/// every path the counters never decrease and their sum grows by at most
/// `voter_balance`.
pub fn cast_vote(
    proposal: &mut Proposal,
    proposal_id: u64,
    voter: Identity,
    voter_balance: u64,
    vote_in_favor: bool,
    now: i64,
) -> (result: Result<VoteCast, DaoError>)
    ensures
        match cast_vote_spec(old(proposal)@, proposal_id, voter_balance, vote_in_favor, now) {
            Ok(updated) => {
                &&& final(proposal)@ == updated
                &&& result matches Ok(ev) && ({
                    &&& ev.proposal_id == proposal_id
                    &&& ev.voter == voter
                    &&& ev.vote_in_favor == vote_in_favor
                    &&& ev.voting_power == voter_balance
                })
            },
            Err(e) => {
                &&& result matches Err(actual) && actual == e
                &&& final(proposal)@ == old(proposal)@
            },
        },
        final(proposal)@.votes_for >= old(proposal)@.votes_for,
        final(proposal)@.votes_against >= old(proposal)@.votes_against,
        final(proposal)@.votes_for + final(proposal)@.votes_against <= old(proposal)@.votes_for
            + old(proposal)@.votes_against + voter_balance,
{
    if !(proposal_id == proposal.proposal_id && proposal.final_outcome == Outcome::Pending) {
        return Err(DaoError::ProposalNotActive);
    }
    if now >= proposal.voting_deadline {
        return Err(DaoError::VotingClosed);
    }
    if voter_balance == 0 {
        return Err(DaoError::NoVotingPower);
    }
    if vote_in_favor {
        match proposal.votes_for.checked_add(voter_balance) {
            Some(total) => {
                proposal.votes_for = total;
            },
            None => {
                return Err(DaoError::Overflow);
            },
        }
    } else {
        match proposal.votes_against.checked_add(voter_balance) {
            Some(total) => {
                proposal.votes_against = total;
            },
            None => {
                return Err(DaoError::Overflow);
            },
        }
    }
    Ok(VoteCast { proposal_id, voter, vote_in_favor, voting_power: voter_balance })
}

/// What one `finalize_proposal` call does: the caller must be the registry's
/// authority (`Unauthorized`), and the proposal must still be `Pending`
/// (`AlreadyFinalized`); then the outcome becomes `Approved` when the votes
/// in favor strictly exceed the votes against, else `Rejected`. The deadline
/// is deliberately not consulted: the authority may decide early. On every
/// error the proposal is unchanged.
pub open spec fn finalize_proposal_spec(
    admin: Identity,
    proposal: ProposalView,
    caller: Identity,
) -> Result<ProposalView, DaoError> {
    if caller != admin {
        Err(DaoError::Unauthorized)
    } else if !(proposal.final_outcome is Pending) {
        Err(DaoError::AlreadyFinalized)
    } else if proposal.votes_for > proposal.votes_against {
        Ok(ProposalView { final_outcome: Outcome::Approved, ..proposal })
    } else {
        Ok(ProposalView { final_outcome: Outcome::Rejected, ..proposal })
    }
}

/// Writes the proposal's terminal outcome, exactly once, and returns the
/// `ProposalFinalized` observation. `now` is the host clock reading; it is
/// accepted for interface uniformity but not consulted, since early
/// finalization by the authority is allowed.
pub fn finalize_proposal(
    dao_state: &DaoState,
    proposal: &mut Proposal,
    caller: Identity,
    now: i64,
) -> (result: Result<ProposalFinalized, DaoError>)
    ensures
        match finalize_proposal_spec(dao_state.authority, old(proposal)@, caller) {
            Ok(updated) => {
                &&& final(proposal)@ == updated
                &&& result matches Ok(ev) && ({
                    &&& ev.proposal_id == old(proposal)@.proposal_id
                    &&& ev.final_outcome == updated.final_outcome
                })
            },
            Err(e) => {
                &&& result matches Err(actual) && actual == e
                &&& final(proposal)@ == old(proposal)@
            },
        },
{
    if caller != dao_state.authority {
        return Err(DaoError::Unauthorized);
    }
    if proposal.final_outcome != Outcome::Pending {
        return Err(DaoError::AlreadyFinalized);
    }
    let outcome = if proposal.votes_for > proposal.votes_against {
        Outcome::Approved
    } else {
        Outcome::Rejected
    };
    proposal.final_outcome = outcome;
    Ok(ProposalFinalized { proposal_id: proposal.proposal_id, final_outcome: outcome })
}

impl DaoState {
    /// Increments the proposal counter and returns its new value, the id of
    /// the proposal being created; every other field is untouched. Fails with
    /// `Overflow`, leaving the registry unchanged, when the counter is
    /// already at its maximum.
    pub fn next_proposal_id(&mut self) -> (result: Result<u64, DaoError>)
        ensures
            old(self).proposal_count < u64::MAX ==> {
                &&& result matches Ok(id) && id == old(self).proposal_count + 1
                &&& final(self).proposal_count == old(self).proposal_count + 1
            },
            old(self).proposal_count == u64::MAX ==> {
                &&& result matches Err(e) && e == DaoError::Overflow
                &&& final(self).proposal_count == old(self).proposal_count
            },
            final(self).authority == old(self).authority,
            final(self).governance_mint == old(self).governance_mint,
            final(self).min_tokens_to_propose == old(self).min_tokens_to_propose,
            final(self).max_voting_duration == old(self).max_voting_duration,
    {
        match self.proposal_count.checked_add(1) {
            Some(next) => {
                self.proposal_count = next;
                Ok(next)
            },
            None => Err(DaoError::Overflow),
        }
    }
}

} // verus!
