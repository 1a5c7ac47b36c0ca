//! Laws of the governance core, stated over the spec-level transition
//! functions and proved once for all inputs.

use vstd::prelude::*;

use crate::instructions::cast_vote_spec;
use crate::instructions::create_proposal_spec;
use crate::instructions::finalize_proposal_spec;
use crate::state::DaoError;
use crate::state::DaoState;
use crate::state::Identity;
use crate::state::ProposalView;

verus! {

/// One successful creation step: for some inputs, `create_proposal` turns
/// `registry` into `next` and writes `proposal`.
pub open spec fn create_ok_step(
    registry: DaoState,
    next: DaoState,
    proposal: ProposalView,
) -> bool {
    exists|
        dao_key: Identity,
        proposer: Identity,
        title: Seq<char>,
        description: Seq<char>,
        now: i64,
    |
        create_proposal_spec(registry, dao_key, proposer, title, description, now) == Ok::<
            (DaoState, ProposalView),
            DaoError,
        >((next, proposal))
}

/// A successful creation advances the counter by exactly one, assigns the new
/// counter value as the proposal's id, and touches nothing else in the
/// registry.
pub proof fn lemma_create_assigns_next_id(
    registry: DaoState,
    next: DaoState,
    proposal: ProposalView,
)
    requires
        create_ok_step(registry, next, proposal),
    ensures
        proposal.proposal_id == registry.proposal_count + 1,
        next.proposal_count == registry.proposal_count + 1,
        next.authority == registry.authority,
        next.governance_mint == registry.governance_mint,
        next.min_tokens_to_propose == registry.min_tokens_to_propose,
        next.max_voting_duration == registry.max_voting_duration,
{
}

/// A chain of successful creations against one registry: `states[0]` is the
/// registry before the first call, and call `i` turns `states[i]` into
/// `states[i + 1]`, writing `proposals[i]`.
pub open spec fn create_chain(states: Seq<DaoState>, proposals: Seq<ProposalView>) -> bool {
    &&& states.len() == proposals.len() + 1
    &&& forall|i: int|
        0 <= i < proposals.len() ==> #[trigger] create_ok_step(
            states[i],
            states[i + 1],
            proposals[i],
        )
}

/// For every sequence of successful `create_proposal` calls against one
/// registry that starts with its counter at zero, the assigned ids are
/// exactly 1, 2, 3, … in order: no gaps and no repeats.
pub proof fn lemma_ids_are_consecutive(states: Seq<DaoState>, proposals: Seq<ProposalView>)
    requires
        create_chain(states, proposals),
        states[0].proposal_count == 0,
    ensures
        forall|i: int| 0 <= i < states.len() ==> #[trigger] states[i].proposal_count == i,
        forall|i: int| 0 <= i < proposals.len() ==> #[trigger] proposals[i].proposal_id == i + 1,
    decreases proposals.len(),
{
    if proposals.len() > 0 {
        let n = proposals.len() as int;
        let head_states = states.subrange(0, n);
        let head_proposals = proposals.subrange(0, n - 1);
        assert(create_chain(head_states, head_proposals)) by {
            assert forall|i: int| 0 <= i < head_proposals.len() implies #[trigger] create_ok_step(
                head_states[i],
                head_states[i + 1],
                head_proposals[i],
            ) by {
                assert(create_ok_step(states[i], states[i + 1], proposals[i]));
            }
        };
        lemma_ids_are_consecutive(head_states, head_proposals);
        lemma_create_assigns_next_id(states[n - 1], states[n], proposals[n - 1]);
        assert(head_states[n - 1] == states[n - 1]);
        assert forall|i: int| 0 <= i < states.len() implies #[trigger] states[i].proposal_count
            == i by {
            if i < n {
                assert(head_states[i] == states[i]);
            }
        };
        assert forall|i: int| 0 <= i < proposals.len() implies #[trigger] proposals[i].proposal_id
            == i + 1 by {
            if i < n - 1 {
                assert(head_proposals[i] == proposals[i]);
            }
        };
    }
}

/// A vote never decreases a counter, and never changes the combined tally by
/// more than the supplied balance: a successful vote adds the voter's whole
/// balance to exactly one counter, and a rejected vote changes nothing.
pub proof fn lemma_vote_tally_bounded(
    proposal: ProposalView,
    proposal_id: u64,
    voter_balance: u64,
    vote_in_favor: bool,
    now: i64,
)
    ensures
        cast_vote_spec(proposal, proposal_id, voter_balance, vote_in_favor, now) matches Ok(updated)
            ==> {
            &&& updated.votes_for + updated.votes_against == proposal.votes_for
                + proposal.votes_against + voter_balance
            &&& updated.votes_for >= proposal.votes_for
            &&& updated.votes_against >= proposal.votes_against
        },
{
}

/// Once a proposal's outcome is decided, it is terminal: no vote succeeds
/// against it (it is rejected as `ProposalNotActive`), and no second
/// finalization succeeds (the authority's own retry is rejected as
/// `AlreadyFinalized`).
pub proof fn lemma_terminal_outcome_is_final(
    admin: Identity,
    proposal: ProposalView,
    caller: Identity,
    proposal_id: u64,
    voter_balance: u64,
    vote_in_favor: bool,
    now: i64,
)
    requires
        !(proposal.final_outcome is Pending),
    ensures
        cast_vote_spec(proposal, proposal_id, voter_balance, vote_in_favor, now) == Err::<
            ProposalView,
            DaoError,
        >(DaoError::ProposalNotActive),
        finalize_proposal_spec(admin, proposal, caller) is Err,
        caller == admin ==> finalize_proposal_spec(admin, proposal, caller) == Err::<
            ProposalView,
            DaoError,
        >(DaoError::AlreadyFinalized),
{
}

/// Every created proposal is stamped with the caller's clock reading and a
/// deadline of exactly `created_at + max_voting_duration`.
pub proof fn lemma_deadline_exact(
    registry: DaoState,
    dao_key: Identity,
    proposer: Identity,
    title: Seq<char>,
    description: Seq<char>,
    now: i64,
)
    ensures
        create_proposal_spec(registry, dao_key, proposer, title, description, now) matches Ok(step)
            ==> {
            &&& step.1.created_at == now
            &&& step.1.voting_deadline == step.1.created_at + registry.max_voting_duration
        },
{
}

} // verus!
