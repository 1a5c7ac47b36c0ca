use junto_dao::instructions::cast_vote;
use junto_dao::instructions::create_proposal;
use junto_dao::instructions::finalize_proposal;
use junto_dao::instructions::initialize;
use junto_dao::state::DaoError;
use junto_dao::state::DaoState;
use junto_dao::state::Identity;
use junto_dao::state::Outcome;
use junto_dao::state::Proposal;

fn ident(n: u64) -> Identity {
    Identity { w0: n, w1: 0, w2: 0, w3: 0 }
}

fn fresh_registry(max_voting_duration: i64) -> DaoState {
    initialize(ident(1), ident(2), 10, max_voting_duration).unwrap()
}

fn sample_proposal(registry: &mut DaoState, now: i64) -> Proposal {
    let (proposal, _) = create_proposal(
        registry,
        ident(3),
        ident(4),
        String::from("Upgrade protocol"),
        String::from("Move to the new runtime"),
        now,
    )
    .unwrap();
    proposal
}

#[test]
fn scenario_a_create_stamps_deadline_and_pending() {
    let mut registry = fresh_registry(3600);
    let proposal = sample_proposal(&mut registry, 0);
    assert_eq!(proposal.voting_deadline, 3600);
    assert_eq!(proposal.final_outcome, Outcome::Pending);
    assert_eq!(proposal.created_at, 0);
    assert_eq!(proposal.proposal_id, 1);
    assert_eq!(proposal.title, "Upgrade protocol");
}

#[test]
fn scenario_b_vote_in_favor_adds_whole_balance() {
    let mut registry = fresh_registry(3600);
    let mut proposal = sample_proposal(&mut registry, 0);
    let event = cast_vote(&mut proposal, 1, ident(5), 100, true, 10).unwrap();
    assert_eq!(proposal.votes_for, 100);
    assert_eq!(proposal.votes_against, 0);
    assert_eq!(event.proposal_id, 1);
    assert_eq!(event.voter, ident(5));
    assert_eq!(event.vote_in_favor, true);
    assert_eq!(event.voting_power, 100);
}

#[test]
fn scenario_c_vote_against_adds_whole_balance() {
    let mut registry = fresh_registry(3600);
    let mut proposal = sample_proposal(&mut registry, 0);
    cast_vote(&mut proposal, 1, ident(5), 100, true, 10).unwrap();
    cast_vote(&mut proposal, 1, ident(6), 50, false, 20).unwrap();
    assert_eq!(proposal.votes_for, 100);
    assert_eq!(proposal.votes_against, 50);
}

#[test]
fn scenario_d_vote_at_deadline_is_closed() {
    let mut registry = fresh_registry(3600);
    let mut proposal = sample_proposal(&mut registry, 0);
    cast_vote(&mut proposal, 1, ident(5), 100, true, 10).unwrap();
    cast_vote(&mut proposal, 1, ident(6), 50, false, 20).unwrap();
    let rejected = cast_vote(&mut proposal, 1, ident(7), 25, true, 3601);
    assert_eq!(rejected, Err(DaoError::VotingClosed));
    assert_eq!(proposal.votes_for, 100);
    assert_eq!(proposal.votes_against, 50);
}

#[test]
fn scenario_e_finalize_approves_majority_then_rejects_retry() {
    let mut registry = fresh_registry(3600);
    let mut proposal = sample_proposal(&mut registry, 0);
    cast_vote(&mut proposal, 1, ident(5), 100, true, 10).unwrap();
    cast_vote(&mut proposal, 1, ident(6), 50, false, 20).unwrap();
    let event = finalize_proposal(&registry, &mut proposal, ident(1), 3700).unwrap();
    assert_eq!(proposal.final_outcome, Outcome::Approved);
    assert_eq!(event.proposal_id, 1);
    assert_eq!(event.final_outcome, Outcome::Approved);
    let retry = finalize_proposal(&registry, &mut proposal, ident(1), 3701);
    assert_eq!(retry, Err(DaoError::AlreadyFinalized));
    assert_eq!(proposal.final_outcome, Outcome::Approved);
}

#[test]
fn scenario_f_two_character_title_is_rejected() {
    let mut registry = fresh_registry(3600);
    let result = create_proposal(
        &mut registry,
        ident(3),
        ident(4),
        String::from("Hi"),
        String::from("too short"),
        0,
    );
    assert!(matches!(result, Err(DaoError::InvalidTitle)));
    assert_eq!(registry.proposal_count, 0);
}

#[test]
fn three_character_title_is_accepted() {
    let mut registry = fresh_registry(3600);
    let (proposal, _) = create_proposal(
        &mut registry,
        ident(3),
        ident(4),
        String::from("Yes"),
        String::new(),
        0,
    )
    .unwrap();
    assert_eq!(proposal.title, "Yes");
    assert_eq!(registry.proposal_count, 1);
}

#[test]
fn successive_proposals_take_consecutive_ids() {
    let mut registry = fresh_registry(3600);
    let mut ids = Vec::new();
    for call in 0..3 {
        let (proposal, _) = create_proposal(
            &mut registry,
            ident(3),
            ident(4),
            String::from("Upgrade protocol"),
            String::from("round"),
            call,
        )
        .unwrap();
        ids.push(proposal.proposal_id);
    }
    assert_eq!(ids, vec![1, 2, 3]);
    assert_eq!(registry.proposal_count, 3);
}

#[test]
fn tie_finalizes_as_rejected() {
    let mut registry = fresh_registry(3600);
    let mut proposal = sample_proposal(&mut registry, 0);
    cast_vote(&mut proposal, 1, ident(5), 70, true, 10).unwrap();
    cast_vote(&mut proposal, 1, ident(6), 70, false, 20).unwrap();
    finalize_proposal(&registry, &mut proposal, ident(1), 30).unwrap();
    assert_eq!(proposal.final_outcome, Outcome::Rejected);
}

#[test]
fn unvoted_proposal_finalizes_as_rejected() {
    let mut registry = fresh_registry(3600);
    let mut proposal = sample_proposal(&mut registry, 0);
    finalize_proposal(&registry, &mut proposal, ident(1), 10).unwrap();
    assert_eq!(proposal.final_outcome, Outcome::Rejected);
}

#[test]
fn finalize_before_deadline_is_allowed_for_authority() {
    let mut registry = fresh_registry(3600);
    let mut proposal = sample_proposal(&mut registry, 0);
    cast_vote(&mut proposal, 1, ident(5), 1, true, 5).unwrap();
    let event = finalize_proposal(&registry, &mut proposal, ident(1), 6).unwrap();
    assert_eq!(event.final_outcome, Outcome::Approved);
}

#[test]
fn created_event_matches_proposal() {
    let mut registry = fresh_registry(3600);
    let (proposal, event) = create_proposal(
        &mut registry,
        ident(3),
        ident(4),
        String::from("Upgrade protocol"),
        String::from("details"),
        42,
    )
    .unwrap();
    assert_eq!(event.proposal_id, proposal.proposal_id);
    assert_eq!(event.proposer, ident(4));
    assert_eq!(event.title, "Upgrade protocol");
    assert_eq!(event.created_at, 42);
    assert_eq!(proposal.dao_state, ident(3));
    assert_eq!(proposal.proposer, ident(4));
    assert_eq!(proposal.description, "details");
}

#[test]
fn next_proposal_id_counts_up_from_one() {
    let mut registry = fresh_registry(3600);
    assert_eq!(registry.next_proposal_id(), Ok(1));
    assert_eq!(registry.next_proposal_id(), Ok(2));
    assert_eq!(registry.proposal_count, 2);
}

#[test]
fn vote_changes_combined_tally_by_exactly_the_balance() {
    let mut registry = fresh_registry(3600);
    let mut proposal = sample_proposal(&mut registry, 0);
    let before = proposal.votes_for + proposal.votes_against;
    cast_vote(&mut proposal, 1, ident(5), 33, false, 1).unwrap();
    let after = proposal.votes_for + proposal.votes_against;
    assert_eq!(after, before + 33);
}
