use pollbot::engine::{CastVoteResult, ConcludePollResult, CreateItemResult, CreatePollResult,
    CreateProposalResult, PollEngine, RegisterVoterResult, StartPollResult, VoteRejection,
    parse_weight};
use pollbot::models::PollStatus;

#[test]
fn create_poll_twice_reports_duplicate_and_keeps_one_row() {
    let mut e = PollEngine::new();
    assert_eq!(e.create_poll("p1"), CreatePollResult::Created);
    assert_eq!(e.create_poll("p1"), CreatePollResult::DuplicateName);
    let polls = e.find_last_n_polls(10);
    assert_eq!(polls.len(), 1);
    assert_eq!(polls[0].name, "p1");
    assert_eq!(polls[0].status, PollStatus::Stopped);
}

#[test]
fn start_poll_succeeds_exactly_once() {
    let mut e = PollEngine::new();
    assert_eq!(e.create_poll("p1"), CreatePollResult::Created);
    assert!(e.can_start_poll("p1"));
    assert_eq!(e.start_poll("p1"), StartPollResult::Started);
    assert_eq!(e.start_poll("p1"), StartPollResult::NotInStoppedState);
    assert_eq!(e.start_poll("missing"), StartPollResult::NotFound);
}

#[test]
fn conclude_poll_on_concluded_poll_reports_already_concluded() {
    let mut e = PollEngine::new();
    assert_eq!(e.create_poll("p1"), CreatePollResult::Created);
    assert!(e.can_conclude_poll("p1"));
    assert_eq!(e.conclude_poll("p1"), ConcludePollResult::Concluded);
    assert_eq!(e.conclude_poll("p1"), ConcludePollResult::AlreadyConcluded);
    assert!(!e.can_conclude_poll("p1"));
    assert_eq!(e.conclude_poll("missing"), ConcludePollResult::NotFound);
}

#[test]
fn concluded_poll_cannot_be_started() {
    let mut e = PollEngine::new();
    assert_eq!(e.create_poll("p1"), CreatePollResult::Created);
    assert_eq!(e.conclude_poll("p1"), ConcludePollResult::Concluded);
    assert!(!e.can_start_poll("p1"));
    assert_eq!(e.start_poll("p1"), StartPollResult::NotInStoppedState);
}

#[test]
fn in_progress_poll_can_still_be_concluded() {
    let mut e = PollEngine::new();
    assert_eq!(e.create_poll("p1"), CreatePollResult::Created);
    assert_eq!(e.start_poll("p1"), StartPollResult::Started);
    assert_eq!(e.conclude_poll("p1"), ConcludePollResult::Concluded);
}

fn engine_with_proposal(poll: &str, item: &str) -> PollEngine {
    let mut e = PollEngine::new();
    assert_eq!(e.create_poll(poll), CreatePollResult::Created);
    assert_eq!(e.create_item(item), CreateItemResult::Created);
    assert_eq!(e.create_proposal(poll, item), CreateProposalResult::Created);
    e
}

#[test]
fn cast_vote_is_rejected_while_poll_is_stopped() {
    let mut e = engine_with_proposal("p1", "pizza");
    assert_eq!(e.create_voter("U1", "alice"), RegisterVoterResult::Created);
    assert_eq!(
        e.cast_vote("p1", "pizza", "U1", "+"),
        CastVoteResult::Rejected(VoteRejection::NotInProgress)
    );
    let prop = e
        .find_proposal_by_poll_name_and_item_name("p1", "pizza")
        .expect("proposal should exist");
    assert!(e.find_votes_by_proposal(&prop).is_empty());
}

#[test]
fn cast_vote_is_rejected_after_poll_concluded() {
    let mut e = engine_with_proposal("p1", "pizza");
    assert_eq!(e.create_voter("U1", "alice"), RegisterVoterResult::Created);
    assert_eq!(e.start_poll("p1"), StartPollResult::Started);
    assert_eq!(e.conclude_poll("p1"), ConcludePollResult::Concluded);
    assert_eq!(
        e.cast_vote("p1", "pizza", "U1", "-"),
        CastVoteResult::Rejected(VoteRejection::NotInProgress)
    );
}

#[test]
fn second_vote_by_same_voter_overwrites_the_first() {
    let mut e = engine_with_proposal("p1", "pizza");
    assert_eq!(e.create_voter("U1", "alice"), RegisterVoterResult::Created);
    assert_eq!(e.start_poll("p1"), StartPollResult::Started);
    assert_eq!(e.cast_vote("p1", "pizza", "U1", "+"), CastVoteResult::Accepted);
    assert_eq!(e.cast_vote("p1", "pizza", "U1", "-"), CastVoteResult::Accepted);
    let prop = e
        .find_proposal_by_poll_name_and_item_name("p1", "pizza")
        .expect("proposal should exist");
    let votes = e.find_votes_by_proposal(&prop);
    assert_eq!(votes.len(), 1);
    assert_eq!(votes[0].weight, -1);
}

#[test]
fn end_to_end_vote_scenario() {
    let mut e = PollEngine::new();
    assert_eq!(e.create_poll("demo"), CreatePollResult::Created);
    assert_eq!(
        e.find_poll_by_name("demo").expect("poll should exist").status,
        PollStatus::Stopped
    );
    assert_eq!(e.start_poll("demo"), StartPollResult::Started);
    assert_eq!(
        e.find_poll_by_name("demo").expect("poll should exist").status,
        PollStatus::InProgress
    );
    assert_eq!(e.create_voter("U1", "alice"), RegisterVoterResult::Created);
    assert_eq!(e.create_item("pizza"), CreateItemResult::Created);
    assert_eq!(e.create_proposal("demo", "pizza"), CreateProposalResult::Created);
    assert_eq!(e.cast_vote("demo", "pizza", "U1", "+"), CastVoteResult::Accepted);
    let prop = e
        .find_proposal_by_poll_name_and_item_name("demo", "pizza")
        .expect("proposal should exist");
    let votes = e.find_votes_by_proposal(&prop);
    assert_eq!(votes.len(), 1);
    assert_eq!(votes[0].weight, 1);
    assert_eq!(e.cast_vote("demo", "pizza", "U1", "-"), CastVoteResult::Accepted);
    let votes = e.find_votes_by_proposal(&prop);
    assert_eq!(votes.len(), 1);
    assert_eq!(votes[0].weight, -1);
}

#[test]
fn list_recent_polls_returns_the_newest_first() {
    let mut e = PollEngine::new();
    for name in ["p1", "p2", "p3", "p4", "p5", "p6", "p7"] {
        assert_eq!(e.create_poll(name), CreatePollResult::Created);
    }
    let recent: Vec<String> = e.find_last_n_polls(5).into_iter().map(|p| p.name).collect();
    assert_eq!(recent, vec!["p7", "p6", "p5", "p4", "p3"]);
}

#[test]
fn list_recent_items_returns_the_newest_first() {
    let mut e = PollEngine::new();
    for name in ["a", "b", "c"] {
        assert_eq!(e.create_item(name), CreateItemResult::Created);
    }
    let recent: Vec<String> = e.find_last_n_items(2).into_iter().map(|i| i.name).collect();
    assert_eq!(recent, vec!["c", "b"]);
}

#[test]
fn create_item_stores_the_name_lower_cased() {
    let mut e = PollEngine::new();
    assert_eq!(e.create_item("PIZZA"), CreateItemResult::Created);
    let item = e.find_item_by_name("pizza").expect("lower-cased name should be stored");
    assert_eq!(item.name, "pizza");
    assert!(e.find_item_by_name("PIZZA").is_none());
    assert_eq!(e.create_item("Pizza"), CreateItemResult::DuplicateName);
    assert_eq!(e.create_item("pizza"), CreateItemResult::DuplicateName);
}

#[test]
fn create_proposal_requires_both_sides_and_uniqueness() {
    let mut e = PollEngine::new();
    assert_eq!(e.create_proposal("p1", "pizza"), CreateProposalResult::PollNotFound);
    assert_eq!(e.create_poll("p1"), CreatePollResult::Created);
    assert_eq!(e.create_proposal("p1", "pizza"), CreateProposalResult::ItemNotFound);
    assert_eq!(e.create_item("pizza"), CreateItemResult::Created);
    assert_eq!(e.create_proposal("p1", "pizza"), CreateProposalResult::Created);
    assert_eq!(e.create_proposal("p1", "pizza"), CreateProposalResult::DuplicateProposal);
}

#[test]
fn register_voter_is_unique_by_transport_id() {
    let mut e = PollEngine::new();
    assert_eq!(e.create_voter("U1", "alice"), RegisterVoterResult::Created);
    assert_eq!(e.create_voter("U1", "someone else"), RegisterVoterResult::AlreadyRegistered);
    assert_eq!(e.create_voter("U2", "alice"), RegisterVoterResult::Created);
    let alice = e.find_voter_by_slack_id("U1").expect("voter should exist");
    assert_eq!(alice.name, "alice");
    assert_eq!(alice.slack_id.as_deref(), Some("U1"));
    assert!(e.find_voter_by_slack_id("U9").is_none());
}

#[test]
fn cast_vote_reports_each_failure_distinctly() {
    let mut e = PollEngine::new();
    assert_eq!(e.cast_vote("p1", "pizza", "U1", "+"), CastVoteResult::ProposalNotFound);
    let mut e = engine_with_proposal("p1", "pizza");
    assert_eq!(e.start_poll("p1"), StartPollResult::Started);
    assert_eq!(e.cast_vote("p1", "pizza", "U1", "+"), CastVoteResult::VoterNotRegistered);
    assert_eq!(e.cast_vote("p1", "salad", "U1", "+"), CastVoteResult::ProposalNotFound);
}

#[test]
fn weight_token_mapping_is_lenient() {
    assert_eq!(parse_weight("-"), -1);
    assert_eq!(parse_weight("+"), 1);
    assert_eq!(parse_weight(""), 1);
    assert_eq!(parse_weight("--"), 1);
    assert_eq!(parse_weight("junk"), 1);
}

#[test]
fn lenient_weight_applies_to_cast_votes_too() {
    let mut e = engine_with_proposal("p1", "pizza");
    assert_eq!(e.create_voter("U1", "alice"), RegisterVoterResult::Created);
    assert_eq!(e.start_poll("p1"), StartPollResult::Started);
    assert_eq!(e.cast_vote("p1", "pizza", "U1", "whatever"), CastVoteResult::Accepted);
    let prop = e
        .find_proposal_by_poll_name_and_item_name("p1", "pizza")
        .expect("proposal should exist");
    assert_eq!(e.find_votes_by_proposal(&prop)[0].weight, 1);
}

#[test]
fn poll_status_round_trips_through_its_text_form() {
    for st in [
        PollStatus::Aborted,
        PollStatus::Concluded,
        PollStatus::InProgress,
        PollStatus::Stopped,
    ] {
        assert_eq!(PollStatus::from_str(st.as_str()), Some(st));
    }
    assert_eq!(PollStatus::Stopped.as_str(), "STOPPED");
    assert_eq!(PollStatus::InProgress.as_str(), "IN_PROGRESS");
    assert_eq!(PollStatus::Concluded.as_str(), "CONCLUDED");
    assert_eq!(PollStatus::Aborted.as_str(), "ABORTED");
    assert_eq!(PollStatus::from_str("stopped"), None);
    assert_eq!(PollStatus::from_str(""), None);
}

#[test]
fn lookups_by_id_follow_table_positions() {
    let mut e = engine_with_proposal("p1", "pizza");
    assert_eq!(e.create_voter("U1", "alice"), RegisterVoterResult::Created);
    let poll = e.find_poll_by_name("p1").unwrap();
    assert_eq!(e.find_poll_by_id(poll.id).unwrap().name, "p1");
    let item = e.find_item_by_name("pizza").unwrap();
    assert_eq!(e.find_item_by_id(item.id).unwrap().name, "pizza");
    let prop = e.find_proposal_by_poll_name_and_item_name("p1", "pizza").unwrap();
    assert_eq!(e.find_proposal_by_id(prop.id).unwrap().id, prop.id);
    assert_eq!(e.find_item_by_proposal(&prop).unwrap().name, "pizza");
    let voter = e.find_voter_by_slack_id("U1").unwrap();
    assert_eq!(e.find_voter_by_id(voter.id).unwrap().name, "alice");
    assert!(e.find_poll_by_id(99).is_none());
    assert!(e.find_item_by_id(99).is_none());
    assert!(e.find_voter_by_id(99).is_none());
    assert!(e.find_proposal_by_id(99).is_none());
}

#[test]
fn vote_rows_are_found_by_their_pair() {
    let mut e = engine_with_proposal("p1", "pizza");
    assert_eq!(e.create_voter("U1", "alice"), RegisterVoterResult::Created);
    assert_eq!(e.start_poll("p1"), StartPollResult::Started);
    let prop = e.find_proposal_by_poll_name_and_item_name("p1", "pizza").unwrap();
    let voter = e.find_voter_by_slack_id("U1").unwrap();
    assert!(!e.exists_vote(prop.id, voter.id));
    assert_eq!(e.cast_vote("p1", "pizza", "U1", "-"), CastVoteResult::Accepted);
    assert!(e.exists_vote(prop.id, voter.id));
    let vote = e
        .find_vote_by_proposal_id_and_voter_id(prop.id, voter.id)
        .expect("vote should exist");
    assert_eq!(vote.weight, -1);
    assert_eq!(e.find_voter_by_vote(&vote).unwrap().name, "alice");
}

#[test]
fn create_and_update_vote_enforce_the_write_guard() {
    let mut e = engine_with_proposal("p1", "pizza");
    assert_eq!(e.create_voter("U1", "alice"), RegisterVoterResult::Created);
    let prop = e.find_proposal_by_poll_name_and_item_name("p1", "pizza").unwrap();
    let voter = e.find_voter_by_slack_id("U1").unwrap();
    assert!(!e.create_vote(voter.id, prop.id, 1));
    assert!(!e.update_vote(voter.id, prop.id, 1));
    assert_eq!(e.start_poll("p1"), StartPollResult::Started);
    assert!(!e.update_vote(voter.id, prop.id, 1));
    assert!(e.create_vote(voter.id, prop.id, 1));
    assert!(!e.create_vote(voter.id, prop.id, -1));
    assert!(e.update_vote(voter.id, prop.id, -1));
    let vote = e.find_vote_by_proposal_id_and_voter_id(prop.id, voter.id).unwrap();
    assert_eq!(vote.weight, -1);
    assert!(!e.create_vote(99, prop.id, 1));
    assert!(!e.create_vote(voter.id, 99, 1));
    assert!(e.can_vote_for_proposal(&prop));
}

#[test]
fn poll_results_report_every_proposal_and_vote() {
    let mut e = PollEngine::new();
    assert_eq!(e.create_poll("p1"), CreatePollResult::Created);
    assert_eq!(e.create_item("pizza"), CreateItemResult::Created);
    assert_eq!(e.create_item("salad"), CreateItemResult::Created);
    assert_eq!(e.create_proposal("p1", "pizza"), CreateProposalResult::Created);
    assert_eq!(e.create_proposal("p1", "salad"), CreateProposalResult::Created);
    assert_eq!(e.create_voter("U1", "alice"), RegisterVoterResult::Created);
    assert_eq!(e.create_voter("U2", "bob"), RegisterVoterResult::Created);
    assert_eq!(e.start_poll("p1"), StartPollResult::Started);
    assert_eq!(e.cast_vote("p1", "pizza", "U1", "+"), CastVoteResult::Accepted);
    assert_eq!(e.cast_vote("p1", "pizza", "U2", "-"), CastVoteResult::Accepted);
    assert_eq!(e.cast_vote("p1", "salad", "U2", "+"), CastVoteResult::Accepted);
    let results = e.get_poll_results("p1").expect("poll should exist");
    assert_eq!(results.poll_name, "p1");
    assert_eq!(results.proposals.len(), 2);
    assert_eq!(results.proposals[0].item_name, "pizza");
    assert_eq!(results.proposals[0].votes.len(), 2);
    assert_eq!(results.proposals[0].votes[0].voter_name, "alice");
    assert_eq!(results.proposals[0].votes[0].weight, 1);
    assert_eq!(results.proposals[0].votes[1].voter_name, "bob");
    assert_eq!(results.proposals[0].votes[1].weight, -1);
    assert_eq!(results.proposals[1].item_name, "salad");
    assert_eq!(results.proposals[1].votes.len(), 1);
    assert_eq!(results.proposals[1].votes[0].voter_name, "bob");
    assert_eq!(results.proposals[1].votes[0].weight, 1);
    assert!(e.get_poll_results("missing").is_none());
}

#[test]
fn proposals_are_listed_per_poll() {
    let mut e = PollEngine::new();
    assert_eq!(e.create_poll("p1"), CreatePollResult::Created);
    assert_eq!(e.create_poll("p2"), CreatePollResult::Created);
    assert_eq!(e.create_item("a"), CreateItemResult::Created);
    assert_eq!(e.create_item("b"), CreateItemResult::Created);
    assert_eq!(e.create_proposal("p1", "a"), CreateProposalResult::Created);
    assert_eq!(e.create_proposal("p2", "b"), CreateProposalResult::Created);
    assert_eq!(e.create_proposal("p1", "b"), CreateProposalResult::Created);
    let p1 = e.find_poll_by_name("p1").unwrap();
    let props = e.find_proposals_by_poll(&p1);
    assert_eq!(props.len(), 2);
    let a = e.find_item_by_name("a").unwrap();
    let b = e.find_item_by_name("b").unwrap();
    assert_eq!(props[0].item_id, a.id);
    assert_eq!(props[1].item_id, b.id);
}
