//! Laws of the poll domain engine: properties that span several calls,
//! proved once and for all from the engine's transition relations.

use vstd::prelude::*;
use crate::engine::{CastVoteResult, CreatePollResult, PollEngine, StartPollResult,
    weight_of_token};

verus! {

/// Creating a poll under one name twice: the second call reports a
/// duplicate and moves nothing, and exactly one poll of that name exists
/// afterward.
pub proof fn law_create_poll_twice(
    s0: PollEngine,
    s1: PollEngine,
    s2: PollEngine,
    name: Seq<char>,
    r1: CreatePollResult,
    r2: CreatePollResult,
)
    requires
        s0.wf(),
        s1.wf(),
        PollEngine::create_poll_rel(s0, s1, name, r1),
        PollEngine::create_poll_rel(s1, s2, name, r2),
    ensures
        r2 == CreatePollResult::DuplicateName,
        s2 == s1,
        exists|i: int| 0 <= i < s2.polls@.len() && (#[trigger] s2.polls@[i]).name@ == name,
        forall|i: int, j: int|
            0 <= i < s2.polls@.len() && 0 <= j < s2.polls@.len() && (#[trigger] s2.polls@[
            i]).name@ == name && (#[trigger] s2.polls@[j]).name@ == name ==> i == j,
{
    if s0.has_poll_named(name) {
        assert(s1 == s0);
    } else {
        let last = s1.polls@.len() - 1;
        assert(s1.polls@[last].name@ == name);
        assert(s1.has_poll_named(name));
    }
    assert(s2 == s1);
    assert forall|i: int, j: int|
        0 <= i < s2.polls@.len() && 0 <= j < s2.polls@.len() && (#[trigger] s2.polls@[i]).name@
            == name && (#[trigger] s2.polls@[j]).name@ == name implies i == j by {
        if i < j {
            assert(s1.polls@[i].name@ != s1.polls@[j].name@);
        } else if j < i {
            assert(s1.polls@[j].name@ != s1.polls@[i].name@);
        }
    }
}

/// A freshly created poll starts exactly once: the first `start_poll`
/// succeeds, a second one reports the state and moves nothing.
pub proof fn law_start_poll_exactly_once(
    s0: PollEngine,
    s1: PollEngine,
    s2: PollEngine,
    s3: PollEngine,
    name: Seq<char>,
    r2: StartPollResult,
    r3: StartPollResult,
)
    requires
        s0.wf(),
        s1.wf(),
        s2.wf(),
        PollEngine::create_poll_rel(s0, s1, name, CreatePollResult::Created),
        PollEngine::start_poll_rel(s1, s2, name, r2),
        PollEngine::start_poll_rel(s2, s3, name, r3),
    ensures
        r2 == StartPollResult::Started,
        r3 == StartPollResult::NotInStoppedState,
        s3 == s2,
{
    let last = s1.polls@.len() - 1;
    assert(s1.polls@[last].name@ == name);
    s1.lemma_poll_named_idx_is(last, name);
    assert(s1.polls@[last].status is Stopped);
    assert(r2 == StartPollResult::Started);
    assert(s2.polls@[last].name == s1.polls@[last].name);
    s2.lemma_poll_named_idx_is(last, name);
    assert(s2.polls@[last].status is InProgress);
}

/// A vote against a poll that is not in progress is always turned away,
/// whatever the voter or the weight token, and the store does not move.
pub proof fn law_vote_rejected_unless_in_progress(
    s0: PollEngine,
    s1: PollEngine,
    poll_name: Seq<char>,
    item_name: Seq<char>,
    voter_slack_id: Seq<char>,
    weight_token: Seq<char>,
    r: CastVoteResult,
)
    requires
        s0.wf(),
        PollEngine::cast_vote_rel(s0, s1, poll_name, item_name, voter_slack_id, weight_token, r),
        s0.has_poll_named(poll_name) ==> !(s0.polls@[s0.poll_named_idx(poll_name)].status
            is InProgress),
    ensures
        s1 == s0,
        r != CastVoteResult::Accepted,
{
}

/// Two votes by one voter on one proposal leave exactly one vote row, and
/// its weight is the second call's resolved weight.
pub proof fn law_revote_overwrites(
    s0: PollEngine,
    s1: PollEngine,
    s2: PollEngine,
    poll_name: Seq<char>,
    item_name: Seq<char>,
    voter_slack_id: Seq<char>,
    token1: Seq<char>,
    token2: Seq<char>,
)
    requires
        s0.wf(),
        s1.wf(),
        s2.wf(),
        PollEngine::cast_vote_rel(
            s0,
            s1,
            poll_name,
            item_name,
            voter_slack_id,
            token1,
            CastVoteResult::Accepted,
        ),
        PollEngine::cast_vote_rel(
            s1,
            s2,
            poll_name,
            item_name,
            voter_slack_id,
            token2,
            CastVoteResult::Accepted,
        ),
    ensures
        s2.votes@.len() == s1.votes@.len(),
        exists|x: int|
            0 <= x < s2.votes@.len() && (#[trigger] s2.votes@[x]).voter_id == s0.voter_slack_idx(
                voter_slack_id,
            ) && s2.votes@[x].proposal_id == s0.proposal_for_idx(
                s0.poll_named_idx(poll_name),
                s0.item_named_idx(item_name),
            ) && s2.votes@[x].weight as int == weight_of_token(token2),
        forall|x: int, y: int|
            0 <= x < s2.votes@.len() && 0 <= y < s2.votes@.len() && (#[trigger] s2.votes@[
            x]).voter_id == (#[trigger] s2.votes@[y]).voter_id && s2.votes@[x].proposal_id
                == s2.votes@[y].proposal_id ==> x == y,
{
    let pi = s0.poll_named_idx(poll_name);
    let ii = s0.item_named_idx(item_name);
    let prop_i = s0.proposal_for_idx(pi, ii);
    let vi = s0.voter_slack_idx(voter_slack_id);
    // The first call resolved everything, so its witnesses stand in s0.
    assert(s0.has_poll_named(poll_name) && s0.has_item_named(item_name) && s0.has_proposal_for(
        pi,
        ii,
    ) && s0.has_voter_with_slack_id(voter_slack_id));
    assert(0 <= pi < s0.polls@.len() && s0.polls@[pi].name@ == poll_name);
    assert(0 <= ii < s0.items@.len() && s0.items@[ii].name@ == item_name);
    assert(0 <= prop_i < s0.proposals@.len() && s0.proposals@[prop_i].poll_id == pi
        && s0.proposals@[prop_i].item_id == ii);
    assert(0 <= vi < s0.voters@.len() && PollEngine::voter_matches(
        s0.voters@[vi],
        voter_slack_id,
    ));
    // The tables the resolution reads did not move between the calls.
    assert(s1.polls@ == s0.polls@ && s1.items@ == s0.items@ && s1.proposals@ == s0.proposals@
        && s1.voters@ == s0.voters@);
    s1.lemma_poll_named_idx_is(pi, poll_name);
    s1.lemma_item_named_idx_is(ii, item_name);
    s1.lemma_proposal_for_idx_is(prop_i, pi, ii);
    s1.lemma_voter_slack_idx_is(vi, voter_slack_id);
    // After the first accepted vote, a row for (voter, proposal) exists.
    if s0.has_vote_by(vi, prop_i) {
        let xi = s0.vote_by_idx(vi, prop_i);
        assert(s1.votes@[xi].voter_id == vi && s1.votes@[xi].proposal_id == prop_i);
        assert(s1.has_vote_by(vi, prop_i));
    } else {
        let xi = s0.votes@.len() as int;
        assert(s1.votes@[xi].voter_id == vi && s1.votes@[xi].proposal_id == prop_i);
        assert(s1.has_vote_by(vi, prop_i));
    }
    // So the second call overwrote that row in place.
    let xi = s1.vote_by_idx(vi, prop_i);
    assert(s2.votes@ == s1.votes@.update(
        xi,
        crate::models::Vote {
            id: s1.votes@[xi].id,
            voter_id: s1.votes@[xi].voter_id,
            proposal_id: s1.votes@[xi].proposal_id,
            weight: weight_of_token(token2) as i32,
        },
    ));
    assert(0 <= xi < s1.votes@.len() && s1.votes@[xi].voter_id == vi && s1.votes@[xi].proposal_id
        == prop_i);
    assert(s2.votes@[xi].voter_id == vi && s2.votes@[xi].proposal_id == prop_i && s2.votes@[
    xi].weight as int == weight_of_token(token2));
    assert forall|x: int, y: int|
        0 <= x < s2.votes@.len() && 0 <= y < s2.votes@.len() && (#[trigger] s2.votes@[x]).voter_id
            == (#[trigger] s2.votes@[y]).voter_id && s2.votes@[x].proposal_id == s2.votes@[
        y].proposal_id implies x == y by {
        if x < y {
            assert(!(s2.votes@[x].voter_id == s2.votes@[y].voter_id && s2.votes@[x].proposal_id
                == s2.votes@[y].proposal_id));
        } else if y < x {
            assert(!(s2.votes@[y].voter_id == s2.votes@[x].voter_id && s2.votes@[y].proposal_id
                == s2.votes@[x].proposal_id));
        }
    }
}

} // verus!
