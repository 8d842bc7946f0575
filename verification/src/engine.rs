//! The poll domain engine: the state over polls, items, proposals, voters
//! and votes, its integrity invariant, and the queries and state-guarded
//! operations that the command handlers consume.
//!
//! The store is held in memory; a persistence collaborator outside this
//! crate may mirror it. Every record's `id` equals its position in its
//! table, names are unique where the domain demands it, and every foreign
//! key references an existing row.

use vstd::prelude::*;
use crate::models::{Item, NewItem, NewPoll, NewProposal, NewVote, NewVoter, Poll, PollStatus,
    Proposal, Vote, Voter};
use crate::text::{lower_of, lowercase, str_eq};

verus! {

/// The proposals of `ps` that belong to the poll with id `pid`, in table
/// order.
pub open spec fn props_of(ps: Seq<Proposal>, pid: int) -> Seq<Proposal>
    decreases ps.len(),
{
    if ps.len() == 0 {
        Seq::empty()
    } else if ps.last().poll_id == pid {
        props_of(ps.drop_last(), pid).push(ps.last())
    } else {
        props_of(ps.drop_last(), pid)
    }
}

/// The votes of `vs` that belong to the proposal with id `pid`, in table
/// order.
pub open spec fn votes_of(vs: Seq<Vote>, pid: int) -> Seq<Vote>
    decreases vs.len(),
{
    if vs.len() == 0 {
        Seq::empty()
    } else if vs.last().proposal_id == pid {
        votes_of(vs.drop_last(), pid).push(vs.last())
    } else {
        votes_of(vs.drop_last(), pid)
    }
}

/// Outcome of `create_poll`.
#[derive(Clone, Copy, PartialEq, Eq, Structural, Debug)]
pub enum CreatePollResult {
    Created,
    DuplicateName,
}

/// Outcome of `start_poll`.
#[derive(Clone, Copy, PartialEq, Eq, Structural, Debug)]
pub enum StartPollResult {
    Started,
    NotFound,
    NotInStoppedState,
}

/// Outcome of `conclude_poll`.
#[derive(Clone, Copy, PartialEq, Eq, Structural, Debug)]
pub enum ConcludePollResult {
    Concluded,
    NotFound,
    AlreadyConcluded,
}

/// Outcome of `create_item`.
#[derive(Clone, Copy, PartialEq, Eq, Structural, Debug)]
pub enum CreateItemResult {
    Created,
    DuplicateName,
}

/// Outcome of `create_proposal`.
#[derive(Clone, Copy, PartialEq, Eq, Structural, Debug)]
pub enum CreateProposalResult {
    Created,
    DuplicateProposal,
    PollNotFound,
    ItemNotFound,
}

/// Outcome of `create_voter`.
#[derive(Clone, Copy, PartialEq, Eq, Structural, Debug)]
pub enum RegisterVoterResult {
    Created,
    AlreadyRegistered,
}

/// Why a vote was turned away.
#[derive(Clone, Copy, PartialEq, Eq, Structural, Debug)]
pub enum VoteRejection {
    NotInProgress,
}

/// Outcome of `cast_vote`.
#[derive(Clone, Copy, PartialEq, Eq, Structural, Debug)]
pub enum CastVoteResult {
    Accepted,
    ProposalNotFound,
    VoterNotRegistered,
    Rejected(VoteRejection),
}

/// The weight a vote token denotes: `-1` for the literal `"-"`, `+1` for
/// every other token. The lenient mapping of malformed tokens to `+1` is
/// deliberate and preserved.
pub open spec fn weight_of_token(t: Seq<char>) -> int {
    if t == "-"@ {
        -1
    } else {
        1
    }
}

/// Turns a weight token into a signed weight; any token but `"-"` counts
/// as `+1` by design.
pub fn parse_weight(token: &str) -> (w: i32)
    ensures
        w as int == weight_of_token(token@),
        w == -1 || w == 1,
{
    if str_eq(token, "-") {
        -1
    } else {
        1
    }
}

/// One voter's line in a poll's results: the display name and the weight.
pub struct VoteLine {
    pub voter_name: String,
    pub weight: i32,
}

/// One proposal's results: the item's name and the votes under it.
pub struct ProposalResult {
    pub item_name: String,
    pub votes: Vec<VoteLine>,
}

/// The results of one poll: every proposal under it with its votes, in
/// table order. Aggregation is left to the caller.
pub struct PollResults {
    pub poll_name: String,
    pub proposals: Vec<ProposalResult>,
}

/// Every proposal `props_of` selects belongs to the poll and keeps any
/// item-id bound that the whole table obeys.
pub proof fn lemma_props_of_bounds(ps: Seq<Proposal>, pid: int, b: int)
    requires
        forall|j: int| 0 <= j < ps.len() ==> (#[trigger] ps[j]).item_id < b,
    ensures
        forall|k: int|
            0 <= k < props_of(ps, pid).len() ==> (#[trigger] props_of(ps, pid)[k]).item_id < b
                && props_of(ps, pid)[k].poll_id == pid,
    decreases ps.len(),
{
    if ps.len() > 0 {
        assert(forall|j: int|
            0 <= j < ps.drop_last().len() ==> (#[trigger] ps.drop_last()[j]).item_id < b);
        lemma_props_of_bounds(ps.drop_last(), pid, b);
        let sub = props_of(ps.drop_last(), pid);
        assert((#[trigger] ps[ps.len() - 1]).item_id < b);
        assert forall|k: int|
            0 <= k < props_of(ps, pid).len() implies (#[trigger] props_of(ps, pid)[k]).item_id < b
            && props_of(ps, pid)[k].poll_id == pid by {
            if ps.last().poll_id == pid {
                assert(props_of(ps, pid) == sub.push(ps.last()));
                if k < sub.len() {
                    assert(props_of(ps, pid)[k] == sub[k]);
                } else {
                    assert(props_of(ps, pid)[k] == ps.last());
                }
            } else {
                assert(props_of(ps, pid) == sub);
            }
        }
    }
}

/// Every vote `votes_of` selects belongs to the proposal and keeps any
/// voter-id bound that the whole table obeys.
pub proof fn lemma_votes_of_bounds(vs: Seq<Vote>, pid: int, b: int)
    requires
        forall|j: int| 0 <= j < vs.len() ==> (#[trigger] vs[j]).voter_id < b,
    ensures
        forall|k: int|
            0 <= k < votes_of(vs, pid).len() ==> (#[trigger] votes_of(vs, pid)[k]).voter_id < b
                && votes_of(vs, pid)[k].proposal_id == pid,
    decreases vs.len(),
{
    if vs.len() > 0 {
        assert(forall|j: int|
            0 <= j < vs.drop_last().len() ==> (#[trigger] vs.drop_last()[j]).voter_id < b);
        lemma_votes_of_bounds(vs.drop_last(), pid, b);
        let sub = votes_of(vs.drop_last(), pid);
        assert((#[trigger] vs[vs.len() - 1]).voter_id < b);
        assert forall|k: int|
            0 <= k < votes_of(vs, pid).len() implies (#[trigger] votes_of(vs, pid)[k]).voter_id < b
            && votes_of(vs, pid)[k].proposal_id == pid by {
            if vs.last().proposal_id == pid {
                assert(votes_of(vs, pid) == sub.push(vs.last()));
                if k < sub.len() {
                    assert(votes_of(vs, pid)[k] == sub[k]);
                } else {
                    assert(votes_of(vs, pid)[k] == vs.last());
                }
            } else {
                assert(votes_of(vs, pid) == sub);
            }
        }
    }
}

/// The poll/voting domain state: one table per record kind.
pub struct PollEngine {
    pub polls: Vec<Poll>,
    pub items: Vec<Item>,
    pub proposals: Vec<Proposal>,
    pub voters: Vec<Voter>,
    pub votes: Vec<Vote>,
}

impl PollEngine {
    /// Every record's id is its position in its table.
    pub open spec fn ids_are_positions(self) -> bool {
        &&& forall|i: int| 0 <= i < self.polls@.len() ==> (#[trigger] self.polls@[i]).id == i
        &&& forall|i: int| 0 <= i < self.items@.len() ==> (#[trigger] self.items@[i]).id == i
        &&& forall|i: int|
            0 <= i < self.proposals@.len() ==> (#[trigger] self.proposals@[i]).id == i
        &&& forall|i: int| 0 <= i < self.voters@.len() ==> (#[trigger] self.voters@[i]).id == i
        &&& forall|i: int| 0 <= i < self.votes@.len() ==> (#[trigger] self.votes@[i]).id == i
    }

    /// The unique indexes: poll names, item names, voter transport ids,
    /// (poll, item) per proposal, (voter, proposal) per vote.
    pub open spec fn keys_unique(self) -> bool {
        &&& forall|i: int, j: int|
            0 <= i < j < self.polls@.len()
                ==> (#[trigger] self.polls@[i]).name@ != (#[trigger] self.polls@[j]).name@
        &&& forall|i: int, j: int|
            0 <= i < j < self.items@.len()
                ==> (#[trigger] self.items@[i]).name@ != (#[trigger] self.items@[j]).name@
        &&& forall|i: int, j: int|
            0 <= i < j < self.voters@.len()
                ==> ((#[trigger] self.voters@[i]).slack_id is Some
                    && (#[trigger] self.voters@[j]).slack_id is Some
                    ==> self.voters@[i].slack_id->0@ != self.voters@[j].slack_id->0@)
        &&& forall|i: int, j: int|
            0 <= i < j < self.proposals@.len()
                ==> !((#[trigger] self.proposals@[i]).poll_id == (
                #[trigger] self.proposals@[j]).poll_id && self.proposals@[i].item_id
                    == self.proposals@[j].item_id)
        &&& forall|i: int, j: int|
            0 <= i < j < self.votes@.len()
                ==> !((#[trigger] self.votes@[i]).voter_id == (#[trigger] self.votes@[j]).voter_id
                    && self.votes@[i].proposal_id == self.votes@[j].proposal_id)
    }

    /// Referential integrity: a proposal never references a missing poll or
    /// item, and a vote never references a missing voter or proposal.
    pub open spec fn refs_valid(self) -> bool {
        &&& forall|i: int|
            0 <= i < self.proposals@.len()
                ==> (#[trigger] self.proposals@[i]).poll_id < self.polls@.len()
                    && self.proposals@[i].item_id < self.items@.len()
        &&& forall|i: int|
            0 <= i < self.votes@.len()
                ==> (#[trigger] self.votes@[i]).voter_id < self.voters@.len()
                    && self.votes@[i].proposal_id < self.proposals@.len()
    }

    /// Every vote's weight is -1 or +1.
    pub open spec fn weights_valid(self) -> bool {
        forall|i: int|
            0 <= i < self.votes@.len()
                ==> (#[trigger] self.votes@[i]).weight == -1 || self.votes@[i].weight == 1
    }

    /// The integrity invariant of the whole store: constructors establish
    /// it and every operation preserves it.
    pub open spec fn wf(self) -> bool {
        &&& self.ids_are_positions()
        &&& self.keys_unique()
        &&& self.refs_valid()
        &&& self.weights_valid()
    }

    pub open spec fn has_poll_named(self, name: Seq<char>) -> bool {
        exists|i: int|
            0 <= i < self.polls@.len() && (#[trigger] self.polls@[i]).name@ == name
    }

    /// The position of the poll named `name`; meaningful under
    /// `has_poll_named`, and pinned by name uniqueness.
    pub open spec fn poll_named_idx(self, name: Seq<char>) -> int {
        choose|i: int|
            0 <= i < self.polls@.len() && (#[trigger] self.polls@[i]).name@ == name
    }

    pub open spec fn has_item_named(self, name: Seq<char>) -> bool {
        exists|i: int|
            0 <= i < self.items@.len() && (#[trigger] self.items@[i]).name@ == name
    }

    pub open spec fn item_named_idx(self, name: Seq<char>) -> int {
        choose|i: int|
            0 <= i < self.items@.len() && (#[trigger] self.items@[i]).name@ == name
    }

    pub open spec fn voter_matches(v: Voter, sid: Seq<char>) -> bool {
        v.slack_id matches Some(s) && s@ == sid
    }

    pub open spec fn has_voter_with_slack_id(self, sid: Seq<char>) -> bool {
        exists|i: int|
            0 <= i < self.voters@.len() && Self::voter_matches(#[trigger] self.voters@[i], sid)
    }

    pub open spec fn voter_slack_idx(self, sid: Seq<char>) -> int {
        choose|i: int|
            0 <= i < self.voters@.len() && Self::voter_matches(#[trigger] self.voters@[i], sid)
    }

    pub open spec fn has_proposal_for(self, poll_id: int, item_id: int) -> bool {
        exists|i: int|
            0 <= i < self.proposals@.len() && (#[trigger] self.proposals@[i]).poll_id == poll_id
                && self.proposals@[i].item_id == item_id
    }

    pub open spec fn proposal_for_idx(self, poll_id: int, item_id: int) -> int {
        choose|i: int|
            0 <= i < self.proposals@.len() && (#[trigger] self.proposals@[i]).poll_id == poll_id
                && self.proposals@[i].item_id == item_id
    }

    pub open spec fn has_vote_by(self, voter_id: int, proposal_id: int) -> bool {
        exists|i: int|
            0 <= i < self.votes@.len() && (#[trigger] self.votes@[i]).voter_id == voter_id
                && self.votes@[i].proposal_id == proposal_id
    }

    pub open spec fn vote_by_idx(self, voter_id: int, proposal_id: int) -> int {
        choose|i: int|
            0 <= i < self.votes@.len() && (#[trigger] self.votes@[i]).voter_id == voter_id
                && self.votes@[i].proposal_id == proposal_id
    }

    /// An empty store, trivially well formed.
    pub fn new() -> (e: PollEngine)
        ensures
            e.wf(),
            e.polls@.len() == 0,
            e.items@.len() == 0,
            e.proposals@.len() == 0,
            e.voters@.len() == 0,
            e.votes@.len() == 0,
    {
        PollEngine {
            polls: Vec::new(),
            items: Vec::new(),
            proposals: Vec::new(),
            voters: Vec::new(),
            votes: Vec::new(),
        }
    }

    /// Looks a poll up by its unique name.
    pub fn find_poll_by_name(&self, poll_name: &str) -> (r: Option<Poll>)
        requires
            self.wf(),
        ensures
            r is Some <==> self.has_poll_named(poll_name@),
            r matches Some(p) ==> p.id < self.polls@.len() && p == self.polls@[p.id as int]
                && p.name@ == poll_name@,
    {
        let n = self.polls.len();
        let mut i: usize = 0;
        while i < n
            invariant
                n == self.polls@.len(),
                i <= n,
                forall|k: int| 0 <= k < i ==> (#[trigger] self.polls@[k]).name@ != poll_name@,
                self.wf(),
            decreases n - i,
        {
            if str_eq(self.polls[i].name.as_str(), poll_name) {
                return Some(self.polls[i].clone());
            }
            i += 1;
        }
        None
    }

    /// Looks a poll up by its id, which is its position in the table.
    pub fn find_poll_by_id(&self, poll_id: usize) -> (r: Option<Poll>)
        requires
            self.wf(),
        ensures
            r is Some <==> poll_id < self.polls@.len(),
            r matches Some(p) ==> p == self.polls@[poll_id as int],
    {
        if poll_id < self.polls.len() {
            Some(self.polls[poll_id].clone())
        } else {
            None
        }
    }

    /// Looks an item up by its unique (lower-cased) name.
    pub fn find_item_by_name(&self, item_name: &str) -> (r: Option<Item>)
        requires
            self.wf(),
        ensures
            r is Some <==> self.has_item_named(item_name@),
            r matches Some(it) ==> it.id < self.items@.len() && it == self.items@[it.id as int]
                && it.name@ == item_name@,
    {
        let n = self.items.len();
        let mut i: usize = 0;
        while i < n
            invariant
                n == self.items@.len(),
                i <= n,
                forall|k: int| 0 <= k < i ==> (#[trigger] self.items@[k]).name@ != item_name@,
                self.wf(),
            decreases n - i,
        {
            if str_eq(self.items[i].name.as_str(), item_name) {
                return Some(self.items[i].clone());
            }
            i += 1;
        }
        None
    }

    /// Looks an item up by its id.
    pub fn find_item_by_id(&self, item_id: usize) -> (r: Option<Item>)
        requires
            self.wf(),
        ensures
            r is Some <==> item_id < self.items@.len(),
            r matches Some(it) ==> it == self.items@[item_id as int],
    {
        if item_id < self.items.len() {
            Some(self.items[item_id].clone())
        } else {
            None
        }
    }

    /// The item a proposal pairs with its poll.
    pub fn find_item_by_proposal(&self, proposal: &Proposal) -> (r: Option<Item>)
        requires
            self.wf(),
        ensures
            r is Some <==> proposal.item_id < self.items@.len(),
            r matches Some(it) ==> it == self.items@[proposal.item_id as int],
    {
        self.find_item_by_id(proposal.item_id)
    }

    /// Looks a voter up by its unique transport-side user id.
    pub fn find_voter_by_slack_id(&self, slack_id_param: &str) -> (r: Option<Voter>)
        requires
            self.wf(),
        ensures
            r is Some <==> self.has_voter_with_slack_id(slack_id_param@),
            r matches Some(v) ==> v.id < self.voters@.len() && v == self.voters@[v.id as int]
                && Self::voter_matches(v, slack_id_param@),
    {
        let n = self.voters.len();
        let mut i: usize = 0;
        while i < n
            invariant
                n == self.voters@.len(),
                i <= n,
                forall|k: int|
                    0 <= k < i ==> !Self::voter_matches(#[trigger] self.voters@[k],
                    slack_id_param@),
                self.wf(),
            decreases n - i,
        {
            let matched = match &self.voters[i].slack_id {
                Some(s) => str_eq(s.as_str(), slack_id_param),
                None => false,
            };
            if matched {
                return Some(self.voters[i].clone());
            }
            i += 1;
        }
        None
    }

    /// Looks a voter up by its id.
    pub fn find_voter_by_id(&self, voter_id: usize) -> (r: Option<Voter>)
        requires
            self.wf(),
        ensures
            r is Some <==> voter_id < self.voters@.len(),
            r matches Some(v) ==> v == self.voters@[voter_id as int],
    {
        if voter_id < self.voters.len() {
            Some(self.voters[voter_id].clone())
        } else {
            None
        }
    }

    /// The voter a vote was cast by.
    pub fn find_voter_by_vote(&self, vote: &Vote) -> (r: Option<Voter>)
        requires
            self.wf(),
        ensures
            r is Some <==> vote.voter_id < self.voters@.len(),
            r matches Some(v) ==> v == self.voters@[vote.voter_id as int],
    {
        self.find_voter_by_id(vote.voter_id)
    }

    /// Looks a proposal up by its id.
    pub fn find_proposal_by_id(&self, proposal_id: usize) -> (r: Option<Proposal>)
        requires
            self.wf(),
        ensures
            r is Some <==> proposal_id < self.proposals@.len(),
            r matches Some(p) ==> p == self.proposals@[proposal_id as int],
    {
        if proposal_id < self.proposals.len() {
            Some(self.proposals[proposal_id])
        } else {
            None
        }
    }

    /// Resolves a proposal from a poll name and an item name; `None` if
    /// either name is missing or no such pairing exists.
    pub fn find_proposal_by_poll_name_and_item_name(&self, poll_name: &str, item_name: &str) -> (r:
        Option<Proposal>)
        requires
            self.wf(),
        ensures
            r is Some <==> self.has_poll_named(poll_name@) && self.has_item_named(item_name@)
                && self.has_proposal_for(
                self.poll_named_idx(poll_name@),
                self.item_named_idx(item_name@),
            ),
            r matches Some(p) ==> p.id < self.proposals@.len() && p == self.proposals@[p.id as int]
                && p.poll_id == self.poll_named_idx(poll_name@) && p.item_id == self.item_named_idx(
                item_name@,
            ),
    {
        let poll_option = self.find_poll_by_name(poll_name);
        let item_option = self.find_item_by_name(item_name);
        let poll = match poll_option {
            Some(p) => p,
            None => {
                return None;
            },
        };
        let item = match item_option {
            Some(it) => it,
            None => {
                return None;
            },
        };
        proof {
            self.lemma_poll_named_idx_is(poll.id as int, poll_name@);
            self.lemma_item_named_idx_is(item.id as int, item_name@);
        }
        let n = self.proposals.len();
        let mut i: usize = 0;
        while i < n
            invariant
                n == self.proposals@.len(),
                i <= n,
                forall|k: int|
                    0 <= k < i ==> !((#[trigger] self.proposals@[k]).poll_id == poll.id
                        && self.proposals@[k].item_id == item.id),
                self.wf(),
                self.has_poll_named(poll_name@),
                self.poll_named_idx(poll_name@) == poll.id,
                self.has_item_named(item_name@),
                self.item_named_idx(item_name@) == item.id,
            decreases n - i,
        {
            if self.proposals[i].poll_id == poll.id && self.proposals[i].item_id == item.id {
                proof {
                    assert(0 <= i < self.proposals@.len() && (#[trigger] self.proposals@[
                    i as int]).poll_id == poll.id && self.proposals@[i as int].item_id == item.id);
                    assert(self.has_proposal_for(poll.id as int, item.id as int));
                }
                return Some(self.proposals[i]);
            }
            i += 1;
        }
        None
    }

    /// Looks the vote of one voter on one proposal up.
    pub fn find_vote_by_proposal_id_and_voter_id(
        &self,
        proposal_id_param: usize,
        voter_id_param: usize,
    ) -> (r: Option<Vote>)
        requires
            self.wf(),
        ensures
            r is Some <==> self.has_vote_by(voter_id_param as int, proposal_id_param as int),
            r matches Some(v) ==> v.id < self.votes@.len() && v == self.votes@[v.id as int]
                && v.voter_id == voter_id_param && v.proposal_id == proposal_id_param,
    {
        let n = self.votes.len();
        let mut i: usize = 0;
        while i < n
            invariant
                n == self.votes@.len(),
                i <= n,
                forall|k: int|
                    0 <= k < i ==> !((#[trigger] self.votes@[k]).voter_id == voter_id_param
                        && self.votes@[k].proposal_id == proposal_id_param),
                self.wf(),
            decreases n - i,
        {
            if self.votes[i].proposal_id == proposal_id_param && self.votes[i].voter_id
                == voter_id_param {
                return Some(self.votes[i]);
            }
            i += 1;
        }
        None
    }

    /// Whether one voter has already voted on one proposal.
    pub fn exists_vote(&self, proposal_id: usize, voter_id: usize) -> (r: bool)
        requires
            self.wf(),
        ensures
            r == self.has_vote_by(voter_id as int, proposal_id as int),
    {
        self.find_vote_by_proposal_id_and_voter_id(proposal_id, voter_id).is_some()
    }

    /// The proposals under a poll, in table order.
    pub fn find_proposals_by_poll(&self, poll: &Poll) -> (r: Vec<Proposal>)
        requires
            self.wf(),
        ensures
            r@ == props_of(self.proposals@, poll.id as int),
    {
        let n = self.proposals.len();
        let mut out: Vec<Proposal> = Vec::new();
        let mut i: usize = 0;
        while i < n
            invariant
                n == self.proposals@.len(),
                i <= n,
                out@ == props_of(self.proposals@.take(i as int), poll.id as int),
            decreases n - i,
        {
            proof {
                assert(self.proposals@.take(i + 1).drop_last() =~= self.proposals@.take(i as int));
                assert(self.proposals@.take(i + 1).last() == self.proposals@[i as int]);
            }
            if self.proposals[i].poll_id == poll.id {
                out.push(self.proposals[i]);
            }
            i += 1;
        }
        proof {
            assert(self.proposals@.take(n as int) =~= self.proposals@);
        }
        out
    }

    /// The votes under a proposal, in table order.
    pub fn find_votes_by_proposal(&self, proposal: &Proposal) -> (r: Vec<Vote>)
        requires
            self.wf(),
        ensures
            r@ == votes_of(self.votes@, proposal.id as int),
    {
        let n = self.votes.len();
        let mut out: Vec<Vote> = Vec::new();
        let mut i: usize = 0;
        while i < n
            invariant
                n == self.votes@.len(),
                i <= n,
                out@ == votes_of(self.votes@.take(i as int), proposal.id as int),
            decreases n - i,
        {
            proof {
                assert(self.votes@.take(i + 1).drop_last() =~= self.votes@.take(i as int));
                assert(self.votes@.take(i + 1).last() == self.votes@[i as int]);
            }
            if self.votes[i].proposal_id == proposal.id {
                out.push(self.votes[i]);
            }
            i += 1;
        }
        proof {
            assert(self.votes@.take(n as int) =~= self.votes@);
        }
        out
    }

    /// The `num` most recently created polls, most recent first.
    pub fn find_last_n_polls(&self, num: usize) -> (r: Vec<Poll>)
        requires
            self.wf(),
        ensures
            r@.len() == if num <= self.polls@.len() {
                num as int
            } else {
                self.polls@.len() as int
            },
            forall|k: int|
                0 <= k < r@.len() ==> #[trigger] r@[k] == self.polls@[self.polls@.len() - 1 - k],
    {
        let n = self.polls.len();
        let mut out: Vec<Poll> = Vec::new();
        let mut k: usize = 0;
        while k < num && k < n
            invariant
                n == self.polls@.len(),
                k <= num,
                k <= n,
                out@.len() == k,
                forall|j: int|
                    0 <= j < k ==> #[trigger] out@[j] == self.polls@[self.polls@.len() - 1 - j],
            decreases n - k,
        {
            out.push(self.polls[n - 1 - k].clone());
            k += 1;
        }
        out
    }

    /// The `num` most recently created items, most recent first.
    pub fn find_last_n_items(&self, num: usize) -> (r: Vec<Item>)
        requires
            self.wf(),
        ensures
            r@.len() == if num <= self.items@.len() {
                num as int
            } else {
                self.items@.len() as int
            },
            forall|k: int|
                0 <= k < r@.len() ==> #[trigger] r@[k] == self.items@[self.items@.len() - 1 - k],
    {
        let n = self.items.len();
        let mut out: Vec<Item> = Vec::new();
        let mut k: usize = 0;
        while k < num && k < n
            invariant
                n == self.items@.len(),
                k <= num,
                k <= n,
                out@.len() == k,
                forall|j: int|
                    0 <= j < k ==> #[trigger] out@[j] == self.items@[self.items@.len() - 1 - j],
            decreases n - k,
        {
            out.push(self.items[n - 1 - k].clone());
            k += 1;
        }
        out
    }

    /// Under the invariant, a position holding a poll of some name is the
    /// position `poll_named_idx` denotes.
    pub proof fn lemma_poll_named_idx_is(self, i: int, name: Seq<char>)
        requires
            self.wf(),
            0 <= i < self.polls@.len(),
            self.polls@[i].name@ == name,
        ensures
            self.has_poll_named(name),
            self.poll_named_idx(name) == i,
    {
        assert(self.has_poll_named(name));
        let j = self.poll_named_idx(name);
        assert(0 <= j < self.polls@.len() && self.polls@[j].name@ == name);
        if i < j {
            assert(self.polls@[i].name@ != self.polls@[j].name@);
        } else if j < i {
            assert(self.polls@[j].name@ != self.polls@[i].name@);
        }
    }

    /// The counterpart of `lemma_poll_named_idx_is` for items.
    pub proof fn lemma_item_named_idx_is(self, i: int, name: Seq<char>)
        requires
            self.wf(),
            0 <= i < self.items@.len(),
            self.items@[i].name@ == name,
        ensures
            self.has_item_named(name),
            self.item_named_idx(name) == i,
    {
        assert(self.has_item_named(name));
        let j = self.item_named_idx(name);
        assert(0 <= j < self.items@.len() && self.items@[j].name@ == name);
        if i < j {
            assert(self.items@[i].name@ != self.items@[j].name@);
        } else if j < i {
            assert(self.items@[j].name@ != self.items@[i].name@);
        }
    }

    /// The counterpart of `lemma_poll_named_idx_is` for voters and their
    /// transport ids.
    pub proof fn lemma_voter_slack_idx_is(self, i: int, sid: Seq<char>)
        requires
            self.wf(),
            0 <= i < self.voters@.len(),
            Self::voter_matches(self.voters@[i], sid),
        ensures
            self.has_voter_with_slack_id(sid),
            self.voter_slack_idx(sid) == i,
    {
        assert(self.has_voter_with_slack_id(sid));
        let j = self.voter_slack_idx(sid);
        assert(0 <= j < self.voters@.len() && Self::voter_matches(self.voters@[j], sid));
        if i < j {
            assert(!(self.voters@[i].slack_id is Some && self.voters@[j].slack_id is Some)
                || self.voters@[i].slack_id->0@ != self.voters@[j].slack_id->0@);
        } else if j < i {
            assert(!(self.voters@[j].slack_id is Some && self.voters@[i].slack_id is Some)
                || self.voters@[j].slack_id->0@ != self.voters@[i].slack_id->0@);
        }
    }

    /// The counterpart of `lemma_poll_named_idx_is` for the (poll, item)
    /// key of proposals.
    pub proof fn lemma_proposal_for_idx_is(self, i: int, poll_id: int, item_id: int)
        requires
            self.wf(),
            0 <= i < self.proposals@.len(),
            self.proposals@[i].poll_id == poll_id,
            self.proposals@[i].item_id == item_id,
        ensures
            self.has_proposal_for(poll_id, item_id),
            self.proposal_for_idx(poll_id, item_id) == i,
    {
        assert(self.has_proposal_for(poll_id, item_id));
        let j = self.proposal_for_idx(poll_id, item_id);
        if i < j {
            assert(!(self.proposals@[i].poll_id == self.proposals@[j].poll_id
                && self.proposals@[i].item_id == self.proposals@[j].item_id));
        } else if j < i {
            assert(!(self.proposals@[j].poll_id == self.proposals@[i].poll_id
                && self.proposals@[j].item_id == self.proposals@[i].item_id));
        }
    }

    /// The counterpart of `lemma_poll_named_idx_is` for the (voter,
    /// proposal) key of votes.
    pub proof fn lemma_vote_by_idx_is(self, i: int, voter_id: int, proposal_id: int)
        requires
            self.wf(),
            0 <= i < self.votes@.len(),
            self.votes@[i].voter_id == voter_id,
            self.votes@[i].proposal_id == proposal_id,
        ensures
            self.has_vote_by(voter_id, proposal_id),
            self.vote_by_idx(voter_id, proposal_id) == i,
    {
        assert(self.has_vote_by(voter_id, proposal_id));
        let j = self.vote_by_idx(voter_id, proposal_id);
        if i < j {
            assert(!(self.votes@[i].voter_id == self.votes@[j].voter_id
                && self.votes@[i].proposal_id == self.votes@[j].proposal_id));
        } else if j < i {
            assert(!(self.votes@[j].voter_id == self.votes@[i].voter_id
                && self.votes@[j].proposal_id == self.votes@[i].proposal_id));
        }
    }

    /// All tables but the poll table agree between two states.
    pub open spec fn same_but_polls(pre: Self, post: Self) -> bool {
        &&& post.items@ == pre.items@
        &&& post.proposals@ == pre.proposals@
        &&& post.voters@ == pre.voters@
        &&& post.votes@ == pre.votes@
    }

    /// All tables but the item table agree between two states.
    pub open spec fn same_but_items(pre: Self, post: Self) -> bool {
        &&& post.polls@ == pre.polls@
        &&& post.proposals@ == pre.proposals@
        &&& post.voters@ == pre.voters@
        &&& post.votes@ == pre.votes@
    }

    /// All tables but the proposal table agree between two states.
    pub open spec fn same_but_proposals(pre: Self, post: Self) -> bool {
        &&& post.polls@ == pre.polls@
        &&& post.items@ == pre.items@
        &&& post.voters@ == pre.voters@
        &&& post.votes@ == pre.votes@
    }

    /// All tables but the voter table agree between two states.
    pub open spec fn same_but_voters(pre: Self, post: Self) -> bool {
        &&& post.polls@ == pre.polls@
        &&& post.items@ == pre.items@
        &&& post.proposals@ == pre.proposals@
        &&& post.votes@ == pre.votes@
    }

    /// All tables but the vote table agree between two states.
    pub open spec fn same_but_votes(pre: Self, post: Self) -> bool {
        &&& post.polls@ == pre.polls@
        &&& post.items@ == pre.items@
        &&& post.proposals@ == pre.proposals@
        &&& post.voters@ == pre.voters@
    }

    /// What `create_poll` does: either the name is taken and nothing moves,
    /// or exactly one poll is appended, in `Stopped`, under the given name.
    pub open spec fn create_poll_rel(
        pre: Self,
        post: Self,
        name: Seq<char>,
        r: CreatePollResult,
    ) -> bool {
        if pre.has_poll_named(name) {
            r is DuplicateName && post == pre
        } else {
            &&& r is Created
            &&& post.polls@.len() == pre.polls@.len() + 1
            &&& post.polls@ == pre.polls@.push(post.polls@.last())
            &&& post.polls@.last().id == pre.polls@.len()
            &&& post.polls@.last().name@ == name
            &&& post.polls@.last().status is Stopped
            &&& post.polls@.last().started_at is None
            &&& post.polls@.last().concluded_at is None
            &&& Self::same_but_polls(pre, post)
        }
    }

    /// Creates a poll in `Stopped`; rejects a taken name.
    pub fn create_poll(&mut self, name: &str) -> (r: CreatePollResult)
        requires
            old(self).wf(),
        ensures
            final(self).wf(),
            Self::create_poll_rel(*old(self), *final(self), name@, r),
    {
        if self.find_poll_by_name(name).is_some() {
            return CreatePollResult::DuplicateName;
        }
        let row = NewPoll { name: name.to_owned(), status: PollStatus::Stopped };
        let poll = Poll {
            id: self.polls.len(),
            name: row.name,
            status: row.status,
            started_at: None,
            concluded_at: None,
        };
        self.polls.push(poll);
        proof {
            let pre = *old(self);
            let post = *self;
            assert forall|i: int| 0 <= i < post.polls@.len() implies (#[trigger] post.polls@[
            i]).id == i by {
                if i < pre.polls@.len() {
                    assert(post.polls@[i] == pre.polls@[i]);
                }
            }
            assert forall|a: int, b: int| 0 <= a < b < post.polls@.len() implies (
            #[trigger] post.polls@[a]).name@ != (#[trigger] post.polls@[b]).name@ by {
                if b < pre.polls@.len() {
                    assert(post.polls@[a] == pre.polls@[a]);
                } else {
                    assert(post.polls@[a] == pre.polls@[a]);
                    if pre.polls@[a].name@ == name@ {
                        assert(pre.has_poll_named(name@));
                    }
                }
            }
        }
        CreatePollResult::Created
    }

    /// Whether a poll of this name exists and stands in `Stopped`.
    pub fn can_start_poll(&self, poll_name: &str) -> (r: bool)
        requires
            self.wf(),
        ensures
            r == (self.has_poll_named(poll_name@) && self.polls@[self.poll_named_idx(
                poll_name@,
            )].status is Stopped),
    {
        match self.find_poll_by_name(poll_name) {
            Some(p) => {
                proof {
                    self.lemma_poll_named_idx_is(p.id as int, poll_name@);
                }
                p.status == PollStatus::Stopped
            },
            None => false,
        }
    }

    /// What `start_poll` does: only a `Stopped` poll starts, and only its
    /// status moves, to `InProgress`.
    pub open spec fn start_poll_rel(
        pre: Self,
        post: Self,
        name: Seq<char>,
        r: StartPollResult,
    ) -> bool {
        if !pre.has_poll_named(name) {
            r is NotFound && post == pre
        } else {
            let i = pre.poll_named_idx(name);
            if !(pre.polls@[i].status is Stopped) {
                r is NotInStoppedState && post == pre
            } else {
                &&& r is Started
                &&& post.polls@.len() == pre.polls@.len()
                &&& post.polls@[i].id == pre.polls@[i].id
                &&& post.polls@[i].name == pre.polls@[i].name
                &&& post.polls@[i].status is InProgress
                &&& post.polls@[i].started_at == pre.polls@[i].started_at
                &&& post.polls@[i].concluded_at == pre.polls@[i].concluded_at
                &&& forall|k: int|
                    0 <= k < pre.polls@.len() && k != i ==> post.polls@[k] == pre.polls@[k]
                &&& Self::same_but_polls(pre, post)
            }
        }
    }

    /// Starts a poll: a one-way transition out of `Stopped`.
    pub fn start_poll(&mut self, poll_name: &str) -> (r: StartPollResult)
        requires
            old(self).wf(),
        ensures
            final(self).wf(),
            Self::start_poll_rel(*old(self), *final(self), poll_name@, r),
    {
        let p = match self.find_poll_by_name(poll_name) {
            Some(p) => p,
            None => {
                return StartPollResult::NotFound;
            },
        };
        proof {
            self.lemma_poll_named_idx_is(p.id as int, poll_name@);
        }
        if !(p.status == PollStatus::Stopped) {
            return StartPollResult::NotInStoppedState;
        }
        let i = p.id;
        self.polls[i].status = PollStatus::InProgress;
        proof {
            let pre = *old(self);
            let post = *self;
            assert forall|a: int, b: int| 0 <= a < b < post.polls@.len() implies (
            #[trigger] post.polls@[a]).name@ != (#[trigger] post.polls@[b]).name@ by {
                assert(post.polls@[a].name == pre.polls@[a].name);
                assert(post.polls@[b].name == pre.polls@[b].name);
            }
            assert forall|k: int| 0 <= k < post.polls@.len() implies (#[trigger] post.polls@[
            k]).id == k by {
                assert(post.polls@[k].id == pre.polls@[k].id);
            }
        }
        StartPollResult::Started
    }

    /// Whether a poll of this name exists and is not yet `Concluded`.
    pub fn can_conclude_poll(&self, poll_name: &str) -> (r: bool)
        requires
            self.wf(),
        ensures
            r == (self.has_poll_named(poll_name@) && !(self.polls@[self.poll_named_idx(
                poll_name@,
            )].status is Concluded)),
    {
        match self.find_poll_by_name(poll_name) {
            Some(p) => {
                proof {
                    self.lemma_poll_named_idx_is(p.id as int, poll_name@);
                }
                !(p.status == PollStatus::Concluded)
            },
            None => false,
        }
    }

    /// What `conclude_poll` does: a poll not yet `Concluded` moves there,
    /// and nothing ever leaves `Concluded`.
    pub open spec fn conclude_poll_rel(
        pre: Self,
        post: Self,
        name: Seq<char>,
        r: ConcludePollResult,
    ) -> bool {
        if !pre.has_poll_named(name) {
            r is NotFound && post == pre
        } else {
            let i = pre.poll_named_idx(name);
            if pre.polls@[i].status is Concluded {
                r is AlreadyConcluded && post == pre
            } else {
                &&& r is Concluded
                &&& post.polls@.len() == pre.polls@.len()
                &&& post.polls@[i].id == pre.polls@[i].id
                &&& post.polls@[i].name == pre.polls@[i].name
                &&& post.polls@[i].status is Concluded
                &&& post.polls@[i].started_at == pre.polls@[i].started_at
                &&& post.polls@[i].concluded_at == pre.polls@[i].concluded_at
                &&& forall|k: int|
                    0 <= k < pre.polls@.len() && k != i ==> post.polls@[k] == pre.polls@[k]
                &&& Self::same_but_polls(pre, post)
            }
        }
    }

    /// Concludes a poll; a poll already concluded stays untouched.
    pub fn conclude_poll(&mut self, poll_name: &str) -> (r: ConcludePollResult)
        requires
            old(self).wf(),
        ensures
            final(self).wf(),
            Self::conclude_poll_rel(*old(self), *final(self), poll_name@, r),
    {
        let p = match self.find_poll_by_name(poll_name) {
            Some(p) => p,
            None => {
                return ConcludePollResult::NotFound;
            },
        };
        proof {
            self.lemma_poll_named_idx_is(p.id as int, poll_name@);
        }
        if p.status == PollStatus::Concluded {
            return ConcludePollResult::AlreadyConcluded;
        }
        let i = p.id;
        self.polls[i].status = PollStatus::Concluded;
        proof {
            let pre = *old(self);
            let post = *self;
            assert forall|a: int, b: int| 0 <= a < b < post.polls@.len() implies (
            #[trigger] post.polls@[a]).name@ != (#[trigger] post.polls@[b]).name@ by {
                assert(post.polls@[a].name == pre.polls@[a].name);
                assert(post.polls@[b].name == pre.polls@[b].name);
            }
            assert forall|k: int| 0 <= k < post.polls@.len() implies (#[trigger] post.polls@[
            k]).id == k by {
                assert(post.polls@[k].id == pre.polls@[k].id);
            }
        }
        ConcludePollResult::Concluded
    }

    /// What `create_item` does: the name is stored lower-cased, and the
    /// duplicate check is made against that stored, lower-cased form.
    pub open spec fn create_item_rel(
        pre: Self,
        post: Self,
        raw_name: Seq<char>,
        r: CreateItemResult,
    ) -> bool {
        let low = lower_of(raw_name);
        if pre.has_item_named(low) {
            r is DuplicateName && post == pre
        } else {
            &&& r is Created
            &&& post.items@.len() == pre.items@.len() + 1
            &&& post.items@ == pre.items@.push(post.items@.last())
            &&& post.items@.last().id == pre.items@.len()
            &&& post.items@.last().name@ == low
            &&& Self::same_but_items(pre, post)
        }
    }

    /// Creates an item, storing its name lower-cased; rejects a name whose
    /// lower-cased form is taken.
    pub fn create_item(&mut self, item_name: &str) -> (r: CreateItemResult)
        requires
            old(self).wf(),
        ensures
            final(self).wf(),
            Self::create_item_rel(*old(self), *final(self), item_name@, r),
    {
        let lowered = lowercase(item_name);
        if self.find_item_by_name(lowered.as_str()).is_some() {
            return CreateItemResult::DuplicateName;
        }
        let row = NewItem { name: lowered };
        let item = Item { id: self.items.len(), name: row.name };
        self.items.push(item);
        proof {
            let pre = *old(self);
            let post = *self;
            assert forall|i: int| 0 <= i < post.items@.len() implies (#[trigger] post.items@[
            i]).id == i by {
                if i < pre.items@.len() {
                    assert(post.items@[i] == pre.items@[i]);
                }
            }
            assert forall|a: int, b: int| 0 <= a < b < post.items@.len() implies (
            #[trigger] post.items@[a]).name@ != (#[trigger] post.items@[b]).name@ by {
                if b < pre.items@.len() {
                    assert(post.items@[a] == pre.items@[a]);
                } else {
                    assert(post.items@[a] == pre.items@[a]);
                    if pre.items@[a].name@ == lower_of(item_name@) {
                        assert(pre.has_item_named(lower_of(item_name@)));
                    }
                }
            }
        }
        CreateItemResult::Created
    }

    /// What `create_voter` does: registration is unique by the
    /// transport-side user id.
    pub open spec fn create_voter_rel(
        pre: Self,
        post: Self,
        user_id: Seq<char>,
        user_name: Seq<char>,
        r: RegisterVoterResult,
    ) -> bool {
        if pre.has_voter_with_slack_id(user_id) {
            r is AlreadyRegistered && post == pre
        } else {
            &&& r is Created
            &&& post.voters@.len() == pre.voters@.len() + 1
            &&& post.voters@ == pre.voters@.push(post.voters@.last())
            &&& post.voters@.last().id == pre.voters@.len()
            &&& post.voters@.last().name@ == user_name
            &&& Self::voter_matches(post.voters@.last(), user_id)
            &&& Self::same_but_voters(pre, post)
        }
    }

    /// Registers a voter under its transport-side user id; a second
    /// registration under the same id is rejected.
    pub fn create_voter(&mut self, user_id: &str, user_name: &str) -> (r: RegisterVoterResult)
        requires
            old(self).wf(),
        ensures
            final(self).wf(),
            Self::create_voter_rel(*old(self), *final(self), user_id@, user_name@, r),
    {
        if self.find_voter_by_slack_id(user_id).is_some() {
            return RegisterVoterResult::AlreadyRegistered;
        }
        let row = NewVoter { name: user_name.to_owned(), slack_id: Some(user_id.to_owned()) };
        let voter = Voter { id: self.voters.len(), name: row.name, slack_id: row.slack_id };
        self.voters.push(voter);
        proof {
            let pre = *old(self);
            let post = *self;
            assert forall|i: int| 0 <= i < post.voters@.len() implies (#[trigger] post.voters@[
            i]).id == i by {
                if i < pre.voters@.len() {
                    assert(post.voters@[i] == pre.voters@[i]);
                }
            }
            assert forall|a: int, b: int| 0 <= a < b < post.voters@.len() implies ((
            #[trigger] post.voters@[a]).slack_id is Some && (#[trigger] post.voters@[
            b]).slack_id is Some ==> post.voters@[a].slack_id->0@ != post.voters@[
            b].slack_id->0@) by {
                if b < pre.voters@.len() {
                    assert(post.voters@[a] == pre.voters@[a]);
                } else {
                    assert(post.voters@[a] == pre.voters@[a]);
                    if Self::voter_matches(pre.voters@[a], user_id@) {
                        assert(pre.has_voter_with_slack_id(user_id@));
                    }
                }
            }
        }
        RegisterVoterResult::Created
    }

    /// What `create_proposal` does: both names must resolve, the (poll,
    /// item) pairing must be new, and then exactly one proposal is
    /// appended.
    pub open spec fn create_proposal_rel(
        pre: Self,
        post: Self,
        poll_name: Seq<char>,
        item_name: Seq<char>,
        r: CreateProposalResult,
    ) -> bool {
        if !pre.has_poll_named(poll_name) {
            r is PollNotFound && post == pre
        } else if !pre.has_item_named(item_name) {
            r is ItemNotFound && post == pre
        } else {
            let pi = pre.poll_named_idx(poll_name);
            let ii = pre.item_named_idx(item_name);
            if pre.has_proposal_for(pi, ii) {
                r is DuplicateProposal && post == pre
            } else {
                &&& r is Created
                &&& post.proposals@ == pre.proposals@.push(
                    Proposal {
                        id: pre.proposals@.len() as usize,
                        poll_id: pi as usize,
                        item_id: ii as usize,
                    },
                )
                &&& Self::same_but_proposals(pre, post)
            }
        }
    }

    /// Pairs an existing item with an existing poll; the pairing is unique.
    pub fn create_proposal(&mut self, poll_name: &str, item_name: &str) -> (r:
        CreateProposalResult)
        requires
            old(self).wf(),
        ensures
            final(self).wf(),
            Self::create_proposal_rel(*old(self), *final(self), poll_name@, item_name@, r),
    {
        let poll = match self.find_poll_by_name(poll_name) {
            Some(p) => p,
            None => {
                return CreateProposalResult::PollNotFound;
            },
        };
        let item = match self.find_item_by_name(item_name) {
            Some(it) => it,
            None => {
                return CreateProposalResult::ItemNotFound;
            },
        };
        proof {
            self.lemma_poll_named_idx_is(poll.id as int, poll_name@);
            self.lemma_item_named_idx_is(item.id as int, item_name@);
        }
        if self.find_proposal_by_poll_name_and_item_name(poll_name, item_name).is_some() {
            return CreateProposalResult::DuplicateProposal;
        }
        let row = NewProposal { poll_id: poll.id, item_id: item.id };
        let proposal = Proposal {
            id: self.proposals.len(),
            poll_id: row.poll_id,
            item_id: row.item_id,
        };
        self.proposals.push(proposal);
        proof {
            let pre = *old(self);
            let post = *self;
            assert forall|i: int| 0 <= i < post.proposals@.len() implies (
            #[trigger] post.proposals@[i]).id == i by {
                if i < pre.proposals@.len() {
                    assert(post.proposals@[i] == pre.proposals@[i]);
                }
            }
            assert forall|a: int, b: int| 0 <= a < b < post.proposals@.len() implies !((
            #[trigger] post.proposals@[a]).poll_id == (#[trigger] post.proposals@[b]).poll_id
                && post.proposals@[a].item_id == post.proposals@[b].item_id) by {
                if b < pre.proposals@.len() {
                    assert(post.proposals@[a] == pre.proposals@[a]);
                } else {
                    assert(post.proposals@[a] == pre.proposals@[a]);
                    if pre.proposals@[a].poll_id == poll.id && pre.proposals@[a].item_id
                        == item.id {
                        assert(pre.has_proposal_for(poll.id as int, item.id as int));
                    }
                }
            }
            assert forall|i: int| 0 <= i < post.proposals@.len() implies (
            #[trigger] post.proposals@[i]).poll_id < post.polls@.len() && post.proposals@[
            i].item_id < post.items@.len() by {
                if i < pre.proposals@.len() {
                    assert(post.proposals@[i] == pre.proposals@[i]);
                }
            }
        }
        CreateProposalResult::Created
    }

    /// Whether the poll a proposal belongs to is in progress, the condition
    /// every vote write must meet.
    pub fn can_vote_for_proposal(&self, proposal: &Proposal) -> (r: bool)
        requires
            self.wf(),
        ensures
            r == (proposal.poll_id < self.polls@.len() && self.polls@[
            proposal.poll_id as int].status is InProgress),
    {
        match self.find_poll_by_id(proposal.poll_id) {
            Some(poll) => poll.status == PollStatus::InProgress,
            None => false,
        }
    }

    /// The guard on vote writes: both rows exist and the proposal's poll is
    /// in progress.
    pub open spec fn vote_allowed(pre: Self, voter_id: int, proposal_id: int) -> bool {
        &&& 0 <= voter_id < pre.voters@.len()
        &&& 0 <= proposal_id < pre.proposals@.len()
        &&& pre.polls@[pre.proposals@[proposal_id].poll_id as int].status is InProgress
    }

    /// What `create_vote` does: a first vote by a voter on a proposal is
    /// appended while the poll is in progress; anything else moves nothing.
    pub open spec fn create_vote_rel(
        pre: Self,
        post: Self,
        voter_id: int,
        proposal_id: int,
        weight: int,
        r: bool,
    ) -> bool {
        if Self::vote_allowed(pre, voter_id, proposal_id) && !pre.has_vote_by(
            voter_id,
            proposal_id,
        ) {
            &&& r
            &&& post.votes@ == pre.votes@.push(
                Vote {
                    id: pre.votes@.len() as usize,
                    voter_id: voter_id as usize,
                    proposal_id: proposal_id as usize,
                    weight: weight as i32,
                },
            )
            &&& Self::same_but_votes(pre, post)
        } else {
            !r && post == pre
        }
    }

    /// Inserts a first vote. A vote already present is refused, as the
    /// unique index on (voter, proposal) would refuse the insert.
    pub fn create_vote(&mut self, voter_id: usize, proposal_id: usize, weight: i32) -> (r: bool)
        requires
            old(self).wf(),
            weight == -1 || weight == 1,
        ensures
            final(self).wf(),
            Self::create_vote_rel(
                *old(self),
                *final(self),
                voter_id as int,
                proposal_id as int,
                weight as int,
                r,
            ),
    {
        if self.find_voter_by_id(voter_id).is_none() {
            return false;
        }
        let proposal = match self.find_proposal_by_id(proposal_id) {
            Some(p) => p,
            None => {
                return false;
            },
        };
        if !self.can_vote_for_proposal(&proposal) {
            return false;
        }
        if self.exists_vote(proposal_id, voter_id) {
            return false;
        }
        let row = NewVote { voter_id, proposal_id, weight };
        let vote = Vote {
            id: self.votes.len(),
            voter_id: row.voter_id,
            proposal_id: row.proposal_id,
            weight: row.weight,
        };
        self.votes.push(vote);
        proof {
            let pre = *old(self);
            let post = *self;
            assert forall|i: int| 0 <= i < post.votes@.len() implies (#[trigger] post.votes@[
            i]).id == i by {
                if i < pre.votes@.len() {
                    assert(post.votes@[i] == pre.votes@[i]);
                }
            }
            assert forall|a: int, b: int| 0 <= a < b < post.votes@.len() implies !((
            #[trigger] post.votes@[a]).voter_id == (#[trigger] post.votes@[b]).voter_id
                && post.votes@[a].proposal_id == post.votes@[b].proposal_id) by {
                if b < pre.votes@.len() {
                    assert(post.votes@[a] == pre.votes@[a]);
                } else {
                    assert(post.votes@[a] == pre.votes@[a]);
                    if pre.votes@[a].voter_id == voter_id && pre.votes@[a].proposal_id
                        == proposal_id {
                        assert(pre.has_vote_by(voter_id as int, proposal_id as int));
                    }
                }
            }
            assert forall|i: int| 0 <= i < post.votes@.len() implies (#[trigger] post.votes@[
            i]).voter_id < post.voters@.len() && post.votes@[i].proposal_id
                < post.proposals@.len() by {
                if i < pre.votes@.len() {
                    assert(post.votes@[i] == pre.votes@[i]);
                }
            }
            assert forall|i: int| 0 <= i < post.votes@.len() implies (#[trigger] post.votes@[
            i]).weight == -1 || post.votes@[i].weight == 1 by {
                if i < pre.votes@.len() {
                    assert(post.votes@[i] == pre.votes@[i]);
                }
            }
        }
        true
    }

    /// What `update_vote` does: an existing vote's weight is overwritten in
    /// place while the poll is in progress; anything else moves nothing.
    pub open spec fn update_vote_rel(
        pre: Self,
        post: Self,
        voter_id: int,
        proposal_id: int,
        weight: int,
        r: bool,
    ) -> bool {
        if Self::vote_allowed(pre, voter_id, proposal_id) && pre.has_vote_by(
            voter_id,
            proposal_id,
        ) {
            let xi = pre.vote_by_idx(voter_id, proposal_id);
            &&& r
            &&& post.votes@ == pre.votes@.update(
                xi,
                Vote {
                    id: pre.votes@[xi].id,
                    voter_id: pre.votes@[xi].voter_id,
                    proposal_id: pre.votes@[xi].proposal_id,
                    weight: weight as i32,
                },
            )
            &&& Self::same_but_votes(pre, post)
        } else {
            !r && post == pre
        }
    }

    /// Overwrites the weight of an existing vote: last write wins; a
    /// missing vote is a typed failure, not an insert.
    pub fn update_vote(&mut self, voter_id_param: usize, proposal_id_param: usize, weight_param:
        i32) -> (r: bool)
        requires
            old(self).wf(),
            weight_param == -1 || weight_param == 1,
        ensures
            final(self).wf(),
            Self::update_vote_rel(
                *old(self),
                *final(self),
                voter_id_param as int,
                proposal_id_param as int,
                weight_param as int,
                r,
            ),
    {
        if self.find_voter_by_id(voter_id_param).is_none() {
            return false;
        }
        let proposal = match self.find_proposal_by_id(proposal_id_param) {
            Some(p) => p,
            None => {
                return false;
            },
        };
        if !self.can_vote_for_proposal(&proposal) {
            return false;
        }
        let vote = match self.find_vote_by_proposal_id_and_voter_id(
            proposal_id_param,
            voter_id_param,
        ) {
            Some(v) => v,
            None => {
                return false;
            },
        };
        proof {
            self.lemma_vote_by_idx_is(vote.id as int, voter_id_param as int,
                proposal_id_param as int);
        }
        let xi = vote.id;
        self.votes[xi].weight = weight_param;
        proof {
            let pre = *old(self);
            let post = *self;
            assert forall|i: int| 0 <= i < post.votes@.len() implies (#[trigger] post.votes@[
            i]).id == i by {
                assert(post.votes@[i].id == pre.votes@[i].id);
            }
            assert forall|a: int, b: int| 0 <= a < b < post.votes@.len() implies !((
            #[trigger] post.votes@[a]).voter_id == (#[trigger] post.votes@[b]).voter_id
                && post.votes@[a].proposal_id == post.votes@[b].proposal_id) by {
                assert(post.votes@[a].voter_id == pre.votes@[a].voter_id);
                assert(post.votes@[a].proposal_id == pre.votes@[a].proposal_id);
                assert(post.votes@[b].voter_id == pre.votes@[b].voter_id);
                assert(post.votes@[b].proposal_id == pre.votes@[b].proposal_id);
            }
            assert forall|i: int| 0 <= i < post.votes@.len() implies (#[trigger] post.votes@[
            i]).voter_id < post.voters@.len() && post.votes@[i].proposal_id
                < post.proposals@.len() by {
                assert(post.votes@[i].voter_id == pre.votes@[i].voter_id);
                assert(post.votes@[i].proposal_id == pre.votes@[i].proposal_id);
            }
            assert forall|i: int| 0 <= i < post.votes@.len() implies (#[trigger] post.votes@[
            i]).weight == -1 || post.votes@[i].weight == 1 by {
                if i != xi {
                    assert(post.votes@[i] == pre.votes@[i]);
                }
            }
        }
        true
    }

    /// What `cast_vote` does, end to end: resolve the proposal, resolve the
    /// voter, require the poll to be in progress, then insert a first vote
    /// or overwrite the existing one, so that at most one vote per (voter,
    /// proposal) ever exists.
    pub open spec fn cast_vote_rel(
        pre: Self,
        post: Self,
        poll_name: Seq<char>,
        item_name: Seq<char>,
        voter_slack_id: Seq<char>,
        weight_token: Seq<char>,
        r: CastVoteResult,
    ) -> bool {
        let pi = pre.poll_named_idx(poll_name);
        let ii = pre.item_named_idx(item_name);
        if !(pre.has_poll_named(poll_name) && pre.has_item_named(item_name)
            && pre.has_proposal_for(pi, ii)) {
            r is ProposalNotFound && post == pre
        } else if !pre.has_voter_with_slack_id(voter_slack_id) {
            r is VoterNotRegistered && post == pre
        } else if !(pre.polls@[pi].status is InProgress) {
            r == CastVoteResult::Rejected(VoteRejection::NotInProgress) && post == pre
        } else {
            let prop_idx = pre.proposal_for_idx(pi, ii);
            let voter_idx = pre.voter_slack_idx(voter_slack_id);
            let w = weight_of_token(weight_token);
            &&& r is Accepted
            &&& if pre.has_vote_by(voter_idx, prop_idx) {
                let xi = pre.vote_by_idx(voter_idx, prop_idx);
                post.votes@ == pre.votes@.update(
                    xi,
                    Vote {
                        id: pre.votes@[xi].id,
                        voter_id: pre.votes@[xi].voter_id,
                        proposal_id: pre.votes@[xi].proposal_id,
                        weight: w as i32,
                    },
                )
            } else {
                post.votes@ == pre.votes@.push(
                    Vote {
                        id: pre.votes@.len() as usize,
                        voter_id: voter_idx as usize,
                        proposal_id: prop_idx as usize,
                        weight: w as i32,
                    },
                )
            }
            &&& Self::same_but_votes(pre, post)
        }
    }

    /// Casts one voter's vote on one poll's item: the single entry point
    /// the vote command uses.
    pub fn cast_vote(
        &mut self,
        poll_name: &str,
        item_name: &str,
        voter_slack_id: &str,
        weight_token: &str,
    ) -> (r: CastVoteResult)
        requires
            old(self).wf(),
        ensures
            final(self).wf(),
            Self::cast_vote_rel(
                *old(self),
                *final(self),
                poll_name@,
                item_name@,
                voter_slack_id@,
                weight_token@,
                r,
            ),
    {
        let proposal = match self.find_proposal_by_poll_name_and_item_name(poll_name, item_name) {
            Some(p) => p,
            None => {
                return CastVoteResult::ProposalNotFound;
            },
        };
        let voter = match self.find_voter_by_slack_id(voter_slack_id) {
            Some(v) => v,
            None => {
                return CastVoteResult::VoterNotRegistered;
            },
        };
        proof {
            self.lemma_proposal_for_idx_is(
                proposal.id as int,
                proposal.poll_id as int,
                proposal.item_id as int,
            );
            self.lemma_voter_slack_idx_is(voter.id as int, voter_slack_id@);
        }
        if !self.can_vote_for_proposal(&proposal) {
            return CastVoteResult::Rejected(VoteRejection::NotInProgress);
        }
        let weight = parse_weight(weight_token);
        if self.exists_vote(proposal.id, voter.id) {
            let _updated = self.update_vote(voter.id, proposal.id, weight);
        } else {
            let _created = self.create_vote(voter.id, proposal.id, weight);
        }
        CastVoteResult::Accepted
    }

    /// One proposal's rendered results match the store: the item's stored
    /// name and, line by line, the voter names and weights of its votes.
    pub open spec fn proposal_result_matches(s: Self, p: Proposal, pr: ProposalResult) -> bool {
        let vl = votes_of(s.votes@, p.id as int);
        &&& pr.item_name@ == s.items@[p.item_id as int].name@
        &&& pr.votes@.len() == vl.len()
        &&& forall|m: int|
            0 <= m < vl.len() ==> (#[trigger] pr.votes@[m]).voter_name@ == s.voters@[vl[
            m].voter_id as int].name@ && pr.votes@[m].weight == vl[m].weight
    }

    /// A rendered results page matches the store for the poll at `pidx`:
    /// one entry per proposal under the poll, in table order.
    pub open spec fn results_match(s: Self, pidx: int, res: PollResults) -> bool {
        let props = props_of(s.proposals@, pidx);
        &&& res.proposals@.len() == props.len()
        &&& forall|k: int|
            0 <= k < props.len() ==> Self::proposal_result_matches(
                s,
                props[k],
                #[trigger] res.proposals@[k],
            )
    }

    /// Collects a poll's results: for each proposal under the poll, the
    /// item name and the (voter name, weight) pairs of its votes.
    pub fn get_poll_results(&self, poll_name: &str) -> (r: Option<PollResults>)
        requires
            self.wf(),
        ensures
            r is Some <==> self.has_poll_named(poll_name@),
            r matches Some(res) ==> res.poll_name@ == poll_name@ && Self::results_match(
                *self,
                self.poll_named_idx(poll_name@),
                res,
            ),
    {
        let poll = match self.find_poll_by_name(poll_name) {
            Some(p) => p,
            None => {
                return None;
            },
        };
        proof {
            self.lemma_poll_named_idx_is(poll.id as int, poll_name@);
            lemma_props_of_bounds(self.proposals@, poll.id as int, self.items@.len() as int);
        }
        let props = self.find_proposals_by_poll(&poll);
        let n = props.len();
        let mut entries: Vec<ProposalResult> = Vec::new();
        let mut k: usize = 0;
        while k < n
            invariant
                self.wf(),
                n == props@.len(),
                k <= n,
                props@ == props_of(self.proposals@, poll.id as int),
                forall|j: int|
                    0 <= j < props@.len() ==> (#[trigger] props@[j]).item_id < self.items@.len(),
                entries@.len() == k,
                forall|j: int|
                    0 <= j < k ==> Self::proposal_result_matches(
                        *self,
                        props@[j],
                        #[trigger] entries@[j],
                    ),
            decreases n - k,
        {
            let prop = props[k];
            let item = self.find_item_by_id(prop.item_id).unwrap();
            proof {
                lemma_votes_of_bounds(self.votes@, prop.id as int, self.voters@.len() as int);
            }
            let votes = self.find_votes_by_proposal(&prop);
            let vn = votes.len();
            let mut lines: Vec<VoteLine> = Vec::new();
            let mut m: usize = 0;
            while m < vn
                invariant
                    self.wf(),
                    vn == votes@.len(),
                    m <= vn,
                    votes@ == votes_of(self.votes@, prop.id as int),
                    forall|j: int|
                        0 <= j < votes@.len() ==> (#[trigger] votes@[j]).voter_id
                            < self.voters@.len(),
                    lines@.len() == m,
                    forall|j: int|
                        0 <= j < m ==> (#[trigger] lines@[j]).voter_name@ == self.voters@[votes@[
                        j].voter_id as int].name@ && lines@[j].weight == votes@[j].weight,
                decreases vn - m,
            {
                let vote = votes[m];
                let voter = self.find_voter_by_id(vote.voter_id).unwrap();
                lines.push(VoteLine { voter_name: voter.name, weight: vote.weight });
                m += 1;
            }
            entries.push(ProposalResult { item_name: item.name, votes: lines });
            k += 1;
        }
        Some(PollResults { poll_name: poll.name, proposals: entries })
    }
}

} // verus!
