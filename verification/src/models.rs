//! The record types of the poll domain and the textual codec for a poll's
//! lifecycle status.

use vstd::prelude::*;
use crate::text::str_eq;

verus! {

/// Lifecycle status of a poll. `Aborted` is reserved: no operation of this
/// crate produces it, and no transition is defined for it.
#[derive(Clone, Copy, PartialEq, Eq, Structural, Debug)]
pub enum PollStatus {
    Aborted,
    Concluded,
    InProgress,
    Stopped,
}

/// The textual form of a status, as the persistence collaborator stores it.
pub open spec fn status_chars(st: PollStatus) -> Seq<char> {
    match st {
        PollStatus::Aborted => "ABORTED"@,
        PollStatus::Concluded => "CONCLUDED"@,
        PollStatus::InProgress => "IN_PROGRESS"@,
        PollStatus::Stopped => "STOPPED"@,
    }
}

/// The status a textual form denotes, if any.
pub open spec fn status_of_chars(s: Seq<char>) -> Option<PollStatus> {
    if s == "ABORTED"@ {
        Some(PollStatus::Aborted)
    } else if s == "CONCLUDED"@ {
        Some(PollStatus::Concluded)
    } else if s == "IN_PROGRESS"@ {
        Some(PollStatus::InProgress)
    } else if s == "STOPPED"@ {
        Some(PollStatus::Stopped)
    } else {
        None
    }
}

impl PollStatus {
    /// Decodes a stored status string; unknown strings decode to `None`.
    pub fn from_str(s: &str) -> (r: Option<PollStatus>)
        ensures
            r == status_of_chars(s@),
    {
        if str_eq(s, "ABORTED") {
            Some(PollStatus::Aborted)
        } else if str_eq(s, "CONCLUDED") {
            Some(PollStatus::Concluded)
        } else if str_eq(s, "IN_PROGRESS") {
            Some(PollStatus::InProgress)
        } else if str_eq(s, "STOPPED") {
            Some(PollStatus::Stopped)
        } else {
            None
        }
    }

    /// Encodes a status as the string the persistence collaborator stores.
    pub fn as_str(&self) -> (r: &str)
        ensures
            r@ == status_chars(*self),
    {
        match self {
            PollStatus::Aborted => "ABORTED",
            PollStatus::Concluded => "CONCLUDED",
            PollStatus::InProgress => "IN_PROGRESS",
            PollStatus::Stopped => "STOPPED",
        }
    }
}

/// A named voting round with a lifecycle. Its `id` equals its position in
/// the engine's poll table.
pub struct Poll {
    pub id: usize,
    pub name: String,
    pub status: PollStatus,
    pub started_at: Option<String>,
    pub concluded_at: Option<String>,
}

/// A poll row to insert: everything but the id, which the engine assigns.
pub struct NewPoll {
    pub name: String,
    pub status: PollStatus,
}

/// A named thing that can be proposed within a poll; the name is stored
/// lower-cased.
pub struct Item {
    pub id: usize,
    pub name: String,
}

/// An item row to insert.
pub struct NewItem {
    pub name: String,
}

/// The pairing of one item with one poll: the unit being voted on.
#[derive(Clone, Copy, PartialEq, Eq, Structural, Debug)]
pub struct Proposal {
    pub id: usize,
    pub poll_id: usize,
    pub item_id: usize,
}

/// A proposal row to insert.
#[derive(Clone, Copy, PartialEq, Eq, Structural, Debug)]
pub struct NewProposal {
    pub poll_id: usize,
    pub item_id: usize,
}

/// One voter's signed weight on one proposal; at most one vote ever exists
/// per (voter, proposal).
#[derive(Clone, Copy, PartialEq, Eq, Structural, Debug)]
pub struct Vote {
    pub id: usize,
    pub voter_id: usize,
    pub proposal_id: usize,
    pub weight: i32,
}

/// A vote row to insert.
#[derive(Clone, Copy, PartialEq, Eq, Structural, Debug)]
pub struct NewVote {
    pub voter_id: usize,
    pub proposal_id: usize,
    pub weight: i32,
}

/// A registered identity eligible to vote, anchored to the transport-side
/// user id.
pub struct Voter {
    pub id: usize,
    pub name: String,
    pub slack_id: Option<String>,
}

/// A voter row to insert.
pub struct NewVoter {
    pub name: String,
    pub slack_id: Option<String>,
}

fn clone_opt_string(o: &Option<String>) -> (r: Option<String>)
    ensures
        r == *o,
{
    match o {
        Some(s) => Some(s.clone()),
        None => None,
    }
}

impl Clone for Poll {
    fn clone(&self) -> (r: Self)
        ensures
            r == *self,
    {
        Poll {
            id: self.id,
            name: self.name.clone(),
            status: self.status,
            started_at: clone_opt_string(&self.started_at),
            concluded_at: clone_opt_string(&self.concluded_at),
        }
    }
}

impl Clone for Item {
    fn clone(&self) -> (r: Self)
        ensures
            r == *self,
    {
        Item { id: self.id, name: self.name.clone() }
    }
}

impl Clone for Voter {
    fn clone(&self) -> (r: Self)
        ensures
            r == *self,
    {
        Voter {
            id: self.id,
            name: self.name.clone(),
            slack_id: clone_opt_string(&self.slack_id),
        }
    }
}

} // verus!
