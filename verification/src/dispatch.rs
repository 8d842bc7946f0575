//! The dispatch step and the command handlers: from one inbound chat event
//! to the next domain state and a structured reply. Rendering a reply as
//! chat text, logging, and sending are the transport side's concern and
//! stay outside this crate.

use vstd::prelude::*;
use crate::engine::{CastVoteResult, ConcludePollResult, CreateItemResult, CreatePollResult,
    CreateProposalResult, PollEngine, PollResults, RegisterVoterResult, StartPollResult,
    parse_weight, weight_of_token};
use crate::models::{Item, Poll};
use crate::parser::{parse, starts_with, tokenize};
use crate::registry::{Command, CommandKind, CommandRegistry};
use crate::text::lower_of;

verus! {

/// How many polls a listing shows.
pub const NUM_LIST_POLLS: usize = 5;

/// How many items a listing shows.
pub const NUM_LIST_ITEMS: usize = 5;

/// One entry of the known-users directory, snapshotted from the transport
/// at connect time.
pub struct KnownUser {
    pub id: String,
    pub name: String,
}

impl Clone for KnownUser {
    fn clone(&self) -> (r: Self)
        ensures
            r == *self,
    {
        KnownUser { id: self.id.clone(), name: self.name.clone() }
    }
}

/// The in-process known-users directory: filled at connect time, read by
/// the dispatch step.
pub struct UserDirectory {
    pub users: Vec<KnownUser>,
}

impl UserDirectory {
    pub open spec fn has_user(self, id: Seq<char>) -> bool {
        exists|i: int| 0 <= i < self.users@.len() && (#[trigger] self.users@[i]).id@ == id
    }

    /// `i` is the first entry carrying `id`.
    pub open spec fn first_match(self, id: Seq<char>, i: int) -> bool {
        &&& 0 <= i < self.users@.len()
        &&& self.users@[i].id@ == id
        &&& forall|k: int| 0 <= k < i ==> (#[trigger] self.users@[k]).id@ != id
    }

    /// An empty directory.
    pub fn new() -> (d: UserDirectory)
        ensures
            d.users@.len() == 0,
    {
        UserDirectory { users: Vec::new() }
    }

    /// Appends one user, as the connect-time snapshot hands them over.
    pub fn add(&mut self, id: &str, name: &str)
        ensures
            final(self).users@ == old(self).users@.push(final(self).users@.last()),
            final(self).users@.last().id@ == id@,
            final(self).users@.last().name@ == name@,
    {
        self.users.push(KnownUser { id: id.to_owned(), name: name.to_owned() });
    }

    /// Resolves a transport-side user id to the first directory entry
    /// carrying it.
    pub fn lookup(&self, id: &str) -> (r: Option<KnownUser>)
        ensures
            r is Some <==> self.has_user(id@),
            r matches Some(u) ==> exists|i: int|
                #[trigger] self.first_match(id@, i) && u == self.users@[i],
    {
        let n = self.users.len();
        let mut i: usize = 0;
        while i < n
            invariant
                n == self.users@.len(),
                i <= n,
                forall|k: int| 0 <= k < i ==> (#[trigger] self.users@[k]).id@ != id@,
            decreases n - i,
        {
            if crate::text::str_eq(self.users[i].id.as_str(), id) {
                proof {
                    assert(self.first_match(id@, i as int));
                }
                return Some(self.users[i].clone());
            }
            i += 1;
        }
        None
    }
}

/// What a handler asks the transport to say back; the texts themselves are
/// rendered outside this crate.
pub enum Reply {
    PollCreated { poll_name: String },
    PollNotCreated { poll_name: String },
    PollStarted { poll_name: String },
    PollNotFound { poll_name: String },
    PollAlreadyStarted { poll_name: String },
    PollConcluded { poll_name: String },
    PollNotConcludable { poll_name: String },
    PollList { polls: Vec<Poll> },
    ItemList { items: Vec<Item> },
    VoterCreated { user_name: String, user_id: String },
    VoterAlreadyRegistered { user_name: String, user_id: String },
    ItemCreated { item_name: String },
    ItemNameTaken { item_name: String },
    ProposalCreated { poll_name: String, item_name: String },
    ProposalPollMissing { poll_name: String },
    ProposalItemMissing { item_name: String },
    ProposalDuplicate { poll_name: String, item_name: String },
    VoteAccepted { poll_name: String, item_name: String, weight: i32 },
    VoteTargetMissing { poll_name: String, item_name: String },
    VoterNotRegistered { user_name: String },
    VoteNotAllowed { poll_name: String, item_name: String },
    PollResultsReport { results: PollResults },
    Help,
}

/// What a handler decided: either the command came with too few parameters,
/// or it ran and asks for this reply.
pub enum HandlerOutcome {
    NotEnoughParams,
    Replied(Reply),
}

/// The `new_poll` handler: one parameter, the poll's name.
pub open spec fn new_poll_rel(
    pre: PollEngine,
    post: PollEngine,
    params: Seq<Seq<char>>,
    o: HandlerOutcome,
) -> bool {
    if params.len() < 1 {
        o is NotEnoughParams && post == pre
    } else {
        let name = params[0];
        if pre.has_poll_named(name) {
            &&& post == pre
            &&& o matches HandlerOutcome::Replied(Reply::PollNotCreated { poll_name })
                && poll_name@ == name
        } else {
            &&& PollEngine::create_poll_rel(pre, post, name, CreatePollResult::Created)
            &&& o matches HandlerOutcome::Replied(Reply::PollCreated { poll_name })
                && poll_name@ == name
        }
    }
}

/// Creates a poll and asks for the matching reply.
pub fn new_poll(engine: &mut PollEngine, params: &Vec<String>) -> (o: HandlerOutcome)
    requires
        old(engine).wf(),
    ensures
        final(engine).wf(),
        new_poll_rel(*old(engine), *final(engine), params.deep_view(), o),
{
    if params.len() < 1 {
        return HandlerOutcome::NotEnoughParams;
    }
    proof {
        assert(params.deep_view()[0] == params@[0]@);
    }
    let poll_name = &params[0];
    match engine.create_poll(poll_name.as_str()) {
        CreatePollResult::Created => HandlerOutcome::Replied(
            Reply::PollCreated { poll_name: poll_name.clone() },
        ),
        CreatePollResult::DuplicateName => HandlerOutcome::Replied(
            Reply::PollNotCreated { poll_name: poll_name.clone() },
        ),
    }
}

/// The `start_poll` handler: one parameter, the poll's name.
pub open spec fn start_poll_rel(
    pre: PollEngine,
    post: PollEngine,
    params: Seq<Seq<char>>,
    o: HandlerOutcome,
) -> bool {
    if params.len() < 1 {
        o is NotEnoughParams && post == pre
    } else {
        let name = params[0];
        if !pre.has_poll_named(name) {
            &&& post == pre
            &&& o matches HandlerOutcome::Replied(Reply::PollNotFound { poll_name })
                && poll_name@ == name
        } else if !(pre.polls@[pre.poll_named_idx(name)].status is Stopped) {
            &&& post == pre
            &&& o matches HandlerOutcome::Replied(Reply::PollAlreadyStarted { poll_name })
                && poll_name@ == name
        } else {
            &&& PollEngine::start_poll_rel(pre, post, name, StartPollResult::Started)
            &&& o matches HandlerOutcome::Replied(Reply::PollStarted { poll_name })
                && poll_name@ == name
        }
    }
}

/// Starts a poll and asks for the matching reply.
pub fn start_poll(engine: &mut PollEngine, params: &Vec<String>) -> (o: HandlerOutcome)
    requires
        old(engine).wf(),
    ensures
        final(engine).wf(),
        start_poll_rel(*old(engine), *final(engine), params.deep_view(), o),
{
    if params.len() < 1 {
        return HandlerOutcome::NotEnoughParams;
    }
    proof {
        assert(params.deep_view()[0] == params@[0]@);
    }
    let poll_name = &params[0];
    if engine.find_poll_by_name(poll_name.as_str()).is_none() {
        return HandlerOutcome::Replied(Reply::PollNotFound { poll_name: poll_name.clone() });
    }
    if engine.can_start_poll(poll_name.as_str()) {
        let _started = engine.start_poll(poll_name.as_str());
        HandlerOutcome::Replied(Reply::PollStarted { poll_name: poll_name.clone() })
    } else {
        HandlerOutcome::Replied(Reply::PollAlreadyStarted { poll_name: poll_name.clone() })
    }
}

/// The `conclude_poll` handler: one parameter, the poll's name.
pub open spec fn conclude_poll_rel(
    pre: PollEngine,
    post: PollEngine,
    params: Seq<Seq<char>>,
    o: HandlerOutcome,
) -> bool {
    if params.len() < 1 {
        o is NotEnoughParams && post == pre
    } else {
        let name = params[0];
        if pre.has_poll_named(name) && !(pre.polls@[pre.poll_named_idx(name)].status
            is Concluded) {
            &&& PollEngine::conclude_poll_rel(pre, post, name, ConcludePollResult::Concluded)
            &&& o matches HandlerOutcome::Replied(Reply::PollConcluded { poll_name })
                && poll_name@ == name
        } else {
            &&& post == pre
            &&& o matches HandlerOutcome::Replied(Reply::PollNotConcludable { poll_name })
                && poll_name@ == name
        }
    }
}

/// Concludes a poll and asks for the matching reply; a missing or already
/// concluded poll gets the one refusal reply, as the wire protocol words
/// them together.
pub fn conclude_poll(engine: &mut PollEngine, params: &Vec<String>) -> (o: HandlerOutcome)
    requires
        old(engine).wf(),
    ensures
        final(engine).wf(),
        conclude_poll_rel(*old(engine), *final(engine), params.deep_view(), o),
{
    if params.len() < 1 {
        return HandlerOutcome::NotEnoughParams;
    }
    proof {
        assert(params.deep_view()[0] == params@[0]@);
    }
    let poll_name = &params[0];
    if engine.can_conclude_poll(poll_name.as_str()) {
        let _concluded = engine.conclude_poll(poll_name.as_str());
        HandlerOutcome::Replied(Reply::PollConcluded { poll_name: poll_name.clone() })
    } else {
        HandlerOutcome::Replied(Reply::PollNotConcludable { poll_name: poll_name.clone() })
    }
}

/// The `list_polls` handler: no parameters; the engine is only read.
pub open spec fn list_polls_rel(s: PollEngine, o: HandlerOutcome) -> bool {
    o matches HandlerOutcome::Replied(Reply::PollList { polls }) && polls@.len() == (
    if NUM_LIST_POLLS <= s.polls@.len() {
        NUM_LIST_POLLS as int
    } else {
        s.polls@.len() as int
    }) && (forall|k: int|
        0 <= k < polls@.len() ==> #[trigger] polls@[k] == s.polls@[s.polls@.len() - 1 - k])
}

/// Lists the most recently created polls, most recent first.
pub fn list_polls(engine: &PollEngine) -> (o: HandlerOutcome)
    requires
        engine.wf(),
    ensures
        list_polls_rel(*engine, o),
{
    let polls = engine.find_last_n_polls(NUM_LIST_POLLS);
    HandlerOutcome::Replied(Reply::PollList { polls })
}

/// The `list_items` handler: no parameters; the engine is only read.
pub open spec fn list_items_rel(s: PollEngine, o: HandlerOutcome) -> bool {
    o matches HandlerOutcome::Replied(Reply::ItemList { items }) && items@.len() == (
    if NUM_LIST_ITEMS <= s.items@.len() {
        NUM_LIST_ITEMS as int
    } else {
        s.items@.len() as int
    }) && (forall|k: int|
        0 <= k < items@.len() ==> #[trigger] items@[k] == s.items@[s.items@.len() - 1 - k])
}

/// Lists the most recently created items, most recent first.
pub fn list_items(engine: &PollEngine) -> (o: HandlerOutcome)
    requires
        engine.wf(),
    ensures
        list_items_rel(*engine, o),
{
    let items = engine.find_last_n_items(NUM_LIST_ITEMS);
    HandlerOutcome::Replied(Reply::ItemList { items })
}

/// The `new_voter` handler: no parameters; the sender's own identity is
/// what gets registered.
pub open spec fn new_voter_rel(
    pre: PollEngine,
    post: PollEngine,
    sender_id: Seq<char>,
    sender_name: Seq<char>,
    o: HandlerOutcome,
) -> bool {
    if pre.has_voter_with_slack_id(sender_id) {
        &&& post == pre
        &&& o matches HandlerOutcome::Replied(
            Reply::VoterAlreadyRegistered { user_name, user_id },
        ) && user_name@ == sender_name && user_id@ == sender_id
    } else {
        &&& PollEngine::create_voter_rel(
            pre,
            post,
            sender_id,
            sender_name,
            RegisterVoterResult::Created,
        )
        &&& o matches HandlerOutcome::Replied(Reply::VoterCreated { user_name, user_id })
            && user_name@ == sender_name && user_id@ == sender_id
    }
}

/// Registers the sender as a voter and asks for the matching reply.
pub fn new_voter(engine: &mut PollEngine, sender: &KnownUser) -> (o: HandlerOutcome)
    requires
        old(engine).wf(),
    ensures
        final(engine).wf(),
        new_voter_rel(*old(engine), *final(engine), sender.id@, sender.name@, o),
{
    match engine.create_voter(sender.id.as_str(), sender.name.as_str()) {
        RegisterVoterResult::Created => HandlerOutcome::Replied(
            Reply::VoterCreated { user_name: sender.name.clone(), user_id: sender.id.clone() },
        ),
        RegisterVoterResult::AlreadyRegistered => HandlerOutcome::Replied(
            Reply::VoterAlreadyRegistered {
                user_name: sender.name.clone(),
                user_id: sender.id.clone(),
            },
        ),
    }
}

/// The `new_item` handler: one parameter, the item's name; the reply
/// carries the name as typed, the store keeps it lower-cased.
pub open spec fn new_item_rel(
    pre: PollEngine,
    post: PollEngine,
    params: Seq<Seq<char>>,
    o: HandlerOutcome,
) -> bool {
    if params.len() < 1 {
        o is NotEnoughParams && post == pre
    } else {
        let raw = params[0];
        if pre.has_item_named(lower_of(raw)) {
            &&& post == pre
            &&& o matches HandlerOutcome::Replied(Reply::ItemNameTaken { item_name })
                && item_name@ == raw
        } else {
            &&& PollEngine::create_item_rel(pre, post, raw, CreateItemResult::Created)
            &&& o matches HandlerOutcome::Replied(Reply::ItemCreated { item_name })
                && item_name@ == raw
        }
    }
}

/// Creates an item and asks for the matching reply.
pub fn new_item(engine: &mut PollEngine, params: &Vec<String>) -> (o: HandlerOutcome)
    requires
        old(engine).wf(),
    ensures
        final(engine).wf(),
        new_item_rel(*old(engine), *final(engine), params.deep_view(), o),
{
    if params.len() < 1 {
        return HandlerOutcome::NotEnoughParams;
    }
    proof {
        assert(params.deep_view()[0] == params@[0]@);
    }
    let item_name = &params[0];
    match engine.create_item(item_name.as_str()) {
        CreateItemResult::Created => HandlerOutcome::Replied(
            Reply::ItemCreated { item_name: item_name.clone() },
        ),
        CreateItemResult::DuplicateName => HandlerOutcome::Replied(
            Reply::ItemNameTaken { item_name: item_name.clone() },
        ),
    }
}

/// The `new_proposal` handler: two parameters, the poll's and the item's
/// names.
pub open spec fn new_proposal_rel(
    pre: PollEngine,
    post: PollEngine,
    params: Seq<Seq<char>>,
    o: HandlerOutcome,
) -> bool {
    if params.len() < 2 {
        o is NotEnoughParams && post == pre
    } else {
        let pn = params[0];
        let itn = params[1];
        if !pre.has_poll_named(pn) {
            &&& post == pre
            &&& o matches HandlerOutcome::Replied(Reply::ProposalPollMissing { poll_name })
                && poll_name@ == pn
        } else if !pre.has_item_named(itn) {
            &&& post == pre
            &&& o matches HandlerOutcome::Replied(Reply::ProposalItemMissing { item_name })
                && item_name@ == itn
        } else if pre.has_proposal_for(pre.poll_named_idx(pn), pre.item_named_idx(itn)) {
            &&& post == pre
            &&& o matches HandlerOutcome::Replied(Reply::ProposalDuplicate { poll_name, item_name })
                && poll_name@ == pn && item_name@ == itn
        } else {
            &&& PollEngine::create_proposal_rel(pre, post, pn, itn, CreateProposalResult::Created)
            &&& o matches HandlerOutcome::Replied(Reply::ProposalCreated { poll_name, item_name })
                && poll_name@ == pn && item_name@ == itn
        }
    }
}

/// Creates a proposal and asks for the matching reply.
pub fn new_proposal(engine: &mut PollEngine, params: &Vec<String>) -> (o: HandlerOutcome)
    requires
        old(engine).wf(),
    ensures
        final(engine).wf(),
        new_proposal_rel(*old(engine), *final(engine), params.deep_view(), o),
{
    if params.len() < 2 {
        return HandlerOutcome::NotEnoughParams;
    }
    proof {
        assert(params.deep_view()[0] == params@[0]@);
        assert(params.deep_view()[1] == params@[1]@);
    }
    let poll_name = &params[0];
    let item_name = &params[1];
    match engine.create_proposal(poll_name.as_str(), item_name.as_str()) {
        CreateProposalResult::Created => HandlerOutcome::Replied(
            Reply::ProposalCreated {
                poll_name: poll_name.clone(),
                item_name: item_name.clone(),
            },
        ),
        CreateProposalResult::DuplicateProposal => HandlerOutcome::Replied(
            Reply::ProposalDuplicate {
                poll_name: poll_name.clone(),
                item_name: item_name.clone(),
            },
        ),
        CreateProposalResult::PollNotFound => HandlerOutcome::Replied(
            Reply::ProposalPollMissing { poll_name: poll_name.clone() },
        ),
        CreateProposalResult::ItemNotFound => HandlerOutcome::Replied(
            Reply::ProposalItemMissing { item_name: item_name.clone() },
        ),
    }
}

/// The `vote` handler: three parameters, the poll's name, the item's name
/// and the weight token; the sender must be a registered voter.
pub open spec fn vote_rel(
    pre: PollEngine,
    post: PollEngine,
    sender_id: Seq<char>,
    sender_name: Seq<char>,
    params: Seq<Seq<char>>,
    o: HandlerOutcome,
) -> bool {
    if params.len() < 3 {
        o is NotEnoughParams && post == pre
    } else {
        let pn = params[0];
        let itn = params[1];
        let tok = params[2];
        let pi = pre.poll_named_idx(pn);
        let ii = pre.item_named_idx(itn);
        if !(pre.has_poll_named(pn) && pre.has_item_named(itn) && pre.has_proposal_for(pi, ii)) {
            &&& post == pre
            &&& o matches HandlerOutcome::Replied(
                Reply::VoteTargetMissing { poll_name, item_name },
            ) && poll_name@ == pn && item_name@ == itn
        } else if !pre.has_voter_with_slack_id(sender_id) {
            &&& post == pre
            &&& o matches HandlerOutcome::Replied(Reply::VoterNotRegistered { user_name })
                && user_name@ == sender_name
        } else if !(pre.polls@[pi].status is InProgress) {
            &&& post == pre
            &&& o matches HandlerOutcome::Replied(Reply::VoteNotAllowed { poll_name, item_name })
                && poll_name@ == pn && item_name@ == itn
        } else {
            &&& PollEngine::cast_vote_rel(
                pre,
                post,
                pn,
                itn,
                sender_id,
                tok,
                CastVoteResult::Accepted,
            )
            &&& o matches HandlerOutcome::Replied(
                Reply::VoteAccepted { poll_name, item_name, weight },
            ) && poll_name@ == pn && item_name@ == itn && weight as int == weight_of_token(tok)
        }
    }
}

/// Casts the sender's vote and asks for the matching reply.
pub fn vote(engine: &mut PollEngine, sender: &KnownUser, params: &Vec<String>) -> (o:
    HandlerOutcome)
    requires
        old(engine).wf(),
    ensures
        final(engine).wf(),
        vote_rel(*old(engine), *final(engine), sender.id@, sender.name@, params.deep_view(), o),
{
    if params.len() < 3 {
        return HandlerOutcome::NotEnoughParams;
    }
    proof {
        assert(params.deep_view()[0] == params@[0]@);
        assert(params.deep_view()[1] == params@[1]@);
        assert(params.deep_view()[2] == params@[2]@);
    }
    let poll_name = &params[0];
    let item_name = &params[1];
    let weight_token = &params[2];
    match engine.cast_vote(
        poll_name.as_str(),
        item_name.as_str(),
        sender.id.as_str(),
        weight_token.as_str(),
    ) {
        CastVoteResult::Accepted => {
            let weight = parse_weight(weight_token.as_str());
            HandlerOutcome::Replied(
                Reply::VoteAccepted {
                    poll_name: poll_name.clone(),
                    item_name: item_name.clone(),
                    weight,
                },
            )
        },
        CastVoteResult::ProposalNotFound => HandlerOutcome::Replied(
            Reply::VoteTargetMissing {
                poll_name: poll_name.clone(),
                item_name: item_name.clone(),
            },
        ),
        CastVoteResult::VoterNotRegistered => HandlerOutcome::Replied(
            Reply::VoterNotRegistered { user_name: sender.name.clone() },
        ),
        CastVoteResult::Rejected(_) => HandlerOutcome::Replied(
            Reply::VoteNotAllowed {
                poll_name: poll_name.clone(),
                item_name: item_name.clone(),
            },
        ),
    }
}

/// The `show_poll_results` handler: one parameter, the poll's name; a
/// missing poll is a reported condition, never a crash.
pub open spec fn show_poll_results_rel(
    s: PollEngine,
    params: Seq<Seq<char>>,
    o: HandlerOutcome,
) -> bool {
    if params.len() < 1 {
        o is NotEnoughParams
    } else {
        let pn = params[0];
        if s.has_poll_named(pn) {
            &&& o matches HandlerOutcome::Replied(Reply::PollResultsReport { results })
                && results.poll_name@ == pn && PollEngine::results_match(
                s,
                s.poll_named_idx(pn),
                results,
            )
        } else {
            o matches HandlerOutcome::Replied(Reply::PollNotFound { poll_name }) && poll_name@
                == pn
        }
    }
}

/// Collects a poll's results and asks for the report reply.
pub fn show_poll_results(engine: &PollEngine, params: &Vec<String>) -> (o: HandlerOutcome)
    requires
        engine.wf(),
    ensures
        show_poll_results_rel(*engine, params.deep_view(), o),
{
    if params.len() < 1 {
        return HandlerOutcome::NotEnoughParams;
    }
    proof {
        assert(params.deep_view()[0] == params@[0]@);
    }
    let poll_name = &params[0];
    match engine.get_poll_results(poll_name.as_str()) {
        Some(results) => HandlerOutcome::Replied(Reply::PollResultsReport { results }),
        None => HandlerOutcome::Replied(Reply::PollNotFound { poll_name: poll_name.clone() }),
    }
}

/// The `help` handler: always the one help reply.
pub open spec fn help_rel(o: HandlerOutcome) -> bool {
    o == HandlerOutcome::Replied(Reply::Help)
}

/// Asks for the help reply.
pub fn help() -> (o: HandlerOutcome)
    ensures
        help_rel(o),
{
    HandlerOutcome::Replied(Reply::Help)
}

/// What invoking a command of each kind does to the engine and which
/// reply it asks for.
pub open spec fn invoke_rel(
    kind: CommandKind,
    pre: PollEngine,
    post: PollEngine,
    sender_id: Seq<char>,
    sender_name: Seq<char>,
    params: Seq<Seq<char>>,
    o: HandlerOutcome,
) -> bool {
    match kind {
        CommandKind::NewPoll => new_poll_rel(pre, post, params, o),
        CommandKind::StartPoll => start_poll_rel(pre, post, params, o),
        CommandKind::ConcludePoll => conclude_poll_rel(pre, post, params, o),
        CommandKind::ListPolls => post == pre && list_polls_rel(pre, o),
        CommandKind::ListItems => post == pre && list_items_rel(pre, o),
        CommandKind::NewVoter => new_voter_rel(pre, post, sender_id, sender_name, o),
        CommandKind::NewItem => new_item_rel(pre, post, params, o),
        CommandKind::NewProposal => new_proposal_rel(pre, post, params, o),
        CommandKind::Vote => vote_rel(pre, post, sender_id, sender_name, params, o),
        CommandKind::ShowPollResults => post == pre && show_poll_results_rel(pre, params, o),
        CommandKind::Help => post == pre && help_rel(o),
    }
}

impl Command {
    /// Runs the handler this command is bound to, with the resolved sender
    /// and the parsed parameters.
    pub fn invoke(&self, engine: &mut PollEngine, sender: &KnownUser, parameters: &Vec<String>)
        -> (o: HandlerOutcome)
        requires
            old(engine).wf(),
        ensures
            final(engine).wf(),
            invoke_rel(
                self.kind,
                *old(engine),
                *final(engine),
                sender.id@,
                sender.name@,
                parameters.deep_view(),
                o,
            ),
    {
        match self.kind {
            CommandKind::NewPoll => new_poll(engine, parameters),
            CommandKind::StartPoll => start_poll(engine, parameters),
            CommandKind::ConcludePoll => conclude_poll(engine, parameters),
            CommandKind::ListPolls => list_polls(engine),
            CommandKind::ListItems => list_items(engine),
            CommandKind::NewVoter => new_voter(engine, sender),
            CommandKind::NewItem => new_item(engine, parameters),
            CommandKind::NewProposal => new_proposal(engine, parameters),
            CommandKind::Vote => vote(engine, sender, parameters),
            CommandKind::ShowPollResults => show_poll_results(engine, parameters),
            CommandKind::Help => help(),
        }
    }
}

/// How one inbound event was handled.
pub enum DispatchOutcome {
    NotACommand,
    UnknownSender,
    CommandNotFound { name: String },
    NotEnoughParams { name: String },
    Replied(Reply),
}

/// What one dispatch step does: no prefix or no word after it means the
/// event is silently no command; a sender missing from the directory is an
/// infrastructure inconsistency reported for this one command; an unknown
/// name and a too-short parameter list are reported; otherwise the bound
/// handler runs.
pub open spec fn dispatch_rel(
    pre: PollEngine,
    post: PollEngine,
    registry: CommandRegistry,
    directory: UserDirectory,
    text: Seq<char>,
    prefix: Seq<char>,
    sender_id: Seq<char>,
    o: DispatchOutcome,
) -> bool {
    let rest = text.skip(prefix.len() as int);
    if !(starts_with(text, prefix) && tokenize(rest).len() > 0) {
        o is NotACommand && post == pre
    } else {
        let name = tokenize(rest)[0];
        let params = tokenize(rest).drop_first();
        if !directory.has_user(sender_id) {
            o is UnknownSender && post == pre
        } else if !registry.has_command(name) {
            &&& post == pre
            &&& o matches DispatchOutcome::CommandNotFound { name: nm } && nm@ == name
        } else {
            exists|i: int|
                {
                    &&& #[trigger] directory.first_match(sender_id, i)
                    &&& {
                        ||| (o matches DispatchOutcome::NotEnoughParams { name: nm } && nm@ == name
                            && invoke_rel(
                            registry.kind_of(name),
                            pre,
                            post,
                            sender_id,
                            directory.users@[i].name@,
                            params,
                            HandlerOutcome::NotEnoughParams,
                        ))
                        ||| (o matches DispatchOutcome::Replied(rep) && invoke_rel(
                            registry.kind_of(name),
                            pre,
                            post,
                            sender_id,
                            directory.users@[i].name@,
                            params,
                            HandlerOutcome::Replied(rep),
                        ))
                    }
                }
        }
    }
}

/// Handles one inbound event: parse, resolve the sender, look the command
/// up, invoke it, and say what the transport should reply.
pub fn handle_event(
    engine: &mut PollEngine,
    registry: &CommandRegistry,
    directory: &UserDirectory,
    prefix: &str,
    text: &str,
    sender_id: &str,
) -> (o: DispatchOutcome)
    requires
        old(engine).wf(),
        registry.wf(),
    ensures
        final(engine).wf(),
        dispatch_rel(
            *old(engine),
            *final(engine),
            *registry,
            *directory,
            text@,
            prefix@,
            sender_id@,
            o,
        ),
{
    let parsed = match parse(text, prefix) {
        Some(pc) => pc,
        None => {
            return DispatchOutcome::NotACommand;
        },
    };
    let user = match directory.lookup(sender_id) {
        Some(u) => u,
        None => {
            return DispatchOutcome::UnknownSender;
        },
    };
    let kind = match registry.lookup(parsed.name.as_str()) {
        Some(k) => k,
        None => {
            return DispatchOutcome::CommandNotFound { name: parsed.name };
        },
    };
    proof {
        let i = choose|i: int|
            #[trigger] directory.first_match(sender_id@, i) && user == directory.users@[i];
        assert(directory.first_match(sender_id@, i) && user == directory.users@[i]);
    }
    let command = Command::new(parsed.name.as_str(), kind);
    let outcome = command.invoke(engine, &user, &parsed.params);
    match outcome {
        HandlerOutcome::NotEnoughParams => DispatchOutcome::NotEnoughParams { name: parsed.name },
        HandlerOutcome::Replied(rep) => DispatchOutcome::Replied(rep),
    }
}

} // verus!
