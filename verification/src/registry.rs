//! The command registry: a one-to-one mapping from command name to the
//! command it triggers. Registering a second command under a taken name is
//! a configuration error and is rejected loudly, never silently dropped.

use vstd::prelude::*;
use crate::text::str_eq;

verus! {

/// The commands the bot understands; each is bound to one name in the
/// registry and handled by one handler.
#[derive(Clone, Copy, PartialEq, Eq, Structural, Debug)]
pub enum CommandKind {
    NewPoll,
    StartPoll,
    ConcludePoll,
    ListPolls,
    ListItems,
    NewVoter,
    NewItem,
    NewProposal,
    Vote,
    ShowPollResults,
    Help,
}

/// A registered command: the name it answers to and what it does.
pub struct Command {
    pub name: String,
    pub kind: CommandKind,
}

impl Command {
    /// Binds a name to a command.
    pub fn new(name: &str, kind: CommandKind) -> (c: Command)
        ensures
            c.name@ == name@,
            c.kind == kind,
    {
        Command { name: name.to_owned(), kind }
    }

    /// Whether this command answers to `name`: exact, case-sensitive.
    pub fn matches(&self, name: &str) -> (r: bool)
        ensures
            r == (self.name@ == name@),
    {
        str_eq(self.name.as_str(), name)
    }
}

/// A duplicate registration: a configuration error reported at startup.
#[derive(Clone, Copy, PartialEq, Eq, Structural, Debug)]
pub enum RegistryError {
    DuplicateCommand,
}

/// The name-to-command table; names are unique.
pub struct CommandRegistry {
    pub commands: Vec<Command>,
}

impl CommandRegistry {
    /// Names are pairwise distinct.
    pub open spec fn wf(self) -> bool {
        forall|i: int, j: int|
            0 <= i < j < self.commands@.len() ==> (#[trigger] self.commands@[i]).name@ != (
            #[trigger] self.commands@[j]).name@
    }

    pub open spec fn has_command(self, name: Seq<char>) -> bool {
        exists|i: int|
            0 <= i < self.commands@.len() && (#[trigger] self.commands@[i]).name@ == name
    }

    /// The position of the command registered under `name`; meaningful
    /// under `has_command`, and pinned by name uniqueness.
    pub open spec fn command_idx(self, name: Seq<char>) -> int {
        choose|i: int|
            0 <= i < self.commands@.len() && (#[trigger] self.commands@[i]).name@ == name
    }

    /// What the name is bound to.
    pub open spec fn kind_of(self, name: Seq<char>) -> CommandKind {
        self.commands@[self.command_idx(name)].kind
    }

    /// Under the invariant, a position holding a command of some name is
    /// the position `command_idx` denotes.
    pub proof fn lemma_command_idx_is(self, i: int, name: Seq<char>)
        requires
            self.wf(),
            0 <= i < self.commands@.len(),
            self.commands@[i].name@ == name,
        ensures
            self.has_command(name),
            self.command_idx(name) == i,
            self.kind_of(name) == self.commands@[i].kind,
    {
        assert(self.has_command(name));
        let j = self.command_idx(name);
        if i < j {
            assert(self.commands@[i].name@ != self.commands@[j].name@);
        } else if j < i {
            assert(self.commands@[j].name@ != self.commands@[i].name@);
        }
    }

    /// An empty registry.
    pub fn new() -> (r: CommandRegistry)
        ensures
            r.wf(),
            r.commands@.len() == 0,
    {
        CommandRegistry { commands: Vec::new() }
    }

    /// Registers a command; a taken name is rejected and nothing moves.
    pub fn register(&mut self, command: Command) -> (r: Result<(), RegistryError>)
        requires
            old(self).wf(),
        ensures
            final(self).wf(),
            old(self).has_command(command.name@) ==> r == Result::<(), RegistryError>::Err(
                RegistryError::DuplicateCommand,
            ) && *final(self) == *old(self),
            !old(self).has_command(command.name@) ==> r is Ok && final(self).commands@ == old(
                self,
            ).commands@.push(command),
    {
        let n = self.commands.len();
        let mut i: usize = 0;
        while i < n
            invariant
                n == self.commands@.len(),
                i <= n,
                forall|k: int| 0 <= k < i ==> (#[trigger] self.commands@[k]).name@ != command.name@,
                self.wf(),
            decreases n - i,
        {
            if str_eq(self.commands[i].name.as_str(), command.name.as_str()) {
                return Err(RegistryError::DuplicateCommand);
            }
            i += 1;
        }
        self.commands.push(command);
        proof {
            let pre = *old(self);
            let post = *self;
            assert forall|a: int, b: int| 0 <= a < b < post.commands@.len() implies (
            #[trigger] post.commands@[a]).name@ != (#[trigger] post.commands@[b]).name@ by {
                assert(post.commands@[a] == pre.commands@[a]);
                if b < pre.commands@.len() {
                    assert(post.commands@[b] == pre.commands@[b]);
                }
            }
        }
        Ok(())
    }

    /// Looks the command registered under `name` up: an exact-name lookup,
    /// no partial matches.
    pub fn lookup(&self, name: &str) -> (r: Option<CommandKind>)
        requires
            self.wf(),
        ensures
            r is Some <==> self.has_command(name@),
            r matches Some(k) ==> k == self.kind_of(name@),
    {
        let n = self.commands.len();
        let mut i: usize = 0;
        while i < n
            invariant
                n == self.commands@.len(),
                i <= n,
                forall|k: int| 0 <= k < i ==> (#[trigger] self.commands@[k]).name@ != name@,
                self.wf(),
            decreases n - i,
        {
            if self.commands[i].matches(name) {
                proof {
                    self.lemma_command_idx_is(i as int, name@);
                }
                return Some(self.commands[i].kind);
            }
            i += 1;
        }
        None
    }
}

/// Builds the standard registry: the eleven commands of the bot, each
/// under its wire name.
pub fn default_registry() -> (r: CommandRegistry)
    ensures
        r.wf(),
        r.commands@.len() == 11,
        r.commands@[0].name@ == "new_poll"@ && r.commands@[0].kind == CommandKind::NewPoll,
        r.commands@[1].name@ == "start_poll"@ && r.commands@[1].kind == CommandKind::StartPoll,
        r.commands@[2].name@ == "conclude_poll"@ && r.commands@[2].kind
            == CommandKind::ConcludePoll,
        r.commands@[3].name@ == "list_polls"@ && r.commands@[3].kind == CommandKind::ListPolls,
        r.commands@[4].name@ == "list_items"@ && r.commands@[4].kind == CommandKind::ListItems,
        r.commands@[5].name@ == "new_voter"@ && r.commands@[5].kind == CommandKind::NewVoter,
        r.commands@[6].name@ == "new_item"@ && r.commands@[6].kind == CommandKind::NewItem,
        r.commands@[7].name@ == "new_proposal"@ && r.commands@[7].kind == CommandKind::NewProposal,
        r.commands@[8].name@ == "vote"@ && r.commands@[8].kind == CommandKind::Vote,
        r.commands@[9].name@ == "show_poll_results"@ && r.commands@[9].kind
            == CommandKind::ShowPollResults,
        r.commands@[10].name@ == "help"@ && r.commands@[10].kind == CommandKind::Help,
{
    let mut r = CommandRegistry::new();
    // The names are pairwise distinct: letting the solver see each
    // literal's length, and one differing character where lengths tie,
    // settles every duplicate check below.
    proof {
        reveal_strlit("new_poll");
        reveal_strlit("start_poll");
        reveal_strlit("conclude_poll");
        reveal_strlit("list_polls");
        reveal_strlit("list_items");
        reveal_strlit("new_voter");
        reveal_strlit("new_item");
        reveal_strlit("new_proposal");
        reveal_strlit("vote");
        reveal_strlit("show_poll_results");
        reveal_strlit("help");
        assert("new_poll"@.len() == 8);
        assert("start_poll"@.len() == 10);
        assert("conclude_poll"@.len() == 13);
        assert("list_polls"@.len() == 10);
        assert("list_items"@.len() == 10);
        assert("new_voter"@.len() == 9);
        assert("new_item"@.len() == 8);
        assert("new_proposal"@.len() == 12);
        assert("vote"@.len() == 4);
        assert("show_poll_results"@.len() == 17);
        assert("help"@.len() == 4);
        assert("start_poll"@[0] != "list_polls"@[0]);
        assert("start_poll"@[0] != "list_items"@[0]);
        assert("list_polls"@[5] != "list_items"@[5]);
        assert("new_poll"@[4] != "new_item"@[4]);
        assert("vote"@[0] != "help"@[0]);
    }
    let _ = r.register(Command::new("new_poll", CommandKind::NewPoll));
    proof {
        assert(r.commands@.len() == 1 && r.commands@[0].name@ == "new_poll"@);
    }
    let _ = r.register(Command::new("start_poll", CommandKind::StartPoll));
    proof {
        assert(r.commands@.len() == 2 && r.commands@[1].name@ == "start_poll"@);
    }
    let _ = r.register(Command::new("conclude_poll", CommandKind::ConcludePoll));
    proof {
        assert(r.commands@.len() == 3 && r.commands@[2].name@ == "conclude_poll"@);
    }
    let _ = r.register(Command::new("list_polls", CommandKind::ListPolls));
    proof {
        assert(r.commands@.len() == 4 && r.commands@[3].name@ == "list_polls"@);
    }
    let _ = r.register(Command::new("list_items", CommandKind::ListItems));
    proof {
        assert(r.commands@.len() == 5 && r.commands@[4].name@ == "list_items"@);
    }
    let _ = r.register(Command::new("new_voter", CommandKind::NewVoter));
    proof {
        assert(r.commands@.len() == 6 && r.commands@[5].name@ == "new_voter"@);
    }
    let _ = r.register(Command::new("new_item", CommandKind::NewItem));
    proof {
        assert(r.commands@.len() == 7 && r.commands@[6].name@ == "new_item"@);
    }
    let _ = r.register(Command::new("new_proposal", CommandKind::NewProposal));
    proof {
        assert(r.commands@.len() == 8 && r.commands@[7].name@ == "new_proposal"@);
    }
    let _ = r.register(Command::new("vote", CommandKind::Vote));
    proof {
        assert(r.commands@.len() == 9 && r.commands@[8].name@ == "vote"@);
    }
    let _ = r.register(Command::new("show_poll_results", CommandKind::ShowPollResults));
    proof {
        assert(r.commands@.len() == 10 && r.commands@[9].name@ == "show_poll_results"@);
    }
    let _ = r.register(Command::new("help", CommandKind::Help));
    proof {
        assert(r.commands@.len() == 11 && r.commands@[10].name@ == "help"@);
    }
    r
}

} // verus!
