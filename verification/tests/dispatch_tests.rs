use pollbot::dispatch::{DispatchOutcome, HandlerOutcome, KnownUser, Reply, UserDirectory,
    help, list_items, list_polls, new_voter};
use pollbot::engine::{CreateItemResult, CreatePollResult, PollEngine, StartPollResult};
use pollbot::registry::{Command, CommandKind, CommandRegistry, RegistryError, default_registry};

fn setup() -> (PollEngine, CommandRegistry, UserDirectory) {
    let engine = PollEngine::new();
    let registry = default_registry();
    let mut directory = UserDirectory::new();
    directory.add("U1", "alice");
    directory.add("U2", "bob");
    (engine, registry, directory)
}

fn run(
    engine: &mut PollEngine,
    registry: &CommandRegistry,
    directory: &UserDirectory,
    text: &str,
    sender: &str,
) -> DispatchOutcome {
    pollbot::dispatch::handle_event(engine, registry, directory, "*", text, sender)
}

#[test]
fn registry_knows_every_wire_name() {
    let registry = default_registry();
    assert_eq!(registry.lookup("new_poll"), Some(CommandKind::NewPoll));
    assert_eq!(registry.lookup("start_poll"), Some(CommandKind::StartPoll));
    assert_eq!(registry.lookup("conclude_poll"), Some(CommandKind::ConcludePoll));
    assert_eq!(registry.lookup("list_polls"), Some(CommandKind::ListPolls));
    assert_eq!(registry.lookup("list_items"), Some(CommandKind::ListItems));
    assert_eq!(registry.lookup("new_voter"), Some(CommandKind::NewVoter));
    assert_eq!(registry.lookup("new_item"), Some(CommandKind::NewItem));
    assert_eq!(registry.lookup("new_proposal"), Some(CommandKind::NewProposal));
    assert_eq!(registry.lookup("vote"), Some(CommandKind::Vote));
    assert_eq!(registry.lookup("show_poll_results"), Some(CommandKind::ShowPollResults));
    assert_eq!(registry.lookup("help"), Some(CommandKind::Help));
    assert_eq!(registry.lookup("nonsense"), None);
    assert_eq!(registry.lookup("New_Poll"), None);
}

#[test]
fn duplicate_registration_is_rejected_loudly() {
    let mut registry = CommandRegistry::new();
    assert!(registry.register(Command::new("help", CommandKind::Help)).is_ok());
    assert_eq!(
        registry.register(Command::new("help", CommandKind::NewPoll)),
        Err(RegistryError::DuplicateCommand)
    );
    assert_eq!(registry.lookup("help"), Some(CommandKind::Help));
}

#[test]
fn command_matches_its_own_name_exactly() {
    let command = Command::new("vote", CommandKind::Vote);
    assert!(command.matches("vote"));
    assert!(!command.matches("Vote"));
    assert!(!command.matches("vot"));
}

#[test]
fn directory_lookup_takes_the_first_match() {
    let mut directory = UserDirectory::new();
    directory.add("U1", "alice");
    directory.add("U1", "impostor");
    let user = directory.lookup("U1").expect("user should resolve");
    assert_eq!(user.name, "alice");
    assert!(directory.lookup("U9").is_none());
}

#[test]
fn non_commands_are_silently_ignored() {
    let (mut engine, registry, directory) = setup();
    assert!(matches!(
        run(&mut engine, &registry, &directory, "hello there", "U1"),
        DispatchOutcome::NotACommand
    ));
    assert!(matches!(
        run(&mut engine, &registry, &directory, "*", "U1"),
        DispatchOutcome::NotACommand
    ));
    assert!(matches!(
        run(&mut engine, &registry, &directory, "*   ", "U1"),
        DispatchOutcome::NotACommand
    ));
}

#[test]
fn unknown_sender_is_reported_not_crashed() {
    let (mut engine, registry, directory) = setup();
    assert!(matches!(
        run(&mut engine, &registry, &directory, "*new_poll p1", "U999"),
        DispatchOutcome::UnknownSender
    ));
    assert!(engine.find_poll_by_name("p1").is_none());
}

#[test]
fn unknown_command_name_is_reported() {
    let (mut engine, registry, directory) = setup();
    match run(&mut engine, &registry, &directory, "*frobnicate a b", "U1") {
        DispatchOutcome::CommandNotFound { name } => assert_eq!(name, "frobnicate"),
        _ => panic!("expected a command-not-found outcome"),
    }
}

#[test]
fn too_few_parameters_are_reported() {
    let (mut engine, registry, directory) = setup();
    match run(&mut engine, &registry, &directory, "*vote onlypoll", "U1") {
        DispatchOutcome::NotEnoughParams { name } => assert_eq!(name, "vote"),
        _ => panic!("expected a not-enough-parameters outcome"),
    }
    match run(&mut engine, &registry, &directory, "*new_poll", "U1") {
        DispatchOutcome::NotEnoughParams { name } => assert_eq!(name, "new_poll"),
        _ => panic!("expected a not-enough-parameters outcome"),
    }
}

#[test]
fn poll_commands_drive_the_lifecycle_end_to_end() {
    let (mut engine, registry, directory) = setup();
    match run(&mut engine, &registry, &directory, "*new_poll demo", "U1") {
        DispatchOutcome::Replied(Reply::PollCreated { poll_name }) => {
            assert_eq!(poll_name, "demo")
        },
        _ => panic!("expected a poll-created reply"),
    }
    match run(&mut engine, &registry, &directory, "*new_poll demo", "U1") {
        DispatchOutcome::Replied(Reply::PollNotCreated { poll_name }) => {
            assert_eq!(poll_name, "demo")
        },
        _ => panic!("expected a poll-not-created reply"),
    }
    match run(&mut engine, &registry, &directory, "*start_poll demo", "U1") {
        DispatchOutcome::Replied(Reply::PollStarted { poll_name }) => {
            assert_eq!(poll_name, "demo")
        },
        _ => panic!("expected a poll-started reply"),
    }
    assert!(matches!(
        run(&mut engine, &registry, &directory, "*start_poll demo", "U1"),
        DispatchOutcome::Replied(Reply::PollAlreadyStarted { .. })
    ));
    assert!(matches!(
        run(&mut engine, &registry, &directory, "*start_poll ghost", "U1"),
        DispatchOutcome::Replied(Reply::PollNotFound { .. })
    ));
    match run(&mut engine, &registry, &directory, "*conclude_poll demo", "U1") {
        DispatchOutcome::Replied(Reply::PollConcluded { poll_name }) => {
            assert_eq!(poll_name, "demo")
        },
        _ => panic!("expected a poll-concluded reply"),
    }
    assert!(matches!(
        run(&mut engine, &registry, &directory, "*conclude_poll demo", "U1"),
        DispatchOutcome::Replied(Reply::PollNotConcludable { .. })
    ));
}

#[test]
fn voting_over_the_wire_updates_one_row() {
    let (mut engine, registry, directory) = setup();
    run(&mut engine, &registry, &directory, "*new_poll demo", "U1");
    run(&mut engine, &registry, &directory, "*start_poll demo", "U1");
    run(&mut engine, &registry, &directory, "*new_item pizza", "U1");
    run(&mut engine, &registry, &directory, "*new_proposal demo pizza", "U1");
    match run(&mut engine, &registry, &directory, "*new_voter", "U1") {
        DispatchOutcome::Replied(Reply::VoterCreated { user_name, user_id }) => {
            assert_eq!(user_name, "alice");
            assert_eq!(user_id, "U1");
        },
        _ => panic!("expected a voter-created reply"),
    }
    assert!(matches!(
        run(&mut engine, &registry, &directory, "*new_voter", "U1"),
        DispatchOutcome::Replied(Reply::VoterAlreadyRegistered { .. })
    ));
    match run(&mut engine, &registry, &directory, "*vote demo pizza +", "U1") {
        DispatchOutcome::Replied(Reply::VoteAccepted { poll_name, item_name, weight }) => {
            assert_eq!(poll_name, "demo");
            assert_eq!(item_name, "pizza");
            assert_eq!(weight, 1);
        },
        _ => panic!("expected a vote-accepted reply"),
    }
    match run(&mut engine, &registry, &directory, "*vote demo pizza -", "U1") {
        DispatchOutcome::Replied(Reply::VoteAccepted { weight, .. }) => assert_eq!(weight, -1),
        _ => panic!("expected a vote-accepted reply"),
    }
    let prop = engine
        .find_proposal_by_poll_name_and_item_name("demo", "pizza")
        .expect("proposal should exist");
    let votes = engine.find_votes_by_proposal(&prop);
    assert_eq!(votes.len(), 1);
    assert_eq!(votes[0].weight, -1);
    assert!(matches!(
        run(&mut engine, &registry, &directory, "*vote demo salad -", "U1"),
        DispatchOutcome::Replied(Reply::VoteTargetMissing { .. })
    ));
    match run(&mut engine, &registry, &directory, "*vote demo pizza -", "U2") {
        DispatchOutcome::Replied(Reply::VoterNotRegistered { user_name }) => {
            assert_eq!(user_name, "bob")
        },
        _ => panic!("expected a voter-not-registered reply"),
    }
    run(&mut engine, &registry, &directory, "*conclude_poll demo", "U1");
    assert!(matches!(
        run(&mut engine, &registry, &directory, "*vote demo pizza -", "U1"),
        DispatchOutcome::Replied(Reply::VoteNotAllowed { .. })
    ));
}

#[test]
fn item_and_proposal_commands_reply_distinctly() {
    let (mut engine, registry, directory) = setup();
    match run(&mut engine, &registry, &directory, "*new_item Pizza", "U1") {
        DispatchOutcome::Replied(Reply::ItemCreated { item_name }) => {
            assert_eq!(item_name, "Pizza")
        },
        _ => panic!("expected an item-created reply"),
    }
    assert!(matches!(
        run(&mut engine, &registry, &directory, "*new_item pizza", "U1"),
        DispatchOutcome::Replied(Reply::ItemNameTaken { .. })
    ));
    assert!(matches!(
        run(&mut engine, &registry, &directory, "*new_proposal ghost pizza", "U1"),
        DispatchOutcome::Replied(Reply::ProposalPollMissing { .. })
    ));
    run(&mut engine, &registry, &directory, "*new_poll demo", "U1");
    assert!(matches!(
        run(&mut engine, &registry, &directory, "*new_proposal demo salad", "U1"),
        DispatchOutcome::Replied(Reply::ProposalItemMissing { .. })
    ));
    match run(&mut engine, &registry, &directory, "*new_proposal demo pizza", "U1") {
        DispatchOutcome::Replied(Reply::ProposalCreated { poll_name, item_name }) => {
            assert_eq!(poll_name, "demo");
            assert_eq!(item_name, "pizza");
        },
        _ => panic!("expected a proposal-created reply"),
    }
    assert!(matches!(
        run(&mut engine, &registry, &directory, "*new_proposal demo pizza", "U1"),
        DispatchOutcome::Replied(Reply::ProposalDuplicate { .. })
    ));
}

#[test]
fn listing_commands_report_the_newest_first() {
    let (mut engine, registry, directory) = setup();
    for name in ["p1", "p2", "p3", "p4", "p5", "p6", "p7"] {
        assert_eq!(engine.create_poll(name), CreatePollResult::Created);
    }
    assert_eq!(engine.create_item("a"), CreateItemResult::Created);
    assert_eq!(engine.create_item("b"), CreateItemResult::Created);
    match run(&mut engine, &registry, &directory, "*list_polls", "U1") {
        DispatchOutcome::Replied(Reply::PollList { polls }) => {
            let names: Vec<&str> = polls.iter().map(|p| p.name.as_str()).collect();
            assert_eq!(names, vec!["p7", "p6", "p5", "p4", "p3"]);
        },
        _ => panic!("expected a poll-list reply"),
    }
    match run(&mut engine, &registry, &directory, "*list_items", "U1") {
        DispatchOutcome::Replied(Reply::ItemList { items }) => {
            let names: Vec<&str> = items.iter().map(|i| i.name.as_str()).collect();
            assert_eq!(names, vec!["b", "a"]);
        },
        _ => panic!("expected an item-list reply"),
    }
}

#[test]
fn show_poll_results_reports_or_says_not_found() {
    let (mut engine, registry, directory) = setup();
    run(&mut engine, &registry, &directory, "*new_poll demo", "U1");
    run(&mut engine, &registry, &directory, "*start_poll demo", "U1");
    run(&mut engine, &registry, &directory, "*new_item pizza", "U1");
    run(&mut engine, &registry, &directory, "*new_proposal demo pizza", "U1");
    run(&mut engine, &registry, &directory, "*new_voter", "U1");
    run(&mut engine, &registry, &directory, "*vote demo pizza -", "U1");
    match run(&mut engine, &registry, &directory, "*show_poll_results demo", "U1") {
        DispatchOutcome::Replied(Reply::PollResultsReport { results }) => {
            assert_eq!(results.poll_name, "demo");
            assert_eq!(results.proposals.len(), 1);
            assert_eq!(results.proposals[0].item_name, "pizza");
            assert_eq!(results.proposals[0].votes.len(), 1);
            assert_eq!(results.proposals[0].votes[0].voter_name, "alice");
            assert_eq!(results.proposals[0].votes[0].weight, -1);
        },
        _ => panic!("expected a results report"),
    }
    assert!(matches!(
        run(&mut engine, &registry, &directory, "*show_poll_results ghost", "U1"),
        DispatchOutcome::Replied(Reply::PollNotFound { .. })
    ));
}

#[test]
fn help_always_replies() {
    let (mut engine, registry, directory) = setup();
    assert!(matches!(
        run(&mut engine, &registry, &directory, "*help", "U1"),
        DispatchOutcome::Replied(Reply::Help)
    ));
    assert!(matches!(help(), HandlerOutcome::Replied(Reply::Help)));
}

#[test]
fn handlers_can_be_called_directly() {
    let mut engine = PollEngine::new();
    assert_eq!(engine.create_poll("solo"), CreatePollResult::Created);
    assert_eq!(engine.start_poll("solo"), StartPollResult::Started);
    match list_polls(&engine) {
        HandlerOutcome::Replied(Reply::PollList { polls }) => {
            assert_eq!(polls.len(), 1);
            assert_eq!(polls[0].name, "solo");
        },
        _ => panic!("expected a poll-list reply"),
    }
    match list_items(&engine) {
        HandlerOutcome::Replied(Reply::ItemList { items }) => assert!(items.is_empty()),
        _ => panic!("expected an item-list reply"),
    }
    let sender = KnownUser { id: "U7".to_string(), name: "carol".to_string() };
    match new_voter(&mut engine, &sender) {
        HandlerOutcome::Replied(Reply::VoterCreated { user_name, user_id }) => {
            assert_eq!(user_name, "carol");
            assert_eq!(user_id, "U7");
        },
        _ => panic!("expected a voter-created reply"),
    }
}
