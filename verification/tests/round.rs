use grid_agent::agent::Agent;
use grid_agent::driver::ConversationDriver;
use grid_agent::events::EventQueue;
use grid_agent::map::GridMap;
use grid_agent::map::TileKind;
use grid_agent::openrouter::OpenRouterEvent;
use grid_agent::openrouter::RoundAccumulator;
use grid_agent::tool_execution::ToolExecutionManager;

fn delta(name: Option<&str>, args: Option<&str>) -> OpenRouterEvent {
    OpenRouterEvent::ToolCallDelta {
        name: name.map(String::from),
        arguments_delta: args.map(String::from),
    }
}

#[test]
fn content_fragments_accumulate_in_order() {
    let mut acc = RoundAccumulator::new();
    acc.feed(OpenRouterEvent::Content(String::from("I will ")));
    acc.feed(OpenRouterEvent::Content(String::from("move right.")));
    let round = acc.finish();
    assert_eq!(round.content, "I will move right.");
    assert!(round.tool_call.is_none());
}

#[test]
fn tool_call_arguments_accumulate_across_fragments() {
    let mut acc = RoundAccumulator::new();
    acc.feed(delta(Some("move_agent"), Some("{\"steps\":")));
    acc.feed(delta(None, Some("[\"right\"]}")));
    let round = acc.finish();
    assert_eq!(
        round.tool_call,
        Some((String::from("move_agent"), String::from("{\"steps\":[\"right\"]}")))
    );
}

#[test]
fn scenario_only_the_last_full_tool_call_of_a_round_is_honored() {
    // Two tool-call fragments stream before closure; only the last
    // fully-accumulated (name, args) pair is honored.
    let mut acc = RoundAccumulator::new();
    acc.feed(delta(Some("get_position"), Some("{}")));
    acc.feed(delta(Some("move_agent"), Some("{\"steps\":[\"up\"]")));
    acc.feed(delta(None, Some("}")));
    let round = acc.finish();
    assert_eq!(
        round.tool_call,
        Some((String::from("move_agent"), String::from("{\"steps\":[\"up\"]}")))
    );
}

#[test]
fn prepare_round_logs_and_frames_a_new_instruction() {
    let map = GridMap::new(6, 6, TileKind::Grass);
    let mut agent = Agent::new(1, String::from("Scout"), 2, 2);
    let request = agent.prepare_round(String::from("walk east"), &map);
    // System prompt first, then the user message.
    assert_eq!(request.messages[0].role, "system");
    assert!(request.messages[0]
        .content
        .as_deref()
        .unwrap()
        .starts_with("You are a tool-using agent named 'Scout' (ID: 1)."));
    assert_eq!(request.messages.len(), 2);
    assert_eq!(request.messages[1].role, "user");
    assert_eq!(request.messages[1].content.as_deref(), Some("walk east"));
    // All six default tools are enabled and offered.
    assert_eq!(request.tools.len(), 6);
    assert_eq!(request.tools[2].function.name, "move_agent");
}

#[test]
fn prepare_round_with_empty_instruction_continues_from_history() {
    let map = GridMap::new(6, 6, TileKind::Grass);
    let mut agent = Agent::new(1, String::from("Scout"), 2, 2);
    agent.prepare_round(String::from("walk east"), &map);
    let history_before = agent.get_chat_history().len();
    let request = agent.prepare_round(String::new(), &map);
    assert_eq!(agent.get_chat_history().len(), history_before, "nothing was added");
    assert_eq!(request.messages.len(), 1 + history_before);
}

#[test]
fn prepare_round_sends_only_the_recent_history_window() {
    let map = GridMap::new(6, 6, TileKind::Grass);
    let mut agent = Agent::new(1, String::from("Scout"), 2, 2);
    agent.set_max_history_messages(2);
    agent.prepare_round(String::from("one"), &map);
    agent.prepare_round(String::from("two"), &map);
    let request = agent.prepare_round(String::from("three"), &map);
    assert_eq!(request.messages.len(), 3, "system plus the last two messages");
    assert_eq!(request.messages[1].content.as_deref(), Some("two"));
    assert_eq!(request.messages[2].content.as_deref(), Some("three"));
}

#[test]
fn disabled_tools_are_not_offered() {
    let map = GridMap::new(6, 6, TileKind::Grass);
    let mut agent = Agent::new(1, String::from("Scout"), 2, 2);
    assert!(agent.disable_tool("think"));
    assert!(!agent.is_tool_enabled("think"));
    let request = agent.prepare_round(String::from("go"), &map);
    assert_eq!(request.tools.len(), 5);
    assert!(request.tools.iter().all(|t| t.function.name != "think"));
    assert!(agent.enable_tool("think"));
    assert!(agent.is_tool_enabled("think"));
    assert!(!agent.enable_tool("no_such_tool"));
}

#[test]
fn driver_resumes_only_when_everything_has_resolved() {
    let mut driver = ConversationDriver::new();
    let mut manager = ToolExecutionManager::new(500);
    let mut q = EventQueue::new();
    driver.begin_instruction();
    assert!(driver.agent_running);
    assert!(driver.llm_active);
    driver.set_llm_active(false);
    driver.note_continue(true);
    assert!(driver.should_resume(&manager, &q));
    // A live scheduled event blocks resumption.
    let id = q.submit(
        grid_agent::events::Event::Delay { ticks: 1 },
        0,
        0,
    );
    assert!(!driver.should_resume(&manager, &q));
    q.complete(id, Ok(()));
    assert!(driver.should_resume(&manager, &q));
    driver.begin_continuation_round();
    assert!(!driver.should_continue);
    assert!(driver.llm_active);
    // Cancellation drops queued invocations and returns to idle.
    let mut agent = Agent::new(1, String::from("Scout"), 2, 2);
    driver.cancel(&mut agent, &mut manager);
    assert!(!driver.agent_running && !driver.should_continue && !driver.llm_active);
    match agent.get_logs().last().unwrap() {
        grid_agent::agent::LogEntry::Info(m) => {
            assert_eq!(m, "WARN: Execution cancelled by user (ESC)")
        }
        other => panic!("expected an info entry, got {:?}", other),
    }
}
