use grid_agent::agent::Agent;
use grid_agent::agent::LogEntry;
use grid_agent::driver::process_tick;
use grid_agent::events::EventQueue;
use grid_agent::map::GridMap;
use grid_agent::map::TileKind;
use grid_agent::tool_execution::ToolExecutionManager;
use grid_agent::tool_execution::ToolInvocation;
use grid_agent::tools::ToolArgs;

fn plain_args() -> ToolArgs {
    ToolArgs {
        agent_id: None,
        steps: None,
        target: None,
        thoughts: None,
        area: None,
        visibility: None,
    }
}

fn move_invocation(agent_id: u32, steps: &[&str]) -> ToolInvocation {
    ToolInvocation {
        agent_id,
        name: String::from("move_agent"),
        args: ToolArgs {
            agent_id: Some(agent_id as u64),
            steps: Some(steps.iter().map(|s| Some(String::from(*s))).collect()),
            ..plain_args()
        },
        args_text: String::from("{}"),
    }
}

#[test]
fn movement_tool_schedules_a_sequence_and_waits() {
    let map = GridMap::new(10, 10, TileKind::Grass);
    let mut agent = Agent::new(1, String::from("Scout"), 5, 5);
    let mut q = EventQueue::new();
    let mut manager = ToolExecutionManager::new(500);
    manager.push_callback(move_invocation(1, &["right", "down"]));

    let immediate = manager.process_tool_callbacks(&mut agent, &map, &mut q, 0, true);
    assert!(!immediate, "a scheduled sequence does not continue immediately");
    assert_eq!(q.pending_count(), 2, "one event per step");
    // Steps are spaced two ticks apart.
    assert_eq!(q.events[0].execute_at, 0);
    assert_eq!(q.events[1].execute_at, 1000);
    assert_eq!(manager.pending_count(), 1);
    let waiting = &manager.pending_tool_executions[0];
    assert_eq!(waiting.tool_name, "move_agent");
    assert_eq!(waiting.event_ids.len(), 2);
    // The assistant tool call went into the chat history.
    let last = agent.get_chat_history().last().unwrap();
    assert_eq!(last.role, "assistant");
}

#[test]
fn resolved_execution_yields_exactly_one_successful_result() {
    let mut map = GridMap::new(10, 10, TileKind::Grass);
    let mut agent = Agent::new(1, String::from("Scout"), 5, 5);
    let mut q = EventQueue::new();
    let mut manager = ToolExecutionManager::new(500);
    manager.push_callback(move_invocation(1, &["right"]));
    manager.process_tool_callbacks(&mut agent, &map, &mut q, 0, true);

    // Nothing resolves while the event is still live.
    let before = agent.get_chat_history().len();
    assert!(!manager.process_pending_executions(&mut agent, &q));
    assert_eq!(agent.get_chat_history().len(), before);

    process_tick(&mut agent, &mut map, &mut q, 0);
    assert!(manager.process_pending_executions(&mut agent, &q));
    assert_eq!(manager.pending_count(), 0);
    let last = agent.get_chat_history().last().unwrap();
    assert_eq!(last.role, "tool");
    assert_eq!(last.content.as_deref(), Some(" (Completed successfully)"));
    assert_eq!(agent.pos(), (6, 5));
}

#[test]
fn failed_step_mid_sequence_still_resolves_with_its_failure_listed() {
    // A failure injected mid-sequence must still lead to resolution,
    // never a hang: the aborted remainder leaves the live set too.
    let mut map = GridMap::new(10, 10, TileKind::Grass);
    map.set(7, 5, TileKind::Wall);
    let mut agent = Agent::new(1, String::from("Scout"), 5, 5);
    let mut q = EventQueue::new();
    let mut manager = ToolExecutionManager::new(500);
    manager.push_callback(move_invocation(1, &["right", "right", "down"]));
    manager.process_tool_callbacks(&mut agent, &map, &mut q, 0, true);

    process_tick(&mut agent, &mut map, &mut q, 0);
    assert!(!manager.process_pending_executions(&mut agent, &q), "steps remain");
    process_tick(&mut agent, &mut map, &mut q, 1000);
    assert!(manager.process_pending_executions(&mut agent, &q), "resolution, not a hang");
    let last = agent.get_chat_history().last().unwrap();
    assert_eq!(
        last.content.as_deref(),
        Some(" (Errors: blocked by wall at (7,5))"),
        "the synthesized result lists exactly the one failure"
    );
    assert_eq!(agent.pos(), (6, 5));
}

#[test]
fn immediate_tool_answers_in_the_same_round() {
    let map = GridMap::new(10, 10, TileKind::Grass);
    let mut agent = Agent::new(1, String::from("Scout"), 2, 3);
    let mut q = EventQueue::new();
    let mut manager = ToolExecutionManager::new(500);
    manager.push_callback(ToolInvocation {
        agent_id: 1,
        name: String::from("get_position"),
        args: ToolArgs { agent_id: Some(1), ..plain_args() },
        args_text: String::from("{}"),
    });
    let immediate = manager.process_tool_callbacks(&mut agent, &map, &mut q, 0, true);
    assert!(immediate);
    assert_eq!(q.pending_count(), 0);
    let last = agent.get_chat_history().last().unwrap();
    assert_eq!(last.content.as_deref(), Some("{\"x\":2,\"y\":3}"));
}

#[test]
fn unknown_tool_reports_an_error_result() {
    let map = GridMap::new(10, 10, TileKind::Grass);
    let mut agent = Agent::new(1, String::from("Scout"), 2, 3);
    let mut q = EventQueue::new();
    let mut manager = ToolExecutionManager::new(500);
    manager.push_callback(ToolInvocation {
        agent_id: 1,
        name: String::from("teleport"),
        args: ToolArgs { agent_id: Some(1), ..plain_args() },
        args_text: String::from("{}"),
    });
    let immediate = manager.process_tool_callbacks(&mut agent, &map, &mut q, 0, true);
    assert!(immediate);
    let last = agent.get_chat_history().last().unwrap();
    assert_eq!(last.content.as_deref(), Some("Error: unknown tool: teleport"));
}

#[test]
fn identity_mismatch_is_a_validation_error_with_no_state_change() {
    let map = GridMap::new(10, 10, TileKind::Grass);
    let mut agent = Agent::new(1, String::from("Scout"), 2, 3);
    let mut q = EventQueue::new();
    let mut manager = ToolExecutionManager::new(500);
    manager.push_callback(ToolInvocation {
        agent_id: 1,
        name: String::from("move_agent"),
        args: ToolArgs {
            agent_id: Some(4),
            steps: Some(vec![Some(String::from("up"))]),
            ..plain_args()
        },
        args_text: String::from("{}"),
    });
    manager.process_tool_callbacks(&mut agent, &map, &mut q, 0, true);
    assert_eq!(q.pending_count(), 0);
    assert_eq!(agent.pos(), (2, 3));
    let last = agent.get_chat_history().last().unwrap();
    assert_eq!(
        last.content.as_deref(),
        Some("Error: agent id mismatch: expected 1, got 4")
    );
    let logs = agent.get_logs();
    match &logs[logs.len() - 2] {
        LogEntry::ToolResult { success, message, .. } => {
            assert!(!success);
            assert_eq!(message, "agent id mismatch: expected 1, got 4");
        }
        other => panic!("expected a tool result log entry, got {:?}", other),
    }
    match logs.last().unwrap() {
        LogEntry::Error(m) => {
            assert_eq!(m, "Tool execution failed: agent id mismatch: expected 1, got 4")
        }
        other => panic!("expected an error log entry, got {:?}", other),
    }
}

#[test]
fn cancelled_execution_discards_the_invocation() {
    let map = GridMap::new(10, 10, TileKind::Grass);
    let mut agent = Agent::new(1, String::from("Scout"), 5, 5);
    let mut q = EventQueue::new();
    let mut manager = ToolExecutionManager::new(500);
    manager.push_callback(move_invocation(1, &["right"]));
    let immediate = manager.process_tool_callbacks(&mut agent, &map, &mut q, 0, false);
    assert!(!immediate);
    assert_eq!(q.pending_count(), 0);
    assert_eq!(manager.pending_count(), 0);
    match agent.get_logs().last().unwrap() {
        LogEntry::Info(m) => {
            assert_eq!(m, "TOOL: Discarded 'move_agent' tool call (execution cancelled)")
        }
        other => panic!("expected an info entry, got {:?}", other),
    }
}
