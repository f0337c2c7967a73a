use grid_agent::agent::Agent;
use grid_agent::agent::Direction;
use grid_agent::agent::LogEntry;
use grid_agent::driver::process_tick;
use grid_agent::events::Event;
use grid_agent::events::EventQueue;
use grid_agent::events::PendingToolExecution;
use grid_agent::map::GridMap;
use grid_agent::map::TileKind;

fn grass_map(w: usize, h: usize) -> GridMap {
    GridMap::new(w, h, TileKind::Grass)
}

#[test]
fn direction_from_str_ignores_ascii_case() {
    assert_eq!(Direction::from_str("up"), Ok(Direction::Up));
    assert_eq!(Direction::from_str("DOWN"), Ok(Direction::Down));
    assert_eq!(Direction::from_str("Left"), Ok(Direction::Left));
    assert_eq!(Direction::from_str("riGHt"), Ok(Direction::Right));
    assert_eq!(
        Direction::from_str("sideways"),
        Err(String::from("Invalid direction: sideways"))
    );
}

#[test]
fn direction_as_str_round_trip() {
    for d in [Direction::Up, Direction::Down, Direction::Left, Direction::Right] {
        assert_eq!(Direction::from_str(d.as_str()), Ok(d));
    }
}

#[test]
fn direction_apply_clamps_to_the_map() {
    assert_eq!(Direction::Up.apply(3, 0, 10, 10), (3, -1));
    assert_eq!(Direction::Down.apply(3, 4, 10, 10), (3, 5));
    assert_eq!(Direction::Down.apply(3, 9, 10, 10), (3, 9));
    assert_eq!(Direction::Left.apply(0, 3, 10, 10), (-1, 3));
    assert_eq!(Direction::Right.apply(9, 3, 10, 10), (9, 3));
}

#[test]
fn execute_move_step_success_leaves_a_trail() {
    let mut map = grass_map(10, 10);
    let mut agent = Agent::new(1, String::from("Scout"), 5, 5);
    let r = agent.execute_move_step(Direction::Right, &mut map);
    assert!(r.is_ok());
    assert_eq!(agent.pos(), (6, 5));
    assert_eq!(map.get(5, 5), Some(&TileKind::Trail));
    match agent.get_logs().last().unwrap() {
        LogEntry::Movement { direction, position } => {
            assert_eq!(direction, "right");
            assert_eq!(*position, (6, 5));
        }
        other => panic!("expected a movement entry, got {:?}", other),
    }
}

#[test]
fn blocked_step_fails_with_abort_and_leaves_position() {
    let mut map = grass_map(10, 10);
    map.set(7, 5, TileKind::Wall);
    let mut agent = Agent::new(1, String::from("Scout"), 6, 5);
    let r = agent.execute_move_step(Direction::Right, &mut map);
    match r {
        Err(f) => {
            assert_eq!(f.message, "blocked by wall at (7,5)");
            assert!(f.abort);
        }
        Ok(()) => panic!("the wall must block the step"),
    }
    assert_eq!(agent.pos(), (6, 5));
    assert_eq!(map.get(6, 5), Some(&TileKind::Grass), "no trail on failure");
}

#[test]
fn edge_step_fails_with_edge_of_map() {
    let mut map = grass_map(10, 10);
    let mut agent = Agent::new(1, String::from("Scout"), 3, 0);
    let r = agent.execute_move_step(Direction::Up, &mut map);
    match r {
        Err(f) => {
            assert_eq!(f.message, "edge of map");
            assert!(f.abort);
        }
        Ok(()) => panic!("the edge must block the step"),
    }
    assert_eq!(agent.pos(), (3, 0));
}

#[test]
fn scenario_walk_into_a_wall_aborts_the_rest_of_the_sequence() {
    // Subject at (5,5) issues [right, right, down] with a 1000 ms
    // interval; (7,5) is a wall. Step 1 reaches (6,5); step 2 fails;
    // step 3 never runs; the synthesized result lists exactly one
    // failure.
    let mut map = grass_map(12, 12);
    map.set(7, 5, TileKind::Wall);
    let mut agent = Agent::new(1, String::from("Scout"), 5, 5);
    let mut q = EventQueue::new();
    let steps = vec![
        Event::AgentMove { agent_id: 1, direction: Direction::Right },
        Event::AgentMove { agent_id: 1, direction: Direction::Right },
        Event::AgentMove { agent_id: 1, direction: Direction::Down },
    ];
    let ids = q.submit_sequence(steps, 1000, 0);
    let pending = PendingToolExecution::new(
        String::from("call_7"),
        String::from("move_agent"),
        String::new(),
        ids.clone(),
        0,
    );

    // Tick at t=0: only step 1 is ready.
    process_tick(&mut agent, &mut map, &mut q, 0);
    assert_eq!(agent.pos(), (6, 5));
    assert!(matches!(q.is_completed(ids[0]), Some(Ok(()))));
    assert!(!pending.is_complete(&q), "steps 2 and 3 are still live");

    // Tick at t=1000: step 2 fails against the wall and aborts step 3.
    process_tick(&mut agent, &mut map, &mut q, 1000);
    assert_eq!(agent.pos(), (6, 5), "final position is (6,5)");
    match q.is_completed(ids[1]) {
        Some(Err(f)) => {
            assert_eq!(f.message, "blocked by wall at (7,5)");
            assert!(f.abort);
        }
        other => panic!("step 2 must fail, got {:?}", other),
    }
    // Step 3 never reached Completed: it was removed from the live set
    // before its first readiness check and has no outcome.
    assert!(q.is_completed(ids[2]).is_none());
    assert!(!q.is_live(ids[2]));
    assert_eq!(q.pending_count(), 0);
    assert!(pending.is_complete(&q), "the execution resolves despite the failure");
    // The recorded outcomes show exactly one failure.
    let results = pending.get_event_results(&q);
    let failures: Vec<_> = results.iter().filter(|(_, r)| r.is_err()).collect();
    assert_eq!(failures.len(), 1);
}

#[test]
fn scenario_up_from_the_top_row_fails_immediately() {
    // Subject at y=0 issues [up]: Failed("edge of map"), position
    // unchanged, and no event is left Processing.
    let mut map = grass_map(8, 8);
    let mut agent = Agent::new(1, String::from("Scout"), 4, 0);
    let mut q = EventQueue::new();
    let ids = q.submit_sequence(vec![Event::AgentMove { agent_id: 1, direction: Direction::Up }], 1000, 0);
    process_tick(&mut agent, &mut map, &mut q, 0);
    assert_eq!(agent.pos(), (4, 0));
    match q.is_completed(ids[0]) {
        Some(Err(f)) => assert_eq!(f.message, "edge of map"),
        other => panic!("the step must fail, got {:?}", other),
    }
    assert_eq!(q.pending_count(), 0, "nothing is left live, Processing or otherwise");
}

#[test]
fn delay_events_complete_successfully() {
    let mut map = grass_map(8, 8);
    let mut agent = Agent::new(1, String::from("Scout"), 4, 4);
    let mut q = EventQueue::new();
    let id = q.submit(Event::Delay { ticks: 2 }, 0, 0);
    process_tick(&mut agent, &mut map, &mut q, 0);
    assert!(matches!(q.is_completed(id), Some(Ok(()))));
}

#[test]
fn moves_for_an_unknown_agent_fail_without_abort() {
    let mut map = grass_map(8, 8);
    let mut agent = Agent::new(1, String::from("Scout"), 4, 4);
    let mut q = EventQueue::new();
    let id = q.submit(Event::AgentMove { agent_id: 9, direction: Direction::Up }, 0, 0);
    let mine = q.submit(Event::AgentMove { agent_id: 1, direction: Direction::Up }, 5000, 0);
    process_tick(&mut agent, &mut map, &mut q, 0);
    match q.is_completed(id) {
        Some(Err(f)) => {
            assert_eq!(f.message, "Unknown agent id: 9");
            assert!(!f.abort, "an unknown id does not abort this agent's events");
        }
        other => panic!("unexpected outcome {:?}", other),
    }
    assert!(q.is_live(mine), "the real agent's future event stays scheduled");
}

#[test]
fn tick_step_drains_exactly_one_ready_event() {
    let mut map = grass_map(8, 8);
    let mut agent = Agent::new(1, String::from("Scout"), 4, 4);
    let mut q = EventQueue::new();
    let first = q.submit(Event::AgentMove { agent_id: 1, direction: Direction::Right }, 0, 0);
    let second = q.submit(Event::Delay { ticks: 1 }, 0, 0);
    assert!(grid_agent::driver::tick_step(&mut agent, &mut map, &mut q, 0));
    assert_eq!(agent.pos(), (5, 4), "the earliest-submitted ready event ran");
    assert!(matches!(q.is_completed(first), Some(Ok(()))));
    assert!(q.is_completed(second).is_none(), "one call drains at most one event");
    assert!(grid_agent::driver::tick_step(&mut agent, &mut map, &mut q, 0));
    assert!(matches!(q.is_completed(second), Some(Ok(()))));
    assert!(!grid_agent::driver::tick_step(&mut agent, &mut map, &mut q, 0), "nothing ready");
    assert_eq!(q.pending_count(), 0);
}
