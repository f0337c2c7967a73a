use grid_agent::agent::Direction;
use grid_agent::events::Event;
use grid_agent::events::EventQueue;
use grid_agent::events::EventStatus;
use grid_agent::events::FailureReason;
use grid_agent::events::EventId;
use grid_agent::events::ScheduledEvent;

fn move_event(agent_id: u32, direction: Direction) -> Event {
    Event::AgentMove { agent_id, direction }
}

#[test]
fn is_ready_is_a_pure_time_check() {
    // Readiness of a single event is about time alone, whatever the
    // status; only pop_ready additionally demands Pending.
    let processing = ScheduledEvent {
        id: EventId(0),
        event: Event::Delay { ticks: 1 },
        execute_at: 100,
        status: EventStatus::Processing,
    };
    assert!(!processing.is_ready(99));
    assert!(processing.is_ready(100));
    assert!(processing.is_ready(500));
}

#[test]
fn submit_records_ready_time() {
    let mut q = EventQueue::new();
    let id = q.submit(move_event(1, Direction::Up), 250, 1000);
    assert_eq!(id.0, 0);
    assert_eq!(q.events.len(), 1);
    assert_eq!(q.events[0].execute_at, 1250);
    assert!(matches!(q.events[0].status, EventStatus::Pending));
}

#[test]
fn sequence_ready_times_step_by_interval() {
    // Step k of a sequence becomes ready at submission time + k * interval.
    let mut q = EventQueue::new();
    let events = vec![
        move_event(1, Direction::Right),
        move_event(1, Direction::Right),
        move_event(1, Direction::Down),
    ];
    let ids = q.submit_sequence(events, 1000, 5000);
    assert_eq!(ids.len(), 3);
    for (k, id) in ids.iter().enumerate() {
        assert_eq!(id.0, k as u64);
        assert_eq!(q.events[k].id, *id);
        assert_eq!(q.events[k].execute_at, 5000 + (k as u64) * 1000);
        assert!(matches!(q.events[k].status, EventStatus::Pending));
    }
}

#[test]
fn sequence_with_zero_interval_is_all_ready_at_once() {
    let mut q = EventQueue::new();
    let ids = q.submit_sequence(vec![move_event(1, Direction::Up), move_event(1, Direction::Up)], 0, 7);
    assert_eq!(q.events[0].execute_at, 7);
    assert_eq!(q.events[1].execute_at, 7);
    assert_eq!(ids[0].0, 0);
    assert_eq!(ids[1].0, 1);
}

#[test]
fn pop_ready_returns_earliest_submitted_ready_event() {
    let mut q = EventQueue::new();
    let a = q.submit(move_event(1, Direction::Up), 100, 0);
    let b = q.submit(move_event(1, Direction::Down), 0, 0);
    // At time 50, only b is ready.
    let popped = q.pop_ready(50).expect("b must be ready");
    assert_eq!(popped.id, b);
    assert!(matches!(popped.status, EventStatus::Processing));
    // b is still live (Processing) until completed.
    assert!(q.is_live(b));
    // No other event is ready at 50: a second call pops nothing.
    assert!(q.pop_ready(50).is_none());
    // At 100, a is ready.
    let popped2 = q.pop_ready(100).expect("a must be ready");
    assert_eq!(popped2.id, a);
}

#[test]
fn pop_ready_never_resurfaces_a_completed_id() {
    let mut q = EventQueue::new();
    let id = q.submit(move_event(1, Direction::Left), 0, 0);
    let popped = q.pop_ready(0).unwrap();
    assert_eq!(popped.id, id);
    q.complete(id, Ok(()));
    assert!(!q.is_live(id));
    // Nothing is left to pop; in particular the completed id never returns.
    assert!(q.pop_ready(u64::MAX).is_none());
    // Newly submitted events get a fresh id, never the completed one.
    let id2 = q.submit(move_event(1, Direction::Left), 0, 0);
    assert_ne!(id2, id);
}

#[test]
fn complete_twice_never_duplicates_the_outcome_log() {
    let mut q = EventQueue::new();
    let id = q.submit(move_event(1, Direction::Up), 0, 0);
    q.complete(id, Ok(()));
    assert_eq!(q.completed.len(), 1);
    // A duplicate completion is a no-op: no double append, no overwrite.
    q.complete(
        id,
        Err(FailureReason { message: String::from("late"), abort: false }),
    );
    assert_eq!(q.completed.len(), 1);
    assert_eq!(q.completed[0].0, id);
    assert!(q.completed[0].1.is_ok());
    assert!(matches!(q.is_completed(id), Some(Ok(()))));
}

#[test]
fn cancel_agent_events_removes_only_that_agents_pending_events() {
    let mut q = EventQueue::new();
    let mine = q.submit(move_event(1, Direction::Up), 0, 0);
    let other = q.submit(move_event(2, Direction::Up), 0, 0);
    let delay = q.submit(Event::Delay { ticks: 3 }, 0, 0);
    q.cancel_agent_events(1);
    assert!(!q.is_live(mine));
    assert!(q.is_live(other));
    assert!(q.is_live(delay));
    assert_eq!(q.pending_count(), 2);
}

#[test]
fn cancel_events_by_id_list() {
    let mut q = EventQueue::new();
    let a = q.submit(move_event(1, Direction::Up), 0, 0);
    let b = q.submit(move_event(1, Direction::Down), 0, 0);
    q.cancel_events(&vec![a]);
    assert!(!q.is_live(a));
    assert!(q.is_live(b));
}

#[test]
fn clear_empties_live_set_and_log_but_keeps_id_counter() {
    let mut q = EventQueue::new();
    let a = q.submit(move_event(1, Direction::Up), 0, 0);
    q.complete(a, Ok(()));
    q.clear();
    assert_eq!(q.pending_count(), 0);
    assert_eq!(q.completed.len(), 0);
    let b = q.submit(move_event(1, Direction::Up), 0, 0);
    assert_eq!(b.0, 1, "ids are not reused after clear");
}

#[test]
fn is_completed_reports_the_recorded_outcome() {
    let mut q = EventQueue::new();
    let a = q.submit(move_event(1, Direction::Up), 0, 0);
    assert!(q.is_completed(a).is_none());
    q.complete(
        a,
        Err(FailureReason { message: String::from("edge of map"), abort: true }),
    );
    match q.is_completed(a) {
        Some(Err(f)) => {
            assert_eq!(f.message, "edge of map");
            assert!(f.abort);
        }
        other => panic!("unexpected outcome: {:?}", other),
    }
}
