//! The event scheduler: a time-ordered live set of scheduled events with
//! submission, sequenced submission, readiness draining, cancellation and
//! idempotent completion recording.
//!
//! Time is a plain millisecond count supplied by the caller at each
//! operation; the scheduler never reads a clock itself.

use vstd::prelude::*;
use vstd::seq_lib::*;
use crate::agent::Direction;

verus! {

/// Unique identifier for events. Identifiers are handed out by the owning
/// [`EventQueue`] in strictly increasing order and are never reused.
#[derive(Clone, Copy, Debug, PartialEq, Eq, Hash, Structural)]
pub struct EventId(pub u64);

/// A structured failure outcome. `abort` marks failures after which the
/// remaining queued events of the same agent must be cancelled.
#[derive(Debug, PartialEq, Eq)]
pub struct FailureReason {
    pub message: String,
    pub abort: bool,
}

impl Clone for FailureReason {
    fn clone(&self) -> (res: Self)
        ensures
            res == *self,
    {
        FailureReason { message: self.message.clone(), abort: self.abort }
    }
}

/// The outcome recorded for a completed event.
pub type EventOutcome = Result<(), FailureReason>;

/// Copies an outcome value.
pub fn duplicate_outcome(o: &EventOutcome) -> (r: EventOutcome)
    ensures
        r == *o,
{
    match o {
        Ok(u) => Ok(*u),
        Err(f) => Err(f.clone()),
    }
}

/// Status of an event.
#[derive(Debug, PartialEq, Eq)]
pub enum EventStatus {
    Pending,
    Processing,
    Completed,
    Failed(FailureReason),
}

/// Types of events that can occur in the game.
#[derive(Clone, Copy, Debug, PartialEq, Eq, Structural)]
pub enum Event {
    /// Agent movement event.
    AgentMove { agent_id: u32, direction: Direction },
    /// Delay event (wait for N ticks).
    Delay { ticks: u32 },
}

impl Event {
    /// Whether this event belongs to the given agent.
    pub open spec fn spec_belongs_to(self, agent_id: u32) -> bool {
        self matches Event::AgentMove { agent_id: a, .. } && a == agent_id
    }

    pub fn belongs_to(&self, agent_id: u32) -> (r: bool)
        ensures
            r == self.spec_belongs_to(agent_id),
    {
        match self {
            Event::AgentMove { agent_id: a, .. } => *a == agent_id,
            _ => false,
        }
    }
}

/// A scheduled event with its execution time (milliseconds).
#[derive(Debug)]
pub struct ScheduledEvent {
    pub id: EventId,
    pub event: Event,
    pub execute_at: u64,
    pub status: EventStatus,
}

impl ScheduledEvent {
    /// A scheduled event is live-set material while it is Pending or
    /// Processing.
    pub open spec fn spec_unfinished(self) -> bool {
        self.status is Pending || self.status is Processing
    }

    /// Due at or before `now`, whatever the status.
    pub open spec fn spec_due(self, now: u64) -> bool {
        self.execute_at <= now
    }

    /// What `pop_ready` drains: Pending and due at or before `now`.
    pub open spec fn spec_ready(self, now: u64) -> bool {
        self.status is Pending && self.spec_due(now)
    }

    pub fn new(id: EventId, event: Event, execute_at: u64) -> (r: Self)
        ensures
            r == (ScheduledEvent { id, event, execute_at, status: EventStatus::Pending }),
    {
        ScheduledEvent { id, event, execute_at, status: EventStatus::Pending }
    }

    /// A pure time check: the event's execution time has come. The
    /// status does not enter into it; `pop_ready` additionally demands
    /// Pending before it drains an event.
    pub fn is_ready(&self, now: u64) -> (r: bool)
        ensures
            r == self.spec_due(now),
    {
        self.execute_at <= now
    }
}

/// The events kept by `cancel_events`: everything but the pending events
/// whose ids are listed.
pub open spec fn keep_unless_listed(ids: Seq<EventId>) -> spec_fn(ScheduledEvent) -> bool {
    |e: ScheduledEvent| !(e.status is Pending && ids.contains(e.id))
}

/// The events kept by `cancel_agent_events`: everything but the pending
/// events of one agent.
pub open spec fn keep_unless_agent(agent_id: u32) -> spec_fn(ScheduledEvent) -> bool {
    |e: ScheduledEvent| !(e.status is Pending && e.event.spec_belongs_to(agent_id))
}

/// The events kept by `complete`: every id but the completed one.
pub open spec fn keep_other_id(id: EventId) -> spec_fn(ScheduledEvent) -> bool {
    |e: ScheduledEvent| e.id != id
}

/// The same event marked Processing.
pub open spec fn spec_processing(e: ScheduledEvent) -> ScheduledEvent {
    ScheduledEvent { id: e.id, event: e.event, execute_at: e.execute_at, status: EventStatus::Processing }
}

/// Looks an id up in an outcome log, returning the first recorded outcome.
pub open spec fn spec_find_outcome(log: Seq<(EventId, EventOutcome)>, id: EventId) -> Option<
    EventOutcome,
>
    decreases log.len(),
{
    if log.len() == 0 {
        None
    } else if log[0].0 == id {
        Some(log[0].1)
    } else {
        spec_find_outcome(log.drop_first(), id)
    }
}

/// Event queue that manages all pending events and an append-only outcome
/// log of completed ones.
#[derive(Debug)]
pub struct EventQueue {
    pub events: Vec<ScheduledEvent>,
    pub completed: Vec<(EventId, EventOutcome)>,
    pub next_id: u64,
}

impl EventQueue {
    /// Whether an id is in the live set.
    pub open spec fn has_live(self, id: EventId) -> bool {
        exists|i: int| 0 <= i < self.events@.len() && (#[trigger] self.events@[i]).id == id
    }

    /// Whether an id has a recorded outcome.
    pub open spec fn completed_has(self, id: EventId) -> bool {
        exists|i: int| 0 <= i < self.completed@.len() && (#[trigger] self.completed@[i]).0 == id
    }

    /// The recorded outcome of an id, if any.
    pub open spec fn spec_outcome(self, id: EventId) -> Option<EventOutcome> {
        spec_find_outcome(self.completed@, id)
    }

    /// Well-formedness:
    /// - live events are listed in submission order (strictly increasing
    ///   ids), all below the id counter, and are Pending or Processing;
    /// - recorded outcomes have pairwise distinct ids below the counter;
    /// - no id is both live and recorded, so a completed event has left the
    ///   live set for good and an id removed from the live set never
    ///   returns (fresh ids are above every id ever issued).
    pub open spec fn wf(self) -> bool {
        &&& forall|i: int|
            0 <= i < self.events@.len() ==> (#[trigger] self.events@[i]).id.0 < self.next_id
        &&& forall|i: int, j: int|
            0 <= i < j < self.events@.len() ==> #[trigger] self.events@[i].id.0
                < #[trigger] self.events@[j].id.0
        &&& forall|i: int|
            0 <= i < self.events@.len() ==> (#[trigger] self.events@[i]).spec_unfinished()
        &&& forall|i: int|
            0 <= i < self.completed@.len() ==> (#[trigger] self.completed@[i]).0.0 < self.next_id
        &&& forall|i: int, j: int|
            0 <= i < j < self.completed@.len() ==> #[trigger] self.completed@[i].0
                != #[trigger] self.completed@[j].0
        &&& forall|i: int, j: int|
            0 <= i < self.events@.len() && 0 <= j < self.completed@.len()
                ==> #[trigger] self.events@[i].id != #[trigger] self.completed@[j].0
    }

    pub fn new() -> (r: Self)
        ensures
            r.wf(),
            r.events@.len() == 0,
            r.completed@.len() == 0,
            r.next_id == 0,
    {
        EventQueue { events: Vec::new(), completed: Vec::new(), next_id: 0 }
    }


    /// Submit an event to be executed `delay` milliseconds after `now`.
    pub fn submit(&mut self, event: Event, delay: u64, now: u64) -> (id: EventId)
        requires
            old(self).wf(),
            now + delay <= u64::MAX,
            old(self).next_id < u64::MAX,
        ensures
            final(self).wf(),
            id.0 == old(self).next_id,
            final(self).next_id == old(self).next_id + 1,
            final(self).completed == old(self).completed,
            final(self).events@ == old(self).events@.push(
                ScheduledEvent { id, event, execute_at: (now + delay) as u64, status: EventStatus::Pending },
            ),
    {
        let id = EventId(self.next_id);
        self.next_id = self.next_id + 1;
        let scheduled = ScheduledEvent::new(id, event, now + delay);
        self.events.push(scheduled);
        id
    }

    /// Submit an event to be executed immediately.
    pub fn submit_immediate(&mut self, event: Event, now: u64) -> (id: EventId)
        requires
            old(self).wf(),
            old(self).next_id < u64::MAX,
        ensures
            final(self).wf(),
            id.0 == old(self).next_id,
            final(self).next_id == old(self).next_id + 1,
            final(self).completed == old(self).completed,
            final(self).events@ == old(self).events@.push(
                ScheduledEvent { id, event, execute_at: now, status: EventStatus::Pending },
            ),
    {
        self.submit(event, 0, now)
    }

    /// Submit multiple events as a sequence: event `k` (0-indexed) becomes
    /// ready `k * delay_between` milliseconds after `now`. This is a
    /// minimum-time guarantee only; it does not imply event `k - 1` has
    /// completed by then.
    pub fn submit_sequence(&mut self, events: Vec<Event>, delay_between: u64, now: u64) -> (ids:
        Vec<EventId>)
        requires
            old(self).wf(),
            now + events@.len() * delay_between <= u64::MAX,
            old(self).next_id + events@.len() < u64::MAX,
        ensures
            final(self).wf(),
            ids@.len() == events@.len(),
            forall|k: int|
                0 <= k < events@.len() ==> (#[trigger] ids@[k]).0 == old(self).next_id + k,
            final(self).next_id == old(self).next_id + events@.len(),
            final(self).completed == old(self).completed,
            final(self).events@.len() == old(self).events@.len() + events@.len(),
            forall|i: int|
                0 <= i < old(self).events@.len() ==> #[trigger] final(self).events@[i] == old(
                    self,
                ).events@[i],
            forall|k: int|
                0 <= k < events@.len() ==> #[trigger] final(self).events@[old(
                    self,
                ).events@.len() + k] == (ScheduledEvent {
                    id: EventId((old(self).next_id + k) as u64),
                    event: events@[k],
                    execute_at: (now + k * delay_between) as u64,
                    status: EventStatus::Pending,
                }),
    {
        let ghost q0 = *self;
        let mut ids: Vec<EventId> = Vec::new();
        let mut current_delay: u64 = 0;
        let n = events.len();
        let mut k: usize = 0;
        while k < n
            invariant
                k <= n,
                n == events@.len(),
                self.wf(),
                q0.wf(),
                now + n * delay_between <= u64::MAX,
                q0.next_id + n < u64::MAX,
                current_delay == k * delay_between,
                self.next_id == q0.next_id + k,
                self.completed == q0.completed,
                ids@.len() == k,
                forall|m: int| 0 <= m < k ==> (#[trigger] ids@[m]).0 == q0.next_id + m,
                self.events@.len() == q0.events@.len() + k,
                forall|i: int|
                    0 <= i < q0.events@.len() ==> #[trigger] self.events@[i] == q0.events@[i],
                forall|m: int|
                    0 <= m < k ==> #[trigger] self.events@[q0.events@.len() + m]
                        == (ScheduledEvent {
                        id: EventId((q0.next_id + m) as u64),
                        event: events@[m],
                        execute_at: (now + m * delay_between) as u64,
                        status: EventStatus::Pending,
                    }),
            decreases n - k,
        {
            proof {
                assert((k + 1) * delay_between == k * delay_between + delay_between)
                    by (nonlinear_arith);
                assert(k * delay_between <= n * delay_between && (k + 1) * delay_between <= n
                    * delay_between) by (nonlinear_arith)
                    requires
                        k + 1 <= n,
                ;
            }
            let event = events[k];
            let id = self.submit(event, current_delay, now);
            ids.push(id);
            current_delay = current_delay + delay_between;
            k = k + 1;
        }
        ids
    }

    /// Cancel the pending events whose ids are listed; events already
    /// Processing, and recorded outcomes, are untouched.
    pub fn cancel_events(&mut self, event_ids: &Vec<EventId>)
        requires
            old(self).wf(),
        ensures
            final(self).wf(),
            final(self).completed == old(self).completed,
            final(self).next_id == old(self).next_id,
            final(self).events@ == old(self).events@.filter(keep_unless_listed(event_ids@)),
    {
        let ghost pred = keep_unless_listed(event_ids@);
        let ghost q0 = *self;
        let mut kept: Vec<ScheduledEvent> = Vec::new();
        let n = self.events.len();
        let mut i: usize = 0;
        while i < n
            invariant
                i <= n,
                n == self.events@.len(),
                *self == q0,
                q0.wf(),
                kept@ == q0.events@.take(i as int).filter(pred),
                pred == keep_unless_listed(event_ids@),
            decreases n - i,
        {
            let e = &self.events[i];
            let is_pending = match e.status {
                EventStatus::Pending => true,
                _ => false,
            };
            let cancelled = is_pending && contains_id(event_ids, e.id);
            proof {
                assert(q0.events@.take(i + 1).drop_last() =~= q0.events@.take(i as int));
                assert(q0.events@.take(i + 1) =~= q0.events@.take(i as int).push(q0.events@[
                    i as int]));
                broadcast use Seq::lemma_filter_push;

            }
            if !cancelled {
                let copy = ScheduledEvent {
                    id: e.id,
                    event: e.event,
                    execute_at: e.execute_at,
                    status: if is_pending {
                        EventStatus::Pending
                    } else {
                        EventStatus::Processing
                    },
                };
                proof {
                    let ghost orig = q0.events@[i as int];
                    assert(orig.spec_unfinished());
                    assert(copy == orig);
                }
                kept.push(copy);
            }
            i = i + 1;
        }
        proof {
            assert(q0.events@.take(n as int) =~= q0.events@);
            lemma_filter_keeps_wf(q0, pred);
        }
        self.events = kept;
    }

    /// Cancel all pending events of one agent; events already Processing,
    /// and recorded outcomes, are untouched.
    pub fn cancel_agent_events(&mut self, agent_id: u32)
        requires
            old(self).wf(),
        ensures
            final(self).wf(),
            final(self).completed == old(self).completed,
            final(self).next_id == old(self).next_id,
            final(self).events@ == old(self).events@.filter(keep_unless_agent(agent_id)),
            forall|i: int|
                0 <= i < final(self).events@.len() ==> !((#[trigger] final(self).events@[i]).status
                    is Pending && final(self).events@[i].event.spec_belongs_to(agent_id)),
    {
        let ghost pred = keep_unless_agent(agent_id);
        let ghost q0 = *self;
        let mut kept: Vec<ScheduledEvent> = Vec::new();
        let n = self.events.len();
        let mut i: usize = 0;
        while i < n
            invariant
                i <= n,
                n == self.events@.len(),
                *self == q0,
                q0.wf(),
                kept@ == q0.events@.take(i as int).filter(pred),
                pred == keep_unless_agent(agent_id),
            decreases n - i,
        {
            let e = &self.events[i];
            let is_pending = match e.status {
                EventStatus::Pending => true,
                _ => false,
            };
            let cancelled = is_pending && e.event.belongs_to(agent_id);
            proof {
                assert(q0.events@.take(i + 1).drop_last() =~= q0.events@.take(i as int));
                assert(q0.events@.take(i + 1) =~= q0.events@.take(i as int).push(q0.events@[
                    i as int]));
                broadcast use Seq::lemma_filter_push;

            }
            if !cancelled {
                let copy = ScheduledEvent {
                    id: e.id,
                    event: e.event,
                    execute_at: e.execute_at,
                    status: if is_pending {
                        EventStatus::Pending
                    } else {
                        EventStatus::Processing
                    },
                };
                proof {
                    let ghost orig = q0.events@[i as int];
                    assert(orig.spec_unfinished());
                    assert(copy == orig);
                }
                kept.push(copy);
            }
            i = i + 1;
        }
        proof {
            assert(q0.events@.take(n as int) =~= q0.events@);
            lemma_filter_keeps_wf(q0, pred);
            broadcast use Seq::lemma_filter_pred;

        }
        self.events = kept;
    }

    /// Get the next ready event to process: the earliest-submitted Pending
    /// event whose time has come, atomically marked Processing. One call
    /// surfaces at most one event; callers drain by calling repeatedly.
    ///
    /// An id whose completion was already recorded can never be returned:
    /// completion removes the id from the live set for good.
    pub fn pop_ready(&mut self, now: u64) -> (r: Option<ScheduledEvent>)
        requires
            old(self).wf(),
        ensures
            final(self).wf(),
            final(self).completed == old(self).completed,
            final(self).next_id == old(self).next_id,
            r is None ==> *final(self) == *old(self) && forall|i: int|
                0 <= i < old(self).events@.len() ==> !(#[trigger] old(self).events@[i]).spec_ready(
                    now,
                ),
            r matches Some(ev) ==> exists|i: int|
                {
                    &&& 0 <= i < old(self).events@.len()
                    &&& (#[trigger] old(self).events@[i]).spec_ready(now)
                    &&& forall|j: int| 0 <= j < i ==> !(#[trigger] old(self).events@[j]).spec_ready(now)
                    &&& ev == (ScheduledEvent {
                        id: old(self).events@[i].id,
                        event: old(self).events@[i].event,
                        execute_at: old(self).events@[i].execute_at,
                        status: EventStatus::Processing,
                    })
                    &&& final(self).events@ == old(self).events@.update(i, ev)
                },
            r matches Some(ev) ==> !old(self).completed_has(ev.id),
    {
        let n = self.events.len();
        let mut i: usize = 0;
        while i < n
            invariant
                i <= n,
                n == self.events@.len(),
                self.wf(),
                *self == *old(self),
                forall|j: int| 0 <= j < i ==> !(#[trigger] self.events@[j]).spec_ready(now),
            decreases n - i,
        {
            let pending = match self.events[i].status {
                EventStatus::Pending => true,
                _ => false,
            };
            let ready = pending && self.events[i].is_ready(now);
            if ready {
                let ev = ScheduledEvent {
                    id: self.events[i].id,
                    event: self.events[i].event,
                    execute_at: self.events[i].execute_at,
                    status: EventStatus::Processing,
                };
                let marked = ScheduledEvent {
                    id: self.events[i].id,
                    event: self.events[i].event,
                    execute_at: self.events[i].execute_at,
                    status: EventStatus::Processing,
                };
                self.events[i] = marked;
                proof {
                    assert(ev == marked);
                }
                return Some(ev);
            }
            i = i + 1;
        }
        None
    }

    /// Mark an event as completed: remove it from the live set and record
    /// `(id, result)` in the outcome log. Idempotent: a second call for the
    /// same id is a no-op and never appends a duplicate outcome.
    pub fn complete(&mut self, id: EventId, result: EventOutcome)
        requires
            old(self).wf(),
            id.0 < old(self).next_id,
        ensures
            final(self).wf(),
            final(self).next_id == old(self).next_id,
            old(self).completed_has(id) ==> *final(self) == *old(self),
            !old(self).completed_has(id) ==> {
                &&& final(self).completed@ == old(self).completed@.push((id, result))
                &&& final(self).completed_has(id)
                &&& final(self).spec_outcome(id) == Some(result)
                &&& !final(self).has_live(id)
                &&& final(self).events@ == old(self).events@.filter(keep_other_id(id))
            },
    {
        let ghost q0 = *self;
        if self.outcome_recorded(id) {
            return ;
        }
        // Remove the event from the live set, if it is there. Ids in the
        // live set are unique, so a single removal suffices, and the filter
        // below removes at most one element.
        let ghost pred = keep_other_id(id);
        let mut pos: usize = 0;
        let n = self.events.len();
        let mut found = false;
        while pos < n && !found
            invariant
                pos <= n,
                n == self.events@.len(),
                *self == q0,
                !found ==> forall|j: int| 0 <= j < pos ==> (#[trigger] self.events@[j]).id != id,
                found ==> pos < n && self.events@[pos as int].id == id,
            decreases n - pos + (if found { 0int } else { 1int }),
        {
            if self.events[pos].id == id {
                found = true;
            } else {
                pos = pos + 1;
            }
        }
        if found {
            self.events.remove(pos);
            proof {
                lemma_remove_unique_is_filter(q0.events@, pos as int, id);
                lemma_filter_keeps_wf(q0, pred);
            }
        } else {
            proof {
                lemma_filter_all_true(q0.events@, pred);
            }
        }
        self.completed.push((id, result));
        proof {
            assert(self.completed@[q0.completed@.len() as int].0 == id);
            assert forall|i: int| 0 <= i < self.events@.len() implies (#[trigger] self.events@[i]).id
                != id by {
                broadcast use Seq::lemma_filter_pred;

            }
            lemma_find_outcome_push_fresh(q0.completed@, id, result);
        }
    }

    /// Whether this id already has a recorded outcome.
    pub fn outcome_recorded(&self, id: EventId) -> (r: bool)
        ensures
            r == self.completed_has(id),
    {
        let n = self.completed.len();
        let mut i: usize = 0;
        while i < n
            invariant
                i <= n,
                n == self.completed@.len(),
                forall|j: int| 0 <= j < i ==> (#[trigger] self.completed@[j]).0 != id,
            decreases n - i,
        {
            if self.completed[i].0 == id {
                return true;
            }
            i = i + 1;
        }
        false
    }

    /// Check if an event has completed, returning its recorded outcome.
    pub fn is_completed(&self, id: EventId) -> (r: Option<EventOutcome>)
        ensures
            r == self.spec_outcome(id),
            r is Some <==> self.completed_has(id),
    {
        let n = self.completed.len();
        let mut i: usize = 0;
        proof {
            assert(self.completed@.skip(0) =~= self.completed@);
        }
        while i < n
            invariant
                i <= n,
                n == self.completed@.len(),
                forall|j: int| 0 <= j < i ==> (#[trigger] self.completed@[j]).0 != id,
                spec_find_outcome(self.completed@, id) == spec_find_outcome(
                    self.completed@.skip(i as int),
                    id,
                ),
            decreases n - i,
        {
            proof {
                assert(self.completed@.skip(i as int).drop_first() =~= self.completed@.skip(i + 1));
            }
            if self.completed[i].0 == id {
                return Some(duplicate_outcome(&self.completed[i].1));
            }
            i = i + 1;
        }
        proof {
            assert(self.completed@.skip(n as int) =~= Seq::<(EventId, EventOutcome)>::empty());
        }
        None
    }

    /// Whether an id is still in the live set.
    pub fn is_live(&self, id: EventId) -> (r: bool)
        ensures
            r == self.has_live(id),
    {
        let n = self.events.len();
        let mut i: usize = 0;
        while i < n
            invariant
                i <= n,
                n == self.events@.len(),
                forall|j: int| 0 <= j < i ==> (#[trigger] self.events@[j]).id != id,
            decreases n - i,
        {
            if self.events[i].id == id {
                return true;
            }
            i = i + 1;
        }
        false
    }

    /// Get count of live events.
    pub fn pending_count(&self) -> (r: usize)
        ensures
            r == self.events@.len(),
    {
        self.events.len()
    }

    /// Clear the live set and the outcome log. The id counter is kept, so
    /// ids are not reused across a clear.
    pub fn clear(&mut self)
        requires
            old(self).wf(),
        ensures
            final(self).wf(),
            final(self).events@.len() == 0,
            final(self).completed@.len() == 0,
            final(self).next_id == old(self).next_id,
    {
        self.events.clear();
        self.completed.clear();
    }
}

/// Tracks a tool execution that is waiting for events to complete.
#[derive(Debug)]
pub struct PendingToolExecution {
    pub tool_call_id: String,
    pub tool_name: String,
    pub initial_result: String,
    pub event_ids: Vec<EventId>,
    pub created_at: u64,
}

impl PendingToolExecution {
    /// Resolved means none of the tracked event ids remain in the
    /// scheduler's live set.
    pub open spec fn spec_resolved(self, queue: EventQueue) -> bool {
        forall|k: int| 0 <= k < self.event_ids@.len() ==> !queue.has_live(#[trigger] self.event_ids@[k])
    }

    /// The outcomes recorded so far for the tracked ids, in id-list order.
    pub open spec fn spec_results(self, queue: EventQueue) -> Seq<(EventId, EventOutcome)> {
        self.event_ids@.filter(|id: EventId| queue.completed_has(id)).map_values(
            |id: EventId| (id, queue.spec_outcome(id)->Some_0),
        )
    }

    pub fn new(
        tool_call_id: String,
        tool_name: String,
        initial_result: String,
        event_ids: Vec<EventId>,
        created_at: u64,
    ) -> (r: Self)
        ensures
            r.tool_call_id == tool_call_id,
            r.tool_name == tool_name,
            r.initial_result == initial_result,
            r.event_ids == event_ids,
            r.created_at == created_at,
    {
        PendingToolExecution { tool_call_id, tool_name, initial_result, event_ids, created_at }
    }

    /// Check if all events for this tool execution have completed or been
    /// cancelled: true exactly when every tracked id has left the live set.
    pub fn is_complete(&self, event_queue: &EventQueue) -> (r: bool)
        ensures
            r == self.spec_resolved(*event_queue),
    {
        let n = self.event_ids.len();
        let mut k: usize = 0;
        while k < n
            invariant
                k <= n,
                n == self.event_ids@.len(),
                forall|m: int| 0 <= m < k ==> !event_queue.has_live(#[trigger] self.event_ids@[m]),
            decreases n - k,
        {
            if event_queue.is_live(self.event_ids[k]) {
                return false;
            }
            k = k + 1;
        }
        true
    }

    /// Get the recorded outcomes of the tracked events, skipping ids that
    /// have no recorded outcome (for example cancelled ones).
    pub fn get_event_results(&self, event_queue: &EventQueue) -> (r: Vec<(EventId, EventOutcome)>)
        ensures
            r@ == self.spec_results(*event_queue),
    {
        let ghost pred = |id: EventId| event_queue.completed_has(id);
        let ghost f = |id: EventId| (id, event_queue.spec_outcome(id)->Some_0);
        let mut out: Vec<(EventId, EventOutcome)> = Vec::new();
        let n = self.event_ids.len();
        let mut k: usize = 0;
        while k < n
            invariant
                k <= n,
                n == self.event_ids@.len(),
                out@ == self.event_ids@.take(k as int).filter(pred).map_values(f),
                pred == (|id: EventId| event_queue.completed_has(id)),
                f == (|id: EventId| (id, event_queue.spec_outcome(id)->Some_0)),
            decreases n - k,
        {
            let id = self.event_ids[k];
            proof {
                assert(self.event_ids@.take(k + 1).drop_last() =~= self.event_ids@.take(k as int));
                assert(self.event_ids@.take(k + 1) =~= self.event_ids@.take(k as int).push(id));
                broadcast use Seq::lemma_filter_push;

            }
            match event_queue.is_completed(id) {
                Some(outcome) => {
                    out.push((id, outcome));
                    proof {
                        assert(out@ =~= self.event_ids@.take(k as int).filter(pred).map_values(
                            f,
                        ).push((id, outcome)));
                        assert(self.event_ids@.take(k + 1).filter(pred).map_values(f)
                            =~= self.event_ids@.take(k as int).filter(pred).map_values(f).push(
                            f(id),
                        ));
                    }
                },
                None => {},
            }
            k = k + 1;
        }
        proof {
            assert(self.event_ids@.take(n as int) =~= self.event_ids@);
        }
        out
    }
}

impl Default for EventQueue {
    fn default() -> (r: Self)
        ensures
            r.wf(),
            r.events@.len() == 0,
            r.completed@.len() == 0,
            r.next_id == 0,
    {
        EventQueue::new()
    }
}

/// Membership test for a list of event ids.
pub fn contains_id(ids: &Vec<EventId>, id: EventId) -> (r: bool)
    ensures
        r == ids@.contains(id),
{
    let n = ids.len();
    let mut i: usize = 0;
    while i < n
        invariant
            i <= n,
            n == ids@.len(),
            forall|j: int| 0 <= j < i ==> ids@[j] != id,
        decreases n - i,
    {
        if ids[i] == id {
            return true;
        }
        i = i + 1;
    }
    false
}

/// Appending an outcome for an id not yet in the log makes that id resolve
/// to the new outcome.
proof fn lemma_find_outcome_push_fresh(
    log: Seq<(EventId, EventOutcome)>,
    id: EventId,
    result: EventOutcome,
)
    requires
        forall|i: int| 0 <= i < log.len() ==> (#[trigger] log[i]).0 != id,
    ensures
        spec_find_outcome(log.push((id, result)), id) == Some(result),
    decreases log.len(),
{
    if log.len() == 0 {
        assert(log.push((id, result))[0] == (id, result));
    } else {
        lemma_find_outcome_push_fresh(log.drop_first(), id, result);
        assert(log.push((id, result)).drop_first() =~= log.drop_first().push((id, result)));
    }
}

/// Removing the only element with a given id equals filtering that id out.
pub proof fn lemma_remove_unique_is_filter(s: Seq<ScheduledEvent>, pos: int, id: EventId)
    requires
        0 <= pos < s.len(),
        s[pos].id == id,
        forall|i: int, j: int| 0 <= i < j < s.len() ==> #[trigger] s[i].id.0 < #[trigger] s[j].id.0,
    ensures
        s.remove(pos) == s.filter(|e: ScheduledEvent| e.id != id),
    decreases s.len(),
{
    let pred = |e: ScheduledEvent| e.id != id;
    broadcast use Seq::lemma_filter_push;

    if s.len() == pos + 1 {
        assert(s.drop_last() =~= s.remove(pos));
        assert(s.drop_last().push(s.last()) =~= s);
        assert forall|i: int| 0 <= i < s.drop_last().len() implies pred(
            #[trigger] s.drop_last()[i],
        ) by {
            assert(s[i].id.0 < s[pos].id.0);
        }
        lemma_filter_all_true(s.drop_last(), pred);
    } else {
        let t = s.drop_last();
        lemma_remove_unique_is_filter(t, pos, id);
        assert(t.push(s.last()) =~= s);
        assert(s[pos].id.0 < s[s.len() - 1].id.0);
        assert(s.last().id != id);
        assert(s.remove(pos) =~= t.remove(pos).push(s.last()));
    }
}

/// A sequence where every element satisfies the predicate filters to itself.
proof fn lemma_filter_all_true(s: Seq<ScheduledEvent>, pred: spec_fn(ScheduledEvent) -> bool)
    requires
        forall|i: int| 0 <= i < s.len() ==> pred(#[trigger] s[i]),
    ensures
        s.filter(pred) == s,
    decreases s.len(),
{
    broadcast use Seq::lemma_filter_push;

    if s.len() == 0 {
        reveal(Seq::filter);
    } else {
        lemma_filter_all_true(s.drop_last(), pred);
        assert(s.drop_last().push(s.last()) =~= s);
        assert(s.filter(pred) =~= s);
    }
}

/// Filtering the live set preserves the queue's well-formedness: the kept
/// events are a subsequence in the same order.
proof fn lemma_filter_keeps_wf(q: EventQueue, pred: spec_fn(ScheduledEvent) -> bool)
    requires
        q.wf(),
    ensures
        forall|i: int|
            0 <= i < q.events@.filter(pred).len() ==> (#[trigger] q.events@.filter(pred)[i]).id.0
                < q.next_id,
        forall|i: int, j: int|
            0 <= i < j < q.events@.filter(pred).len() ==> #[trigger] q.events@.filter(
                pred,
            )[i].id.0 < #[trigger] q.events@.filter(pred)[j].id.0,
        forall|i: int|
            0 <= i < q.events@.filter(pred).len() ==> (#[trigger] q.events@.filter(
                pred,
            )[i]).spec_unfinished(),
        forall|i: int, j: int|
            0 <= i < q.events@.filter(pred).len() && 0 <= j < q.completed@.len()
                ==> #[trigger] q.events@.filter(pred)[i].id != #[trigger] q.completed@[j].0,
{
    lemma_filter_sorted_subset(q.events@, pred);
    broadcast use Seq::lemma_filter_pred;

    assert forall|i: int| 0 <= i < q.events@.filter(pred).len() implies (#[trigger] q.events@.filter(
        pred,
    )[i]).id.0 < q.next_id && q.events@.filter(pred)[i].spec_unfinished() && forall|j: int|
        0 <= j < q.completed@.len() ==> q.events@.filter(pred)[i].id != #[trigger] q.completed@[j].0 by {
        lemma_filter_element_index(q.events@, pred, i);
    }
}

/// Each element of a filtered sequence is an element of the original.
pub proof fn lemma_filter_element_index(
    s: Seq<ScheduledEvent>,
    pred: spec_fn(ScheduledEvent) -> bool,
    i: int,
)
    requires
        0 <= i < s.filter(pred).len(),
    ensures
        exists|k: int| 0 <= k < s.len() && #[trigger] s[k] == s.filter(pred)[i],
    decreases s.len(),
{
    broadcast use Seq::lemma_filter_push;

    if s.len() == 0 {
        reveal(Seq::filter);
    } else {
        let t = s.drop_last();
        assert(t.push(s.last()) =~= s);
        if pred(s.last()) && i == s.filter(pred).len() - 1 {
            assert(s[s.len() - 1] == s.filter(pred)[i]);
        } else {
            lemma_filter_element_index(t, pred, i);
            let k = choose|k: int| 0 <= k < t.len() && #[trigger] t[k] == t.filter(pred)[i];
            assert(s[k] == s.filter(pred)[i]);
        }
    }
}

/// Filtering a sequence with strictly increasing ids keeps the ids
/// strictly increasing.
proof fn lemma_filter_sorted_subset(s: Seq<ScheduledEvent>, pred: spec_fn(ScheduledEvent) -> bool)
    requires
        forall|i: int, j: int| 0 <= i < j < s.len() ==> #[trigger] s[i].id.0 < #[trigger] s[j].id.0,
    ensures
        forall|i: int, j: int|
            0 <= i < j < s.filter(pred).len() ==> #[trigger] s.filter(pred)[i].id.0
                < #[trigger] s.filter(pred)[j].id.0,
    decreases s.len(),
{
    broadcast use Seq::lemma_filter_push;

    if s.len() == 0 {
        reveal(Seq::filter);
    } else {
        let t = s.drop_last();
        assert(t.push(s.last()) =~= s);
        lemma_filter_sorted_subset(t, pred);
        let f = s.filter(pred);
        let ft = t.filter(pred);
        assert forall|i: int, j: int| 0 <= i < j < f.len() implies #[trigger] f[i].id.0
            < #[trigger] f[j].id.0 by {
            if pred(s.last()) && j == f.len() - 1 && f.len() == ft.len() + 1 {
                lemma_filter_element_index(t, pred, i);
                let k = choose|k: int| 0 <= k < t.len() && #[trigger] t[k] == ft[i];
                assert(t[k].id.0 < s.last().id.0);
            }
        }
    }
}

/// A filter that rejects at least one element strictly shrinks the
/// sequence.
pub proof fn lemma_filter_strict_len(s: Seq<ScheduledEvent>, pred: spec_fn(ScheduledEvent) -> bool, i: int)
    requires
        0 <= i < s.len(),
        !pred(s[i]),
    ensures
        s.filter(pred).len() < s.len(),
    decreases s.len(),
{
    broadcast use Seq::lemma_filter_push;
    broadcast use Seq::lemma_filter_len;

    let t = s.drop_last();
    assert(t.push(s.last()) =~= s);
    if i == s.len() - 1 {
        t.lemma_filter_len(pred);
    } else {
        lemma_filter_strict_len(t, pred, i);
    }
}

/// An id with a recorded outcome is no longer in the live set, so a
/// completed event can never surface from `pop_ready` again: the two
/// sides of a well-formed queue are disjoint, completion removes the id
/// for good, and fresh ids are above every id ever issued.
pub proof fn lemma_completed_left_live_set(q: EventQueue, id: EventId)
    requires
        q.wf(),
        q.completed_has(id),
    ensures
        !q.has_live(id),
{
    if q.has_live(id) {
        let i = choose|i: int| 0 <= i < q.events@.len() && (#[trigger] q.events@[i]).id == id;
        let j = choose|j: int| 0 <= j < q.completed@.len() && (#[trigger] q.completed@[j]).0 == id;
        assert(q.events@[i].id != q.completed@[j].0);
    }
}

/// Ready events surface in submission order: an event that `pop_ready`
/// picks (the first ready one in the live list) has the smallest id
/// among all ready events, so the steps of a submitted sequence leave
/// the live set in submission order.
pub proof fn lemma_pop_order(q: EventQueue, now: u64, i: int)
    requires
        q.wf(),
        0 <= i < q.events@.len(),
        q.events@[i].spec_ready(now),
        forall|j: int| 0 <= j < i ==> !(#[trigger] q.events@[j]).spec_ready(now),
    ensures
        forall|j: int|
            0 <= j < q.events@.len() && (#[trigger] q.events@[j]).spec_ready(now) && j != i
                ==> q.events@[i].id.0 < q.events@[j].id.0,
{
}

} // verus!