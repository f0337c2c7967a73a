//! The conversation loop driver and the tick driver.
//!
//! All scheduler and subject mutation happens here, on one logical
//! timeline: `process_tick` drains every ready event of the current tick
//! in order, executing movement steps and recording their outcomes; the
//! [`ConversationDriver`] keeps the round state machine, in which at most
//! one model round is outstanding and a new round starts only once every
//! pending execution has resolved.

use vstd::prelude::*;
use vstd::string::*;
use crate::agent::Agent;
use crate::agent::LogEntry;
use crate::agent::spec_enabled_pred;
use crate::events::Event;
use crate::events::EventQueue;
use crate::events::FailureReason;
use crate::map::GridMap;
use crate::openrouter::Message;
use crate::openrouter::Tool;
use crate::textfmt::push_u64;
use crate::textfmt::spec_dec;
use crate::tool_execution::ToolExecutionManager;
use crate::tools::spec_system_prompt;

verus! {

/// Every outcome recorded between the two queue states names an event
/// that was live and ready in the first.
pub open spec fn spec_outcomes_from_ready(q0: EventQueue, q1: EventQueue, now: u64) -> bool {
    forall|k: int|
        #![trigger q1.completed@[k]]
        q0.completed@.len() <= k < q1.completed@.len() ==> exists|j: int|
            0 <= j < q0.events@.len() && (#[trigger] q0.events@[j]).id == q1.completed@[k].0
                && q0.events@[j].spec_ready(now)
}

/// The outcome message recorded for a move event naming an unknown
/// subject.
pub open spec fn spec_unknown_agent_message(agent_id: u32) -> Seq<char> {
    "Unknown agent id: "@ + spec_dec(agent_id as nat)
}

/// The full effect of draining one event: event `i` of the pre-state
/// queue is the earliest ready one; its outcome is appended and its
/// entry leaves the live set; and the subject, map and remaining live
/// set change exactly as the event's kind dictates.
pub open spec fn spec_tick_step_effect(
    a0: Agent,
    m0: GridMap,
    q0: EventQueue,
    a1: Agent,
    m1: GridMap,
    q1: EventQueue,
    now: u64,
    i: int,
) -> bool {
    let ev = q0.events@[i];
    let outcome = q1.completed@.last();
    &&& 0 <= i < q0.events@.len()
    &&& ev.spec_ready(now)
    &&& forall|j: int| 0 <= j < i ==> !(#[trigger] q0.events@[j]).spec_ready(now)
    &&& outcome.0 == ev.id
    &&& !q1.has_live(ev.id)
    &&& match ev.event {
        Event::Delay { .. } => {
            &&& outcome.1 is Ok
            &&& a1 == a0
            &&& m1 == m0
            &&& q1.events@ == q0.events@.remove(i)
        },
        Event::AgentMove { agent_id, direction } => {
            if agent_id != a0.id {
                &&& outcome.1 matches Err(f) && !f.abort && f.message@
                    == spec_unknown_agent_message(agent_id)
                &&& a1 == a0
                &&& m1 == m0
                &&& q1.events@ == q0.events@.remove(i)
            } else {
                let (tx, ty) = a0.spec_step_target(direction);
                let ok = !a0.spec_at_edge(direction, m0) && m0.spec_traversable(tx, ty);
                &&& Agent::spec_same_except_motion(a1, a0)
                &&& (ok ==> ({
                    &&& outcome.1 is Ok
                    &&& a1.x == tx && a1.y == ty
                    &&& forall|a: int, b: int|
                        m0.spec_in_bounds(a, b) ==> #[trigger] m1.spec_tile(a, b) == (if a == a0.x
                            && b == a0.y {
                            crate::map::TileKind::Trail
                        } else {
                            m0.spec_tile(a, b)
                        })
                    &&& a1.logs@.len() == a0.logs@.len() + 1
                    &&& a1.logs@.last() matches LogEntry::Movement { direction: d, position } && d@
                        == direction.spec_str() && position == (tx as usize, ty as usize)
                    &&& q1.events@ == q0.events@.remove(i)
                }))
                &&& (!ok ==> ({
                    &&& outcome.1 matches Err(f) && f.abort && f.message@ == (if a0.spec_at_edge(
                        direction,
                        m0,
                    ) {
                        crate::agent::spec_edge_message()
                    } else {
                        crate::agent::spec_blocked_message(m0.spec_tile(tx, ty), tx as nat, ty as nat)
                    })
                    &&& a1.x == a0.x && a1.y == a0.y
                    &&& m1 == m0
                    &&& a1.logs@.len() == a0.logs@.len() + 2
                    &&& a1.logs@[a0.logs@.len() as int] matches LogEntry::Error(m) && m@
                        == "Movement blocked: "@ + outcome.1->Err_0.message@
                    &&& a1.logs@.last() matches LogEntry::Info(m) && m@
                        == "Remaining movement events cancelled"@
                    // The subject's remaining events are cancelled: the
                    // drained entry is marked, the subject's share is
                    // filtered out, and the entry's own completion
                    // removes it.
                    &&& forall|j: int|
                        0 <= j < q1.events@.len() ==> !(#[trigger] q1.events@[j]).event.spec_belongs_to(a0.id)
                    &&& q1.events@ == q0.events@.update(i, crate::events::spec_processing(ev)).filter(
                        crate::events::keep_unless_agent(a0.id),
                    ).filter(crate::events::keep_other_id(ev.id))
                }))
            }
        },
    }
}

/// Pops and executes at most one ready event: the earliest-submitted
/// Pending event due at `now`. A delay completes `Ok`; a movement step
/// naming another subject completes with an unknown-subject failure; a
/// movement step of this subject runs under exactly the movement rules,
/// and a failing step cancels the subject's remaining events before its
/// own completion is recorded. Returns false, changing nothing, when no
/// event is ready.
#[verifier::rlimit(100)]
#[verifier::spinoff_prover]
pub fn tick_step(agent: &mut Agent, map: &mut GridMap, queue: &mut EventQueue, now: u64) -> (r:
    bool)
    requires
        old(queue).wf(),
        old(map).wf(),
        old(agent).x < old(map).width,
        old(agent).y < old(map).height,
        forall|i: int|
            0 <= i < old(queue).events@.len() ==> (#[trigger] old(queue).events@[i]).status
                is Pending,
    ensures
        final(queue).wf(),
        final(map).wf(),
        final(map).width == old(map).width,
        final(map).height == old(map).height,
        final(agent).x < final(map).width,
        final(agent).y < final(map).height,
        final(agent).id == old(agent).id,
        final(agent).chat_history == old(agent).chat_history,
        final(queue).next_id == old(queue).next_id,
        forall|i: int|
            0 <= i < final(queue).events@.len() ==> (#[trigger] final(queue).events@[i]).status
                is Pending,
        old(agent).logs@.len() <= final(agent).logs@.len(),
        forall|i: int|
            0 <= i < old(agent).logs@.len() ==> #[trigger] final(agent).logs@[i] == old(agent).logs@[i],
        forall|i: int|
            0 <= i < old(queue).completed@.len() ==> #[trigger] final(queue).completed@[i] == old(queue).completed@[i],
        !r ==> *final(queue) == *old(queue) && *final(agent) == *old(agent) && *final(map) == *old(map) && (forall|i: int|
            0 <= i < old(queue).events@.len() ==> !(#[trigger] old(queue).events@[i]).spec_ready(
                now,
            )),
        r ==> final(queue).completed@.len() == old(queue).completed@.len() + 1,
        r ==> final(queue).events@.len() < old(queue).events@.len(),
        r ==> exists|i: int| spec_tick_step_effect(*old(agent), *old(map), *old(queue), *final(agent), *final(map), *final(queue), now, i),
{
    let ghost qpre = *queue;
    let popped = queue.pop_ready(now);
    let scheduled = match popped {
        None => {
            return false;
        },
        Some(ev) => ev,
    };
    let ghost qmid = *queue;
    let result: Result<(), FailureReason> = match scheduled.event {
        Event::AgentMove { agent_id, direction } => {
            if agent_id == agent.id {
                agent.execute_move_step(direction, map)
            } else {
                let mut message = String::from_str("Unknown agent id: ");
                push_u64(&mut message, agent_id as u64);
                Err(FailureReason { message, abort: false })
            }
        },
        Event::Delay { .. } => Ok(()),
    };
    let abort = match &result {
        Err(f) => f.abort,
        Ok(_) => false,
    };
    if abort {
        queue.cancel_agent_events(agent.id);
        agent.log(LogEntry::Info(String::from_str("Remaining movement events cancelled")));
    }
    let ghost qc = *queue;
    let ghost outcome = result;
    queue.complete(scheduled.id, result);
    proof {
        let ipop = choose|ip: int|
            {
                &&& 0 <= ip < qpre.events@.len()
                &&& (#[trigger] qpre.events@[ip]).spec_ready(now)
                &&& forall|j: int| 0 <= j < ip ==> !(#[trigger] qpre.events@[j]).spec_ready(now)
                &&& scheduled == (crate::events::ScheduledEvent {
                    id: qpre.events@[ip].id,
                    event: qpre.events@[ip].event,
                    execute_at: qpre.events@[ip].execute_at,
                    status: crate::events::EventStatus::Processing,
                })
                &&& qmid.events@ == qpre.events@.update(ip, scheduled)
            };
        assert(0 <= ipop < qpre.events@.len() && qmid.events@ == qpre.events@.update(
            ipop,
            scheduled,
        ));
        assert(queue.completed@ == qpre.completed@.push((scheduled.id, outcome)));
        assert(scheduled == crate::events::spec_processing(qpre.events@[ipop]));
        // Statuses of the surviving events.
        assert forall|j: int| 0 <= j < queue.events@.len() implies {
            &&& (#[trigger] queue.events@[j]).status is Pending
            &&& (abort ==> !queue.events@[j].event.spec_belongs_to(agent.id))
        } by {
            broadcast use Seq::lemma_filter_pred;

            crate::events::lemma_filter_element_index(
                qc.events@,
                crate::events::keep_other_id(scheduled.id),
                j,
            );
            let k = choose|k: int|
                0 <= k < qc.events@.len() && #[trigger] qc.events@[k] == queue.events@[j];
            if abort {
                crate::events::lemma_filter_element_index(
                    qmid.events@,
                    crate::events::keep_unless_agent(agent.id),
                    k,
                );
                let k2 = choose|k2: int|
                    0 <= k2 < qmid.events@.len() && #[trigger] qmid.events@[k2] == qc.events@[k];
                assert(k2 != ipop);
                assert(qmid.events@[k2] == qpre.events@[k2]);
            } else {
                assert(qc.events@ == qmid.events@);
                assert(k != ipop);
                assert(qmid.events@[k] == qpre.events@[k]);
            }
        }
        if !abort {
            // Only the drained event leaves: completion removes exactly
            // its entry.
            crate::events::lemma_remove_unique_is_filter(qmid.events@, ipop, scheduled.id);
            assert(qmid.events@.remove(ipop) =~= qpre.events@.remove(ipop));
            assert(queue.events@ == qpre.events@.remove(ipop));
        }
        // Termination: the drained event left the live set.
        broadcast use Seq::lemma_filter_len;

        if abort {
            assert(crate::events::keep_unless_agent(agent.id)(qmid.events@[ipop]));
            qmid.events@.lemma_filter_contains(crate::events::keep_unless_agent(agent.id), ipop);
            let kk = choose|kk: int|
                0 <= kk < qc.events@.len() && #[trigger] qc.events@[kk] == qmid.events@[ipop];
            assert(!crate::events::keep_other_id(scheduled.id)(qc.events@[kk]));
            crate::events::lemma_filter_strict_len(
                qc.events@,
                crate::events::keep_other_id(scheduled.id),
                kk,
            );
        }
        assert(queue.events@.len() < qpre.events@.len());
        assert(qpre == *old(queue));
        assert(spec_tick_step_effect(
            *old(agent),
            *old(map),
            *old(queue),
            *agent,
            *map,
            *queue,
            now,
            ipop,
        ));
    }
    true
}

/// A chain of tick steps: each consecutive pair of states is related by
/// one drained event's full effect.
pub open spec fn spec_tick_chain(trace: Seq<(Agent, GridMap, EventQueue)>, now: u64) -> bool
    decreases trace.len(),
{
    trace.len() <= 1 || ({
        let pre = trace[trace.len() - 2];
        let post = trace[trace.len() - 1];
        (exists|i: int|
            #[trigger] spec_tick_step_effect(
                pre.0,
                pre.1,
                pre.2,
                post.0,
                post.1,
                post.2,
                now,
                i,
            )) && spec_tick_chain(trace.drop_last(), now)
    })
}

/// Extending a chain of tick steps by one more drained event.
proof fn lemma_chain_extend(
    prev: Seq<(Agent, GridMap, EventQueue)>,
    apre: Agent,
    mpre: GridMap,
    qpre: EventQueue,
    a1: Agent,
    m1: GridMap,
    q1: EventQueue,
    now: u64,
    i: int,
)
    requires
        spec_tick_chain(prev, now),
        prev.len() >= 1,
        prev.last() == ((apre, mpre, qpre)),
        spec_tick_step_effect(apre, mpre, qpre, a1, m1, q1, now, i),
    ensures
        spec_tick_chain(prev.push((a1, m1, q1)), now),
{
    let trace = prev.push((a1, m1, q1));
    assert(trace.drop_last() =~= prev);
    let pre = trace[trace.len() - 2];
    let post = trace[trace.len() - 1];
    assert(pre == prev.last());
    assert(pre.0 == apre && pre.1 == mpre && pre.2 == qpre);
    assert(post.0 == a1 && post.1 == m1 && post.2 == q1);
    assert(spec_tick_step_effect(pre.0, pre.1, pre.2, post.0, post.1, post.2, now, i));
}

/// Carries the tick loop's running facts across one drained event: the
/// live set stays within the tick-start one, the outcome log grows by
/// that event's outcome only, departures are accounted for, and the
/// abort coupling holds.
proof fn lemma_tick_bookkeeping(
    q0: EventQueue,
    a0: Agent,
    apre: Agent,
    mpre: GridMap,
    qpre: EventQueue,
    a1: Agent,
    m1: GridMap,
    q1: EventQueue,
    now: u64,
    i: int,
)
    requires
        q0.wf(),
        qpre.wf(),
        apre.id == a0.id,
        spec_tick_step_effect(apre, mpre, qpre, a1, m1, q1, now, i),
        q1.completed@.len() == qpre.completed@.len() + 1,
        forall|c: int|
            0 <= c < qpre.completed@.len() ==> #[trigger] q1.completed@[c] == qpre.completed@[c],
        forall|j: int|
            0 <= j < qpre.events@.len() ==> q0.events@.contains(#[trigger] qpre.events@[j]),
        q0.completed@.len() <= qpre.completed@.len(),
        forall|c: int|
            0 <= c < q0.completed@.len() ==> #[trigger] qpre.completed@[c] == q0.completed@[c],
        forall|k: int|
            0 <= k < q0.events@.len() ==> qpre.has_live((#[trigger] q0.events@[k]).id)
                || qpre.completed_has(q0.events@[k].id) || (q0.events@[k].event.spec_belongs_to(
                a0.id,
            ) && exists|c: int|
                q0.completed@.len() <= c < qpre.completed@.len() && ((
                #[trigger] qpre.completed@[c]).1 matches Err(f) && f.abort)),
        spec_outcomes_from_ready(q0, qpre, now),
        forall|k: int|
            q0.completed@.len() <= k < qpre.completed@.len() && ((
            #[trigger] qpre.completed@[k]).1 matches Err(f) && !f.abort) ==> exists|other: u32|
                other != a0.id && qpre.completed@[k].1->Err_0.message@
                    == spec_unknown_agent_message(other),
        (exists|k: int|
            q0.completed@.len() <= k < qpre.completed@.len() && ((#[trigger] qpre.completed@[k]).1
                matches Err(f) && f.abort)) ==> forall|j: int|
            0 <= j < qpre.events@.len() ==> !(#[trigger] qpre.events@[j]).event.spec_belongs_to(
                a0.id,
            ),
    ensures
        forall|j: int|
            0 <= j < q1.events@.len() ==> q0.events@.contains(#[trigger] q1.events@[j]),
        q0.completed@.len() <= q1.completed@.len(),
        forall|c: int|
            0 <= c < q0.completed@.len() ==> #[trigger] q1.completed@[c] == q0.completed@[c],
        forall|k: int|
            0 <= k < q0.events@.len() ==> q1.has_live((#[trigger] q0.events@[k]).id)
                || q1.completed_has(q0.events@[k].id) || (q0.events@[k].event.spec_belongs_to(
                a0.id,
            ) && exists|c: int|
                q0.completed@.len() <= c < q1.completed@.len() && ((
                #[trigger] q1.completed@[c]).1 matches Err(f) && f.abort)),
        spec_outcomes_from_ready(q0, q1, now),
        forall|k: int|
            q0.completed@.len() <= k < q1.completed@.len() && ((#[trigger] q1.completed@[k]).1
                matches Err(f) && !f.abort) ==> exists|other: u32|
                other != a0.id && q1.completed@[k].1->Err_0.message@
                    == spec_unknown_agent_message(other),
        (exists|k: int|
            q0.completed@.len() <= k < q1.completed@.len() && ((#[trigger] q1.completed@[k]).1
                matches Err(f) && f.abort)) ==> forall|j: int|
            0 <= j < q1.events@.len() ==> !(#[trigger] q1.events@[j]).event.spec_belongs_to(a0.id),
{
    let ev = qpre.events@[i];
    let evp = crate::events::spec_processing(ev);
    let qmid_events = qpre.events@.update(i, evp);
    let cancelled = qmid_events.filter(crate::events::keep_unless_agent(a0.id));
    let outcome = q1.completed@.last();
    let aborted = outcome.1 matches Err(f) && f.abort;
    broadcast use Seq::lemma_filter_pred;

    // Provenance: each surviving event is a pre-step event other than
    // the drained one.
    assert forall|j: int| #![trigger q1.events@[j]] 0 <= j < q1.events@.len() implies exists|k: int|
        0 <= k < qpre.events@.len() && k != i && #[trigger] qpre.events@[k] == q1.events@[j] by {
        if aborted {
            crate::events::lemma_filter_element_index(
                cancelled,
                crate::events::keep_other_id(ev.id),
                j,
            );
            let k1 = choose|k1: int|
                0 <= k1 < cancelled.len() && #[trigger] cancelled[k1] == q1.events@[j];
            crate::events::lemma_filter_element_index(
                qmid_events,
                crate::events::keep_unless_agent(a0.id),
                k1,
            );
            let k2 = choose|k2: int|
                0 <= k2 < qmid_events.len() && #[trigger] qmid_events[k2] == cancelled[k1];
            assert(q1.events@[j].id != ev.id);
            assert(k2 != i);
            assert(qmid_events[k2] == qpre.events@[k2]);
        } else {
            assert(q1.events@[j] == (if j < i {
                qpre.events@[j]
            } else {
                qpre.events@[j + 1]
            }));
        }
    }
    assert forall|j: int| 0 <= j < q1.events@.len() implies q0.events@.contains(
        #[trigger] q1.events@[j],
    ) by {
        let k = choose|k: int|
            0 <= k < qpre.events@.len() && k != i && #[trigger] qpre.events@[k] == q1.events@[j];
        let k0 = choose|k0: int|
            0 <= k0 < q0.events@.len() && #[trigger] q0.events@[k0] == qpre.events@[k];
        assert(q0.events@[k0] == q1.events@[j]);
    }
    // Every live id of the tick start is still live, completed, or gone
    // by abort-cancellation.
    assert forall|k: int| 0 <= k < q0.events@.len() implies q1.has_live(
        (#[trigger] q0.events@[k]).id,
    ) || q1.completed_has(q0.events@[k].id) || (q0.events@[k].event.spec_belongs_to(a0.id)
        && exists|c: int|
        q0.completed@.len() <= c < q1.completed@.len() && ((#[trigger] q1.completed@[c]).1 matches Err(
            f,
        ) && f.abort)) by {
        let id = q0.events@[k].id;
        if !q1.has_live(id) && !q1.completed_has(id) && !qpre.has_live(id) {
            // Already gone at the step's start: the head fact's witness
            // carries over, the outcome log being append-only.
            if qpre.completed_has(id) {
                let c = choose|c: int|
                    0 <= c < qpre.completed@.len() && (#[trigger] qpre.completed@[c]).0 == id;
                assert(q1.completed@[c] == qpre.completed@[c]);
                assert(q1.completed_has(id));
            } else {
                let c = choose|c: int|
                    q0.completed@.len() <= c < qpre.completed@.len() && ((
                    #[trigger] qpre.completed@[c]).1 matches Err(f) && f.abort);
                assert(q1.completed@[c] == qpre.completed@[c]);
            }
        }
        if qpre.has_live(q0.events@[k].id) && !q1.has_live(q0.events@[k].id)
            && !q1.completed_has(q0.events@[k].id) {
            // The id vanished this step: it is either the drained entry
            // (now completed) or a cancelled one.
            let jp = choose|jp: int|
                0 <= jp < qpre.events@.len() && (#[trigger] qpre.events@[jp]).id
                    == q0.events@[k].id;
            assert(q0.events@.contains(qpre.events@[jp]));
            let kv = choose|kv: int|
                0 <= kv < q0.events@.len() && #[trigger] q0.events@[kv] == qpre.events@[jp];
            assert(q0.events@[kv] == q0.events@[k]) by {
                if kv != k {
                    assert(q0.events@[kv].id.0 != q0.events@[k].id.0);
                }
            }
            if qpre.events@[jp].id == ev.id {
                assert(q1.completed@.last().0 == q0.events@[k].id);
                assert(q1.completed_has(q0.events@[k].id));
            } else {
                if !aborted {
                    assert(jp != i);
                    assert(q1.events@ == qpre.events@.remove(i));
                    assert(q1.events@[if jp < i {
                        jp
                    } else {
                        jp - 1
                    }] == qpre.events@[jp]);
                    assert(q1.has_live(q0.events@[k].id));
                } else {
                    if !qpre.events@[jp].event.spec_belongs_to(a0.id) {
                        assert(jp != i);
                        // Cancellation keeps other subjects' events:
                        // chase it through both filters.
                        assert(qmid_events[jp] == qpre.events@[jp]);
                        assert(crate::events::keep_unless_agent(a0.id)(qmid_events[jp]));
                        qmid_events.lemma_filter_contains(
                            crate::events::keep_unless_agent(a0.id),
                            jp,
                        );
                        let j1 = choose|j1: int|
                            0 <= j1 < cancelled.len() && #[trigger] cancelled[j1]
                                == qmid_events[jp];
                        assert(qpre.events@[jp].id.0 != qpre.events@[i].id.0);
                        assert(crate::events::keep_other_id(ev.id)(cancelled[j1]));
                        cancelled.lemma_filter_contains(crate::events::keep_other_id(ev.id), j1);
                        assert(q1.has_live(q0.events@[k].id));
                    } else {
                        assert(q1.completed@.last().1 matches Err(f) && f.abort);
                        assert(q0.completed@.len() <= q1.completed@.len() - 1
                            < q1.completed@.len());
                    }
                }
            }
        }
    }
    // New outcomes stem from events that were live and ready at tick
    // start.
    assert forall|k: int| #![trigger q1.completed@[k]] q0.completed@.len() <= k
        < q1.completed@.len() implies exists|j: int|
        0 <= j < q0.events@.len() && (#[trigger] q0.events@[j]).id == q1.completed@[k].0
            && q0.events@[j].spec_ready(now) by {
        if k == q1.completed@.len() - 1 {
            assert(q0.events@.contains(qpre.events@[i]));
            let kv = choose|kv: int|
                0 <= kv < q0.events@.len() && #[trigger] q0.events@[kv] == qpre.events@[i];
        } else {
            let j = choose|j: int|
                0 <= j < q0.events@.len() && (#[trigger] q0.events@[j]).id
                    == qpre.completed@[k].0 && q0.events@[j].spec_ready(now);
            assert(q1.completed@[k] == qpre.completed@[k]);
        }
    }
    assert(spec_outcomes_from_ready(q0, q1, now));
    // A new non-aborting failure is the unknown-subject report; an old
    // one keeps its witness.
    assert forall|k: int|
        q0.completed@.len() <= k < q1.completed@.len() && ((#[trigger] q1.completed@[k]).1 matches Err(
            f,
        ) && !f.abort) implies exists|other: u32|
        other != a0.id && q1.completed@[k].1->Err_0.message@ == spec_unknown_agent_message(
            other,
        ) by {
        if k < qpre.completed@.len() {
            assert(q1.completed@[k] == qpre.completed@[k]);
        } else {
            assert(q1.completed@[k] == outcome);
            assert(ev.event matches Event::AgentMove { agent_id, .. } && agent_id != a0.id);
        }
    }
    // The abort coupling: a new abort cancelled the subject's events; an
    // old one already had them gone, and the live set only shrank.
    if exists|k: int|
        q0.completed@.len() <= k < q1.completed@.len() && ((#[trigger] q1.completed@[k]).1 matches Err(
            f,
        ) && f.abort) {
        let k = choose|k: int|
            q0.completed@.len() <= k < q1.completed@.len() && ((#[trigger] q1.completed@[k]).1 matches Err(
                f,
            ) && f.abort);
        assert forall|j: int| 0 <= j < q1.events@.len() implies !(#[trigger] q1.events@[j]).event.spec_belongs_to(
            a0.id,
        ) by {
            if k < qpre.completed@.len() {
                assert(qpre.completed@[k] == q1.completed@[k]);
                let kq = choose|kq: int|
                    0 <= kq < qpre.events@.len() && kq != i && #[trigger] qpre.events@[kq]
                        == q1.events@[j];
                assert(!qpre.events@[kq].event.spec_belongs_to(a0.id));
            } else {
                assert(q1.completed@[k] == outcome);
                assert(aborted);
            }
        }
    }
}

/// Process one game tick: drain and execute every event that is ready at
/// `now` through [`tick_step`], completing each with its outcome.
///
/// Over the whole tick: an event leaves the live set only by completing
/// or by abort-cancellation of this subject's events; outcomes are
/// recorded only for events that were live and ready at tick start; a
/// non-aborting failure only reports a move of an unknown subject; and
/// once an aborting outcome has been recorded, no event of the subject
/// stays in the live set — cancelled steps are gone before their first
/// readiness check and can never reach an outcome. The per-event
/// execution rules stand on [`tick_step`].
#[verifier::rlimit(100)]
#[verifier::spinoff_prover]
pub fn process_tick(agent: &mut Agent, map: &mut GridMap, queue: &mut EventQueue, now: u64)
    requires
        old(queue).wf(),
        old(map).wf(),
        old(agent).x < old(map).width,
        old(agent).y < old(map).height,
        forall|i: int|
            0 <= i < old(queue).events@.len() ==> (#[trigger] old(queue).events@[i]).status
                is Pending,
    ensures
        final(queue).wf(),
        final(map).wf(),
        final(map).width == old(map).width,
        final(map).height == old(map).height,
        final(agent).x < final(map).width,
        final(agent).y < final(map).height,
        final(agent).id == old(agent).id,
        final(agent).chat_history == old(agent).chat_history,
        final(queue).next_id == old(queue).next_id,
        // the live set only shrinks (element by element), and stays
        // all-Pending
        forall|j: int|
            0 <= j < final(queue).events@.len() ==> old(queue).events@.contains(
                #[trigger] final(queue).events@[j],
            ),
        forall|i: int|
            0 <= i < final(queue).events@.len() ==> (#[trigger] final(queue).events@[i]).status
                is Pending,
        // every ready event was drained
        forall|i: int|
            0 <= i < final(queue).events@.len() ==> !(#[trigger] final(queue).events@[i]).spec_ready(now),
        // the outcome log only grows
        old(queue).completed@.len() <= final(queue).completed@.len(),
        forall|i: int|
            0 <= i < old(queue).completed@.len() ==> #[trigger] final(queue).completed@[i] == old(queue).completed@[i],
        // the transcript is append-only
        old(agent).logs@.len() <= final(agent).logs@.len(),
        forall|i: int|
            0 <= i < old(agent).logs@.len() ==> #[trigger] final(agent).logs@[i] == old(agent).logs@[i],
        // an event leaves the live set only by completing or by
        // abort-cancellation of this subject's events
        forall|k: int|
            0 <= k < old(queue).events@.len() ==> final(queue).has_live(
                (#[trigger] old(queue).events@[k]).id,
            ) || final(queue).completed_has(old(queue).events@[k].id) || (old(queue).events@[k].event.spec_belongs_to(old(agent).id) && exists|c: int|
                old(queue).completed@.len() <= c < final(queue).completed@.len() && ((
                #[trigger] final(queue).completed@[c]).1 matches Err(f) && f.abort)),
        // outcomes are recorded only for events that were live and ready
        spec_outcomes_from_ready(*old(queue), *final(queue), now),
        // the whole tick is a chain of single drained events, each with
        // its full effect: what was executed, with what outcome, and how
        // subject, map and live set changed
        exists|trace: Seq<(Agent, GridMap, EventQueue)>|
            {
                &&& #[trigger] spec_tick_chain(trace, now)
                &&& trace.len() >= 1
                &&& trace[0] == ((*old(agent), *old(map), *old(queue)))
                &&& trace.last() == ((*final(agent), *final(map), *final(queue)))
            },
        // a non-aborting failure only reports a move of an unknown subject
        forall|k: int|
            old(queue).completed@.len() <= k < final(queue).completed@.len() && ((
            #[trigger] final(queue).completed@[k]).1 matches Err(f) && !f.abort) ==> exists|other: u32|
                other != old(agent).id && final(queue).completed@[k].1->Err_0.message@
                    == spec_unknown_agent_message(other),
        // an aborting outcome recorded during this tick leaves no live
        // event of the subject
        (exists|k: int|
            old(queue).completed@.len() <= k < final(queue).completed@.len() && ((#[trigger] final(queue).completed@[k]).1 matches Err(f) && f.abort)) ==> forall|i: int|
            0 <= i < final(queue).events@.len() ==> !(#[trigger] final(queue).events@[i]).event.spec_belongs_to(old(agent).id),
{
    let ghost q0 = *queue;
    let ghost a0 = *agent;
    let ghost m0 = *map;
    let ghost mut trace: Seq<(Agent, GridMap, EventQueue)> = seq![(a0, m0, q0)];
    proof {
        assert forall|j: int| 0 <= j < queue.events@.len() implies q0.events@.contains(
            #[trigger] queue.events@[j],
        ) by {
            assert(q0.events@[j] == queue.events@[j]);
        }
    }
    loop
        invariant
            queue.wf(),
            map.wf(),
            q0.wf(),
            agent.x < map.width,
            agent.y < map.height,
            agent.id == a0.id,
            agent.chat_history == a0.chat_history,
            map.width == m0.width,
            map.height == m0.height,
            queue.next_id == q0.next_id,
            forall|j: int|
                0 <= j < queue.events@.len() ==> q0.events@.contains(
                    #[trigger] queue.events@[j],
                ),
            forall|i: int|
                0 <= i < queue.events@.len() ==> (#[trigger] queue.events@[i]).status is Pending,
            q0.completed@.len() <= queue.completed@.len(),
            forall|i: int|
                0 <= i < q0.completed@.len() ==> #[trigger] queue.completed@[i]
                    == q0.completed@[i],
            a0.logs@.len() <= agent.logs@.len(),
            forall|i: int| 0 <= i < a0.logs@.len() ==> #[trigger] agent.logs@[i] == a0.logs@[i],
            forall|k: int|
                0 <= k < q0.events@.len() ==> queue.has_live((#[trigger] q0.events@[k]).id)
                    || queue.completed_has(q0.events@[k].id) || (q0.events@[k].event.spec_belongs_to(
                    a0.id,
                ) && exists|c: int|
                    q0.completed@.len() <= c < queue.completed@.len() && ((
                    #[trigger] queue.completed@[c]).1 matches Err(f) && f.abort)),
            spec_outcomes_from_ready(q0, *queue, now),
            trace.len() >= 1,
            trace[0] == ((a0, m0, q0)),
            trace.last() == ((*agent, *map, *queue)),
            spec_tick_chain(trace, now),
            forall|k: int|
                q0.completed@.len() <= k < queue.completed@.len() && ((
                #[trigger] queue.completed@[k]).1 matches Err(f) && !f.abort) ==> exists|other: u32|
                    other != a0.id && queue.completed@[k].1->Err_0.message@
                        == spec_unknown_agent_message(other),
            (exists|k: int|
                q0.completed@.len() <= k < queue.completed@.len() && ((#[trigger] queue.completed@[k]).1
                    matches Err(f) && f.abort)) ==> forall|i: int|
                0 <= i < queue.events@.len() ==> !(#[trigger] queue.events@[i]).event.spec_belongs_to(
                    a0.id,
                ),
        ensures
            forall|i: int|
                0 <= i < queue.events@.len() ==> !(#[trigger] queue.events@[i]).spec_ready(now),
        decreases queue.events@.len(),
    {
        let ghost qpre = *queue;
        let ghost apre = *agent;
        let ghost mpre = *map;
        let stepped = tick_step(agent, map, queue, now);
        if !stepped {
            break ;
        }
        proof {
            let i = choose|i: int|
                spec_tick_step_effect(apre, mpre, qpre, *agent, *map, *queue, now, i);
            let prev = trace;
            trace = trace.push((*agent, *map, *queue));
            lemma_chain_extend(prev, apre, mpre, qpre, *agent, *map, *queue, now, i);
            lemma_tick_bookkeeping(q0, a0, apre, mpre, qpre, *agent, *map, *queue, now, i);
        }
    }
    proof {
        assert(q0 == *old(queue));
        assert(spec_outcomes_from_ready(*old(queue), *queue, now));
        assert(trace[0] == ((*old(agent), *old(map), *old(queue))));
        assert(trace.last() == ((*agent, *map, *queue)));
        assert(spec_tick_chain(trace, now));
    }
}

/// Whether two chat messages carry the same content (their tool-call
/// lists compared by value).
pub open spec fn spec_message_equiv(a: Message, b: Message) -> bool {
    &&& a.role == b.role
    &&& a.content == b.content
    &&& a.tool_call_id == b.tool_call_id
    &&& a.name == b.name
    &&& match (a.tool_calls, b.tool_calls) {
        (Some(x), Some(y)) => x@ == y@,
        (None, None) => true,
        _ => false,
    }
}

/// What the driver hands to the model transport for one round: the
/// system prompt and trailing chat history, and the enabled tools.
#[derive(Debug)]
pub struct RoundRequest {
    pub messages: Vec<Message>,
    pub tools: Vec<Tool>,
}

impl Agent {
    /// Prepares one model round: a new instruction is logged and added to
    /// the chat history (an empty instruction continues from history
    /// alone); the request holds the system prompt followed by the last
    /// `max_history_messages` chat messages, and the enabled tools.
    pub fn prepare_round(&mut self, instruction: String, map: &GridMap) -> (r: RoundRequest)
        ensures
            Agent::spec_same_except_history(*final(self), *old(self)),
            final(self).logs@.len() == old(self).logs@.len() + (if instruction@.len() == 0 {
                0int
            } else {
                1int
            }),
            forall|i: int|
                0 <= i < old(self).logs@.len() ==> #[trigger] final(self).logs@[i] == old(
                    self,
                ).logs@[i],
            instruction@.len() > 0 ==> (final(self).logs@.last() matches LogEntry::UserInstruction(m)
                && m@ == instruction@),
            final(self).chat_history@.len() == old(self).chat_history@.len() + (
            if instruction@.len() == 0 {
                0int
            } else {
                1int
            }),
            forall|i: int|
                0 <= i < old(self).chat_history@.len() ==> #[trigger] final(self).chat_history@[i]
                    == old(self).chat_history@[i],
            instruction@.len() > 0 ==> ({
                let m = final(self).chat_history@.last();
                &&& m.role@ == "user"@
                &&& m.content matches Some(c) && c@ == instruction@
                &&& m.tool_calls is None
                &&& m.tool_call_id is None
                &&& m.name is None
            }),
            ({
                let hist = final(self).chat_history@;
                let start = if hist.len() <= final(self).max_history_messages {
                    0int
                } else {
                    hist.len() - final(self).max_history_messages
                };
                &&& r.messages@.len() == 1 + hist.len() - start
                &&& r.messages@[0].role@ == "system"@
                &&& r.messages@[0].content matches Some(c) && c@ == spec_system_prompt(
                    *old(self),
                    *map,
                )
                &&& r.messages@[0].tool_calls is None
                &&& forall|k: int|
                    0 <= k < hist.len() - start ==> spec_message_equiv(
                        #[trigger] r.messages@[1 + k],
                        hist[start + k],
                    )
            }),
            r.tools@ == final(self).tool_registry@.filter(spec_enabled_pred(*final(self))),
    {
        let system_prompt = self.generate_system_prompt(map);

        // An empty instruction continues from the existing chat history.
        let is_continuation = instruction.as_str().is_empty();
        if !is_continuation {
            let logged = instruction.clone();
            self.logs.push(LogEntry::UserInstruction(logged));
            self.chat_history.push(
                Message {
                    role: String::from_str("user"),
                    content: Some(instruction),
                    tool_calls: None,
                    tool_call_id: None,
                    name: None,
                },
            );
        }
        let tools = self.get_tools();

        let mut messages: Vec<Message> = Vec::new();
        messages.push(
            Message {
                role: String::from_str("system"),
                content: Some(system_prompt),
                tool_calls: None,
                tool_call_id: None,
                name: None,
            },
        );

        // Send only the most recent history window.
        let hist_len = self.chat_history.len();
        let start = if hist_len <= self.max_history_messages {
            0
        } else {
            hist_len - self.max_history_messages
        };
        let mut k: usize = start;
        while k < hist_len
            invariant
                start <= k <= hist_len,
                hist_len == self.chat_history@.len(),
                messages@.len() == 1 + k - start,
                forall|j: int|
                    0 <= j < k - start ==> spec_message_equiv(
                        #[trigger] messages@[1 + j],
                        self.chat_history@[start + j],
                    ),
                messages@[0].role@ == "system"@,
                messages@[0].content matches Some(c) && c@ == spec_system_prompt(
                    *old(self),
                    *map,
                ),
                messages@[0].tool_calls is None,
            decreases hist_len - k,
        {
            messages.push(self.chat_history[k].clone());
            k = k + 1;
        }
        RoundRequest { messages, tools }
    }
}

/// The conversation loop state: at most one model round is outstanding at
/// a time, and a new round is started only when the previous one's tool
/// work has fully resolved.
#[derive(Debug)]
pub struct ConversationDriver {
    /// The agent is in its continuous execution loop.
    pub agent_running: bool,
    /// A tool result was just recorded, so the loop should resume.
    pub should_continue: bool,
    /// A model round is outstanding (streaming or awaited).
    pub llm_active: bool,
}

impl ConversationDriver {
    pub fn new() -> (r: Self)
        ensures
            !r.agent_running,
            !r.should_continue,
            !r.llm_active,
    {
        ConversationDriver { agent_running: false, should_continue: false, llm_active: false }
    }

    /// A fresh instruction starts the execution loop and its first round.
    pub fn begin_instruction(&mut self)
        ensures
            final(self).agent_running,
            final(self).should_continue == old(self).should_continue,
            final(self).llm_active,
    {
        self.agent_running = true;
        self.llm_active = true;
    }

    /// Records whether freshly processed tool work asks the loop to
    /// resume.
    pub fn note_continue(&mut self, continue_now: bool)
        ensures
            final(self).should_continue == (old(self).should_continue || continue_now),
            final(self).agent_running == old(self).agent_running,
            final(self).llm_active == old(self).llm_active,
    {
        if continue_now {
            self.should_continue = true;
        }
    }

    /// The transport reports the round stream opened or closed.
    pub fn set_llm_active(&mut self, active: bool)
        ensures
            final(self).llm_active == active,
            final(self).agent_running == old(self).agent_running,
            final(self).should_continue == old(self).should_continue,
    {
        self.llm_active = active;
    }

    /// Whether a continuation round must start now: a result is in, the
    /// loop is running, and nothing is still outstanding — no pending
    /// execution and no live scheduled event.
    pub fn should_resume(&self, manager: &ToolExecutionManager, queue: &EventQueue) -> (r: bool)
        ensures
            r == (self.should_continue && self.agent_running
                && manager.pending_tool_executions@.len() == 0 && queue.events@.len() == 0),
    {
        self.should_continue && self.agent_running && !manager.has_pending_executions()
            && queue.pending_count() == 0
    }

    /// Consumes the resume request as the continuation round starts.
    pub fn begin_continuation_round(&mut self)
        ensures
            !final(self).should_continue,
            final(self).llm_active,
            final(self).agent_running == old(self).agent_running,
    {
        self.should_continue = false;
        self.llm_active = true;
    }

    /// Explicit cancellation: back to idle from any state. Queued tool
    /// invocations are dropped; already-scheduled events are left alone
    /// (a movement failure's abort is the only path that cancels those).
    pub fn cancel(&mut self, agent: &mut Agent, manager: &mut ToolExecutionManager)
        ensures
            !final(self).agent_running,
            !final(self).should_continue,
            !final(self).llm_active,
            final(manager).tool_callbacks@.len() == 0,
            final(manager).pending_tool_executions == old(manager).pending_tool_executions,
            final(manager).tick_rate == old(manager).tick_rate,
            final(agent).logs@.len() == old(agent).logs@.len() + 1,
            forall|i: int|
                0 <= i < old(agent).logs@.len() ==> #[trigger] final(agent).logs@[i] == old(
                    agent,
                ).logs@[i],
            final(agent).logs@.last() matches LogEntry::Info(m) && m@
                == "WARN: Execution cancelled by user (ESC)"@,
            final(agent).x == old(agent).x,
            final(agent).y == old(agent).y,
            Agent::spec_same_except_motion(*final(agent), *old(agent)),
    {
        self.agent_running = false;
        self.should_continue = false;
        self.llm_active = false;
        manager.clear_callbacks();
        agent.log(LogEntry::Info(String::from_str("WARN: Execution cancelled by user (ESC)")));
    }
}

} // verus!