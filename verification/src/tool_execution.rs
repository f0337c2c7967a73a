//! The tool execution coordinator: it dispatches queued tool invocations
//! to the agent, registers movement sequences with the scheduler, and
//! resolves each pending execution into exactly one synthesized tool
//! result once every one of its scheduled events has left the live set.

use vstd::prelude::*;
use vstd::string::*;
use crate::agent::Agent;
use crate::agent::LogEntry;
use crate::events::Event;
use crate::events::EventId;
use crate::events::EventOutcome;
use crate::events::EventQueue;
use crate::events::PendingToolExecution;
use crate::map::GridMap;
use crate::textfmt::push_u64;
use crate::textfmt::push_joined;
use crate::textfmt::spec_dec;
use crate::textfmt::spec_join;
use crate::tools::ToolArgs;
use crate::tools::lemma_parse_steps_len;
use crate::tools::lemma_dispatch_position_only;
use crate::tools::spec_dispatch;
use crate::tools::spec_move_validation;
use crate::tools::spec_dispatch_schedules;

verus! {

/// One tool call handed over from the model-interaction task, drained at
/// a tick boundary. `args_text` is the raw argument JSON recorded in the
/// chat history; `args` is its decoded form.
#[derive(Debug)]
pub struct ToolInvocation {
    pub agent_id: u32,
    pub name: String,
    pub args: ToolArgs,
    pub args_text: String,
}

/// Relies on web_time::SystemTime::now for a nanosecond reading of the
/// wall clock (zero if the clock reads before the Unix epoch). The value
/// depends on the clock, so nothing is promised of it.
#[verifier::external_body]
fn unix_nanos_now() -> u64 {
    match web_time::SystemTime::now().duration_since(web_time::UNIX_EPOCH) {
        Ok(d) => d.as_nanos() as u64,
        Err(_) => 0,
    }
}

/// The identifier recorded for a tool call made at clock reading `nanos`.
pub open spec fn spec_call_id(nanos: u64) -> Seq<char> {
    "call_"@ + spec_dec(nanos as nat)
}

/// Builds the identifier for a tool call from a clock reading.
pub fn make_call_id(nanos: u64) -> (r: String)
    ensures
        r@ == spec_call_id(nanos),
{
    let mut s = String::from_str("call_");
    push_u64(&mut s, nanos);
    s
}

/// The text synthesized for a resolved tool execution: its precomputed
/// partial result, then either the recorded failures or a success note.
pub open spec fn spec_synthesized_result(p: PendingToolExecution, q: EventQueue) -> Seq<char> {
    let failures = p.spec_results(q).filter(|pr: (EventId, EventOutcome)| pr.1 is Err).map_values(
        |pr: (EventId, EventOutcome)| pr.1->Err_0.message@,
    );
    p.initial_result@ + (if failures.len() > 0 {
        " (Errors: "@ + spec_join(failures, "; "@) + ")"@
    } else {
        " (Completed successfully)"@
    })
}

/// How many of the first `i` queued invocations name the given agent.
pub open spec fn spec_count_matching(calls: Seq<ToolInvocation>, agent_id: u32, i: int) -> int
    decreases i,
{
    if i <= 0 {
        0
    } else {
        spec_count_matching(calls, agent_id, i - 1) + (if calls[i - 1].agent_id == agent_id {
            1int
        } else {
            0int
        })
    }
}

/// The pending executions kept by `process_pending_executions`: those not
/// yet resolved.
pub open spec fn spec_unresolved_pred(q: EventQueue) -> spec_fn(PendingToolExecution) -> bool {
    |p: PendingToolExecution| !p.spec_resolved(q)
}

/// The full effect of processing one queued tool invocation: nothing for
/// another subject; a logged discard when execution was cancelled;
/// otherwise the recorded assistant call followed by either the
/// scheduled, two-tick-spaced movement sequence with its registered
/// pending execution, or the immediate tool result.
pub open spec fn spec_invocation_effect(
    m0: ToolExecutionManager,
    a0: Agent,
    q0: EventQueue,
    m1: ToolExecutionManager,
    a1: Agent,
    q1: EventQueue,
    map: GridMap,
    invocation: ToolInvocation,
    now: u64,
    agent_running: bool,
    r: bool,
) -> bool {
    &&& m1.tick_rate == m0.tick_rate
    &&& m1.tool_callbacks == m0.tool_callbacks
    &&& q1.completed == q0.completed
    &&& a1.id == a0.id
    &&& a1.pending_moves@.len() == 0
    &&& q1.next_id <= q0.next_id + 5
    &&& a0.logs@.len() <= a1.logs@.len()
    &&& a0.chat_history@.len() <= a1.chat_history@.len()
    &&& forall|i: int|
                0 <= i < a0.logs@.len() ==> #[trigger] a1.logs@[i] == a0.logs@[i]
    &&& forall|i: int|
                0 <= i < a0.chat_history@.len() ==> #[trigger] a1.chat_history@[i] == a0.chat_history@[i]
    &&& q0.events@.len() <= q1.events@.len()
    &&& forall|i: int|
                0 <= i < q0.events@.len() ==> #[trigger] q1.events@[i] == q0.events@[i]
    &&& forall|k: int|
                q0.events@.len() <= k < q1.events@.len() ==> (#[trigger] q1.events@[k]).status is Pending && q1.events@[k].event.spec_belongs_to(
                    a0.id,
                ) && q1.events@[k].execute_at == now + (k - q0.events@.len()) * (
                2 * m0.tick_rate)
    &&& forall|i: int|
                0 <= i < m0.pending_tool_executions@.len() ==> #[trigger] m1.pending_tool_executions@[i] == m0.pending_tool_executions@[i]
    &&& m1.pending_tool_executions@.len() == m0.pending_tool_executions@.len()
                || m1.pending_tool_executions@.len() == m0.pending_tool_executions@.len() + 1
    &&& m1.pending_tool_executions@.len() == m0.pending_tool_executions@.len()
                ==> q1.events == q0.events
    &&& m1.pending_tool_executions@.len() > m0.pending_tool_executions@.len()
                ==> ({
                let p = m1.pending_tool_executions@.last();
                &&& p.event_ids@.len() == q1.events@.len() - q0.events@.len()
                &&& p.event_ids@.len() > 0
                &&& forall|k: int|
                    0 <= k < p.event_ids@.len() ==> #[trigger] p.event_ids@[k] == q1.events@[q0.events@.len() + k].id
            })
    &&& invocation.agent_id != a0.id ==> a1 == a0 && q1
                == q0 && m1 == m0 && r == false
    &&& invocation.agent_id == a0.id && !agent_running ==> q1 == q0
                && m1.pending_tool_executions == m0.pending_tool_executions
                && a1.chat_history == a0.chat_history && r == false
    &&& // The dispatched case, pinned: the assistant tool call is
            // recorded, then the call either schedules its validated
            // steps and waits, or finishes at once with its reply or
            // error as the tool result.
            invocation.agent_id == a0.id && agent_running ==> ({
        let base = a0.chat_history@.len() as int;
        let scheduled = spec_dispatch_schedules(a0, invocation.name@, invocation.args);
        let dispatched = spec_dispatch(a0, map, invocation.name@, invocation.args);
        &&& r == !scheduled
        &&& a1.chat_history@.len() == base + (if scheduled {
            1int
        } else {
            2int
        })
        &&& (scheduled ==> ({
            let dirs = spec_move_validation(invocation.args)->Ok_0;
            &&& m1.pending_tool_executions@.len() == m0.pending_tool_executions@.len() + 1
            &&& q1.events@.len() == q0.events@.len() + dirs.len()
            &&& forall|k: int|
                0 <= k < dirs.len() ==> (#[trigger] q1.events@[q0.events@.len() + k]).event == (
                Event::AgentMove { agent_id: a0.id, direction: dirs[k] })
        }))
        &&& (!scheduled ==> q1 == q0 && m1.pending_tool_executions == m0.pending_tool_executions)
        &&& exists|n: u64|
            #![trigger spec_call_id(n)]
            ({
                let cid = spec_call_id(n);
                &&& ({
                    let am = a1.chat_history@[base];
                    &&& am.role@ == "assistant"@
                    &&& am.tool_calls matches Some(calls) && calls@.len() == 1 && calls@[0].id@
                        == cid && calls@[0].function.name == invocation.name
                        && calls@[0].function.arguments == invocation.args_text
                })
                &&& (scheduled ==> ({
                    let p = m1.pending_tool_executions@.last();
                    &&& p.tool_call_id@ == cid
                    &&& p.tool_name == invocation.name
                    &&& p.initial_result@ == Seq::<char>::empty()
                    &&& p.created_at == now
                }))
                &&& (!scheduled ==> ({
                    let tr = a1.chat_history@.last();
                    &&& tr.role@ == "tool"@
                    &&& tr.tool_call_id matches Some(c) && c@ == cid
                    &&& tr.name matches Some(nm) && nm == invocation.name
                    &&& tr.content matches Some(body) && body@ == (match dispatched {
                        Ok(reply) => reply,
                        Err(error) => "Error: "@ + error,
                    })
                }))
            })
    })
    &&& (invocation.agent_id == a0.id && !agent_running ==> ({
        &&& a1.logs@.len() == a0.logs@.len() + 1
        &&& a1.logs@.last() matches LogEntry::Info(m) && m@ == "TOOL: Discarded '"@
            + invocation.name@ + "' tool call (execution cancelled)"@
    }))
}

/// A chain of processed invocations: consecutive states are related by
/// one invocation's full effect, in the order the invocations were
/// queued, with each step's immediate-result flag recorded.
pub open spec fn spec_callback_chain(
    trace: Seq<(ToolExecutionManager, Agent, EventQueue)>,
    calls: Seq<ToolInvocation>,
    results: Seq<bool>,
    map: GridMap,
    now: u64,
    agent_running: bool,
) -> bool
    decreases calls.len(),
{
    &&& trace.len() == calls.len() + 1
    &&& results.len() == calls.len()
    &&& (calls.len() == 0 || ({
        let t = calls.len() - 1;
        let pre = trace[t];
        let post = trace[t + 1];
        &&& spec_invocation_effect(
            pre.0,
            pre.1,
            pre.2,
            post.0,
            post.1,
            post.2,
            map,
            calls[t],
            now,
            agent_running,
            results[t],
        )
        &&& spec_callback_chain(
            trace.drop_last(),
            calls.drop_last(),
            results.drop_last(),
            map,
            now,
            agent_running,
        )
    }))
}

/// Extending a chain of processed invocations by one more.
proof fn lemma_callback_chain_extend(
    trace: Seq<(ToolExecutionManager, Agent, EventQueue)>,
    calls: Seq<ToolInvocation>,
    results: Seq<bool>,
    inv: ToolInvocation,
    m1: ToolExecutionManager,
    a1: Agent,
    q1: EventQueue,
    map: GridMap,
    now: u64,
    agent_running: bool,
    rr: bool,
)
    requires
        spec_callback_chain(trace, calls, results, map, now, agent_running),
        trace.len() >= 1,
        spec_invocation_effect(
            trace.last().0,
            trace.last().1,
            trace.last().2,
            m1,
            a1,
            q1,
            map,
            inv,
            now,
            agent_running,
            rr,
        ),
    ensures
        spec_callback_chain(
            trace.push((m1, a1, q1)),
            calls.push(inv),
            results.push(rr),
            map,
            now,
            agent_running,
        ),
{
    let t2 = trace.push((m1, a1, q1));
    assert(t2.drop_last() =~= trace);
    assert(calls.push(inv).drop_last() =~= calls);
    assert(results.push(rr).drop_last() =~= results);
    let t = calls.push(inv).len() - 1;
    let pre = t2[t];
    let post = t2[t + 1];
    assert(pre == trace.last());
    assert(pre.0 == trace.last().0 && pre.1 == trace.last().1 && pre.2 == trace.last().2);
    assert(post.0 == m1 && post.1 == a1 && post.2 == q1);
    assert(spec_invocation_effect(
        pre.0,
        pre.1,
        pre.2,
        post.0,
        post.1,
        post.2,
        map,
        calls.push(inv)[t],
        now,
        agent_running,
        rr,
    ));
}

/// Manages tool execution, callbacks, and event coordination.
#[derive(Debug)]
pub struct ToolExecutionManager {
    /// Queue for tool invocations handed over by the interaction task,
    /// drained at tick boundaries.
    pub tool_callbacks: Vec<ToolInvocation>,
    /// Tool executions waiting for their scheduled events to resolve.
    pub pending_tool_executions: Vec<PendingToolExecution>,
    /// Tick rate in milliseconds, used to space sequence steps.
    pub tick_rate: u64,
}

impl ToolExecutionManager {
    pub fn new(tick_rate: u64) -> (r: Self)
        ensures
            r.tool_callbacks@.len() == 0,
            r.pending_tool_executions@.len() == 0,
            r.tick_rate == tick_rate,
    {
        ToolExecutionManager {
            tool_callbacks: Vec::new(),
            pending_tool_executions: Vec::new(),
            tick_rate,
        }
    }

    /// Hands one tool invocation over to the manager, to be processed at
    /// the next tick boundary.
    pub fn push_callback(&mut self, invocation: ToolInvocation)
        ensures
            final(self).tool_callbacks@ == old(self).tool_callbacks@.push(invocation),
            final(self).pending_tool_executions == old(self).pending_tool_executions,
            final(self).tick_rate == old(self).tick_rate,
    {
        self.tool_callbacks.push(invocation);
    }

    /// Check if there are any pending tool executions.
    pub fn has_pending_executions(&self) -> (r: bool)
        ensures
            r == (self.pending_tool_executions@.len() > 0),
    {
        self.pending_tool_executions.len() > 0
    }

    /// Get the number of pending tool executions.
    pub fn pending_count(&self) -> (r: usize)
        ensures
            r == self.pending_tool_executions@.len(),
    {
        self.pending_tool_executions.len()
    }

    /// Clear all queued invocations (used when cancelling execution).
    pub fn clear_callbacks(&mut self)
        ensures
            final(self).tool_callbacks@.len() == 0,
            final(self).pending_tool_executions == old(self).pending_tool_executions,
            final(self).tick_rate == old(self).tick_rate,
    {
        self.tool_callbacks.clear();
    }

    /// Processes one queued tool invocation: dispatches it to the agent,
    /// and either schedules the produced movement sequence (registering a
    /// pending execution over exactly the submitted event ids, spaced two
    /// ticks apart) or records the immediate result in the chat history.
    /// The full effect is [`spec_invocation_effect`].
    ///
    /// Returns true when a result was recorded immediately, so the
    /// conversation may continue without waiting on the scheduler.
    #[verifier::rlimit(100)]
    #[verifier::spinoff_prover]
    pub fn process_invocation(
        &mut self,
        invocation: ToolInvocation,
        agent: &mut Agent,
        map: &GridMap,
        queue: &mut EventQueue,
        now: u64,
        agent_running: bool,
    ) -> (r: bool)
        requires
            old(queue).wf(),
            map.wf(),
            old(agent).x < map.width,
            old(agent).y < map.height,
            old(agent).pending_moves@.len() == 0,
            now + 5 * (2 * old(self).tick_rate) <= u64::MAX,
            old(queue).next_id + 5 < u64::MAX,
        ensures
            final(queue).wf(),
            final(agent).x < map.width,
            final(agent).y < map.height,
            final(agent).id == old(agent).id,
            final(agent).pending_moves@.len() == 0,
            final(queue).next_id <= old(queue).next_id + 5,
            old(agent).logs@.len() <= final(agent).logs@.len(),
            forall|i: int|
                0 <= i < old(agent).logs@.len() ==> #[trigger] final(agent).logs@[i] == old(agent).logs@[i],
            spec_invocation_effect(
                *old(self),
                *old(agent),
                *old(queue),
                *final(self),
                *final(agent),
                *final(queue),
                *map,
                invocation,
                now,
                agent_running,
                r,
            ),
    {
        if invocation.agent_id != agent.id {
            return false;
        }
        // Skip processing tool invocations if execution was cancelled.
        if !agent_running {
            let mut discarded = String::from_str("TOOL: Discarded '");
            discarded.append(invocation.name.as_str());
            discarded.append("' tool call (execution cancelled)");
            agent.log(LogEntry::Info(discarded));
            return false;
        }
        let ghost a0 = *agent;
        let nanos = unix_nanos_now();
        let call_id = make_call_id(nanos);
        let name_for_history = invocation.name.clone();
        agent.add_assistant_tool_call(call_id.clone(), name_for_history, invocation.args_text);
        let ghost a_mid = *agent;
        proof {
            lemma_dispatch_position_only(a_mid, a0, *map, invocation.name@, invocation.args);
            reveal_strlit("get_map_state");
            reveal_strlit("think");
            reveal_strlit("move_agent");
            reveal_strlit("get_position");
            reveal_strlit("get_available_directions");
            reveal_strlit("get_bearings");
            assert("get_map_state"@.len() == 13);
            assert("think"@.len() == 5);
            assert("move_agent"@.len() == 10);
            assert("get_position"@.len() == 12);
            assert("get_available_directions"@.len() == 24);
            assert("get_bearings"@.len() == 12);
            assert("get_bearings"@[4] == 'b');
            assert("get_position"@[4] == 'p');
        }
        match agent.handle_tool_call(invocation.name.as_str(), &invocation.args, map) {
            Ok(result_msg) => {
                // Movement tools leave their parsed steps queued on the
                // agent; schedule them two ticks apart and wait.
                let moves = agent.take_pending_moves();
                proof {
                    if spec_dispatch_schedules(a0, invocation.name@, invocation.args) {
                        match invocation.args.steps {
                            Some(st) => {
                                lemma_parse_steps_len(st@, 0);
                            },
                            None => {},
                        }
                        assert(moves@.len() >= 1);
                    } else {
                        assert(moves@.len() == 0);
                    }
                }
                if moves.len() > 0 {
                    let ghost q0 = *queue;
                    let mut events: Vec<Event> = Vec::new();
                    let m = moves.len();
                    let mut i: usize = 0;
                    while i < m
                        invariant
                            i <= m,
                            m == moves@.len(),
                            events@.len() == i,
                            forall|j: int|
                                0 <= j < i ==> #[trigger] events@[j] == (Event::AgentMove {
                                    agent_id: agent.id,
                                    direction: moves@[j],
                                }),
                        decreases m - i,
                    {
                        events.push(Event::AgentMove { agent_id: agent.id, direction: moves[i] });
                        i = i + 1;
                    }
                    proof {
                        assert(2 * self.tick_rate <= 5 * (2 * self.tick_rate) && moves@.len() * (2
                            * self.tick_rate) <= 5 * (2 * self.tick_rate)) by (nonlinear_arith)
                            requires
                                moves@.len() <= 5,
                                0 <= self.tick_rate,
                        ;
                    }
                    let event_ids = queue.submit_sequence(events, 2 * self.tick_rate, now);
                    let pending = PendingToolExecution::new(
                        call_id,
                        invocation.name,
                        result_msg,
                        event_ids,
                        now,
                    );
                    self.pending_tool_executions.push(pending);
                    proof {
                        assert forall|k: int|
                            q0.events@.len() <= k < queue.events@.len() implies (#[trigger] queue.events@[k]).status
                            is Pending && queue.events@[k].event.spec_belongs_to(a0.id)
                            && queue.events@[k].execute_at == now + (k - q0.events@.len()) * (2
                            * old(self).tick_rate) && queue.events@[k].event == (Event::AgentMove {
                            agent_id: a0.id,
                            direction: moves@[k - q0.events@.len()],
                        }) by {
                            let k2 = k - q0.events@.len();
                            let delay = 2 * old(self).tick_rate;
                            assert(k2 * delay <= 5 * delay) by (nonlinear_arith)
                                requires
                                    0 <= k2 <= 5,
                                    0 <= delay,
                            ;
                            assert(queue.events@[q0.events@.len() + k2].execute_at == ((now + k2
                                * delay) as u64));
                            assert(queue.events@[q0.events@.len() + k2].event == events@[k2]);
                        }
                        let p = self.pending_tool_executions@.last();
                        assert forall|k: int| 0 <= k < p.event_ids@.len() implies #[trigger] p.event_ids@[k]
                            == queue.events@[q0.events@.len() + k].id by {
                            assert(p.event_ids@[k].0 == q0.next_id + k);
                        }
                    }
                    false
                } else {
                    // No events: the tool completed immediately.
                    proof {
                        assert(result_msg@.len() > 0) by {
                            reveal_strlit("Map View (");
                            reveal_strlit("Recorded thoughts: ");
                            reveal_strlit("{\"x\":");
                            reveal_strlit("{\"position\":");
                            assert("Map View ("@.len() == 10);
                            assert("Recorded thoughts: "@.len() == 19);
                            assert("{\"x\":"@.len() == 5);
                            assert("{\"position\":"@.len() == 12);
                        }
                    }
                    if !result_msg.as_str().is_empty() {
                        agent.add_tool_result(call_id, invocation.name, result_msg);
                    }
                    true
                }
            },
            Err(e) => {
                // Record the error as the tool's result immediately.
                let mut msg = String::from_str("Error: ");
                msg.append(e.as_str());
                agent.add_tool_result(call_id, invocation.name, msg);
                let mut log_message = String::from_str("Tool execution failed: ");
                log_message.append(e.as_str());
                agent.log(LogEntry::Error(log_message));
                true
            },
        }
    }

    /// Drains the queued tool invocations and processes each in arrival
    /// order: every invocation naming this agent is dispatched (or, when
    /// execution was cancelled, discarded with an info entry). Counting
    /// one recorded assistant call per dispatched invocation plus one
    /// tool result per immediately finished one, the chat history and
    /// the pending-execution list grow by exactly two entries per
    /// dispatched invocation between them.
    ///
    /// Returns true exactly when some invocation finished immediately.
    pub fn process_tool_callbacks(
        &mut self,
        agent: &mut Agent,
        map: &GridMap,
        queue: &mut EventQueue,
        now: u64,
        agent_running: bool,
    ) -> (r: bool)
        requires
            old(queue).wf(),
            map.wf(),
            old(agent).x < map.width,
            old(agent).y < map.height,
            old(agent).pending_moves@.len() == 0,
            now + 5 * (2 * old(self).tick_rate) <= u64::MAX,
            old(queue).next_id + 5 * old(self).tool_callbacks@.len() < u64::MAX,
        ensures
            final(self).tick_rate == old(self).tick_rate,
            final(self).tool_callbacks@.len() == 0,
            final(queue).wf(),
            final(queue).completed == old(queue).completed,
            final(agent).x < map.width,
            final(agent).y < map.height,
            final(agent).id == old(agent).id,
            final(agent).pending_moves@.len() == 0,
            old(agent).logs@.len() <= final(agent).logs@.len(),
            forall|i: int|
                0 <= i < old(agent).logs@.len() ==> #[trigger] final(agent).logs@[i] == old(agent).logs@[i],
            forall|i: int|
                0 <= i < old(agent).chat_history@.len() ==> #[trigger] final(agent).chat_history@[i] == old(agent).chat_history@[i],
            old(queue).events@.len() <= final(queue).events@.len(),
            forall|i: int|
                0 <= i < old(queue).events@.len() ==> #[trigger] final(queue).events@[i] == old(queue).events@[i],
            forall|k: int|
                old(queue).events@.len() <= k < final(queue).events@.len() ==> (#[trigger] final(queue).events@[k]).status is Pending && final(queue).events@[k].event.spec_belongs_to(
                    old(agent).id,
                ) && final(queue).events@[k].execute_at >= now,
            forall|i: int|
                0 <= i < old(self).pending_tool_executions@.len() ==> #[trigger] final(self).pending_tool_executions@[i] == old(self).pending_tool_executions@[i],
            old(self).pending_tool_executions@.len() <= final(self).pending_tool_executions@.len(),
            agent_running ==> ({
                let count = spec_count_matching(
                    old(self).tool_callbacks@,
                    old(agent).id,
                    old(self).tool_callbacks@.len() as int,
                );
                &&& final(agent).chat_history@.len() >= old(agent).chat_history@.len() + count
                &&& (final(agent).chat_history@.len() - old(agent).chat_history@.len()) + (final(self).pending_tool_executions@.len() - old(self).pending_tool_executions@.len()) == 2
                    * count
                &&& r == (final(agent).chat_history@.len() > old(agent).chat_history@.len()
                    + count)
            }),
            !agent_running ==> r == false && *final(queue) == *old(queue) && final(self).pending_tool_executions == old(self).pending_tool_executions && final(agent).chat_history
                == old(agent).chat_history,
            // the whole drain is a chain of processed invocations, in
            // queue order, each with its full effect; the result is true
            // exactly when some invocation finished immediately
            exists|trace: Seq<(ToolExecutionManager, Agent, EventQueue)>, results: Seq<bool>|
                {
                    &&& #[trigger] spec_callback_chain(
                        trace,
                        old(self).tool_callbacks@,
                        results,
                        *map,
                        now,
                        agent_running,
                    )
                    &&& trace[0].0.tool_callbacks@.len() == 0
                    &&& trace[0].0.pending_tool_executions == old(self).pending_tool_executions
                    &&& trace[0].0.tick_rate == old(self).tick_rate
                    &&& trace[0].1 == *old(agent)
                    &&& trace[0].2 == *old(queue)
                    &&& trace.last() == ((*final(self), *final(agent), *final(queue)))
                    &&& r == (exists|t: int| 0 <= t < results.len() && #[trigger] results[t])
                },
    {
        let mut drained: Vec<ToolInvocation> = Vec::new();
        core::mem::swap(&mut drained, &mut self.tool_callbacks);
        let ghost d0 = drained@;
        let ghost a0 = *agent;
        let ghost q0 = *queue;
        let ghost m0 = *self;
        let ghost mut trace: Seq<(ToolExecutionManager, Agent, EventQueue)> = seq![(m0, a0, q0)];
        let ghost mut results: Seq<bool> = Seq::empty();
        proof {
            assert(d0.take(0) =~= Seq::<ToolInvocation>::empty());
        }
        let mut should_continue = false;
        let n = drained.len();
        let mut i: usize = 0;
        while i < n
            invariant
                i <= n,
                n == d0.len(),
                drained@.len() == n,
                forall|j: int| i <= j < n ==> #[trigger] drained@[j] == d0[j],
                map.wf(),
                queue.wf(),
                self.tick_rate == m0.tick_rate,
                self.tool_callbacks@.len() == 0,
                queue.completed == q0.completed,
                agent.x < map.width,
                agent.y < map.height,
                agent.id == a0.id,
                agent.pending_moves@.len() == 0,
                a0.logs@.len() <= agent.logs@.len(),
                a0.chat_history@.len() <= agent.chat_history@.len(),
                forall|j: int|
                    0 <= j < a0.logs@.len() ==> #[trigger] agent.logs@[j] == a0.logs@[j],
                forall|j: int|
                    0 <= j < a0.chat_history@.len() ==> #[trigger] agent.chat_history@[j]
                        == a0.chat_history@[j],
                q0.events@.len() <= queue.events@.len(),
                forall|j: int|
                    0 <= j < q0.events@.len() ==> #[trigger] queue.events@[j] == q0.events@[j],
                forall|k: int|
                    q0.events@.len() <= k < queue.events@.len() ==> (#[trigger] queue.events@[k]).status
                        is Pending && queue.events@[k].event.spec_belongs_to(a0.id)
                        && queue.events@[k].execute_at >= now,
                forall|j: int|
                    0 <= j < m0.pending_tool_executions@.len() ==> #[trigger] self.pending_tool_executions@[j]
                        == m0.pending_tool_executions@[j],
                m0.pending_tool_executions@.len() <= self.pending_tool_executions@.len(),
                now + 5 * (2 * m0.tick_rate) <= u64::MAX,
                q0.next_id + 5 * n < u64::MAX,
                queue.next_id <= q0.next_id + 5 * i,
                agent_running ==> ({
                    let count = spec_count_matching(d0, a0.id, i as int);
                    &&& agent.chat_history@.len() >= a0.chat_history@.len() + count
                    &&& (agent.chat_history@.len() - a0.chat_history@.len()) + (self.pending_tool_executions@.len() - m0.pending_tool_executions@.len()) == 2 * count
                    &&& should_continue == (agent.chat_history@.len() > a0.chat_history@.len()
                        + count)
                }),
                !agent_running ==> should_continue == false && *queue == q0
                    && self.pending_tool_executions == m0.pending_tool_executions
                    && agent.chat_history == a0.chat_history,
                trace.len() == i + 1,
                results.len() == i as int,
                trace[0] == ((m0, a0, q0)),
                trace.last() == ((*self, *agent, *queue)),
                spec_callback_chain(trace, d0.take(i as int), results, *map, now, agent_running),
                should_continue == (exists|t: int|
                    0 <= t < results.len() && #[trigger] results[t]),
            decreases n - i,
        {
            let mut invocation = ToolInvocation {
                agent_id: 0,
                name: String::new(),
                args: ToolArgs::empty(),
                args_text: String::new(),
            };
            core::mem::swap(&mut invocation, &mut drained[i]);
            proof {
                assert(invocation == d0[i as int]);
            }
            let ghost m_pre = *self;
            let ghost a_pre = *agent;
            let ghost q_pre = *queue;
            let one = self.process_invocation(invocation, agent, map, queue, now, agent_running);
            if one {
                should_continue = true;
            }
            proof {
                let prev_trace = trace;
                let prev_results = results;
                trace = trace.push((*self, *agent, *queue));
                results = results.push(one);
                assert(prev_trace.last() == ((m_pre, a_pre, q_pre)));
                lemma_callback_chain_extend(
                    prev_trace,
                    d0.take(i as int),
                    prev_results,
                    d0[i as int],
                    *self,
                    *agent,
                    *queue,
                    *map,
                    now,
                    agent_running,
                    one,
                );
                assert(d0.take(i + 1) =~= d0.take(i as int).push(d0[i as int]));
                assert((should_continue || one) == (exists|t: int|
                    0 <= t < results.len() && #[trigger] results[t])) by {
                    if should_continue || one {
                        if one {
                            assert(results[results.len() - 1]);
                        } else {
                            let t = choose|t: int|
                                0 <= t < prev_results.len() && #[trigger] prev_results[t];
                            assert(results[t]);
                        }
                    } else {
                        if exists|t: int| 0 <= t < results.len() && #[trigger] results[t] {
                            let t = choose|t: int| 0 <= t < results.len() && #[trigger] results[t];
                            if t < prev_results.len() {
                                assert(prev_results[t]);
                            }
                        }
                    }
                }
            }
            i = i + 1;
        }
        proof {
            assert(d0.take(n as int) =~= d0);
            assert(spec_callback_chain(trace, d0, results, *map, now, agent_running));
        }
        should_continue
    }
}

/// The pending executions resolved against a queue.
pub open spec fn spec_resolved_pred(q: EventQueue) -> spec_fn(PendingToolExecution) -> bool {
    |p: PendingToolExecution| p.spec_resolved(q)
}

/// The failure messages among a result list, in order.
pub open spec fn spec_failure_messages(results: Seq<(EventId, EventOutcome)>) -> Seq<Seq<char>> {
    results.filter(|pr: (EventId, EventOutcome)| pr.1 is Err).map_values(
        |pr: (EventId, EventOutcome)| pr.1->Err_0.message@,
    )
}

impl ToolExecutionManager {
    /// Synthesizes the one result text of a resolved execution: the
    /// precomputed partial result, then the recorded failures (if any) or
    /// a success note.
    fn synthesize_result(p: &PendingToolExecution, q: &EventQueue) -> (r: String)
        ensures
            r@ == spec_synthesized_result(*p, *q),
    {
        let results = p.get_event_results(q);
        let ghost pred = |pr: (EventId, EventOutcome)| pr.1 is Err;
        let ghost target = spec_failure_messages(p.spec_results(*q));
        let mut failures: Vec<String> = Vec::new();
        let n = results.len();
        let mut i: usize = 0;
        while i < n
            invariant
                i <= n,
                n == results@.len(),
                results@ == p.spec_results(*q),
                pred == (|pr: (EventId, EventOutcome)| pr.1 is Err),
                failures@.len() == results@.take(i as int).filter(pred).len(),
                forall|j: int|
                    0 <= j < failures@.len() ==> (#[trigger] failures@[j])@ == results@.take(
                        i as int,
                    ).filter(pred)[j].1->Err_0.message@,
            decreases n - i,
        {
            proof {
                assert(results@.take(i + 1).drop_last() =~= results@.take(i as int));
                assert(results@.take(i + 1) =~= results@.take(i as int).push(results@[i as int]));
                broadcast use Seq::lemma_filter_push;

            }
            match &results[i].1 {
                Err(f) => {
                    failures.push(f.message.clone());
                    proof {
                        assert(pred(results@[i as int]));
                        assert(results@.take(i + 1).filter(pred) =~= results@.take(
                            i as int,
                        ).filter(pred).push(results@[i as int]));
                        assert(f.message@ == results@[i as int].1->Err_0.message@);
                    }
                },
                Ok(_) => {
                    proof {
                        assert(!pred(results@[i as int]));
                        assert(results@.take(i + 1).filter(pred) =~= results@.take(
                            i as int,
                        ).filter(pred));
                    }
                },
            }
            i = i + 1;
        }
        proof {
            assert(results@.take(n as int) =~= results@);
            assert(failures@.map_values(|t: String| t@) =~= spec_failure_messages(
                p.spec_results(*q),
            ));
        }
        let mut s = p.initial_result.clone();
        if failures.len() > 0 {
            s.append(" (Errors: ");
            push_joined(&mut s, &failures, "; ");
            s.append(")");
        } else {
            s.append(" (Completed successfully)");
        }
        proof {
            assert(s@ =~= spec_synthesized_result(*p, *q));
        }
        s
    }

    /// Resolves every pending execution whose events have all left the
    /// scheduler's live set: each resolved execution is removed and
    /// yields exactly one synthesized tool-result message in the chat
    /// history, in registration order; unresolved ones stay untouched.
    /// Resolution is all-or-nothing per execution.
    ///
    /// Returns true if anything resolved, so the conversation may
    /// continue.
    pub fn process_pending_executions(&mut self, agent: &mut Agent, event_queue: &EventQueue) -> (r:
        bool)
        ensures
            final(self).tick_rate == old(self).tick_rate,
            final(self).tool_callbacks == old(self).tool_callbacks,
            final(self).pending_tool_executions@ == old(self).pending_tool_executions@.filter(
                spec_unresolved_pred(*event_queue),
            ),
            final(agent).logs == old(agent).logs,
            Agent::spec_same_except_history(*final(agent), *old(agent)),
            ({
                let resolved = old(self).pending_tool_executions@.filter(
                    spec_resolved_pred(*event_queue),
                );
                &&& final(agent).chat_history@.len() == old(agent).chat_history@.len()
                    + resolved.len()
                &&& forall|i: int|
                    0 <= i < old(agent).chat_history@.len() ==> #[trigger] final(agent).chat_history@[i] == old(agent).chat_history@[i]
                &&& forall|k: int|
                    0 <= k < resolved.len() ==> ({
                        let m = #[trigger] final(agent).chat_history@[old(agent).chat_history@.len() + k];
                        &&& m.role@ == "tool"@
                        &&& m.tool_calls is None
                        &&& m.tool_call_id matches Some(cid) && cid@ == resolved[k].tool_call_id@
                        &&& m.name matches Some(nm) && nm@ == resolved[k].tool_name@
                        &&& m.content matches Some(c) && c@ == spec_synthesized_result(
                            resolved[k],
                            *event_queue,
                        )
                    })
                &&& r == (resolved.len() > 0)
            }),
    {
        let ghost unresolved = spec_unresolved_pred(*event_queue);
        let ghost resolved_pred = spec_resolved_pred(*event_queue);
        let ghost a0 = *agent;
        let mut taken: Vec<PendingToolExecution> = Vec::new();
        core::mem::swap(&mut taken, &mut self.pending_tool_executions);
        let ghost p0 = taken@;
        let mut should_continue = false;
        let n = taken.len();
        let mut i: usize = 0;
        while i < n
            invariant
                i <= n,
                n == p0.len(),
                taken@.len() == n,
                forall|j: int| i <= j < n ==> #[trigger] taken@[j] == p0[j],
                unresolved == spec_unresolved_pred(*event_queue),
                resolved_pred == spec_resolved_pred(*event_queue),
                self.tick_rate == old(self).tick_rate,
                self.tool_callbacks == old(self).tool_callbacks,
                self.pending_tool_executions@ == p0.take(i as int).filter(unresolved),
                agent.logs == a0.logs,
                Agent::spec_same_except_history(*agent, a0),
                should_continue == (p0.take(i as int).filter(resolved_pred).len() > 0),
                ({
                    let resolved = p0.take(i as int).filter(resolved_pred);
                    &&& agent.chat_history@.len() == a0.chat_history@.len() + resolved.len()
                    &&& forall|j: int|
                        0 <= j < a0.chat_history@.len() ==> #[trigger] agent.chat_history@[j]
                            == a0.chat_history@[j]
                    &&& forall|k: int|
                        0 <= k < resolved.len() ==> ({
                            let m = #[trigger] agent.chat_history@[a0.chat_history@.len() + k];
                            &&& m.role@ == "tool"@
                            &&& m.tool_calls is None
                            &&& m.tool_call_id matches Some(cid) && cid@
                                == resolved[k].tool_call_id@
                            &&& m.name matches Some(nm) && nm@ == resolved[k].tool_name@
                            &&& m.content matches Some(c) && c@ == spec_synthesized_result(
                                resolved[k],
                                *event_queue,
                            )
                        })
                }),
            decreases n - i,
        {
            proof {
                assert(p0.take(i + 1).drop_last() =~= p0.take(i as int));
                assert(p0.take(i + 1) =~= p0.take(i as int).push(p0[i as int]));
                broadcast use Seq::lemma_filter_push;

            }
            let mut p = PendingToolExecution {
                tool_call_id: String::new(),
                tool_name: String::new(),
                initial_result: String::new(),
                event_ids: Vec::new(),
                created_at: 0,
            };
            core::mem::swap(&mut p, &mut taken[i]);
            proof {
                assert(p == p0[i as int]);
            }
            let done = p.is_complete(event_queue);
            if done {
                let message = Self::synthesize_result(&p, event_queue);
                agent.add_tool_result(p.tool_call_id, p.tool_name, message);
                should_continue = true;
            } else {
                self.pending_tool_executions.push(p);
            }
            i = i + 1;
        }
        proof {
            assert(p0.take(n as int) =~= p0);
        }
        should_continue
    }
}

} // verus!
