//! Data carried between the library and the model-interaction transport:
//! chat messages, tool descriptors, streamed events, and the accumulator
//! that folds one round's streamed fragments into a single result.
//!
//! The transport itself (HTTP, streaming) lives outside the library; it
//! hands events in and takes plain values back.

use vstd::prelude::*;

verus! {

/// A tool call recorded in a chat message.
#[derive(Debug)]
pub struct ToolCall {
    pub id: String,
    pub call_type: String,
    pub function: ToolCallFunction,
}

impl Clone for ToolCall {
    fn clone(&self) -> (res: Self)
        ensures
            res == *self,
    {
        ToolCall {
            id: self.id.clone(),
            call_type: self.call_type.clone(),
            function: self.function.clone(),
        }
    }
}

/// The function named by a tool call, with its raw JSON argument text.
#[derive(Debug)]
pub struct ToolCallFunction {
    pub name: String,
    pub arguments: String,
}

impl Clone for ToolCallFunction {
    fn clone(&self) -> (res: Self)
        ensures
            res == *self,
    {
        ToolCallFunction { name: self.name.clone(), arguments: self.arguments.clone() }
    }
}

/// Copies an optional string.
pub fn clone_opt_string(o: &Option<String>) -> (r: Option<String>)
    ensures
        r == *o,
{
    match o {
        Some(s) => Some(s.clone()),
        None => None,
    }
}

/// One chat message.
#[derive(Debug)]
pub struct Message {
    pub role: String,
    pub content: Option<String>,
    pub tool_calls: Option<Vec<ToolCall>>,
    pub tool_call_id: Option<String>,
    pub name: Option<String>,
}

impl Clone for Message {
    fn clone(&self) -> (res: Self)
        ensures
            res.role == self.role,
            res.content == self.content,
            res.tool_call_id == self.tool_call_id,
            res.name == self.name,
            match (res.tool_calls, self.tool_calls) {
                (Some(a), Some(b)) => a@ == b@,
                (None, None) => true,
                _ => false,
            },
    {
        let tool_calls = match &self.tool_calls {
            Some(calls) => {
                let mut copy: Vec<ToolCall> = Vec::new();
                let n = calls.len();
                let mut i: usize = 0;
                while i < n
                    invariant
                        i <= n,
                        n == calls@.len(),
                        copy@ =~= calls@.take(i as int),
                    decreases n - i,
                {
                    copy.push(calls[i].clone());
                    proof {
                        assert(copy@ =~= calls@.take(i + 1));
                    }
                    i = i + 1;
                }
                proof {
                    assert(calls@.take(n as int) =~= calls@);
                }
                Some(copy)
            },
            None => None,
        };
        Message {
            role: self.role.clone(),
            content: clone_opt_string(&self.content),
            tool_calls,
            tool_call_id: clone_opt_string(&self.tool_call_id),
            name: clone_opt_string(&self.name),
        }
    }
}

/// Description of one tool offered to the model. `parameters` holds the
/// tool's JSON schema as text.
#[derive(Debug)]
pub struct Function {
    pub name: String,
    pub description: String,
    pub parameters: String,
}

impl Clone for Function {
    fn clone(&self) -> (res: Self)
        ensures
            res == *self,
    {
        Function {
            name: self.name.clone(),
            description: self.description.clone(),
            parameters: self.parameters.clone(),
        }
    }
}

/// A tool entry as offered to the model.
#[derive(Debug)]
pub struct Tool {
    pub type_: String,
    pub function: Function,
}

impl Clone for Tool {
    fn clone(&self) -> (res: Self)
        ensures
            res == *self,
    {
        Tool { type_: self.type_.clone(), function: self.function.clone() }
    }
}

/// One event of a model-interaction stream.
#[derive(Debug)]
pub enum OpenRouterEvent {
    /// A fragment of plain response text.
    Content(String),
    /// A fragment of a tool call: a name opens a new call, argument text
    /// extends the current one.
    ToolCallDelta { name: Option<String>, arguments_delta: Option<String> },
}

/// One round's accumulator state as a plain value: the response text,
/// the open tool call's name, and its argument text.
pub open spec fn spec_round_view(acc: RoundAccumulator) -> (Seq<char>, Option<Seq<char>>, Seq<char>) {
    (
        acc.content@,
        match acc.tool_name {
            Some(n) => Some(n@),
            None => None,
        },
        acc.tool_args@,
    )
}

/// One streamed event's action on a round state: response text
/// accumulates; a named fragment opens a fresh call, discarding the
/// earlier one's buffer; an unnamed fragment extends the open call's
/// argument text.
pub open spec fn spec_round_step(
    state: (Seq<char>, Option<Seq<char>>, Seq<char>),
    event: OpenRouterEvent,
) -> (Seq<char>, Option<Seq<char>>, Seq<char>) {
    match event {
        OpenRouterEvent::Content(c) => (state.0 + c@, state.1, state.2),
        OpenRouterEvent::ToolCallDelta { name, arguments_delta } => {
            let delta = match arguments_delta {
                Some(a) => a@,
                None => Seq::<char>::empty(),
            };
            match name {
                Some(n) => (state.0, Some(n@), delta),
                None => (state.0, state.1, state.2 + delta),
            }
        },
    }
}

/// The round state after the first `i` streamed events.
pub open spec fn spec_round_state(
    events: Seq<OpenRouterEvent>,
    i: int,
) -> (Seq<char>, Option<Seq<char>>, Seq<char>)
    decreases i,
{
    if i <= 0 {
        (Seq::<char>::empty(), None, Seq::<char>::empty())
    } else {
        spec_round_step(spec_round_state(events, i - 1), events[i - 1])
    }
}

/// Whether a streamed event opens a tool call.
pub open spec fn spec_opens_call(event: OpenRouterEvent) -> bool {
    event matches OpenRouterEvent::ToolCallDelta { name: Some(_), .. }
}

/// Only the last fully-accumulated tool call of a round is honored: once
/// some fragment opens a call and no later fragment opens another, the
/// round's tool call is exactly what the stream from that fragment on
/// accumulates — whatever streamed before it is discarded.
pub proof fn lemma_last_call_wins(events: Seq<OpenRouterEvent>, i: int)
    requires
        0 <= i < events.len(),
        spec_opens_call(events[i]),
        forall|j: int| i < j < events.len() ==> !spec_opens_call(#[trigger] events[j]),
    ensures
        spec_round_state(events, events.len() as int).1 == spec_round_state(
            events.skip(i),
            events.len() - i,
        ).1,
        spec_round_state(events, events.len() as int).2 == spec_round_state(
            events.skip(i),
            events.len() - i,
        ).2,
    decreases events.len(),
{
    lemma_round_suffix(events, i, events.len() as int);
}

/// The tool-call half of the round state from an opening fragment on
/// depends only on the stream from that fragment.
proof fn lemma_round_suffix(events: Seq<OpenRouterEvent>, i: int, n: int)
    requires
        0 <= i < n <= events.len(),
        spec_opens_call(events[i]),
        forall|j: int| i < j < n ==> !spec_opens_call(#[trigger] events[j]),
    ensures
        spec_round_state(events, n).1 == spec_round_state(events.skip(i), n - i).1,
        spec_round_state(events, n).2 == spec_round_state(events.skip(i), n - i).2,
    decreases n,
{
    assert(events.skip(i)[n - i - 1] == events[n - 1]);
    if n == i + 1 {
    } else {
        lemma_round_suffix(events, i, n - 1);
    }
}

/// Folds the streamed events of one model round into accumulated response
/// text and at most one tool call.
///
/// A `ToolCallDelta` carrying a name opens a fresh tool call and discards
/// whatever was accumulated for an earlier one, so that after stream
/// closure only the last fully-accumulated `(name, arguments)` pair is
/// honored.
#[derive(Debug)]
pub struct RoundAccumulator {
    pub content: String,
    pub tool_name: Option<String>,
    pub tool_args: String,
}

/// What one model round produced: the accumulated response text and at
/// most one `(name, arguments)` tool call.
#[derive(Debug)]
pub struct RoundResult {
    pub content: String,
    pub tool_call: Option<(String, String)>,
}

impl RoundAccumulator {
    pub fn new() -> (r: Self)
        ensures
            r.content@ == Seq::<char>::empty(),
            r.tool_name is None,
            r.tool_args@ == Seq::<char>::empty(),
    {
        RoundAccumulator { content: String::new(), tool_name: None, tool_args: String::new() }
    }

    /// Feeds one streamed event into the round; the state changes exactly
    /// by [`spec_round_step`].
    pub fn feed(&mut self, event: OpenRouterEvent)
        ensures
            spec_round_view(*final(self)) == spec_round_step(spec_round_view(*old(self)), event),
            match event {
                OpenRouterEvent::Content(c) => {
                    &&& final(self).content@ == old(self).content@ + c@
                    &&& final(self).tool_name == old(self).tool_name
                    &&& final(self).tool_args == old(self).tool_args
                },
                OpenRouterEvent::ToolCallDelta { name, arguments_delta } => {
                    let delta = match arguments_delta {
                        Some(a) => a@,
                        None => Seq::<char>::empty(),
                    };
                    &&& final(self).content == old(self).content
                    &&& match name {
                        Some(n) => final(self).tool_name == Some(n) && final(self).tool_args@
                            == delta,
                        None => final(self).tool_name == old(self).tool_name
                            && final(self).tool_args@ == old(self).tool_args@ + delta,
                    }
                },
            },
    {
        match event {
            OpenRouterEvent::Content(c) => {
                self.content.append(c.as_str());
            },
            OpenRouterEvent::ToolCallDelta { name, arguments_delta } => {
                match name {
                    Some(n) => {
                        self.tool_name = Some(n);
                        self.tool_args = String::new();
                    },
                    None => {},
                }
                match arguments_delta {
                    Some(a) => {
                        self.tool_args.append(a.as_str());
                    },
                    None => {},
                }
            },
        }
    }

    /// Closes the round: the accumulated content, and the last
    /// fully-accumulated tool call if any name arrived.
    pub fn finish(self) -> (r: RoundResult)
        ensures
            r.content == self.content,
            match self.tool_name {
                Some(n) => r.tool_call == Some((n, self.tool_args)),
                None => r.tool_call is None,
            },
    {
        match self.tool_name {
            Some(n) => RoundResult { content: self.content, tool_call: Some((n, self.tool_args)) },
            None => RoundResult { content: self.content, tool_call: None },
        }
    }
}

} // verus!
