//! The subject state machine: the agent's identity, position, transcript
//! and movement queue, with validated tool handling and per-step movement
//! execution.

use vstd::prelude::*;
use vstd::string::*;
use crate::events::FailureReason;
use crate::map::GridMap;
use crate::map::TileKind;
use crate::openrouter::Function;
use crate::openrouter::Message;
use crate::openrouter::Tool;
use crate::openrouter::ToolCall;
use crate::openrouter::ToolCallFunction;
use crate::openrouter::clone_opt_string;
use crate::textfmt::push_usize;
use crate::textfmt::spec_dec;

verus! {

/// Whether two strings hold the same characters.
pub fn str_eq(a: &str, b: &str) -> (r: bool)
    ensures
        r == (a@ == b@),
{
    let sa = a.to_owned();
    let sb = b.to_owned();
    sa == sb
}

/// Types of transcript entries for structured display. The transcript is
/// append-only: entries are never reordered or mutated.
#[derive(Debug)]
pub enum LogEntry {
    /// User instruction to the agent.
    UserInstruction(String),
    /// Agent's reasoning or response content.
    AgentThinking(String),
    /// Tool call initiated.
    ToolCall { name: String, args: String },
    /// Tool execution result.
    ToolResult { name: String, success: bool, message: String },
    /// Movement step.
    Movement { direction: String, position: (usize, usize) },
    /// Error message.
    Error(String),
    /// General info message.
    Info(String),
}

/// Direction for agent movement.
#[derive(Clone, Copy, Debug, PartialEq, Eq, Structural)]
pub enum Direction {
    Up,
    Down,
    Left,
    Right,
}

/// Lower-cases one ASCII letter; other characters are unchanged.
pub open spec fn spec_lower_char(c: char) -> char {
    match c {
        'A' => 'a',
        'B' => 'b',
        'C' => 'c',
        'D' => 'd',
        'E' => 'e',
        'F' => 'f',
        'G' => 'g',
        'H' => 'h',
        'I' => 'i',
        'J' => 'j',
        'K' => 'k',
        'L' => 'l',
        'M' => 'm',
        'N' => 'n',
        'O' => 'o',
        'P' => 'p',
        'Q' => 'q',
        'R' => 'r',
        'S' => 's',
        'T' => 't',
        'U' => 'u',
        'V' => 'v',
        'W' => 'w',
        'X' => 'x',
        'Y' => 'y',
        'Z' => 'z',
        _ => c,
    }
}

/// Lower-cases the ASCII letters of a string.
pub open spec fn spec_lower(s: Seq<char>) -> Seq<char> {
    s.map_values(|c: char| spec_lower_char(c))
}

fn lower_char(c: char) -> (r: char)
    ensures
        r == spec_lower_char(c),
{
    match c {
        'A' => 'a',
        'B' => 'b',
        'C' => 'c',
        'D' => 'd',
        'E' => 'e',
        'F' => 'f',
        'G' => 'g',
        'H' => 'h',
        'I' => 'i',
        'J' => 'j',
        'K' => 'k',
        'L' => 'l',
        'M' => 'm',
        'N' => 'n',
        'O' => 'o',
        'P' => 'p',
        'Q' => 'q',
        'R' => 'r',
        'S' => 's',
        'T' => 't',
        'U' => 'u',
        'V' => 'v',
        'W' => 'w',
        'X' => 'x',
        'Y' => 'y',
        'Z' => 'z',
        _ => c,
    }
}

/// Whether `s` equals `w` once its ASCII letters are lower-cased.
fn eq_lowered(s: &str, w: &str) -> (r: bool)
    ensures
        r == (spec_lower(s@) == w@),
{
    let sn = s.unicode_len();
    let wn = w.unicode_len();
    if sn != wn {
        proof {
            assert(spec_lower(s@).len() == s@.len());
        }
        return false;
    }
    let mut i: usize = 0;
    while i < sn
        invariant
            i <= sn,
            sn == s@.len(),
            sn == w@.len(),
            forall|k: int| 0 <= k < i ==> spec_lower_char(s@[k]) == w@[k],
        decreases sn - i,
    {
        let c = lower_char(s.get_char(i));
        let d = w.get_char(i);
        if c != d {
            proof {
                assert(spec_lower(s@)[i as int] != w@[i as int]);
            }
            return false;
        }
        i = i + 1;
    }
    proof {
        assert(spec_lower(s@) =~= w@);
    }
    true
}

/// The direction named by a string, once lower-cased.
pub open spec fn spec_parse_direction(s: Seq<char>) -> Option<Direction> {
    if spec_lower(s) == "up"@ {
        Some(Direction::Up)
    } else if spec_lower(s) == "down"@ {
        Some(Direction::Down)
    } else if spec_lower(s) == "left"@ {
        Some(Direction::Left)
    } else if spec_lower(s) == "right"@ {
        Some(Direction::Right)
    } else {
        None
    }
}

impl Direction {
    /// Parse direction from string, ignoring ASCII case.
    pub fn from_str(s: &str) -> (r: Result<Direction, String>)
        ensures
            match spec_parse_direction(s@) {
                Some(d) => r == Ok::<Direction, String>(d),
                None => r matches Err(m) && m@ == "Invalid direction: "@ + s@,
            },
    {
        if eq_lowered(s, "up") {
            Ok(Direction::Up)
        } else if eq_lowered(s, "down") {
            Ok(Direction::Down)
        } else if eq_lowered(s, "left") {
            Ok(Direction::Left)
        } else if eq_lowered(s, "right") {
            Ok(Direction::Right)
        } else {
            let mut m = String::from_str("Invalid direction: ");
            m.append(s);
            Err(m)
        }
    }

    /// The lower-case name of each direction.
    pub open spec fn spec_str(self) -> Seq<char> {
        match self {
            Direction::Up => "up"@,
            Direction::Down => "down"@,
            Direction::Left => "left"@,
            Direction::Right => "right"@,
        }
    }

    /// Get the string representation.
    pub fn as_str(&self) -> (r: &'static str)
        ensures
            r@ == self.spec_str(),
    {
        match self {
            Direction::Up => "up",
            Direction::Down => "down",
            Direction::Left => "left",
            Direction::Right => "right",
        }
    }

    /// Apply direction to position, returning new position. Results are
    /// clamped to the rectangle from (0, 0) to (map_width - 1,
    /// map_height - 1).
    pub fn apply(&self, x: i32, y: i32, map_width: i32, map_height: i32) -> (r: (i32, i32))
        requires
            x < i32::MAX,
            y < i32::MAX,
            map_width > i32::MIN,
            map_height > i32::MIN,
        ensures
            r == self.spec_apply(x, y, map_width, map_height),
    {
        match self {
            Direction::Up => (x, if y == i32::MIN { y } else { y - 1 }),
            Direction::Down => (x, if y + 1 < map_height - 1 { y + 1 } else { map_height - 1 }),
            Direction::Left => (if x == i32::MIN { x } else { x - 1 }, y),
            Direction::Right => (if x + 1 < map_width - 1 { x + 1 } else { map_width - 1 }, y),
        }
    }

    /// What `apply` returns: one step with saturation below and clamping
    /// to the map's far edges above.
    pub open spec fn spec_apply(self, x: i32, y: i32, map_width: i32, map_height: i32) -> (i32, i32) {
        match self {
            Direction::Up => (x, if y == i32::MIN { y } else { (y - 1) as i32 }),
            Direction::Down => (
                x,
                if y + 1 < map_height - 1 {
                    (y + 1) as i32
                } else {
                    (map_height - 1) as i32
                },
            ),
            Direction::Left => (if x == i32::MIN { x } else { (x - 1) as i32 }, y),
            Direction::Right => (
                if x + 1 < map_width - 1 {
                    (x + 1) as i32
                } else {
                    (map_width - 1) as i32
                },
                y,
            ),
        }
    }
}

/// Result of a movement step.
#[derive(Debug, Clone, Copy, PartialEq, Eq, Structural)]
pub enum MovementStatus {
    /// All moves done.
    Completed,
    /// One step succeeded, more to go.
    StepSuccess,
    /// Hit obstacle.
    BlockedByTerrain,
    /// Hit map edge.
    OutOfBounds,
}

/// The message of a movement failure at the map's edge.
pub open spec fn spec_edge_message() -> Seq<char> {
    "edge of map"@
}

/// The message of a movement failure against a blocking tile.
pub open spec fn spec_blocked_message(tile: TileKind, x: nat, y: nat) -> Seq<char> {
    "blocked by "@ + tile.spec_name() + " at ("@ + spec_dec(x) + ","@ + spec_dec(y) + ")"@
}

/// The names of the default tools, in registration order.
pub open spec fn spec_default_tool_names() -> Seq<Seq<char>> {
    seq![
        "get_map_state"@,
        "think"@,
        "move_agent"@,
        "get_position"@,
        "get_available_directions"@,
        "get_bearings"@,
    ]
}

/// The tools kept by `get_tools`: those whose name is enabled.
pub open spec fn spec_enabled_pred(a: Agent) -> spec_fn(Tool) -> bool {
    |t: Tool| a.spec_tool_enabled(t.function.name@)
}

/// The single tool-using subject: identity, position, transcript, chat
/// history, queued movement and tool registry.
#[derive(Debug)]
pub struct Agent {
    // Identity
    pub id: u32,
    pub name: String,
    // Position
    pub x: usize,
    pub y: usize,
    // Model interaction
    pub chat_history: Vec<Message>,
    pub logs: Vec<LogEntry>,
    // Movement state
    pub pending_moves: Vec<Direction>,
    pub movement_active: bool,
    pub current_target: Option<(usize, usize)>,
    // Configuration
    pub max_history_messages: usize,
    pub enabled_tools: Vec<String>,
    // Tools
    pub tool_registry: Vec<Tool>,
}

impl Agent {
    /// Everything but position and transcript is the same in `a` and `b`.
    pub open spec fn spec_same_except_motion(a: Agent, b: Agent) -> bool {
        &&& a.id == b.id
        &&& a.name == b.name
        &&& a.chat_history == b.chat_history
        &&& a.pending_moves == b.pending_moves
        &&& a.movement_active == b.movement_active
        &&& a.current_target == b.current_target
        &&& a.max_history_messages == b.max_history_messages
        &&& a.enabled_tools == b.enabled_tools
        &&& a.tool_registry == b.tool_registry
    }

    /// The cell one step in `direction` from the agent's position, without
    /// clamping.
    pub open spec fn spec_step_target(self, direction: Direction) -> (int, int) {
        match direction {
            Direction::Up => (self.x as int, self.y - 1),
            Direction::Down => (self.x as int, self.y + 1),
            Direction::Left => (self.x - 1, self.y as int),
            Direction::Right => (self.x + 1, self.y as int),
        }
    }

    /// Whether one step in `direction` would leave the map.
    pub open spec fn spec_at_edge(self, direction: Direction, map: GridMap) -> bool {
        match direction {
            Direction::Up => self.y == 0,
            Direction::Down => self.y + 1 >= map.height,
            Direction::Left => self.x == 0,
            Direction::Right => self.x + 1 >= map.width,
        }
    }

    /// The set property the enabled-tool list keeps: each name appears
    /// at most once.
    pub open spec fn spec_enabled_distinct(self) -> bool {
        forall|i: int, j: int|
            0 <= i < j < self.enabled_tools@.len() ==> (#[trigger] self.enabled_tools@[i])@ != (
            #[trigger] self.enabled_tools@[j])@
    }

    /// Whether a tool name is enabled.
    pub open spec fn spec_tool_enabled(self, name: Seq<char>) -> bool {
        exists|i: int| 0 <= i < self.enabled_tools@.len() && (#[trigger] self.enabled_tools@[i])@
            == name
    }

    /// Whether a tool name is registered.
    pub open spec fn spec_tool_registered(self, name: Seq<char>) -> bool {
        exists|i: int|
            0 <= i < self.tool_registry@.len() && (#[trigger] self.tool_registry@[i]).function.name@
                == name
    }

    pub fn new(id: u32, name: String, x: usize, y: usize) -> (r: Self)
        ensures
            r.id == id,
            r.name == name,
            r.x == x,
            r.y == y,
            r.chat_history@.len() == 0,
            r.logs@.len() == 0,
            r.pending_moves@.len() == 0,
            !r.movement_active,
            r.current_target is None,
            r.max_history_messages == 50,
            r.tool_registry@.len() == 6,
            forall|k: int|
                0 <= k < 6 ==> (#[trigger] r.tool_registry@[k]).function.name@
                    == spec_default_tool_names()[k],
            r.enabled_tools@.len() == 6,
            forall|k: int|
                0 <= k < 6 ==> (#[trigger] r.enabled_tools@[k])@ == spec_default_tool_names()[k],
            r.spec_enabled_distinct(),
    {
        let mut agent = Agent {
            id,
            name,
            x,
            y,
            chat_history: Vec::new(),
            logs: Vec::new(),
            pending_moves: Vec::new(),
            movement_active: false,
            current_target: None,
            max_history_messages: 50,  // Default to the last 50 messages
            enabled_tools: Vec::new(),
            tool_registry: Vec::new(),
        };
        agent.register_default_tools();
        agent
    }

    /// Registers the built-in tools and enables each of them.
    fn register_default_tools(&mut self)
        requires
            old(self).tool_registry@.len() == 0,
            old(self).enabled_tools@.len() == 0,
        ensures
            final(self).tool_registry@.len() == 6,
            forall|k: int|
                0 <= k < 6 ==> (#[trigger] final(self).tool_registry@[k]).function.name@
                    == spec_default_tool_names()[k],
            final(self).enabled_tools@.len() == 6,
            forall|k: int|
                0 <= k < 6 ==> (#[trigger] final(self).enabled_tools@[k])@
                    == spec_default_tool_names()[k],
            final(self).spec_enabled_distinct(),
            final(self).id == old(self).id,
            final(self).name == old(self).name,
            final(self).x == old(self).x,
            final(self).y == old(self).y,
            final(self).chat_history == old(self).chat_history,
            final(self).logs == old(self).logs,
            final(self).pending_moves == old(self).pending_moves,
            final(self).movement_active == old(self).movement_active,
            final(self).current_target == old(self).current_target,
            final(self).max_history_messages == old(self).max_history_messages,
    {
        self.tool_registry.push(
            Tool {
                type_: String::from_str("function"),
                function: Function {
                    name: String::from_str("get_map_state"),
                    description: String::from_str(
                        "Get a view of the map state. Use 'area' to focus on a specific region and 'visibility' to control how much you can see. Your position is marked with '@'. Use smaller areas for path finding to reduce complexity.",
                    ),
                    parameters: String::from_str(
                        "{\"type\":\"object\",\"properties\":{\"area\":{\"type\":\"object\",\"properties\":{\"x\":{\"type\":\"integer\"},\"y\":{\"type\":\"integer\"}}},\"visibility\":{\"type\":\"integer\",\"minimum\":1,\"maximum\":10,\"default\":5}},\"required\":[]}",
                    ),
                },
            },
        );
        self.enabled_tools.push(String::from_str("get_map_state"));
        self.tool_registry.push(
            Tool {
                type_: String::from_str("function"),
                function: Function {
                    name: String::from_str("think"),
                    description: String::from_str(
                        "Think out loud about your planning and reasoning. Use this to work through path planning, obstacle avoidance, or multi-step strategies before taking action.",
                    ),
                    parameters: String::from_str(
                        "{\"type\":\"object\",\"properties\":{\"thoughts\":{\"type\":\"string\"}},\"required\":[\"thoughts\"]}",
                    ),
                },
            },
        );
        self.enabled_tools.push(String::from_str("think"));
        self.tool_registry.push(
            Tool {
                type_: String::from_str("function"),
                function: Function {
                    name: String::from_str("move_agent"),
                    description: String::from_str(
                        "Move the agent by executing up to 5 steps from ['up','down','left','right']. Optionally specify a target coordinate to receive helpful hints if blocked.",
                    ),
                    parameters: String::from_str(
                        "{\"type\":\"object\",\"properties\":{\"agent_id\":{\"type\":\"integer\"},\"steps\":{\"type\":\"array\",\"items\":{\"type\":\"string\",\"enum\":[\"up\",\"down\",\"left\",\"right\"]},\"minItems\":1,\"maxItems\":5},\"target\":{\"type\":\"object\",\"properties\":{\"x\":{\"type\":\"integer\"},\"y\":{\"type\":\"integer\"}}}},\"required\":[\"agent_id\",\"steps\"]}",
                    ),
                },
            },
        );
        self.enabled_tools.push(String::from_str("move_agent"));
        self.tool_registry.push(
            Tool {
                type_: String::from_str("function"),
                function: Function {
                    name: String::from_str("get_position"),
                    description: String::from_str(
                        "Get the agent's current position coordinates (x, y).",
                    ),
                    parameters: String::from_str(
                        "{\"type\":\"object\",\"properties\":{},\"required\":[]}",
                    ),
                },
            },
        );
        self.enabled_tools.push(String::from_str("get_position"));
        self.tool_registry.push(
            Tool {
                type_: String::from_str("function"),
                function: Function {
                    name: String::from_str("get_available_directions"),
                    description: String::from_str(
                        "Get the list of valid movement directions from the current position. Returns directions that lead to traversable tiles.",
                    ),
                    parameters: String::from_str(
                        "{\"type\":\"object\",\"properties\":{},\"required\":[]}",
                    ),
                },
            },
        );
        self.enabled_tools.push(String::from_str("get_available_directions"));
        self.tool_registry.push(
            Tool {
                type_: String::from_str("function"),
                function: Function {
                    name: String::from_str("get_bearings"),
                    description: String::from_str(
                        "Get navigation bearings and hints when you're blocked or need to navigate to a target. Provides information about obstacles, open directions, and distance to target.",
                    ),
                    parameters: String::from_str(
                        "{\"type\":\"object\",\"properties\":{\"target\":{\"type\":\"object\",\"properties\":{\"x\":{\"type\":\"integer\"},\"y\":{\"type\":\"integer\"}}}},\"required\":[]}",
                    ),
                },
            },
        );
        self.enabled_tools.push(String::from_str("get_bearings"));
        proof {
            reveal_strlit("get_map_state");
            reveal_strlit("think");
            reveal_strlit("move_agent");
            reveal_strlit("get_position");
            reveal_strlit("get_available_directions");
            reveal_strlit("get_bearings");
            assert("get_map_state"@.len() == 13);
            assert("think"@.len() == 5);
            assert("move_agent"@.len() == 10);
            assert("get_position"@.len() == 12);
            assert("get_available_directions"@.len() == 24);
            assert("get_bearings"@.len() == 12);
            assert("get_bearings"@[4] == 'b');
            assert("get_position"@[4] == 'p');
        }
    }

    pub fn pos(&self) -> (r: (usize, usize))
        ensures
            r == (self.x, self.y),
    {
        (self.x, self.y)
    }

    pub fn set_pos(&mut self, x: usize, y: usize)
        ensures
            final(self).x == x,
            final(self).y == y,
            final(self).logs == old(self).logs,
            Agent::spec_same_except_motion(*final(self), *old(self)),
    {
        self.x = x;
        self.y = y;
    }

    /// Get agent logs.
    pub fn get_logs(&self) -> (r: &[LogEntry])
        ensures
            r@ == self.logs@,
    {
        self.logs.as_slice()
    }

    /// Add a log entry. The transcript is append-only.
    pub fn log(&mut self, entry: LogEntry)
        ensures
            final(self).logs@ == old(self).logs@.push(entry),
            final(self).x == old(self).x,
            final(self).y == old(self).y,
            Agent::spec_same_except_motion(*final(self), *old(self)),
    {
        self.logs.push(entry);
    }

    /// Add a simple info log.
    pub fn log_info(&mut self, message: String)
        ensures
            final(self).logs@ == old(self).logs@.push(LogEntry::Info(message)),
            final(self).x == old(self).x,
            final(self).y == old(self).y,
            Agent::spec_same_except_motion(*final(self), *old(self)),
    {
        self.log(LogEntry::Info(message));
    }

    /// Get chat history.
    pub fn get_chat_history(&self) -> (r: &[Message])
        ensures
            r@ == self.chat_history@,
    {
        self.chat_history.as_slice()
    }

    /// Clear chat history.
    pub fn clear_chat_history(&mut self)
        ensures
            final(self).chat_history@.len() == 0,
            final(self).logs == old(self).logs,
            final(self).x == old(self).x,
            final(self).y == old(self).y,
            Agent::spec_same_except_history(*final(self), *old(self)),
    {
        self.chat_history.clear();
    }

    /// Add assistant message with tool call to chat history.
    pub fn add_assistant_tool_call(&mut self, tool_call_id: String, tool_name: String, tool_args: String)
        ensures
            final(self).chat_history@.len() == old(self).chat_history@.len() + 1,
            forall|i: int|
                0 <= i < old(self).chat_history@.len() ==> #[trigger] final(self).chat_history@[i]
                    == old(self).chat_history@[i],
            ({
                let m = final(self).chat_history@.last();
                &&& m.role@ == "assistant"@
                &&& m.content is None
                &&& m.tool_call_id is None
                &&& m.name is None
                &&& m.tool_calls matches Some(calls) && calls@.len() == 1 && calls@[0].id
                    == tool_call_id && calls@[0].call_type@ == "function"@
                    && calls@[0].function.name == tool_name && calls@[0].function.arguments
                    == tool_args
            }),
            final(self).logs == old(self).logs,
            final(self).x == old(self).x,
            final(self).y == old(self).y,
            Agent::spec_same_except_history(*final(self), *old(self)),
    {
        let mut calls: Vec<ToolCall> = Vec::new();
        calls.push(
            ToolCall {
                id: tool_call_id,
                call_type: String::from_str("function"),
                function: ToolCallFunction { name: tool_name, arguments: tool_args },
            },
        );
        self.chat_history.push(
            Message {
                role: String::from_str("assistant"),
                content: None,
                tool_calls: Some(calls),
                tool_call_id: None,
                name: None,
            },
        );
    }

    /// Add tool result message to chat history.
    pub fn add_tool_result(&mut self, tool_call_id: String, tool_name: String, result: String)
        ensures
            final(self).chat_history@.len() == old(self).chat_history@.len() + 1,
            forall|i: int|
                0 <= i < old(self).chat_history@.len() ==> #[trigger] final(self).chat_history@[i]
                    == old(self).chat_history@[i],
            ({
                let m = final(self).chat_history@.last();
                &&& m.role@ == "tool"@
                &&& m.content == Some(result)
                &&& m.tool_calls is None
                &&& m.tool_call_id == Some(tool_call_id)
                &&& m.name == Some(tool_name)
            }),
            final(self).logs == old(self).logs,
            final(self).x == old(self).x,
            final(self).y == old(self).y,
            Agent::spec_same_except_history(*final(self), *old(self)),
    {
        self.chat_history.push(
            Message {
                role: String::from_str("tool"),
                content: Some(result),
                tool_calls: None,
                tool_call_id: Some(tool_call_id),
                name: Some(tool_name),
            },
        );
    }

    /// Everything but the chat history and transcript is the same in `a`
    /// and `b`.
    pub open spec fn spec_same_except_history(a: Agent, b: Agent) -> bool {
        &&& a.id == b.id
        &&& a.name == b.name
        &&& a.x == b.x
        &&& a.y == b.y
        &&& a.pending_moves == b.pending_moves
        &&& a.movement_active == b.movement_active
        &&& a.current_target == b.current_target
        &&& a.max_history_messages == b.max_history_messages
        &&& a.enabled_tools == b.enabled_tools
        &&& a.tool_registry == b.tool_registry
    }

    /// Register a custom tool.
    pub fn register_tool(&mut self, tool: Tool)
        ensures
            final(self).tool_registry@ == old(self).tool_registry@.push(tool),
            final(self).enabled_tools == old(self).enabled_tools,
            final(self).logs == old(self).logs,
            final(self).chat_history == old(self).chat_history,
            final(self).x == old(self).x,
            final(self).y == old(self).y,
            final(self).id == old(self).id,
            final(self).name == old(self).name,
            final(self).pending_moves == old(self).pending_moves,
            final(self).movement_active == old(self).movement_active,
            final(self).current_target == old(self).current_target,
            final(self).max_history_messages == old(self).max_history_messages,
    {
        self.tool_registry.push(tool);
    }

    /// Get all enabled tools.
    pub fn get_tools(&self) -> (r: Vec<Tool>)
        ensures
            r@ == self.tool_registry@.filter(spec_enabled_pred(*self)),
    {
        let ghost pred = spec_enabled_pred(*self);
        let mut out: Vec<Tool> = Vec::new();
        let n = self.tool_registry.len();
        let mut i: usize = 0;
        while i < n
            invariant
                i <= n,
                n == self.tool_registry@.len(),
                out@ == self.tool_registry@.take(i as int).filter(pred),
                pred == spec_enabled_pred(*self),
            decreases n - i,
        {
            proof {
                assert(self.tool_registry@.take(i + 1).drop_last() =~= self.tool_registry@.take(
                    i as int,
                ));
                assert(self.tool_registry@.take(i + 1) =~= self.tool_registry@.take(
                    i as int,
                ).push(self.tool_registry@[i as int]));
                broadcast use Seq::lemma_filter_push;

            }
            let enabled = self.is_tool_enabled(self.tool_registry[i].function.name.as_str());
            if enabled {
                out.push(self.tool_registry[i].clone());
            }
            i = i + 1;
        }
        proof {
            assert(self.tool_registry@.take(n as int) =~= self.tool_registry@);
        }
        out
    }

    /// Get all registered tools (including disabled ones).
    pub fn get_all_tools(&self) -> (r: &[Tool])
        ensures
            r@ == self.tool_registry@,
    {
        self.tool_registry.as_slice()
    }

    /// Enable a registered tool by name; reports whether the name is
    /// registered.
    pub fn enable_tool(&mut self, name: &str) -> (r: bool)
        ensures
            r == old(self).spec_tool_registered(name@),
            old(self).spec_enabled_distinct() ==> final(self).spec_enabled_distinct(),
            final(self).spec_tool_enabled(name@) == (r || old(self).spec_tool_enabled(name@)),
            r && !old(self).spec_tool_enabled(name@) ==> final(self).enabled_tools@.len() == old(
                self,
            ).enabled_tools@.len() + 1 && final(self).enabled_tools@.last()@ == name@,
            !(r && !old(self).spec_tool_enabled(name@)) ==> final(self).enabled_tools == old(
                self,
            ).enabled_tools,
            forall|i: int|
                0 <= i < old(self).enabled_tools@.len() ==> #[trigger] final(self).enabled_tools@[i]
                    == old(self).enabled_tools@[i],
            final(self).tool_registry == old(self).tool_registry,
            final(self).logs == old(self).logs,
            final(self).chat_history == old(self).chat_history,
            final(self).x == old(self).x,
            final(self).y == old(self).y,
            final(self).id == old(self).id,
            final(self).pending_moves == old(self).pending_moves,
            final(self).movement_active == old(self).movement_active,
            final(self).current_target == old(self).current_target,
    {
        let registered = self.is_tool_registered(name);
        if registered {
            if !self.is_tool_enabled(name) {
                self.enabled_tools.push(name.to_owned());
                proof {
                    assert((self.enabled_tools@[self.enabled_tools@.len() - 1])@ == name@);
                }
            }
            true
        } else {
            false
        }
    }

    /// Whether a tool of this name is registered.
    pub fn is_tool_registered(&self, name: &str) -> (r: bool)
        ensures
            r == self.spec_tool_registered(name@),
    {
        let n = self.tool_registry.len();
        let mut i: usize = 0;
        while i < n
            invariant
                i <= n,
                n == self.tool_registry@.len(),
                forall|j: int|
                    0 <= j < i ==> (#[trigger] self.tool_registry@[j]).function.name@ != name@,
            decreases n - i,
        {
            if str_eq(self.tool_registry[i].function.name.as_str(), name) {
                return true;
            }
            i = i + 1;
        }
        false
    }

    /// Disable a tool by name; reports whether it was enabled.
    pub fn disable_tool(&mut self, name: &str) -> (r: bool)
        ensures
            r == old(self).spec_tool_enabled(name@),
            old(self).spec_enabled_distinct() ==> final(self).spec_enabled_distinct(),
            !final(self).spec_tool_enabled(name@),
            final(self).enabled_tools@ == old(self).enabled_tools@.filter(
                spec_other_name_pred(name@),
            ),
            final(self).tool_registry == old(self).tool_registry,
            final(self).logs == old(self).logs,
            final(self).chat_history == old(self).chat_history,
            final(self).x == old(self).x,
            final(self).y == old(self).y,
            final(self).id == old(self).id,
            final(self).pending_moves == old(self).pending_moves,
            final(self).movement_active == old(self).movement_active,
            final(self).current_target == old(self).current_target,
    {
        let ghost pred = spec_other_name_pred(name@);
        let ghost before = self.enabled_tools@;
        let mut kept: Vec<String> = Vec::new();
        let mut was_enabled = false;
        let n = self.enabled_tools.len();
        let mut i: usize = 0;
        while i < n
            invariant
                i <= n,
                n == self.enabled_tools@.len(),
                self.enabled_tools@ == before,
                kept@ == before.take(i as int).filter(pred),
                pred == spec_other_name_pred(name@),
                was_enabled == exists|j: int| 0 <= j < i && (#[trigger] before[j])@ == name@,
            decreases n - i,
        {
            proof {
                assert(before.take(i + 1).drop_last() =~= before.take(i as int));
                assert(before.take(i + 1) =~= before.take(i as int).push(before[i as int]));
                broadcast use Seq::lemma_filter_push;

            }
            let same = str_eq(self.enabled_tools[i].as_str(), name);
            if same {
                was_enabled = true;
            } else {
                let copy = self.enabled_tools[i].clone();
                proof {
                    assert(copy == before[i as int]);
                }
                kept.push(copy);
            }
            i = i + 1;
        }
        proof {
            assert(before.take(n as int) =~= before);
            broadcast use Seq::lemma_filter_pred;

            if old(self).spec_enabled_distinct() {
                lemma_filter_keeps_distinct_names(before, pred);
            }
        }
        self.enabled_tools = kept;
        was_enabled
    }

    /// Check if a tool is enabled.
    pub fn is_tool_enabled(&self, name: &str) -> (r: bool)
        ensures
            r == self.spec_tool_enabled(name@),
    {
        let n = self.enabled_tools.len();
        let mut i: usize = 0;
        while i < n
            invariant
                i <= n,
                n == self.enabled_tools@.len(),
                forall|j: int| 0 <= j < i ==> (#[trigger] self.enabled_tools@[j])@ != name@,
            decreases n - i,
        {
            if str_eq(self.enabled_tools[i].as_str(), name) {
                return true;
            }
            i = i + 1;
        }
        false
    }

    /// Get the list of enabled tool names.
    pub fn get_enabled_tools(&self) -> (r: Vec<String>)
        ensures
            r@ == self.enabled_tools@,
    {
        let mut out: Vec<String> = Vec::new();
        let n = self.enabled_tools.len();
        let mut i: usize = 0;
        while i < n
            invariant
                i <= n,
                n == self.enabled_tools@.len(),
                out@ =~= self.enabled_tools@.take(i as int),
            decreases n - i,
        {
            out.push(self.enabled_tools[i].clone());
            proof {
                assert(out@ =~= self.enabled_tools@.take(i + 1));
            }
            i = i + 1;
        }
        proof {
            assert(self.enabled_tools@.take(n as int) =~= self.enabled_tools@);
        }
        out
    }

    /// Get and clear pending moves (for event submission).
    pub fn take_pending_moves(&mut self) -> (r: Vec<Direction>)
        ensures
            r == old(self).pending_moves,
            final(self).pending_moves@.len() == 0,
            !final(self).movement_active,
            final(self).x == old(self).x,
            final(self).y == old(self).y,
            final(self).id == old(self).id,
            final(self).name == old(self).name,
            final(self).logs == old(self).logs,
            final(self).chat_history == old(self).chat_history,
            final(self).current_target == old(self).current_target,
            final(self).max_history_messages == old(self).max_history_messages,
            final(self).enabled_tools == old(self).enabled_tools,
            final(self).tool_registry == old(self).tool_registry,
    {
        self.movement_active = false;
        let mut moves: Vec<Direction> = Vec::new();
        core::mem::swap(&mut moves, &mut self.pending_moves);
        moves
    }

    /// Check if agent is currently moving.
    pub fn is_moving(&self) -> (r: bool)
        ensures
            r == self.movement_active,
    {
        self.movement_active
    }

    /// Get maximum history messages sent to the model.
    pub fn max_history_messages(&self) -> (r: usize)
        ensures
            r == self.max_history_messages,
    {
        self.max_history_messages
    }

    /// Set maximum history messages sent to the model (at least 1).
    pub fn set_max_history_messages(&mut self, max: usize)
        ensures
            final(self).max_history_messages == (if max >= 1 {
                max as int
            } else {
                1int
            }),
            final(self).logs == old(self).logs,
            final(self).x == old(self).x,
            final(self).y == old(self).y,
            final(self).id == old(self).id,
            final(self).name == old(self).name,
            final(self).chat_history == old(self).chat_history,
            final(self).enabled_tools == old(self).enabled_tools,
            final(self).tool_registry == old(self).tool_registry,
            final(self).pending_moves == old(self).pending_moves,
            final(self).movement_active == old(self).movement_active,
            final(self).current_target == old(self).current_target,
    {
        self.max_history_messages = if max >= 1 {
            max
        } else {
            1
        };
    }

    /// Execute a single move step against the map.
    ///
    /// Succeeds exactly when the step stays on the map and lands on a
    /// traversable tile; then the vacated cell becomes a trail, the
    /// position advances and a movement entry is logged. Any failure
    /// carries the abort mark, leaves position and map unchanged, and logs
    /// an error.
    pub fn execute_move_step(&mut self, direction: Direction, map: &mut GridMap) -> (r: Result<
        (),
        FailureReason,
    >)
        requires
            old(map).wf(),
            old(self).x < old(map).width,
            old(self).y < old(map).height,
        ensures
            final(map).wf(),
            final(map).width == old(map).width,
            final(map).height == old(map).height,
            final(map).metadata == old(map).metadata,
            Agent::spec_same_except_motion(*final(self), *old(self)),
            r is Ok <==> !old(self).spec_at_edge(direction, *old(map)) && old(map).spec_traversable(
                old(self).spec_step_target(direction).0,
                old(self).spec_step_target(direction).1,
            ),
            r is Ok ==> {
                let (tx, ty) = old(self).spec_step_target(direction);
                &&& final(self).x == tx && final(self).y == ty
                &&& final(map).spec_traversable(final(self).x as int, final(self).y as int)
                &&& forall|i: int, j: int|
                    old(map).spec_in_bounds(i, j) ==> #[trigger] final(map).spec_tile(i, j) == (
                    if i == old(self).x && j == old(self).y {
                        TileKind::Trail
                    } else {
                        old(map).spec_tile(i, j)
                    })
                &&& final(self).logs@.len() == old(self).logs@.len() + 1
                &&& final(self).logs@.last() matches LogEntry::Movement { direction: d, position }
                    && d@ == direction.spec_str() && position == (final(self).x, final(self).y)
                &&& forall|i: int|
                    0 <= i < old(self).logs@.len() ==> #[trigger] final(self).logs@[i] == old(
                        self,
                    ).logs@[i]
            },
            r matches Err(f) ==> {
                &&& *final(map) == *old(map)
                &&& final(self).x == old(self).x && final(self).y == old(self).y
                &&& f.abort
                &&& f.message@ == (if old(self).spec_at_edge(direction, *old(map)) {
                    spec_edge_message()
                } else {
                    spec_blocked_message(
                        old(map).spec_tile(
                            old(self).spec_step_target(direction).0,
                            old(self).spec_step_target(direction).1,
                        ),
                        old(self).spec_step_target(direction).0 as nat,
                        old(self).spec_step_target(direction).1 as nat,
                    )
                })
                &&& final(self).logs@.len() == old(self).logs@.len() + 1
                &&& final(self).logs@.last() matches LogEntry::Error(m) && m@
                    == "Movement blocked: "@ + f.message@
                &&& forall|i: int|
                    0 <= i < old(self).logs@.len() ==> #[trigger] final(self).logs@[i] == old(
                        self,
                    ).logs@[i]
            },
    {
        let at_edge = match direction {
            Direction::Up => self.y == 0,
            Direction::Down => self.y + 1 >= map.height(),
            Direction::Left => self.x == 0,
            Direction::Right => self.x + 1 >= map.width(),
        };
        if at_edge {
            let mut log_message = String::from_str("Movement blocked: ");
            log_message.append("edge of map");
            self.logs.push(LogEntry::Error(log_message));
            return Err(FailureReason { message: String::from_str("edge of map"), abort: true });
        }
        let (nx, ny) = match direction {
            Direction::Up => (self.x, self.y - 1),
            Direction::Down => (self.x, self.y + 1),
            Direction::Left => (self.x - 1, self.y),
            Direction::Right => (self.x + 1, self.y),
        };
        if !map.is_traversable(nx, ny) {
            let tile = match map.get(nx, ny) {
                Some(t) => *t,
                None => TileKind::Empty,
            };
            let mut message = String::from_str("blocked by ");
            message.append(tile.name());
            message.append(" at (");
            push_usize(&mut message, nx);
            message.append(",");
            push_usize(&mut message, ny);
            message.append(")");
            let mut log_message = String::from_str("Movement blocked: ");
            log_message.append(message.as_str());
            self.logs.push(LogEntry::Error(log_message));
            return Err(FailureReason { message, abort: true });
        }
        // Leave trail
        let _ = map.set(self.x, self.y, TileKind::Trail);
        // Move agent
        self.x = nx;
        self.y = ny;
        self.logs.push(
            LogEntry::Movement { direction: direction.as_str().to_owned(), position: (nx, ny) },
        );
        Ok(())
    }
}

/// The strings kept by `disable_tool`: every name but the disabled one.
pub open spec fn spec_other_name_pred(name: Seq<char>) -> spec_fn(String) -> bool {
    |s: String| s@ != name
}

/// Each element of a filtered name list is an element of the original.
proof fn lemma_filter_name_element_index(s: Seq<String>, pred: spec_fn(String) -> bool, i: int)
    requires
        0 <= i < s.filter(pred).len(),
    ensures
        exists|k: int| 0 <= k < s.len() && #[trigger] s[k] == s.filter(pred)[i],
    decreases s.len(),
{
    broadcast use Seq::lemma_filter_push;

    if s.len() == 0 {
        reveal(Seq::filter);
    } else {
        let t = s.drop_last();
        assert(t.push(s.last()) =~= s);
        if pred(s.last()) && i == s.filter(pred).len() - 1 {
            assert(s[s.len() - 1] == s.filter(pred)[i]);
        } else {
            lemma_filter_name_element_index(t, pred, i);
            let k = choose|k: int| 0 <= k < t.len() && #[trigger] t[k] == t.filter(pred)[i];
            assert(s[k] == s.filter(pred)[i]);
        }
    }
}

/// Filtering a list of pairwise distinct names keeps them pairwise
/// distinct.
proof fn lemma_filter_keeps_distinct_names(s: Seq<String>, pred: spec_fn(String) -> bool)
    requires
        forall|i: int, j: int| 0 <= i < j < s.len() ==> (#[trigger] s[i])@ != (#[trigger] s[j])@,
    ensures
        forall|i: int, j: int|
            0 <= i < j < s.filter(pred).len() ==> (#[trigger] s.filter(pred)[i])@ != (
            #[trigger] s.filter(pred)[j])@,
    decreases s.len(),
{
    broadcast use Seq::lemma_filter_push;

    if s.len() == 0 {
        reveal(Seq::filter);
    } else {
        let t = s.drop_last();
        assert(t.push(s.last()) =~= s);
        lemma_filter_keeps_distinct_names(t, pred);
        let f = s.filter(pred);
        let ft = t.filter(pred);
        assert forall|i: int, j: int| 0 <= i < j < f.len() implies (#[trigger] f[i])@ != (
        #[trigger] f[j])@ by {
            if pred(s.last()) && j == f.len() - 1 && f.len() == ft.len() + 1 {
                lemma_filter_name_element_index(t, pred, i);
                let k = choose|k: int| 0 <= k < t.len() && #[trigger] t[k] == ft[i];
                assert(t[k]@ != s.last()@);
            }
        }
    }
}

} // verus!
