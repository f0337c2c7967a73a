//! Typed tool arguments and the agent's tool handlers.
//!
//! Raw tool-call argument JSON is decoded into [`ToolArgs`] at the
//! boundary outside the library; everything here works on those plain
//! values. Validation rules (step counts, identity checks, direction
//! parsing) and the query replies are specified exactly.

use vstd::prelude::*;
use vstd::string::*;
use crate::agent::Agent;
use crate::agent::Direction;
use crate::agent::LogEntry;
use crate::agent::spec_parse_direction;
use crate::agent::str_eq;
use crate::map::GridMap;
use crate::map::TileKind;
use crate::textfmt::push_u64;
use crate::textfmt::push_u128;
use crate::textfmt::push_diff_signed;
use crate::textfmt::spec_dec_signed;
use crate::textfmt::push_usize;
use crate::textfmt::push_joined;
use crate::textfmt::spec_dec;
use crate::textfmt::spec_join;

verus! {

/// The argument fields a tool call may carry, decoded from its JSON text.
///
/// `steps` is `None` when the field is missing or not an array; an
/// element is `None` when it is not a string.
#[derive(Debug)]
pub struct ToolArgs {
    pub agent_id: Option<u64>,
    pub steps: Option<Vec<Option<String>>>,
    pub target: Option<(usize, usize)>,
    pub thoughts: Option<String>,
    pub area: Option<(usize, usize)>,
    pub visibility: Option<usize>,
}

impl ToolArgs {
    /// Arguments with every field absent.
    pub fn empty() -> (r: Self)
        ensures
            r.agent_id is None,
            r.steps is None,
            r.target is None,
            r.thoughts is None,
            r.area is None,
            r.visibility is None,
    {
        ToolArgs {
            agent_id: None,
            steps: None,
            target: None,
            thoughts: None,
            area: None,
            visibility: None,
        }
    }
}

/// Parses the step names from index `i` on: the directions they name, or
/// the first error.
pub open spec fn spec_parse_steps_from(st: Seq<Option<String>>, i: int) -> Result<
    Seq<Direction>,
    Seq<char>,
>
    decreases st.len() - i,
{
    if i < 0 || i >= st.len() {
        Ok(Seq::empty())
    } else {
        match st[i] {
            None => Err("step must be string"@),
            Some(s) => match spec_parse_direction(s@) {
                None => Err("Invalid direction: "@ + s@),
                Some(d) => match spec_parse_steps_from(st, i + 1) {
                    Ok(rest) => Ok(seq![d] + rest),
                    Err(m) => Err(m),
                },
            },
        }
    }
}

/// Prepends already-parsed directions to a parse result.
pub open spec fn spec_parse_compose(p: Seq<Direction>, r: Result<Seq<Direction>, Seq<char>>) -> Result<
    Seq<Direction>,
    Seq<char>,
> {
    match r {
        Ok(rest) => Ok(p + rest),
        Err(m) => Err(m),
    }
}

/// What validating a `move_agent` call yields: the parsed directions, or
/// the first validation error.
pub open spec fn spec_move_validation(args: ToolArgs) -> Result<Seq<Direction>, Seq<char>> {
    match args.steps {
        None => Err("missing steps"@),
        Some(st) => if st@.len() == 0 || st@.len() > 5 {
            Err("steps must be 1..=5"@)
        } else {
            spec_parse_steps_from(st@, 0)
        },
    }
}

/// The target hint after a `move_agent` call: it is recorded once the
/// step list has an acceptable length, even if a later step fails to
/// parse.
pub open spec fn spec_move_target_after(args: ToolArgs, old_target: Option<(usize, usize)>) -> Option<
    (usize, usize),
> {
    match args.steps {
        None => old_target,
        Some(st) => if st@.len() == 0 || st@.len() > 5 {
            old_target
        } else {
            args.target
        },
    }
}

/// The reply of the `think` tool.
pub open spec fn spec_think_reply(args: ToolArgs) -> Seq<char> {
    "Recorded thoughts: "@ + (match args.thoughts {
        Some(t) => t@,
        None => "(empty thoughts)"@,
    })
}

/// The reply of the `get_position` tool.
pub open spec fn spec_position_json(x: nat, y: nat) -> Seq<char> {
    "{\"x\":"@ + spec_dec(x) + ",\"y\":"@ + spec_dec(y) + "}"@
}

/// Whether one step in `d` keeps the agent on the map and lands on a
/// traversable tile.
pub open spec fn spec_dir_open(a: Agent, map: GridMap, d: Direction) -> bool {
    !a.spec_at_edge(d, map) && map.spec_traversable(
        a.spec_step_target(d).0,
        a.spec_step_target(d).1,
    )
}

/// Wraps a string in double quotes.
pub open spec fn spec_quote(s: Seq<char>) -> Seq<char> {
    "\""@ + s + "\""@
}

/// The open direction names, in the order up, down, left, right.
pub open spec fn spec_open_dir_names(a: Agent, map: GridMap) -> Seq<Seq<char>> {
    (if spec_dir_open(a, map, Direction::Up) {
        seq!["up"@]
    } else {
        Seq::empty()
    }) + (if spec_dir_open(a, map, Direction::Down) {
        seq!["down"@]
    } else {
        Seq::empty()
    }) + (if spec_dir_open(a, map, Direction::Left) {
        seq!["left"@]
    } else {
        Seq::empty()
    }) + (if spec_dir_open(a, map, Direction::Right) {
        seq!["right"@]
    } else {
        Seq::empty()
    })
}

/// The reply of the `get_available_directions` tool.
pub open spec fn spec_available_directions_json(a: Agent, map: GridMap) -> Seq<char> {
    "{\"position\":"@ + spec_position_json(a.x as nat, a.y as nat)
        + ",\"available_directions\":["@ + spec_join(
        spec_open_dir_names(a, map).map_values(|s: Seq<char>| spec_quote(s)),
        ","@,
    ) + "]}"@
}

impl Agent {
    /// Handle the `get_position` tool.
    pub fn handle_get_position_tool(&self) -> (r: String)
        ensures
            r@ == spec_position_json(self.x as nat, self.y as nat),
    {
        let mut s = String::from_str("{\"x\":");
        push_usize(&mut s, self.x);
        s.append(",\"y\":");
        push_usize(&mut s, self.y);
        s.append("}");
        s
    }

    /// Whether one step in `d` keeps the agent on the map and lands on a
    /// traversable tile.
    pub fn dir_open(&self, map: &GridMap, d: Direction) -> (r: bool)
        requires
            map.wf(),
            self.x < map.width,
            self.y < map.height,
        ensures
            r == spec_dir_open(*self, *map, d),
    {
        let at_edge = match d {
            Direction::Up => self.y == 0,
            Direction::Down => self.y + 1 >= map.height(),
            Direction::Left => self.x == 0,
            Direction::Right => self.x + 1 >= map.width(),
        };
        if at_edge {
            return false;
        }
        let (nx, ny) = match d {
            Direction::Up => (self.x, self.y - 1),
            Direction::Down => (self.x, self.y + 1),
            Direction::Left => (self.x - 1, self.y),
            Direction::Right => (self.x + 1, self.y),
        };
        map.is_traversable(nx, ny)
    }

    /// Handle the `get_available_directions` tool.
    pub fn handle_get_available_directions_tool(&self, map: &GridMap) -> (r: String)
        requires
            map.wf(),
            self.x < map.width,
            self.y < map.height,
        ensures
            r@ == spec_available_directions_json(*self, *map),
    {
        let ghost quoted = spec_open_dir_names(*self, *map).map_values(
            |s: Seq<char>| spec_quote(s),
        );
        let mut names: Vec<String> = Vec::new();
        if self.dir_open(map, Direction::Up) {
            names.push(String::from_str("\"up\""));
        }
        if self.dir_open(map, Direction::Down) {
            names.push(String::from_str("\"down\""));
        }
        if self.dir_open(map, Direction::Left) {
            names.push(String::from_str("\"left\""));
        }
        if self.dir_open(map, Direction::Right) {
            names.push(String::from_str("\"right\""));
        }
        proof {
            reveal_strlit("\"up\"");
            reveal_strlit("\"down\"");
            reveal_strlit("\"left\"");
            reveal_strlit("\"right\"");
            reveal_strlit("\"");
            reveal_strlit("up");
            reveal_strlit("down");
            reveal_strlit("left");
            reveal_strlit("right");
            assert("\"up\""@ =~= spec_quote("up"@));
            assert("\"down\""@ =~= spec_quote("down"@));
            assert("\"left\""@ =~= spec_quote("left"@));
            assert("\"right\""@ =~= spec_quote("right"@));
            assert(names@.map_values(|t: String| t@) =~= quoted);
        }
        let mut s = String::from_str("{\"position\":");
        s.append("{\"x\":");
        push_usize(&mut s, self.x);
        s.append(",\"y\":");
        push_usize(&mut s, self.y);
        s.append("}");
        s.append(",\"available_directions\":[");
        push_joined(&mut s, &names, ",");
        s.append("]}");
        proof {
            assert(s@ =~= spec_available_directions_json(*self, *map));
        }
        s
    }

    /// Handle the `move_agent` tool: validate the step list, queue the
    /// directions and record the optional target hint. The queued steps
    /// are submitted to the scheduler by the caller.
    pub fn handle_move_agent_tool(&mut self, args: &ToolArgs) -> (r: Result<String, String>)
        ensures
            final(self).x == old(self).x,
            final(self).y == old(self).y,
            final(self).id == old(self).id,
            final(self).name == old(self).name,
            final(self).chat_history == old(self).chat_history,
            final(self).max_history_messages == old(self).max_history_messages,
            final(self).enabled_tools == old(self).enabled_tools,
            final(self).tool_registry == old(self).tool_registry,
            final(self).current_target == spec_move_target_after(*args, old(self).current_target),
            match spec_move_validation(*args) {
                Err(m) => {
                    &&& r matches Err(e) && e@ == m
                    &&& final(self).pending_moves == old(self).pending_moves
                    &&& final(self).movement_active == old(self).movement_active
                    &&& final(self).logs == old(self).logs
                },
                Ok(dirs) => {
                    &&& r matches Ok(s) && s@ == Seq::<char>::empty()
                    &&& final(self).pending_moves@ == dirs
                    &&& final(self).movement_active
                    &&& final(self).logs@.len() == old(self).logs@.len() + 1
                    &&& final(self).logs@.last() matches LogEntry::Info(m) && m@
                        == spec_prep_message(*args, *old(self))
                    &&& forall|i: int|
                        0 <= i < old(self).logs@.len() ==> #[trigger] final(self).logs@[i] == old(
                            self,
                        ).logs@[i]
                },
            },
    {
        let step_list = match &args.steps {
            None => {
                return Err(String::from_str("missing steps"));
            },
            Some(st) => st,
        };
        let n = step_list.len();
        if n == 0 || n > 5 {
            return Err(String::from_str("steps must be 1..=5"));
        }
        // Record the optional target hint.
        self.current_target = match &args.target {
            Some(t) => Some((t.0, t.1)),
            None => None,
        };
        // Parse directions.
        let ghost st_view = step_list@;
        let mut directions: Vec<Direction> = Vec::new();
        let mut k: usize = 0;
        while k < n
            invariant
                k <= n,
                n == st_view.len(),
                1 <= n && n <= 5,
                args.steps matches Some(st) && st@ == st_view,
                step_list@ == st_view,
                self.x == old(self).x,
                self.y == old(self).y,
                self.id == old(self).id,
                self.name == old(self).name,
                self.chat_history == old(self).chat_history,
                self.logs == old(self).logs,
                self.pending_moves == old(self).pending_moves,
                self.movement_active == old(self).movement_active,
                self.max_history_messages == old(self).max_history_messages,
                self.enabled_tools == old(self).enabled_tools,
                self.tool_registry == old(self).tool_registry,
                self.current_target == spec_move_target_after(*args, old(self).current_target),
                spec_parse_compose(directions@, spec_parse_steps_from(st_view, k as int))
                    == spec_parse_steps_from(st_view, 0),
            decreases n - k,
        {
            match &step_list[k] {
                None => {
                    return Err(String::from_str("step must be string"));
                },
                Some(s) => {
                    match Direction::from_str(s.as_str()) {
                        Err(m) => {
                            return Err(m);
                        },
                        Ok(d) => {
                            proof {
                                if spec_parse_steps_from(st_view, k + 1) is Ok {
                                    let rest = spec_parse_steps_from(st_view, k + 1)->Ok_0;
                                    assert(directions@ + (seq![d] + rest) =~= directions@.push(d)
                                        + rest);
                                }
                            }
                            directions.push(d);
                        },
                    }
                },
            }
            k = k + 1;
        }
        proof {
            assert(spec_parse_steps_from(st_view, n as int) == Ok::<Seq<Direction>, Seq<char>>(
                Seq::empty(),
            ));
            assert(directions@ + Seq::<Direction>::empty() =~= directions@);
        }
        // Store for event submission (handled by the caller).
        let total = directions.len();
        self.pending_moves = directions;
        self.movement_active = true;
        let mut message = String::from_str("Preparing ");
        push_usize(&mut message, total);
        message.append(" movement steps");
        match &self.current_target {
            Some(t) => {
                message.append(" towards target (");
                push_usize(&mut message, t.0);
                message.append(", ");
                push_usize(&mut message, t.1);
                message.append(")");
            },
            None => {},
        }
        message.append(" starting at (");
        push_usize(&mut message, self.x);
        message.append(", ");
        push_usize(&mut message, self.y);
        message.append(")");
        self.logs.push(LogEntry::Info(message));
        Ok(String::new())
    }
}

/// The compass name of each direction.
pub open spec fn spec_compass(d: Direction) -> Seq<char> {
    match d {
        Direction::Up => "north"@,
        Direction::Down => "south"@,
        Direction::Left => "west"@,
        Direction::Right => "east"@,
    }
}

/// The entry describing why a direction is blocked: its compass name and
/// the obstacle (the map edge, or the blocking tile's name).
pub open spec fn spec_blocked_entry(a: Agent, map: GridMap, d: Direction) -> Seq<char> {
    spec_compass(d) + (if a.spec_at_edge(d, map) {
        " (map edge)"@
    } else {
        " ("@ + map.spec_tile(a.spec_step_target(d).0, a.spec_step_target(d).1).spec_name() + ")"@
    })
}

/// The blocked-direction entries, in the order north, south, west, east.
pub open spec fn spec_blocked_names(a: Agent, map: GridMap) -> Seq<Seq<char>> {
    (if !spec_dir_open(a, map, Direction::Up) {
        seq![spec_blocked_entry(a, map, Direction::Up)]
    } else {
        Seq::empty()
    }) + (if !spec_dir_open(a, map, Direction::Down) {
        seq![spec_blocked_entry(a, map, Direction::Down)]
    } else {
        Seq::empty()
    }) + (if !spec_dir_open(a, map, Direction::Left) {
        seq![spec_blocked_entry(a, map, Direction::Left)]
    } else {
        Seq::empty()
    }) + (if !spec_dir_open(a, map, Direction::Right) {
        seq![spec_blocked_entry(a, map, Direction::Right)]
    } else {
        Seq::empty()
    })
}

/// One entry of the bearings reply's blocked list: a JSON object naming
/// the compass direction and the reason (the map edge, or an obstacle
/// with the tile's reported name).
pub open spec fn spec_blocked_json_entry(a: Agent, map: GridMap, d: Direction) -> Seq<char> {
    "{\"direction\":\""@ + spec_compass(d) + (if a.spec_at_edge(d, map) {
        "\",\"reason\":\"map_edge\"}"@
    } else {
        "\",\"reason\":\"obstacle\",\"tile\":\""@ + map.spec_tile(
            a.spec_step_target(d).0,
            a.spec_step_target(d).1,
        ).spec_name() + "\"}"@
    })
}

/// The blocked-direction JSON entries, in the order north, south, west,
/// east.
pub open spec fn spec_blocked_json_entries(a: Agent, map: GridMap) -> Seq<Seq<char>> {
    (if !spec_dir_open(a, map, Direction::Up) {
        seq![spec_blocked_json_entry(a, map, Direction::Up)]
    } else {
        Seq::empty()
    }) + (if !spec_dir_open(a, map, Direction::Down) {
        seq![spec_blocked_json_entry(a, map, Direction::Down)]
    } else {
        Seq::empty()
    }) + (if !spec_dir_open(a, map, Direction::Left) {
        seq![spec_blocked_json_entry(a, map, Direction::Left)]
    } else {
        Seq::empty()
    }) + (if !spec_dir_open(a, map, Direction::Right) {
        seq![spec_blocked_json_entry(a, map, Direction::Right)]
    } else {
        Seq::empty()
    })
}

/// The quoted open-direction compass names, in the order north, south,
/// west, east.
pub open spec fn spec_open_json_names(a: Agent, map: GridMap) -> Seq<Seq<char>> {
    (if spec_dir_open(a, map, Direction::Up) {
        seq![spec_quote("north"@)]
    } else {
        Seq::empty()
    }) + (if spec_dir_open(a, map, Direction::Down) {
        seq![spec_quote("south"@)]
    } else {
        Seq::empty()
    }) + (if spec_dir_open(a, map, Direction::Left) {
        seq![spec_quote("west"@)]
    } else {
        Seq::empty()
    }) + (if spec_dir_open(a, map, Direction::Right) {
        seq![spec_quote("east"@)]
    } else {
        Seq::empty()
    })
}

/// The open-direction compass names, in the order north, south, west,
/// east.
pub open spec fn spec_open_compass_names(a: Agent, map: GridMap) -> Seq<Seq<char>> {
    (if spec_dir_open(a, map, Direction::Up) {
        seq!["north"@]
    } else {
        Seq::empty()
    }) + (if spec_dir_open(a, map, Direction::Down) {
        seq!["south"@]
    } else {
        Seq::empty()
    }) + (if spec_dir_open(a, map, Direction::Left) {
        seq!["west"@]
    } else {
        Seq::empty()
    }) + (if spec_dir_open(a, map, Direction::Right) {
        seq!["east"@]
    } else {
        Seq::empty()
    })
}

/// The city-block distance between the agent and a target.
pub open spec fn spec_distance(a: Agent, t: (usize, usize)) -> nat {
    (((if t.0 >= a.x {
        t.0 - a.x
    } else {
        a.x - t.0
    }) + (if t.1 >= a.y {
        t.1 - a.y
    } else {
        a.y - t.1
    })) as nat)
}

/// The target member of the bearings reply: the coordinate, the
/// city-block distance, and the signed deltas, used for advisory text
/// only, never for pathfinding.
pub open spec fn spec_target_json(a: Agent, t: (usize, usize)) -> Seq<char> {
    ",\"target\":{\"x\":"@ + spec_dec(t.0 as nat) + ",\"y\":"@ + spec_dec(t.1 as nat)
        + ",\"distance\":"@ + spec_dec(spec_distance(a, t)) + ",\"delta_x\":"@
        + spec_dec_signed(t.0 - a.x) + ",\"delta_y\":"@ + spec_dec_signed(t.1 - a.y) + "}"@
}

/// The quoted advice strings closing the bearings reply.
pub open spec fn spec_advice_items(a: Agent, map: GridMap, target: Option<(usize, usize)>) -> Seq<
    Seq<char>,
> {
    seq![
        spec_quote(
            if spec_open_compass_names(a, map).len() == 0 {
                "You're completely blocked! Try using 'get_map_state' to see the bigger picture."@
            } else {
                "You have open directions available."@
            },
        ),
    ] + (if target is Some && spec_open_compass_names(a, map).len() > 0 {
        seq![
            spec_quote(
                "If you're stuck, try picking a different target coordinate with the 'move_agent' tool."@,
            ),
        ]
    } else if target is None {
        seq![
            spec_quote(
                "Consider specifying a target coordinate when moving to get better navigation hints."@,
            ),
        ]
    } else {
        Seq::empty()
    })
}

/// The reply of the `get_bearings` tool: a JSON object with the
/// position, the optional target (distance and deltas included), the
/// blocked and open direction lists, and the advice strings.
pub open spec fn spec_bearings_report(a: Agent, map: GridMap, target: Option<(usize, usize)>) -> Seq<
    char,
> {
    "{\"position\":"@ + spec_position_json(a.x as nat, a.y as nat) + (match target {
        Some(t) => spec_target_json(a, t),
        None => Seq::empty(),
    }) + ",\"blocking_directions\":["@ + spec_join(spec_blocked_json_entries(a, map), ","@)
        + "],\"open_directions\":["@ + spec_join(spec_open_json_names(a, map), ","@)
        + "],\"advice\":["@ + spec_join(spec_advice_items(a, map, target), ","@) + "]}"@
}

impl Agent {
    /// The compass name of a direction.
    fn compass_str(d: Direction) -> (r: &'static str)
        ensures
            r@ == spec_compass(d),
    {
        match d {
            Direction::Up => "north",
            Direction::Down => "south",
            Direction::Left => "west",
            Direction::Right => "east",
        }
    }

    /// Builds the blocked entry for one direction.
    fn blocked_entry(&self, map: &GridMap, d: Direction) -> (r: String)
        requires
            map.wf(),
            self.x < map.width,
            self.y < map.height,
            !spec_dir_open(*self, *map, d),
        ensures
            r@ == spec_blocked_entry(*self, *map, d),
    {
        let mut s = String::from_str(Self::compass_str(d));
        let at_edge = match d {
            Direction::Up => self.y == 0,
            Direction::Down => self.y + 1 >= map.height(),
            Direction::Left => self.x == 0,
            Direction::Right => self.x + 1 >= map.width(),
        };
        if at_edge {
            s.append(" (map edge)");
        } else {
            let (nx, ny) = match d {
                Direction::Up => (self.x, self.y - 1),
                Direction::Down => (self.x, self.y + 1),
                Direction::Left => (self.x - 1, self.y),
                Direction::Right => (self.x + 1, self.y),
            };
            let tile = match map.get(nx, ny) {
                Some(t) => *t,
                None => TileKind::Empty,
            };
            s.append(" (");
            s.append(tile.name());
            s.append(")");
        }
        proof {
            assert(s@ =~= spec_blocked_entry(*self, *map, d));
        }
        s
    }

    /// Builds one blocked-list JSON entry of the bearings reply.
    fn blocked_json_entry(&self, map: &GridMap, d: Direction) -> (r: String)
        requires
            map.wf(),
            self.x < map.width,
            self.y < map.height,
            !spec_dir_open(*self, *map, d),
        ensures
            r@ == spec_blocked_json_entry(*self, *map, d),
    {
        let mut s = String::from_str("{\"direction\":\"");
        s.append(Self::compass_str(d));
        let at_edge = match d {
            Direction::Up => self.y == 0,
            Direction::Down => self.y + 1 >= map.height(),
            Direction::Left => self.x == 0,
            Direction::Right => self.x + 1 >= map.width(),
        };
        if at_edge {
            s.append("\",\"reason\":\"map_edge\"}");
        } else {
            let (nx, ny) = match d {
                Direction::Up => (self.x, self.y - 1),
                Direction::Down => (self.x, self.y + 1),
                Direction::Left => (self.x - 1, self.y),
                Direction::Right => (self.x + 1, self.y),
            };
            let tile = match map.get(nx, ny) {
                Some(t) => *t,
                None => TileKind::Empty,
            };
            s.append("\",\"reason\":\"obstacle\",\"tile\":\"");
            s.append(tile.name());
            s.append("\"}");
        }
        proof {
            assert(s@ =~= spec_blocked_json_entry(*self, *map, d));
        }
        s
    }

    /// Wraps a compass name in JSON quotes.
    fn quoted(text: &str) -> (r: String)
        ensures
            r@ == spec_quote(text@),
    {
        let mut s = String::from_str("\"");
        s.append(text);
        s.append("\"");
        proof {
            assert(s@ =~= spec_quote(text@));
        }
        s
    }

    /// Surveys the four directions for the bearings reply: the blocked
    /// JSON entries and the quoted open compass names, both in the order
    /// north, south, west, east.
    fn survey_directions_json(&self, map: &GridMap) -> (r: (Vec<String>, Vec<String>))
        requires
            map.wf(),
            self.x < map.width,
            self.y < map.height,
        ensures
            r.0@.map_values(|t: String| t@) == spec_blocked_json_entries(*self, *map),
            r.1@.map_values(|t: String| t@) == spec_open_json_names(*self, *map),
    {
        let mut blocked: Vec<String> = Vec::new();
        let mut open: Vec<String> = Vec::new();
        if self.dir_open(map, Direction::Up) {
            open.push(Self::quoted("north"));
        } else {
            blocked.push(self.blocked_json_entry(map, Direction::Up));
        }
        if self.dir_open(map, Direction::Down) {
            open.push(Self::quoted("south"));
        } else {
            blocked.push(self.blocked_json_entry(map, Direction::Down));
        }
        if self.dir_open(map, Direction::Left) {
            open.push(Self::quoted("west"));
        } else {
            blocked.push(self.blocked_json_entry(map, Direction::Left));
        }
        if self.dir_open(map, Direction::Right) {
            open.push(Self::quoted("east"));
        } else {
            blocked.push(self.blocked_json_entry(map, Direction::Right));
        }
        proof {
            assert(blocked@.map_values(|t: String| t@) =~= spec_blocked_json_entries(
                *self,
                *map,
            ));
            assert(open@.map_values(|t: String| t@) =~= spec_open_json_names(*self, *map));
        }
        (blocked, open)
    }

    /// Surveys the four directions: the blocked entries and the open
    /// compass names, both in the order north, south, west, east.
    fn survey_directions(&self, map: &GridMap) -> (r: (Vec<String>, Vec<String>))
        requires
            map.wf(),
            self.x < map.width,
            self.y < map.height,
        ensures
            r.0@.map_values(|t: String| t@) == spec_blocked_names(*self, *map),
            r.1@.map_values(|t: String| t@) == spec_open_compass_names(*self, *map),
    {
        let mut blocked: Vec<String> = Vec::new();
        let mut open: Vec<String> = Vec::new();
        if self.dir_open(map, Direction::Up) {
            open.push(String::from_str("north"));
        } else {
            blocked.push(self.blocked_entry(map, Direction::Up));
        }
        if self.dir_open(map, Direction::Down) {
            open.push(String::from_str("south"));
        } else {
            blocked.push(self.blocked_entry(map, Direction::Down));
        }
        if self.dir_open(map, Direction::Left) {
            open.push(String::from_str("west"));
        } else {
            blocked.push(self.blocked_entry(map, Direction::Left));
        }
        if self.dir_open(map, Direction::Right) {
            open.push(String::from_str("east"));
        } else {
            blocked.push(self.blocked_entry(map, Direction::Right));
        }
        proof {
            assert(blocked@.map_values(|t: String| t@) =~= spec_blocked_names(*self, *map));
            assert(open@.map_values(|t: String| t@) =~= spec_open_compass_names(*self, *map));
        }
        (blocked, open)
    }

    /// Handle the `get_bearings` tool: record the optional target hint
    /// and reply with a JSON object naming the position, the optional
    /// target with its distance and deltas, the blocked and open
    /// directions, and advice.
    #[verifier::rlimit(90)]
    #[verifier::spinoff_prover]
    pub fn handle_get_bearings_tool(&mut self, args: &ToolArgs, map: &GridMap) -> (r: String)
        requires
            map.wf(),
            old(self).x < map.width,
            old(self).y < map.height,
        ensures
            final(self).current_target == args.target,
            final(self).x == old(self).x,
            final(self).y == old(self).y,
            final(self).id == old(self).id,
            final(self).name == old(self).name,
            final(self).chat_history == old(self).chat_history,
            final(self).logs == old(self).logs,
            final(self).pending_moves == old(self).pending_moves,
            final(self).movement_active == old(self).movement_active,
            final(self).max_history_messages == old(self).max_history_messages,
            final(self).enabled_tools == old(self).enabled_tools,
            final(self).tool_registry == old(self).tool_registry,
            r@ == spec_bearings_report(*old(self), *map, args.target),
    {
        self.current_target = match &args.target {
            Some(t) => Some((t.0, t.1)),
            None => None,
        };
        let ghost a0 = *old(self);
        let mut s = String::from_str("{\"position\":");
        s.append("{\"x\":");
        push_usize(&mut s, self.x);
        s.append(",\"y\":");
        push_usize(&mut s, self.y);
        s.append("}");
        match &args.target {
            Some(t) => {
                s.append(",\"target\":{\"x\":");
                push_usize(&mut s, t.0);
                s.append(",\"y\":");
                push_usize(&mut s, t.1);
                s.append(",\"distance\":");
                let dist_x: usize = if t.0 >= self.x {
                    t.0 - self.x
                } else {
                    self.x - t.0
                };
                let dist_y: usize = if t.1 >= self.y {
                    t.1 - self.y
                } else {
                    self.y - t.1
                };
                push_u128(&mut s, dist_x as u128 + dist_y as u128);
                s.append(",\"delta_x\":");
                push_diff_signed(&mut s, t.0, self.x);
                s.append(",\"delta_y\":");
                push_diff_signed(&mut s, t.1, self.y);
                s.append("}");
            },
            None => {},
        }
        let ghost head = "{\"position\":"@ + spec_position_json(a0.x as nat, a0.y as nat) + (
        match args.target {
            Some(t) => spec_target_json(a0, t),
            None => Seq::<char>::empty(),
        });
        proof {
            assert(s@ =~= head);
        }
        let ghost blocked_spec = spec_blocked_json_entries(a0, *map);
        let ghost open_spec = spec_open_json_names(a0, *map);
        let (blocked, open) = self.survey_directions_json(map);
        proof {
            assert(spec_blocked_json_entries(*self, *map) =~~= blocked_spec);
            assert(spec_open_json_names(*self, *map) =~~= open_spec);
        }
        s.append(",\"blocking_directions\":[");
        push_joined(&mut s, &blocked, ",");
        s.append("],\"open_directions\":[");
        push_joined(&mut s, &open, ",");
        s.append("],\"advice\":[");
        let ghost mid = head + ",\"blocking_directions\":["@ + spec_join(blocked_spec, ","@)
            + "],\"open_directions\":["@ + spec_join(open_spec, ","@) + "],\"advice\":["@;
        proof {
            assert(s@ =~= mid);
        }
        let mut advice: Vec<String> = Vec::new();
        if open.len() == 0 {
            advice.push(
                Self::quoted(
                    "You're completely blocked! Try using 'get_map_state' to see the bigger picture.",
                ),
            );
        } else {
            advice.push(Self::quoted("You have open directions available."));
        }
        let has_target = match &args.target {
            Some(_) => true,
            None => false,
        };
        if has_target && open.len() > 0 {
            advice.push(
                Self::quoted(
                    "If you're stuck, try picking a different target coordinate with the 'move_agent' tool.",
                ),
            );
        } else if !has_target {
            advice.push(
                Self::quoted(
                    "Consider specifying a target coordinate when moving to get better navigation hints.",
                ),
            );
        }
        proof {
            assert(advice@.map_values(|t: String| t@) =~= spec_advice_items(
                a0,
                *map,
                args.target,
            ));
        }
        push_joined(&mut s, &advice, ",");
        s.append("]}");
        proof {
            assert(s@ =~= mid + spec_join(spec_advice_items(a0, *map, args.target), ","@)
                + "]}"@);
            assert(mid + spec_join(spec_advice_items(a0, *map, args.target), ","@) + "]}"@
                =~= spec_bearings_report(a0, *map, args.target));
        }
        s
    }
}

/// The minimap character of each tile kind.
pub open spec fn spec_tile_char(t: TileKind) -> char {
    match t {
        TileKind::Empty => '.',
        TileKind::Grass => ',',
        TileKind::Water => '~',
        TileKind::Sand => 's',
        TileKind::Wall => '#',
        TileKind::Trail => '*',
        TileKind::Tree => 'T',
        TileKind::Custom(_) => '?',
    }
}

/// The minimap character of one cell: the agent's marker on its own
/// cell, the tile's character elsewhere.
pub open spec fn spec_map_cell(a: Agent, map: GridMap, i: int, j: int) -> char {
    if i == a.x && j == a.y {
        '@'
    } else {
        spec_tile_char(map.spec_tile(i, j))
    }
}

/// One minimap row, ending in a newline.
pub open spec fn spec_minimap_row(a: Agent, map: GridMap, vx: int, vw: int, j: int) -> Seq<char> {
    Seq::new(vw as nat, |i: int| spec_map_cell(a, map, vx + i, j)).push('\n')
}

/// The first `rows` minimap rows, starting at row `vy`.
pub open spec fn spec_minimap_rows(
    a: Agent,
    map: GridMap,
    vx: int,
    vw: int,
    vy: int,
    rows: int,
) -> Seq<char>
    decreases rows,
{
    if rows <= 0 {
        Seq::empty()
    } else {
        spec_minimap_rows(a, map, vx, vw, vy, rows - 1) + spec_minimap_row(
            a,
            map,
            vx,
            vw,
            vy + rows - 1,
        )
    }
}

/// The view distance, defaulting to 5 and clamped to 1..=10.
pub open spec fn spec_clamped_visibility(visibility: Option<usize>) -> int {
    let v = match visibility {
        Some(v) => v as int,
        None => 5int,
    };
    if v < 1 {
        1
    } else if v > 10 {
        10
    } else {
        v
    }
}

/// The viewed rectangle (x, y, width, height): a 7 by 7 area around the
/// requested center, or the visibility distance around the agent, both
/// clipped to the map.
pub open spec fn spec_view_bounds(
    a: Agent,
    map: GridMap,
    area: Option<(usize, usize)>,
    visibility: Option<usize>,
) -> (int, int, int, int) {
    let v = spec_clamped_visibility(visibility);
    let sx = match area {
        Some(c) => if c.0 - 3 > 0 {
            c.0 - 3
        } else {
            0int
        },
        None => if a.x - v > 0 {
            a.x - v
        } else {
            0int
        },
    };
    let sy = match area {
        Some(c) => if c.1 - 3 > 0 {
            c.1 - 3
        } else {
            0int
        },
        None => if a.y - v > 0 {
            a.y - v
        } else {
            0int
        },
    };
    let ex_raw = match area {
        Some(c) => c.0 + 4,
        None => a.x + v + 1,
    };
    let ey_raw = match area {
        Some(c) => c.1 + 4,
        None => a.y + v + 1,
    };
    let ex = if ex_raw < map.width {
        ex_raw
    } else {
        map.width as int
    };
    let ey = if ey_raw < map.height {
        ey_raw
    } else {
        map.height as int
    };
    (
        sx,
        sy,
        if ex - sx > 0 {
            ex - sx
        } else {
            0int
        },
        if ey - sy > 0 {
            ey - sy
        } else {
            0int
        },
    )
}

/// The reply of the `get_map_state` tool: a header naming the viewed
/// rectangle, the minimap, and its legend.
pub open spec fn spec_map_report(
    a: Agent,
    map: GridMap,
    area: Option<(usize, usize)>,
    visibility: Option<usize>,
) -> Seq<char> {
    let b = spec_view_bounds(a, map, area, visibility);
    let v = spec_clamped_visibility(visibility);
    "Map View ("@ + spec_dec(b.2 as nat) + "x"@ + spec_dec(b.3 as nat) + " area at ("@ + spec_dec(
        b.0 as nat,
    ) + ", "@ + spec_dec(b.1 as nat) + "))\n"@ + "Agent at ("@ + spec_dec(a.x as nat) + ", "@
        + spec_dec(a.y as nat) + ") in full map ("@ + spec_dec(map.width as nat) + "x"@ + spec_dec(
        map.height as nat,
    ) + ")\n"@ + (match area {
        Some(c) => "Area center: ("@ + spec_dec(c.0 as nat) + ", "@ + spec_dec(c.1 as nat)
            + ")\n"@,
        None => Seq::<char>::empty(),
    }) + "Visibility used: "@ + spec_dec(v as nat) + "\n\n"@ + spec_minimap_rows(
        a,
        map,
        b.0,
        b.2,
        b.1,
        b.3,
    ) + "\nLegend: @=agent, .=empty, ,=grass, ~=water, #=wall, T=tree, s=sand, *=trail\n"@
}

/// The start of a clipped interval: `base - sub`, not below zero.
fn lower_start(base: usize, sub: usize) -> (r: usize)
    ensures
        r == if base - sub > 0 {
            base - sub
        } else {
            0int
        },
{
    if base > sub {
        base - sub
    } else {
        0
    }
}

/// The end of a clipped interval: `base + add`, not beyond `limit`.
fn bounded_end(base: usize, add: usize, limit: usize) -> (r: usize)
    ensures
        r == if base + add < limit {
            base + add
        } else {
            limit as int
        },
{
    if base >= limit {
        limit
    } else if limit - base > add {
        base + add
    } else {
        limit
    }
}

/// The minimap character of a tile, as a one-character string.
fn tile_char_str(t: TileKind) -> (r: &'static str)
    ensures
        r@ =~= seq![spec_tile_char(t)],
{
    proof {
        reveal_strlit(".");
        reveal_strlit(",");
        reveal_strlit("~");
        reveal_strlit("s");
        reveal_strlit("#");
        reveal_strlit("*");
        reveal_strlit("T");
        reveal_strlit("?");
    }
    match t {
        TileKind::Empty => ".",
        TileKind::Grass => ",",
        TileKind::Water => "~",
        TileKind::Sand => "s",
        TileKind::Wall => "#",
        TileKind::Trail => "*",
        TileKind::Tree => "T",
        TileKind::Custom(_) => "?",
    }
}

impl Agent {
    /// Handle the `get_map_state` tool: a clipped view of the map as a
    /// character grid, with the agent marked.
    ///
    /// The reply is deliberately plain text rather than a JSON envelope:
    /// the header and legend carry the view bounds, the full map size,
    /// the agent position, the optional area center and the visibility
    /// in force, and the grid itself is the view, one character per
    /// tile.
    #[verifier::rlimit(100)]
    #[verifier::spinoff_prover]
    pub fn map_state_report(
        &self,
        map: &GridMap,
        area: Option<(usize, usize)>,
        visibility: Option<usize>,
    ) -> (r: String)
        requires
            map.wf(),
            self.x < map.width,
            self.y < map.height,
        ensures
            r@ == spec_map_report(*self, *map, area, visibility),
    {
        let v: usize = match visibility {
            Some(v) => if v < 1 {
                1
            } else if v > 10 {
                10
            } else {
                v
            },
            None => 5,
        };
        let (vx, vy, ex, ey) = match area {
            Some(c) => (
                lower_start(c.0, 3),
                lower_start(c.1, 3),
                bounded_end(c.0, 4, map.width()),
                bounded_end(c.1, 4, map.height()),
            ),
            None => (
                lower_start(self.x, v),
                lower_start(self.y, v),
                bounded_end(self.x, v + 1, map.width()),
                bounded_end(self.y, v + 1, map.height()),
            ),
        };
        let vw: usize = if ex > vx {
            ex - vx
        } else {
            0
        };
        let vh: usize = if ey > vy {
            ey - vy
        } else {
            0
        };
        let ghost b = spec_view_bounds(*self, *map, area, visibility);
        proof {
            assert(b == (vx as int, vy as int, vw as int, vh as int));
        }
        let mut s = String::from_str("Map View (");
        push_usize(&mut s, vw);
        s.append("x");
        push_usize(&mut s, vh);
        s.append(" area at (");
        push_usize(&mut s, vx);
        s.append(", ");
        push_usize(&mut s, vy);
        s.append("))\n");
        s.append("Agent at (");
        push_usize(&mut s, self.x);
        s.append(", ");
        push_usize(&mut s, self.y);
        s.append(") in full map (");
        push_usize(&mut s, map.width());
        s.append("x");
        push_usize(&mut s, map.height());
        s.append(")\n");
        match area {
            Some(c) => {
                s.append("Area center: (");
                push_usize(&mut s, c.0);
                s.append(", ");
                push_usize(&mut s, c.1);
                s.append(")\n");
            },
            None => {},
        }
        s.append("Visibility used: ");
        push_usize(&mut s, v);
        s.append("\n\n");
        let ghost header = s@;
        let mut j: usize = 0;
        while j < vh
            invariant
                j <= vh,
                map.wf(),
                self.x < map.width,
                self.y < map.height,
                vw > 0 ==> vx + vw <= map.width,
                vh > 0 ==> vy + vh <= map.height,
                s@ == header + spec_minimap_rows(*self, *map, vx as int, vw as int, vy as int, j as int),
            decreases vh - j,
        {
            let mut i: usize = 0;
            let ghost row_head = s@;
            while i < vw
                invariant
                    i <= vw,
                    j < vh,
                    map.wf(),
                    self.x < map.width,
                    self.y < map.height,
                    vw > 0 ==> vx + vw <= map.width,
                    vh > 0 ==> vy + vh <= map.height,
                    s@ == row_head + Seq::new(
                        i as nat,
                        |t: int| spec_map_cell(*self, *map, vx + t, vy + j),
                    ),
                decreases vw - i,
            {
                let cx = vx + i;
                let cy = vy + j;
                if cx == self.x && cy == self.y {
                    s.append("@");
                    proof {
                        reveal_strlit("@");
                    }
                } else {
                    let tile = match map.get(cx, cy) {
                        Some(t) => *t,
                        None => TileKind::Empty,
                    };
                    s.append(tile_char_str(tile));
                }
                proof {
                    assert(Seq::new(
                        (i + 1) as nat,
                        |t: int| spec_map_cell(*self, *map, vx + t, vy + j),
                    ) =~= Seq::new(i as nat, |t: int| spec_map_cell(*self, *map, vx + t, vy + j)).push(
                        spec_map_cell(*self, *map, vx + i, vy + j),
                    ));
                    assert(s@ =~= row_head + Seq::new(
                        (i + 1) as nat,
                        |t: int| spec_map_cell(*self, *map, vx + t, vy + j),
                    ));
                }
                i = i + 1;
            }
            s.append("\n");
            proof {
                reveal_strlit("\n");
                assert("\n"@ =~= seq!['\n']);
                assert(spec_minimap_row(*self, *map, vx as int, vw as int, vy + j) =~= Seq::new(
                    vw as nat,
                    |t: int| spec_map_cell(*self, *map, vx + t, vy + j),
                ).push('\n'));
                assert(s@ =~= header + spec_minimap_rows(
                    *self,
                    *map,
                    vx as int,
                    vw as int,
                    vy as int,
                    j + 1,
                ));
            }
            j = j + 1;
        }
        s.append("\nLegend: @=agent, .=empty, ,=grass, ~=water, #=wall, T=tree, s=sand, *=trail\n");
        proof {
            assert(s@ =~= spec_map_report(*self, *map, area, visibility));
        }
        s
    }
}

/// The info message logged when a movement sequence is queued.
pub open spec fn spec_prep_message(args: ToolArgs, a: Agent) -> Seq<char> {
    "Preparing "@ + spec_dec(spec_move_validation(args)->Ok_0.len()) + " movement steps"@ + (
    match args.target {
        Some(t) => " towards target ("@ + spec_dec(t.0 as nat) + ", "@ + spec_dec(t.1 as nat)
            + ")"@,
        None => Seq::empty(),
    }) + " starting at ("@ + spec_dec(a.x as nat) + ", "@ + spec_dec(a.y as nat) + ")"@
}

/// A tool call needs the subject-identity check unless it is one of the
/// two read-only meta tools.
pub open spec fn spec_needs_id(name: Seq<char>) -> bool {
    name != "get_map_state"@ && name != "think"@
}

/// The error reported when a tool call names another subject.
pub open spec fn spec_mismatch_message(id: u32, got: u64) -> Seq<char> {
    "agent id mismatch: expected "@ + spec_dec(id as nat) + ", got "@ + spec_dec(got as nat)
}

/// The reply or error text of one dispatched tool call, by case: the
/// two meta tools answer directly; every other tool needs the matching
/// subject id; the movement tool validates its step list and replies
/// with empty text (its result comes later, from the scheduler); the
/// queries reply with their reports; anything else is unknown.
pub open spec fn spec_dispatch(a: Agent, map: GridMap, name: Seq<char>, args: ToolArgs) -> Result<
    Seq<char>,
    Seq<char>,
> {
    if name == "get_map_state"@ {
        Ok(spec_map_report(a, map, args.area, args.visibility))
    } else if name == "think"@ {
        Ok(spec_think_reply(args))
    } else if args.agent_id is None {
        Err("missing agent_id"@)
    } else if args.agent_id->Some_0 != a.id as u64 {
        Err(spec_mismatch_message(a.id, args.agent_id->Some_0))
    } else if name == "move_agent"@ {
        match spec_move_validation(args) {
            Ok(_) => Ok(Seq::<char>::empty()),
            Err(m) => Err(m),
        }
    } else if name == "get_position"@ {
        Ok(spec_position_json(a.x as nat, a.y as nat))
    } else if name == "get_available_directions"@ {
        Ok(spec_available_directions_json(a, map))
    } else if name == "get_bearings"@ {
        Ok(spec_bearings_report(a, map, args.target))
    } else {
        Err("unknown tool: "@ + name)
    }
}

/// Whether a dispatched call queues a movement sequence instead of
/// finishing immediately.
pub open spec fn spec_dispatch_schedules(a: Agent, name: Seq<char>, args: ToolArgs) -> bool {
    &&& name == "move_agent"@
    &&& args.agent_id == Some(a.id as u64)
    &&& spec_move_validation(args) is Ok
}

/// The transcript grew by exactly one tool-result entry with the given
/// fields.
pub open spec fn spec_logs_plus_result(
    old_logs: Seq<LogEntry>,
    new_logs: Seq<LogEntry>,
    name: Seq<char>,
    success: bool,
    message: Seq<char>,
) -> bool {
    &&& new_logs.len() == old_logs.len() + 1
    &&& new_logs.last() matches LogEntry::ToolResult { name: n, success: su, message: m } && n@
        == name && su == success && m@ == message
    &&& forall|i: int| 0 <= i < old_logs.len() ==> new_logs[i] == old_logs[i]
}

impl Agent {
    /// Handle a tool call for this agent: the two meta tools answer
    /// directly; every other tool first passes the subject-identity
    /// check, and its outcome is logged as a tool-result entry.
    #[verifier::rlimit(60)]
    pub fn handle_tool_call(&mut self, name: &str, args: &ToolArgs, map: &GridMap) -> (r: Result<
        String,
        String,
    >)
        requires
            map.wf(),
            old(self).x < map.width,
            old(self).y < map.height,
        ensures
            final(self).x == old(self).x,
            final(self).y == old(self).y,
            final(self).id == old(self).id,
            final(self).name == old(self).name,
            final(self).chat_history == old(self).chat_history,
            final(self).max_history_messages == old(self).max_history_messages,
            final(self).enabled_tools == old(self).enabled_tools,
            final(self).tool_registry == old(self).tool_registry,
            match spec_dispatch(*old(self), *map, name@, *args) {
                Ok(reply) => r matches Ok(v) && v@ == reply,
                Err(error) => r matches Err(v) && v@ == error,
            },
            final(self).pending_moves@ == (if spec_dispatch_schedules(*old(self), name@, *args) {
                spec_move_validation(*args)->Ok_0
            } else {
                old(self).pending_moves@
            }),
            final(self).movement_active == (spec_dispatch_schedules(*old(self), name@, *args)
                || old(self).movement_active),
            name@ == "get_map_state"@ ==> *final(self) == *old(self) && (r matches Ok(s) && s@
                == spec_map_report(*old(self), *map, args.area, args.visibility)),
            name@ == "think"@ ==> *final(self) == *old(self) && (r matches Ok(s) && s@
                == spec_think_reply(*args)),
            spec_needs_id(name@) && args.agent_id is None ==> *final(self) == *old(self) && (
            r matches Err(e) && e@ == "missing agent_id"@),
            spec_needs_id(name@) ==> (match args.agent_id {
                Some(got) => got != old(self).id as u64 ==> ({
                    &&& r matches Err(e) && e@ == spec_mismatch_message(old(self).id, got)
                    &&& spec_logs_plus_result(
                        old(self).logs@,
                        final(self).logs@,
                        name@,
                        false,
                        spec_mismatch_message(old(self).id, got),
                    )
                    &&& final(self).pending_moves == old(self).pending_moves
                    &&& final(self).movement_active == old(self).movement_active
                    &&& final(self).current_target == old(self).current_target
                }),
                None => true,
            }),
            args.agent_id == Some(old(self).id as u64) && name@ == "move_agent"@ ==> match
                spec_move_validation(*args) {
                Ok(dirs) => {
                    &&& r matches Ok(s) && s@ == Seq::<char>::empty()
                    &&& final(self).pending_moves@ == dirs
                    &&& final(self).movement_active
                    &&& final(self).current_target == args.target
                    &&& final(self).logs@.len() == old(self).logs@.len() + 2
                    &&& final(self).logs@[old(self).logs@.len() as int] matches LogEntry::Info(m)
                        && m@ == spec_prep_message(*args, *old(self))
                    &&& final(self).logs@.last() matches LogEntry::ToolResult {
                        name: n,
                        success: su,
                        message: m,
                    } && n@ == name@ && su == true && m@ == Seq::<char>::empty()
                    &&& forall|i: int|
                        0 <= i < old(self).logs@.len() ==> #[trigger] final(self).logs@[i] == old(
                            self,
                        ).logs@[i]
                },
                Err(msg) => {
                    &&& r matches Err(e) && e@ == msg
                    &&& final(self).pending_moves == old(self).pending_moves
                    &&& final(self).movement_active == old(self).movement_active
                    &&& final(self).current_target == spec_move_target_after(
                        *args,
                        old(self).current_target,
                    )
                    &&& spec_logs_plus_result(old(self).logs@, final(self).logs@, name@, false, msg)
                },
            },
            args.agent_id == Some(old(self).id as u64) && name@ == "get_position"@ ==> {
                &&& r matches Ok(s) && s@ == spec_position_json(
                    old(self).x as nat,
                    old(self).y as nat,
                )
                &&& spec_logs_plus_result(
                    old(self).logs@,
                    final(self).logs@,
                    name@,
                    true,
                    spec_position_json(old(self).x as nat, old(self).y as nat),
                )
                &&& final(self).pending_moves == old(self).pending_moves
                &&& final(self).movement_active == old(self).movement_active
                &&& final(self).current_target == old(self).current_target
            },
            args.agent_id == Some(old(self).id as u64) && name@ == "get_available_directions"@
                ==> {
                &&& r matches Ok(s) && s@ == spec_available_directions_json(*old(self), *map)
                &&& spec_logs_plus_result(
                    old(self).logs@,
                    final(self).logs@,
                    name@,
                    true,
                    spec_available_directions_json(*old(self), *map),
                )
                &&& final(self).pending_moves == old(self).pending_moves
                &&& final(self).movement_active == old(self).movement_active
                &&& final(self).current_target == old(self).current_target
            },
            args.agent_id == Some(old(self).id as u64) && name@ == "get_bearings"@ ==> {
                &&& r matches Ok(s) && s@ == spec_bearings_report(*old(self), *map, args.target)
                &&& spec_logs_plus_result(
                    old(self).logs@,
                    final(self).logs@,
                    name@,
                    true,
                    spec_bearings_report(*old(self), *map, args.target),
                )
                &&& final(self).pending_moves == old(self).pending_moves
                &&& final(self).movement_active == old(self).movement_active
                &&& final(self).current_target == args.target
            },
            args.agent_id == Some(old(self).id as u64) && spec_needs_id(name@) && name@
                != "move_agent"@ && name@ != "get_position"@ && name@
                != "get_available_directions"@ && name@ != "get_bearings"@ ==> {
                &&& r matches Err(e) && e@ == "unknown tool: "@ + name@
                &&& spec_logs_plus_result(
                    old(self).logs@,
                    final(self).logs@,
                    name@,
                    false,
                    "unknown tool: "@ + name@,
                )
                &&& final(self).pending_moves == old(self).pending_moves
                &&& final(self).movement_active == old(self).movement_active
                &&& final(self).current_target == old(self).current_target
            },
    {
        proof {
            reveal_strlit("get_map_state");
            reveal_strlit("think");
            reveal_strlit("move_agent");
            reveal_strlit("get_position");
            reveal_strlit("get_available_directions");
            reveal_strlit("get_bearings");
            assert("get_map_state"@.len() == 13);
            assert("think"@.len() == 5);
            assert("move_agent"@.len() == 10);
            assert("get_position"@.len() == 12);
            assert("get_available_directions"@.len() == 24);
            assert("get_bearings"@.len() == 12);
            assert("get_bearings"@[4] == 'b');
            assert("get_position"@[4] == 'p');
        }
        // The two read-only meta tools skip the identity check.
        if str_eq(name, "get_map_state") {
            return Ok(self.map_state_report(map, args.area, args.visibility));
        }
        if str_eq(name, "think") {
            let mut reply = String::from_str("Recorded thoughts: ");
            match &args.thoughts {
                Some(t) => reply.append(t.as_str()),
                None => reply.append("(empty thoughts)"),
            }
            return Ok(reply);
        }
        // Verify the caller speaks for this subject.
        let got = match args.agent_id {
            None => {
                return Err(String::from_str("missing agent_id"));
            },
            Some(v) => v,
        };
        if got != self.id as u64 {
            let mut e = String::from_str("agent id mismatch: expected ");
            push_u64(&mut e, self.id as u64);
            e.append(", got ");
            push_u64(&mut e, got);
            let logged = e.clone();
            self.logs.push(
                LogEntry::ToolResult { name: name.to_owned(), success: false, message: logged },
            );
            return Err(e);
        }
        if str_eq(name, "move_agent") {
            match self.handle_move_agent_tool(args) {
                Ok(msg) => {
                    let logged = msg.clone();
                    self.logs.push(
                        LogEntry::ToolResult {
                            name: name.to_owned(),
                            success: true,
                            message: logged,
                        },
                    );
                    Ok(msg)
                },
                Err(e) => {
                    let logged = e.clone();
                    self.logs.push(
                        LogEntry::ToolResult {
                            name: name.to_owned(),
                            success: false,
                            message: logged,
                        },
                    );
                    Err(e)
                },
            }
        } else if str_eq(name, "get_position") {
            let reply = self.handle_get_position_tool();
            let logged = reply.clone();
            self.logs.push(
                LogEntry::ToolResult { name: name.to_owned(), success: true, message: logged },
            );
            Ok(reply)
        } else if str_eq(name, "get_available_directions") {
            let reply = self.handle_get_available_directions_tool(map);
            let logged = reply.clone();
            self.logs.push(
                LogEntry::ToolResult { name: name.to_owned(), success: true, message: logged },
            );
            Ok(reply)
        } else if str_eq(name, "get_bearings") {
            let reply = self.handle_get_bearings_tool(args, map);
            let logged = reply.clone();
            self.logs.push(
                LogEntry::ToolResult { name: name.to_owned(), success: true, message: logged },
            );
            Ok(reply)
        } else {
            let mut e = String::from_str("unknown tool: ");
            e.append(name);
            let logged = e.clone();
            self.logs.push(
                LogEntry::ToolResult { name: name.to_owned(), success: false, message: logged },
            );
            Err(e)
        }
    }
}

/// The fixed closing text of the system prompt.
pub open spec fn spec_prompt_tail() -> Seq<char> {
    "\nTILE TRAVERSABILITY:\n- TRAVERSABLE (you can move through): empty, grass, sand\n- BLOCKING (you cannot move through): wall, water, tree\n\nMovement will fail if you try to move onto a blocking tile or outside the map boundaries.\n\nIMPORTANT: Use 'get_map_state' tool to see the current map before planning movement.\nFor efficient path finding, use the 'area' parameter to focus on specific regions:\n- Use 'area': {\"x\": X, \"y\": Y} to view a 7x7 area around coordinate (X,Y)\n- Use 'visibility': N (1-10) to limit view distance from your position\n- Smaller visibility values reduce complexity and speed up planning\n- Focus on areas near your target or along your planned route\n\nUse 'think' tool to plan your path, especially when:\n- Navigating around obstacles\n- Planning multi-step routes\n- Analyzing the map layout\nThe think tool helps you reason through complex navigation problems.\n\nUse 'get_bearings' tool when you're stuck or need navigation help:\n- Get information about obstacles and open directions\n- Set a target coordinate for better navigation hints\n- If you're stuck, try picking a different target coordinate!"@
}

/// The system prompt sent with each model round.
pub open spec fn spec_system_prompt(a: Agent, map: GridMap) -> Seq<char> {
    "You are a tool-using agent named '"@ + a.name@ + "' (ID: "@ + spec_dec(a.id as nat)
        + "). Decide on ONE tool call to best accomplish the user's instruction. Return only a tool call with complete JSON arguments.\n\nCurrent position: ("@
        + spec_dec(a.x as nat) + ", "@ + spec_dec(a.y as nat) + ")\nMap dimensions: "@ + spec_dec(
        map.width as nat,
    ) + "x"@ + spec_dec(map.height as nat)
        + " (width x height)\nCoordinate system: (0,0) is top-left corner\n"@ + spec_prompt_tail()
}

/// The hint offered to the model after a failed movement towards a
/// recorded target.
pub open spec fn spec_navigation_hint(a: Agent, map: GridMap, t: (usize, usize)) -> Seq<char> {
    "NAVIGATION HINT: Target at ("@ + spec_dec(t.0 as nat) + ", "@ + spec_dec(t.1 as nat)
        + "). "@ + "You're at ("@ + spec_dec(a.x as nat) + ", "@ + spec_dec(a.y as nat) + "). "@
        + "Distance: "@ + spec_dec(spec_distance(a, t)) + " steps ("@ + spec_dec(
        (if t.0 >= a.x {
            t.0 - a.x
        } else {
            a.x - t.0
        }) as nat,
    ) + " east/west, "@ + spec_dec(
        (if t.1 >= a.y {
            t.1 - a.y
        } else {
            a.y - t.1
        }) as nat,
    ) + " north/south). "@ + (if spec_blocked_names(a, map).len() > 0 {
        "Blocked: "@ + spec_join(spec_blocked_names(a, map), ", "@) + ". "@
    } else {
        Seq::<char>::empty()
    }) + (if spec_open_compass_names(a, map).len() > 0 {
        "Open directions: "@ + spec_join(spec_open_compass_names(a, map), ", "@) + ". "@
            + "Consider using 'think' tool to plan an alternate route."@
    } else {
        Seq::<char>::empty()
    })
}

impl Agent {
    /// Generate the system prompt for the current position and map.
    pub fn generate_system_prompt(&self, map: &GridMap) -> (r: String)
        ensures
            r@ == spec_system_prompt(*self, *map),
    {
        let mut s = String::from_str("You are a tool-using agent named '");
        s.append(self.name.as_str());
        s.append("' (ID: ");
        push_u64(&mut s, self.id as u64);
        s.append(
            "). Decide on ONE tool call to best accomplish the user's instruction. Return only a tool call with complete JSON arguments.\n\nCurrent position: (",
        );
        push_usize(&mut s, self.x);
        s.append(", ");
        push_usize(&mut s, self.y);
        s.append(")\nMap dimensions: ");
        push_usize(&mut s, map.width());
        s.append("x");
        push_usize(&mut s, map.height());
        s.append(" (width x height)\nCoordinate system: (0,0) is top-left corner\n");
        s.append(
            "\nTILE TRAVERSABILITY:\n- TRAVERSABLE (you can move through): empty, grass, sand\n- BLOCKING (you cannot move through): wall, water, tree\n\nMovement will fail if you try to move onto a blocking tile or outside the map boundaries.\n\nIMPORTANT: Use 'get_map_state' tool to see the current map before planning movement.\nFor efficient path finding, use the 'area' parameter to focus on specific regions:\n- Use 'area': {\"x\": X, \"y\": Y} to view a 7x7 area around coordinate (X,Y)\n- Use 'visibility': N (1-10) to limit view distance from your position\n- Smaller visibility values reduce complexity and speed up planning\n- Focus on areas near your target or along your planned route\n\nUse 'think' tool to plan your path, especially when:\n- Navigating around obstacles\n- Planning multi-step routes\n- Analyzing the map layout\nThe think tool helps you reason through complex navigation problems.\n\nUse 'get_bearings' tool when you're stuck or need navigation help:\n- Get information about obstacles and open directions\n- Set a target coordinate for better navigation hints\n- If you're stuck, try picking a different target coordinate!",
        );
        proof {
            assert(s@ =~= spec_system_prompt(*self, *map));
        }
        s
    }

    /// Generate a navigation hint after errors, when a target was
    /// recorded: where the target lies, what blocks the way, and which
    /// directions are open.
    #[verifier::rlimit(100)]
    #[verifier::spinoff_prover]
    pub fn generate_navigation_hint(&self, map: &GridMap, had_errors: bool) -> (r: Option<String>)
        requires
            map.wf(),
            self.x < map.width,
            self.y < map.height,
        ensures
            match (had_errors, self.current_target) {
                (true, Some(t)) => r matches Some(s) && s@ == spec_navigation_hint(
                    *self,
                    *map,
                    t,
                ),
                _ => r is None,
            },
    {
        if !had_errors {
            return None;  // No hint needed if successful
        }
        let t = match self.current_target {
            Some(t) => t,
            None => {
                return None;  // No target recorded, nothing to aim for
            },
        };
        let mut s = String::from_str("NAVIGATION HINT: Target at (");
        push_usize(&mut s, t.0);
        s.append(", ");
        push_usize(&mut s, t.1);
        s.append("). ");
        s.append("You're at (");
        push_usize(&mut s, self.x);
        s.append(", ");
        push_usize(&mut s, self.y);
        s.append("). ");
        let ghost part1 = "NAVIGATION HINT: Target at ("@ + spec_dec(t.0 as nat) + ", "@
            + spec_dec(t.1 as nat) + "). "@ + "You're at ("@ + spec_dec(self.x as nat) + ", "@
            + spec_dec(self.y as nat) + "). "@;
        proof {
            assert(s@ =~= part1);
        }
        s.append("Distance: ");
        let dist_x: usize = if t.0 >= self.x {
            t.0 - self.x
        } else {
            self.x - t.0
        };
        let dist_y: usize = if t.1 >= self.y {
            t.1 - self.y
        } else {
            self.y - t.1
        };
        push_u128(&mut s, dist_x as u128 + dist_y as u128);
        s.append(" steps (");
        push_usize(&mut s, dist_x);
        s.append(" east/west, ");
        push_usize(&mut s, dist_y);
        s.append(" north/south). ");
        let ghost head = part1 + "Distance: "@ + spec_dec(spec_distance(*self, t)) + " steps ("@
            + spec_dec(dist_x as nat) + " east/west, "@ + spec_dec(dist_y as nat)
            + " north/south). "@;
        proof {
            assert(s@ =~= head);
        }
        let ghost blocked_spec = spec_blocked_names(*self, *map);
        let ghost open_spec = spec_open_compass_names(*self, *map);
        let (blocked, open) = self.survey_directions(map);
        if blocked.len() > 0 {
            s.append("Blocked: ");
            push_joined(&mut s, &blocked, ", ");
            s.append(". ");
        }
        let ghost mid = head + (if blocked_spec.len() > 0 {
            "Blocked: "@ + spec_join(blocked_spec, ", "@) + ". "@
        } else {
            Seq::<char>::empty()
        });
        proof {
            assert(s@ =~= mid);
        }
        if open.len() > 0 {
            s.append("Open directions: ");
            push_joined(&mut s, &open, ", ");
            s.append(". ");
            s.append("Consider using 'think' tool to plan an alternate route.");
        }
        proof {
            let tail_part = if open_spec.len() > 0 {
                "Open directions: "@ + spec_join(open_spec, ", "@) + ". "@
                    + "Consider using 'think' tool to plan an alternate route."@
            } else {
                Seq::<char>::empty()
            };
            assert(s@ =~= mid + tail_part);
            assert(head =~= "NAVIGATION HINT: Target at ("@ + spec_dec(t.0 as nat) + ", "@
                + spec_dec(t.1 as nat) + "). "@ + "You're at ("@ + spec_dec(self.x as nat) + ", "@
                + spec_dec(self.y as nat) + "). "@ + "Distance: "@ + spec_dec(spec_distance(*self, t))
                + " steps ("@ + spec_dec(dist_x as nat) + " east/west, "@ + spec_dec(dist_y as nat)
                + " north/south). "@);
            assert(mid + tail_part =~= spec_navigation_hint(*self, *map, t));
        }
        Some(s)
    }
}

/// A successful step parse yields one direction per listed step.
pub proof fn lemma_parse_steps_len(st: Seq<Option<String>>, i: int)
    requires
        0 <= i <= st.len(),
    ensures
        spec_parse_steps_from(st, i) matches Ok(d) ==> d.len() == st.len() - i,
    decreases st.len() - i,
{
    if i < st.len() {
        lemma_parse_steps_len(st, i + 1);
    }
}

/// The minimap depends only on the subject's position, not on its other
/// state.
proof fn lemma_minimap_rows_position_only(
    a: Agent,
    b: Agent,
    map: GridMap,
    vx: int,
    vw: int,
    vy: int,
    rows: int,
)
    requires
        a.x == b.x,
        a.y == b.y,
    ensures
        spec_minimap_rows(a, map, vx, vw, vy, rows) == spec_minimap_rows(b, map, vx, vw, vy, rows),
    decreases rows,
{
    if rows > 0 {
        lemma_minimap_rows_position_only(a, b, map, vx, vw, vy, rows - 1);
        assert(Seq::new(vw as nat, |i: int| spec_map_cell(a, map, vx + i, vy + rows - 1)) =~= Seq::new(
            vw as nat,
            |i: int| spec_map_cell(b, map, vx + i, vy + rows - 1),
        ));
    }
}

/// A dispatched reply depends only on the subject's identity and
/// position: two agent values that agree on those get the same reply for
/// every tool call.
pub proof fn lemma_dispatch_position_only(
    a: Agent,
    b: Agent,
    map: GridMap,
    name: Seq<char>,
    args: ToolArgs,
)
    requires
        a.x == b.x,
        a.y == b.y,
        a.id == b.id,
    ensures
        spec_dispatch(a, map, name, args) == spec_dispatch(b, map, name, args),
{
    let ba = spec_view_bounds(a, map, args.area, args.visibility);
    assert(ba == spec_view_bounds(b, map, args.area, args.visibility));
    lemma_minimap_rows_position_only(a, b, map, ba.0, ba.2, ba.1, ba.3);
    assert(spec_map_report(a, map, args.area, args.visibility) == spec_map_report(
        b,
        map,
        args.area,
        args.visibility,
    ));
    assert(spec_dir_open(a, map, Direction::Up) == spec_dir_open(b, map, Direction::Up));
    assert(spec_dir_open(a, map, Direction::Down) == spec_dir_open(b, map, Direction::Down));
    assert(spec_dir_open(a, map, Direction::Left) == spec_dir_open(b, map, Direction::Left));
    assert(spec_dir_open(a, map, Direction::Right) == spec_dir_open(b, map, Direction::Right));
    assert(spec_open_dir_names(a, map) == spec_open_dir_names(b, map));
    assert(spec_available_directions_json(a, map) == spec_available_directions_json(b, map));
    assert(spec_blocked_entry(a, map, Direction::Up) == spec_blocked_entry(b, map, Direction::Up));
    assert(spec_blocked_entry(a, map, Direction::Down) == spec_blocked_entry(
        b,
        map,
        Direction::Down,
    ));
    assert(spec_blocked_entry(a, map, Direction::Left) == spec_blocked_entry(
        b,
        map,
        Direction::Left,
    ));
    assert(spec_blocked_entry(a, map, Direction::Right) == spec_blocked_entry(
        b,
        map,
        Direction::Right,
    ));
    assert(spec_blocked_names(a, map) == spec_blocked_names(b, map));
    assert(spec_open_compass_names(a, map) == spec_open_compass_names(b, map));
    assert(spec_blocked_json_entry(a, map, Direction::Up) == spec_blocked_json_entry(
        b,
        map,
        Direction::Up,
    ));
    assert(spec_blocked_json_entry(a, map, Direction::Down) == spec_blocked_json_entry(
        b,
        map,
        Direction::Down,
    ));
    assert(spec_blocked_json_entry(a, map, Direction::Left) == spec_blocked_json_entry(
        b,
        map,
        Direction::Left,
    ));
    assert(spec_blocked_json_entry(a, map, Direction::Right) == spec_blocked_json_entry(
        b,
        map,
        Direction::Right,
    ));
    assert(spec_blocked_json_entries(a, map) == spec_blocked_json_entries(b, map));
    assert(spec_open_json_names(a, map) == spec_open_json_names(b, map));
    match args.target {
        Some(t) => {
            assert(spec_distance(a, t) == spec_distance(b, t));
            assert(spec_target_json(a, t) == spec_target_json(b, t));
        },
        None => {},
    }
    assert(spec_advice_items(a, map, args.target) == spec_advice_items(b, map, args.target));
    assert(spec_bearings_report(a, map, args.target) == spec_bearings_report(b, map, args.target));
}

} // verus!