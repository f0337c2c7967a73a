//! Map editing: the editor's interaction state and its operations on the
//! map and the agent.

use vstd::prelude::*;
use vstd::string::*;
use crate::agent::Agent;
use crate::agent::LogEntry;
use crate::map::GridMap;
use crate::map::TileKind;
use crate::textfmt::push_usize;
use crate::textfmt::spec_dec;

verus! {

/// State for map editing functionality.
#[derive(Debug)]
pub struct EditorState {
    /// Whether edit mode is currently active.
    pub edit_mode: bool,
    /// Currently selected tile type for painting.
    pub selected_edit_tile: TileKind,
    /// Target width for map resize operations.
    pub edit_map_width: usize,
    /// Target height for map resize operations.
    pub edit_map_height: usize,
    /// Whether the user is in agent placement mode.
    pub placing_agent: bool,
    /// Map name for metadata.
    pub map_name: String,
    /// Map description for metadata.
    pub map_description: String,
}

impl EditorState {
    pub fn new(initial_map_width: usize, initial_map_height: usize) -> (r: Self)
        ensures
            !r.edit_mode,
            r.selected_edit_tile == TileKind::Grass,
            r.edit_map_width == initial_map_width,
            r.edit_map_height == initial_map_height,
            !r.placing_agent,
            r.map_name@.len() == 0,
            r.map_description@.len() == 0,
    {
        EditorState {
            edit_mode: false,
            selected_edit_tile: TileKind::Grass,
            edit_map_width: initial_map_width,
            edit_map_height: initial_map_height,
            placing_agent: false,
            map_name: String::new(),
            map_description: String::new(),
        }
    }

    /// Toggle edit mode on/off.
    pub fn toggle_edit_mode(&mut self)
        ensures
            final(self).edit_mode == !old(self).edit_mode,
            final(self).selected_edit_tile == old(self).selected_edit_tile,
            final(self).edit_map_width == old(self).edit_map_width,
            final(self).edit_map_height == old(self).edit_map_height,
            final(self).placing_agent == old(self).placing_agent,
            final(self).map_name == old(self).map_name,
            final(self).map_description == old(self).map_description,
    {
        self.edit_mode = !self.edit_mode;
    }

    /// Set the selected tile type for painting; selecting a tile leaves
    /// agent placement mode.
    pub fn set_selected_tile(&mut self, tile: TileKind)
        ensures
            final(self).selected_edit_tile == tile,
            !final(self).placing_agent,
            final(self).edit_mode == old(self).edit_mode,
            final(self).edit_map_width == old(self).edit_map_width,
            final(self).edit_map_height == old(self).edit_map_height,
            final(self).map_name == old(self).map_name,
            final(self).map_description == old(self).map_description,
    {
        self.selected_edit_tile = tile;
        self.placing_agent = false;
    }

    /// Toggle agent placement mode.
    pub fn toggle_placing_agent(&mut self)
        ensures
            final(self).placing_agent == !old(self).placing_agent,
            final(self).edit_mode == old(self).edit_mode,
            final(self).selected_edit_tile == old(self).selected_edit_tile,
            final(self).edit_map_width == old(self).edit_map_width,
            final(self).edit_map_height == old(self).edit_map_height,
            final(self).map_name == old(self).map_name,
            final(self).map_description == old(self).map_description,
    {
        self.placing_agent = !self.placing_agent;
    }

    /// Exit agent placement mode (called after placing).
    pub fn exit_placement_mode(&mut self)
        ensures
            !final(self).placing_agent,
            final(self).edit_mode == old(self).edit_mode,
            final(self).selected_edit_tile == old(self).selected_edit_tile,
            final(self).edit_map_width == old(self).edit_map_width,
            final(self).edit_map_height == old(self).edit_map_height,
            final(self).map_name == old(self).map_name,
            final(self).map_description == old(self).map_description,
    {
        self.placing_agent = false;
    }

    /// Update target map dimensions.
    pub fn set_target_dimensions(&mut self, width: usize, height: usize)
        ensures
            final(self).edit_map_width == width,
            final(self).edit_map_height == height,
            final(self).edit_mode == old(self).edit_mode,
            final(self).selected_edit_tile == old(self).selected_edit_tile,
            final(self).placing_agent == old(self).placing_agent,
            final(self).map_name == old(self).map_name,
            final(self).map_description == old(self).map_description,
    {
        self.edit_map_width = width;
        self.edit_map_height = height;
    }

    /// Initialize metadata from an existing map.
    pub fn initialize_from_map(&mut self, map: &GridMap)
        ensures
            match map.metadata {
                Some(m) => final(self).map_name == m.name && final(self).map_description
                    == m.description,
                None => final(self).map_name@.len() == 0 && final(self).map_description@.len()
                    == 0,
            },
            final(self).edit_mode == old(self).edit_mode,
            final(self).selected_edit_tile == old(self).selected_edit_tile,
            final(self).edit_map_width == old(self).edit_map_width,
            final(self).edit_map_height == old(self).edit_map_height,
            final(self).placing_agent == old(self).placing_agent,
    {
        match &map.metadata {
            Some(metadata) => {
                self.map_name = metadata.name.clone();
                self.map_description = metadata.description.clone();
            },
            None => {
                self.map_name = String::new();
                self.map_description = String::new();
            },
        }
    }
}

/// Map editing operations.
#[derive(Debug)]
pub struct EditorOperations;

impl EditorOperations {
    /// Resize the map to new dimensions, preserving existing tiles where
    /// possible and filling new ground with grass; the agent is clamped
    /// back onto the map. Returns the new map and the new board
    /// dimension (the larger of width and height).
    pub fn resize_map(current_map: &GridMap, new_width: usize, new_height: usize, agent: &mut Agent) -> (r:
        (GridMap, usize))
        requires
            current_map.wf(),
        ensures
            r.0.wf(),
            r.0.width == new_width,
            r.0.height == new_height,
            forall|i: int, j: int|
                r.0.spec_in_bounds(i, j) ==> #[trigger] r.0.spec_tile(i, j) == (
                if current_map.spec_in_bounds(i, j) {
                    current_map.spec_tile(i, j)
                } else {
                    TileKind::Grass
                }),
            r.1 == (if new_width >= new_height {
                new_width as int
            } else {
                new_height as int
            }),
            final(agent).x == (if old(agent).x >= new_width && new_width > 0 {
                (new_width - 1) as int
            } else if old(agent).x >= new_width {
                0int
            } else {
                old(agent).x as int
            }),
            final(agent).y == (if old(agent).y >= new_height && new_height > 0 {
                (new_height - 1) as int
            } else if old(agent).y >= new_height {
                0int
            } else {
                old(agent).y as int
            }),
            final(agent).logs@.len() == old(agent).logs@.len() + 1,
            forall|i: int|
                0 <= i < old(agent).logs@.len() ==> #[trigger] final(agent).logs@[i] == old(
                    agent,
                ).logs@[i],
            final(agent).logs@.last() matches LogEntry::Info(m) && m@ == "Map resized to "@
                + spec_dec(new_width as nat) + "x"@ + spec_dec(new_height as nat),
            Agent::spec_same_except_motion(*final(agent), *old(agent)),
    {
        let mut new_map = GridMap::new(new_width, new_height, TileKind::Grass);

        // Copy as much of the old map as possible.
        let copy_width = if new_width < current_map.width() {
            new_width
        } else {
            current_map.width()
        };
        let copy_height = if new_height < current_map.height() {
            new_height
        } else {
            current_map.height()
        };
        let ghost m0 = new_map;
        let mut y: usize = 0;
        while y < copy_height
            invariant
                y <= copy_height,
                copy_width <= new_width,
                copy_width <= current_map.width,
                copy_height <= new_height,
                copy_height <= current_map.height,
                copy_width == (if new_width < current_map.width {
                    new_width as int
                } else {
                    current_map.width as int
                }),
                copy_height == (if new_height < current_map.height {
                    new_height as int
                } else {
                    current_map.height as int
                }),
                current_map.wf(),
                new_map.wf(),
                new_map.width == new_width,
                new_map.height == new_height,
                forall|i: int, j: int|
                    new_map.spec_in_bounds(i, j) ==> #[trigger] new_map.spec_tile(i, j) == (if 0
                        <= i < copy_width && 0 <= j < y {
                        current_map.spec_tile(i, j)
                    } else {
                        TileKind::Grass
                    }),
            decreases copy_height - y,
        {
            let mut x: usize = 0;
            while x < copy_width
                invariant
                    x <= copy_width,
                    y < copy_height,
                    copy_width <= new_width,
                    copy_width <= current_map.width,
                    copy_height <= new_height,
                    copy_height <= current_map.height,
                    current_map.wf(),
                    new_map.wf(),
                    new_map.width == new_width,
                    new_map.height == new_height,
                    forall|i: int, j: int|
                        new_map.spec_in_bounds(i, j) ==> #[trigger] new_map.spec_tile(i, j) == (
                        if (0 <= i < copy_width && 0 <= j < y) || (j == y && 0 <= i < x) {
                            current_map.spec_tile(i, j)
                        } else {
                            TileKind::Grass
                        }),
                decreases copy_width - x,
            {
                match current_map.get(x, y) {
                    Some(tile) => {
                        let t = *tile;
                        new_map.set(x, y, t);
                    },
                    None => {},
                }
                x = x + 1;
            }
            y = y + 1;
        }

        // Ensure the agent stays within bounds.
        if agent.x >= new_width {
            agent.x = if new_width > 0 {
                new_width - 1
            } else {
                0
            };
        }
        if agent.y >= new_height {
            agent.y = if new_height > 0 {
                new_height - 1
            } else {
                0
            };
        }

        let mut message = String::from_str("Map resized to ");
        push_usize(&mut message, new_width);
        message.append("x");
        push_usize(&mut message, new_height);
        agent.log(LogEntry::Info(message));

        let board_dim = if new_width >= new_height {
            new_width
        } else {
            new_height
        };
        (new_map, board_dim)
    }

    /// Fill the entire map with a single tile type.
    pub fn fill_all(map: &mut GridMap, tile: TileKind)
        requires
            old(map).wf(),
        ensures
            final(map).wf(),
            final(map).width == old(map).width,
            final(map).height == old(map).height,
            forall|i: int, j: int|
                final(map).spec_in_bounds(i, j) ==> #[trigger] final(map).spec_tile(i, j) == tile,
    {
        map.clear(tile);
    }
}

/// Handles board input while editing or playing.
#[derive(Debug)]
pub struct EditorInput;

impl EditorInput {
    /// Board input during edit mode: in agent placement mode, a press
    /// moves the agent to the clicked cell and leaves placement mode.
    pub fn handle_edit_input(
        editor_state: &mut EditorState,
        agent: &mut Agent,
        pressed: bool,
        col: usize,
        row: usize,
    )
        ensures
            old(editor_state).placing_agent && pressed ==> ({
                &&& final(agent).x == col && final(agent).y == row
                &&& !final(editor_state).placing_agent
                &&& final(agent).logs@.len() == old(agent).logs@.len() + 1
                &&& final(agent).logs@.last() matches LogEntry::Info(m) && m@
                    == "Agent moved to position ("@ + spec_dec(col as nat) + ", "@ + spec_dec(
                    row as nat,
                ) + ")"@
                &&& forall|i: int|
                    0 <= i < old(agent).logs@.len() ==> #[trigger] final(agent).logs@[i] == old(
                        agent,
                    ).logs@[i]
            }),
            !(old(editor_state).placing_agent && pressed) ==> *final(agent) == *old(agent)
                && *final(editor_state) == *old(editor_state),
            Agent::spec_same_except_motion(*final(agent), *old(agent)),
            final(editor_state).edit_mode == old(editor_state).edit_mode,
            final(editor_state).selected_edit_tile == old(editor_state).selected_edit_tile,
            final(editor_state).edit_map_width == old(editor_state).edit_map_width,
            final(editor_state).edit_map_height == old(editor_state).edit_map_height,
            final(editor_state).map_name == old(editor_state).map_name,
            final(editor_state).map_description == old(editor_state).map_description,
    {
        if editor_state.placing_agent {
            // Agent placement mode: react only to a press, not a drag.
            if pressed {
                agent.x = col;
                agent.y = row;
                let mut message = String::from_str("Agent moved to position (");
                push_usize(&mut message, col);
                message.append(", ");
                push_usize(&mut message, row);
                message.append(")");
                agent.log(LogEntry::Info(message));
                editor_state.exit_placement_mode();
            }
        }
    }

    /// Board input during play mode: clicking the agent selects it; a
    /// press anywhere else deselects it.
    pub fn handle_play_input(
        agent: &Agent,
        agent_selected: &mut bool,
        pressed: bool,
        col: usize,
        row: usize,
    )
        ensures
            *final(agent_selected) == (if row == agent.y && col == agent.x {
                true
            } else if pressed {
                false
            } else {
                *old(agent_selected)
            }),
    {
        if row == agent.y && col == agent.x {
            *agent_selected = true;
        } else if pressed {
            *agent_selected = false;
        }
    }
}

} // verus!
