use grid_agent::agent::Agent;
use grid_agent::map::GridMap;
use grid_agent::map::TileKind;
use grid_agent::tools::ToolArgs;

fn plain_args() -> ToolArgs {
    ToolArgs {
        agent_id: Some(1),
        steps: None,
        target: None,
        thoughts: None,
        area: None,
        visibility: None,
    }
}

#[test]
fn get_position_reports_coordinates_as_json() {
    let agent = Agent::new(1, String::from("Scout"), 12, 7);
    assert_eq!(agent.handle_get_position_tool(), "{\"x\":12,\"y\":7}");
}

#[test]
fn available_directions_lists_open_moves_in_fixed_order() {
    let mut map = GridMap::new(5, 5, TileKind::Grass);
    map.set(2, 1, TileKind::Wall);  // blocks up from (2,2)
    let agent = Agent::new(1, String::from("Scout"), 2, 2);
    let reply = agent.handle_get_available_directions_tool(&map);
    assert_eq!(
        reply,
        "{\"position\":{\"x\":2,\"y\":2},\"available_directions\":[\"down\",\"left\",\"right\"]}"
    );
}

#[test]
fn available_directions_from_a_corner() {
    let map = GridMap::new(5, 5, TileKind::Grass);
    let agent = Agent::new(1, String::from("Scout"), 0, 0);
    let reply = agent.handle_get_available_directions_tool(&map);
    assert_eq!(
        reply,
        "{\"position\":{\"x\":0,\"y\":0},\"available_directions\":[\"down\",\"right\"]}"
    );
}

#[test]
fn think_tool_echoes_the_thoughts() {
    let map = GridMap::new(5, 5, TileKind::Grass);
    let mut agent = Agent::new(1, String::from("Scout"), 2, 2);
    let args = ToolArgs { thoughts: Some(String::from("plan a route")), ..plain_args() };
    let r = agent.handle_tool_call("think", &args, &map);
    assert_eq!(r, Ok(String::from("Recorded thoughts: plan a route")));
    let r2 = agent.handle_tool_call("think", &plain_args(), &map);
    assert_eq!(r2, Ok(String::from("Recorded thoughts: (empty thoughts)")));
}

#[test]
fn missing_agent_id_is_rejected() {
    let map = GridMap::new(5, 5, TileKind::Grass);
    let mut agent = Agent::new(1, String::from("Scout"), 2, 2);
    let args = ToolArgs { agent_id: None, ..plain_args() };
    let r = agent.handle_tool_call("get_position", &args, &map);
    assert_eq!(r, Err(String::from("missing agent_id")));
}

#[test]
fn move_agent_validates_the_step_list() {
    let map = GridMap::new(5, 5, TileKind::Grass);
    let mut agent = Agent::new(1, String::from("Scout"), 2, 2);
    let r = agent.handle_tool_call("move_agent", &plain_args(), &map);
    assert_eq!(r, Err(String::from("missing steps")));

    let empty = ToolArgs { steps: Some(vec![]), ..plain_args() };
    assert_eq!(
        agent.handle_tool_call("move_agent", &empty, &map),
        Err(String::from("steps must be 1..=5"))
    );

    let too_many = ToolArgs {
        steps: Some(vec![
            Some(String::from("up")),
            Some(String::from("up")),
            Some(String::from("up")),
            Some(String::from("up")),
            Some(String::from("up")),
            Some(String::from("up")),
        ]),
        ..plain_args()
    };
    assert_eq!(
        agent.handle_tool_call("move_agent", &too_many, &map),
        Err(String::from("steps must be 1..=5"))
    );

    let non_string = ToolArgs { steps: Some(vec![None]), ..plain_args() };
    assert_eq!(
        agent.handle_tool_call("move_agent", &non_string, &map),
        Err(String::from("step must be string"))
    );

    let bad_word = ToolArgs { steps: Some(vec![Some(String::from("north"))]), ..plain_args() };
    assert_eq!(
        agent.handle_tool_call("move_agent", &bad_word, &map),
        Err(String::from("Invalid direction: north"))
    );

    let good = ToolArgs {
        steps: Some(vec![Some(String::from("up")), Some(String::from("LEFT"))]),
        target: Some((4, 0)),
        ..plain_args()
    };
    assert_eq!(agent.handle_tool_call("move_agent", &good, &map), Ok(String::new()));
    assert!(agent.is_moving());
    let moves = agent.take_pending_moves();
    assert_eq!(
        moves,
        vec![grid_agent::agent::Direction::Up, grid_agent::agent::Direction::Left]
    );
    assert!(!agent.is_moving());
    assert_eq!(agent.current_target, Some((4, 0)));
}

#[test]
fn bearings_report_names_obstacles_and_open_directions() {
    let mut map = GridMap::new(5, 5, TileKind::Grass);
    map.set(2, 1, TileKind::Water);  // north of (2,2)
    let mut agent = Agent::new(1, String::from("Scout"), 2, 2);
    let args = ToolArgs { target: Some((4, 4)), ..plain_args() };
    let reply = agent.handle_tool_call("get_bearings", &args, &map).unwrap();
    let expected = "{\"position\":{\"x\":2,\"y\":2},\"target\":{\"x\":4,\"y\":4,\"distance\":4,\"delta_x\":2,\"delta_y\":2},\"blocking_directions\":[{\"direction\":\"north\",\"reason\":\"obstacle\",\"tile\":\"water\"}],\"open_directions\":[\"south\",\"west\",\"east\"],\"advice\":[\"You have open directions available.\",\"If you're stuck, try picking a different target coordinate with the 'move_agent' tool.\"]}";
    assert_eq!(reply, expected);
    assert_eq!(agent.current_target, Some((4, 4)));
}

#[test]
fn bearings_without_a_target_suggests_setting_one() {
    let map = GridMap::new(3, 3, TileKind::Grass);
    let mut agent = Agent::new(1, String::from("Scout"), 0, 0);
    let reply = agent.handle_tool_call("get_bearings", &plain_args(), &map).unwrap();
    let expected = "{\"position\":{\"x\":0,\"y\":0},\"blocking_directions\":[{\"direction\":\"north\",\"reason\":\"map_edge\"},{\"direction\":\"west\",\"reason\":\"map_edge\"}],\"open_directions\":[\"south\",\"east\"],\"advice\":[\"You have open directions available.\",\"Consider specifying a target coordinate when moving to get better navigation hints.\"]}";
    assert_eq!(reply, expected);
}

#[test]
fn map_state_report_draws_the_minimap() {
    let mut map = GridMap::new(3, 3, TileKind::Grass);
    map.set(1, 0, TileKind::Wall);
    map.set(2, 2, TileKind::Water);
    map.set(0, 2, TileKind::Trail);
    let mut agent = Agent::new(1, String::from("Scout"), 1, 1);
    let reply = agent.handle_tool_call("get_map_state", &plain_args(), &map).unwrap();
    let expected = "Map View (3x3 area at (0, 0))\nAgent at (1, 1) in full map (3x3)\nVisibility used: 5\n\n,#,\n,@,\n*,~\n\nLegend: @=agent, .=empty, ,=grass, ~=water, #=wall, T=tree, s=sand, *=trail\n";
    assert_eq!(reply, expected);
}

#[test]
fn map_state_report_clips_to_the_requested_area() {
    let map = GridMap::new(20, 20, TileKind::Sand);
    let mut agent = Agent::new(1, String::from("Scout"), 0, 0);
    let args = ToolArgs { area: Some((10, 10)), ..plain_args() };
    let reply = agent.handle_tool_call("get_map_state", &args, &map).unwrap();
    assert!(reply.starts_with("Map View (7x7 area at (7, 7))\n"));
    assert!(reply.contains("Area center: (10, 10)\n"));
}

#[test]
fn navigation_hint_appears_only_after_errors_with_a_target() {
    let mut map = GridMap::new(5, 5, TileKind::Grass);
    map.set(3, 2, TileKind::Tree);
    let mut agent = Agent::new(1, String::from("Scout"), 2, 2);
    assert!(agent.generate_navigation_hint(&map, true).is_none(), "no target yet");
    let args = ToolArgs { target: Some((4, 2)), ..plain_args() };
    agent.handle_tool_call("get_bearings", &args, &map).unwrap();
    assert!(agent.generate_navigation_hint(&map, false).is_none(), "no errors");
    let hint = agent.generate_navigation_hint(&map, true).unwrap();
    let expected = "NAVIGATION HINT: Target at (4, 2). You're at (2, 2). Distance: 2 steps (2 east/west, 0 north/south). Blocked: east (tree). Open directions: north, south, west. Consider using 'think' tool to plan an alternate route.";
    assert_eq!(hint, expected);
}

#[test]
fn tile_names_hide_the_trail() {
    assert_eq!(TileKind::Trail.name(), "grass");
    assert_eq!(TileKind::Wall.name(), "wall");
    assert_eq!(TileKind::Custom(3).name(), "custom");
    assert!(TileKind::Sand.is_traversable());
    assert!(TileKind::Water.is_blocking());
}

#[test]
fn bearings_with_a_target_behind_reports_negative_deltas() {
    let map = GridMap::new(5, 5, TileKind::Grass);
    let mut agent = Agent::new(1, String::from("Scout"), 2, 2);
    let args = ToolArgs { target: Some((1, 0)), ..plain_args() };
    let reply = agent.handle_tool_call("get_bearings", &args, &map).unwrap();
    assert!(reply.contains("\"target\":{\"x\":1,\"y\":0,\"distance\":3,\"delta_x\":-1,\"delta_y\":-2}"));
}

#[test]
fn decimal_text_helpers_format_exactly() {
    assert_eq!(grid_agent::textfmt::u64_to_string(0), "0");
    assert_eq!(grid_agent::textfmt::u64_to_string(7), "7");
    assert_eq!(grid_agent::textfmt::u64_to_string(1234567890), "1234567890");
    assert_eq!(grid_agent::textfmt::usize_to_string(100), "100");
}

#[test]
fn enabling_an_enabled_tool_adds_no_duplicate() {
    let mut agent = Agent::new(1, String::from("Scout"), 0, 0);
    assert_eq!(agent.get_enabled_tools().len(), 6);
    assert!(agent.enable_tool("think"));
    assert_eq!(agent.get_enabled_tools().len(), 6);
    assert!(agent.disable_tool("think"));
    assert!(!agent.disable_tool("think"), "already disabled");
    assert_eq!(agent.get_enabled_tools().len(), 5);
}

#[test]
fn visibility_parameter_narrows_the_view() {
    let map = GridMap::new(20, 20, TileKind::Grass);
    let mut agent = Agent::new(1, String::from("Scout"), 10, 10);
    let args = ToolArgs { visibility: Some(1), ..plain_args() };
    let reply = agent.handle_tool_call("get_map_state", &args, &map).unwrap();
    assert!(reply.starts_with("Map View (3x3 area at (9, 9))\n"));
    assert!(reply.contains("Visibility used: 1\n"));
    // Out-of-range values are clamped.
    let wide = ToolArgs { visibility: Some(99), ..plain_args() };
    let reply2 = agent.handle_tool_call("get_map_state", &wide, &map).unwrap();
    assert!(reply2.contains("Visibility used: 10\n"));
}
