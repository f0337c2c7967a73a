use grid_agent::agent::Agent;
use grid_agent::editor::EditorOperations;
use grid_agent::editor::EditorState;
use grid_agent::map::GridMap;
use grid_agent::map::MapMetadata;
use grid_agent::map::TileKind;
use grid_agent::map_type::MapType;

#[test]
fn new_map_is_filled_and_sized() {
    let map = GridMap::new(4, 3, TileKind::Sand);
    assert_eq!(map.width(), 4);
    assert_eq!(map.height(), 3);
    assert!(map.in_bounds(3, 2));
    assert!(!map.in_bounds(4, 2));
    for y in 0..3 {
        for x in 0..4 {
            assert_eq!(map.get(x, y), Some(&TileKind::Sand));
        }
    }
    assert_eq!(map.get(4, 0), None);
}

#[test]
fn set_writes_only_in_bounds() {
    let mut map = GridMap::new(3, 3, TileKind::Grass);
    assert!(map.set(1, 2, TileKind::Wall));
    assert_eq!(map.get(1, 2), Some(&TileKind::Wall));
    assert!(!map.set(3, 0, TileKind::Wall));
}

#[test]
fn fill_rect_clips_to_the_map() {
    let mut map = GridMap::new(4, 4, TileKind::Grass);
    map.fill_rect(2, 2, 5, 5, TileKind::Water);
    assert_eq!(map.get(1, 1), Some(&TileKind::Grass));
    assert_eq!(map.get(2, 2), Some(&TileKind::Water));
    assert_eq!(map.get(3, 3), Some(&TileKind::Water));
}

#[test]
fn clear_overwrites_every_cell() {
    let mut map = GridMap::new(3, 2, TileKind::Grass);
    map.set(1, 1, TileKind::Tree);
    map.clear(TileKind::Empty);
    for y in 0..2 {
        for x in 0..3 {
            assert_eq!(map.get(x, y), Some(&TileKind::Empty));
        }
    }
}

#[test]
fn traversability_follows_the_tile() {
    let mut map = GridMap::new(3, 3, TileKind::Grass);
    map.set(1, 1, TileKind::Wall);
    assert!(map.is_traversable(0, 0));
    assert!(!map.is_traversable(1, 1));
    assert!(!map.is_traversable(3, 3), "out of bounds is not traversable");
}

#[test]
fn layouts_place_their_terrain() {
    let grass = MapType::EmptyGrass.create_map(6, 6);
    assert_eq!(grass.get(3, 3), Some(&TileKind::Grass));

    let maze = MapType::MazeWalls.create_map(6, 6);
    assert_eq!(maze.get(0, 0), Some(&TileKind::Wall));
    assert_eq!(maze.get(1, 0), Some(&TileKind::Grass));
    assert_eq!(maze.get(2, 2), Some(&TileKind::Wall));
    assert_eq!(maze.get(3, 3), Some(&TileKind::Grass));

    let desert = MapType::DesertOasis.create_map(9, 9);
    assert_eq!(desert.get(0, 0), Some(&TileKind::Sand));
    assert_eq!(desert.get(4, 4), Some(&TileKind::Water));

    let lake = MapType::LakeTrees.create_map(20, 20);
    assert_eq!(lake.get(0, 0), Some(&TileKind::Grass));
    assert_eq!(lake.get(4, 5), Some(&TileKind::Water));
    assert_eq!(lake.get(10, 4), Some(&TileKind::Tree));
    assert_eq!(MapType::LakeTrees.name(), "Lake & Trees");
    assert_eq!(MapType::MazeWalls.name(), "Maze Walls");
}

#[test]
fn resize_preserves_tiles_and_clamps_the_agent() {
    let mut old = GridMap::new(4, 4, TileKind::Sand);
    old.set(1, 1, TileKind::Wall);
    let mut agent = Agent::new(1, String::from("Scout"), 3, 3);
    let (resized, board_dim) = EditorOperations::resize_map(&old, 2, 6, &mut agent);
    assert_eq!(resized.width(), 2);
    assert_eq!(resized.height(), 6);
    assert_eq!(board_dim, 6);
    assert_eq!(resized.get(1, 1), Some(&TileKind::Wall), "kept from the old map");
    assert_eq!(resized.get(0, 5), Some(&TileKind::Grass), "new ground is grass");
    assert_eq!(agent.pos(), (1, 3), "clamped back onto the narrower map");
    match agent.get_logs().last().unwrap() {
        grid_agent::agent::LogEntry::Info(m) => assert_eq!(m, "Map resized to 2x6"),
        other => panic!("expected an info entry, got {:?}", other),
    }
}

#[test]
fn fill_all_paints_the_whole_map() {
    let mut map = GridMap::new(3, 3, TileKind::Grass);
    EditorOperations::fill_all(&mut map, TileKind::Water);
    assert_eq!(map.get(2, 2), Some(&TileKind::Water));
}

#[test]
fn editor_state_transitions() {
    let mut state = EditorState::new(8, 8);
    assert!(!state.edit_mode);
    state.toggle_edit_mode();
    assert!(state.edit_mode);
    state.toggle_placing_agent();
    assert!(state.placing_agent);
    state.set_selected_tile(TileKind::Water);
    assert_eq!(state.selected_edit_tile, TileKind::Water);
    assert!(!state.placing_agent, "selecting a tile leaves placement mode");
    state.toggle_placing_agent();
    state.exit_placement_mode();
    assert!(!state.placing_agent);
    state.set_target_dimensions(10, 12);
    assert_eq!((state.edit_map_width, state.edit_map_height), (10, 12));

    let mut named = GridMap::new(2, 2, TileKind::Grass);
    named.metadata = Some(MapMetadata {
        name: String::from("Test Map"),
        description: String::from("A map for tests"),
    });
    state.initialize_from_map(&named);
    assert_eq!(state.map_name, "Test Map");
    assert_eq!(state.map_description, "A map for tests");
    let plain = GridMap::new(2, 2, TileKind::Grass);
    state.initialize_from_map(&plain);
    assert_eq!(state.map_name, "");
}
