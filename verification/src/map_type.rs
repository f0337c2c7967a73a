//! The built-in map layouts and their deterministic generators.

use vstd::prelude::*;
use crate::map::GridMap;
use crate::map::TileKind;

verus! {

/// The built-in map layouts.
#[derive(Clone, Copy, Debug, PartialEq, Eq, Structural)]
pub enum MapType {
    EmptyGrass,
    MazeWalls,
    DesertOasis,
    LakeTrees,
}

/// The tile a layout puts at a cell of a map of the given size.
pub open spec fn spec_layout_tile(t: MapType, width: int, height: int, x: int, y: int) -> TileKind {
    match t {
        MapType::EmptyGrass => TileKind::Grass,
        MapType::MazeWalls => if x % 2 == 0 && y % 2 == 0 {
            TileKind::Wall
        } else {
            TileKind::Grass
        },
        MapType::DesertOasis => if width / 3 <= x < width / 3 + width / 3 && height / 3 <= y
            < height / 3 + height / 3 {
            TileKind::Water
        } else {
            TileKind::Sand
        },
        MapType::LakeTrees => if width / 6 <= x < width / 6 + width / 4 && height / 5 <= y
            < height / 5 + height / 4 {
            TileKind::Water
        } else if width / 2 <= x < width / 2 + width / 5 && height / 6 <= y < height / 6
            + height / 4 {
            TileKind::Tree
        } else {
            TileKind::Grass
        },
    }
}

impl MapType {
    pub fn name(&self) -> (r: &'static str)
        ensures
            r@ == self.spec_name(),
    {
        match self {
            MapType::EmptyGrass => "Empty Grass",
            MapType::MazeWalls => "Maze Walls",
            MapType::DesertOasis => "Desert Oasis",
            MapType::LakeTrees => "Lake & Trees",
        }
    }

    /// The display name of each layout.
    pub open spec fn spec_name(self) -> Seq<char> {
        match self {
            MapType::EmptyGrass => "Empty Grass"@,
            MapType::MazeWalls => "Maze Walls"@,
            MapType::DesertOasis => "Desert Oasis"@,
            MapType::LakeTrees => "Lake & Trees"@,
        }
    }

    /// Builds a map of the given size with this layout.
    pub fn create_map(&self, width: usize, height: usize) -> (r: GridMap)
        ensures
            r.wf(),
            r.width == width,
            r.height == height,
            forall|x: int, y: int|
                r.spec_in_bounds(x, y) ==> #[trigger] r.spec_tile(x, y) == spec_layout_tile(
                    *self,
                    width as int,
                    height as int,
                    x,
                    y,
                ),
    {
        match self {
            MapType::EmptyGrass => GridMap::new(width, height, TileKind::Grass),
            MapType::MazeWalls => {
                let mut map = GridMap::new(width, height, TileKind::Grass);
                let mut y: usize = 0;
                while y < height
                    invariant
                        y <= height,
                        map.wf(),
                        map.width == width,
                        map.height == height,
                        forall|i: int, j: int|
                            map.spec_in_bounds(i, j) ==> #[trigger] map.spec_tile(i, j) == (if j
                                < y && i % 2 == 0 && j % 2 == 0 {
                                TileKind::Wall
                            } else {
                                TileKind::Grass
                            }),
                    decreases height - y,
                {
                    let mut x: usize = 0;
                    while x < width
                        invariant
                            x <= width,
                            y < height,
                            map.wf(),
                            map.width == width,
                            map.height == height,
                            forall|i: int, j: int|
                                map.spec_in_bounds(i, j) ==> #[trigger] map.spec_tile(i, j) == (
                                if (j < y || (j == y && i < x)) && i % 2 == 0 && j % 2 == 0 {
                                    TileKind::Wall
                                } else {
                                    TileKind::Grass
                                }),
                        decreases width - x,
                    {
                        if x % 2 == 0 && y % 2 == 0 {
                            map.set(x, y, TileKind::Wall);
                        }
                        x = x + 1;
                    }
                    y = y + 1;
                }
                map
            },
            MapType::DesertOasis => {
                let mut map = GridMap::new(width, height, TileKind::Sand);
                map.fill_rect(width / 3, height / 3, width / 3, height / 3, TileKind::Water);
                map
            },
            MapType::LakeTrees => {
                let mut map = GridMap::new(width, height, TileKind::Grass);
                map.fill_rect(width / 2, height / 6, width / 5, height / 4, TileKind::Tree);
                map.fill_rect(width / 6, height / 5, width / 4, height / 4, TileKind::Water);
                map
            },
        }
    }
}

} // verus!
