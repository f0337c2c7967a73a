//! The grid world: tile kinds and a rectangular map of tiles with
//! traversability queries.

use vstd::prelude::*;

verus! {

/// One cell of the grid world.
#[derive(Clone, Copy, Debug, PartialEq, Eq, Structural)]
pub enum TileKind {
    Empty,
    Wall,
    Water,
    Grass,
    Sand,
    Trail,
    Tree,
    Custom(u32),
}

impl TileKind {
    /// Which tiles an agent may stand on.
    pub open spec fn spec_traversable(self) -> bool {
        self is Empty || self is Grass || self is Sand || self is Trail
    }

    /// Returns true if this tile can be walked on by agents.
    pub fn is_traversable(&self) -> (r: bool)
        ensures
            r == self.spec_traversable(),
    {
        match self {
            TileKind::Empty | TileKind::Grass | TileKind::Sand | TileKind::Trail => true,
            _ => false,
        }
    }

    /// Returns true if this tile blocks movement.
    pub fn is_blocking(&self) -> (r: bool)
        ensures
            r == !self.spec_traversable(),
    {
        !self.is_traversable()
    }

    /// The display name of each tile kind. A trail is reported as plain
    /// grass: the two are functionally identical to an observer.
    pub open spec fn spec_name(self) -> Seq<char> {
        match self {
            TileKind::Empty => "empty"@,
            TileKind::Wall => "wall"@,
            TileKind::Water => "water"@,
            TileKind::Grass => "grass"@,
            TileKind::Sand => "sand"@,
            TileKind::Trail => "grass"@,
            TileKind::Tree => "tree"@,
            TileKind::Custom(_) => "custom"@,
        }
    }

    /// Returns a display name for this tile type.
    pub fn name(&self) -> (r: &'static str)
        ensures
            r@ == self.spec_name(),
    {
        match self {
            TileKind::Empty => "empty",
            TileKind::Wall => "wall",
            TileKind::Water => "water",
            TileKind::Grass => "grass",
            TileKind::Sand => "sand",
            TileKind::Trail => "grass",
            TileKind::Tree => "tree",
            TileKind::Custom(_) => "custom",
        }
    }
}

/// Optional descriptive data carried by a map.
#[derive(Debug)]
pub struct MapMetadata {
    pub name: String,
    pub description: String,
}

impl Clone for MapMetadata {
    fn clone(&self) -> (res: Self)
        ensures
            res == *self,
    {
        MapMetadata { name: self.name.clone(), description: self.description.clone() }
    }
}

/// A rectangular grid of tiles, stored row by row.
#[derive(Debug)]
pub struct GridMap {
    pub metadata: Option<MapMetadata>,
    pub width: usize,
    pub height: usize,
    pub tiles: Vec<Vec<TileKind>>,
}

impl GridMap {
    /// Well-formedness: the tile storage matches the stated dimensions.
    pub open spec fn wf(self) -> bool {
        &&& self.tiles@.len() == self.height
        &&& forall|y: int|
            0 <= y < self.height ==> (#[trigger] self.tiles@[y])@.len() == self.width
    }

    /// The tile stored at a cell (meaningful only in bounds).
    pub open spec fn spec_tile(self, x: int, y: int) -> TileKind {
        self.tiles@[y]@[x]
    }

    /// Whether a cell lies on the map.
    pub open spec fn spec_in_bounds(self, x: int, y: int) -> bool {
        0 <= x < self.width && 0 <= y < self.height
    }

    /// Whether a cell lies on the map and can be walked on.
    pub open spec fn spec_traversable(self, x: int, y: int) -> bool {
        self.spec_in_bounds(x, y) && self.spec_tile(x, y).spec_traversable()
    }

    pub fn new(width: usize, height: usize, fill: TileKind) -> (r: Self)
        ensures
            r.wf(),
            r.width == width,
            r.height == height,
            r.metadata is None,
            forall|x: int, y: int| r.spec_in_bounds(x, y) ==> #[trigger] r.spec_tile(x, y) == fill,
    {
        let mut tiles: Vec<Vec<TileKind>> = Vec::new();
        let mut y: usize = 0;
        while y < height
            invariant
                y <= height,
                tiles@.len() == y,
                forall|j: int| 0 <= j < y ==> (#[trigger] tiles@[j])@.len() == width,
                forall|j: int, i: int|
                    0 <= j < y && 0 <= i < width ==> #[trigger] (tiles@[j])@[i] == fill,
            decreases height - y,
        {
            let mut row: Vec<TileKind> = Vec::new();
            let mut x: usize = 0;
            while x < width
                invariant
                    x <= width,
                    row@.len() == x,
                    forall|i: int| 0 <= i < x ==> row@[i] == fill,
                decreases width - x,
            {
                row.push(fill);
                x = x + 1;
            }
            tiles.push(row);
            y = y + 1;
        }
        GridMap { metadata: None, width, height, tiles }
    }

    #[inline]
    pub fn width(&self) -> (r: usize)
        ensures
            r == self.width,
    {
        self.width
    }

    #[inline]
    pub fn height(&self) -> (r: usize)
        ensures
            r == self.height,
    {
        self.height
    }

    #[inline]
    pub fn in_bounds(&self, x: usize, y: usize) -> (r: bool)
        ensures
            r == self.spec_in_bounds(x as int, y as int),
    {
        x < self.width && y < self.height
    }

    pub fn get(&self, x: usize, y: usize) -> (r: Option<&TileKind>)
        requires
            self.wf(),
        ensures
            self.spec_in_bounds(x as int, y as int) ==> (r matches Some(t) && *t
                == self.spec_tile(x as int, y as int)),
            !self.spec_in_bounds(x as int, y as int) ==> r is None,
    {
        if y < self.tiles.len() {
            let row = &self.tiles[y];
            if x < row.len() {
                return Some(&row[x]);
            }
        }
        None
    }

    /// Writes a tile, reporting whether the cell was on the map.
    pub fn set(&mut self, x: usize, y: usize, kind: TileKind) -> (r: bool)
        requires
            old(self).wf(),
        ensures
            final(self).wf(),
            r == old(self).spec_in_bounds(x as int, y as int),
            final(self).width == old(self).width,
            final(self).height == old(self).height,
            final(self).metadata == old(self).metadata,
            r ==> forall|i: int, j: int|
                old(self).spec_in_bounds(i, j) ==> #[trigger] final(self).spec_tile(i, j) == (if i
                    == x && j == y {
                    kind
                } else {
                    old(self).spec_tile(i, j)
                }),
            !r ==> *final(self) == *old(self),
    {
        if y < self.tiles.len() {
            if x < self.tiles[y].len() {
                self.tiles[y][x] = kind;
                return true;
            }
        }
        false
    }

    /// Overwrites every cell with one tile kind.
    pub fn clear(&mut self, kind: TileKind)
        requires
            old(self).wf(),
        ensures
            final(self).wf(),
            final(self).width == old(self).width,
            final(self).height == old(self).height,
            final(self).metadata == old(self).metadata,
            forall|i: int, j: int|
                final(self).spec_in_bounds(i, j) ==> #[trigger] final(self).spec_tile(i, j) == kind,
    {
        let ghost meta0 = self.metadata;
        let height = self.height;
        let width = self.width;
        let mut y: usize = 0;
        while y < height
            invariant
                y <= height,
                self.wf(),
                self.width == width,
                self.height == height,
                self.metadata == meta0,
                forall|i: int, j: int|
                    0 <= j < y && 0 <= i < width ==> #[trigger] self.spec_tile(i, j) == kind,
            decreases height - y,
        {
            let mut x: usize = 0;
            while x < width
                invariant
                    x <= width,
                    y < height,
                    self.wf(),
                    self.width == width,
                    self.height == height,
                    self.metadata == meta0,
                    forall|i: int, j: int|
                        0 <= j < y && 0 <= i < width ==> #[trigger] self.spec_tile(i, j) == kind,
                    forall|i: int| 0 <= i < x ==> #[trigger] self.spec_tile(i, y as int) == kind,
                decreases width - x,
            {
                self.set(x, y, kind);
                x = x + 1;
            }
            y = y + 1;
        }
    }

    /// Fills the rectangle from (x, y) of size w by h, clipped to the map.
    pub fn fill_rect(&mut self, x: usize, y: usize, w: usize, h: usize, kind: TileKind)
        requires
            old(self).wf(),
            x + w <= usize::MAX,
            y + h <= usize::MAX,
        ensures
            final(self).wf(),
            final(self).width == old(self).width,
            final(self).height == old(self).height,
            final(self).metadata == old(self).metadata,
            forall|i: int, j: int|
                old(self).spec_in_bounds(i, j) ==> #[trigger] final(self).spec_tile(i, j) == (if x
                    <= i < x + w && y <= j < y + h {
                    kind
                } else {
                    old(self).spec_tile(i, j)
                }),
    {
        let ghost m0 = *self;
        let x1 = if x + w < self.width {
            x + w
        } else {
            self.width
        };
        let y1 = if y + h < self.height {
            y + h
        } else {
            self.height
        };
        let width = self.width;
        let height = self.height;
        let mut yy: usize = y;
        while yy < y1
            invariant
                y <= yy <= y1 || yy == y,
                y1 <= height,
                x1 <= width,
                x1 == if x + w < width { (x + w) as int } else { width as int },
                y1 == if y + h < height { (y + h) as int } else { height as int },
                self.wf(),
                self.width == width,
                self.height == height,
                self.metadata == m0.metadata,
                m0.wf(),
                m0.width == width,
                m0.height == height,
                forall|i: int, j: int|
                    m0.spec_in_bounds(i, j) ==> #[trigger] self.spec_tile(i, j) == (if x <= i < x
                        + w && y <= j < yy {
                        kind
                    } else {
                        m0.spec_tile(i, j)
                    }),
            decreases y1 - yy,
        {
            let mut xx: usize = x;
            while xx < x1
                invariant
                    x <= xx <= x1 || xx == x,
                    y <= yy < y1,
                    y1 <= height,
                    x1 <= width,
                    x1 == if x + w < width { (x + w) as int } else { width as int },
                    self.wf(),
                    self.width == width,
                    self.height == height,
                    self.metadata == m0.metadata,
                    m0.wf(),
                    m0.width == width,
                    m0.height == height,
                    forall|i: int, j: int|
                        m0.spec_in_bounds(i, j) ==> #[trigger] self.spec_tile(i, j) == (if (x <= i
                            < x + w && y <= j < yy) || (j == yy && x <= i < xx) {
                            kind
                        } else {
                            m0.spec_tile(i, j)
                        }),
                decreases x1 - xx,
            {
                self.set(xx, yy, kind);
                xx = xx + 1;
            }
            yy = yy + 1;
        }
    }

    /// Whether an agent can stand on the cell: it must be on the map and
    /// hold a traversable tile.
    pub fn is_traversable(&self, x: usize, y: usize) -> (r: bool)
        requires
            self.wf(),
        ensures
            r == self.spec_traversable(x as int, y as int),
    {
        match self.get(x, y) {
            Some(k) => k.is_traversable(),
            None => false,
        }
    }

    /// Get reference to the tiles grid.
    pub fn tiles(&self) -> (r: &Vec<Vec<TileKind>>)
        ensures
            r == &self.tiles,
    {
        &self.tiles
    }
}

} // verus!
