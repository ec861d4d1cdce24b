//! The territory: a fixed-size grid of tiles, each owned by one of the
//! two teams or neutral, mutated only through claim resolution.
//!
//! Claims of one tick are resolved per tile against the incumbent
//! owner's claim strength; ties always favor the incumbent, a fixed
//! tie-break chosen for determinism.

use vstd::prelude::*;

verus! {

/// Largest grid edge length.
pub const MAX_GRID_EDGE: usize = 1024;

/// Ownership state of a tile.
#[derive(Clone, Copy, Debug, PartialEq, Eq, Structural)]
pub enum TileType {
    Neutral,
    Blue,
    Red,
}

impl Default for TileType {
    fn default() -> (r: Self)
        ensures
            r == TileType::Neutral,
    {
        TileType::Neutral
    }
}

/// One territory tile: its owner and the claim strength that owner
/// last defended it with (0 for neutral ground).
#[derive(Clone, Copy, Debug, PartialEq, Eq, Structural)]
pub struct Tile {
    pub ttype: TileType,
    pub claim: i64,
}

impl Tile {
    pub open spec fn wf(&self) -> bool {
        self.claim >= 0
    }
}

impl Default for Tile {
    fn default() -> (r: Self)
        ensures
            r == (Tile { ttype: TileType::Neutral, claim: 0i64 }),
    {
        Tile { ttype: TileType::Neutral, claim: 0 }
    }
}

/// The outcome of one tick's claims on one tile. `best_blue` and
/// `best_red` are the strongest claim each team attempted on the tile
/// this tick (0 when it attempted none).
///
/// A challenger takes the tile only by strictly beating both the
/// incumbent's effective strength (its stored claim, refreshed by its
/// own team's best claim this tick) and the other team's best claim;
/// every tie leaves the owner unchanged.
pub open spec fn resolve_tile_spec(t: Tile, best_blue: i64, best_red: i64) -> Tile {
    match t.ttype {
        TileType::Neutral => {
            if best_blue > t.claim && best_blue > best_red {
                Tile { ttype: TileType::Blue, claim: best_blue }
            } else if best_red > t.claim && best_red > best_blue {
                Tile { ttype: TileType::Red, claim: best_red }
            } else {
                t
            }
        },
        TileType::Blue => {
            let defense = if best_blue > t.claim {
                best_blue
            } else {
                t.claim
            };
            if best_red > defense {
                Tile { ttype: TileType::Red, claim: best_red }
            } else {
                Tile { ttype: TileType::Blue, claim: defense }
            }
        },
        TileType::Red => {
            let defense = if best_red > t.claim {
                best_red
            } else {
                t.claim
            };
            if best_blue > defense {
                Tile { ttype: TileType::Blue, claim: best_blue }
            } else {
                Tile { ttype: TileType::Red, claim: defense }
            }
        },
    }
}

/// Executable claim resolution, exactly the specification.
pub fn resolve_tile(t: Tile, best_blue: i64, best_red: i64) -> (r: Tile)
    ensures
        r == resolve_tile_spec(t, best_blue, best_red),
{
    match t.ttype {
        TileType::Neutral => {
            if best_blue > t.claim && best_blue > best_red {
                Tile { ttype: TileType::Blue, claim: best_blue }
            } else if best_red > t.claim && best_red > best_blue {
                Tile { ttype: TileType::Red, claim: best_red }
            } else {
                t
            }
        },
        TileType::Blue => {
            let defense = if best_blue > t.claim {
                best_blue
            } else {
                t.claim
            };
            if best_red > defense {
                Tile { ttype: TileType::Red, claim: best_red }
            } else {
                Tile { ttype: TileType::Blue, claim: defense }
            }
        },
        TileType::Red => {
            let defense = if best_red > t.claim {
                best_red
            } else {
                t.claim
            };
            if best_blue > defense {
                Tile { ttype: TileType::Blue, claim: best_blue }
            } else {
                Tile { ttype: TileType::Red, claim: defense }
            }
        },
    }
}

/// Law (tie-break): when both teams' best claims on a tile are equal —
/// in particular when two agents of equal mass contest it in the same
/// tick — the incumbent owner keeps the tile.
pub proof fn lemma_tie_favors_incumbent(t: Tile, s: i64)
    requires
        t.wf(),
        s >= 0,
    ensures
        resolve_tile_spec(t, s, s).ttype == t.ttype,
{
}

/// Law: resolution keeps claim strengths non-negative, and the owner
/// changes only when a challenger strictly outbids both the incumbent
/// and the other team.
pub proof fn lemma_resolve_wf(t: Tile, best_blue: i64, best_red: i64)
    requires
        t.wf(),
        best_blue >= 0,
        best_red >= 0,
    ensures
        resolve_tile_spec(t, best_blue, best_red).wf(),
{
}

/// The territory grid, row-major.
pub struct TerritoryGrid {
    pub width: usize,
    pub height: usize,
    pub tiles: Vec<Tile>,
}

impl TerritoryGrid {
    pub open spec fn wf(&self) -> bool {
        &&& 1 <= self.width <= MAX_GRID_EDGE
        &&& 1 <= self.height <= MAX_GRID_EDGE
        &&& self.tiles@.len() == self.width * self.height
        &&& forall|i: int| 0 <= i < self.tiles@.len() ==> (#[trigger] self.tiles@[i]).wf()
    }

    /// Index of the tile at (x, y).
    pub open spec fn spec_index_of(&self, x: int, y: int) -> int {
        y * self.width + x
    }

    pub open spec fn spec_tile_at(&self, x: int, y: int) -> Tile {
        self.tiles@[self.spec_index_of(x, y)]
    }

    /// In-bounds coordinates map to in-bounds indices.
    pub proof fn lemma_index_in_bounds(&self, x: int, y: int)
        requires
            self.wf(),
            0 <= x < self.width,
            0 <= y < self.height,
        ensures
            0 <= self.spec_index_of(x, y) < self.tiles@.len(),
    {
        assert(y * self.width + x < self.width * self.height) by (nonlinear_arith)
            requires
                0 <= x < self.width,
                0 <= y < self.height,
        ;
        assert(y * self.width >= 0) by (nonlinear_arith)
            requires
                y >= 0,
                self.width >= 1,
        ;
    }

    pub fn index_of(&self, x: usize, y: usize) -> (r: usize)
        requires
            self.wf(),
            x < self.width,
            y < self.height,
        ensures
            r as int == self.spec_index_of(x as int, y as int),
            r < self.tiles@.len(),
    {
        proof {
            self.lemma_index_in_bounds(x as int, y as int);
            assert(y * self.width + x < 1048576) by (nonlinear_arith)
                requires
                    0 <= x < self.width <= MAX_GRID_EDGE,
                    0 <= y < self.height <= MAX_GRID_EDGE,
            ;
        }
        y * self.width + x
    }

    pub fn tile_at(&self, x: usize, y: usize) -> (t: Tile)
        requires
            self.wf(),
            x < self.width,
            y < self.height,
        ensures
            t == self.spec_tile_at(x as int, y as int),
    {
        let i = self.index_of(x, y);
        self.tiles[i]
    }
}

/// A fresh all-neutral territory of the given dimensions.
pub fn create_tiles(width: usize, height: usize) -> (g: TerritoryGrid)
    requires
        1 <= width <= MAX_GRID_EDGE,
        1 <= height <= MAX_GRID_EDGE,
    ensures
        g.wf(),
        g.width == width,
        g.height == height,
        forall|i: int|
            0 <= i < g.tiles@.len() ==> #[trigger] g.tiles@[i] == (Tile {
                ttype: TileType::Neutral,
                claim: 0i64,
            }),
{
    proof {
        assert(width * height <= MAX_GRID_EDGE * MAX_GRID_EDGE) by (nonlinear_arith)
            requires
                1 <= width <= MAX_GRID_EDGE,
                1 <= height <= MAX_GRID_EDGE,
        ;
        assert(width * height >= 1) by (nonlinear_arith)
            requires
                width >= 1,
                height >= 1,
        ;
    }
    let total: usize = width * height;
    let mut tiles: Vec<Tile> = Vec::new();
    let mut i: usize = 0;
    while i < total
        invariant
            0 <= i <= total,
            tiles@.len() == i,
            forall|j: int|
                0 <= j < i ==> #[trigger] tiles@[j] == (Tile {
                    ttype: TileType::Neutral,
                    claim: 0i64,
                }),
        decreases total - i,
    {
        tiles.push(Tile { ttype: TileType::Neutral, claim: 0 });
        i = i + 1;
    }
    TerritoryGrid { width, height, tiles }
}

} // verus!
