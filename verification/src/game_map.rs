//! The tile map the combat plays out on: a rectangular grid of floor and
//! wall tiles with a walkability and a bounds query.

use vstd::prelude::*;
use crate::components::Position;

verus! {

/// Width of the default combat map, in tiles.
pub const MAP_WIDTH: i32 = 45;

/// Height of the default combat map, in tiles.
pub const MAP_HEIGHT: i32 = 32;

/// What a map tile is made of.
#[derive(Copy, Clone, PartialEq, Eq, Structural, Debug)]
pub enum TileType {
    Wall,
    Floor,
}

/// A rectangular tile map, stored row by row.
#[derive(Clone, Debug)]
pub struct GameMap {
    pub width: i32,
    pub height: i32,
    pub tiles: Vec<TileType>,
}

impl GameMap {
    /// A map is well formed when its dimensions are positive, their product
    /// stays within the machine integer, and the tile store covers exactly
    /// the grid.
    pub open spec fn wf(&self) -> bool {
        &&& 0 < self.width
        &&& 0 < self.height
        &&& self.width * self.height <= i32::MAX
        &&& self.tiles@.len() == self.width * self.height
    }

    /// Whether a position lies on the map.
    pub open spec fn spec_in_bounds(&self, point: Position) -> bool {
        0 <= point.x < self.width && 0 <= point.y < self.height
    }

    /// The tile at an in-bounds position.
    pub open spec fn spec_tile_at(&self, point: Position) -> TileType {
        self.tiles@[point.y * self.width + point.x]
    }

    /// Whether a mover subject to collision may stand on a position: it must
    /// be on the map and the tile must be walkable.
    pub open spec fn spec_can_enter_tile(&self, point: Position) -> bool {
        self.spec_in_bounds(point) && self.spec_tile_at(point) == TileType::Floor
    }

    /// An all-floor map of the default combat dimensions.
    pub fn new() -> (r: Self)
        ensures
            r.wf(),
            r.width == MAP_WIDTH,
            r.height == MAP_HEIGHT,
            forall|p: Position| r.spec_in_bounds(p) ==> r.spec_can_enter_tile(p),
    {
        Self::sized(MAP_WIDTH, MAP_HEIGHT)
    }

    /// An all-floor map of the given dimensions.
    pub fn sized(width: i32, height: i32) -> (r: Self)
        requires
            0 < width,
            0 < height,
            width * height <= i32::MAX,
        ensures
            r.wf(),
            r.width == width,
            r.height == height,
            forall|p: Position| r.spec_in_bounds(p) ==> r.spec_can_enter_tile(p),
    {
        let total = width * height;
        let mut tiles: Vec<TileType> = Vec::new();
        let mut k: i32 = 0;
        while k < total
            invariant
                0 <= k <= total,
                tiles@.len() == k,
                forall|j: int| 0 <= j < k ==> tiles@[j] == TileType::Floor,
            decreases total - k,
        {
            tiles.push(TileType::Floor);
            k = k + 1;
        }
        let r = Self { width, height, tiles };
        proof {
            assert forall|p: Position| r.spec_in_bounds(p) implies r.spec_can_enter_tile(p) by {
                lemma_grid_index(width as int, height as int, p.x as int, p.y as int);
            }
        }
        r
    }

    /// Replaces the tile at an in-bounds position, for laying out walls.
    pub fn set_tile(&mut self, point: Position, tile: TileType)
        requires
            old(self).wf(),
            old(self).spec_in_bounds(point),
        ensures
            final(self).wf(),
            final(self).width == old(self).width,
            final(self).height == old(self).height,
            final(self).tiles@ == old(self).tiles@.update(
                point.y * old(self).width + point.x,
                tile,
            ),
    {
        proof {
            lemma_grid_index(
                self.width as int,
                self.height as int,
                point.x as int,
                point.y as int,
            );
        }
        let idx = point.y * self.width + point.x;
        self.tiles.set(idx as usize, tile);
    }

    /// Whether a position lies on the map.
    pub fn in_bounds(&self, point: Position) -> (r: bool)
        ensures
            r == self.spec_in_bounds(point),
    {
        0 <= point.x && point.x < self.width && 0 <= point.y && point.y < self.height
    }

    /// Whether a collision-checked mover may enter the tile at a position:
    /// on the map and walkable. Collision-free movers skip this and only
    /// check `in_bounds`.
    pub fn can_enter_tile(&self, point: Position) -> (r: bool)
        requires
            self.wf(),
        ensures
            r == self.spec_can_enter_tile(point),
    {
        if self.in_bounds(point) {
            proof {
                lemma_grid_index(
                    self.width as int,
                    self.height as int,
                    point.x as int,
                    point.y as int,
                );
            }
            let idx = point.y * self.width + point.x;
            self.tiles[idx as usize] == TileType::Floor
        } else {
            false
        }
    }
}

/// A grid coordinate's row-major index lies within the grid.
proof fn lemma_grid_index(width: int, height: int, x: int, y: int)
    requires
        0 < width,
        0 < height,
        0 <= x < width,
        0 <= y < height,
    ensures
        0 <= y * width,
        0 <= y * width + x < width * height,
        y * width + x <= (height - 1) * width + (width - 1),
{
    assert(y * width + x < width * height) by (nonlinear_arith)
        requires
            0 < width && 0 < height && 0 <= x < width && 0 <= y < height,
    ;
    assert(0 <= y * width) by (nonlinear_arith)
        requires
            0 <= y && 0 < width,
    ;
    assert(y * width + x <= (height - 1) * width + (width - 1)) by (nonlinear_arith)
        requires
            0 < width && 0 < height && 0 <= x < width && 0 <= y < height,
    ;
}

} // verus!
