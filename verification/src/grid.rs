//! Grid coordinates and the store of tiles by coordinate.

use crate::direction::Direction;
use crate::map_tile::Tile;
use std::collections::HashMap;
use vstd::prelude::*;

verus! {

broadcast use vstd::std_specs::hash::group_hash_axioms;

/// A cell of the grid. `x` grows to the East and `y` to the North.
#[derive(Copy, Clone, Debug, PartialEq, Eq, Hash, Structural)]
pub struct GridPos {
    pub x: i32,
    pub y: i32,
}

impl GridPos {
    /// The cell one step away in `direction`, if its coordinates can be written down.
    pub open spec fn neighbor_spec(self, direction: Direction) -> Option<GridPos> {
        let x = self.x + direction.offset_spec().0;
        let y = self.y + direction.offset_spec().1;
        if i32::MIN <= x <= i32::MAX && i32::MIN <= y <= i32::MAX {
            Some(GridPos { x: x as i32, y: y as i32 })
        } else {
            None
        }
    }

    /// The direction of the single step that leads from this cell to `to`, if there is one.
    pub open spec fn heading_spec(self, to: GridPos) -> Option<Direction> {
        let dx = to.x - self.x;
        let dy = to.y - self.y;
        if dx == 0 && dy == 1 {
            Some(Direction::North)
        } else if dx == 1 && dy == 0 {
            Some(Direction::East)
        } else if dx == 0 && dy == -1 {
            Some(Direction::South)
        } else if dx == -1 && dy == 0 {
            Some(Direction::West)
        } else {
            None
        }
    }

    /// Whether this cell lies in the rectangle of the given width and height.
    pub open spec fn in_bounds_spec(self, width: usize, height: usize) -> bool {
        0 <= self.x < width && 0 <= self.y < height
    }

    /// The cell in column `x` and row `y`.
    pub fn new(x: i32, y: i32) -> (position: Self)
        ensures
            position == (GridPos { x, y }),
    {
        Self { x, y }
    }

    /// The cell one step away in `direction`. There is none where the step
    /// would leave the range of the coordinates.
    #[verifier::when_used_as_spec(neighbor_spec)]
    pub fn neighbor(self, direction: Direction) -> (next: Option<GridPos>)
        ensures
            next == self.neighbor_spec(direction),
    {
        let (dx, dy) = direction.offset();
        match (self.x.checked_add(dx), self.y.checked_add(dy)) {
            (Some(x), Some(y)) => Some(GridPos { x, y }),
            _ => None,
        }
    }

    /// The direction of the single step that leads from this cell to `to`, if there is one.
    #[verifier::when_used_as_spec(heading_spec)]
    pub fn heading(self, to: GridPos) -> (direction: Option<Direction>)
        ensures
            direction == self.heading_spec(to),
    {
        let dx: i64 = to.x as i64 - self.x as i64;
        let dy: i64 = to.y as i64 - self.y as i64;
        if dx == 0 && dy == 1 {
            Some(Direction::North)
        } else if dx == 1 && dy == 0 {
            Some(Direction::East)
        } else if dx == 0 && dy == -1 {
            Some(Direction::South)
        } else if dx == -1 && dy == 0 {
            Some(Direction::West)
        } else {
            None
        }
    }

    /// Whether this cell lies in the rectangle of the given width and height.
    #[verifier::when_used_as_spec(in_bounds_spec)]
    pub fn in_bounds(self, width: usize, height: usize) -> (inside: bool)
        ensures
            inside == self.in_bounds_spec(width, height),
    {
        self.x >= 0 && self.y >= 0 && (self.x as usize) < width && (self.y as usize) < height
    }

    /// `to` is one step from `from` in a direction exactly when it is the
    /// neighbour of `from` in that direction; the way back is the opposite direction.
    pub proof fn heading_matches_neighbor(from: GridPos, to: GridPos, direction: Direction)
        ensures
            from.heading_spec(to) == Some(direction) <==> from.neighbor_spec(direction) == Some(to),
            from.heading_spec(to) == Some(direction) <==> to.heading_spec(from) == Some(
                direction.opposite_spec(),
            ),
    {
    }
}

/// The number under which the tile of a cell is filed.
pub closed spec fn cell_key(position: GridPos) -> u64 {
    ((position.x + 0x8000_0000) * 0x1_0000_0000 + (position.y + 0x8000_0000)) as u64
}

proof fn lemma_cell_key_injective(a: GridPos, b: GridPos)
    ensures
        cell_key(a) == cell_key(b) <==> a == b,
{
}

fn key_of(position: GridPos) -> (key: u64)
    ensures
        key == cell_key(position),
{
    let column: u64 = (position.x as i64 + 0x8000_0000) as u64;
    let row: u64 = (position.y as i64 + 0x8000_0000) as u64;
    column * 0x1_0000_0000 + row
}

/// The tiles placed so far, by cell. A cell holds at most one tile.
pub struct TileGrid {
    cells: HashMap<u64, Tile>,
}

impl View for TileGrid {
    type V = Map<GridPos, Tile>;

    closed spec fn view(&self) -> Map<GridPos, Tile> {
        Map::new(
            |position: GridPos| self.cells@.contains_key(cell_key(position)),
            |position: GridPos| self.cells@[cell_key(position)],
        )
    }
}

impl TileGrid {
    /// A store without tiles.
    pub fn new() -> (grid: Self)
        ensures
            grid@ == Map::<GridPos, Tile>::empty(),
    {
        TileGrid { cells: HashMap::new() }
    }

    /// Places `tile` at `position` and hands back the tile that lay there before.
    pub fn insert(&mut self, position: GridPos, tile: Tile) -> (previous: Option<Tile>)
        ensures
            final(self)@ == old(self)@.insert(position, tile),
            previous == if old(self)@.contains_key(position) {
                Some(old(self)@[position])
            } else {
                None::<Tile>
            },
    {
        let previous = self.cells.insert(key_of(position), tile);
        proof {
            assert forall|p: GridPos| cell_key(p) == cell_key(position) <==> p == position by {
                lemma_cell_key_injective(p, position);
            }
        }
        previous
    }

    /// The tile at `position`, if one was placed there.
    pub fn get(&self, position: GridPos) -> (tile: Option<&Tile>)
        ensures
            tile == if self@.contains_key(position) {
                Some(&self@[position])
            } else {
                None::<&Tile>
            },
    {
        let key = key_of(position);
        self.cells.get(&key)
    }

    /// Whether a tile was placed at `position`.
    pub fn contains_key(&self, position: GridPos) -> (present: bool)
        ensures
            present == self@.contains_key(position),
    {
        let key = key_of(position);
        self.cells.contains_key(&key)
    }
}

} // verus!
