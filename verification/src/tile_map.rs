//! The map: a rectangle of tiles placed in a fixed scan order, and the
//! question whether one can step from one cell to the next.

use crate::direction::Direction;
use crate::grid::{GridPos, TileGrid};
use crate::map_tile::Tile;
use crate::tile_generator::{
    placed_neighbor, GeneratorState, TileGenerator, TileGeneratorDefault,
};
use vstd::prelude::*;

verus! {

/// The cells of a rectangle of the given width and height.
pub open spec fn cells(width: usize, height: usize) -> Set<GridPos> {
    Set::new(|p: GridPos| p.in_bounds_spec(width, height))
}

/// The cells that the scan reaches before it reaches column `x`, row `y`:
/// the columns to the West of `x` and, of column `x`, the rows to the South of `y`.
pub open spec fn cells_before(width: usize, height: usize, x: int, y: int) -> Set<GridPos> {
    Set::new(|p: GridPos| p.in_bounds_spec(width, height) && (p.x < x || (p.x == x && p.y < y)))
}

/// The number of cells that the scan reaches before it reaches `position`.
pub open spec fn scan_index(height: usize, position: GridPos) -> int {
    position.x * height + position.y
}

/// Whether the tile at `position` is what the generator, in the state it had
/// when the scan reached `position`, may answer when it is shown the tiles of
/// the cells reached before, and whether the generator was left in the next
/// state of `run`.
pub open spec fn placed_in_turn<G: TileGenerator>(
    width: usize,
    height: usize,
    tiles: Map<GridPos, Tile>,
    run: Seq<G>,
    position: GridPos,
) -> bool {
    run[scan_index(height, position)].yields(
        tiles.restrict(cells_before(width, height, position.x as int, position.y as int)),
        position,
        tiles[position],
        run[scan_index(height, position) + 1],
    )
}

/// Whether `tiles` is a map of the given width and height that a generator
/// filled cell by cell in scan order, column after column from West to East
/// and each column from South to North, passing through the states `run`.
pub open spec fn generated<G: TileGenerator>(
    width: usize,
    height: usize,
    tiles: Map<GridPos, Tile>,
    run: Seq<G>,
) -> bool {
    &&& run.len() == width * height + 1
    &&& tiles.dom() == cells(width, height)
    &&& forall|p: GridPos|
        p.in_bounds_spec(width, height) ==> #[trigger] placed_in_turn(width, height, tiles, run, p)
}

/// Whether one can step from `from` to `to`: both lie in the rectangle, `to`
/// is one step from `from` in one of the four directions, both cells hold a
/// tile, and both tiles open the wall between them.
pub open spec fn movable(
    width: usize,
    height: usize,
    tiles: Map<GridPos, Tile>,
    from: GridPos,
    to: GridPos,
) -> bool {
    &&& from != to
    &&& from.in_bounds_spec(width, height)
    &&& to.in_bounds_spec(width, height)
    &&& from.heading_spec(to) is Some
    &&& tiles.contains_key(from)
    &&& tiles.contains_key(to)
    &&& tiles[from].map_tile.has_exit_spec(from.heading_spec(to).unwrap())
    &&& tiles[to].map_tile.has_exit_spec(from.heading_spec(to).unwrap().opposite_spec())
}

/// The state of the construction when the scan stands before column `x`, row `y`.
spec fn in_progress<G: TileGenerator>(
    width: usize,
    height: usize,
    x: int,
    y: int,
    tiles: Map<GridPos, Tile>,
    run: Seq<G>,
) -> bool {
    &&& run.len() == x * height + y + 1
    &&& tiles.dom() =~= cells_before(width, height, x, y)
    &&& forall|p: GridPos|
        cells_before(width, height, x, y).contains(p) ==> #[trigger] placed_in_turn(
            width,
            height,
            tiles,
            run,
            p,
        )
}

proof fn lemma_scan_index_before(width: usize, height: usize, x: int, y: int, p: GridPos)
    requires
        0 <= y <= height,
        cells_before(width, height, x, y).contains(p),
    ensures
        0 <= scan_index(height, p) < x * height + y,
{
    let h = height as int;
    let px = p.x as int;
    assert(0 <= px * h) by (nonlinear_arith)
        requires
            0 <= px,
            0 <= h,
    ;
    if px < x {
        assert((px + 1) * h <= x * h) by (nonlinear_arith)
            requires
                px + 1 <= x,
                0 <= h,
        ;
        assert((px + 1) * h == px * h + h) by (nonlinear_arith);
    }
}

proof fn lemma_next_column_index(x: int, height: int)
    ensures
        x * height + height == (x + 1) * height,
{
    assert(x * height + height == (x + 1) * height) by (nonlinear_arith);
}

proof fn lemma_place_one<G: TileGenerator>(
    width: usize,
    height: usize,
    x: int,
    y: int,
    tiles: Map<GridPos, Tile>,
    run: Seq<G>,
    tile: Tile,
    next: G,
)
    requires
        0 <= x < width <= i32::MAX,
        0 <= y < height <= i32::MAX,
        in_progress(width, height, x, y, tiles, run),
        run.last().yields(tiles, GridPos { x: x as i32, y: y as i32 }, tile, next),
    ensures
        in_progress(
            width,
            height,
            x,
            y + 1,
            tiles.insert(GridPos { x: x as i32, y: y as i32 }, tile),
            run.push(next),
        ),
{
    let position = GridPos { x: x as i32, y: y as i32 };
    let tiles_after = tiles.insert(position, tile);
    let run_after = run.push(next);
    assert forall|p: GridPos|
        cells_before(width, height, x, y + 1).contains(p) implies #[trigger] placed_in_turn(
        width,
        height,
        tiles_after,
        run_after,
        p,
    ) by {
        let seen = cells_before(width, height, p.x as int, p.y as int);
        if p == position {
            assert(tiles_after.restrict(seen) =~= tiles);
        } else {
            lemma_scan_index_before(width, height, x, y, p);
            assert(placed_in_turn(width, height, tiles, run, p));
            assert(tiles_after.restrict(seen) =~= tiles.restrict(seen));
        }
    }
}

proof fn lemma_next_column<G: TileGenerator>(
    width: usize,
    height: usize,
    x: int,
    tiles: Map<GridPos, Tile>,
    run: Seq<G>,
)
    requires
        in_progress(width, height, x, height as int, tiles, run),
    ensures
        in_progress(width, height, x + 1, 0, tiles, run),
{
    lemma_next_column_index(x, height as int);
    assert(cells_before(width, height, x, height as int) =~= cells_before(
        width,
        height,
        x + 1,
        0,
    ));
}

/// A map and the generator that filled it.
pub struct TileMap<G: TileGenerator> {
    /// The number of columns.
    pub x: usize,
    /// The number of rows.
    pub y: usize,
    /// The tile of each cell.
    pub tiles: TileGrid,
    /// The generator, as placing the last tile left it.
    pub generator: G,
}

impl<G: TileGenerator> TileMap<G> {
    /// Every cell of the rectangle holds a tile, and no other cell does.
    pub open spec fn wf(&self) -> bool {
        &&& self.x <= i32::MAX
        &&& self.y <= i32::MAX
        &&& self.tiles@.dom() == cells(self.x, self.y)
    }

    /// Whether this map is what `generator` makes of it: the tiles were
    /// placed in scan order, each by the generator as the tile before had left
    /// it, and the map holds the generator as the last tile left it.
    pub open spec fn built_by(&self, generator: G) -> bool {
        exists|run: Seq<G>|
            {
                &&& #[trigger] generated(self.x, self.y, self.tiles@, run)
                &&& run.first() == generator
                &&& run.last() == self.generator
            }
    }

    /// Whether one can step from `from` to `to` on this map.
    pub open spec fn can_move_spec(&self, from: GridPos, to: GridPos) -> bool {
        movable(self.x, self.y, self.tiles@, from, to)
    }

    /// A square map of `size` columns and rows, filled by `generator`.
    pub fn new(size: usize, generator: G) -> (map: Self)
        requires
            size <= i32::MAX,
        ensures
            map.x == size,
            map.y == size,
            map.wf(),
            map.built_by(generator),
    {
        Self::with_dimensions(size, size, generator)
    }

    /// A map of `width` columns and `height` rows, filled by `generator`
    /// column after column from West to East, each column from South to North.
    pub fn with_dimensions(width: usize, height: usize, generator: G) -> (map: Self)
        requires
            width <= i32::MAX,
            height <= i32::MAX,
        ensures
            map.x == width,
            map.y == height,
            map.wf(),
            map.built_by(generator),
    {
        let ghost initial = generator;
        let mut generator = generator;
        let mut tiles = TileGrid::new();
        let ghost mut run: Seq<G> = seq![initial];
        let mut x: usize = 0;
        while x < width
            invariant
                x <= width <= i32::MAX,
                height <= i32::MAX,
                in_progress(width, height, x as int, 0, tiles@, run),
                run.first() == initial,
                run.last() == generator,
            decreases width - x,
        {
            let mut y: usize = 0;
            while y < height
                invariant
                    x < width <= i32::MAX,
                    y <= height <= i32::MAX,
                    in_progress(width, height, x as int, y as int, tiles@, run),
                    run.first() == initial,
                    run.last() == generator,
                decreases height - y,
            {
                let position = GridPos::new(x as i32, y as i32);
                let ghost tiles_before = tiles@;
                let tile = generator.tile_at(&tiles, position);
                tiles.insert(position, tile);
                proof {
                    lemma_place_one(
                        width,
                        height,
                        x as int,
                        y as int,
                        tiles_before,
                        run,
                        tile,
                        generator,
                    );
                    run = run.push(generator);
                }
                y = y + 1;
            }
            proof {
                lemma_next_column(width, height, x as int, tiles@, run);
            }
            x = x + 1;
        }
        let map = TileMap { x: width, y: height, tiles, generator };
        proof {
            assert(cells_before(width, height, width as int, 0) =~= cells(width, height));
            assert(generated(width, height, map.tiles@, run));
        }
        map
    }

    /// The cells of the map in scan order, each with the name of the picture of its tile.
    pub fn iterate_tiles(&self) -> (listing: Vec<(GridPos, String)>)
        requires
            self.wf(),
        ensures
            listing@.len() == self.x * self.y,
            forall|p: GridPos|
                p.in_bounds_spec(self.x, self.y) ==> {
                    &&& 0 <= #[trigger] scan_index(self.y, p) < listing@.len()
                    &&& listing@[scan_index(self.y, p)].0 == p
                    &&& listing@[scan_index(self.y, p)].1@ == self.tiles@[p].asset_name_spec()
                },
    {
        let mut listing: Vec<(GridPos, String)> = Vec::new();
        let mut x: usize = 0;
        while x < self.x
            invariant
                self.wf(),
                x <= self.x,
                listing@.len() == x * self.y,
                forall|p: GridPos|
                    cells_before(self.x, self.y, x as int, 0).contains(p) ==> {
                        &&& 0 <= #[trigger] scan_index(self.y, p) < listing@.len()
                        &&& listing@[scan_index(self.y, p)].0 == p
                        &&& listing@[scan_index(self.y, p)].1@ == self.tiles@[p].asset_name_spec()
                    },
            decreases self.x - x,
        {
            let mut y: usize = 0;
            while y < self.y
                invariant
                    self.wf(),
                    x < self.x,
                    y <= self.y,
                    listing@.len() == x * self.y + y,
                    forall|p: GridPos|
                        cells_before(self.x, self.y, x as int, y as int).contains(p) ==> {
                            &&& 0 <= #[trigger] scan_index(self.y, p) < listing@.len()
                            &&& listing@[scan_index(self.y, p)].0 == p
                            &&& listing@[scan_index(self.y, p)].1@
                                == self.tiles@[p].asset_name_spec()
                        },
                decreases self.y - y,
            {
                let position = GridPos::new(x as i32, y as i32);
                let tile = self.tiles.get(position).unwrap();
                let texture_file_name = tile.asset_name();
                listing.push((position, texture_file_name));
                proof {
                    assert forall|p: GridPos|
                        cells_before(self.x, self.y, x as int, y + 1).contains(p) implies {
                        &&& 0 <= #[trigger] scan_index(self.y, p) < listing@.len()
                        &&& listing@[scan_index(self.y, p)].0 == p
                        &&& listing@[scan_index(self.y, p)].1@ == self.tiles@[p].asset_name_spec()
                    } by {
                        if p != position {
                            lemma_scan_index_before(self.x, self.y, x as int, y as int, p);
                        }
                    }
                }
                y = y + 1;
            }
            proof {
                lemma_next_column_index(x as int, self.y as int);
                assert(cells_before(self.x, self.y, x as int, self.y as int) =~= cells_before(
                    self.x,
                    self.y,
                    x + 1,
                    0,
                ));
            }
            x = x + 1;
        }
        listing
    }

    /// Whether one can step from `from` to `to`. Anything but a single step
    /// between two cells of the map, through a wall that both tiles open, is refused.
    pub fn can_move(&self, from: GridPos, to: GridPos) -> (allowed: bool)
        ensures
            allowed == self.can_move_spec(from, to),
    {
        if from == to {
            return false;
        }
        if !from.in_bounds(self.x, self.y) || !to.in_bounds(self.x, self.y) {
            return false;
        }
        let direction = match from.heading(to) {
            Some(direction) => direction,
            None => {
                return false;
            },
        };
        let from_tile = match self.tiles.get(from) {
            Some(tile) => tile,
            None => {
                return false;
            },
        };
        let to_tile = match self.tiles.get(to) {
            Some(tile) => tile,
            None => {
                return false;
            },
        };
        from_tile.map_tile.has_exit(direction) && to_tile.map_tile.has_exit(direction.opposite())
    }
}

proof fn lemma_moves_are_mutual(
    width: usize,
    height: usize,
    tiles: Map<GridPos, Tile>,
    a: GridPos,
    b: GridPos,
)
    ensures
        movable(width, height, tiles, a, b) == movable(width, height, tiles, b, a),
{
    if a.heading_spec(b) is Some {
        GridPos::heading_matches_neighbor(a, b, a.heading_spec(b).unwrap());
    }
    if b.heading_spec(a) is Some {
        GridPos::heading_matches_neighbor(b, a, b.heading_spec(a).unwrap());
    }
}

proof fn lemma_neighbours_agree(
    width: usize,
    height: usize,
    tiles: Map<GridPos, Tile>,
    run: Seq<TileGeneratorDefault>,
    a: GridPos,
    b: GridPos,
    d: Direction,
)
    requires
        generated(width, height, tiles, run),
        a.in_bounds_spec(width, height),
        b.in_bounds_spec(width, height),
        a.heading_spec(b) == Some(d),
    ensures
        tiles[a].map_tile.has_exit_spec(d) == tiles[b].map_tile.has_exit_spec(d.opposite_spec()),
        movable(width, height, tiles, a, b) == tiles[a].map_tile.has_exit_spec(d),
{
    GridPos::heading_matches_neighbor(a, b, d);
    if d == Direction::North || d == Direction::East {
        // `a` was placed first; `b` was made to match it.
        assert(placed_in_turn(width, height, tiles, run, b));
    } else {
        // `b` was placed first; `a` was made to match it.
        assert(placed_in_turn(width, height, tiles, run, a));
    }
}

proof fn lemma_runs_agree(
    width: usize,
    height: usize,
    tiles_a: Map<GridPos, Tile>,
    run_a: Seq<TileGeneratorDefault>,
    tiles_b: Map<GridPos, Tile>,
    run_b: Seq<TileGeneratorDefault>,
    x: int,
    y: int,
)
    requires
        width <= i32::MAX,
        height <= i32::MAX,
        generated(width, height, tiles_a, run_a),
        generated(width, height, tiles_b, run_b),
        run_a.first()@ == run_b.first()@,
        run_a.first()@.source is Seeded,
        (0 <= x < width && 0 <= y <= height) || (x == width && y == 0),
    ensures
        tiles_a.restrict(cells_before(width, height, x, y)) == tiles_b.restrict(
            cells_before(width, height, x, y),
        ),
        run_a[x * height + y]@ == run_b[x * height + y]@,
        run_a[x * height + y]@.source is Seeded,
    decreases x, y,
{
    let here = cells_before(width, height, x, y);
    if y > 0 {
        lemma_runs_agree(width, height, tiles_a, run_a, tiles_b, run_b, x, y - 1);
        let p = GridPos { x: x as i32, y: (y - 1) as i32 };
        let seen = cells_before(width, height, x, y - 1);
        assert(placed_in_turn(width, height, tiles_a, run_a, p));
        assert(placed_in_turn(width, height, tiles_b, run_b, p));
        GeneratorState::seeded_answer_is_determined(
            run_a[scan_index(height, p)]@,
            tiles_a.restrict(seen),
            p,
            tiles_a[p],
            run_a[scan_index(height, p) + 1]@,
            tiles_b[p],
            run_b[scan_index(height, p) + 1]@,
        );
        assert forall|q: GridPos| here.contains(q) implies tiles_a[q] == tiles_b[q] by {
            if q != p {
                assert(tiles_a.restrict(seen)[q] == tiles_b.restrict(seen)[q]);
            }
        }
    } else if x > 0 {
        lemma_runs_agree(width, height, tiles_a, run_a, tiles_b, run_b, x - 1, height as int);
        lemma_next_column_index(x - 1, height as int);
        assert(here =~= cells_before(width, height, x - 1, height as int));
    } else {
        assert(x * height == 0) by (nonlinear_arith)
            requires
                x == 0,
        ;
    }
}

proof fn lemma_certain_exits(
    width: usize,
    height: usize,
    tiles: Map<GridPos, Tile>,
    run: Seq<TileGeneratorDefault>,
    x: int,
    y: int,
)
    requires
        width <= i32::MAX,
        height <= i32::MAX,
        generated(width, height, tiles, run),
        run.first().tile_exit_probability.is_always(),
        (0 <= x < width && 0 <= y <= height) || (x == width && y == 0),
    ensures
        run[x * height + y].tile_exit_probability == run.first().tile_exit_probability,
        forall|q: GridPos, d: Direction|
            cells_before(width, height, x, y).contains(q)
                ==> #[trigger] tiles[q].map_tile.has_exit_spec(d),
    decreases x, y,
{
    if y > 0 {
        lemma_certain_exits(width, height, tiles, run, x, y - 1);
        let p = GridPos { x: x as i32, y: (y - 1) as i32 };
        let seen = tiles.restrict(cells_before(width, height, x, y - 1));
        assert(placed_in_turn(width, height, tiles, run, p));
        assert forall|d: Direction| #[trigger] tiles[p].map_tile.has_exit_spec(d) by {
            let state = run[scan_index(height, p)]@;
            let next = run[scan_index(height, p) + 1]@;
            if placed_neighbor(seen, p, d) is Some {
                state.exits_match_placed_neighbours(seen, p, tiles[p], next, d);
            } else {
                state.certain_chances_decide(seen, p, tiles[p], next, d);
            }
        }
    } else if x > 0 {
        lemma_certain_exits(width, height, tiles, run, x - 1, height as int);
        lemma_next_column_index(x - 1, height as int);
        assert(cells_before(width, height, x, y) =~= cells_before(
            width,
            height,
            x - 1,
            height as int,
        ));
    } else {
        assert(x * height == 0) by (nonlinear_arith)
            requires
                x == 0,
        ;
    }
}

impl<G: TileGenerator> TileMap<G> {
    /// No step leads out of the rectangle or into it, none stays where it is,
    /// and none covers anything but one cell in one of the four directions.
    pub proof fn moves_stay_on_the_grid(self, from: GridPos, to: GridPos)
        ensures
            !from.in_bounds_spec(self.x, self.y) ==> !self.can_move_spec(from, to),
            !to.in_bounds_spec(self.x, self.y) ==> !self.can_move_spec(from, to),
            from == to ==> !self.can_move_spec(from, to),
            vstd::math::abs(to.x - from.x) + vstd::math::abs(to.y - from.y) != 1
                ==> !self.can_move_spec(from, to),
    {
    }

    /// On any map, however it was filled, a step is allowed one way exactly if
    /// it is allowed the other way.
    pub proof fn moves_are_mutual(self, a: GridPos, b: GridPos)
        ensures
            self.can_move_spec(a, b) == self.can_move_spec(b, a),
    {
        lemma_moves_are_mutual(self.x, self.y, self.tiles@, a, b);
    }
}

impl TileMap<TileGeneratorDefault> {
    /// On a map that the default generator filled, two neighbouring tiles never
    /// disagree about the wall between them: one has the exit towards the other
    /// exactly if the other has the exit pointing back. So a step between them
    /// is allowed exactly if both tiles have their exit, which is the case as
    /// soon as one has it; and it is then allowed both ways.
    pub proof fn neighbours_agree(
        self,
        generator: TileGeneratorDefault,
        a: GridPos,
        b: GridPos,
        d: Direction,
    )
        requires
            self.built_by(generator),
            a.in_bounds_spec(self.x, self.y),
            b.in_bounds_spec(self.x, self.y),
            a.heading_spec(b) == Some(d),
        ensures
            self.tiles@[a].map_tile.has_exit_spec(d) == self.tiles@[b].map_tile.has_exit_spec(
                d.opposite_spec(),
            ),
            self.can_move_spec(a, b) == self.can_move_spec(b, a),
            self.can_move_spec(a, b) == (self.tiles@[a].map_tile.has_exit_spec(d)
                && self.tiles@[b].map_tile.has_exit_spec(d.opposite_spec())),
    {
        let run = choose|run: Seq<TileGeneratorDefault>|
            {
                &&& #[trigger] generated(self.x, self.y, self.tiles@, run)
                &&& run.first() == generator
                &&& run.last() == self.generator
            };
        lemma_neighbours_agree(self.x, self.y, self.tiles@, run, a, b, d);
        lemma_moves_are_mutual(self.x, self.y, self.tiles@, a, b);
    }

    /// Where the chance of an exit is one, no tile has a neighbour that would
    /// hold it back: every tile of the map opens all four walls.
    pub proof fn certain_exits_open_every_wall(
        self,
        generator: TileGeneratorDefault,
        position: GridPos,
        direction: Direction,
    )
        requires
            self.x <= i32::MAX,
            self.y <= i32::MAX,
            self.built_by(generator),
            generator.tile_exit_probability.is_always(),
            position.in_bounds_spec(self.x, self.y),
        ensures
            self.tiles@[position].map_tile.has_exit_spec(direction),
    {
        let run = choose|run: Seq<TileGeneratorDefault>|
            {
                &&& #[trigger] generated(self.x, self.y, self.tiles@, run)
                &&& run.first() == generator
                &&& run.last() == self.generator
            };
        lemma_certain_exits(self.x, self.y, self.tiles@, run, self.x as int, 0);
    }

    /// Two maps of the same width and height, filled by two default
    /// generators that started with the same probabilities and in the same
    /// seeded state, hold the same tile in every cell, and their generators
    /// are left in the same state.
    pub proof fn equal_seeds_give_equal_maps(
        a: Self,
        b: Self,
        generator_a: TileGeneratorDefault,
        generator_b: TileGeneratorDefault,
    )
        requires
            a.x == b.x,
            a.y == b.y,
            a.x <= i32::MAX,
            a.y <= i32::MAX,
            a.built_by(generator_a),
            b.built_by(generator_b),
            generator_a@ == generator_b@,
            generator_a@.source is Seeded,
        ensures
            a.tiles@ == b.tiles@,
            a.generator@ == b.generator@,
    {
        let run_a = choose|run: Seq<TileGeneratorDefault>|
            {
                &&& #[trigger] generated(a.x, a.y, a.tiles@, run)
                &&& run.first() == generator_a
                &&& run.last() == a.generator
            };
        let run_b = choose|run: Seq<TileGeneratorDefault>|
            {
                &&& #[trigger] generated(b.x, b.y, b.tiles@, run)
                &&& run.first() == generator_b
                &&& run.last() == b.generator
            };
        let width = a.x;
        let height = a.y;
        lemma_runs_agree(width, height, a.tiles@, run_a, b.tiles@, run_b, width as int, 0);
        assert(cells_before(width, height, width as int, 0) =~= cells(width, height));
        assert(b.tiles@.restrict(cells(width, height)) =~= b.tiles@);
    }
}

} // verus!
