//! Generators of tiles, and the default one: exits agree with the tiles
//! already placed, everything else is left to chance.

use crate::direction::Direction;
use crate::grid::{GridPos, TileGrid};
use crate::map_tile::{MapTile, Tile, TileSet};
use crate::random::{seeded_state, Probability, RandomSource, SourceState};
use vstd::prelude::*;

verus! {

/// A strategy that places one tile at a time.
pub trait TileGenerator: Sized {
    /// Whether this generator, asked for the tile at `location` when `tiles`
    /// are placed, may answer `tile` and be left as `next`. A generator that
    /// says nothing of itself allows every answer.
    open spec fn yields(
        &self,
        tiles: Map<GridPos, Tile>,
        location: GridPos,
        tile: Tile,
        next: Self,
    ) -> bool {
        true
    }

    /// The tile for `location`, given the tiles placed so far.
    fn tile_at(&mut self, tiles: &TileGrid, location: GridPos) -> (tile: Tile)
        ensures
            old(self).yields(tiles@, location, tile, *final(self)),
    ;
}

/// The tile that lies one step from `location` in `direction`, if one was placed there.
pub open spec fn placed_neighbor(
    tiles: Map<GridPos, Tile>,
    location: GridPos,
    direction: Direction,
) -> Option<Tile> {
    match location.neighbor_spec(direction) {
        Some(neighbor) => if tiles.contains_key(neighbor) {
            Some(tiles[neighbor])
        } else {
            None
        },
        None => None,
    }
}

/// Whether the default policy opens the exit of a new tile at `location` in
/// `direction`: towards a placed tile, if that tile has the exit pointing
/// back; on every other side, if the draw said so.
pub open spec fn policy_exit(
    tiles: Map<GridPos, Tile>,
    location: GridPos,
    direction: Direction,
    drawn: bool,
) -> bool {
    match placed_neighbor(tiles, location, direction) {
        Some(neighbor) => neighbor.map_tile.has_exit_spec(direction.opposite_spec()),
        None => drawn,
    }
}

/// The default generator. Towards a tile that is already placed it opens an
/// exit exactly if that tile has the exit pointing back. Every other exit, and
/// the style of the tile, is decided by chance.
pub struct TileGeneratorDefault {
    /// The chance of an exit on a side where no tile is placed yet.
    pub tile_exit_probability: Probability,
    /// The chance that a tile is a room and no corridor.
    pub room_probability: Probability,
    /// Where the random decisions come from.
    pub rng: RandomSource,
}

/// What decides the answers of a default generator: its two probabilities
/// and the state of its source.
pub struct GeneratorState {
    pub tile_exit_probability: Probability,
    pub room_probability: Probability,
    pub source: SourceState,
}

impl View for TileGeneratorDefault {
    type V = GeneratorState;

    open spec fn view(&self) -> GeneratorState {
        GeneratorState {
            tile_exit_probability: self.tile_exit_probability,
            room_probability: self.room_probability,
            source: self.rng@,
        }
    }
}

impl GeneratorState {
    /// The source as it is once the first `considered` directions, in
    /// canonical order, have been dealt with for the tile at `location`.
    pub open spec fn source_after(
        self,
        tiles: Map<GridPos, Tile>,
        location: GridPos,
        considered: nat,
    ) -> SourceState
        decreases considered,
    {
        if considered == 0 {
            self.source
        } else {
            let before = self.source_after(tiles, location, (considered - 1) as nat);
            if placed_neighbor(tiles, location, Direction::all_spec()[considered - 1]) is Some {
                before
            } else {
                before.after_draw(self.tile_exit_probability)
            }
        }
    }

    /// Whether the exit in the direction of the given rank may be `open`:
    /// towards a placed tile it must match the exit pointing back, elsewhere
    /// it is a draw from the source.
    pub open spec fn exit_allowed(
        self,
        tiles: Map<GridPos, Tile>,
        location: GridPos,
        rank: nat,
        open: bool,
    ) -> bool {
        let direction = Direction::all_spec()[rank as int];
        match placed_neighbor(tiles, location, direction) {
            Some(neighbor) => open == neighbor.map_tile.has_exit_spec(direction.opposite_spec()),
            None => self.source_after(tiles, location, rank).may_draw(
                self.tile_exit_probability,
                open,
            ),
        }
    }

    /// Whether a generator in this state, asked for the tile at `location`
    /// when `tiles` are placed, may answer `tile` and be left in the state
    /// `next`: each exit is allowed in its turn, the style is one more draw,
    /// and the source is left as these draws leave it.
    pub open spec fn yields(
        self,
        tiles: Map<GridPos, Tile>,
        location: GridPos,
        tile: Tile,
        next: GeneratorState,
    ) -> bool {
        &&& self.exit_allowed(tiles, location, 0, tile.map_tile.has_exit_spec(Direction::North))
        &&& self.exit_allowed(tiles, location, 1, tile.map_tile.has_exit_spec(Direction::East))
        &&& self.exit_allowed(tiles, location, 2, tile.map_tile.has_exit_spec(Direction::South))
        &&& self.exit_allowed(tiles, location, 3, tile.map_tile.has_exit_spec(Direction::West))
        &&& self.source_after(tiles, location, 4).may_draw(
            self.room_probability,
            tile.tile_set == TileSet::Room,
        )
        &&& next.source == self.source_after(tiles, location, 4).after_draw(self.room_probability)
        &&& next.tile_exit_probability == self.tile_exit_probability
        &&& next.room_probability == self.room_probability
    }

    /// Towards a tile that is already placed, the exit matches the exit that
    /// points back: no door opens into a wall, and no wall closes a door.
    pub proof fn exits_match_placed_neighbours(
        self,
        tiles: Map<GridPos, Tile>,
        location: GridPos,
        tile: Tile,
        next: GeneratorState,
        direction: Direction,
    )
        requires
            self.yields(tiles, location, tile, next),
            placed_neighbor(tiles, location, direction) is Some,
        ensures
            tile.map_tile.has_exit_spec(direction) == placed_neighbor(
                tiles,
                location,
                direction,
            ).unwrap().map_tile.has_exit_spec(direction.opposite_spec()),
    {
    }

    /// On a side where no tile is placed, a chance of one opens the exit and
    /// a chance of zero closes it; the style follows its chance likewise.
    pub proof fn certain_chances_decide(
        self,
        tiles: Map<GridPos, Tile>,
        location: GridPos,
        tile: Tile,
        next: GeneratorState,
        direction: Direction,
    )
        requires
            self.yields(tiles, location, tile, next),
        ensures
            placed_neighbor(tiles, location, direction) is None
                && self.tile_exit_probability.is_always() ==> tile.map_tile.has_exit_spec(
                direction,
            ),
            placed_neighbor(tiles, location, direction) is None
                && self.tile_exit_probability.is_never() ==> !tile.map_tile.has_exit_spec(
                direction,
            ),
            self.room_probability.is_always() ==> tile.tile_set == TileSet::Room,
            self.room_probability.is_never() ==> tile.tile_set == TileSet::Corridor,
    {
    }

    /// Asked the same question in the same state, a generator with a seeded
    /// source gives the same tile and is left in the same state.
    pub proof fn seeded_answer_is_determined(
        generator: GeneratorState,
        tiles: Map<GridPos, Tile>,
        location: GridPos,
        tile_a: Tile,
        next_a: GeneratorState,
        tile_b: Tile,
        next_b: GeneratorState,
    )
        requires
            generator.source is Seeded,
            generator.yields(tiles, location, tile_a, next_a),
            generator.yields(tiles, location, tile_b, next_b),
        ensures
            tile_a == tile_b,
            next_a == next_b,
            next_a.source is Seeded,
    {
        reveal_with_fuel(GeneratorState::source_after, 5);
        assert forall|d: Direction|
            tile_a.map_tile.has_exit_spec(d) == tile_b.map_tile.has_exit_spec(d) by {
            assert(generator.exit_allowed(
                tiles,
                location,
                d.rank() as nat,
                tile_a.map_tile.has_exit_spec(d),
            ));
            assert(generator.exit_allowed(
                tiles,
                location,
                d.rank() as nat,
                tile_b.map_tile.has_exit_spec(d),
            ));
        }
        MapTile::exits_determine_tile(tile_a.map_tile, tile_b.map_tile);
    }

}

impl TileGeneratorDefault {
    /// The default chance of an exit and of a room: 35 in 100.
    fn default_probability() -> (probability: Probability)
        ensures
            probability.numerator_spec() == 35,
            probability.denominator_spec() == 100,
    {
        Probability::from_ratio(35, 100).unwrap()
    }

    /// A generator with the default probabilities that draws from the
    /// generator of the running thread.
    pub fn new() -> (generator: Self)
        ensures
            generator.tile_exit_probability.numerator_spec() == 35,
            generator.tile_exit_probability.denominator_spec() == 100,
            generator.room_probability == generator.tile_exit_probability,
            generator.rng@ == SourceState::Thread,
    {
        Self::new_with_rng(RandomSource::Thread)
    }

    /// A generator with the default probabilities whose decisions are fixed by `seed`.
    pub fn with_seed(seed: u64) -> (generator: Self)
        ensures
            generator.tile_exit_probability.numerator_spec() == 35,
            generator.tile_exit_probability.denominator_spec() == 100,
            generator.room_probability == generator.tile_exit_probability,
            generator.rng@ == SourceState::Seeded(seeded_state(seed)),
    {
        Self::new_with_rng(RandomSource::seeded(seed))
    }

    /// A generator with the given probabilities that draws from the
    /// generator of the running thread.
    pub fn with_probabilities(
        tile_exit_probability: Probability,
        room_probability: Probability,
    ) -> (generator: Self)
        ensures
            generator.tile_exit_probability == tile_exit_probability,
            generator.room_probability == room_probability,
            generator.rng@ == SourceState::Thread,
    {
        Self { tile_exit_probability, room_probability, rng: RandomSource::Thread }
    }

    /// A generator with the given probabilities whose decisions are fixed by `seed`.
    pub fn with_seed_and_probabilities(
        seed: u64,
        tile_exit_probability: Probability,
        room_probability: Probability,
    ) -> (generator: Self)
        ensures
            generator.tile_exit_probability == tile_exit_probability,
            generator.room_probability == room_probability,
            generator.rng@ == SourceState::Seeded(seeded_state(seed)),
    {
        Self { tile_exit_probability, room_probability, rng: RandomSource::seeded(seed) }
    }

    /// The tile that the default policy places at `location` when chance has
    /// decided: towards every placed tile the exit that this tile opens back,
    /// on every other side the exit that was drawn for its direction, and the
    /// style that was drawn. `drawn_exits` holds one draw for each direction in
    /// canonical order; the draw of a side with a placed tile is not looked at.
    pub fn tile_from_draws(
        tiles: &TileGrid,
        location: GridPos,
        drawn_exits: [bool; 4],
        drawn_room: bool,
    ) -> (tile: Tile)
        ensures
            forall|d: Direction| #[trigger]
                tile.map_tile.has_exit_spec(d) == policy_exit(
                    tiles@,
                    location,
                    d,
                    drawn_exits@[d.rank()],
                ),
            tile.tile_set == if drawn_room {
                TileSet::Room
            } else {
                TileSet::Corridor
            },
    {
        let directions = Direction::all();
        let mut tile_exits: Vec<Direction> = Vec::new();
        let mut rank: usize = 0;
        while rank < 4
            invariant
                rank <= 4,
                directions@ == Direction::all_spec(),
                tile_exits@.no_duplicates(),
                tile_exits@.len() <= rank,
                forall|d: Direction|
                    #[trigger] tile_exits@.contains(d) == (d.rank() < rank && policy_exit(
                        tiles@,
                        location,
                        d,
                        drawn_exits@[d.rank()],
                    )),
            decreases 4 - rank,
        {
            let direction = directions[rank];
            let ghost exits_before = tile_exits@;
            let neighbor_tile = match location.neighbor(direction) {
                Some(neighbor) => tiles.get(neighbor),
                None => None,
            };
            let open = if let Some(tile) = neighbor_tile {
                tile.map_tile.has_exit(direction.opposite())
            } else {
                drawn_exits[rank]
            };
            if open {
                tile_exits.push(direction);
            }
            proof {
                assert forall|d: Direction| #[trigger]
                    tile_exits@.contains(d) == (exits_before.contains(d) || (open && d
                        == direction)) by {
                    vstd::seq_lib::lemma_seq_contains_after_push(exits_before, direction, d);
                }
                if open {
                    assert forall|a: int, b: int|
                        0 <= a < tile_exits@.len() && 0 <= b < tile_exits@.len() && a
                            != b implies tile_exits@[a] != tile_exits@[b] by {
                        if b == exits_before.len() {
                            assert(exits_before.contains(exits_before[a]));
                        } else if a == exits_before.len() {
                            assert(exits_before.contains(exits_before[b]));
                        }
                    }
                }
            }
            rank = rank + 1;
        }
        let map_tile = MapTile::from_directions(tile_exits.as_slice()).unwrap();

        let tile_set = if drawn_room {
            TileSet::Room
        } else {
            TileSet::Corridor
        };
        Tile::new(tile_set, map_tile)
    }

    fn new_with_rng(rng: RandomSource) -> (generator: Self)
        ensures
            generator.tile_exit_probability.numerator_spec() == 35,
            generator.tile_exit_probability.denominator_spec() == 100,
            generator.room_probability == generator.tile_exit_probability,
            generator.rng@ == rng@,
    {
        let probability = Self::default_probability();
        Self { tile_exit_probability: probability, room_probability: probability, rng }
    }

    fn random_bool(&mut self, probability: Probability) -> (outcome: bool)
        ensures
            old(self).rng@.may_draw(probability, outcome),
            final(self).rng@ == old(self).rng@.after_draw(probability),
            final(self).tile_exit_probability == old(self).tile_exit_probability,
            final(self).room_probability == old(self).room_probability,
    {
        self.rng.random_bool(probability)
    }
}

impl TileGenerator for TileGeneratorDefault {
    /// The answer and the state the generator is left in are what its state allows.
    open spec fn yields(
        &self,
        tiles: Map<GridPos, Tile>,
        location: GridPos,
        tile: Tile,
        next: Self,
    ) -> bool {
        self@.yields(tiles, location, tile, next@)
    }

    /// Draws, in canonical order, the exit of every side on which no tile is
    /// placed, then the style, and puts the tile together from the draws.
    fn tile_at(&mut self, tiles: &TileGrid, location: GridPos) -> (tile: Tile) {
        let directions = Direction::all();
        let mut drawn_exits = [false; 4];
        let mut rank: usize = 0;
        while rank < 4
            invariant
                rank <= 4,
                directions@ == Direction::all_spec(),
                self.tile_exit_probability == old(self).tile_exit_probability,
                self.room_probability == old(self).room_probability,
                self.rng@ == old(self)@.source_after(tiles@, location, rank as nat),
                forall|j: int|
                    0 <= j < rank && placed_neighbor(
                        tiles@,
                        location,
                        Direction::all_spec()[j],
                    ) is None ==> old(self)@.source_after(tiles@, location, j as nat).may_draw(
                        self.tile_exit_probability,
                        #[trigger] drawn_exits@[j],
                    ),
            decreases 4 - rank,
        {
            let placed = match location.neighbor(directions[rank]) {
                Some(neighbor) => tiles.contains_key(neighbor),
                None => false,
            };
            if !placed {
                let probability = self.tile_exit_probability;
                drawn_exits[rank] = self.random_bool(probability);
            }
            rank = rank + 1;
        }
        let probability = self.room_probability;
        let drawn_room = self.random_bool(probability);
        Self::tile_from_draws(tiles, location, drawn_exits, drawn_room)
    }
}

} // verus!
