//! Tiles: a set of exits stored as a bit mask, and the style a tile is drawn in.

use crate::direction::Direction;
use vstd::prelude::*;
use vstd::seq_lib::*;
use vstd::string::*;

verus! {

/// The style a tile is drawn in. It has no bearing on where one can walk.
#[derive(Copy, Clone, Debug, PartialEq, Eq, Hash, Structural)]
pub enum TileSet {
    Room,
    Corridor,
}

impl TileSet {
    /// The name of the style as it appears in asset names.
    pub open spec fn name_spec(self) -> Seq<char> {
        match self {
            TileSet::Room => "room"@,
            TileSet::Corridor => "corridor"@,
        }
    }

    /// The name of the style as it appears in asset names.
    pub fn to_string(self) -> (name: String)
        ensures
            name@ == self.name_spec(),
    {
        match self {
            TileSet::Room => String::from_str("room"),
            TileSet::Corridor => String::from_str("corridor"),
        }
    }
}

/// The exits of a tile. Each of the sixteen sets of directions has one
/// variant, named by the initials of its members in canonical order.
#[derive(Copy, Clone, Debug, PartialEq, Eq, Hash, Structural)]
pub enum MapTile {
    ZERO,
    N,
    E,
    S,
    W,
    NE,
    NS,
    NW,
    ES,
    EW,
    SW,
    NES,
    NEW,
    NWS,
    ESW,
    NESW,
}

/// Whether the bit of `direction` is set in `mask`.
pub open spec fn mask_has(mask: int, direction: Direction) -> bool {
    match direction {
        Direction::North => mask % 2 == 1,
        Direction::East => (mask / 2) % 2 == 1,
        Direction::South => (mask / 4) % 2 == 1,
        Direction::West => (mask / 8) % 2 == 1,
    }
}

/// The mask that has exactly the bits of the directions occurring in `directions`.
pub open spec fn exit_mask(directions: Seq<Direction>) -> int {
    (if directions.contains(Direction::North) { 1int } else { 0int })
        + (if directions.contains(Direction::East) { 2int } else { 0int })
        + (if directions.contains(Direction::South) { 4int } else { 0int })
        + (if directions.contains(Direction::West) { 8int } else { 0int })
}

/// One sequence holding `direction` if `present`, else the empty sequence.
pub open spec fn optional_exit(present: bool, direction: Direction) -> Seq<Direction> {
    if present {
        seq![direction]
    } else {
        Seq::empty()
    }
}

proof fn lemma_bit_test(mask: u8, bit: u8)
    by (bit_vector)
    requires
        mask < 16,
        bit == 1 || bit == 2 || bit == 4 || bit == 8,
    ensures
        (mask & bit != 0) == ((mask / bit) % 2 == 1),
        (mask & bit == 0) ==> (mask | bit) == mask + bit,
        (mask | bit) < 16,
{
}

proof fn lemma_mask_is_sum_of_bits(mask: int)
    requires
        0 <= mask < 16,
    ensures
        mask == (if mask_has(mask, Direction::North) { 1int } else { 0int })
            + (if mask_has(mask, Direction::East) { 2int } else { 0int })
            + (if mask_has(mask, Direction::South) { 4int } else { 0int })
            + (if mask_has(mask, Direction::West) { 8int } else { 0int }),
{
}

/// The bit of a direction is set in the mask of a sequence exactly when the
/// direction occurs in the sequence.
proof fn lemma_exit_mask_has(directions: Seq<Direction>, direction: Direction)
    ensures
        0 <= exit_mask(directions) < 16,
        mask_has(exit_mask(directions), direction) == directions.contains(direction),
{
}

/// Appending a direction that does not occur yet adds its bit to the mask.
proof fn lemma_exit_mask_push(directions: Seq<Direction>, direction: Direction)
    requires
        !directions.contains(direction),
    ensures
        exit_mask(directions.push(direction)) == exit_mask(directions) + direction.bit_spec(),
{
    lemma_seq_contains_after_push(directions, direction, Direction::North);
    lemma_seq_contains_after_push(directions, direction, Direction::East);
    lemma_seq_contains_after_push(directions, direction, Direction::South);
    lemma_seq_contains_after_push(directions, direction, Direction::West);
}

impl MapTile {
    /// The number that stands for this set of exits: the sum of the bits of its members.
    pub open spec fn mask_spec(self) -> u8 {
        match self {
            MapTile::ZERO => 0,
            MapTile::N => 1,
            MapTile::E => 2,
            MapTile::NE => 3,
            MapTile::S => 4,
            MapTile::NS => 5,
            MapTile::ES => 6,
            MapTile::NES => 7,
            MapTile::W => 8,
            MapTile::NW => 9,
            MapTile::EW => 10,
            MapTile::NEW => 11,
            MapTile::SW => 12,
            MapTile::NWS => 13,
            MapTile::ESW => 14,
            MapTile::NESW => 15,
        }
    }

    /// The tile with the given mask, if the mask is one of the sixteen.
    pub open spec fn from_mask_spec(mask: u8) -> Option<MapTile> {
        match mask {
            0 => Some(MapTile::ZERO),
            1 => Some(MapTile::N),
            2 => Some(MapTile::E),
            3 => Some(MapTile::NE),
            4 => Some(MapTile::S),
            5 => Some(MapTile::NS),
            6 => Some(MapTile::ES),
            7 => Some(MapTile::NES),
            8 => Some(MapTile::W),
            9 => Some(MapTile::NW),
            10 => Some(MapTile::EW),
            11 => Some(MapTile::NEW),
            12 => Some(MapTile::SW),
            13 => Some(MapTile::NWS),
            14 => Some(MapTile::ESW),
            15 => Some(MapTile::NESW),
            _ => None,
        }
    }

    /// Whether this tile has an exit in `direction`.
    pub open spec fn has_exit_spec(self, direction: Direction) -> bool {
        mask_has(self.mask_spec() as int, direction)
    }

    /// What `from_directions` answers: nothing for more than four directions
    /// or a repeated one, else the tile whose exits are the given directions.
    pub open spec fn from_directions_spec(directions: Seq<Direction>) -> Option<MapTile> {
        if directions.len() <= 4 && directions.no_duplicates() {
            MapTile::from_mask_spec(exit_mask(directions) as u8)
        } else {
            None
        }
    }

    /// The exits of this tile in the order North, East, South, West.
    pub open spec fn directions_spec(self) -> Seq<Direction> {
        optional_exit(self.has_exit_spec(Direction::North), Direction::North) + optional_exit(
            self.has_exit_spec(Direction::East),
            Direction::East,
        ) + optional_exit(self.has_exit_spec(Direction::South), Direction::South) + optional_exit(
            self.has_exit_spec(Direction::West),
            Direction::West,
        )
    }

    /// The initials of the exits in canonical order, or `ZERO` for the tile without exits.
    pub open spec fn name_spec(self) -> Seq<char> {
        if self.directions_spec().len() == 0 {
            "ZERO"@
        } else {
            self.directions_spec().map_values(|d: Direction| d.initial())
        }
    }

    /// The number that stands for this set of exits, from 0 to 15.
    #[verifier::when_used_as_spec(mask_spec)]
    pub fn mask(self) -> (mask: u8)
        ensures
            mask == self.mask_spec(),
            mask < 16,
    {
        match self {
            MapTile::ZERO => 0,
            MapTile::N => 1,
            MapTile::E => 2,
            MapTile::NE => 3,
            MapTile::S => 4,
            MapTile::NS => 5,
            MapTile::ES => 6,
            MapTile::NES => 7,
            MapTile::W => 8,
            MapTile::NW => 9,
            MapTile::EW => 10,
            MapTile::NEW => 11,
            MapTile::SW => 12,
            MapTile::NWS => 13,
            MapTile::ESW => 14,
            MapTile::NESW => 15,
        }
    }

    /// The tile with the given mask, if the mask is one of the sixteen.
    #[verifier::when_used_as_spec(from_mask_spec)]
    pub fn from_mask(mask: u8) -> (tile: Option<MapTile>)
        ensures
            tile == MapTile::from_mask_spec(mask),
            tile is Some <==> mask < 16,
            tile matches Some(t) ==> t.mask_spec() == mask,
    {
        match mask {
            0 => Some(MapTile::ZERO),
            1 => Some(MapTile::N),
            2 => Some(MapTile::E),
            3 => Some(MapTile::NE),
            4 => Some(MapTile::S),
            5 => Some(MapTile::NS),
            6 => Some(MapTile::ES),
            7 => Some(MapTile::NES),
            8 => Some(MapTile::W),
            9 => Some(MapTile::NW),
            10 => Some(MapTile::EW),
            11 => Some(MapTile::NEW),
            12 => Some(MapTile::SW),
            13 => Some(MapTile::NWS),
            14 => Some(MapTile::ESW),
            15 => Some(MapTile::NESW),
            _ => None,
        }
    }

    /// Whether this tile has an exit in `direction`.
    #[verifier::when_used_as_spec(has_exit_spec)]
    pub fn has_exit(self, direction: Direction) -> (open: bool)
        ensures
            open == self.has_exit_spec(direction),
    {
        let mask = self.mask();
        let bit = direction.bit();
        proof {
            lemma_bit_test(mask, bit);
        }
        mask & bit != 0
    }

    /// Builds the tile whose exits are the given directions, in whatever order
    /// they come. More than four directions, or one given twice, are refused.
    pub fn from_directions(directions: &[Direction]) -> (tile: Option<MapTile>)
        ensures
            tile == MapTile::from_directions_spec(directions@),
            tile is Some <==> directions@.len() <= 4 && directions@.no_duplicates(),
            tile matches Some(t) ==> forall|d: Direction|
                t.has_exit_spec(d) == #[trigger] directions@.contains(d),
    {
        let count = directions.len();
        if count > 4 {
            return None;
        }
        let mut mask: u8 = 0;
        let mut i: usize = 0;
        while i < count
            invariant
                count == directions@.len(),
                count <= 4,
                i <= count,
                directions@.take(i as int).no_duplicates(),
                mask == exit_mask(directions@.take(i as int)),
            decreases count - i,
        {
            let direction = directions[i];
            let bit = direction.bit();
            let ghost seen = directions@.take(i as int);
            proof {
                lemma_exit_mask_has(seen, direction);
                lemma_bit_test(mask, bit);
                assert(directions@.take(i + 1) =~= seen.push(direction));
            }
            if mask & bit != 0 {
                return None;
            }
            proof {
                lemma_exit_mask_push(seen, direction);
            }
            mask = mask | bit;
            i = i + 1;
        }
        proof {
            assert(directions@.take(count as int) =~= directions@);
            assert forall|d: Direction|
                mask_has(mask as int, d) == #[trigger] directions@.contains(d) by {
                lemma_exit_mask_has(directions@, d);
            }
        }
        MapTile::from_mask(mask)
    }

    /// The exits of this tile in the order North, East, South, West.
    pub fn directions(self) -> (exits: Vec<Direction>)
        ensures
            exits@ == self.directions_spec(),
    {
        let mut dirs = Vec::new();
        let bits = self.mask();
        proof {
            lemma_bit_test(bits, 1);
            lemma_bit_test(bits, 2);
            lemma_bit_test(bits, 4);
            lemma_bit_test(bits, 8);
        }
        if bits & Direction::North.bit() != 0 {
            dirs.push(Direction::North);
        }
        if bits & Direction::East.bit() != 0 {
            dirs.push(Direction::East);
        }
        if bits & Direction::South.bit() != 0 {
            dirs.push(Direction::South);
        }
        if bits & Direction::West.bit() != 0 {
            dirs.push(Direction::West);
        }
        dirs
    }

    /// The initials of the exits in canonical order, or `ZERO` where there is none.
    pub fn to_string(self) -> (name: String)
        ensures
            name@ == self.name_spec(),
    {
        let exits = self.directions();
        if exits.len() == 0 {
            return String::from_str("ZERO");
        }
        let mut encoding = String::new();
        let mut i: usize = 0;
        while i < exits.len()
            invariant
                i <= exits.len(),
                encoding@ == exits@.take(i as int).map_values(|d: Direction| d.initial()),
            decreases exits.len() - i,
        {
            let letter = exits[i].initial_str();
            encoding.append(letter);
            proof {
                assert(exits@.take(i + 1).map_values(|d: Direction| d.initial())
                    =~= exits@.take(i as int).map_values(|d: Direction| d.initial()).push(
                    exits@[i as int].initial(),
                ));
            }
            i = i + 1;
        }
        encoding
    }

    /// The members of `directions()` are exactly the exits, each once, in canonical order.
    pub proof fn directions_are_canonical(self)
        ensures
            forall|d: Direction| self.directions_spec().contains(d) == self.has_exit_spec(d),
            self.directions_spec().no_duplicates(),
            self.directions_spec().len() <= 4,
            forall|i: int, j: int|
                0 <= i < j < self.directions_spec().len() ==> self.directions_spec()[i].rank()
                    < self.directions_spec()[j].rank(),
    {
        let s = self.directions_spec();
        assert forall|d: Direction| s.contains(d) == self.has_exit_spec(d) by {
            if self.has_exit_spec(d) {
                let k = (if d.rank() >= 1 && self.has_exit_spec(Direction::North) {
                    1int
                } else {
                    0int
                }) + (if d.rank() >= 2 && self.has_exit_spec(Direction::East) {
                    1int
                } else {
                    0int
                }) + (if d.rank() >= 3 && self.has_exit_spec(Direction::South) {
                    1int
                } else {
                    0int
                });
                assert(s[k] == d);
            }
        }
    }

    /// A tile and its mask stand for each other: the mask gives the tile
    /// back, and two tiles with the same mask are the same tile.
    pub proof fn mask_round_trip(a: MapTile, b: MapTile)
        ensures
            a.mask_spec() < 16,
            MapTile::from_mask_spec(a.mask_spec()) == Some(a),
            a.mask_spec() == b.mask_spec() ==> a == b,
    {
        assert(MapTile::from_mask_spec(b.mask_spec()) == Some(b));
    }

    /// Two tiles with the same exits are the same tile.
    pub proof fn exits_determine_tile(a: MapTile, b: MapTile)
        requires
            forall|d: Direction| a.has_exit_spec(d) == b.has_exit_spec(d),
        ensures
            a == b,
    {
        assert(a.has_exit_spec(Direction::North) == b.has_exit_spec(Direction::North));
        assert(a.has_exit_spec(Direction::East) == b.has_exit_spec(Direction::East));
        assert(a.has_exit_spec(Direction::South) == b.has_exit_spec(Direction::South));
        assert(a.has_exit_spec(Direction::West) == b.has_exit_spec(Direction::West));
        lemma_mask_is_sum_of_bits(a.mask_spec() as int);
        lemma_mask_is_sum_of_bits(b.mask_spec() as int);
    }

    /// Taking a tile apart into its directions and building a tile from them
    /// gives the tile back.
    pub proof fn directions_round_trip(tile: MapTile)
        ensures
            MapTile::from_directions_spec(tile.directions_spec()) == Some(tile),
    {
        tile.directions_are_canonical();
        let s = tile.directions_spec();
        lemma_exit_mask_has(s, Direction::North);
        lemma_exit_mask_has(s, Direction::East);
        lemma_exit_mask_has(s, Direction::South);
        lemma_exit_mask_has(s, Direction::West);
        let built = MapTile::from_mask_spec(exit_mask(s) as u8);
        assert forall|d: Direction| built.unwrap().has_exit_spec(d) == tile.has_exit_spec(d) by {
            lemma_exit_mask_has(s, d);
        }
        MapTile::exits_determine_tile(built.unwrap(), tile);
    }

    /// The order in which the directions are given does not matter: two
    /// sequences that are rearrangements of each other give the same answer.
    pub proof fn from_directions_ignores_order(a: Seq<Direction>, b: Seq<Direction>)
        requires
            a.to_multiset() == b.to_multiset(),
        ensures
            MapTile::from_directions_spec(a) == MapTile::from_directions_spec(b),
    {
        to_multiset_len(a);
        to_multiset_len(b);
        assert forall|d: Direction| a.contains(d) == b.contains(d) by {
            to_multiset_contains(a, d);
            to_multiset_contains(b, d);
        }
        if a.no_duplicates() {
            a.lemma_multiset_has_no_duplicates();
            b.lemma_multiset_has_no_duplicates_conv();
        }
        if b.no_duplicates() {
            b.lemma_multiset_has_no_duplicates();
            a.lemma_multiset_has_no_duplicates_conv();
        }
    }

    /// A repeated direction, or more than four directions, is refused whatever
    /// else the sequence holds; everything else is accepted.
    pub proof fn from_directions_rejects(directions: Seq<Direction>)
        ensures
            directions.len() > 4 ==> MapTile::from_directions_spec(directions) is None,
            (exists|i: int, j: int|
                0 <= i < j < directions.len() && directions[i] == directions[j])
                ==> MapTile::from_directions_spec(directions) is None,
            directions.len() <= 4 && directions.no_duplicates() ==> MapTile::from_directions_spec(
                directions,
            ) is Some,
    {
        lemma_exit_mask_has(directions, Direction::North);
    }
}

/// The character that stands for a digit.
pub open spec fn digit(value: int) -> char {
    if value == 0 {
        '0'
    } else if value == 1 {
        '1'
    } else if value == 2 {
        '2'
    } else if value == 3 {
        '3'
    } else if value == 4 {
        '4'
    } else if value == 5 {
        '5'
    } else if value == 6 {
        '6'
    } else if value == 7 {
        '7'
    } else if value == 8 {
        '8'
    } else {
        '9'
    }
}

/// A number written in decimal digits, without leading zeros.
pub open spec fn decimal(value: nat) -> Seq<char>
    decreases value,
{
    if value < 10 {
        seq![digit(value as int)]
    } else {
        decimal(value / 10).push(digit((value % 10) as int))
    }
}

fn digit_str(value: u8) -> (text: &'static str)
    requires
        value < 10,
    ensures
        text@ == seq![digit(value as int)],
{
    proof {
        reveal_strlit("0");
        reveal_strlit("1");
        reveal_strlit("2");
        reveal_strlit("3");
        reveal_strlit("4");
        reveal_strlit("5");
        reveal_strlit("6");
        reveal_strlit("7");
        reveal_strlit("8");
        reveal_strlit("9");
    }
    let text = match value {
        0 => "0",
        1 => "1",
        2 => "2",
        3 => "3",
        4 => "4",
        5 => "5",
        6 => "6",
        7 => "7",
        8 => "8",
        _ => "9",
    };
    text
}

/// Writes a number in decimal digits.
pub fn decimal_string(value: u8) -> (text: String)
    ensures
        text@ == decimal(value as nat),
{
    let mut text = String::new();
    if value >= 100 {
        text.append(digit_str(value / 100));
    }
    if value >= 10 {
        text.append(digit_str((value / 10) % 10));
    }
    text.append(digit_str(value % 10));
    proof {
        reveal_with_fuel(decimal, 3);
    }
    text
}

/// A tile as it is stored in a map: its exits and the style it is drawn in.
#[derive(Copy, Clone, Debug, PartialEq, Eq, Hash, Structural)]
pub struct Tile {
    pub tile_set: TileSet,
    pub map_tile: MapTile,
}

impl Tile {
    /// A tile with the given style and exits.
    pub fn new(tile_set: TileSet, map_tile: MapTile) -> (tile: Self)
        ensures
            tile.tile_set == tile_set,
            tile.map_tile == map_tile,
    {
        Self { tile_set, map_tile }
    }

    /// The name of the picture of this tile: the style, the mask in decimal
    /// and the name of the exits, joined by hyphens, with the ending `.png`.
    pub open spec fn asset_name_spec(self) -> Seq<char> {
        self.tile_set.name_spec() + "-"@ + decimal(self.map_tile.mask_spec() as nat) + "-"@
            + self.map_tile.name_spec() + ".png"@
    }

    /// The exits of this tile in the order North, East, South, West.
    pub fn directions(&self) -> (exits: Vec<Direction>)
        ensures
            exits@ == self.map_tile.directions_spec(),
    {
        self.map_tile.directions()
    }

    /// The name of the picture of this tile.
    pub fn asset_name(&self) -> (name: String)
        ensures
            name@ == self.asset_name_spec(),
    {
        let mut name = self.tile_set.to_string();
        name.append("-");
        let mask = decimal_string(self.map_tile.mask());
        name.append(mask.as_str());
        name.append("-");
        let exits = self.map_tile.to_string();
        name.append(exits.as_str());
        name.append(".png");
        name
    }
}

} // verus!
