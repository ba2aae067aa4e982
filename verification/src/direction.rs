//! Compass directions and their rotation algebra.

use vstd::prelude::*;
use vstd::string::*;

verus! {

/// One of the four compass directions in which a tile can have an exit.
#[derive(Copy, Clone, Debug, PartialEq, Eq, Hash, Structural)]
pub enum Direction {
    North,
    East,
    South,
    West,
}

impl Direction {
    /// The bit that stands for this direction in an exit mask.
    pub open spec fn bit_spec(self) -> u8 {
        match self {
            Direction::North => 1,
            Direction::East => 2,
            Direction::South => 4,
            Direction::West => 8,
        }
    }

    /// The direction that points the other way.
    pub open spec fn opposite_spec(self) -> Direction {
        match self {
            Direction::North => Direction::South,
            Direction::East => Direction::West,
            Direction::South => Direction::North,
            Direction::West => Direction::East,
        }
    }

    /// The next direction on the way North, East, South, West, North.
    pub open spec fn rotate_clockwise_spec(self) -> Direction {
        match self {
            Direction::North => Direction::East,
            Direction::East => Direction::South,
            Direction::South => Direction::West,
            Direction::West => Direction::North,
        }
    }

    /// The next direction on the way North, West, South, East, North.
    pub open spec fn rotate_counter_clockwise_spec(self) -> Direction {
        match self {
            Direction::North => Direction::West,
            Direction::East => Direction::North,
            Direction::South => Direction::East,
            Direction::West => Direction::South,
        }
    }

    /// The four directions in canonical order.
    pub open spec fn all_spec() -> Seq<Direction> {
        seq![Direction::North, Direction::East, Direction::South, Direction::West]
    }

    /// The place of this direction in the canonical order.
    pub open spec fn rank(self) -> int {
        match self {
            Direction::North => 0,
            Direction::East => 1,
            Direction::South => 2,
            Direction::West => 3,
        }
    }

    /// The change of the two coordinates that one step in this direction makes.
    pub open spec fn offset_spec(self) -> (int, int) {
        match self {
            Direction::North => (0, 1),
            Direction::East => (1, 0),
            Direction::South => (0, -1),
            Direction::West => (-1, 0),
        }
    }

    /// The letter that stands for this direction in the name of a tile.
    pub open spec fn initial(self) -> char {
        match self {
            Direction::North => 'N',
            Direction::East => 'E',
            Direction::South => 'S',
            Direction::West => 'W',
        }
    }

    /// The name of this direction.
    pub open spec fn name_spec(self) -> Seq<char> {
        match self {
            Direction::North => "North"@,
            Direction::East => "East"@,
            Direction::South => "South"@,
            Direction::West => "West"@,
        }
    }

    /// The bit that stands for this direction in an exit mask: 1, 2, 4 or 8.
    #[verifier::when_used_as_spec(bit_spec)]
    pub fn bit(self) -> (bit: u8)
        ensures
            bit == self.bit_spec(),
    {
        match self {
            Direction::North => 1,
            Direction::East => 2,
            Direction::South => 4,
            Direction::West => 8,
        }
    }

    /// The direction that points the other way.
    #[verifier::when_used_as_spec(opposite_spec)]
    pub fn opposite(self) -> (turned: Direction)
        ensures
            turned == self.opposite_spec(),
    {
        match self {
            Direction::North => Direction::South,
            Direction::East => Direction::West,
            Direction::South => Direction::North,
            Direction::West => Direction::East,
        }
    }

    /// A quarter turn to the right: North, East, South, West, North.
    #[verifier::when_used_as_spec(rotate_clockwise_spec)]
    pub fn rotate_clockwise(self) -> (turned: Direction)
        ensures
            turned == self.rotate_clockwise_spec(),
    {
        match self {
            Direction::North => Direction::East,
            Direction::East => Direction::South,
            Direction::South => Direction::West,
            Direction::West => Direction::North,
        }
    }

    /// A quarter turn to the left: North, West, South, East, North.
    #[verifier::when_used_as_spec(rotate_counter_clockwise_spec)]
    pub fn rotate_counter_clockwise(self) -> (turned: Direction)
        ensures
            turned == self.rotate_counter_clockwise_spec(),
    {
        match self {
            Direction::North => Direction::West,
            Direction::East => Direction::North,
            Direction::South => Direction::East,
            Direction::West => Direction::South,
        }
    }

    /// The four directions in canonical order: North, East, South, West.
    pub fn all() -> (directions: [Direction; 4])
        ensures
            directions@ == Direction::all_spec(),
    {
        let directions = [Direction::North, Direction::East, Direction::South, Direction::West];
        directions
    }

    /// The change of `x` and of `y` that one step in this direction makes.
    pub fn offset(self) -> (step: (i32, i32))
        ensures
            step.0 == self.offset_spec().0,
            step.1 == self.offset_spec().1,
    {
        match self {
            Direction::North => (0, 1),
            Direction::East => (1, 0),
            Direction::South => (0, -1),
            Direction::West => (-1, 0),
        }
    }

    /// The initial of this direction as a string of one letter.
    pub fn initial_str(self) -> (letter: &'static str)
        ensures
            letter@ == seq![self.initial()],
    {
        proof {
            reveal_strlit("N");
            reveal_strlit("E");
            reveal_strlit("S");
            reveal_strlit("W");
        }
        let letter = match self {
            Direction::North => "N",
            Direction::East => "E",
            Direction::South => "S",
            Direction::West => "W",
        };
        letter
    }

    /// The name of this direction.
    pub fn to_string(self) -> (name: String)
        ensures
            name@ == self.name_spec(),
    {
        match self {
            Direction::North => String::from_str("North"),
            Direction::East => String::from_str("East"),
            Direction::South => String::from_str("South"),
            Direction::West => String::from_str("West"),
        }
    }

    /// Turning round twice gives the direction one started with.
    pub proof fn opposite_is_involution(d: Direction)
        ensures
            d.opposite().opposite() == d,
    {
    }

    /// Four quarter turns clockwise give the direction one started with.
    pub proof fn four_clockwise_turns_are_identity(d: Direction)
        ensures
            d.rotate_clockwise().rotate_clockwise().rotate_clockwise().rotate_clockwise() == d,
    {
    }

    /// A quarter turn one way undoes a quarter turn the other way.
    pub proof fn rotations_are_mutual_inverses(d: Direction)
        ensures
            d.rotate_clockwise().rotate_counter_clockwise() == d,
            d.rotate_counter_clockwise().rotate_clockwise() == d,
    {
    }

    /// A quarter turn clockwise is a quarter turn counter-clockwise followed by turning round.
    pub proof fn clockwise_is_counter_clockwise_turned_round(d: Direction)
        ensures
            d.rotate_clockwise() == d.rotate_counter_clockwise().opposite(),
    {
    }

    /// A step in a direction is undone by a step in the opposite direction.
    pub proof fn opposite_negates_offset(d: Direction)
        ensures
            d.opposite().offset_spec().0 == -d.offset_spec().0,
            d.opposite().offset_spec().1 == -d.offset_spec().1,
    {
    }
}

} // verus!
