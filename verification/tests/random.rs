use brain_engine_core::{
    GridPos, MapTile, Probability, ProbabilityError, RandomSource, TileGenerator,
    TileGeneratorDefault, TileGrid, TileSet,
};

#[test]
fn probabilities_lie_between_zero_and_one() {
    let half = Probability::from_ratio(1, 2).unwrap();
    assert_eq!(half.numerator(), 1);
    assert_eq!(half.denominator(), 2);
    assert!(Probability::from_ratio(0, 1).is_ok());
    assert!(Probability::from_ratio(7, 7).is_ok());
    assert!(Probability::from_ratio(u32::MAX, u32::MAX).is_ok());
    assert_eq!(
        Probability::from_ratio(1, 0),
        Err(ProbabilityError::ZeroDenominator)
    );
    assert_eq!(
        Probability::from_ratio(0, 0),
        Err(ProbabilityError::ZeroDenominator)
    );
    assert_eq!(
        Probability::from_ratio(3, 2),
        Err(ProbabilityError::AboveOne)
    );
    assert_eq!(
        Probability::from_ratio(u32::MAX, 1),
        Err(ProbabilityError::AboveOne)
    );
}

#[test]
fn certain_and_impossible_events_from_the_thread_source() {
    let never = Probability::from_ratio(0, 3).unwrap();
    let always = Probability::from_ratio(3, 3).unwrap();
    let mut source = RandomSource::Thread;
    for _ in 0..200 {
        assert!(!source.random_bool(never));
        assert!(source.random_bool(always));
    }
}

#[test]
fn certain_and_impossible_events_from_a_seeded_source() {
    let never = Probability::from_ratio(0, 3).unwrap();
    let always = Probability::from_ratio(3, 3).unwrap();
    let mut source = RandomSource::seeded(17);
    for _ in 0..200 {
        assert!(!source.random_bool(never));
        assert!(source.random_bool(always));
    }
}

#[test]
fn seeded_sources_repeat_their_decisions() {
    let half = Probability::from_ratio(1, 2).unwrap();
    let third = Probability::from_ratio(1, 3).unwrap();
    let mut first = RandomSource::seeded(2024);
    let mut second = RandomSource::seeded(2024);
    let mut outcomes = Vec::new();
    for turn in 0..256 {
        let probability = if turn % 2 == 0 { half } else { third };
        let outcome = first.random_bool(probability);
        assert_eq!(outcome, second.random_bool(probability));
        outcomes.push(outcome);
    }
    // A fair coin thrown this often shows both sides.
    assert!(outcomes.contains(&true));
    assert!(outcomes.contains(&false));
}

#[test]
fn seeds_decide_the_sequence() {
    let half = Probability::from_ratio(1, 2).unwrap();
    let mut first = RandomSource::seeded(1);
    let mut second = RandomSource::seeded(2);
    let a: Vec<bool> = (0..128).map(|_| first.random_bool(half)).collect();
    let b: Vec<bool> = (0..128).map(|_| second.random_bool(half)).collect();
    assert_ne!(a, b);
}

#[test]
fn thread_generator_draws_exits_and_styles() {
    let half = Probability::from_ratio(1, 2).unwrap();
    let mut generator = TileGeneratorDefault::with_probabilities(half, half);
    let tiles = TileGrid::new();
    let mut masks = std::collections::HashSet::new();
    let mut rooms = 0;
    for _ in 0..400 {
        let tile = generator.tile_at(&tiles, GridPos::new(0, 0));
        masks.insert(tile.map_tile);
        if tile.tile_set == TileSet::Room {
            rooms += 1;
        }
    }
    // With even chances every set of exits and both styles turn up.
    assert_eq!(masks.len(), 16);
    assert!(rooms > 0 && rooms < 400);
}

#[test]
fn generator_without_neighbours_follows_certain_chances() {
    let never = Probability::from_ratio(0, 1).unwrap();
    let always = Probability::from_ratio(1, 1).unwrap();
    let tiles = TileGrid::new();

    let mut open = TileGeneratorDefault::with_probabilities(always, never);
    let tile = open.tile_at(&tiles, GridPos::new(4, 4));
    assert_eq!(tile.map_tile, MapTile::NESW);
    assert_eq!(tile.tile_set, TileSet::Corridor);

    let mut closed = TileGeneratorDefault::with_seed_and_probabilities(8, never, always);
    let tile = closed.tile_at(&tiles, GridPos::new(4, 4));
    assert_eq!(tile.map_tile, MapTile::ZERO);
    assert_eq!(tile.tile_set, TileSet::Room);

    // At the end of the numbers there is no neighbour either.
    let tile = open.tile_at(&tiles, GridPos::new(i32::MAX, i32::MIN));
    assert_eq!(tile.map_tile, MapTile::NESW);
}

#[test]
fn constructors_keep_what_they_are_given() {
    let exit = Probability::from_ratio(1, 4).unwrap();
    let room = Probability::from_ratio(3, 4).unwrap();
    let generator = TileGeneratorDefault::with_probabilities(exit, room);
    assert_eq!(generator.tile_exit_probability, exit);
    assert_eq!(generator.room_probability, room);
    assert!(matches!(generator.rng, RandomSource::Thread));

    let generator = TileGeneratorDefault::with_seed_and_probabilities(5, exit, room);
    assert_eq!(generator.tile_exit_probability, exit);
    assert_eq!(generator.room_probability, room);
    assert!(matches!(generator.rng, RandomSource::Seeded(_)));

    let generator = TileGeneratorDefault::with_seed(5);
    assert_eq!(generator.tile_exit_probability.numerator(), 35);
    assert_eq!(generator.tile_exit_probability.denominator(), 100);
    assert_eq!(generator.room_probability, generator.tile_exit_probability);
    assert!(matches!(generator.rng, RandomSource::Seeded(_)));
    assert!(matches!(TileGeneratorDefault::new().rng, RandomSource::Thread));
}
