//! Chances and the sources of randomness that decide them.

use rand::rngs::StdRng;
use rand::{Rng, SeedableRng};
use vstd::prelude::*;

verus! {

/// Why a pair of numbers is no probability.
#[derive(Copy, Clone, Debug, PartialEq, Eq, Structural)]
pub enum ProbabilityError {
    /// The denominator is zero.
    ZeroDenominator,
    /// The numerator is greater than the denominator.
    AboveOne,
}

/// A probability between 0 and 1, both included, as a ratio of two integers.
#[derive(Copy, Clone, Debug, PartialEq, Eq, Hash, Structural)]
pub struct Probability {
    numerator: u32,
    denominator: u32,
}

impl Probability {
    #[verifier::type_invariant]
    spec fn in_unit_interval(self) -> bool {
        self.denominator > 0 && self.numerator <= self.denominator
    }

    /// The number of cases in which the event happens.
    pub closed spec fn numerator_spec(self) -> u32 {
        self.numerator
    }

    /// The number of cases in all.
    pub closed spec fn denominator_spec(self) -> u32 {
        self.denominator
    }

    /// The probability of what never happens.
    pub open spec fn is_never(self) -> bool {
        self.numerator_spec() == 0
    }

    /// The probability of what always happens.
    pub open spec fn is_always(self) -> bool {
        self.numerator_spec() == self.denominator_spec()
    }

    /// Two probabilities written with the same two numbers are the same.
    pub proof fn ratio_determines(a: Probability, b: Probability)
        requires
            a.numerator_spec() == b.numerator_spec(),
            a.denominator_spec() == b.denominator_spec(),
        ensures
            a == b,
    {
    }

    /// The probability of `numerator` in `denominator`, if that lies between 0 and 1.
    pub fn from_ratio(numerator: u32, denominator: u32) -> (probability: Result<
        Probability,
        ProbabilityError,
    >)
        ensures
            match probability {
                Ok(p) => denominator > 0 && numerator <= denominator && p.numerator_spec()
                    == numerator && p.denominator_spec() == denominator,
                Err(ProbabilityError::ZeroDenominator) => denominator == 0,
                Err(ProbabilityError::AboveOne) => denominator > 0 && numerator > denominator,
            },
    {
        if denominator == 0 {
            Err(ProbabilityError::ZeroDenominator)
        } else if numerator > denominator {
            Err(ProbabilityError::AboveOne)
        } else {
            Ok(Probability { numerator, denominator })
        }
    }

    /// The number of cases in which the event happens.
    #[verifier::when_used_as_spec(numerator_spec)]
    pub fn numerator(self) -> (numerator: u32)
        ensures
            numerator == self.numerator_spec(),
            numerator <= self.denominator_spec(),
    {
        proof {
            use_type_invariant(self);
        }
        self.numerator
    }

    /// The number of cases in all, which is never zero.
    #[verifier::when_used_as_spec(denominator_spec)]
    pub fn denominator(self) -> (denominator: u32)
        ensures
            denominator == self.denominator_spec(),
            denominator > 0,
    {
        proof {
            use_type_invariant(self);
        }
        self.denominator
    }
}

/// `rand::rngs::StdRng`, the seedable generator of the rand crate. Nothing is
/// known of what is inside one but what the names below say of its state.
#[verifier::external_type_specification]
#[verifier::external_body]
pub struct ExStdRng(rand::rngs::StdRng);

/// The state of a generator: what it holds of its key, its counter and its
/// buffer, on which everything it will hand out depends.
pub uninterp spec fn rng_state(rng: StdRng) -> Seq<u8>;

/// The state in which `StdRng::seed_from_u64` makes a generator of a seed.
pub uninterp spec fn seeded_state(seed: u64) -> Seq<u8>;

/// What `Rng::random_ratio` answers on a generator in the given state, and the
/// state it leaves the generator in.
pub uninterp spec fn ratio_draw(state: Seq<u8>, numerator: u32, denominator: u32) -> (
    bool,
    Seq<u8>,
);

/// Calls `StdRng::seed_from_u64`, which expands the seed by a fixed
/// arithmetic rule into the key of the generator: the state of the generator
/// that comes back is computed from the seed alone.
#[verifier::external_body]
fn seed_std_rng(seed: u64) -> (rng: StdRng)
    ensures
        rng_state(rng) == seeded_state(seed),
{
    StdRng::seed_from_u64(seed)
}

/// Calls `Rng::random_ratio` on a `StdRng`. The answer and the new state are
/// computed from the old state and the ratio alone. The method panics on a
/// zero denominator and on a numerator above the denominator; it answers
/// `false` for a numerator of zero and `true` for one equal to the denominator.
#[verifier::external_body]
fn std_rng_ratio(rng: &mut StdRng, numerator: u32, denominator: u32) -> (outcome: bool)
    requires
        denominator > 0,
        numerator <= denominator,
    ensures
        (outcome, rng_state(*final(rng))) == ratio_draw(
            rng_state(*old(rng)),
            numerator,
            denominator,
        ),
        numerator == 0 ==> !outcome,
        numerator == denominator ==> outcome,
{
    rng.random_ratio(numerator, denominator)
}

/// Calls `Rng::random_ratio` on the generator of the running thread, which
/// `rand::rng` hands out. Nothing is known of the answer but what the method
/// promises of every generator: `false` for a numerator of zero, `true` for
/// one equal to the denominator. Whatever the ratio, `rand::rng` panics where
/// the operating system gives the thread no seed.
#[verifier::external_body]
fn thread_rng_ratio(numerator: u32, denominator: u32) -> (outcome: bool)
    requires
        denominator > 0,
        numerator <= denominator,
    ensures
        numerator == 0 ==> !outcome,
        numerator == denominator ==> outcome,
{
    rand::rng().random_ratio(numerator, denominator)
}

/// Where the random decisions come from.
pub enum RandomSource {
    /// The generator of the running thread: fresh entropy, nothing to reproduce.
    Thread,
    /// A generator made of a seed: the same seed gives the same decisions.
    Seeded(StdRng),
}

/// What the contracts know of a source.
pub enum SourceState {
    /// The generator of the running thread, of which nothing is known.
    Thread,
    /// A seeded generator in the given state.
    Seeded(Seq<u8>),
}

impl SourceState {
    /// Whether a draw with the given probability from a source in this state
    /// can come out as `outcome`.
    pub open spec fn may_draw(self, probability: Probability, outcome: bool) -> bool {
        &&& probability.is_never() ==> !outcome
        &&& probability.is_always() ==> outcome
        &&& self matches SourceState::Seeded(state) ==> outcome == ratio_draw(
            state,
            probability.numerator_spec(),
            probability.denominator_spec(),
        ).0
    }

    /// The state in which a draw with the given probability leaves the source.
    pub open spec fn after_draw(self, probability: Probability) -> SourceState {
        match self {
            SourceState::Thread => SourceState::Thread,
            SourceState::Seeded(state) => SourceState::Seeded(
                ratio_draw(state, probability.numerator_spec(), probability.denominator_spec()).1,
            ),
        }
    }
}

impl View for RandomSource {
    type V = SourceState;

    open spec fn view(&self) -> SourceState {
        match self {
            RandomSource::Thread => SourceState::Thread,
            RandomSource::Seeded(rng) => SourceState::Seeded(rng_state(*rng)),
        }
    }
}

impl RandomSource {
    /// A source whose decisions are fixed by `seed`.
    pub fn seeded(seed: u64) -> (source: RandomSource)
        ensures
            source@ == SourceState::Seeded(seeded_state(seed)),
    {
        RandomSource::Seeded(seed_std_rng(seed))
    }

    /// Decides one event of the given probability.
    pub fn random_bool(&mut self, probability: Probability) -> (outcome: bool)
        ensures
            old(self)@.may_draw(probability, outcome),
            final(self)@ == old(self)@.after_draw(probability),
    {
        let numerator = probability.numerator();
        let denominator = probability.denominator();
        match self {
            RandomSource::Thread => thread_rng_ratio(numerator, denominator),
            RandomSource::Seeded(rng) => std_rng_ratio(rng, numerator, denominator),
        }
    }
}

} // verus!
