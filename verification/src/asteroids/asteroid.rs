//! Sizes of asteroids, what destroying each is worth, what it breaks into, and how many large
//! asteroids a wave holds.
use vstd::prelude::*;

verus! {

/// Number of large asteroids in the first wave.
pub const START_ASTEROIDS: u32 = 4;

/// Most large asteroids a wave may hold.
pub const MAX_WAVE_ASTEROIDS: u32 = 12;

/// Size of an asteroid.
#[derive(Clone, Copy, Debug, PartialEq, Eq, Structural)]
pub enum AsteroidSize {
    Large,
    Medium,
    Small,
}

/// Points for destroying an asteroid of `size`: the smaller, the harder to hit, the more it pays.
pub open spec fn points_of(size: AsteroidSize) -> nat {
    match size {
        AsteroidSize::Large => 20,
        AsteroidSize::Medium => 50,
        AsteroidSize::Small => 100,
    }
}

/// What an asteroid of `size` breaks into: two of the next size down, nothing for a small one.
pub open spec fn fragment_of(size: AsteroidSize) -> Option<AsteroidSize> {
    match size {
        AsteroidSize::Large => Some(AsteroidSize::Medium),
        AsteroidSize::Medium => Some(AsteroidSize::Small),
        AsteroidSize::Small => None,
    }
}

impl AsteroidSize {
    /// Points for destroying an asteroid of this size.
    pub fn points(self) -> (points: u32)
        ensures
            points == points_of(self),
    {
        match self {
            AsteroidSize::Large => 20,
            AsteroidSize::Medium => 50,
            AsteroidSize::Small => 100,
        }
    }

    /// The size of the two fragments a destroyed asteroid of this size leaves, if any.
    pub fn fragment(self) -> (size: Option<AsteroidSize>)
        ensures
            size == fragment_of(self),
    {
        match self {
            AsteroidSize::Large => Some(AsteroidSize::Medium),
            AsteroidSize::Medium => Some(AsteroidSize::Small),
            AsteroidSize::Small => None,
        }
    }

    /// The sizes of the pieces a destroyed asteroid of this size breaks into: two of the next size
    /// down, none for a small one.
    pub fn fragments(self) -> (pieces: Vec<AsteroidSize>)
        ensures
            pieces@ == match fragment_of(self) {
                Some(piece) => seq![piece, piece],
                None => Seq::<AsteroidSize>::empty(),
            },
    {
        let mut pieces: Vec<AsteroidSize> = Vec::new();
        match self.fragment() {
            Some(piece) => {
                pieces.push(piece);
                pieces.push(piece);
            },
            None => {},
        }
        assert(pieces@ =~= match fragment_of(self) {
            Some(piece) => seq![piece, piece],
            None => Seq::<AsteroidSize>::empty(),
        });
        pieces
    }
}

/// How many large asteroids wave number `wave` holds: four in the first wave, one more per later
/// wave, never more than twelve.
pub open spec fn wave_size_of(wave: nat) -> nat {
    let grown: nat = (START_ASTEROIDS + if wave >= 1 {
        (wave - 1) as nat
    } else {
        0nat
    }) as nat;
    if grown <= MAX_WAVE_ASTEROIDS {
        grown
    } else {
        MAX_WAVE_ASTEROIDS as nat
    }
}

/// Number of large asteroids in wave `wave`.
pub fn wave_size(wave: u32) -> (count: u32)
    ensures
        count == wave_size_of(wave as nat),
{
    let later = wave.saturating_sub(1);
    if later >= MAX_WAVE_ASTEROIDS - START_ASTEROIDS {
        MAX_WAVE_ASTEROIDS
    } else {
        START_ASTEROIDS + later
    }
}

/// Breaking an asteroid makes its pieces smaller, and the smaller piece is worth more.
pub proof fn fragments_are_smaller_and_dearer(size: AsteroidSize)
    ensures
        fragment_of(size) matches Some(piece) ==> points_of(piece) > points_of(size),
        points_of(AsteroidSize::Small) > points_of(AsteroidSize::Large),
{
}

/// Waves never shrink, never exceed the cap, and the first holds four asteroids.
pub proof fn waves_grow_up_to_the_cap(earlier: nat, later: nat)
    requires
        earlier <= later,
    ensures
        wave_size_of(earlier) <= wave_size_of(later),
        wave_size_of(later) <= MAX_WAVE_ASTEROIDS,
        wave_size_of(1) == START_ASTEROIDS,
        later >= 1 && wave_size_of(later) < MAX_WAVE_ASTEROIDS ==> wave_size_of(later) < wave_size_of(
            later + 1,
        ),
{
}

/// Each wave after the first holds one more large asteroid than the one before, until the cap.
pub proof fn each_wave_adds_one_up_to_the_cap(wave: nat)
    requires
        wave >= 1,
    ensures
        wave_size_of(wave + 1) == if wave_size_of(wave) + 1 <= MAX_WAVE_ASTEROIDS {
            wave_size_of(wave) + 1
        } else {
            MAX_WAVE_ASTEROIDS as nat
        },
{
}

} // verus!
