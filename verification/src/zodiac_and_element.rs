use vstd::prelude::*;

use crate::lunar_datetime::EarthlyBranch;

verus! {

/// The twelve zodiac identities, one for each earthly branch.
#[derive(Clone, Copy, Debug, PartialEq, Eq, Structural)]
pub enum Zodiac {
    Rat,
    Buffalo,
    Tiger,
    Cat,
    Dragon,
    Snake,
    Horse,
    Goat,
    Monkey,
    Chicken,
    Dog,
    Pig,
}

/// The five elements of the traditional cycle.
#[derive(Clone, Copy, Debug, PartialEq, Eq, Structural)]
pub enum Element {
    Metal,
    Wood,
    Water,
    Fire,
    Earth,
}

/// The polarity attached to each stem and branch.
#[derive(Clone, Copy, Debug, PartialEq, Eq, Structural)]
pub enum YinYang {
    Yin,
    Yang,
}

/// The earthly branch that carries a given zodiac identity.
pub open spec fn branch_of_zodiac(z: Zodiac) -> EarthlyBranch {
    match z {
        Zodiac::Rat => EarthlyBranch::EB1,
        Zodiac::Buffalo => EarthlyBranch::EB2,
        Zodiac::Tiger => EarthlyBranch::EB3,
        Zodiac::Cat => EarthlyBranch::EB4,
        Zodiac::Dragon => EarthlyBranch::EB5,
        Zodiac::Snake => EarthlyBranch::EB6,
        Zodiac::Horse => EarthlyBranch::EB7,
        Zodiac::Goat => EarthlyBranch::EB8,
        Zodiac::Monkey => EarthlyBranch::EB9,
        Zodiac::Chicken => EarthlyBranch::EB10,
        Zodiac::Dog => EarthlyBranch::EB11,
        Zodiac::Pig => EarthlyBranch::EB12,
    }
}

impl Zodiac {
    /// The earthly branch paired with this zodiac identity.
    pub fn as_zodiac(&self) -> (r: EarthlyBranch)
        ensures
            r == branch_of_zodiac(*self),
    {
        match self {
            Zodiac::Rat => EarthlyBranch::EB1,
            Zodiac::Buffalo => EarthlyBranch::EB2,
            Zodiac::Tiger => EarthlyBranch::EB3,
            Zodiac::Cat => EarthlyBranch::EB4,
            Zodiac::Dragon => EarthlyBranch::EB5,
            Zodiac::Snake => EarthlyBranch::EB6,
            Zodiac::Horse => EarthlyBranch::EB7,
            Zodiac::Goat => EarthlyBranch::EB8,
            Zodiac::Monkey => EarthlyBranch::EB9,
            Zodiac::Chicken => EarthlyBranch::EB10,
            Zodiac::Dog => EarthlyBranch::EB11,
            Zodiac::Pig => EarthlyBranch::EB12,
        }
    }
}

impl YinYang {
    pub const NEGATIVE: YinYang = YinYang::Yin;

    pub const POSITIVE: YinYang = YinYang::Yang;
}

} // verus!
