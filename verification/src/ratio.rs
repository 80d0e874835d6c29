//! The share of a fleet that an order sends out.

use vstd::prelude::*;
use vstd::string::*;

verus! {

/// The share of the ships around a moon that the next order dispatches.
#[derive(Copy, Clone, Debug, PartialEq, Eq, Structural)]
pub enum Ratio {
    ThreeQuarter,
    Half,
    OneQuarter,
    All,
}

impl Default for Ratio {
    fn default() -> (ratio: Ratio)
        ensures
            ratio == Ratio::ThreeQuarter,
    {
        Ratio::ThreeQuarter
    }
}

impl Ratio {
    /// The share that follows this one: 75%, 50%, 25%, 100%, and round again.
    pub open spec fn successor(self) -> Ratio {
        match self {
            Ratio::ThreeQuarter => Ratio::Half,
            Ratio::Half => Ratio::OneQuarter,
            Ratio::OneQuarter => Ratio::All,
            Ratio::All => Ratio::ThreeQuarter,
        }
    }

    /// The number of quarters in this share.
    pub open spec fn quarters(self) -> int {
        match self {
            Ratio::All => 4,
            Ratio::ThreeQuarter => 3,
            Ratio::Half => 2,
            Ratio::OneQuarter => 1,
        }
    }

    /// The share of `quarters` quarters; anything but 1, 2 or 3 is the whole.
    pub open spec fn of_quarters(quarters: int) -> Ratio {
        if quarters == 1 {
            Ratio::OneQuarter
        } else if quarters == 2 {
            Ratio::Half
        } else if quarters == 3 {
            Ratio::ThreeQuarter
        } else {
            Ratio::All
        }
    }

    /// How many of `count` ships this share is: the share rounded down, but
    /// at least one ship where there is any.
    pub open spec fn share(self, count: int) -> int {
        if count <= 0 {
            0
        } else if count * self.quarters() / 4 < 1 {
            1
        } else {
            count * self.quarters() / 4
        }
    }

    /// The share as a percentage.
    pub open spec fn words(self) -> Seq<char> {
        match self {
            Ratio::All => "100%"@,
            Ratio::ThreeQuarter => "75%"@,
            Ratio::Half => "50%"@,
            Ratio::OneQuarter => "25%"@,
        }
    }

    /// The share as a percentage, in words.
    pub fn text(&self) -> (text: String)
        ensures
            text@ == self.words(),
    {
        match self {
            Ratio::All => String::from_str("100%"),
            Ratio::ThreeQuarter => String::from_str("75%"),
            Ratio::Half => String::from_str("50%"),
            Ratio::OneQuarter => String::from_str("25%"),
        }
    }

    /// Moves on to the next share.
    pub fn next(&mut self)
        ensures
            *final(self) == old(self).successor(),
    {
        *self = match self {
            Ratio::ThreeQuarter => Ratio::Half,
            Ratio::Half => Ratio::OneQuarter,
            Ratio::OneQuarter => Ratio::All,
            Ratio::All => Ratio::ThreeQuarter,
        }
    }

    /// The number of quarters in this share.
    pub fn as_usize(&self) -> (quarters: usize)
        ensures
            quarters == self.quarters(),
    {
        match self {
            Ratio::All => 4,
            Ratio::ThreeQuarter => 3,
            Ratio::Half => 2,
            Ratio::OneQuarter => 1,
        }
    }

    /// The share of `i` quarters; anything but 1, 2 or 3 is the whole.
    pub fn from_usize(i: usize) -> (ratio: Ratio)
        ensures
            ratio == Ratio::of_quarters(i as int),
    {
        match i {
            1 => Ratio::OneQuarter,
            2 => Ratio::Half,
            3 => Ratio::ThreeQuarter,
            _ => Ratio::All,
        }
    }

    /// How many of `i` ships this share is.
    pub fn of(&self, i: usize) -> (n: usize)
        ensures
            n == self.share(i as int),
            n <= i,
            i > 0 ==> n >= 1,
    {
        if i == 0 {
            return 0;
        }
        let part: usize = match self {
            Ratio::ThreeQuarter => i / 4 * 3 + (i % 4) * 3 / 4,
            Ratio::Half => i / 2,
            Ratio::OneQuarter => i / 4,
            Ratio::All => i,
        };
        if part < 1 {
            1
        } else {
            part
        }
    }
}

/// Four steps bring a share back to itself, and no fewer do.
pub proof fn lemma_ratio_cycle(ratio: Ratio)
    ensures
        ratio.successor().successor().successor().successor() == ratio,
        ratio.successor() != ratio,
        ratio.successor().successor() != ratio,
        ratio.successor().successor().successor() != ratio,
{
}

/// A share and its number of quarters stand for each other.
pub proof fn lemma_ratio_quarters(ratio: Ratio)
    ensures
        Ratio::of_quarters(ratio.quarters()) == ratio,
        1 <= ratio.quarters() <= 4,
{
}

/// A larger share of the same fleet is never fewer ships, and a share of a
/// larger fleet is never fewer ships.
pub proof fn lemma_share_monotonic(a: Ratio, b: Ratio, count: int, more: int)
    requires
        a.quarters() <= b.quarters(),
        0 <= count <= more,
    ensures
        a.share(count) <= b.share(count),
        a.share(count) <= a.share(more),
        Ratio::All.share(count) == count,
{
    assert(count * a.quarters() <= count * b.quarters()) by (nonlinear_arith)
        requires
            a.quarters() <= b.quarters(),
            0 <= count,
    ;
    assert(count * a.quarters() <= more * a.quarters()) by (nonlinear_arith)
        requires
            0 <= a.quarters(),
            count <= more,
    ;
}

} // verus!
