//! Draws of chance.

use rand::seq::IteratorRandom;
use rand::Rng;
use vstd::prelude::*;

verus! {

/// Draws an integer from `low` up to, but not including, `high`.
///
/// This is `rand::Rng::gen_range` on the thread's generator. It is taken on
/// trust that the draw lies in the range, as that function documents; it
/// panics where the range is empty, which `requires` rules out.
#[verifier::external_body]
pub(crate) fn draw_between(low: i32, high: i32) -> (drawn: i32)
    requires
        low < high,
    ensures
        low <= drawn < high,
{
    rand::thread_rng().gen_range(low, high)
}

/// Draws one of the places `0..len` of a list.
///
/// This is `rand::seq::IteratorRandom::choose` on the range of places, with
/// the thread's generator. It is taken on trust that nothing is drawn
/// exactly where there is no place, and that what is drawn is one of the
/// places, as that function documents.
#[verifier::external_body]
pub(crate) fn draw_place(len: usize) -> (drawn: Option<usize>)
    ensures
        len == 0 <==> drawn is None,
        drawn matches Some(place) ==> place < len,
{
    (0..len).choose(&mut rand::thread_rng())
}

/// Draws true with a chance of `numerator` in `denominator`.
///
/// This is `rand::Rng::gen_ratio` on the thread's generator. It is taken on
/// trust that a chance of nothing never comes true and that a chance of
/// all always does, as that function documents; it panics where the
/// denominator is zero or less than the numerator, which `requires` rules
/// out.
#[verifier::external_body]
pub(crate) fn draw_ratio(numerator: u32, denominator: u32) -> (drawn: bool)
    requires
        denominator > 0,
        numerator <= denominator,
    ensures
        numerator == 0 ==> !drawn,
        numerator == denominator ==> drawn,
{
    rand::thread_rng().gen_ratio(numerator, denominator)
}

/// Draws whether something with a chance of `chance` thousandths happens.
/// What has no chance never happens; what has a thousand thousandths or
/// more always does.
pub fn happens(chance: u32) -> (drawn: bool)
    ensures
        chance == 0 ==> !drawn,
        chance >= 1000 ==> drawn,
{
    let numerator: u32 = if chance > 1000 {
        1000
    } else {
        chance
    };
    draw_ratio(numerator, 1000)
}

} // verus!
