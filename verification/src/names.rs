//! The names under which bodies are shown.

use vstd::prelude::*;
use vstd::string::*;

verus! {

/// The roman numeral of a number from 1 to 3999.
pub uninterp spec fn roman_numeral(n: int) -> Seq<char>;

/// Writes `n` as a roman numeral.
///
/// This is `roman::to`. It is taken on trust that it gives a numeral for
/// the numbers from 1 to 3999 and for no other, as that function documents,
/// and that the numeral depends on the number alone.
#[verifier::external_body]
pub(crate) fn to_roman(n: i32) -> (numeral: Option<String>)
    ensures
        numeral is Some <==> 1 <= n <= 3999,
        numeral matches Some(text) ==> text@ == roman_numeral(n as int),
{
    roman::to(n)
}

/// The name of a moon: its planet's, a space, and the moon's numeral.
pub open spec fn moon_words(planet: Seq<char>, numeral: Seq<char>) -> Seq<char> {
    planet + " "@ + numeral
}

/// The name of a moon of the planet `planet`, given the moon's numeral.
pub fn moon_name(planet: &str, numeral: &str) -> (name: String)
    ensures
        name@ == moon_words(planet@, numeral@),
{
    let mut name = String::from_str(planet);
    name.append(" ");
    name.append(numeral);
    name
}

/// The name under which a body is shown: a planet under its own, a moon
/// under its planet's with the moon's place around it as a roman numeral.
/// A moon whose place has no numeral has no name.
pub fn body_name(planet: &str, moon_index: Option<i32>) -> (name: Option<String>)
    ensures
        match moon_index {
            None => name matches Some(text) && text@ == planet@,
            Some(index) => if 1 <= index <= 3999 {
                name matches Some(text) && text@ == moon_words(
                    planet@,
                    roman_numeral(index as int),
                )
            } else {
                name is None
            },
        },
{
    match moon_index {
        None => Some(String::from_str(planet)),
        Some(index) => match to_roman(index) {
            Some(numeral) => Some(moon_name(planet, numeral.as_str())),
            None => None,
        },
    }
}

} // verus!
