//! The words and colours by which the game tells the player where things
//! stand.

use crate::counts::{contested, OwnerCounts};
use crate::owner::OwnedBy;
use crate::production::ProgressColor;
use crate::ratio::Ratio;
use crate::selection::RingColor;
use vstd::prelude::*;
use vstd::string::*;

verus! {

/// A colour in linear light: each channel is so many parts out of `scale`.
#[derive(Clone, Copy, PartialEq, Eq, Debug, Structural)]
pub struct Color {
    pub red: u16,
    pub green: u16,
    pub blue: u16,
    pub scale: u16,
}

/// The colours of the texts.
pub struct ColorScheme;

impl ColorScheme {
    /// The colour of ordinary text.
    pub fn text() -> (color: Color)
        ensures
            color == (Color { red: 85, green: 100, blue: 85, scale: 100 }),
    {
        Color { red: 85, green: 100, blue: 85, scale: 100 }
    }

    /// The colour of text on a light ground.
    pub fn text_dark() -> (color: Color)
        ensures
            color == (Color { red: 53, green: 186, blue: 243, scale: 255 }),
    {
        Color { red: 53, green: 186, blue: 243, scale: 255 }
    }

    /// The colour of text that matters less.
    pub fn text_dim() -> (color: Color)
        ensures
            color == (Color { red: 60, green: 60, blue: 60, scale: 100 }),
    {
        Color { red: 60, green: 60, blue: 60, scale: 100 }
    }

    /// The colour of text that warns.
    pub fn text_highlight() -> (color: Color)
        ensures
            color == (Color { red: 94, green: 84, blue: 0, scale: 100 }),
    {
        Color { red: 94, green: 84, blue: 0, scale: 100 }
    }
}

impl RingColor {
    /// The colour as `0xRRGGBB`.
    pub fn hex(&self) -> (rgb: u32)
        ensures
            rgb == match *self {
                RingColor::SelectedSelf => 0x1F7AFFu32,
                RingColor::SelectedOther => 0xF3FA66u32,
                RingColor::HighlightedSelf => 0x0F3C80u32,
                RingColor::HighlightedOther => 0x7C8034u32,
            },
    {
        match self {
            RingColor::SelectedSelf => 0x1F7AFF,
            RingColor::SelectedOther => 0xF3FA66,
            RingColor::HighlightedSelf => 0x0F3C80,
            RingColor::HighlightedOther => 0x7C8034,
        }
    }
}

impl ProgressColor {
    /// The colour as `0xRRGGBB`.
    pub fn hex(&self) -> (rgb: u32)
        ensures
            rgb == match *self {
                ProgressColor::Own => 0x43BA25u32,
                ProgressColor::Enemy => 0xFA314Au32,
                ProgressColor::Neutral => 0x222222u32,
            },
    {
        match self {
            ProgressColor::Own => 0x43BA25,
            ProgressColor::Enemy => 0xFA314A,
            ProgressColor::Neutral => 0x222222,
        }
    }
}

/// The character for a digit.
pub open spec fn digit(d: int) -> char {
    if d == 0 {
        '0'
    } else if d == 1 {
        '1'
    } else if d == 2 {
        '2'
    } else if d == 3 {
        '3'
    } else if d == 4 {
        '4'
    } else if d == 5 {
        '5'
    } else if d == 6 {
        '6'
    } else if d == 7 {
        '7'
    } else if d == 8 {
        '8'
    } else {
        '9'
    }
}

/// A number written in decimal.
pub open spec fn decimal(n: nat) -> Seq<char>
    decreases n,
{
    if n < 10 {
        seq![digit(n as int)]
    } else {
        decimal(n / 10).push(digit((n % 10) as int))
    }
}

fn digit_text(d: u64) -> (text: &'static str)
    requires
        d < 10,
    ensures
        text@ == seq![digit(d as int)],
{
    proof {
        reveal_strlit("0");
        reveal_strlit("1");
        reveal_strlit("2");
        reveal_strlit("3");
        reveal_strlit("4");
        reveal_strlit("5");
        reveal_strlit("6");
        reveal_strlit("7");
        reveal_strlit("8");
        reveal_strlit("9");
    }
    let text = match d {
        0 => "0",
        1 => "1",
        2 => "2",
        3 => "3",
        4 => "4",
        5 => "5",
        6 => "6",
        7 => "7",
        8 => "8",
        _ => "9",
    };
    text
}

/// Writes a number in decimal.
pub fn to_decimal(n: u64) -> (text: String)
    ensures
        text@ == decimal(n as nat),
    decreases n,
{
    if n < 10 {
        String::from_str(digit_text(n))
    } else {
        let mut text = to_decimal(n / 10);
        text.append(digit_text(n % 10));
        text
    }
}

/// Who a body belongs to, in words.
pub fn owner_text(owner: OwnedBy) -> (text: String)
    ensures
        text@ == match owner {
            OwnedBy::Player(slot) => if slot == 0 {
                "Owned by you"@
            } else {
                "Owned by another player"@
            },
            OwnedBy::Neutral => "Free"@,
        },
{
    match owner {
        OwnedBy::Player(slot) => if slot == 0 {
            String::from_str("Owned by you")
        } else {
            String::from_str("Owned by another player")
        },
        OwnedBy::Neutral => String::from_str("Free"),
    }
}

/// The words for a number of ships.
pub open spec fn ship_count_words(count: nat) -> Seq<char> {
    if count == 0 {
        "no ship"@
    } else if count == 1 {
        "1 ship"@
    } else {
        decimal(count) + " ships"@
    }
}

/// How many ships the owner of a body has around it, in words.
pub fn ship_count_text(counts: &OwnerCounts, owner: OwnedBy) -> (text: String)
    ensures
        text@ == ship_count_words(counts@.count(owner)),
{
    let count = counts.get(owner);
    if count == 0 {
        String::from_str("no ship")
    } else if count == 1 {
        String::from_str("1 ship")
    } else {
        let mut text = to_decimal(count as u64);
        text.append(" ships");
        text
    }
}

/// The warning shown for a body: ships of several owners are around it.
pub fn status_text(counts: &OwnerCounts) -> (text: String)
    ensures
        text@ == if contested(counts@) {
            "Under Attack"@
        } else {
            ""@
        },
{
    if counts.is_contested() {
        String::from_str("Under Attack")
    } else {
        String::from_str("")
    }
}

/// The words for the ships that the next order would send from a body of
/// the human player; nothing for any other body.
pub open spec fn selected_count_words(owner: OwnedBy, ratio: Ratio, count: nat) -> Seq<char> {
    if owner == OwnedBy::human() {
        " - "@ + decimal(ratio.share(count as int) as nat) + " ship selected"@
    } else {
        ""@
    }
}

/// How many ships the next order would send from a body, in words.
pub fn selected_count_text(counts: &OwnerCounts, owner: OwnedBy, ratio: Ratio) -> (text: String)
    ensures
        text@ == selected_count_words(owner, ratio, counts@.count(owner)),
{
    if owner.is_human() {
        let mut text = String::from_str(" - ");
        let number = to_decimal(ratio.of(counts.get(owner)) as u64);
        text.append(number.as_str());
        text.append(" ship selected");
        text
    } else {
        String::from_str("")
    }
}

/// A number written with two digits at least.
pub open spec fn two_digits(n: nat) -> Seq<char> {
    if n < 10 {
        "0"@ + decimal(n)
    } else {
        decimal(n)
    }
}

/// The time played as shown on the clock: minutes and seconds with two
/// digits each, then the milliseconds as they are.
pub open spec fn clock_words(elapsed: u64) -> Seq<char> {
    two_digits((elapsed / 60000) as nat) + ":"@ + two_digits((elapsed / 1000 % 60) as nat) + "."@
        + decimal((elapsed % 1000) as nat)
}

fn append_two_digits(text: &mut String, n: u64)
    ensures
        final(text)@ == old(text)@ + two_digits(n as nat),
{
    if n < 10 {
        text.append("0");
    }
    let digits = to_decimal(n);
    text.append(digits.as_str());
}

/// The time played, of `elapsed` milliseconds, as shown on the clock.
pub fn timer(elapsed: u64) -> (text: String)
    ensures
        text@ == clock_words(elapsed),
{
    let minutes = elapsed / 60000;
    let seconds = elapsed / 1000 % 60;
    let millis = elapsed % 1000;
    let mut text = String::from_str("");
    proof {
        reveal_strlit("");
    }
    append_two_digits(&mut text, minutes);
    text.append(":");
    append_two_digits(&mut text, seconds);
    text.append(".");
    let rest = to_decimal(millis);
    text.append(rest.as_str());
    text
}

/// The four marks that show the share: as many are lit, from the first,
/// as the share has quarters, and each stands for the share of its place.
pub fn level_markers(ratio: Ratio) -> (markers: Vec<(Ratio, bool)>)
    ensures
        markers.len() == 4,
        forall|i: int|
            0 <= i < 4 ==> (#[trigger] markers[i]) == (
                Ratio::of_quarters(i + 1),
                i < ratio.quarters(),
            ),
{
    let lit = ratio.as_usize();
    let mut markers: Vec<(Ratio, bool)> = Vec::new();
    let mut i: usize = 0;
    while i < 4
        invariant
            i <= 4,
            lit == ratio.quarters(),
            markers.len() == i,
            forall|k: int|
                0 <= k < i ==> (#[trigger] markers[k]) == (
                    Ratio::of_quarters(k + 1),
                    k < ratio.quarters(),
                ),
        decreases 4 - i,
    {
        markers.push((Ratio::from_usize(i + 1), i < lit));
        i += 1;
    }
    markers
}

} // verus!
