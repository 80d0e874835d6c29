//! Which body is selected and which is pointed at.

use crate::game::Game;
use crate::owner::OwnedBy;
use crate::ratio::Ratio;
use vstd::prelude::*;

verus! {

/// What the pointer did: it was pressed on a body or beside all of them, or
/// it came to rest over a body or over none.
#[derive(Clone, Copy, PartialEq, Eq, Debug, Structural)]
pub enum InteractionEvent {
    Clicked(Option<u64>),
    Hovered(Option<u64>),
}

/// Rings to take away from a body: all of them, or one.
#[derive(Clone, Copy, PartialEq, Eq, Debug, Structural)]
pub enum Unmark {
    All(u64),
    One(u64),
}

/// A ring to draw around a body: that of the selected body, or that of the
/// body pointed at.
#[derive(Clone, Copy, PartialEq, Eq, Debug, Structural)]
pub enum Mark {
    Selected(u64),
    Highlighted(u64),
}

/// What an interaction changes on screen.
#[derive(Clone, Copy, PartialEq, Eq, Debug, Structural)]
pub struct Marking {
    pub unmark: Option<Unmark>,
    pub mark: Option<Mark>,
}

/// The selected body after `event`.
pub open spec fn selected_after(selected: Option<u64>, event: InteractionEvent) -> Option<u64> {
    match event {
        InteractionEvent::Clicked(body) => body,
        InteractionEvent::Hovered(_) => selected,
    }
}

/// The share after `event`: a press on the body already selected moves on
/// to the next share, a press on another body starts again from the
/// default, anything else leaves the share alone.
pub open spec fn ratio_after(selected: Option<u64>, ratio: Ratio, event: InteractionEvent) -> Ratio {
    match event {
        InteractionEvent::Clicked(Some(body)) => if selected == Some(body) {
            ratio.successor()
        } else {
            Ratio::ThreeQuarter
        },
        _ => ratio,
    }
}

/// Whether a pointer that leaves every body leaves the target in place: it
/// does where the target is the selected body.
pub open spec fn target_held(selected: Option<u64>, targeted: Option<u64>) -> bool {
    selected is Some && targeted == selected
}

/// The targeted body after `event`: the body that the pointer is over,
/// unless that is the selected one.
pub open spec fn targeted_after(
    selected: Option<u64>,
    targeted: Option<u64>,
    event: InteractionEvent,
) -> Option<u64> {
    match event {
        InteractionEvent::Hovered(Some(body)) => if selected == Some(body) {
            targeted
        } else {
            Some(body)
        },
        InteractionEvent::Hovered(None) => if target_held(selected, targeted) {
            targeted
        } else {
            None
        },
        InteractionEvent::Clicked(_) => targeted,
    }
}

/// The rings to take away and to draw for `event`.
pub open spec fn marking(
    selected: Option<u64>,
    targeted: Option<u64>,
    event: InteractionEvent,
) -> Marking {
    match event {
        InteractionEvent::Clicked(Some(body)) => Marking {
            unmark: match selected {
                Some(old) => if old != body {
                    Some(Unmark::All(old))
                } else {
                    None
                },
                None => None,
            },
            mark: Some(Mark::Selected(body)),
        },
        InteractionEvent::Clicked(None) => Marking {
            unmark: match selected {
                Some(old) => Some(Unmark::All(old)),
                None => None,
            },
            mark: None,
        },
        InteractionEvent::Hovered(Some(body)) => if selected == Some(body) {
            Marking { unmark: None, mark: None }
        } else {
            Marking {
                unmark: match targeted {
                    Some(old) => Some(Unmark::One(old)),
                    None => None,
                },
                mark: Some(Mark::Highlighted(body)),
            }
        },
        InteractionEvent::Hovered(None) => if target_held(selected, targeted) {
            Marking { unmark: None, mark: None }
        } else {
            Marking {
                unmark: match targeted {
                    Some(old) => Some(Unmark::One(old)),
                    None => None,
                },
                mark: None,
            }
        },
    }
}

/// Takes one interaction into the state of the match and says what changes
/// on screen.
pub fn interaction(game: &mut Game, event: InteractionEvent) -> (change: Marking)
    ensures
        final(game).selected == selected_after(old(game).selected, event),
        final(game).targeted == targeted_after(old(game).selected, old(game).targeted, event),
        final(game).ratio == ratio_after(old(game).selected, old(game).ratio, event),
        change == marking(old(game).selected, old(game).targeted, event),
        final(game).score == old(game).score,
        final(game).elapsed == old(game).elapsed,
        final(game).ship_counts == old(game).ship_counts,
{
    let unmark_target = match game.targeted {
        Some(old) => Some(Unmark::One(old)),
        None => None,
    };
    match event {
        InteractionEvent::Clicked(Some(body)) => {
            let unmark = match game.selected {
                Some(old) => {
                    if old != body {
                        game.ratio = Ratio::ThreeQuarter;
                        Some(Unmark::All(old))
                    } else {
                        game.ratio.next();
                        None
                    }
                },
                None => {
                    game.ratio = Ratio::ThreeQuarter;
                    None
                },
            };
            game.selected = Some(body);
            Marking { unmark, mark: Some(Mark::Selected(body)) }
        },
        InteractionEvent::Hovered(Some(body)) => {
            match game.selected {
                Some(old) => {
                    if old == body {
                        return Marking { unmark: None, mark: None };
                    }
                },
                None => {},
            }
            game.targeted = Some(body);
            Marking { unmark: unmark_target, mark: Some(Mark::Highlighted(body)) }
        },
        InteractionEvent::Clicked(None) => {
            let unmark = match game.selected {
                Some(old) => Some(Unmark::All(old)),
                None => None,
            };
            game.selected = None;
            Marking { unmark, mark: None }
        },
        InteractionEvent::Hovered(None) => {
            match (game.selected, game.targeted) {
                (Some(selected), Some(highlighted)) => {
                    if selected == highlighted {
                        return Marking { unmark: None, mark: None };
                    }
                },
                _ => {},
            }
            game.targeted = None;
            Marking { unmark: unmark_target, mark: None }
        },
    }
}

/// The two panels that describe bodies.
#[derive(Clone, Copy, PartialEq, Eq, Debug, Structural)]
pub enum Panel {
    Selected,
    Highlighted,
}

/// What an interaction changes in the panels: `panel` is emptied and then
/// describes `body`, if there is one; before that the highlighted panel is
/// emptied where `clears_highlighted` says so.
#[derive(Clone, Copy, PartialEq, Eq, Debug, Structural)]
pub struct PanelChange {
    pub panel: Panel,
    pub body: Option<u64>,
    pub clears_highlighted: bool,
}

/// What `event` changes in the panels when `selected` is the selected body.
/// A press fills the panel of the selected body, or empties it, and empties
/// the other panel where it lands on a body. The pointer at rest fills the
/// panel of the highlighted body, unless it rests on the selected one.
pub fn panel_change(selected: Option<u64>, event: InteractionEvent) -> (change: PanelChange)
    ensures
        change == match event {
            InteractionEvent::Clicked(body) => PanelChange {
                panel: Panel::Selected,
                body,
                clears_highlighted: body is Some,
            },
            InteractionEvent::Hovered(body) => PanelChange {
                panel: Panel::Highlighted,
                body: if body is Some && body == selected {
                    None
                } else {
                    body
                },
                clears_highlighted: false,
            },
        },
{
    match event {
        InteractionEvent::Clicked(None) => PanelChange {
            panel: Panel::Selected,
            body: None,
            clears_highlighted: false,
        },
        InteractionEvent::Clicked(Some(body)) => PanelChange {
            panel: Panel::Selected,
            body: Some(body),
            clears_highlighted: true,
        },
        InteractionEvent::Hovered(None) => PanelChange {
            panel: Panel::Highlighted,
            body: None,
            clears_highlighted: false,
        },
        InteractionEvent::Hovered(Some(body)) => {
            let same = match selected {
                Some(chosen) => chosen == body,
                None => false,
            };
            PanelChange {
                panel: Panel::Highlighted,
                body: if same {
                    None
                } else {
                    Some(body)
                },
                clears_highlighted: false,
            }
        },
    }
}

/// The colours of the rings.
#[derive(Clone, Copy, PartialEq, Eq, Debug, Structural)]
pub enum RingColor {
    SelectedSelf,
    SelectedOther,
    HighlightedSelf,
    HighlightedOther,
}

/// The colour of a ring around a body of `owner`.
pub fn ring_color(mark: Mark, owner: OwnedBy) -> (color: RingColor)
    ensures
        color == match mark {
            Mark::Selected(_) => if owner == OwnedBy::human() {
                RingColor::SelectedSelf
            } else {
                RingColor::SelectedOther
            },
            Mark::Highlighted(_) => if owner == OwnedBy::human() {
                RingColor::HighlightedSelf
            } else {
                RingColor::HighlightedOther
            },
        },
{
    match (mark, owner.is_human()) {
        (Mark::Selected(_), true) => RingColor::SelectedSelf,
        (Mark::Selected(_), false) => RingColor::SelectedOther,
        (Mark::Highlighted(_), true) => RingColor::HighlightedSelf,
        (Mark::Highlighted(_), false) => RingColor::HighlightedOther,
    }
}

} // verus!
