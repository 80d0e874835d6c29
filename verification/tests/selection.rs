use wotm::game::Game;
use wotm::owner::OwnedBy;
use wotm::ratio::Ratio;
use wotm::selection::{
    interaction, panel_change, ring_color, InteractionEvent, Mark, Marking, Panel, PanelChange,
    RingColor, Unmark,
};

const MOON_A: u64 = 2;
const MOON_B: u64 = 3;

fn game(selected: Option<u64>, targeted: Option<u64>, ratio: Ratio) -> Game {
    let mut game = Game::default();
    game.selected = selected;
    game.targeted = targeted;
    game.ratio = ratio;
    game
}

#[test]
fn a_first_press_selects_with_the_default_ratio() {
    let mut state = game(None, None, Ratio::Half);
    let change = interaction(&mut state, InteractionEvent::Clicked(Some(MOON_A)));
    assert_eq!(state.selected, Some(MOON_A));
    assert_eq!(state.ratio, Ratio::ThreeQuarter);
    assert_eq!(state.targeted, None);
    assert_eq!(change, Marking { unmark: None, mark: Some(Mark::Selected(MOON_A)) });
}

#[test]
fn a_press_on_another_body_moves_the_selection_and_resets_the_ratio() {
    let mut state = game(Some(MOON_A), Some(MOON_B), Ratio::OneQuarter);
    let change = interaction(&mut state, InteractionEvent::Clicked(Some(MOON_B)));
    assert_eq!(state.selected, Some(MOON_B));
    assert_eq!(state.ratio, Ratio::ThreeQuarter);
    assert_eq!(state.targeted, Some(MOON_B));
    assert_eq!(
        change,
        Marking { unmark: Some(Unmark::All(MOON_A)), mark: Some(Mark::Selected(MOON_B)) }
    );
}

#[test]
fn a_press_on_the_selected_body_moves_the_ratio_on() {
    let mut state = game(Some(MOON_A), None, Ratio::Half);
    let change = interaction(&mut state, InteractionEvent::Clicked(Some(MOON_A)));
    assert_eq!(state.selected, Some(MOON_A));
    assert_eq!(state.ratio, Ratio::OneQuarter);
    assert_eq!(change, Marking { unmark: None, mark: Some(Mark::Selected(MOON_A)) });
}

#[test]
fn a_press_beside_every_body_drops_the_selection() {
    let mut state = game(Some(MOON_A), Some(MOON_B), Ratio::Half);
    let change = interaction(&mut state, InteractionEvent::Clicked(None));
    assert_eq!(state.selected, None);
    assert_eq!(state.targeted, Some(MOON_B));
    assert_eq!(state.ratio, Ratio::Half);
    assert_eq!(change, Marking { unmark: Some(Unmark::All(MOON_A)), mark: None });

    let mut state = game(None, None, Ratio::Half);
    let change = interaction(&mut state, InteractionEvent::Clicked(None));
    assert_eq!(state.selected, None);
    assert_eq!(change, Marking { unmark: None, mark: None });
}

#[test]
fn resting_over_a_body_targets_it() {
    let mut state = game(Some(MOON_A), None, Ratio::Half);
    let change = interaction(&mut state, InteractionEvent::Hovered(Some(MOON_B)));
    assert_eq!(state.targeted, Some(MOON_B));
    assert_eq!(state.selected, Some(MOON_A));
    assert_eq!(state.ratio, Ratio::Half);
    assert_eq!(change, Marking { unmark: None, mark: Some(Mark::Highlighted(MOON_B)) });

    let change = interaction(&mut state, InteractionEvent::Hovered(Some(7)));
    assert_eq!(state.targeted, Some(7));
    assert_eq!(
        change,
        Marking { unmark: Some(Unmark::One(MOON_B)), mark: Some(Mark::Highlighted(7)) }
    );
}

#[test]
fn resting_over_the_selected_body_changes_nothing() {
    let mut state = game(Some(MOON_A), Some(MOON_B), Ratio::Half);
    let change = interaction(&mut state, InteractionEvent::Hovered(Some(MOON_A)));
    assert_eq!(state.targeted, Some(MOON_B));
    assert_eq!(state.selected, Some(MOON_A));
    assert_eq!(change, Marking { unmark: None, mark: None });
}

#[test]
fn leaving_every_body_drops_the_target() {
    let mut state = game(Some(MOON_A), Some(MOON_B), Ratio::Half);
    let change = interaction(&mut state, InteractionEvent::Hovered(None));
    assert_eq!(state.targeted, None);
    assert_eq!(state.selected, Some(MOON_A));
    assert_eq!(change, Marking { unmark: Some(Unmark::One(MOON_B)), mark: None });

    let mut state = game(None, None, Ratio::Half);
    let change = interaction(&mut state, InteractionEvent::Hovered(None));
    assert_eq!(state.targeted, None);
    assert_eq!(change, Marking { unmark: None, mark: None });
}

#[test]
fn leaving_keeps_a_target_that_is_the_selected_body() {
    let mut state = game(Some(MOON_A), Some(MOON_A), Ratio::Half);
    let change = interaction(&mut state, InteractionEvent::Hovered(None));
    assert_eq!(state.targeted, Some(MOON_A));
    assert_eq!(change, Marking { unmark: None, mark: None });
}

#[test]
fn interactions_leave_score_and_counts_alone() {
    let mut state = game(Some(MOON_A), None, Ratio::Half);
    state.score = 9;
    state.ship_counts.insert(MOON_A, wotm::counts::OwnerCounts::new());
    for event in [
        InteractionEvent::Clicked(Some(MOON_B)),
        InteractionEvent::Hovered(Some(MOON_A)),
        InteractionEvent::Hovered(None),
        InteractionEvent::Clicked(None),
    ] {
        interaction(&mut state, event);
        assert_eq!(state.score, 9);
        assert_eq!(state.ship_counts.len(), 1);
    }
}

#[test]
fn rings_are_coloured_by_kind_and_owner() {
    assert_eq!(ring_color(Mark::Selected(1), OwnedBy::Player(0)), RingColor::SelectedSelf);
    assert_eq!(ring_color(Mark::Selected(1), OwnedBy::Player(1)), RingColor::SelectedOther);
    assert_eq!(ring_color(Mark::Selected(1), OwnedBy::Neutral), RingColor::SelectedOther);
    assert_eq!(ring_color(Mark::Highlighted(1), OwnedBy::Player(0)), RingColor::HighlightedSelf);
    assert_eq!(ring_color(Mark::Highlighted(1), OwnedBy::Neutral), RingColor::HighlightedOther);
}

#[test]
fn a_press_fills_or_empties_the_panel_of_the_selected_body() {
    assert_eq!(
        panel_change(Some(MOON_A), InteractionEvent::Clicked(Some(MOON_B))),
        PanelChange { panel: Panel::Selected, body: Some(MOON_B), clears_highlighted: true }
    );
    assert_eq!(
        panel_change(None, InteractionEvent::Clicked(Some(MOON_B))),
        PanelChange { panel: Panel::Selected, body: Some(MOON_B), clears_highlighted: true }
    );
    assert_eq!(
        panel_change(Some(MOON_A), InteractionEvent::Clicked(None)),
        PanelChange { panel: Panel::Selected, body: None, clears_highlighted: false }
    );
}

#[test]
fn the_pointer_at_rest_fills_the_panel_of_the_highlighted_body() {
    assert_eq!(
        panel_change(Some(MOON_A), InteractionEvent::Hovered(Some(MOON_B))),
        PanelChange { panel: Panel::Highlighted, body: Some(MOON_B), clears_highlighted: false }
    );
    assert_eq!(
        panel_change(Some(MOON_A), InteractionEvent::Hovered(Some(MOON_A))),
        PanelChange { panel: Panel::Highlighted, body: None, clears_highlighted: false }
    );
    assert_eq!(
        panel_change(None, InteractionEvent::Hovered(Some(MOON_A))),
        PanelChange { panel: Panel::Highlighted, body: Some(MOON_A), clears_highlighted: false }
    );
    assert_eq!(
        panel_change(Some(MOON_A), InteractionEvent::Hovered(None)),
        PanelChange { panel: Panel::Highlighted, body: None, clears_highlighted: false }
    );
}
