//! Moving through the menu.

use crate::screen::Screen;
use vstd::prelude::*;
use vstd::string::*;

verus! {

/// The entries of the menu, from the top.
#[derive(Clone, Copy, PartialEq, Eq, Debug, Structural)]
pub enum MenuButton {
    NewGame,
    About,
    Quit,
}

/// The number of entries.
pub const MENU_BUTTONS: i32 = 3;

/// A key that means something to the menu.
#[derive(Clone, Copy, PartialEq, Eq, Debug, Structural)]
pub enum MenuKey {
    Down,
    Up,
    Activate,
}

/// What the pointer does with a button.
#[derive(Clone, Copy, PartialEq, Eq, Debug, Structural)]
pub enum Pointer {
    Clicked,
    Hovered,
    Away,
}

impl MenuButton {
    /// The place of the entry, from 0 at the top.
    pub open spec fn place(self) -> int {
        match self {
            MenuButton::NewGame => 0,
            MenuButton::About => 1,
            MenuButton::Quit => 2,
        }
    }

    /// The screen that the entry leads to.
    pub open spec fn leads_to(self) -> Screen {
        match self {
            MenuButton::NewGame => Screen::Game,
            MenuButton::About => Screen::About,
            MenuButton::Quit => Screen::Exit,
        }
    }

    /// The entry at a place, if there is one.
    pub open spec fn at(place: int) -> Option<MenuButton> {
        if place == 0 {
            Some(MenuButton::NewGame)
        } else if place == 1 {
            Some(MenuButton::About)
        } else if place == 2 {
            Some(MenuButton::Quit)
        } else {
            None
        }
    }

    /// The words on the button.
    pub fn label(&self) -> (text: String)
        ensures
            text@ == match *self {
                MenuButton::NewGame => "New Game"@,
                MenuButton::About => "About"@,
                MenuButton::Quit => "Quit"@,
            },
    {
        match self {
            MenuButton::NewGame => String::from_str("New Game"),
            MenuButton::About => String::from_str("About"),
            MenuButton::Quit => String::from_str("Quit"),
        }
    }

    /// The place of the entry, from 0 at the top.
    pub fn index(&self) -> (place: i32)
        ensures
            place == self.place(),
    {
        match self {
            MenuButton::NewGame => 0,
            MenuButton::About => 1,
            MenuButton::Quit => 2,
        }
    }

    /// The screen that the entry leads to.
    pub fn screen(&self) -> (screen: Screen)
        ensures
            screen == self.leads_to(),
    {
        match self {
            MenuButton::NewGame => Screen::Game,
            MenuButton::About => Screen::About,
            MenuButton::Quit => Screen::Exit,
        }
    }
}

/// The entry marked after a key: down and up move the mark by one and stop
/// at the ends, and mark the top entry where none was marked.
pub open spec fn marked_after(selected: Option<i32>, key: MenuKey) -> Option<i32> {
    match key {
        MenuKey::Down => match selected {
            Some(i) => Some(
                if i + 1 < MENU_BUTTONS - 1 {
                    (i + 1) as i32
                } else {
                    (MENU_BUTTONS - 1) as i32
                },
            ),
            None => Some(0),
        },
        MenuKey::Up => match selected {
            Some(i) => Some(
                if i - 1 > 0 {
                    (i - 1) as i32
                } else {
                    0
                },
            ),
            None => Some(0),
        },
        MenuKey::Activate => selected,
    }
}

/// The screen that a key leads to: that of the marked entry, on activation.
pub open spec fn opened_by(selected: Option<i32>, key: MenuKey) -> Option<Screen> {
    match (key, selected) {
        (MenuKey::Activate, Some(i)) => match MenuButton::at(i as int) {
            Some(button) => Some(button.leads_to()),
            None => None,
        },
        _ => None,
    }
}

/// Takes a key: moves the mark, and says which screen to go to, if any.
pub fn menu_key(selected: &mut Option<i32>, key: MenuKey) -> (screen: Option<Screen>)
    ensures
        *final(selected) == marked_after(*old(selected), key),
        screen == opened_by(*old(selected), key),
{
    match key {
        MenuKey::Down => {
            *selected = Some(
                match *selected {
                    Some(i) => if i < MENU_BUTTONS - 2 {
                        i + 1
                    } else {
                        MENU_BUTTONS - 1
                    },
                    None => 0,
                },
            );
            None
        },
        MenuKey::Up => {
            *selected = Some(
                match *selected {
                    Some(i) => if i > 1 {
                        i - 1
                    } else {
                        0
                    },
                    None => 0,
                },
            );
            None
        },
        MenuKey::Activate => match *selected {
            Some(0) => Some(Screen::Game),
            Some(1) => Some(Screen::About),
            Some(2) => Some(Screen::Exit),
            _ => None,
        },
    }
}

/// Takes what the pointer does with `button`: a press opens the entry's
/// screen, resting on the entry marks it, leaving it takes the mark away.
pub fn menu_pointer(selected: &mut Option<i32>, pointer: Pointer, button: MenuButton) -> (screen:
    Option<Screen>)
    ensures
        *final(selected) == match pointer {
            Pointer::Clicked => *old(selected),
            Pointer::Hovered => Some(button.place() as i32),
            Pointer::Away => None,
        },
        screen == match pointer {
            Pointer::Clicked => Some(button.leads_to()),
            _ => None,
        },
{
    match pointer {
        Pointer::Clicked => Some(button.screen()),
        Pointer::Hovered => {
            *selected = Some(button.index());
            None
        },
        Pointer::Away => {
            *selected = None;
            None
        },
    }
}

/// Whether the mark shows beside the entry in `place`.
pub fn marker_visible(selected: Option<i32>, place: usize) -> (visible: bool)
    ensures
        visible == (selected matches Some(i) && i >= 0 && i as int == place as int),
{
    match selected {
        Some(i) => i >= 0 && i as usize == place,
        None => false,
    }
}

} // verus!
