//! Raw input as the engine sees it, and the abstract actions it is bound to.

use vstd::prelude::*;

verus! {

/// The keys that the engine tells apart. Every other key of the keyboard is
/// `Other`.
#[derive(Clone, Copy, Debug, PartialEq, Eq, Structural)]
pub enum Key {
    Up,
    Down,
    Left,
    Right,
    W,
    A,
    S,
    D,
    Return,
    Other,
}

/// An event of the window, reduced to what a menu reacts to.
#[derive(Clone, Copy, Debug, PartialEq, Eq, Structural)]
pub enum Event {
    /// The window was asked to close.
    Closed,
    /// A key went down.
    KeyPressed { code: Key },
    /// Anything else: mouse, focus, resize and so on.
    Other,
}

/// An enumeration used to represent actions in the game. Different
/// keys might be bound to the same abstract action.
///
/// In a menu `Up` and `Down` move the focus to the previous and the next
/// widget, `Left` and `Right` adjust the focused widget and `Enter`
/// activates it.
#[derive(Clone, Copy, Debug, PartialEq, Eq, Structural)]
pub enum GameAction {
    Up,
    Down,
    Left,
    Right,
    Enter,
}

/// The action that a key is bound to in a menu, if any.
pub open spec fn menu_action_of_key(code: Key) -> Option<GameAction> {
    match code {
        Key::Up | Key::W => Some(GameAction::Up),
        Key::Down | Key::S => Some(GameAction::Down),
        Key::Right | Key::D => Some(GameAction::Right),
        Key::Left | Key::A => Some(GameAction::Left),
        Key::Return => Some(GameAction::Enter),
        Key::Other => None,
    }
}

impl GameAction {
    /// Get the GameAction corresponding to a given keycode. A key that is
    /// bound to nothing gives `None`, which callers ignore.
    pub fn get_menu_action_from_key(code: Key) -> (action: Option<GameAction>)
        ensures
            action == menu_action_of_key(code),
    {
        match code {
            Key::Up | Key::W => Some(GameAction::Up),
            Key::Down | Key::S => Some(GameAction::Down),
            Key::Right | Key::D => Some(GameAction::Right),
            Key::Left | Key::A => Some(GameAction::Left),
            Key::Return => Some(GameAction::Enter),
            _ => None,
        }
    }
}

} // verus!
